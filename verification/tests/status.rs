use covey::model::{
    Artifact, ArtifactKind, Claim, ClaimState, CompletionPolicy, MetaTask, MetaTaskState, ReadyQueueItem,
    ReadyQueueState, Review, ReviewState, ReviewTarget, ReviewVerdict, Session, SessionRole, SessionState,
    SettlementTarget, SubtaskKind, SubtaskLifecycle, SubtaskState,
};
use covey::status::{
    default_completion_policy, default_routing_key, ApplyQueueReconcileResult, ClaimableSubtaskAvailability, MetaTaskStatus, ReadyQueueCandidate, SessionStatus,
    SubtaskCandidate, SubtaskStatus, SubtaskView,
};

fn lifecycle(state: SubtaskState, claim: Option<&str>, digest: Option<&str>) -> SubtaskLifecycle {
    SubtaskLifecycle {
        state,
        active_claim_id: claim.map(|c| c.to_owned()),
        artifact_digest: digest.map(|d| d.to_owned()),
    }
}

fn view(id: &str, kind: SubtaskKind, target: Option<ReviewTarget>, lc: SubtaskLifecycle, created: i64, updated: i64) -> Result<SubtaskView, String> {
    SubtaskView::from_parts(
        id.to_owned(),
        "meta-1".to_owned(),
        "title".to_owned(),
        kind,
        target,
        lc,
        3,
        CompletionPolicy::Reviewed,
        "mutai".to_owned(),
        created,
        updated,
    )
}

fn target() -> Option<ReviewTarget> {
    Some(ReviewTarget { subtask_id: "s0".to_owned(), artifact_digest: "blake3:a".to_owned() })
}

#[test]
fn subtask_views_check_kind_and_times() {
    let v = view("s1", SubtaskKind::Work, None, lifecycle(SubtaskState::Available, None, None), 1, 2).expect("work view");
    assert_eq!(v.subtask_id(), "s1");
    assert_eq!(v.meta_task_id(), "meta-1");
    assert_eq!(v.priority(), 3);
    assert_eq!(v.state(), SubtaskState::Available);
    assert_eq!(v.routing_key(), "mutai");
    assert_eq!((v.created_at(), v.updated_at()), (1, 2));
    assert_eq!(
        view("s1", SubtaskKind::Work, target(), lifecycle(SubtaskState::Available, None, None), 1, 2).unwrap_err(),
        "work subtask view cannot carry review target"
    );
    assert_eq!(
        view("s1", SubtaskKind::Review, None, lifecycle(SubtaskState::Available, None, None), 1, 2).unwrap_err(),
        "review subtask view is missing review target"
    );
    assert_eq!(
        view("s1", SubtaskKind::Cleanup, target(), lifecycle(SubtaskState::Available, None, None), 1, 2).unwrap_err(),
        "cleanup subtask view cannot carry review target"
    );
    assert_eq!(
        view("s1", SubtaskKind::Work, None, lifecycle(SubtaskState::Available, None, None), 3, 2).unwrap_err(),
        "subtask view updated_at must be greater than or equal to created_at"
    );
    let review = view("r1", SubtaskKind::Review, target(), lifecycle(SubtaskState::Available, None, None), 1, 1)
        .expect("review view");
    assert_eq!(review.review_target().map(|t| t.subtask_id.as_str()), Some("s0"));
}

fn session(active: Option<&str>) -> Session {
    Session {
        session_token: "session-1".to_owned(),
        agent_principal_id: "agent-1".to_owned(),
        agent_instance_id: "agent-1-a".to_owned(),
        role: SessionRole::Executor,
        state: SessionState::Active,
        active_subtask_id: active.map(|a| a.to_owned()),
    }
}

fn work_view(id: &str, state: SubtaskState, claim: Option<&str>, digest: Option<&str>) -> SubtaskView {
    view(id, SubtaskKind::Work, None, lifecycle(state, claim, digest), 1, 1).unwrap()
}

#[test]
fn session_status_requires_the_named_active_subtask() {
    let s = SessionStatus::from_parts(session(None), None).expect("idle session");
    assert!(s.active_subtask().is_none());
    let s = SessionStatus::from_parts(session(Some("s1")), Some(work_view("s1", SubtaskState::InProgress, None, None)))
        .expect("busy session");
    assert_eq!(s.active_subtask().map(|v| v.subtask_id()), Some("s1"));
    assert_eq!(
        SessionStatus::from_parts(session(Some("s1")), None).unwrap_err(),
        "session status requires active_subtask view"
    );
    assert_eq!(
        SessionStatus::from_parts(session(None), Some(work_view("s1", SubtaskState::InProgress, None, None))).unwrap_err(),
        "session status must not include active_subtask"
    );
    assert_eq!(
        SessionStatus::from_parts(session(Some("s1")), Some(work_view("s2", SubtaskState::InProgress, None, None))).unwrap_err(),
        "session status active_subtask must match session state"
    );
}

fn claim(id: &str, subtask: &str) -> Claim {
    Claim {
        claim_id: id.to_owned(),
        subtask_id: subtask.to_owned(),
        owner_session_token: "session-1".to_owned(),
        fence_seq: 1,
        lease_deadline: 10,
        state: ClaimState::Held,
    }
}

fn artifact(digest: &str, subtask: &str) -> Artifact {
    Artifact { artifact_digest: digest.to_owned(), produced_by_subtask_id: subtask.to_owned(), kind: ArtifactKind::PatchBundle }
}

fn review(subtask: &str, verdict: Option<ReviewVerdict>) -> Review {
    Review {
        review_id: "r1".to_owned(),
        subtask_id: subtask.to_owned(),
        artifact_digest: "blake3:a".to_owned(),
        state: ReviewState::Decided,
        verdict,
    }
}

fn item(subtask: &str, state: ReadyQueueState) -> ReadyQueueItem {
    ReadyQueueItem {
        queue_id: "q1".to_owned(),
        artifact_digest: "blake3:a".to_owned(),
        subtask_id: subtask.to_owned(),
        settlement_target: SettlementTarget::Canonical,
        state,
        claimed_by_session_token: None,
        claim_fence_seq: Some(4),
        claim_lease_deadline: None,
        enqueued_at: 5,
        updated_at: 6,
    }
}

#[test]
fn subtask_status_checks_attachments_and_derives_readiness() {
    let st = SubtaskStatus::new_with_landing_receipt(
        work_view("s1", SubtaskState::ReadyForApply, Some("c1"), Some("blake3:a")),
        Some(claim("c1", "s1")),
        Some(artifact("blake3:a", "s1")),
        vec![review("s1", Some(ReviewVerdict::Approve))],
        vec![item("s1", ReadyQueueState::Queued)],
        true,
    )
    .expect("consistent status");
    let r = st.readiness();
    assert!(r.covey_imported && r.review_approved && r.apply_queued && r.landed);
    assert!(!r.execution_ready && !r.planning_ready && !r.apply_authorized && !r.shipped_verified);

    let available = SubtaskStatus::new(work_view("s1", SubtaskState::Available, None, None), None, None, vec![], vec![])
        .expect("available work");
    assert!(available.readiness().execution_ready);

    let err = |claim_row: Option<Claim>, art: Option<Artifact>, lc_claim: Option<&str>, lc_digest: Option<&str>| {
        SubtaskStatus::new(work_view("s1", SubtaskState::InProgress, lc_claim, lc_digest), claim_row, art, vec![], vec![])
            .unwrap_err()
    };
    assert_eq!(err(None, None, Some("c1"), None), "subtask status requires active claim row");
    assert_eq!(err(Some(claim("c2", "s1")), None, Some("c1"), None), "subtask status claim_id must match active claim");
    assert_eq!(err(Some(claim("c1", "s9")), None, Some("c1"), None), "subtask status claim must belong to the subtask");
    assert_eq!(err(Some(claim("c1", "s1")), None, None, None), "subtask status must not include claim without active claim");
    assert_eq!(err(None, None, None, Some("blake3:a")), "subtask status requires artifact row");
    assert_eq!(
        err(None, Some(artifact("blake3:b", "s1")), None, Some("blake3:a")),
        "subtask status artifact_digest must match lifecycle artifact"
    );
    assert_eq!(
        err(None, Some(artifact("blake3:a", "s9")), None, Some("blake3:a")),
        "subtask status artifact must belong to the subtask"
    );
    assert_eq!(
        SubtaskStatus::new(work_view("s1", SubtaskState::InProgress, None, None), None, None, vec![review("s9", None)], vec![])
            .unwrap_err(),
        "subtask status reviews must belong to the subtask"
    );
    assert_eq!(
        SubtaskStatus::new(work_view("s1", SubtaskState::InProgress, None, None), None, None, vec![], vec![item("s9", ReadyQueueState::Queued)])
            .unwrap_err(),
        "subtask status ready-queue items must belong to the subtask"
    );
}

#[test]
fn meta_task_status_and_candidates() {
    let meta = MetaTask { meta_task_id: "meta-1".to_owned(), prompt_text: "p".to_owned(), state: MetaTaskState::Active };
    let status = MetaTaskStatus::new(meta, vec![work_view("s1", SubtaskState::Available, None, None)]).expect("own subtasks");
    assert_eq!(status.subtasks().len(), 1);
    let other = MetaTask { meta_task_id: "meta-2".to_owned(), prompt_text: "p".to_owned(), state: MetaTaskState::Active };
    assert_eq!(
        MetaTaskStatus::new(other, vec![work_view("s1", SubtaskState::Available, None, None)]).unwrap_err(),
        "meta-task status subtasks must belong to the meta-task"
    );

    let availability = ClaimableSubtaskAvailability::new(3, 1);
    assert_eq!((availability.executor_claimable_count(), availability.reviewer_claimable_count()), (3, 1));

    let c = SubtaskCandidate::new(
        "r1".to_owned(),
        "meta-1".to_owned(),
        "review".to_owned(),
        SubtaskKind::Review,
        Some("s1".to_owned()),
        Some("blake3:a".to_owned()),
        SubtaskState::Available,
        None,
        5,
        7,
        false,
        2,
        1,
        1,
    )
    .expect("review candidate");
    assert_eq!(c.review_target.as_ref().map(|t| t.artifact_digest.as_str()), Some("blake3:a"));
    assert_eq!(c.effective_priority, 7);
    let err = SubtaskCandidate::new(
        "r1".to_owned(),
        "meta-1".to_owned(),
        "review".to_owned(),
        SubtaskKind::Review,
        Some("s1".to_owned()),
        None,
        SubtaskState::Available,
        None,
        5,
        7,
        false,
        2,
        1,
        1,
    )
    .unwrap_err();
    assert_eq!(err, "review candidate requires complete review target");

    let queued = ReadyQueueCandidate::from_item(&item("s1", ReadyQueueState::Queued)).expect("queued item");
    assert_eq!(queued.last_claim_fence_seq, Some(4));
    assert_eq!(queued.enqueued_at, 5);
    assert_eq!(
        ReadyQueueCandidate::from_item(&item("s1", ReadyQueueState::InFlight)).unwrap_err(),
        "ready-queue candidate must be queued"
    );

    let reconciled = ApplyQueueReconcileResult::new(2, 1, vec!["q1".to_owned(), "q2".to_owned(), "q3".to_owned()]);
    assert_eq!(reconciled.enqueued_count(), 3);
}

#[test]
fn ready_queue_candidates_read_queued_items_in_order() {
    let mut second = item("s2", ReadyQueueState::Queued);
    second.queue_id = "q2".to_owned();
    let candidates = covey::status::ready_queue_candidates(&vec![item("s1", ReadyQueueState::Queued), second])
        .expect("queued items");
    assert_eq!(candidates.len(), 2);
    assert_eq!(candidates[1].queue_id, "q2");
    let err = covey::status::ready_queue_candidates(&vec![item("s1", ReadyQueueState::Applied)]).unwrap_err();
    assert_eq!(err.message(), "invalid observability row: ready-queue candidate must be queued");
}

#[test]
fn subtask_view_defaults_and_time_order() {
    assert_eq!(default_completion_policy(), CompletionPolicy::Direct);
    assert_eq!(default_routing_key(), "default");
    let v = view("s1", SubtaskKind::Work, None, lifecycle(SubtaskState::Available, None, None), 5, 9).unwrap();
    assert!(v.created_at() <= v.updated_at());
    assert!(v.review_target().is_none() && v.kind() == SubtaskKind::Work);
}
