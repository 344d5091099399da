use covey::current_work::{
    classify_prose_current_work, lease_now_ms, operator_blocker_kind, prose_blocker_from_row, resolve_blocker_in,
    route_blocker_id, select_stale_claims, single_resolution, stale_claim_window, CurrentClaimRow, stale_idle_ms, typed_ref_fragment, CurrentWorkBlockerRoute,
    OpenSpecCurrentWork, OpenSpecCurrentWorkBlockerKind, OpenSpecCurrentWorkOwner, OpenSpecCurrentWorkState,
    ProseCurrentWork, ProseCurrentWorkOwner, ProseCurrentWorkState, ProseQueueStateRow, ProseReviewStateRow,
    ProseSubtaskStateRow,
};
use covey::error::CoveyError;
use covey::model::{
    Claim, ClaimState, CompletionPolicy, ReadyQueueItem, ReadyQueueState, ReviewState, SettlementTarget, SubtaskKind,
    SubtaskLifecycle, SubtaskState,
};
use covey::status::SubtaskView;

fn subtask(id: &str, state: SubtaskState, claim: Option<&str>, digest: Option<&str>) -> SubtaskView {
    SubtaskView::from_parts(
        id.to_owned(),
        "openspec:change-1".to_owned(),
        format!("title {id}"),
        SubtaskKind::Work,
        None,
        SubtaskLifecycle {
            state,
            active_claim_id: claim.map(|c| c.to_owned()),
            artifact_digest: digest.map(|d| d.to_owned()),
        },
        1,
        CompletionPolicy::Reviewed,
        "mutai".to_owned(),
        1,
        2,
    )
    .expect("valid subtask view")
}

fn queue(id: &str, state: ReadyQueueState) -> ReadyQueueItem {
    ReadyQueueItem {
        queue_id: id.to_owned(),
        artifact_digest: format!("blake3:{id}"),
        subtask_id: "s1".to_owned(),
        settlement_target: SettlementTarget::Canonical,
        state,
        claimed_by_session_token: None,
        claim_fence_seq: None,
        claim_lease_deadline: None,
        enqueued_at: 1,
        updated_at: 1,
    }
}

fn work(subtasks: Vec<SubtaskView>, items: Vec<ReadyQueueItem>, claims: Vec<Claim>, now: i64) -> OpenSpecCurrentWork {
    OpenSpecCurrentWork::from_parts(
        "change-1".to_owned(),
        subtasks,
        Vec::new(),
        items,
        Vec::new(),
        Vec::new(),
        Vec::new(),
        Vec::new(),
        Vec::new(),
        claims,
        Vec::new(),
        Vec::new(),
        Vec::new(),
        now,
    )
}

#[test]
fn empty_packet_has_one_missing_import_blocker() {
    let w = work(Vec::new(), Vec::new(), Vec::new(), 0);
    assert_eq!(w.blockers.len(), 1);
    let b = &w.blockers[0];
    assert_eq!(b.blocker_id, "blocker_openspec_current_work_missing_import_change-1");
    assert_eq!(b.evidence_id, "openspec_current_work:missing_import:change-1");
    assert_eq!(b.kind, OpenSpecCurrentWorkBlockerKind::MissingImport);
    assert_eq!(b.reason, "OpenSpec change change-1 has no Covey scoped subtasks");
    assert_eq!(w.state, OpenSpecCurrentWorkState::Blocked);
    assert_eq!(w.next_owner, OpenSpecCurrentWorkOwner::Covey);
}

#[test]
fn packet_labels_follow_the_lifecycle() {
    let w = work(vec![subtask("s1", SubtaskState::Available, None, None)], Vec::new(), Vec::new(), 0);
    assert_eq!((w.state, w.next_owner), (OpenSpecCurrentWorkState::Imported, OpenSpecCurrentWorkOwner::Executor));
    assert_eq!(w.subtask_ids, vec!["s1".to_owned()]);
    assert!(w.blockers.is_empty());

    let w = work(vec![subtask("s1", SubtaskState::InProgress, Some("c1"), None)], Vec::new(), Vec::new(), 0);
    assert_eq!((w.state, w.next_owner), (OpenSpecCurrentWorkState::Claimed, OpenSpecCurrentWorkOwner::Executor));
    assert_eq!(w.claim_ids, vec!["c1".to_owned()]);

    let w = work(vec![subtask("s1", SubtaskState::ArtifactPublished, None, Some("blake3:a"))], Vec::new(), Vec::new(), 0);
    assert_eq!((w.state, w.next_owner), (OpenSpecCurrentWorkState::Reviewing, OpenSpecCurrentWorkOwner::Reviewer));
    assert_eq!(w.artifact_digests, vec!["blake3:a".to_owned()]);

    let w = work(vec![subtask("s1", SubtaskState::ReadyForApply, None, None)], vec![queue("q1", ReadyQueueState::Queued)], Vec::new(), 0);
    assert_eq!((w.state, w.next_owner), (OpenSpecCurrentWorkState::Applying, OpenSpecCurrentWorkOwner::ApplyGate));
    assert_eq!(w.queue_ids, vec!["q1".to_owned()]);
}

#[test]
fn blocked_subtasks_and_expired_claims_are_blockers() {
    let w = work(vec![subtask("s1", SubtaskState::Blocked, None, None)], Vec::new(), Vec::new(), 0);
    assert_eq!(w.state, OpenSpecCurrentWorkState::Blocked);
    assert_eq!(w.blockers.len(), 1);
    assert_eq!(w.blockers[0].blocker_id, "blocker_openspec_current_work_subtask_blocked_s1");
    assert_eq!(w.blockers[0].reason, "subtask state is blocked");
    assert_eq!(w.next_owner, OpenSpecCurrentWorkOwner::Executor);

    let claim = Claim {
        claim_id: "c1".to_owned(),
        subtask_id: "s1".to_owned(),
        owner_session_token: "session-1".to_owned(),
        fence_seq: 1,
        lease_deadline: 100,
        state: ClaimState::Held,
    };
    let w = work(vec![subtask("s1", SubtaskState::InProgress, Some("c1"), None)], Vec::new(), vec![claim], 100);
    assert_eq!(w.blockers.len(), 1);
    assert_eq!(w.blockers[0].blocker_id, "blocker_openspec_current_work_expired_claim_c1");
    assert_eq!(w.blockers[0].kind, OpenSpecCurrentWorkBlockerKind::ExpiredClaim);
    assert_eq!(w.blockers[0].reason, "claim c1 lease_deadline 100 is at or before lease clock 100");
    assert_eq!(w.next_owner, OpenSpecCurrentWorkOwner::Covey);
}

#[test]
fn blocker_ids_route_and_resolve() {
    assert!(matches!(route_blocker_id("other"), CurrentWorkBlockerRoute::NotFound));
    match route_blocker_id("blocker_openspec_current_work_missing_import_change-1") {
        CurrentWorkBlockerRoute::Change { change_id } => assert_eq!(change_id, "change-1"),
        other => panic!("unexpected {other:?}"),
    }
    match route_blocker_id("blocker_openspec_current_work_operator_blocked_op-1") {
        CurrentWorkBlockerRoute::OperatorBlocker { operator_blocker_id } => assert_eq!(operator_blocker_id, "op-1"),
        other => panic!("unexpected {other:?}"),
    }
    assert!(matches!(
        route_blocker_id("blocker_openspec_current_work_missing_import_"),
        CurrentWorkBlockerRoute::AnyChange
    ));
    assert!(matches!(
        route_blocker_id("blocker_openspec_current_work_subtask_blocked_s1"),
        CurrentWorkBlockerRoute::AnyChange
    ));

    let w = work(Vec::new(), Vec::new(), Vec::new(), 0);
    let resolution =
        resolve_blocker_in(w, "blocker_openspec_current_work_missing_import_change-1").expect("known blocker");
    assert_eq!(resolution.openspec_change_id, "change-1");
    assert_eq!(resolution.blocker.kind, OpenSpecCurrentWorkBlockerKind::MissingImport);
    let w = work(Vec::new(), Vec::new(), Vec::new(), 0);
    assert!(matches!(
        resolve_blocker_in(w, "blocker_unknown"),
        Err(CoveyError::CurrentWorkBlockerNotFound { blocker_id }) if blocker_id == "blocker_unknown"
    ));

    assert!(matches!(single_resolution(Vec::new(), "b"), Err(CoveyError::CurrentWorkBlockerNotFound { .. })));
    let one = resolve_blocker_in(work(Vec::new(), Vec::new(), Vec::new(), 0), "blocker_openspec_current_work_missing_import_change-1").unwrap();
    let two = resolve_blocker_in(work(Vec::new(), Vec::new(), Vec::new(), 0), "blocker_openspec_current_work_missing_import_change-1").unwrap();
    assert!(matches!(single_resolution(vec![one], "b"), Ok(_)));
    let one = resolve_blocker_in(work(Vec::new(), Vec::new(), Vec::new(), 0), "blocker_openspec_current_work_missing_import_change-1").unwrap();
    let err = single_resolution(vec![one, two], "b").unwrap_err();
    assert_eq!(err.message(), "current-work blocker is ambiguous: b");
}

#[test]
fn clocks_and_fragments() {
    assert_eq!(lease_now_ms(50, 40), 50);
    assert_eq!(lease_now_ms(10, 40), 40);
    assert_eq!(lease_now_ms(-5, -10), 0);
    assert_eq!(stale_claim_window(100, 1_000), (100, 900));
    assert_eq!(stale_claim_window(-3, 1_000), (0, 1_000));
    assert_eq!(stale_claim_window(10, i64::MIN), (10, i64::MIN));
    assert_eq!(stale_idle_ms(1_000, 400), 600);
    assert_eq!(stale_idle_ms(400, 1_000), 0);
    assert_eq!(typed_ref_fragment("openspec:change/1.2"), "openspec_change_1_2");
    assert_eq!(operator_blocker_kind("authority_denied"), OpenSpecCurrentWorkBlockerKind::AuthorityHold);
    assert_eq!(operator_blocker_kind("something else"), OpenSpecCurrentWorkBlockerKind::OperatorBlocked);
}

fn sub(id: &str, state: SubtaskState) -> ProseSubtaskStateRow {
    ProseSubtaskStateRow { subtask_id: id.to_owned(), state }
}

fn item(id: &str, digest: &str, state: ReadyQueueState) -> ProseQueueStateRow {
    ProseQueueStateRow { queue_id: id.to_owned(), artifact_digest: digest.to_owned(), state }
}

#[test]
fn prose_tasksets_are_classified() {
    let none: Vec<ProseReviewStateRow> = Vec::new();
    assert_eq!(
        classify_prose_current_work(&vec![sub("s1", SubtaskState::Available)], &vec![], &none, &vec![]),
        (ProseCurrentWorkState::Imported, ProseCurrentWorkOwner::Covey)
    );
    assert_eq!(
        classify_prose_current_work(&vec![sub("s1", SubtaskState::ChangesRequested)], &vec![], &none, &vec![]),
        (ProseCurrentWorkState::Blocked, ProseCurrentWorkOwner::Operator)
    );
    assert_eq!(
        classify_prose_current_work(
            &vec![sub("s1", SubtaskState::Applied)],
            &vec![item("q1", "d", ReadyQueueState::Applied)],
            &none,
            &vec![]
        ),
        (ProseCurrentWorkState::Applied, ProseCurrentWorkOwner::Covey)
    );
    assert_eq!(
        classify_prose_current_work(&vec![sub("s1", SubtaskState::ReadyForApply)], &vec![], &none, &vec![]),
        (ProseCurrentWorkState::Applying, ProseCurrentWorkOwner::SchedulerApply)
    );
    assert_eq!(
        classify_prose_current_work(
            &vec![sub("s1", SubtaskState::Approved)],
            &vec![],
            &vec![ProseReviewStateRow { review_id: "r1".to_owned(), state: ReviewState::Requested }],
            &vec![]
        ),
        (ProseCurrentWorkState::Reviewing, ProseCurrentWorkOwner::Reviewer)
    );
    assert_eq!(
        classify_prose_current_work(&vec![sub("s1", SubtaskState::Claimed)], &vec![], &none, &vec![]),
        (ProseCurrentWorkState::Claimed, ProseCurrentWorkOwner::Executor)
    );

    let blocker = prose_blocker_from_row("b1".to_owned(), Some("q1".to_owned()), None, None, "apply_failed", "detail".to_owned());
    assert_eq!(blocker.evidence_id, "prose_current_work:apply_failed:b1");
    assert_eq!(blocker.owner, ProseCurrentWorkOwner::Operator);
    assert_eq!(blocker.reason, "detail");

    let work = ProseCurrentWork::from_rows(
        "taskset-1".to_owned(),
        "meta-1".to_owned(),
        "lightweight_prose_intake".to_owned(),
        "blake3:preview".to_owned(),
        vec![sub("s1", SubtaskState::InProgress), sub("s2", SubtaskState::Available)],
        vec![item("q2", "blake3:b", ReadyQueueState::Applied), item("q1", "blake3:a", ReadyQueueState::Applied), item("q3", "blake3:b", ReadyQueueState::Superseded)],
        vec![ProseReviewStateRow { review_id: "r1".to_owned(), state: ReviewState::Decided }],
        vec![blocker],
    );
    assert_eq!(work.state, ProseCurrentWorkState::Blocked);
    assert_eq!(work.next_owner, ProseCurrentWorkOwner::Operator);
    assert_eq!(work.subtask_ids, vec!["s1".to_owned(), "s2".to_owned()]);
    assert_eq!(work.queue_ids, vec!["q2".to_owned(), "q1".to_owned(), "q3".to_owned()]);
    assert_eq!(work.artifact_digests, vec!["blake3:a".to_owned(), "blake3:b".to_owned()]);
    assert_eq!(work.review_ids, vec!["r1".to_owned()]);
}

fn stale_row(claim_id: &str, state: SubtaskState, digest: Option<&str>, updated_at: i64, lease_deadline: i64) -> CurrentClaimRow {
    let subtask = SubtaskView::from_parts(
        format!("sub-{claim_id}"),
        "openspec:change-1".to_owned(),
        "title".to_owned(),
        SubtaskKind::Work,
        None,
        SubtaskLifecycle { state, active_claim_id: Some(claim_id.to_owned()), artifact_digest: digest.map(|d| d.to_owned()) },
        1,
        CompletionPolicy::Reviewed,
        "mutai".to_owned(),
        1,
        updated_at,
    )
    .unwrap();
    let claim = Claim {
        claim_id: claim_id.to_owned(),
        subtask_id: format!("sub-{claim_id}"),
        owner_session_token: "session-1".to_owned(),
        fence_seq: 1,
        lease_deadline,
        state: ClaimState::Held,
    };
    CurrentClaimRow { claim, subtask }
}

#[test]
fn stale_claims_are_held_live_idle_claims_without_artifacts() {
    let rows = vec![
        stale_row("c1", SubtaskState::InProgress, None, 100, 10_000),
        stale_row("c2", SubtaskState::Claimed, None, 950, 10_000),
        stale_row("c3", SubtaskState::InProgress, Some("blake3:a"), 100, 10_000),
        stale_row("c4", SubtaskState::InProgress, None, 100, 500),
        stale_row("c5", SubtaskState::ReviewPending, None, 100, 10_000),
        stale_row("c6", SubtaskState::Claimed, None, 200, 10_000),
    ];
    let stale = select_stale_claims(&rows, 500, 1_000);
    let ids: Vec<&str> = stale.iter().map(|s| s.claim.claim_id.as_str()).collect();
    assert_eq!(ids, vec!["c1", "c6"]);
    assert_eq!(stale[0].idle_for_ms, 900);
    assert_eq!(stale[0].threshold_ms, 500);
    let negative = select_stale_claims(&rows, -5, 1_000);
    assert_eq!(negative.len(), 3);
    assert_eq!(negative[1].threshold_ms, 0);
}
