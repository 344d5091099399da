use covey::apply_gate::{
    archive_status_decision, check_apply_gate_blocker_target, check_apply_verification_target,
    check_archive_status_target, check_landing_target, check_live_review_match, check_mark_applied, check_mark_applied_subtask,
    check_settlement_reconcile_target, check_supersede, landing_receipt_decision, ArchiveStatusDecision, LandingRecord,
    RecordOpenSpecArchiveStatusReq, RecordedLandingReceipt,
};
use covey::archive_cleanup::{
    check_cleanup_eligible, check_cleanup_proof, cleanup_archive_status_key, cleanup_lease_deadline,
    cleanup_reservation_key, cleanup_subtask_id, cleanup_subtask_title,
};
use covey::error::CoveyError;
use covey::model::{
    ArtifactKind, MetaTaskState, OpenSpecArchiveStatus, OpenSpecArchiveStatusState, ReadyQueueItem, ReadyQueueState,
    RuntimeAttestation, SettlementTarget, SubtaskKind, SubtaskState,
};
use covey::queue::{
    auto_enqueue_key, auto_requeue_key, enqueue_for_apply_decision, new_queue_item, queue_item_holding_artifact,
    queue_states_after_enqueue, require_apply_separation, require_principal_separation, select_apply_candidates,
    ApplyCandidateFacts, EnqueueForApplyDecision,
};

fn item(queue_id: &str, digest: &str, state: ReadyQueueState, enqueued_at: i64) -> ReadyQueueItem {
    ReadyQueueItem {
        queue_id: queue_id.to_owned(),
        artifact_digest: digest.to_owned(),
        subtask_id: "subtask-1".to_owned(),
        settlement_target: SettlementTarget::Canonical,
        state,
        claimed_by_session_token: Some("session-apply".to_owned()),
        claim_fence_seq: Some(7),
        claim_lease_deadline: Some(1000),
        enqueued_at,
        updated_at: enqueued_at,
    }
}

fn evidence(e: &CoveyError) -> (String, String) {
    match e {
        CoveyError::ApplyGateEvidenceMissing { queue_id, reason } => (queue_id.clone(), reason.clone()),
        other => panic!("unexpected error {other:?}"),
    }
}

#[test]
fn enqueue_for_apply_answers_with_the_existing_item_or_enqueues_approved_work() {
    let digest = Some("blake3:a".to_owned());
    let items = vec![
        item("q-late", "blake3:a", ReadyQueueState::Queued, 20),
        item("q-early", "blake3:a", ReadyQueueState::Applied, 10),
        item("q-other", "blake3:b", ReadyQueueState::Queued, 1),
    ];
    assert_eq!(queue_item_holding_artifact(&items, "blake3:a"), Some(1));
    assert_eq!(queue_item_holding_artifact(&items, "blake3:c"), None);
    match enqueue_for_apply_decision(SubtaskState::ReadyForApply, &digest, "blake3:a", &items).unwrap() {
        EnqueueForApplyDecision::ReturnExisting(q) => assert_eq!(q, "q-early"),
        other => panic!("unexpected {other:?}"),
    }
    assert!(matches!(
        enqueue_for_apply_decision(SubtaskState::Approved, &digest, "blake3:a", &vec![]),
        Ok(EnqueueForApplyDecision::Enqueue)
    ));
    let err = enqueue_for_apply_decision(SubtaskState::Approved, &digest, "blake3:z", &items).unwrap_err();
    assert_eq!(err.message(), "illegal subtask transition from approved to ready_for_apply");
    let err = enqueue_for_apply_decision(SubtaskState::InProgress, &digest, "blake3:a", &items).unwrap_err();
    assert_eq!(err.message(), "illegal subtask transition from in_progress to ready_for_apply");
    assert!(enqueue_for_apply_decision(SubtaskState::ReadyForApply, &digest, "blake3:a", &vec![]).is_err());

    let states = queue_states_after_enqueue(&vec![
        item("q1", "d", ReadyQueueState::Queued, 1),
        item("q2", "d", ReadyQueueState::InFlight, 2),
        item("q3", "d", ReadyQueueState::Applied, 3),
    ]);
    assert_eq!(states, vec![ReadyQueueState::Superseded, ReadyQueueState::Superseded, ReadyQueueState::Applied]);
}

fn candidate(id: &str, state: SubtaskState) -> ApplyCandidateFacts {
    ApplyCandidateFacts {
        subtask_id: id.to_owned(),
        kind: SubtaskKind::Work,
        state,
        artifact_digest: Some(format!("blake3:{id}")),
        artifact_kind: ArtifactKind::PatchBundle,
        meta_task_state: MetaTaskState::Active,
        approved: true,
        queued_or_applied: false,
    }
}

#[test]
fn apply_candidates_need_approval_and_no_queue_item() {
    let facts = vec![
        candidate("a", SubtaskState::Approved),
        ApplyCandidateFacts { approved: false, ..candidate("b", SubtaskState::Approved) },
        ApplyCandidateFacts { queued_or_applied: true, ..candidate("c", SubtaskState::Approved) },
        ApplyCandidateFacts { artifact_kind: ArtifactKind::FindingsBundle, ..candidate("d", SubtaskState::Approved) },
        ApplyCandidateFacts { meta_task_state: MetaTaskState::Cancelled, ..candidate("e", SubtaskState::Approved) },
        ApplyCandidateFacts { kind: SubtaskKind::Review, ..candidate("f", SubtaskState::Approved) },
        candidate("g", SubtaskState::ReadyForApply),
        candidate("h", SubtaskState::Approved),
    ];
    assert_eq!(
        select_apply_candidates(&facts, SubtaskState::Approved),
        vec![("a".to_owned(), "blake3:a".to_owned()), ("h".to_owned(), "blake3:h".to_owned())]
    );
    assert_eq!(
        select_apply_candidates(&facts, SubtaskState::ReadyForApply),
        vec![("g".to_owned(), "blake3:g".to_owned())]
    );
    assert_eq!(auto_enqueue_key("s", "d"), "auto-enqueue-approved:s:d");
    assert_eq!(auto_requeue_key("s", "d"), "auto-requeue-ready-for-apply:s:d");
}

#[test]
fn apply_evidence_must_target_the_current_fence() {
    let in_flight = item("q1", "blake3:a", ReadyQueueState::InFlight, 1);
    check_apply_verification_target(&in_flight, "blake3:a", 7).expect("current fence");
    assert_eq!(
        evidence(&check_apply_verification_target(&in_flight, "blake3:a", 8).unwrap_err()),
        ("q1".to_owned(), "apply verification must target the current in-flight queue fence".to_owned())
    );
    assert_eq!(
        evidence(&check_apply_gate_blocker_target(&item("q1", "blake3:a", ReadyQueueState::Queued, 1), "blake3:a", 7).unwrap_err()).1,
        "apply-gate blocker must target the current in-flight queue fence"
    );
    check_live_review_match("q1", "review-1", "blake3:f", "review-1", "blake3:f").expect("live review");
    assert_eq!(
        evidence(&check_live_review_match("q1", "review-1", "blake3:f", "review-2", "blake3:f").unwrap_err()).1,
        "apply verification does not match the live approved review"
    );
    check_settlement_reconcile_target(&item("q1", "blake3:a", ReadyQueueState::Applied, 1), "blake3:a", 7)
        .expect("applied item");
    assert_eq!(
        evidence(&check_settlement_reconcile_target(&item("q1", "blake3:a", ReadyQueueState::Queued, 1), "blake3:a", 7).unwrap_err()).1,
        "settlement reconcile evidence must target an in-flight or applied queue item"
    );
    assert_eq!(
        evidence(&check_settlement_reconcile_target(&in_flight, "blake3:b", 7).unwrap_err()).1,
        "settlement reconcile evidence does not match queue artifact or fence"
    );
}

#[test]
fn mark_applied_requires_owner_fence_and_live_lease() {
    let in_flight = item("q1", "blake3:a", ReadyQueueState::InFlight, 1);
    check_mark_applied(&in_flight, "session-apply", 7, 999).expect("owner with live lease");
    match check_mark_applied(&in_flight, "session-other", 7, 999).unwrap_err() {
        CoveyError::NotQueueClaimOwner { session_token, queue_owner } => {
            assert_eq!(session_token, "session-other");
            assert_eq!(queue_owner, "session-apply");
        },
        e => panic!("unexpected {e:?}"),
    }
    let stale = check_mark_applied(&in_flight, "session-apply", 6, 999).unwrap_err();
    assert_eq!(stale.message(), "stale fence token: expected 7, provided 6");
    let expired = check_mark_applied(&in_flight, "session-apply", 7, 1000).unwrap_err();
    assert_eq!(expired.message(), "lease expired for q1");
    let queued = check_mark_applied(&item("q1", "blake3:a", ReadyQueueState::Queued, 1), "session-apply", 7, 1).unwrap_err();
    assert_eq!(queued.message(), "illegal ready_queue transition from queued to applied");
    check_supersede(&item("q1", "d", ReadyQueueState::Queued, 1)).expect("supersede queued");
    assert_eq!(
        check_supersede(&item("q1", "d", ReadyQueueState::Applied, 1)).unwrap_err().message(),
        "illegal ready_queue transition from applied to superseded"
    );
}

#[test]
fn landing_checks_and_receipts() {
    let in_flight = item("q1", "blake3:a", ReadyQueueState::InFlight, 1);
    assert_eq!(check_landing_target(LandingRecord::Authorization, &in_flight, "blake3:a", 7, "session-apply").unwrap(), true);
    let applied = item("q1", "blake3:a", ReadyQueueState::Applied, 1);
    assert_eq!(check_landing_target(LandingRecord::Receipt, &applied, "blake3:a", 7, "anyone").unwrap(), false);
    assert_eq!(
        evidence(&check_landing_target(LandingRecord::Receipt, &item("q1", "d", ReadyQueueState::Queued, 1), "d", 7, "s").unwrap_err()).1,
        "landing receipt requires an in-flight or applied queue item"
    );
    assert_eq!(
        evidence(&check_landing_target(LandingRecord::Authorization, &in_flight, "blake3:b", 7, "session-apply").unwrap_err()).1,
        "landing authorization artifact digest does not match queue item"
    );
    assert_eq!(
        evidence(&check_landing_target(LandingRecord::Authorization, &in_flight, "blake3:a", 8, "session-apply").unwrap_err()).1,
        "landing authorization claim fence does not match queue item"
    );
    let mut ownerless = item("q1", "blake3:a", ReadyQueueState::InFlight, 1);
    ownerless.claimed_by_session_token = None;
    assert_eq!(
        evidence(&check_landing_target(LandingRecord::Receipt, &ownerless, "blake3:a", 7, "s").unwrap_err()).1,
        "landing receipt in-flight queue item has no owner"
    );
    assert!(matches!(
        check_landing_target(LandingRecord::Receipt, &in_flight, "blake3:a", 7, "session-other"),
        Err(CoveyError::NotQueueClaimOwner { .. })
    ));

    assert_eq!(landing_receipt_decision("q1", &None, "main", "abc").unwrap(), true);
    let recorded = Some(RecordedLandingReceipt { target_ref: "main".to_owned(), landed_commit_oid: "abc".to_owned() });
    assert_eq!(landing_receipt_decision("q1", &recorded, "main", "abc").unwrap(), false);
    assert_eq!(
        evidence(&landing_receipt_decision("q1", &recorded, "main", "def").unwrap_err()).1,
        "landing receipt already recorded with different target or commit"
    );
}

fn archive_req(state: OpenSpecArchiveStatusState) -> RecordOpenSpecArchiveStatusReq {
    RecordOpenSpecArchiveStatusReq {
        session_token: "session-orch".to_owned(),
        queue_id: "q1".to_owned(),
        artifact_digest: "blake3:a".to_owned(),
        openspec_change_id: "change-1".to_owned(),
        state,
        blocked_reason: None,
        archive_proof_digest: None,
    }
}

fn archive_status(state: OpenSpecArchiveStatusState) -> OpenSpecArchiveStatus {
    OpenSpecArchiveStatus {
        openspec_change_id: "change-1".to_owned(),
        queue_id: "q1".to_owned(),
        subtask_id: "subtask-1".to_owned(),
        artifact_digest: "blake3:a".to_owned(),
        state,
        blocked_reason: None,
        archive_proof_digest: None,
        recorded_by_session: "session-orch".to_owned(),
    }
}

#[test]
fn archive_status_targets_and_transitions() {
    let applied = item("q1", "blake3:a", ReadyQueueState::Applied, 1);
    let req = archive_req(OpenSpecArchiveStatusState::Blocked);
    check_archive_status_target(&applied, &req, &Some("change-1".to_owned())).expect("valid target");
    assert_eq!(
        evidence(&check_archive_status_target(&item("q1", "blake3:a", ReadyQueueState::InFlight, 1), &req, &None).unwrap_err()).1,
        "OpenSpec archive status requires an applied queue item"
    );
    assert_eq!(
        evidence(&check_archive_status_target(&applied, &req, &None).unwrap_err()).1,
        "OpenSpec archive status requires imported subtask scope"
    );
    assert_eq!(
        evidence(&check_archive_status_target(&applied, &req, &Some("change-2".to_owned())).unwrap_err()).1,
        "OpenSpec archive status change id does not match imported scope"
    );

    assert_eq!(archive_status_decision(&None, &req).unwrap(), ArchiveStatusDecision::Insert);
    let blocked = Some(archive_status(OpenSpecArchiveStatusState::Blocked));
    assert_eq!(archive_status_decision(&blocked, &req).unwrap(), ArchiveStatusDecision::ReturnExisting);
    let archive = archive_req(OpenSpecArchiveStatusState::Archived);
    assert_eq!(archive_status_decision(&blocked, &archive).unwrap(), ArchiveStatusDecision::Archive);
    let archived = Some(archive_status(OpenSpecArchiveStatusState::Archived));
    assert_eq!(
        archive_status_decision(&archived, &req).unwrap_err().message(),
        "illegal ready_queue transition from archived to blocked"
    );
}

#[test]
fn archive_cleanup_names_lease_and_proof() {
    assert_eq!(cleanup_subtask_id("change-1"), "openspec:change-1:cleanup:archive");
    assert_eq!(cleanup_subtask_title("change-1"), "Archive OpenSpec change change-1");
    assert_eq!(cleanup_lease_deadline(1_000), 601_000);
    assert_eq!(
        cleanup_reservation_key("change-1", "openspec/changes/change-1"),
        "begin-openspec-archive-cleanup-reservation:change-1:openspec/changes/change-1"
    );
    assert_eq!(cleanup_archive_status_key("change-1", "q1"), "finish-openspec-archive-cleanup:change-1:q1");
    check_cleanup_eligible(true).expect("eligible");
    assert_eq!(
        evidence(&check_cleanup_eligible(false).unwrap_err()).0,
        "queue-openspec-archive-cleanup"
    );
    check_cleanup_proof(&Some("blake3:p".to_owned()), "blake3:p").expect("same proof");
    assert_eq!(
        evidence(&check_cleanup_proof(&None, "blake3:p").unwrap_err()).1,
        "OpenSpec archive cleanup proof digest does not match recorded proof"
    );
}

fn attestation(run: &str) -> RuntimeAttestation {
    RuntimeAttestation {
        session_token: format!("session-{run}"),
        agent_principal_id: format!("principal-{run}"),
        provider: "codex".to_owned(),
        model: "gpt-5".to_owned(),
        provider_run_id: run.to_owned(),
        provider_run_id_issuer: "codex-cli".to_owned(),
        process_id: Some(format!("codex-shell-{run}")),
        container_id: None,
        command_transcript_digest: format!("blake3:{run}-transcript"),
    }
}

#[test]
fn apply_separation_of_duties() {
    require_principal_separation("q1", "apply", "producer", "review").expect("three principals");
    assert_eq!(
        evidence(&require_principal_separation("q1", "apply", "same", "same").unwrap_err()).1,
        "producer and review_actor principals are not separated"
    );
    match require_principal_separation("q1", "apply", "apply", "review").unwrap_err() {
        CoveyError::ApplyGateSeparationOfDutiesViolation { conflicting_role, conflicting_principal_id, .. } => {
            assert_eq!(conflicting_role, "producer");
            assert_eq!(conflicting_principal_id, "apply");
        },
        e => panic!("unexpected {e:?}"),
    }
    let err = require_principal_separation("q1", "apply", "producer", "apply").unwrap_err();
    assert_eq!(err.message(), "apply gate principal apply is also the review_actor principal apply");

    let (p, r, a) = (attestation("run-p"), attestation("run-r"), attestation("run-a"));
    require_apply_separation("q1", "apply", "producer", "review", &p, &r, &a).expect("separated actors");
    let err = require_apply_separation("q1", "apply", "producer", "review", &p, &r, &attestation("run-r")).unwrap_err();
    assert_eq!(evidence(&err).1, "review_actor and apply_gate provider run ids are not separated");
}

#[test]
fn mark_applied_needs_a_ready_subtask_with_the_item_artifact() {
    assert!(check_mark_applied_subtask(SubtaskState::ReadyForApply, &Some("blake3:a".to_owned()), "blake3:a").is_ok());
    let wrong_digest = check_mark_applied_subtask(SubtaskState::ReadyForApply, &Some("blake3:b".to_owned()), "blake3:a");
    assert!(matches!(wrong_digest, Err(CoveyError::IllegalTransition { ref object, ref from, ref to })
        if object == "subtask" && from == "ready_for_apply" && to == "applied"));
    let wrong_state = check_mark_applied_subtask(SubtaskState::Approved, &Some("blake3:a".to_owned()), "blake3:a");
    assert!(matches!(wrong_state, Err(CoveyError::IllegalTransition { ref from, .. }) if from == "approved"));
    assert!(check_mark_applied_subtask(SubtaskState::ReadyForApply, &None, "blake3:a").is_err());
}

#[test]
fn enqueue_writes_a_queued_unclaimed_item() {
    let item = new_queue_item("queue-9".to_owned(), "sub-1", "blake3:a", SettlementTarget::Canonical, 42);
    assert_eq!(item.queue_id, "queue-9");
    assert_eq!(item.subtask_id, "sub-1");
    assert_eq!(item.artifact_digest, "blake3:a");
    assert_eq!(item.state, ReadyQueueState::Queued);
    assert!(item.claimed_by_session_token.is_none() && item.claim_fence_seq.is_none() && item.claim_lease_deadline.is_none());
    assert_eq!((item.enqueued_at, item.updated_at), (42, 42));
}
