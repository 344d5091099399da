use covey::error::CoveyError;
use covey::maintenance::{
    claim_is_expirable, expire_claims_plan, expire_reservations_plan, reap_stale_sessions_plan,
    subtask_state_after_claim_expiry, ReservationLease, SessionHeartbeat,
};
use covey::meta_task::cancel_meta_task_plan;
use covey::model::{
    Claim, ClaimState, MetaTaskState, OperatorBlocker, OperatorBlockerState, OperatorBlockerTargetKind, ReadyQueueItem,
    ReadyQueueState, ReservationState, ScopeClass, SessionState, SettlementTarget, SubtaskState,
};
use covey::operator_blocker::{
    check_openspec_scope, check_queue_target, check_record_operator_blocker_req, operator_blocker_from_req,
    operator_blocker_matches_req, record_operator_blocker_decision, resolve_operator_blocker,
    resolve_operator_blocker_decision, RecordOperatorBlockerDecision, RecordOperatorBlockerReq,
    ResolveOperatorBlockerDecision,
};
use covey::reservation::{check_release, check_reservation_scope_shape, renew_reservation_deadline};
use covey::session::{check_attestation_window, check_exit, check_heartbeat};

fn claim(id: &str, owner: &str, lease_deadline: i64, state: ClaimState) -> Claim {
    Claim {
        claim_id: id.to_owned(),
        subtask_id: format!("subtask-{id}"),
        owner_session_token: owner.to_owned(),
        fence_seq: 1,
        lease_deadline,
        state,
    }
}

fn illegal(e: &CoveyError) -> (String, String, String) {
    match e {
        CoveyError::IllegalTransition { object, from, to } => (object.clone(), from.clone(), to.clone()),
        other => panic!("unexpected error {other:?}"),
    }
}

fn destination(e: &CoveyError) -> String {
    match e {
        CoveyError::InvalidImportDestination { reason } => reason.clone(),
        other => panic!("unexpected error {other:?}"),
    }
}

#[test]
fn cancel_meta_task_settles_every_dependent() {
    let subtasks = vec![SubtaskState::Available, SubtaskState::InProgress, SubtaskState::Applied, SubtaskState::Abandoned];
    let queue = vec![ReadyQueueState::Queued, ReadyQueueState::InFlight, ReadyQueueState::Applied];
    let claims = vec![claim("c1", "s1", 10, ClaimState::Held), claim("c2", "s2", 10, ClaimState::Released)];
    let plan = cancel_meta_task_plan("meta-1", MetaTaskState::Active, &subtasks, &queue, &claims).expect("cancellable");
    assert_eq!(plan.meta_task_state, MetaTaskState::Cancelled);
    assert_eq!(
        plan.subtask_states,
        vec![SubtaskState::Abandoned, SubtaskState::Abandoned, SubtaskState::Applied, SubtaskState::Abandoned]
    );
    assert_eq!(plan.queue_states, vec![ReadyQueueState::Cancelled, ReadyQueueState::Cancelled, ReadyQueueState::Applied]);
    assert_eq!(plan.claim_states, vec![ClaimState::Revoked, ClaimState::Released]);
    assert_eq!(plan.detached_sessions, vec![("s1".to_owned(), "subtask-c1".to_owned())]);
}

#[test]
fn cancel_meta_task_is_refused_once_settled() {
    for state in [MetaTaskState::Completed, MetaTaskState::Cancelled] {
        let err = cancel_meta_task_plan("meta-1", state, &vec![], &vec![], &vec![]).expect_err("refused");
        let (object, from, to) = illegal(&err);
        assert_eq!(object, "meta_task");
        assert_eq!(from, state.name());
        assert_eq!(to, "cancelled");
    }
    let err = cancel_meta_task_plan("meta-1", MetaTaskState::Cancelled, &vec![], &vec![], &vec![]).unwrap_err();
    assert_eq!(err.message(), "illegal meta_task transition from cancelled to cancelled");
    let long_id = "m".repeat(129);
    let err = cancel_meta_task_plan(&long_id, MetaTaskState::Planning, &vec![], &vec![], &vec![]).unwrap_err();
    assert_eq!(err.message(), "meta_task_id exceeds max length 128");
    // Cancelling twice: the state a cancellation leaves is itself refused.
    let plan = cancel_meta_task_plan("meta-1", MetaTaskState::Planning, &vec![], &vec![], &vec![]).unwrap();
    assert!(cancel_meta_task_plan("meta-1", plan.meta_task_state, &vec![], &vec![], &vec![]).is_err());
}

#[test]
fn session_lifecycle_checks() {
    check_heartbeat(SessionState::Active).expect("active heartbeat");
    let (_, from, to) = illegal(&check_heartbeat(SessionState::Stale).unwrap_err());
    assert_eq!((from.as_str(), to.as_str()), ("stale", "active"));
    check_exit(SessionState::Active).expect("exit active");
    check_exit(SessionState::Stale).expect("exit stale");
    let (object, from, to) = illegal(&check_exit(SessionState::Exited).unwrap_err());
    assert_eq!((object.as_str(), from.as_str(), to.as_str()), ("session", "exited", "exited"));
    assert!(check_heartbeat(SessionState::Exited).is_err());
    check_attestation_window("session-1", 1, 1).expect("empty window");
    let err = check_attestation_window("session-1", 2, 1).unwrap_err();
    assert_eq!(
        err.message(),
        "invalid runtime attestation for session session-1: ended_at must be greater than or equal to started_at"
    );
}

#[test]
fn reservation_checks() {
    check_reservation_scope_shape(ScopeClass::Subtree, "src", &vec![]).expect("subtree");
    check_reservation_scope_shape(ScopeClass::GeneratedSet, "gen", &vec!["a".to_owned()]).expect("generated set");
    let path = |e: CoveyError| match e {
        CoveyError::InvalidPath { path } => path,
        other => panic!("unexpected error {other:?}"),
    };
    assert_eq!(path(check_reservation_scope_shape(ScopeClass::ExactPath, " ", &vec![]).unwrap_err()), " ");
    assert_eq!(
        path(check_reservation_scope_shape(ScopeClass::ExactPath, "a", &vec!["b".to_owned()]).unwrap_err()),
        "exact_path reservation must not include generated_members"
    );
    assert_eq!(
        path(check_reservation_scope_shape(ScopeClass::GeneratedSet, "gen", &vec![]).unwrap_err()),
        "generated_set reservation requires generated_members"
    );

    check_release(ReservationState::Active).expect("release active");
    let (object, from, to) = illegal(&check_release(ReservationState::Expired).unwrap_err());
    assert_eq!((object.as_str(), from.as_str(), to.as_str()), ("reservation", "expired", "released"));

    assert_eq!(renew_reservation_deadline("r1", ReservationState::Active, 100, 50, 25).unwrap(), 125);
    match renew_reservation_deadline("r1", ReservationState::Active, 50, 50, 25) {
        Err(CoveyError::LeaseExpired { object_id }) => assert_eq!(object_id, "r1"),
        other => panic!("unexpected {other:?}"),
    }
    let (_, from, to) = illegal(&renew_reservation_deadline("r1", ReservationState::Released, 100, 50, 25).unwrap_err());
    assert_eq!((from.as_str(), to.as_str()), ("released", "active"));
}

#[test]
fn maintenance_passes_reap_and_expire() {
    let sessions = vec![
        SessionHeartbeat { session_token: "a".to_owned(), state: SessionState::Active, last_heartbeat_tick: 10 },
        SessionHeartbeat { session_token: "b".to_owned(), state: SessionState::Active, last_heartbeat_tick: 60 },
        SessionHeartbeat { session_token: "c".to_owned(), state: SessionState::Exited, last_heartbeat_tick: 0 },
    ];
    let (states, result) = reap_stale_sessions_plan(&sessions, 100, 50);
    assert_eq!(states, vec![SessionState::Stale, SessionState::Active, SessionState::Exited]);
    assert_eq!(result.stale_sessions, 1);
    // A second pass over the reaped states at the same tick reaps nothing.
    let again: Vec<SessionHeartbeat> = sessions
        .iter()
        .zip(states.iter())
        .map(|(h, s)| SessionHeartbeat { session_token: h.session_token.clone(), state: *s, last_heartbeat_tick: h.last_heartbeat_tick })
        .collect();
    assert_eq!(reap_stale_sessions_plan(&again, 100, 50).1.stale_sessions, 0);

    let claims = vec![
        claim("c1", "s1", 100, ClaimState::Held),
        claim("c2", "s2", 200, ClaimState::Held),
        claim("c3", "s3", 200, ClaimState::Held),
        claim("c4", "s4", 10, ClaimState::Released),
    ];
    let owners = vec![SessionState::Active, SessionState::Active, SessionState::Stale, SessionState::Active];
    assert!(claim_is_expirable(&claims[0], SessionState::Active, 100));
    assert!(!claim_is_expirable(&claims[1], SessionState::Active, 100));
    let (claim_states, expired) = expire_claims_plan(&claims, &owners, 100);
    assert_eq!(claim_states, vec![ClaimState::Expired, ClaimState::Held, ClaimState::Expired, ClaimState::Released]);
    assert_eq!(expired.expired_count, 2);
    assert_eq!(subtask_state_after_claim_expiry(SubtaskState::InProgress), SubtaskState::Available);
    assert_eq!(subtask_state_after_claim_expiry(SubtaskState::Claimed), SubtaskState::Available);
    assert_eq!(subtask_state_after_claim_expiry(SubtaskState::ReviewPending), SubtaskState::ReviewPending);

    let leases = vec![
        ReservationLease { reservation_id: "r1".to_owned(), state: ReservationState::Active, lease_deadline: 100 },
        ReservationLease { reservation_id: "r2".to_owned(), state: ReservationState::Active, lease_deadline: 101 },
        ReservationLease { reservation_id: "r3".to_owned(), state: ReservationState::Released, lease_deadline: 1 },
    ];
    let (ids, result) = expire_reservations_plan(&leases, 100);
    assert_eq!(ids, vec!["r1".to_owned()]);
    assert_eq!(result.expired_count, 1);
}

fn blocker_req(target_kind: OperatorBlockerTargetKind) -> RecordOperatorBlockerReq {
    RecordOperatorBlockerReq {
        session_token: "session-orch".to_owned(),
        blocker_id: "blocker-1".to_owned(),
        openspec_change_id: "change-1".to_owned(),
        target_kind,
        subtask_id: "subtask-1".to_owned(),
        queue_id: Some("queue-1".to_owned()),
        artifact_digest: Some("blake3:artifact".to_owned()),
        reason: "authority_hold".to_owned(),
        source_evidence_id: None,
    }
}

fn queue_item(state: ReadyQueueState) -> ReadyQueueItem {
    ReadyQueueItem {
        queue_id: "queue-1".to_owned(),
        artifact_digest: "blake3:artifact".to_owned(),
        subtask_id: "subtask-1".to_owned(),
        settlement_target: SettlementTarget::Canonical,
        state,
        claimed_by_session_token: Some("session-apply".to_owned()),
        claim_fence_seq: Some(7),
        claim_lease_deadline: Some(1000),
        enqueued_at: 1,
        updated_at: 1,
    }
}

#[test]
fn operator_blocker_requests_are_checked() {
    check_record_operator_blocker_req(&blocker_req(OperatorBlockerTargetKind::ReadyQueue)).expect("valid request");
    let mut no_queue = blocker_req(OperatorBlockerTargetKind::ReadyQueue);
    no_queue.queue_id = None;
    assert_eq!(
        destination(&check_record_operator_blocker_req(&no_queue).unwrap_err()),
        "operator blocker ready queue target requires queue_id"
    );
    let mut subtask_target = blocker_req(OperatorBlockerTargetKind::Subtask);
    subtask_target.queue_id = None;
    check_record_operator_blocker_req(&subtask_target).expect("subtask target needs no queue id");
    let mut long_reason = blocker_req(OperatorBlockerTargetKind::Subtask);
    long_reason.reason = "r".repeat(129);
    assert_eq!(check_record_operator_blocker_req(&long_reason).unwrap_err().message(), "reason exceeds max length 128");

    let req = blocker_req(OperatorBlockerTargetKind::ReadyQueue);
    check_queue_target(&req, &queue_item(ReadyQueueState::Queued)).expect("matching queue target");
    let mut other = queue_item(ReadyQueueState::Queued);
    other.artifact_digest = "blake3:other".to_owned();
    match check_queue_target(&req, &other).unwrap_err() {
        CoveyError::ApplyGateEvidenceMissing { queue_id, reason } => {
            assert_eq!(queue_id, "queue-1");
            assert_eq!(reason, "operator blocker ready queue target does not match queue item");
        },
        e => panic!("unexpected {e:?}"),
    }
    check_openspec_scope(&Some("change-1".to_owned()), "change-1").expect("scoped");
    assert_eq!(
        destination(&check_openspec_scope(&None, "change-1").unwrap_err()),
        "operator blocker target requires imported OpenSpec subtask scope"
    );
    assert_eq!(
        destination(&check_openspec_scope(&Some("change-2".to_owned()), "change-1").unwrap_err()),
        "operator blocker change id does not match target scope"
    );
}

#[test]
fn operator_blockers_record_and_resolve_idempotently() {
    let req = blocker_req(OperatorBlockerTargetKind::ReadyQueue);
    assert_eq!(record_operator_blocker_decision(&None, &req).unwrap(), RecordOperatorBlockerDecision::Insert);
    let stored: OperatorBlocker = operator_blocker_from_req(&req);
    assert_eq!(stored.state, OperatorBlockerState::Active);
    assert_eq!(stored.recorded_by_session, "session-orch");
    assert!(operator_blocker_matches_req(&stored, &req));
    assert_eq!(
        record_operator_blocker_decision(&Some(stored.clone()), &req).unwrap(),
        RecordOperatorBlockerDecision::ReturnExisting
    );
    let mut changed = blocker_req(OperatorBlockerTargetKind::ReadyQueue);
    changed.reason = "stale_claim".to_owned();
    assert_eq!(
        destination(&record_operator_blocker_decision(&Some(stored.clone()), &changed).unwrap_err()),
        "operator blocker id already exists with different target or evidence"
    );

    assert_eq!(
        resolve_operator_blocker_decision(&stored, "fixed", "session-orch").unwrap(),
        ResolveOperatorBlockerDecision::Resolve
    );
    let resolved = resolve_operator_blocker(&stored, "fixed", "session-orch");
    assert_eq!(resolved.state, OperatorBlockerState::Resolved);
    assert_eq!(resolved.resolved_reason.as_deref(), Some("fixed"));
    assert_eq!(resolved.reason, "authority_hold");
    assert_eq!(
        resolve_operator_blocker_decision(&resolved, "fixed", "session-orch").unwrap(),
        ResolveOperatorBlockerDecision::AlreadyResolved
    );
    assert_eq!(
        destination(&resolve_operator_blocker_decision(&resolved, "other", "session-orch").unwrap_err()),
        "operator blocker is already resolved with different evidence"
    );
}
