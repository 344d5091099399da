use covey::model::{
    ArtifactKind, Claim, ClaimState, CompletionPolicy, Session, SessionRole, SessionState, SubtaskKind,
    SubtaskLifecycle, SubtaskState,
};
use covey::observability::{ExpiringClaim, LandingAuthorizationStatus, ReadyQueueMetrics, StuckSubtask};
use covey::status::SubtaskView;

fn claimed_view(claim: Option<&str>) -> SubtaskView {
    SubtaskView::from_parts(
        "s1".to_owned(),
        "meta-1".to_owned(),
        "title".to_owned(),
        SubtaskKind::Work,
        None,
        SubtaskLifecycle {
            state: if claim.is_some() { SubtaskState::InProgress } else { SubtaskState::Available },
            active_claim_id: claim.map(|c| c.to_owned()),
            artifact_digest: None,
        },
        1,
        CompletionPolicy::Reviewed,
        "mutai".to_owned(),
        1,
        1,
    )
    .unwrap()
}

fn claim(id: &str, subtask: &str, owner: &str) -> Claim {
    Claim {
        claim_id: id.to_owned(),
        subtask_id: subtask.to_owned(),
        owner_session_token: owner.to_owned(),
        fence_seq: 1,
        lease_deadline: 100,
        state: ClaimState::Held,
    }
}

fn session(token: &str, active: Option<&str>) -> Session {
    Session {
        session_token: token.to_owned(),
        agent_principal_id: "agent".to_owned(),
        agent_instance_id: "agent-a".to_owned(),
        role: SessionRole::Executor,
        state: SessionState::Active,
        active_subtask_id: active.map(|a| a.to_owned()),
    }
}

#[test]
fn stuck_subtasks_check_their_claim_and_session() {
    let row = StuckSubtask::new(
        claimed_view(Some("c1")),
        Some(claim("c1", "s1", "session-1")),
        Some(session("session-1", Some("s1"))),
        5_000,
    )
    .expect("consistent row");
    assert_eq!(row.idle_for_ms(), 5_000);
    StuckSubtask::new(claimed_view(None), None, None, 0).expect("idle unclaimed subtask");
    assert_eq!(
        StuckSubtask::new(claimed_view(None), None, None, -1).unwrap_err(),
        "idle_for_ms must not be negative"
    );
    assert_eq!(
        StuckSubtask::new(claimed_view(Some("c1")), None, None, 0).unwrap_err(),
        "stuck subtask requires active claim row"
    );
    assert_eq!(
        StuckSubtask::new(claimed_view(Some("c1")), Some(claim("c1", "s1", "session-1")), None, 0).unwrap_err(),
        "stuck subtask requires session row for active claim"
    );
    assert_eq!(
        StuckSubtask::new(claimed_view(Some("c1")), Some(claim("c2", "s1", "session-1")), None, 0).unwrap_err(),
        "stuck subtask claim_id must match the subtask active claim"
    );
    assert_eq!(
        StuckSubtask::new(
            claimed_view(Some("c1")),
            Some(claim("c1", "s1", "session-1")),
            Some(session("session-2", Some("s1"))),
            0
        )
        .unwrap_err(),
        "stuck subtask session must own the claim"
    );
    assert_eq!(
        StuckSubtask::new(claimed_view(None), None, Some(session("session-1", None)), 0).unwrap_err(),
        "stuck subtask must not include session without claim"
    );
}

#[test]
fn expiring_claims_check_their_session() {
    let row = ExpiringClaim::new(claim("c1", "s1", "session-1"), claimed_view(Some("c1")), session("session-1", Some("s1")), 30)
        .expect("consistent row");
    assert_eq!(row.expires_in_ms(), 30);
    assert_eq!(
        ExpiringClaim::new(claim("c1", "s1", "session-1"), claimed_view(Some("c1")), session("session-1", Some("s1")), -1)
            .unwrap_err(),
        "expires_in_ms must not be negative"
    );
    assert_eq!(
        ExpiringClaim::new(claim("c1", "s1", "session-1"), claimed_view(Some("c1")), session("session-1", None), 30)
            .unwrap_err(),
        "expiring claim session must be active on the claimed subtask"
    );
    assert_eq!(
        ExpiringClaim::new(claim("c1", "s1", "session-1"), claimed_view(Some("c1")), session("session-1", Some("s2")), 30)
            .unwrap_err(),
        "expiring claim session active_subtask_id must match the subtask"
    );
}

#[test]
fn ready_queue_metrics_buckets() {
    let m = ReadyQueueMetrics::new(2, 0, Some(40), None).expect("valid metrics");
    assert_eq!((m.queued_count(), m.in_flight_count()), (2, 0));
    assert_eq!((m.oldest_queued_age_ms(), m.oldest_in_flight_age_ms()), (Some(40), None));
    assert_eq!(
        ReadyQueueMetrics::new(1, 0, None, None).unwrap_err(),
        "non-empty queued ready-queue metrics require oldest age"
    );
    assert_eq!(
        ReadyQueueMetrics::new(0, 0, None, Some(1)).unwrap_err(),
        "empty in_flight ready-queue metrics must not include oldest age"
    );
    assert_eq!(
        ReadyQueueMetrics::new(0, 1, None, Some(-1)).unwrap_err(),
        "in_flight ready-queue oldest age must not be negative"
    );
}

fn landing(accepted: bool) -> Result<LandingAuthorizationStatus, String> {
    LandingAuthorizationStatus::from_flat(
        accepted,
        "q1".to_owned(),
        "blake3:a".to_owned(),
        ArtifactKind::PatchBundle,
        "base".to_owned(),
        "artifact.json".to_owned(),
        "blake3:paths".to_owned(),
        "review-1".to_owned(),
        "blake3:findings".to_owned(),
        7,
        "verifier-1".to_owned(),
        "blake3:verdict".to_owned(),
        "blake3:seal".to_owned(),
        "session-apply".to_owned(),
    )
}

#[test]
fn landing_authorization_is_only_emitted_when_accepted() {
    let status = landing(true).expect("accepted status");
    assert!(status.accepted_flag());
    assert_eq!(status.queue_id(), "q1");
    assert_eq!(status.artifact_kind(), ArtifactKind::PatchBundle);
    assert_eq!(status.claim_fence_seq(), 7);
    assert_eq!(status.verifier_id(), "verifier-1");
    assert_eq!(status.recorded_by_session(), "session-apply");
    assert_eq!(landing(false).unwrap_err(), "landing authorization status is only emitted for accepted checks");
}

#[test]
fn ready_queue_metrics_from_aggregate_rows() {
    let m = ReadyQueueMetrics::from_counts(3, Some(100), 0, None, 160).expect("valid aggregate");
    assert_eq!((m.queued_count(), m.oldest_queued_age_ms()), (3, Some(60)));
    let clamped = ReadyQueueMetrics::from_counts(-2, None, 1, Some(200), 160).expect("clamped aggregate");
    assert_eq!((clamped.queued_count(), clamped.in_flight_count()), (0, 1));
    assert_eq!(clamped.oldest_in_flight_age_ms(), Some(0));
    let err = ReadyQueueMetrics::from_counts(1, None, 0, None, 160).unwrap_err();
    assert_eq!(err.message(), "invalid ready-queue metrics: non-empty queued ready-queue metrics require oldest age");
}
