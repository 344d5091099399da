//! Apply-gate checks on one queue item: evidence that must target the
//! current in-flight fence, the owner checks of landing, and the
//! idempotent landing-receipt and archive-status records.
use vstd::prelude::*;
use crate::current_work::opt_view;
use crate::error::CoveyError;
use crate::model::{
    archive_status_state_name, opt_text_eq, ready_queue_state_name, subtask_state_name, OpenSpecArchiveStatus,
    OpenSpecArchiveStatusState, ReadyQueueItem, ReadyQueueState, SubtaskState,
};
use crate::text::{owned, str_eq};

verus! {

/// Whether `e` refuses evidence for queue `queue_id` for reason `reason`.
pub open spec fn is_evidence_error(e: CoveyError, queue_id: Seq<char>, reason: Seq<char>) -> bool {
    match e {
        CoveyError::ApplyGateEvidenceMissing { queue_id: q, reason: r } => q@ == queue_id && r@ == reason,
        _ => false,
    }
}

/// Whether `e` refuses to move a queue item from state `from` to state `to`.
pub open spec fn is_queue_refusal(e: CoveyError, from: ReadyQueueState, to: ReadyQueueState) -> bool {
    match e {
        CoveyError::IllegalTransition { object, from: f, to: t } => object@ == "ready_queue"@ && f@
            == ready_queue_state_name(from) && t@ == ready_queue_state_name(to),
        _ => false,
    }
}

fn evidence_error(queue_id: &str, reason: &str) -> (e: CoveyError)
    ensures
        is_evidence_error(e, queue_id@, reason@),
{
    CoveyError::ApplyGateEvidenceMissing { queue_id: owned(queue_id), reason: owned(reason) }
}

fn queue_refusal(from: ReadyQueueState, to: ReadyQueueState) -> (e: CoveyError)
    ensures
        is_queue_refusal(e, from, to),
{
    CoveyError::IllegalTransition { object: owned("ready_queue"), from: owned(from.name()), to: owned(to.name()) }
}

/// Whether evidence for artifact `digest` under fence `fence` targets the
/// item's current in-flight attempt.
pub open spec fn targets_in_flight_fence(item: ReadyQueueItem, digest: Seq<char>, fence: i64) -> bool {
    item.state == ReadyQueueState::InFlight && item.artifact_digest@ == digest && item.claim_fence_seq == Some(fence)
}

fn check_in_flight_fence(item: &ReadyQueueItem, digest: &str, fence: i64, reason: &str) -> (r: Result<(), CoveyError>)
    ensures
        r is Ok <==> targets_in_flight_fence(*item, digest@, fence),
        r is Err ==> is_evidence_error(r->Err_0, item.queue_id@, reason@),
{
    let fence_matches = match item.claim_fence_seq {
        Some(f) => f == fence,
        None => false,
    };
    if item.state != ReadyQueueState::InFlight || !str_eq(item.artifact_digest.as_str(), digest) || !fence_matches {
        return Err(evidence_error(item.queue_id.as_str(), reason));
    }
    Ok(())
}

/// Requires an apply verification to target the item's current in-flight fence.
pub fn check_apply_verification_target(item: &ReadyQueueItem, artifact_digest: &str, claim_fence_seq: i64) -> (r:
    Result<(), CoveyError>)
    ensures
        r is Ok <==> targets_in_flight_fence(*item, artifact_digest@, claim_fence_seq),
        r is Err ==> is_evidence_error(
            r->Err_0,
            item.queue_id@,
            "apply verification must target the current in-flight queue fence"@,
        ),
{
    check_in_flight_fence(
        item,
        artifact_digest,
        claim_fence_seq,
        "apply verification must target the current in-flight queue fence",
    )
}

/// Requires an apply-gate blocker to target the item's current in-flight fence.
pub fn check_apply_gate_blocker_target(item: &ReadyQueueItem, artifact_digest: &str, claim_fence_seq: i64) -> (r:
    Result<(), CoveyError>)
    ensures
        r is Ok <==> targets_in_flight_fence(*item, artifact_digest@, claim_fence_seq),
        r is Err ==> is_evidence_error(
            r->Err_0,
            item.queue_id@,
            "apply-gate blocker must target the current in-flight queue fence"@,
        ),
{
    check_in_flight_fence(
        item,
        artifact_digest,
        claim_fence_seq,
        "apply-gate blocker must target the current in-flight queue fence",
    )
}

/// Requires an apply verification to name the live approved review and its findings.
pub fn check_live_review_match(
    queue_id: &str,
    live_review_id: &str,
    live_findings_digest: &str,
    review_id: &str,
    findings_digest: &str,
) -> (r: Result<(), CoveyError>)
    ensures
        r is Ok <==> (live_review_id@ == review_id@ && live_findings_digest@ == findings_digest@),
        r is Err ==> is_evidence_error(r->Err_0, queue_id@, "apply verification does not match the live approved review"@),
{
    if !str_eq(live_review_id, review_id) || !str_eq(live_findings_digest, findings_digest) {
        return Err(evidence_error(queue_id, "apply verification does not match the live approved review"));
    }
    Ok(())
}

/// Whether an item is in flight or applied.
pub open spec fn in_flight_or_applied(s: ReadyQueueState) -> bool {
    s == ReadyQueueState::InFlight || s == ReadyQueueState::Applied
}

/// Requires settlement reconcile evidence to target an in-flight or applied
/// item, with its artifact and fence.
pub fn check_settlement_reconcile_target(item: &ReadyQueueItem, artifact_digest: &str, claim_fence_seq: i64) -> (r:
    Result<(), CoveyError>)
    ensures
        !in_flight_or_applied(item.state) ==> r is Err && is_evidence_error(
            r->Err_0,
            item.queue_id@,
            "settlement reconcile evidence must target an in-flight or applied queue item"@,
        ),
        in_flight_or_applied(item.state) ==> (r is Ok <==> (item.artifact_digest@ == artifact_digest@
            && item.claim_fence_seq == Some(claim_fence_seq))),
        in_flight_or_applied(item.state) && r is Err ==> is_evidence_error(
            r->Err_0,
            item.queue_id@,
            "settlement reconcile evidence does not match queue artifact or fence"@,
        ),
{
    if item.state != ReadyQueueState::InFlight && item.state != ReadyQueueState::Applied {
        return Err(
            evidence_error(
                item.queue_id.as_str(),
                "settlement reconcile evidence must target an in-flight or applied queue item",
            ),
        );
    }
    let fence_matches = match item.claim_fence_seq {
        Some(f) => f == claim_fence_seq,
        None => false,
    };
    if !str_eq(item.artifact_digest.as_str(), artifact_digest) || !fence_matches {
        return Err(
            evidence_error(item.queue_id.as_str(), "settlement reconcile evidence does not match queue artifact or fence"),
        );
    }
    Ok(())
}

/// Why marking an item applied is refused, checked in order: the item is
/// not in flight, has no owner, is owned by another session, carries no or
/// another fence, or its lease has no deadline or expired at `lease_now`.
pub open spec fn mark_applied_refusal(item: ReadyQueueItem, session_token: Seq<char>, fence: i64, lease_now: int) -> Option<int> {
    if item.state != ReadyQueueState::InFlight || item.claimed_by_session_token is None {
        Some(0)
    } else if item.claimed_by_session_token->0@ != session_token {
        Some(1)
    } else if item.claim_fence_seq is None {
        Some(0)
    } else if item.claim_fence_seq->0 != fence {
        Some(2)
    } else if item.claim_lease_deadline is None {
        Some(0)
    } else if item.claim_lease_deadline->0 <= lease_now {
        Some(3)
    } else {
        None
    }
}

/// Whether `e` refuses to move a subtask in state `s` to applied.
pub open spec fn is_applied_refusal(e: CoveyError, s: SubtaskState) -> bool {
    match e {
        CoveyError::IllegalTransition { object, from, to } => object@ == "subtask"@ && from@ == subtask_state_name(s)
            && to@ == "applied"@,
        _ => false,
    }
}

/// Checks the subtask side of marking a queue item applied: the subtask must
/// be ready for apply and carry the item's artifact; anything else refuses
/// to move the subtask from its state to applied.
pub fn check_mark_applied_subtask(state: SubtaskState, subtask_digest: &Option<String>, item_digest: &str) -> (r: Result<
    (),
    CoveyError,
>)
    ensures
        r is Ok <==> (state == SubtaskState::ReadyForApply && opt_view(*subtask_digest) == Some(item_digest@)),
        r matches Err(e) ==> is_applied_refusal(e, state),
{
    let digest_matches = match subtask_digest {
        Some(d) => str_eq(d.as_str(), item_digest),
        None => false,
    };
    if state == SubtaskState::ReadyForApply && digest_matches {
        Ok(())
    } else {
        Err(CoveyError::IllegalTransition { object: owned("subtask"), from: owned(state.name()), to: owned("applied") })
    }
}

/// Checks that session `session_token` may mark an item applied under fence
/// `claim_fence_seq` at lease tick `lease_now`: the session owns the
/// item's in-flight claim, the fence is current and the lease is live.
pub fn check_mark_applied(item: &ReadyQueueItem, session_token: &str, claim_fence_seq: i64, lease_now: i64) -> (r:
    Result<(), CoveyError>)
    ensures
        r is Ok <==> mark_applied_refusal(*item, session_token@, claim_fence_seq, lease_now as int) is None,
        mark_applied_refusal(*item, session_token@, claim_fence_seq, lease_now as int) == Some(0int) ==> is_queue_refusal(
            r->Err_0,
            item.state,
            ReadyQueueState::Applied,
        ),
        mark_applied_refusal(*item, session_token@, claim_fence_seq, lease_now as int) == Some(1int) ==> (r->Err_0 matches CoveyError::NotQueueClaimOwner { session_token: s, queue_owner: q }
            && s@ == session_token@ && Some(q@) == opt_view(item.claimed_by_session_token)),
        mark_applied_refusal(*item, session_token@, claim_fence_seq, lease_now as int) == Some(2int) ==> r->Err_0
            == (CoveyError::StaleFenceToken { expected: item.claim_fence_seq->0, provided: claim_fence_seq }),
        mark_applied_refusal(*item, session_token@, claim_fence_seq, lease_now as int) == Some(3int) ==> (r->Err_0 matches CoveyError::LeaseExpired { object_id }
            && object_id@ == item.queue_id@),
{
    if item.state != ReadyQueueState::InFlight {
        return Err(queue_refusal(item.state, ReadyQueueState::Applied));
    }
    let owner = match &item.claimed_by_session_token {
        None => {
            return Err(queue_refusal(item.state, ReadyQueueState::Applied));
        },
        Some(o) => o,
    };
    if !str_eq(owner.as_str(), session_token) {
        return Err(CoveyError::NotQueueClaimOwner { session_token: owned(session_token), queue_owner: owner.clone() });
    }
    let expected = match item.claim_fence_seq {
        None => {
            return Err(queue_refusal(item.state, ReadyQueueState::Applied));
        },
        Some(f) => f,
    };
    if expected != claim_fence_seq {
        return Err(CoveyError::StaleFenceToken { expected, provided: claim_fence_seq });
    }
    let deadline = match item.claim_lease_deadline {
        None => {
            return Err(queue_refusal(item.state, ReadyQueueState::Applied));
        },
        Some(d) => d,
    };
    if deadline <= lease_now {
        return Err(CoveyError::LeaseExpired { object_id: item.queue_id.clone() });
    }
    Ok(())
}

/// The record a landing check is made for.
#[derive(Debug, Clone, Copy, PartialEq, Eq, Structural)]
pub enum LandingRecord {
    Authorization,
    Receipt,
}

/// The refusal texts of a landing check, by record: not in flight or
/// applied, another artifact, another fence, and an in-flight item without owner.
pub open spec fn landing_reason(record: LandingRecord, k: int) -> Seq<char> {
    match record {
        LandingRecord::Authorization => if k == 0 {
            "landing authorization queue item is not in flight or applied"@
        } else if k == 1 {
            "landing authorization artifact digest does not match queue item"@
        } else if k == 2 {
            "landing authorization claim fence does not match queue item"@
        } else {
            "landing authorization in-flight queue item has no owner"@
        },
        LandingRecord::Receipt => if k == 0 {
            "landing receipt requires an in-flight or applied queue item"@
        } else if k == 1 {
            "landing receipt artifact digest does not match queue item"@
        } else if k == 2 {
            "landing receipt claim fence does not match queue item"@
        } else {
            "landing receipt in-flight queue item has no owner"@
        },
    }
}

fn landing_reason_text(record: LandingRecord, k: u8) -> (r: &'static str)
    requires
        k < 4,
    ensures
        r@ == landing_reason(record, k as int),
{
    match record {
        LandingRecord::Authorization => if k == 0 {
            "landing authorization queue item is not in flight or applied"
        } else if k == 1 {
            "landing authorization artifact digest does not match queue item"
        } else if k == 2 {
            "landing authorization claim fence does not match queue item"
        } else {
            "landing authorization in-flight queue item has no owner"
        },
        LandingRecord::Receipt => if k == 0 {
            "landing receipt requires an in-flight or applied queue item"
        } else if k == 1 {
            "landing receipt artifact digest does not match queue item"
        } else if k == 2 {
            "landing receipt claim fence does not match queue item"
        } else {
            "landing receipt in-flight queue item has no owner"
        },
    }
}

/// Which landing check refuses, in order: the item is not in flight or
/// applied (0), carries another artifact (1) or fence (2), is in flight
/// without owner (3) or owned by another session (4).
pub open spec fn landing_refusal(item: ReadyQueueItem, digest: Seq<char>, fence: i64, session_token: Seq<char>) -> Option<int> {
    if !in_flight_or_applied(item.state) {
        Some(0)
    } else if item.artifact_digest@ != digest {
        Some(1)
    } else if item.claim_fence_seq != Some(fence) {
        Some(2)
    } else if item.state == ReadyQueueState::InFlight && item.claimed_by_session_token is None {
        Some(3)
    } else if item.state == ReadyQueueState::InFlight && item.claimed_by_session_token->0@ != session_token {
        Some(4)
    } else {
        None
    }
}

/// Checks a landing authorization or receipt of artifact `artifact_digest`
/// under fence `claim_fence_seq` by session `session_token` against the
/// queue item. On success, says whether the item is still in flight, so
/// that its live apply evidence and recorded verification must be checked too.
pub fn check_landing_target(
    record: LandingRecord,
    item: &ReadyQueueItem,
    artifact_digest: &str,
    claim_fence_seq: i64,
    session_token: &str,
) -> (r: Result<bool, CoveyError>)
    ensures
        r is Ok <==> landing_refusal(*item, artifact_digest@, claim_fence_seq, session_token@) is None,
        r matches Ok(live) ==> live == (item.state == ReadyQueueState::InFlight),
        landing_refusal(*item, artifact_digest@, claim_fence_seq, session_token@) matches Some(k) ==> (k < 4
            ==> is_evidence_error(r->Err_0, item.queue_id@, landing_reason(record, k))),
        landing_refusal(*item, artifact_digest@, claim_fence_seq, session_token@) == Some(4int) ==> (r->Err_0 matches CoveyError::NotQueueClaimOwner { session_token: s, queue_owner: q }
            && s@ == session_token@ && Some(q@) == opt_view(item.claimed_by_session_token)),
{
    if item.state != ReadyQueueState::InFlight && item.state != ReadyQueueState::Applied {
        return Err(evidence_error(item.queue_id.as_str(), landing_reason_text(record, 0)));
    }
    if !str_eq(item.artifact_digest.as_str(), artifact_digest) {
        return Err(evidence_error(item.queue_id.as_str(), landing_reason_text(record, 1)));
    }
    let fence_matches = match item.claim_fence_seq {
        Some(f) => f == claim_fence_seq,
        None => false,
    };
    if !fence_matches {
        return Err(evidence_error(item.queue_id.as_str(), landing_reason_text(record, 2)));
    }
    if item.state == ReadyQueueState::InFlight {
        match &item.claimed_by_session_token {
            None => {
                return Err(evidence_error(item.queue_id.as_str(), landing_reason_text(record, 3)));
            },
            Some(owner) => {
                if !str_eq(owner.as_str(), session_token) {
                    return Err(
                        CoveyError::NotQueueClaimOwner { session_token: owned(session_token), queue_owner: owner.clone() },
                    );
                }
            },
        }
        return Ok(true);
    }
    Ok(false)
}

/// A landing receipt already recorded for an item: its target ref and commit.
#[derive(Debug)]
pub struct RecordedLandingReceipt {
    pub target_ref: String,
    pub landed_commit_oid: String,
}

/// What recording a landing receipt does given the receipt already
/// recorded: insert when there is none, nothing when it is the same, and
/// refuse (`None`) when it differs.
pub open spec fn landing_receipt_decision_spec(existing: Option<RecordedLandingReceipt>, target_ref: Seq<char>, commit: Seq<char>) -> Option<bool> {
    match existing {
        None => Some(true),
        Some(e) => if e.target_ref@ == target_ref && e.landed_commit_oid@ == commit {
            Some(false)
        } else {
            None
        },
    }
}

/// Decides whether a landing receipt for queue `queue_id` is inserted
/// (`true`) or already recorded (`false`).
pub fn landing_receipt_decision(
    queue_id: &str,
    existing: &Option<RecordedLandingReceipt>,
    target_ref: &str,
    landed_commit_oid: &str,
) -> (r: Result<bool, CoveyError>)
    ensures
        r is Ok <==> landing_receipt_decision_spec(*existing, target_ref@, landed_commit_oid@) is Some,
        r matches Ok(insert) ==> landing_receipt_decision_spec(*existing, target_ref@, landed_commit_oid@) == Some(insert),
        r is Err ==> is_evidence_error(
            r->Err_0,
            queue_id@,
            "landing receipt already recorded with different target or commit"@,
        ),
{
    match existing {
        None => Ok(true),
        Some(e) => {
            if str_eq(e.target_ref.as_str(), target_ref) && str_eq(e.landed_commit_oid.as_str(), landed_commit_oid) {
                Ok(false)
            } else {
                Err(evidence_error(queue_id, "landing receipt already recorded with different target or commit"))
            }
        },
    }
}

/// Recording a landing receipt is idempotent: once a receipt is recorded,
/// recording the same target and commit again inserts nothing, and another
/// commit is refused.
pub proof fn lemma_landing_receipt_is_idempotent(e: RecordedLandingReceipt, other_commit: Seq<char>)
    requires
        other_commit != e.landed_commit_oid@,
    ensures
        landing_receipt_decision_spec(Some(e), e.target_ref@, e.landed_commit_oid@) == Some(false),
        landing_receipt_decision_spec(Some(e), e.target_ref@, other_commit) is None,
{
}

/// A request to record the archive status of an applied OpenSpec queue item.
#[derive(Debug)]
pub struct RecordOpenSpecArchiveStatusReq {
    pub session_token: String,
    pub queue_id: String,
    pub artifact_digest: String,
    pub openspec_change_id: String,
    pub state: OpenSpecArchiveStatusState,
    pub blocked_reason: Option<String>,
    pub archive_proof_digest: Option<String>,
}

/// Which archive-status target check refuses, in order: the item is not
/// applied (0), carries another artifact (1), its subtask has no imported
/// scope (2) or another change's scope (3).
pub open spec fn archive_target_refusal(item: ReadyQueueItem, req: RecordOpenSpecArchiveStatusReq, scope: Option<String>) -> Option<int> {
    if item.state != ReadyQueueState::Applied {
        Some(0)
    } else if item.artifact_digest@ != req.artifact_digest@ {
        Some(1)
    } else if scope is None {
        Some(2)
    } else if scope->0@ != req.openspec_change_id@ {
        Some(3)
    } else {
        None
    }
}

/// The refusal text of an archive-status target check.
pub open spec fn archive_target_reason(k: int) -> Seq<char> {
    if k == 0 {
        "OpenSpec archive status requires an applied queue item"@
    } else if k == 1 {
        "OpenSpec archive status artifact digest does not match queue item"@
    } else if k == 2 {
        "OpenSpec archive status requires imported subtask scope"@
    } else {
        "OpenSpec archive status change id does not match imported scope"@
    }
}

/// Checks an archive-status request against its applied queue item and the
/// change id `scope` the item's subtask was imported from, if any.
pub fn check_archive_status_target(item: &ReadyQueueItem, req: &RecordOpenSpecArchiveStatusReq, scope: &Option<String>) -> (r:
    Result<(), CoveyError>)
    ensures
        r is Ok <==> archive_target_refusal(*item, *req, *scope) is None,
        archive_target_refusal(*item, *req, *scope) matches Some(k) ==> is_evidence_error(
            r->Err_0,
            item.queue_id@,
            archive_target_reason(k),
        ),
{
    if item.state != ReadyQueueState::Applied {
        return Err(evidence_error(item.queue_id.as_str(), "OpenSpec archive status requires an applied queue item"));
    }
    if !str_eq(item.artifact_digest.as_str(), req.artifact_digest.as_str()) {
        return Err(
            evidence_error(item.queue_id.as_str(), "OpenSpec archive status artifact digest does not match queue item"),
        );
    }
    match scope {
        None => Err(evidence_error(item.queue_id.as_str(), "OpenSpec archive status requires imported subtask scope")),
        Some(s) => {
            if str_eq(s.as_str(), req.openspec_change_id.as_str()) {
                Ok(())
            } else {
                Err(
                    evidence_error(
                        item.queue_id.as_str(),
                        "OpenSpec archive status change id does not match imported scope",
                    ),
                )
            }
        },
    }
}

/// Whether a stored archive status records exactly what a request asks for.
pub open spec fn archive_status_matches(s: OpenSpecArchiveStatus, req: RecordOpenSpecArchiveStatusReq) -> bool {
    &&& s.queue_id@ == req.queue_id@
    &&& s.artifact_digest@ == req.artifact_digest@
    &&& s.openspec_change_id@ == req.openspec_change_id@
    &&& s.state == req.state
    &&& opt_view(s.blocked_reason) == opt_view(req.blocked_reason)
    &&& opt_view(s.archive_proof_digest) == opt_view(req.archive_proof_digest)
}

/// What recording an archive status does.
#[derive(Debug, Clone, Copy, PartialEq, Eq, Structural)]
pub enum ArchiveStatusDecision {
    /// No status is recorded for the item: the request's status is inserted.
    Insert,
    /// The recorded status is the requested one: it is returned unchanged.
    ReturnExisting,
    /// A blocked status is archived.
    Archive,
}

/// What recording an archive status does given the status recorded for the
/// item: insert when there is none, return it when it is the requested
/// one, archive a blocked one, and refuse (`None`) anything else.
pub open spec fn archive_status_decision_spec(existing: Option<OpenSpecArchiveStatus>, req: RecordOpenSpecArchiveStatusReq) -> Option<ArchiveStatusDecision> {
    match existing {
        None => Some(ArchiveStatusDecision::Insert),
        Some(s) => if archive_status_matches(s, req) {
            Some(ArchiveStatusDecision::ReturnExisting)
        } else if s.state == OpenSpecArchiveStatusState::Blocked && req.state == OpenSpecArchiveStatusState::Archived {
            Some(ArchiveStatusDecision::Archive)
        } else {
            None
        },
    }
}

/// Decides what recording an archive status does.
pub fn archive_status_decision(existing: &Option<OpenSpecArchiveStatus>, req: &RecordOpenSpecArchiveStatusReq) -> (r:
    Result<ArchiveStatusDecision, CoveyError>)
    ensures
        r is Ok <==> archive_status_decision_spec(*existing, *req) is Some,
        r matches Ok(d) ==> archive_status_decision_spec(*existing, *req) == Some(d),
        r is Err ==> (r->Err_0 matches CoveyError::IllegalTransition { object, from, to } && object@ == "ready_queue"@
            && from@ == archive_status_state_name(existing->0.state) && to@ == archive_status_state_name(req.state)),
{
    match existing {
        None => Ok(ArchiveStatusDecision::Insert),
        Some(s) => {
            let matches = str_eq(s.queue_id.as_str(), req.queue_id.as_str()) && str_eq(
                s.artifact_digest.as_str(),
                req.artifact_digest.as_str(),
            ) && str_eq(s.openspec_change_id.as_str(), req.openspec_change_id.as_str()) && s.state == req.state
                && opt_text_eq(&s.blocked_reason, &req.blocked_reason) && opt_text_eq(
                &s.archive_proof_digest,
                &req.archive_proof_digest,
            );
            if matches {
                Ok(ArchiveStatusDecision::ReturnExisting)
            } else if s.state == OpenSpecArchiveStatusState::Blocked && req.state
                == OpenSpecArchiveStatusState::Archived {
                Ok(ArchiveStatusDecision::Archive)
            } else {
                Err(
                    CoveyError::IllegalTransition {
                        object: owned("ready_queue"),
                        from: owned(s.state.name()),
                        to: owned(req.state.name()),
                    },
                )
            }
        },
    }
}

/// Archiving is final: an archived status can be re-recorded only as the
/// very same status, so it never moves back to blocked.
pub proof fn lemma_archived_status_is_final(s: OpenSpecArchiveStatus, req: RecordOpenSpecArchiveStatusReq)
    requires
        s.state == OpenSpecArchiveStatusState::Archived,
        req.state == OpenSpecArchiveStatusState::Blocked,
    ensures
        archive_status_decision_spec(Some(s), req) is None,
{
}

/// Whether a queue item can be superseded: only queued and in-flight items.
pub fn check_supersede(item: &ReadyQueueItem) -> (r: Result<(), CoveyError>)
    ensures
        r is Ok <==> (item.state == ReadyQueueState::Queued || item.state == ReadyQueueState::InFlight),
        r is Err ==> is_queue_refusal(r->Err_0, item.state, ReadyQueueState::Superseded),
{
    if item.state == ReadyQueueState::Queued || item.state == ReadyQueueState::InFlight {
        Ok(())
    } else {
        Err(queue_refusal(item.state, ReadyQueueState::Superseded))
    }
}

} // verus!
