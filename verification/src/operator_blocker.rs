//! Recording and resolving operator blockers: request checks, target
//! checks, and the idempotent record and resolve decisions.
use vstd::prelude::*;
use crate::current_work::opt_view;
use crate::error::CoveyError;
use crate::model::{
    clone_opt, opt_text_eq, OperatorBlocker, OperatorBlockerState, OperatorBlockerTargetKind, ReadyQueueItem,
};
use crate::text::{owned, str_eq};
use crate::validate::{ensure_object_id_len, is_too_long_error, too_long};

verus! {

/// A request to record an operator blocker.
#[derive(Debug)]
pub struct RecordOperatorBlockerReq {
    pub session_token: String,
    pub blocker_id: String,
    pub openspec_change_id: String,
    pub target_kind: OperatorBlockerTargetKind,
    pub subtask_id: String,
    pub queue_id: Option<String>,
    pub artifact_digest: Option<String>,
    pub reason: String,
    pub source_evidence_id: Option<String>,
}

/// The first field of a record request, in the order they are checked,
/// that is longer than an object id may be (the queue id aside).
pub open spec fn record_req_long_field(req: RecordOperatorBlockerReq) -> Option<Seq<char>> {
    if too_long(req.blocker_id@) {
        Some("blocker_id"@)
    } else if too_long(req.openspec_change_id@) {
        Some("openspec_change_id"@)
    } else if too_long(req.subtask_id@) {
        Some("subtask_id"@)
    } else if too_long(req.reason@) {
        Some("reason"@)
    } else if req.source_evidence_id is Some && too_long(req.source_evidence_id->0@) {
        Some("source_evidence_id"@)
    } else {
        None
    }
}

/// Whether `e` refuses an import destination for reason `reason`.
pub open spec fn is_destination_error(e: CoveyError, reason: Seq<char>) -> bool {
    match e {
        CoveyError::InvalidImportDestination { reason: r } => r@ == reason,
        _ => false,
    }
}

/// Checks the fields of a record request: each id no longer than an object
/// id may be, and a ready-queue target with its queue id.
pub fn check_record_operator_blocker_req(req: &RecordOperatorBlockerReq) -> (r: Result<(), CoveyError>)
    ensures
        record_req_long_field(*req) matches Some(f) ==> r is Err && is_too_long_error(r->Err_0, f),
        record_req_long_field(*req) is None && req.target_kind == OperatorBlockerTargetKind::ReadyQueue
            && req.queue_id is None ==> r is Err && is_destination_error(
            r->Err_0,
            "operator blocker ready queue target requires queue_id"@,
        ),
        record_req_long_field(*req) is None && req.target_kind == OperatorBlockerTargetKind::ReadyQueue
            && req.queue_id is Some ==> (r is Err <==> too_long(req.queue_id->0@)) && (r is Err
            ==> is_too_long_error(r->Err_0, "queue_id"@)),
        record_req_long_field(*req) is None && req.target_kind == OperatorBlockerTargetKind::Subtask ==> r is Ok,
{
    ensure_object_id_len("blocker_id", req.blocker_id.as_str())?;
    ensure_object_id_len("openspec_change_id", req.openspec_change_id.as_str())?;
    ensure_object_id_len("subtask_id", req.subtask_id.as_str())?;
    ensure_object_id_len("reason", req.reason.as_str())?;
    if let Some(evidence_id) = &req.source_evidence_id {
        ensure_object_id_len("source_evidence_id", evidence_id.as_str())?;
    }
    match req.target_kind {
        OperatorBlockerTargetKind::Subtask => Ok(()),
        OperatorBlockerTargetKind::ReadyQueue => match &req.queue_id {
            None => Err(
                CoveyError::InvalidImportDestination {
                    reason: owned("operator blocker ready queue target requires queue_id"),
                },
            ),
            Some(queue_id) => ensure_object_id_len("queue_id", queue_id.as_str()),
        },
    }
}

/// Whether a queue item is the target a request names: the same subtask and
/// the artifact digest the request carries.
pub open spec fn queue_target_matches(req: RecordOperatorBlockerReq, item: ReadyQueueItem) -> bool {
    item.subtask_id@ == req.subtask_id@ && opt_view(req.artifact_digest) == Some(item.artifact_digest@)
}

/// Checks that a ready-queue target is the queue item the request names.
pub fn check_queue_target(req: &RecordOperatorBlockerReq, item: &ReadyQueueItem) -> (r: Result<(), CoveyError>)
    ensures
        r is Ok <==> queue_target_matches(*req, *item),
        r is Err ==> match r->Err_0 {
            CoveyError::ApplyGateEvidenceMissing { queue_id, reason } => queue_id@ == item.queue_id@ && reason@
                == "operator blocker ready queue target does not match queue item"@,
            _ => false,
        },
{
    let digest_matches = match &req.artifact_digest {
        Some(d) => str_eq(d.as_str(), item.artifact_digest.as_str()),
        None => false,
    };
    if !str_eq(item.subtask_id.as_str(), req.subtask_id.as_str()) || !digest_matches {
        return Err(
            CoveyError::ApplyGateEvidenceMissing {
                queue_id: item.queue_id.clone(),
                reason: owned("operator blocker ready queue target does not match queue item"),
            },
        );
    }
    Ok(())
}

/// Checks that the target subtask was imported from the request's change:
/// `scope` is the change id recorded for the subtask, if any.
pub fn check_openspec_scope(scope: &Option<String>, openspec_change_id: &str) -> (r: Result<(), CoveyError>)
    ensures
        r is Ok <==> opt_view(*scope) == Some(openspec_change_id@),
        *scope is None ==> r is Err && is_destination_error(
            r->Err_0,
            "operator blocker target requires imported OpenSpec subtask scope"@,
        ),
        *scope is Some && r is Err ==> is_destination_error(
            r->Err_0,
            "operator blocker change id does not match target scope"@,
        ),
{
    match scope {
        None => Err(
            CoveyError::InvalidImportDestination {
                reason: owned("operator blocker target requires imported OpenSpec subtask scope"),
            },
        ),
        Some(s) => {
            if str_eq(s.as_str(), openspec_change_id) {
                Ok(())
            } else {
                Err(
                    CoveyError::InvalidImportDestination {
                        reason: owned("operator blocker change id does not match target scope"),
                    },
                )
            }
        },
    }
}

/// Whether a stored blocker records exactly what a request asks for.
pub open spec fn blocker_matches_req(b: OperatorBlocker, req: RecordOperatorBlockerReq) -> bool {
    &&& b.blocker_id@ == req.blocker_id@
    &&& b.openspec_change_id@ == req.openspec_change_id@
    &&& b.target_kind == req.target_kind
    &&& b.subtask_id@ == req.subtask_id@
    &&& opt_view(b.queue_id) == opt_view(req.queue_id)
    &&& opt_view(b.artifact_digest) == opt_view(req.artifact_digest)
    &&& b.reason@ == req.reason@
    &&& opt_view(b.source_evidence_id) == opt_view(req.source_evidence_id)
    &&& b.recorded_by_session@ == req.session_token@
}

/// Whether a stored blocker records exactly what a request asks for.
pub fn operator_blocker_matches_req(b: &OperatorBlocker, req: &RecordOperatorBlockerReq) -> (r: bool)
    ensures
        r == blocker_matches_req(*b, *req),
{
    str_eq(b.blocker_id.as_str(), req.blocker_id.as_str()) && str_eq(
        b.openspec_change_id.as_str(),
        req.openspec_change_id.as_str(),
    ) && b.target_kind == req.target_kind && str_eq(b.subtask_id.as_str(), req.subtask_id.as_str())
        && opt_text_eq(&b.queue_id, &req.queue_id) && opt_text_eq(&b.artifact_digest, &req.artifact_digest)
        && str_eq(b.reason.as_str(), req.reason.as_str()) && opt_text_eq(
        &b.source_evidence_id,
        &req.source_evidence_id,
    ) && str_eq(b.recorded_by_session.as_str(), req.session_token.as_str())
}

/// The blocker a request records: active, recorded by the request's session.
pub open spec fn blocker_of_req(req: RecordOperatorBlockerReq) -> OperatorBlocker {
    OperatorBlocker {
        blocker_id: req.blocker_id,
        openspec_change_id: req.openspec_change_id,
        target_kind: req.target_kind,
        subtask_id: req.subtask_id,
        queue_id: req.queue_id,
        artifact_digest: req.artifact_digest,
        reason: req.reason,
        source_evidence_id: req.source_evidence_id,
        state: OperatorBlockerState::Active,
        recorded_by_session: req.session_token,
        resolved_reason: None,
        resolved_by_session: None,
    }
}

/// The blocker a request records.
pub fn operator_blocker_from_req(req: &RecordOperatorBlockerReq) -> (r: OperatorBlocker)
    ensures
        r == blocker_of_req(*req),
{
    OperatorBlocker {
        blocker_id: req.blocker_id.clone(),
        openspec_change_id: req.openspec_change_id.clone(),
        target_kind: req.target_kind,
        subtask_id: req.subtask_id.clone(),
        queue_id: clone_opt(&req.queue_id),
        artifact_digest: clone_opt(&req.artifact_digest),
        reason: req.reason.clone(),
        source_evidence_id: clone_opt(&req.source_evidence_id),
        state: OperatorBlockerState::Active,
        recorded_by_session: req.session_token.clone(),
        resolved_reason: None,
        resolved_by_session: None,
    }
}

/// What recording a blocker does given the blocker stored under its id.
#[derive(Debug, Clone, Copy, PartialEq, Eq, Structural)]
pub enum RecordOperatorBlockerDecision {
    /// Nothing is stored under the id: the blocker is inserted.
    Insert,
    /// The stored blocker is the one requested: it is returned unchanged.
    ReturnExisting,
}

/// What recording a blocker does given the blocker stored under its id:
/// insert when nothing is stored there, return the stored blocker when it
/// records the same, and refuse (`None`) otherwise.
pub open spec fn record_decision_spec(existing: Option<OperatorBlocker>, req: RecordOperatorBlockerReq) -> Option<
    RecordOperatorBlockerDecision,
> {
    match existing {
        None => Some(RecordOperatorBlockerDecision::Insert),
        Some(b) => if blocker_matches_req(b, req) {
            Some(RecordOperatorBlockerDecision::ReturnExisting)
        } else {
            None
        },
    }
}

/// Decides what recording a blocker does.
pub fn record_operator_blocker_decision(existing: &Option<OperatorBlocker>, req: &RecordOperatorBlockerReq) -> (r:
    Result<RecordOperatorBlockerDecision, CoveyError>)
    ensures
        r is Ok <==> record_decision_spec(*existing, *req) is Some,
        r is Ok ==> record_decision_spec(*existing, *req) == Some(r->Ok_0),
        r is Err ==> is_destination_error(
            r->Err_0,
            "operator blocker id already exists with different target or evidence"@,
        ),
{
    match existing {
        None => Ok(RecordOperatorBlockerDecision::Insert),
        Some(b) => {
            if operator_blocker_matches_req(b, req) {
                Ok(RecordOperatorBlockerDecision::ReturnExisting)
            } else {
                Err(
                    CoveyError::InvalidImportDestination {
                        reason: owned("operator blocker id already exists with different target or evidence"),
                    },
                )
            }
        },
    }
}

/// What resolving a blocker does.
#[derive(Debug, Clone, Copy, PartialEq, Eq, Structural)]
pub enum ResolveOperatorBlockerDecision {
    /// The active blocker is resolved.
    Resolve,
    /// The blocker was already resolved with the same evidence: it is returned unchanged.
    AlreadyResolved,
}

/// Whether a resolved blocker was resolved for `reason` by session `session_token`.
pub open spec fn resolved_with(b: OperatorBlocker, reason: Seq<char>, session_token: Seq<char>) -> bool {
    opt_view(b.resolved_reason) == Some(reason) && opt_view(b.resolved_by_session) == Some(session_token)
}

/// What resolving a blocker does: an active blocker is resolved; a resolved
/// one is returned when it was resolved with the same reason by the same
/// session, and the request is refused (`None`) otherwise.
pub open spec fn resolve_decision_spec(b: OperatorBlocker, reason: Seq<char>, session_token: Seq<char>) -> Option<
    ResolveOperatorBlockerDecision,
> {
    if b.state == OperatorBlockerState::Active {
        Some(ResolveOperatorBlockerDecision::Resolve)
    } else if resolved_with(b, reason, session_token) {
        Some(ResolveOperatorBlockerDecision::AlreadyResolved)
    } else {
        None
    }
}

/// Decides what resolving a blocker does.
pub fn resolve_operator_blocker_decision(existing: &OperatorBlocker, resolved_reason: &str, session_token: &str) -> (r:
    Result<ResolveOperatorBlockerDecision, CoveyError>)
    ensures
        r is Ok <==> resolve_decision_spec(*existing, resolved_reason@, session_token@) is Some,
        r is Ok ==> resolve_decision_spec(*existing, resolved_reason@, session_token@) == Some(r->Ok_0),
        r is Err ==> is_destination_error(
            r->Err_0,
            "operator blocker is already resolved with different evidence"@,
        ),
{
    match existing.state {
        OperatorBlockerState::Active => Ok(ResolveOperatorBlockerDecision::Resolve),
        OperatorBlockerState::Resolved => {
            let same_reason = match &existing.resolved_reason {
                Some(r) => str_eq(r.as_str(), resolved_reason),
                None => false,
            };
            let same_session = match &existing.resolved_by_session {
                Some(s) => str_eq(s.as_str(), session_token),
                None => false,
            };
            if same_reason && same_session {
                Ok(ResolveOperatorBlockerDecision::AlreadyResolved)
            } else {
                Err(
                    CoveyError::InvalidImportDestination {
                        reason: owned("operator blocker is already resolved with different evidence"),
                    },
                )
            }
        },
    }
}

/// Resolves a blocker for `resolved_reason` by `session_token`.
pub fn resolve_operator_blocker(b: &OperatorBlocker, resolved_reason: &str, session_token: &str) -> (r: OperatorBlocker)
    ensures
        r.state == OperatorBlockerState::Resolved,
        resolved_with(r, resolved_reason@, session_token@),
        r.blocker_id == b.blocker_id,
        r.openspec_change_id == b.openspec_change_id,
        r.target_kind == b.target_kind,
        r.subtask_id == b.subtask_id,
        r.queue_id == b.queue_id,
        r.artifact_digest == b.artifact_digest,
        r.reason == b.reason,
        r.source_evidence_id == b.source_evidence_id,
        r.recorded_by_session == b.recorded_by_session,
{
    let mut r = b.clone();
    r.state = OperatorBlockerState::Resolved;
    r.resolved_reason = Some(owned(resolved_reason));
    r.resolved_by_session = Some(owned(session_token));
    r
}

/// Recording is idempotent: once the blocker a request records is stored,
/// recording the same request again returns it unchanged.
pub proof fn lemma_record_is_idempotent(req: RecordOperatorBlockerReq)
    ensures
        record_decision_spec(Some(blocker_of_req(req)), req) == Some(RecordOperatorBlockerDecision::ReturnExisting),
{
}

/// Resolving is idempotent: a blocker resolved for a reason by a session (as
/// `resolve_operator_blocker` leaves it) is returned unchanged by the same
/// resolution again, and a resolution for another reason is refused.
pub proof fn lemma_resolve_is_idempotent(b: OperatorBlocker, reason: Seq<char>, session_token: Seq<char>, other: Seq<char>)
    requires
        b.state == OperatorBlockerState::Resolved,
        resolved_with(b, reason, session_token),
        other != reason,
    ensures
        resolve_decision_spec(b, reason, session_token) == Some(ResolveOperatorBlockerDecision::AlreadyResolved),
        resolve_decision_spec(b, other, session_token) is None,
{
}

/// Recording answers with the stored blocker only when it records the very
/// request: same id, change, target kind, subtask, queue item, artifact,
/// reason, evidence and recording session. A stored blocker that differs in
/// any of these, the subtask included, refuses the request.
pub proof fn lemma_record_returns_only_the_same_blocker(b: OperatorBlocker, req: RecordOperatorBlockerReq)
    ensures
        record_decision_spec(Some(b), req) == Some(RecordOperatorBlockerDecision::ReturnExisting) ==> {
            &&& b.blocker_id@ == req.blocker_id@
            &&& b.openspec_change_id@ == req.openspec_change_id@
            &&& b.target_kind == req.target_kind
            &&& b.subtask_id@ == req.subtask_id@
            &&& opt_view(b.queue_id) == opt_view(req.queue_id)
            &&& opt_view(b.artifact_digest) == opt_view(req.artifact_digest)
            &&& b.reason@ == req.reason@
            &&& opt_view(b.source_evidence_id) == opt_view(req.source_evidence_id)
            &&& b.recorded_by_session@ == req.session_token@
        },
        b.subtask_id@ != req.subtask_id@ ==> record_decision_spec(Some(b), req) is None,
        record_decision_spec(Some(b), req) is None || record_decision_spec(Some(b), req) == Some(
            RecordOperatorBlockerDecision::ReturnExisting,
        ),
{
}

} // verus!
