//! Session lifecycle checks: which states a heartbeat and an exit are
//! accepted in, and the time window of a runtime attestation.
use vstd::prelude::*;
use crate::error::CoveyError;
use crate::model::{session_state_name, SessionState};
use crate::text::owned;

verus! {

/// Whether `e` refuses to move a session from state `from` to state `to`.
pub open spec fn is_session_refusal(e: CoveyError, from: SessionState, to: SessionState) -> bool {
    match e {
        CoveyError::IllegalTransition { object, from: f, to: t } => object@ == "session"@ && f@ == session_state_name(from)
            && t@ == session_state_name(to),
        _ => false,
    }
}

fn session_refusal(from: SessionState, to: SessionState) -> (e: CoveyError)
    ensures
        is_session_refusal(e, from, to),
{
    CoveyError::IllegalTransition { object: owned("session"), from: owned(from.name()), to: owned(to.name()) }
}

/// A heartbeat is accepted only from an active session.
pub open spec fn heartbeat_allowed(s: SessionState) -> bool {
    s == SessionState::Active
}

/// An exit is accepted from an active or stale session.
pub open spec fn exit_allowed(s: SessionState) -> bool {
    s == SessionState::Active || s == SessionState::Stale
}

/// Checks that a session in state `state` may record a heartbeat.
pub fn check_heartbeat(state: SessionState) -> (r: Result<(), CoveyError>)
    ensures
        r is Ok <==> heartbeat_allowed(state),
        r is Err ==> is_session_refusal(r->Err_0, state, SessionState::Active),
{
    if state == SessionState::Active {
        Ok(())
    } else {
        Err(session_refusal(state, SessionState::Active))
    }
}

/// Checks that a session in state `state` may exit.
pub fn check_exit(state: SessionState) -> (r: Result<(), CoveyError>)
    ensures
        r is Ok <==> exit_allowed(state),
        r is Err ==> is_session_refusal(r->Err_0, state, SessionState::Exited),
{
    if state == SessionState::Active || state == SessionState::Stale {
        Ok(())
    } else {
        Err(session_refusal(state, SessionState::Exited))
    }
}

/// Checks that a runtime attestation of session `session_token` does not
/// end before it starts.
pub fn check_attestation_window(session_token: &str, started_at: i64, ended_at: i64) -> (r: Result<(), CoveyError>)
    ensures
        r is Ok <==> started_at <= ended_at,
        r is Err ==> (r->Err_0 matches CoveyError::InvalidRuntimeAttestation { session_token: s, reason } && s@
            == session_token@ && reason@ == "ended_at must be greater than or equal to started_at"@),
{
    if ended_at < started_at {
        return Err(
            CoveyError::InvalidRuntimeAttestation {
                session_token: owned(session_token),
                reason: owned("ended_at must be greater than or equal to started_at"),
            },
        );
    }
    Ok(())
}

/// Exiting is final: a session that exited neither heartbeats nor exits
/// again, while a stale session may still exit but no longer heartbeat.
pub proof fn lemma_exit_is_final()
    ensures
        !heartbeat_allowed(SessionState::Exited),
        !exit_allowed(SessionState::Exited),
        exit_allowed(SessionState::Stale) && !heartbeat_allowed(SessionState::Stale),
{
}

} // verus!
