//! Reservation checks: the shape of a requested scope, and which states a
//! release and a lease renewal are accepted in.
use vstd::prelude::*;
use crate::error::CoveyError;
use crate::model::{reservation_state_name, scope_class_name, ReservationState, ScopeClass};
use crate::text::{chars_of, concat2, is_blank, owned, vec_is_blank};

verus! {

/// Why a reservation scope is rejected, if it is: a blank scope key (the
/// key itself is reported), members on a class other than a generated set,
/// or a generated set without members.
pub open spec fn scope_shape_error(scope_class: ScopeClass, scope_key: Seq<char>, member_count: nat) -> Option<Seq<char>> {
    if is_blank(scope_key) {
        Some(scope_key)
    } else if scope_class != ScopeClass::GeneratedSet && member_count > 0 {
        Some(scope_class_name(scope_class) + " reservation must not include generated_members"@)
    } else if scope_class == ScopeClass::GeneratedSet && member_count == 0 {
        Some("generated_set reservation requires generated_members"@)
    } else {
        None
    }
}

/// Checks the shape of a reservation scope.
pub fn check_reservation_scope_shape(scope_class: ScopeClass, scope_key: &str, generated_members: &Vec<String>) -> (r:
    Result<(), CoveyError>)
    ensures
        r is Ok <==> scope_shape_error(scope_class, scope_key@, generated_members@.len()) is None,
        r is Err ==> (r->Err_0 matches CoveyError::InvalidPath { path } && Some(path@) == scope_shape_error(
            scope_class,
            scope_key@,
            generated_members@.len(),
        )),
{
    let key = chars_of(scope_key);
    if vec_is_blank(&key) {
        return Err(CoveyError::InvalidPath { path: owned(scope_key) });
    }
    match scope_class {
        ScopeClass::GeneratedSet => {
            if generated_members.len() == 0 {
                Err(CoveyError::InvalidPath { path: owned("generated_set reservation requires generated_members") })
            } else {
                Ok(())
            }
        },
        _ => {
            if generated_members.len() == 0 {
                Ok(())
            } else {
                Err(
                    CoveyError::InvalidPath {
                        path: concat2(scope_class.name(), " reservation must not include generated_members"),
                    },
                )
            }
        },
    }
}

/// Whether `e` refuses to move a reservation from state `from` to state `to`.
pub open spec fn is_reservation_refusal(e: CoveyError, from: ReservationState, to: ReservationState) -> bool {
    match e {
        CoveyError::IllegalTransition { object, from: f, to: t } => object@ == "reservation"@ && f@
            == reservation_state_name(from) && t@ == reservation_state_name(to),
        _ => false,
    }
}

fn reservation_refusal(from: ReservationState, to: ReservationState) -> (e: CoveyError)
    ensures
        is_reservation_refusal(e, from, to),
{
    CoveyError::IllegalTransition { object: owned("reservation"), from: owned(from.name()), to: owned(to.name()) }
}

/// Checks that a reservation in state `state` may be released: only an active one.
pub fn check_release(state: ReservationState) -> (r: Result<(), CoveyError>)
    ensures
        r is Ok <==> state == ReservationState::Active,
        r is Err ==> is_reservation_refusal(r->Err_0, state, ReservationState::Released),
{
    if state == ReservationState::Active {
        Ok(())
    } else {
        Err(reservation_refusal(state, ReservationState::Released))
    }
}

/// The lease deadline a renewal by `extend_by_ms` at lease tick `lease_now`
/// gives: the later of the deadline and now, extended.
pub open spec fn renewed_deadline(lease_deadline: int, lease_now: int, extend_by_ms: int) -> int {
    (if lease_deadline >= lease_now { lease_deadline } else { lease_now }) + extend_by_ms
}

/// Renews reservation `reservation_id`: an active reservation whose lease
/// has not expired at `lease_now` gets the renewed deadline; an inactive one
/// is refused, as is an expired lease.
pub fn renew_reservation_deadline(
    reservation_id: &str,
    state: ReservationState,
    lease_deadline: i64,
    lease_now: i64,
    extend_by_ms: i64,
) -> (r: Result<i64, CoveyError>)
    requires
        i64::MIN <= renewed_deadline(lease_deadline as int, lease_now as int, extend_by_ms as int) <= i64::MAX,
    ensures
        state != ReservationState::Active ==> r is Err && is_reservation_refusal(
            r->Err_0,
            state,
            ReservationState::Active,
        ),
        state == ReservationState::Active && lease_deadline <= lease_now ==> (r->Err_0 matches CoveyError::LeaseExpired { object_id }
            && object_id@ == reservation_id@),
        state == ReservationState::Active && lease_deadline > lease_now ==> r == Ok::<i64, CoveyError>(
            renewed_deadline(lease_deadline as int, lease_now as int, extend_by_ms as int) as i64,
        ),
{
    if state != ReservationState::Active {
        return Err(reservation_refusal(state, ReservationState::Active));
    }
    if lease_deadline <= lease_now {
        return Err(CoveyError::LeaseExpired { object_id: owned(reservation_id) });
    }
    let base = if lease_deadline >= lease_now {
        lease_deadline
    } else {
        lease_now
    };
    Ok(base + extend_by_ms)
}

/// A renewal by a positive amount pushes a live lease's deadline later, by
/// exactly that amount.
pub proof fn lemma_renewal_extends(lease_deadline: int, lease_now: int, extend_by_ms: int)
    requires
        lease_deadline > lease_now,
        extend_by_ms > 0,
    ensures
        renewed_deadline(lease_deadline, lease_now, extend_by_ms) > lease_deadline,
        renewed_deadline(lease_deadline, lease_now, extend_by_ms) == lease_deadline + extend_by_ms,
{
}

} // verus!
