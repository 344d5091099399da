//! Lease maintenance: which sessions go stale, which claims and
//! reservations expire, and what an expired claim does to its subtask.
use vstd::prelude::*;
use crate::model::{Claim, ClaimState, ReservationState, SessionState, SubtaskState};
use crate::observability::{ExpireResult, ReapResult};

verus! {

/// The heartbeat facts of one session.
#[derive(Debug)]
pub struct SessionHeartbeat {
    pub session_token: String,
    pub state: SessionState,
    /// Lease tick of the session's last heartbeat.
    pub last_heartbeat_tick: i64,
}

/// An active session whose last heartbeat is at or before `stale_before` goes stale.
pub open spec fn reaps(h: SessionHeartbeat, stale_before: int) -> bool {
    h.state == SessionState::Active && h.last_heartbeat_tick <= stale_before
}

/// A session's state after a reap pass with cut-off `stale_before`.
pub open spec fn state_after_reap(h: SessionHeartbeat, stale_before: int) -> SessionState {
    if reaps(h, stale_before) {
        SessionState::Stale
    } else {
        h.state
    }
}

/// How many sessions a reap pass with cut-off `stale_before` marks stale.
pub open spec fn reaped_count(s: Seq<SessionHeartbeat>, stale_before: int) -> nat
    decreases s.len(),
{
    if s.len() == 0 {
        0
    } else {
        reaped_count(s.drop_last(), stale_before) + if reaps(s.last(), stale_before) { 1nat } else { 0nat }
    }
}

/// Marks stale every active session whose heartbeat age at lease tick
/// `lease_now` reached `stale_threshold_ms`: the new state of each session,
/// in order, and how many went stale.
pub fn reap_stale_sessions_plan(sessions: &Vec<SessionHeartbeat>, lease_now: i64, stale_threshold_ms: i64) -> (r: (
    Vec<SessionState>,
    ReapResult,
))
    requires
        i64::MIN <= lease_now - stale_threshold_ms <= i64::MAX,
    ensures
        r.0@ == sessions@.map_values(|h: SessionHeartbeat| state_after_reap(h, lease_now - stale_threshold_ms)),
        r.1.stale_sessions == reaped_count(sessions@, lease_now - stale_threshold_ms),
{
    let stale_before = lease_now - stale_threshold_ms;
    let ghost cut = lease_now - stale_threshold_ms;
    let mut states: Vec<SessionState> = Vec::new();
    let mut count: usize = 0;
    let mut i: usize = 0;
    while i < sessions.len()
        invariant
            i <= sessions@.len(),
            stale_before == cut,
            states@ == sessions@.take(i as int).map_values(|h: SessionHeartbeat| state_after_reap(h, cut)),
            count == reaped_count(sessions@.take(i as int), cut),
            count <= i,
        decreases sessions@.len() - i,
    {
        let h = &sessions[i];
        let goes_stale = h.state == SessionState::Active && h.last_heartbeat_tick <= stale_before;
        proof {
            assert(sessions@.take(i + 1).drop_last() =~= sessions@.take(i as int));
            assert(sessions@.take(i + 1).map_values(|h: SessionHeartbeat| state_after_reap(h, cut))
                =~= sessions@.take(i as int).map_values(|h: SessionHeartbeat| state_after_reap(h, cut)).push(
                state_after_reap(sessions@[i as int], cut)));
        }
        if goes_stale {
            states.push(SessionState::Stale);
            count = count + 1;
        } else {
            states.push(h.state);
        }
        i = i + 1;
    }
    assert(sessions@.take(sessions@.len() as int) =~= sessions@);
    (states, ReapResult { stale_sessions: count })
}

/// A held claim expires once its lease deadline is reached or its owner
/// session is no longer active.
pub open spec fn claim_expirable(c: Claim, owner: SessionState, lease_now: int) -> bool {
    c.state == ClaimState::Held && (c.lease_deadline <= lease_now || owner != SessionState::Active)
}

/// Whether a claim expires at lease tick `lease_now`, given its owner's state.
pub fn claim_is_expirable(claim: &Claim, owner: SessionState, lease_now: i64) -> (r: bool)
    ensures
        r == claim_expirable(*claim, owner, lease_now as int),
{
    claim.state == ClaimState::Held && (claim.lease_deadline <= lease_now || owner != SessionState::Active)
}

/// State of a subtask whose claim expired: claimed and in-progress work is
/// available again, any other state stays.
pub open spec fn subtask_state_after_expiry(s: SubtaskState) -> SubtaskState {
    if s == SubtaskState::Claimed || s == SubtaskState::InProgress {
        SubtaskState::Available
    } else {
        s
    }
}

/// The state of a subtask once its current claim expired.
pub fn subtask_state_after_claim_expiry(s: SubtaskState) -> (r: SubtaskState)
    ensures
        r == subtask_state_after_expiry(s),
{
    match s {
        SubtaskState::Claimed | SubtaskState::InProgress => SubtaskState::Available,
        other => other,
    }
}

/// A claim's state after an expiry pass at `lease_now`.
pub open spec fn claim_state_after_expiry(c: Claim, owner: SessionState, lease_now: int) -> ClaimState {
    if claim_expirable(c, owner, lease_now) {
        ClaimState::Expired
    } else {
        c.state
    }
}

/// How many claims an expiry pass at `lease_now` expires.
pub open spec fn expired_claim_count(claims: Seq<Claim>, owners: Seq<SessionState>, lease_now: int) -> nat
    decreases claims.len(),
{
    if claims.len() == 0 {
        0
    } else {
        expired_claim_count(claims.drop_last(), owners.drop_last(), lease_now) + if claim_expirable(
            claims.last(),
            owners[claims.len() - 1],
            lease_now,
        ) {
            1nat
        } else {
            0nat
        }
    }
}

/// Expires every expirable claim at lease tick `lease_now`: `owners[i]` is
/// the state of claim `i`'s owner session. Gives the new state of each
/// claim, in order, and how many expired.
pub fn expire_claims_plan(claims: &Vec<Claim>, owners: &Vec<SessionState>, lease_now: i64) -> (r: (
    Vec<ClaimState>,
    ExpireResult,
))
    requires
        owners@.len() == claims@.len(),
    ensures
        r.0@.len() == claims@.len(),
        forall|i: int|
            0 <= i < claims@.len() ==> r.0@[i] == claim_state_after_expiry(
                #[trigger] claims@[i],
                owners@[i],
                lease_now as int,
            ),
        r.1.expired_count == expired_claim_count(claims@, owners@, lease_now as int),
{
    let mut states: Vec<ClaimState> = Vec::new();
    let mut count: usize = 0;
    let mut i: usize = 0;
    while i < claims.len()
        invariant
            i <= claims@.len(),
            owners@.len() == claims@.len(),
            states@.len() == i,
            forall|j: int|
                0 <= j < i ==> states@[j] == claim_state_after_expiry(#[trigger] claims@[j], owners@[j], lease_now as int),
            count == expired_claim_count(claims@.take(i as int), owners@.take(i as int), lease_now as int),
            count <= i,
        decreases claims@.len() - i,
    {
        let expires = claim_is_expirable(&claims[i], owners[i], lease_now);
        proof {
            assert(claims@.take(i + 1).drop_last() =~= claims@.take(i as int));
            assert(owners@.take(i + 1).drop_last() =~= owners@.take(i as int));
            assert(claims@.take(i + 1).last() == claims@[i as int]);
            assert(owners@.take(i + 1)[i as int] == owners@[i as int]);
        }
        if expires {
            states.push(ClaimState::Expired);
            count = count + 1;
        } else {
            states.push(claims[i].state);
        }
        i = i + 1;
    }
    assert(claims@.take(claims@.len() as int) =~= claims@);
    assert(owners@.take(owners@.len() as int) =~= owners@);
    (states, ExpireResult { expired_count: count })
}

/// The lease facts of one reservation.
#[derive(Debug)]
pub struct ReservationLease {
    pub reservation_id: String,
    pub state: ReservationState,
    pub lease_deadline: i64,
}

/// An active reservation expires once its lease deadline is reached.
pub open spec fn reservation_expires(r: ReservationLease, lease_now: int) -> bool {
    r.state == ReservationState::Active && r.lease_deadline <= lease_now
}

/// How many reservations an expiry pass at `lease_now` expires.
pub open spec fn expired_reservation_count(s: Seq<ReservationLease>, lease_now: int) -> nat
    decreases s.len(),
{
    if s.len() == 0 {
        0
    } else {
        expired_reservation_count(s.drop_last(), lease_now) + if reservation_expires(s.last(), lease_now) {
            1nat
        } else {
            0nat
        }
    }
}

/// The ids of the reservations an expiry pass at `lease_now` expires, in order.
pub open spec fn expired_reservation_ids(s: Seq<ReservationLease>, lease_now: int) -> Seq<Seq<char>>
    decreases s.len(),
{
    if s.len() == 0 {
        Seq::empty()
    } else if reservation_expires(s.last(), lease_now) {
        expired_reservation_ids(s.drop_last(), lease_now).push(s.last().reservation_id@)
    } else {
        expired_reservation_ids(s.drop_last(), lease_now)
    }
}

/// Expires every active reservation whose lease deadline is reached at
/// lease tick `lease_now`: the ids of the expired reservations, in order
/// (their overlap conflicts are resolved next), and how many expired.
pub fn expire_reservations_plan(leases: &Vec<ReservationLease>, lease_now: i64) -> (r: (Vec<String>, ExpireResult))
    ensures
        crate::text::views(r.0@) == expired_reservation_ids(leases@, lease_now as int),
        r.1.expired_count == expired_reservation_count(leases@, lease_now as int),
        r.1.expired_count == r.0@.len(),
{
    let mut ids: Vec<String> = Vec::new();
    let mut i: usize = 0;
    while i < leases.len()
        invariant
            i <= leases@.len(),
            crate::text::views(ids@) == expired_reservation_ids(leases@.take(i as int), lease_now as int),
            ids@.len() == expired_reservation_count(leases@.take(i as int), lease_now as int),
            ids@.len() <= i,
        decreases leases@.len() - i,
    {
        let l = &leases[i];
        proof {
            assert(leases@.take(i + 1).drop_last() =~= leases@.take(i as int));
            assert(leases@.take(i + 1).last() == leases@[i as int]);
        }
        if l.state == ReservationState::Active && l.lease_deadline <= lease_now {
            let x = l.reservation_id.clone();
            assert(crate::text::views(ids@.push(x)) =~= crate::text::views(ids@).push(x@));
            ids.push(x);
        }
        i = i + 1;
    }
    assert(leases@.take(leases@.len() as int) =~= leases@);
    let n = ids.len();
    (ids, ExpireResult { expired_count: n })
}

/// A maintenance pass leaves nothing for an immediate second pass: a
/// session it marked stale is not reaped again, an expired claim does not
/// expire again, and a subtask made available by an expiry stays so.
pub proof fn lemma_maintenance_is_idempotent(h: SessionHeartbeat, stale_before: int, c: Claim, owner: SessionState, lease_now: int, s: SubtaskState)
    ensures
        !reaps(SessionHeartbeat { state: state_after_reap(h, stale_before), ..h }, stale_before),
        !claim_expirable(Claim { state: claim_state_after_expiry(c, owner, lease_now), ..c }, owner, lease_now),
        subtask_state_after_expiry(subtask_state_after_expiry(s)) == subtask_state_after_expiry(s),
{
}

/// The expiry rule of a maintenance pass, claim by claim: a held claim
/// expires when its lease has run out or when its owner session is not
/// active (stale or exited), at every lease tick; a held claim of an active
/// owner with a live lease stays held; a claim that is not held keeps its
/// state.
pub proof fn lemma_expiry_rule(c: Claim, owner: SessionState, lease_now: int)
    ensures
        c.state == ClaimState::Held && owner != SessionState::Active ==> claim_state_after_expiry(c, owner, lease_now)
            == ClaimState::Expired,
        c.state == ClaimState::Held && c.lease_deadline <= lease_now ==> claim_state_after_expiry(c, owner, lease_now)
            == ClaimState::Expired,
        c.state == ClaimState::Held && owner == SessionState::Active && c.lease_deadline > lease_now
            ==> claim_state_after_expiry(c, owner, lease_now) == ClaimState::Held,
        c.state != ClaimState::Held ==> claim_state_after_expiry(c, owner, lease_now) == c.state,
{
}

/// A pass over held claims whose owners are all inactive expires every one
/// of them, whatever their leases.
pub proof fn lemma_inactive_owners_expire_all(claims: Seq<Claim>, owners: Seq<SessionState>, lease_now: int)
    requires
        owners.len() == claims.len(),
        forall|k: int| 0 <= k < claims.len() ==> (#[trigger] claims[k]).state == ClaimState::Held && owners[k]
            != SessionState::Active,
    ensures
        expired_claim_count(claims, owners, lease_now) == claims.len(),
        forall|k: int| 0 <= k < claims.len() ==> claim_state_after_expiry(#[trigger] claims[k], owners[k], lease_now)
            == ClaimState::Expired,
    decreases claims.len(),
{
    if claims.len() > 0 {
        let n = claims.len() - 1;
        assert forall|k: int| 0 <= k < claims.drop_last().len() implies (#[trigger] claims.drop_last()[k]).state
            == ClaimState::Held && owners.drop_last()[k] != SessionState::Active by {
            assert(claims.drop_last()[k] == claims[k]);
        }
        lemma_inactive_owners_expire_all(claims.drop_last(), owners.drop_last(), lease_now);
        assert(claims[n].state == ClaimState::Held && owners[n] != SessionState::Active);
    }
}

} // verus!
