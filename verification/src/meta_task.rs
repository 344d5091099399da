//! Cancelling a meta-task: which states its subtasks, queue items and
//! claims move to, and when the cancellation is refused.
use vstd::prelude::*;
use crate::error::CoveyError;
use crate::validate::{ensure_object_id_len, is_too_long_error, too_long};
use crate::model::{meta_task_state_name, Claim, ClaimState, MetaTaskState, ReadyQueueState, SubtaskState};

verus! {

/// A meta-task can be cancelled unless it has completed or was cancelled already.
pub open spec fn meta_task_cancellable(s: MetaTaskState) -> bool {
    s != MetaTaskState::Completed && s != MetaTaskState::Cancelled
}

/// State of a subtask once its meta-task is cancelled: applied and abandoned
/// subtasks keep their state, every other subtask is abandoned.
pub open spec fn subtask_state_after_cancel(s: SubtaskState) -> SubtaskState {
    if s == SubtaskState::Applied || s == SubtaskState::Abandoned {
        s
    } else {
        SubtaskState::Abandoned
    }
}

/// State of an apply-queue item once its meta-task is cancelled: queued and
/// in-flight items are cancelled, settled items keep their state.
pub open spec fn queue_state_after_cancel(s: ReadyQueueState) -> ReadyQueueState {
    if s == ReadyQueueState::Queued || s == ReadyQueueState::InFlight {
        ReadyQueueState::Cancelled
    } else {
        s
    }
}

/// State of a claim once its meta-task is cancelled: held claims are revoked.
pub open spec fn claim_state_after_cancel(s: ClaimState) -> ClaimState {
    if s == ClaimState::Held {
        ClaimState::Revoked
    } else {
        s
    }
}

/// The sessions detached by a cancellation: for each held claim, in order,
/// its owner session and the subtask it held.
pub open spec fn detached_sessions_spec(claims: Seq<Claim>) -> Seq<(Seq<char>, Seq<char>)>
    decreases claims.len(),
{
    if claims.len() == 0 {
        Seq::empty()
    } else {
        let rest = detached_sessions_spec(claims.drop_last());
        let c = claims.last();
        if c.state == ClaimState::Held {
            rest.push((c.owner_session_token@, c.subtask_id@))
        } else {
            rest
        }
    }
}

/// The view of a list of session/subtask pairs.
pub open spec fn pairs_view(v: Seq<(String, String)>) -> Seq<(Seq<char>, Seq<char>)> {
    v.map_values(|p: (String, String)| (p.0@, p.1@))
}

/// The changes that cancelling a meta-task makes. Each state list is in the
/// order of the list it was computed from.
#[derive(Debug)]
pub struct MetaTaskCancellation {
    pub meta_task_state: MetaTaskState,
    pub subtask_states: Vec<SubtaskState>,
    pub queue_states: Vec<ReadyQueueState>,
    pub claim_states: Vec<ClaimState>,
    /// Owner session and subtask of each revoked claim; the session's active
    /// subtask is cleared when it is that subtask.
    pub detached_sessions: Vec<(String, String)>,
}

/// Whether `e` is the refusal to cancel a meta-task in state `s`.
pub open spec fn is_cancel_refusal(e: CoveyError, s: MetaTaskState) -> bool {
    match e {
        CoveyError::IllegalTransition { object, from, to } => object@ == "meta_task"@ && from@
            == meta_task_state_name(s) && to@ == "cancelled"@,
        _ => false,
    }
}

fn subtask_after_cancel(s: SubtaskState) -> (r: SubtaskState)
    ensures
        r == subtask_state_after_cancel(s),
{
    match s {
        SubtaskState::Applied => SubtaskState::Applied,
        SubtaskState::Abandoned => SubtaskState::Abandoned,
        _ => SubtaskState::Abandoned,
    }
}

fn queue_after_cancel(s: ReadyQueueState) -> (r: ReadyQueueState)
    ensures
        r == queue_state_after_cancel(s),
{
    match s {
        ReadyQueueState::Queued | ReadyQueueState::InFlight => ReadyQueueState::Cancelled,
        other => other,
    }
}

fn claim_after_cancel(s: ClaimState) -> (r: ClaimState)
    ensures
        r == claim_state_after_cancel(s),
{
    match s {
        ClaimState::Held => ClaimState::Revoked,
        other => other,
    }
}

/// Plans the cancellation of meta-task `meta_task_id` in state `state`,
/// whose subtasks, apply-queue items and claims are in the given states.
/// Refused when the id is longer than an object id may be, and with an
/// illegal-transition error when the meta-task has completed or was already
/// cancelled; otherwise the meta-task becomes cancelled and every dependent
/// state moves as the `*_after_cancel` functions say.
pub fn cancel_meta_task_plan(
    meta_task_id: &str,
    state: MetaTaskState,
    subtask_states: &Vec<SubtaskState>,
    queue_states: &Vec<ReadyQueueState>,
    claims: &Vec<Claim>,
) -> (r: Result<MetaTaskCancellation, CoveyError>)
    ensures
        too_long(meta_task_id@) ==> r is Err && is_too_long_error(r->Err_0, "meta_task_id"@),
        !too_long(meta_task_id@) ==> (r is Err <==> !meta_task_cancellable(state)),
        !too_long(meta_task_id@) && r is Err ==> is_cancel_refusal(r->Err_0, state),
        r is Ok ==> {
            let p = r->Ok_0;
            &&& p.meta_task_state == MetaTaskState::Cancelled
            &&& p.subtask_states@ == subtask_states@.map_values(|s: SubtaskState| subtask_state_after_cancel(s))
            &&& p.queue_states@ == queue_states@.map_values(|s: ReadyQueueState| queue_state_after_cancel(s))
            &&& p.claim_states@ == claims@.map_values(|c: Claim| claim_state_after_cancel(c.state))
            &&& pairs_view(p.detached_sessions@) == detached_sessions_spec(claims@)
        },
{
    ensure_object_id_len("meta_task_id", meta_task_id)?;
    if state == MetaTaskState::Completed || state == MetaTaskState::Cancelled {
        let from = String::from_str(state.name());
        return Err(
            CoveyError::IllegalTransition {
                object: String::from_str("meta_task"),
                from,
                to: String::from_str("cancelled"),
            },
        );
    }
    let mut subs: Vec<SubtaskState> = Vec::new();
    let mut i: usize = 0;
    while i < subtask_states.len()
        invariant
            i <= subtask_states.len(),
            subs@ == subtask_states@.take(i as int).map_values(|s: SubtaskState| subtask_state_after_cancel(s)),
        decreases subtask_states.len() - i,
    {
        subs.push(subtask_after_cancel(subtask_states[i]));
        assert(subtask_states@.take(i + 1).map_values(|s: SubtaskState| subtask_state_after_cancel(s))
            =~= subtask_states@.take(i as int).map_values(|s: SubtaskState| subtask_state_after_cancel(s)).push(
            subtask_state_after_cancel(subtask_states@[i as int])));
        i = i + 1;
    }
    assert(subtask_states@.take(subtask_states.len() as int) =~= subtask_states@);
    let mut queue: Vec<ReadyQueueState> = Vec::new();
    let mut j: usize = 0;
    while j < queue_states.len()
        invariant
            j <= queue_states.len(),
            queue@ == queue_states@.take(j as int).map_values(|s: ReadyQueueState| queue_state_after_cancel(s)),
        decreases queue_states.len() - j,
    {
        queue.push(queue_after_cancel(queue_states[j]));
        assert(queue_states@.take(j + 1).map_values(|s: ReadyQueueState| queue_state_after_cancel(s))
            =~= queue_states@.take(j as int).map_values(|s: ReadyQueueState| queue_state_after_cancel(s)).push(
            queue_state_after_cancel(queue_states@[j as int])));
        j = j + 1;
    }
    assert(queue_states@.take(queue_states.len() as int) =~= queue_states@);
    let mut claim_states: Vec<ClaimState> = Vec::new();
    let mut detached: Vec<(String, String)> = Vec::new();
    let mut k: usize = 0;
    while k < claims.len()
        invariant
            k <= claims.len(),
            claim_states@ == claims@.take(k as int).map_values(|c: Claim| claim_state_after_cancel(c.state)),
            pairs_view(detached@) == detached_sessions_spec(claims@.take(k as int)),
        decreases claims.len() - k,
    {
        let c = &claims[k];
        claim_states.push(claim_after_cancel(c.state));
        assert(claims@.take(k + 1).map_values(|c: Claim| claim_state_after_cancel(c.state))
            =~= claims@.take(k as int).map_values(|c: Claim| claim_state_after_cancel(c.state)).push(
            claim_state_after_cancel(claims@[k as int].state)));
        let ghost before = detached@;
        assert(claims@.take(k + 1).drop_last() =~= claims@.take(k as int));
        if c.state == ClaimState::Held {
            detached.push((c.owner_session_token.clone(), c.subtask_id.clone()));
            assert(pairs_view(detached@) =~= pairs_view(before).push(
                (c.owner_session_token@, c.subtask_id@),
            ));
        }
        k = k + 1;
    }
    assert(claims@.take(claims.len() as int) =~= claims@);
    Ok(
        MetaTaskCancellation {
            meta_task_state: MetaTaskState::Cancelled,
            subtask_states: subs,
            queue_states: queue,
            claim_states,
            detached_sessions: detached,
        },
    )
}

/// Cancellation settles every dependent and is final: no subtask is left
/// unsettled, no queue item queued or in flight, no claim held; a second
/// cancellation of the now cancelled meta-task is refused; and applying the
/// cancellation's state changes again changes nothing.
pub proof fn lemma_cancellation_is_final(s: SubtaskState, q: ReadyQueueState, c: ClaimState)
    ensures
        subtask_state_after_cancel(s) == SubtaskState::Applied || subtask_state_after_cancel(s)
            == SubtaskState::Abandoned,
        queue_state_after_cancel(q) != ReadyQueueState::Queued && queue_state_after_cancel(q)
            != ReadyQueueState::InFlight,
        claim_state_after_cancel(c) != ClaimState::Held,
        !meta_task_cancellable(MetaTaskState::Cancelled),
        subtask_state_after_cancel(subtask_state_after_cancel(s)) == subtask_state_after_cancel(s),
        queue_state_after_cancel(queue_state_after_cancel(q)) == queue_state_after_cancel(q),
        claim_state_after_cancel(claim_state_after_cancel(c)) == claim_state_after_cancel(c),
{
}

} // verus!
