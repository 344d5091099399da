//! Checks on apply-gate evidence: runtime actors that produce, review and
//! apply an artifact must be separated.
use vstd::prelude::*;
use crate::error::CoveyError;
use crate::model::{
    applyable_artifact_kind, subtask_state_name, ArtifactKind, MetaTaskState, ReadyQueueItem, ReadyQueueState,
    RuntimeAttestation, SettlementTarget, SubtaskKind, SubtaskState,
};
use crate::text::{concat4, owned, str_eq};

verus! {

/// The provider run an attestation names: its issuer and run id.
pub open spec fn provider_run_of(a: RuntimeAttestation) -> (Seq<char>, Seq<char>) {
    (a.provider_run_id_issuer@, a.provider_run_id@)
}

/// The local runtime an attestation names: its process and container ids.
pub open spec fn runtime_of(a: RuntimeAttestation) -> (Option<Seq<char>>, Option<Seq<char>>) {
    (crate::current_work::opt_view(a.process_id), crate::current_work::opt_view(a.container_id))
}

/// Why two runtime actors are not separated, if they are not: the same
/// provider run, the same local runtime, or the same command transcript.
pub open spec fn separation_error(left_role: Seq<char>, left: RuntimeAttestation, right_role: Seq<char>, right: RuntimeAttestation) -> Option<Seq<char>> {
    if provider_run_of(left) == provider_run_of(right) {
        Some(left_role + " and "@ + right_role + " provider run ids are not separated"@)
    } else if runtime_of(left) == runtime_of(right) {
        Some(left_role + " and "@ + right_role + " runtime refs are not separated"@)
    } else if left.command_transcript_digest@ == right.command_transcript_digest@ {
        Some(left_role + " and "@ + right_role + " transcript digests are not separated"@)
    } else {
        None
    }
}

/// Requires two runtime actors of an apply to be separated.
pub fn require_runtime_actor_separation(
    queue_id: &str,
    left_role: &str,
    left: &RuntimeAttestation,
    right_role: &str,
    right: &RuntimeAttestation,
) -> (r: Result<(), CoveyError>)
    ensures
        r is Err <==> separation_error(left_role@, *left, right_role@, *right) is Some,
        r matches Err(e) ==> e matches CoveyError::ApplyGateEvidenceMissing { queue_id: q, reason }
            && q@ == queue_id@ && Some(reason@) == separation_error(left_role@, *left, right_role@, *right),
{
    if str_eq(left.provider_run_id_issuer.as_str(), right.provider_run_id_issuer.as_str())
        && str_eq(left.provider_run_id.as_str(), right.provider_run_id.as_str()) {
        return Err(CoveyError::ApplyGateEvidenceMissing {
            queue_id: queue_id.to_owned(),
            reason: concat4(left_role, " and ", right_role, " provider run ids are not separated"),
        });
    }
    if crate::model::opt_text_eq(&left.process_id, &right.process_id) && crate::model::opt_text_eq(
        &left.container_id,
        &right.container_id,
    ) {
        return Err(CoveyError::ApplyGateEvidenceMissing {
            queue_id: queue_id.to_owned(),
            reason: concat4(left_role, " and ", right_role, " runtime refs are not separated"),
        });
    }
    if str_eq(left.command_transcript_digest.as_str(), right.command_transcript_digest.as_str()) {
        return Err(CoveyError::ApplyGateEvidenceMissing {
            queue_id: queue_id.to_owned(),
            reason: concat4(left_role, " and ", right_role, " transcript digests are not separated"),
        });
    }
    Ok(())
}

/// Why the principals of an apply are not separated, if they are not, in
/// order: producer and review actor are one principal (0), the apply gate is the
/// producer (1) or the review actor (2).
pub open spec fn principal_separation_error(apply_gate: Seq<char>, producer: Seq<char>, review_actor: Seq<char>) -> Option<int> {
    if producer == review_actor {
        Some(0)
    } else if apply_gate == producer {
        Some(1)
    } else if apply_gate == review_actor {
        Some(2)
    } else {
        None
    }
}

/// The refusal for the principal fault `k` (as `principal_separation_error`
/// numbers them) of the apply of queue item `queue_id`.
pub open spec fn principal_refusal(
    e: CoveyError,
    queue_id: Seq<char>,
    apply_gate: Seq<char>,
    producer: Seq<char>,
    review_actor: Seq<char>,
    k: int,
) -> bool {
    if k == 0 {
        e matches CoveyError::ApplyGateEvidenceMissing { queue_id: q, reason } && q@ == queue_id && reason@
            == "producer and review_actor principals are not separated"@
    } else if k == 1 {
        e matches CoveyError::ApplyGateSeparationOfDutiesViolation {
            apply_gate_principal_id: a,
            conflicting_role: role,
            conflicting_principal_id: c,
        } && a@ == apply_gate && role@ == "producer"@ && c@ == producer
    } else {
        e matches CoveyError::ApplyGateSeparationOfDutiesViolation {
            apply_gate_principal_id: a,
            conflicting_role: role,
            conflicting_principal_id: c,
        } && a@ == apply_gate && role@ == "review_actor"@ && c@ == review_actor
    }
}

/// Requires the producer, the review actor and the apply gate of queue item
/// `queue_id` to be three principals.
pub fn require_principal_separation(
    queue_id: &str,
    apply_gate_principal_id: &str,
    producer_principal_id: &str,
    review_principal_id: &str,
) -> (r: Result<(), CoveyError>)
    ensures
        r is Ok <==> principal_separation_error(apply_gate_principal_id@, producer_principal_id@, review_principal_id@) is None,
        principal_separation_error(apply_gate_principal_id@, producer_principal_id@, review_principal_id@) matches Some(k)
            ==> (r matches Err(e) && principal_refusal(
            e,
            queue_id@,
            apply_gate_principal_id@,
            producer_principal_id@,
            review_principal_id@,
            k,
        )),
{
    if str_eq(producer_principal_id, review_principal_id) {
        return Err(CoveyError::ApplyGateEvidenceMissing {
            queue_id: owned(queue_id),
            reason: owned("producer and review_actor principals are not separated"),
        });
    }
    if str_eq(apply_gate_principal_id, producer_principal_id) {
        return Err(CoveyError::ApplyGateSeparationOfDutiesViolation {
            apply_gate_principal_id: owned(apply_gate_principal_id),
            conflicting_role: owned("producer"),
            conflicting_principal_id: owned(producer_principal_id),
        });
    }
    if str_eq(apply_gate_principal_id, review_principal_id) {
        return Err(CoveyError::ApplyGateSeparationOfDutiesViolation {
            apply_gate_principal_id: owned(apply_gate_principal_id),
            conflicting_role: owned("review_actor"),
            conflicting_principal_id: owned(review_principal_id),
        });
    }
    Ok(())
}

/// Whether two runtime actors are separated: distinct provider runs, local
/// runtimes and command transcripts.
pub open spec fn actors_separated(a: RuntimeAttestation, b: RuntimeAttestation) -> bool {
    provider_run_of(a) != provider_run_of(b) && runtime_of(a) != runtime_of(b) && a.command_transcript_digest@
        != b.command_transcript_digest@
}

/// Checks the separation of duties of an apply of queue item `queue_id`:
/// three principals, then producer and review actor, producer and apply gate,
/// and review actor and apply gate as separated runtime actors. Accepted
/// evidence therefore always has the three actors pairwise separated.
pub fn require_apply_separation(
    queue_id: &str,
    apply_gate_principal_id: &str,
    producer_principal_id: &str,
    review_principal_id: &str,
    producer: &RuntimeAttestation,
    review_actor: &RuntimeAttestation,
    apply_gate: &RuntimeAttestation,
) -> (r: Result<(), CoveyError>)
    ensures
        r is Ok <==> (principal_separation_error(apply_gate_principal_id@, producer_principal_id@, review_principal_id@) is None
            && separation_error("producer"@, *producer, "review_actor"@, *review_actor) is None && separation_error(
            "producer"@,
            *producer,
            "apply_gate"@,
            *apply_gate,
        ) is None && separation_error("review_actor"@, *review_actor, "apply_gate"@, *apply_gate) is None),
        r is Ok ==> (producer_principal_id@ != review_principal_id@ && apply_gate_principal_id@ != producer_principal_id@
            && apply_gate_principal_id@ != review_principal_id@ && actors_separated(*producer, *review_actor)
            && actors_separated(*producer, *apply_gate) && actors_separated(*review_actor, *apply_gate)),
        principal_separation_error(apply_gate_principal_id@, producer_principal_id@, review_principal_id@) matches Some(k)
            ==> (r matches Err(e) && principal_refusal(
            e,
            queue_id@,
            apply_gate_principal_id@,
            producer_principal_id@,
            review_principal_id@,
            k,
        )),
        principal_separation_error(apply_gate_principal_id@, producer_principal_id@, review_principal_id@) is None
            ==> (r matches Err(e) ==> e matches CoveyError::ApplyGateEvidenceMissing { queue_id: q, reason } && q@
            == queue_id@ && Some(reason@) == if separation_error("producer"@, *producer, "review_actor"@, *review_actor) is Some {
            separation_error("producer"@, *producer, "review_actor"@, *review_actor)
        } else if separation_error("producer"@, *producer, "apply_gate"@, *apply_gate) is Some {
            separation_error("producer"@, *producer, "apply_gate"@, *apply_gate)
        } else {
            separation_error("review_actor"@, *review_actor, "apply_gate"@, *apply_gate)
        }),
{
    require_principal_separation(queue_id, apply_gate_principal_id, producer_principal_id, review_principal_id)?;
    require_runtime_actor_separation(queue_id, "producer", producer, "review_actor", review_actor)?;
    require_runtime_actor_separation(queue_id, "producer", producer, "apply_gate", apply_gate)?;
    require_runtime_actor_separation(queue_id, "review_actor", review_actor, "apply_gate", apply_gate)?;
    Ok(())
}

/// Facts about one subtask considered for automatic enqueueing.
#[derive(Debug)]
pub struct ApplyCandidateFacts {
    pub subtask_id: String,
    pub kind: SubtaskKind,
    pub state: SubtaskState,
    pub artifact_digest: Option<String>,
    pub artifact_kind: ArtifactKind,
    pub meta_task_state: MetaTaskState,
    /// Whether a decided review approves the subtask's artifact.
    pub approved: bool,
    /// Whether the artifact is already queued, in flight or applied.
    pub queued_or_applied: bool,
}

/// Whether a subtask in state `want` is enqueued automatically: a work
/// subtask with an applyable artifact, an approving review and no queue
/// item for it, whose meta-task is neither completed nor cancelled.
pub open spec fn apply_candidate(f: ApplyCandidateFacts, want: SubtaskState) -> bool {
    &&& f.kind == SubtaskKind::Work
    &&& f.state == want
    &&& f.artifact_digest is Some
    &&& applyable_artifact_kind(f.artifact_kind)
    &&& f.meta_task_state != MetaTaskState::Completed && f.meta_task_state != MetaTaskState::Cancelled
    &&& f.approved
    &&& !f.queued_or_applied
}

/// The subtask and artifact an apply candidate is enqueued with.
pub open spec fn candidate_pick(want: SubtaskState) -> spec_fn(ApplyCandidateFacts) -> Option<(Seq<char>, Seq<char>)> {
    |f: ApplyCandidateFacts| if apply_candidate(f, want) {
        Some((f.subtask_id@, f.artifact_digest->0@))
    } else {
        None
    }
}

/// The view of a list of text pairs.
pub open spec fn text_pairs(v: Seq<(String, String)>) -> Seq<(Seq<char>, Seq<char>)> {
    v.map_values(|p: (String, String)| (p.0@, p.1@))
}

/// Selects, in order, the subtasks in state `want` to enqueue automatically,
/// with their artifacts.
pub fn select_apply_candidates(facts: &Vec<ApplyCandidateFacts>, want: SubtaskState) -> (r: Vec<(String, String)>)
    ensures
        text_pairs(r@) == facts@.filter_map(candidate_pick(want)),
{
    let ghost f = candidate_pick(want);
    let mut out: Vec<(String, String)> = Vec::new();
    let mut i: usize = 0;
    while i < facts.len()
        invariant
            i <= facts@.len(),
            f == candidate_pick(want),
            text_pairs(out@) == facts@.take(i as int).filter_map(f),
        decreases facts@.len() - i,
    {
        let c = &facts[i];
        proof {
            facts@.lemma_filter_map_take_succ(f, i as int);
        }
        if c.kind == SubtaskKind::Work && c.state == want && c.artifact_kind.is_applyable() && c.meta_task_state
            != MetaTaskState::Completed && c.meta_task_state != MetaTaskState::Cancelled && c.approved
            && !c.queued_or_applied {
            match &c.artifact_digest {
                Some(d) => {
                    let pair = (c.subtask_id.clone(), d.clone());
                    assert(text_pairs(out@.push(pair)) =~= text_pairs(out@).push((pair.0@, pair.1@)));
                    out.push(pair);
                },
                None => {},
            }
        }
        assert(text_pairs(out@) =~= facts@.take(i + 1).filter_map(f));
        i = i + 1;
    }
    assert(facts@.take(facts@.len() as int) =~= facts@);
    out
}

/// The idempotency key under which an approved artifact is enqueued automatically.
pub fn auto_enqueue_key(subtask_id: &str, artifact_digest: &str) -> (r: String)
    ensures
        r@ == "auto-enqueue-approved:"@ + subtask_id@ + ":"@ + artifact_digest@,
{
    concat4("auto-enqueue-approved:", subtask_id, ":", artifact_digest)
}

/// The idempotency key under which a ready-for-apply artifact without a
/// queue item is queued again.
pub fn auto_requeue_key(subtask_id: &str, artifact_digest: &str) -> (r: String)
    ensures
        r@ == "auto-requeue-ready-for-apply:"@ + subtask_id@ + ":"@ + artifact_digest@,
{
    concat4("auto-requeue-ready-for-apply:", subtask_id, ":", artifact_digest)
}

/// Whether a queue item carries artifact `digest` towards or through apply:
/// queued, in flight or applied.
pub open spec fn holds_artifact(item: ReadyQueueItem, digest: Seq<char>) -> bool {
    item.artifact_digest@ == digest && (item.state == ReadyQueueState::Queued || item.state
        == ReadyQueueState::InFlight || item.state == ReadyQueueState::Applied)
}

/// Finds, among one subtask's queue items, the earliest enqueued item that
/// holds artifact `digest`; of items enqueued at the same time, the first.
pub fn queue_item_holding_artifact(items: &Vec<ReadyQueueItem>, digest: &str) -> (r: Option<usize>)
    ensures
        r is None <==> !exists|k: int| 0 <= k < items@.len() && holds_artifact(#[trigger] items@[k], digest@),
        r matches Some(k) ==> k < items@.len() && holds_artifact(items@[k as int], digest@) && forall|j: int|
            0 <= j < items@.len() && holds_artifact(#[trigger] items@[j], digest@) ==> items@[k as int].enqueued_at
                <= items@[j].enqueued_at,
        r matches Some(k) ==> forall|j: int|
            0 <= j < k && holds_artifact(#[trigger] items@[j], digest@) ==> items@[j].enqueued_at > items@[k as int].enqueued_at,
{
    let mut best: Option<usize> = None;
    let mut i: usize = 0;
    while i < items.len()
        invariant
            i <= items@.len(),
            best is None <==> !exists|k: int| 0 <= k < i && holds_artifact(#[trigger] items@[k], digest@),
            best matches Some(b) ==> b < i && holds_artifact(items@[b as int], digest@) && forall|j: int|
                0 <= j < i && holds_artifact(#[trigger] items@[j], digest@) ==> items@[b as int].enqueued_at
                    <= items@[j].enqueued_at,
            best matches Some(b) ==> forall|j: int|
                0 <= j < b && holds_artifact(#[trigger] items@[j], digest@) ==> items@[j].enqueued_at > items@[b as int].enqueued_at,
        decreases items@.len() - i,
    {
        let it = &items[i];
        let holds = str_eq(it.artifact_digest.as_str(), digest) && (it.state == ReadyQueueState::Queued || it.state
            == ReadyQueueState::InFlight || it.state == ReadyQueueState::Applied);
        if holds {
            match best {
                None => {
                    best = Some(i);
                },
                Some(b) => {
                    if it.enqueued_at < items[b].enqueued_at {
                        best = Some(i);
                    }
                },
            }
        }
        i = i + 1;
    }
    best
}

/// What enqueueing an artifact for apply does.
#[derive(Debug)]
pub enum EnqueueForApplyDecision {
    /// The artifact is already queued or applied under this queue id.
    ReturnExisting(String),
    /// The approved subtask becomes ready for apply under a new queue item.
    Enqueue,
}

/// Whether `e` refuses to move a subtask in state `s` to ready-for-apply.
pub open spec fn is_ready_for_apply_refusal(e: CoveyError, s: SubtaskState) -> bool {
    match e {
        CoveyError::IllegalTransition { object, from, to } => object@ == "subtask"@ && from@ == subtask_state_name(s)
            && to@ == "ready_for_apply"@,
        _ => false,
    }
}

/// Decides what enqueueing artifact `digest` of a subtask in state `state`
/// with published artifact `subtask_digest` does, given the subtask's queue
/// items. The digest must be the subtask's artifact; a subtask already ready
/// for apply whose artifact is queued or applied answers with that item's
/// queue id; an approved subtask is enqueued; anything else is refused.
pub fn enqueue_for_apply_decision(
    state: SubtaskState,
    subtask_digest: &Option<String>,
    digest: &str,
    items: &Vec<ReadyQueueItem>,
) -> (r: Result<EnqueueForApplyDecision, CoveyError>)
    ensures
        crate::current_work::opt_view(*subtask_digest) != Some(digest@) ==> r is Err,
        r is Err ==> is_ready_for_apply_refusal(r->Err_0, state),
        crate::current_work::opt_view(*subtask_digest) == Some(digest@) ==> {
            &&& (state == SubtaskState::ReadyForApply && (exists|k: int|
                0 <= k < items@.len() && holds_artifact(#[trigger] items@[k], digest@))) ==> (r matches Ok(
                EnqueueForApplyDecision::ReturnExisting(q),
            ) && exists|k: int|
                0 <= k < items@.len() && holds_artifact(#[trigger] items@[k], digest@) && items@[k].queue_id@ == q@)
            &&& state == SubtaskState::Approved ==> (r matches Ok(EnqueueForApplyDecision::Enqueue))
            &&& (state != SubtaskState::Approved && !(state == SubtaskState::ReadyForApply && (exists|k: int|
                0 <= k < items@.len() && holds_artifact(#[trigger] items@[k], digest@)))) ==> r is Err
        },
{
    let digest_matches = match subtask_digest {
        Some(d) => str_eq(d.as_str(), digest),
        None => false,
    };
    if digest_matches {
        if state == SubtaskState::ReadyForApply {
            if let Some(k) = queue_item_holding_artifact(items, digest) {
                return Ok(EnqueueForApplyDecision::ReturnExisting(items[k].queue_id.clone()));
            }
        }
        if state == SubtaskState::Approved {
            return Ok(EnqueueForApplyDecision::Enqueue);
        }
    }
    Err(
        CoveyError::IllegalTransition {
            object: owned("subtask"),
            from: owned(state.name()),
            to: owned("ready_for_apply"),
        },
    )
}

/// The queue item an enqueue writes for artifact `artifact_digest` of
/// subtask `subtask_id` at time `now`, under a fresh `queue_id`: queued,
/// unclaimed, enqueued and updated at `now`.
pub fn new_queue_item(
    queue_id: String,
    subtask_id: &str,
    artifact_digest: &str,
    settlement_target: SettlementTarget,
    now: i64,
) -> (r: ReadyQueueItem)
    ensures
        r.queue_id == queue_id,
        r.subtask_id@ == subtask_id@,
        r.artifact_digest@ == artifact_digest@,
        r.settlement_target == settlement_target,
        r.state == ReadyQueueState::Queued,
        r.claimed_by_session_token is None,
        r.claim_fence_seq is None,
        r.claim_lease_deadline is None,
        r.enqueued_at == now,
        r.updated_at == now,
{
    ReadyQueueItem {
        queue_id,
        artifact_digest: owned(artifact_digest),
        subtask_id: owned(subtask_id),
        settlement_target,
        state: ReadyQueueState::Queued,
        claimed_by_session_token: None,
        claim_fence_seq: None,
        claim_lease_deadline: None,
        enqueued_at: now,
        updated_at: now,
    }
}

/// State of an earlier queue item of a subtask once a new artifact of it is
/// enqueued: queued and in-flight items are superseded.
pub open spec fn queue_state_after_enqueue(s: ReadyQueueState) -> ReadyQueueState {
    if s == ReadyQueueState::Queued || s == ReadyQueueState::InFlight {
        ReadyQueueState::Superseded
    } else {
        s
    }
}

/// The states of a subtask's queue items once a new artifact of it is
/// enqueued, in the items' order.
pub fn queue_states_after_enqueue(items: &Vec<ReadyQueueItem>) -> (r: Vec<ReadyQueueState>)
    ensures
        r@ == items@.map_values(|i: ReadyQueueItem| queue_state_after_enqueue(i.state)),
{
    let mut out: Vec<ReadyQueueState> = Vec::new();
    let mut i: usize = 0;
    while i < items.len()
        invariant
            i <= items@.len(),
            out@ == items@.take(i as int).map_values(|i: ReadyQueueItem| queue_state_after_enqueue(i.state)),
        decreases items@.len() - i,
    {
        let s = items[i].state;
        let next = if s == ReadyQueueState::Queued || s == ReadyQueueState::InFlight {
            ReadyQueueState::Superseded
        } else {
            s
        };
        out.push(next);
        assert(items@.take(i + 1).map_values(|i: ReadyQueueItem| queue_state_after_enqueue(i.state))
            =~= items@.take(i as int).map_values(|i: ReadyQueueItem| queue_state_after_enqueue(i.state)).push(
            queue_state_after_enqueue(items@[i as int].state)));
        i = i + 1;
    }
    assert(items@.take(items@.len() as int) =~= items@);
    out
}

/// Whether a queue state still waits for or undergoes apply.
pub open spec fn is_active_queue_state(s: ReadyQueueState) -> bool {
    s == ReadyQueueState::Queued || s == ReadyQueueState::InFlight
}

/// A subtask has at most one active apply-queue item: once a new artifact is
/// enqueued, every earlier item has left the queued and in-flight states, so
/// the new queued item is the only active one.
pub proof fn lemma_enqueue_leaves_one_active(states: Seq<ReadyQueueState>)
    ensures
        ({
            let after = states.map_values(|s: ReadyQueueState| queue_state_after_enqueue(s));
            forall|k: int| 0 <= k < after.len() ==> !is_active_queue_state(#[trigger] after[k])
        }),
        is_active_queue_state(ReadyQueueState::Queued),
{
}

/// Every artifact kind but a findings bundle is enqueued automatically: a
/// work subtask in the wanted state with an artifact of any other kind, an
/// approving review, no queue item yet and a meta-task neither completed nor
/// cancelled is picked with its artifact; a findings bundle never is.
pub proof fn lemma_apply_candidates_take_every_applyable_kind(f: ApplyCandidateFacts, want: SubtaskState)
    ensures
        f.kind == SubtaskKind::Work && f.state == want && f.artifact_digest is Some && f.artifact_kind
            != ArtifactKind::FindingsBundle && f.meta_task_state != MetaTaskState::Completed && f.meta_task_state
            != MetaTaskState::Cancelled && f.approved && !f.queued_or_applied ==> (candidate_pick(want))(f) == Some(
            (f.subtask_id@, f.artifact_digest->0@),
        ),
        f.artifact_kind == ArtifactKind::FindingsBundle ==> (candidate_pick(want))(f) is None,
        seq![f].filter_map(candidate_pick(want)).len() == 1 <==> (f.kind == SubtaskKind::Work && f.state == want
            && f.artifact_digest is Some && f.artifact_kind != ArtifactKind::FindingsBundle && f.meta_task_state
            != MetaTaskState::Completed && f.meta_task_state != MetaTaskState::Cancelled && f.approved
            && !f.queued_or_applied),
{
    let s = seq![f];
    s.lemma_filter_map_take_succ(candidate_pick(want), 0);
    assert(s.take(1) =~= s);
    assert(s.take(0) =~= Seq::<ApplyCandidateFacts>::empty());
    assert(Seq::<ApplyCandidateFacts>::empty().filter_map(candidate_pick(want)) =~= Seq::empty());
}

} // verus!
