//! Prose intake: the subtasks a confirmed prose preview becomes.
use vstd::prelude::*;
use crate::error::CoveyError;
use crate::text::{concat3, nat_digits, owned, usize_decimal};

verus! {

/// Provenance tier recorded for a prose taskset.
pub fn prose_provenance_tier() -> (r: &'static str)
    ensures
        r@ == "lightweight_prose_intake"@,
{
    "lightweight_prose_intake"
}

/// The idempotency key under which task `index` of a prose import creates
/// its subtask.
pub open spec fn prose_subtask_key(idempotency_key: Seq<char>, index: nat) -> Seq<char> {
    idempotency_key + ":create-subtask:"@ + nat_digits(index)
}

/// The idempotency keys of the subtasks a prose import of `task_count`
/// tasks creates, one per task in order; an import without tasks is refused.
pub fn prose_subtask_idempotency_keys(idempotency_key: &str, task_count: usize) -> (r: Result<Vec<String>, CoveyError>)
    ensures
        r is Err <==> task_count == 0,
        r matches Err(e) ==> (e matches CoveyError::InvalidImportDestination { reason } && reason@
            == "prose import requires at least one task"@),
        r matches Ok(keys) ==> keys@.len() == task_count && forall|i: int|
            0 <= i < task_count ==> (#[trigger] keys@[i])@ == prose_subtask_key(idempotency_key@, i as nat),
{
    if task_count == 0 {
        return Err(CoveyError::InvalidImportDestination { reason: owned("prose import requires at least one task") });
    }
    let mut keys: Vec<String> = Vec::new();
    let mut i: usize = 0;
    while i < task_count
        invariant
            i <= task_count,
            keys@.len() == i,
            forall|j: int| 0 <= j < i ==> (#[trigger] keys@[j])@ == prose_subtask_key(idempotency_key@, j as nat),
        decreases task_count - i,
    {
        let n = usize_decimal(i);
        keys.push(concat3(idempotency_key, ":create-subtask:", n.as_str()));
        i = i + 1;
    }
    Ok(keys)
}

} // verus!
