//! OpenSpec archive cleanup: which scoped subtasks still hold an archive
//! back, and the names, lease and proof check of a cleanup claim.
use vstd::prelude::*;
use crate::error::CoveyError;
use crate::model::SubtaskState;
use crate::status::SubtaskView;
use crate::text::{concat2, concat3, concat4, owned, str_eq, views};

verus! {

/// Whether a scoped subtask still holds its change's archive back: it is
/// neither applied nor abandoned, and its source was not repaired.
pub open spec fn pending_for_archive(s: SubtaskView, repaired: Seq<Seq<char>>) -> bool {
    s.lifecycle_spec().state != SubtaskState::Applied && s.lifecycle_spec().state != SubtaskState::Abandoned
        && !repaired.contains(s.subtask_id_spec())
}

fn is_repaired(id: &str, repaired_ids: &Vec<String>) -> (r: bool)
    ensures
        r == views(repaired_ids@).contains(id@),
{
    let mut i: usize = 0;
    while i < repaired_ids.len()
        invariant
            i <= repaired_ids@.len(),
            forall|j: int| 0 <= j < i ==> (#[trigger] repaired_ids@[j])@ != id@,
        decreases repaired_ids@.len() - i,
    {
        if str_eq(repaired_ids[i].as_str(), id) {
            assert(views(repaired_ids@)[i as int] == id@);
            return true;
        }
        i = i + 1;
    }
    assert(!views(repaired_ids@).contains(id@)) by {
        if views(repaired_ids@).contains(id@) {
            let k = choose|k: int| 0 <= k < views(repaired_ids@).len() && views(repaired_ids@)[k] == id@;
            assert(repaired_ids@[k]@ == id@);
        }
    }
    false
}

/// The scoped subtasks of a change that still hold its archive back, in order.
pub fn pending_archive_subtasks(scoped: &Vec<SubtaskView>, repaired_ids: &Vec<String>) -> (r: Vec<SubtaskView>)
    ensures
        r@ == scoped@.filter(|s: SubtaskView| pending_for_archive(s, views(repaired_ids@))),
{
    let ghost p = |s: SubtaskView| pending_for_archive(s, views(repaired_ids@));
    let mut out: Vec<SubtaskView> = Vec::new();
    let mut i: usize = 0;
    proof {
        reveal(Seq::filter);
        assert(scoped@.take(0) =~= Seq::<SubtaskView>::empty());
    }
    while i < scoped.len()
        invariant
            i <= scoped@.len(),
            p == (|s: SubtaskView| pending_for_archive(s, views(repaired_ids@))),
            out@ == scoped@.take(i as int).filter(p),
        decreases scoped@.len() - i,
    {
        proof {
            reveal(Seq::filter);
            assert(scoped@.take(i + 1).drop_last() =~= scoped@.take(i as int));
            assert(scoped@.take(i + 1).last() == scoped@[i as int]);
        }
        let s = &scoped[i];
        let st = s.state();
        let id = s.subtask_id();
        if st != SubtaskState::Applied && st != SubtaskState::Abandoned && !is_repaired(id, repaired_ids) {
            out.push(s.clone());
        }
        i = i + 1;
    }
    assert(scoped@.take(scoped@.len() as int) =~= scoped@);
    out
}

/// The id of the cleanup subtask of a change.
pub fn cleanup_subtask_id(openspec_change_id: &str) -> (r: String)
    ensures
        r@ == "openspec:"@ + openspec_change_id@ + ":cleanup:archive"@,
{
    concat3("openspec:", openspec_change_id, ":cleanup:archive")
}

/// The title of the cleanup subtask of a change.
pub fn cleanup_subtask_title(openspec_change_id: &str) -> (r: String)
    ensures
        r@ == "Archive OpenSpec change "@ + openspec_change_id@,
{
    concat2("Archive OpenSpec change ", openspec_change_id)
}

/// How long a cleanup claim's lease lasts, in milliseconds.
pub const CLEANUP_LEASE_MS: i64 = 600000;

/// The lease deadline of a cleanup claim begun at lease tick `lease_now`.
pub fn cleanup_lease_deadline(lease_now: i64) -> (r: i64)
    requires
        lease_now + CLEANUP_LEASE_MS <= i64::MAX,
    ensures
        r == lease_now + CLEANUP_LEASE_MS,
{
    lease_now + CLEANUP_LEASE_MS
}

/// The idempotency key of the reservation a cleanup takes on one archive path.
pub fn cleanup_reservation_key(openspec_change_id: &str, archive_path: &str) -> (r: String)
    ensures
        r@ == "begin-openspec-archive-cleanup-reservation:"@ + openspec_change_id@ + ":"@ + archive_path@,
{
    concat4("begin-openspec-archive-cleanup-reservation:", openspec_change_id, ":", archive_path)
}

/// The idempotency key under which finishing a cleanup archives one queue item.
pub fn cleanup_archive_status_key(openspec_change_id: &str, queue_id: &str) -> (r: String)
    ensures
        r@ == "finish-openspec-archive-cleanup:"@ + openspec_change_id@ + ":"@ + queue_id@,
{
    concat4("finish-openspec-archive-cleanup:", openspec_change_id, ":", queue_id)
}

/// The queue id that cleanup refusals are reported under.
pub open spec fn cleanup_queue_id() -> Seq<char> {
    "queue-openspec-archive-cleanup"@
}

/// Requires a change to be safe to archive before a cleanup begins.
pub fn check_cleanup_eligible(safe_to_archive: bool) -> (r: Result<(), CoveyError>)
    ensures
        r is Ok <==> safe_to_archive,
        r is Err ==> (r->Err_0 matches CoveyError::ApplyGateEvidenceMissing { queue_id, reason } && queue_id@
            == cleanup_queue_id() && reason@
            == "OpenSpec archive cleanup requires all scoped subtasks applied and at least one open archive blocker"@),
{
    if safe_to_archive {
        Ok(())
    } else {
        Err(
            CoveyError::ApplyGateEvidenceMissing {
                queue_id: owned("queue-openspec-archive-cleanup"),
                reason: owned(
                    "OpenSpec archive cleanup requires all scoped subtasks applied and at least one open archive blocker",
                ),
            },
        )
    }
}

/// Requires a finished cleanup to be finished again only with the proof it recorded.
pub fn check_cleanup_proof(recorded_proof: &Option<String>, archive_proof_digest: &str) -> (r: Result<(), CoveyError>)
    ensures
        r is Ok <==> crate::current_work::opt_view(*recorded_proof) == Some(archive_proof_digest@),
        r is Err ==> (r->Err_0 matches CoveyError::ApplyGateEvidenceMissing { queue_id, reason } && queue_id@
            == cleanup_queue_id() && reason@ == "OpenSpec archive cleanup proof digest does not match recorded proof"@),
{
    let same = match recorded_proof {
        Some(p) => str_eq(p.as_str(), archive_proof_digest),
        None => false,
    };
    if same {
        Ok(())
    } else {
        Err(
            CoveyError::ApplyGateEvidenceMissing {
                queue_id: owned("queue-openspec-archive-cleanup"),
                reason: owned("OpenSpec archive cleanup proof digest does not match recorded proof"),
            },
        )
    }
}

} // verus!
