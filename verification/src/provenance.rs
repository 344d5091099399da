//! Import provenance of OpenSpec records: what an import writes beside each
//! meta-task and subtask, and when a stored provenance counts as unchanged.
use vstd::prelude::*;
use crate::current_work::opt_view;
use crate::model::clone_strings;
use crate::openspec::{OpenSpecSourceDigest, OpenSpecSourceTask};
use crate::openspec_import::ImportRecordKind;
use crate::text::{owned, str_eq, views};

verus! {

/// What an OpenSpec import reads of one change: the digests of its files, its
/// tasks, and what its compiled mission recorded.
#[derive(Debug)]
pub struct OpenSpecSourceSnapshot {
    pub change_id: String,
    pub change_path: String,
    pub tasks: Vec<OpenSpecSourceTask>,
    pub proposal_digest: String,
    pub design_digest: String,
    pub tasks_digest: String,
    pub spec_digests: Vec<OpenSpecSourceDigest>,
    pub source_digests: Vec<OpenSpecSourceDigest>,
    pub mission_artifact_digests: Vec<OpenSpecSourceDigest>,
    pub mission_artifacts: Vec<String>,
}

/// The provenance an import records for one meta-task or subtask.
#[derive(Debug)]
pub struct OpenSpecImportProvenance {
    pub object_kind: ImportRecordKind,
    pub object_id: String,
    pub planning_format: String,
    pub openspec_change_id: String,
    pub openspec_change_path: String,
    /// The task a subtask was imported from; none for a meta-task.
    pub openspec_task_id: Option<String>,
    /// The proposal's digest, recorded for a meta-task only.
    pub proposal_digest: Option<String>,
    /// The design's digest, recorded for a meta-task only.
    pub design_digest: Option<String>,
    pub tasks_digest: String,
    /// The capability specs' digests, recorded for a meta-task only.
    pub spec_digests: Vec<OpenSpecSourceDigest>,
    pub source_digests: Vec<OpenSpecSourceDigest>,
    pub mission_artifact_digests: Vec<OpenSpecSourceDigest>,
    pub mission_artifacts: Vec<String>,
    /// The task's digest, recorded for a subtask only.
    pub task_digest: Option<String>,
    /// When the provenance was written, in milliseconds.
    pub updated_at: i64,
}

/// The planning format an OpenSpec import records.
pub open spec fn planning_format_spec() -> Seq<char> {
    "openspec"@
}

/// The `(path, digest)` texts of a list of bindings.
pub open spec fn digest_views(s: Seq<OpenSpecSourceDigest>) -> Seq<(Seq<char>, Seq<char>)> {
    s.map_values(|d: OpenSpecSourceDigest| (d.path@, d.digest@))
}

/// Two provenances record the same thing: every field but the time of writing
/// is equal.
pub open spec fn same_content(a: OpenSpecImportProvenance, b: OpenSpecImportProvenance) -> bool {
    &&& a.object_kind == b.object_kind
    &&& a.object_id@ == b.object_id@
    &&& a.planning_format@ == b.planning_format@
    &&& a.openspec_change_id@ == b.openspec_change_id@
    &&& a.openspec_change_path@ == b.openspec_change_path@
    &&& opt_view(a.openspec_task_id) == opt_view(b.openspec_task_id)
    &&& opt_view(a.proposal_digest) == opt_view(b.proposal_digest)
    &&& opt_view(a.design_digest) == opt_view(b.design_digest)
    &&& a.tasks_digest@ == b.tasks_digest@
    &&& digest_views(a.spec_digests@) == digest_views(b.spec_digests@)
    &&& digest_views(a.source_digests@) == digest_views(b.source_digests@)
    &&& digest_views(a.mission_artifact_digests@) == digest_views(b.mission_artifact_digests@)
    &&& views(a.mission_artifacts@) == views(b.mission_artifacts@)
    &&& opt_view(a.task_digest) == opt_view(b.task_digest)
}

/// The fields every provenance of change `source` holds, whatever it belongs to.
pub open spec fn records_change(p: OpenSpecImportProvenance, source: OpenSpecSourceSnapshot, object_id: Seq<char>, now: i64) -> bool {
    &&& p.object_id@ == object_id
    &&& p.planning_format@ == planning_format_spec()
    &&& p.openspec_change_id@ == source.change_id@
    &&& p.openspec_change_path@ == source.change_path@
    &&& p.tasks_digest@ == source.tasks_digest@
    &&& digest_views(p.source_digests@) == digest_views(source.source_digests@)
    &&& digest_views(p.mission_artifact_digests@) == digest_views(source.mission_artifact_digests@)
    &&& views(p.mission_artifacts@) == views(source.mission_artifacts@)
    &&& p.updated_at == now
}

/// `p` is the provenance of the meta-task `object_id` of change `source`,
/// written at `now`.
pub open spec fn is_meta_provenance(p: OpenSpecImportProvenance, source: OpenSpecSourceSnapshot, object_id: Seq<char>, now: i64) -> bool {
    &&& records_change(p, source, object_id, now)
    &&& p.object_kind == ImportRecordKind::MetaTask
    &&& p.openspec_task_id is None
    &&& opt_view(p.proposal_digest) == Some(source.proposal_digest@)
    &&& opt_view(p.design_digest) == Some(source.design_digest@)
    &&& digest_views(p.spec_digests@) == digest_views(source.spec_digests@)
    &&& p.task_digest is None
}

/// `p` is the provenance of the subtask `object_id` imported from `task` of
/// change `source`, written at `now`.
pub open spec fn is_task_provenance(
    p: OpenSpecImportProvenance,
    source: OpenSpecSourceSnapshot,
    task: OpenSpecSourceTask,
    object_id: Seq<char>,
    now: i64,
) -> bool {
    &&& records_change(p, source, object_id, now)
    &&& p.object_kind == ImportRecordKind::Subtask
    &&& opt_view(p.openspec_task_id) == Some(task.task_id@)
    &&& p.proposal_digest is None
    &&& p.design_digest is None
    &&& p.spec_digests@.len() == 0
    &&& opt_view(p.task_digest) == Some(task.task_digest@)
}

fn clone_digests(v: &Vec<OpenSpecSourceDigest>) -> (r: Vec<OpenSpecSourceDigest>)
    ensures
        digest_views(r@) == digest_views(v@),
{
    let mut r: Vec<OpenSpecSourceDigest> = Vec::new();
    let mut i: usize = 0;
    while i < v.len()
        invariant
            i <= v@.len(),
            r@.len() == i,
            forall|j: int| 0 <= j < i ==> (#[trigger] r@[j]).path@ == v@[j].path@ && r@[j].digest@ == v@[j].digest@,
        decreases v@.len() - i,
    {
        r.push(OpenSpecSourceDigest { path: v[i].path.clone(), digest: v[i].digest.clone() });
        i = i + 1;
    }
    assert(digest_views(r@) =~= digest_views(v@));
    r
}

/// Builds the provenance of the meta-task `object_id` of change `source`,
/// written at `now`.
pub fn meta_provenance(source: &OpenSpecSourceSnapshot, object_id: &str, now: i64) -> (r: OpenSpecImportProvenance)
    requires
        now >= 0,
    ensures
        is_meta_provenance(r, *source, object_id@, now),
{
    OpenSpecImportProvenance {
        object_kind: ImportRecordKind::MetaTask,
        object_id: owned(object_id),
        planning_format: owned("openspec"),
        openspec_change_id: source.change_id.clone(),
        openspec_change_path: source.change_path.clone(),
        openspec_task_id: None,
        proposal_digest: Some(source.proposal_digest.clone()),
        design_digest: Some(source.design_digest.clone()),
        tasks_digest: source.tasks_digest.clone(),
        spec_digests: clone_digests(&source.spec_digests),
        source_digests: clone_digests(&source.source_digests),
        mission_artifact_digests: clone_digests(&source.mission_artifact_digests),
        mission_artifacts: clone_strings(&source.mission_artifacts),
        task_digest: None,
        updated_at: now,
    }
}

/// Builds the provenance of the subtask `object_id` imported from `task` of
/// change `source`, written at `now`.
pub fn task_provenance(source: &OpenSpecSourceSnapshot, task: &OpenSpecSourceTask, object_id: &str, now: i64) -> (r:
    OpenSpecImportProvenance)
    requires
        now >= 0,
    ensures
        is_task_provenance(r, *source, *task, object_id@, now),
{
    OpenSpecImportProvenance {
        object_kind: ImportRecordKind::Subtask,
        object_id: owned(object_id),
        planning_format: owned("openspec"),
        openspec_change_id: source.change_id.clone(),
        openspec_change_path: source.change_path.clone(),
        openspec_task_id: Some(task.task_id.clone()),
        proposal_digest: None,
        design_digest: None,
        tasks_digest: source.tasks_digest.clone(),
        spec_digests: Vec::new(),
        source_digests: clone_digests(&source.source_digests),
        mission_artifact_digests: clone_digests(&source.mission_artifact_digests),
        mission_artifacts: clone_strings(&source.mission_artifacts),
        task_digest: Some(task.task_digest.clone()),
        updated_at: now,
    }
}

fn opt_eq(a: &Option<String>, b: &Option<String>) -> (r: bool)
    ensures
        r == (opt_view(*a) == opt_view(*b)),
{
    match (a, b) {
        (Some(x), Some(y)) => str_eq(x.as_str(), y.as_str()),
        (None, None) => true,
        _ => false,
    }
}

fn digests_eq(a: &Vec<OpenSpecSourceDigest>, b: &Vec<OpenSpecSourceDigest>) -> (r: bool)
    ensures
        r == (digest_views(a@) == digest_views(b@)),
{
    if a.len() != b.len() {
        assert(digest_views(a@).len() != digest_views(b@).len());
        return false;
    }
    let mut i: usize = 0;
    while i < a.len()
        invariant
            i <= a@.len(),
            a@.len() == b@.len(),
            forall|j: int| 0 <= j < i ==> (#[trigger] digest_views(a@)[j]) == digest_views(b@)[j],
        decreases a@.len() - i,
    {
        if !str_eq(a[i].path.as_str(), b[i].path.as_str()) || !str_eq(a[i].digest.as_str(), b[i].digest.as_str()) {
            assert(digest_views(a@)[i as int] != digest_views(b@)[i as int]);
            return false;
        }
        i = i + 1;
    }
    assert(digest_views(a@) =~= digest_views(b@));
    true
}

fn strings_eq(a: &Vec<String>, b: &Vec<String>) -> (r: bool)
    ensures
        r == (views(a@) == views(b@)),
{
    if a.len() != b.len() {
        assert(views(a@).len() != views(b@).len());
        return false;
    }
    let mut i: usize = 0;
    while i < a.len()
        invariant
            i <= a@.len(),
            a@.len() == b@.len(),
            forall|j: int| 0 <= j < i ==> (#[trigger] views(a@)[j]) == views(b@)[j],
        decreases a@.len() - i,
    {
        if !str_eq(a[i].as_str(), b[i].as_str()) {
            assert(views(a@)[i as int] != views(b@)[i as int]);
            return false;
        }
        i = i + 1;
    }
    assert(views(a@) =~= views(b@));
    true
}

/// Whether the stored provenance `existing` records what `expected` records;
/// a record without a stored provenance never does. The time of writing is
/// not compared.
pub fn provenance_equivalent(existing: &Option<OpenSpecImportProvenance>, expected: &OpenSpecImportProvenance) -> (r:
    bool)
    ensures
        r == (*existing matches Some(e) && same_content(e, *expected)),
{
    match existing {
        None => false,
        Some(e) => {
            e.object_kind == expected.object_kind && str_eq(e.object_id.as_str(), expected.object_id.as_str())
                && str_eq(e.planning_format.as_str(), expected.planning_format.as_str())
                && str_eq(e.openspec_change_id.as_str(), expected.openspec_change_id.as_str())
                && str_eq(e.openspec_change_path.as_str(), expected.openspec_change_path.as_str())
                && opt_eq(&e.openspec_task_id, &expected.openspec_task_id)
                && opt_eq(&e.proposal_digest, &expected.proposal_digest)
                && opt_eq(&e.design_digest, &expected.design_digest)
                && str_eq(e.tasks_digest.as_str(), expected.tasks_digest.as_str())
                && digests_eq(&e.spec_digests, &expected.spec_digests)
                && digests_eq(&e.source_digests, &expected.source_digests)
                && digests_eq(&e.mission_artifact_digests, &expected.mission_artifact_digests)
                && strings_eq(&e.mission_artifacts, &expected.mission_artifacts)
                && opt_eq(&e.task_digest, &expected.task_digest)
        },
    }
}

/// Re-importing an unchanged source is unchanged: the provenances an import
/// builds for the same record of the same change at any two times record the
/// same thing, so a stored one is equivalent to a fresh one.
pub proof fn lemma_rebuilt_provenance_is_equivalent(
    p1: OpenSpecImportProvenance,
    p2: OpenSpecImportProvenance,
    source: OpenSpecSourceSnapshot,
    task: OpenSpecSourceTask,
    object_id: Seq<char>,
    t1: i64,
    t2: i64,
)
    requires
        (is_meta_provenance(p1, source, object_id, t1) && is_meta_provenance(p2, source, object_id, t2)) || (
        is_task_provenance(p1, source, task, object_id, t1) && is_task_provenance(p2, source, task, object_id, t2)),
    ensures
        same_content(p1, p2),
        same_content(p2, p1),
{
    if is_task_provenance(p1, source, task, object_id, t1) && is_task_provenance(p2, source, task, object_id, t2) {
        assert(digest_views(p1.spec_digests@) =~= digest_views(p2.spec_digests@));
    }
}

} // verus!
