//! OpenSpec import decisions: the diff of a change against stored records,
//! its counts, and the write each record leads to when the diff is applied.
use vstd::prelude::*;
use crate::model::SubtaskState;
use crate::openspec::{
    resolved_dependency_ids, resolved_ids_spec, subtask_import_action, subtask_import_action_spec,
    ExistingSubtaskFacts, ImportActionCounts, ImportOpenSpecAction, ImportOpenSpecConflictReason,
};
use crate::text::{str_eq, views};

verus! {

/// Facts about the meta-task already stored under a change's meta-task id.
#[derive(Debug)]
pub struct ExistingMetaTaskFacts {
    pub prompt_text: String,
    /// Whether the stored import provenance equals the one the import would write.
    pub provenance_equivalent: bool,
}

/// The import action for a change's meta-task: created when none is stored,
/// unchanged when prompt and provenance both match, updated otherwise.
pub open spec fn meta_import_action_spec(existing: Option<ExistingMetaTaskFacts>, prompt: Seq<char>) -> ImportOpenSpecAction {
    match existing {
        None => ImportOpenSpecAction::Created,
        Some(e) => if e.prompt_text@ == prompt && e.provenance_equivalent {
            ImportOpenSpecAction::Unchanged
        } else {
            ImportOpenSpecAction::Updated
        },
    }
}

/// Decides the import action for a change's meta-task.
pub fn meta_import_action(existing: &Option<ExistingMetaTaskFacts>, prompt: &str) -> (r: ImportOpenSpecAction)
    ensures
        r == meta_import_action_spec(*existing, prompt@),
{
    match existing {
        None => ImportOpenSpecAction::Created,
        Some(e) => {
            if str_eq(e.prompt_text.as_str(), prompt) && e.provenance_equivalent {
                ImportOpenSpecAction::Unchanged
            } else {
                ImportOpenSpecAction::Updated
            }
        },
    }
}

/// What the importer knows of one task of a change.
#[derive(Debug)]
pub struct ImportTaskFacts {
    pub title: String,
    /// The subtask stored under the task's deterministic id, if any.
    pub existing: Option<ExistingSubtaskFacts>,
    /// Whether the stored import provenance equals the one the import would write.
    pub provenance_equivalent: bool,
}

/// The import action of one task of a change of meta-task `meta_task_id`.
pub open spec fn task_action(meta_task_id: Seq<char>, t: ImportTaskFacts) -> ImportOpenSpecAction {
    subtask_import_action_spec(t.existing, meta_task_id, t.title@, t.provenance_equivalent).0
}

/// The conflict reason of one task of a change of meta-task `meta_task_id`.
pub open spec fn task_conflict(meta_task_id: Seq<char>, t: ImportTaskFacts) -> Option<ImportOpenSpecConflictReason> {
    subtask_import_action_spec(t.existing, meta_task_id, t.title@, t.provenance_equivalent).1
}

/// How many of the actions are `a`.
pub open spec fn action_count(actions: Seq<ImportOpenSpecAction>, a: ImportOpenSpecAction) -> nat
    decreases actions.len(),
{
    if actions.len() == 0 {
        0
    } else {
        action_count(actions.drop_last(), a) + if actions.last() == a { 1nat } else { 0nat }
    }
}

/// The diff of a change against stored records: the meta-task's action, each
/// task's action and conflict reason in task order, and the counts.
#[derive(Debug)]
pub struct OpenSpecImportPlan {
    pub meta_action: ImportOpenSpecAction,
    pub task_actions: Vec<ImportOpenSpecAction>,
    pub task_conflicts: Vec<Option<ImportOpenSpecConflictReason>>,
    /// Created, updated and unchanged records, the meta-task included.
    pub counts: ImportActionCounts,
    /// Tasks that conflict with stored records.
    pub conflicts: usize,
}

/// All actions of a plan: the meta-task's first, then the tasks' in order.
pub open spec fn all_actions(meta_action: ImportOpenSpecAction, task_actions: Seq<ImportOpenSpecAction>) -> Seq<
    ImportOpenSpecAction,
> {
    seq![meta_action] + task_actions
}

proof fn lemma_action_count_push(s: Seq<ImportOpenSpecAction>, x: ImportOpenSpecAction, a: ImportOpenSpecAction)
    ensures
        action_count(s.push(x), a) == action_count(s, a) + if x == a { 1nat } else { 0nat },
{
    assert(s.push(x).drop_last() =~= s);
}

/// Builds the diff of a change of meta-task `meta_task_id` and prompt
/// `prompt` against stored records.
pub fn plan_openspec_import(
    meta_task_id: &str,
    prompt: &str,
    meta_existing: &Option<ExistingMetaTaskFacts>,
    tasks: &Vec<ImportTaskFacts>,
) -> (r: OpenSpecImportPlan)
    requires
        tasks.len() < usize::MAX,
    ensures
        r.meta_action == meta_import_action_spec(*meta_existing, prompt@),
        r.task_actions@.len() == tasks@.len(),
        r.task_conflicts@.len() == tasks@.len(),
        forall|i: int| 0 <= i < tasks@.len() ==> r.task_actions@[i] == task_action(meta_task_id@, #[trigger] tasks@[i]),
        forall|i: int| 0 <= i < tasks@.len() ==> r.task_conflicts@[i] == task_conflict(meta_task_id@, #[trigger] tasks@[i]),
        r.counts.created == action_count(all_actions(r.meta_action, r.task_actions@), ImportOpenSpecAction::Created),
        r.counts.updated == action_count(all_actions(r.meta_action, r.task_actions@), ImportOpenSpecAction::Updated),
        r.counts.unchanged == action_count(all_actions(r.meta_action, r.task_actions@), ImportOpenSpecAction::Unchanged),
        r.conflicts == action_count(all_actions(r.meta_action, r.task_actions@), ImportOpenSpecAction::Conflict),
{
    let meta_action = meta_import_action(meta_existing, prompt);
    let mut counts = ImportActionCounts { created: 0, updated: 0, unchanged: 0 };
    let mut conflicts: usize = 0;
    let mut actions: Vec<ImportOpenSpecAction> = Vec::new();
    let mut reasons: Vec<Option<ImportOpenSpecConflictReason>> = Vec::new();
    proof {
        lemma_action_count_push(Seq::empty(), meta_action, ImportOpenSpecAction::Created);
        lemma_action_count_push(Seq::empty(), meta_action, ImportOpenSpecAction::Updated);
        lemma_action_count_push(Seq::empty(), meta_action, ImportOpenSpecAction::Unchanged);
        lemma_action_count_push(Seq::empty(), meta_action, ImportOpenSpecAction::Conflict);
        assert(Seq::<ImportOpenSpecAction>::empty().push(meta_action) =~= all_actions(meta_action, actions@));
    }
    match meta_action {
        ImportOpenSpecAction::Created => counts.created = 1,
        ImportOpenSpecAction::Updated => counts.updated = 1,
        ImportOpenSpecAction::Unchanged => counts.unchanged = 1,
        ImportOpenSpecAction::Conflict => conflicts = 1,
    }
    let mut i: usize = 0;
    while i < tasks.len()
        invariant
            i <= tasks@.len(),
            tasks@.len() < usize::MAX,
            actions@.len() == i,
            reasons@.len() == i,
            forall|j: int| 0 <= j < i ==> actions@[j] == task_action(meta_task_id@, #[trigger] tasks@[j]),
            forall|j: int| 0 <= j < i ==> reasons@[j] == task_conflict(meta_task_id@, #[trigger] tasks@[j]),
            counts.created == action_count(all_actions(meta_action, actions@), ImportOpenSpecAction::Created),
            counts.updated == action_count(all_actions(meta_action, actions@), ImportOpenSpecAction::Updated),
            counts.unchanged == action_count(all_actions(meta_action, actions@), ImportOpenSpecAction::Unchanged),
            conflicts == action_count(all_actions(meta_action, actions@), ImportOpenSpecAction::Conflict),
            counts.created + counts.updated + counts.unchanged + conflicts == i + 1,
        decreases tasks@.len() - i,
    {
        let t = &tasks[i];
        let (action, reason) = subtask_import_action(&t.existing, meta_task_id, t.title.as_str(), t.provenance_equivalent);
        proof {
            let before = all_actions(meta_action, actions@);
            assert(all_actions(meta_action, actions@.push(action)) =~= before.push(action));
            lemma_action_count_push(before, action, ImportOpenSpecAction::Created);
            lemma_action_count_push(before, action, ImportOpenSpecAction::Updated);
            lemma_action_count_push(before, action, ImportOpenSpecAction::Unchanged);
            lemma_action_count_push(before, action, ImportOpenSpecAction::Conflict);
        }
        match action {
            ImportOpenSpecAction::Created => counts.created = counts.created + 1,
            ImportOpenSpecAction::Updated => counts.updated = counts.updated + 1,
            ImportOpenSpecAction::Unchanged => counts.unchanged = counts.unchanged + 1,
            ImportOpenSpecAction::Conflict => conflicts = conflicts + 1,
        }
        actions.push(action);
        reasons.push(reason);
        i = i + 1;
    }
    OpenSpecImportPlan { meta_action, task_actions: actions, task_conflicts: reasons, counts, conflicts }
}

/// Every record of an import is counted once: created, updated, unchanged
/// and conflicting records together are all of them.
pub proof fn lemma_import_counts_partition(actions: Seq<ImportOpenSpecAction>)
    ensures
        action_count(actions, ImportOpenSpecAction::Created) + action_count(actions, ImportOpenSpecAction::Updated)
            + action_count(actions, ImportOpenSpecAction::Unchanged) + action_count(
            actions,
            ImportOpenSpecAction::Conflict,
        ) == actions.len(),
    decreases actions.len(),
{
    if actions.len() > 0 {
        lemma_import_counts_partition(actions.drop_last());
    }
}

/// Whether a stored record is the change's meta-task or one of its subtasks.
#[derive(Debug, Clone, Copy, PartialEq, Eq, Structural)]
pub enum ImportRecordKind {
    MetaTask,
    Subtask,
}

/// The write that applying one record of a diff makes.
#[derive(Debug, Clone, Copy, PartialEq, Eq, Structural)]
pub enum ImportWriteStep {
    InsertMetaTask,
    UpdateMetaTaskPrompt,
    CreateSubtask,
    UpdateSubtaskTitle,
    Skip,
}

/// Created records are inserted, updated ones rewritten; unchanged and
/// conflicting records are left alone.
pub open spec fn import_write_step_spec(kind: ImportRecordKind, action: ImportOpenSpecAction) -> ImportWriteStep {
    match (kind, action) {
        (ImportRecordKind::MetaTask, ImportOpenSpecAction::Created) => ImportWriteStep::InsertMetaTask,
        (ImportRecordKind::MetaTask, ImportOpenSpecAction::Updated) => ImportWriteStep::UpdateMetaTaskPrompt,
        (ImportRecordKind::Subtask, ImportOpenSpecAction::Created) => ImportWriteStep::CreateSubtask,
        (ImportRecordKind::Subtask, ImportOpenSpecAction::Updated) => ImportWriteStep::UpdateSubtaskTitle,
        _ => ImportWriteStep::Skip,
    }
}

/// Decides the write for one record of a diff.
pub fn import_write_step(kind: ImportRecordKind, action: ImportOpenSpecAction) -> (r: ImportWriteStep)
    ensures
        r == import_write_step_spec(kind, action),
{
    match (kind, action) {
        (ImportRecordKind::MetaTask, ImportOpenSpecAction::Created) => ImportWriteStep::InsertMetaTask,
        (ImportRecordKind::MetaTask, ImportOpenSpecAction::Updated) => ImportWriteStep::UpdateMetaTaskPrompt,
        (ImportRecordKind::Subtask, ImportOpenSpecAction::Created) => ImportWriteStep::CreateSubtask,
        (ImportRecordKind::Subtask, ImportOpenSpecAction::Updated) => ImportWriteStep::UpdateSubtaskTitle,
        _ => ImportWriteStep::Skip,
    }
}

/// The stored row of a subtask whose title an import rewrites.
#[derive(Debug)]
pub struct StoredSubtaskTitleRow {
    pub has_active_claim: bool,
    pub state: SubtaskState,
    pub title: String,
}

/// Outcome of rewriting an imported subtask's title.
#[derive(Debug, Clone, Copy, PartialEq, Eq, Structural)]
pub enum SubtaskTitleUpdate {
    /// The title is rewritten.
    Apply,
    /// The subtask has settled with the same title: nothing to do.
    KeepSettled,
    /// The subtask cannot take the new title: the import is refused as a duplicate.
    Duplicate,
}

/// A title is rewritten only on an unclaimed subtask that is available or
/// has changes requested; an unclaimed subtask in any other state that
/// already has the title is kept; anything else refuses the import.
pub open spec fn subtask_title_update_spec(stored: Option<StoredSubtaskTitleRow>, title: Seq<char>) -> SubtaskTitleUpdate {
    match stored {
        None => SubtaskTitleUpdate::Duplicate,
        Some(row) => if !row.has_active_claim && (row.state == SubtaskState::Available || row.state
            == SubtaskState::ChangesRequested) {
            SubtaskTitleUpdate::Apply
        } else if !row.has_active_claim && row.title@ == title {
            SubtaskTitleUpdate::KeepSettled
        } else {
            SubtaskTitleUpdate::Duplicate
        },
    }
}

/// Decides what rewriting an imported subtask's title does.
pub fn subtask_title_update(stored: &Option<StoredSubtaskTitleRow>, title: &str) -> (r: SubtaskTitleUpdate)
    ensures
        r == subtask_title_update_spec(*stored, title@),
{
    match stored {
        None => SubtaskTitleUpdate::Duplicate,
        Some(row) => {
            if !row.has_active_claim && (row.state == SubtaskState::Available || row.state
                == SubtaskState::ChangesRequested) {
                SubtaskTitleUpdate::Apply
            } else if !row.has_active_claim && str_eq(row.title.as_str(), title) {
                SubtaskTitleUpdate::KeepSettled
            } else {
                SubtaskTitleUpdate::Duplicate
            }
        },
    }
}

/// The dependency edges an imported subtask gets: the subtasks its
/// dependency texts name, in order, without the subtask itself.
pub open spec fn dependency_edges_spec(subtask_id: Seq<char>, deps: Seq<String>, table: Seq<(String, String)>) -> Seq<
    Seq<char>,
> {
    resolved_ids_spec(deps, table).filter(|d: Seq<char>| d != subtask_id)
}

/// The dependency edges of imported subtask `subtask_id`, given the table
/// from task ids to subtask ids in task id order.
pub fn dependency_edges(subtask_id: &str, dependencies: &Vec<String>, task_to_subtask: &Vec<(String, String)>) -> (r: Vec<
    String,
>)
    ensures
        views(r@) == dependency_edges_spec(subtask_id@, dependencies@, task_to_subtask@),
{
    let all = resolved_dependency_ids(dependencies, task_to_subtask);
    let ghost whole = views(all@);
    let ghost p = |d: Seq<char>| d != subtask_id@;
    let mut out: Vec<String> = Vec::new();
    let mut i: usize = 0;
    proof {
        reveal(Seq::filter);
        assert(whole.take(0) =~= Seq::<Seq<char>>::empty());
    }
    while i < all.len()
        invariant
            i <= all@.len(),
            whole == views(all@),
            p == (|d: Seq<char>| d != subtask_id@),
            views(out@) == whole.take(i as int).filter(p),
        decreases all@.len() - i,
    {
        let ghost before = views(out@);
        proof {
            reveal(Seq::filter);
            assert(whole.take(i + 1).drop_last() =~= whole.take(i as int));
            assert(whole.take(i + 1).last() == all@[i as int]@);
            assert(whole.take(i + 1).filter(p) == if p(all@[i as int]@) {
                whole.take(i as int).filter(p).push(all@[i as int]@)
            } else {
                whole.take(i as int).filter(p)
            });
        }
        if !str_eq(all[i].as_str(), subtask_id) {
            let x = all[i].clone();
            assert(views(out@.push(x)) =~= views(out@).push(x@));
            out.push(x);
            assert(views(out@) == before.push(all@[i as int]@));
        }
        i = i + 1;
    }
    assert(whole.take(all@.len() as int) =~= whole);
    out
}

} // verus!
