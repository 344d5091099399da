//! The current-work projection of one OpenSpec work packet: its state, the
//! surface that owns the next move, and the named blockers with their repair
//! playbooks.
use vstd::prelude::*;
use crate::model::{
    cleanliness_name, reconcile_reason_name, subtask_state_name, workspace_kind_debug_name,
    workspace_state_debug_name, ApplyGateBlocker, ApplyGateBlockerKind, Claim, ClaimState,
    OpenSpecArchiveStatus, OpenSpecArchiveStatusState, OperatorBlocker, ReadyQueueItem,
    ReadyQueueState, Review, ReviewState, SettlementReconcileBlocker, SettlementReconcileReason,
    SubtaskState, VcsWorkspace, VcsWorkspaceCleanliness, VcsWorkspaceState,
};
use crate::error::CoveyError;
use crate::status::SubtaskView;
use crate::text::{
    chars_of, concat2, concat3, concat4, concat5, i64_decimal, int_decimal, is_ascii_alnum, owned,
    push_char, sort_dedup_strings, str_eq, strictly_sorted, views,
};

verus! {

// ---------------------------------------------------------------- labels

/// Current-work label of one OpenSpec work packet.
#[derive(Debug, Clone, Copy, PartialEq, Eq, Structural)]
pub enum OpenSpecCurrentWorkState {
    Imported,
    Claimed,
    Reviewing,
    Applying,
    Archived,
    Blocked,
}

/// Surface that owns the next move.
#[derive(Debug, Clone, Copy, PartialEq, Eq, Structural)]
pub enum OpenSpecCurrentWorkOwner {
    Covey,
    Executor,
    Reviewer,
    ApplyGate,
    OpenSpecArchive,
    Authority,
    Operator,
}

/// Current-work label of one prose taskset.
#[derive(Debug, Clone, Copy, PartialEq, Eq, Structural)]
pub enum ProseCurrentWorkState {
    Imported,
    Claimed,
    Reviewing,
    Applying,
    Applied,
    Blocked,
}

/// Surface that owns the next move for a prose taskset.
#[derive(Debug, Clone, Copy, PartialEq, Eq, Structural)]
pub enum ProseCurrentWorkOwner {
    Covey,
    Executor,
    Reviewer,
    SchedulerApply,
    Operator,
}

/// One named blocker of a prose taskset.
#[derive(Debug)]
pub struct ProseCurrentWorkBlocker {
    pub blocker_id: String,
    pub evidence_id: String,
    pub owner: ProseCurrentWorkOwner,
    pub queue_id: Option<String>,
    pub artifact_digest: Option<String>,
    pub review_id: Option<String>,
    pub reason: String,
}

/// Current-work projection of one prose taskset.
#[derive(Debug)]
pub struct ProseCurrentWork {
    pub taskset_id: String,
    pub meta_task_id: String,
    pub provenance_tier: String,
    pub preview_digest: String,
    pub state: ProseCurrentWorkState,
    pub next_owner: ProseCurrentWorkOwner,
    pub subtask_ids: Vec<String>,
    pub queue_ids: Vec<String>,
    pub artifact_digests: Vec<String>,
    pub review_ids: Vec<String>,
    pub blockers: Vec<ProseCurrentWorkBlocker>,
}

/// Stable kind of a current-work blocker.
#[derive(Debug, Clone, Copy, PartialEq, Eq, Structural)]
pub enum OpenSpecCurrentWorkBlockerKind {
    MissingImport,
    AppliedButUnarchived,
    SubtaskBlocked,
    ExpiredClaim,
    StaleClaim,
    SchedulerStateLoss,
    HookStateStaleClaim,
    HookStateStaleLandingAuthorization,
    HookStateInvalidLandingAuthorization,
    AuthorityHold,
    GitApplyUncertainty,
    OperatorBlocked,
}

/// Bounded recovery chosen for a blocker.
#[derive(Debug, Clone, Copy, PartialEq, Eq, Structural)]
pub enum OpenSpecCurrentWorkRepairAction {
    RunOpenSpec,
    RecoverSubtask,
    RecoverExpiredClaim,
    RecoverDeadClaim,
    RecoverQueue,
    RecoverWorkspace,
    ArchiveOpenSpec,
    RecoverLandingReceipt,
    ResolveOperatorBlocker,
    FailClosed,
}

/// Whether a repair only inspects, or may mutate state.
#[derive(Debug, Clone, Copy, PartialEq, Eq, Structural)]
pub enum OpenSpecCurrentWorkRepairSafety {
    Safe,
    Mutating,
}

// ---------------------------------------------------------------- playbooks and blockers

/// Operator playbook for one blocker.
#[derive(Debug)]
pub struct OpenSpecCurrentWorkRepairPlaybook {
    pub repair_action: OpenSpecCurrentWorkRepairAction,
    pub repair_safety: OpenSpecCurrentWorkRepairSafety,
    pub required_evidence_id: String,
    pub expected_postcondition: String,
    pub rollback_retry_note: String,
    pub repair_command: Option<String>,
}

/// The content of a playbook.
pub struct PlaybookView {
    pub repair_action: OpenSpecCurrentWorkRepairAction,
    pub repair_safety: OpenSpecCurrentWorkRepairSafety,
    pub required_evidence_id: Seq<char>,
    pub expected_postcondition: Seq<char>,
    pub rollback_retry_note: Seq<char>,
    pub repair_command: Option<Seq<char>>,
}

/// The content of an optional text.
pub open spec fn opt_view(o: Option<String>) -> Option<Seq<char>> {
    match o {
        Some(s) => Some(s@),
        None => None,
    }
}

impl View for OpenSpecCurrentWorkRepairPlaybook {
    type V = PlaybookView;

    open spec fn view(&self) -> PlaybookView {
        PlaybookView {
            repair_action: self.repair_action,
            repair_safety: self.repair_safety,
            required_evidence_id: self.required_evidence_id@,
            expected_postcondition: self.expected_postcondition@,
            rollback_retry_note: self.rollback_retry_note@,
            repair_command: opt_view(self.repair_command),
        }
    }
}

/// A playbook without a repair command.
pub open spec fn playbook_view(
    action: OpenSpecCurrentWorkRepairAction,
    safety: OpenSpecCurrentWorkRepairSafety,
    evidence: Seq<char>,
    postcondition: Seq<char>,
    note: Seq<char>,
) -> PlaybookView {
    PlaybookView {
        repair_action: action,
        repair_safety: safety,
        required_evidence_id: evidence,
        expected_postcondition: postcondition,
        rollback_retry_note: note,
        repair_command: None,
    }
}

fn new_playbook(
    action: OpenSpecCurrentWorkRepairAction,
    safety: OpenSpecCurrentWorkRepairSafety,
    evidence: String,
    postcondition: &str,
    note: &str,
) -> (r: OpenSpecCurrentWorkRepairPlaybook)
    ensures
        r@ == playbook_view(action, safety, evidence@, postcondition@, note@),
{
    OpenSpecCurrentWorkRepairPlaybook {
        repair_action: action,
        repair_safety: safety,
        required_evidence_id: evidence,
        expected_postcondition: owned(postcondition),
        rollback_retry_note: owned(note),
        repair_command: None,
    }
}

/// A held claim that has been idle past the caller's threshold.
#[derive(Debug)]
pub struct OpenSpecCurrentWorkStaleClaim {
    pub claim: Claim,
    pub idle_for_ms: i64,
    pub threshold_ms: i64,
}

/// One current claim of a change's scope, with the view of the subtask it
/// is the current claim of.
#[derive(Debug)]
pub struct CurrentClaimRow {
    pub claim: Claim,
    pub subtask: SubtaskView,
}

/// Whether a current claim is stale: still held with a live lease, its
/// subtask claimed or in progress without an artifact, and not updated since
/// `cutoff`.
pub open spec fn claim_is_stale(row: CurrentClaimRow, lease_now_ms: i64, cutoff: i64) -> bool {
    &&& row.claim.state == ClaimState::Held
    &&& row.claim.lease_deadline > lease_now_ms
    &&& (row.subtask.lifecycle_spec().state == SubtaskState::Claimed || row.subtask.lifecycle_spec().state
        == SubtaskState::InProgress)
    &&& row.subtask.lifecycle_spec().artifact_digest is None
    &&& row.subtask.updated_at_spec() <= cutoff
}

/// The stale-claim entry for a row.
pub open spec fn stale_entry_ok(e: OpenSpecCurrentWorkStaleClaim, row: CurrentClaimRow, lease_now_ms: i64, threshold: i64) -> bool {
    &&& e.claim == row.claim
    &&& e.idle_for_ms == crate::status::max_i64(crate::status::saturate_i64(lease_now_ms - row.subtask.updated_at_spec()), 0)
    &&& e.threshold_ms == threshold
}

/// Selects the stale claims among a change's current claims, keeping the
/// rows' order (the store lists them by subtask update time, then claim id):
/// those whose subtask has not moved for at least `older_than_ms` (taken as 0
/// when negative) before `lease_now_ms`, each with how long it has been idle.
pub fn select_stale_claims(rows: &Vec<CurrentClaimRow>, older_than_ms: i64, lease_now_ms: i64) -> (r: Vec<
    OpenSpecCurrentWorkStaleClaim,
>)
    ensures
        ({
            let threshold = crate::status::max_i64(older_than_ms, 0);
            let cutoff = crate::status::saturate_i64(lease_now_ms - threshold);
            let kept = rows@.filter(|row: CurrentClaimRow| claim_is_stale(row, lease_now_ms, cutoff));
            &&& r@.len() == kept.len()
            &&& forall|k: int| 0 <= k < kept.len() ==> stale_entry_ok(#[trigger] r@[k], kept[k], lease_now_ms, threshold)
        }),
{
    let (threshold, cutoff) = stale_claim_window(older_than_ms, lease_now_ms);
    let ghost pred = |row: CurrentClaimRow| claim_is_stale(row, lease_now_ms, cutoff);
    let mut out: Vec<OpenSpecCurrentWorkStaleClaim> = Vec::new();
    let mut i: usize = 0;
    while i < rows.len()
        invariant
            i <= rows@.len(),
            threshold == crate::status::max_i64(older_than_ms, 0),
            cutoff == crate::status::saturate_i64(lease_now_ms - threshold),
            pred == (|row: CurrentClaimRow| claim_is_stale(row, lease_now_ms, cutoff)),
            out@.len() == rows@.subrange(0, i as int).filter(pred).len(),
            forall|k: int|
                0 <= k < out@.len() ==> stale_entry_ok(#[trigger] out@[k], rows@.subrange(0, i as int).filter(pred)[k], lease_now_ms, threshold),
        decreases rows@.len() - i,
    {
        let row = &rows[i];
        proof {
            assert(rows@.subrange(0, i + 1) =~= rows@.subrange(0, i as int).push(rows@[i as int]));
            rows@.subrange(0, i as int).lemma_filter_push(rows@[i as int], pred);
        }
        let st = row.subtask.state();
        let updated = row.subtask.updated_at();
        if row.claim.state == ClaimState::Held && row.claim.lease_deadline > lease_now_ms && (st == SubtaskState::Claimed
            || st == SubtaskState::InProgress) && row.subtask.artifact_digest().is_none() && updated <= cutoff {
            out.push(
                OpenSpecCurrentWorkStaleClaim {
                    claim: row.claim.clone(),
                    idle_for_ms: stale_idle_ms(lease_now_ms, updated),
                    threshold_ms: threshold,
                },
            );
        }
        i = i + 1;
    }
    proof {
        assert(rows@.subrange(0, rows@.len() as int) =~= rows@);
    }
    out
}

/// One named blocker of a current-work projection.
#[derive(Debug)]
pub struct OpenSpecCurrentWorkBlocker {
    pub blocker_id: String,
    pub evidence_id: String,
    pub kind: OpenSpecCurrentWorkBlockerKind,
    pub owner: OpenSpecCurrentWorkOwner,
    pub allowed_repairs: Vec<String>,
    pub repair_playbook: OpenSpecCurrentWorkRepairPlaybook,
    pub subtask_id: Option<String>,
    pub claim_id: Option<String>,
    pub queue_id: Option<String>,
    pub artifact_digest: Option<String>,
    pub review_id: Option<String>,
    pub reason: String,
}

/// The content of a blocker.
pub struct BlockerView {
    pub blocker_id: Seq<char>,
    pub evidence_id: Seq<char>,
    pub kind: OpenSpecCurrentWorkBlockerKind,
    pub owner: OpenSpecCurrentWorkOwner,
    pub allowed_repairs: Seq<Seq<char>>,
    pub repair_playbook: PlaybookView,
    pub subtask_id: Option<Seq<char>>,
    pub claim_id: Option<Seq<char>>,
    pub queue_id: Option<Seq<char>>,
    pub artifact_digest: Option<Seq<char>>,
    pub review_id: Option<Seq<char>>,
    pub reason: Seq<char>,
}

impl View for OpenSpecCurrentWorkBlocker {
    type V = BlockerView;

    open spec fn view(&self) -> BlockerView {
        BlockerView {
            blocker_id: self.blocker_id@,
            evidence_id: self.evidence_id@,
            kind: self.kind,
            owner: self.owner,
            allowed_repairs: views(self.allowed_repairs@),
            repair_playbook: self.repair_playbook@,
            subtask_id: opt_view(self.subtask_id),
            claim_id: opt_view(self.claim_id),
            queue_id: opt_view(self.queue_id),
            artifact_digest: opt_view(self.artifact_digest),
            review_id: opt_view(self.review_id),
            reason: self.reason@,
        }
    }
}

fn commands1(a: &str) -> (r: Vec<String>)
    ensures
        views(r@) == seq![a@],
{
    let r = vec![owned(a)];
    assert(views(r@) =~= seq![a@]);
    r
}

fn commands2(a: &str, b: &str) -> (r: Vec<String>)
    ensures
        views(r@) == seq![a@, b@],
{
    let r = vec![owned(a), owned(b)];
    assert(views(r@) =~= seq![a@, b@]);
    r
}

fn commands3(a: &str, b: &str, c: &str) -> (r: Vec<String>)
    ensures
        views(r@) == seq![a@, b@, c@],
{
    let r = vec![owned(a), owned(b), owned(c)];
    assert(views(r@) =~= seq![a@, b@, c@]);
    r
}

/// Whether a character is kept as is in a typed reference fragment.
pub open spec fn fragment_keeps(c: char) -> bool {
    is_ascii_alnum(c) || c == '-' || c == '_'
}

/// A text with every character other than ASCII letters, digits, `-` and
/// `_` replaced by `_`.
pub open spec fn fragment_of(s: Seq<char>) -> Seq<char> {
    Seq::new(s.len(), |i: int| if fragment_keeps(s[i]) { s[i] } else { '_' })
}

/// Replaces every character other than ASCII letters, digits, `-` and `_`
/// by `_`.
pub fn typed_ref_fragment(input: &str) -> (r: String)
    ensures
        r@ == fragment_of(input@),
{
    let c = chars_of(input);
    let mut r = String::new();
    let mut i: usize = 0;
    while i < c.len()
        invariant
            i <= c@.len(),
            c@ == input@,
            r@ == fragment_of(input@).take(i as int),
        decreases c@.len() - i,
    {
        let ch = c[i];
        let keep = crate::text::char_is_ascii_alnum(ch) || ch == '-' || ch == '_';
        if keep {
            push_char(&mut r, ch);
        } else {
            push_char(&mut r, '_');
        }
        assert(fragment_of(input@).take(i + 1) =~= fragment_of(input@).take(i as int).push(
            fragment_of(input@)[i as int],
        ));
        i = i + 1;
    }
    assert(fragment_of(input@).take(c@.len() as int) =~= fragment_of(input@));
    r
}

// ---------------------------------------------------------------- operator blockers

/// The blocker kind an operator blocker's reason stands for.
pub open spec fn operator_kind_of(reason: Seq<char>) -> OpenSpecCurrentWorkBlockerKind {
    if reason == "scheduler_state_loss"@ || reason == "assignment_pane_missing"@ || reason
        == "missing_assignments_json"@ || reason == "unreadable_assignments_json"@ || reason
        == "execution_workspace_unusable"@ {
        OpenSpecCurrentWorkBlockerKind::SchedulerStateLoss
    } else if reason == "stale_claim"@ {
        OpenSpecCurrentWorkBlockerKind::StaleClaim
    } else if reason == "hook_state_stale_claim"@ || reason == "hook_state_stale_claim_context"@ {
        OpenSpecCurrentWorkBlockerKind::HookStateStaleClaim
    } else if reason == "hook_state_stale_landing_authorization"@ || reason
        == "hook_state_stale_landing_authorization_context"@ {
        OpenSpecCurrentWorkBlockerKind::HookStateStaleLandingAuthorization
    } else if reason == "hook_state_invalid_landing_authorization"@ || reason
        == "hook_state_invalid_landing_authorization_context"@ {
        OpenSpecCurrentWorkBlockerKind::HookStateInvalidLandingAuthorization
    } else if reason == "authority_hold"@ || reason == "authority_denied"@ || reason
        == "authority_lost"@ {
        OpenSpecCurrentWorkBlockerKind::AuthorityHold
    } else if reason == "git_apply_uncertainty"@ || reason == "commit_unknown"@ || reason
        == "landing_unknown"@ {
        OpenSpecCurrentWorkBlockerKind::GitApplyUncertainty
    } else {
        OpenSpecCurrentWorkBlockerKind::OperatorBlocked
    }
}

/// Maps an operator blocker's reason to a blocker kind.
pub fn operator_blocker_kind(reason: &str) -> (r: OpenSpecCurrentWorkBlockerKind)
    ensures
        r == operator_kind_of(reason@),
{
    if str_eq(reason, "scheduler_state_loss") || str_eq(reason, "assignment_pane_missing")
        || str_eq(reason, "missing_assignments_json") || str_eq(reason, "unreadable_assignments_json")
        || str_eq(reason, "execution_workspace_unusable") {
        OpenSpecCurrentWorkBlockerKind::SchedulerStateLoss
    } else if str_eq(reason, "stale_claim") {
        OpenSpecCurrentWorkBlockerKind::StaleClaim
    } else if str_eq(reason, "hook_state_stale_claim") || str_eq(reason, "hook_state_stale_claim_context") {
        OpenSpecCurrentWorkBlockerKind::HookStateStaleClaim
    } else if str_eq(reason, "hook_state_stale_landing_authorization") || str_eq(
        reason,
        "hook_state_stale_landing_authorization_context",
    ) {
        OpenSpecCurrentWorkBlockerKind::HookStateStaleLandingAuthorization
    } else if str_eq(reason, "hook_state_invalid_landing_authorization") || str_eq(
        reason,
        "hook_state_invalid_landing_authorization_context",
    ) {
        OpenSpecCurrentWorkBlockerKind::HookStateInvalidLandingAuthorization
    } else if str_eq(reason, "authority_hold") || str_eq(reason, "authority_denied") || str_eq(
        reason,
        "authority_lost",
    ) {
        OpenSpecCurrentWorkBlockerKind::AuthorityHold
    } else if str_eq(reason, "git_apply_uncertainty") || str_eq(reason, "commit_unknown") || str_eq(
        reason,
        "landing_unknown",
    ) {
        OpenSpecCurrentWorkBlockerKind::GitApplyUncertainty
    } else {
        OpenSpecCurrentWorkBlockerKind::OperatorBlocked
    }
}

/// The repairs offered for an operator blocker of a kind.
pub open spec fn operator_repairs_of(kind: OpenSpecCurrentWorkBlockerKind) -> Seq<Seq<char>> {
    match kind {
        OpenSpecCurrentWorkBlockerKind::SchedulerStateLoss
        | OpenSpecCurrentWorkBlockerKind::HookStateStaleClaim
        | OpenSpecCurrentWorkBlockerKind::HookStateStaleLandingAuthorization
        | OpenSpecCurrentWorkBlockerKind::HookStateInvalidLandingAuthorization
        | OpenSpecCurrentWorkBlockerKind::AuthorityHold
        | OpenSpecCurrentWorkBlockerKind::GitApplyUncertainty => seq![
            "mutai-scheduler orchestrator current-work"@,
            "mutai-scheduler orchestrator recover operator-blocked"@,
            "mutai-scheduler orchestrator recover resolve-operator-blocker"@,
        ],
        OpenSpecCurrentWorkBlockerKind::OperatorBlocked => seq![
            "mutai-scheduler orchestrator recover operator-blocked"@,
            "mutai-scheduler orchestrator recover resolve-operator-blocker"@,
        ],
        _ => seq!["mutai-scheduler orchestrator recover operator-blocked"@],
    }
}

fn operator_blocker_repairs(kind: OpenSpecCurrentWorkBlockerKind) -> (r: Vec<String>)
    ensures
        views(r@) == operator_repairs_of(kind),
{
    match kind {
        OpenSpecCurrentWorkBlockerKind::SchedulerStateLoss
        | OpenSpecCurrentWorkBlockerKind::HookStateStaleClaim
        | OpenSpecCurrentWorkBlockerKind::HookStateStaleLandingAuthorization
        | OpenSpecCurrentWorkBlockerKind::HookStateInvalidLandingAuthorization
        | OpenSpecCurrentWorkBlockerKind::AuthorityHold
        | OpenSpecCurrentWorkBlockerKind::GitApplyUncertainty => commands3(
            "mutai-scheduler orchestrator current-work",
            "mutai-scheduler orchestrator recover operator-blocked",
            "mutai-scheduler orchestrator recover resolve-operator-blocker",
        ),
        OpenSpecCurrentWorkBlockerKind::OperatorBlocked => commands2(
            "mutai-scheduler orchestrator recover operator-blocked",
            "mutai-scheduler orchestrator recover resolve-operator-blocker",
        ),
        _ => commands1("mutai-scheduler orchestrator recover operator-blocked"),
    }
}

/// The repair action for an operator blocker of a kind.
pub open spec fn operator_action_of(kind: OpenSpecCurrentWorkBlockerKind, has_queue_target: bool) -> OpenSpecCurrentWorkRepairAction {
    match kind {
        OpenSpecCurrentWorkBlockerKind::SchedulerStateLoss => if has_queue_target {
            OpenSpecCurrentWorkRepairAction::RecoverQueue
        } else {
            OpenSpecCurrentWorkRepairAction::RecoverSubtask
        },
        OpenSpecCurrentWorkBlockerKind::StaleClaim => OpenSpecCurrentWorkRepairAction::RecoverDeadClaim,
        OpenSpecCurrentWorkBlockerKind::MissingImport => OpenSpecCurrentWorkRepairAction::RunOpenSpec,
        OpenSpecCurrentWorkBlockerKind::AppliedButUnarchived => OpenSpecCurrentWorkRepairAction::ArchiveOpenSpec,
        OpenSpecCurrentWorkBlockerKind::SubtaskBlocked => OpenSpecCurrentWorkRepairAction::RecoverSubtask,
        OpenSpecCurrentWorkBlockerKind::ExpiredClaim => OpenSpecCurrentWorkRepairAction::RecoverExpiredClaim,
        _ => OpenSpecCurrentWorkRepairAction::FailClosed,
    }
}

fn operator_blocker_repair_action(kind: OpenSpecCurrentWorkBlockerKind, has_queue_target: bool) -> (r: OpenSpecCurrentWorkRepairAction)
    ensures
        r == operator_action_of(kind, has_queue_target),
{
    match kind {
        OpenSpecCurrentWorkBlockerKind::SchedulerStateLoss => if has_queue_target {
            OpenSpecCurrentWorkRepairAction::RecoverQueue
        } else {
            OpenSpecCurrentWorkRepairAction::RecoverSubtask
        },
        OpenSpecCurrentWorkBlockerKind::StaleClaim => OpenSpecCurrentWorkRepairAction::RecoverDeadClaim,
        OpenSpecCurrentWorkBlockerKind::MissingImport => OpenSpecCurrentWorkRepairAction::RunOpenSpec,
        OpenSpecCurrentWorkBlockerKind::AppliedButUnarchived => OpenSpecCurrentWorkRepairAction::ArchiveOpenSpec,
        OpenSpecCurrentWorkBlockerKind::SubtaskBlocked => OpenSpecCurrentWorkRepairAction::RecoverSubtask,
        OpenSpecCurrentWorkBlockerKind::ExpiredClaim => OpenSpecCurrentWorkRepairAction::RecoverExpiredClaim,
        _ => OpenSpecCurrentWorkRepairAction::FailClosed,
    }
}

/// The expected postcondition of an operator blocker's playbook.
pub open spec fn operator_postcondition_of(kind: OpenSpecCurrentWorkBlockerKind) -> Seq<char> {
    match kind {
        OpenSpecCurrentWorkBlockerKind::SchedulerStateLoss =>
            "The named scheduler target has been reconciled and the durable operator blocker is resolved"@,
        OpenSpecCurrentWorkBlockerKind::StaleClaim =>
            "The stale scheduler-owned claim is released only when pane/artifact safety checks pass"@,
        OpenSpecCurrentWorkBlockerKind::HookStateStaleClaim
        | OpenSpecCurrentWorkBlockerKind::HookStateStaleLandingAuthorization
        | OpenSpecCurrentWorkBlockerKind::HookStateInvalidLandingAuthorization =>
            "Hook-local state no longer contradicts live Covey current-work facts"@,
        OpenSpecCurrentWorkBlockerKind::AuthorityHold
        | OpenSpecCurrentWorkBlockerKind::GitApplyUncertainty =>
            "Authoritative reconcile evidence exists and current-work no longer reports the blocker"@,
        _ => "The durable operator blocker is resolved only after its typed postcondition is externally satisfied"@,
    }
}

fn operator_blocker_expected_postcondition(kind: OpenSpecCurrentWorkBlockerKind) -> (r: &'static str)
    ensures
        r@ == operator_postcondition_of(kind),
{
    match kind {
        OpenSpecCurrentWorkBlockerKind::SchedulerStateLoss =>
            "The named scheduler target has been reconciled and the durable operator blocker is resolved",
        OpenSpecCurrentWorkBlockerKind::StaleClaim =>
            "The stale scheduler-owned claim is released only when pane/artifact safety checks pass",
        OpenSpecCurrentWorkBlockerKind::HookStateStaleClaim
        | OpenSpecCurrentWorkBlockerKind::HookStateStaleLandingAuthorization
        | OpenSpecCurrentWorkBlockerKind::HookStateInvalidLandingAuthorization =>
            "Hook-local state no longer contradicts live Covey current-work facts",
        OpenSpecCurrentWorkBlockerKind::AuthorityHold
        | OpenSpecCurrentWorkBlockerKind::GitApplyUncertainty =>
            "Authoritative reconcile evidence exists and current-work no longer reports the blocker",
        _ => "The durable operator blocker is resolved only after its typed postcondition is externally satisfied",
    }
}

/// The rollback note of an operator blocker's playbook.
pub open spec fn operator_note_of(kind: OpenSpecCurrentWorkBlockerKind) -> Seq<char> {
    match kind {
        OpenSpecCurrentWorkBlockerKind::SchedulerStateLoss =>
            "retry the bounded target recovery; leave the durable blocker open if the target still lacks evidence"@,
        OpenSpecCurrentWorkBlockerKind::StaleClaim =>
            "if pane/artifact checks fail, keep the blocker open and rerun current-work after inspection"@,
        OpenSpecCurrentWorkBlockerKind::AuthorityHold
        | OpenSpecCurrentWorkBlockerKind::GitApplyUncertainty
        | OpenSpecCurrentWorkBlockerKind::OperatorBlocked =>
            "fail closed without mutation; do not synthesize missing operator or Authority evidence"@,
        _ => "fail closed without broad maintenance fallback"@,
    }
}

fn operator_blocker_rollback_note(kind: OpenSpecCurrentWorkBlockerKind) -> (r: &'static str)
    ensures
        r@ == operator_note_of(kind),
{
    match kind {
        OpenSpecCurrentWorkBlockerKind::SchedulerStateLoss =>
            "retry the bounded target recovery; leave the durable blocker open if the target still lacks evidence",
        OpenSpecCurrentWorkBlockerKind::StaleClaim =>
            "if pane/artifact checks fail, keep the blocker open and rerun current-work after inspection",
        OpenSpecCurrentWorkBlockerKind::AuthorityHold
        | OpenSpecCurrentWorkBlockerKind::GitApplyUncertainty
        | OpenSpecCurrentWorkBlockerKind::OperatorBlocked =>
            "fail closed without mutation; do not synthesize missing operator or Authority evidence",
        _ => "fail closed without broad maintenance fallback",
    }
}

// ---------------------------------------------------------------- debug rendering

/// What `format!("{:?}", s)` renders for a string slice `s`: the text in
/// double quotes with `Debug` escapes.
pub uninterp spec fn str_debug(s: Seq<char>) -> Seq<char>;

/// Renders a string slice with `Debug` (std's `<str as Debug>::fmt`); the
/// result is `str_debug` of the input.
#[verifier::external_body]
fn debug_str(s: &str) -> (r: String)
    ensures
        r@ == str_debug(s@),
{
    format!("{:?}", s)
}

/// What `Debug` renders for an optional text.
pub open spec fn opt_debug(o: Option<Seq<char>>) -> Seq<char> {
    match o {
        Some(s) => "Some("@ + str_debug(s) + ")"@,
        None => "None"@,
    }
}

fn debug_opt(o: &Option<String>) -> (r: String)
    ensures
        r@ == opt_debug(opt_view(*o)),
{
    match o {
        Some(s) => {
            let d = debug_str(s.as_str());
            concat3("Some(", d.as_str(), ")")
        },
        None => owned("None"),
    }
}

// ---------------------------------------------------------------- blocker constructors

/// The blocker of an OpenSpec change with no imported subtasks.
pub open spec fn missing_import_view(change_id: Seq<char>) -> BlockerView {
    let evidence = "openspec_current_work:missing_import:"@ + change_id;
    BlockerView {
        blocker_id: "blocker_openspec_current_work_missing_import_"@ + change_id,
        evidence_id: evidence,
        kind: OpenSpecCurrentWorkBlockerKind::MissingImport,
        owner: OpenSpecCurrentWorkOwner::Covey,
        allowed_repairs: seq!["mutai-scheduler orchestrator run-openspec"@],
        repair_playbook: playbook_view(
            OpenSpecCurrentWorkRepairAction::RunOpenSpec,
            OpenSpecCurrentWorkRepairSafety::Mutating,
            evidence,
            "Covey current-work contains scoped subtasks for the OpenSpec change"@,
            "rerun repair after fixing OpenSpec import readiness; no partial Covey import is assumed"@,
        ),
        subtask_id: None,
        claim_id: None,
        queue_id: None,
        artifact_digest: None,
        review_id: None,
        reason: "OpenSpec change "@ + change_id + " has no Covey scoped subtasks"@,
    }
}

/// The blocker of an applied queue artifact whose archive status is open.
pub open spec fn applied_but_unarchived_view(status: OpenSpecArchiveStatus) -> BlockerView {
    let evidence = "openspec_current_work:applied_but_unarchived:"@ + status.queue_id@ + ":"@
        + status.artifact_digest@;
    BlockerView {
        blocker_id: "blocker_openspec_current_work_applied_but_unarchived_"@ + status.queue_id@,
        evidence_id: evidence,
        kind: OpenSpecCurrentWorkBlockerKind::AppliedButUnarchived,
        owner: OpenSpecCurrentWorkOwner::OpenSpecArchive,
        allowed_repairs: seq![
            "mutai-scheduler orchestrator archive-openspec"@,
            "mutai-scheduler orchestrator recover open-spec-archive-status"@,
        ],
        repair_playbook: playbook_view(
            OpenSpecCurrentWorkRepairAction::ArchiveOpenSpec,
            OpenSpecCurrentWorkRepairSafety::Mutating,
            evidence,
            "OpenSpec archive status is archived for the applied queue artifact"@,
            "retry archive-openspec after resolving authority preflight or OpenSpec archive errors"@,
        ),
        subtask_id: Some(status.subtask_id@),
        claim_id: None,
        queue_id: Some(status.queue_id@),
        artifact_digest: Some(status.artifact_digest@),
        review_id: None,
        reason: match status.blocked_reason {
            Some(r) => r@,
            None => "applied_but_unarchived"@,
        },
    }
}

/// The blocker of an applied queue item with no archive status yet.
pub open spec fn applied_queue_unarchived_view(item: ReadyQueueItem) -> BlockerView {
    let evidence = "openspec_current_work:applied_but_unarchived:"@ + item.queue_id@ + ":"@
        + item.artifact_digest@;
    BlockerView {
        blocker_id: "blocker_openspec_current_work_applied_but_unarchived_"@ + item.queue_id@,
        evidence_id: evidence,
        kind: OpenSpecCurrentWorkBlockerKind::AppliedButUnarchived,
        owner: OpenSpecCurrentWorkOwner::OpenSpecArchive,
        allowed_repairs: seq![
            "mutai-scheduler orchestrator archive-openspec"@,
            "mutai-scheduler orchestrator recover open-spec-archive-status"@,
        ],
        repair_playbook: playbook_view(
            OpenSpecCurrentWorkRepairAction::ArchiveOpenSpec,
            OpenSpecCurrentWorkRepairSafety::Mutating,
            evidence,
            "OpenSpec archive status is archived for the applied queue artifact"@,
            "retry archive-openspec after materializing the archive blocker or fixing archive preflight"@,
        ),
        subtask_id: Some(item.subtask_id@),
        claim_id: None,
        queue_id: Some(item.queue_id@),
        artifact_digest: Some(item.artifact_digest@),
        review_id: None,
        reason: "applied_but_unarchived"@,
    }
}

/// The blocker of a direct-applied artifact with no archive status yet.
pub open spec fn direct_applied_unarchived_view(subtask: SubtaskView) -> BlockerView {
    let digest = subtask.lifecycle_spec().artifact_digest->0@;
    let evidence = "openspec_current_work:applied_but_unarchived:"@ + subtask.subtask_id_spec() + ":"@
        + digest;
    BlockerView {
        blocker_id: "blocker_openspec_current_work_applied_but_unarchived_"@ + subtask.subtask_id_spec(),
        evidence_id: evidence,
        kind: OpenSpecCurrentWorkBlockerKind::AppliedButUnarchived,
        owner: OpenSpecCurrentWorkOwner::OpenSpecArchive,
        allowed_repairs: seq![
            "mutai-scheduler orchestrator archive-openspec"@,
            "mutai-scheduler orchestrator recover open-spec-archive-status"@,
        ],
        repair_playbook: playbook_view(
            OpenSpecCurrentWorkRepairAction::ArchiveOpenSpec,
            OpenSpecCurrentWorkRepairSafety::Mutating,
            evidence,
            "OpenSpec archive status is archived for the direct-applied artifact"@,
            "retry archive-openspec after materializing the archive blocker or fixing archive preflight"@,
        ),
        subtask_id: Some(subtask.subtask_id_spec()),
        claim_id: None,
        queue_id: None,
        artifact_digest: Some(digest),
        review_id: None,
        reason: "applied_but_unarchived"@,
    }
}

/// The blocker of an applied queue item without a landing receipt.
pub open spec fn landing_receipt_missing_view(item: ReadyQueueItem) -> BlockerView {
    let evidence = "openspec_current_work:landing_receipt_missing:"@ + item.queue_id@ + ":"@
        + item.artifact_digest@;
    BlockerView {
        blocker_id: "blocker_openspec_current_work_landing_receipt_missing_"@ + item.queue_id@,
        evidence_id: evidence,
        kind: OpenSpecCurrentWorkBlockerKind::GitApplyUncertainty,
        owner: OpenSpecCurrentWorkOwner::ApplyGate,
        allowed_repairs: seq![
            "mutai-scheduler orchestrator current-work"@,
            "mutai-scheduler orchestrator recover landing-receipt"@,
        ],
        repair_playbook: playbook_view(
            OpenSpecCurrentWorkRepairAction::RecoverLandingReceipt,
            OpenSpecCurrentWorkRepairSafety::Mutating,
            evidence,
            "A durable landing receipt exists for the applied queue artifact and fence"@,
            "fail closed unless accepted local landing authorization and landed commit evidence are derivable"@,
        ),
        subtask_id: Some(item.subtask_id@),
        claim_id: None,
        queue_id: Some(item.queue_id@),
        artifact_digest: Some(item.artifact_digest@),
        review_id: None,
        reason: "landing_receipt_missing"@,
    }
}

/// The subtask of an optional queue item.
pub open spec fn item_subtask(item: Option<ReadyQueueItem>) -> Option<Seq<char>> {
    match item {
        Some(i) => Some(i.subtask_id@),
        None => None,
    }
}

/// The blocker of native apply-gate evidence.
pub open spec fn apply_gate_view(blocker: ApplyGateBlocker, item: Option<ReadyQueueItem>) -> BlockerView {
    BlockerView {
        blocker_id: "blocker_openspec_current_work_apply_gate_"@ + blocker.queue_id@ + "_"@ + fragment_of(
            blocker.evidence_id@,
        ),
        evidence_id: blocker.evidence_id@,
        kind: match blocker.blocker_kind {
            ApplyGateBlockerKind::AuthorityHold => OpenSpecCurrentWorkBlockerKind::AuthorityHold,
            ApplyGateBlockerKind::GitApplyUncertainty => OpenSpecCurrentWorkBlockerKind::GitApplyUncertainty,
        },
        owner: match blocker.blocker_kind {
            ApplyGateBlockerKind::AuthorityHold => OpenSpecCurrentWorkOwner::Authority,
            ApplyGateBlockerKind::GitApplyUncertainty => OpenSpecCurrentWorkOwner::ApplyGate,
        },
        allowed_repairs: seq![
            "mutai-scheduler orchestrator current-work"@,
            "mutai-scheduler orchestrator recover operator-blocked"@,
        ],
        repair_playbook: playbook_view(
            OpenSpecCurrentWorkRepairAction::FailClosed,
            OpenSpecCurrentWorkRepairSafety::Safe,
            blocker.evidence_id@,
            "Authority or apply-gate evidence is supplied externally and the blocker is absent from current-work"@,
            "do not synthesize Authority/operator evidence; rerun after authoritative reconcile evidence exists"@,
        ),
        subtask_id: item_subtask(item),
        claim_id: None,
        queue_id: Some(blocker.queue_id@),
        artifact_digest: Some(blocker.artifact_digest@),
        review_id: Some(blocker.review_id@),
        reason: blocker.reason@,
    }
}

/// Whether a reconcile reason means the Authority holds the settlement.
pub open spec fn reason_is_authority_hold(r: SettlementReconcileReason) -> bool {
    r == SettlementReconcileReason::AuthorityLost || r == SettlementReconcileReason::StaleFence
}

/// The blocker of native settlement reconcile evidence.
pub open spec fn settlement_view(blocker: SettlementReconcileBlocker, item: Option<ReadyQueueItem>) -> BlockerView {
    BlockerView {
        blocker_id: "blocker_openspec_current_work_settlement_reconcile_"@ + blocker.queue_id@ + "_"@
            + fragment_of(blocker.authority_evidence_id@),
        evidence_id: blocker.authority_evidence_id@,
        kind: if reason_is_authority_hold(blocker.reconcile_reason) {
            OpenSpecCurrentWorkBlockerKind::AuthorityHold
        } else {
            OpenSpecCurrentWorkBlockerKind::GitApplyUncertainty
        },
        owner: if reason_is_authority_hold(blocker.reconcile_reason) {
            OpenSpecCurrentWorkOwner::Authority
        } else {
            OpenSpecCurrentWorkOwner::ApplyGate
        },
        allowed_repairs: seq![
            "mutai-scheduler orchestrator current-work"@,
            "mutai-scheduler orchestrator recover operator-blocked"@,
        ],
        repair_playbook: playbook_view(
            OpenSpecCurrentWorkRepairAction::FailClosed,
            OpenSpecCurrentWorkRepairSafety::Safe,
            blocker.authority_evidence_id@,
            "Settlement reconcile evidence is supplied externally and the blocker is absent from current-work"@,
            "do not synthesize Authority/operator evidence; rerun after authoritative reconcile evidence exists"@,
        ),
        subtask_id: item_subtask(item),
        claim_id: None,
        queue_id: Some(blocker.queue_id@),
        artifact_digest: Some(blocker.artifact_digest@),
        review_id: Some(blocker.review_id@),
        reason: reconcile_reason_name(blocker.reconcile_reason),
    }
}

/// The blocker of a blocked, changes-requested or abandoned subtask.
pub open spec fn subtask_blocked_view(subtask: SubtaskView) -> BlockerView {
    let state = subtask_state_name(subtask.lifecycle_spec().state);
    let evidence = "openspec_current_work:subtask_blocked:"@ + subtask.subtask_id_spec() + ":"@ + state;
    BlockerView {
        blocker_id: "blocker_openspec_current_work_subtask_blocked_"@ + subtask.subtask_id_spec(),
        evidence_id: evidence,
        kind: OpenSpecCurrentWorkBlockerKind::SubtaskBlocked,
        owner: OpenSpecCurrentWorkOwner::Executor,
        allowed_repairs: seq![
            "mutai-scheduler orchestrator recover subtask"@,
            "mutai-scheduler orchestrator recover redispatch"@,
        ],
        repair_playbook: playbook_view(
            OpenSpecCurrentWorkRepairAction::RecoverSubtask,
            OpenSpecCurrentWorkRepairSafety::Mutating,
            evidence,
            "The subtask is no longer blocked without a repair follow-up or explicit operator blocker"@,
            "retry after creating or resolving the repair follow-up; do not abandon unrelated subtasks"@,
        ),
        subtask_id: Some(subtask.subtask_id_spec()),
        claim_id: opt_view(subtask.lifecycle_spec().active_claim_id),
        queue_id: None,
        artifact_digest: opt_view(subtask.lifecycle_spec().artifact_digest),
        review_id: None,
        reason: "subtask state is "@ + state,
    }
}

/// The blocker of a held claim whose lease has expired.
pub open spec fn expired_claim_view(claim: Claim, lease_now_ms: i64) -> BlockerView {
    let evidence = "openspec_current_work:expired_claim:"@ + claim.subtask_id@ + ":"@ + claim.claim_id@;
    BlockerView {
        blocker_id: "blocker_openspec_current_work_expired_claim_"@ + claim.claim_id@,
        evidence_id: evidence,
        kind: OpenSpecCurrentWorkBlockerKind::ExpiredClaim,
        owner: OpenSpecCurrentWorkOwner::Covey,
        allowed_repairs: seq![
            "mutai-scheduler orchestrator recover expired-claim"@,
            "mutai-scheduler orchestrator recover redispatch"@,
        ],
        repair_playbook: playbook_view(
            OpenSpecCurrentWorkRepairAction::RecoverExpiredClaim,
            OpenSpecCurrentWorkRepairSafety::Mutating,
            evidence,
            "The expired claim is released or no longer attached to the scoped subtask"@,
            "retry only for the same claim id; do not downgrade to unlocked work"@,
        ),
        subtask_id: Some(claim.subtask_id@),
        claim_id: Some(claim.claim_id@),
        queue_id: None,
        artifact_digest: None,
        review_id: None,
        reason: "claim "@ + claim.claim_id@ + " lease_deadline "@ + int_decimal(claim.lease_deadline as int)
            + " is at or before lease clock "@ + int_decimal(lease_now_ms as int),
    }
}

/// The blocker of a held claim idle past the threshold.
pub open spec fn stale_claim_view(stale: OpenSpecCurrentWorkStaleClaim) -> BlockerView {
    let evidence = "openspec_current_work:stale_claim:"@ + stale.claim.subtask_id@ + ":"@ + stale.claim.claim_id@
        + ":"@ + int_decimal(stale.threshold_ms as int);
    BlockerView {
        blocker_id: "blocker_openspec_current_work_stale_claim_"@ + stale.claim.claim_id@,
        evidence_id: evidence,
        kind: OpenSpecCurrentWorkBlockerKind::StaleClaim,
        owner: OpenSpecCurrentWorkOwner::Covey,
        allowed_repairs: seq![
            "mutai-scheduler orchestrator recover dead-claim"@,
            "mutai-scheduler orchestrator recover operator-blocked"@,
        ],
        repair_playbook: playbook_view(
            OpenSpecCurrentWorkRepairAction::RecoverDeadClaim,
            OpenSpecCurrentWorkRepairSafety::Mutating,
            evidence,
            "The stale scheduler-owned claim is released only when pane/artifact safety checks pass"@,
            "if safety checks fail, leave the blocker open with evidence and retry after operator inspection"@,
        ),
        subtask_id: Some(stale.claim.subtask_id@),
        claim_id: Some(stale.claim.claim_id@),
        queue_id: None,
        artifact_digest: None,
        review_id: None,
        reason: "claim "@ + stale.claim.claim_id@ + " has been idle for "@ + int_decimal(stale.idle_for_ms as int)
            + "ms, meeting stale threshold "@ + int_decimal(stale.threshold_ms as int) + "ms"@,
    }
}

/// The reason text of an unusable workspace blocker.
pub open spec fn workspace_reason(ws: VcsWorkspace) -> Seq<char> {
    "registered "@ + workspace_kind_debug_name(ws.kind) + " VCS workspace "@ + ws.workspace_id@ + " at "@
        + ws.path@ + " is "@ + workspace_state_debug_name(ws.state) + "/"@
        + crate::model::cleanliness_debug_name(ws.last_cleanliness) + "; bookmark="@ + opt_debug(
        opt_view(ws.current_bookmark),
    ) + " change="@ + opt_debug(opt_view(ws.current_change_id)) + " commit="@ + opt_debug(
        opt_view(ws.current_commit_id),
    )
}

/// The blocker of a registered workspace that is not clean.
pub open spec fn workspace_unusable_view(ws: VcsWorkspace) -> BlockerView {
    let evidence = "openspec_current_work:vcs_workspace_unusable:"@ + ws.workspace_id@ + ":"@
        + cleanliness_name(ws.last_cleanliness);
    BlockerView {
        blocker_id: "blocker_openspec_current_work_vcs_workspace_unusable_"@ + ws.workspace_id@,
        evidence_id: evidence,
        kind: OpenSpecCurrentWorkBlockerKind::SchedulerStateLoss,
        owner: OpenSpecCurrentWorkOwner::Operator,
        allowed_repairs: seq![
            "mutai-scheduler orchestrator current-work"@,
            "mutai-scheduler orchestrator run-openspec"@,
            "mutai-scheduler orchestrator recover workspace"@,
            "mutai-scheduler orchestrator recover dead-claim"@,
            "mutai-scheduler orchestrator recover redispatch"@,
            "mutai-scheduler janitor vcs-workspaces"@,
        ],
        repair_playbook: PlaybookView {
            repair_action: OpenSpecCurrentWorkRepairAction::RecoverWorkspace,
            repair_safety: OpenSpecCurrentWorkRepairSafety::Mutating,
            required_evidence_id: evidence,
            expected_postcondition:
                "The registered VCS workspace is clean, recovered, archived, or no longer blocks current work"@,
            rollback_retry_note:
                "do not inspect or mutate unregistered filesystem paths; rerun current-work after scheduler repair or janitor evidence exists"@,
            repair_command: Some("mutai-scheduler orchestrator current-work"@),
        },
        subtask_id: opt_view(ws.subtask_id),
        claim_id: opt_view(ws.claim_id),
        queue_id: opt_view(ws.queue_id),
        artifact_digest: opt_view(ws.artifact_digest),
        review_id: None,
        reason: workspace_reason(ws),
    }
}

/// The blocker of a durable operator blocker row.
pub open spec fn operator_blocked_view(b: OperatorBlocker) -> BlockerView {
    let kind = operator_kind_of(b.reason@);
    let evidence = match b.source_evidence_id {
        Some(e) => e@,
        None => "openspec_current_work:operator_blocked:"@ + b.blocker_id@,
    };
    let action = operator_action_of(kind, b.queue_id is Some);
    BlockerView {
        blocker_id: "blocker_openspec_current_work_operator_blocked_"@ + b.blocker_id@,
        evidence_id: evidence,
        kind,
        owner: OpenSpecCurrentWorkOwner::Operator,
        allowed_repairs: operator_repairs_of(kind),
        repair_playbook: playbook_view(
            action,
            if action == OpenSpecCurrentWorkRepairAction::FailClosed {
                OpenSpecCurrentWorkRepairSafety::Safe
            } else {
                OpenSpecCurrentWorkRepairSafety::Mutating
            },
            evidence,
            operator_postcondition_of(kind),
            operator_note_of(kind),
        ),
        subtask_id: Some(b.subtask_id@),
        claim_id: None,
        queue_id: opt_view(b.queue_id),
        artifact_digest: opt_view(b.artifact_digest),
        review_id: None,
        reason: b.reason@,
    }
}

fn opt_text(o: &Option<String>) -> (r: Option<String>)
    ensures
        opt_view(r) == opt_view(*o),
{
    match o {
        Some(s) => Some(s.clone()),
        None => None,
    }
}

impl OpenSpecCurrentWorkBlocker {
    /// The blocker of an OpenSpec change with no imported subtasks.
    pub fn missing_import(openspec_change_id: &str) -> (r: Self)
        ensures
            r@ == missing_import_view(openspec_change_id@),
    {
        let evidence_id = concat2("openspec_current_work:missing_import:", openspec_change_id);
        let playbook = new_playbook(
            OpenSpecCurrentWorkRepairAction::RunOpenSpec,
            OpenSpecCurrentWorkRepairSafety::Mutating,
            evidence_id.clone(),
            "Covey current-work contains scoped subtasks for the OpenSpec change",
            "rerun repair after fixing OpenSpec import readiness; no partial Covey import is assumed",
        );
        OpenSpecCurrentWorkBlocker {
            blocker_id: concat2("blocker_openspec_current_work_missing_import_", openspec_change_id),
            evidence_id,
            kind: OpenSpecCurrentWorkBlockerKind::MissingImport,
            owner: OpenSpecCurrentWorkOwner::Covey,
            allowed_repairs: commands1("mutai-scheduler orchestrator run-openspec"),
            repair_playbook: playbook,
            subtask_id: None,
            claim_id: None,
            queue_id: None,
            artifact_digest: None,
            review_id: None,
            reason: concat3("OpenSpec change ", openspec_change_id, " has no Covey scoped subtasks"),
        }
    }

    /// The blocker of an applied queue artifact whose archive status is open.
    pub fn applied_but_unarchived(status: &OpenSpecArchiveStatus) -> (r: Self)
        ensures
            r@ == applied_but_unarchived_view(*status),
    {
        let evidence_id = concat4(
            "openspec_current_work:applied_but_unarchived:",
            status.queue_id.as_str(),
            ":",
            status.artifact_digest.as_str(),
        );
        let playbook = new_playbook(
            OpenSpecCurrentWorkRepairAction::ArchiveOpenSpec,
            OpenSpecCurrentWorkRepairSafety::Mutating,
            evidence_id.clone(),
            "OpenSpec archive status is archived for the applied queue artifact",
            "retry archive-openspec after resolving authority preflight or OpenSpec archive errors",
        );
        let reason = match &status.blocked_reason {
            Some(r) => r.clone(),
            None => owned("applied_but_unarchived"),
        };
        OpenSpecCurrentWorkBlocker {
            blocker_id: concat2("blocker_openspec_current_work_applied_but_unarchived_", status.queue_id.as_str()),
            evidence_id,
            kind: OpenSpecCurrentWorkBlockerKind::AppliedButUnarchived,
            owner: OpenSpecCurrentWorkOwner::OpenSpecArchive,
            allowed_repairs: commands2(
                "mutai-scheduler orchestrator archive-openspec",
                "mutai-scheduler orchestrator recover open-spec-archive-status",
            ),
            repair_playbook: playbook,
            subtask_id: Some(status.subtask_id.clone()),
            claim_id: None,
            queue_id: Some(status.queue_id.clone()),
            artifact_digest: Some(status.artifact_digest.clone()),
            review_id: None,
            reason,
        }
    }

    /// The blocker of an applied queue item with no archive status yet.
    pub fn applied_queue_unarchived(queue_item: &ReadyQueueItem) -> (r: Self)
        ensures
            r@ == applied_queue_unarchived_view(*queue_item),
    {
        let evidence_id = concat4(
            "openspec_current_work:applied_but_unarchived:",
            queue_item.queue_id.as_str(),
            ":",
            queue_item.artifact_digest.as_str(),
        );
        let playbook = new_playbook(
            OpenSpecCurrentWorkRepairAction::ArchiveOpenSpec,
            OpenSpecCurrentWorkRepairSafety::Mutating,
            evidence_id.clone(),
            "OpenSpec archive status is archived for the applied queue artifact",
            "retry archive-openspec after materializing the archive blocker or fixing archive preflight",
        );
        OpenSpecCurrentWorkBlocker {
            blocker_id: concat2("blocker_openspec_current_work_applied_but_unarchived_", queue_item.queue_id.as_str()),
            evidence_id,
            kind: OpenSpecCurrentWorkBlockerKind::AppliedButUnarchived,
            owner: OpenSpecCurrentWorkOwner::OpenSpecArchive,
            allowed_repairs: commands2(
                "mutai-scheduler orchestrator archive-openspec",
                "mutai-scheduler orchestrator recover open-spec-archive-status",
            ),
            repair_playbook: playbook,
            subtask_id: Some(queue_item.subtask_id.clone()),
            claim_id: None,
            queue_id: Some(queue_item.queue_id.clone()),
            artifact_digest: Some(queue_item.artifact_digest.clone()),
            review_id: None,
            reason: owned("applied_but_unarchived"),
        }
    }

    /// The blocker of a direct-applied artifact with no archive status yet.
    pub fn direct_applied_unarchived(subtask: &SubtaskView) -> (r: Self)
        requires
            subtask.lifecycle_spec().artifact_digest is Some,
        ensures
            r@ == direct_applied_unarchived_view(*subtask),
    {
        let digest = match subtask.artifact_digest() {
            Some(d) => d.clone(),
            None => owned(""),
        };
        let evidence_id = concat4(
            "openspec_current_work:applied_but_unarchived:",
            subtask.subtask_id(),
            ":",
            digest.as_str(),
        );
        let playbook = new_playbook(
            OpenSpecCurrentWorkRepairAction::ArchiveOpenSpec,
            OpenSpecCurrentWorkRepairSafety::Mutating,
            evidence_id.clone(),
            "OpenSpec archive status is archived for the direct-applied artifact",
            "retry archive-openspec after materializing the archive blocker or fixing archive preflight",
        );
        OpenSpecCurrentWorkBlocker {
            blocker_id: concat2("blocker_openspec_current_work_applied_but_unarchived_", subtask.subtask_id()),
            evidence_id,
            kind: OpenSpecCurrentWorkBlockerKind::AppliedButUnarchived,
            owner: OpenSpecCurrentWorkOwner::OpenSpecArchive,
            allowed_repairs: commands2(
                "mutai-scheduler orchestrator archive-openspec",
                "mutai-scheduler orchestrator recover open-spec-archive-status",
            ),
            repair_playbook: playbook,
            subtask_id: Some(owned(subtask.subtask_id())),
            claim_id: None,
            queue_id: None,
            artifact_digest: Some(digest),
            review_id: None,
            reason: owned("applied_but_unarchived"),
        }
    }

    /// The blocker of an applied queue item without a durable landing receipt.
    pub fn applied_without_landing_receipt(queue_item: &ReadyQueueItem) -> (r: Self)
        ensures
            r@ == landing_receipt_missing_view(*queue_item),
    {
        let evidence_id = concat4(
            "openspec_current_work:landing_receipt_missing:",
            queue_item.queue_id.as_str(),
            ":",
            queue_item.artifact_digest.as_str(),
        );
        let playbook = new_playbook(
            OpenSpecCurrentWorkRepairAction::RecoverLandingReceipt,
            OpenSpecCurrentWorkRepairSafety::Mutating,
            evidence_id.clone(),
            "A durable landing receipt exists for the applied queue artifact and fence",
            "fail closed unless accepted local landing authorization and landed commit evidence are derivable",
        );
        OpenSpecCurrentWorkBlocker {
            blocker_id: concat2("blocker_openspec_current_work_landing_receipt_missing_", queue_item.queue_id.as_str()),
            evidence_id,
            kind: OpenSpecCurrentWorkBlockerKind::GitApplyUncertainty,
            owner: OpenSpecCurrentWorkOwner::ApplyGate,
            allowed_repairs: commands2(
                "mutai-scheduler orchestrator current-work",
                "mutai-scheduler orchestrator recover landing-receipt",
            ),
            repair_playbook: playbook,
            subtask_id: Some(queue_item.subtask_id.clone()),
            claim_id: None,
            queue_id: Some(queue_item.queue_id.clone()),
            artifact_digest: Some(queue_item.artifact_digest.clone()),
            review_id: None,
            reason: owned("landing_receipt_missing"),
        }
    }

    /// The blocker of native apply-gate evidence.
    pub fn apply_gate_blocked(blocker: &ApplyGateBlocker, queue_item: Option<&ReadyQueueItem>) -> (r: Self)
        ensures
            r@ == apply_gate_view(*blocker, match queue_item {
                Some(i) => Some(*i),
                None => None,
            }),
    {
        let (kind, owner) = match blocker.blocker_kind {
            ApplyGateBlockerKind::AuthorityHold => (OpenSpecCurrentWorkBlockerKind::AuthorityHold, OpenSpecCurrentWorkOwner::Authority),
            ApplyGateBlockerKind::GitApplyUncertainty => (
                OpenSpecCurrentWorkBlockerKind::GitApplyUncertainty,
                OpenSpecCurrentWorkOwner::ApplyGate,
            ),
        };
        let fragment = typed_ref_fragment(blocker.evidence_id.as_str());
        let playbook = new_playbook(
            OpenSpecCurrentWorkRepairAction::FailClosed,
            OpenSpecCurrentWorkRepairSafety::Safe,
            blocker.evidence_id.clone(),
            "Authority or apply-gate evidence is supplied externally and the blocker is absent from current-work",
            "do not synthesize Authority/operator evidence; rerun after authoritative reconcile evidence exists",
        );
        let subtask_id = match queue_item {
            Some(item) => Some(item.subtask_id.clone()),
            None => None,
        };
        OpenSpecCurrentWorkBlocker {
            blocker_id: concat4(
                "blocker_openspec_current_work_apply_gate_",
                blocker.queue_id.as_str(),
                "_",
                fragment.as_str(),
            ),
            evidence_id: blocker.evidence_id.clone(),
            kind,
            owner,
            allowed_repairs: commands2(
                "mutai-scheduler orchestrator current-work",
                "mutai-scheduler orchestrator recover operator-blocked",
            ),
            repair_playbook: playbook,
            subtask_id,
            claim_id: None,
            queue_id: Some(blocker.queue_id.clone()),
            artifact_digest: Some(blocker.artifact_digest.clone()),
            review_id: Some(blocker.review_id.clone()),
            reason: blocker.reason.clone(),
        }
    }

    /// The blocker of native settlement reconcile evidence.
    pub fn settlement_reconcile_blocked(blocker: &SettlementReconcileBlocker, queue_item: Option<&ReadyQueueItem>) -> (r: Self)
        ensures
            r@ == settlement_view(*blocker, match queue_item {
                Some(i) => Some(*i),
                None => None,
            }),
    {
        let hold = blocker.reconcile_reason == SettlementReconcileReason::AuthorityLost
            || blocker.reconcile_reason == SettlementReconcileReason::StaleFence;
        let (kind, owner) = if hold {
            (OpenSpecCurrentWorkBlockerKind::AuthorityHold, OpenSpecCurrentWorkOwner::Authority)
        } else {
            (OpenSpecCurrentWorkBlockerKind::GitApplyUncertainty, OpenSpecCurrentWorkOwner::ApplyGate)
        };
        let fragment = typed_ref_fragment(blocker.authority_evidence_id.as_str());
        let playbook = new_playbook(
            OpenSpecCurrentWorkRepairAction::FailClosed,
            OpenSpecCurrentWorkRepairSafety::Safe,
            blocker.authority_evidence_id.clone(),
            "Settlement reconcile evidence is supplied externally and the blocker is absent from current-work",
            "do not synthesize Authority/operator evidence; rerun after authoritative reconcile evidence exists",
        );
        let subtask_id = match queue_item {
            Some(item) => Some(item.subtask_id.clone()),
            None => None,
        };
        OpenSpecCurrentWorkBlocker {
            blocker_id: concat4(
                "blocker_openspec_current_work_settlement_reconcile_",
                blocker.queue_id.as_str(),
                "_",
                fragment.as_str(),
            ),
            evidence_id: blocker.authority_evidence_id.clone(),
            kind,
            owner,
            allowed_repairs: commands2(
                "mutai-scheduler orchestrator current-work",
                "mutai-scheduler orchestrator recover operator-blocked",
            ),
            repair_playbook: playbook,
            subtask_id,
            claim_id: None,
            queue_id: Some(blocker.queue_id.clone()),
            artifact_digest: Some(blocker.artifact_digest.clone()),
            review_id: Some(blocker.review_id.clone()),
            reason: owned(blocker.reconcile_reason.name()),
        }
    }

    /// The blocker of a blocked, changes-requested or abandoned subtask.
    pub fn subtask_blocked(subtask: &SubtaskView) -> (r: Self)
        ensures
            r@ == subtask_blocked_view(*subtask),
    {
        let state = subtask.state().name();
        let evidence_id = concat4("openspec_current_work:subtask_blocked:", subtask.subtask_id(), ":", state);
        let playbook = new_playbook(
            OpenSpecCurrentWorkRepairAction::RecoverSubtask,
            OpenSpecCurrentWorkRepairSafety::Mutating,
            evidence_id.clone(),
            "The subtask is no longer blocked without a repair follow-up or explicit operator blocker",
            "retry after creating or resolving the repair follow-up; do not abandon unrelated subtasks",
        );
        let claim_id = match subtask.active_claim_id() {
            Some(c) => Some(c.clone()),
            None => None,
        };
        let artifact_digest = match subtask.artifact_digest() {
            Some(d) => Some(d.clone()),
            None => None,
        };
        OpenSpecCurrentWorkBlocker {
            blocker_id: concat2("blocker_openspec_current_work_subtask_blocked_", subtask.subtask_id()),
            evidence_id,
            kind: OpenSpecCurrentWorkBlockerKind::SubtaskBlocked,
            owner: OpenSpecCurrentWorkOwner::Executor,
            allowed_repairs: commands2(
                "mutai-scheduler orchestrator recover subtask",
                "mutai-scheduler orchestrator recover redispatch",
            ),
            repair_playbook: playbook,
            subtask_id: Some(owned(subtask.subtask_id())),
            claim_id,
            queue_id: None,
            artifact_digest,
            review_id: None,
            reason: concat2("subtask state is ", state),
        }
    }

    /// The blocker of a held claim whose lease has expired.
    pub fn expired_claim(claim: &Claim, lease_now_ms: i64) -> (r: Self)
        ensures
            r@ == expired_claim_view(*claim, lease_now_ms),
    {
        let evidence_id = concat4(
            "openspec_current_work:expired_claim:",
            claim.subtask_id.as_str(),
            ":",
            claim.claim_id.as_str(),
        );
        let playbook = new_playbook(
            OpenSpecCurrentWorkRepairAction::RecoverExpiredClaim,
            OpenSpecCurrentWorkRepairSafety::Mutating,
            evidence_id.clone(),
            "The expired claim is released or no longer attached to the scoped subtask",
            "retry only for the same claim id; do not downgrade to unlocked work",
        );
        let deadline = i64_decimal(claim.lease_deadline);
        let now = i64_decimal(lease_now_ms);
        let head = concat4("claim ", claim.claim_id.as_str(), " lease_deadline ", deadline.as_str());
        let reason = concat3(head.as_str(), " is at or before lease clock ", now.as_str());
        OpenSpecCurrentWorkBlocker {
            blocker_id: concat2("blocker_openspec_current_work_expired_claim_", claim.claim_id.as_str()),
            evidence_id,
            kind: OpenSpecCurrentWorkBlockerKind::ExpiredClaim,
            owner: OpenSpecCurrentWorkOwner::Covey,
            allowed_repairs: commands2(
                "mutai-scheduler orchestrator recover expired-claim",
                "mutai-scheduler orchestrator recover redispatch",
            ),
            repair_playbook: playbook,
            subtask_id: Some(claim.subtask_id.clone()),
            claim_id: Some(claim.claim_id.clone()),
            queue_id: None,
            artifact_digest: None,
            review_id: None,
            reason,
        }
    }

    /// The blocker of a held claim idle past the caller's threshold.
    pub fn stale_claim(stale: &OpenSpecCurrentWorkStaleClaim) -> (r: Self)
        ensures
            r@ == stale_claim_view(*stale),
    {
        let threshold = i64_decimal(stale.threshold_ms);
        let idle = i64_decimal(stale.idle_for_ms);
        let head = concat4(
            "openspec_current_work:stale_claim:",
            stale.claim.subtask_id.as_str(),
            ":",
            stale.claim.claim_id.as_str(),
        );
        let evidence_id = concat3(head.as_str(), ":", threshold.as_str());
        let playbook = new_playbook(
            OpenSpecCurrentWorkRepairAction::RecoverDeadClaim,
            OpenSpecCurrentWorkRepairSafety::Mutating,
            evidence_id.clone(),
            "The stale scheduler-owned claim is released only when pane/artifact safety checks pass",
            "if safety checks fail, leave the blocker open with evidence and retry after operator inspection",
        );
        let reason_head = concat4("claim ", stale.claim.claim_id.as_str(), " has been idle for ", idle.as_str());
        let reason = concat4(reason_head.as_str(), "ms, meeting stale threshold ", threshold.as_str(), "ms");
        OpenSpecCurrentWorkBlocker {
            blocker_id: concat2("blocker_openspec_current_work_stale_claim_", stale.claim.claim_id.as_str()),
            evidence_id,
            kind: OpenSpecCurrentWorkBlockerKind::StaleClaim,
            owner: OpenSpecCurrentWorkOwner::Covey,
            allowed_repairs: commands2(
                "mutai-scheduler orchestrator recover dead-claim",
                "mutai-scheduler orchestrator recover operator-blocked",
            ),
            repair_playbook: playbook,
            subtask_id: Some(stale.claim.subtask_id.clone()),
            claim_id: Some(stale.claim.claim_id.clone()),
            queue_id: None,
            artifact_digest: None,
            review_id: None,
            reason,
        }
    }

    /// The blocker of a registered workspace that is dirty, missing, stale or
    /// unusable.
    pub fn vcs_workspace_unusable(workspace: &VcsWorkspace) -> (r: Self)
        ensures
            r@ == workspace_unusable_view(*workspace),
    {
        let evidence_id = concat4(
            "openspec_current_work:vcs_workspace_unusable:",
            workspace.workspace_id.as_str(),
            ":",
            workspace.last_cleanliness.name(),
        );
        let playbook = OpenSpecCurrentWorkRepairPlaybook {
            repair_action: OpenSpecCurrentWorkRepairAction::RecoverWorkspace,
            repair_safety: OpenSpecCurrentWorkRepairSafety::Mutating,
            required_evidence_id: evidence_id.clone(),
            expected_postcondition: owned(
                "The registered VCS workspace is clean, recovered, archived, or no longer blocks current work",
            ),
            rollback_retry_note: owned(
                "do not inspect or mutate unregistered filesystem paths; rerun current-work after scheduler repair or janitor evidence exists",
            ),
            repair_command: Some(owned("mutai-scheduler orchestrator current-work")),
        };
        let repairs = vec![
            owned("mutai-scheduler orchestrator current-work"),
            owned("mutai-scheduler orchestrator run-openspec"),
            owned("mutai-scheduler orchestrator recover workspace"),
            owned("mutai-scheduler orchestrator recover dead-claim"),
            owned("mutai-scheduler orchestrator recover redispatch"),
            owned("mutai-scheduler janitor vcs-workspaces"),
        ];
        assert(views(repairs@) =~= seq![
            "mutai-scheduler orchestrator current-work"@,
            "mutai-scheduler orchestrator run-openspec"@,
            "mutai-scheduler orchestrator recover workspace"@,
            "mutai-scheduler orchestrator recover dead-claim"@,
            "mutai-scheduler orchestrator recover redispatch"@,
            "mutai-scheduler janitor vcs-workspaces"@,
        ]);
        let part1 = concat5(
            "registered ",
            workspace.kind.debug_name(),
            " VCS workspace ",
            workspace.workspace_id.as_str(),
            " at ",
        );
        let part2 = concat5(
            part1.as_str(),
            workspace.path.as_str(),
            " is ",
            workspace.state.debug_name(),
            "/",
        );
        let bookmark = debug_opt(&workspace.current_bookmark);
        let change = debug_opt(&workspace.current_change_id);
        let commit = debug_opt(&workspace.current_commit_id);
        let part3 = concat4(part2.as_str(), workspace.last_cleanliness.debug_name(), "; bookmark=", bookmark.as_str());
        let reason = concat5(part3.as_str(), " change=", change.as_str(), " commit=", commit.as_str());
        assert(reason@ =~= workspace_reason(*workspace));
        OpenSpecCurrentWorkBlocker {
            blocker_id: concat2("blocker_openspec_current_work_vcs_workspace_unusable_", workspace.workspace_id.as_str()),
            evidence_id,
            kind: OpenSpecCurrentWorkBlockerKind::SchedulerStateLoss,
            owner: OpenSpecCurrentWorkOwner::Operator,
            allowed_repairs: repairs,
            repair_playbook: playbook,
            subtask_id: opt_text(&workspace.subtask_id),
            claim_id: opt_text(&workspace.claim_id),
            queue_id: opt_text(&workspace.queue_id),
            artifact_digest: opt_text(&workspace.artifact_digest),
            review_id: None,
            reason,
        }
    }

    /// The blocker of a durable operator blocker row.
    pub fn operator_blocked(blocker: &OperatorBlocker) -> (r: Self)
        ensures
            r@ == operator_blocked_view(*blocker),
    {
        let kind = operator_blocker_kind(blocker.reason.as_str());
        let evidence_id = match &blocker.source_evidence_id {
            Some(e) => e.clone(),
            None => concat2("openspec_current_work:operator_blocked:", blocker.blocker_id.as_str()),
        };
        let action = operator_blocker_repair_action(kind, blocker.queue_id.is_some());
        let safety = match action {
            OpenSpecCurrentWorkRepairAction::FailClosed => OpenSpecCurrentWorkRepairSafety::Safe,
            _ => OpenSpecCurrentWorkRepairSafety::Mutating,
        };
        let playbook = new_playbook(
            action,
            safety,
            evidence_id.clone(),
            operator_blocker_expected_postcondition(kind),
            operator_blocker_rollback_note(kind),
        );
        OpenSpecCurrentWorkBlocker {
            blocker_id: concat2("blocker_openspec_current_work_operator_blocked_", blocker.blocker_id.as_str()),
            evidence_id,
            kind,
            owner: OpenSpecCurrentWorkOwner::Operator,
            allowed_repairs: operator_blocker_repairs(kind),
            repair_playbook: playbook,
            subtask_id: Some(blocker.subtask_id.clone()),
            claim_id: None,
            queue_id: opt_text(&blocker.queue_id),
            artifact_digest: opt_text(&blocker.artifact_digest),
            review_id: None,
            reason: blocker.reason.clone(),
        }
    }
}

// ---------------------------------------------------------------- blocker lists

/// The contents of a list of blockers.
pub open spec fn blocker_views(s: Seq<OpenSpecCurrentWorkBlocker>) -> Seq<BlockerView> {
    s.map_values(|b: OpenSpecCurrentWorkBlocker| b@)
}

/// Whether some text of `ids` equals `x`.
pub open spec fn has_text(ids: Seq<String>, x: Seq<char>) -> bool {
    exists|k: int| 0 <= k < ids.len() && (#[trigger] ids[k])@ == x
}

/// Whether `x` is one of the texts.
pub fn contains_text(ids: &Vec<String>, x: &str) -> (r: bool)
    ensures
        r == has_text(ids@, x@),
{
    let mut k: usize = 0;
    while k < ids.len()
        invariant
            k <= ids@.len(),
            forall|j: int| 0 <= j < k ==> (#[trigger] ids@[j])@ != x@,
        decreases ids@.len() - k,
    {
        if str_eq(ids[k].as_str(), x) {
            return true;
        }
        k = k + 1;
    }
    false
}

/// The first queue item with the given id.
pub open spec fn first_item(items: Seq<ReadyQueueItem>, queue_id: Seq<char>) -> Option<ReadyQueueItem>
    decreases items.len(),
{
    if items.len() == 0 {
        None
    } else if items[0].queue_id@ == queue_id {
        Some(items[0])
    } else {
        first_item(items.drop_first(), queue_id)
    }
}

/// Finds the first queue item with the given id.
pub fn queue_item_by_id<'a>(items: &'a Vec<ReadyQueueItem>, queue_id: &str) -> (r: Option<&'a ReadyQueueItem>)
    ensures
        match r {
            Some(i) => first_item(items@, queue_id@) == Some(*i),
            None => first_item(items@, queue_id@) is None,
        },
{
    let mut k: usize = 0;
    assert(items@.skip(0) =~= items@);
    while k < items.len()
        invariant
            k <= items@.len(),
            first_item(items@, queue_id@) == first_item(items@.skip(k as int), queue_id@),
        decreases items@.len() - k,
    {
        assert(items@.skip(k as int)[0] == items@[k as int]);
        if str_eq(items[k].queue_id.as_str(), queue_id) {
            return Some(&items[k]);
        }
        assert(items@.skip(k as int).drop_first() =~= items@.skip(k + 1));
        k = k + 1;
    }
    assert(items@.skip(k as int).len() == 0);
    None
}

proof fn lemma_part_step<A, B>(
    start: Seq<B>,
    input: Seq<A>,
    f: spec_fn(A) -> Option<B>,
    i: int,
    before: Seq<B>,
    after: Seq<B>,
)
    requires
        0 <= i < input.len(),
        before == start + input.take(i).filter_map(f),
        after == match f(input[i]) {
            Some(v) => before.push(v),
            None => before,
        },
    ensures
        after == start + input.take(i + 1).filter_map(f),
{
    input.lemma_filter_map_take_succ(f, i);
    match f(input[i]) {
        Some(v) => {
            assert(after =~= start + input.take(i + 1).filter_map(f));
        },
        None => {
            assert(after =~= start + input.take(i + 1).filter_map(f));
        },
    }
}

proof fn lemma_push_view(s: Seq<OpenSpecCurrentWorkBlocker>, b: OpenSpecCurrentWorkBlocker)
    ensures
        blocker_views(s.push(b)) == blocker_views(s).push(b@),
{
    assert(blocker_views(s.push(b)) =~= blocker_views(s).push(b@));
}

/// Applied queue items without a landing receipt.
pub open spec fn landing_fn(landing_ids: Seq<String>) -> spec_fn(ReadyQueueItem) -> Option<BlockerView> {
    |item: ReadyQueueItem|
        if item.state == ReadyQueueState::Applied && !has_text(landing_ids, item.queue_id@) {
            Some(landing_receipt_missing_view(item))
        } else {
            None
        }
}

fn append_landing(out: &mut Vec<OpenSpecCurrentWorkBlocker>, items: &Vec<ReadyQueueItem>, landing_ids: &Vec<String>)
    ensures
        blocker_views(final(out)@) == blocker_views(old(out)@) + items@.filter_map(landing_fn(landing_ids@)),
{
    let ghost start = blocker_views(out@);
    let mut i: usize = 0;
    while i < items.len()
        invariant
            i <= items@.len(),
            blocker_views(out@) == start + items@.take(i as int).filter_map(landing_fn(landing_ids@)),
        decreases items@.len() - i,
    {
        let ghost before = blocker_views(out@);
        let item = &items[i];
        if item.state == ReadyQueueState::Applied && !contains_text(landing_ids, item.queue_id.as_str()) {
            let b = OpenSpecCurrentWorkBlocker::applied_without_landing_receipt(item);
            proof { lemma_push_view(out@, b); }
            out.push(b);
        }
        proof { lemma_part_step(start, items@, landing_fn(landing_ids@), i as int, before, blocker_views(out@)); }
        i = i + 1;
    }
    assert(items@.take(items@.len() as int) =~= items@);
}

/// Open archive blockers of applied queue artifacts.
pub open spec fn archive_fn() -> spec_fn(OpenSpecArchiveStatus) -> Option<BlockerView> {
    |s: OpenSpecArchiveStatus| Some(applied_but_unarchived_view(s))
}

fn append_archive(out: &mut Vec<OpenSpecCurrentWorkBlocker>, statuses: &Vec<OpenSpecArchiveStatus>)
    ensures
        blocker_views(final(out)@) == blocker_views(old(out)@) + statuses@.filter_map(archive_fn()),
{
    let ghost start = blocker_views(out@);
    let mut i: usize = 0;
    while i < statuses.len()
        invariant
            i <= statuses@.len(),
            blocker_views(out@) == start + statuses@.take(i as int).filter_map(archive_fn()),
        decreases statuses@.len() - i,
    {
        let ghost before = blocker_views(out@);
        let b = OpenSpecCurrentWorkBlocker::applied_but_unarchived(&statuses[i]);
        proof { lemma_push_view(out@, b); }
        out.push(b);
        proof { lemma_part_step(start, statuses@, archive_fn(), i as int, before, blocker_views(out@)); }
        i = i + 1;
    }
    assert(statuses@.take(statuses@.len() as int) =~= statuses@);
}

/// Native apply-gate evidence.
pub open spec fn apply_gate_fn(items: Seq<ReadyQueueItem>) -> spec_fn(ApplyGateBlocker) -> Option<BlockerView> {
    |b: ApplyGateBlocker| Some(apply_gate_view(b, first_item(items, b.queue_id@)))
}

fn append_apply_gate(out: &mut Vec<OpenSpecCurrentWorkBlocker>, blockers: &Vec<ApplyGateBlocker>, items: &Vec<ReadyQueueItem>)
    ensures
        blocker_views(final(out)@) == blocker_views(old(out)@) + blockers@.filter_map(apply_gate_fn(items@)),
{
    let ghost start = blocker_views(out@);
    let mut i: usize = 0;
    while i < blockers.len()
        invariant
            i <= blockers@.len(),
            blocker_views(out@) == start + blockers@.take(i as int).filter_map(apply_gate_fn(items@)),
        decreases blockers@.len() - i,
    {
        let ghost before = blocker_views(out@);
        let item = queue_item_by_id(items, blockers[i].queue_id.as_str());
        let b = OpenSpecCurrentWorkBlocker::apply_gate_blocked(&blockers[i], item);
        proof { lemma_push_view(out@, b); }
        out.push(b);
        proof { lemma_part_step(start, blockers@, apply_gate_fn(items@), i as int, before, blocker_views(out@)); }
        i = i + 1;
    }
    assert(blockers@.take(blockers@.len() as int) =~= blockers@);
}

/// Native settlement reconcile evidence.
pub open spec fn settlement_fn(items: Seq<ReadyQueueItem>) -> spec_fn(SettlementReconcileBlocker) -> Option<BlockerView> {
    |b: SettlementReconcileBlocker| Some(settlement_view(b, first_item(items, b.queue_id@)))
}

fn append_settlement(out: &mut Vec<OpenSpecCurrentWorkBlocker>, blockers: &Vec<SettlementReconcileBlocker>, items: &Vec<ReadyQueueItem>)
    ensures
        blocker_views(final(out)@) == blocker_views(old(out)@) + blockers@.filter_map(settlement_fn(items@)),
{
    let ghost start = blocker_views(out@);
    let mut i: usize = 0;
    while i < blockers.len()
        invariant
            i <= blockers@.len(),
            blocker_views(out@) == start + blockers@.take(i as int).filter_map(settlement_fn(items@)),
        decreases blockers@.len() - i,
    {
        let ghost before = blocker_views(out@);
        let item = queue_item_by_id(items, blockers[i].queue_id.as_str());
        let b = OpenSpecCurrentWorkBlocker::settlement_reconcile_blocked(&blockers[i], item);
        proof { lemma_push_view(out@, b); }
        out.push(b);
        proof { lemma_part_step(start, blockers@, settlement_fn(items@), i as int, before, blocker_views(out@)); }
        i = i + 1;
    }
    assert(blockers@.take(blockers@.len() as int) =~= blockers@);
}

/// Whether some archive status names the queue item.
pub open spec fn has_status_for_queue(statuses: Seq<OpenSpecArchiveStatus>, queue_id: Seq<char>) -> bool {
    exists|k: int| 0 <= k < statuses.len() && (#[trigger] statuses[k]).queue_id@ == queue_id
}

fn status_for_queue(statuses: &Vec<OpenSpecArchiveStatus>, queue_id: &str) -> (r: bool)
    ensures
        r == has_status_for_queue(statuses@, queue_id@),
{
    let mut k: usize = 0;
    while k < statuses.len()
        invariant
            k <= statuses@.len(),
            forall|j: int| 0 <= j < k ==> (#[trigger] statuses@[j]).queue_id@ != queue_id@,
        decreases statuses@.len() - k,
    {
        if str_eq(statuses[k].queue_id.as_str(), queue_id) {
            return true;
        }
        k = k + 1;
    }
    false
}

/// Applied queue items with no archive status.
pub open spec fn queue_unarchived_fn(statuses: Seq<OpenSpecArchiveStatus>) -> spec_fn(ReadyQueueItem) -> Option<BlockerView> {
    |item: ReadyQueueItem|
        if item.state == ReadyQueueState::Applied && !has_status_for_queue(statuses, item.queue_id@) {
            Some(applied_queue_unarchived_view(item))
        } else {
            None
        }
}

fn append_queue_unarchived(out: &mut Vec<OpenSpecCurrentWorkBlocker>, items: &Vec<ReadyQueueItem>, statuses: &Vec<OpenSpecArchiveStatus>)
    ensures
        blocker_views(final(out)@) == blocker_views(old(out)@) + items@.filter_map(queue_unarchived_fn(statuses@)),
{
    let ghost start = blocker_views(out@);
    let mut i: usize = 0;
    while i < items.len()
        invariant
            i <= items@.len(),
            blocker_views(out@) == start + items@.take(i as int).filter_map(queue_unarchived_fn(statuses@)),
        decreases items@.len() - i,
    {
        let ghost before = blocker_views(out@);
        let item = &items[i];
        if item.state == ReadyQueueState::Applied && !status_for_queue(statuses, item.queue_id.as_str()) {
            let b = OpenSpecCurrentWorkBlocker::applied_queue_unarchived(item);
            proof { lemma_push_view(out@, b); }
            out.push(b);
        }
        proof { lemma_part_step(start, items@, queue_unarchived_fn(statuses@), i as int, before, blocker_views(out@)); }
        i = i + 1;
    }
    assert(items@.take(items@.len() as int) =~= items@);
}

/// Whether a queue item carries the subtask's artifact.
pub open spec fn queued_artifact(items: Seq<ReadyQueueItem>, subtask_id: Seq<char>, digest: Seq<char>) -> bool {
    exists|k: int| 0 <= k < items.len() && (#[trigger] items[k]).subtask_id@ == subtask_id
        && items[k].artifact_digest@ == digest
}

/// Whether an archive status covers the subtask's artifact.
pub open spec fn archived_artifact(statuses: Seq<OpenSpecArchiveStatus>, subtask_id: Seq<char>, digest: Seq<char>) -> bool {
    exists|k: int| 0 <= k < statuses.len() && (#[trigger] statuses[k]).subtask_id@ == subtask_id
        && statuses[k].artifact_digest@ == digest
}

/// Whether a subtask applied its artifact directly, without a queue item.
pub open spec fn direct_target(s: SubtaskView, items: Seq<ReadyQueueItem>) -> bool {
    &&& s.lifecycle_spec().state == SubtaskState::Applied
    &&& s.lifecycle_spec().artifact_digest is Some
    &&& !queued_artifact(items, s.subtask_id_spec(), s.lifecycle_spec().artifact_digest->0@)
}

fn item_for_artifact(items: &Vec<ReadyQueueItem>, subtask_id: &str, digest: &str) -> (r: bool)
    ensures
        r == queued_artifact(items@, subtask_id@, digest@),
{
    let mut k: usize = 0;
    while k < items.len()
        invariant
            k <= items@.len(),
            forall|j: int| 0 <= j < k ==> !((#[trigger] items@[j]).subtask_id@ == subtask_id@ && items@[j].artifact_digest@ == digest@),
        decreases items@.len() - k,
    {
        if str_eq(items[k].subtask_id.as_str(), subtask_id) && str_eq(items[k].artifact_digest.as_str(), digest) {
            return true;
        }
        k = k + 1;
    }
    false
}

fn status_for_artifact(statuses: &Vec<OpenSpecArchiveStatus>, subtask_id: &str, digest: &str) -> (r: bool)
    ensures
        r == archived_artifact(statuses@, subtask_id@, digest@),
{
    let mut k: usize = 0;
    while k < statuses.len()
        invariant
            k <= statuses@.len(),
            forall|j: int| 0 <= j < k ==> !((#[trigger] statuses@[j]).subtask_id@ == subtask_id@ && statuses@[j].artifact_digest@ == digest@),
        decreases statuses@.len() - k,
    {
        if str_eq(statuses[k].subtask_id.as_str(), subtask_id) && str_eq(statuses[k].artifact_digest.as_str(), digest) {
            return true;
        }
        k = k + 1;
    }
    false
}

fn is_direct_target(s: &SubtaskView, items: &Vec<ReadyQueueItem>) -> (r: bool)
    ensures
        r == direct_target(*s, items@),
{
    if s.state() != SubtaskState::Applied {
        return false;
    }
    match s.artifact_digest() {
        Some(d) => !item_for_artifact(items, s.subtask_id(), d.as_str()),
        None => false,
    }
}

/// Direct-applied artifacts with no archive status.
pub open spec fn direct_fn(items: Seq<ReadyQueueItem>, statuses: Seq<OpenSpecArchiveStatus>) -> spec_fn(SubtaskView) -> Option<BlockerView> {
    |s: SubtaskView|
        if direct_target(s, items) && !archived_artifact(statuses, s.subtask_id_spec(), s.lifecycle_spec().artifact_digest->0@) {
            Some(direct_applied_unarchived_view(s))
        } else {
            None
        }
}

fn append_direct(out: &mut Vec<OpenSpecCurrentWorkBlocker>, subtasks: &Vec<SubtaskView>, items: &Vec<ReadyQueueItem>, statuses: &Vec<OpenSpecArchiveStatus>)
    ensures
        blocker_views(final(out)@) == blocker_views(old(out)@) + subtasks@.filter_map(direct_fn(items@, statuses@)),
{
    let ghost start = blocker_views(out@);
    let mut i: usize = 0;
    while i < subtasks.len()
        invariant
            i <= subtasks@.len(),
            blocker_views(out@) == start + subtasks@.take(i as int).filter_map(direct_fn(items@, statuses@)),
        decreases subtasks@.len() - i,
    {
        let ghost before = blocker_views(out@);
        let s = &subtasks[i];
        if is_direct_target(s, items) {
            let archived = match s.artifact_digest() {
                Some(d) => status_for_artifact(statuses, s.subtask_id(), d.as_str()),
                None => false,
            };
            if !archived {
                let b = OpenSpecCurrentWorkBlocker::direct_applied_unarchived(s);
                proof { lemma_push_view(out@, b); }
                out.push(b);
            }
        }
        proof { lemma_part_step(start, subtasks@, direct_fn(items@, statuses@), i as int, before, blocker_views(out@)); }
        i = i + 1;
    }
    assert(subtasks@.take(subtasks@.len() as int) =~= subtasks@);
}

/// Whether a subtask state stops the work packet until repaired.
pub open spec fn blocking_state(st: SubtaskState) -> bool {
    st == SubtaskState::Blocked || st == SubtaskState::ChangesRequested || st == SubtaskState::Abandoned
}

/// Blocked subtasks that no repair follow-up replaced.
pub open spec fn subtask_blocked_fn(repaired: Seq<String>) -> spec_fn(SubtaskView) -> Option<BlockerView> {
    |s: SubtaskView|
        if blocking_state(s.lifecycle_spec().state) && !has_text(repaired, s.subtask_id_spec()) {
            Some(subtask_blocked_view(s))
        } else {
            None
        }
}

fn append_subtask_blocked(out: &mut Vec<OpenSpecCurrentWorkBlocker>, subtasks: &Vec<SubtaskView>, repaired: &Vec<String>)
    ensures
        blocker_views(final(out)@) == blocker_views(old(out)@) + subtasks@.filter_map(subtask_blocked_fn(repaired@)),
{
    let ghost start = blocker_views(out@);
    let mut i: usize = 0;
    while i < subtasks.len()
        invariant
            i <= subtasks@.len(),
            blocker_views(out@) == start + subtasks@.take(i as int).filter_map(subtask_blocked_fn(repaired@)),
        decreases subtasks@.len() - i,
    {
        let ghost before = blocker_views(out@);
        let s = &subtasks[i];
        let st = s.state();
        if (st == SubtaskState::Blocked || st == SubtaskState::ChangesRequested || st == SubtaskState::Abandoned)
            && !contains_text(repaired, s.subtask_id()) {
            let b = OpenSpecCurrentWorkBlocker::subtask_blocked(s);
            proof { lemma_push_view(out@, b); }
            out.push(b);
        }
        proof { lemma_part_step(start, subtasks@, subtask_blocked_fn(repaired@), i as int, before, blocker_views(out@)); }
        i = i + 1;
    }
    assert(subtasks@.take(subtasks@.len() as int) =~= subtasks@);
}

/// Durable operator blockers.
pub open spec fn operator_fn() -> spec_fn(OperatorBlocker) -> Option<BlockerView> {
    |b: OperatorBlocker| Some(operator_blocked_view(b))
}

fn append_operator(out: &mut Vec<OpenSpecCurrentWorkBlocker>, blockers: &Vec<OperatorBlocker>)
    ensures
        blocker_views(final(out)@) == blocker_views(old(out)@) + blockers@.filter_map(operator_fn()),
{
    let ghost start = blocker_views(out@);
    let mut i: usize = 0;
    while i < blockers.len()
        invariant
            i <= blockers@.len(),
            blocker_views(out@) == start + blockers@.take(i as int).filter_map(operator_fn()),
        decreases blockers@.len() - i,
    {
        let ghost before = blocker_views(out@);
        let b = OpenSpecCurrentWorkBlocker::operator_blocked(&blockers[i]);
        proof { lemma_push_view(out@, b); }
        out.push(b);
        proof { lemma_part_step(start, blockers@, operator_fn(), i as int, before, blocker_views(out@)); }
        i = i + 1;
    }
    assert(blockers@.take(blockers@.len() as int) =~= blockers@);
}

/// Held claims whose lease deadline is at or before the lease clock.
pub open spec fn expired_fn(lease_now_ms: i64) -> spec_fn(Claim) -> Option<BlockerView> {
    |c: Claim| if c.lease_deadline <= lease_now_ms {
        Some(expired_claim_view(c, lease_now_ms))
    } else {
        None
    }
}

fn append_expired(out: &mut Vec<OpenSpecCurrentWorkBlocker>, claims: &Vec<Claim>, lease_now_ms: i64)
    ensures
        blocker_views(final(out)@) == blocker_views(old(out)@) + claims@.filter_map(expired_fn(lease_now_ms)),
{
    let ghost start = blocker_views(out@);
    let mut i: usize = 0;
    while i < claims.len()
        invariant
            i <= claims@.len(),
            blocker_views(out@) == start + claims@.take(i as int).filter_map(expired_fn(lease_now_ms)),
        decreases claims@.len() - i,
    {
        let ghost before = blocker_views(out@);
        if claims[i].lease_deadline <= lease_now_ms {
            let b = OpenSpecCurrentWorkBlocker::expired_claim(&claims[i], lease_now_ms);
            proof { lemma_push_view(out@, b); }
            out.push(b);
        }
        proof { lemma_part_step(start, claims@, expired_fn(lease_now_ms), i as int, before, blocker_views(out@)); }
        i = i + 1;
    }
    assert(claims@.take(claims@.len() as int) =~= claims@);
}

/// Whether an expired-claim blocker already names the claim.
pub open spec fn expired_named(prior: Seq<BlockerView>, claim_id: Seq<char>) -> bool {
    exists|k: int| 0 <= k < prior.len() && (#[trigger] prior[k]).claim_id == Some(claim_id)
        && prior[k].kind == OpenSpecCurrentWorkBlockerKind::ExpiredClaim
}

fn names_expired(prior: &Vec<OpenSpecCurrentWorkBlocker>, claim_id: &str) -> (r: bool)
    ensures
        r == expired_named(blocker_views(prior@), claim_id@),
{
    let mut k: usize = 0;
    while k < prior.len()
        invariant
            k <= prior@.len(),
            forall|j: int| 0 <= j < k ==> !((#[trigger] blocker_views(prior@)[j]).claim_id == Some(claim_id@)
                && blocker_views(prior@)[j].kind == OpenSpecCurrentWorkBlockerKind::ExpiredClaim),
        decreases prior@.len() - k,
    {
        let hit = match &prior[k].claim_id {
            Some(c) => str_eq(c.as_str(), claim_id) && prior[k].kind == OpenSpecCurrentWorkBlockerKind::ExpiredClaim,
            None => false,
        };
        assert(blocker_views(prior@)[k as int] == prior@[k as int]@);
        if hit {
            return true;
        }
        k = k + 1;
    }
    false
}

/// Stale claims that no expired-claim blocker already names.
pub open spec fn stale_fn(prior: Seq<BlockerView>) -> spec_fn(OpenSpecCurrentWorkStaleClaim) -> Option<BlockerView> {
    |st: OpenSpecCurrentWorkStaleClaim| if !expired_named(prior, st.claim.claim_id@) {
        Some(stale_claim_view(st))
    } else {
        None
    }
}

fn stale_blockers(prior: &Vec<OpenSpecCurrentWorkBlocker>, stale: &Vec<OpenSpecCurrentWorkStaleClaim>) -> (r: Vec<OpenSpecCurrentWorkBlocker>)
    ensures
        blocker_views(r@) == stale@.filter_map(stale_fn(blocker_views(prior@))),
{
    let mut out: Vec<OpenSpecCurrentWorkBlocker> = Vec::new();
    let ghost start = blocker_views(out@);
    assert(start =~= Seq::<BlockerView>::empty());
    let mut i: usize = 0;
    while i < stale.len()
        invariant
            i <= stale@.len(),
            start == Seq::<BlockerView>::empty(),
            blocker_views(out@) == start + stale@.take(i as int).filter_map(stale_fn(blocker_views(prior@))),
        decreases stale@.len() - i,
    {
        let ghost before = blocker_views(out@);
        if !names_expired(prior, stale[i].claim.claim_id.as_str()) {
            let b = OpenSpecCurrentWorkBlocker::stale_claim(&stale[i]);
            proof { lemma_push_view(out@, b); }
            out.push(b);
        }
        proof { lemma_part_step(start, stale@, stale_fn(blocker_views(prior@)), i as int, before, blocker_views(out@)); }
        i = i + 1;
    }
    assert(stale@.take(stale@.len() as int) =~= stale@);
    assert(start + stale@.filter_map(stale_fn(blocker_views(prior@))) =~= stale@.filter_map(stale_fn(blocker_views(prior@))));
    out
}

/// Whether a workspace blocks the work packet: registered and not clean.
pub open spec fn workspace_blocks(w: VcsWorkspace) -> bool {
    w.state == VcsWorkspaceState::Active && w.last_cleanliness != VcsWorkspaceCleanliness::Clean
}

/// Registered workspaces that are dirty, missing, stale or unusable.
pub open spec fn workspace_fn() -> spec_fn(VcsWorkspace) -> Option<BlockerView> {
    |w: VcsWorkspace| if workspace_blocks(w) {
        Some(workspace_unusable_view(w))
    } else {
        None
    }
}

fn append_workspaces(out: &mut Vec<OpenSpecCurrentWorkBlocker>, workspaces: &Vec<VcsWorkspace>)
    ensures
        blocker_views(final(out)@) == blocker_views(old(out)@) + workspaces@.filter_map(workspace_fn()),
{
    let ghost start = blocker_views(out@);
    let mut i: usize = 0;
    while i < workspaces.len()
        invariant
            i <= workspaces@.len(),
            blocker_views(out@) == start + workspaces@.take(i as int).filter_map(workspace_fn()),
        decreases workspaces@.len() - i,
    {
        let ghost before = blocker_views(out@);
        let w = &workspaces[i];
        if w.state == VcsWorkspaceState::Active && w.last_cleanliness != VcsWorkspaceCleanliness::Clean {
            let b = OpenSpecCurrentWorkBlocker::vcs_workspace_unusable(w);
            proof { lemma_push_view(out@, b); }
            out.push(b);
        }
        proof { lemma_part_step(start, workspaces@, workspace_fn(), i as int, before, blocker_views(out@)); }
        i = i + 1;
    }
    assert(workspaces@.take(workspaces@.len() as int) =~= workspaces@);
}

/// Whether every subtask is applied or was replaced by a repair follow-up.
pub open spec fn all_settled(subtasks: Seq<SubtaskView>, repaired: Seq<String>) -> bool {
    forall|k: int| 0 <= k < subtasks.len() ==> (#[trigger] subtasks[k]).lifecycle_spec().state
        == SubtaskState::Applied || has_text(repaired, subtasks[k].subtask_id_spec())
}

fn every_settled(subtasks: &Vec<SubtaskView>, repaired: &Vec<String>) -> (r: bool)
    ensures
        r == all_settled(subtasks@, repaired@),
{
    let mut k: usize = 0;
    while k < subtasks.len()
        invariant
            k <= subtasks@.len(),
            forall|j: int| 0 <= j < k ==> (#[trigger] subtasks@[j]).lifecycle_spec().state
                == SubtaskState::Applied || has_text(repaired@, subtasks@[j].subtask_id_spec()),
        decreases subtasks@.len() - k,
    {
        if !(subtasks[k].state() == SubtaskState::Applied || contains_text(repaired, subtasks[k].subtask_id())) {
            return false;
        }
        k = k + 1;
    }
    true
}

/// The blockers of a work packet, in order: a missing import when nothing
/// was imported; otherwise, once every subtask is settled, applied items
/// without landing receipts and open archive statuses; apply-gate and
/// settlement evidence; once settled, applied items and direct-applied
/// artifacts without archive status; blocked subtasks that were not
/// repaired; operator blockers; expired claims; stale claims not already
/// expired; and registered workspaces that are not clean.
pub open spec fn blockers_spec(
    change_id: Seq<char>,
    subtasks: Seq<SubtaskView>,
    items: Seq<ReadyQueueItem>,
    statuses: Seq<OpenSpecArchiveStatus>,
    landing_ids: Seq<String>,
    open_archive: Seq<OpenSpecArchiveStatus>,
    apply_gate: Seq<ApplyGateBlocker>,
    settlement: Seq<SettlementReconcileBlocker>,
    operator: Seq<OperatorBlocker>,
    claims: Seq<Claim>,
    repaired: Seq<String>,
    stale: Seq<OpenSpecCurrentWorkStaleClaim>,
    workspaces: Seq<VcsWorkspace>,
    lease_now_ms: i64,
) -> Seq<BlockerView> {
    if subtasks.len() == 0 {
        seq![missing_import_view(change_id)]
    } else {
        let settled = all_settled(subtasks, repaired);
        let p1 = if settled {
            items.filter_map(landing_fn(landing_ids)) + open_archive.filter_map(archive_fn())
        } else {
            Seq::empty()
        };
        let p2 = apply_gate.filter_map(apply_gate_fn(items)) + settlement.filter_map(settlement_fn(items));
        let p3 = if settled {
            items.filter_map(queue_unarchived_fn(statuses)) + subtasks.filter_map(direct_fn(items, statuses))
        } else {
            Seq::empty()
        };
        let prior = p1 + p2 + p3 + subtasks.filter_map(subtask_blocked_fn(repaired)) + operator.filter_map(
            operator_fn(),
        ) + claims.filter_map(expired_fn(lease_now_ms));
        prior + stale.filter_map(stale_fn(prior)) + workspaces.filter_map(workspace_fn())
    }
}

/// Builds the blockers of a work packet.
fn current_work_blockers(
    openspec_change_id: &str,
    subtasks: &Vec<SubtaskView>,
    queue_items: &Vec<ReadyQueueItem>,
    archive_statuses: &Vec<OpenSpecArchiveStatus>,
    landing_receipt_queue_ids: &Vec<String>,
    open_archive_blockers: &Vec<OpenSpecArchiveStatus>,
    apply_gate_blockers: &Vec<ApplyGateBlocker>,
    settlement_reconcile_blockers: &Vec<SettlementReconcileBlocker>,
    operator_blockers: &Vec<OperatorBlocker>,
    active_claims: &Vec<Claim>,
    repaired_source_subtask_ids: &Vec<String>,
    stale_claims: &Vec<OpenSpecCurrentWorkStaleClaim>,
    vcs_workspaces: &Vec<VcsWorkspace>,
    lease_now_ms: i64,
) -> (r: Vec<OpenSpecCurrentWorkBlocker>)
    ensures
        blocker_views(r@) == blockers_spec(
            openspec_change_id@,
            subtasks@,
            queue_items@,
            archive_statuses@,
            landing_receipt_queue_ids@,
            open_archive_blockers@,
            apply_gate_blockers@,
            settlement_reconcile_blockers@,
            operator_blockers@,
            active_claims@,
            repaired_source_subtask_ids@,
            stale_claims@,
            vcs_workspaces@,
            lease_now_ms,
        ),
{
    if subtasks.len() == 0 {
        let r = vec![OpenSpecCurrentWorkBlocker::missing_import(openspec_change_id)];
        assert(blocker_views(r@) =~= seq![missing_import_view(openspec_change_id@)]);
        return r;
    }
    let settled = every_settled(subtasks, repaired_source_subtask_ids);
    let mut blockers: Vec<OpenSpecCurrentWorkBlocker> = Vec::new();
    let ghost v0 = blocker_views(blockers@);
    assert(v0 =~= Seq::<BlockerView>::empty());
    if settled {
        append_landing(&mut blockers, queue_items, landing_receipt_queue_ids);
        append_archive(&mut blockers, open_archive_blockers);
    }
    let ghost v1 = blocker_views(blockers@);
    append_apply_gate(&mut blockers, apply_gate_blockers, queue_items);
    append_settlement(&mut blockers, settlement_reconcile_blockers, queue_items);
    let ghost v2 = blocker_views(blockers@);
    if settled {
        append_queue_unarchived(&mut blockers, queue_items, archive_statuses);
        append_direct(&mut blockers, subtasks, queue_items, archive_statuses);
    }
    let ghost v3 = blocker_views(blockers@);
    append_subtask_blocked(&mut blockers, subtasks, repaired_source_subtask_ids);
    append_operator(&mut blockers, operator_blockers);
    append_expired(&mut blockers, active_claims, lease_now_ms);
    let ghost prior = blocker_views(blockers@);
    let mut stale = stale_blockers(&blockers, stale_claims);
    let ghost stale_seq = stale@;
    let ghost before_append = blockers@;
    blockers.append(&mut stale);
    assert(blocker_views(blockers@) =~= prior + blocker_views(stale_seq)) by {
        assert(blockers@ == before_append + stale_seq);
    }
    append_workspaces(&mut blockers, vcs_workspaces);
    proof {
        let items = queue_items@;
        let p1 = if settled {
            items.filter_map(landing_fn(landing_receipt_queue_ids@)) + open_archive_blockers@.filter_map(archive_fn())
        } else {
            Seq::empty()
        };
        let p2 = apply_gate_blockers@.filter_map(apply_gate_fn(items)) + settlement_reconcile_blockers@.filter_map(
            settlement_fn(items),
        );
        let p3 = if settled {
            items.filter_map(queue_unarchived_fn(archive_statuses@)) + subtasks@.filter_map(
                direct_fn(items, archive_statuses@),
            )
        } else {
            Seq::empty()
        };
        assert(v1 =~= p1);
        assert(v2 =~= p1 + p2);
        assert(v3 =~= p1 + p2 + p3);
        let spec_prior = p1 + p2 + p3 + subtasks@.filter_map(subtask_blocked_fn(repaired_source_subtask_ids@))
            + operator_blockers@.filter_map(operator_fn()) + active_claims@.filter_map(expired_fn(lease_now_ms));
        assert(prior =~= spec_prior);
        assert(blocker_views(blockers@) =~= spec_prior + stale_claims@.filter_map(stale_fn(spec_prior))
            + vcs_workspaces@.filter_map(workspace_fn()));
    }
    blockers
}

// ---------------------------------------------------------------- the projection

/// Whether some queue item is queued or in flight.
pub open spec fn some_item_pending(items: Seq<ReadyQueueItem>) -> bool {
    exists|k: int| 0 <= k < items.len() && ((#[trigger] items[k]).state == ReadyQueueState::Queued
        || items[k].state == ReadyQueueState::InFlight)
}

/// Whether some subtask is approved or ready for apply.
pub open spec fn some_subtask_applying(subtasks: Seq<SubtaskView>) -> bool {
    exists|k: int| 0 <= k < subtasks.len() && ((#[trigger] subtasks[k]).lifecycle_spec().state
        == SubtaskState::Approved || subtasks[k].lifecycle_spec().state == SubtaskState::ReadyForApply)
}

/// Whether some review is requested or in progress.
pub open spec fn some_review_open(reviews: Seq<Review>) -> bool {
    exists|k: int| 0 <= k < reviews.len() && ((#[trigger] reviews[k]).state == ReviewState::Requested
        || reviews[k].state == ReviewState::InProgress)
}

/// Whether some subtask published an artifact or awaits review.
pub open spec fn some_subtask_reviewing(subtasks: Seq<SubtaskView>) -> bool {
    exists|k: int| 0 <= k < subtasks.len() && ((#[trigger] subtasks[k]).lifecycle_spec().state
        == SubtaskState::ArtifactPublished || subtasks[k].lifecycle_spec().state == SubtaskState::ReviewPending)
}

/// Whether some subtask holds a claim or is claimed or in progress.
pub open spec fn some_subtask_claimed(subtasks: Seq<SubtaskView>) -> bool {
    exists|k: int| 0 <= k < subtasks.len() && ((#[trigger] subtasks[k]).lifecycle_spec().active_claim_id is Some
        || subtasks[k].lifecycle_spec().state == SubtaskState::Claimed || subtasks[k].lifecycle_spec().state
        == SubtaskState::InProgress)
}

/// Whether some archive status is archived.
pub open spec fn some_archived(statuses: Seq<OpenSpecArchiveStatus>) -> bool {
    exists|k: int| 0 <= k < statuses.len() && (#[trigger] statuses[k]).state == OpenSpecArchiveStatusState::Archived
}

/// Archived statuses.
pub open spec fn archived_pred() -> spec_fn(OpenSpecArchiveStatus) -> bool {
    |s: OpenSpecArchiveStatus| s.state == OpenSpecArchiveStatusState::Archived
}

/// Applied queue items.
pub open spec fn applied_pred() -> spec_fn(ReadyQueueItem) -> bool {
    |i: ReadyQueueItem| i.state == ReadyQueueState::Applied
}

/// Direct-applied subtasks.
pub open spec fn direct_pred(items: Seq<ReadyQueueItem>) -> spec_fn(SubtaskView) -> bool {
    |s: SubtaskView| direct_target(s, items)
}

/// How many artifacts must be archived: applied queue items and
/// direct-applied subtasks.
pub open spec fn archive_target_count(subtasks: Seq<SubtaskView>, items: Seq<ReadyQueueItem>) -> nat {
    items.filter(applied_pred()).len() + subtasks.filter(direct_pred(items)).len()
}

/// The current-work label: blocked when any blocker stands; archived when
/// every subtask is settled and at least as many archived statuses exist as
/// artifacts to archive; then applying, reviewing, claimed, or imported, by
/// the most advanced step some item or subtask has reached.
pub open spec fn state_spec(
    subtasks: Seq<SubtaskView>,
    reviews: Seq<Review>,
    items: Seq<ReadyQueueItem>,
    statuses: Seq<OpenSpecArchiveStatus>,
    repaired: Seq<String>,
    blocked: bool,
) -> OpenSpecCurrentWorkState {
    if blocked {
        OpenSpecCurrentWorkState::Blocked
    } else if subtasks.len() > 0 && all_settled(subtasks, repaired) && some_archived(statuses)
        && statuses.filter(archived_pred()).len() >= archive_target_count(subtasks, items) {
        OpenSpecCurrentWorkState::Archived
    } else if some_item_pending(items) || some_subtask_applying(subtasks) {
        OpenSpecCurrentWorkState::Applying
    } else if some_review_open(reviews) || some_subtask_reviewing(subtasks) {
        OpenSpecCurrentWorkState::Reviewing
    } else if some_subtask_claimed(subtasks) {
        OpenSpecCurrentWorkState::Claimed
    } else {
        OpenSpecCurrentWorkState::Imported
    }
}

/// Who moves next: the owner of the first blocker, else the owner of the
/// label.
pub open spec fn next_owner_spec(state: OpenSpecCurrentWorkState, blockers: Seq<BlockerView>) -> OpenSpecCurrentWorkOwner {
    if blockers.len() > 0 {
        blockers[0].owner
    } else {
        match state {
            OpenSpecCurrentWorkState::Imported => OpenSpecCurrentWorkOwner::Executor,
            OpenSpecCurrentWorkState::Claimed => OpenSpecCurrentWorkOwner::Executor,
            OpenSpecCurrentWorkState::Reviewing => OpenSpecCurrentWorkOwner::Reviewer,
            OpenSpecCurrentWorkState::Applying => OpenSpecCurrentWorkOwner::ApplyGate,
            OpenSpecCurrentWorkState::Archived => OpenSpecCurrentWorkOwner::Operator,
            OpenSpecCurrentWorkState::Blocked => OpenSpecCurrentWorkOwner::Operator,
        }
    }
}

proof fn lemma_count_step<A>(s: Seq<A>, p: spec_fn(A) -> bool, i: int)
    requires
        0 <= i < s.len(),
    ensures
        s.take(i + 1).filter(p).len() == s.take(i).filter(p).len() + (if p(s[i]) {
            1int
        } else {
            0int
        }),
        s.take(i + 1).filter(p).len() <= i + 1,
{
    assert(s.take(i + 1) =~= s.take(i).push(s[i]));
    s.take(i).lemma_filter_push(s[i], p);
    s.take(i + 1).lemma_filter_len(p);
}

fn count_archived(statuses: &Vec<OpenSpecArchiveStatus>) -> (r: usize)
    ensures
        r == statuses@.filter(archived_pred()).len(),
{
    let mut n: usize = 0;
    let mut i: usize = 0;
    assert(statuses@.take(0).filter(archived_pred()) =~= Seq::<OpenSpecArchiveStatus>::empty()) by {
        reveal(Seq::filter);
    }
    while i < statuses.len()
        invariant
            i <= statuses@.len(),
            n == statuses@.take(i as int).filter(archived_pred()).len(),
            n <= i,
        decreases statuses@.len() - i,
    {
        proof { lemma_count_step(statuses@, archived_pred(), i as int); }
        if statuses[i].state == OpenSpecArchiveStatusState::Archived {
            n = n + 1;
        }
        i = i + 1;
    }
    assert(statuses@.take(statuses@.len() as int) =~= statuses@);
    n
}

fn count_applied(items: &Vec<ReadyQueueItem>) -> (r: usize)
    ensures
        r == items@.filter(applied_pred()).len(),
{
    let mut n: usize = 0;
    let mut i: usize = 0;
    assert(items@.take(0).filter(applied_pred()) =~= Seq::<ReadyQueueItem>::empty()) by {
        reveal(Seq::filter);
    }
    while i < items.len()
        invariant
            i <= items@.len(),
            n == items@.take(i as int).filter(applied_pred()).len(),
            n <= i,
        decreases items@.len() - i,
    {
        proof { lemma_count_step(items@, applied_pred(), i as int); }
        if items[i].state == ReadyQueueState::Applied {
            n = n + 1;
        }
        i = i + 1;
    }
    assert(items@.take(items@.len() as int) =~= items@);
    n
}

fn count_direct(subtasks: &Vec<SubtaskView>, items: &Vec<ReadyQueueItem>) -> (r: usize)
    ensures
        r == subtasks@.filter(direct_pred(items@)).len(),
{
    let mut n: usize = 0;
    let mut i: usize = 0;
    assert(subtasks@.take(0).filter(direct_pred(items@)) =~= Seq::<SubtaskView>::empty()) by {
        reveal(Seq::filter);
    }
    while i < subtasks.len()
        invariant
            i <= subtasks@.len(),
            n == subtasks@.take(i as int).filter(direct_pred(items@)).len(),
            n <= i,
        decreases subtasks@.len() - i,
    {
        proof { lemma_count_step(subtasks@, direct_pred(items@), i as int); }
        if is_direct_target(&subtasks[i], items) {
            n = n + 1;
        }
        i = i + 1;
    }
    assert(subtasks@.take(subtasks@.len() as int) =~= subtasks@);
    n
}

fn any_archived(statuses: &Vec<OpenSpecArchiveStatus>) -> (r: bool)
    ensures
        r == some_archived(statuses@),
{
    let mut k: usize = 0;
    while k < statuses.len()
        invariant
            k <= statuses@.len(),
            forall|j: int| 0 <= j < k ==> (#[trigger] statuses@[j]).state != OpenSpecArchiveStatusState::Archived,
        decreases statuses@.len() - k,
    {
        if statuses[k].state == OpenSpecArchiveStatusState::Archived {
            assert(statuses@[k as int].state == OpenSpecArchiveStatusState::Archived);
            return true;
        }
        k = k + 1;
    }
    false
}

fn any_item_pending(items: &Vec<ReadyQueueItem>) -> (r: bool)
    ensures
        r == some_item_pending(items@),
{
    let mut k: usize = 0;
    while k < items.len()
        invariant
            k <= items@.len(),
            forall|j: int| 0 <= j < k ==> (#[trigger] items@[j]).state != ReadyQueueState::Queued
                && items@[j].state != ReadyQueueState::InFlight,
        decreases items@.len() - k,
    {
        if items[k].state == ReadyQueueState::Queued || items[k].state == ReadyQueueState::InFlight {
            assert(items@[k as int].state == items[k as int].state);
            return true;
        }
        k = k + 1;
    }
    false
}

fn any_review_open(reviews: &Vec<Review>) -> (r: bool)
    ensures
        r == some_review_open(reviews@),
{
    let mut k: usize = 0;
    while k < reviews.len()
        invariant
            k <= reviews@.len(),
            forall|j: int| 0 <= j < k ==> (#[trigger] reviews@[j]).state != ReviewState::Requested
                && reviews@[j].state != ReviewState::InProgress,
        decreases reviews@.len() - k,
    {
        if reviews[k].state == ReviewState::Requested || reviews[k].state == ReviewState::InProgress {
            assert(reviews@[k as int].state == reviews[k as int].state);
            return true;
        }
        k = k + 1;
    }
    false
}

fn subtasks_applying(subtasks: &Vec<SubtaskView>) -> (r: bool)
    ensures
        r == some_subtask_applying(subtasks@),
{
    let mut k: usize = 0;
    while k < subtasks.len()
        invariant
            k <= subtasks@.len(),
            forall|j: int| 0 <= j < k ==> (#[trigger] subtasks@[j]).lifecycle_spec().state != SubtaskState::Approved
                && subtasks@[j].lifecycle_spec().state != SubtaskState::ReadyForApply,
        decreases subtasks@.len() - k,
    {
        let st = subtasks[k].state();
        if st == SubtaskState::Approved || st == SubtaskState::ReadyForApply {
            assert(subtasks@[k as int].lifecycle_spec().state == st);
            return true;
        }
        k = k + 1;
    }
    false
}

fn subtasks_reviewing(subtasks: &Vec<SubtaskView>) -> (r: bool)
    ensures
        r == some_subtask_reviewing(subtasks@),
{
    let mut k: usize = 0;
    while k < subtasks.len()
        invariant
            k <= subtasks@.len(),
            forall|j: int| 0 <= j < k ==> (#[trigger] subtasks@[j]).lifecycle_spec().state
                != SubtaskState::ArtifactPublished && subtasks@[j].lifecycle_spec().state != SubtaskState::ReviewPending,
        decreases subtasks@.len() - k,
    {
        let st = subtasks[k].state();
        if st == SubtaskState::ArtifactPublished || st == SubtaskState::ReviewPending {
            assert(subtasks@[k as int].lifecycle_spec().state == st);
            return true;
        }
        k = k + 1;
    }
    false
}

fn subtasks_claimed(subtasks: &Vec<SubtaskView>) -> (r: bool)
    ensures
        r == some_subtask_claimed(subtasks@),
{
    let mut k: usize = 0;
    while k < subtasks.len()
        invariant
            k <= subtasks@.len(),
            forall|j: int| 0 <= j < k ==> !((#[trigger] subtasks@[j]).lifecycle_spec().active_claim_id is Some
                || subtasks@[j].lifecycle_spec().state == SubtaskState::Claimed
                || subtasks@[j].lifecycle_spec().state == SubtaskState::InProgress),
        decreases subtasks@.len() - k,
    {
        let st = subtasks[k].state();
        if subtasks[k].active_claim_id().is_some() || st == SubtaskState::Claimed || st == SubtaskState::InProgress {
            assert(subtasks@[k as int].lifecycle_spec().state == st);
            return true;
        }
        k = k + 1;
    }
    false
}

fn current_work_state(
    subtasks: &Vec<SubtaskView>,
    reviews: &Vec<Review>,
    queue_items: &Vec<ReadyQueueItem>,
    archive_statuses: &Vec<OpenSpecArchiveStatus>,
    repaired: &Vec<String>,
    blocked: bool,
) -> (r: OpenSpecCurrentWorkState)
    ensures
        r == state_spec(subtasks@, reviews@, queue_items@, archive_statuses@, repaired@, blocked),
{
    if blocked {
        return OpenSpecCurrentWorkState::Blocked;
    }
    if subtasks.len() > 0 && every_settled(subtasks, repaired) && any_archived(archive_statuses) {
        let archived = count_archived(archive_statuses);
        let applied = count_applied(queue_items);
        let direct = count_direct(subtasks, queue_items);
        if archived >= applied && archived - applied >= direct {
            return OpenSpecCurrentWorkState::Archived;
        }
    }
    if any_item_pending(queue_items) || subtasks_applying(subtasks) {
        return OpenSpecCurrentWorkState::Applying;
    }
    if any_review_open(reviews) || subtasks_reviewing(subtasks) {
        return OpenSpecCurrentWorkState::Reviewing;
    }
    if subtasks_claimed(subtasks) {
        return OpenSpecCurrentWorkState::Claimed;
    }
    OpenSpecCurrentWorkState::Imported
}

fn current_work_next_owner(state: OpenSpecCurrentWorkState, blockers: &Vec<OpenSpecCurrentWorkBlocker>) -> (r: OpenSpecCurrentWorkOwner)
    ensures
        r == next_owner_spec(state, blocker_views(blockers@)),
{
    if blockers.len() > 0 {
        assert(blocker_views(blockers@)[0] == blockers@[0]@);
        return blockers[0].owner;
    }
    match state {
        OpenSpecCurrentWorkState::Imported => OpenSpecCurrentWorkOwner::Executor,
        OpenSpecCurrentWorkState::Claimed => OpenSpecCurrentWorkOwner::Executor,
        OpenSpecCurrentWorkState::Reviewing => OpenSpecCurrentWorkOwner::Reviewer,
        OpenSpecCurrentWorkState::Applying => OpenSpecCurrentWorkOwner::ApplyGate,
        OpenSpecCurrentWorkState::Archived => OpenSpecCurrentWorkOwner::Operator,
        OpenSpecCurrentWorkState::Blocked => OpenSpecCurrentWorkOwner::Operator,
    }
}

/// The ids of the subtasks.
pub open spec fn subtask_id_fn() -> spec_fn(SubtaskView) -> Option<Seq<char>> {
    |s: SubtaskView| Some(s.subtask_id_spec())
}

/// The claims the subtasks hold.
pub open spec fn claim_id_fn() -> spec_fn(SubtaskView) -> Option<Seq<char>> {
    |s: SubtaskView| opt_view(s.lifecycle_spec().active_claim_id)
}

/// The artifacts the subtasks carry.
pub open spec fn subtask_digest_fn() -> spec_fn(SubtaskView) -> Option<Seq<char>> {
    |s: SubtaskView| opt_view(s.lifecycle_spec().artifact_digest)
}

/// The ids of the queue items.
pub open spec fn queue_id_fn() -> spec_fn(ReadyQueueItem) -> Option<Seq<char>> {
    |i: ReadyQueueItem| Some(i.queue_id@)
}

/// The artifacts of the queue items.
pub open spec fn item_digest_fn() -> spec_fn(ReadyQueueItem) -> Option<Seq<char>> {
    |i: ReadyQueueItem| Some(i.artifact_digest@)
}

/// The artifacts of the archive statuses.
pub open spec fn status_digest_fn() -> spec_fn(OpenSpecArchiveStatus) -> Option<Seq<char>> {
    |s: OpenSpecArchiveStatus| Some(s.artifact_digest@)
}

/// The ids of the reviews.
pub open spec fn review_id_fn() -> spec_fn(Review) -> Option<Seq<char>> {
    |r: Review| Some(r.review_id@)
}

/// The archive statuses that are still blocked.
pub open spec fn open_status_fn() -> spec_fn(OpenSpecArchiveStatus) -> Option<OpenSpecArchiveStatus> {
    |s: OpenSpecArchiveStatus| if s.state == OpenSpecArchiveStatusState::Blocked {
        Some(s)
    } else {
        None
    }
}

/// Every artifact digest the packet mentions: those of the subtasks, then
/// of the queue items, then of the archive statuses.
pub open spec fn digest_list(
    subtasks: Seq<SubtaskView>,
    items: Seq<ReadyQueueItem>,
    statuses: Seq<OpenSpecArchiveStatus>,
) -> Seq<Seq<char>> {
    subtasks.filter_map(subtask_digest_fn()) + items.filter_map(item_digest_fn()) + statuses.filter_map(
        status_digest_fn(),
    )
}

proof fn lemma_text_push(s: Seq<String>, x: String)
    ensures
        views(s.push(x)) == views(s).push(x@),
{
    assert(views(s.push(x)) =~= views(s).push(x@));
}

fn subtask_ids_of(subtasks: &Vec<SubtaskView>) -> (r: Vec<String>)
    ensures
        views(r@) == subtasks@.filter_map(subtask_id_fn()),
{
    let mut out: Vec<String> = Vec::new();
    let ghost start = views(out@);
    assert(start =~= Seq::<Seq<char>>::empty());
    let mut i: usize = 0;
    while i < subtasks.len()
        invariant
            i <= subtasks@.len(),
            start == Seq::<Seq<char>>::empty(),
            views(out@) == start + subtasks@.take(i as int).filter_map(subtask_id_fn()),
        decreases subtasks@.len() - i,
    {
        let ghost before = views(out@);
        let x = owned(subtasks[i].subtask_id());
        proof { lemma_text_push(out@, x); }
        out.push(x);
        proof { lemma_part_step(start, subtasks@, subtask_id_fn(), i as int, before, views(out@)); }
        i = i + 1;
    }
    assert(subtasks@.take(subtasks@.len() as int) =~= subtasks@);
    assert(start + subtasks@.filter_map(subtask_id_fn()) =~= subtasks@.filter_map(subtask_id_fn()));
    out
}

fn claim_ids_of(subtasks: &Vec<SubtaskView>) -> (r: Vec<String>)
    ensures
        views(r@) == subtasks@.filter_map(claim_id_fn()),
{
    let mut out: Vec<String> = Vec::new();
    let ghost start = views(out@);
    assert(start =~= Seq::<Seq<char>>::empty());
    let mut i: usize = 0;
    while i < subtasks.len()
        invariant
            i <= subtasks@.len(),
            start == Seq::<Seq<char>>::empty(),
            views(out@) == start + subtasks@.take(i as int).filter_map(claim_id_fn()),
        decreases subtasks@.len() - i,
    {
        let ghost before = views(out@);
        match subtasks[i].active_claim_id() {
            Some(c) => {
                let x = c.clone();
                proof { lemma_text_push(out@, x); }
                out.push(x);
            },
            None => {},
        }
        proof { lemma_part_step(start, subtasks@, claim_id_fn(), i as int, before, views(out@)); }
        i = i + 1;
    }
    assert(subtasks@.take(subtasks@.len() as int) =~= subtasks@);
    assert(start + subtasks@.filter_map(claim_id_fn()) =~= subtasks@.filter_map(claim_id_fn()));
    out
}

fn queue_ids_of(items: &Vec<ReadyQueueItem>) -> (r: Vec<String>)
    ensures
        views(r@) == items@.filter_map(queue_id_fn()),
{
    let mut out: Vec<String> = Vec::new();
    let ghost start = views(out@);
    assert(start =~= Seq::<Seq<char>>::empty());
    let mut i: usize = 0;
    while i < items.len()
        invariant
            i <= items@.len(),
            start == Seq::<Seq<char>>::empty(),
            views(out@) == start + items@.take(i as int).filter_map(queue_id_fn()),
        decreases items@.len() - i,
    {
        let ghost before = views(out@);
        let x = items[i].queue_id.clone();
        proof { lemma_text_push(out@, x); }
        out.push(x);
        proof { lemma_part_step(start, items@, queue_id_fn(), i as int, before, views(out@)); }
        i = i + 1;
    }
    assert(items@.take(items@.len() as int) =~= items@);
    assert(start + items@.filter_map(queue_id_fn()) =~= items@.filter_map(queue_id_fn()));
    out
}

fn review_ids_of(reviews: &Vec<Review>) -> (r: Vec<String>)
    ensures
        views(r@) == reviews@.filter_map(review_id_fn()),
{
    let mut out: Vec<String> = Vec::new();
    let ghost start = views(out@);
    assert(start =~= Seq::<Seq<char>>::empty());
    let mut i: usize = 0;
    while i < reviews.len()
        invariant
            i <= reviews@.len(),
            start == Seq::<Seq<char>>::empty(),
            views(out@) == start + reviews@.take(i as int).filter_map(review_id_fn()),
        decreases reviews@.len() - i,
    {
        let ghost before = views(out@);
        let x = reviews[i].review_id.clone();
        proof { lemma_text_push(out@, x); }
        out.push(x);
        proof { lemma_part_step(start, reviews@, review_id_fn(), i as int, before, views(out@)); }
        i = i + 1;
    }
    assert(reviews@.take(reviews@.len() as int) =~= reviews@);
    assert(start + reviews@.filter_map(review_id_fn()) =~= reviews@.filter_map(review_id_fn()));
    out
}

fn open_statuses(statuses: &Vec<OpenSpecArchiveStatus>) -> (r: Vec<OpenSpecArchiveStatus>)
    ensures
        r@ == statuses@.filter_map(open_status_fn()),
{
    let mut out: Vec<OpenSpecArchiveStatus> = Vec::new();
    let ghost start = out@;
    assert(start =~= Seq::<OpenSpecArchiveStatus>::empty());
    let mut i: usize = 0;
    while i < statuses.len()
        invariant
            i <= statuses@.len(),
            start == Seq::<OpenSpecArchiveStatus>::empty(),
            out@ == start + statuses@.take(i as int).filter_map(open_status_fn()),
        decreases statuses@.len() - i,
    {
        let ghost before = out@;
        if statuses[i].state == OpenSpecArchiveStatusState::Blocked {
            out.push(statuses[i].clone());
        }
        proof { lemma_part_step(start, statuses@, open_status_fn(), i as int, before, out@); }
        i = i + 1;
    }
    assert(statuses@.take(statuses@.len() as int) =~= statuses@);
    assert(start + statuses@.filter_map(open_status_fn()) =~= statuses@.filter_map(open_status_fn()));
    out
}

fn collect_digests(
    subtasks: &Vec<SubtaskView>,
    items: &Vec<ReadyQueueItem>,
    statuses: &Vec<OpenSpecArchiveStatus>,
) -> (r: Vec<String>)
    ensures
        views(r@) == digest_list(subtasks@, items@, statuses@),
{
    let mut out: Vec<String> = Vec::new();
    let ghost start = views(out@);
    assert(start =~= Seq::<Seq<char>>::empty());
    let mut i: usize = 0;
    while i < subtasks.len()
        invariant
            i <= subtasks@.len(),
            start == Seq::<Seq<char>>::empty(),
            views(out@) == start + subtasks@.take(i as int).filter_map(subtask_digest_fn()),
        decreases subtasks@.len() - i,
    {
        let ghost before = views(out@);
        match subtasks[i].artifact_digest() {
            Some(d) => {
                let x = d.clone();
                proof { lemma_text_push(out@, x); }
                out.push(x);
            },
            None => {},
        }
        proof { lemma_part_step(start, subtasks@, subtask_digest_fn(), i as int, before, views(out@)); }
        i = i + 1;
    }
    assert(subtasks@.take(subtasks@.len() as int) =~= subtasks@);
    let ghost mid = views(out@);
    let mut i: usize = 0;
    while i < items.len()
        invariant
            i <= items@.len(),
            views(out@) == mid + items@.take(i as int).filter_map(item_digest_fn()),
        decreases items@.len() - i,
    {
        let ghost before = views(out@);
        let x = items[i].artifact_digest.clone();
        proof { lemma_text_push(out@, x); }
        out.push(x);
        proof { lemma_part_step(mid, items@, item_digest_fn(), i as int, before, views(out@)); }
        i = i + 1;
    }
    assert(items@.take(items@.len() as int) =~= items@);
    let ghost mid2 = views(out@);
    let mut i: usize = 0;
    while i < statuses.len()
        invariant
            i <= statuses@.len(),
            views(out@) == mid2 + statuses@.take(i as int).filter_map(status_digest_fn()),
        decreases statuses@.len() - i,
    {
        let ghost before = views(out@);
        let x = statuses[i].artifact_digest.clone();
        proof { lemma_text_push(out@, x); }
        out.push(x);
        proof { lemma_part_step(mid2, statuses@, status_digest_fn(), i as int, before, views(out@)); }
        i = i + 1;
    }
    assert(statuses@.take(statuses@.len() as int) =~= statuses@);
    assert(views(out@) =~= digest_list(subtasks@, items@, statuses@));
    out
}

/// Current-work projection of one OpenSpec work packet.
#[derive(Debug)]
pub struct OpenSpecCurrentWork {
    pub openspec_change_id: String,
    pub state: OpenSpecCurrentWorkState,
    pub next_owner: OpenSpecCurrentWorkOwner,
    pub subtask_ids: Vec<String>,
    pub claim_ids: Vec<String>,
    pub queue_ids: Vec<String>,
    pub artifact_digests: Vec<String>,
    pub review_ids: Vec<String>,
    pub vcs_workspaces: Vec<VcsWorkspace>,
    pub archive_blockers: Vec<OpenSpecArchiveStatus>,
    pub blockers: Vec<OpenSpecCurrentWorkBlocker>,
}

impl OpenSpecCurrentWork {
    /// Builds the projection from the packet's lifecycle facts.
    pub fn from_parts(
        openspec_change_id: String,
        subtasks: Vec<SubtaskView>,
        reviews: Vec<Review>,
        queue_items: Vec<ReadyQueueItem>,
        archive_statuses: Vec<OpenSpecArchiveStatus>,
        landing_receipt_queue_ids: Vec<String>,
        apply_gate_blockers: Vec<ApplyGateBlocker>,
        settlement_reconcile_blockers: Vec<SettlementReconcileBlocker>,
        operator_blockers: Vec<OperatorBlocker>,
        active_claims: Vec<Claim>,
        repaired_source_subtask_ids: Vec<String>,
        stale_claims: Vec<OpenSpecCurrentWorkStaleClaim>,
        vcs_workspaces: Vec<VcsWorkspace>,
        lease_now_ms: i64,
    ) -> (r: Self)
        ensures
            r.openspec_change_id == openspec_change_id,
            r.archive_blockers@ == archive_statuses@.filter_map(open_status_fn()),
            blocker_views(r.blockers@) == blockers_spec(
                openspec_change_id@,
                subtasks@,
                queue_items@,
                archive_statuses@,
                landing_receipt_queue_ids@,
                archive_statuses@.filter_map(open_status_fn()),
                apply_gate_blockers@,
                settlement_reconcile_blockers@,
                operator_blockers@,
                active_claims@,
                repaired_source_subtask_ids@,
                stale_claims@,
                vcs_workspaces@,
                lease_now_ms,
            ),
            r.state == state_spec(
                subtasks@,
                reviews@,
                queue_items@,
                archive_statuses@,
                repaired_source_subtask_ids@,
                r.blockers@.len() > 0,
            ),
            r.next_owner == next_owner_spec(r.state, blocker_views(r.blockers@)),
            views(r.subtask_ids@) == subtasks@.filter_map(subtask_id_fn()),
            views(r.claim_ids@) == subtasks@.filter_map(claim_id_fn()),
            views(r.queue_ids@) == queue_items@.filter_map(queue_id_fn()),
            views(r.review_ids@) == reviews@.filter_map(review_id_fn()),
            strictly_sorted(views(r.artifact_digests@)),
            forall|x: Seq<char>| views(r.artifact_digests@).contains(x) <==> digest_list(
                subtasks@,
                queue_items@,
                archive_statuses@,
            ).contains(x),
            r.vcs_workspaces == vcs_workspaces,
    {
        let open_archive_blockers = open_statuses(&archive_statuses);
        let blockers = current_work_blockers(
            openspec_change_id.as_str(),
            &subtasks,
            &queue_items,
            &archive_statuses,
            &landing_receipt_queue_ids,
            &open_archive_blockers,
            &apply_gate_blockers,
            &settlement_reconcile_blockers,
            &operator_blockers,
            &active_claims,
            &repaired_source_subtask_ids,
            &stale_claims,
            &vcs_workspaces,
            lease_now_ms,
        );
        let state = current_work_state(
            &subtasks,
            &reviews,
            &queue_items,
            &archive_statuses,
            &repaired_source_subtask_ids,
            blockers.len() > 0,
        );
        let next_owner = current_work_next_owner(state, &blockers);
        let mut artifact_digests = collect_digests(&subtasks, &queue_items, &archive_statuses);
        sort_dedup_strings(&mut artifact_digests);
        OpenSpecCurrentWork {
            openspec_change_id,
            state,
            next_owner,
            subtask_ids: subtask_ids_of(&subtasks),
            claim_ids: claim_ids_of(&subtasks),
            queue_ids: queue_ids_of(&queue_items),
            artifact_digests,
            review_ids: review_ids_of(&reviews),
            vcs_workspaces,
            archive_blockers: open_archive_blockers,
            blockers,
        }
    }
}

/// A blocker looked up by id, with the projection it belongs to.
#[derive(Debug)]
pub struct OpenSpecCurrentWorkBlockerResolution {
    pub openspec_change_id: String,
    pub current_work: OpenSpecCurrentWork,
    pub blocker: OpenSpecCurrentWorkBlocker,
}

// ---------------------------------------------------------------- resolving blockers by id

/// Where a blocker id can be looked up.
#[derive(Debug)]
pub enum CurrentWorkBlockerRoute {
    /// The id is not a blocker id.
    NotFound,
    /// A missing-import blocker of the named change.
    Change { change_id: String },
    /// A blocker of the named durable operator blocker.
    OperatorBlocker { operator_blocker_id: String },
    /// Any known change may hold the blocker.
    AnyChange,
}

/// The route of a blocker id.
pub open spec fn route_of(id: Seq<char>) -> (Option<Seq<char>>, Option<Seq<char>>, bool) {
    let mi = "blocker_openspec_current_work_missing_import_"@;
    let ob = "blocker_openspec_current_work_operator_blocked_"@;
    if !crate::text::starts_with(id, "blocker_"@) {
        (None, None, false)
    } else if crate::text::starts_with(id, mi) && id.len() > mi.len() {
        (Some(id.skip(mi.len() as int)), None, false)
    } else if crate::text::starts_with(id, ob) && id.len() > ob.len() {
        (None, Some(id.skip(ob.len() as int)), false)
    } else {
        (None, None, true)
    }
}

/// The route as a value.
pub open spec fn route_matches(r: CurrentWorkBlockerRoute, id: Seq<char>) -> bool {
    match r {
        CurrentWorkBlockerRoute::NotFound => route_of(id) == (None::<Seq<char>>, None::<Seq<char>>, false),
        CurrentWorkBlockerRoute::Change { change_id } => route_of(id).0 == Some(change_id@),
        CurrentWorkBlockerRoute::OperatorBlocker { operator_blocker_id } => route_of(id).1 == Some(operator_blocker_id@),
        CurrentWorkBlockerRoute::AnyChange => route_of(id).2,
    }
}

fn strip_prefix_text(c: &Vec<char>, prefix: &str) -> (r: Option<String>)
    ensures
        match r {
            Some(rest) => crate::text::starts_with(c@, prefix@) && c@.len() > prefix@.len()
                && rest@ == c@.skip(prefix@.len() as int),
            None => !(crate::text::starts_with(c@, prefix@) && c@.len() > prefix@.len()),
        },
{
    let p = chars_of(prefix);
    if crate::text::vec_starts_with(c, prefix) && c.len() > p.len() {
        let rest = crate::text::slice_of(c, p.len(), c.len());
        let r = crate::text::string_of(&rest);
        proof {
            assert(rest@ =~= c@.skip(prefix@.len() as int));
        }
        Some(r)
    } else {
        None
    }
}

/// Decides where to look up a blocker id: ids without the `blocker_`
/// prefix are unknown; missing-import ids name their change; operator
/// blocker ids name their durable row; any other id is searched in every
/// known change.
pub fn route_blocker_id(blocker_id: &str) -> (r: CurrentWorkBlockerRoute)
    ensures
        route_matches(r, blocker_id@),
{
    let c = chars_of(blocker_id);
    if !crate::text::vec_starts_with(&c, "blocker_") {
        return CurrentWorkBlockerRoute::NotFound;
    }
    match strip_prefix_text(&c, "blocker_openspec_current_work_missing_import_") {
        Some(change_id) => {
            return CurrentWorkBlockerRoute::Change { change_id };
        },
        None => {},
    }
    match strip_prefix_text(&c, "blocker_openspec_current_work_operator_blocked_") {
        Some(operator_blocker_id) => CurrentWorkBlockerRoute::OperatorBlocker { operator_blocker_id },
        None => CurrentWorkBlockerRoute::AnyChange,
    }
}

/// A copy of a playbook.
fn clone_playbook(p: &OpenSpecCurrentWorkRepairPlaybook) -> (r: OpenSpecCurrentWorkRepairPlaybook)
    ensures
        r@ == p@,
{
    OpenSpecCurrentWorkRepairPlaybook {
        repair_action: p.repair_action,
        repair_safety: p.repair_safety,
        required_evidence_id: p.required_evidence_id.clone(),
        expected_postcondition: p.expected_postcondition.clone(),
        rollback_retry_note: p.rollback_retry_note.clone(),
        repair_command: opt_text(&p.repair_command),
    }
}

/// A copy of a blocker.
pub fn clone_blocker(b: &OpenSpecCurrentWorkBlocker) -> (r: OpenSpecCurrentWorkBlocker)
    ensures
        r@ == b@,
{
    OpenSpecCurrentWorkBlocker {
        blocker_id: b.blocker_id.clone(),
        evidence_id: b.evidence_id.clone(),
        kind: b.kind,
        owner: b.owner,
        allowed_repairs: crate::model::clone_strings(&b.allowed_repairs),
        repair_playbook: clone_playbook(&b.repair_playbook),
        subtask_id: opt_text(&b.subtask_id),
        claim_id: opt_text(&b.claim_id),
        queue_id: opt_text(&b.queue_id),
        artifact_digest: opt_text(&b.artifact_digest),
        review_id: opt_text(&b.review_id),
        reason: b.reason.clone(),
    }
}

/// Whether blocker `k` is the first with the given id.
pub open spec fn first_blocker_with_id(blockers: Seq<OpenSpecCurrentWorkBlocker>, id: Seq<char>, k: int) -> bool {
    &&& 0 <= k < blockers.len()
    &&& blockers[k].blocker_id@ == id
    &&& forall|j: int| 0 <= j < k ==> (#[trigger] blockers[j]).blocker_id@ != id
}

/// Looks a blocker up by id in one projection.
pub fn resolve_blocker_in(current_work: OpenSpecCurrentWork, blocker_id: &str) -> (r: Result<OpenSpecCurrentWorkBlockerResolution, CoveyError>)
    ensures
        r is Ok <==> exists|k: int| 0 <= k < current_work.blockers@.len()
            && (#[trigger] current_work.blockers@[k]).blocker_id@ == blocker_id@,
        r matches Err(e) ==> e matches CoveyError::CurrentWorkBlockerNotFound { blocker_id: b } && b@ == blocker_id@,
        r matches Ok(res) ==> {
            &&& res.openspec_change_id == current_work.openspec_change_id
            &&& res.current_work == current_work
            &&& exists|k: int| first_blocker_with_id(current_work.blockers@, blocker_id@, k)
                && res.blocker@ == current_work.blockers@[k]@
        },
{
    let mut k: usize = 0;
    while k < current_work.blockers.len()
        invariant
            k <= current_work.blockers@.len(),
            forall|j: int| 0 <= j < k ==> (#[trigger] current_work.blockers@[j]).blocker_id@ != blocker_id@,
        decreases current_work.blockers@.len() - k,
    {
        if str_eq(current_work.blockers[k].blocker_id.as_str(), blocker_id) {
            let blocker = clone_blocker(&current_work.blockers[k]);
            assert(first_blocker_with_id(current_work.blockers@, blocker_id@, k as int));
            return Ok(OpenSpecCurrentWorkBlockerResolution {
                openspec_change_id: current_work.openspec_change_id.clone(),
                current_work,
                blocker,
            });
        }
        k = k + 1;
    }
    Err(CoveyError::CurrentWorkBlockerNotFound { blocker_id: blocker_id.to_owned() })
}

/// The single resolution of a search over every change: none is not found,
/// more than one is ambiguous.
pub fn single_resolution(matches: Vec<OpenSpecCurrentWorkBlockerResolution>, blocker_id: &str) -> (r: Result<OpenSpecCurrentWorkBlockerResolution, CoveyError>)
    ensures
        matches@.len() == 0 ==> (r matches Err(CoveyError::CurrentWorkBlockerNotFound { blocker_id: b }) && b@ == blocker_id@),
        matches@.len() == 1 ==> r == Ok::<OpenSpecCurrentWorkBlockerResolution, CoveyError>(matches@[0]),
        matches@.len() > 1 ==> (r matches Err(CoveyError::AmbiguousCurrentWorkBlocker { blocker_id: b }) && b@ == blocker_id@),
{
    let mut matches = matches;
    if matches.len() == 0 {
        Err(CoveyError::CurrentWorkBlockerNotFound { blocker_id: blocker_id.to_owned() })
    } else if matches.len() == 1 {
        Ok(matches.remove(0))
    } else {
        Err(CoveyError::AmbiguousCurrentWorkBlocker { blocker_id: blocker_id.to_owned() })
    }
}

/// The lease clock: the last recorded tick or the wall clock, whichever is
/// later, and never before zero.
pub fn lease_now_ms(last_tick_ms: i64, wall_now_ms: i64) -> (r: i64)
    ensures
        r == crate::status::max_i64(last_tick_ms, crate::status::max_i64(wall_now_ms, 0)),
{
    let wall = if wall_now_ms > 0 { wall_now_ms } else { 0 };
    if last_tick_ms > wall { last_tick_ms } else { wall }
}

/// The stale-claim window: the threshold, never negative, and the update
/// time at or before which a held claim is stale (saturating).
pub fn stale_claim_window(older_than_ms: i64, lease_now_ms: i64) -> (r: (i64, i64))
    ensures
        r.0 == crate::status::max_i64(older_than_ms, 0),
        r.1 == crate::status::saturate_i64(lease_now_ms - r.0),
{
    let threshold: i64 = if older_than_ms > 0 { older_than_ms } else { 0 };
    let cutoff = crate::status::saturating_sub_i64(lease_now_ms, threshold);
    (threshold, cutoff)
}

/// How long a claim has been idle: the lease clock minus the subtask's last
/// update, saturating, and never negative.
pub fn stale_idle_ms(lease_now_ms: i64, updated_at: i64) -> (r: i64)
    ensures
        r == crate::status::max_i64(crate::status::saturate_i64(lease_now_ms - updated_at), 0),
{
    let idle = crate::status::saturating_sub_i64(lease_now_ms, updated_at);
    if idle > 0 { idle } else { 0 }
}

// ---------------------------------------------------------------- prose tasksets

/// The state of one subtask of a prose taskset.
#[derive(Debug)]
pub struct ProseSubtaskStateRow {
    pub subtask_id: String,
    pub state: SubtaskState,
}

/// The state of one apply-queue item of a prose taskset.
#[derive(Debug)]
pub struct ProseQueueStateRow {
    pub queue_id: String,
    pub artifact_digest: String,
    pub state: ReadyQueueState,
}

/// The state of one review of a prose taskset.
#[derive(Debug)]
pub struct ProseReviewStateRow {
    pub review_id: String,
    pub state: ReviewState,
}

/// The label and next owner of a prose taskset: blocked when a blocker
/// stands or a subtask is blocked, abandoned or sent back; applied when
/// every queue item and subtask is applied; then applying, reviewing,
/// claimed, or imported.
pub open spec fn prose_classification(
    subtasks: Seq<ProseSubtaskStateRow>,
    items: Seq<ProseQueueStateRow>,
    reviews: Seq<ProseReviewStateRow>,
    blocker_count: nat,
) -> (ProseCurrentWorkState, ProseCurrentWorkOwner) {
    if blocker_count > 0 || exists|k: int| 0 <= k < subtasks.len() && blocking_state((#[trigger] subtasks[k]).state) {
        (ProseCurrentWorkState::Blocked, ProseCurrentWorkOwner::Operator)
    } else if items.len() > 0 && (forall|k: int| 0 <= k < items.len() ==> (#[trigger] items[k]).state == ReadyQueueState::Applied)
        && (forall|k: int| 0 <= k < subtasks.len() ==> (#[trigger] subtasks[k]).state == SubtaskState::Applied) {
        (ProseCurrentWorkState::Applied, ProseCurrentWorkOwner::Covey)
    } else if (exists|k: int| 0 <= k < items.len() && ((#[trigger] items[k]).state == ReadyQueueState::Queued
        || items[k].state == ReadyQueueState::InFlight)) || (exists|k: int| 0 <= k < subtasks.len()
        && (#[trigger] subtasks[k]).state == SubtaskState::ReadyForApply) {
        (ProseCurrentWorkState::Applying, ProseCurrentWorkOwner::SchedulerApply)
    } else if (exists|k: int| 0 <= k < reviews.len() && (#[trigger] reviews[k]).state != ReviewState::Decided) || (exists|k: int|
        0 <= k < subtasks.len() && ((#[trigger] subtasks[k]).state == SubtaskState::ArtifactPublished
        || subtasks[k].state == SubtaskState::ReviewPending)) {
        (ProseCurrentWorkState::Reviewing, ProseCurrentWorkOwner::Reviewer)
    } else if exists|k: int| 0 <= k < subtasks.len() && ((#[trigger] subtasks[k]).state == SubtaskState::Claimed
        || subtasks[k].state == SubtaskState::InProgress) {
        (ProseCurrentWorkState::Claimed, ProseCurrentWorkOwner::Executor)
    } else {
        (ProseCurrentWorkState::Imported, ProseCurrentWorkOwner::Covey)
    }
}

fn prose_any_subtask(subtasks: &Vec<ProseSubtaskStateRow>, a: SubtaskState, b: SubtaskState, c: SubtaskState) -> (r: bool)
    ensures
        r == exists|k: int| 0 <= k < subtasks@.len() && ((#[trigger] subtasks@[k]).state == a || subtasks@[k].state == b
            || subtasks@[k].state == c),
{
    let mut k: usize = 0;
    while k < subtasks.len()
        invariant
            k <= subtasks@.len(),
            forall|j: int| 0 <= j < k ==> !((#[trigger] subtasks@[j]).state == a || subtasks@[j].state == b
                || subtasks@[j].state == c),
        decreases subtasks@.len() - k,
    {
        let st = subtasks[k].state;
        if st == a || st == b || st == c {
            assert(subtasks@[k as int].state == st);
            return true;
        }
        k = k + 1;
    }
    false
}

fn prose_all_subtasks_applied(subtasks: &Vec<ProseSubtaskStateRow>) -> (r: bool)
    ensures
        r == forall|k: int| 0 <= k < subtasks@.len() ==> (#[trigger] subtasks@[k]).state == SubtaskState::Applied,
{
    let mut k: usize = 0;
    while k < subtasks.len()
        invariant
            k <= subtasks@.len(),
            forall|j: int| 0 <= j < k ==> (#[trigger] subtasks@[j]).state == SubtaskState::Applied,
        decreases subtasks@.len() - k,
    {
        if subtasks[k].state != SubtaskState::Applied {
            assert(subtasks@[k as int].state != SubtaskState::Applied);
            return false;
        }
        k = k + 1;
    }
    true
}

fn prose_all_items_applied(items: &Vec<ProseQueueStateRow>) -> (r: bool)
    ensures
        r == forall|k: int| 0 <= k < items@.len() ==> (#[trigger] items@[k]).state == ReadyQueueState::Applied,
{
    let mut k: usize = 0;
    while k < items.len()
        invariant
            k <= items@.len(),
            forall|j: int| 0 <= j < k ==> (#[trigger] items@[j]).state == ReadyQueueState::Applied,
        decreases items@.len() - k,
    {
        if items[k].state != ReadyQueueState::Applied {
            assert(items@[k as int].state != ReadyQueueState::Applied);
            return false;
        }
        k = k + 1;
    }
    true
}

fn prose_any_item_pending(items: &Vec<ProseQueueStateRow>) -> (r: bool)
    ensures
        r == exists|k: int| 0 <= k < items@.len() && ((#[trigger] items@[k]).state == ReadyQueueState::Queued
            || items@[k].state == ReadyQueueState::InFlight),
{
    let mut k: usize = 0;
    while k < items.len()
        invariant
            k <= items@.len(),
            forall|j: int| 0 <= j < k ==> !((#[trigger] items@[j]).state == ReadyQueueState::Queued
                || items@[j].state == ReadyQueueState::InFlight),
        decreases items@.len() - k,
    {
        let st = items[k].state;
        if st == ReadyQueueState::Queued || st == ReadyQueueState::InFlight {
            assert(items@[k as int].state == st);
            return true;
        }
        k = k + 1;
    }
    false
}

fn prose_any_review_open(reviews: &Vec<ProseReviewStateRow>) -> (r: bool)
    ensures
        r == exists|k: int| 0 <= k < reviews@.len() && (#[trigger] reviews@[k]).state != ReviewState::Decided,
{
    let mut k: usize = 0;
    while k < reviews.len()
        invariant
            k <= reviews@.len(),
            forall|j: int| 0 <= j < k ==> (#[trigger] reviews@[j]).state == ReviewState::Decided,
        decreases reviews@.len() - k,
    {
        if reviews[k].state != ReviewState::Decided {
            assert(reviews@[k as int].state != ReviewState::Decided);
            return true;
        }
        k = k + 1;
    }
    false
}

/// Labels a prose taskset and names who moves next.
pub fn classify_prose_current_work(
    subtasks: &Vec<ProseSubtaskStateRow>,
    queue_items: &Vec<ProseQueueStateRow>,
    reviews: &Vec<ProseReviewStateRow>,
    blockers: &Vec<ProseCurrentWorkBlocker>,
) -> (r: (ProseCurrentWorkState, ProseCurrentWorkOwner))
    ensures
        r == prose_classification(subtasks@, queue_items@, reviews@, blockers@.len()),
{
    if blockers.len() > 0 || prose_any_subtask(
        subtasks,
        SubtaskState::Blocked,
        SubtaskState::Abandoned,
        SubtaskState::ChangesRequested,
    ) {
        return (ProseCurrentWorkState::Blocked, ProseCurrentWorkOwner::Operator);
    }
    if queue_items.len() > 0 && prose_all_items_applied(queue_items) && prose_all_subtasks_applied(subtasks) {
        return (ProseCurrentWorkState::Applied, ProseCurrentWorkOwner::Covey);
    }
    if prose_any_item_pending(queue_items) || prose_any_subtask(
        subtasks,
        SubtaskState::ReadyForApply,
        SubtaskState::ReadyForApply,
        SubtaskState::ReadyForApply,
    ) {
        return (ProseCurrentWorkState::Applying, ProseCurrentWorkOwner::SchedulerApply);
    }
    if prose_any_review_open(reviews) || prose_any_subtask(
        subtasks,
        SubtaskState::ArtifactPublished,
        SubtaskState::ReviewPending,
        SubtaskState::ReviewPending,
    ) {
        return (ProseCurrentWorkState::Reviewing, ProseCurrentWorkOwner::Reviewer);
    }
    if prose_any_subtask(subtasks, SubtaskState::Claimed, SubtaskState::InProgress, SubtaskState::InProgress) {
        return (ProseCurrentWorkState::Claimed, ProseCurrentWorkOwner::Executor);
    }
    (ProseCurrentWorkState::Imported, ProseCurrentWorkOwner::Covey)
}

/// Builds the blocker of one recorded prose apply blocker row, owned by the
/// operator and named by its reason and id.
pub fn prose_blocker_from_row(
    blocker_id: String,
    queue_id: Option<String>,
    artifact_digest: Option<String>,
    review_id: Option<String>,
    reason: &str,
    detail: String,
) -> (r: ProseCurrentWorkBlocker)
    ensures
        r.evidence_id@ == "prose_current_work:"@ + reason@ + ":"@ + blocker_id@,
        r.blocker_id == blocker_id,
        r.owner == ProseCurrentWorkOwner::Operator,
        r.queue_id == queue_id,
        r.artifact_digest == artifact_digest,
        r.review_id == review_id,
        r.reason == detail,
{
    let evidence_id = concat4("prose_current_work:", reason, ":", blocker_id.as_str());
    ProseCurrentWorkBlocker {
        blocker_id,
        evidence_id,
        owner: ProseCurrentWorkOwner::Operator,
        queue_id,
        artifact_digest,
        review_id,
        reason: detail,
    }
}

/// The ids of prose subtasks.
pub open spec fn prose_subtask_id_fn() -> spec_fn(ProseSubtaskStateRow) -> Option<Seq<char>> {
    |r: ProseSubtaskStateRow| Some(r.subtask_id@)
}

/// The ids of prose queue items.
pub open spec fn prose_queue_id_fn() -> spec_fn(ProseQueueStateRow) -> Option<Seq<char>> {
    |r: ProseQueueStateRow| Some(r.queue_id@)
}

/// The artifacts of prose queue items.
pub open spec fn prose_digest_fn() -> spec_fn(ProseQueueStateRow) -> Option<Seq<char>> {
    |r: ProseQueueStateRow| Some(r.artifact_digest@)
}

/// The ids of prose reviews.
pub open spec fn prose_review_id_fn() -> spec_fn(ProseReviewStateRow) -> Option<Seq<char>> {
    |r: ProseReviewStateRow| Some(r.review_id@)
}

fn collect_texts<A>(rows: &Vec<A>, f: Ghost<spec_fn(A) -> Option<Seq<char>>>, get: impl Fn(&A) -> String) -> (r: Vec<String>)
    requires
        forall|a: A| #[trigger] get.requires((&a,)),
        forall|a: A, out: String| #[trigger] get.ensures((&a,), out) ==> f@(a) == Some(out@),
    ensures
        views(r@) == rows@.filter_map(f@),
{
    let mut out: Vec<String> = Vec::new();
    let ghost start = views(out@);
    assert(start =~= Seq::<Seq<char>>::empty());
    let mut i: usize = 0;
    while i < rows.len()
        invariant
            i <= rows@.len(),
            start == Seq::<Seq<char>>::empty(),
            forall|a: A| #[trigger] get.requires((&a,)),
            forall|a: A, out: String| #[trigger] get.ensures((&a,), out) ==> f@(a) == Some(out@),
            views(out@) == start + rows@.take(i as int).filter_map(f@),
        decreases rows@.len() - i,
    {
        let ghost before = views(out@);
        let x = get(&rows[i]);
        proof { lemma_text_push(out@, x); }
        out.push(x);
        proof { lemma_part_step(start, rows@, f@, i as int, before, views(out@)); }
        i = i + 1;
    }
    assert(rows@.take(rows@.len() as int) =~= rows@);
    assert(start + rows@.filter_map(f@) =~= rows@.filter_map(f@));
    out
}

fn prose_subtask_id(r: &ProseSubtaskStateRow) -> (s: String)
    ensures
        s@ == r.subtask_id@,
{
    r.subtask_id.clone()
}

fn prose_queue_id(r: &ProseQueueStateRow) -> (s: String)
    ensures
        s@ == r.queue_id@,
{
    r.queue_id.clone()
}

fn prose_digest(r: &ProseQueueStateRow) -> (s: String)
    ensures
        s@ == r.artifact_digest@,
{
    r.artifact_digest.clone()
}

fn prose_review_id(r: &ProseReviewStateRow) -> (s: String)
    ensures
        s@ == r.review_id@,
{
    r.review_id.clone()
}

impl ProseCurrentWork {
    /// Builds the projection of a prose taskset from its rows: ids in row
    /// order, the distinct artifact digests sorted, and the label.
    pub fn from_rows(
        taskset_id: String,
        meta_task_id: String,
        provenance_tier: String,
        preview_digest: String,
        subtasks: Vec<ProseSubtaskStateRow>,
        queue_items: Vec<ProseQueueStateRow>,
        reviews: Vec<ProseReviewStateRow>,
        blockers: Vec<ProseCurrentWorkBlocker>,
    ) -> (r: Self)
        ensures
            r.taskset_id == taskset_id,
            r.meta_task_id == meta_task_id,
            r.provenance_tier == provenance_tier,
            r.preview_digest == preview_digest,
            (r.state, r.next_owner) == prose_classification(subtasks@, queue_items@, reviews@, blockers@.len()),
            views(r.subtask_ids@) == subtasks@.filter_map(prose_subtask_id_fn()),
            views(r.queue_ids@) == queue_items@.filter_map(prose_queue_id_fn()),
            views(r.review_ids@) == reviews@.filter_map(prose_review_id_fn()),
            strictly_sorted(views(r.artifact_digests@)),
            forall|x: Seq<char>| views(r.artifact_digests@).contains(x) <==> queue_items@.filter_map(prose_digest_fn()).contains(x),
            r.blockers == blockers,
    {
        let (state, next_owner) = classify_prose_current_work(&subtasks, &queue_items, &reviews, &blockers);
        let subtask_ids = collect_texts(&subtasks, Ghost(prose_subtask_id_fn()), prose_subtask_id);
        let queue_ids = collect_texts(&queue_items, Ghost(prose_queue_id_fn()), prose_queue_id);
        let mut artifact_digests = collect_texts(&queue_items, Ghost(prose_digest_fn()), prose_digest);
        sort_dedup_strings(&mut artifact_digests);
        let review_ids = collect_texts(&reviews, Ghost(prose_review_id_fn()), prose_review_id);
        ProseCurrentWork {
            taskset_id,
            meta_task_id,
            provenance_tier,
            preview_digest,
            state,
            next_owner,
            subtask_ids,
            queue_ids,
            artifact_digests,
            review_ids,
            blockers,
        }
    }
}

/// A change whose work is done and archived is labelled archived, with the
/// operator to move next: with nothing blocking, every subtask applied or
/// repaired, some archive status archived, and at least as many archived
/// statuses as applied queue items and directly applied subtasks together.
pub proof fn lemma_settled_and_archived_change_is_archived(
    subtasks: Seq<SubtaskView>,
    reviews: Seq<Review>,
    items: Seq<ReadyQueueItem>,
    statuses: Seq<OpenSpecArchiveStatus>,
    repaired: Seq<String>,
)
    requires
        subtasks.len() > 0,
        forall|k: int| 0 <= k < subtasks.len() ==> (#[trigger] subtasks[k]).lifecycle_spec().state == SubtaskState::Applied
            || (exists|j: int| 0 <= j < repaired.len() && (#[trigger] repaired[j])@ == subtasks[k].subtask_id_spec()),
        exists|k: int| 0 <= k < statuses.len() && (#[trigger] statuses[k]).state == OpenSpecArchiveStatusState::Archived,
        statuses.filter(|s: OpenSpecArchiveStatus| s.state == OpenSpecArchiveStatusState::Archived).len() >= items.filter(
            |i: ReadyQueueItem| i.state == ReadyQueueState::Applied,
        ).len() + subtasks.filter(|s: SubtaskView| direct_target(s, items)).len(),
    ensures
        state_spec(subtasks, reviews, items, statuses, repaired, false) == OpenSpecCurrentWorkState::Archived,
        next_owner_spec(state_spec(subtasks, reviews, items, statuses, repaired, false), Seq::empty())
            == OpenSpecCurrentWorkOwner::Operator,
{
    assert(archived_pred() =~= (|s: OpenSpecArchiveStatus| s.state == OpenSpecArchiveStatusState::Archived));
    assert(applied_pred() =~= (|i: ReadyQueueItem| i.state == ReadyQueueState::Applied));
    assert(direct_pred(items) =~= (|s: SubtaskView| direct_target(s, items)));
    assert(all_settled(subtasks, repaired)) by {
        assert forall|k: int| 0 <= k < subtasks.len() implies (#[trigger] subtasks[k]).lifecycle_spec().state
            == SubtaskState::Applied || has_text(repaired, subtasks[k].subtask_id_spec()) by {
            if subtasks[k].lifecycle_spec().state != SubtaskState::Applied {
                let j = choose|j: int| 0 <= j < repaired.len() && (#[trigger] repaired[j])@ == subtasks[k].subtask_id_spec();
                assert(repaired[j]@ == subtasks[k].subtask_id_spec());
            }
        }
    }
}

} // verus!
