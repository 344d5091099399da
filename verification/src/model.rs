//! Domain records that the read models and decisions are built from:
//! lifecycle states, sessions, claims, reviews, queue items and blockers.
use vstd::prelude::*;

verus! {

/// A copy of an optional text.
pub fn clone_opt(o: &Option<String>) -> (r: Option<String>)
    ensures
        r == *o,
{
    match o {
        Some(s) => Some(s.clone()),
        None => None,
    }
}

/// Equality of two optional texts.
pub fn opt_text_eq(a: &Option<String>, b: &Option<String>) -> (r: bool)
    ensures
        r == (crate::current_work::opt_view(*a) == crate::current_work::opt_view(*b)),
{
    match (a, b) {
        (Some(x), Some(y)) => crate::text::str_eq(x.as_str(), y.as_str()),
        (None, None) => true,
        _ => false,
    }
}

/// A copy of a list of texts.
pub fn clone_strings(v: &Vec<String>) -> (r: Vec<String>)
    ensures
        r@ == v@,
{
    let mut r: Vec<String> = Vec::new();
    let mut i: usize = 0;
    while i < v.len()
        invariant
            i <= v.len(),
            r@ == v@.take(i as int),
        decreases v.len() - i,
    {
        r.push(v[i].clone());
        assert(v@.take(i as int).push(v@[i as int]) =~= v@.take(i + 1));
        i = i + 1;
    }
    assert(v@.take(v.len() as int) =~= v@);
    r
}

/// Whether a subtask does implementation work, reviews an artifact, or cleans up.
#[derive(Debug, Clone, Copy, PartialEq, Eq, Structural)]
pub enum SubtaskKind {
    Work,
    Review,
    Cleanup,
}

/// Lifecycle state of one subtask.
#[derive(Debug, Clone, Copy, PartialEq, Eq, Structural)]
pub enum SubtaskState {
    Available,
    Blocked,
    Claimed,
    InProgress,
    ArtifactPublished,
    ReviewPending,
    ChangesRequested,
    Approved,
    Decided,
    ReadyForApply,
    Applied,
    Completed,
    Failed,
    Abandoned,
}

/// The snake_case name of a subtask state.
pub open spec fn subtask_state_name(s: SubtaskState) -> Seq<char> {
    match s {
        SubtaskState::Available => "available"@,
        SubtaskState::Blocked => "blocked"@,
        SubtaskState::Claimed => "claimed"@,
        SubtaskState::InProgress => "in_progress"@,
        SubtaskState::ArtifactPublished => "artifact_published"@,
        SubtaskState::ReviewPending => "review_pending"@,
        SubtaskState::ChangesRequested => "changes_requested"@,
        SubtaskState::Approved => "approved"@,
        SubtaskState::Decided => "decided"@,
        SubtaskState::ReadyForApply => "ready_for_apply"@,
        SubtaskState::Applied => "applied"@,
        SubtaskState::Completed => "completed"@,
        SubtaskState::Failed => "failed"@,
        SubtaskState::Abandoned => "abandoned"@,
    }
}

impl SubtaskState {
    /// The snake_case name of the state.
    pub fn name(&self) -> (r: &'static str)
        ensures
            r@ == subtask_state_name(*self),
    {
        match self {
            SubtaskState::Available => "available",
            SubtaskState::Blocked => "blocked",
            SubtaskState::Claimed => "claimed",
            SubtaskState::InProgress => "in_progress",
            SubtaskState::ArtifactPublished => "artifact_published",
            SubtaskState::ReviewPending => "review_pending",
            SubtaskState::ChangesRequested => "changes_requested",
            SubtaskState::Approved => "approved",
            SubtaskState::Decided => "decided",
            SubtaskState::ReadyForApply => "ready_for_apply",
            SubtaskState::Applied => "applied",
            SubtaskState::Completed => "completed",
            SubtaskState::Failed => "failed",
            SubtaskState::Abandoned => "abandoned",
        }
    }
}

/// How completed work reaches its landing.
#[derive(Debug, Clone, Copy, PartialEq, Eq, Structural)]
pub enum CompletionPolicy {
    Direct,
    Reviewed,
}

/// Lifecycle state of one review.
#[derive(Debug, Clone, Copy, PartialEq, Eq, Structural)]
pub enum ReviewState {
    Requested,
    InProgress,
    Decided,
}

/// Verdict of a decided review.
#[derive(Debug, Clone, Copy, PartialEq, Eq, Structural)]
pub enum ReviewVerdict {
    Approve,
    ChangesRequested,
    Blocked,
}

/// Verdict of a review that did not approve.
#[derive(Debug, Clone, Copy, PartialEq, Eq, Structural)]
pub enum FailedReviewVerdict {
    ChangesRequested,
    Blocked,
}

/// Lifecycle state of one apply-queue item.
#[derive(Debug, Clone, Copy, PartialEq, Eq, Structural)]
pub enum ReadyQueueState {
    Queued,
    InFlight,
    Applied,
    Superseded,
    Cancelled,
}

/// The snake_case name of an apply-queue state.
pub open spec fn ready_queue_state_name(s: ReadyQueueState) -> Seq<char> {
    match s {
        ReadyQueueState::Queued => "queued"@,
        ReadyQueueState::InFlight => "in_flight"@,
        ReadyQueueState::Applied => "applied"@,
        ReadyQueueState::Superseded => "superseded"@,
        ReadyQueueState::Cancelled => "cancelled"@,
    }
}

impl ReadyQueueState {
    /// The snake_case name of the state.
    pub fn name(&self) -> (r: &'static str)
        ensures
            r@ == ready_queue_state_name(*self),
    {
        match self {
            ReadyQueueState::Queued => "queued",
            ReadyQueueState::InFlight => "in_flight",
            ReadyQueueState::Applied => "applied",
            ReadyQueueState::Superseded => "superseded",
            ReadyQueueState::Cancelled => "cancelled",
        }
    }
}

/// Where an applied artifact settles.
#[derive(Debug, Clone, Copy, PartialEq, Eq, Structural)]
pub enum SettlementTarget {
    Canonical,
    PacketStack,
}

/// Kind of a produced artifact.
#[derive(Debug, Clone, Copy, PartialEq, Eq, Structural)]
pub enum ArtifactKind {
    PatchBundle,
    IsolatedCommitRef,
    TreeBundle,
    FindingsBundle,
    VerificationBundle,
}

/// Whether an artifact of this kind can be applied: every kind but a findings bundle.
pub open spec fn applyable_artifact_kind(kind: ArtifactKind) -> bool {
    kind != ArtifactKind::FindingsBundle
}

impl ArtifactKind {
    /// Whether an artifact of this kind can be applied.
    pub fn is_applyable(&self) -> (r: bool)
        ensures
            r == applyable_artifact_kind(*self),
    {
        match self {
            ArtifactKind::PatchBundle | ArtifactKind::IsolatedCommitRef | ArtifactKind::TreeBundle
            | ArtifactKind::VerificationBundle => true,
            ArtifactKind::FindingsBundle => false,
        }
    }
}

/// Archive state of one applied OpenSpec artifact.
#[derive(Debug, Clone, Copy, PartialEq, Eq, Structural)]
pub enum OpenSpecArchiveStatusState {
    Blocked,
    Archived,
}

/// The snake_case name of an archive status state.
pub open spec fn archive_status_state_name(s: OpenSpecArchiveStatusState) -> Seq<char> {
    match s {
        OpenSpecArchiveStatusState::Blocked => "blocked"@,
        OpenSpecArchiveStatusState::Archived => "archived"@,
    }
}

impl OpenSpecArchiveStatusState {
    /// The snake_case name of the state.
    pub fn name(&self) -> (r: &'static str)
        ensures
            r@ == archive_status_state_name(*self),
    {
        match self {
            OpenSpecArchiveStatusState::Blocked => "blocked",
            OpenSpecArchiveStatusState::Archived => "archived",
        }
    }
}

/// Kind of native apply-gate evidence.
#[derive(Debug, Clone, Copy, PartialEq, Eq, Structural)]
pub enum ApplyGateBlockerKind {
    AuthorityHold,
    GitApplyUncertainty,
}

/// Why a settlement needs reconciling.
#[derive(Debug, Clone, Copy, PartialEq, Eq, Structural)]
pub enum SettlementReconcileReason {
    AuthorityLost,
    StaleFence,
    CommitUnknown,
    PartialPrepare,
    PartialFinalize,
    FailedCanonicalApply,
    DuplicateCompletion,
}

/// The snake_case name of a reconcile reason.
pub open spec fn reconcile_reason_name(s: SettlementReconcileReason) -> Seq<char> {
    match s {
        SettlementReconcileReason::AuthorityLost => "authority_lost"@,
        SettlementReconcileReason::StaleFence => "stale_fence"@,
        SettlementReconcileReason::CommitUnknown => "commit_unknown"@,
        SettlementReconcileReason::PartialPrepare => "partial_prepare"@,
        SettlementReconcileReason::PartialFinalize => "partial_finalize"@,
        SettlementReconcileReason::FailedCanonicalApply => "failed_canonical_apply"@,
        SettlementReconcileReason::DuplicateCompletion => "duplicate_completion"@,
    }
}

impl SettlementReconcileReason {
    /// The snake_case name of the reason.
    pub fn name(&self) -> (r: &'static str)
        ensures
            r@ == reconcile_reason_name(*self),
    {
        match self {
            SettlementReconcileReason::AuthorityLost => "authority_lost",
            SettlementReconcileReason::StaleFence => "stale_fence",
            SettlementReconcileReason::CommitUnknown => "commit_unknown",
            SettlementReconcileReason::PartialPrepare => "partial_prepare",
            SettlementReconcileReason::PartialFinalize => "partial_finalize",
            SettlementReconcileReason::FailedCanonicalApply => "failed_canonical_apply",
            SettlementReconcileReason::DuplicateCompletion => "duplicate_completion",
        }
    }
}

/// Registration state of a VCS workspace.
#[derive(Debug, Clone, Copy, PartialEq, Eq, Structural)]
pub enum VcsWorkspaceState {
    Active,
    Archived,
}

/// The variant name of a workspace state.
pub open spec fn workspace_state_debug_name(k: VcsWorkspaceState) -> Seq<char> {
    match k {
        VcsWorkspaceState::Active => "Active"@,
        VcsWorkspaceState::Archived => "Archived"@,
    }
}

impl VcsWorkspaceState {
    /// The variant name, as `Debug` prints it.
    pub fn debug_name(&self) -> (r: &'static str)
        ensures
            r@ == workspace_state_debug_name(*self),
    {
        match self {
            VcsWorkspaceState::Active => "Active",
            VcsWorkspaceState::Archived => "Archived",
        }
    }
}

/// Last observed cleanliness of a VCS workspace.
#[derive(Debug, Clone, Copy, PartialEq, Eq, Structural)]
pub enum VcsWorkspaceCleanliness {
    Clean,
    Dirty,
    Missing,
    Stale,
    Unusable,
}

/// The snake_case name of a cleanliness.
pub open spec fn cleanliness_name(s: VcsWorkspaceCleanliness) -> Seq<char> {
    match s {
        VcsWorkspaceCleanliness::Clean => "clean"@,
        VcsWorkspaceCleanliness::Dirty => "dirty"@,
        VcsWorkspaceCleanliness::Missing => "missing"@,
        VcsWorkspaceCleanliness::Stale => "stale"@,
        VcsWorkspaceCleanliness::Unusable => "unusable"@,
    }
}

/// The variant name of a cleanliness.
pub open spec fn cleanliness_debug_name(s: VcsWorkspaceCleanliness) -> Seq<char> {
    match s {
        VcsWorkspaceCleanliness::Clean => "Clean"@,
        VcsWorkspaceCleanliness::Dirty => "Dirty"@,
        VcsWorkspaceCleanliness::Missing => "Missing"@,
        VcsWorkspaceCleanliness::Stale => "Stale"@,
        VcsWorkspaceCleanliness::Unusable => "Unusable"@,
    }
}

impl VcsWorkspaceCleanliness {
    /// The snake_case name of the cleanliness.
    pub fn name(&self) -> (r: &'static str)
        ensures
            r@ == cleanliness_name(*self),
    {
        match self {
            VcsWorkspaceCleanliness::Clean => "clean",
            VcsWorkspaceCleanliness::Dirty => "dirty",
            VcsWorkspaceCleanliness::Missing => "missing",
            VcsWorkspaceCleanliness::Stale => "stale",
            VcsWorkspaceCleanliness::Unusable => "unusable",
        }
    }

    /// The variant name, as `Debug` prints it.
    pub fn debug_name(&self) -> (r: &'static str)
        ensures
            r@ == cleanliness_debug_name(*self),
    {
        match self {
            VcsWorkspaceCleanliness::Clean => "Clean",
            VcsWorkspaceCleanliness::Dirty => "Dirty",
            VcsWorkspaceCleanliness::Missing => "Missing",
            VcsWorkspaceCleanliness::Stale => "Stale",
            VcsWorkspaceCleanliness::Unusable => "Unusable",
        }
    }
}

/// Purpose of a VCS workspace.
#[derive(Debug, Clone, Copy, PartialEq, Eq, Structural)]
pub enum VcsWorkspaceKind {
    Execution,
    Cache,
}

/// The variant name of a workspace kind.
pub open spec fn workspace_kind_debug_name(k: VcsWorkspaceKind) -> Seq<char> {
    match k {
        VcsWorkspaceKind::Execution => "Execution"@,
        VcsWorkspaceKind::Cache => "Cache"@,
    }
}

impl VcsWorkspaceKind {
    /// The variant name, as `Debug` prints it.
    pub fn debug_name(&self) -> (r: &'static str)
        ensures
            r@ == workspace_kind_debug_name(*self),
    {
        match self {
            VcsWorkspaceKind::Execution => "Execution",
            VcsWorkspaceKind::Cache => "Cache",
        }
    }
}

/// Shape of a path reservation.
#[derive(Debug, Clone, Copy, PartialEq, Eq, Structural)]
pub enum ScopeClass {
    RepoGlobal,
    ExactPath,
    Subtree,
    GeneratedSet,
}

/// The snake_case name of a scope class.
pub open spec fn scope_class_name(c: ScopeClass) -> Seq<char> {
    match c {
        ScopeClass::RepoGlobal => "repo_global"@,
        ScopeClass::ExactPath => "exact_path"@,
        ScopeClass::Subtree => "subtree"@,
        ScopeClass::GeneratedSet => "generated_set"@,
    }
}

impl ScopeClass {
    /// The snake_case name of the class.
    pub fn name(&self) -> (r: &'static str)
        ensures
            r@ == scope_class_name(*self),
    {
        match self {
            ScopeClass::RepoGlobal => "repo_global",
            ScopeClass::ExactPath => "exact_path",
            ScopeClass::Subtree => "subtree",
            ScopeClass::GeneratedSet => "generated_set",
        }
    }
}

/// Role a session plays.
#[derive(Debug, Clone, Copy, PartialEq, Eq, Structural)]
pub enum SessionRole {
    Orchestrator,
    Executor,
    Reviewer,
    ApplyGate,
}

/// Liveness state of a session.
#[derive(Debug, Clone, Copy, PartialEq, Eq, Structural)]
pub enum SessionState {
    Active,
    Stale,
    Exited,
}

/// The snake_case name of a session state.
pub open spec fn session_state_name(s: SessionState) -> Seq<char> {
    match s {
        SessionState::Active => "active"@,
        SessionState::Stale => "stale"@,
        SessionState::Exited => "exited"@,
    }
}

impl SessionState {
    /// The snake_case name of the state.
    pub fn name(&self) -> (r: &'static str)
        ensures
            r@ == session_state_name(*self),
    {
        match self {
            SessionState::Active => "active",
            SessionState::Stale => "stale",
            SessionState::Exited => "exited",
        }
    }
}

/// Lifecycle state of a path reservation.
#[derive(Debug, Clone, Copy, PartialEq, Eq, Structural)]
pub enum ReservationState {
    Active,
    Released,
    Expired,
}

/// The snake_case name of a reservation state.
pub open spec fn reservation_state_name(s: ReservationState) -> Seq<char> {
    match s {
        ReservationState::Active => "active"@,
        ReservationState::Released => "released"@,
        ReservationState::Expired => "expired"@,
    }
}

impl ReservationState {
    /// The snake_case name of the state.
    pub fn name(&self) -> (r: &'static str)
        ensures
            r@ == reservation_state_name(*self),
    {
        match self {
            ReservationState::Active => "active",
            ReservationState::Released => "released",
            ReservationState::Expired => "expired",
        }
    }
}

/// Lifecycle state of a meta-task.
#[derive(Debug, Clone, Copy, PartialEq, Eq, Structural)]
pub enum MetaTaskState {
    Planning,
    Active,
    Completed,
    Cancelled,
}

/// The snake_case name of a meta-task state.
pub open spec fn meta_task_state_name(s: MetaTaskState) -> Seq<char> {
    match s {
        MetaTaskState::Planning => "planning"@,
        MetaTaskState::Active => "active"@,
        MetaTaskState::Completed => "completed"@,
        MetaTaskState::Cancelled => "cancelled"@,
    }
}

impl MetaTaskState {
    /// The snake_case name of the state.
    pub fn name(&self) -> (r: &'static str)
        ensures
            r@ == meta_task_state_name(*self),
    {
        match self {
            MetaTaskState::Planning => "planning",
            MetaTaskState::Active => "active",
            MetaTaskState::Completed => "completed",
            MetaTaskState::Cancelled => "cancelled",
        }
    }
}

/// Lifecycle state of a claim.
#[derive(Debug, Clone, Copy, PartialEq, Eq, Structural)]
pub enum ClaimState {
    Held,
    Released,
    Expired,
    Revoked,
}

/// The artifact a review subtask reviews.
#[derive(Debug)]
pub struct ReviewTarget {
    pub subtask_id: String,
    pub artifact_digest: String,
}

impl ReviewTarget {
    pub fn new(subtask_id: String, artifact_digest: String) -> (r: Self)
        ensures
            r.subtask_id == subtask_id,
            r.artifact_digest == artifact_digest,
    {
        ReviewTarget { subtask_id, artifact_digest }
    }
}

impl Clone for ReviewTarget {
    fn clone(&self) -> (r: Self)
        ensures
            r == *self,
    {
        ReviewTarget {
            subtask_id: self.subtask_id.clone(),
            artifact_digest: self.artifact_digest.clone(),
        }
    }
}

/// Lifecycle facts of one subtask: its state, held claim and published artifact.
#[derive(Debug)]
pub struct SubtaskLifecycle {
    pub state: SubtaskState,
    pub active_claim_id: Option<String>,
    pub artifact_digest: Option<String>,
}

impl Clone for SubtaskLifecycle {
    fn clone(&self) -> (r: Self)
        ensures
            r == *self,
    {
        SubtaskLifecycle {
            state: self.state,
            active_claim_id: clone_opt(&self.active_claim_id),
            artifact_digest: clone_opt(&self.artifact_digest),
        }
    }
}

/// One registered agent session.
#[derive(Debug)]
pub struct Session {
    pub session_token: String,
    pub agent_principal_id: String,
    pub agent_instance_id: String,
    pub role: SessionRole,
    pub state: SessionState,
    pub active_subtask_id: Option<String>,
}

impl Clone for Session {
    fn clone(&self) -> (r: Self)
        ensures
            r == *self,
    {
        Session {
            session_token: self.session_token.clone(),
            agent_principal_id: self.agent_principal_id.clone(),
            agent_instance_id: self.agent_instance_id.clone(),
            role: self.role,
            state: self.state,
            active_subtask_id: clone_opt(&self.active_subtask_id),
        }
    }
}

/// One claim on a subtask, held by a session under a fence and lease.
#[derive(Debug)]
pub struct Claim {
    pub claim_id: String,
    pub subtask_id: String,
    pub owner_session_token: String,
    pub fence_seq: i64,
    pub lease_deadline: i64,
    pub state: ClaimState,
}

impl Clone for Claim {
    fn clone(&self) -> (r: Self)
        ensures
            r == *self,
    {
        Claim {
            claim_id: self.claim_id.clone(),
            subtask_id: self.subtask_id.clone(),
            owner_session_token: self.owner_session_token.clone(),
            fence_seq: self.fence_seq,
            lease_deadline: self.lease_deadline,
            state: self.state,
        }
    }
}

/// One published artifact.
#[derive(Debug)]
pub struct Artifact {
    pub artifact_digest: String,
    pub produced_by_subtask_id: String,
    pub kind: ArtifactKind,
}

impl Clone for Artifact {
    fn clone(&self) -> (r: Self)
        ensures
            r == *self,
    {
        Artifact {
            artifact_digest: self.artifact_digest.clone(),
            produced_by_subtask_id: self.produced_by_subtask_id.clone(),
            kind: self.kind,
        }
    }
}

/// Immutable outcome of one execution attempt.
#[derive(Debug)]
pub struct AttemptOutcome {
    pub subtask_id: String,
    pub attempt: i64,
    pub outcome: String,
}

impl Clone for AttemptOutcome {
    fn clone(&self) -> (r: Self)
        ensures
            r == *self,
    {
        AttemptOutcome {
            subtask_id: self.subtask_id.clone(),
            attempt: self.attempt,
            outcome: self.outcome.clone(),
        }
    }
}

/// One review of an artifact.
#[derive(Debug)]
pub struct Review {
    pub review_id: String,
    pub subtask_id: String,
    pub artifact_digest: String,
    pub state: ReviewState,
    pub verdict: Option<ReviewVerdict>,
}

impl Clone for Review {
    fn clone(&self) -> (r: Self)
        ensures
            r == *self,
    {
        Review {
            review_id: self.review_id.clone(),
            subtask_id: self.subtask_id.clone(),
            artifact_digest: self.artifact_digest.clone(),
            state: self.state,
            verdict: self.verdict,
        }
    }
}

/// One apply-queue row.
#[derive(Debug)]
pub struct ReadyQueueItem {
    pub queue_id: String,
    pub artifact_digest: String,
    pub subtask_id: String,
    pub settlement_target: SettlementTarget,
    pub state: ReadyQueueState,
    pub claimed_by_session_token: Option<String>,
    pub claim_fence_seq: Option<i64>,
    pub claim_lease_deadline: Option<i64>,
    pub enqueued_at: i64,
    pub updated_at: i64,
}

impl Clone for ReadyQueueItem {
    fn clone(&self) -> (r: Self)
        ensures
            r == *self,
    {
        ReadyQueueItem {
            queue_id: self.queue_id.clone(),
            artifact_digest: self.artifact_digest.clone(),
            subtask_id: self.subtask_id.clone(),
            settlement_target: self.settlement_target,
            state: self.state,
            claimed_by_session_token: clone_opt(&self.claimed_by_session_token),
            claim_fence_seq: self.claim_fence_seq,
            claim_lease_deadline: self.claim_lease_deadline,
            enqueued_at: self.enqueued_at,
            updated_at: self.updated_at,
        }
    }
}

/// One meta-task.
#[derive(Debug)]
pub struct MetaTask {
    pub meta_task_id: String,
    pub prompt_text: String,
    pub state: MetaTaskState,
}

impl Clone for MetaTask {
    fn clone(&self) -> (r: Self)
        ensures
            r == *self,
    {
        MetaTask {
            meta_task_id: self.meta_task_id.clone(),
            prompt_text: self.prompt_text.clone(),
            state: self.state,
        }
    }
}

/// Archive status of one applied OpenSpec artifact.
#[derive(Debug)]
pub struct OpenSpecArchiveStatus {
    pub openspec_change_id: String,
    pub queue_id: String,
    pub subtask_id: String,
    pub artifact_digest: String,
    pub state: OpenSpecArchiveStatusState,
    pub blocked_reason: Option<String>,
    pub archive_proof_digest: Option<String>,
    pub recorded_by_session: String,
}

impl Clone for OpenSpecArchiveStatus {
    fn clone(&self) -> (r: Self)
        ensures
            r == *self,
    {
        OpenSpecArchiveStatus {
            openspec_change_id: self.openspec_change_id.clone(),
            queue_id: self.queue_id.clone(),
            subtask_id: self.subtask_id.clone(),
            artifact_digest: self.artifact_digest.clone(),
            state: self.state,
            blocked_reason: clone_opt(&self.blocked_reason),
            archive_proof_digest: clone_opt(&self.archive_proof_digest),
            recorded_by_session: self.recorded_by_session.clone(),
        }
    }
}

/// Native apply-gate evidence holding a queue item.
#[derive(Debug)]
pub struct ApplyGateBlocker {
    pub queue_id: String,
    pub artifact_digest: String,
    pub review_id: String,
    pub evidence_id: String,
    pub reason: String,
    pub blocker_kind: ApplyGateBlockerKind,
}

impl Clone for ApplyGateBlocker {
    fn clone(&self) -> (r: Self)
        ensures
            r == *self,
    {
        ApplyGateBlocker {
            queue_id: self.queue_id.clone(),
            artifact_digest: self.artifact_digest.clone(),
            review_id: self.review_id.clone(),
            evidence_id: self.evidence_id.clone(),
            reason: self.reason.clone(),
            blocker_kind: self.blocker_kind,
        }
    }
}

/// Authority settlement evidence holding a queue item.
#[derive(Debug)]
pub struct SettlementReconcileBlocker {
    pub queue_id: String,
    pub artifact_digest: String,
    pub review_id: String,
    pub authority_evidence_id: String,
    pub reconcile_reason: SettlementReconcileReason,
}

impl Clone for SettlementReconcileBlocker {
    fn clone(&self) -> (r: Self)
        ensures
            r == *self,
    {
        SettlementReconcileBlocker {
            queue_id: self.queue_id.clone(),
            artifact_digest: self.artifact_digest.clone(),
            review_id: self.review_id.clone(),
            authority_evidence_id: self.authority_evidence_id.clone(),
            reconcile_reason: self.reconcile_reason,
        }
    }
}

/// What an operator blocker is recorded against.
#[derive(Debug, Clone, Copy, PartialEq, Eq, Structural)]
pub enum OperatorBlockerTargetKind {
    Subtask,
    ReadyQueue,
}

/// Whether an operator blocker still blocks.
#[derive(Debug, Clone, Copy, PartialEq, Eq, Structural)]
pub enum OperatorBlockerState {
    Active,
    Resolved,
}

/// Durable operator blocker on one scoped subtask.
#[derive(Debug)]
pub struct OperatorBlocker {
    pub blocker_id: String,
    pub openspec_change_id: String,
    pub target_kind: OperatorBlockerTargetKind,
    pub subtask_id: String,
    pub queue_id: Option<String>,
    pub artifact_digest: Option<String>,
    pub reason: String,
    pub source_evidence_id: Option<String>,
    pub state: OperatorBlockerState,
    pub recorded_by_session: String,
    pub resolved_reason: Option<String>,
    pub resolved_by_session: Option<String>,
}

impl Clone for OperatorBlocker {
    fn clone(&self) -> (r: Self)
        ensures
            r == *self,
    {
        OperatorBlocker {
            blocker_id: self.blocker_id.clone(),
            openspec_change_id: self.openspec_change_id.clone(),
            subtask_id: self.subtask_id.clone(),
            queue_id: clone_opt(&self.queue_id),
            artifact_digest: clone_opt(&self.artifact_digest),
            reason: self.reason.clone(),
            source_evidence_id: clone_opt(&self.source_evidence_id),
            target_kind: self.target_kind,
            state: self.state,
            recorded_by_session: self.recorded_by_session.clone(),
            resolved_reason: clone_opt(&self.resolved_reason),
            resolved_by_session: clone_opt(&self.resolved_by_session),
        }
    }
}

/// One registered scheduler workspace or cache.
#[derive(Debug)]
pub struct VcsWorkspace {
    pub workspace_id: String,
    pub kind: VcsWorkspaceKind,
    pub path: String,
    pub state: VcsWorkspaceState,
    pub last_cleanliness: VcsWorkspaceCleanliness,
    pub subtask_id: Option<String>,
    pub claim_id: Option<String>,
    pub queue_id: Option<String>,
    pub artifact_digest: Option<String>,
    pub current_bookmark: Option<String>,
    pub current_change_id: Option<String>,
    pub current_commit_id: Option<String>,
}

impl Clone for VcsWorkspace {
    fn clone(&self) -> (r: Self)
        ensures
            r == *self,
    {
        VcsWorkspace {
            workspace_id: self.workspace_id.clone(),
            kind: self.kind,
            path: self.path.clone(),
            state: self.state,
            last_cleanliness: self.last_cleanliness,
            subtask_id: clone_opt(&self.subtask_id),
            claim_id: clone_opt(&self.claim_id),
            queue_id: clone_opt(&self.queue_id),
            artifact_digest: clone_opt(&self.artifact_digest),
            current_bookmark: clone_opt(&self.current_bookmark),
            current_change_id: clone_opt(&self.current_change_id),
            current_commit_id: clone_opt(&self.current_commit_id),
        }
    }
}

/// One path reservation owned by a subtask.
#[derive(Debug)]
pub struct Reservation {
    pub reservation_id: String,
    pub owner_subtask_id: String,
    pub scope_class: ScopeClass,
    pub scope_key: String,
    pub generated_members: Vec<String>,
}

/// Runtime evidence recorded for one session.
#[derive(Debug)]
pub struct RuntimeAttestation {
    pub session_token: String,
    pub agent_principal_id: String,
    pub provider: String,
    pub model: String,
    pub provider_run_id: String,
    pub provider_run_id_issuer: String,
    pub process_id: Option<String>,
    pub container_id: Option<String>,
    pub command_transcript_digest: String,
}

} // verus!
