//! Read models of subtasks, sessions and meta-tasks, with the checks that
//! keep their attachments consistent with the subtask lifecycle.
use vstd::prelude::*;
use crate::model::{
    Artifact, AttemptOutcome, Claim, CompletionPolicy, FailedReviewVerdict, MetaTask,
    OpenSpecArchiveStatus, ReadyQueueItem, ReadyQueueState, Review, ReviewTarget, ReviewVerdict,
    Session, SettlementTarget, SubtaskKind, SubtaskLifecycle, SubtaskState,
};
use crate::text::{chars_of, is_blank, owned, str_eq, vec_is_blank};
use crate::validate::{title_too_long, MAX_TITLE_LEN};

verus! {

// ---------------------------------------------------------------- subtask view

/// What kind of subtask a view describes, with the review target of review
/// subtasks.
#[derive(Debug)]
enum SubtaskViewKind {
    Work,
    Review { review_target: ReviewTarget },
    Cleanup,
}

impl Clone for SubtaskViewKind {
    fn clone(&self) -> (r: Self)
        ensures
            r == *self,
    {
        match self {
            SubtaskViewKind::Work => SubtaskViewKind::Work,
            SubtaskViewKind::Review { review_target } => SubtaskViewKind::Review { review_target: review_target.clone() },
            SubtaskViewKind::Cleanup => SubtaskViewKind::Cleanup,
        }
    }
}

/// The completion policy of a subtask view that records none: direct.
pub fn default_completion_policy() -> (r: CompletionPolicy)
    ensures
        r == CompletionPolicy::Direct,
{
    CompletionPolicy::Direct
}

/// The routing key of a subtask view that records none: `default`.
pub fn default_routing_key() -> (r: String)
    ensures
        r@ == "default"@,
{
    owned("default")
}

/// Read model of one subtask's lifecycle state.
#[derive(Debug)]
pub struct SubtaskView {
    subtask_id: String,
    meta_task_id: String,
    title: String,
    kind: SubtaskViewKind,
    lifecycle: SubtaskLifecycle,
    priority: i64,
    completion_policy: CompletionPolicy,
    routing_key: String,
    created_at: i64,
    updated_at: i64,
}

/// Why a subtask view is rejected, if it is: a review target on a subtask
/// that is not a review, a review without one, a blank title or one longer
/// than a title may be, or an update before creation.
pub open spec fn subtask_view_error(
    kind: SubtaskKind,
    review_target: Option<ReviewTarget>,
    title: Seq<char>,
    created_at: i64,
    updated_at: i64,
) -> Option<Seq<char>> {
    if kind == SubtaskKind::Work && review_target is Some {
        Some("work subtask view cannot carry review target"@)
    } else if kind == SubtaskKind::Review && review_target is None {
        Some("review subtask view is missing review target"@)
    } else if kind == SubtaskKind::Cleanup && review_target is Some {
        Some("cleanup subtask view cannot carry review target"@)
    } else if is_blank(title) {
        Some("subtask title must not be empty"@)
    } else if title_too_long(title) {
        Some("subtask title exceeds max length 512"@)
    } else if updated_at < created_at {
        Some("subtask view updated_at must be greater than or equal to created_at"@)
    } else {
        None
    }
}

impl SubtaskView {
    /// Every view was updated no earlier than it was created.
    #[verifier::type_invariant]
    spec fn times_ordered(self) -> bool {
        self.created_at <= self.updated_at
    }

    /// The subtask's id.
    pub closed spec fn subtask_id_spec(&self) -> Seq<char> {
        self.subtask_id@
    }

    /// The owning meta-task's id.
    pub closed spec fn meta_task_id_spec(&self) -> Seq<char> {
        self.meta_task_id@
    }

    /// The subtask's title.
    pub closed spec fn title_spec(&self) -> Seq<char> {
        self.title@
    }

    /// The subtask's priority.
    pub closed spec fn priority_spec(&self) -> i64 {
        self.priority
    }

    /// The kind of the subtask.
    pub closed spec fn kind_spec(&self) -> SubtaskKind {
        match self.kind {
            SubtaskViewKind::Work => SubtaskKind::Work,
            SubtaskViewKind::Review { .. } => SubtaskKind::Review,
            SubtaskViewKind::Cleanup => SubtaskKind::Cleanup,
        }
    }

    /// The review target, present exactly for review subtasks.
    pub closed spec fn review_target_spec(&self) -> Option<ReviewTarget> {
        match self.kind {
            SubtaskViewKind::Review { review_target } => Some(review_target),
            _ => None,
        }
    }

    /// The lifecycle facts.
    pub closed spec fn lifecycle_spec(&self) -> SubtaskLifecycle {
        self.lifecycle
    }

    /// The completion policy.
    pub closed spec fn completion_policy_spec(&self) -> CompletionPolicy {
        self.completion_policy
    }

    /// The routing key.
    pub closed spec fn routing_key_spec(&self) -> Seq<char> {
        self.routing_key@
    }

    /// When the subtask was created.
    pub closed spec fn created_at_spec(&self) -> i64 {
        self.created_at
    }

    /// When the subtask was last updated.
    pub closed spec fn updated_at_spec(&self) -> i64 {
        self.updated_at
    }

    /// Builds a view, checking that the review target matches the kind and
    /// that the update is not older than the creation.
    pub fn from_parts(
        subtask_id: String,
        meta_task_id: String,
        title: String,
        kind: SubtaskKind,
        review_target: Option<ReviewTarget>,
        lifecycle: SubtaskLifecycle,
        priority: i64,
        completion_policy: CompletionPolicy,
        routing_key: String,
        created_at: i64,
        updated_at: i64,
    ) -> (r: Result<Self, String>)
        ensures
            r is Err <==> subtask_view_error(kind, review_target, title@, created_at, updated_at) is Some,
            r matches Err(e) ==> Some(e@) == subtask_view_error(kind, review_target, title@, created_at, updated_at),
            r matches Ok(v) ==> {
                &&& v.subtask_id_spec() == subtask_id@
                &&& v.meta_task_id_spec() == meta_task_id@
                &&& v.title_spec() == title@
                &&& v.kind_spec() == kind
                &&& v.review_target_spec() == review_target
                &&& v.lifecycle_spec() == lifecycle
                &&& v.priority_spec() == priority
                &&& v.completion_policy_spec() == completion_policy
                &&& v.routing_key_spec() == routing_key@
                &&& v.created_at_spec() == created_at
                &&& v.updated_at_spec() == updated_at
            },
    {
        let view_kind = match kind {
            SubtaskKind::Work => {
                if review_target.is_some() {
                    return Err(owned("work subtask view cannot carry review target"));
                }
                SubtaskViewKind::Work
            },
            SubtaskKind::Review => match review_target {
                Some(review_target) => SubtaskViewKind::Review { review_target },
                None => {
                    return Err(owned("review subtask view is missing review target"));
                },
            },
            SubtaskKind::Cleanup => {
                if review_target.is_some() {
                    return Err(owned("cleanup subtask view cannot carry review target"));
                }
                SubtaskViewKind::Cleanup
            },
        };
        if vec_is_blank(&chars_of(title.as_str())) {
            return Err(owned("subtask title must not be empty"));
        }
        if title.as_str().as_bytes().len() > MAX_TITLE_LEN {
            return Err(owned("subtask title exceeds max length 512"));
        }
        if updated_at < created_at {
            return Err(owned("subtask view updated_at must be greater than or equal to created_at"));
        }
        Ok(SubtaskView {
            subtask_id,
            meta_task_id,
            title,
            kind: view_kind,
            lifecycle,
            priority,
            completion_policy,
            routing_key,
            created_at,
            updated_at,
        })
    }

    /// The subtask's id.
    pub fn subtask_id(&self) -> (r: &str)
        ensures
            r@ == self.subtask_id_spec(),
    {
        self.subtask_id.as_str()
    }

    /// The owning meta-task's id.
    pub fn meta_task_id(&self) -> (r: &str)
        ensures
            r@ == self.meta_task_id_spec(),
    {
        self.meta_task_id.as_str()
    }

    /// The subtask's title.
    pub fn title(&self) -> (r: &str)
        ensures
            r@ == self.title_spec(),
    {
        self.title.as_str()
    }

    /// The subtask's priority.
    pub fn priority(&self) -> (r: i64)
        ensures
            r == self.priority_spec(),
    {
        self.priority
    }

    /// Whether the view describes work, review or cleanup; a view is of a
    /// review exactly when it carries a review target.
    pub fn kind(&self) -> (r: SubtaskKind)
        ensures
            r == self.kind_spec(),
            (r == SubtaskKind::Review) <==> self.review_target_spec() is Some,
    {
        match &self.kind {
            SubtaskViewKind::Work => SubtaskKind::Work,
            SubtaskViewKind::Review { .. } => SubtaskKind::Review,
            SubtaskViewKind::Cleanup => SubtaskKind::Cleanup,
        }
    }

    /// The review target of a review subtask; present exactly for reviews.
    pub fn review_target(&self) -> (r: Option<&ReviewTarget>)
        ensures
            r matches Some(t) ==> self.review_target_spec() == Some(*t),
            r is None <==> self.review_target_spec() is None,
            r is Some <==> self.kind_spec() == SubtaskKind::Review,
    {
        match &self.kind {
            SubtaskViewKind::Review { review_target } => Some(review_target),
            _ => None,
        }
    }

    /// The state encoded by the lifecycle.
    pub fn state(&self) -> (r: SubtaskState)
        ensures
            r == self.lifecycle_spec().state,
    {
        self.lifecycle.state
    }

    /// The claim the lifecycle holds, if any.
    pub fn active_claim_id(&self) -> (r: Option<&String>)
        ensures
            r matches Some(c) ==> self.lifecycle_spec().active_claim_id == Some(*c),
            r is None <==> self.lifecycle_spec().active_claim_id is None,
    {
        self.lifecycle.active_claim_id.as_ref()
    }

    /// The artifact the lifecycle carries, if any.
    pub fn artifact_digest(&self) -> (r: Option<&String>)
        ensures
            r matches Some(d) ==> self.lifecycle_spec().artifact_digest == Some(*d),
            r is None <==> self.lifecycle_spec().artifact_digest is None,
    {
        self.lifecycle.artifact_digest.as_ref()
    }

    /// The completion policy.
    pub fn completion_policy(&self) -> (r: CompletionPolicy)
        ensures
            r == self.completion_policy_spec(),
    {
        self.completion_policy
    }

    /// The routing key.
    pub fn routing_key(&self) -> (r: &str)
        ensures
            r@ == self.routing_key_spec(),
    {
        self.routing_key.as_str()
    }

    /// When the subtask was created; never after its last update.
    pub fn created_at(&self) -> (r: i64)
        ensures
            r == self.created_at_spec(),
            r <= self.updated_at_spec(),
    {
        proof {
            use_type_invariant(self);
        }
        self.created_at
    }

    /// When the subtask was last updated; never before its creation.
    pub fn updated_at(&self) -> (r: i64)
        ensures
            r == self.updated_at_spec(),
            self.created_at_spec() <= r,
    {
        proof {
            use_type_invariant(self);
        }
        self.updated_at
    }
}

impl Clone for SubtaskView {
    fn clone(&self) -> (r: Self)
        ensures
            r == *self,
    {
        proof {
            use_type_invariant(self);
        }
        SubtaskView {
            subtask_id: self.subtask_id.clone(),
            meta_task_id: self.meta_task_id.clone(),
            title: self.title.clone(),
            kind: self.kind.clone(),
            lifecycle: self.lifecycle.clone(),
            priority: self.priority,
            completion_policy: self.completion_policy,
            routing_key: self.routing_key.clone(),
            created_at: self.created_at,
            updated_at: self.updated_at,
        }
    }
}

// ---------------------------------------------------------------- review decision

/// Outcome of recording a review verdict.
#[derive(Debug)]
pub enum ReviewDecisionResult {
    Approved { review_id: String },
    Failed { review_id: String, verdict: FailedReviewVerdict, followup_subtask_id: String },
}

impl ReviewDecisionResult {
    /// The recorded review.
    pub fn review_id(&self) -> (r: &String)
        ensures
            match self {
                ReviewDecisionResult::Approved { review_id } => *r == *review_id,
                ReviewDecisionResult::Failed { review_id, .. } => *r == *review_id,
            },
    {
        match self {
            ReviewDecisionResult::Approved { review_id } => review_id,
            ReviewDecisionResult::Failed { review_id, .. } => review_id,
        }
    }

    /// The review outcome: `Approve`, or the outcome that failed.
    pub fn verdict(&self) -> (r: ReviewVerdict)
        ensures
            r == match self {
                ReviewDecisionResult::Approved { .. } => ReviewVerdict::Approve,
                ReviewDecisionResult::Failed { verdict, .. } => match verdict {
                    FailedReviewVerdict::ChangesRequested => ReviewVerdict::ChangesRequested,
                    FailedReviewVerdict::Blocked => ReviewVerdict::Blocked,
                },
            },
    {
        match self {
            ReviewDecisionResult::Approved { .. } => ReviewVerdict::Approve,
            ReviewDecisionResult::Failed { verdict, .. } => match verdict {
                FailedReviewVerdict::ChangesRequested => ReviewVerdict::ChangesRequested,
                FailedReviewVerdict::Blocked => ReviewVerdict::Blocked,
            },
        }
    }

    /// The follow-up subtask of a failed review.
    pub fn followup_subtask_id(&self) -> (r: Option<&String>)
        ensures
            match self {
                ReviewDecisionResult::Approved { .. } => r is None,
                ReviewDecisionResult::Failed { followup_subtask_id, .. } => r == Some(followup_subtask_id),
            },
    {
        match self {
            ReviewDecisionResult::Approved { .. } => None,
            ReviewDecisionResult::Failed { followup_subtask_id, .. } => Some(followup_subtask_id),
        }
    }
}

// ---------------------------------------------------------------- session status

#[derive(Debug)]
enum SessionStatusState {
    WithoutActiveSubtask { session: Session },
    WithActiveSubtask { session: Session, active_subtask: SubtaskView },
}

/// A session together with the view of its active subtask, if it has one.
#[derive(Debug)]
pub struct SessionStatus {
    state: SessionStatusState,
}

/// A subtask view is of a review exactly when it carries a review target.
pub proof fn lemma_review_target_exactly_for_reviews(v: SubtaskView)
    ensures
        (v.kind_spec() == SubtaskKind::Review) <==> v.review_target_spec() is Some,
{
}

/// Why a session status is rejected, if it is: the active subtask view must
/// be present exactly when the session names one, and must be that subtask.
pub open spec fn session_status_error(session: Session, active_subtask: Option<SubtaskView>) -> Option<Seq<char>> {
    match (session.active_subtask_id, active_subtask) {
        (Some(expected), Some(view)) => if view.subtask_id_spec() == expected@ {
            None
        } else {
            Some("session status active_subtask must match session state"@)
        },
        (Some(_), None) => Some("session status requires active_subtask view"@),
        (None, Some(_)) => Some("session status must not include active_subtask"@),
        (None, None) => None,
    }
}

impl SessionStatus {
    /// The active subtask view agrees with the session.
    #[verifier::type_invariant]
    spec fn agrees(self) -> bool {
        session_status_error(self.session_spec(), self.active_subtask_spec()) is None
    }

    /// The session row.
    pub closed spec fn session_spec(&self) -> Session {
        match self.state {
            SessionStatusState::WithoutActiveSubtask { session } => session,
            SessionStatusState::WithActiveSubtask { session, .. } => session,
        }
    }

    /// The active subtask view.
    pub closed spec fn active_subtask_spec(&self) -> Option<SubtaskView> {
        match self.state {
            SessionStatusState::WithoutActiveSubtask { .. } => None,
            SessionStatusState::WithActiveSubtask { active_subtask, .. } => Some(active_subtask),
        }
    }

    /// Builds a session status from a session and its active subtask view.
    pub fn from_parts(session: Session, active_subtask: Option<SubtaskView>) -> (r: Result<Self, String>)
        ensures
            r is Err <==> session_status_error(session, active_subtask) is Some,
            r matches Err(e) ==> Some(e@) == session_status_error(session, active_subtask),
            r matches Ok(s) ==> s.session_spec() == session && s.active_subtask_spec() == active_subtask,
    {
        let state = match (&session.active_subtask_id, active_subtask) {
            (Some(expected), Some(view)) => {
                if str_eq(view.subtask_id(), expected.as_str()) {
                    SessionStatusState::WithActiveSubtask { session, active_subtask: view }
                } else {
                    return Err(owned("session status active_subtask must match session state"));
                }
            },
            (Some(_), None) => {
                return Err(owned("session status requires active_subtask view"));
            },
            (None, Some(_)) => {
                return Err(owned("session status must not include active_subtask"));
            },
            (None, None) => SessionStatusState::WithoutActiveSubtask { session },
        };
        Ok(SessionStatus { state })
    }

    /// A status for a session with no active subtask.
    pub fn without_active_subtask(session: Session) -> (r: Result<Self, String>)
        ensures
            r is Err <==> session.active_subtask_id is Some,
            r matches Err(e) ==> e@ == "session status requires active_subtask view"@,
            r matches Ok(s) ==> s.session_spec() == session && s.active_subtask_spec() is None,
    {
        Self::from_parts(session, None)
    }

    /// A status for a session whose active subtask is `active_subtask`.
    pub fn with_active_subtask(session: Session, active_subtask: SubtaskView) -> (r: Result<Self, String>)
        ensures
            r is Err <==> session_status_error(session, Some(active_subtask)) is Some,
            r matches Err(e) ==> Some(e@) == session_status_error(session, Some(active_subtask)),
            r matches Ok(s) ==> s.session_spec() == session && s.active_subtask_spec() == Some(active_subtask),
    {
        Self::from_parts(session, Some(active_subtask))
    }

    /// The session row.
    pub fn session(&self) -> (r: &Session)
        ensures
            *r == self.session_spec(),
    {
        match &self.state {
            SessionStatusState::WithoutActiveSubtask { session } => session,
            SessionStatusState::WithActiveSubtask { session, .. } => session,
        }
    }

    /// The active subtask view, present exactly when the session names an
    /// active subtask, and then the view of that subtask.
    pub fn active_subtask(&self) -> (r: Option<&SubtaskView>)
        ensures
            r matches Some(v) ==> self.active_subtask_spec() == Some(*v),
            r is None <==> self.active_subtask_spec() is None,
            r is None <==> self.session_spec().active_subtask_id is None,
            r matches Some(v) ==> self.session_spec().active_subtask_id matches Some(id) && v.subtask_id_spec() == id@,
    {
        proof {
            use_type_invariant(self);
        }
        match &self.state {
            SessionStatusState::WithoutActiveSubtask { .. } => None,
            SessionStatusState::WithActiveSubtask { active_subtask, .. } => Some(active_subtask),
        }
    }
}

// ---------------------------------------------------------------- subtask status

/// Readiness projection of one subtask.
#[derive(Debug, Clone, Copy, PartialEq, Eq, Structural)]
pub struct SubtaskReadinessStatus {
    pub planning_ready: bool,
    pub covey_imported: bool,
    pub execution_ready: bool,
    pub review_approved: bool,
    pub apply_queued: bool,
    pub apply_authorized: bool,
    pub landed: bool,
    pub shipped_verified: bool,
}

/// Whether some review approved.
pub open spec fn some_review_approved(reviews: Seq<Review>) -> bool {
    exists|k: int| 0 <= k < reviews.len() && (#[trigger] reviews[k]).verdict == Some(ReviewVerdict::Approve)
}

/// Whether some queue item is queued or in flight.
pub open spec fn some_item_pending(queue: Seq<ReadyQueueItem>) -> bool {
    exists|k: int| 0 <= k < queue.len() && ((#[trigger] queue[k]).state == ReadyQueueState::Queued
        || queue[k].state == ReadyQueueState::InFlight)
}

/// The readiness of a subtask: imported; ready to execute when it is
/// available work; approved when a review approved; queued when an apply
/// item is queued or in flight; landed when a landing receipt is recorded.
pub open spec fn readiness_of(
    subtask: SubtaskView,
    reviews: Seq<Review>,
    queue: Seq<ReadyQueueItem>,
    landed: bool,
) -> SubtaskReadinessStatus {
    SubtaskReadinessStatus {
        planning_ready: false,
        covey_imported: true,
        execution_ready: subtask.kind_spec() == SubtaskKind::Work && subtask.lifecycle_spec().state
            == SubtaskState::Available,
        review_approved: some_review_approved(reviews),
        apply_queued: some_item_pending(queue),
        apply_authorized: false,
        landed,
        shipped_verified: false,
    }
}

/// Why the claim attachment of a subtask status is rejected, if it is.
pub open spec fn claim_attachment_error(subtask: SubtaskView, claim: Option<Claim>) -> Option<Seq<char>> {
    match (subtask.lifecycle_spec().active_claim_id, claim) {
        (Some(expected), Some(c)) => if c.claim_id@ == expected@ {
            if c.subtask_id@ != subtask.subtask_id_spec() {
                Some("subtask status claim must belong to the subtask"@)
            } else {
                None
            }
        } else {
            Some("subtask status claim_id must match active claim"@)
        },
        (Some(_), None) => Some("subtask status requires active claim row"@),
        (None, Some(_)) => Some("subtask status must not include claim without active claim"@),
        (None, None) => None,
    }
}

/// Why the artifact attachment of a subtask status is rejected, if it is.
pub open spec fn artifact_attachment_error(subtask: SubtaskView, artifact: Option<Artifact>) -> Option<Seq<char>> {
    match (subtask.lifecycle_spec().artifact_digest, artifact) {
        (Some(expected), Some(a)) => if a.artifact_digest@ == expected@ {
            if a.produced_by_subtask_id@ != subtask.subtask_id_spec() {
                Some("subtask status artifact must belong to the subtask"@)
            } else {
                None
            }
        } else {
            Some("subtask status artifact_digest must match lifecycle artifact"@)
        },
        (Some(_), None) => Some("subtask status requires artifact row"@),
        (None, Some(_)) => Some("subtask status must not include artifact without lifecycle artifact"@),
        (None, None) => None,
    }
}

/// Why a subtask status is rejected, if it is: an attachment that
/// contradicts the lifecycle, or an outcome, review or queue item of another
/// subtask.
pub open spec fn subtask_status_error(
    subtask: SubtaskView,
    claim: Option<Claim>,
    artifact: Option<Artifact>,
    outcomes: Seq<AttemptOutcome>,
    reviews: Seq<Review>,
    queue: Seq<ReadyQueueItem>,
) -> Option<Seq<char>> {
    if claim_attachment_error(subtask, claim) is Some {
        claim_attachment_error(subtask, claim)
    } else if artifact_attachment_error(subtask, artifact) is Some {
        artifact_attachment_error(subtask, artifact)
    } else if exists|k: int| 0 <= k < outcomes.len() && (#[trigger] outcomes[k]).subtask_id@ != subtask.subtask_id_spec() {
        Some("subtask status attempt outcomes must belong to the subtask"@)
    } else if exists|k: int| 0 <= k < reviews.len() && (#[trigger] reviews[k]).subtask_id@ != subtask.subtask_id_spec() {
        Some("subtask status reviews must belong to the subtask"@)
    } else if exists|k: int| 0 <= k < queue.len() && (#[trigger] queue[k]).subtask_id@ != subtask.subtask_id_spec() {
        Some("subtask status ready-queue items must belong to the subtask"@)
    } else {
        None
    }
}

/// A subtask with its claim, artifact, attempt outcomes, reviews, apply
/// queue items and readiness.
#[derive(Debug)]
pub struct SubtaskStatus {
    subtask: SubtaskView,
    claim: Option<Claim>,
    artifact: Option<Artifact>,
    attempt_outcomes: Vec<AttemptOutcome>,
    reviews: Vec<Review>,
    ready_queue: Vec<ReadyQueueItem>,
    readiness: SubtaskReadinessStatus,
}

fn check_claim_attachment(subtask: &SubtaskView, claim: &Option<Claim>) -> (r: Result<(), String>)
    ensures
        r is Err <==> claim_attachment_error(*subtask, *claim) is Some,
        r matches Err(e) ==> Some(e@) == claim_attachment_error(*subtask, *claim),
{
    match (subtask.active_claim_id(), claim) {
        (Some(expected), Some(c)) => {
            if str_eq(c.claim_id.as_str(), expected.as_str()) {
                if !str_eq(c.subtask_id.as_str(), subtask.subtask_id()) {
                    return Err(owned("subtask status claim must belong to the subtask"));
                }
                Ok(())
            } else {
                Err(owned("subtask status claim_id must match active claim"))
            }
        },
        (Some(_), None) => Err(owned("subtask status requires active claim row")),
        (None, Some(_)) => Err(owned("subtask status must not include claim without active claim")),
        (None, None) => Ok(()),
    }
}

fn check_artifact_attachment(subtask: &SubtaskView, artifact: &Option<Artifact>) -> (r: Result<(), String>)
    ensures
        r is Err <==> artifact_attachment_error(*subtask, *artifact) is Some,
        r matches Err(e) ==> Some(e@) == artifact_attachment_error(*subtask, *artifact),
{
    match (subtask.artifact_digest(), artifact) {
        (Some(expected), Some(a)) => {
            if str_eq(a.artifact_digest.as_str(), expected.as_str()) {
                if !str_eq(a.produced_by_subtask_id.as_str(), subtask.subtask_id()) {
                    return Err(owned("subtask status artifact must belong to the subtask"));
                }
                Ok(())
            } else {
                Err(owned("subtask status artifact_digest must match lifecycle artifact"))
            }
        },
        (Some(_), None) => Err(owned("subtask status requires artifact row")),
        (None, Some(_)) => Err(owned("subtask status must not include artifact without lifecycle artifact")),
        (None, None) => Ok(()),
    }
}

fn outcomes_belong(subtask_id: &str, outcomes: &Vec<AttemptOutcome>) -> (r: bool)
    ensures
        r == !exists|k: int| 0 <= k < outcomes@.len() && (#[trigger] outcomes@[k]).subtask_id@ != subtask_id@,
{
    let mut k: usize = 0;
    while k < outcomes.len()
        invariant
            k <= outcomes@.len(),
            forall|j: int| 0 <= j < k ==> (#[trigger] outcomes@[j]).subtask_id@ == subtask_id@,
        decreases outcomes@.len() - k,
    {
        if !str_eq(outcomes[k].subtask_id.as_str(), subtask_id) {
            return false;
        }
        k = k + 1;
    }
    true
}

fn reviews_belong(subtask_id: &str, reviews: &Vec<Review>) -> (r: bool)
    ensures
        r == !exists|k: int| 0 <= k < reviews@.len() && (#[trigger] reviews@[k]).subtask_id@ != subtask_id@,
{
    let mut k: usize = 0;
    while k < reviews.len()
        invariant
            k <= reviews@.len(),
            forall|j: int| 0 <= j < k ==> (#[trigger] reviews@[j]).subtask_id@ == subtask_id@,
        decreases reviews@.len() - k,
    {
        if !str_eq(reviews[k].subtask_id.as_str(), subtask_id) {
            return false;
        }
        k = k + 1;
    }
    true
}

fn items_belong(subtask_id: &str, queue: &Vec<ReadyQueueItem>) -> (r: bool)
    ensures
        r == !exists|k: int| 0 <= k < queue@.len() && (#[trigger] queue@[k]).subtask_id@ != subtask_id@,
{
    let mut k: usize = 0;
    while k < queue.len()
        invariant
            k <= queue@.len(),
            forall|j: int| 0 <= j < k ==> (#[trigger] queue@[j]).subtask_id@ == subtask_id@,
        decreases queue@.len() - k,
    {
        if !str_eq(queue[k].subtask_id.as_str(), subtask_id) {
            return false;
        }
        k = k + 1;
    }
    true
}

fn any_review_approved(reviews: &Vec<Review>) -> (r: bool)
    ensures
        r == some_review_approved(reviews@),
{
    let mut k: usize = 0;
    while k < reviews.len()
        invariant
            k <= reviews@.len(),
            forall|j: int| 0 <= j < k ==> (#[trigger] reviews@[j]).verdict != Some(ReviewVerdict::Approve),
        decreases reviews@.len() - k,
    {
        if reviews[k].verdict == Some(ReviewVerdict::Approve) {
            assert(reviews@[k as int].verdict == Some(ReviewVerdict::Approve));
            return true;
        }
        k = k + 1;
    }
    false
}

fn any_item_pending(queue: &Vec<ReadyQueueItem>) -> (r: bool)
    ensures
        r == some_item_pending(queue@),
{
    let mut k: usize = 0;
    while k < queue.len()
        invariant
            k <= queue@.len(),
            forall|j: int| 0 <= j < k ==> (#[trigger] queue@[j]).state != ReadyQueueState::Queued
                && queue@[j].state != ReadyQueueState::InFlight,
        decreases queue@.len() - k,
    {
        if queue[k].state == ReadyQueueState::Queued || queue[k].state == ReadyQueueState::InFlight {
            assert(queue@[k as int].state == queue[k as int].state);
            return true;
        }
        k = k + 1;
    }
    false
}

impl SubtaskStatus {
    /// Every attachment agrees with the subtask.
    #[verifier::type_invariant]
    spec fn attachments_agree(self) -> bool {
        subtask_status_error(self.subtask, self.claim, self.artifact, self.attempt_outcomes@, self.reviews@, self.ready_queue@) is None
    }

    /// The subtask view.
    pub closed spec fn subtask_spec(&self) -> SubtaskView {
        self.subtask
    }

    /// The attached claim.
    pub closed spec fn claim_spec(&self) -> Option<Claim> {
        self.claim
    }

    /// The attached artifact.
    pub closed spec fn artifact_spec(&self) -> Option<Artifact> {
        self.artifact
    }

    /// The attempt outcomes.
    pub closed spec fn attempt_outcomes_spec(&self) -> Seq<AttemptOutcome> {
        self.attempt_outcomes@
    }

    /// The reviews.
    pub closed spec fn reviews_spec(&self) -> Seq<Review> {
        self.reviews@
    }

    /// The apply queue items.
    pub closed spec fn ready_queue_spec(&self) -> Seq<ReadyQueueItem> {
        self.ready_queue@
    }

    /// The readiness projection.
    pub closed spec fn readiness_spec(&self) -> SubtaskReadinessStatus {
        self.readiness
    }

    /// Builds a status with attempt outcomes and landing receipt evidence,
    /// checking every attachment against the subtask.
    pub fn new_with_landing_receipt_and_attempt_outcomes(
        subtask: SubtaskView,
        claim: Option<Claim>,
        artifact: Option<Artifact>,
        attempt_outcomes: Vec<AttemptOutcome>,
        reviews: Vec<Review>,
        ready_queue: Vec<ReadyQueueItem>,
        landing_receipt_recorded: bool,
    ) -> (r: Result<Self, String>)
        ensures
            r is Err <==> subtask_status_error(subtask, claim, artifact, attempt_outcomes@, reviews@, ready_queue@) is Some,
            r matches Err(e) ==> Some(e@) == subtask_status_error(subtask, claim, artifact, attempt_outcomes@, reviews@, ready_queue@),
            r matches Ok(s) ==> {
                &&& s.subtask_spec() == subtask
                &&& s.claim_spec() == claim
                &&& s.artifact_spec() == artifact
                &&& s.attempt_outcomes_spec() == attempt_outcomes@
                &&& s.reviews_spec() == reviews@
                &&& s.ready_queue_spec() == ready_queue@
                &&& s.readiness_spec() == readiness_of(subtask, reviews@, ready_queue@, landing_receipt_recorded)
            },
    {
        check_claim_attachment(&subtask, &claim)?;
        check_artifact_attachment(&subtask, &artifact)?;
        if !outcomes_belong(subtask.subtask_id(), &attempt_outcomes) {
            return Err(owned("subtask status attempt outcomes must belong to the subtask"));
        }
        if !reviews_belong(subtask.subtask_id(), &reviews) {
            return Err(owned("subtask status reviews must belong to the subtask"));
        }
        if !items_belong(subtask.subtask_id(), &ready_queue) {
            return Err(owned("subtask status ready-queue items must belong to the subtask"));
        }
        let readiness = SubtaskReadinessStatus {
            planning_ready: false,
            covey_imported: true,
            execution_ready: subtask.kind() == SubtaskKind::Work && subtask.state() == SubtaskState::Available,
            review_approved: any_review_approved(&reviews),
            apply_queued: any_item_pending(&ready_queue),
            apply_authorized: false,
            landed: landing_receipt_recorded,
            shipped_verified: false,
        };
        Ok(SubtaskStatus { subtask, claim, artifact, attempt_outcomes, reviews, ready_queue, readiness })
    }

    /// Builds a status without attempt outcomes or landing receipt.
    pub fn new(
        subtask: SubtaskView,
        claim: Option<Claim>,
        artifact: Option<Artifact>,
        reviews: Vec<Review>,
        ready_queue: Vec<ReadyQueueItem>,
    ) -> (r: Result<Self, String>)
        ensures
            r is Err <==> subtask_status_error(subtask, claim, artifact, Seq::empty(), reviews@, ready_queue@) is Some,
            r matches Err(e) ==> Some(e@) == subtask_status_error(subtask, claim, artifact, Seq::empty(), reviews@, ready_queue@),
            r matches Ok(s) ==> {
                &&& s.subtask_spec() == subtask
                &&& s.claim_spec() == claim
                &&& s.artifact_spec() == artifact
                &&& s.attempt_outcomes_spec() == Seq::<AttemptOutcome>::empty()
                &&& s.reviews_spec() == reviews@
                &&& s.ready_queue_spec() == ready_queue@
                &&& s.readiness_spec() == readiness_of(subtask, reviews@, ready_queue@, false)
            },
    {
        Self::new_with_landing_receipt_and_attempt_outcomes(subtask, claim, artifact, Vec::new(), reviews, ready_queue, false)
    }

    /// Builds a status with landing receipt evidence and no attempt outcomes.
    pub fn new_with_landing_receipt(
        subtask: SubtaskView,
        claim: Option<Claim>,
        artifact: Option<Artifact>,
        reviews: Vec<Review>,
        ready_queue: Vec<ReadyQueueItem>,
        landing_receipt_recorded: bool,
    ) -> (r: Result<Self, String>)
        ensures
            r is Err <==> subtask_status_error(subtask, claim, artifact, Seq::empty(), reviews@, ready_queue@) is Some,
            r matches Err(e) ==> Some(e@) == subtask_status_error(subtask, claim, artifact, Seq::empty(), reviews@, ready_queue@),
            r matches Ok(s) ==> {
                &&& s.subtask_spec() == subtask
                &&& s.claim_spec() == claim
                &&& s.artifact_spec() == artifact
                &&& s.attempt_outcomes_spec() == Seq::<AttemptOutcome>::empty()
                &&& s.reviews_spec() == reviews@
                &&& s.ready_queue_spec() == ready_queue@
                &&& s.readiness_spec() == readiness_of(subtask, reviews@, ready_queue@, landing_receipt_recorded)
            },
    {
        Self::new_with_landing_receipt_and_attempt_outcomes(
            subtask,
            claim,
            artifact,
            Vec::new(),
            reviews,
            ready_queue,
            landing_receipt_recorded,
        )
    }

    /// The subtask view.
    pub fn subtask(&self) -> (r: &SubtaskView)
        ensures
            *r == self.subtask_spec(),
    {
        &self.subtask
    }

    /// The active claim, present exactly when the lifecycle holds one, and
    /// then that claim of this subtask.
    pub fn claim(&self) -> (r: Option<&Claim>)
        ensures
            r matches Some(c) ==> self.claim_spec() == Some(*c),
            r is None <==> self.claim_spec() is None,
            r is None <==> self.subtask_spec().lifecycle_spec().active_claim_id is None,
            r matches Some(c) ==> self.subtask_spec().lifecycle_spec().active_claim_id matches Some(id) && c.claim_id@ == id@
                && c.subtask_id@ == self.subtask_spec().subtask_id_spec(),
    {
        proof {
            use_type_invariant(self);
        }
        self.claim.as_ref()
    }

    /// The artifact, present exactly when the lifecycle carries one, and then
    /// that artifact, produced by this subtask.
    pub fn artifact(&self) -> (r: Option<&Artifact>)
        ensures
            r matches Some(a) ==> self.artifact_spec() == Some(*a),
            r is None <==> self.artifact_spec() is None,
            r is None <==> self.subtask_spec().lifecycle_spec().artifact_digest is None,
            r matches Some(a) ==> self.subtask_spec().lifecycle_spec().artifact_digest matches Some(d) && a.artifact_digest@ == d@
                && a.produced_by_subtask_id@ == self.subtask_spec().subtask_id_spec(),
    {
        proof {
            use_type_invariant(self);
        }
        self.artifact.as_ref()
    }

    /// The outcomes of completed execution attempts.
    pub fn attempt_outcomes(&self) -> (r: &[AttemptOutcome])
        ensures
            r@ == self.attempt_outcomes_spec(),
    {
        self.attempt_outcomes.as_slice()
    }

    /// The reviews of the subtask.
    pub fn reviews(&self) -> (r: &[Review])
        ensures
            r@ == self.reviews_spec(),
    {
        self.reviews.as_slice()
    }

    /// The apply queue items of the subtask.
    pub fn ready_queue(&self) -> (r: &[ReadyQueueItem])
        ensures
            r@ == self.ready_queue_spec(),
    {
        self.ready_queue.as_slice()
    }

    /// The readiness projection.
    pub fn readiness(&self) -> (r: &SubtaskReadinessStatus)
        ensures
            *r == self.readiness_spec(),
    {
        &self.readiness
    }
}

// ---------------------------------------------------------------- meta-task status

/// A meta-task together with its subtasks.
#[derive(Debug)]
pub struct MetaTaskStatus {
    meta_task: MetaTask,
    subtasks: Vec<SubtaskView>,
}

impl MetaTaskStatus {
    /// The meta-task row.
    pub closed spec fn meta_task_spec(&self) -> MetaTask {
        self.meta_task
    }

    /// The subtask views.
    pub closed spec fn subtasks_spec(&self) -> Seq<SubtaskView> {
        self.subtasks@
    }

    /// Builds a status whose subtasks all belong to the meta-task.
    pub fn new(meta_task: MetaTask, subtasks: Vec<SubtaskView>) -> (r: Result<Self, String>)
        ensures
            r is Err <==> exists|k: int| 0 <= k < subtasks@.len()
                && (#[trigger] subtasks@[k]).meta_task_id_spec() != meta_task.meta_task_id@,
            r matches Err(e) ==> e@ == "meta-task status subtasks must belong to the meta-task"@,
            r matches Ok(s) ==> s.meta_task_spec() == meta_task && s.subtasks_spec() == subtasks@,
    {
        let mut k: usize = 0;
        while k < subtasks.len()
            invariant
                k <= subtasks@.len(),
                forall|j: int| 0 <= j < k ==> (#[trigger] subtasks@[j]).meta_task_id_spec() == meta_task.meta_task_id@,
            decreases subtasks@.len() - k,
        {
            if !str_eq(subtasks[k].meta_task_id(), meta_task.meta_task_id.as_str()) {
                return Err(owned("meta-task status subtasks must belong to the meta-task"));
            }
            k = k + 1;
        }
        Ok(MetaTaskStatus { meta_task, subtasks })
    }

    /// The meta-task row.
    pub fn meta_task(&self) -> (r: &MetaTask)
        ensures
            *r == self.meta_task_spec(),
    {
        &self.meta_task
    }

    /// The subtasks of the meta-task.
    pub fn subtasks(&self) -> (r: &[SubtaskView])
        ensures
            r@ == self.subtasks_spec(),
    {
        self.subtasks.as_slice()
    }
}

// ---------------------------------------------------------------- scheduler read models

/// How many subtasks each lane can claim now.
#[derive(Debug, Clone, Copy, PartialEq, Eq, Structural)]
pub struct ClaimableSubtaskAvailability {
    executor_claimable_count: usize,
    reviewer_claimable_count: usize,
}

impl ClaimableSubtaskAvailability {
    /// Work subtasks claimable by executors.
    pub closed spec fn executor_spec(&self) -> usize {
        self.executor_claimable_count
    }

    /// Review subtasks claimable by review sessions.
    pub closed spec fn reviewer_spec(&self) -> usize {
        self.reviewer_claimable_count
    }

    /// Builds the summary.
    pub fn new(executor_claimable_count: usize, reviewer_claimable_count: usize) -> (r: Self)
        ensures
            r.executor_spec() == executor_claimable_count,
            r.reviewer_spec() == reviewer_claimable_count,
    {
        ClaimableSubtaskAvailability { executor_claimable_count, reviewer_claimable_count }
    }

    /// How many work subtasks executors can claim.
    pub fn executor_claimable_count(&self) -> (r: usize)
        ensures
            r == self.executor_spec(),
    {
        self.executor_claimable_count
    }

    /// How many review subtasks review sessions can claim.
    pub fn reviewer_claimable_count(&self) -> (r: usize)
        ensures
            r == self.reviewer_spec(),
    {
        self.reviewer_claimable_count
    }
}

/// Scheduler candidate for the executor or review lane.
#[derive(Debug)]
pub struct SubtaskCandidate {
    pub subtask_id: String,
    pub meta_task_id: String,
    pub title: String,
    pub kind: SubtaskKind,
    pub review_target: Option<ReviewTarget>,
    pub state: SubtaskState,
    pub artifact_digest: Option<String>,
    pub priority: i64,
    pub completion_policy: CompletionPolicy,
    pub routing_key: String,
    pub effective_priority: i64,
    pub is_repair_followup: bool,
    pub blocked_dependents_count: usize,
    pub created_at: i64,
    pub updated_at: i64,
}

/// Why a candidate is rejected, if it is: the review target must be given,
/// whole, exactly for reviews, and the update must not precede creation.
pub open spec fn candidate_error(
    kind: SubtaskKind,
    review_target_subtask_id: Option<String>,
    review_target_artifact_digest: Option<String>,
    created_at: i64,
    updated_at: i64,
) -> Option<Seq<char>> {
    if kind == SubtaskKind::Work && (review_target_subtask_id is Some || review_target_artifact_digest is Some) {
        Some("work candidate cannot carry review target"@)
    } else if kind == SubtaskKind::Cleanup && (review_target_subtask_id is Some || review_target_artifact_digest is Some) {
        Some("cleanup candidate cannot carry review target"@)
    } else if kind == SubtaskKind::Review && (review_target_subtask_id is None || review_target_artifact_digest is None) {
        Some("review candidate requires complete review target"@)
    } else if updated_at < created_at {
        Some("candidate updated_at must be greater than or equal to created_at"@)
    } else {
        None
    }
}

/// The review target a candidate carries.
pub open spec fn candidate_target(
    review_target_subtask_id: Option<String>,
    review_target_artifact_digest: Option<String>,
) -> Option<ReviewTarget> {
    match (review_target_subtask_id, review_target_artifact_digest) {
        (Some(s), Some(d)) => Some(ReviewTarget { subtask_id: s, artifact_digest: d }),
        _ => None,
    }
}

impl SubtaskCandidate {
    /// Builds a candidate with its completion policy and routing key.
    pub fn new_with_execution_contract(
        subtask_id: String,
        meta_task_id: String,
        title: String,
        kind: SubtaskKind,
        review_target_subtask_id: Option<String>,
        review_target_artifact_digest: Option<String>,
        state: SubtaskState,
        artifact_digest: Option<String>,
        priority: i64,
        completion_policy: CompletionPolicy,
        routing_key: String,
        effective_priority: i64,
        is_repair_followup: bool,
        blocked_dependents_count: usize,
        created_at: i64,
        updated_at: i64,
    ) -> (r: Result<Self, String>)
        ensures
            r is Err <==> candidate_error(kind, review_target_subtask_id, review_target_artifact_digest, created_at, updated_at) is Some,
            r matches Err(e) ==> Some(e@) == candidate_error(kind, review_target_subtask_id, review_target_artifact_digest, created_at, updated_at),
            r matches Ok(c) ==> c == (SubtaskCandidate {
                subtask_id,
                meta_task_id,
                title,
                kind,
                review_target: candidate_target(review_target_subtask_id, review_target_artifact_digest),
                state,
                artifact_digest,
                priority,
                completion_policy,
                routing_key,
                effective_priority,
                is_repair_followup,
                blocked_dependents_count,
                created_at,
                updated_at,
            }),
    {
        let review_target = match kind {
            SubtaskKind::Work => {
                if review_target_subtask_id.is_some() || review_target_artifact_digest.is_some() {
                    return Err(owned("work candidate cannot carry review target"));
                }
                None
            },
            SubtaskKind::Cleanup => {
                if review_target_subtask_id.is_some() || review_target_artifact_digest.is_some() {
                    return Err(owned("cleanup candidate cannot carry review target"));
                }
                None
            },
            SubtaskKind::Review => match (review_target_subtask_id, review_target_artifact_digest) {
                (Some(s), Some(d)) => Some(ReviewTarget::new(s, d)),
                _ => {
                    return Err(owned("review candidate requires complete review target"));
                },
            },
        };
        if updated_at < created_at {
            return Err(owned("candidate updated_at must be greater than or equal to created_at"));
        }
        Ok(SubtaskCandidate {
            subtask_id,
            meta_task_id,
            title,
            kind,
            review_target,
            state,
            artifact_digest,
            priority,
            completion_policy,
            routing_key,
            effective_priority,
            is_repair_followup,
            blocked_dependents_count,
            created_at,
            updated_at,
        })
    }

    /// Builds a candidate with the direct completion policy and the
    /// `default` routing key.
    pub fn new(
        subtask_id: String,
        meta_task_id: String,
        title: String,
        kind: SubtaskKind,
        review_target_subtask_id: Option<String>,
        review_target_artifact_digest: Option<String>,
        state: SubtaskState,
        artifact_digest: Option<String>,
        priority: i64,
        effective_priority: i64,
        is_repair_followup: bool,
        blocked_dependents_count: usize,
        created_at: i64,
        updated_at: i64,
    ) -> (r: Result<Self, String>)
        ensures
            r is Err <==> candidate_error(kind, review_target_subtask_id, review_target_artifact_digest, created_at, updated_at) is Some,
            r matches Err(e) ==> Some(e@) == candidate_error(kind, review_target_subtask_id, review_target_artifact_digest, created_at, updated_at),
            r matches Ok(c) ==> {
                &&& c.subtask_id == subtask_id
                &&& c.meta_task_id == meta_task_id
                &&& c.title == title
                &&& c.kind == kind
                &&& c.review_target == candidate_target(review_target_subtask_id, review_target_artifact_digest)
                &&& c.state == state
                &&& c.artifact_digest == artifact_digest
                &&& c.priority == priority
                &&& c.completion_policy == CompletionPolicy::Direct
                &&& c.routing_key@ == "default"@
                &&& c.effective_priority == effective_priority
                &&& c.is_repair_followup == is_repair_followup
                &&& c.blocked_dependents_count == blocked_dependents_count
                &&& c.created_at == created_at
                &&& c.updated_at == updated_at
            },
    {
        Self::new_with_execution_contract(
            subtask_id,
            meta_task_id,
            title,
            kind,
            review_target_subtask_id,
            review_target_artifact_digest,
            state,
            artifact_digest,
            priority,
            CompletionPolicy::Direct,
            owned("default"),
            effective_priority,
            is_repair_followup,
            blocked_dependents_count,
            created_at,
            updated_at,
        )
    }
}

/// Scheduler candidate for the apply lane.
#[derive(Debug)]
pub struct ReadyQueueCandidate {
    pub queue_id: String,
    pub artifact_digest: String,
    pub subtask_id: String,
    pub settlement_target: SettlementTarget,
    pub state: ReadyQueueState,
    pub last_claim_fence_seq: Option<i64>,
    pub enqueued_at: i64,
    pub updated_at: i64,
}

impl ReadyQueueCandidate {
    /// Builds an apply-lane candidate from a queued item.
    pub fn from_item(item: &ReadyQueueItem) -> (r: Result<Self, String>)
        ensures
            r is Err <==> item.state != ReadyQueueState::Queued,
            r matches Err(e) ==> e@ == "ready-queue candidate must be queued"@,
            r matches Ok(c) ==> c == (ReadyQueueCandidate {
                queue_id: item.queue_id,
                artifact_digest: item.artifact_digest,
                subtask_id: item.subtask_id,
                settlement_target: item.settlement_target,
                state: item.state,
                last_claim_fence_seq: item.claim_fence_seq,
                enqueued_at: item.enqueued_at,
                updated_at: item.updated_at,
            }),
    {
        if item.state != ReadyQueueState::Queued {
            return Err(owned("ready-queue candidate must be queued"));
        }
        Ok(ReadyQueueCandidate {
            queue_id: item.queue_id.clone(),
            artifact_digest: item.artifact_digest.clone(),
            subtask_id: item.subtask_id.clone(),
            settlement_target: item.settlement_target,
            state: item.state,
            last_claim_fence_seq: item.claim_fence_seq,
            enqueued_at: item.enqueued_at,
            updated_at: item.updated_at,
        })
    }
}

/// The apply-lane candidates of the queued items fetched in enqueue order;
/// an item that is not queued makes the whole read an invalid row.
pub fn ready_queue_candidates(items: &Vec<ReadyQueueItem>) -> (r: Result<Vec<ReadyQueueCandidate>, crate::error::CoveyError>)
    ensures
        r is Ok <==> forall|k: int| 0 <= k < items@.len() ==> (#[trigger] items@[k]).state == ReadyQueueState::Queued,
        r is Err ==> (r->Err_0 matches crate::error::CoveyError::InvalidObservabilityRow { reason } && reason@
            == "ready-queue candidate must be queued"@),
        r matches Ok(c) ==> c@.len() == items@.len() && forall|k: int|
            0 <= k < items@.len() ==> (#[trigger] c@[k]).queue_id == items@[k].queue_id && c@[k].artifact_digest
                == items@[k].artifact_digest && c@[k].subtask_id == items@[k].subtask_id && c@[k].settlement_target
                == items@[k].settlement_target && c@[k].state == items@[k].state && c@[k].last_claim_fence_seq
                == items@[k].claim_fence_seq && c@[k].enqueued_at == items@[k].enqueued_at && c@[k].updated_at
                == items@[k].updated_at,
{
    let mut out: Vec<ReadyQueueCandidate> = Vec::new();
    let mut i: usize = 0;
    while i < items.len()
        invariant
            i <= items@.len(),
            out@.len() == i,
            forall|k: int| 0 <= k < i ==> (#[trigger] items@[k]).state == ReadyQueueState::Queued,
            forall|k: int|
                0 <= k < i ==> (#[trigger] out@[k]).queue_id == items@[k].queue_id && out@[k].artifact_digest
                    == items@[k].artifact_digest && out@[k].subtask_id == items@[k].subtask_id
                    && out@[k].settlement_target == items@[k].settlement_target && out@[k].state == items@[k].state
                    && out@[k].last_claim_fence_seq == items@[k].claim_fence_seq && out@[k].enqueued_at
                    == items@[k].enqueued_at && out@[k].updated_at == items@[k].updated_at,
        decreases items@.len() - i,
    {
        match ReadyQueueCandidate::from_item(&items[i]) {
            Ok(c) => out.push(c),
            Err(reason) => {
                return Err(crate::error::CoveyError::InvalidObservabilityRow { reason });
            },
        }
        i = i + 1;
    }
    Ok(out)
}

// ---------------------------------------------------------------- reconcile results

/// Queue rows created by reconciling approved and ready-for-apply work.
#[derive(Debug)]
pub struct ApplyQueueReconcileResult {
    pub approved_enqueued_count: usize,
    pub ready_for_apply_enqueued_count: usize,
    pub queue_ids: Vec<String>,
}

impl ApplyQueueReconcileResult {
    /// Builds the result.
    pub fn new(approved_enqueued_count: usize, ready_for_apply_enqueued_count: usize, queue_ids: Vec<String>) -> (r: Self)
        ensures
            r == (ApplyQueueReconcileResult { approved_enqueued_count, ready_for_apply_enqueued_count, queue_ids }),
    {
        ApplyQueueReconcileResult { approved_enqueued_count, ready_for_apply_enqueued_count, queue_ids }
    }

    /// How many queue rows reconciliation created in all.
    pub fn enqueued_count(&self) -> (r: usize)
        requires
            self.approved_enqueued_count + self.ready_for_apply_enqueued_count <= usize::MAX,
        ensures
            r == self.approved_enqueued_count + self.ready_for_apply_enqueued_count,
    {
        self.approved_enqueued_count + self.ready_for_apply_enqueued_count
    }
}

/// Repair follow-ups created by reconciling changes-requested reviews.
#[derive(Debug)]
pub struct ChangesRequestedFollowupReconcileResult {
    pub created_count: usize,
    pub followup_subtask_ids: Vec<String>,
}

impl ChangesRequestedFollowupReconcileResult {
    /// Builds the result; the count is the number of follow-ups.
    pub fn new(followup_subtask_ids: Vec<String>) -> (r: Self)
        ensures
            r.created_count == followup_subtask_ids@.len(),
            r.followup_subtask_ids == followup_subtask_ids,
    {
        let created_count = followup_subtask_ids.len();
        ChangesRequestedFollowupReconcileResult { created_count, followup_subtask_ids }
    }
}

// ---------------------------------------------------------------- archive facts

/// Archive readiness of one OpenSpec change.
#[derive(Debug)]
pub struct OpenSpecArchiveEligibility {
    pub openspec_change_id: String,
    pub scoped_subtasks: Vec<SubtaskView>,
    pub open_archive_blockers: Vec<OpenSpecArchiveStatus>,
    pub pending_subtasks: Vec<SubtaskView>,
    pub safe_to_archive: bool,
}

impl OpenSpecArchiveEligibility {
    /// Builds the facts: safe to archive when the change has subtasks, none
    /// is pending, and some archive blocker is open.
    pub fn new(
        openspec_change_id: String,
        scoped_subtasks: Vec<SubtaskView>,
        open_archive_blockers: Vec<OpenSpecArchiveStatus>,
        pending_subtasks: Vec<SubtaskView>,
    ) -> (r: Self)
        ensures
            r.openspec_change_id == openspec_change_id,
            r.scoped_subtasks == scoped_subtasks,
            r.open_archive_blockers == open_archive_blockers,
            r.pending_subtasks == pending_subtasks,
            r.safe_to_archive == (scoped_subtasks@.len() > 0 && pending_subtasks@.len() == 0
                && open_archive_blockers@.len() > 0),
    {
        let safe_to_archive = scoped_subtasks.len() > 0 && pending_subtasks.len() == 0
            && open_archive_blockers.len() > 0;
        OpenSpecArchiveEligibility {
            openspec_change_id,
            scoped_subtasks,
            open_archive_blockers,
            pending_subtasks,
            safe_to_archive,
        }
    }
}

/// Cleanup claim facts for one OpenSpec archive operation.
#[derive(Debug)]
pub struct OpenSpecArchiveCleanupClaim {
    pub openspec_change_id: String,
    pub cleanup_subtask_id: String,
    pub cleanup_claim_id: String,
    pub fence_seq: i64,
    pub archive_paths: Vec<String>,
    pub open_archive_blockers: Vec<OpenSpecArchiveStatus>,
}

impl OpenSpecArchiveCleanupClaim {
    /// Builds the facts.
    pub fn new(
        openspec_change_id: String,
        cleanup_subtask_id: String,
        cleanup_claim_id: String,
        fence_seq: i64,
        archive_paths: Vec<String>,
        open_archive_blockers: Vec<OpenSpecArchiveStatus>,
    ) -> (r: Self)
        ensures
            r == (OpenSpecArchiveCleanupClaim {
                openspec_change_id,
                cleanup_subtask_id,
                cleanup_claim_id,
                fence_seq,
                archive_paths,
                open_archive_blockers,
            }),
    {
        OpenSpecArchiveCleanupClaim {
            openspec_change_id,
            cleanup_subtask_id,
            cleanup_claim_id,
            fence_seq,
            archive_paths,
            open_archive_blockers,
        }
    }
}

/// Result of resolving the archive blockers of one change.
#[derive(Debug)]
pub struct OpenSpecArchiveCleanupFinish {
    pub openspec_change_id: String,
    pub archive_proof_digest: String,
    pub archived_queue_ids: Vec<String>,
    pub cleanup_subtask_id: String,
    pub cleanup_claim_id: String,
}

// ---------------------------------------------------------------- arithmetic

/// The larger of two integers.
pub open spec fn max_i64(a: i64, b: i64) -> i64 {
    if a >= b {
        a
    } else {
        b
    }
}

/// An integer clamped into the range of `i64`.
pub open spec fn saturate_i64(x: int) -> i64 {
    if x > i64::MAX {
        i64::MAX
    } else if x < i64::MIN {
        i64::MIN
    } else {
        x as i64
    }
}

/// `a - b`, clamped into the range of `i64`.
pub fn saturating_sub_i64(a: i64, b: i64) -> (r: i64)
    ensures
        r == saturate_i64(a - b),
{
    let d: i128 = a as i128 - b as i128;
    if d > i64::MAX as i128 {
        i64::MAX
    } else if d < i64::MIN as i128 {
        i64::MIN
    } else {
        d as i64
    }
}

} // verus!
