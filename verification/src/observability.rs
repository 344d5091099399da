//! Observability rows: stuck subtasks, expiring claims, ready-queue metrics,
//! landing authorizations and maintenance pass results.
use vstd::prelude::*;
use crate::current_work::opt_view;
use crate::model::{ArtifactKind, Claim, Session};
use crate::status::SubtaskView;
use crate::text::{concat2, concat3, owned, str_eq};

verus! {

// ---------------------------------------------------------------- attachment checks

/// Why a claim does not match a subtask, if it does not.
pub open spec fn claim_match_error(context: Seq<char>, subtask: SubtaskView, claim: Claim) -> Option<Seq<char>> {
    if claim.subtask_id@ != subtask.subtask_id_spec() {
        Some(context + " claim must belong to the subtask"@)
    } else if opt_view(subtask.lifecycle_spec().active_claim_id) != Some(claim.claim_id@) {
        Some(context + " claim_id must match the subtask active claim"@)
    } else {
        None
    }
}

/// Why a session does not own a claim on the subtask, if it does not.
pub open spec fn session_match_error(context: Seq<char>, subtask: SubtaskView, claim: Claim, session: Session) -> Option<Seq<char>> {
    if session.session_token@ != claim.owner_session_token@ {
        Some(context + " session must own the claim"@)
    } else {
        match session.active_subtask_id {
            Some(a) => if a@ == subtask.subtask_id_spec() {
                None
            } else {
                Some(context + " session active_subtask_id must match the subtask"@)
            },
            None => Some(context + " session must be active on the claimed subtask"@),
        }
    }
}

fn check_claim_matches(context: &str, subtask: &SubtaskView, claim: &Claim) -> (r: Result<(), String>)
    ensures
        r is Err <==> claim_match_error(context@, *subtask, *claim) is Some,
        r matches Err(e) ==> Some(e@) == claim_match_error(context@, *subtask, *claim),
{
    if !str_eq(claim.subtask_id.as_str(), subtask.subtask_id()) {
        return Err(concat2(context, " claim must belong to the subtask"));
    }
    let matches = match subtask.active_claim_id() {
        Some(a) => str_eq(a.as_str(), claim.claim_id.as_str()),
        None => false,
    };
    if !matches {
        return Err(concat2(context, " claim_id must match the subtask active claim"));
    }
    Ok(())
}

fn check_session_matches(context: &str, subtask: &SubtaskView, claim: &Claim, session: &Session) -> (r: Result<(), String>)
    ensures
        r is Err <==> session_match_error(context@, *subtask, *claim, *session) is Some,
        r matches Err(e) ==> Some(e@) == session_match_error(context@, *subtask, *claim, *session),
{
    if !str_eq(session.session_token.as_str(), claim.owner_session_token.as_str()) {
        return Err(concat2(context, " session must own the claim"));
    }
    match &session.active_subtask_id {
        Some(a) => {
            if str_eq(a.as_str(), subtask.subtask_id()) {
                Ok(())
            } else {
                Err(concat2(context, " session active_subtask_id must match the subtask"))
            }
        },
        None => Err(concat2(context, " session must be active on the claimed subtask")),
    }
}

// ---------------------------------------------------------------- stuck subtask

/// Why a stuck-subtask row is rejected, if it is: a negative idle time, a
/// claim that does not match the subtask's active claim, or a session that
/// does not own that claim.
pub open spec fn stuck_error(subtask: SubtaskView, claim: Option<Claim>, session: Option<Session>, idle_for_ms: i64) -> Option<Seq<char>> {
    if idle_for_ms < 0 {
        Some("idle_for_ms must not be negative"@)
    } else {
        match (subtask.lifecycle_spec().active_claim_id, claim) {
            (Some(_), Some(c)) => if claim_match_error("stuck subtask"@, subtask, c) is Some {
                claim_match_error("stuck subtask"@, subtask, c)
            } else {
                match session {
                    Some(s) => session_match_error("stuck subtask"@, subtask, c, s),
                    None => Some("stuck subtask requires session row for active claim"@),
                }
            },
            (Some(_), None) => Some("stuck subtask requires active claim row"@),
            (None, Some(_)) => Some("stuck subtask must not include claim without active claim"@),
            (None, None) => match session {
                Some(_) => Some("stuck subtask must not include session without claim"@),
                None => None,
            },
        }
    }
}

/// A subtask that has not moved recently, with its claim and owner session
/// when it is claimed.
#[derive(Debug)]
pub struct StuckSubtask {
    subtask: SubtaskView,
    claim: Option<Claim>,
    session: Option<Session>,
    idle_for_ms: i64,
}

impl StuckSubtask {
    /// The idle subtask.
    pub closed spec fn subtask_spec(&self) -> SubtaskView {
        self.subtask
    }

    /// The attached claim.
    pub closed spec fn claim_spec(&self) -> Option<Claim> {
        self.claim
    }

    /// The attached session.
    pub closed spec fn session_spec(&self) -> Option<Session> {
        self.session
    }

    /// How long the subtask has been idle.
    pub closed spec fn idle_spec(&self) -> i64 {
        self.idle_for_ms
    }

    /// Builds a row, checking the idle time and that claim and session
    /// belong to the subtask.
    pub fn new(subtask: SubtaskView, claim: Option<Claim>, session: Option<Session>, idle_for_ms: i64) -> (r: Result<Self, String>)
        ensures
            r is Err <==> stuck_error(subtask, claim, session, idle_for_ms) is Some,
            r matches Err(e) ==> Some(e@) == stuck_error(subtask, claim, session, idle_for_ms),
            r matches Ok(s) ==> s.subtask_spec() == subtask && s.claim_spec() == claim && s.session_spec() == session
                && s.idle_spec() == idle_for_ms,
    {
        if idle_for_ms < 0 {
            return Err(owned("idle_for_ms must not be negative"));
        }
        match (subtask.active_claim_id(), &claim) {
            (Some(_), Some(c)) => {
                check_claim_matches("stuck subtask", &subtask, c)?;
                match &session {
                    Some(s) => check_session_matches("stuck subtask", &subtask, c, s)?,
                    None => {
                        return Err(owned("stuck subtask requires session row for active claim"));
                    },
                }
            },
            (Some(_), None) => {
                return Err(owned("stuck subtask requires active claim row"));
            },
            (None, Some(_)) => {
                return Err(owned("stuck subtask must not include claim without active claim"));
            },
            (None, None) => {
                if session.is_some() {
                    return Err(owned("stuck subtask must not include session without claim"));
                }
            },
        }
        Ok(StuckSubtask { subtask, claim, session, idle_for_ms })
    }

    /// The idle subtask.
    pub fn subtask(&self) -> (r: &SubtaskView)
        ensures
            *r == self.subtask_spec(),
    {
        &self.subtask
    }

    /// The active claim, when the subtask is claimed.
    pub fn claim(&self) -> (r: Option<&Claim>)
        ensures
            r matches Some(c) ==> self.claim_spec() == Some(*c),
            r is None <==> self.claim_spec() is None,
    {
        self.claim.as_ref()
    }

    /// The claim owner's session, when the subtask is claimed.
    pub fn session(&self) -> (r: Option<&Session>)
        ensures
            r matches Some(s) ==> self.session_spec() == Some(*s),
            r is None <==> self.session_spec() is None,
    {
        self.session.as_ref()
    }

    /// How long the subtask has been idle.
    pub fn idle_for_ms(&self) -> (r: i64)
        ensures
            r == self.idle_spec(),
    {
        self.idle_for_ms
    }
}

// ---------------------------------------------------------------- expiring claim

/// Why an expiring-claim row is rejected, if it is.
pub open spec fn expiring_error(claim: Claim, subtask: SubtaskView, session: Session, expires_in_ms: i64) -> Option<Seq<char>> {
    if expires_in_ms < 0 {
        Some("expires_in_ms must not be negative"@)
    } else if claim_match_error("expiring claim"@, subtask, claim) is Some {
        claim_match_error("expiring claim"@, subtask, claim)
    } else {
        session_match_error("expiring claim"@, subtask, claim, session)
    }
}

/// A held claim whose lease deadline is near.
#[derive(Debug)]
pub struct ExpiringClaim {
    claim: Claim,
    subtask: SubtaskView,
    session: Session,
    expires_in_ms: i64,
}

impl ExpiringClaim {
    /// The claim.
    pub closed spec fn claim_spec(&self) -> Claim {
        self.claim
    }

    /// The claimed subtask.
    pub closed spec fn subtask_spec(&self) -> SubtaskView {
        self.subtask
    }

    /// The owner session.
    pub closed spec fn session_spec(&self) -> Session {
        self.session
    }

    /// How long until the lease expires.
    pub closed spec fn expires_spec(&self) -> i64 {
        self.expires_in_ms
    }

    /// Builds a row, checking the remaining time and that claim, subtask and
    /// session describe the same active claim.
    pub fn new(claim: Claim, subtask: SubtaskView, session: Session, expires_in_ms: i64) -> (r: Result<Self, String>)
        ensures
            r is Err <==> expiring_error(claim, subtask, session, expires_in_ms) is Some,
            r matches Err(e) ==> Some(e@) == expiring_error(claim, subtask, session, expires_in_ms),
            r matches Ok(x) ==> x.claim_spec() == claim && x.subtask_spec() == subtask && x.session_spec() == session
                && x.expires_spec() == expires_in_ms,
    {
        if expires_in_ms < 0 {
            return Err(owned("expires_in_ms must not be negative"));
        }
        check_claim_matches("expiring claim", &subtask, &claim)?;
        check_session_matches("expiring claim", &subtask, &claim, &session)?;
        Ok(ExpiringClaim { claim, subtask, session, expires_in_ms })
    }

    /// The expiring claim.
    pub fn claim(&self) -> (r: &Claim)
        ensures
            *r == self.claim_spec(),
    {
        &self.claim
    }

    /// The claimed subtask.
    pub fn subtask(&self) -> (r: &SubtaskView)
        ensures
            *r == self.subtask_spec(),
    {
        &self.subtask
    }

    /// The owner session.
    pub fn session(&self) -> (r: &Session)
        ensures
            *r == self.session_spec(),
    {
        &self.session
    }

    /// How long until the lease expires.
    pub fn expires_in_ms(&self) -> (r: i64)
        ensures
            r == self.expires_spec(),
    {
        self.expires_in_ms
    }
}

// ---------------------------------------------------------------- ready-queue metrics

/// Why one bucket of queue metrics is rejected, if it is: an age must be
/// given exactly when the bucket is not empty, and must not be negative.
pub open spec fn bucket_error(label: Seq<char>, count: usize, oldest_age_ms: Option<i64>) -> Option<Seq<char>> {
    match oldest_age_ms {
        None => if count == 0 {
            None
        } else {
            Some("non-empty "@ + label + " ready-queue metrics require oldest age"@)
        },
        Some(age) => if count == 0 {
            Some("empty "@ + label + " ready-queue metrics must not include oldest age"@)
        } else if age < 0 {
            Some(label + " ready-queue oldest age must not be negative"@)
        } else {
            None
        },
    }
}

fn check_bucket(label: &str, count: usize, oldest_age_ms: Option<i64>) -> (r: Result<(), String>)
    ensures
        r is Err <==> bucket_error(label@, count, oldest_age_ms) is Some,
        r matches Err(e) ==> Some(e@) == bucket_error(label@, count, oldest_age_ms),
{
    match oldest_age_ms {
        None => if count == 0 {
            Ok(())
        } else {
            Err(concat3("non-empty ", label, " ready-queue metrics require oldest age"))
        },
        Some(age) => if count == 0 {
            Err(concat3("empty ", label, " ready-queue metrics must not include oldest age"))
        } else if age < 0 {
            Err(concat2(label, " ready-queue oldest age must not be negative"))
        } else {
            Ok(())
        },
    }
}

/// The age at wall time `now` of an item enqueued at `enqueued_at`, never negative.
pub open spec fn age_since(enqueued_at: Option<i64>, now: i64) -> Option<i64> {
    match enqueued_at {
        Some(t) => Some(if now - t > 0 { (now - t) as i64 } else { 0i64 }),
        None => None,
    }
}

/// Counts and oldest ages of the queued and in-flight apply items.
#[derive(Debug, Clone, Copy, PartialEq, Eq, Structural)]
pub struct ReadyQueueMetrics {
    queued_count: usize,
    in_flight_count: usize,
    oldest_queued_age_ms: Option<i64>,
    oldest_in_flight_age_ms: Option<i64>,
}

impl ReadyQueueMetrics {
    /// Queued items.
    pub closed spec fn queued_spec(&self) -> usize {
        self.queued_count
    }

    /// In-flight items.
    pub closed spec fn in_flight_spec(&self) -> usize {
        self.in_flight_count
    }

    /// Age of the oldest queued item.
    pub closed spec fn oldest_queued_spec(&self) -> Option<i64> {
        self.oldest_queued_age_ms
    }

    /// Age of the oldest in-flight item.
    pub closed spec fn oldest_in_flight_spec(&self) -> Option<i64> {
        self.oldest_in_flight_age_ms
    }

    /// Builds the metrics, checking each bucket, queued first.
    pub fn new(
        queued_count: usize,
        in_flight_count: usize,
        oldest_queued_age_ms: Option<i64>,
        oldest_in_flight_age_ms: Option<i64>,
    ) -> (r: Result<Self, String>)
        ensures
            r is Err <==> (bucket_error("queued"@, queued_count, oldest_queued_age_ms) is Some
                || bucket_error("in_flight"@, in_flight_count, oldest_in_flight_age_ms) is Some),
            r matches Err(e) ==> Some(e@) == if bucket_error("queued"@, queued_count, oldest_queued_age_ms) is Some {
                bucket_error("queued"@, queued_count, oldest_queued_age_ms)
            } else {
                bucket_error("in_flight"@, in_flight_count, oldest_in_flight_age_ms)
            },
            r matches Ok(m) ==> m.queued_spec() == queued_count && m.in_flight_spec() == in_flight_count
                && m.oldest_queued_spec() == oldest_queued_age_ms && m.oldest_in_flight_spec() == oldest_in_flight_age_ms,
    {
        check_bucket("queued", queued_count, oldest_queued_age_ms)?;
        check_bucket("in_flight", in_flight_count, oldest_in_flight_age_ms)?;
        Ok(ReadyQueueMetrics { queued_count, in_flight_count, oldest_queued_age_ms, oldest_in_flight_age_ms })
    }

    /// Builds the metrics from the queue's aggregate row at wall time `now`:
    /// negative counts read as zero, and each oldest age is the time since
    /// the oldest enqueue, never negative.
    pub fn from_counts(
        queued_count: i64,
        oldest_queued_enqueued_at: Option<i64>,
        in_flight_count: i64,
        oldest_in_flight_enqueued_at: Option<i64>,
        now: i64,
    ) -> (r: Result<Self, crate::error::CoveyError>)
        requires
            oldest_queued_enqueued_at matches Some(t) ==> i64::MIN <= now - t <= i64::MAX,
            oldest_in_flight_enqueued_at matches Some(t) ==> i64::MIN <= now - t <= i64::MAX,
        ensures
            ({
                let q = if queued_count > 0 { queued_count as usize } else { 0usize };
                let f = if in_flight_count > 0 { in_flight_count as usize } else { 0usize };
                let qa = age_since(oldest_queued_enqueued_at, now);
                let fa = age_since(oldest_in_flight_enqueued_at, now);
                &&& r is Err <==> (bucket_error("queued"@, q, qa) is Some || bucket_error("in_flight"@, f, fa) is Some)
                &&& r matches Ok(m) ==> m.queued_spec() == q && m.in_flight_spec() == f && m.oldest_queued_spec() == qa
                    && m.oldest_in_flight_spec() == fa
                &&& r is Err ==> (r->Err_0 matches crate::error::CoveyError::InvalidReadyQueueMetrics { reason } && Some(
                    reason@,
                ) == if bucket_error("queued"@, q, qa) is Some {
                    bucket_error("queued"@, q, qa)
                } else {
                    bucket_error("in_flight"@, f, fa)
                })
            }),
    {
        let q: usize = if queued_count > 0 { queued_count as usize } else { 0 };
        let f: usize = if in_flight_count > 0 { in_flight_count as usize } else { 0 };
        let qa = match oldest_queued_enqueued_at {
            Some(t) => Some(if now - t > 0 { now - t } else { 0 }),
            None => None,
        };
        let fa = match oldest_in_flight_enqueued_at {
            Some(t) => Some(if now - t > 0 { now - t } else { 0 }),
            None => None,
        };
        match Self::new(q, f, qa, fa) {
            Ok(m) => Ok(m),
            Err(reason) => Err(crate::error::CoveyError::InvalidReadyQueueMetrics { reason }),
        }
    }

    /// Number of queued apply items.
    pub fn queued_count(&self) -> (r: usize)
        ensures
            r == self.queued_spec(),
    {
        self.queued_count
    }

    /// Number of in-flight apply items.
    pub fn in_flight_count(&self) -> (r: usize)
        ensures
            r == self.in_flight_spec(),
    {
        self.in_flight_count
    }

    /// Age of the oldest queued apply item.
    pub fn oldest_queued_age_ms(&self) -> (r: Option<i64>)
        ensures
            r == self.oldest_queued_spec(),
    {
        self.oldest_queued_age_ms
    }

    /// Age of the oldest in-flight apply item.
    pub fn oldest_in_flight_age_ms(&self) -> (r: Option<i64>)
        ensures
            r == self.oldest_in_flight_spec(),
    {
        self.oldest_in_flight_age_ms
    }
}

// ---------------------------------------------------------------- landing authorization

/// An accepted authorization of a git landing side effect, with the
/// evidence it was accepted on.
#[derive(Debug)]
pub struct LandingAuthorizationStatus {
    queue_id: String,
    artifact_digest: String,
    artifact_kind: ArtifactKind,
    base_rev: String,
    manifest_path: String,
    changed_paths_digest: String,
    review_id: String,
    findings_digest: String,
    claim_fence_seq: i64,
    verifier: String,
    verdict_digest: String,
    seal_digest: String,
    recorded_by_session: String,
}

/// The evidence of an accepted landing authorization.
pub struct LandingAuthorizationView {
    pub queue_id: Seq<char>,
    pub artifact_digest: Seq<char>,
    pub artifact_kind: ArtifactKind,
    pub base_rev: Seq<char>,
    pub manifest_path: Seq<char>,
    pub changed_paths_digest: Seq<char>,
    pub review_id: Seq<char>,
    pub findings_digest: Seq<char>,
    pub claim_fence_seq: i64,
    pub verifier: Seq<char>,
    pub verdict_digest: Seq<char>,
    pub seal_digest: Seq<char>,
    pub recorded_by_session: Seq<char>,
}

impl View for LandingAuthorizationStatus {
    type V = LandingAuthorizationView;

    closed spec fn view(&self) -> LandingAuthorizationView {
        LandingAuthorizationView {
            queue_id: self.queue_id@,
            artifact_digest: self.artifact_digest@,
            artifact_kind: self.artifact_kind,
            base_rev: self.base_rev@,
            manifest_path: self.manifest_path@,
            changed_paths_digest: self.changed_paths_digest@,
            review_id: self.review_id@,
            findings_digest: self.findings_digest@,
            claim_fence_seq: self.claim_fence_seq,
            verifier: self.verifier@,
            verdict_digest: self.verdict_digest@,
            seal_digest: self.seal_digest@,
            recorded_by_session: self.recorded_by_session@,
        }
    }
}

impl LandingAuthorizationStatus {
    /// Builds an accepted landing authorization.
    pub fn accepted(
        queue_id: String,
        artifact_digest: String,
        artifact_kind: ArtifactKind,
        base_rev: String,
        manifest_path: String,
        changed_paths_digest: String,
        review_id: String,
        findings_digest: String,
        claim_fence_seq: i64,
        verifier: String,
        verdict_digest: String,
        seal_digest: String,
        recorded_by_session: String,
    ) -> (r: Self)
        ensures
            r@ == (LandingAuthorizationView {
                queue_id: queue_id@,
                artifact_digest: artifact_digest@,
                artifact_kind,
                base_rev: base_rev@,
                manifest_path: manifest_path@,
                changed_paths_digest: changed_paths_digest@,
                review_id: review_id@,
                findings_digest: findings_digest@,
                claim_fence_seq,
                verifier: verifier@,
                verdict_digest: verdict_digest@,
                seal_digest: seal_digest@,
                recorded_by_session: recorded_by_session@,
            }),
    {
        LandingAuthorizationStatus {
            queue_id,
            artifact_digest,
            artifact_kind,
            base_rev,
            manifest_path,
            changed_paths_digest,
            review_id,
            findings_digest,
            claim_fence_seq,
            verifier,
            verdict_digest,
            seal_digest,
            recorded_by_session,
        }
    }

    /// Reads an authorization from its flat shape, which is only emitted for
    /// accepted checks.
    pub fn from_flat(
        accepted: bool,
        queue_id: String,
        artifact_digest: String,
        artifact_kind: ArtifactKind,
        base_rev: String,
        manifest_path: String,
        changed_paths_digest: String,
        review_id: String,
        findings_digest: String,
        claim_fence_seq: i64,
        verifier: String,
        verdict_digest: String,
        seal_digest: String,
        recorded_by_session: String,
    ) -> (r: Result<Self, String>)
        ensures
            r is Ok <==> accepted,
            r matches Err(e) ==> e@ == "landing authorization status is only emitted for accepted checks"@,
            r matches Ok(s) ==> s@ == (LandingAuthorizationView {
                queue_id: queue_id@,
                artifact_digest: artifact_digest@,
                artifact_kind,
                base_rev: base_rev@,
                manifest_path: manifest_path@,
                changed_paths_digest: changed_paths_digest@,
                review_id: review_id@,
                findings_digest: findings_digest@,
                claim_fence_seq,
                verifier: verifier@,
                verdict_digest: verdict_digest@,
                seal_digest: seal_digest@,
                recorded_by_session: recorded_by_session@,
            }),
    {
        Self::require_accepted(accepted)?;
        Ok(Self::accepted(
            queue_id,
            artifact_digest,
            artifact_kind,
            base_rev,
            manifest_path,
            changed_paths_digest,
            review_id,
            findings_digest,
            claim_fence_seq,
            verifier,
            verdict_digest,
            seal_digest,
            recorded_by_session,
        ))
    }

    /// A landing authorization status exists only for an accepted check;
    /// reading one that is not accepted fails before any other field counts.
    pub fn require_accepted(accepted: bool) -> (r: Result<(), String>)
        ensures
            r is Ok <==> accepted,
            r matches Err(e) ==> e@ == "landing authorization status is only emitted for accepted checks"@,
    {
        if !accepted {
            return Err(owned("landing authorization status is only emitted for accepted checks"));
        }
        Ok(())
    }

    /// Whether the live check accepted the landing: always, for this status.
    pub fn accepted_flag(&self) -> (r: bool)
        ensures
            r,
    {
        true
    }

    /// The authorized queue item.
    pub fn queue_id(&self) -> (r: &str)
        ensures
            r@ == self@.queue_id,
    {
        self.queue_id.as_str()
    }

    /// The authorized artifact.
    pub fn artifact_digest(&self) -> (r: &str)
        ensures
            r@ == self@.artifact_digest,
    {
        self.artifact_digest.as_str()
    }

    /// The authorized artifact's kind.
    pub fn artifact_kind(&self) -> (r: ArtifactKind)
        ensures
            r == self@.artifact_kind,
    {
        self.artifact_kind
    }

    /// The artifact's base revision.
    pub fn base_rev(&self) -> (r: &str)
        ensures
            r@ == self@.base_rev,
    {
        self.base_rev.as_str()
    }

    /// The artifact's manifest path.
    pub fn manifest_path(&self) -> (r: &str)
        ensures
            r@ == self@.manifest_path,
    {
        self.manifest_path.as_str()
    }

    /// The digest of the artifact's changed paths.
    pub fn changed_paths_digest(&self) -> (r: &str)
        ensures
            r@ == self@.changed_paths_digest,
    {
        self.changed_paths_digest.as_str()
    }

    /// The review bound to the authorization.
    pub fn review_id(&self) -> (r: &str)
        ensures
            r@ == self@.review_id,
    {
        self.review_id.as_str()
    }

    /// The findings digest of the review.
    pub fn findings_digest(&self) -> (r: &str)
        ensures
            r@ == self@.findings_digest,
    {
        self.findings_digest.as_str()
    }

    /// The accepted claim fence.
    pub fn claim_fence_seq(&self) -> (r: i64)
        ensures
            r == self@.claim_fence_seq,
    {
        self.claim_fence_seq
    }

    /// The verifier's identity.
    pub fn verifier_id(&self) -> (r: &str)
        ensures
            r@ == self@.verifier,
    {
        self.verifier.as_str()
    }

    /// The digest of the review outcome.
    pub fn verdict_digest(&self) -> (r: &str)
        ensures
            r@ == self@.verdict_digest,
    {
        self.verdict_digest.as_str()
    }

    /// The apply-verification seal digest.
    pub fn seal_digest(&self) -> (r: &str)
        ensures
            r@ == self@.seal_digest,
    {
        self.seal_digest.as_str()
    }

    /// The session that recorded the verifier evidence.
    pub fn recorded_by_session(&self) -> (r: &str)
        ensures
            r@ == self@.recorded_by_session,
    {
        self.recorded_by_session.as_str()
    }
}

// ---------------------------------------------------------------- maintenance results

/// Result of a stale-session reap pass.
#[derive(Debug, Clone, Copy, PartialEq, Eq, Structural)]
pub struct ReapResult {
    pub stale_sessions: usize,
}

/// Result of a lease-expiration pass.
#[derive(Debug, Clone, Copy, PartialEq, Eq, Structural)]
pub struct ExpireResult {
    pub expired_count: usize,
}

} // verus!
