//! The repo-ops authority snapshot: git context, the facts shared by every
//! snapshot, and the claim-bound or constrained snapshot itself, with the
//! rules that tie its lock facts to its subject.
use vstd::prelude::*;
use crate::authority::{
    principal_error, session_token_error, LockFactView, RepoopsAuthorityClaimFact,
    RepoopsAuthorityLockFact, RepoopsAuthorityLockStatus, RepoopsAuthorityPolicyFact,
    RepoopsAuthorityScopeFact,
};
use crate::current_work::opt_view;
use crate::authority::{claim_fact_error, patterns_error, RepoopsAuthorityClaimStatus, RepoopsAuthorityPolicyMode};
use crate::error::CoveyError;
use crate::model::{Claim, Reservation, Session, SubtaskState};
use crate::repoops::{
    claim_status_for_state, fact_views, lock_facts_exact, lock_facts_for_prepared_paths, pair_rejected,
    normalize_requested_paths, owned_pattern, ownership_token_ref, ownership_token_ref_spec,
    prepare_reservations, prepared_all, repoops_claim_status_for_subtask, scope_patterns_for_subtask,
    PreparedReservation,
};
use crate::text::{concat2, has_ctrl, is_blank, owned, str_eq, strictly_sorted, trim, views};
use crate::validate::{
    check_project_path, check_relative_path, check_text, check_token_ref, project_path_error, relative_path_error, text_error,
    token_ref_error,
};

verus! {

// ---------------------------------------------------------------- git context

/// Git context facts for repo-ops preflight: the project paths when they are
/// known, and whether git mutations need an ownership token.
#[derive(Debug)]
pub struct RepoopsAuthorityGitContextFact {
    policy_project_path: Option<String>,
    execution_project_path: Option<String>,
    repo_path_prefix: Option<String>,
    ownership_token_required: bool,
}

/// The content of git context facts.
pub struct GitContextView {
    pub policy_project_path: Option<Seq<char>>,
    pub execution_project_path: Option<Seq<char>>,
    pub repo_path_prefix: Option<Seq<char>>,
    pub ownership_token_required: bool,
}

impl View for RepoopsAuthorityGitContextFact {
    type V = GitContextView;

    closed spec fn view(&self) -> GitContextView {
        GitContextView {
            policy_project_path: opt_view(self.policy_project_path),
            execution_project_path: opt_view(self.execution_project_path),
            repo_path_prefix: opt_view(self.repo_path_prefix),
            ownership_token_required: self.ownership_token_required,
        }
    }
}

/// Why git context facts are rejected, if they are: both project paths or
/// neither, a prefix only with the paths, and each path well formed, none of
/// them traversing to a parent directory.
pub open spec fn git_context_error(policy: Option<String>, execution: Option<String>, prefix: Option<String>) -> Option<Seq<char>> {
    match (policy, execution) {
        (None, None) => match prefix {
            None => None,
            Some(_) => Some("repoops git context prefix requires project paths"@),
        },
        (Some(p), Some(e)) => if project_path_error("git_context.policy_project_path"@, p@) is Some {
            project_path_error("git_context.policy_project_path"@, p@)
        } else if project_path_error("git_context.execution_project_path"@, e@) is Some {
            project_path_error("git_context.execution_project_path"@, e@)
        } else {
            match prefix {
                Some(x) => relative_path_error("git_context.repo_path_prefix"@, x@),
                None => None,
            }
        },
        _ => Some("repoops git context requires both project paths or neither"@),
    }
}

impl RepoopsAuthorityGitContextFact {
    /// Builds git context facts from their flat shape.
    pub fn new(
        policy_project_path: Option<String>,
        execution_project_path: Option<String>,
        repo_path_prefix: Option<String>,
        ownership_token_required: bool,
    ) -> (r: Result<Self, String>)
        ensures
            r is Err <==> git_context_error(policy_project_path, execution_project_path, repo_path_prefix) is Some,
            r matches Err(e) ==> Some(e@) == git_context_error(policy_project_path, execution_project_path, repo_path_prefix),
            r matches Ok(g) ==> g@ == (GitContextView {
                policy_project_path: opt_view(policy_project_path),
                execution_project_path: opt_view(execution_project_path),
                repo_path_prefix: opt_view(repo_path_prefix),
                ownership_token_required,
            }),
    {
        match (&policy_project_path, &execution_project_path) {
            (None, None) => {
                if repo_path_prefix.is_some() {
                    return Err(owned("repoops git context prefix requires project paths"));
                }
            },
            (Some(p), Some(e)) => {
                check_project_path("git_context.policy_project_path", p.as_str())?;
                check_project_path("git_context.execution_project_path", e.as_str())?;
                match &repo_path_prefix {
                    Some(x) => check_relative_path("git_context.repo_path_prefix", x.as_str())?,
                    None => {},
                }
            },
            _ => {
                return Err(owned("repoops git context requires both project paths or neither"));
            },
        }
        Ok(RepoopsAuthorityGitContextFact {
            policy_project_path,
            execution_project_path,
            repo_path_prefix,
            ownership_token_required,
        })
    }

    /// Git context facts when no project paths are known.
    pub fn unknown(ownership_token_required: bool) -> (r: Self)
        ensures
            r@ == (GitContextView {
                policy_project_path: None,
                execution_project_path: None,
                repo_path_prefix: None,
                ownership_token_required,
            }),
    {
        RepoopsAuthorityGitContextFact {
            policy_project_path: None,
            execution_project_path: None,
            repo_path_prefix: None,
            ownership_token_required,
        }
    }

    /// Git context facts with concrete project paths.
    pub fn known_paths(
        policy_project_path: String,
        execution_project_path: String,
        repo_path_prefix: Option<String>,
        ownership_token_required: bool,
    ) -> (r: Result<Self, String>)
        ensures
            r is Err <==> git_context_error(Some(policy_project_path), Some(execution_project_path), repo_path_prefix) is Some,
            r matches Err(e) ==> Some(e@) == git_context_error(Some(policy_project_path), Some(execution_project_path), repo_path_prefix),
            r matches Ok(g) ==> g@ == (GitContextView {
                policy_project_path: Some(policy_project_path@),
                execution_project_path: Some(execution_project_path@),
                repo_path_prefix: opt_view(repo_path_prefix),
                ownership_token_required,
            }),
    {
        Self::new(Some(policy_project_path), Some(execution_project_path), repo_path_prefix, ownership_token_required)
    }

    /// The policy project path, when known.
    pub fn policy_project_path(&self) -> (r: Option<&str>)
        ensures
            match r {
                Some(s) => self@.policy_project_path == Some(s@),
                None => self@.policy_project_path is None,
            },
    {
        match &self.policy_project_path {
            Some(s) => Some(s.as_str()),
            None => None,
        }
    }

    /// The execution project path, when known.
    pub fn execution_project_path(&self) -> (r: Option<&str>)
        ensures
            match r {
                Some(s) => self@.execution_project_path == Some(s@),
                None => self@.execution_project_path is None,
            },
    {
        match &self.execution_project_path {
            Some(s) => Some(s.as_str()),
            None => None,
        }
    }

    /// The repo-relative execution prefix, when known.
    pub fn repo_path_prefix(&self) -> (r: Option<&str>)
        ensures
            match r {
                Some(s) => self@.repo_path_prefix == Some(s@),
                None => self@.repo_path_prefix is None,
            },
    {
        match &self.repo_path_prefix {
            Some(s) => Some(s.as_str()),
            None => None,
        }
    }

    /// Whether git mutations need an ownership token.
    pub fn ownership_token_required(&self) -> (r: bool)
        ensures
            r == self@.ownership_token_required,
    {
        self.ownership_token_required
    }
}

// ---------------------------------------------------------------- common facts

/// Why a schema version is rejected, if it is.
pub open spec fn schema_version_error(v: Seq<char>) -> Option<Seq<char>> {
    if is_blank(v) {
        Some("repoops authority snapshots require schema_version"@)
    } else if trim(v) != v {
        Some("repoops authority snapshot schema_version must be normalized"@)
    } else if v != "covey_repoops_authority_snapshot.v1"@ {
        Some("repoops authority snapshot schema_version is not supported"@)
    } else {
        None
    }
}

fn check_schema_version(v: &str) -> (r: Result<(), String>)
    ensures
        r is Err <==> schema_version_error(v@) is Some,
        r matches Err(e) ==> Some(e@) == schema_version_error(v@),
{
    let c = crate::text::chars_of(v);
    if crate::text::vec_is_blank(&c) {
        return Err(owned("repoops authority snapshots require schema_version"));
    }
    if !crate::text::vec_is_trimmed(&c) {
        return Err(owned("repoops authority snapshot schema_version must be normalized"));
    }
    if !str_eq(v, "covey_repoops_authority_snapshot.v1") {
        return Err(owned("repoops authority snapshot schema_version is not supported"));
    }
    Ok(())
}

/// The label of fact source checks.
pub open spec fn sources_label() -> Seq<char> {
    "repoops authority snapshot fact_sources"@
}

/// Why fact sources from index `k` on are rejected, if they are: each must
/// be a token reference and must not repeat an earlier one.
pub open spec fn sources_error_from(values: Seq<Seq<char>>, k: int) -> Option<Seq<char>>
    decreases values.len() - k,
{
    if k < 0 || k >= values.len() {
        None
    } else if token_ref_error(sources_label(), values[k]) is Some {
        token_ref_error(sources_label(), values[k])
    } else if exists|j: int| 0 <= j < k && values[j] == values[k] {
        Some("repoops authority snapshot fact_sources must be unique"@)
    } else {
        sources_error_from(values, k + 1)
    }
}

fn check_fact_sources(values: &Vec<String>) -> (r: Result<(), String>)
    ensures
        r is Err <==> sources_error_from(views(values@), 0) is Some,
        r matches Err(e) ==> Some(e@) == sources_error_from(views(values@), 0),
{
    let ghost vs = views(values@);
    let mut k: usize = 0;
    while k < values.len()
        invariant
            k <= values@.len(),
            vs == views(values@),
            sources_error_from(vs, 0) == sources_error_from(vs, k as int),
        decreases values@.len() - k,
    {
        assert(vs[k as int] == values@[k as int]@);
        match check_token_ref("repoops authority snapshot fact_sources", values[k].as_str()) {
            Err(e) => {
                return Err(e);
            },
            Ok(()) => {},
        }
        let mut j: usize = 0;
        while j < k
            invariant
                j <= k,
                k < values@.len(),
                vs == views(values@),
                sources_error_from(vs, 0) == sources_error_from(vs, k as int),
                token_ref_error(sources_label(), vs[k as int]) is None,
                forall|i: int| 0 <= i < j ==> vs[i] != vs[k as int],
            decreases k - j,
        {
            assert(vs[j as int] == values@[j as int]@);
            assert(vs[k as int] == values@[k as int]@);
            if str_eq(values[j].as_str(), values[k].as_str()) {
                assert(vs[j as int] == vs[k as int]);
                return Err(owned("repoops authority snapshot fact_sources must be unique"));
            }
            j = j + 1;
        }
        k = k + 1;
    }
    Ok(())
}

/// Facts shared by every snapshot.
#[derive(Debug)]
pub struct RepoopsAuthoritySnapshotCommon {
    agent_id: String,
    policy: RepoopsAuthorityPolicyFact,
    scope: RepoopsAuthorityScopeFact,
    locks: Vec<RepoopsAuthorityLockFact>,
    git_context: Option<RepoopsAuthorityGitContextFact>,
    fact_sources: Vec<String>,
}

/// Why common snapshot facts are rejected, if they are: the schema version,
/// the agent id, then the fact sources.
pub open spec fn common_error(schema_version: Seq<char>, agent_id: Seq<char>, fact_sources: Seq<Seq<char>>) -> Option<Seq<char>> {
    if schema_version_error(schema_version) is Some {
        schema_version_error(schema_version)
    } else if principal_error(agent_id) is Some {
        principal_error(agent_id)
    } else {
        sources_error_from(fact_sources, 0)
    }
}

impl RepoopsAuthoritySnapshotCommon {
    /// The agent the facts are for.
    pub closed spec fn agent_spec(&self) -> Seq<char> {
        self.agent_id@
    }

    /// The policy facts.
    pub closed spec fn policy_spec(&self) -> RepoopsAuthorityPolicyFact {
        self.policy
    }

    /// The scope facts.
    pub closed spec fn scope_spec(&self) -> RepoopsAuthorityScopeFact {
        self.scope
    }

    /// The lock facts.
    pub closed spec fn locks_spec(&self) -> Seq<LockFactView> {
        fact_views(self.locks@)
    }

    /// The git context facts.
    pub closed spec fn git_spec(&self) -> Option<GitContextView> {
        match self.git_context {
            Some(g) => Some(g@),
            None => None,
        }
    }

    /// The provenance of the facts.
    pub closed spec fn sources_spec(&self) -> Seq<Seq<char>> {
        views(self.fact_sources@)
    }

    /// Builds the shared facts, checking the schema version, the agent id and
    /// the fact sources.
    pub fn new(
        schema_version: String,
        agent_id: String,
        policy: RepoopsAuthorityPolicyFact,
        scope: RepoopsAuthorityScopeFact,
        locks: Vec<RepoopsAuthorityLockFact>,
        git_context: Option<RepoopsAuthorityGitContextFact>,
        fact_sources: Vec<String>,
    ) -> (r: Result<Self, String>)
        ensures
            r is Err <==> common_error(schema_version@, agent_id@, views(fact_sources@)) is Some,
            r matches Err(e) ==> Some(e@) == common_error(schema_version@, agent_id@, views(fact_sources@)),
            r matches Ok(c) ==> {
                &&& c.agent_spec() == agent_id@
                &&& c.policy_spec() == policy
                &&& c.scope_spec() == scope
                &&& c.locks_spec() == fact_views(locks@)
                &&& c.git_spec() == match git_context {
                    Some(g) => Some(g@),
                    None => None::<GitContextView>,
                }
                &&& c.sources_spec() == views(fact_sources@)
            },
    {
        check_schema_version(schema_version.as_str())?;
        check_token_ref("agent principal id", agent_id.as_str())?;
        check_fact_sources(&fact_sources)?;
        Ok(RepoopsAuthoritySnapshotCommon { agent_id, policy, scope, locks, git_context, fact_sources })
    }
}

// ---------------------------------------------------------------- lock rules

/// Why one lock fact contradicts a snapshot's subject, if it does: owned
/// locks must carry the snapshot's claim and owner and only claim-bound
/// snapshots may hold them; foreign locks must carry neither, and a
/// constrained snapshot must not list a lock of its own agent.
pub open spec fn lock_rule_error(agent_id: Seq<char>, claim_owner: Option<(Seq<char>, Seq<char>)>, lock: LockFactView) -> Option<Seq<char>> {
    match (lock.status, claim_owner) {
        (RepoopsAuthorityLockStatus::Owned, Some((claim_id, owner))) => if lock.claim_id != claim_id || lock.owner
            != owner {
            Some("owned repoops lock facts must match snapshot claim and owner"@)
        } else {
            None
        },
        (RepoopsAuthorityLockStatus::Owned, None) => Some("constrained repoops snapshots must not include owned locks"@),
        (RepoopsAuthorityLockStatus::ForeignOwner, Some((claim_id, owner))) => if lock.claim_id == claim_id
            || lock.owner == owner {
            Some("foreign repoops lock facts must not match snapshot claim or owner"@)
        } else {
            None
        },
        (RepoopsAuthorityLockStatus::ForeignOwner, None) => if lock.owner == agent_id {
            Some("constrained repoops snapshots must not include locks owned by agent"@)
        } else {
            None
        },
    }
}

/// The first lock rule a list of locks breaks, if any.
pub open spec fn locks_rule_error(agent_id: Seq<char>, claim_owner: Option<(Seq<char>, Seq<char>)>, locks: Seq<LockFactView>) -> Option<Seq<char>>
    decreases locks.len(),
{
    if locks.len() == 0 {
        None
    } else if lock_rule_error(agent_id, claim_owner, locks[0]) is Some {
        lock_rule_error(agent_id, claim_owner, locks[0])
    } else {
        locks_rule_error(agent_id, claim_owner, locks.drop_first())
    }
}

fn check_lock(agent_id: &str, claim_owner: Option<(&str, &str)>, lock: &RepoopsAuthorityLockFact) -> (r: Result<(), String>)
    ensures
        r is Err <==> lock_rule_error(agent_id@, match claim_owner {
            Some((c, o)) => Some((c@, o@)),
            None => None,
        }, lock@) is Some,
        r matches Err(e) ==> Some(e@) == lock_rule_error(agent_id@, match claim_owner {
            Some((c, o)) => Some((c@, o@)),
            None => None,
        }, lock@),
{
    match (lock.status(), claim_owner) {
        (RepoopsAuthorityLockStatus::Owned, Some((claim_id, owner))) => {
            if !str_eq(lock.claim_id(), claim_id) || !str_eq(lock.owner(), owner) {
                return Err(owned("owned repoops lock facts must match snapshot claim and owner"));
            }
            Ok(())
        },
        (RepoopsAuthorityLockStatus::Owned, None) => Err(owned("constrained repoops snapshots must not include owned locks")),
        (RepoopsAuthorityLockStatus::ForeignOwner, Some((claim_id, owner))) => {
            if str_eq(lock.claim_id(), claim_id) || str_eq(lock.owner(), owner) {
                return Err(owned("foreign repoops lock facts must not match snapshot claim or owner"));
            }
            Ok(())
        },
        (RepoopsAuthorityLockStatus::ForeignOwner, None) => {
            if str_eq(lock.owner(), agent_id) {
                return Err(owned("constrained repoops snapshots must not include locks owned by agent"));
            }
            Ok(())
        },
    }
}

/// Checks every lock fact against a snapshot's subject, in order.
pub fn validate_repoops_authority_locks(
    agent_id: &str,
    claim_owner: Option<(&str, &str)>,
    locks: &Vec<RepoopsAuthorityLockFact>,
) -> (r: Result<(), String>)
    ensures
        r is Err <==> locks_rule_error(agent_id@, match claim_owner {
            Some((c, o)) => Some((c@, o@)),
            None => None,
        }, fact_views(locks@)) is Some,
        r matches Err(e) ==> Some(e@) == locks_rule_error(agent_id@, match claim_owner {
            Some((c, o)) => Some((c@, o@)),
            None => None,
        }, fact_views(locks@)),
{
    let ghost co = match claim_owner {
        Some((c, o)) => Some((c@, o@)),
        None => None,
    };
    let ghost all = fact_views(locks@);
    let mut k: usize = 0;
    assert(all.skip(0) =~= all);
    while k < locks.len()
        invariant
            k <= locks@.len(),
            all == fact_views(locks@),
            co == match claim_owner {
                Some((c, o)) => Some((c@, o@)),
                None => None,
            },
            locks_rule_error(agent_id@, co, all) == locks_rule_error(agent_id@, co, all.skip(k as int)),
        decreases locks@.len() - k,
    {
        assert(all.skip(k as int)[0] == locks@[k as int]@);
        assert(all.skip(k as int).drop_first() =~= all.skip(k + 1));
        check_lock(agent_id, claim_owner, &locks[k])?;
        k = k + 1;
    }
    assert(all.skip(k as int).len() == 0);
    Ok(())
}

// ---------------------------------------------------------------- the snapshot

/// What a snapshot is about: one current claim, or nothing with a reason.
#[derive(Debug)]
pub enum RepoopsAuthoritySnapshotSubject {
    ClaimBound { claim_id: String, ownership_token: String, claim: RepoopsAuthorityClaimFact },
    Constrained { constraint_reason: String },
}

/// Lifecycle facts for repo-ops preflight.
#[derive(Debug)]
pub struct RepoopsAuthoritySnapshot {
    agent_id: String,
    subject: RepoopsAuthoritySnapshotSubject,
    policy: RepoopsAuthorityPolicyFact,
    scope: RepoopsAuthorityScopeFact,
    locks: Vec<RepoopsAuthorityLockFact>,
    git_context: Option<RepoopsAuthorityGitContextFact>,
    fact_sources: Vec<String>,
}

/// Why a constraint reason is rejected, if it is.
pub open spec fn constraint_reason_error(v: Seq<char>) -> Option<Seq<char>> {
    if is_blank(v) {
        Some("constrained repoops authority snapshots require constraint_reason"@)
    } else if trim(v) != v {
        Some("constrained repoops authority snapshot constraint_reason must be normalized"@)
    } else if has_ctrl(v) {
        Some("constrained repoops authority snapshot constraint_reason must not contain control characters"@)
    } else {
        None
    }
}

fn check_constraint_reason(v: &str) -> (r: Result<(), String>)
    ensures
        r is Err <==> constraint_reason_error(v@) is Some,
        r matches Err(e) ==> Some(e@) == constraint_reason_error(v@),
{
    let c = crate::text::chars_of(v);
    if crate::text::vec_is_blank(&c) {
        return Err(owned("constrained repoops authority snapshots require constraint_reason"));
    }
    if !crate::text::vec_is_trimmed(&c) {
        return Err(owned("constrained repoops authority snapshot constraint_reason must be normalized"));
    }
    if crate::text::vec_has_control(&c) {
        return Err(owned("constrained repoops authority snapshot constraint_reason must not contain control characters"));
    }
    Ok(())
}

impl RepoopsAuthoritySnapshot {
    /// The agent the facts are for.
    pub closed spec fn agent_spec(&self) -> Seq<char> {
        self.agent_id@
    }

    /// The subject of the snapshot.
    pub closed spec fn subject_spec(&self) -> RepoopsAuthoritySnapshotSubject {
        self.subject
    }

    /// The policy facts.
    pub closed spec fn policy_spec(&self) -> RepoopsAuthorityPolicyFact {
        self.policy
    }

    /// The scope facts.
    pub closed spec fn scope_spec(&self) -> RepoopsAuthorityScopeFact {
        self.scope
    }

    /// The lock facts.
    pub closed spec fn locks_spec(&self) -> Seq<LockFactView> {
        fact_views(self.locks@)
    }

    /// The git context facts.
    pub closed spec fn git_spec(&self) -> Option<GitContextView> {
        match self.git_context {
            Some(g) => Some(g@),
            None => None,
        }
    }

    /// The provenance of the facts.
    pub closed spec fn sources_spec(&self) -> Seq<Seq<char>> {
        views(self.fact_sources@)
    }

    /// The snapshot keeps the shared facts it was built from.
    pub open spec fn keeps(&self, common: RepoopsAuthoritySnapshotCommon) -> bool {
        &&& self.agent_spec() == common.agent_spec()
        &&& self.policy_spec() == common.policy_spec()
        &&& self.scope_spec() == common.scope_spec()
        &&& self.locks_spec() == common.locks_spec()
        &&& self.git_spec() == common.git_spec()
        &&& self.sources_spec() == common.sources_spec()
    }

    /// A snapshot bound to one current claim: every lock must agree with the
    /// claim and its owner.
    pub fn claim_bound(common: RepoopsAuthoritySnapshotCommon, ownership_token: String, claim: RepoopsAuthorityClaimFact) -> (r: Result<Self, String>)
        ensures
            r is Err <==> locks_rule_error(common.agent_spec(), Some((claim.claim_id_spec(), claim.owner_spec())), common.locks_spec()) is Some,
            r matches Err(e) ==> Some(e@) == locks_rule_error(common.agent_spec(), Some((claim.claim_id_spec(), claim.owner_spec())), common.locks_spec()),
            r matches Ok(s) ==> s.keeps(common),
            r matches Ok(s) ==> (s.subject_spec() matches RepoopsAuthoritySnapshotSubject::ClaimBound {
                claim_id: c,
                ownership_token: t,
                claim: f,
            } && c@ == claim.claim_id_spec() && t == ownership_token && f == claim),
    {
        let claim_id = owned(claim.claim_id());
        validate_repoops_authority_locks(
            common.agent_id.as_str(),
            Some((claim_id.as_str(), claim.owner())),
            &common.locks,
        )?;
        Ok(RepoopsAuthoritySnapshot {
            agent_id: common.agent_id,
            subject: RepoopsAuthoritySnapshotSubject::ClaimBound { claim_id, ownership_token, claim },
            policy: common.policy,
            scope: common.scope,
            locks: common.locks,
            git_context: common.git_context,
            fact_sources: common.fact_sources,
        })
    }

    /// A snapshot with no live claim authority, and the reason why.
    pub fn constrained(common: RepoopsAuthoritySnapshotCommon, constraint_reason: String) -> (r: Result<Self, String>)
        ensures
            r is Err <==> (constraint_reason_error(constraint_reason@) is Some
                || locks_rule_error(common.agent_spec(), None, common.locks_spec()) is Some),
            r matches Err(e) ==> Some(e@) == if constraint_reason_error(constraint_reason@) is Some {
                constraint_reason_error(constraint_reason@)
            } else {
                locks_rule_error(common.agent_spec(), None, common.locks_spec())
            },
            r matches Ok(s) ==> s.keeps(common) && s.subject_spec() == (RepoopsAuthoritySnapshotSubject::Constrained {
                constraint_reason,
            }),
    {
        check_constraint_reason(constraint_reason.as_str())?;
        validate_repoops_authority_locks(common.agent_id.as_str(), None, &common.locks)?;
        Ok(RepoopsAuthoritySnapshot {
            agent_id: common.agent_id,
            subject: RepoopsAuthoritySnapshotSubject::Constrained { constraint_reason },
            policy: common.policy,
            scope: common.scope,
            locks: common.locks,
            git_context: common.git_context,
            fact_sources: common.fact_sources,
        })
    }

    /// Reads a snapshot from its flat shape: it is either bound to a claim
    /// (claim id, ownership token and matching claim facts, no reason) or
    /// constrained (a reason and nothing else), never carries an override
    /// token, and its locks agree with its subject.
    pub fn from_flat(
        common: RepoopsAuthoritySnapshotCommon,
        claim_id: Option<String>,
        ownership_token: Option<String>,
        override_token: Option<String>,
        claim: Option<RepoopsAuthorityClaimFact>,
        constraint_reason: Option<String>,
    ) -> (r: Result<Self, String>)
        ensures
            r is Err <==> flat_snapshot_error(common, claim_id, ownership_token, override_token, claim, constraint_reason) is Some,
            r matches Err(e) ==> Some(e@) == flat_snapshot_error(common, claim_id, ownership_token, override_token, claim, constraint_reason),
            r matches Ok(s) ==> s.keeps(common),
            r matches Ok(s) ==> match s.subject_spec() {
                RepoopsAuthoritySnapshotSubject::ClaimBound { claim_id: c, ownership_token: t, claim: f } =>
                    opt_view(claim_id) == Some(c@) && ownership_token == Some(t) && claim == Some(f),
                RepoopsAuthoritySnapshotSubject::Constrained { constraint_reason: c } => constraint_reason == Some(c)
                    && claim_id is None && claim is None,
            },
    {
        if override_token.is_some() {
            return Err(owned("repoops authority snapshots do not support override_token yet"));
        }
        match (claim_id, ownership_token, claim, constraint_reason) {
            (Some(cid), Some(token), Some(fact), None) => {
                if !str_eq(cid.as_str(), fact.claim_id()) {
                    return Err(owned("repoops authority snapshot claim_id must match claim.claim_id"));
                }
                check_token_ref("session token", token.as_str())?;
                validate_repoops_authority_locks(common.agent_id.as_str(), Some((cid.as_str(), fact.owner())), &common.locks)?;
                Ok(RepoopsAuthoritySnapshot {
                    agent_id: common.agent_id,
                    subject: RepoopsAuthoritySnapshotSubject::ClaimBound { claim_id: cid, ownership_token: token, claim: fact },
                    policy: common.policy,
                    scope: common.scope,
                    locks: common.locks,
                    git_context: common.git_context,
                    fact_sources: common.fact_sources,
                })
            },
            (None, None, None, Some(reason)) => Self::constrained(common, reason),
            _ => Err(owned("repoops authority snapshots must be claim-bound or constrained, not mixed")),
        }
    }

    /// Reads a snapshot from all its flat fields, in the order its reader
    /// checks them: the subject first (override token, claim-bound or
    /// constrained, claim id, ownership token, constraint reason), then the
    /// shared facts, then the locks against the subject.
    pub fn from_flat_parts(
        schema_version: String,
        agent_id: String,
        policy: RepoopsAuthorityPolicyFact,
        scope: RepoopsAuthorityScopeFact,
        locks: Vec<RepoopsAuthorityLockFact>,
        git_context: Option<RepoopsAuthorityGitContextFact>,
        fact_sources: Vec<String>,
        claim_id: Option<String>,
        ownership_token: Option<String>,
        override_token: Option<String>,
        claim: Option<RepoopsAuthorityClaimFact>,
        constraint_reason: Option<String>,
    ) -> (r: Result<Self, String>)
        ensures
            r is Err <==> (flat_subject_error(claim_id, ownership_token, override_token, claim, constraint_reason) is Some
                || common_error(schema_version@, agent_id@, views(fact_sources@)) is Some
                || subject_locks_error(agent_id@, claim, fact_views(locks@)) is Some),
            r matches Err(e) ==> Some(e@) == if flat_subject_error(claim_id, ownership_token, override_token, claim, constraint_reason) is Some {
                flat_subject_error(claim_id, ownership_token, override_token, claim, constraint_reason)
            } else if common_error(schema_version@, agent_id@, views(fact_sources@)) is Some {
                common_error(schema_version@, agent_id@, views(fact_sources@))
            } else {
                subject_locks_error(agent_id@, claim, fact_views(locks@))
            },
            r matches Ok(s) ==> {
                &&& s.agent_spec() == agent_id@
                &&& s.policy_spec() == policy
                &&& s.scope_spec() == scope
                &&& s.locks_spec() == fact_views(locks@)
                &&& s.git_spec() == match git_context {
                    Some(g) => Some(g@),
                    None => None::<GitContextView>,
                }
                &&& s.sources_spec() == views(fact_sources@)
                &&& match s.subject_spec() {
                    RepoopsAuthoritySnapshotSubject::ClaimBound { claim_id: c, ownership_token: t, claim: f } =>
                        opt_view(claim_id) == Some(c@) && ownership_token == Some(t) && claim == Some(f),
                    RepoopsAuthoritySnapshotSubject::Constrained { constraint_reason: c } => constraint_reason == Some(c)
                        && claim_id is None && claim is None,
                }
            },
    {
        check_flat_subject(&claim_id, &ownership_token, &override_token, &claim, &constraint_reason)?;
        let common = RepoopsAuthoritySnapshotCommon::new(
            schema_version,
            agent_id,
            policy,
            scope,
            locks,
            git_context,
            fact_sources,
        )?;
        Self::from_flat(common, claim_id, ownership_token, override_token, claim, constraint_reason)
    }

    /// The current claim, for a claim-bound snapshot.
    pub fn claim_id(&self) -> (r: Option<&str>)
        ensures
            match self.subject_spec() {
                RepoopsAuthoritySnapshotSubject::ClaimBound { claim_id, .. } => r matches Some(c) && c@ == claim_id@,
                RepoopsAuthoritySnapshotSubject::Constrained { .. } => r is None,
            },
    {
        match &self.subject {
            RepoopsAuthoritySnapshotSubject::ClaimBound { claim_id, .. } => Some(claim_id.as_str()),
            RepoopsAuthoritySnapshotSubject::Constrained { .. } => None,
        }
    }

    /// The schema version: always the first one.
    pub fn schema_version(&self) -> (r: &str)
        ensures
            r@ == "covey_repoops_authority_snapshot.v1"@,
    {
        "covey_repoops_authority_snapshot.v1"
    }

    /// The agent the facts are for.
    pub fn agent_id(&self) -> (r: &str)
        ensures
            r@ == self.agent_spec(),
    {
        self.agent_id.as_str()
    }

    /// The caller's ownership token reference, for a claim-bound snapshot.
    pub fn ownership_token(&self) -> (r: Option<&str>)
        ensures
            match self.subject_spec() {
                RepoopsAuthoritySnapshotSubject::ClaimBound { ownership_token, .. } => r matches Some(t) && t@ == ownership_token@,
                RepoopsAuthoritySnapshotSubject::Constrained { .. } => r is None,
            },
    {
        match &self.subject {
            RepoopsAuthoritySnapshotSubject::ClaimBound { ownership_token, .. } => Some(ownership_token.as_str()),
            RepoopsAuthoritySnapshotSubject::Constrained { .. } => None,
        }
    }

    /// The override token reference: no subject carries one yet.
    pub fn override_token(&self) -> (r: Option<&str>)
        ensures
            r is None,
    {
        None
    }

    /// The current claim facts, for a claim-bound snapshot.
    pub fn claim(&self) -> (r: Option<&RepoopsAuthorityClaimFact>)
        ensures
            match self.subject_spec() {
                RepoopsAuthoritySnapshotSubject::ClaimBound { claim, .. } => r == Some(&claim),
                RepoopsAuthoritySnapshotSubject::Constrained { .. } => r is None,
            },
    {
        match &self.subject {
            RepoopsAuthoritySnapshotSubject::ClaimBound { claim, .. } => Some(claim),
            RepoopsAuthoritySnapshotSubject::Constrained { .. } => None,
        }
    }

    /// The policy facts.
    pub fn policy(&self) -> (r: &RepoopsAuthorityPolicyFact)
        ensures
            *r == self.policy_spec(),
    {
        &self.policy
    }

    /// The scope facts.
    pub fn scope(&self) -> (r: &RepoopsAuthorityScopeFact)
        ensures
            *r == self.scope_spec(),
    {
        &self.scope
    }

    /// The reason a constrained snapshot has no claim authority.
    pub fn constraint_reason(&self) -> (r: Option<&str>)
        ensures
            match self.subject_spec() {
                RepoopsAuthoritySnapshotSubject::ClaimBound { .. } => r is None,
                RepoopsAuthoritySnapshotSubject::Constrained { constraint_reason } => r matches Some(c) && c@ == constraint_reason@,
            },
    {
        match &self.subject {
            RepoopsAuthoritySnapshotSubject::ClaimBound { .. } => None,
            RepoopsAuthoritySnapshotSubject::Constrained { constraint_reason } => Some(constraint_reason.as_str()),
        }
    }

    /// The lock facts.
    pub fn locks(&self) -> (r: &[RepoopsAuthorityLockFact])
        ensures
            fact_views(r@) == self.locks_spec(),
    {
        self.locks.as_slice()
    }

    /// The git context facts, when present.
    pub fn git_context(&self) -> (r: Option<&RepoopsAuthorityGitContextFact>)
        ensures
            match r {
                Some(g) => self.git_spec() == Some(g@),
                None => self.git_spec() is None,
            },
    {
        self.git_context.as_ref()
    }

    /// The provenance of the facts.
    pub fn fact_sources(&self) -> (r: Vec<&str>)
        ensures
            r@.len() == self.sources_spec().len(),
            forall|k: int| 0 <= k < r@.len() ==> (#[trigger] r@[k])@ == self.sources_spec()[k],
    {
        let mut out: Vec<&str> = Vec::new();
        let mut k: usize = 0;
        while k < self.fact_sources.len()
            invariant
                k <= self.fact_sources@.len(),
                out@.len() == k,
                forall|j: int| 0 <= j < k ==> (#[trigger] out@[j])@ == self.fact_sources@[j]@,
            decreases self.fact_sources@.len() - k,
        {
            out.push(self.fact_sources[k].as_str());
            k = k + 1;
        }
        out
    }
}

/// Why the subject of a flat snapshot is rejected, if it is: an override
/// token, a mix of claim-bound and constrained fields, a claim id that is not
/// the claim's, a bad ownership token, or a bad constraint reason.
pub open spec fn flat_subject_error(
    claim_id: Option<String>,
    ownership_token: Option<String>,
    override_token: Option<String>,
    claim: Option<RepoopsAuthorityClaimFact>,
    constraint_reason: Option<String>,
) -> Option<Seq<char>> {
    if override_token is Some {
        Some("repoops authority snapshots do not support override_token yet"@)
    } else {
        match (claim_id, ownership_token, claim, constraint_reason) {
            (Some(cid), Some(token), Some(fact), None) => if cid@ != fact.claim_id_spec() {
                Some("repoops authority snapshot claim_id must match claim.claim_id"@)
            } else {
                session_token_error(token@)
            },
            (None, None, None, Some(reason)) => constraint_reason_error(reason@),
            _ => Some("repoops authority snapshots must be claim-bound or constrained, not mixed"@),
        }
    }
}

/// Why the locks disagree with a well-formed subject, if they do: against
/// the claim and its owner when there is a claim, else as a constrained
/// snapshot.
pub open spec fn subject_locks_error(agent_id: Seq<char>, claim: Option<RepoopsAuthorityClaimFact>, locks: Seq<LockFactView>) -> Option<Seq<char>> {
    match claim {
        Some(fact) => locks_rule_error(agent_id, Some((fact.claim_id_spec(), fact.owner_spec())), locks),
        None => locks_rule_error(agent_id, None, locks),
    }
}

/// Checks the subject fields of a flat snapshot.
pub fn check_flat_subject(
    claim_id: &Option<String>,
    ownership_token: &Option<String>,
    override_token: &Option<String>,
    claim: &Option<RepoopsAuthorityClaimFact>,
    constraint_reason: &Option<String>,
) -> (r: Result<(), String>)
    ensures
        r is Err <==> flat_subject_error(*claim_id, *ownership_token, *override_token, *claim, *constraint_reason) is Some,
        r matches Err(e) ==> Some(e@) == flat_subject_error(*claim_id, *ownership_token, *override_token, *claim, *constraint_reason),
{
    if override_token.is_some() {
        return Err(owned("repoops authority snapshots do not support override_token yet"));
    }
    match (claim_id, ownership_token, claim, constraint_reason) {
        (Some(cid), Some(token), Some(fact), None) => {
            if !str_eq(cid.as_str(), fact.claim_id()) {
                return Err(owned("repoops authority snapshot claim_id must match claim.claim_id"));
            }
            check_token_ref("session token", token.as_str())
        },
        (None, None, None, Some(reason)) => check_constraint_reason(reason.as_str()),
        _ => Err(owned("repoops authority snapshots must be claim-bound or constrained, not mixed")),
    }
}

/// Why a snapshot's flat shape is rejected, if it is.
pub open spec fn flat_snapshot_error(
    common: RepoopsAuthoritySnapshotCommon,
    claim_id: Option<String>,
    ownership_token: Option<String>,
    override_token: Option<String>,
    claim: Option<RepoopsAuthorityClaimFact>,
    constraint_reason: Option<String>,
) -> Option<Seq<char>> {
    if override_token is Some {
        Some("repoops authority snapshots do not support override_token yet"@)
    } else {
        match (claim_id, ownership_token, claim, constraint_reason) {
            (Some(cid), Some(token), Some(fact), None) => if cid@ != fact.claim_id_spec() {
                Some("repoops authority snapshot claim_id must match claim.claim_id"@)
            } else if session_token_error(token@) is Some {
                session_token_error(token@)
            } else {
                locks_rule_error(common.agent_spec(), Some((cid@, fact.owner_spec())), common.locks_spec())
            },
            (None, None, None, Some(reason)) => if constraint_reason_error(reason@) is Some {
                constraint_reason_error(reason@)
            } else {
                locks_rule_error(common.agent_spec(), None, common.locks_spec())
            },
            _ => Some("repoops authority snapshots must be claim-bound or constrained, not mixed"@),
        }
    }
}

// ---------------------------------------------------------------- assembling a snapshot

/// The provenance of a claim-bound snapshot.
pub open spec fn snapshot_sources(caller_token: Seq<char>, claim_id: Seq<char>, subtask_id: Seq<char>) -> Seq<Seq<char>> {
    seq![
        "session_token_ref:"@ + caller_token,
        "claim:"@ + claim_id,
        "subtask:"@ + subtask_id,
        "reservations:active"@,
        "claims.owner_session_token:token_ref"@,
    ]
}

/// `paths` is the request's paths, sorted and without repeats.
pub open spec fn normalized_request(requested: Seq<String>, paths: Seq<String>) -> bool {
    &&& strictly_sorted(views(paths))
    &&& forall|x: Seq<char>| views(paths).contains(x) <==> views(requested).contains(x)
}

/// The lifecycle of the claim fact for a subtask state: in progress with the
/// owner's token reference, or open.
pub open spec fn claim_lifecycle_for(state: SubtaskState, owner_token: Seq<char>) -> (RepoopsAuthorityClaimStatus, Option<Seq<char>>) {
    if claim_status_for_state(state) == RepoopsAuthorityClaimStatus::InProgress {
        (RepoopsAuthorityClaimStatus::InProgress, Some(owner_token))
    } else {
        (RepoopsAuthorityClaimStatus::Open, None)
    }
}

fn observability_error<T>(r: Result<T, String>) -> (out: Result<T, CoveyError>)
    ensures
        r is Ok <==> out is Ok,
        r matches Ok(v) ==> out == Ok::<T, CoveyError>(v),
        r matches Err(e) ==> out matches Err(CoveyError::InvalidObservabilityRow { reason }) && reason == e,
{
    match r {
        Ok(v) => Ok(v),
        Err(reason) => Err(CoveyError::InvalidObservabilityRow { reason }),
    }
}

/// Whether some requested path and covering reservation give a rejected lock fact.
pub open spec fn locks_rejected(paths: Seq<String>, prepared: Seq<PreparedReservation>, claim: Claim, session: Session) -> bool {
    exists|i: int, j: int| #[trigger] pair_rejected(paths, prepared, claim, session, i, j)
}

/// What the facts of a current claim are built from: the prepared
/// reservations, the normalized request, the claim's scope patterns in order,
/// and (when no lock fact is rejected) the lock facts over the request.
pub open spec fn facts_basis(
    reservations: Seq<Reservation>,
    requested: Seq<String>,
    claim: Claim,
    session: Session,
    prepared: Seq<PreparedReservation>,
    paths: Seq<String>,
    scope_in: Seq<Seq<char>>,
    locks: Seq<LockFactView>,
) -> bool {
    &&& prepared_all(reservations, prepared)
    &&& normalized_request(requested, paths)
    &&& strictly_sorted(scope_in)
    &&& forall|x: Seq<char>| scope_in.contains(x) <==> owned_pattern(prepared, claim.subtask_id@, x)
    &&& !locks_rejected(paths, prepared, claim, session) ==> lock_facts_exact(paths, prepared, claim, session, locks)
}

/// Whether the facts of a current claim are rejected: the scope patterns, a
/// lock fact, the claim fact (its owner, its patterns, or the owner's token
/// reference when in progress), the shared facts, or a lock that disagrees
/// with the claim.
pub open spec fn snapshot_facts_rejected(
    session_token: Seq<char>,
    claim_id: Seq<char>,
    claim: Claim,
    subtask_state: SubtaskState,
    session: Session,
    paths: Seq<String>,
    prepared: Seq<PreparedReservation>,
    scope_in: Seq<Seq<char>>,
    locks: Seq<LockFactView>,
) -> bool {
    let agent = session.agent_principal_id@;
    let token = claim_lifecycle_for(subtask_state, ownership_token_ref_spec(claim.owner_session_token@)).1;
    ||| patterns_error("scope.in"@, scope_in) is Some
    ||| locks_rejected(paths, prepared, claim, session)
    ||| (token matches Some(t) && session_token_error(t) is Some)
    ||| claim_fact_error(agent, scope_in, Seq::empty(), scope_in.len() > 0) is Some
    ||| common_error(
        "covey_repoops_authority_snapshot.v1"@,
        agent,
        snapshot_sources(ownership_token_ref_spec(session_token), claim_id, claim.subtask_id@),
    ) is Some
    ||| locks_rule_error(agent, Some((claim.claim_id@, agent)), locks) is Some
}

/// The reason the facts of a current claim are rejected, in the order they
/// are checked, where it is determined: every stage but the lock facts, whose
/// reason is that of one of the rejected pairs.
pub open spec fn snapshot_facts_reason(
    session_token: Seq<char>,
    claim_id: Seq<char>,
    claim: Claim,
    subtask_state: SubtaskState,
    session: Session,
    paths: Seq<String>,
    prepared: Seq<PreparedReservation>,
    scope_in: Seq<Seq<char>>,
    locks: Seq<LockFactView>,
) -> Option<Seq<char>> {
    let agent = session.agent_principal_id@;
    let token = claim_lifecycle_for(subtask_state, ownership_token_ref_spec(claim.owner_session_token@)).1;
    let common = common_error(
        "covey_repoops_authority_snapshot.v1"@,
        agent,
        snapshot_sources(ownership_token_ref_spec(session_token), claim_id, claim.subtask_id@),
    );
    if patterns_error("scope.in"@, scope_in) is Some {
        patterns_error("scope.in"@, scope_in)
    } else if locks_rejected(paths, prepared, claim, session) {
        None
    } else if token matches Some(t) && session_token_error(t) is Some {
        session_token_error(token->0)
    } else if claim_fact_error(agent, scope_in, Seq::empty(), scope_in.len() > 0) is Some {
        claim_fact_error(agent, scope_in, Seq::empty(), scope_in.len() > 0)
    } else if common is Some {
        common
    } else {
        locks_rule_error(agent, Some((claim.claim_id@, agent)), locks)
    }
}

proof fn lemma_no_patterns_error_on_empty(label: Seq<char>)
    ensures
        patterns_error(label, Seq::<Seq<char>>::empty()) is None,
{
}

/// The repo-ops authority facts of a validated current claim: the scope
/// patterns its subtask's reservations stand for, the lock facts over the
/// requested paths, the claim fact by the subtask's state, and the
/// provenance of the facts. It fails exactly when one of those facts is
/// rejected, and every rejected fact is an invalid observability row.
pub fn repoops_authority_snapshot_facts(
    session_token: &str,
    claim_id: &str,
    requested_paths: &Vec<String>,
    claim: &Claim,
    subtask_state: SubtaskState,
    session: &Session,
    reservations: &Vec<Reservation>,
) -> (r: Result<RepoopsAuthoritySnapshot, CoveyError>)
    ensures
        exists|prepared: Seq<PreparedReservation>, paths: Seq<String>, scope_in: Seq<Seq<char>>, locks: Seq<LockFactView>|
            #[trigger] facts_basis(reservations@, requested_paths@, *claim, *session, prepared, paths, scope_in, locks)
                && (r is Err <==> snapshot_facts_rejected(
                session_token@,
                claim_id@,
                *claim,
                subtask_state,
                *session,
                paths,
                prepared,
                scope_in,
                locks,
            )) && (snapshot_facts_reason(session_token@, claim_id@, *claim, subtask_state, *session, paths, prepared, scope_in, locks)
                matches Some(why) ==> (r matches Err(e) && e matches CoveyError::InvalidObservabilityRow { reason }
                && reason@ == why)),
        r matches Err(e) ==> e is InvalidObservabilityRow,
        r matches Ok(s) ==> {
            &&& s.agent_spec() == session.agent_principal_id@
            &&& s.policy_spec().mode_spec() == RepoopsAuthorityPolicyMode::Enforce
            &&& s.git_spec() == Some(GitContextView {
                policy_project_path: None,
                execution_project_path: None,
                repo_path_prefix: None,
                ownership_token_required: true,
            })
            &&& s.sources_spec() == snapshot_sources(ownership_token_ref_spec(session_token@), claim_id@, claim.subtask_id@)
            &&& s.scope_spec().out_texts() == Seq::<Seq<char>>::empty()
            &&& strictly_sorted(s.scope_spec().in_texts())
            &&& exists|prepared: Seq<PreparedReservation>, paths: Seq<String>| {
                &&& #[trigger] prepared_all(reservations@, prepared)
                &&& #[trigger] normalized_request(requested_paths@, paths)
                &&& forall|x: Seq<char>| s.scope_spec().in_texts().contains(x) <==> owned_pattern(prepared, claim.subtask_id@, x)
                &&& lock_facts_exact(paths, prepared, *claim, *session, s.locks_spec())
            }
            &&& s.subject_spec() matches RepoopsAuthoritySnapshotSubject::ClaimBound { claim_id: c, ownership_token: t, claim: f }
            &&& c@ == claim.claim_id@
            &&& t@ == ownership_token_ref_spec(session_token@)
            &&& f.claim_id_spec() == claim.claim_id@
            &&& f.owner_spec() == session.agent_principal_id@
            &&& f.scope_in_spec() == s.scope_spec().in_texts()
            &&& f.scope_out_spec() == Seq::<Seq<char>>::empty()
            &&& f.required_spec() == (s.scope_spec().in_texts().len() > 0)
            &&& (f.lifecycle_spec().status_spec(), f.lifecycle_spec().token_spec()) == claim_lifecycle_for(
                subtask_state,
                ownership_token_ref_spec(claim.owner_session_token@),
            )
        },
{
    let paths = normalize_requested_paths(requested_paths);
    let prepared = prepare_reservations(reservations);
    let scope_in = scope_patterns_for_subtask(&prepared, claim.subtask_id.as_str());
    let scope_r = RepoopsAuthorityScopeFact::new(crate::model::clone_strings(&scope_in), Vec::new());
    let locks_r = lock_facts_for_prepared_paths(&paths, &prepared, claim, session);
    let ghost locks_w: Seq<LockFactView> = if locks_r is Ok {
        fact_views(locks_r->Ok_0@)
    } else {
        Seq::empty()
    };
    let ghost scope_w = views(scope_in@);
    proof {
        lemma_no_patterns_error_on_empty("scope.out"@);
        assert(facts_basis(reservations@, requested_paths@, *claim, *session, prepared@, paths@, scope_w, locks_w));
    }
    let scope = observability_error(scope_r)?;
    let locks = observability_error(locks_r)?;
    let caller_token = ownership_token_ref(session_token);
    let active_token = ownership_token_ref(claim.owner_session_token.as_str());
    let sources = vec![
        concat2("session_token_ref:", caller_token.as_str()),
        concat2("claim:", claim_id),
        concat2("subtask:", claim.subtask_id.as_str()),
        owned("reservations:active"),
        owned("claims.owner_session_token:token_ref"),
    ];
    assert(views(sources@) =~= snapshot_sources(caller_token@, claim_id@, claim.subtask_id@));
    let required = scope_in.len() > 0;
    let claim_fact = match repoops_claim_status_for_subtask(subtask_state) {
        RepoopsAuthorityClaimStatus::InProgress => observability_error(RepoopsAuthorityClaimFact::in_progress(
            claim.claim_id.clone(),
            session.agent_principal_id.clone(),
            crate::model::clone_strings(&scope_in),
            Vec::new(),
            required,
            active_token,
        ))?,
        RepoopsAuthorityClaimStatus::Open => observability_error(RepoopsAuthorityClaimFact::open(
            claim.claim_id.clone(),
            session.agent_principal_id.clone(),
            crate::model::clone_strings(&scope_in),
            Vec::new(),
            required,
        ))?,
    };
    let common = observability_error(RepoopsAuthoritySnapshotCommon::new(
        owned("covey_repoops_authority_snapshot.v1"),
        session.agent_principal_id.clone(),
        RepoopsAuthorityPolicyFact::enforce(),
        scope,
        locks,
        Some(RepoopsAuthorityGitContextFact::unknown(true)),
        sources,
    ))?;
    let snapshot = observability_error(RepoopsAuthoritySnapshot::claim_bound(common, caller_token, claim_fact))?;
    proof {
        assert(prepared_all(reservations@, prepared@));
        assert(normalized_request(requested_paths@, paths@));
    }
    Ok(snapshot)
}

} // verus!
