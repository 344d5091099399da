//! Repo-ops authority facts: policy, claim, scope, lock and git-context facts,
//! and the snapshot that binds them for one agent.
use vstd::prelude::*;
use crate::model::clone_opt;
use crate::text::{chars_of, concat2, is_blank, owned, seq_eq, trim, has_ctrl, str_eq};
use crate::validate::{
    check_relative_path, check_text, check_token_ref, relative_path_error, text_error,
    token_ref_error,
};

verus! {

// ---------------------------------------------------------------- policy

/// Repoops policy enforcement mode.
#[derive(Debug, Clone, Copy, PartialEq, Eq, Structural)]
pub enum RepoopsAuthorityPolicyMode {
    Enforce,
}

impl RepoopsAuthorityPolicyMode {
    /// The snake_case name of the mode.
    pub fn name(&self) -> (r: &'static str)
        ensures
            r@ == "enforce"@,
    {
        match self {
            RepoopsAuthorityPolicyMode::Enforce => "enforce",
        }
    }

    /// Reads a mode from its snake_case name; any other text names no mode.
    pub fn parse(name: &str) -> (r: Option<Self>)
        ensures
            r is Some <==> name@ == "enforce"@,
    {
        if str_eq(name, "enforce") {
            Some(RepoopsAuthorityPolicyMode::Enforce)
        } else {
            None
        }
    }
}

/// Policy facts passed through to repoops preflight.  Only the enforce mode
/// exists; it runs in phase 2 and names no denied rule.
#[derive(Debug, Clone, Copy, PartialEq, Eq, Structural)]
pub struct RepoopsAuthorityPolicyFact {
    mode: RepoopsAuthorityPolicyMode,
}

/// The phase of the enforce policy.
pub const ENFORCE_PHASE: u8 = 2;

impl RepoopsAuthorityPolicyFact {
    /// Builds the enforce-mode policy fact.
    pub fn enforce() -> (r: Self)
        ensures
            r.mode_spec() == RepoopsAuthorityPolicyMode::Enforce,
    {
        RepoopsAuthorityPolicyFact { mode: RepoopsAuthorityPolicyMode::Enforce }
    }

    /// Builds a policy fact from its flat shape: enforce mode requires phase 2
    /// and no denied rule id.
    pub fn from_parts(mode: RepoopsAuthorityPolicyMode, phase: u8, denied_rule_id: Option<String>) -> (r: Result<Self, String>)
        ensures
            r is Ok <==> (denied_rule_id is None && phase == 2),
            denied_rule_id is Some ==> (r matches Err(e) && e@ == "enforce repoops policy fact must not include denied_rule_id"@),
            denied_rule_id is None && phase != 2 ==> (r matches Err(e) && e@ == "enforce repoops policy fact phase is not supported"@),
            r matches Ok(f) ==> f.mode_spec() == mode,
    {
        match mode {
            RepoopsAuthorityPolicyMode::Enforce => {
                if denied_rule_id.is_some() {
                    return Err(owned("enforce repoops policy fact must not include denied_rule_id"));
                }
                if phase != ENFORCE_PHASE {
                    return Err(owned("enforce repoops policy fact phase is not supported"));
                }
                Ok(RepoopsAuthorityPolicyFact { mode: RepoopsAuthorityPolicyMode::Enforce })
            },
        }
    }

    /// The enforcement mode.
    pub open spec fn mode_spec(&self) -> RepoopsAuthorityPolicyMode {
        RepoopsAuthorityPolicyMode::Enforce
    }

    /// Returns the policy enforcement mode.
    pub fn mode(&self) -> (r: RepoopsAuthorityPolicyMode)
        ensures
            r == RepoopsAuthorityPolicyMode::Enforce,
    {
        match self.mode {
            RepoopsAuthorityPolicyMode::Enforce => RepoopsAuthorityPolicyMode::Enforce,
        }
    }

    /// Returns the policy phase.
    pub fn phase(&self) -> (r: u8)
        ensures
            r == 2,
    {
        ENFORCE_PHASE
    }

    /// Returns the denied rule id; the enforce mode names none.
    pub fn denied_rule_id(&self) -> (r: Option<String>)
        ensures
            r is None,
    {
        None
    }
}

// ---------------------------------------------------------------- scope patterns

/// Why a scope pattern is rejected, if it is.
pub open spec fn pattern_error(v: Seq<char>) -> Option<Seq<char>> {
    if is_blank(v) {
        Some("patterns must not be empty"@)
    } else if trim(v) != v {
        Some("patterns must be normalized"@)
    } else if has_ctrl(v) {
        Some("patterns must not contain control characters"@)
    } else {
        None
    }
}

/// One normalized repoops scope pattern.
#[derive(Debug, PartialEq, Eq, PartialOrd, Ord, Hash)]
pub struct RepoopsScopePattern(String);

impl RepoopsScopePattern {
    pub closed spec fn text(&self) -> Seq<char> {
        self.0@
    }

    /// Accepts a non-blank, unpadded pattern without control characters.
    pub fn try_from_string(value: String) -> (r: Result<Self, String>)
        ensures
            r is Ok <==> pattern_error(value@) is None,
            r matches Ok(p) ==> p.text() == value@,
            r matches Err(e) ==> e@ == pattern_error(value@)->0,
    {
        check_pattern(value.as_str())?;
        Ok(RepoopsScopePattern(value))
    }

    /// Returns the pattern text.
    pub fn as_str(&self) -> (r: &str)
        ensures
            r@ == self.text(),
    {
        self.0.as_str()
    }
}

impl Clone for RepoopsScopePattern {
    fn clone(&self) -> (r: Self)
        ensures
            r == *self,
    {
        RepoopsScopePattern(self.0.clone())
    }
}

fn check_pattern(value: &str) -> (r: Result<(), String>)
    ensures
        r is Err <==> pattern_error(value@) is Some,
        r matches Err(e) ==> e@ == pattern_error(value@)->0,
{
    let c = chars_of(value);
    if crate::text::vec_is_blank(&c) {
        return Err(owned("patterns must not be empty"));
    }
    if !crate::text::vec_is_trimmed(&c) {
        return Err(owned("patterns must be normalized"));
    }
    if crate::text::vec_has_control(&c) {
        return Err(owned("patterns must not contain control characters"));
    }
    Ok(())
}

/// The texts of a list of patterns.
pub open spec fn pattern_texts(ps: Seq<RepoopsScopePattern>) -> Seq<Seq<char>> {
    ps.map_values(|p: RepoopsScopePattern| p.text())
}

/// Whether no text occurs twice.
pub open spec fn all_distinct(s: Seq<Seq<char>>) -> bool {
    forall|i: int, j: int| 0 <= i < j < s.len() ==> s[i] != s[j]
}

/// Why a list of patterns is rejected, if it is: the first bad pattern
/// (under `label`), else a repeated pattern.
pub open spec fn patterns_error(label: Seq<char>, ps: Seq<Seq<char>>) -> Option<Seq<char>> {
    patterns_error_from(label, ps, 0)
}

pub open spec fn patterns_error_from(label: Seq<char>, ps: Seq<Seq<char>>, i: int) -> Option<Seq<char>>
    decreases ps.len() - i,
{
    if i < 0 || i >= ps.len() {
        None
    } else if pattern_error(ps[i]) is Some {
        Some(label + " "@ + pattern_error(ps[i])->0)
    } else if exists|j: int| 0 <= j < i && ps[j] == ps[i] {
        Some(label + " patterns must not contain duplicates"@)
    } else {
        patterns_error_from(label, ps, i + 1)
    }
}

/// Validates scope patterns: each well formed, none repeated.
pub fn parse_repoops_scope_patterns(label: &str, patterns: Vec<String>) -> (r: Result<Vec<RepoopsScopePattern>, String>)
    ensures
        r is Ok <==> patterns_error(label@, crate::text::views(patterns@)) is None,
        r matches Err(e) ==> e@ == patterns_error(label@, crate::text::views(patterns@))->0,
        r matches Ok(ps) ==> pattern_texts(ps@) == crate::text::views(patterns@),
{
    let ghost vs = crate::text::views(patterns@);
    let mut seen: Vec<Vec<char>> = Vec::new();
    let mut i: usize = 0;
    while i < patterns.len()
        invariant
            i <= patterns@.len(),
            vs == crate::text::views(patterns@),
            seen@.len() == i,
            forall|k: int| 0 <= k < i ==> (#[trigger] seen@[k])@ == vs[k],
            patterns_error_from(label@, vs, 0) == patterns_error_from(label@, vs, i as int),
        decreases patterns@.len() - i,
    {
        let p = &patterns[i];
        assert(p@ == vs[i as int]);
        match check_pattern(p.as_str()) {
            Err(reason) => {
                return Err(crate::text::concat3(label, " ", reason.as_str()));
            },
            Ok(()) => {},
        }
        let pc = chars_of(p.as_str());
        let mut j: usize = 0;
        while j < seen.len()
            invariant
                j <= seen@.len(),
                seen@.len() == i,
                i < vs.len(),
                vs == crate::text::views(patterns@),
                pattern_error(vs[i as int]) is None,
                patterns_error_from(label@, vs, 0) == patterns_error_from(label@, vs, i as int),
                pc@ == vs[i as int],
                forall|k: int| 0 <= k < i ==> (#[trigger] seen@[k])@ == vs[k],
                forall|k: int| 0 <= k < j ==> vs[k] != vs[i as int],
            decreases seen@.len() - j,
        {
            if seq_eq(&seen[j], &pc) {
                proof {
                    assert(vs[j as int] == vs[i as int]);
                    assert(pattern_error(vs[i as int]) is None);
                    assert(exists|m: int| 0 <= m < i && vs[m] == vs[i as int]);
                    assert(patterns_error_from(label@, vs, i as int) == Some(
                        label@ + " patterns must not contain duplicates"@,
                    ));
                }
                return Err(concat2(label, " patterns must not contain duplicates"));
            }
            j = j + 1;
        }
        proof {
            assert(pattern_error(vs[i as int]) is None);
            assert(!exists|m: int| 0 <= m < i && vs[m] == vs[i as int]);
        }
        seen.push(pc);
        i = i + 1;
    }
    let mut out: Vec<RepoopsScopePattern> = Vec::new();
    let mut k: usize = 0;
    while k < patterns.len()
        invariant
            k <= patterns@.len(),
            vs == crate::text::views(patterns@),
            out@.len() == k,
            forall|m: int| 0 <= m < k ==> (#[trigger] out@[m]).text() == vs[m],
        decreases patterns@.len() - k,
    {
        out.push(RepoopsScopePattern(patterns[k].clone()));
        k = k + 1;
    }
    assert(pattern_texts(out@) =~= vs);
    Ok(out)
}

/// The texts of patterns, as owned strings.
fn pattern_strings(ps: &Vec<RepoopsScopePattern>) -> (r: Vec<String>)
    ensures
        crate::text::views(r@) == pattern_texts(ps@),
{
    let mut r: Vec<String> = Vec::new();
    let mut i: usize = 0;
    while i < ps.len()
        invariant
            i <= ps@.len(),
            crate::text::views(r@) == pattern_texts(ps@).take(i as int),
        decreases ps@.len() - i,
    {
        let ghost before = r@;
        let t = owned(ps[i].as_str());
        assert(t@ == pattern_texts(ps@)[i as int]);
        r.push(t);
        assert(crate::text::views(r@) =~= crate::text::views(before).push(t@));
        assert(pattern_texts(ps@).take(i + 1) =~= pattern_texts(ps@).take(i as int).push(pattern_texts(ps@)[i as int]));
        i = i + 1;
    }
    assert(pattern_texts(ps@).take(ps@.len() as int) =~= pattern_texts(ps@));
    r
}

fn clone_patterns(ps: &Vec<RepoopsScopePattern>) -> (r: Vec<RepoopsScopePattern>)
    ensures
        r@ == ps@,
{
    let mut r: Vec<RepoopsScopePattern> = Vec::new();
    let mut i: usize = 0;
    while i < ps.len()
        invariant
            i <= ps@.len(),
            r@ == ps@.take(i as int),
        decreases ps@.len() - i,
    {
        r.push(ps[i].clone());
        assert(ps@.take(i as int).push(ps@[i as int]) =~= ps@.take(i + 1));
        i = i + 1;
    }
    assert(ps@.take(ps@.len() as int) =~= ps@);
    r
}

// ---------------------------------------------------------------- scope fact

/// Scope facts derived from lifecycle and reservation state.
#[derive(Debug, PartialEq, Eq)]
pub struct RepoopsAuthorityScopeFact {
    scope_in: Vec<RepoopsScopePattern>,
    scope_out: Vec<RepoopsScopePattern>,
}

impl RepoopsAuthorityScopeFact {
    pub closed spec fn in_texts(&self) -> Seq<Seq<char>> {
        pattern_texts(self.scope_in@)
    }

    pub closed spec fn out_texts(&self) -> Seq<Seq<char>> {
        pattern_texts(self.scope_out@)
    }

    /// Builds scope facts from inclusion and exclusion patterns; each list
    /// must hold well-formed patterns without repeats.
    pub fn new(scope_in: Vec<String>, scope_out: Vec<String>) -> (r: Result<Self, String>)
        ensures
            r is Ok <==> patterns_error("scope.in"@, crate::text::views(scope_in@)) is None
                && patterns_error("scope.out"@, crate::text::views(scope_out@)) is None,
            patterns_error("scope.in"@, crate::text::views(scope_in@)) is Some ==> (r matches Err(e)
                && e@ == patterns_error("scope.in"@, crate::text::views(scope_in@))->0),
            patterns_error("scope.in"@, crate::text::views(scope_in@)) is None
                && patterns_error("scope.out"@, crate::text::views(scope_out@)) is Some ==> (r matches Err(e)
                && e@ == patterns_error("scope.out"@, crate::text::views(scope_out@))->0),
            r matches Ok(f) ==> f.in_texts() == crate::text::views(scope_in@) && f.out_texts()
                == crate::text::views(scope_out@),
    {
        let scope_in = parse_repoops_scope_patterns("scope.in", scope_in)?;
        let scope_out = parse_repoops_scope_patterns("scope.out", scope_out)?;
        Ok(RepoopsAuthorityScopeFact { scope_in, scope_out })
    }

    /// Returns inclusion scope patterns.
    pub fn scope_in(&self) -> (r: Vec<String>)
        ensures
            crate::text::views(r@) == self.in_texts(),
    {
        pattern_strings(&self.scope_in)
    }

    /// Returns exclusion scope patterns.
    pub fn scope_out(&self) -> (r: Vec<String>)
        ensures
            crate::text::views(r@) == self.out_texts(),
    {
        pattern_strings(&self.scope_out)
    }
}

impl Clone for RepoopsAuthorityScopeFact {
    fn clone(&self) -> (r: Self)
        ensures
            r.in_texts() == self.in_texts(),
            r.out_texts() == self.out_texts(),
    {
        RepoopsAuthorityScopeFact {
            scope_in: clone_patterns(&self.scope_in),
            scope_out: clone_patterns(&self.scope_out),
        }
    }
}

// ---------------------------------------------------------------- claim fact

/// Claim lifecycle status exposed to repoops authority.
#[derive(Debug, Clone, Copy, PartialEq, Eq, Structural)]
pub enum RepoopsAuthorityClaimStatus {
    InProgress,
    Open,
}

/// The snake_case name of a claim status.
pub open spec fn claim_status_name(s: RepoopsAuthorityClaimStatus) -> Seq<char> {
    match s {
        RepoopsAuthorityClaimStatus::InProgress => "in_progress"@,
        RepoopsAuthorityClaimStatus::Open => "open"@,
    }
}

impl RepoopsAuthorityClaimStatus {
    /// The snake_case name of the status.
    pub fn name(&self) -> (r: &'static str)
        ensures
            r@ == claim_status_name(*self),
    {
        match self {
            RepoopsAuthorityClaimStatus::InProgress => "in_progress",
            RepoopsAuthorityClaimStatus::Open => "open",
        }
    }

    /// Reads a status from its snake_case name; any other text names no status.
    pub fn parse(name: &str) -> (r: Option<Self>)
        ensures
            r matches Some(s) ==> claim_status_name(s) == name@,
            r is None ==> name@ != "in_progress"@ && name@ != "open"@,
    {
        if str_eq(name, "in_progress") {
            Some(RepoopsAuthorityClaimStatus::InProgress)
        } else if str_eq(name, "open") {
            Some(RepoopsAuthorityClaimStatus::Open)
        } else {
            None
        }
    }
}

/// Lifecycle of a claim fact: in progress under an ownership token, or open.
#[derive(Debug, PartialEq, Eq)]
pub enum RepoopsAuthorityClaimLifecycle {
    InProgress { active_ownership_token: String },
    Open,
}

impl Clone for RepoopsAuthorityClaimLifecycle {
    fn clone(&self) -> (r: Self)
        ensures
            r == *self,
    {
        match self {
            RepoopsAuthorityClaimLifecycle::InProgress { active_ownership_token } => RepoopsAuthorityClaimLifecycle::InProgress {
                active_ownership_token: active_ownership_token.clone(),
            },
            RepoopsAuthorityClaimLifecycle::Open => RepoopsAuthorityClaimLifecycle::Open,
        }
    }
}

/// Why a session token is rejected, if it is.
pub open spec fn session_token_error(v: Seq<char>) -> Option<Seq<char>> {
    token_ref_error("session token"@, v)
}

/// Why an agent principal id is rejected, if it is.
pub open spec fn principal_error(v: Seq<char>) -> Option<Seq<char>> {
    token_ref_error("agent principal id"@, v)
}

impl RepoopsAuthorityClaimLifecycle {
    /// Builds a claim lifecycle from a status and an optional token: an
    /// in-progress claim needs a well-formed token, an open one must have none.
    pub fn try_from_parts(status: RepoopsAuthorityClaimStatus, active_ownership_token: Option<String>) -> (r: Result<Self, String>)
        ensures
            r is Ok <==> match (status, active_ownership_token) {
                (RepoopsAuthorityClaimStatus::InProgress, Some(t)) => session_token_error(t@) is None,
                (RepoopsAuthorityClaimStatus::InProgress, None) => false,
                (RepoopsAuthorityClaimStatus::Open, None) => true,
                (RepoopsAuthorityClaimStatus::Open, Some(_)) => false,
            },
            r matches Ok(l) ==> l.status_spec() == status && l.token_spec() == match active_ownership_token {
                Some(t) => Some(t@),
                None => None::<Seq<char>>,
            },
            (status == RepoopsAuthorityClaimStatus::InProgress && active_ownership_token is None) ==> (r matches Err(e)
                && e@ == "in-progress repoops claim facts require active_ownership_token"@),
            (status == RepoopsAuthorityClaimStatus::Open && active_ownership_token is Some) ==> (r matches Err(e)
                && e@ == "open repoops claim facts must not include active_ownership_token"@),
    {
        match (status, active_ownership_token) {
            (RepoopsAuthorityClaimStatus::InProgress, Some(token)) => {
                check_token_ref("session token", token.as_str())?;
                Ok(RepoopsAuthorityClaimLifecycle::InProgress { active_ownership_token: token })
            },
            (RepoopsAuthorityClaimStatus::InProgress, None) => Err(owned("in-progress repoops claim facts require active_ownership_token")),
            (RepoopsAuthorityClaimStatus::Open, None) => Ok(RepoopsAuthorityClaimLifecycle::Open),
            (RepoopsAuthorityClaimStatus::Open, Some(_)) => Err(owned("open repoops claim facts must not include active_ownership_token")),
        }
    }

    pub open spec fn status_spec(&self) -> RepoopsAuthorityClaimStatus {
        match self {
            RepoopsAuthorityClaimLifecycle::InProgress { .. } => RepoopsAuthorityClaimStatus::InProgress,
            RepoopsAuthorityClaimLifecycle::Open => RepoopsAuthorityClaimStatus::Open,
        }
    }

    pub open spec fn token_spec(&self) -> Option<Seq<char>> {
        match self {
            RepoopsAuthorityClaimLifecycle::InProgress { active_ownership_token } => Some(active_ownership_token@),
            RepoopsAuthorityClaimLifecycle::Open => None,
        }
    }
}

/// Claim facts passed through to repoops preflight.
#[derive(Debug, PartialEq, Eq)]
pub struct RepoopsAuthorityClaimFact {
    pub claim_id: String,
    owner: String,
    scope_in: Vec<RepoopsScopePattern>,
    scope_out: Vec<RepoopsScopePattern>,
    has_required_contract_fields: bool,
    lifecycle: RepoopsAuthorityClaimLifecycle,
}

/// Why a claim fact is rejected, if it is: a bad owner, bad scope patterns,
/// or contract fields marked present without an inclusion scope.
pub open spec fn claim_fact_error(owner: Seq<char>, scope_in: Seq<Seq<char>>, scope_out: Seq<Seq<char>>, required: bool) -> Option<Seq<char>> {
    if principal_error(owner) is Some {
        principal_error(owner)
    } else if patterns_error("claim.scope_in"@, scope_in) is Some {
        patterns_error("claim.scope_in"@, scope_in)
    } else if patterns_error("claim.scope_out"@, scope_out) is Some {
        patterns_error("claim.scope_out"@, scope_out)
    } else if required && scope_in.len() == 0 {
        Some("repoops claim facts with required contract fields need scope_in"@)
    } else {
        None
    }
}

impl RepoopsAuthorityClaimFact {
    pub closed spec fn claim_id_spec(&self) -> Seq<char> {
        self.claim_id@
    }

    pub closed spec fn owner_spec(&self) -> Seq<char> {
        self.owner@
    }

    pub closed spec fn scope_in_spec(&self) -> Seq<Seq<char>> {
        pattern_texts(self.scope_in@)
    }

    pub closed spec fn scope_out_spec(&self) -> Seq<Seq<char>> {
        pattern_texts(self.scope_out@)
    }

    pub closed spec fn required_spec(&self) -> bool {
        self.has_required_contract_fields
    }

    pub closed spec fn lifecycle_spec(&self) -> RepoopsAuthorityClaimLifecycle {
        self.lifecycle
    }

    /// Whether this fact holds exactly the given parts.
    pub open spec fn holds(
        &self,
        claim_id: Seq<char>,
        owner: Seq<char>,
        scope_in: Seq<Seq<char>>,
        scope_out: Seq<Seq<char>>,
        required: bool,
        lifecycle: RepoopsAuthorityClaimLifecycle,
    ) -> bool {
        &&& self.claim_id_spec() == claim_id
        &&& self.owner_spec() == owner
        &&& self.scope_in_spec() == scope_in
        &&& self.scope_out_spec() == scope_out
        &&& self.required_spec() == required
        &&& self.lifecycle_spec() == lifecycle
    }

    /// Builds an in-progress claim fact with its active ownership token, which
    /// must be a well-formed session token reference.
    pub fn in_progress(
        claim_id: String,
        owner: String,
        scope_in: Vec<String>,
        scope_out: Vec<String>,
        has_required_contract_fields: bool,
        active_ownership_token: String,
    ) -> (r: Result<Self, String>)
        ensures
            r is Ok <==> session_token_error(active_ownership_token@) is None && claim_fact_error(owner@, crate::text::views(scope_in@), crate::text::views(scope_out@), has_required_contract_fields) is None,
            r matches Err(e) ==> e@ == if session_token_error(active_ownership_token@) is Some {
                session_token_error(active_ownership_token@)->0
            } else {
                claim_fact_error(owner@, crate::text::views(scope_in@), crate::text::views(scope_out@), has_required_contract_fields)->0
            },
            r matches Ok(f) ==> f.holds(claim_id@, owner@, crate::text::views(scope_in@), crate::text::views(scope_out@), has_required_contract_fields,
                RepoopsAuthorityClaimLifecycle::InProgress { active_ownership_token }),
    {
        check_token_ref("session token", active_ownership_token.as_str())?;
        Self::from_parts(
            claim_id,
            owner,
            scope_in,
            scope_out,
            has_required_contract_fields,
            RepoopsAuthorityClaimLifecycle::InProgress { active_ownership_token },
        )
    }

    /// Builds an open claim fact, which carries no ownership token.
    pub fn open(
        claim_id: String,
        owner: String,
        scope_in: Vec<String>,
        scope_out: Vec<String>,
        has_required_contract_fields: bool,
    ) -> (r: Result<Self, String>)
        ensures
            r is Ok <==> claim_fact_error(owner@, crate::text::views(scope_in@), crate::text::views(scope_out@), has_required_contract_fields) is None,
            r matches Err(e) ==> e@ == claim_fact_error(owner@, crate::text::views(scope_in@), crate::text::views(scope_out@), has_required_contract_fields)->0,
            r matches Ok(f) ==> f.holds(claim_id@, owner@, crate::text::views(scope_in@), crate::text::views(scope_out@), has_required_contract_fields,
                RepoopsAuthorityClaimLifecycle::Open),
    {
        Self::from_parts(
            claim_id,
            owner,
            scope_in,
            scope_out,
            has_required_contract_fields,
            RepoopsAuthorityClaimLifecycle::Open,
        )
    }

    /// Builds a claim fact from its parts.
    pub fn from_parts(
        claim_id: String,
        owner: String,
        scope_in: Vec<String>,
        scope_out: Vec<String>,
        has_required_contract_fields: bool,
        lifecycle: RepoopsAuthorityClaimLifecycle,
    ) -> (r: Result<Self, String>)
        ensures
            r is Ok <==> claim_fact_error(owner@, crate::text::views(scope_in@), crate::text::views(scope_out@), has_required_contract_fields) is None,
            r matches Err(e) ==> e@ == claim_fact_error(owner@, crate::text::views(scope_in@), crate::text::views(scope_out@), has_required_contract_fields)->0,
            r matches Ok(f) ==> f.holds(claim_id@, owner@, crate::text::views(scope_in@), crate::text::views(scope_out@), has_required_contract_fields, lifecycle),
    {
        check_token_ref("agent principal id", owner.as_str())?;
        let scope_in = parse_repoops_scope_patterns("claim.scope_in", scope_in)?;
        let scope_out = parse_repoops_scope_patterns("claim.scope_out", scope_out)?;
        if has_required_contract_fields && scope_in.len() == 0 {
            return Err(owned("repoops claim facts with required contract fields need scope_in"));
        }
        Ok(RepoopsAuthorityClaimFact { claim_id, owner, scope_in, scope_out, has_required_contract_fields, lifecycle })
    }

    /// Returns the claim status.
    pub fn status(&self) -> (r: RepoopsAuthorityClaimStatus)
        ensures
            r == self.lifecycle_spec().status_spec(),
    {
        match &self.lifecycle {
            RepoopsAuthorityClaimLifecycle::InProgress { .. } => RepoopsAuthorityClaimStatus::InProgress,
            RepoopsAuthorityClaimLifecycle::Open => RepoopsAuthorityClaimStatus::Open,
        }
    }

    /// Returns the claim reference.
    pub fn claim_id(&self) -> (r: &str)
        ensures
            r@ == self.claim_id_spec(),
    {
        self.claim_id.as_str()
    }

    /// Returns the owner reference.
    pub fn owner(&self) -> (r: &str)
        ensures
            r@ == self.owner_spec(),
    {
        self.owner.as_str()
    }

    /// Returns inclusion scope patterns.
    pub fn scope_in(&self) -> (r: Vec<String>)
        ensures
            crate::text::views(r@) == self.scope_in_spec(),
    {
        pattern_strings(&self.scope_in)
    }

    /// Returns exclusion scope patterns.
    pub fn scope_out(&self) -> (r: Vec<String>)
        ensures
            crate::text::views(r@) == self.scope_out_spec(),
    {
        pattern_strings(&self.scope_out)
    }

    /// Returns whether the required repoops contract fields are present.
    pub fn has_required_contract_fields(&self) -> (r: bool)
        ensures
            r == self.required_spec(),
    {
        self.has_required_contract_fields
    }

    /// Returns the active ownership token of an in-progress claim.
    pub fn active_ownership_token(&self) -> (r: Option<&str>)
        ensures
            match (r, self.lifecycle_spec().token_spec()) {
                (Some(a), Some(b)) => a@ == b,
                (None, None) => true,
                _ => false,
            },
    {
        match &self.lifecycle {
            RepoopsAuthorityClaimLifecycle::InProgress { active_ownership_token } => Some(active_ownership_token.as_str()),
            RepoopsAuthorityClaimLifecycle::Open => None,
        }
    }
}

impl Clone for RepoopsAuthorityClaimFact {
    fn clone(&self) -> (r: Self)
        ensures
            r.holds(self.claim_id_spec(), self.owner_spec(), self.scope_in_spec(), self.scope_out_spec(), self.required_spec(), self.lifecycle_spec()),
    {
        RepoopsAuthorityClaimFact {
            claim_id: self.claim_id.clone(),
            owner: self.owner.clone(),
            scope_in: clone_patterns(&self.scope_in),
            scope_out: clone_patterns(&self.scope_out),
            has_required_contract_fields: self.has_required_contract_fields,
            lifecycle: self.lifecycle.clone(),
        }
    }
}

// ---------------------------------------------------------------- lock fact

/// Whether a lock is owned by the current claim or by another owner.
#[derive(Debug, Clone, Copy, PartialEq, Eq, Structural)]
pub enum RepoopsAuthorityLockStatus {
    Owned,
    ForeignOwner,
}

/// The snake_case name of a lock status.
pub open spec fn lock_status_name(s: RepoopsAuthorityLockStatus) -> Seq<char> {
    match s {
        RepoopsAuthorityLockStatus::Owned => "owned"@,
        RepoopsAuthorityLockStatus::ForeignOwner => "foreign_owner"@,
    }
}

impl RepoopsAuthorityLockStatus {
    /// The snake_case name of the status.
    pub fn name(&self) -> (r: &'static str)
        ensures
            r@ == lock_status_name(*self),
    {
        match self {
            RepoopsAuthorityLockStatus::Owned => "owned",
            RepoopsAuthorityLockStatus::ForeignOwner => "foreign_owner",
        }
    }

    /// Reads a status from its snake_case name; any other text names no status.
    pub fn parse(name: &str) -> (r: Option<Self>)
        ensures
            r matches Some(s) ==> lock_status_name(s) == name@,
            r is None ==> name@ != "owned"@ && name@ != "foreign_owner"@,
    {
        if str_eq(name, "owned") {
            Some(RepoopsAuthorityLockStatus::Owned)
        } else if str_eq(name, "foreign_owner") {
            Some(RepoopsAuthorityLockStatus::ForeignOwner)
        } else {
            None
        }
    }
}

/// The content of a lock fact.
pub struct LockFactView {
    pub path: Seq<char>,
    pub owner: Seq<char>,
    pub claim_id: Seq<char>,
    pub status: RepoopsAuthorityLockStatus,
}

/// Path ownership fact passed through to repoops preflight.
#[derive(Debug, PartialEq, Eq)]
pub struct RepoopsAuthorityLockFact {
    path: String,
    owner: String,
    claim_id: String,
    status: RepoopsAuthorityLockStatus,
}

impl View for RepoopsAuthorityLockFact {
    type V = LockFactView;

    closed spec fn view(&self) -> LockFactView {
        LockFactView { path: self.path@, owner: self.owner@, claim_id: self.claim_id@, status: self.status }
    }
}

/// Why a lock fact is rejected, if it is: a bad path, then a bad owner.
pub open spec fn lock_fact_error(path: Seq<char>, owner: Seq<char>) -> Option<Seq<char>> {
    if relative_path_error("repoops lock path"@, path) is Some {
        relative_path_error("repoops lock path"@, path)
    } else {
        token_ref_error("repoops lock owner"@, owner)
    }
}

impl RepoopsAuthorityLockFact {
    /// Builds a lock fact with the given status from a repo-relative path and
    /// an owner reference.
    pub fn from_parts(path: String, owner: String, claim_id: String, status: RepoopsAuthorityLockStatus) -> (r: Result<Self, String>)
        ensures
            r is Ok <==> lock_fact_error(path@, owner@) is None,
            r matches Err(e) ==> e@ == lock_fact_error(path@, owner@)->0,
            r matches Ok(f) ==> f@ == (LockFactView { path: path@, owner: owner@, claim_id: claim_id@, status }),
    {
        check_relative_path("repoops lock path", path.as_str())?;
        check_token_ref("repoops lock owner", owner.as_str())?;
        Ok(RepoopsAuthorityLockFact { path, owner, claim_id, status })
    }

    /// Builds a lock fact owned by the current claim.
    pub fn owned(path: String, owner: String, claim_id: String) -> (r: Result<Self, String>)
        ensures
            r is Ok <==> lock_fact_error(path@, owner@) is None,
            r matches Err(e) ==> e@ == lock_fact_error(path@, owner@)->0,
            r matches Ok(f) ==> f@ == (LockFactView { path: path@, owner: owner@, claim_id: claim_id@, status: RepoopsAuthorityLockStatus::Owned }),
    {
        Self::from_parts(path, owner, claim_id, RepoopsAuthorityLockStatus::Owned)
    }

    /// Builds a lock fact owned by another claim or reservation.
    pub fn foreign_owner(path: String, owner: String, claim_id: String) -> (r: Result<Self, String>)
        ensures
            r is Ok <==> lock_fact_error(path@, owner@) is None,
            r matches Err(e) ==> e@ == lock_fact_error(path@, owner@)->0,
            r matches Ok(f) ==> f@ == (LockFactView { path: path@, owner: owner@, claim_id: claim_id@, status: RepoopsAuthorityLockStatus::ForeignOwner }),
    {
        Self::from_parts(path, owner, claim_id, RepoopsAuthorityLockStatus::ForeignOwner)
    }

    /// Returns the path covered by the lock.
    pub fn path(&self) -> (r: &str)
        ensures
            r@ == self@.path,
    {
        self.path.as_str()
    }

    /// Returns the owner reference.
    pub fn owner(&self) -> (r: &str)
        ensures
            r@ == self@.owner,
    {
        self.owner.as_str()
    }

    /// Returns the claim reference.
    pub fn claim_id(&self) -> (r: &str)
        ensures
            r@ == self@.claim_id,
    {
        self.claim_id.as_str()
    }

    /// Returns whether the lock is owned or foreign.
    pub fn status(&self) -> (r: RepoopsAuthorityLockStatus)
        ensures
            r == self@.status,
    {
        self.status
    }
}

impl Clone for RepoopsAuthorityLockFact {
    fn clone(&self) -> (r: Self)
        ensures
            r == *self,
    {
        RepoopsAuthorityLockFact {
            path: self.path.clone(),
            owner: self.owner.clone(),
            claim_id: self.claim_id.clone(),
            status: self.status,
        }
    }
}

} // verus!
