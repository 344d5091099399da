use covey::authority::{
    RepoopsAuthorityClaimFact, RepoopsAuthorityClaimLifecycle, RepoopsAuthorityClaimStatus, RepoopsAuthorityLockFact,
    RepoopsAuthorityLockStatus, RepoopsAuthorityPolicyFact, RepoopsAuthorityPolicyMode, RepoopsAuthorityScopeFact,
};
use covey::snapshot::{RepoopsAuthorityGitContextFact, RepoopsAuthoritySnapshot, RepoopsAuthoritySnapshotCommon};

const SCHEMA: &str = "covey_repoops_authority_snapshot.v1";

fn strings(values: &[&str]) -> Vec<String> {
    values.iter().map(|v| v.to_string()).collect()
}

fn claim_fact(
    claim_id: &str,
    status: &str,
    owner: &str,
    scope_in: &[&str],
    scope_out: &[&str],
    has_required_contract_fields: bool,
    active_ownership_token: Option<&str>,
) -> Result<RepoopsAuthorityClaimFact, String> {
    let status =
        RepoopsAuthorityClaimStatus::parse(status).ok_or_else(|| format!("unknown repoops claim status {status}"))?;
    let lifecycle =
        RepoopsAuthorityClaimLifecycle::try_from_parts(status, active_ownership_token.map(|t| t.to_owned()))?;
    RepoopsAuthorityClaimFact::from_parts(
        claim_id.to_owned(),
        owner.to_owned(),
        strings(scope_in),
        strings(scope_out),
        has_required_contract_fields,
        lifecycle,
    )
}

fn lock_fact(path: &str, owner: &str, claim_id: &str, status: &str) -> Result<RepoopsAuthorityLockFact, String> {
    let status =
        RepoopsAuthorityLockStatus::parse(status).ok_or_else(|| format!("unknown repoops lock status {status}"))?;
    RepoopsAuthorityLockFact::from_parts(path.to_owned(), owner.to_owned(), claim_id.to_owned(), status)
}

fn policy_fact(mode: &str, phase: u8, denied_rule_id: Option<&str>) -> Result<RepoopsAuthorityPolicyFact, String> {
    let mode = RepoopsAuthorityPolicyMode::parse(mode).ok_or_else(|| format!("unknown repoops policy mode {mode}"))?;
    RepoopsAuthorityPolicyFact::from_parts(mode, phase, denied_rule_id.map(|d| d.to_owned()))
}

struct Flat<'a> {
    schema_version: &'a str,
    agent_id: &'a str,
    claim_id: Option<&'a str>,
    ownership_token: Option<&'a str>,
    override_token: Option<&'a str>,
    claim: Option<Result<RepoopsAuthorityClaimFact, String>>,
    locks: Vec<Result<RepoopsAuthorityLockFact, String>>,
    constraint_reason: Option<&'a str>,
    fact_sources: &'a [&'a str],
}

fn claim_bound_flat<'a>() -> Flat<'a> {
    Flat {
        schema_version: SCHEMA,
        agent_id: "worker-1",
        claim_id: Some("claim-1"),
        ownership_token: Some("token-ref"),
        override_token: None,
        claim: Some(claim_fact("claim-1", "in_progress", "worker-1", &["src/**"], &[], true, Some("token-ref"))),
        locks: Vec::new(),
        constraint_reason: None,
        fact_sources: &[],
    }
}

fn constrained_flat<'a>() -> Flat<'a> {
    Flat {
        schema_version: SCHEMA,
        agent_id: "worker-1",
        claim_id: None,
        ownership_token: None,
        override_token: None,
        claim: None,
        locks: Vec::new(),
        constraint_reason: Some("claim unavailable"),
        fact_sources: &[],
    }
}

fn snapshot(flat: Flat<'_>) -> Result<RepoopsAuthoritySnapshot, String> {
    let policy = policy_fact("enforce", 2, None)?;
    let scope = RepoopsAuthorityScopeFact::new(strings(&["src/**"]), Vec::new())?;
    let locks = flat.locks.into_iter().collect::<Result<Vec<_>, String>>()?;
    let claim = match flat.claim {
        Some(c) => Some(c?),
        None => None,
    };
    let common = RepoopsAuthoritySnapshotCommon::new(
        flat.schema_version.to_owned(),
        flat.agent_id.to_owned(),
        policy,
        scope,
        locks,
        None,
        strings(flat.fact_sources),
    )?;
    RepoopsAuthoritySnapshot::from_flat(
        common,
        flat.claim_id.map(|v| v.to_owned()),
        flat.ownership_token.map(|v| v.to_owned()),
        flat.override_token.map(|v| v.to_owned()),
        claim,
        flat.constraint_reason.map(|v| v.to_owned()),
    )
}

#[test]
fn repoops_authority_snapshot_statuses_reject_unknown_strings() {
    claim_fact("claim-1", "mystery", "worker-1", &["src/**"], &[], true, Some("token-ref"))
        .expect_err("unknown claim status must be rejected");
    claim_fact("claim-1", "in_progress", "worker-1", &["src/**"], &[], true, None)
        .expect_err("in-progress claim facts must carry an ownership token");
    claim_fact("claim-1", "in_progress", "worker-1", &["src/**"], &[], true, Some(" "))
        .expect_err("in-progress claim facts must carry a valid ownership token");
    claim_fact("claim-1", "open", "worker-1", &["src/**"], &[], true, Some("token-ref"))
        .expect_err("open claim facts must not carry stale ownership tokens");

    lock_fact("src/lib.rs", "worker-1", "claim-1", "maybe_owned").expect_err("unknown lock status must be rejected");
    lock_fact(" ", "worker-1", "claim-1", "owned").expect_err("lock path must not be blank");
    lock_fact("src/lib.rs", "worker-1 ", "claim-1", "owned").expect_err("lock owner must be normalized");
    lock_fact("/src/lib.rs", "worker-1", "claim-1", "owned").expect_err("lock path must be repo-relative");
    RepoopsAuthorityLockFact::foreign_owner("src/../lib.rs".to_owned(), "worker-2".to_owned(), "claim-2".to_owned())
        .expect_err("constructor must reject traversing lock paths");

    policy_fact("observe", 2, None).expect_err("unknown policy mode must be rejected");
    policy_fact("enforce", 1, None).expect_err("unsupported enforce policy phases must be rejected");
    policy_fact("enforce", 2, Some("rule-should-not-be-here"))
        .expect_err("enforce policy facts must not carry denied rule ids");

    let snap = snapshot(claim_bound_flat()).expect("valid claim-bound repoops snapshot");
    assert_eq!(snap.claim_id(), Some("claim-1"));
    assert_eq!(snap.ownership_token(), Some("token-ref"));
    assert!(snap.claim().is_some());
    assert!(snap.constraint_reason().is_none());

    snapshot(Flat { claim: None, ..claim_bound_flat() })
        .expect_err("claim-bound snapshots must include the claim fact");
    snapshot(Flat { constraint_reason: Some("claim unavailable"), ..claim_bound_flat() })
        .expect_err("repoops snapshots must not mix claim authority and constraints");

    let snap = snapshot(constrained_flat()).expect("valid constrained repoops snapshot");
    assert_eq!(snap.constraint_reason(), Some("claim unavailable"));

    snapshot(Flat { constraint_reason: Some(" "), ..constrained_flat() })
        .expect_err("constrained repoops snapshots must carry a non-empty reason");
    snapshot(Flat { constraint_reason: Some(" claim unavailable"), ..constrained_flat() })
        .expect_err("constrained repoops snapshots must carry normalized reasons");
    snapshot(Flat { constraint_reason: Some("claim\nunavailable"), ..constrained_flat() })
        .expect_err("constrained repoops snapshots must reject control characters in reasons");
    snapshot(Flat {
        claim: Some(claim_fact("claim-other", "in_progress", "worker-1", &["src/**"], &[], true, Some("token-ref"))),
        ..claim_bound_flat()
    })
    .expect_err("repoops snapshots must bind the same top-level and claim-fact ids");
    snapshot(Flat { ownership_token: Some(""), ..claim_bound_flat() })
        .expect_err("claim-bound snapshots must carry a valid ownership token");
    snapshot(Flat { override_token: Some("override-ref"), ..claim_bound_flat() })
        .expect_err("override tokens are not supported in repoops snapshots yet");
}

#[test]
fn repoops_authority_snapshot_rejects_invalid_common_identity_fields() {
    let snap = snapshot(Flat { fact_sources: &["session_token_ref:token-ref"], ..claim_bound_flat() })
        .expect("valid claim-bound snapshot with fact sources");
    assert_eq!(snap.fact_sources(), vec!["session_token_ref:token-ref"]);
    assert_eq!(snap.schema_version(), SCHEMA);
    assert_eq!(snap.agent_id(), "worker-1");
    assert_eq!(snap.claim_id(), Some("claim-1"));
    assert_eq!(snap.ownership_token(), Some("token-ref"));
    assert_eq!(snap.override_token(), None);
    assert!(snap.locks().is_empty());
    assert!(snap.git_context().is_none());

    let common_with_blank_schema = RepoopsAuthoritySnapshotCommon::new(
        String::new(),
        "worker-1".to_owned(),
        RepoopsAuthorityPolicyFact::enforce(),
        RepoopsAuthorityScopeFact::new(vec!["src/**".to_owned()], Vec::new()).expect("valid scope"),
        Vec::new(),
        None,
        Vec::new(),
    );
    common_with_blank_schema.expect_err("snapshot common must reject blank schema_version");

    let common_with_padded_fact_source = RepoopsAuthoritySnapshotCommon::new(
        SCHEMA.to_owned(),
        "worker-1".to_owned(),
        RepoopsAuthorityPolicyFact::enforce(),
        RepoopsAuthorityScopeFact::new(vec!["src/**".to_owned()], Vec::new()).expect("valid scope"),
        Vec::new(),
        None,
        vec!["session_token_ref:token-ref ".to_owned()],
    );
    common_with_padded_fact_source.expect_err("snapshot common must reject padded fact sources");

    snapshot(Flat { schema_version: "covey_repoops_authority_snapshot.v1 ", ..constrained_flat() })
        .expect_err("snapshot must reject padded schema versions");
    snapshot(Flat { schema_version: "covey_repoops_authority_snapshot.v2", ..constrained_flat() })
        .expect_err("snapshot must reject unknown schema versions");
    snapshot(Flat { agent_id: " worker-1", ..constrained_flat() }).expect_err("snapshot must reject padded agent ids");
    snapshot(Flat { agent_id: "worker 1", ..constrained_flat() })
        .expect_err("snapshot must reject non-token agent ids");
    snapshot(Flat { fact_sources: &[""], ..constrained_flat() }).expect_err("snapshot must reject blank fact sources");
    snapshot(Flat { fact_sources: &[" session_token_ref:token-ref"], ..constrained_flat() })
        .expect_err("snapshot must reject padded fact sources");
    snapshot(Flat { fact_sources: &["session_token_ref:token\nref"], ..constrained_flat() })
        .expect_err("snapshot must reject control characters in fact sources");
    snapshot(Flat {
        fact_sources: &["session_token_ref:token-ref", "session_token_ref:token-ref"],
        ..constrained_flat()
    })
    .expect_err("snapshot must reject duplicate fact sources");
}

#[test]
fn repoops_authority_git_context_rejects_partial_or_invalid_path_facts() {
    let unknown = RepoopsAuthorityGitContextFact::unknown(true);
    assert_eq!(unknown.policy_project_path(), None);
    assert_eq!(unknown.execution_project_path(), None);
    assert_eq!(unknown.repo_path_prefix(), None);
    assert!(unknown.ownership_token_required());

    let known = RepoopsAuthorityGitContextFact::known_paths(
        "/repo".to_owned(),
        "/repo/nested".to_owned(),
        Some("nested".to_owned()),
        true,
    )
    .expect("valid concrete git context");
    assert_eq!(known.policy_project_path(), Some("/repo"));
    assert_eq!(known.execution_project_path(), Some("/repo/nested"));
    assert_eq!(known.repo_path_prefix(), Some("nested"));

    RepoopsAuthorityGitContextFact::new(Some("/repo".to_owned()), None, None, true)
        .expect_err("git context must not carry only one project path");
    RepoopsAuthorityGitContextFact::new(None, None, Some("nested".to_owned()), true)
        .expect_err("git context prefix requires concrete project paths");
    RepoopsAuthorityGitContextFact::new(Some("/repo ".to_owned()), Some("/repo/nested".to_owned()), None, true)
        .expect_err("git context project paths must be normalized");
    RepoopsAuthorityGitContextFact::new(
        Some("/repo".to_owned()),
        Some("/repo/nested".to_owned()),
        Some("nested/../other".to_owned()),
        true,
    )
    .expect_err("git context prefix must be normalized");
}

#[test]
fn repoops_authority_snapshot_rejects_lock_subject_mismatches() {
    snapshot(Flat { locks: vec![lock_fact("src/lib.rs", "worker-1", "claim-other", "owned")], ..claim_bound_flat() })
        .expect_err("owned lock facts must match the snapshot claim id");
    snapshot(Flat {
        locks: vec![lock_fact("src/lib.rs", "worker-2", "claim-1", "foreign_owner")],
        ..claim_bound_flat()
    })
    .expect_err("foreign lock facts must not reuse the snapshot claim id");
    snapshot(Flat {
        locks: vec![lock_fact("src/lib.rs", "worker-1", "claim-other", "foreign_owner")],
        ..claim_bound_flat()
    })
    .expect_err("foreign lock facts must not reuse the snapshot owner");
    snapshot(Flat { locks: vec![lock_fact("src/lib.rs", "worker-1", "claim-1", "owned")], ..constrained_flat() })
        .expect_err("constrained snapshots must not include owned locks");
    snapshot(Flat {
        locks: vec![lock_fact("src/lib.rs", "worker-1", "claim-other", "foreign_owner")],
        ..constrained_flat()
    })
    .expect_err("constrained snapshots must not include locks owned by the agent");
}

#[test]
fn repoops_authority_scope_fact_rejects_invalid_patterns() {
    let scope = RepoopsAuthorityScopeFact::new(strings(&["src/**"]), strings(&["target/**"]))
        .expect("valid repoops scope fact");
    assert_eq!(scope.scope_in(), vec!["src/**".to_owned()]);
    assert_eq!(scope.scope_out(), vec!["target/**".to_owned()]);

    RepoopsAuthorityScopeFact::new(strings(&[" "]), Vec::new())
        .expect_err("repoops scope inclusion patterns must not be blank");
    RepoopsAuthorityScopeFact::new(Vec::new(), strings(&[" target/**"]))
        .expect_err("repoops scope exclusion patterns must be normalized");
    RepoopsAuthorityScopeFact::new(strings(&["src/**", "src/**"]), Vec::new())
        .expect_err("repoops scope inclusion patterns must be unique");
}

#[test]
fn repoops_authority_claim_fact_rejects_invalid_contract_fields() {
    claim_fact("claim-1", "open", " ", &[], &[], false, None)
        .expect_err("repoops claim facts must carry a non-blank owner");
    claim_fact("claim-1", "open", "worker 1", &[], &[], false, None)
        .expect_err("repoops claim owner must be a valid agent principal id");
    claim_fact("claim-1", "open", "worker-1", &["src/**", "src/**"], &[], true, None)
        .expect_err("repoops claim scope patterns must be unique");
    claim_fact("claim-1", "open", "worker-1", &[], &[], true, None)
        .expect_err("repoops claim facts cannot mark missing scope as contract-complete");

    let claim = claim_fact("claim-1", "open", "worker-1", &[], &[], false, None)
        .expect("missing scope is represented explicitly for authority denial");
    assert!(!claim.has_required_contract_fields());

    let claim = claim_fact("claim-1", "in_progress", "worker-1", &["src/**"], &["target/**"], true, Some("token-ref"))
        .expect("valid repoops claim fact");
    assert_eq!(claim.scope_in(), vec!["src/**".to_owned()]);
    assert_eq!(claim.scope_out(), vec!["target/**".to_owned()]);
    assert_eq!(claim.claim_id(), "claim-1");
    assert_eq!(claim.owner(), "worker-1");
    assert_eq!(claim.status(), RepoopsAuthorityClaimStatus::InProgress);
    assert!(claim.has_required_contract_fields());
    assert_eq!(claim.active_ownership_token(), Some("token-ref"));
}

#[test]
fn git_context_rejects_traversing_project_paths() {
    assert_eq!(
        RepoopsAuthorityGitContextFact::known_paths("/repo/../x".to_owned(), "/exec".to_owned(), None, true).unwrap_err(),
        "git_context.policy_project_path must not traverse parent directories"
    );
    assert_eq!(
        RepoopsAuthorityGitContextFact::known_paths("/repo".to_owned(), "/exec/..".to_owned(), None, true).unwrap_err(),
        "git_context.execution_project_path must not traverse parent directories"
    );
    let ok = RepoopsAuthorityGitContextFact::known_paths("/repo/..x".to_owned(), "/exec".to_owned(), Some("pkg".to_owned()), false)
        .expect("a name that only starts with dots does not traverse");
    assert_eq!(ok.policy_project_path(), Some("/repo/..x"));
    assert_eq!(
        RepoopsAuthorityGitContextFact::new(Some("/repo".to_owned()), Some("/exec".to_owned()), Some("a/../b".to_owned()), true)
            .unwrap_err(),
        "git_context.repo_path_prefix must be normalized"
    );
}

#[test]
fn in_progress_claim_fact_checks_the_ownership_token() {
    let bad = RepoopsAuthorityClaimFact::in_progress(
        "claim-1".to_owned(),
        "worker-1".to_owned(),
        strings(&["src/**"]),
        Vec::new(),
        true,
        "token ref".to_owned(),
    );
    assert_eq!(bad.unwrap_err(), "session token must not contain whitespace or control characters");
    let good = RepoopsAuthorityClaimFact::in_progress(
        "claim-1".to_owned(),
        "worker-1".to_owned(),
        strings(&["src/**"]),
        Vec::new(),
        true,
        "token-ref".to_owned(),
    )
    .expect("well-formed token");
    assert_eq!(good.active_ownership_token(), Some("token-ref"));
}

#[test]
fn flat_snapshot_parts_check_the_subject_before_the_shared_facts() {
    let policy = policy_fact("enforce", 2, None).unwrap();
    let scope = RepoopsAuthorityScopeFact::new(strings(&["src/**"]), Vec::new()).unwrap();
    let mixed = RepoopsAuthoritySnapshot::from_flat_parts(
        "bad-schema".to_owned(),
        "worker-1".to_owned(),
        policy.clone(),
        scope.clone(),
        Vec::new(),
        None,
        Vec::new(),
        Some("claim-1".to_owned()),
        None,
        None,
        None,
        Some("reason".to_owned()),
    );
    assert_eq!(mixed.unwrap_err(), "repoops authority snapshots must be claim-bound or constrained, not mixed");
    let constrained = RepoopsAuthoritySnapshot::from_flat_parts(
        SCHEMA.to_owned(),
        "worker-1".to_owned(),
        policy,
        scope,
        Vec::new(),
        None,
        Vec::new(),
        None,
        None,
        None,
        None,
        Some("claim unavailable".to_owned()),
    )
    .expect("a constrained snapshot");
    assert_eq!(constrained.constraint_reason(), Some("claim unavailable"));
}
