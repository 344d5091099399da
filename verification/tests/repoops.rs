use covey::authority::{RepoopsAuthorityClaimStatus, RepoopsAuthorityLockFact, RepoopsAuthorityLockStatus};
use covey::error::CoveyError;
use covey::snapshot::repoops_authority_snapshot_facts;
use covey::model::{Claim, ClaimState, Reservation, ScopeClass, Session, SessionRole, SessionState, SubtaskState};
use covey::repoops::{
    lock_facts_for_paths, lock_facts_for_prepared_paths, lock_facts_for_prepared_paths_nested,
    normalize_repo_relative_path, normalize_requested_paths, ownership_token_ref,
    prepare_reservations, repo_relative_path_is_normalized, repoops_claim_status_for_subtask,
    scope_patterns_for_reservation, scope_patterns_for_subtask,
};

fn reservation(scope_class: ScopeClass, scope_key: &str, owner_subtask_id: &str) -> Reservation {
    reservation_with_members(scope_class, scope_key, owner_subtask_id, Vec::new())
}

fn reservation_with_members(
    scope_class: ScopeClass,
    scope_key: &str,
    owner_subtask_id: &str,
    generated_members: Vec<String>,
) -> Reservation {
    Reservation {
        reservation_id: "reservation-1".to_owned(),
        owner_subtask_id: owner_subtask_id.to_owned(),
        scope_class,
        scope_key: scope_key.to_owned(),
        generated_members,
    }
}

fn claim_fixture() -> Claim {
    Claim {
        claim_id: "claim-1".to_owned(),
        subtask_id: "task-1".to_owned(),
        owner_session_token: "session-1".to_owned(),
        fence_seq: 7,
        lease_deadline: 1_000,
        state: ClaimState::Held,
    }
}

fn session_fixture() -> Session {
    Session {
        session_token: "session-1".to_owned(),
        agent_principal_id: "worker-1".to_owned(),
        agent_instance_id: "worker-1-instance".to_owned(),
        role: SessionRole::Executor,
        state: SessionState::Active,
        active_subtask_id: Some("task-1".to_owned()),
    }
}

#[test]
fn scope_patterns_map_reservation_shapes() {
    assert_eq!(
        scope_patterns_for_reservation(&reservation(ScopeClass::Subtree, "src", "task-1")),
        vec!["src/**"]
    );
    assert_eq!(
        scope_patterns_for_reservation(&reservation(ScopeClass::RepoGlobal, "repo", "task-1")),
        vec!["**"]
    );
    assert_eq!(
        scope_patterns_for_reservation(&reservation_with_members(
            ScopeClass::GeneratedSet,
            "generated",
            "task-1",
            vec!["./src/generated.rs".to_owned(), "src/other.rs".to_owned()]
        )),
        vec!["src/generated.rs".to_owned(), "src/other.rs".to_owned()]
    );
}

#[test]
fn repo_relative_path_fast_path_matches_canonicalization_shape() {
    assert!(repo_relative_path_is_normalized("src/lib.rs"));
    assert_eq!(normalize_repo_relative_path("src/lib.rs").as_deref(), Some("src/lib.rs"));

    for raw in ["./src/lib.rs", "/src/lib.rs", "src//lib.rs", "src/./lib.rs"] {
        assert!(!repo_relative_path_is_normalized(raw));
        assert_eq!(normalize_repo_relative_path(raw).as_deref(), Some("src/lib.rs"));
    }

    assert!(!repo_relative_path_is_normalized("src/../lib.rs"));
    assert_eq!(normalize_repo_relative_path("src/../lib.rs"), None);
}

#[test]
fn ownership_token_ref_preserves_blake3_token_shape() {
    let expected = format!("covey-session-token-blake3:{}", blake3::hash(b"session-1"));
    assert_eq!(ownership_token_ref("session-1").as_str(), expected);
}

#[test]
fn requested_path_single_fast_path_preserves_multi_path_dedup() {
    let single = vec!["src/lib.rs".to_owned()];
    assert_eq!(normalize_requested_paths(&single), vec!["src/lib.rs".to_owned()]);

    let duplicate = vec!["src/main.rs".to_owned(), "src/lib.rs".to_owned(), "src/main.rs".to_owned()];
    assert_eq!(
        normalize_requested_paths(&duplicate),
        vec!["src/lib.rs".to_owned(), "src/main.rs".to_owned()]
    );
}

#[test]
fn lock_facts_distinguish_owned_and_foreign_reservations() {
    let claim = claim_fixture();
    let session = session_fixture();
    let reservations = vec![
        reservation(ScopeClass::ExactPath, "src/lib.rs", "task-1"),
        reservation(ScopeClass::ExactPath, "src/lib.rs", "task-2"),
    ];
    let locks = lock_facts_for_paths(&vec!["src/lib.rs".to_owned()], &reservations, &claim, &session)
        .expect("valid lock facts");
    assert!(locks.iter().any(|lock| lock.status() == RepoopsAuthorityLockStatus::Owned));
    assert!(locks.iter().any(|lock| lock.status() == RepoopsAuthorityLockStatus::ForeignOwner));
}

#[test]
fn lock_facts_cover_prepared_subtree_and_generated_reservations() {
    let claim = claim_fixture();
    let session = session_fixture();
    let reservations = vec![
        reservation(ScopeClass::Subtree, "src", "task-1"),
        reservation_with_members(
            ScopeClass::GeneratedSet,
            "generated",
            "task-2",
            vec!["./generated/out.rs".to_owned()],
        ),
    ];

    let locks = lock_facts_for_paths(
        &vec!["src/lib.rs".to_owned(), "generated/out.rs".to_owned()],
        &reservations,
        &claim,
        &session,
    )
    .expect("valid lock facts");

    assert!(locks
        .iter()
        .any(|lock| lock.path() == "src/lib.rs" && lock.status() == RepoopsAuthorityLockStatus::Owned));
    assert!(locks.iter().any(|lock| {
        lock.path() == "generated/out.rs" && lock.status() == RepoopsAuthorityLockStatus::ForeignOwner
    }));
}

fn index_fixture() -> (Vec<Reservation>, Vec<String>) {
    let reservations = vec![
        reservation(ScopeClass::RepoGlobal, "repo", "task-3"),
        reservation(ScopeClass::ExactPath, "./src/lib.rs", "task-1"),
        reservation(ScopeClass::ExactPath, "src/lib.rs", "task-4"),
        reservation(ScopeClass::Subtree, "src", "task-5"),
        reservation_with_members(
            ScopeClass::GeneratedSet,
            "generated",
            "task-1",
            vec!["./generated/out.rs".to_owned(), "generated/other.rs".to_owned()],
        ),
        reservation_with_members(
            ScopeClass::GeneratedSet,
            "generated",
            "task-6",
            vec!["generated/out.rs".to_owned(), "src/lib.rs".to_owned()],
        ),
    ];
    let paths = vec![
        "src/lib.rs".to_owned(),
        "src/nested/mod.rs".to_owned(),
        "generated/out.rs".to_owned(),
        "unmatched/file.rs".to_owned(),
    ];
    (reservations, paths)
}

#[test]
fn prepared_reservation_index_matches_nested_lock_facts() {
    let claim = claim_fixture();
    let session = session_fixture();
    let (reservations, paths) = index_fixture();
    let prepared = prepare_reservations(&reservations);

    let indexed = lock_facts_for_prepared_paths(&paths, &prepared, &claim, &session).expect("indexed lock facts");
    let nested =
        lock_facts_for_prepared_paths_nested(&paths, &prepared, &claim, &session).expect("nested lock facts");

    assert_eq!(indexed, nested);
}

#[test]
fn subtask_state_maps_to_repoops_claim_status() {
    assert_eq!(
        repoops_claim_status_for_subtask(SubtaskState::InProgress),
        RepoopsAuthorityClaimStatus::InProgress
    );
    assert_eq!(repoops_claim_status_for_subtask(SubtaskState::Claimed), RepoopsAuthorityClaimStatus::Open);
}

#[test]
fn lock_facts_are_sorted_by_path_owner_and_claim() {
    let claim = claim_fixture();
    let session = session_fixture();
    let (reservations, paths) = index_fixture();
    let locks = lock_facts_for_paths(&paths, &reservations, &claim, &session).expect("lock facts");
    let keys: Vec<(String, String, String)> = locks
        .iter()
        .map(|l| (l.path().to_owned(), l.owner().to_owned(), l.claim_id().to_owned()))
        .collect();
    let mut sorted = keys.clone();
    sorted.sort();
    sorted.dedup();
    assert_eq!(keys, sorted);
    assert_eq!(
        keys,
        vec![
            ("generated/out.rs".to_owned(), "subtask:task-3".to_owned(), "unknown:task-3".to_owned()),
            ("generated/out.rs".to_owned(), "subtask:task-6".to_owned(), "unknown:task-6".to_owned()),
            ("generated/out.rs".to_owned(), "worker-1".to_owned(), "claim-1".to_owned()),
            ("src/lib.rs".to_owned(), "subtask:task-3".to_owned(), "unknown:task-3".to_owned()),
            ("src/lib.rs".to_owned(), "subtask:task-4".to_owned(), "unknown:task-4".to_owned()),
            ("src/lib.rs".to_owned(), "subtask:task-5".to_owned(), "unknown:task-5".to_owned()),
            ("src/lib.rs".to_owned(), "subtask:task-6".to_owned(), "unknown:task-6".to_owned()),
            ("src/lib.rs".to_owned(), "worker-1".to_owned(), "claim-1".to_owned()),
            ("src/nested/mod.rs".to_owned(), "subtask:task-3".to_owned(), "unknown:task-3".to_owned()),
            ("src/nested/mod.rs".to_owned(), "subtask:task-5".to_owned(), "unknown:task-5".to_owned()),
            ("unmatched/file.rs".to_owned(), "subtask:task-3".to_owned(), "unknown:task-3".to_owned()),
        ]
    );
}

#[test]
fn lock_facts_reject_an_invalid_owner() {
    let claim = claim_fixture();
    let mut session = session_fixture();
    session.agent_principal_id = "worker 1".to_owned();
    let reservations = vec![reservation(ScopeClass::ExactPath, "src/lib.rs", "task-1")];
    let result = lock_facts_for_paths(&vec!["src/lib.rs".to_owned()], &reservations, &claim, &session);
    assert_eq!(
        result,
        Err("repoops lock owner must not contain whitespace or control characters".to_owned())
    );
}

#[test]
fn lock_fact_constructors_check_path_and_owner() {
    assert_eq!(
        RepoopsAuthorityLockFact::owned(" ".to_owned(), "worker-1".to_owned(), "claim-1".to_owned()),
        Err("repoops lock path must not be empty".to_owned())
    );
    assert_eq!(
        RepoopsAuthorityLockFact::owned("src/lib.rs".to_owned(), "worker-1 ".to_owned(), "claim-1".to_owned()),
        Err("repoops lock owner must be normalized".to_owned())
    );
    assert_eq!(
        RepoopsAuthorityLockFact::owned("/src/lib.rs".to_owned(), "worker-1".to_owned(), "claim-1".to_owned()),
        Err("repoops lock path must be repo-relative".to_owned())
    );
    assert_eq!(
        RepoopsAuthorityLockFact::foreign_owner("src/../lib.rs".to_owned(), "worker-2".to_owned(), "claim-2".to_owned()),
        Err("repoops lock path must be normalized".to_owned())
    );
}

#[test]
fn scope_patterns_for_subtask_collect_owned_reservations() {
    let reservations = vec![
        reservation(ScopeClass::Subtree, "src", "task-1"),
        reservation(ScopeClass::ExactPath, "./README.md", "task-1"),
        reservation(ScopeClass::ExactPath, "docs/x.md", "task-2"),
        reservation(ScopeClass::Subtree, "src/", "task-1"),
    ];
    let prepared = prepare_reservations(&reservations);
    assert_eq!(
        scope_patterns_for_subtask(&prepared, "task-1"),
        vec!["README.md".to_owned(), "src/**".to_owned()]
    );
    assert_eq!(scope_patterns_for_subtask(&prepared, "task-9"), Vec::<String>::new());
}

#[test]
fn normalization_handles_backslashes_and_blank_paths() {
    assert_eq!(normalize_repo_relative_path("  src\\lib.rs  ").as_deref(), Some("src/lib.rs"));
    assert_eq!(normalize_repo_relative_path("   "), None);
    assert_eq!(normalize_repo_relative_path("./."), None);
    let once = normalize_repo_relative_path(".//a/./b/").expect("normalized");
    assert_eq!(once, "a/b");
    assert_eq!(normalize_repo_relative_path(&once).as_deref(), Some("a/b"));
}

#[test]
fn snapshot_facts_succeed_on_valid_inputs_and_fail_on_a_rejected_fact() {
    let claim = claim_fixture();
    let session = session_fixture();
    let reservations = vec![reservation(ScopeClass::ExactPath, "src/lib.rs", "task-1")];
    let paths = vec!["src/lib.rs".to_owned()];
    let snapshot = repoops_authority_snapshot_facts("session-1", "claim-1", &paths, &claim, SubtaskState::InProgress, &session, &reservations)
        .expect("valid facts give a snapshot");
    assert_eq!(snapshot.agent_id(), "worker-1");
    assert_eq!(snapshot.claim_id(), Some("claim-1"));
    assert_eq!(snapshot.locks().len(), 1);
    assert_eq!(snapshot.claim().map(|c| c.status()), Some(RepoopsAuthorityClaimStatus::InProgress));

    let mut bad_session = session_fixture();
    bad_session.agent_principal_id = "worker 1".to_owned();
    let rejected =
        repoops_authority_snapshot_facts("session-1", "claim-1", &paths, &claim, SubtaskState::Claimed, &bad_session, &reservations);
    assert!(matches!(
        rejected,
        Err(CoveyError::InvalidObservabilityRow { ref reason })
            if reason == "repoops lock owner must not contain whitespace or control characters"
    ));
}
