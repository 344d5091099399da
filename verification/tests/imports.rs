use covey::bd::{
    assess_source_issue, is_importable_issue_type, labeled_skip_issue_ids, order_source_issues,
    parse_import_bd_v1_destination, ImportBdV1Destination, ImportBdV1SkipReason, SourceDependency,
    SourceIssue, SourceIssueEligibility, SourceIssueStatus, SourceLabel,
};
use covey::digest::blake3_digest;
use covey::error::CoveyError;
use covey::openspec::{dependency_token_matches, parse_openspec_tasks};

#[test]
fn import_destination_requires_exactly_one_selector() {
    assert!(matches!(
        parse_import_bd_v1_destination(Some("meta_1"), Some("prompt")),
        Err(CoveyError::InvalidPath { path }) if path == "bd import destination selector"
    ));
    assert!(matches!(
        parse_import_bd_v1_destination(None, None),
        Err(CoveyError::InvalidPath { path }) if path == "bd import destination selector"
    ));
}

#[test]
fn import_destination_accepts_one_selector() {
    assert_eq!(
        parse_import_bd_v1_destination(Some("meta_1"), None).ok(),
        Some(ImportBdV1Destination::ExistingMetaTask("meta_1".to_owned()))
    );
    assert_eq!(
        parse_import_bd_v1_destination(None, Some("prompt")).ok(),
        Some(ImportBdV1Destination::NewMetaTask("prompt".to_owned()))
    );
}

fn issue(id: &str, status: &str, priority: i64, issue_type: &str) -> SourceIssue {
    SourceIssue {
        id: id.to_owned(),
        title: "some work".to_owned(),
        status: SourceIssueStatus::parse(status.to_owned()),
        priority,
        issue_type: issue_type.to_owned(),
    }
}

#[test]
fn source_issue_status_is_typed_for_import_eligibility() {
    let issue = SourceIssue {
        id: "BD-1".to_owned(),
        title: "closed work".to_owned(),
        status: SourceIssueStatus::parse("closed".to_owned()),
        priority: 1,
        issue_type: "task".to_owned(),
    };
    let labeled_skip_issue_ids: Vec<String> = Vec::new();

    assert!(matches!(
        assess_source_issue(&issue, &labeled_skip_issue_ids),
        SourceIssueEligibility::Skip(ImportBdV1SkipReason::InvalidRow { detail })
            if detail == "unsupported status closed"
    ));
}

fn skip_detail(e: SourceIssueEligibility) -> Option<String> {
    match e {
        SourceIssueEligibility::Importable => None,
        SourceIssueEligibility::Skip(ImportBdV1SkipReason::InvalidRow { detail }) => Some(detail),
        SourceIssueEligibility::Skip(ImportBdV1SkipReason::DeterministicDuplicate) => Some("duplicate".to_owned()),
    }
}

#[test]
fn source_issue_assessment_covers_each_skip_reason() {
    let none: Vec<String> = Vec::new();
    assert_eq!(skip_detail(assess_source_issue(&issue("BD-1", "OPEN", 1, "Task"), &none)), None);
    assert_eq!(skip_detail(assess_source_issue(&issue("  ", "open", 1, "task"), &none)).as_deref(), Some("missing issue id"));
    let long_id = "x".repeat(129);
    assert_eq!(
        skip_detail(assess_source_issue(&issue(&long_id, "open", 1, "task"), &none)).as_deref(),
        Some("issue id exceeds max length 128")
    );
    let mut blank_title = issue("BD-2", "open", 1, "task");
    blank_title.title = " ".to_owned();
    assert_eq!(skip_detail(assess_source_issue(&blank_title, &none)).as_deref(), Some("missing title"));
    let mut long_title = issue("BD-2", "open", 1, "task");
    long_title.title = "t".repeat(513);
    assert_eq!(
        skip_detail(assess_source_issue(&long_title, &none)).as_deref(),
        Some("title exceeds max length 512")
    );
    assert_eq!(
        skip_detail(assess_source_issue(&issue("BD-3", "open", 1, "bug"), &none)).as_deref(),
        Some("unsupported issue_type bug")
    );
    let labeled = vec!["BD-4".to_owned()];
    assert_eq!(
        skip_detail(assess_source_issue(&issue("BD-4", "open", 1, "epic"), &labeled)).as_deref(),
        Some("unsupported labeled issue")
    );
    assert!(is_importable_issue_type("FEATURE"));
    assert!(!is_importable_issue_type("features"));
}

#[test]
fn skip_labels_are_case_insensitive() {
    let labels = vec![
        SourceLabel { issue_id: "BD-1".to_owned(), label: "Review".to_owned() },
        SourceLabel { issue_id: "BD-2".to_owned(), label: "IMPORT:SKIP".to_owned() },
        SourceLabel { issue_id: "BD-3".to_owned(), label: "ui".to_owned() },
    ];
    let ids = labeled_skip_issue_ids(&labels);
    assert!(ids.contains(&"BD-1".to_owned()));
    assert!(ids.contains(&"BD-2".to_owned()));
    assert!(!ids.contains(&"BD-3".to_owned()));
}

#[test]
fn import_order_is_priority_then_dependencies_then_id() {
    let issues = vec![
        issue("BD-9", "open", 2, "task"),
        issue("BD-2", "open", 1, "task"),
        issue("BD-1", "open", 1, "task"),
        issue("BD-3", "open", 1, "task"),
        issue("BD-1", "open", 1, "task"),
    ];
    let deps = vec![
        SourceDependency { issue_id: "BD-1".to_owned(), depends_on_id: "BD-3".to_owned() },
        SourceDependency { issue_id: "BD-1".to_owned(), depends_on_id: "BD-2".to_owned() },
    ];
    assert_eq!(order_source_issues(&issues, &deps), vec![1, 3, 2, 4, 0]);
}

#[test]
fn dependency_tokens_match_numeric_and_better_droid_task_ids() {
    assert!(dependency_token_matches("3.1", "3.1"));
    assert!(dependency_token_matches("TASK-MAG0-3.1", "3.1"));
    assert!(dependency_token_matches("TASK-MAG1-2.4", "2.4"));
    assert!(!dependency_token_matches("13.1", "3.1"));
    assert!(!dependency_token_matches("TASK-MAG0-13.1", "3.1"));
    assert!(!dependency_token_matches("TASK-MAG0-3.10", "3.1"));
}

#[test]
fn openspec_task_parser_accepts_stable_checklist_ids() {
    let tasks = parse_openspec_tasks(
        "- [ ] 1.1 Add CLI\n- [x] 1.2 Parse tasks\n",
        "openspec/changes/example/tasks.md",
    )
    .expect("valid tasks");

    assert_eq!(tasks.len(), 2);
    assert_eq!(tasks[0].task_id.as_str(), "1.1");
    assert_eq!(tasks[0].title.as_str(), "Add CLI");
    assert!(tasks[0].task_digest.as_str().starts_with("blake3:"));
    assert_eq!(tasks[0].task_digest.as_str().len(), 71);
}

#[test]
fn openspec_task_parser_rejects_duplicate_ids_and_malformed_tasks() {
    let duplicate = parse_openspec_tasks("- [ ] 1.1 Add CLI\n- [ ] 1.1 Parse tasks\n", "tasks.md");
    assert!(
        matches!(
            duplicate,
            Err(CoveyError::InvalidSourceSchema { ref detail, .. }) if detail.contains("duplicate task id")
        ),
        "duplicate task id should fail with duplicate detail: {duplicate:?}"
    );

    let malformed = parse_openspec_tasks("- [ ] Add CLI\n", "tasks.md");
    assert!(matches!(
        malformed,
        Err(CoveyError::InvalidSourceSchema { detail, .. })
            if detail.contains("task id must be hierarchical")
                || detail.contains("task id must contain only")
    ));
}

#[test]
fn blake3_digest_preserves_prefixed_hex_shape() {
    let expected = format!("blake3:{}", blake3::hash(b"openspec"));
    assert_eq!(blake3_digest(b"openspec"), expected);
}
