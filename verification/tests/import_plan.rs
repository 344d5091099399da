use covey::bd::{
    bd_item_idempotency_key, check_issue_columns, check_work_subtask_fields, existing_subtask_matches_destination,
    imported_work_subtask, importable_item_result, missing_table_detail, skipped_item_result, skipped_source_issue_id, work_subtask_import_step,
    ImportBdV1ItemResult, ImportBdV1SkipReason, WorkSubtaskImportStep,
};
use covey::digest::blake3_digest;
use covey::error::CoveyError;
use covey::model::{SubtaskKind, SubtaskState};
use covey::openspec::{
    openspec_change_path, openspec_meta_prompt, validate_source_digest_binding, openspec_meta_task_id, openspec_subtask_id, required_source_digests,
    resolved_dependency_ids, spec_source_digests, validate_deterministic_covey_id, ExistingSubtaskFacts,
    ImportOpenSpecAction, ImportOpenSpecConflictReason, OpenSpecSourceDigest, OpenSpecSourceTask,
};
use covey::openspec_import::{
    dependency_edges, import_write_step, meta_import_action, plan_openspec_import, subtask_title_update,
    ExistingMetaTaskFacts, ImportRecordKind, ImportTaskFacts, ImportWriteStep, StoredSubtaskTitleRow,
    SubtaskTitleUpdate,
};
use covey::prose_intake::{prose_provenance_tier, prose_subtask_idempotency_keys};
use covey::provenance::{meta_provenance, provenance_equivalent, task_provenance, OpenSpecSourceSnapshot};

fn existing(meta: &str, title: &str, claimed: bool) -> Option<ExistingSubtaskFacts> {
    Some(ExistingSubtaskFacts { meta_task_id: meta.to_owned(), title: title.to_owned(), has_active_claim: claimed })
}

fn task(title: &str, existing: Option<ExistingSubtaskFacts>, provenance_equivalent: bool) -> ImportTaskFacts {
    ImportTaskFacts { title: title.to_owned(), existing, provenance_equivalent }
}

#[test]
fn openspec_import_plan_counts_each_record_once() {
    let meta = "openspec:change-1";
    let tasks = vec![
        task("new task", None, false),
        task("same", existing(meta, "same", false), true),
        task("renamed", existing(meta, "old", false), true),
        task("renamed under claim", existing(meta, "old", true), true),
        task("foreign", existing("openspec:other", "foreign", false), true),
    ];
    let plan = plan_openspec_import(meta, "prompt", &None, &tasks);
    assert_eq!(plan.meta_action, ImportOpenSpecAction::Created);
    assert_eq!(
        plan.task_actions,
        vec![
            ImportOpenSpecAction::Created,
            ImportOpenSpecAction::Unchanged,
            ImportOpenSpecAction::Updated,
            ImportOpenSpecAction::Conflict,
            ImportOpenSpecAction::Conflict,
        ]
    );
    assert_eq!(
        plan.task_conflicts,
        vec![
            None,
            None,
            None,
            Some(ImportOpenSpecConflictReason::ActiveClaimChangedSource),
            Some(ImportOpenSpecConflictReason::ExistingSubtaskDifferentMetaTask),
        ]
    );
    assert_eq!((plan.counts.created, plan.counts.updated, plan.counts.unchanged, plan.conflicts), (2, 1, 1, 2));
    assert_eq!(
        plan.counts.created + plan.counts.updated + plan.counts.unchanged + plan.conflicts,
        tasks.len() + 1
    );

    let same_meta = Some(ExistingMetaTaskFacts { prompt_text: "prompt".to_owned(), provenance_equivalent: true });
    assert_eq!(meta_import_action(&same_meta, "prompt"), ImportOpenSpecAction::Unchanged);
    assert_eq!(meta_import_action(&same_meta, "new prompt"), ImportOpenSpecAction::Updated);
    let changed_provenance = Some(ExistingMetaTaskFacts { prompt_text: "prompt".to_owned(), provenance_equivalent: false });
    assert_eq!(meta_import_action(&changed_provenance, "prompt"), ImportOpenSpecAction::Updated);
}

#[test]
fn openspec_import_apply_steps() {
    assert_eq!(import_write_step(ImportRecordKind::MetaTask, ImportOpenSpecAction::Created), ImportWriteStep::InsertMetaTask);
    assert_eq!(
        import_write_step(ImportRecordKind::MetaTask, ImportOpenSpecAction::Updated),
        ImportWriteStep::UpdateMetaTaskPrompt
    );
    assert_eq!(import_write_step(ImportRecordKind::Subtask, ImportOpenSpecAction::Created), ImportWriteStep::CreateSubtask);
    assert_eq!(
        import_write_step(ImportRecordKind::Subtask, ImportOpenSpecAction::Updated),
        ImportWriteStep::UpdateSubtaskTitle
    );
    assert_eq!(import_write_step(ImportRecordKind::Subtask, ImportOpenSpecAction::Conflict), ImportWriteStep::Skip);
    assert_eq!(import_write_step(ImportRecordKind::MetaTask, ImportOpenSpecAction::Unchanged), ImportWriteStep::Skip);

    let row = |claimed: bool, state: SubtaskState, title: &str| {
        Some(StoredSubtaskTitleRow { has_active_claim: claimed, state, title: title.to_owned() })
    };
    assert_eq!(subtask_title_update(&row(false, SubtaskState::Available, "old"), "new"), SubtaskTitleUpdate::Apply);
    assert_eq!(
        subtask_title_update(&row(false, SubtaskState::ChangesRequested, "old"), "new"),
        SubtaskTitleUpdate::Apply
    );
    assert_eq!(subtask_title_update(&row(false, SubtaskState::Applied, "new"), "new"), SubtaskTitleUpdate::KeepSettled);
    assert_eq!(subtask_title_update(&row(false, SubtaskState::Applied, "old"), "new"), SubtaskTitleUpdate::Duplicate);
    assert_eq!(subtask_title_update(&row(true, SubtaskState::Available, "new"), "new"), SubtaskTitleUpdate::Duplicate);
    assert_eq!(subtask_title_update(&None, "new"), SubtaskTitleUpdate::Duplicate);
}

#[test]
fn openspec_dependency_edges_skip_none_and_self() {
    let table = vec![
        ("1.1".to_owned(), "openspec:c:1.1".to_owned()),
        ("1.2".to_owned(), "openspec:c:1.2".to_owned()),
        ("2.1".to_owned(), "openspec:c:2.1".to_owned()),
    ];
    let deps = vec!["none".to_owned(), "TASK-MAG0-1.1, 1.2".to_owned(), "2.1".to_owned()];
    assert_eq!(
        resolved_dependency_ids(&deps, &table),
        vec!["openspec:c:1.1".to_owned(), "openspec:c:1.2".to_owned(), "openspec:c:2.1".to_owned()]
    );
    assert_eq!(
        dependency_edges("openspec:c:2.1", &deps, &table),
        vec!["openspec:c:1.1".to_owned(), "openspec:c:1.2".to_owned()]
    );
    assert!(dependency_edges("x", &vec!["none".to_owned()], &table).is_empty());
}

#[test]
fn openspec_ids_prompts_and_source_digests() {
    assert_eq!(openspec_meta_task_id("change-1"), "openspec:change-1");
    assert_eq!(openspec_subtask_id("change-1", "1.2"), "openspec:change-1:1.2");
    assert_eq!(
        openspec_meta_prompt("change-1", "openspec/changes/change-1"),
        "OpenSpec change change-1\n\nImported from openspec/changes/change-1"
    );
    assert_eq!(openspec_change_path("change-1"), "openspec/changes/change-1");
    let long = "a".repeat(129);
    assert_eq!(
        validate_deterministic_covey_id("subtask_id", &long).unwrap_err().message(),
        "subtask_id exceeds max length 128"
    );
    validate_deterministic_covey_id("subtask_id", "openspec:change-1:1.2").expect("valid id");

    let digests = required_source_digests("c", "proposal text", "design text", "tasks text");
    assert_eq!(digests.len(), 3);
    assert_eq!(digests[0].path, "openspec/changes/c/proposal.md");
    assert_eq!(digests[0].digest, blake3_digest(b"proposal text"));
    assert_eq!(digests[1].path, "openspec/changes/c/design.md");
    assert_eq!(digests[2].path, "openspec/changes/c/tasks.md");
    assert_eq!(digests[2].digest, format!("blake3:{}", blake3::hash(b"tasks text")));

    let files = vec![("openspec/changes/c/specs/a/capability.md".to_owned(), b"a".to_vec())];
    let specs = spec_source_digests("/repo/openspec/changes/c/specs", &files).expect("one spec");
    assert_eq!(specs[0].path, "openspec/changes/c/specs/a/capability.md");
    assert_eq!(specs[0].digest, blake3_digest(b"a"));
    match spec_source_digests("/repo/openspec/changes/c/specs", &vec![]).unwrap_err() {
        CoveyError::InvalidSourceSchema { path, detail } => {
            assert_eq!(path, "/repo/openspec/changes/c/specs");
            assert_eq!(detail, "missing capability specs");
        },
        e => panic!("unexpected {e:?}"),
    }
}

#[test]
fn openspec_source_task_rejects_unnormalized_lists() {
    let ok = OpenSpecSourceTask::try_from_raw_parts(
        "1.1".to_owned(),
        "Title".to_owned(),
        "openspec/changes/c/tasks.md".to_owned(),
        "blake3:t".to_owned(),
        Some("implementation".to_owned()),
        vec!["scenario-a".to_owned()],
        vec!["none".to_owned()],
    )
    .expect("normalized task");
    assert_eq!(ok.task_id, "1.1");
    assert_eq!(ok.dependencies, vec!["none".to_owned()]);
    let detail = |r: Result<OpenSpecSourceTask, CoveyError>| match r.unwrap_err() {
        CoveyError::InvalidSourceSchema { path, detail } => {
            assert_eq!(path, "compiled Better Droid mission");
            detail
        },
        e => panic!("unexpected {e:?}"),
    };
    let raw = |task_type: Option<&str>, scenarios: Vec<&str>, deps: Vec<&str>| {
        OpenSpecSourceTask::try_from_raw_parts(
            "1.1".to_owned(),
            "Title".to_owned(),
            "p".to_owned(),
            "d".to_owned(),
            task_type.map(|t| t.to_owned()),
            scenarios.into_iter().map(|s| s.to_owned()).collect(),
            deps.into_iter().map(|s| s.to_owned()).collect(),
        )
    };
    assert_eq!(detail(raw(Some(" "), vec![], vec![])), "task_type must not be empty");
    assert_eq!(
        detail(raw(None, vec!["ok", " padded"], vec![])),
        "scenario_ref must not include leading or trailing whitespace"
    );
    assert_eq!(detail(raw(None, vec![], vec!["a\tb"])), "dependency must not contain control characters");
}

#[test]
fn import_keys_and_placeholders() {
    assert_eq!(bd_item_idempotency_key("import-1", "BD-7"), "import-1:BD-7");
    assert_eq!(skipped_source_issue_id("BD-7", true, 4), "BD-7");
    assert_eq!(skipped_source_issue_id("bad id", false, 4), "invalid-source-issue-5");
    assert_eq!(prose_provenance_tier(), "lightweight_prose_intake");
    assert_eq!(
        prose_subtask_idempotency_keys("key", 3).unwrap(),
        vec!["key:create-subtask:0".to_owned(), "key:create-subtask:1".to_owned(), "key:create-subtask:2".to_owned()]
    );
    match prose_subtask_idempotency_keys("key", 0).unwrap_err() {
        CoveyError::InvalidImportDestination { reason } => assert_eq!(reason, "prose import requires at least one task"),
        e => panic!("unexpected {e:?}"),
    }
}

#[test]
fn bd_schema_checks_name_the_first_missing_column() {
    let all: Vec<String> =
        vec!["id", "title", "status", "priority", "issue_type", "extra"].into_iter().map(String::from).collect();
    assert!(check_issue_columns("beads.db", &all).is_ok());
    let no_status: Vec<String> = vec!["issue_type", "priority", "title", "id"].into_iter().map(String::from).collect();
    assert!(matches!(
        check_issue_columns("beads.db", &no_status),
        Err(CoveyError::InvalidSourceSchema { ref path, ref detail })
            if path == "beads.db" && detail == "issues table missing required column status"
    ));
    let empty: Vec<String> = Vec::new();
    assert!(matches!(
        check_issue_columns("x.db", &empty),
        Err(CoveyError::InvalidSourceSchema { ref path, ref detail })
            if path == "x.db" && detail == "issues table missing required column id"
    ));
    assert_eq!(missing_table_detail("dependencies"), "missing dependencies table");
}

fn digest(path: &str, digest: &str) -> OpenSpecSourceDigest {
    OpenSpecSourceDigest { path: path.to_owned(), digest: digest.to_owned() }
}

fn source_snapshot(tasks_digest: &str) -> OpenSpecSourceSnapshot {
    OpenSpecSourceSnapshot {
        change_id: "add-login".to_owned(),
        change_path: "openspec/changes/add-login".to_owned(),
        tasks: Vec::new(),
        proposal_digest: "blake3:p".to_owned(),
        design_digest: "blake3:d".to_owned(),
        tasks_digest: tasks_digest.to_owned(),
        spec_digests: vec![digest("openspec/changes/add-login/specs/auth/x.md", "blake3:s")],
        source_digests: vec![digest("openspec/changes/add-login/tasks.md", tasks_digest)],
        mission_artifact_digests: vec![digest("mission/mission.json", "blake3:m")],
        mission_artifacts: vec!["mission/mission.json".to_owned()],
    }
}

#[test]
fn rebuilt_provenance_is_equivalent_and_changed_source_is_not() {
    let source = source_snapshot("blake3:t");
    let stored = meta_provenance(&source, "openspec-add-login", 100);
    let fresh = meta_provenance(&source, "openspec-add-login", 900);
    assert_eq!(stored.updated_at, 100);
    assert_eq!(stored.proposal_digest.as_deref(), Some("blake3:p"));
    assert_eq!(stored.planning_format, "openspec");
    assert!(stored.task_digest.is_none());
    assert!(provenance_equivalent(&Some(stored), &fresh));
    assert!(!provenance_equivalent(&None, &fresh));

    let changed = source_snapshot("blake3:t2");
    let after_edit = meta_provenance(&changed, "openspec-add-login", 900);
    let stored_again = meta_provenance(&source, "openspec-add-login", 100);
    assert!(!provenance_equivalent(&Some(stored_again), &after_edit));

    let task = OpenSpecSourceTask {
        task_id: "1.1".to_owned(),
        title: "Add login form".to_owned(),
        source_path: "openspec/changes/add-login/tasks.md".to_owned(),
        task_digest: "blake3:task".to_owned(),
        task_type: None,
        scenario_refs: Vec::new(),
        dependencies: Vec::new(),
    };
    let sub = task_provenance(&source, &task, "openspec-add-login-1-1", 5);
    assert_eq!(sub.openspec_task_id.as_deref(), Some("1.1"));
    assert_eq!(sub.task_digest.as_deref(), Some("blake3:task"));
    assert!(sub.proposal_digest.is_none() && sub.spec_digests.is_empty());
    let meta_again = meta_provenance(&source, "openspec-add-login-1-1", 5);
    assert!(!provenance_equivalent(&Some(meta_again), &sub));
}

#[test]
fn digest_binding_reports_the_first_missing_or_stale_file() {
    let compiled = vec![digest("a/proposal.md", "blake3:1"), digest("a/tasks.md", "blake3:3")];
    let required = vec![digest("a/proposal.md", "blake3:1"), digest("a/tasks.md", "blake3:3")];
    assert!(validate_source_digest_binding(&compiled, &required, &Vec::new()).is_ok());

    let stale = vec![digest("a/proposal.md", "blake3:1"), digest("a/tasks.md", "blake3:9")];
    assert!(matches!(
        validate_source_digest_binding(&compiled, &stale, &Vec::new()),
        Err(CoveyError::InvalidSourceSchema { ref path, ref detail })
            if path == "a/tasks.md" && detail == "compiled mission source digest is stale"
    ));

    let specs = vec![digest("a/specs/x/cap.md", "blake3:5")];
    assert!(matches!(
        validate_source_digest_binding(&compiled, &required, &specs),
        Err(CoveyError::InvalidSourceSchema { ref path, ref detail })
            if path == "a/specs/x/cap.md" && detail == "compiled mission missing source digest binding"
    ));
}

#[test]
fn bd_work_subtask_decisions() {
    assert!(check_work_subtask_fields("bd-1", "Fix the parser").is_ok());
    assert!(matches!(
        check_work_subtask_fields(&"x".repeat(129), "t"),
        Err(CoveyError::FieldTooLong { ref field, max: 128 }) if field == "source_issue_id"
    ));
    assert!(matches!(
        check_work_subtask_fields("bd-1", &"t".repeat(513)),
        Err(CoveyError::FieldTooLong { ref field, max: 512 }) if field == "title"
    ));

    assert!(matches!(work_subtask_import_step("sub-1", "meta-1", None), Ok(WorkSubtaskImportStep::Create)));
    assert!(matches!(work_subtask_import_step("sub-1", "meta-1", Some("meta-1")), Ok(WorkSubtaskImportStep::ReturnExisting)));
    assert!(matches!(
        work_subtask_import_step("sub-1", "meta-1", Some("meta-2")),
        Err(CoveyError::DuplicateSubtaskId { ref subtask_id }) if subtask_id == "sub-1"
    ));

    assert!(matches!(existing_subtask_matches_destination("bd-1", "sub-1", "meta-1", None), Ok(false)));
    assert!(matches!(existing_subtask_matches_destination("bd-1", "sub-1", "meta-1", Some("meta-1")), Ok(true)));
    let dup = existing_subtask_matches_destination("bd-1", "sub-1", "meta-1", Some("meta-2")).unwrap_err();
    assert!(matches!(dup, CoveyError::ImportDuplicate { ref source_issue_id, ref subtask_id }
        if source_issue_id == "bd-1" && subtask_id == "sub-1"));
    assert_eq!(dup.message(), "source issue bd-1 is already imported as subtask sub-1");
}

#[test]
fn bd_item_results_report_duplicates_as_skipped() {
    assert!(matches!(
        importable_item_result("bd-1", "sub-1".to_owned(), true),
        ImportBdV1ItemResult::Skipped { ref source_issue_id, subtask_id: Some(ref s), reason: ImportBdV1SkipReason::DeterministicDuplicate }
            if source_issue_id == "bd-1" && s == "sub-1"
    ));
    assert!(matches!(
        importable_item_result("bd-2", "sub-2".to_owned(), false),
        ImportBdV1ItemResult::Imported { ref source_issue_id, ref subtask_id } if source_issue_id == "bd-2" && subtask_id == "sub-2"
    ));
    let skipped = skipped_item_result("", false, 2, ImportBdV1SkipReason::InvalidRow { detail: "missing issue id".to_owned() });
    assert!(matches!(
        skipped,
        ImportBdV1ItemResult::Skipped { ref source_issue_id, subtask_id: None, reason: ImportBdV1SkipReason::InvalidRow { ref detail } }
            if source_issue_id == "invalid-source-issue-3" && detail == "missing issue id"
    ));
}

#[test]
fn bd_import_creates_an_available_work_subtask_only() {
    let v = imported_work_subtask("sub-1".to_owned(), "meta-1".to_owned(), "Fix the parser".to_owned(), 2, 77).unwrap();
    assert_eq!(v.kind(), SubtaskKind::Work);
    assert_eq!(v.state(), SubtaskState::Available);
    assert!(v.active_claim_id().is_none() && v.artifact_digest().is_none() && v.review_target().is_none());
    assert_eq!(v.routing_key(), "default");
    assert_eq!((v.created_at(), v.updated_at(), v.priority()), (77, 77, 2));
    assert_eq!(
        imported_work_subtask("sub-1".to_owned(), "meta-1".to_owned(), "  ".to_owned(), 2, 77).unwrap_err(),
        "subtask title must not be empty"
    );
    assert_eq!(
        imported_work_subtask("sub-1".to_owned(), "meta-1".to_owned(), "t".repeat(513), 2, 77).unwrap_err(),
        "subtask title exceeds max length 512"
    );
}
