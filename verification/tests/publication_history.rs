use waystone::publication_history::{
    check_completed_history_record_path, completed_history_record_path,
    list_completed_history_records, list_planned_history_previews,
    planned_history_preview_path, read_completed_history_record, read_planned_history_preview,
    safe_filename_segment, CompletedHistoryOptions, HistoryDirItem, HistoryError,
    HistoryFileFacts, PublicationHistoryRecord, HISTORY_SCHEMA,
};
use waystone::publish_plan::{FeedPublicationState, PublishDryRun};

fn ssh_plan() -> PublishDryRun {
    PublishDryRun {
        project_id: "ssh-capsule".to_string(),
        target: "production".to_string(),
        method: "rsync".to_string(),
        destination: Some("offgridholdout".to_string()),
        upload: vec!["content/about.gmi".to_string(), "content/index.gmi".to_string()],
        update: vec![],
        delete: vec![],
        skip: vec![],
        confirmations: vec!["remote deletion requires explicit confirmation".to_string()],
        verification_checks: vec!["fetch".to_string(), "mime".to_string()],
        host_resolution: None,
        identity_resolution: None,
        feed: FeedPublicationState {
            configured: false,
            enabled: false,
            feed_type: None,
            path: None,
            exists: false,
            prepared_entries: 0,
            invalid_entries: 0,
            invalid_entry_diagnostics: vec![],
        },
        blocked: false,
    }
}

#[test]
fn creates_planned_history_record_from_dry_run() {
    let plan = ssh_plan();
    let record = PublicationHistoryRecord::planned_from_dry_run(&plan, "2026-07-17T00:00:00Z".to_string());

    assert_eq!(record.schema, HISTORY_SCHEMA);
    assert_eq!(record.transfer_result, "planned");
    assert_eq!(record.verification_result, "not-run");
    assert!(record.files.iter().any(|file| file.path == "content/index.gmi"));
}

#[test]
fn creates_completed_history_record_from_dry_run_with_reported_results() {
    let plan = ssh_plan();
    let record = PublicationHistoryRecord::completed_from_dry_run(
        &plan,
        "2026-07-20T00:00:00Z".to_string(),
        CompletedHistoryOptions {
            transfer_result: "completed".to_string(),
            verification_result: "passed".to_string(),
            rollback_available: true,
            rollback_notes: "Remote snapshot retained".to_string(),
        },
    );

    assert_eq!(record.schema, HISTORY_SCHEMA);
    assert_eq!(record.transfer_result, "completed");
    assert_eq!(record.verification_result, "passed");
    assert!(record.rollback.available);
    assert_eq!(record.rollback.notes, "Remote snapshot retained");
    assert!(record.files.iter().any(|file| file.action == "planned-upload"));
}

#[test]
fn renders_inspectable_toml() {
    let plan = ssh_plan();
    let record = PublicationHistoryRecord::planned_from_dry_run(&plan, "2026-07-17T00:00:00Z".to_string());
    let toml = record.to_toml();

    assert!(toml.contains("[publication]"));
    assert!(toml.contains("transfer_result = \"planned\""));
    assert!(toml.contains("[[files]]"));
    assert!(toml.contains("[rollback]"));
}

#[test]
fn record_toml_is_exact() {
    let mut plan = ssh_plan();
    plan.upload = vec!["a \"b\".gmi".to_string()];
    plan.delete = vec!["old.gmi".to_string()];
    let record = PublicationHistoryRecord::planned_from_dry_run(&plan, "2026-07-17".to_string());
    assert_eq!(
        record.to_toml(),
        "[publication]\nschema = 1\ndate = \"2026-07-17\"\nproject_id = \"ssh-capsule\"\ntarget = \"production\"\nmethod = \"rsync\"\ndestination = \"offgridholdout\"\ntransfer_result = \"planned\"\nverification_result = \"not-run\"\n\n[[files]]\npath = \"a \\\"b\\\".gmi\"\naction = \"planned-upload\"\n\n[[files]]\npath = \"old.gmi\"\naction = \"planned-delete\"\n\n[rollback]\navailable = false\nnotes = \"Dry-run only; no remote state changed\"\n"
    );
}

#[test]
fn filename_segments_are_safe() {
    assert_eq!(safe_filename_segment("2026-07-19T00:00:00Z"), "2026-07-19T00-00-00Z");
    assert_eq!(safe_filename_segment("  spaced  out  "), "spaced-out");
    assert_eq!(safe_filename_segment("a--b"), "a--b");
    assert_eq!(safe_filename_segment("a -b"), "a--b");
    assert_eq!(safe_filename_segment("///"), "unknown");
    assert_eq!(safe_filename_segment(""), "unknown");
    assert_eq!(safe_filename_segment("-x_y-"), "x_y");
    assert_eq!(safe_filename_segment("é"), "unknown");
}

#[test]
fn writes_planned_history_preview_under_project_history_previews() {
    let record = PublicationHistoryRecord::planned_from_dry_run(&ssh_plan(), "2026-07-19T00:00:00Z".to_string());
    assert_eq!(
        planned_history_preview_path("/work/root", &record),
        "/work/root/history/previews/2026-07-19T00-00-00Z-production-planned.toml"
    );
}

#[test]
fn writes_completed_history_record_under_project_history_completed() {
    let record = PublicationHistoryRecord::planned_from_dry_run(&ssh_plan(), "2026-07-20T00:00:00Z".to_string());
    assert_eq!(
        completed_history_record_path("/work/root/", &record),
        "/work/root/history/completed/2026-07-20T00-00-00Z-production-completed.toml"
    );
}

fn item(name: &str, is_file: bool, modified: u64) -> HistoryDirItem {
    HistoryDirItem {
        path: format!("/p/history/completed/{name}"),
        filename: name.to_string(),
        is_file,
        modified_unix: modified,
        size_bytes: 3,
    }
}

#[test]
fn lists_completed_history_records_under_project_history_completed() {
    let records = list_completed_history_records(Ok(Some(vec![
        item("2026-07-20T00-00-00Z-export-completed.toml", true, 10),
        item("ignore.tmp", true, 11),
        item("dir.toml", false, 12),
    ])))
    .expect("records should list");
    assert_eq!(records.len(), 1);
    assert_eq!(records[0].filename, "2026-07-20T00-00-00Z-export-completed.toml");
    assert_eq!(records[0].size_bytes, 3);
}

#[test]
fn lists_planned_history_previews_newest_first() {
    let previews = list_planned_history_previews(Ok(Some(vec![
        item("b.toml", true, 5),
        item("a.toml", true, 5),
        item("c.toml", true, 9),
        item(".toml", true, 20),
    ])))
    .expect("previews should list");
    let names: Vec<&str> = previews.iter().map(|p| p.filename.as_str()).collect();
    assert_eq!(names, vec!["c.toml", "a.toml", "b.toml"]);
    assert!(list_planned_history_previews(Ok(None)).expect("none").is_empty());
}

#[test]
fn reads_completed_history_record_detail_inside_project_boundary() {
    let detail = read_completed_history_record(
        "/tmp/root/history/completed",
        "/tmp/root/history/completed/2026-07-20T00-00-00Z-export-completed.toml",
        Ok(HistoryFileFacts { is_file: true, modified_unix: 7, size_bytes: 40 }),
        Ok("[publication]\ntransfer_result = \"completed\"\n".to_string()),
    )
    .expect("record should read");
    assert_eq!(detail.entry.filename, "2026-07-20T00-00-00Z-export-completed.toml");
    assert!(detail.entry.path.starts_with("/tmp/root/history/completed"));
    assert!(detail.record_toml.contains("transfer_result = \"completed\""));
}

#[test]
fn reads_planned_history_preview_detail_inside_project_boundary() {
    let detail = read_planned_history_preview(
        "/tmp/root/history/previews",
        "/tmp/root/history/previews/2026-07-19T00-00-00Z-export-planned.toml",
        Ok(HistoryFileFacts { is_file: true, modified_unix: 7, size_bytes: 40 }),
        Ok("[publication]\ntransfer_result = \"planned\"\n".to_string()),
    )
    .expect("preview should read");
    assert_eq!(detail.entry.filename, "2026-07-19T00-00-00Z-export-planned.toml");
    assert!(detail.record_toml.contains("transfer_result = \"planned\""));
}

#[test]
fn rejects_completed_history_record_detail_outside_project_boundary() {
    let error = read_completed_history_record(
        "/tmp/root/history/completed",
        "/tmp/root/outside.toml",
        Ok(HistoryFileFacts { is_file: true, modified_unix: 0, size_bytes: 0 }),
        Ok(String::new()),
    )
    .expect_err("outside record should be rejected");
    assert!(matches!(error, HistoryError::PermissionDenied(_)));
}

#[test]
fn rejects_planned_history_preview_detail_outside_project_boundary() {
    let error = read_planned_history_preview(
        "/tmp/root/history/previews",
        "/tmp/root/history/previews-other/x.toml",
        Ok(HistoryFileFacts { is_file: true, modified_unix: 0, size_bytes: 0 }),
        Ok(String::new()),
    )
    .expect_err("outside preview should be rejected");
    assert!(matches!(error, HistoryError::PermissionDenied(_)));
}

#[test]
fn history_paths_need_the_toml_extension_and_a_file() {
    assert!(check_completed_history_record_path("/h", "/h/x.toml").is_ok());
    assert!(check_completed_history_record_path("/h", "/h/x.txt").is_err());
    assert!(check_completed_history_record_path("/h", "/h/.toml").is_err());
    assert!(check_completed_history_record_path("/h", "/hx/y.toml").is_err());
    let error = read_completed_history_record(
        "/h",
        "/h/d.toml",
        Ok(HistoryFileFacts { is_file: false, modified_unix: 0, size_bytes: 0 }),
        Ok(String::new()),
    )
    .expect_err("a directory is not a record");
    assert!(matches!(error, HistoryError::InvalidInput(m) if m == "completed history record path is not a file"));
}

#[test]
fn saved_record_path_passes_the_read_boundary_check() {
    let mut record = PublicationHistoryRecord::planned_from_dry_run(&ssh_plan(), "2026/05 01".to_string());
    record.target = "../../etc".to_string();
    let path = completed_history_record_path("/srv/capsule.wayproject", &record);
    assert_eq!(path, "/srv/capsule.wayproject/history/completed/2026-05-01-etc-completed.toml");
    assert!(check_completed_history_record_path("/srv/capsule.wayproject/history/completed", &path).is_ok());
}
