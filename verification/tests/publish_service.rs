use waystone::project_format::{
    ContentSection, Manifest, ProjectFiles, ProjectSection, PublishSection, PublishTarget,
    WaystoneSection,
};
use waystone::publication_history::{HistoryDirItem, HistoryError, HistoryFileFacts};
use waystone::publish_plan::{
    DryRunInputs, FeedEntryScan, FeedPublicationState, PublishDryRun, PublishPlanError,
    PublishableFiles,
};
use waystone::publish_service::{
    check_removable_execution, completed_history_from_removable_result,
    ensure_destination_under_root, file_result, preflight_removable_plan,
    BuildCompletedHistoryRequest, BuildPlannedHistoryRequest, CopyFacts, ExecuteRemovableError,
    ExecuteRemovableRequest, ListCompletedHistoryRequest, PreviewPublicationRequest,
    PublishService, PublishValidationIssue, ReadCompletedHistoryRequest,
    RemovableExecutionOperation, RemovableExecutionPlan, RemovableExecutionResult,
    SaveCompletedHistoryRequest,
};

fn ssh_capsule() -> Manifest {
    Manifest {
        waystone: WaystoneSection { schema: 1, created_by: None },
        project: ProjectSection {
            id: "ssh-capsule".to_string(),
            name: "SSH Capsule".to_string(),
            project_type: "capsule".to_string(),
            language: None,
            author: None,
            description: None,
        },
        content: ContentSection { root: "content".to_string(), index: "index.gmi".to_string() },
        audio: None,
        feed: None,
        publish: Some(PublishSection {
            targets: Some(vec![PublishTarget {
                name: "production".to_string(),
                method: "rsync".to_string(),
                host: Some("offgridholdout".to_string()),
                identity: Some("nick-pub".to_string()),
                remote_path: Some("/srv/gemini".to_string()),
                url: None,
                path: None,
                delete_policy: None,
            }]),
        }),
    }
}

fn preview_request() -> PreviewPublicationRequest {
    PreviewPublicationRequest {
        project_path: "examples/projects/ssh-capsule.wayproject".to_string(),
        target: "production".to_string(),
        hosts_root: None,
        identities_root: None,
        remote_state_path: None,
    }
}

fn preview_inputs() -> DryRunInputs {
    DryRunInputs {
        manifest: Ok(ssh_capsule()),
        files: ProjectFiles { content_root_is_dir: true, content_index_is_file: true, feed_file_is_file: false },
        hosts: None,
        identities: None,
        feed_entries: FeedEntryScan::NotDirectory,
        publishable: Ok(PublishableFiles { content: vec!["content/index.gmi".to_string()], audio_published: vec![] }),
    }
}

#[test]
fn service_previews_and_builds_planned_history() {
    let service = PublishService;
    let preview = service
        .preview_publication(preview_request(), preview_inputs())
        .expect("preview should succeed");

    assert!(preview.plan.blocked);

    let history = service.build_planned_history(BuildPlannedHistoryRequest {
        plan: preview.plan,
        date: "2026-07-17T00:00:00Z".to_string(),
    });

    assert_eq!(history.record.transfer_result, "planned");
}

fn plan() -> PublishDryRun {
    PublishDryRun {
        project_id: "ssh-capsule".to_string(),
        target: "production".to_string(),
        method: "rsync".to_string(),
        destination: None,
        upload: vec!["content/index.gmi".to_string()],
        update: vec![],
        delete: vec![],
        skip: vec![],
        confirmations: vec![],
        verification_checks: vec![],
        host_resolution: None,
        identity_resolution: None,
        feed: FeedPublicationState {
            configured: false,
            enabled: false,
            feed_type: None,
            path: None,
            exists: false,
            prepared_entries: 0,
            invalid_entries: 0,
            invalid_entry_diagnostics: vec![],
        },
        blocked: false,
    }
}

#[test]
fn service_builds_completed_history_with_reported_results() {
    let service = PublishService;
    let history = service.build_completed_history(BuildCompletedHistoryRequest {
        plan: plan(),
        date: "2026-07-20T00:00:00Z".to_string(),
        transfer_result: "completed".to_string(),
        verification_result: "passed".to_string(),
        rollback_available: false,
        rollback_notes: "No rollback snapshot recorded".to_string(),
    });

    assert_eq!(history.record.transfer_result, "completed");
    assert_eq!(history.record.verification_result, "passed");
    assert!(!history.record.rollback.available);
}

#[test]
fn service_saves_under_history_completed() {
    let saved = PublishService.save_completed_history(SaveCompletedHistoryRequest {
        project_path: "/tmp/root".to_string(),
        plan: plan(),
        date: "2026-07-20T00:00:00Z".to_string(),
        transfer_result: "completed".to_string(),
        verification_result: "passed".to_string(),
        rollback_available: false,
        rollback_notes: "none".to_string(),
    });
    assert!(saved.output_path.starts_with("/tmp/root/history/completed/"));
    assert!(saved.record.to_toml().contains("transfer_result = \"completed\""));
}

#[test]
fn service_lists_and_reads_completed_history() {
    let service = PublishService;
    let listed = service
        .list_completed_history(
            ListCompletedHistoryRequest { project_path: "/tmp/root".to_string() },
            Ok(Some(vec![HistoryDirItem {
                path: "/tmp/root/history/completed/a-completed.toml".to_string(),
                filename: "a-completed.toml".to_string(),
                is_file: true,
                modified_unix: 1,
                size_bytes: 2,
            }])),
        )
        .expect("completed history should list");
    assert_eq!(listed.records.len(), 1);
    let read = service
        .read_completed_history(
            ReadCompletedHistoryRequest {
                project_path: "/tmp/root".to_string(),
                record_path: listed.records[0].path.clone(),
            },
            Ok("/tmp/root/history/completed".to_string()),
            Ok(listed.records[0].path.clone()),
            Ok(HistoryFileFacts { is_file: true, modified_unix: 1, size_bytes: 2 }),
            Ok("transfer_result = \"completed\"\n".to_string()),
        )
        .expect("completed history should read");
    assert!(read.detail.record_toml.contains("transfer_result = \"completed\""));
    let missing = service.read_completed_history(
        ReadCompletedHistoryRequest { project_path: "/x".to_string(), record_path: "/x/y".to_string() },
        Err(HistoryError::Io("no such directory".to_string())),
        Ok("/x/y".to_string()),
        Ok(HistoryFileFacts { is_file: true, modified_unix: 1, size_bytes: 2 }),
        Ok(String::new()),
    );
    assert!(matches!(missing, Err(HistoryError::Io(m)) if m == "no such directory"));
}

fn op(project_path: &str, source: Option<&str>, destination: &str) -> RemovableExecutionOperation {
    RemovableExecutionOperation {
        project_path: project_path.to_string(),
        source_path: source.map(|s| s.to_string()),
        destination_path: destination.to_string(),
    }
}

fn removable_plan() -> RemovableExecutionPlan {
    RemovableExecutionPlan {
        project_id: "audio-capsule".to_string(),
        target: "export".to_string(),
        method: "removable".to_string(),
        destination_root: "/p/publish/export".to_string(),
        execution_ready: true,
        blocked_reasons: vec![],
        confirmations: vec![],
        upload: vec![op("content/index.gmi", Some("/p/content/index.gmi"), "/p/publish/export/content/index.gmi")],
        update: vec![],
        delete: vec![],
        skip: vec![op("feeds/feed.xml", None, "/p/publish/export/feeds/feed.xml")],
        completed_history_dir: "/p/history/completed".to_string(),
    }
}

fn clear() -> CopyFacts {
    CopyFacts {
        source_is_file: true,
        destination_exists: false,
        temporary_path: "/p/publish/export/content/.index.gmi.waystone-copy-1.tmp".to_string(),
        temporary_exists: false,
    }
}

fn execute_request(confirm: bool) -> ExecuteRemovableRequest {
    ExecuteRemovableRequest {
        project_path: "/p".to_string(),
        target: "export".to_string(),
        remote_state_path: None,
        date: "2026-07-21T00:00:00Z".to_string(),
        confirm_transfer: confirm,
    }
}

#[test]
fn service_execute_removable_requires_confirmation() {
    let error = check_removable_execution(&execute_request(false), Ok(removable_plan()), &vec![clear()])
        .expect_err("execution should require explicit confirmation");

    assert!(matches!(error, ExecuteRemovableError::ConfirmationRequired));
    assert_eq!(error.message(), "removable execution requires --confirm-transfer");
}

#[test]
fn execution_refuses_upload_overwrite_and_temp_collision() {
    let exists = CopyFacts { destination_exists: true, ..clear() };
    assert!(matches!(
        preflight_removable_plan(&removable_plan(), &vec![exists]),
        Err(ExecuteRemovableError::DestinationExists(p)) if p == "/p/publish/export/content/index.gmi"
    ));
    let temp = CopyFacts { temporary_exists: true, ..clear() };
    assert!(matches!(
        preflight_removable_plan(&removable_plan(), &vec![temp]),
        Err(ExecuteRemovableError::DestinationExists(p)) if p.ends_with(".waystone-copy-1.tmp")
    ));
    let missing = CopyFacts { source_is_file: false, ..clear() };
    assert!(matches!(
        preflight_removable_plan(&removable_plan(), &vec![missing]),
        Err(ExecuteRemovableError::MissingSource(p)) if p == "/p/content/index.gmi"
    ));
    assert!(check_removable_execution(&execute_request(true), Ok(removable_plan()), &vec![clear()]).is_ok());
}

#[test]
fn execution_refuses_destinations_outside_the_root() {
    let mut plan = removable_plan();
    plan.skip[0].destination_path = "/p/publish/exported/feeds/feed.xml".to_string();
    let error = preflight_removable_plan(&plan, &vec![clear()]).expect_err("escape");
    assert_eq!(
        error.message(),
        "destination escaped removable root: /p/publish/exported/feeds/feed.xml is not under /p/publish/export"
    );
    assert!(ensure_destination_under_root("/r", "/r/a").is_ok());
    assert!(ensure_destination_under_root("/r", "/ra").is_err());
}

#[test]
fn blocked_and_failed_plans_are_refused() {
    let mut blocked = removable_plan();
    blocked.blocked_reasons = vec![
        PublishValidationIssue { code: "missing_host", message: "host is missing".to_string(), path: None },
        PublishValidationIssue { code: "stale", message: "state is stale".to_string(), path: None },
    ];
    let error = check_removable_execution(&execute_request(true), Ok(blocked), &vec![clear()]).expect_err("blocked");
    assert_eq!(
        error.message(),
        "removable execution plan is blocked: missing_host: host is missing; stale: state is stale"
    );
    let error = check_removable_execution(
        &execute_request(true),
        Err(PublishPlanError::TargetNotFound("export".to_string())),
        &vec![],
    )
    .expect_err("plan failed");
    assert_eq!(error.message(), "publish target not found: export");
}

#[test]
fn completed_record_of_a_removable_execution() {
    let plan = removable_plan();
    let result = RemovableExecutionResult {
        transfer_result: "completed".to_string(),
        verification_result: "not-run".to_string(),
        files: vec![
            file_result(&plan.upload[0], "upload", "copied", Some(12)),
            file_result(&plan.skip[0], "skip", "skipped", None),
        ],
    };
    let record = completed_history_from_removable_result(&plan, &result, "2026-07-21T00:00:00Z".to_string());
    assert_eq!(record.destination.as_deref(), Some("/p/publish/export"));
    assert!(record.files.iter().any(|f| f.path == "content/index.gmi" && f.action == "copied-upload"));
    assert!(record.files.iter().any(|f| f.action == "skipped-skip"));
    assert!(record.to_toml().contains("copied-upload"));
    assert!(!record.rollback.available);
}
