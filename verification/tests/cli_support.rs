use waystone::cli_support::{
    completed_history_inputs, is_valid_transfer_result, is_valid_verification_result,
    json_completed_history_detail, json_completed_history_records, json_history_files,
    json_issues, json_planned_history_previews, option_value, parse_bool_option,
    required_option, validate_option_value,
};
use waystone::publication_history::{
    CompletedHistoryDetail, CompletedHistoryEntry, PlannedHistoryPreviewEntry, PublicationFile,
    PublicationHistoryRecord, RollbackInfo,
};
use waystone::validation::{error, warning};

#[test]
fn option_values_follow_their_option() {
    let args = ["--dry-run", "--project", "p", "--target", "t", "--json"];
    assert_eq!(option_value(&args, "--project"), Some("p"));
    assert_eq!(option_value(&args, "--target"), Some("t"));
    assert_eq!(option_value(&args, "--json"), None);
    assert_eq!(option_value(&args, "--date"), None);
    assert_eq!(option_value(&["--project"], "--project"), None);
    assert_eq!(required_option(&args, "--date"), Err("missing --date".to_string()));
}

#[test]
fn booleans_accept_three_spellings_each() {
    for yes in ["true", "yes", "1"] {
        assert_eq!(parse_bool_option(yes), Ok(true));
    }
    for no in ["false", "no", "0"] {
        assert_eq!(parse_bool_option(no), Ok(false));
    }
    assert_eq!(
        parse_bool_option("maybe"),
        Err("invalid --rollback-available (use true or false)".to_string())
    );
}

#[test]
fn option_values_are_checked_against_the_allowed_ones() {
    assert_eq!(validate_option_value("--x", "b", &["a", "b"]), Ok(()));
    assert_eq!(
        validate_option_value("--transfer-result", "done", &["completed", "failed", "skipped"]),
        Err("invalid --transfer-result value 'done' (allowed: completed, failed, skipped)".to_string())
    );
    assert!(is_valid_transfer_result("skipped"));
    assert!(!is_valid_transfer_result("passed"));
    assert!(is_valid_verification_result("not-run"));
    assert!(!is_valid_verification_result("completed"));
}

#[test]
fn completed_history_inputs_are_read_and_checked() {
    let args = [
        "--completed-history", "--project", "p", "--target", "t", "--date", "d",
        "--transfer-result", "completed", "--verification-result", "passed",
        "--rollback-available", "yes", "--rollback-notes", "kept",
    ];
    let inputs = completed_history_inputs(&args).expect("inputs");
    assert_eq!(inputs.project, "p");
    assert!(inputs.rollback_available);
    assert_eq!(inputs.rollback_notes, "kept");
    let mut bad = args;
    bad[10] = "unknown";
    assert_eq!(
        completed_history_inputs(&bad).err().as_deref(),
        Some("invalid --verification-result value 'unknown' (allowed: not-run, passed, failed)")
    );
    assert_eq!(
        completed_history_inputs(&args[..5]).err().as_deref(),
        Some("missing --date")
    );
}

#[test]
fn issues_render_as_json_objects() {
    let issues = vec![
        error("invalid_id", "host.id must \"be\" valid".to_string(), Some("host.id".to_string())),
        warning("unusual", "odd".to_string(), None),
    ];
    assert_eq!(
        json_issues(&issues),
        "{\"code\":\"invalid_id\",\"message\":\"host.id must \\\"be\\\" valid\"},{\"code\":\"unusual\",\"message\":\"odd\"}"
    );
    assert_eq!(json_issues(&[]), "");
}

#[test]
fn history_entries_render_as_json() {
    let previews = vec![PlannedHistoryPreviewEntry {
        path: "/p/history/previews/a.toml".to_string(),
        filename: "a.toml".to_string(),
        modified_unix: 1700000000,
        size_bytes: 42,
    }];
    assert_eq!(
        json_planned_history_previews(&previews),
        "{\"path\":\"/p/history/previews/a.toml\",\"filename\":\"a.toml\",\"modified_unix\":1700000000,\"size_bytes\":42}"
    );
    let records = vec![
        CompletedHistoryEntry { path: "x".to_string(), filename: "x".to_string(), modified_unix: 0, size_bytes: 1 },
        CompletedHistoryEntry { path: "y".to_string(), filename: "y".to_string(), modified_unix: 2, size_bytes: 3 },
    ];
    assert_eq!(
        json_completed_history_records(&records),
        "{\"path\":\"x\",\"filename\":\"x\",\"modified_unix\":0,\"size_bytes\":1},{\"path\":\"y\",\"filename\":\"y\",\"modified_unix\":2,\"size_bytes\":3}"
    );
    let detail = CompletedHistoryDetail {
        entry: records[0].clone(),
        record_toml: "a = \"b\"\n".to_string(),
    };
    assert_eq!(
        json_completed_history_detail(&detail),
        "\"path\":\"x\",\"filename\":\"x\",\"modified_unix\":0,\"size_bytes\":1,\"record_toml\":\"a = \\\"b\\\"\\n\""
    );
}

#[test]
fn history_files_render_as_json() {
    let record = PublicationHistoryRecord {
        schema: 1,
        date: "d".to_string(),
        project_id: "p".to_string(),
        target: "t".to_string(),
        method: "m".to_string(),
        destination: None,
        transfer_result: "planned".to_string(),
        verification_result: "not-run".to_string(),
        files: vec![
            PublicationFile { path: "a".to_string(), action: "planned-upload".to_string(), sha256: None },
            PublicationFile { path: "b".to_string(), action: "planned-delete".to_string(), sha256: None },
        ],
        rollback: RollbackInfo { available: false, notes: String::new() },
    };
    assert_eq!(
        json_history_files(&record),
        "{\"path\":\"a\",\"action\":\"planned-upload\"},{\"path\":\"b\",\"action\":\"planned-delete\"}"
    );
}
