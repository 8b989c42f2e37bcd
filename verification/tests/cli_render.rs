use waystone::cli_render::{dry_run_json, dry_run_report, human_feed_state, json_feed_state, json_resolution};
use waystone::publish_plan::{
    FeedEntryDiagnostic, FeedPublicationState, PublishDryRun, Resolution, ResolutionStatus,
};

fn feed() -> FeedPublicationState {
    FeedPublicationState {
        configured: true,
        enabled: true,
        feed_type: Some("atom".to_string()),
        path: Some("feeds/feed.xml".to_string()),
        exists: false,
        prepared_entries: 2,
        invalid_entries: 1,
        invalid_entry_diagnostics: vec![FeedEntryDiagnostic {
            path: "feeds/entries/bad.toml".to_string(),
            issues: vec!["entry.id is required".to_string(), "say \"hi\"".to_string()],
        }],
    }
}

fn plan() -> PublishDryRun {
    PublishDryRun {
        project_id: "ssh-capsule".to_string(),
        target: "production".to_string(),
        method: "rsync".to_string(),
        destination: Some("offgridholdout".to_string()),
        upload: vec!["content/index.gmi".to_string(), "feeds/feed.xml".to_string()],
        update: vec![],
        delete: vec![],
        skip: vec![],
        confirmations: vec!["remote deletion requires explicit confirmation".to_string()],
        verification_checks: vec!["fetch".to_string(), "mime".to_string()],
        host_resolution: Some(Resolution {
            id: "offgridholdout".to_string(),
            status: ResolutionStatus::Resolved,
            detail: "host offgridholdout resolved at offgridholdout.example".to_string(),
        }),
        identity_resolution: Some(Resolution {
            id: "nick-pub".to_string(),
            status: ResolutionStatus::Missing,
            detail: "identity metadata root was not provided".to_string(),
        }),
        feed: feed(),
        blocked: true,
    }
}

#[test]
fn resolution_renders_as_json_object_or_null() {
    assert_eq!(json_resolution(&None), "null");
    assert_eq!(
        json_resolution(&plan().identity_resolution),
        "{\"id\":\"nick-pub\",\"status\":\"Missing\",\"detail\":\"identity metadata root was not provided\"}"
    );
}

#[test]
fn feed_state_renders_in_json_and_words() {
    assert_eq!(
        json_feed_state(&feed()),
        "{\"configured\":true,\"enabled\":true,\"type\":\"atom\",\"path\":\"feeds/feed.xml\",\"exists\":false,\"prepared_entries\":2,\"invalid_entries\":1,\"invalid_entry_diagnostics\":[{\"path\":\"feeds/entries/bad.toml\",\"issues\":[\"entry.id is required\",\"say \\\"hi\\\"\"]}]}"
    );
    assert_eq!(human_feed_state(&feed()), "feeds/feed.xml (missing, 2 prepared entries, 1 invalid entries)");
    let mut unconfigured = feed();
    unconfigured.configured = false;
    assert_eq!(human_feed_state(&unconfigured), "not configured");
}

#[test]
fn dry_run_json_is_the_command_envelope() {
    assert_eq!(
        dry_run_json(&plan()),
        "{\"status\":\"ok\",\"schema\":1,\"data\":{\"project\":\"ssh-capsule\",\"target\":\"production\",\"method\":\"rsync\",\"destination\":\"offgridholdout\",\"blocked\":true,\"host_resolution\":{\"id\":\"offgridholdout\",\"status\":\"Resolved\",\"detail\":\"host offgridholdout resolved at offgridholdout.example\"},\"identity_resolution\":{\"id\":\"nick-pub\",\"status\":\"Missing\",\"detail\":\"identity metadata root was not provided\"},\"feed\":{\"configured\":true,\"enabled\":true,\"type\":\"atom\",\"path\":\"feeds/feed.xml\",\"exists\":false,\"prepared_entries\":2,\"invalid_entries\":1,\"invalid_entry_diagnostics\":[{\"path\":\"feeds/entries/bad.toml\",\"issues\":[\"entry.id is required\",\"say \\\"hi\\\"\"]}]},\"changes\":{\"upload\":[\"content/index.gmi\",\"feeds/feed.xml\"],\"update\":[],\"delete\":[],\"skip\":[]},\"verification\":{\"checks\":[\"fetch\",\"mime\"]},\"confirmations\":[\"remote deletion requires explicit confirmation\"]}}"
    );
}

#[test]
fn dry_run_report_lists_every_section() {
    let expected = [
        "Dry-run publication plan\n",
        "Project: ssh-capsule\n",
        "Target: production\n",
        "Method: rsync\n",
        "Destination: offgridholdout\n",
        "Host: offgridholdout (Resolved) - host offgridholdout resolved at offgridholdout.example\n",
        "Identity: nick-pub (Missing) - identity metadata root was not provided\n",
        "Blocked: yes\n",
        "Feed: feeds/feed.xml (missing, 2 prepared entries, 1 invalid entries)\n",
        "Feed diagnostics:\n",
        "  feeds/entries/bad.toml\n",
        "    entry.id is required\n",
        "    say \"hi\"\n",
        "Upload:\n",
        "  content/index.gmi\n",
        "  feeds/feed.xml\n",
        "Update:\n",
        "Delete:\n",
        "Skip:\n",
        "Confirmations:\n",
        "  remote deletion requires explicit confirmation\n",
    ]
    .concat();
    assert_eq!(dry_run_report(&plan()), expected);
}

#[test]
fn dry_run_report_leaves_out_empty_sections() {
    let mut quiet = plan();
    quiet.destination = None;
    quiet.host_resolution = None;
    quiet.identity_resolution = None;
    quiet.blocked = false;
    quiet.feed.configured = false;
    quiet.feed.invalid_entry_diagnostics = vec![];
    quiet.confirmations = vec![];
    quiet.upload = vec![];
    assert_eq!(
        dry_run_report(&quiet),
        "Dry-run publication plan\nProject: ssh-capsule\nTarget: production\nMethod: rsync\nFeed: not configured\nUpload:\nUpdate:\nDelete:\nSkip:\n"
    );
}

use waystone::cli_render::{
    inspection_json, inspection_report, project_list_json, project_list_report,
    project_validation_report, validation_json, validation_report,
};
use waystone::project_format::{ProjectInspection, ProjectSummary};
use waystone::validation::{error, warning, ValidationReport};

fn report() -> ValidationReport {
    ValidationReport::from_issues(vec![
        error("missing_content_index", "content index is missing: content/index.gmi".to_string(), None),
        warning("unusual_mime_type", "MIME type does not contain '/': \"opus\"".to_string(), None),
    ])
}

#[test]
fn validation_renders_as_json_envelope() {
    assert_eq!(
        validation_json(&report()),
        "{\"status\":\"ok\",\"schema\":1,\"data\":{\"valid\":false,\"errors\":[{\"code\":\"missing_content_index\",\"message\":\"content index is missing: content/index.gmi\"}],\"warnings\":[{\"code\":\"unusual_mime_type\",\"message\":\"MIME type does not contain '/': \\\"opus\\\"\"}]}}"
    );
}

#[test]
fn validation_renders_as_lines() {
    assert_eq!(
        validation_report("host", &report()),
        "host is invalid\nerror: missing_content_index: content index is missing: content/index.gmi\nwarning: unusual_mime_type: MIME type does not contain '/': \"opus\"\n"
    );
    let valid = ValidationReport::from_issues(vec![]);
    assert_eq!(validation_report("identity", &valid), "identity is valid\n");
}

#[test]
fn project_validation_shows_errors_only_when_invalid() {
    assert_eq!(
        project_validation_report(&report()),
        "Project is invalid\nerror: missing_content_index: content index is missing: content/index.gmi\nwarning: unusual_mime_type: MIME type does not contain '/': \"opus\"\n"
    );
    let valid = ValidationReport::from_issues(vec![warning("w", "note".to_string(), None)]);
    assert_eq!(project_validation_report(&valid), "Project is valid\nwarning: w: note\n");
}

fn inspection(targets: Vec<String>) -> ProjectInspection {
    ProjectInspection {
        schema: 1,
        id: "minimal-capsule".to_string(),
        name: "Minimal Capsule".to_string(),
        project_type: "gemini-capsule".to_string(),
        content_root: "content".to_string(),
        content_index: "index.gmi".to_string(),
        publish_targets: targets,
        warnings: vec![],
    }
}

#[test]
fn inspection_renders_in_json_and_text() {
    let with_targets = inspection(vec!["export".to_string(), "production".to_string()]);
    assert_eq!(
        inspection_json(&with_targets),
        "{\"status\":\"ok\",\"schema\":1,\"data\":{\"id\":\"minimal-capsule\",\"name\":\"Minimal Capsule\",\"type\":\"gemini-capsule\",\"project_schema\":1,\"content_root\":\"content\",\"content_index\":\"index.gmi\",\"publish_targets\":[\"export\",\"production\"]}}"
    );
    assert_eq!(
        inspection_report(&with_targets),
        "Project: Minimal Capsule\nID: minimal-capsule\nType: gemini-capsule\nSchema: 1\nContent: content/index.gmi\nPublish targets: export, production\n"
    );
    assert!(inspection_report(&inspection(vec![])).ends_with("Publish targets: none\n"));
}

#[test]
fn project_listing_renders_in_json_and_text() {
    let projects = vec![
        ProjectSummary {
            schema: 1,
            id: "a".to_string(),
            name: "A \"one\"".to_string(),
            project_type: "gemini-capsule".to_string(),
            path: "root/a.wayproject".to_string(),
        },
        ProjectSummary {
            schema: 2,
            id: "b".to_string(),
            name: "B".to_string(),
            project_type: "audio-series".to_string(),
            path: "root/b.wayproject".to_string(),
        },
    ];
    assert_eq!(
        project_list_json(&projects),
        "{\"status\":\"ok\",\"schema\":1,\"data\":{\"projects\":[{\"id\":\"a\",\"name\":\"A \\\"one\\\"\",\"type\":\"gemini-capsule\",\"schema\":1,\"path\":\"root/a.wayproject\"},{\"id\":\"b\",\"name\":\"B\",\"type\":\"audio-series\",\"schema\":2,\"path\":\"root/b.wayproject\"}]}}"
    );
    assert_eq!(
        project_list_report(&projects),
        "a\tgemini-capsule\t1\troot/a.wayproject\nb\taudio-series\t2\troot/b.wayproject\n"
    );
    assert_eq!(project_list_report(&vec![]), "No projects found\n");
    assert_eq!(project_list_json(&vec![]), "{\"status\":\"ok\",\"schema\":1,\"data\":{\"projects\":[]}}");
}
