use waystone::audio_metadata::{
    AudioMetadata, AudioMetadataError, EnclosureSection, FeedEntryContext, FeedEntryMetadata,
    FeedEntrySection, LinkedRecording, PublicationFiles, PublicationSection, RecordingSection,
};
use waystone::host_identity::{
    validate_host_record, validate_identity_record, HostIdentityError, HostRecord, HostSection,
    HostService, HostSummary, IdentityRecord, IdentitySection, IdentitySummary, SshKeyRecord,
};
use waystone::project_format::{
    AudioSection, ContentSection, FeedSection, Manifest, ProjectFiles, ProjectSection,
    PublishSection, PublishTarget, WaystoneSection,
};
use waystone::publish_plan::{
    collect_publishable_files, dry_run_publish, dry_run_publish_with_context, resolution_blocks,
    sorted_unique, DryRunInputs, FeedEntryScan, HostCandidate, IdentityCandidate,
    PublishPlanError, PublishableFiles, Resolution, ResolutionStatus, ScannedFeedEntry,
};

fn target(name: &str, method: &str) -> PublishTarget {
    PublishTarget {
        name: name.to_string(),
        method: method.to_string(),
        host: None,
        identity: None,
        remote_path: None,
        url: None,
        path: None,
        delete_policy: None,
    }
}

fn audio_capsule() -> Manifest {
    let mut export = target("export", "removable");
    export.path = Some("publish/export".to_string());
    export.delete_policy = Some("forbid".to_string());
    Manifest {
        waystone: WaystoneSection { schema: 1, created_by: Some("WaystoneOS".to_string()) },
        project: ProjectSection {
            id: "audio-capsule".to_string(),
            name: "Audio Capsule".to_string(),
            project_type: "audio-series".to_string(),
            language: Some("en".to_string()),
            author: None,
            description: None,
        },
        content: ContentSection { root: "content".to_string(), index: "index.gmi".to_string() },
        audio: Some(AudioSection {
            masters: Some("audio/masters".to_string()),
            published: Some("audio/published".to_string()),
            metadata: Some("audio/metadata".to_string()),
            master_format: Some("flac".to_string()),
            publish_format: Some("opus".to_string()),
            publish_bitrate: Some(96000),
        }),
        feed: Some(FeedSection {
            enabled: Some(true),
            feed_type: Some("atom".to_string()),
            path: Some("feeds/feed.xml".to_string()),
            title: Some("Audio Capsule".to_string()),
        }),
        publish: Some(PublishSection { targets: Some(vec![export]) }),
    }
}

fn ssh_capsule() -> Manifest {
    let mut production = target("production", "rsync");
    production.host = Some("offgridholdout".to_string());
    production.identity = Some("nick-pub".to_string());
    production.remote_path = Some("/srv/gemini/ssh-capsule".to_string());
    production.delete_policy = Some("confirm".to_string());
    Manifest {
        waystone: WaystoneSection { schema: 1, created_by: None },
        project: ProjectSection {
            id: "ssh-capsule".to_string(),
            name: "SSH Capsule".to_string(),
            project_type: "capsule".to_string(),
            language: None,
            author: None,
            description: None,
        },
        content: ContentSection { root: "content".to_string(), index: "index.gmi".to_string() },
        audio: None,
        feed: None,
        publish: Some(PublishSection { targets: Some(vec![production]) }),
    }
}

fn all_files() -> ProjectFiles {
    ProjectFiles { content_root_is_dir: true, content_index_is_file: true, feed_file_is_file: true }
}

fn inputs(manifest: Manifest, publishable: PublishableFiles) -> DryRunInputs {
    DryRunInputs {
        manifest: Ok(manifest),
        files: all_files(),
        hosts: None,
        identities: None,
        feed_entries: FeedEntryScan::NotDirectory,
        publishable: Ok(publishable),
    }
}

fn audio_files() -> PublishableFiles {
    PublishableFiles {
        content: vec!["content/index.gmi".to_string()],
        audio_published: vec!["audio/published/field-note.opus".to_string()],
    }
}

fn host() -> HostRecord {
    HostRecord {
        host: HostSection {
            id: "offgridholdout".to_string(),
            display_name: "Off-Grid Holdout".to_string(),
            address: "offgridholdout.example".to_string(),
            notes: None,
        },
        services: vec![HostService {
            service_type: "ssh".to_string(),
            port: 22,
            trust: "trusted".to_string(),
            fingerprint: None,
        }],
    }
}

fn identity() -> IdentityRecord {
    IdentityRecord {
        identity: IdentitySection {
            id: "nick-pub".to_string(),
            display_name: "Nick".to_string(),
            author_name: None,
        },
        ssh_keys: vec![SshKeyRecord {
            id: "nick-ed25519".to_string(),
            public_key: "ssh-ed25519 AAAA".to_string(),
            private_key_ref: "workspace-secret:nick-ed25519".to_string(),
        }],
        certificates: vec![],
    }
}

fn host_candidates() -> Vec<HostCandidate> {
    vec![HostCandidate {
        summary: HostSummary {
            id: "offgridholdout".to_string(),
            display_name: "Off-Grid Holdout".to_string(),
            address: "offgridholdout.example".to_string(),
            path: "examples/connections/hosts/offgridholdout.toml".to_string(),
        },
        validation: Ok(validate_host_record(&host())),
    }]
}

fn identity_candidates() -> Vec<IdentityCandidate> {
    vec![IdentityCandidate {
        summary: IdentitySummary {
            id: "nick-pub".to_string(),
            display_name: "Nick".to_string(),
            path: "examples/connections/identities/nick-pub.toml".to_string(),
        },
        validation: Ok(validate_identity_record(&identity())),
    }]
}

#[test]
fn plans_audio_capsule_export() {
    let plan = dry_run_publish("export", inputs(audio_capsule(), audio_files()))
        .expect("audio capsule dry-run should plan");

    assert_eq!(plan.project_id, "audio-capsule");
    assert_eq!(plan.target, "export");
    assert_eq!(plan.method, "removable");
    assert!(plan.upload.iter().any(|path| path == "content/index.gmi"));
    assert!(plan.upload.iter().any(|path| path == "feeds/feed.xml"));
    assert!(plan.upload.iter().any(|path| path == "audio/published/field-note.opus"));
    assert!(plan.feed.configured);
    assert!(plan.feed.enabled);
    assert_eq!(plan.feed.path.as_deref(), Some("feeds/feed.xml"));
    assert!(plan.feed.exists);
    assert_eq!(plan.feed.prepared_entries, 0);
    assert_eq!(plan.feed.invalid_entries, 0);
    assert!(plan.feed.invalid_entry_diagnostics.is_empty());
    assert!(plan.delete.is_empty());
}

#[test]
fn refuses_missing_target() {
    let error = dry_run_publish("production", inputs(audio_capsule(), audio_files()))
        .expect_err("missing target should fail");

    assert!(matches!(error, PublishPlanError::TargetNotFound(_)));
}

#[test]
fn resolves_host_and_identity_for_ssh_target() {
    let mut i = inputs(ssh_capsule(), PublishableFiles { content: vec!["content/index.gmi".to_string()], audio_published: vec![] });
    i.hosts = Some(Ok(host_candidates()));
    i.identities = Some(Ok(identity_candidates()));
    let plan = dry_run_publish_with_context("production", i).expect("ssh capsule dry-run should plan");

    assert!(!plan.blocked);
    assert_eq!(
        plan.host_resolution.as_ref().map(|value| &value.status),
        Some(&ResolutionStatus::Resolved)
    );
    assert_eq!(
        plan.identity_resolution.as_ref().map(|value| &value.status),
        Some(&ResolutionStatus::Resolved)
    );
}

#[test]
fn blocks_when_host_metadata_is_missing() {
    let plan = dry_run_publish(
        "production",
        inputs(ssh_capsule(), PublishableFiles { content: vec!["content/index.gmi".to_string()], audio_published: vec![] }),
    )
    .expect("ssh capsule dry-run should still produce local plan");

    assert!(plan.blocked);
    assert_eq!(
        plan.host_resolution.as_ref().map(|value| &value.status),
        Some(&ResolutionStatus::Missing)
    );
}

#[test]
fn resolution_details_name_what_was_found() {
    let mut i = inputs(ssh_capsule(), PublishableFiles { content: vec![], audio_published: vec![] });
    i.hosts = Some(Ok(host_candidates()));
    i.identities = Some(Err(HostIdentityError::NotDirectory("ids".to_string())));
    let plan = dry_run_publish_with_context("production", i).expect("plans");
    let host = plan.host_resolution.as_ref().unwrap();
    assert_eq!(host.detail, "host offgridholdout resolved at offgridholdout.example");
    let id = plan.identity_resolution.as_ref().unwrap();
    assert_eq!(id.status, ResolutionStatus::Missing);
    assert_eq!(id.detail, "identity metadata root could not be read");
    assert!(plan.blocked);
    assert_eq!(plan.confirmations, vec!["remote deletion requires explicit confirmation"]);
    assert_eq!(plan.verification_checks, vec!["fetch", "mime"]);
    assert_eq!(plan.destination.as_deref(), Some("offgridholdout"));
}

#[test]
fn an_invalid_host_record_blocks() {
    let mut bad = host();
    bad.host.address = "".to_string();
    let mut candidates = host_candidates();
    candidates[0].validation = Ok(validate_host_record(&bad));
    let mut i = inputs(ssh_capsule(), PublishableFiles { content: vec![], audio_published: vec![] });
    i.hosts = Some(Ok(candidates));
    i.identities = Some(Ok(identity_candidates()));
    let plan = dry_run_publish_with_context("production", i).expect("plans");
    let host = plan.host_resolution.as_ref().unwrap();
    assert_eq!(host.status, ResolutionStatus::Invalid);
    assert_eq!(host.detail, "host record is invalid");
    assert!(plan.blocked);
}

#[test]
fn an_invalid_project_is_refused() {
    let mut i = inputs(audio_capsule(), audio_files());
    i.files.content_index_is_file = false;
    assert!(matches!(dry_run_publish("export", i), Err(PublishPlanError::ProjectInvalid)));
}

#[test]
fn upload_is_sorted_and_each_file_once() {
    let files = PublishableFiles {
        content: vec!["content/z.gmi".to_string(), "content/a.gmi".to_string(), "content/a.gmi".to_string()],
        audio_published: vec!["audio/published/b.opus".to_string()],
    };
    let plan = dry_run_publish("export", inputs(audio_capsule(), files)).expect("plans");
    assert_eq!(
        plan.upload,
        vec!["audio/published/b.opus", "content/a.gmi", "content/z.gmi", "feeds/feed.xml"]
    );
}

#[test]
fn sorted_unique_removes_duplicates() {
    let v = vec!["b".to_string(), "a".to_string(), "b".to_string(), "a".to_string()];
    assert_eq!(sorted_unique(v), vec!["a", "b"]);
}

#[test]
fn unconfigured_audio_files_are_not_published() {
    let mut manifest = audio_capsule();
    manifest.audio = None;
    let files = collect_publishable_files(&manifest, false, Ok(audio_files())).expect("files");
    assert_eq!(files, vec!["content/index.gmi"]);
}

#[test]
fn a_directory_failure_stops_the_plan() {
    let mut i = inputs(audio_capsule(), audio_files());
    i.publishable = Err(PublishPlanError::ReadDirectoryFailed {
        path: "content".to_string(),
        message: "denied".to_string(),
    });
    let error = dry_run_publish("export", i).expect_err("fails");
    assert_eq!(error.message(), "project files could not be read: content: denied");
}

#[test]
fn blocking_statuses() {
    let res = |status| Some(Resolution { id: "x".to_string(), status, detail: String::new() });
    assert!(resolution_blocks(&res(ResolutionStatus::Missing)));
    assert!(resolution_blocks(&res(ResolutionStatus::Blocked)));
    assert!(resolution_blocks(&res(ResolutionStatus::Invalid)));
    assert!(!resolution_blocks(&res(ResolutionStatus::Resolved)));
    assert!(!resolution_blocks(&res(ResolutionStatus::NotRequired)));
    assert!(!resolution_blocks(&None));
}

fn note_metadata() -> AudioMetadata {
    AudioMetadata {
        recording: RecordingSection {
            id: "note".to_string(),
            title: "Note".to_string(),
            master: "audio/masters/note.flac".to_string(),
            published: Some("audio/published/note.opus".to_string()),
            duration_seconds: None,
            channels: None,
            sample_rate: None,
        },
        publication: Some(PublicationSection {
            feed: Some("feeds/feed.xml".to_string()),
            entry_id: Some("tag:example.invalid,2026:note".to_string()),
            mime_type: Some("audio/ogg; codecs=opus".to_string()),
        }),
    }
}

fn scanned_entry(name: &str, recording_metadata: Option<&str>, enclosure: &str, enclosure_is_file: bool) -> ScannedFeedEntry {
    ScannedFeedEntry::Entry {
        relative_path: format!("feeds/entries/{name}.toml"),
        entry: Ok(FeedEntryMetadata {
            entry: Some(FeedEntrySection {
                id: Some(format!("tag:example.invalid,2026:{name}")),
                title: Some(if name == "note" { "Note".to_string() } else { "Broken".to_string() }),
                updated: Some("2026-07-19T00:00:00Z".to_string()),
                summary: Some("Summary".to_string()),
                feed: Some("feeds/feed.xml".to_string()),
                recording: Some(name.to_string()),
                recording_metadata: recording_metadata.map(|s| s.to_string()),
            }),
            enclosure: Some(EnclosureSection {
                path: Some(enclosure.to_string()),
                mime_type: Some("audio/ogg; codecs=opus".to_string()),
            }),
        }),
        context: FeedEntryContext {
            relative_path: Some(format!("feeds/entries/{name}.toml")),
            enclosure_is_file,
            recording: recording_metadata.map(|_| {
                Ok::<LinkedRecording, AudioMetadataError>(LinkedRecording {
                    metadata: note_metadata(),
                    relative_path: Some("audio/metadata/note.toml".to_string()),
                    files: PublicationFiles { master_is_file: true, published_is_file: true },
                })
            }),
            other_entries: Ok(vec![]),
        },
    }
}

#[test]
fn reports_prepared_feed_entry_state() {
    let mut i = inputs(audio_capsule(), audio_files());
    i.feed_entries = FeedEntryScan::Items(vec![
        scanned_entry("note", Some("audio/metadata/note.toml"), "audio/published/note.opus", true),
        scanned_entry("broken", None, "audio/published/missing.opus", false),
    ]);
    let plan = dry_run_publish("export", i).expect("dry-run should plan");

    assert!(plan.feed.configured);
    assert_eq!(plan.feed.feed_type.as_deref(), Some("atom"));
    assert!(plan.feed.exists);
    assert_eq!(plan.feed.prepared_entries, 1);
    assert_eq!(plan.feed.invalid_entries, 1);
    assert_eq!(plan.feed.invalid_entry_diagnostics.len(), 1);
    assert_eq!(plan.feed.invalid_entry_diagnostics[0].path, "feeds/entries/broken.toml");
    assert!(plan.feed.invalid_entry_diagnostics[0]
        .issues
        .iter()
        .any(|issue| issue.contains("entry.recording_metadata")));
}

#[test]
fn an_unreadable_entries_directory_is_one_invalid_entry() {
    let mut i = inputs(audio_capsule(), audio_files());
    i.feed_entries = FeedEntryScan::Unreadable;
    let plan = dry_run_publish("export", i).expect("plans");
    assert_eq!(plan.feed.invalid_entries, 1);
    assert_eq!(plan.feed.invalid_entry_diagnostics[0].path, "feeds/entries");
    assert_eq!(
        plan.feed.invalid_entry_diagnostics[0].issues,
        vec!["feed entries directory could not be read"]
    );
}
