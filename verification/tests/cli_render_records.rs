use waystone::audio_metadata::{AudioMetadata, RecordingSection};
use waystone::audio_write::{AttachedRecording, PreparedFeedEntry, RecordingSummary};
use waystone::cli_render_records::{
    attached_json, attached_report, completed_detail_json, completed_json, completed_report,
    created_json, created_report, history_record_json, host_json, host_list_report, host_report,
    identity_json, identity_list_report, identity_report, listing_json, planned_detail_json,
    playable_list_report, prepared_json, prepared_report, previews_json, previews_report,
    recording_json, recording_list_report, recording_report, removable_target_json,
    removable_target_report, saved_history_json,
};
use waystone::host_identity::{
    CertificateRecord, HostRecord, HostSection, HostService, HostSummary, IdentityRecord,
    IdentitySection, IdentitySummary, SshKeyRecord,
};
use waystone::project_format::CreatedProject;
use waystone::publication_history::{
    CompletedHistoryDetail, CompletedHistoryEntry, PlannedHistoryPreviewDetail,
    PlannedHistoryPreviewEntry, PublicationFile, PublicationHistoryRecord, RollbackInfo,
};

fn host() -> HostRecord {
    HostRecord {
        host: HostSection {
            id: "offgridholdout".to_string(),
            display_name: "Off-Grid Holdout".to_string(),
            address: "offgridholdout.example".to_string(),
            notes: None,
        },
        services: vec![
            HostService {
                service_type: "ssh".to_string(),
                port: 22,
                trust: "trusted".to_string(),
                fingerprint: None,
            },
            HostService {
                service_type: "gemini".to_string(),
                port: 1965,
                trust: "observed".to_string(),
                fingerprint: None,
            },
        ],
    }
}

#[test]
fn host_renders_in_json_and_text() {
    assert_eq!(
        host_json(&host()),
        "{\"status\":\"ok\",\"schema\":1,\"data\":{\"id\":\"offgridholdout\",\"display_name\":\"Off-Grid Holdout\",\"address\":\"offgridholdout.example\",\"services\":2}}"
    );
    assert_eq!(
        host_report(&host()),
        "Host: Off-Grid Holdout\nID: offgridholdout\nAddress: offgridholdout.example\nService: ssh\tport 22\ttrust trusted\nService: gemini\tport 1965\ttrust observed\n"
    );
}

#[test]
fn host_listing_renders_in_json_and_text() {
    let hosts = vec![HostSummary {
        id: "offgridholdout".to_string(),
        display_name: "Off-Grid Holdout".to_string(),
        address: "offgridholdout.example".to_string(),
        path: "hosts/offgridholdout.toml".to_string(),
    }];
    assert_eq!(
        listing_json("hosts", &hosts),
        "{\"status\":\"ok\",\"schema\":1,\"data\":{\"hosts\":[{\"id\":\"offgridholdout\",\"display_name\":\"Off-Grid Holdout\",\"address\":\"offgridholdout.example\",\"path\":\"hosts/offgridholdout.toml\"}]}}"
    );
    assert_eq!(host_list_report(&hosts), "offgridholdout\toffgridholdout.example\thosts/offgridholdout.toml\n");
    assert_eq!(host_list_report(&vec![]), "No hosts found\n");
}

fn identity() -> IdentityRecord {
    IdentityRecord {
        identity: IdentitySection {
            id: "nick-pub".to_string(),
            display_name: "Nick".to_string(),
            author_name: None,
        },
        ssh_keys: vec![SshKeyRecord {
            id: "laptop".to_string(),
            public_key: "ssh-ed25519 AAAA".to_string(),
            private_key_ref: "workspace-secret:laptop".to_string(),
        }],
        certificates: vec![CertificateRecord {
            id: "capsule".to_string(),
            certificate_type: "gemini-tls".to_string(),
            fingerprint: "sha256:abc".to_string(),
            private_key_ref: "workspace-secret:capsule".to_string(),
            expires: None,
        }],
    }
}

#[test]
fn identity_renders_in_json_and_text() {
    assert_eq!(
        identity_json(&identity()),
        "{\"status\":\"ok\",\"schema\":1,\"data\":{\"id\":\"nick-pub\",\"display_name\":\"Nick\",\"ssh_keys\":1,\"certificates\":1}}"
    );
    assert_eq!(
        identity_report(&identity()),
        "Identity: Nick\nID: nick-pub\nSSH key: laptop\tssh-ed25519 AAAA\nCertificate: capsule\tgemini-tls\tsha256:abc\n"
    );
    let identities = vec![IdentitySummary {
        id: "nick-pub".to_string(),
        display_name: "Nick".to_string(),
        path: "identities/nick-pub.toml".to_string(),
    }];
    assert_eq!(
        listing_json("identities", &identities),
        "{\"status\":\"ok\",\"schema\":1,\"data\":{\"identities\":[{\"id\":\"nick-pub\",\"display_name\":\"Nick\",\"path\":\"identities/nick-pub.toml\"}]}}"
    );
    assert_eq!(identity_list_report(&identities), "nick-pub\tidentities/nick-pub.toml\n");
    assert_eq!(identity_list_report(&vec![]), "No identities found\n");
}

#[test]
fn recordings_render_for_both_listing_commands() {
    let recordings = vec![
        RecordingSummary {
            id: "field-note".to_string(),
            title: "Field Note".to_string(),
            path: "audio/metadata/field-note.toml".to_string(),
        },
        RecordingSummary {
            id: "walk".to_string(),
            title: "Walk".to_string(),
            path: "audio/metadata/walk.toml".to_string(),
        },
    ];
    assert_eq!(
        listing_json("recordings", &recordings),
        "{\"status\":\"ok\",\"schema\":1,\"data\":{\"recordings\":[{\"id\":\"field-note\",\"title\":\"Field Note\",\"path\":\"audio/metadata/field-note.toml\"},{\"id\":\"walk\",\"title\":\"Walk\",\"path\":\"audio/metadata/walk.toml\"}]}}"
    );
    assert_eq!(playable_list_report(&recordings), "field-note\tField Note\nwalk\tWalk\n");
    assert_eq!(
        recording_list_report(&recordings),
        "field-note\tField Note\taudio/metadata/field-note.toml\nwalk\tWalk\taudio/metadata/walk.toml\n"
    );
    assert_eq!(playable_list_report(&vec![]), "No playable recordings found\n");
    assert_eq!(recording_list_report(&vec![]), "No recordings found\n");
}

fn metadata(published: Option<&str>) -> AudioMetadata {
    AudioMetadata {
        recording: RecordingSection {
            id: "field-note".to_string(),
            title: "Field Note".to_string(),
            master: "audio/masters/field-note.flac".to_string(),
            published: published.map(str::to_string),
            duration_seconds: None,
            channels: None,
            sample_rate: None,
        },
        publication: None,
    }
}

#[test]
fn recording_renders_in_json_and_text() {
    assert_eq!(
        recording_json(&metadata(Some("audio/published/field-note.opus"))),
        "{\"status\":\"ok\",\"schema\":1,\"data\":{\"id\":\"field-note\",\"title\":\"Field Note\",\"master\":\"audio/masters/field-note.flac\",\"published\":\"audio/published/field-note.opus\"}}"
    );
    assert_eq!(
        recording_json(&metadata(None)),
        "{\"status\":\"ok\",\"schema\":1,\"data\":{\"id\":\"field-note\",\"title\":\"Field Note\",\"master\":\"audio/masters/field-note.flac\",\"published\":null}}"
    );
    assert_eq!(
        recording_report(&metadata(Some("audio/published/field-note.opus"))),
        "Recording: Field Note\nID: field-note\nMaster: audio/masters/field-note.flac\nPublished: audio/published/field-note.opus\n"
    );
    assert_eq!(
        recording_report(&metadata(None)),
        "Recording: Field Note\nID: field-note\nMaster: audio/masters/field-note.flac\n"
    );
}

#[test]
fn attachment_and_prepared_entry_render_in_json_and_text() {
    let attached = AttachedRecording {
        id: "field-note".to_string(),
        title: "Field Note".to_string(),
        metadata_path: "p/audio/metadata/field-note.toml".to_string(),
        metadata_relative_path: "audio/metadata/field-note.toml".to_string(),
        master: "audio/masters/field-note.flac".to_string(),
        published: "audio/published/field-note.opus".to_string(),
        feed: "feeds/feed.xml".to_string(),
        entry_id: "urn:waystone:field-note".to_string(),
        mime_type: "audio/ogg".to_string(),
    };
    assert_eq!(
        attached_json(&attached),
        "{\"status\":\"ok\",\"schema\":1,\"data\":{\"id\":\"field-note\",\"title\":\"Field Note\",\"metadata_path\":\"p/audio/metadata/field-note.toml\",\"metadata_relative_path\":\"audio/metadata/field-note.toml\",\"master\":\"audio/masters/field-note.flac\",\"published\":\"audio/published/field-note.opus\",\"feed\":\"feeds/feed.xml\",\"entry_id\":\"urn:waystone:field-note\",\"mime_type\":\"audio/ogg\"}}"
    );
    assert_eq!(
        attached_report(&attached),
        "Attached recording: field-note\nMetadata: p/audio/metadata/field-note.toml\nMaster: audio/masters/field-note.flac\nPublished: audio/published/field-note.opus\nFeed: feeds/feed.xml\n"
    );
    let prepared = PreparedFeedEntry {
        recording_id: "field-note".to_string(),
        title: "Field Note".to_string(),
        entry_id: "urn:waystone:field-note".to_string(),
        feed: "feeds/feed.xml".to_string(),
        output_path: "p/feeds/entries/field-note.toml".to_string(),
        output_relative_path: "feeds/entries/field-note.toml".to_string(),
        published: "audio/published/field-note.opus".to_string(),
        mime_type: "audio/ogg".to_string(),
        updated: "2026-05-01T00:00:00Z".to_string(),
    };
    assert_eq!(
        prepared_json(&prepared),
        "{\"status\":\"ok\",\"schema\":1,\"data\":{\"recording_id\":\"field-note\",\"title\":\"Field Note\",\"entry_id\":\"urn:waystone:field-note\",\"feed\":\"feeds/feed.xml\",\"output_path\":\"p/feeds/entries/field-note.toml\",\"output_relative_path\":\"feeds/entries/field-note.toml\",\"published\":\"audio/published/field-note.opus\",\"mime_type\":\"audio/ogg\",\"updated\":\"2026-05-01T00:00:00Z\"}}"
    );
    assert_eq!(
        prepared_report(&prepared),
        "Prepared feed entry: field-note\nMetadata: p/feeds/entries/field-note.toml\nPublished: audio/published/field-note.opus\nFeed: feeds/feed.xml\n"
    );
}

#[test]
fn project_creation_and_target_render_in_json_and_text() {
    let created = CreatedProject { project_path: "root/minimal.wayproject".to_string(), schema: 1 };
    assert_eq!(
        created_json(&created),
        "{\"status\":\"ok\",\"schema\":1,\"data\":{\"project_path\":\"root/minimal.wayproject\",\"project_schema\":1}}"
    );
    assert_eq!(created_report(&created), "Created project: root/minimal.wayproject\n");
    assert_eq!(
        removable_target_json("usb", "exports/usb"),
        "{\"status\":\"ok\",\"schema\":1,\"data\":{\"name\":\"usb\",\"method\":\"removable\",\"path\":\"exports/usb\"}}"
    );
    assert_eq!(removable_target_report("usb"), "Added removable publish target: usb\n");
}

fn record() -> PublicationHistoryRecord {
    PublicationHistoryRecord {
        schema: 1,
        date: "2026-05-01".to_string(),
        project_id: "ssh-capsule".to_string(),
        target: "production".to_string(),
        method: "rsync".to_string(),
        destination: None,
        transfer_result: "planned".to_string(),
        verification_result: "not-run".to_string(),
        files: vec![PublicationFile {
            path: "content/index.gmi".to_string(),
            action: "upload".to_string(),
            sha256: None,
        }],
        rollback: RollbackInfo { available: false, notes: "none".to_string() },
    }
}

#[test]
fn history_records_render_in_json() {
    let r = record();
    assert_eq!(
        history_record_json(&r),
        format!(
            "{{\"status\":\"ok\",\"schema\":1,\"data\":{{\"project\":\"ssh-capsule\",\"target\":\"production\",\"transfer_result\":\"planned\",\"verification_result\":\"not-run\",\"files\":[{{\"path\":\"content/index.gmi\",\"action\":\"upload\"}}],\"record_toml\":\"{}\"}}}}",
            r.to_toml().replace('\\', "\\\\").replace('"', "\\\"").replace('\n', "\\n")
        )
    );
    assert_eq!(
        saved_history_json(&r, "p/history/previews/2026-05-01-production-planned.toml"),
        "{\"status\":\"ok\",\"schema\":1,\"data\":{\"project\":\"ssh-capsule\",\"target\":\"production\",\"output_path\":\"p/history/previews/2026-05-01-production-planned.toml\",\"transfer_result\":\"planned\",\"verification_result\":\"not-run\",\"files\":[{\"path\":\"content/index.gmi\",\"action\":\"upload\"}]}}"
    );
}

#[test]
fn history_listings_and_details_render() {
    let previews = vec![PlannedHistoryPreviewEntry {
        path: "p/history/previews/a-planned.toml".to_string(),
        filename: "a-planned.toml".to_string(),
        modified_unix: 1700000000,
        size_bytes: 321,
    }];
    assert_eq!(
        previews_report(&previews),
        "Planned history previews\n  p/history/previews/a-planned.toml (321 bytes, modified 1700000000)\n"
    );
    assert_eq!(previews_report(&vec![]), "No planned history previews\n");
    assert_eq!(
        previews_json("p", &previews),
        "{\"status\":\"ok\",\"schema\":1,\"data\":{\"project_path\":\"p\",\"previews\":[{\"path\":\"p/history/previews/a-planned.toml\",\"filename\":\"a-planned.toml\",\"modified_unix\":1700000000,\"size_bytes\":321}]}}"
    );
    let records = vec![CompletedHistoryEntry {
        path: "p/history/completed/a-completed.toml".to_string(),
        filename: "a-completed.toml".to_string(),
        modified_unix: 5,
        size_bytes: 6,
    }];
    assert_eq!(
        completed_report(&records),
        "Completed history records\n  p/history/completed/a-completed.toml (6 bytes, modified 5)\n"
    );
    assert_eq!(completed_report(&vec![]), "No completed history records\n");
    assert_eq!(
        completed_json("p", &records),
        "{\"status\":\"ok\",\"schema\":1,\"data\":{\"project_path\":\"p\",\"records\":[{\"path\":\"p/history/completed/a-completed.toml\",\"filename\":\"a-completed.toml\",\"modified_unix\":5,\"size_bytes\":6}]}}"
    );
    let planned = PlannedHistoryPreviewDetail { entry: previews[0].clone(), record_toml: "a = \"b\"\n".to_string() };
    assert_eq!(
        planned_detail_json("p", &planned),
        "{\"status\":\"ok\",\"schema\":1,\"data\":{\"project_path\":\"p\",\"path\":\"p/history/previews/a-planned.toml\",\"filename\":\"a-planned.toml\",\"modified_unix\":1700000000,\"size_bytes\":321,\"record_toml\":\"a = \\\"b\\\"\\n\"}}"
    );
    let completed = CompletedHistoryDetail { entry: records[0].clone(), record_toml: "x".to_string() };
    assert_eq!(
        completed_detail_json("p", &completed),
        "{\"status\":\"ok\",\"schema\":1,\"data\":{\"project_path\":\"p\",\"path\":\"p/history/completed/a-completed.toml\",\"filename\":\"a-completed.toml\",\"modified_unix\":5,\"size_bytes\":6,\"record_toml\":\"x\"}}"
    );
}
