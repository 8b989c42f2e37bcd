use waystone::audio_metadata::{AudioMetadata, PublicationSection, RecordingSection};
use waystone::audio_write::{AttachFacts, PathKind, RecordingFile};
use waystone::host_identity::{
    HostFile, HostRecord, HostSection, IdentityFile, IdentityRecord, IdentitySection,
    LoadedIdentity, SshKeyRecord,
};
use waystone::project_format::{
    ContentSection, Manifest, ProjectFiles, ProjectFormatError, ProjectSection, WaystoneSection,
};
use waystone::services::{
    AttachRecordingRequest, AudioService, CreateProjectRequest, HostService,
    IdentityService, InspectProjectRequest, ListHostsRequest, ListIdentitiesRequest,
    ListProjectsRequest, ListRecordingsRequest, ProjectService, ValidateHostRequest,
    ValidateIdentityRequest, ValidateProjectRequest, ValidateRecordingRequest,
};

fn field_note() -> AudioMetadata {
    AudioMetadata {
        recording: RecordingSection {
            id: "field-note".to_string(),
            title: "Field Note".to_string(),
            master: "audio/masters/field-note.flac".to_string(),
            published: Some("audio/published/field-note.opus".to_string()),
            duration_seconds: None,
            channels: Some(1),
            sample_rate: Some(48000),
        },
        publication: Some(PublicationSection {
            feed: Some("feeds/feed.xml".to_string()),
            entry_id: Some("tag:waystone.example,2026:field-note".to_string()),
            mime_type: Some("audio/ogg; codecs=opus".to_string()),
        }),
    }
}

#[test]
fn service_lists_and_validates_recordings() {
    let service = AudioService;
    let recordings = service
        .list_recordings(
            ListRecordingsRequest {
                root: "examples/projects/audio-capsule.wayproject/audio/metadata".to_string(),
            },
            Ok(vec![RecordingFile {
                path: "examples/projects/audio-capsule.wayproject/audio/metadata/field-note.toml".to_string(),
                metadata: Some(field_note()),
            }]),
        )
        .expect("recordings should list");

    assert_eq!(recordings.len(), 1);

    let report = service
        .validate_recording(ValidateRecordingRequest { path: recordings[0].path.clone() }, Ok(field_note()))
        .expect("recording should validate");

    assert!(report.valid, "{report:#?}");
}

#[test]
fn service_attaches_recording_metadata() {
    let plan = AudioService
        .attach_recording(
            AttachRecordingRequest {
                project_root: "/tmp/audio-project.wayproject".to_string(),
                metadata_root: "audio/metadata".to_string(),
                id: "note".to_string(),
                title: "Note".to_string(),
                master: "audio/masters/note.flac".to_string(),
                published: "audio/published/note.opus".to_string(),
                feed: "feeds/feed.xml".to_string(),
                entry_id: "tag:example.invalid,2026:note".to_string(),
                mime_type: "audio/ogg; codecs=opus".to_string(),
            },
            AttachFacts {
                root: PathKind::Directory,
                master_is_file: true,
                published_is_file: true,
                metadata_exists: false,
            },
        )
        .expect("recording should attach");
    assert_eq!(plan.recording.metadata_relative_path, "audio/metadata/note.toml");
}

fn offgridholdout() -> HostRecord {
    HostRecord {
        host: HostSection {
            id: "offgridholdout".to_string(),
            display_name: "Off-Grid Holdout".to_string(),
            address: "offgridholdout.example".to_string(),
            notes: None,
        },
        services: vec![],
    }
}

#[test]
fn service_lists_and_validates_hosts() {
    let service = HostService;
    let hosts = service
        .list_hosts(
            ListHostsRequest { root: "examples/connections/hosts".to_string() },
            Ok(vec![HostFile {
                path: "examples/connections/hosts/offgridholdout.toml".to_string(),
                record: Some(offgridholdout()),
            }]),
        )
        .expect("hosts should list");

    assert_eq!(hosts.len(), 1);

    let report = service
        .validate_host(ValidateHostRequest { path: hosts[0].path.clone() }, Ok(offgridholdout()))
        .expect("host should validate");

    assert!(report.valid, "{report:#?}");
}

fn nick_pub() -> IdentityRecord {
    IdentityRecord {
        identity: IdentitySection {
            id: "nick-pub".to_string(),
            display_name: "Nick".to_string(),
            author_name: None,
        },
        ssh_keys: vec![SshKeyRecord {
            id: "nick-ed25519".to_string(),
            public_key: "ssh-ed25519 AAAA".to_string(),
            private_key_ref: "workspace-secret:nick-ed25519".to_string(),
        }],
        certificates: vec![],
    }
}

#[test]
fn service_lists_and_validates_identities() {
    let service = IdentityService;
    let identities = service
        .list_identities(
            ListIdentitiesRequest { root: "examples/connections/identities".to_string() },
            Ok(vec![IdentityFile {
                path: "examples/connections/identities/nick-pub.toml".to_string(),
                record: Some(nick_pub()),
            }]),
        )
        .expect("identities should list");

    assert_eq!(identities.len(), 1);

    let report = service
        .validate_identity(
            ValidateIdentityRequest { path: identities[0].path.clone() },
            Ok(LoadedIdentity { record: nick_pub(), text: "[identity]\nid = \"nick-pub\"\n".to_string() }),
        )
        .expect("identity should validate");

    assert!(report.valid, "{report:#?}");
}

fn capsule() -> Manifest {
    Manifest {
        waystone: WaystoneSection { schema: 1, created_by: None },
        project: ProjectSection {
            id: "service-capsule".to_string(),
            name: "Service Capsule".to_string(),
            project_type: "capsule".to_string(),
            language: Some("en".to_string()),
            author: None,
            description: None,
        },
        content: ContentSection { root: "content".to_string(), index: "index.gmi".to_string() },
        audio: None,
        feed: None,
        publish: None,
    }
}

#[test]
fn service_creates_and_checks_project() {
    let service = ProjectService;
    let created = service
        .create_project(
            CreateProjectRequest {
                parent: "/tmp/root".to_string(),
                id: "service-capsule".to_string(),
                name: "Service Capsule".to_string(),
                project_type: "capsule".to_string(),
                content_index: "index.gmi".to_string(),
                language: Some("en".to_string()),
                author: None,
            },
            false,
        )
        .expect("project should be created");
    assert_eq!(created.project_path, "/tmp/root/service-capsule.wayproject");

    let files = ProjectFiles { content_root_is_dir: true, content_index_is_file: true, feed_file_is_file: false };
    let report = service
        .validate_project(ValidateProjectRequest { path: created.project_path.clone() }, Ok(capsule()), &files)
        .expect("created project should validate");
    assert!(report.valid, "{report:#?}");

    let inspection = service
        .inspect_project(InspectProjectRequest { path: created.project_path }, Ok(capsule()), &files)
        .expect("inspects");
    assert_eq!(inspection.id, "service-capsule");

    let listed = service
        .list_projects(ListProjectsRequest { root: "/tmp/root".to_string() }, Err(ProjectFormatError::ProjectNotFound("/tmp/root".to_string())));
    assert!(matches!(listed, Err(ProjectFormatError::ProjectNotFound(_))));
}
