use waystone::audio_metadata::{
    validate_audio_metadata, validate_audio_metadata_record, validate_feed_entry,
    validate_publication_copy, AudioMetadata, AudioMetadataError, EnclosureSection,
    FeedEntryContext, FeedEntryMetadata, FeedEntrySection, LinkedRecording, OtherFeedEntry,
    PublicationFiles, PublicationSection, RecordingSection,
};
use waystone::audio_write::{list_recordings, RecordingFile};

fn field_note() -> AudioMetadata {
    AudioMetadata {
        recording: RecordingSection {
            id: "field-note".to_string(),
            title: "Field Note".to_string(),
            master: "audio/masters/field-note.flac".to_string(),
            published: Some("audio/published/field-note.opus".to_string()),
            duration_seconds: Some(93),
            channels: Some(1),
            sample_rate: Some(48000),
        },
        publication: Some(PublicationSection {
            feed: Some("feeds/feed.xml".to_string()),
            entry_id: Some("tag:waystone.example,2026:field-note".to_string()),
            mime_type: Some("audio/ogg; codecs=opus".to_string()),
        }),
    }
}

const METADATA_ROOT: &str = "examples/projects/audio-capsule.wayproject/audio/metadata";

#[test]
fn validates_audio_metadata_example() {
    let report = validate_audio_metadata(Ok(field_note())).expect("metadata example should load");

    assert!(report.valid, "{report:#?}");
}

#[test]
fn lists_recording_metadata() {
    let recordings = list_recordings(Ok(vec![RecordingFile {
        path: format!("{METADATA_ROOT}/field-note.toml"),
        metadata: Some(field_note()),
    }]))
    .expect("recordings should list");

    assert_eq!(recordings.len(), 1);
    assert_eq!(recordings[0].id, "field-note");
}

#[test]
fn rejects_upward_audio_paths() {
    let mut metadata = field_note();
    metadata.recording.master = "../../outside/field-note.flac".to_string();
    let report = validate_audio_metadata(Ok(metadata)).expect("invalid metadata should parse");

    assert!(!report.valid);
    assert!(report.errors.iter().any(|issue| issue.code == "invalid_audio_path"));
}

#[test]
fn recording_checks_report_in_order() {
    let mut metadata = field_note();
    metadata.recording.id = "field note".to_string();
    metadata.recording.title = "  ".to_string();
    metadata.recording.channels = Some(0);
    metadata.recording.sample_rate = Some(0);
    metadata.publication.as_mut().unwrap().mime_type = Some("opus".to_string());
    let report = validate_audio_metadata_record(&metadata);
    let codes: Vec<&str> = report.errors.iter().map(|i| i.code).collect();
    assert_eq!(
        codes,
        vec![
            "invalid_recording_id",
            "missing_recording_title",
            "invalid_channel_count",
            "invalid_sample_rate"
        ]
    );
    assert_eq!(report.warnings.len(), 1);
    assert_eq!(report.warnings[0].code, "unusual_mime_type");
    assert_eq!(report.warnings[0].message, "MIME type does not contain '/': opus");
}

#[test]
fn absolute_published_path_is_refused() {
    let mut metadata = field_note();
    metadata.recording.published = Some("/srv/audio/field-note.opus".to_string());
    let report = validate_audio_metadata_record(&metadata);
    assert_eq!(report.errors.len(), 1);
    assert_eq!(report.errors[0].path.as_deref(), Some("recording.published"));
}

#[test]
fn failed_load_is_handed_back() {
    let err = validate_audio_metadata(Err(AudioMetadataError::NotFound("m.toml".to_string())));
    assert!(matches!(err, Err(AudioMetadataError::NotFound(p)) if p == "m.toml"));
}

#[test]
fn publication_copy_passes_with_both_files() {
    let files = PublicationFiles { master_is_file: true, published_is_file: true };
    let report = validate_publication_copy(
        Ok(field_note()),
        &Some("audio/metadata/field-note.toml".to_string()),
        &files,
    )
    .expect("publication copy should validate");
    assert!(report.valid, "{report:#?}");
}

#[test]
fn publication_copy_reports_missing_published_file() {
    let files = PublicationFiles { master_is_file: true, published_is_file: false };
    let report = validate_publication_copy(
        Ok(field_note()),
        &Some("audio/metadata/field-note.toml".to_string()),
        &files,
    )
    .expect("publication copy should validate");
    assert!(!report.valid);
    assert!(report.errors.iter().any(|i| i.path.as_deref() == Some("recording.published")));
}

fn note_entry() -> FeedEntryMetadata {
    FeedEntryMetadata {
        entry: Some(FeedEntrySection {
            id: Some("tag:waystone.example,2026:field-note".to_string()),
            title: Some("Field Note".to_string()),
            updated: Some("2026-07-19T00:00:00Z".to_string()),
            summary: Some("A short note".to_string()),
            feed: Some("feeds/feed.xml".to_string()),
            recording: Some("field-note".to_string()),
            recording_metadata: Some("audio/metadata/field-note.toml".to_string()),
        }),
        enclosure: Some(EnclosureSection {
            path: Some("audio/published/field-note.opus".to_string()),
            mime_type: Some("audio/ogg; codecs=opus".to_string()),
        }),
    }
}

fn note_context() -> FeedEntryContext {
    FeedEntryContext {
        relative_path: Some("feeds/entries/field-note.toml".to_string()),
        enclosure_is_file: true,
        recording: Some(Ok(LinkedRecording {
            metadata: field_note(),
            relative_path: Some("audio/metadata/field-note.toml".to_string()),
            files: PublicationFiles { master_is_file: true, published_is_file: true },
        })),
        other_entries: Ok(vec![]),
    }
}

#[test]
fn feed_entry_matching_its_recording_is_valid() {
    let report = validate_feed_entry(Ok(note_entry()), note_context()).expect("entry should check");
    assert!(report.valid, "{report:#?}");
}

#[test]
fn feed_entry_without_recording_metadata_file_is_invalid() {
    let mut context = note_context();
    context.recording = None;
    let report = validate_feed_entry(Ok(note_entry()), context).expect("entry should check");
    assert!(!report.valid);
    assert!(report.errors.iter().any(|i| i.code == "missing_recording_metadata"));
}

#[test]
fn feed_entry_missing_link_is_reported() {
    let mut entry = note_entry();
    entry.entry.as_mut().unwrap().recording_metadata = None;
    let mut context = note_context();
    context.recording = None;
    let report = validate_feed_entry(Ok(entry), context).expect("entry should check");
    assert!(report
        .errors
        .iter()
        .any(|i| i.message == "entry.recording_metadata is required for feed-entry validation"));
}

#[test]
fn duplicate_entry_ids_are_reported() {
    let mut context = note_context();
    context.other_entries = Ok(vec![OtherFeedEntry {
        display_path: "feeds/entries/copy.toml".to_string(),
        entry_id: Some("tag:waystone.example,2026:field-note".to_string()),
    }]);
    let report = validate_feed_entry(Ok(note_entry()), context).expect("entry should check");
    assert!(report
        .errors
        .iter()
        .any(|i| i.code == "duplicate_feed_entry_id"
            && i.message == "feed entry id is already used by feeds/entries/copy.toml"));
}

#[test]
fn mismatched_entry_fields_are_reported() {
    let mut entry = note_entry();
    entry.enclosure.as_mut().unwrap().mime_type = Some("audio/mpeg".to_string());
    let report = validate_feed_entry(Ok(entry), note_context()).expect("entry should check");
    let issue = report
        .errors
        .iter()
        .find(|i| i.code == "feed_entry_mime_type_mismatch")
        .expect("mismatch");
    assert_eq!(
        issue.message,
        "enclosure.mime_type does not match recording metadata: audio/mpeg != audio/ogg; codecs=opus"
    );
}

#[test]
fn missing_entry_section_is_the_only_finding() {
    let entry = FeedEntryMetadata { entry: None, enclosure: note_entry().enclosure };
    let report = validate_feed_entry(Ok(entry), note_context()).expect("entry should check");
    assert_eq!(report.errors.len(), 1);
    assert_eq!(report.errors[0].message, "entry section is required");
}

#[test]
fn audio_errors_read_as_messages() {
    assert_eq!(
        AudioMetadataError::InvalidAudioPath {
            field: "recording.master".to_string(),
            value: "../x".to_string()
        }
        .message(),
        "invalid audio path in recording.master: ../x"
    );
    assert_eq!(
        AudioMetadataError::OpusEncoderFailed { status: Some(-2), stderr: "bad".to_string() }
            .message(),
        "Opus encoder failed with status Some(-2): bad"
    );
    assert_eq!(
        AudioMetadataError::OpusEncoderFailed { status: None, stderr: "".to_string() }.message(),
        "Opus encoder failed with status None: "
    );
    assert_eq!(
        AudioMetadataError::InvalidFeedEntry {
            path: "e.toml".to_string(),
            issues: vec!["a".to_string(), "say \"hi\"".to_string()]
        }
        .message(),
        "feed entry metadata is invalid: e.toml: [\"a\", \"say \\\"hi\\\"\"]"
    );
    assert_eq!(
        AudioMetadataError::MissingPublicationField("publication.feed").message(),
        "recording metadata is missing publication field: publication.feed"
    );
}

#[test]
fn invalid_feed_entry_message_escapes_control_characters_as_debug_does() {
    let issues = vec![
        "tab\there".to_string(),
        "bell\u{7}escape\u{1b}delete\u{7f}".to_string(),
        "nul\0quote\"slash\\".to_string(),
    ];
    let message = AudioMetadataError::InvalidFeedEntry { path: "e.toml".to_string(), issues: issues.clone() }
        .message();
    assert_eq!(message, format!("feed entry metadata is invalid: e.toml: {:?}", issues));
    assert!(message.contains("\\u{1b}"));
}
