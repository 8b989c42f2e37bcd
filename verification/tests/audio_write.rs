use waystone::audio_metadata::{
    AudioMetadata, AudioMetadataError, PublicationSection, RecordingSection,
};
use waystone::audio_write::{
    attach_recording, check_project_root, encoder_failure, export_opus_publication_copy,
    opus_encoder_args, opus_preset_args, prepare_feed_entry, update_feed_entry,
    update_recording_metadata, validate_opus_preset, AttachFacts, AttachRecordingOptions,
    ExportFacts, ExportOpusOptions, FeedEntryFacts, PathKind, PrepareFeedEntryOptions,
    UpdateFeedEntryOptions, UpdateRecordingFacts, UpdateRecordingOptions,
};

fn attach_options(metadata_root: &str) -> AttachRecordingOptions {
    AttachRecordingOptions {
        project_root: "/work/escape.wayproject".to_string(),
        metadata_root: metadata_root.to_string(),
        id: "note".to_string(),
        title: "Note".to_string(),
        master: "audio/masters/note.flac".to_string(),
        published: "audio/published/note.opus".to_string(),
        feed: "feeds/feed.xml".to_string(),
        entry_id: "tag:example.invalid,2026:note".to_string(),
        mime_type: "audio/ogg; codecs=opus".to_string(),
    }
}

fn all_present() -> AttachFacts {
    AttachFacts {
        root: PathKind::Directory,
        master_is_file: true,
        published_is_file: true,
        metadata_exists: false,
    }
}

#[test]
fn attach_rejects_project_escape_paths() {
    let error = attach_recording(&attach_options("../outside"), all_present())
        .expect_err("escaping metadata path should fail");
    assert!(matches!(
        error,
        AudioMetadataError::InvalidAudioPath { field, .. } if field == "audio.metadata"
    ));
}

#[test]
fn attach_writes_metadata_under_the_metadata_root() {
    let plan = attach_recording(&attach_options("audio/metadata"), all_present())
        .expect("recording should attach");
    assert_eq!(plan.recording.metadata_relative_path, "audio/metadata/note.toml");
    assert_eq!(plan.recording.metadata_path, "/work/escape.wayproject/audio/metadata/note.toml");
    assert_eq!(
        plan.text,
        "[recording]\nid = \"note\"\ntitle = \"Note\"\nmaster = \"audio/masters/note.flac\"\npublished = \"audio/published/note.opus\"\n\n[publication]\nfeed = \"feeds/feed.xml\"\nentry_id = \"tag:example.invalid,2026:note\"\nmime_type = \"audio/ogg; codecs=opus\"\n"
    );
}

#[test]
fn attach_checks_come_in_order() {
    let mut facts = all_present();
    facts.root = PathKind::Missing;
    assert!(matches!(
        attach_recording(&attach_options("../outside"), facts),
        Err(AudioMetadataError::ProjectNotFound(p)) if p == "/work/escape.wayproject"
    ));
    facts.root = PathKind::File;
    assert!(matches!(
        attach_recording(&attach_options("audio/metadata"), facts),
        Err(AudioMetadataError::ProjectNotDirectory(_))
    ));
    let mut bad_id = attach_options("audio/metadata");
    bad_id.id = "no/te".to_string();
    assert!(matches!(
        attach_recording(&bad_id, all_present()),
        Err(AudioMetadataError::InvalidRecordingId(v)) if v == "no/te"
    ));
    let missing = AttachFacts { master_is_file: false, ..all_present() };
    assert!(matches!(
        attach_recording(&attach_options("audio/metadata"), missing),
        Err(AudioMetadataError::AudioFileMissing { path }) if path == "audio/masters/note.flac"
    ));
    let exists = AttachFacts { metadata_exists: true, ..all_present() };
    assert!(matches!(
        attach_recording(&attach_options("audio/metadata"), exists),
        Err(AudioMetadataError::MetadataAlreadyExists(p)) if p == "/work/escape.wayproject/audio/metadata/note.toml"
    ));
}

#[test]
fn project_root_must_be_a_directory() {
    assert!(check_project_root("/p", PathKind::Directory).is_ok());
    assert!(matches!(check_project_root("/p", PathKind::Missing), Err(AudioMetadataError::ProjectNotFound(_))));
    assert!(matches!(check_project_root("/p", PathKind::Other), Err(AudioMetadataError::ProjectNotDirectory(_))));
}

fn existing_note() -> AudioMetadata {
    AudioMetadata {
        recording: RecordingSection {
            id: "note".to_string(),
            title: "Old".to_string(),
            master: "audio/masters/old.flac".to_string(),
            published: Some("audio/published/old.opus".to_string()),
            duration_seconds: Some(61),
            channels: Some(2),
            sample_rate: Some(44100),
        },
        publication: Some(PublicationSection {
            feed: Some("feeds/feed.xml".to_string()),
            entry_id: Some("tag:example.invalid,2026:note".to_string()),
            mime_type: Some("audio/ogg; codecs=opus".to_string()),
        }),
    }
}

fn update_options(master: &str) -> UpdateRecordingOptions {
    UpdateRecordingOptions {
        project_root: "/p".to_string(),
        recording_metadata_path: "/p/audio/metadata/note.toml".to_string(),
        title: "New \"title\"".to_string(),
        master: master.to_string(),
        published: "audio/published/note.opus".to_string(),
        feed: "feeds/feed.xml".to_string(),
        entry_id: "tag:example.invalid,2026:note".to_string(),
        mime_type: "audio/ogg; codecs=opus".to_string(),
    }
}

fn update_facts() -> UpdateRecordingFacts {
    UpdateRecordingFacts {
        root: PathKind::Directory,
        existing: Ok(existing_note()),
        metadata_relative_path: Some("audio/metadata/note.toml".to_string()),
        master_is_file: true,
        published_is_file: true,
    }
}

#[test]
fn update_replaces_recording_metadata_and_preserves_measurements() {
    let plan = update_recording_metadata(&update_options("audio/masters/note.flac"), update_facts())
        .expect("update should plan");
    assert_eq!(plan.recording.id, "note");
    assert_eq!(plan.recording.title, "New \"title\"");
    assert_eq!(plan.recording.metadata_relative_path, "audio/metadata/note.toml");
    assert_eq!(
        plan.text,
        "[recording]\nid = \"note\"\ntitle = \"New \\\"title\\\"\"\nmaster = \"audio/masters/note.flac\"\npublished = \"audio/published/note.opus\"\nduration_seconds = 61\nchannels = 2\nsample_rate = 44100\n\n[publication]\nfeed = \"feeds/feed.xml\"\nentry_id = \"tag:example.invalid,2026:note\"\nmime_type = \"audio/ogg; codecs=opus\"\n"
    );
}

#[test]
fn update_rejects_project_escape_paths() {
    let error = update_recording_metadata(&update_options("../outside.flac"), update_facts())
        .expect_err("escape should fail");
    assert!(matches!(
        error,
        AudioMetadataError::InvalidAudioPath { field, .. } if field == "recording.master"
    ));
    let mut facts = update_facts();
    facts.metadata_relative_path = None;
    let error = update_recording_metadata(&update_options("audio/masters/note.flac"), facts)
        .expect_err("metadata outside the project should fail");
    assert!(matches!(
        error,
        AudioMetadataError::InvalidAudioPath { field, value } if field == "recording.metadata" && value == "/p/audio/metadata/note.toml"
    ));
}

#[test]
fn update_requires_title_and_publication_values() {
    let mut options = update_options("audio/masters/note.flac");
    options.title = " ".to_string();
    assert!(matches!(
        update_recording_metadata(&options, update_facts()),
        Err(AudioMetadataError::MissingRecordingTitle)
    ));
    let mut options = update_options("audio/masters/note.flac");
    options.mime_type = "".to_string();
    assert!(matches!(
        update_recording_metadata(&options, update_facts()),
        Err(AudioMetadataError::MissingPublicationField("publication.mime_type"))
    ));
}

#[test]
fn opus_presets_and_their_arguments() {
    for preset in ["voice-compact", "voice-standard", "spoken-program", "music-efficient", "music-quality"] {
        assert!(validate_opus_preset(preset).is_ok());
    }
    assert!(matches!(
        validate_opus_preset("lossless"),
        Err(AudioMetadataError::UnsupportedOpusPreset(v)) if v == "lossless"
    ));
    assert_eq!(
        opus_preset_args("voice-compact").unwrap(),
        vec!["-ac", "1", "-ar", "48000", "-b:a", "32k", "-application", "voip"]
    );
    assert_eq!(
        opus_preset_args("music-quality").unwrap(),
        vec!["-ar", "48000", "-b:a", "160k", "-application", "audio"]
    );
}

#[test]
fn encoder_arguments_frame_the_preset() {
    let args = opus_encoder_args("/p/audio/masters/n.flac", "music-efficient", "/p/out.opus.tmp")
        .expect("known preset");
    assert_eq!(
        args,
        vec![
            "-nostdin", "-hide_banner", "-loglevel", "error", "-y", "-i",
            "/p/audio/masters/n.flac", "-vn", "-c:a", "libopus", "-ar", "48000", "-b:a", "96k",
            "-application", "audio", "-f", "opus", "/p/out.opus.tmp"
        ]
    );
    assert!(opus_encoder_args("m", "nope", "o").is_err());
}

#[test]
fn encoder_failure_trims_its_error_stream() {
    let error = encoder_failure(Some(1), "  \nbad input\n ");
    assert!(matches!(
        error,
        AudioMetadataError::OpusEncoderFailed { status: Some(1), stderr } if stderr == "bad input"
    ));
}

fn export_options(published: &str, preset: &str) -> ExportOpusOptions {
    ExportOpusOptions {
        project_root: "/p".to_string(),
        master: "audio/masters/note.wav".to_string(),
        published: published.to_string(),
        preset: preset.to_string(),
    }
}

#[test]
fn export_describes_the_publication_copy() {
    let facts = ExportFacts { root: PathKind::Directory, master_is_file: true, output_exists: false };
    let copy = export_opus_publication_copy(&export_options("audio/published/note.opus", "voice-standard"), facts)
        .expect("export should plan");
    assert_eq!(copy.output_path, "/p/audio/published/note.opus");
    assert_eq!(copy.mime_type, "audio/ogg; codecs=opus");
    assert_eq!(copy.engine, "ffmpeg");
}

#[test]
fn export_refuses_what_the_original_refuses() {
    let facts = ExportFacts { root: PathKind::Directory, master_is_file: true, output_exists: false };
    assert!(matches!(
        export_opus_publication_copy(&export_options("audio/published/note.mp3", "voice-standard"), facts),
        Err(AudioMetadataError::InvalidPublicationCopyPath(v)) if v == "audio/published/note.mp3"
    ));
    assert!(matches!(
        export_opus_publication_copy(&export_options("audio/published/note.opus", "loud"), facts),
        Err(AudioMetadataError::UnsupportedOpusPreset(_))
    ));
    let exists = ExportFacts { output_exists: true, ..facts };
    assert!(matches!(
        export_opus_publication_copy(&export_options("audio/published/note.opus", "voice-standard"), exists),
        Err(AudioMetadataError::PublicationCopyAlreadyExists(p)) if p == "/p/audio/published/note.opus"
    ));
}

fn entry_facts(output: PathKind) -> FeedEntryFacts {
    FeedEntryFacts {
        root: PathKind::Directory,
        metadata: Ok(existing_note()),
        metadata_relative_path: Some("audio/metadata/note.toml".to_string()),
        published_is_file: true,
        output,
    }
}

#[test]
fn prepare_feed_entry_writes_metadata_sidecar() {
    let options = PrepareFeedEntryOptions {
        project_root: "/p".to_string(),
        recording_metadata_path: "/p/audio/metadata/note.toml".to_string(),
        updated: "2026-07-19T00:00:00Z".to_string(),
        summary: "A note".to_string(),
    };
    let plan = prepare_feed_entry(&options, entry_facts(PathKind::Missing)).expect("entry should plan");
    assert_eq!(plan.entry.output_relative_path, "feeds/entries/note.toml");
    assert_eq!(plan.entry.output_path, "/p/feeds/entries/note.toml");
    assert_eq!(plan.entry.published, "audio/published/old.opus");
    assert_eq!(
        plan.text,
        "[entry]\nid = \"tag:example.invalid,2026:note\"\ntitle = \"Old\"\nupdated = \"2026-07-19T00:00:00Z\"\nsummary = \"A note\"\nfeed = \"feeds/feed.xml\"\nrecording = \"note\"\nrecording_metadata = \"audio/metadata/note.toml\"\n\n[enclosure]\npath = \"audio/published/old.opus\"\nmime_type = \"audio/ogg; codecs=opus\"\n"
    );
    assert!(matches!(
        prepare_feed_entry(&options, entry_facts(PathKind::File)),
        Err(AudioMetadataError::FeedEntryAlreadyExists(p)) if p == "/p/feeds/entries/note.toml"
    ));
}

#[test]
fn update_feed_entry_rewrites_existing_sidecar_from_recording_metadata() {
    let options = UpdateFeedEntryOptions {
        project_root: "/p".to_string(),
        recording_metadata_path: "/p/audio/metadata/note.toml".to_string(),
        updated: "2026-07-20T00:00:00Z".to_string(),
        summary: "Changed".to_string(),
    };
    let plan = update_feed_entry(&options, entry_facts(PathKind::File)).expect("entry should plan");
    assert_eq!(plan.entry.updated, "2026-07-20T00:00:00Z");
    assert!(plan.text.contains("summary = \"Changed\"\n"));
    assert!(matches!(
        update_feed_entry(&options, entry_facts(PathKind::Missing)),
        Err(AudioMetadataError::NotFound(p)) if p == "/p/feeds/entries/note.toml"
    ));
    assert!(matches!(
        update_feed_entry(&options, entry_facts(PathKind::Directory)),
        Err(AudioMetadataError::NotFile(_))
    ));
}

#[test]
fn feed_entry_needs_publication_values() {
    let options = PrepareFeedEntryOptions {
        project_root: "/p".to_string(),
        recording_metadata_path: "/p/audio/metadata/note.toml".to_string(),
        updated: "u".to_string(),
        summary: "s".to_string(),
    };
    let mut metadata = existing_note();
    metadata.publication.as_mut().unwrap().entry_id = None;
    let facts = FeedEntryFacts { metadata: Ok(metadata), ..entry_facts(PathKind::Missing) };
    assert!(matches!(
        prepare_feed_entry(&options, facts),
        Err(AudioMetadataError::MissingPublicationField("publication.entry_id"))
    ));
    let mut metadata = existing_note();
    metadata.publication = None;
    let facts = FeedEntryFacts { metadata: Ok(metadata), ..entry_facts(PathKind::Missing) };
    assert!(matches!(
        prepare_feed_entry(&options, facts),
        Err(AudioMetadataError::MissingPublicationField("publication"))
    ));
}
