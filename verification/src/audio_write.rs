use vstd::prelude::*;
use crate::audio_metadata::{
    is_inside_path, validate_audio_path_for_write, validate_recording_id_for_write,
    validate_required_publication_value, AudioMetadata, AudioMetadataError,
};
use crate::cli_output::texts;
use crate::feed_xml::{trimmed, trimmed_substring};
use crate::order::{is_sorted, keeps_tie_order, reversed, stable_sort, SortOrder};
use crate::text::{
    append_decimal, append_toml_line, decimal, ends_with_exec, ends_with_text, is_blank,
    is_blank_text, is_valid_id, joined_path, lemma_lex_le_total, lemma_lex_le_transitive, lex_le, text_le, path_join, string_of, text_eq, toml_line,
};

verus! {

/// What the file system shows at a path.
#[derive(Debug, Clone, Copy, PartialEq, Eq, Structural)]
pub enum PathKind {
    Missing,
    Directory,
    File,
    Other,
}

/// Refuses a project root that is missing or not a directory.
pub fn check_project_root(project_root: &str, kind: PathKind) -> (r: Result<(), AudioMetadataError>)
    ensures
        match kind {
            PathKind::Missing => r matches Err(AudioMetadataError::ProjectNotFound(p))
                && p@ == project_root@,
            PathKind::Directory => r is Ok,
            _ => r matches Err(AudioMetadataError::ProjectNotDirectory(p)) && p@ == project_root@,
        },
{
    match kind {
        PathKind::Missing => Err(AudioMetadataError::ProjectNotFound(string_of(project_root))),
        PathKind::Directory => Ok(()),
        _ => Err(AudioMetadataError::ProjectNotDirectory(string_of(project_root))),
    }
}

/// The refusal of a path value that leaves the project.
pub open spec fn is_path_refusal(e: AudioMetadataError, field: Seq<char>, value: Seq<char>) -> bool {
    e matches AudioMetadataError::InvalidAudioPath { field: f, value: v } && f@ == field && v@ == value
}

// ---------------------------------------------------------------------------
// Attaching a recording
// ---------------------------------------------------------------------------

/// A recording to attach to a project: where its metadata goes, and what it says.
#[derive(Debug, Clone)]
pub struct AttachRecordingOptions {
    pub project_root: String,
    pub metadata_root: String,
    pub id: String,
    pub title: String,
    pub master: String,
    pub published: String,
    pub feed: String,
    pub entry_id: String,
    pub mime_type: String,
}

/// A recording attached to a project.
#[derive(Debug, Clone)]
pub struct AttachedRecording {
    pub id: String,
    pub title: String,
    pub metadata_path: String,
    pub metadata_relative_path: String,
    pub master: String,
    pub published: String,
    pub feed: String,
    pub entry_id: String,
    pub mime_type: String,
}

/// What the file system shows for an attachment: the project root, whether
/// the master and the published copy are files, and whether the metadata
/// file is already there.
#[derive(Debug, Clone, Copy)]
pub struct AttachFacts {
    pub root: PathKind,
    pub master_is_file: bool,
    pub published_is_file: bool,
    pub metadata_exists: bool,
}

/// An attachment ready to be written: the recording, and the metadata text
/// that goes to `recording.metadata_path`.
#[derive(Debug)]
pub struct AttachPlan {
    pub recording: AttachedRecording,
    pub text: String,
}

/// The metadata file of an attached recording, relative to the project.
pub open spec fn attached_metadata_path(o: AttachRecordingOptions) -> Seq<char> {
    joined_path(o.metadata_root@, o.id@ + ".toml"@)
}

/// Where an attached recording's metadata goes, relative to the project.
pub fn attached_metadata_relative_path(o: &AttachRecordingOptions) -> (r: String)
    ensures
        r@ == attached_metadata_path(*o),
{
    let mut file_name = o.id.clone();
    file_name.append(".toml");
    path_join(o.metadata_root.as_str(), file_name.as_str())
}

/// The metadata text of an attached recording.
pub open spec fn attached_recording_text(o: AttachRecordingOptions) -> Seq<char> {
    "[recording]\n"@ + toml_line("id"@, o.id@) + toml_line("title"@, o.title@) + toml_line(
        "master"@,
        o.master@,
    ) + toml_line("published"@, o.published@) + "\n[publication]\n"@ + toml_line("feed"@, o.feed@)
        + toml_line("entry_id"@, o.entry_id@) + toml_line("mime_type"@, o.mime_type@)
}

/// The attachment that `o` gives once every check passed.
pub open spec fn is_attach_plan(o: AttachRecordingOptions, p: AttachPlan) -> bool {
    let rel = attached_metadata_path(o);
    &&& p.recording.id@ == o.id@
    &&& p.recording.title@ == o.title@
    &&& p.recording.metadata_relative_path@ == rel
    &&& p.recording.metadata_path@ == joined_path(o.project_root@, rel)
    &&& p.recording.master@ == o.master@
    &&& p.recording.published@ == o.published@
    &&& p.recording.feed@ == o.feed@
    &&& p.recording.entry_id@ == o.entry_id@
    &&& p.recording.mime_type@ == o.mime_type@
    &&& p.text@ == attached_recording_text(o)
}

fn render_attached_recording(o: &AttachRecordingOptions) -> (r: String)
    ensures
        r@ == attached_recording_text(*o),
{
    let mut m = string_of("[recording]\n");
    append_toml_line(&mut m, "id", o.id.as_str());
    append_toml_line(&mut m, "title", o.title.as_str());
    append_toml_line(&mut m, "master", o.master.as_str());
    append_toml_line(&mut m, "published", o.published.as_str());
    m.append("\n[publication]\n");
    append_toml_line(&mut m, "feed", o.feed.as_str());
    append_toml_line(&mut m, "entry_id", o.entry_id.as_str());
    append_toml_line(&mut m, "mime_type", o.mime_type.as_str());
    m
}

/// What attaching a recording gives: the error of the first check that
/// fails, or the attachment.
pub open spec fn attach_outcome(
    o: AttachRecordingOptions,
    facts: AttachFacts,
    r: Result<AttachPlan, AudioMetadataError>,
) -> bool {
    if facts.root == PathKind::Missing {
        r matches Err(AudioMetadataError::ProjectNotFound(p)) && p@ == o.project_root@
    } else if facts.root != PathKind::Directory {
        r matches Err(AudioMetadataError::ProjectNotDirectory(p)) && p@ == o.project_root@
    } else if !is_valid_id(o.id@) {
        r matches Err(AudioMetadataError::InvalidRecordingId(v)) && v@ == o.id@
    } else if !is_inside_path(o.metadata_root@) {
        r matches Err(e) && is_path_refusal(e, "audio.metadata"@, o.metadata_root@)
    } else if !is_inside_path(o.master@) {
        r matches Err(e) && is_path_refusal(e, "recording.master"@, o.master@)
    } else if !is_inside_path(o.published@) {
        r matches Err(e) && is_path_refusal(e, "recording.published"@, o.published@)
    } else if !is_inside_path(o.feed@) {
        r matches Err(e) && is_path_refusal(e, "publication.feed"@, o.feed@)
    } else if !facts.master_is_file {
        r matches Err(AudioMetadataError::AudioFileMissing { path }) && path@ == o.master@
    } else if !facts.published_is_file {
        r matches Err(AudioMetadataError::AudioFileMissing { path }) && path@ == o.published@
    } else if facts.metadata_exists {
        r matches Err(AudioMetadataError::MetadataAlreadyExists(p)) && p@ == joined_path(
            o.project_root@,
            attached_metadata_path(o),
        )
    } else {
        r matches Ok(p) && is_attach_plan(o, p)
    }
}

/// Checks a recording to attach, in order: the project root, the id, the
/// metadata directory and the audio and feed paths, that both audio files
/// exist, and that no metadata is there yet; then gives the metadata to write.
pub fn attach_recording(o: &AttachRecordingOptions, facts: AttachFacts) -> (r: Result<
    AttachPlan,
    AudioMetadataError,
>)
    ensures
        attach_outcome(*o, facts, r),
{
    if let Err(e) = check_project_root(o.project_root.as_str(), facts.root) {
        return Err(e);
    }
    if let Err(e) = validate_recording_id_for_write(o.id.as_str()) {
        return Err(e);
    }
    if let Err(e) = validate_audio_path_for_write("audio.metadata", o.metadata_root.as_str()) {
        return Err(e);
    }
    if let Err(e) = validate_audio_path_for_write("recording.master", o.master.as_str()) {
        return Err(e);
    }
    if let Err(e) = validate_audio_path_for_write("recording.published", o.published.as_str()) {
        return Err(e);
    }
    if let Err(e) = validate_audio_path_for_write("publication.feed", o.feed.as_str()) {
        return Err(e);
    }
    if !facts.master_is_file {
        return Err(AudioMetadataError::AudioFileMissing { path: o.master.clone() });
    }
    if !facts.published_is_file {
        return Err(AudioMetadataError::AudioFileMissing { path: o.published.clone() });
    }
    let rel = attached_metadata_relative_path(o);
    let metadata_path = path_join(o.project_root.as_str(), rel.as_str());
    if facts.metadata_exists {
        return Err(AudioMetadataError::MetadataAlreadyExists(metadata_path));
    }
    let text = render_attached_recording(o);
    Ok(
        AttachPlan {
            recording: AttachedRecording {
                id: o.id.clone(),
                title: o.title.clone(),
                metadata_path,
                metadata_relative_path: rel,
                master: o.master.clone(),
                published: o.published.clone(),
                feed: o.feed.clone(),
                entry_id: o.entry_id.clone(),
                mime_type: o.mime_type.clone(),
            },
            text,
        },
    )
}

// ---------------------------------------------------------------------------
// Updating a recording
// ---------------------------------------------------------------------------

/// New values for a recording's metadata file.
#[derive(Debug, Clone)]
pub struct UpdateRecordingOptions {
    pub project_root: String,
    pub recording_metadata_path: String,
    pub title: String,
    pub master: String,
    pub published: String,
    pub feed: String,
    pub entry_id: String,
    pub mime_type: String,
}

/// A recording whose metadata was rewritten.
#[derive(Debug, Clone)]
pub struct UpdatedRecording {
    pub id: String,
    pub title: String,
    pub metadata_path: String,
    pub metadata_relative_path: String,
    pub master: String,
    pub published: String,
    pub feed: String,
    pub entry_id: String,
    pub mime_type: String,
}

/// What an update reads from the project: the root, the metadata as loaded
/// (or the failure to load it), the metadata file's path relative to the
/// root (`None` when it lies outside), and whether the audio files exist.
#[derive(Debug)]
pub struct UpdateRecordingFacts {
    pub root: PathKind,
    pub existing: Result<AudioMetadata, AudioMetadataError>,
    pub metadata_relative_path: Option<String>,
    pub master_is_file: bool,
    pub published_is_file: bool,
}

/// An update ready to be written: the recording, and the text that replaces
/// the file at `recording.metadata_path`.
#[derive(Debug)]
pub struct UpdateRecordingPlan {
    pub recording: UpdatedRecording,
    pub text: String,
}

/// A `key = n` line of TOML, or nothing without a value.
pub open spec fn number_line(key: Seq<char>, value: Option<nat>) -> Seq<char> {
    match value {
        Some(n) => key + " = "@ + decimal(n) + "\n"@,
        None => Seq::empty(),
    }
}

/// The metadata text of an updated recording: the new values, with the id
/// and the measurements of the existing metadata.
pub open spec fn updated_recording_text(o: UpdateRecordingOptions, existing: AudioMetadata) -> Seq<
    char,
> {
    let r = existing.recording;
    "[recording]\n"@ + toml_line("id"@, r.id@) + toml_line("title"@, o.title@) + toml_line(
        "master"@,
        o.master@,
    ) + toml_line("published"@, o.published@) + number_line(
        "duration_seconds"@,
        match r.duration_seconds {
            Some(n) => Some(n as nat),
            None => None,
        },
    ) + number_line(
        "channels"@,
        match r.channels {
            Some(n) => Some(n as nat),
            None => None,
        },
    ) + number_line(
        "sample_rate"@,
        match r.sample_rate {
            Some(n) => Some(n as nat),
            None => None,
        },
    ) + "\n[publication]\n"@ + toml_line("feed"@, o.feed@) + toml_line("entry_id"@, o.entry_id@)
        + toml_line("mime_type"@, o.mime_type@)
}

fn append_number_line(out: &mut String, key: &str, value: Option<u64>)
    ensures
        final(out)@ == old(out)@ + number_line(
            key@,
            match value {
                Some(n) => Some(n as nat),
                None => None,
            },
        ),
{
    match value {
        Some(n) => {
            out.append(key);
            out.append(" = ");
            append_decimal(out, n);
            out.append("\n");
        },
        None => {
            assert(out@ =~= out@ + Seq::<char>::empty());
        },
    }
}

fn render_updated_recording(o: &UpdateRecordingOptions, existing: &AudioMetadata) -> (r: String)
    ensures
        r@ == updated_recording_text(*o, *existing),
{
    let rec = &existing.recording;
    let mut m = string_of("[recording]\n");
    append_toml_line(&mut m, "id", rec.id.as_str());
    append_toml_line(&mut m, "title", o.title.as_str());
    append_toml_line(&mut m, "master", o.master.as_str());
    append_toml_line(&mut m, "published", o.published.as_str());
    append_number_line(&mut m, "duration_seconds", rec.duration_seconds);
    let channels: Option<u64> = match rec.channels {
        Some(n) => Some(n as u64),
        None => None,
    };
    append_number_line(&mut m, "channels", channels);
    let sample_rate: Option<u64> = match rec.sample_rate {
        Some(n) => Some(n as u64),
        None => None,
    };
    append_number_line(&mut m, "sample_rate", sample_rate);
    m.append("\n[publication]\n");
    append_toml_line(&mut m, "feed", o.feed.as_str());
    append_toml_line(&mut m, "entry_id", o.entry_id.as_str());
    append_toml_line(&mut m, "mime_type", o.mime_type.as_str());
    m
}

/// The update that `o` makes of `existing` once every check passed.
pub open spec fn is_update_plan(
    o: UpdateRecordingOptions,
    existing: AudioMetadata,
    rel: Seq<char>,
    p: UpdateRecordingPlan,
) -> bool {
    &&& p.recording.id@ == existing.recording.id@
    &&& p.recording.title@ == o.title@
    &&& p.recording.metadata_path@ == o.recording_metadata_path@
    &&& p.recording.metadata_relative_path@ == rel
    &&& p.recording.master@ == o.master@
    &&& p.recording.published@ == o.published@
    &&& p.recording.feed@ == o.feed@
    &&& p.recording.entry_id@ == o.entry_id@
    &&& p.recording.mime_type@ == o.mime_type@
    &&& p.text@ == updated_recording_text(o, existing)
}

/// What updating `existing` with `o` gives once the project root is a
/// directory and the metadata loaded.
pub open spec fn update_outcome(
    o: UpdateRecordingOptions,
    m: AudioMetadata,
    facts: UpdateRecordingFacts,
    r: Result<UpdateRecordingPlan, AudioMetadataError>,
) -> bool {
    if !is_valid_id(m.recording.id@) {
        r matches Err(AudioMetadataError::InvalidRecordingId(v)) && v@ == m.recording.id@
    } else if is_blank(o.title@) {
        r matches Err(AudioMetadataError::MissingRecordingTitle)
    } else if !is_inside_path(o.master@) {
        r matches Err(e) && is_path_refusal(e, "recording.master"@, o.master@)
    } else if !is_inside_path(o.published@) {
        r matches Err(e) && is_path_refusal(e, "recording.published"@, o.published@)
    } else if !is_inside_path(o.feed@) {
        r matches Err(e) && is_path_refusal(e, "publication.feed"@, o.feed@)
    } else if is_blank(o.entry_id@) {
        r matches Err(AudioMetadataError::MissingPublicationField(f)) && f@
            == "publication.entry_id"@
    } else if is_blank(o.mime_type@) {
        r matches Err(AudioMetadataError::MissingPublicationField(f)) && f@
            == "publication.mime_type"@
    } else {
        match facts.metadata_relative_path {
            None => r matches Err(e) && is_path_refusal(
                e,
                "recording.metadata"@,
                o.recording_metadata_path@,
            ),
            Some(rel) => if !is_inside_path(rel@) {
                r matches Err(e) && is_path_refusal(e, "recording.metadata"@, rel@)
            } else if !facts.master_is_file {
                r matches Err(AudioMetadataError::AudioFileMissing { path }) && path@ == o.master@
            } else if !facts.published_is_file {
                r matches Err(AudioMetadataError::AudioFileMissing { path }) && path@
                    == o.published@
            } else {
                r matches Ok(p) && is_update_plan(o, m, rel@, p)
            },
        }
    }
}

/// Checks an update of a recording's metadata, in order: the project root,
/// the existing metadata and its id, the new title, paths and publication
/// values, where the metadata file is, and that both audio files exist; then
/// gives the text that replaces the metadata, keeping its id and measurements.
pub fn update_recording_metadata(o: &UpdateRecordingOptions, facts: UpdateRecordingFacts) -> (r: Result<
    UpdateRecordingPlan,
    AudioMetadataError,
>)
    ensures
        if facts.root == PathKind::Missing {
            r matches Err(AudioMetadataError::ProjectNotFound(p)) && p@ == o.project_root@
        } else if facts.root != PathKind::Directory {
            r matches Err(AudioMetadataError::ProjectNotDirectory(p)) && p@ == o.project_root@
        } else {
            match facts.existing {
                Err(e) => r == Err::<UpdateRecordingPlan, AudioMetadataError>(e),
                Ok(m) => update_outcome(*o, m, facts, r),
            }
        },
{
    if let Err(e) = check_project_root(o.project_root.as_str(), facts.root) {
        return Err(e);
    }
    let ghost f = facts;
    let UpdateRecordingFacts { root, existing, metadata_relative_path, master_is_file, published_is_file } =
        facts;
    let m = match existing {
        Err(e) => return Err(e),
        Ok(m) => m,
    };
    if let Err(e) = validate_recording_id_for_write(m.recording.id.as_str()) {
        return Err(e);
    }
    if is_blank_text(o.title.as_str()) {
        return Err(AudioMetadataError::MissingRecordingTitle);
    }
    if let Err(e) = validate_audio_path_for_write("recording.master", o.master.as_str()) {
        return Err(e);
    }
    if let Err(e) = validate_audio_path_for_write("recording.published", o.published.as_str()) {
        return Err(e);
    }
    if let Err(e) = validate_audio_path_for_write("publication.feed", o.feed.as_str()) {
        return Err(e);
    }
    if let Err(e) = validate_required_publication_value("publication.entry_id", o.entry_id.as_str()) {
        return Err(e);
    }
    if let Err(e) = validate_required_publication_value("publication.mime_type", o.mime_type.as_str()) {
        return Err(e);
    }
    let rel = match metadata_relative_path {
        None => {
            return Err(
                AudioMetadataError::InvalidAudioPath {
                    field: string_of("recording.metadata"),
                    value: o.recording_metadata_path.clone(),
                },
            );
        },
        Some(rel) => rel,
    };
    if let Err(e) = validate_audio_path_for_write("recording.metadata", rel.as_str()) {
        return Err(e);
    }
    if !master_is_file {
        return Err(AudioMetadataError::AudioFileMissing { path: o.master.clone() });
    }
    if !published_is_file {
        return Err(AudioMetadataError::AudioFileMissing { path: o.published.clone() });
    }
    let text = render_updated_recording(o, &m);
    Ok(
        UpdateRecordingPlan {
            recording: UpdatedRecording {
                id: m.recording.id,
                title: o.title.clone(),
                metadata_path: o.recording_metadata_path.clone(),
                metadata_relative_path: rel,
                master: o.master.clone(),
                published: o.published.clone(),
                feed: o.feed.clone(),
                entry_id: o.entry_id.clone(),
                mime_type: o.mime_type.clone(),
            },
            text,
        },
    )
}

// ---------------------------------------------------------------------------
// Exporting an Opus publication copy
// ---------------------------------------------------------------------------

/// The Opus export presets.
pub open spec fn is_opus_preset(value: Seq<char>) -> bool {
    value == "voice-compact"@ || value == "voice-standard"@ || value == "spoken-program"@ || value
        == "music-efficient"@ || value == "music-quality"@
}

/// The encoder arguments of a preset: channels, sample rate, bitrate and
/// application.
pub open spec fn preset_args(value: Seq<char>) -> Seq<Seq<char>> {
    if value == "voice-compact"@ {
        seq![
            "-ac"@,
            "1"@,
            "-ar"@,
            "48000"@,
            "-b:a"@,
            "32k"@,
            "-application"@,
            "voip"@,
        ]
    } else if value == "voice-standard"@ {
        seq![
            "-ac"@,
            "1"@,
            "-ar"@,
            "48000"@,
            "-b:a"@,
            "48k"@,
            "-application"@,
            "voip"@,
        ]
    } else if value == "spoken-program"@ {
        seq![
            "-ac"@,
            "1"@,
            "-ar"@,
            "48000"@,
            "-b:a"@,
            "64k"@,
            "-application"@,
            "audio"@,
        ]
    } else if value == "music-efficient"@ {
        seq!["-ar"@, "48000"@, "-b:a"@, "96k"@, "-application"@, "audio"@]
    } else {
        seq!["-ar"@, "48000"@, "-b:a"@, "160k"@, "-application"@, "audio"@]
    }
}

/// Refuses a preset that is not one of the Opus export presets.
pub fn validate_opus_preset(value: &str) -> (r: Result<(), AudioMetadataError>)
    ensures
        match r {
            Ok(()) => is_opus_preset(value@),
            Err(AudioMetadataError::UnsupportedOpusPreset(v)) => !is_opus_preset(value@) && v@
                == value@,
            Err(_) => false,
        },
{
    if text_eq(value, "voice-compact") || text_eq(value, "voice-standard") || text_eq(
        value,
        "spoken-program",
    ) || text_eq(value, "music-efficient") || text_eq(value, "music-quality") {
        Ok(())
    } else {
        Err(AudioMetadataError::UnsupportedOpusPreset(string_of(value)))
    }
}

fn push_args(args: &mut Vec<String>, items: &[&str])
    ensures
        texts(final(args)@) == texts(old(args)@) + items@.map_values(|t: &str| t@),
{
    let mut i: usize = 0;
    let ghost start = texts(args@);
    while i < items.len()
        invariant
            i <= items@.len(),
            texts(args@) == start + items@.map_values(|t: &str| t@).take(i as int),
        decreases items@.len() - i,
    {
        let ghost before = texts(args@);
        args.push(string_of(items[i]));
        assert(texts(args@) =~= before.push(items@[i as int]@));
        assert(items@.map_values(|t: &str| t@).take(i + 1) =~= items@.map_values(|t: &str| t@).take(
            i as int,
        ).push(items@[i as int]@));
        i = i + 1;
    }
    assert(items@.map_values(|t: &str| t@).take(items@.len() as int) =~= items@.map_values(
        |t: &str| t@,
    ));
}

/// The encoder arguments of a preset.
pub fn opus_preset_args(value: &str) -> (r: Result<Vec<String>, AudioMetadataError>)
    ensures
        match r {
            Ok(args) => is_opus_preset(value@) && texts(args@) == preset_args(value@),
            Err(AudioMetadataError::UnsupportedOpusPreset(v)) => !is_opus_preset(value@) && v@
                == value@,
            Err(_) => false,
        },
{
    let mut args: Vec<String> = Vec::new();
    let items: &[&str] = if text_eq(value, "voice-compact") {
        &["-ac", "1", "-ar", "48000", "-b:a", "32k", "-application", "voip"]
    } else if text_eq(value, "voice-standard") {
        &["-ac", "1", "-ar", "48000", "-b:a", "48k", "-application", "voip"]
    } else if text_eq(value, "spoken-program") {
        &["-ac", "1", "-ar", "48000", "-b:a", "64k", "-application", "audio"]
    } else if text_eq(value, "music-efficient") {
        &["-ar", "48000", "-b:a", "96k", "-application", "audio"]
    } else if text_eq(value, "music-quality") {
        &["-ar", "48000", "-b:a", "160k", "-application", "audio"]
    } else {
        return Err(AudioMetadataError::UnsupportedOpusPreset(string_of(value)));
    };
    push_args(&mut args, items);
    Ok(args)
}

/// The arguments of the encoder run that turns the master at `master_path`
/// into an Opus file at `output_path` with a preset.
pub open spec fn encoder_args(master_path: Seq<char>, preset: Seq<char>, output_path: Seq<char>) -> Seq<
    Seq<char>,
> {
    seq!["-nostdin"@, "-hide_banner"@, "-loglevel"@, "error"@, "-y"@, "-i"@, master_path]
        + seq!["-vn"@, "-c:a"@, "libopus"@] + preset_args(preset) + seq!["-f"@, "opus"@, output_path]
}

/// The encoder arguments that export the master at `master_path` to
/// `output_path` with a preset.
pub fn opus_encoder_args(master_path: &str, preset: &str, output_path: &str) -> (r: Result<
    Vec<String>,
    AudioMetadataError,
>)
    ensures
        match r {
            Ok(args) => is_opus_preset(preset@) && texts(args@) == encoder_args(
                master_path@,
                preset@,
                output_path@,
            ),
            Err(AudioMetadataError::UnsupportedOpusPreset(v)) => !is_opus_preset(preset@) && v@
                == preset@,
            Err(_) => false,
        },
{
    let preset_part = match opus_preset_args(preset) {
        Err(e) => return Err(e),
        Ok(a) => a,
    };
    let mut args: Vec<String> = Vec::new();
    push_args(&mut args, &["-nostdin", "-hide_banner", "-loglevel", "error", "-y", "-i"]);
    let ghost a0 = texts(args@);
    assert(a0 =~= seq!["-nostdin"@, "-hide_banner"@, "-loglevel"@, "error"@, "-y"@, "-i"@]);
    args.push(string_of(master_path));
    let ghost a1 = texts(args@);
    assert(a1 =~= a0.push(master_path@));
    assert(a1 =~= seq!["-nostdin"@, "-hide_banner"@, "-loglevel"@, "error"@, "-y"@, "-i"@, master_path@]);
    push_args(&mut args, &["-vn", "-c:a", "libopus"]);
    let ghost a2 = texts(args@);
    assert(a2 =~= a1 + seq!["-vn"@, "-c:a"@, "libopus"@]);
    let mut preset_part = preset_part;
    let ghost pp = preset_part@;
    args.append(&mut preset_part);
    let ghost a3 = texts(args@);
    assert(a3 =~= a2 + texts(pp));
    push_args(&mut args, &["-f", "opus"]);
    let ghost a4 = texts(args@);
    assert(a4 =~= a3 + seq!["-f"@, "opus"@]);
    args.push(string_of(output_path));
    assert(texts(args@) =~= a4.push(output_path@));
    assert(texts(args@) =~= encoder_args(master_path@, preset@, output_path@));
    Ok(args)
}

/// A master to export as an Opus publication copy, with a preset.
#[derive(Debug, Clone)]
pub struct ExportOpusOptions {
    pub project_root: String,
    pub master: String,
    pub published: String,
    pub preset: String,
}

/// An exported publication copy.
#[derive(Debug, Clone)]
pub struct ExportedPublicationCopy {
    pub master: String,
    pub published: String,
    pub output_path: String,
    pub output_relative_path: String,
    pub preset: String,
    pub mime_type: String,
    pub engine: String,
}

/// What an export reads from the project: the root, whether the master is a
/// file, and whether the copy is already there.
#[derive(Debug, Clone, Copy)]
pub struct ExportFacts {
    pub root: PathKind,
    pub master_is_file: bool,
    pub output_exists: bool,
}

/// The copy that `o` exports once every check passed.
pub open spec fn is_exported_copy(o: ExportOpusOptions, c: ExportedPublicationCopy) -> bool {
    &&& c.master@ == o.master@
    &&& c.published@ == o.published@
    &&& c.output_path@ == joined_path(o.project_root@, o.published@)
    &&& c.output_relative_path@ == o.published@
    &&& c.preset@ == o.preset@
    &&& c.mime_type@ == "audio/ogg; codecs=opus"@
    &&& c.engine@ == "ffmpeg"@
}

/// Checks an Opus export, in order: the project root, the master and copy
/// paths, the preset, that the copy is an `.opus` file, that the master
/// exists and that the copy does not; then describes the copy to make.
pub fn export_opus_publication_copy(o: &ExportOpusOptions, facts: ExportFacts) -> (r: Result<
    ExportedPublicationCopy,
    AudioMetadataError,
>)
    ensures
        if facts.root == PathKind::Missing {
            r matches Err(AudioMetadataError::ProjectNotFound(p)) && p@ == o.project_root@
        } else if facts.root != PathKind::Directory {
            r matches Err(AudioMetadataError::ProjectNotDirectory(p)) && p@ == o.project_root@
        } else if !is_inside_path(o.master@) {
            r matches Err(e) && is_path_refusal(e, "recording.master"@, o.master@)
        } else if !is_inside_path(o.published@) {
            r matches Err(e) && is_path_refusal(e, "recording.published"@, o.published@)
        } else if !is_opus_preset(o.preset@) {
            r matches Err(AudioMetadataError::UnsupportedOpusPreset(v)) && v@ == o.preset@
        } else if !ends_with_text(o.published@, ".opus"@) {
            r matches Err(AudioMetadataError::InvalidPublicationCopyPath(v)) && v@ == o.published@
        } else if !facts.master_is_file {
            r matches Err(AudioMetadataError::AudioFileMissing { path }) && path@ == o.master@
        } else if facts.output_exists {
            r matches Err(AudioMetadataError::PublicationCopyAlreadyExists(p)) && p@ == joined_path(
                o.project_root@,
                o.published@,
            )
        } else {
            r matches Ok(c) && is_exported_copy(*o, c)
        },
{
    if let Err(e) = check_project_root(o.project_root.as_str(), facts.root) {
        return Err(e);
    }
    if let Err(e) = validate_audio_path_for_write("recording.master", o.master.as_str()) {
        return Err(e);
    }
    if let Err(e) = validate_audio_path_for_write("recording.published", o.published.as_str()) {
        return Err(e);
    }
    if let Err(e) = validate_opus_preset(o.preset.as_str()) {
        return Err(e);
    }
    if !ends_with_exec(o.published.as_str(), ".opus") {
        return Err(AudioMetadataError::InvalidPublicationCopyPath(o.published.clone()));
    }
    if !facts.master_is_file {
        return Err(AudioMetadataError::AudioFileMissing { path: o.master.clone() });
    }
    let output_path = path_join(o.project_root.as_str(), o.published.as_str());
    if facts.output_exists {
        return Err(AudioMetadataError::PublicationCopyAlreadyExists(output_path));
    }
    Ok(
        ExportedPublicationCopy {
            master: o.master.clone(),
            published: o.published.clone(),
            output_path,
            output_relative_path: o.published.clone(),
            preset: o.preset.clone(),
            mime_type: string_of("audio/ogg; codecs=opus"),
            engine: string_of("ffmpeg"),
        },
    )
}

/// The failure of an encoder run that ended with `status`, with what it
/// wrote to its error stream, trimmed.
pub fn encoder_failure(status: Option<i32>, stderr: &str) -> (r: AudioMetadataError)
    ensures
        r matches AudioMetadataError::OpusEncoderFailed { status: s, stderr: e } && s == status
            && e@ == trimmed(stderr@),
{
    let n = stderr.unicode_len();
    let text = trimmed_substring(stderr, 0, n);
    assert(stderr@.subrange(0, n as int) =~= stderr@);
    AudioMetadataError::OpusEncoderFailed { status, stderr: text }
}

// ---------------------------------------------------------------------------
// Preparing and updating feed entries
// ---------------------------------------------------------------------------

/// A recording whose feed entry to write, with the entry's update time and summary.
#[derive(Debug, Clone)]
pub struct PrepareFeedEntryOptions {
    pub project_root: String,
    pub recording_metadata_path: String,
    pub updated: String,
    pub summary: String,
}

/// A recording whose feed entry to rewrite, with the entry's update time and summary.
#[derive(Debug, Clone)]
pub struct UpdateFeedEntryOptions {
    pub project_root: String,
    pub recording_metadata_path: String,
    pub updated: String,
    pub summary: String,
}

/// A feed entry written for a recording.
#[derive(Debug, Clone)]
pub struct PreparedFeedEntry {
    pub recording_id: String,
    pub title: String,
    pub entry_id: String,
    pub feed: String,
    pub output_path: String,
    pub output_relative_path: String,
    pub published: String,
    pub mime_type: String,
    pub updated: String,
}

/// A feed entry rewritten for a recording.
#[derive(Debug, Clone)]
pub struct UpdatedFeedEntry {
    pub recording_id: String,
    pub title: String,
    pub entry_id: String,
    pub feed: String,
    pub output_path: String,
    pub output_relative_path: String,
    pub published: String,
    pub mime_type: String,
    pub updated: String,
}

/// What writing a feed entry reads from the project: the root, the
/// recording's metadata as loaded (or the failure to load it), its path
/// relative to the root (`None` when it lies outside), whether the published
/// copy is a file, and what is at the entry's path.
#[derive(Debug)]
pub struct FeedEntryFacts {
    pub root: PathKind,
    pub metadata: Result<AudioMetadata, AudioMetadataError>,
    pub metadata_relative_path: Option<String>,
    pub published_is_file: bool,
    pub output: PathKind,
}

/// A feed entry ready to be written: the entry, and the text that goes to
/// `entry.output_path`.
#[derive(Debug)]
pub struct PrepareFeedEntryPlan {
    pub entry: PreparedFeedEntry,
    pub text: String,
}

/// A feed entry ready to be rewritten: the entry, and the text that replaces
/// the file at `entry.output_path`.
#[derive(Debug)]
pub struct UpdateFeedEntryPlan {
    pub entry: UpdatedFeedEntry,
    pub text: String,
}

/// The first publication value that recording metadata lacks, if any.
pub open spec fn missing_publication_field(m: AudioMetadata) -> Option<Seq<char>> {
    match m.publication {
        None => Some("publication"@),
        Some(p) => if p.feed is None {
            Some("publication.feed"@)
        } else if p.entry_id is None {
            Some("publication.entry_id"@)
        } else if p.mime_type is None {
            Some("publication.mime_type"@)
        } else if m.recording.published is None {
            Some("recording.published"@)
        } else {
            None
        },
    }
}

pub open spec fn pub_feed(m: AudioMetadata) -> Seq<char> {
    m.publication->Some_0.feed->Some_0@
}

pub open spec fn pub_entry_id(m: AudioMetadata) -> Seq<char> {
    m.publication->Some_0.entry_id->Some_0@
}

pub open spec fn pub_mime_type(m: AudioMetadata) -> Seq<char> {
    m.publication->Some_0.mime_type->Some_0@
}

pub open spec fn pub_published(m: AudioMetadata) -> Seq<char> {
    m.recording.published->Some_0@
}

/// Whether every check before the entry's own path passes.
pub open spec fn feed_entry_source_ok(facts: FeedEntryFacts) -> bool {
    &&& facts.root == PathKind::Directory
    &&& facts.metadata is Ok
    &&& facts.metadata_relative_path matches Some(rel) && is_inside_path(rel@)
    &&& missing_publication_field(facts.metadata->Ok_0) is None
    &&& is_inside_path(pub_feed(facts.metadata->Ok_0))
    &&& is_inside_path(pub_published(facts.metadata->Ok_0))
    &&& facts.published_is_file
}

/// The error of the first check that fails: the project root, the metadata,
/// where it is, its publication values, the feed and published paths, and
/// the published copy.
pub open spec fn feed_entry_source_refusal(
    project_root: Seq<char>,
    metadata_path: Seq<char>,
    facts: FeedEntryFacts,
    err: AudioMetadataError,
) -> bool {
    if facts.root == PathKind::Missing {
        err matches AudioMetadataError::ProjectNotFound(p) && p@ == project_root
    } else if facts.root != PathKind::Directory {
        err matches AudioMetadataError::ProjectNotDirectory(p) && p@ == project_root
    } else {
        match facts.metadata {
            Err(e) => err == e,
            Ok(m) => match facts.metadata_relative_path {
                None => is_path_refusal(err, "recording.metadata"@, metadata_path),
                Some(rel) => if !is_inside_path(rel@) {
                    is_path_refusal(err, "recording.metadata"@, rel@)
                } else {
                    match missing_publication_field(m) {
                        Some(f) => err matches AudioMetadataError::MissingPublicationField(g) && g@
                            == f,
                        None => if !is_inside_path(pub_feed(m)) {
                            is_path_refusal(err, "publication.feed"@, pub_feed(m))
                        } else if !is_inside_path(pub_published(m)) {
                            is_path_refusal(err, "recording.published"@, pub_published(m))
                        } else {
                            err matches AudioMetadataError::AudioFileMissing { path } && path@
                                == pub_published(m)
                        },
                    }
                },
            },
        }
    }
}

/// The entry file of a recording, relative to the project.
pub open spec fn entry_output_path(m: AudioMetadata) -> Seq<char> {
    joined_path("feeds/entries"@, m.recording.id@ + ".toml"@)
}

/// Where a recording's feed entry goes, relative to the project.
pub fn feed_entry_relative_path(m: &AudioMetadata) -> (r: String)
    ensures
        r@ == entry_output_path(*m),
{
    let mut file_name = m.recording.id.clone();
    file_name.append(".toml");
    path_join("feeds/entries", file_name.as_str())
}

/// The text of a recording's feed entry.
pub open spec fn feed_entry_text(
    m: AudioMetadata,
    rel: Seq<char>,
    updated: Seq<char>,
    summary: Seq<char>,
) -> Seq<char> {
    "[entry]\n"@ + toml_line("id"@, pub_entry_id(m)) + toml_line("title"@, m.recording.title@)
        + toml_line("updated"@, updated) + toml_line("summary"@, summary) + toml_line(
        "feed"@,
        pub_feed(m),
    ) + toml_line("recording"@, m.recording.id@) + toml_line("recording_metadata"@, rel)
        + "\n[enclosure]\n"@ + toml_line("path"@, pub_published(m)) + toml_line(
        "mime_type"@,
        pub_mime_type(m),
    )
}

/// The values that both a prepared and an updated entry report.
pub struct EntryValues {
    pub recording_id: String,
    pub title: String,
    pub entry_id: String,
    pub feed: String,
    pub output_path: String,
    pub output_relative_path: String,
    pub published: String,
    pub mime_type: String,
    pub text: String,
}

pub open spec fn is_entry_values(
    project_root: Seq<char>,
    m: AudioMetadata,
    rel: Seq<char>,
    updated: Seq<char>,
    summary: Seq<char>,
    v: EntryValues,
) -> bool {
    &&& v.recording_id@ == m.recording.id@
    &&& v.title@ == m.recording.title@
    &&& v.entry_id@ == pub_entry_id(m)
    &&& v.feed@ == pub_feed(m)
    &&& v.output_relative_path@ == entry_output_path(m)
    &&& v.output_path@ == joined_path(project_root, entry_output_path(m))
    &&& v.published@ == pub_published(m)
    &&& v.mime_type@ == pub_mime_type(m)
    &&& v.text@ == feed_entry_text(m, rel, updated, summary)
}

fn required_publication_text(field: &'static str, value: &Option<String>) -> (r: Result<
    String,
    AudioMetadataError,
>)
    ensures
        match r {
            Ok(v) => *value == Some(v),
            Err(e) => value is None && e == AudioMetadataError::MissingPublicationField(field),
        },
{
    match value {
        Some(v) => Ok(v.clone()),
        None => Err(AudioMetadataError::MissingPublicationField(field)),
    }
}

/// Runs the checks before the entry's own path and gathers what the entry says.
fn feed_entry_values(
    project_root: &str,
    metadata_path: &str,
    updated: &str,
    summary: &str,
    facts: FeedEntryFacts,
) -> (r: Result<EntryValues, AudioMetadataError>)
    ensures
        match r {
            Ok(v) => feed_entry_source_ok(facts) && is_entry_values(
                project_root@,
                facts.metadata->Ok_0,
                facts.metadata_relative_path->Some_0@,
                updated@,
                summary@,
                v,
            ),
            Err(e) => !feed_entry_source_ok(facts) && feed_entry_source_refusal(
                project_root@,
                metadata_path@,
                facts,
                e,
            ),
        },
{
    if let Err(e) = check_project_root(project_root, facts.root) {
        return Err(e);
    }
    let ghost f = facts;
    let FeedEntryFacts { root, metadata, metadata_relative_path, published_is_file, output } = facts;
    let m = match metadata {
        Err(e) => return Err(e),
        Ok(m) => m,
    };
    let rel = match metadata_relative_path {
        None => {
            return Err(
                AudioMetadataError::InvalidAudioPath {
                    field: string_of("recording.metadata"),
                    value: string_of(metadata_path),
                },
            );
        },
        Some(rel) => rel,
    };
    if let Err(e) = validate_audio_path_for_write("recording.metadata", rel.as_str()) {
        return Err(e);
    }
    let publication = match &m.publication {
        None => return Err(AudioMetadataError::MissingPublicationField("publication")),
        Some(p) => p,
    };
    let feed = match required_publication_text("publication.feed", &publication.feed) {
        Err(e) => return Err(e),
        Ok(v) => v,
    };
    let entry_id = match required_publication_text("publication.entry_id", &publication.entry_id) {
        Err(e) => return Err(e),
        Ok(v) => v,
    };
    let mime_type = match required_publication_text("publication.mime_type", &publication.mime_type) {
        Err(e) => return Err(e),
        Ok(v) => v,
    };
    let published = match required_publication_text("recording.published", &m.recording.published) {
        Err(e) => return Err(e),
        Ok(v) => v,
    };
    if let Err(e) = validate_audio_path_for_write("publication.feed", feed.as_str()) {
        return Err(e);
    }
    if let Err(e) = validate_audio_path_for_write("recording.published", published.as_str()) {
        return Err(e);
    }
    if !published_is_file {
        return Err(AudioMetadataError::AudioFileMissing { path: published });
    }
    let output_relative_path = feed_entry_relative_path(&m);
    let output_path = path_join(project_root, output_relative_path.as_str());
    let mut text = string_of("[entry]\n");
    append_toml_line(&mut text, "id", entry_id.as_str());
    append_toml_line(&mut text, "title", m.recording.title.as_str());
    append_toml_line(&mut text, "updated", updated);
    append_toml_line(&mut text, "summary", summary);
    append_toml_line(&mut text, "feed", feed.as_str());
    append_toml_line(&mut text, "recording", m.recording.id.as_str());
    append_toml_line(&mut text, "recording_metadata", rel.as_str());
    text.append("\n[enclosure]\n");
    append_toml_line(&mut text, "path", published.as_str());
    append_toml_line(&mut text, "mime_type", mime_type.as_str());
    Ok(
        EntryValues {
            recording_id: m.recording.id.clone(),
            title: m.recording.title.clone(),
            entry_id,
            feed,
            output_path,
            output_relative_path,
            published,
            mime_type,
            text,
        },
    )
}

/// The entry that preparing `o` gives once every check passed.
pub open spec fn is_prepare_plan(
    o: PrepareFeedEntryOptions,
    m: AudioMetadata,
    rel: Seq<char>,
    p: PrepareFeedEntryPlan,
) -> bool {
    &&& p.entry.recording_id@ == m.recording.id@
    &&& p.entry.title@ == m.recording.title@
    &&& p.entry.entry_id@ == pub_entry_id(m)
    &&& p.entry.feed@ == pub_feed(m)
    &&& p.entry.output_relative_path@ == entry_output_path(m)
    &&& p.entry.output_path@ == joined_path(o.project_root@, entry_output_path(m))
    &&& p.entry.published@ == pub_published(m)
    &&& p.entry.mime_type@ == pub_mime_type(m)
    &&& p.entry.updated@ == o.updated@
    &&& p.text@ == feed_entry_text(m, rel, o.updated@, o.summary@)
}

/// Checks a recording's new feed entry, in order: the project root, the
/// recording's metadata and where it is, its publication values, the feed
/// and published paths, the published copy, and that no entry file is there
/// yet; then gives the entry to write under `feeds/entries`.
pub fn prepare_feed_entry(o: &PrepareFeedEntryOptions, facts: FeedEntryFacts) -> (r: Result<
    PrepareFeedEntryPlan,
    AudioMetadataError,
>)
    ensures
        if !feed_entry_source_ok(facts) {
            r matches Err(e) && feed_entry_source_refusal(
                o.project_root@,
                o.recording_metadata_path@,
                facts,
                e,
            )
        } else if facts.output != PathKind::Missing {
            r matches Err(AudioMetadataError::FeedEntryAlreadyExists(p)) && p@ == joined_path(
                o.project_root@,
                entry_output_path(facts.metadata->Ok_0),
            )
        } else {
            r matches Ok(p) && is_prepare_plan(
                *o,
                facts.metadata->Ok_0,
                facts.metadata_relative_path->Some_0@,
                p,
            )
        },
{
    let output = facts.output;
    let v = match feed_entry_values(
        o.project_root.as_str(),
        o.recording_metadata_path.as_str(),
        o.updated.as_str(),
        o.summary.as_str(),
        facts,
    ) {
        Err(e) => return Err(e),
        Ok(v) => v,
    };
    if output != PathKind::Missing {
        return Err(AudioMetadataError::FeedEntryAlreadyExists(v.output_path));
    }
    Ok(
        PrepareFeedEntryPlan {
            entry: PreparedFeedEntry {
                recording_id: v.recording_id,
                title: v.title,
                entry_id: v.entry_id,
                feed: v.feed,
                output_path: v.output_path,
                output_relative_path: v.output_relative_path,
                published: v.published,
                mime_type: v.mime_type,
                updated: o.updated.clone(),
            },
            text: v.text,
        },
    )
}

/// The entry that updating `o` gives once every check passed.
pub open spec fn is_update_entry_plan(
    o: UpdateFeedEntryOptions,
    m: AudioMetadata,
    rel: Seq<char>,
    p: UpdateFeedEntryPlan,
) -> bool {
    &&& p.entry.recording_id@ == m.recording.id@
    &&& p.entry.title@ == m.recording.title@
    &&& p.entry.entry_id@ == pub_entry_id(m)
    &&& p.entry.feed@ == pub_feed(m)
    &&& p.entry.output_relative_path@ == entry_output_path(m)
    &&& p.entry.output_path@ == joined_path(o.project_root@, entry_output_path(m))
    &&& p.entry.published@ == pub_published(m)
    &&& p.entry.mime_type@ == pub_mime_type(m)
    &&& p.entry.updated@ == o.updated@
    &&& p.text@ == feed_entry_text(m, rel, o.updated@, o.summary@)
}

/// Checks the rewrite of a recording's feed entry, in order: the same checks
/// as `prepare_feed_entry`, then that the entry file exists and is a file;
/// then gives the text that replaces it, drawn from the recording's metadata.
pub fn update_feed_entry(o: &UpdateFeedEntryOptions, facts: FeedEntryFacts) -> (r: Result<
    UpdateFeedEntryPlan,
    AudioMetadataError,
>)
    ensures
        if !feed_entry_source_ok(facts) {
            r matches Err(e) && feed_entry_source_refusal(
                o.project_root@,
                o.recording_metadata_path@,
                facts,
                e,
            )
        } else if facts.output == PathKind::Missing {
            r matches Err(AudioMetadataError::NotFound(p)) && p@ == joined_path(
                o.project_root@,
                entry_output_path(facts.metadata->Ok_0),
            )
        } else if facts.output != PathKind::File {
            r matches Err(AudioMetadataError::NotFile(p)) && p@ == joined_path(
                o.project_root@,
                entry_output_path(facts.metadata->Ok_0),
            )
        } else {
            r matches Ok(p) && is_update_entry_plan(
                *o,
                facts.metadata->Ok_0,
                facts.metadata_relative_path->Some_0@,
                p,
            )
        },
{
    let output = facts.output;
    let v = match feed_entry_values(
        o.project_root.as_str(),
        o.recording_metadata_path.as_str(),
        o.updated.as_str(),
        o.summary.as_str(),
        facts,
    ) {
        Err(e) => return Err(e),
        Ok(v) => v,
    };
    if output == PathKind::Missing {
        return Err(AudioMetadataError::NotFound(v.output_path));
    }
    if output != PathKind::File {
        return Err(AudioMetadataError::NotFile(v.output_path));
    }
    Ok(
        UpdateFeedEntryPlan {
            entry: UpdatedFeedEntry {
                recording_id: v.recording_id,
                title: v.title,
                entry_id: v.entry_id,
                feed: v.feed,
                output_path: v.output_path,
                output_relative_path: v.output_relative_path,
                published: v.published,
                mime_type: v.mime_type,
                updated: o.updated.clone(),
            },
            text: v.text,
        },
    )
}

// ---------------------------------------------------------------------------
// Listing recordings
// ---------------------------------------------------------------------------

/// A recording found under a metadata directory.
#[derive(Debug, Clone)]
pub struct RecordingSummary {
    pub id: String,
    pub title: String,
    pub path: String,
}

/// A metadata file found under a directory: its path and, when it parsed,
/// its metadata.
#[derive(Debug)]
pub struct RecordingFile {
    pub path: String,
    pub metadata: Option<AudioMetadata>,
}

pub open spec fn recording_summary_of(path: String, m: AudioMetadata) -> RecordingSummary {
    RecordingSummary { id: m.recording.id, title: m.recording.title, path }
}

/// The summaries of the files that parsed, in order.
pub open spec fn recording_summaries(files: Seq<RecordingFile>) -> Seq<RecordingSummary>
    decreases files.len(),
{
    if files.len() == 0 {
        Seq::empty()
    } else {
        let rest = recording_summaries(files.drop_last());
        match files.last().metadata {
            Some(m) => rest.push(recording_summary_of(files.last().path, m)),
            None => rest,
        }
    }
}

/// A list of recordings in their sort order runs by id, in text order.
pub proof fn law_sorted_recordingsummary_run_by_id(v: Seq<RecordingSummary>)
    requires
        is_sorted(v),
    ensures
        forall|i: int, j: int| 0 <= i < j < v.len() ==> lex_le((#[trigger] v[i]).id@, (#[trigger] v[j]).id@),
{
    assert forall|i: int, j: int| 0 <= i < j < v.len() implies lex_le((#[trigger] v[i]).id@, (#[trigger] v[j]).id@) by {
        assert(RecordingSummary::precedes(v[i], v[j]));
    }
}

/// By id.
impl SortOrder for RecordingSummary {
    open spec fn precedes(a: Self, b: Self) -> bool {
        lex_le(a.id@, b.id@)
    }

    proof fn precedes_transitive(a: Self, b: Self, c: Self) {
        lemma_lex_le_transitive(a.id@, b.id@, c.id@);
    }

    proof fn precedes_total(a: Self, b: Self) {
        lemma_lex_le_total(a.id@, b.id@);
    }

    fn precedes_exec(&self, other: &Self) -> (r: bool) {
        text_le(self.id.as_str(), other.id.as_str())
    }
}

/// The recordings among the metadata files of a directory, ordered by id;
/// files that did not parse are left out. A failure to read the directory
/// is handed back as it came.
pub fn list_recordings(files: Result<Vec<RecordingFile>, AudioMetadataError>) -> (r: Result<
    Vec<RecordingSummary>,
    AudioMetadataError,
>)
    ensures
        match (files, r) {
            (Err(e), Err(f)) => e == f,
            (Ok(fs), Ok(found)) => found@.to_multiset() == recording_summaries(fs@).to_multiset()
                && is_sorted(found@)
                && keeps_tie_order(found@, recording_summaries(fs@)),
            _ => false,
        },
{
    let files = match files {
        Err(e) => return Err(e),
        Ok(fs) => fs,
    };
    let ghost all = files@;
    let mut rest = files;
    let mut found: Vec<RecordingSummary> = Vec::new();
    assert(all.take(all.len() as int) =~= all);
    while rest.len() > 0
        invariant
            rest@.len() <= all.len(),
            rest@ == all.take(rest@.len() as int),
            recording_summaries(all) == recording_summaries(rest@) + found@.reverse(),
        decreases rest@.len(),
    {
        let ghost before = rest@;
        let file = rest.pop().unwrap();
        proof {
            assert(rest@ =~= all.take(rest@.len() as int));
            assert(before.drop_last() =~= rest@);
        }
        let ghost old_found = found@;
        match file.metadata {
            Some(m) => {
                found.push(
                    RecordingSummary { id: m.recording.id, title: m.recording.title, path: file.path },
                );
                assert(found@.reverse() =~= seq![found@.last()] + old_found.reverse());
            },
            None => {},
        }
    }
    assert(recording_summaries(rest@) =~= Seq::<RecordingSummary>::empty());
    proof {
        found@.lemma_reverse_to_multiset();
    }
    assert(recording_summaries(all) =~= found@.reverse());
    Ok(stable_sort(reversed(found)))
}

} // verus!
