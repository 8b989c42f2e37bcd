use vstd::prelude::*;
use crate::text::{
    concat, concat3, has_char, has_parent_component, has_parent_component_exec, is_absolute_exec,
    is_absolute_path, is_blank, is_blank_text, is_valid_id, is_valid_id_text, string_of,
};
use crate::validation::{
    add_issue, error, error_issue, issue, lemma_with_severity_append, report_of, views, warning,
    warning_issue, with_severity, IssueView, ValidationIssue,
};
pub use crate::validation::{Severity, ValidationReport};

verus! {

/// A recording's metadata sidecar (`audio/metadata/<id>.toml`).
#[derive(Debug)]
pub struct AudioMetadata {
    pub recording: RecordingSection,
    pub publication: Option<PublicationSection>,
}

#[derive(Debug)]
pub struct RecordingSection {
    pub id: String,
    pub title: String,
    pub master: String,
    pub published: Option<String>,
    pub duration_seconds: Option<u64>,
    pub channels: Option<u8>,
    pub sample_rate: Option<u32>,
}

#[derive(Debug)]
pub struct PublicationSection {
    pub feed: Option<String>,
    pub entry_id: Option<String>,
    pub mime_type: Option<String>,
}

/// A prepared feed entry (`feeds/entries/<id>.toml`).
#[derive(Debug)]
pub struct FeedEntryMetadata {
    pub entry: Option<FeedEntrySection>,
    pub enclosure: Option<EnclosureSection>,
}

#[derive(Debug)]
pub struct FeedEntrySection {
    pub id: Option<String>,
    pub title: Option<String>,
    pub updated: Option<String>,
    pub summary: Option<String>,
    pub feed: Option<String>,
    pub recording: Option<String>,
    pub recording_metadata: Option<String>,
}

#[derive(Debug)]
pub struct EnclosureSection {
    pub path: Option<String>,
    pub mime_type: Option<String>,
}

/// The ways an audio-metadata operation can fail.
#[derive(Debug)]
pub enum AudioMetadataError {
    ProjectNotFound(String),
    ProjectNotDirectory(String),
    NotFound(String),
    NotFile(String),
    Unreadable { path: String, message: String },
    ParseFailed(String),
    DirectoryNotFound(String),
    NotDirectory(String),
    ReadDirectoryFailed { path: String, message: String },
    InvalidRecordingId(String),
    InvalidAudioPath { field: String, value: String },
    MetadataAlreadyExists(String),
    AudioFileMissing { path: String },
    MissingRecordingTitle,
    PublicationCopyAlreadyExists(String),
    InvalidPublicationCopyPath(String),
    UnsupportedOpusPreset(String),
    OpusEncoderUnavailable { message: String },
    OpusEncoderFailed { status: Option<i32>, stderr: String },
    WritePublicationCopyFailed { path: String, message: String },
    InstallPublicationCopyFailed { path: String, message: String },
    CreateDirectoryFailed { path: String, message: String },
    WriteFileFailed { path: String, message: String },
    InstallMetadataFailed { path: String, message: String },
    MissingPublicationField(&'static str),
    FeedEntryAlreadyExists(String),
    WriteFeedEntryFailed { path: String, message: String },
    InstallFeedEntryFailed { path: String, message: String },
    InvalidFeedEntry { path: String, issues: Vec<String> },
    InvalidFeedXml { path: String, issue: String },
    WriteFeedFailed { path: String, message: String },
    InstallFeedFailed { path: String, message: String },
}

// ---------------------------------------------------------------------------
// Paths and ids
// ---------------------------------------------------------------------------

/// A path that stays inside the project: not blank, relative, and without `..`.
pub open spec fn is_inside_path(value: Seq<char>) -> bool {
    !is_blank(value) && !is_absolute_path(value) && !has_parent_component(value)
}

/// Whether `value` is a non-blank relative path without `..`.
pub fn path_is_relative_inside(value: &str) -> (r: bool)
    ensures
        r == is_inside_path(value@),
{
    !is_blank_text(value) && !is_absolute_exec(value) && !has_parent_component_exec(value)
}

/// Whether `value` is a valid recording id.
pub fn recording_id_is_valid(value: &str) -> (r: bool)
    ensures
        r == is_valid_id(value@),
{
    is_valid_id_text(value)
}

/// Refuses a path that leaves the project.
pub fn validate_audio_path_for_write(field: &str, value: &str) -> (r: Result<(), AudioMetadataError>)
    ensures
        match r {
            Ok(()) => is_inside_path(value@),
            Err(AudioMetadataError::InvalidAudioPath { field: f, value: v }) => !is_inside_path(
                value@,
            ) && f@ == field@ && v@ == value@,
            Err(_) => false,
        },
{
    if !path_is_relative_inside(value) {
        Err(AudioMetadataError::InvalidAudioPath { field: string_of(field), value: string_of(value) })
    } else {
        Ok(())
    }
}

/// Refuses an invalid recording id.
pub fn validate_recording_id_for_write(value: &str) -> (r: Result<(), AudioMetadataError>)
    ensures
        match r {
            Ok(()) => is_valid_id(value@),
            Err(AudioMetadataError::InvalidRecordingId(v)) => !is_valid_id(value@) && v@ == value@,
            Err(_) => false,
        },
{
    if recording_id_is_valid(value) {
        Ok(())
    } else {
        Err(AudioMetadataError::InvalidRecordingId(string_of(value)))
    }
}

/// Refuses a blank publication value.
pub fn validate_required_publication_value(field: &'static str, value: &str) -> (r: Result<
    (),
    AudioMetadataError,
>)
    ensures
        match r {
            Ok(()) => !is_blank(value@),
            Err(AudioMetadataError::MissingPublicationField(f)) => is_blank(value@) && f == field,
            Err(_) => false,
        },
{
    if is_blank_text(value) {
        Err(AudioMetadataError::MissingPublicationField(field))
    } else {
        Ok(())
    }
}

// ---------------------------------------------------------------------------
// What recording metadata is found to break
// ---------------------------------------------------------------------------

pub open spec fn recording_id_issues(field: Seq<char>, value: Seq<char>) -> Seq<IssueView> {
    if is_valid_id(value) {
        Seq::empty()
    } else {
        seq![
            error_issue(
                "invalid_recording_id"@,
                field + " must contain only ASCII letters, digits, '-' or '_'"@,
                field,
            ),
        ]
    }
}

pub open spec fn relative_path_issues(field: Seq<char>, value: Seq<char>) -> Seq<IssueView> {
    if is_inside_path(value) {
        Seq::empty()
    } else {
        seq![
            error_issue(
                "invalid_audio_path"@,
                field + " must be a relative path inside the project audio metadata boundary"@,
                field,
            ),
        ]
    }
}

pub open spec fn mime_issues(field: Seq<char>, mime: Option<String>) -> Seq<IssueView> {
    match mime {
        Some(m) => if m@.contains('/') {
            Seq::empty()
        } else {
            seq![
                warning_issue(
                    "unusual_mime_type"@,
                    "MIME type does not contain '/': "@ + m@,
                    field,
                ),
            ]
        },
        None => Seq::empty(),
    }
}

pub open spec fn recording_core_issues(r: RecordingSection) -> Seq<IssueView> {
    recording_id_issues("recording.id"@, r.id@) + (if is_blank(r.title@) {
        seq![
            error_issue(
                "missing_recording_title"@,
                "recording title is required"@,
                "recording.title"@,
            ),
        ]
    } else {
        Seq::empty()
    }) + relative_path_issues("recording.master"@, r.master@) + (match r.published {
        Some(p) => relative_path_issues("recording.published"@, p@),
        None => Seq::empty(),
    })
}

pub open spec fn recording_measure_issues(r: RecordingSection) -> Seq<IssueView> {
    (if r.channels == Some(0u8) {
        seq![
            error_issue(
                "invalid_channel_count"@,
                "channel count must be greater than zero"@,
                "recording.channels"@,
            ),
        ]
    } else {
        Seq::empty()
    }) + (if r.sample_rate == Some(0u32) {
        seq![
            error_issue(
                "invalid_sample_rate"@,
                "sample rate must be greater than zero"@,
                "recording.sample_rate"@,
            ),
        ]
    } else {
        Seq::empty()
    })
}

pub open spec fn publication_section_issues(p: Option<PublicationSection>) -> Seq<IssueView> {
    match p {
        Some(p) => (match p.feed {
            Some(f) => relative_path_issues("publication.feed"@, f@),
            None => Seq::empty(),
        }) + mime_issues("publication.mime_type"@, p.mime_type),
        None => Seq::empty(),
    }
}

/// Everything that validation finds in recording metadata, in order.
pub open spec fn audio_metadata_issues(m: AudioMetadata) -> Seq<IssueView> {
    recording_core_issues(m.recording) + recording_measure_issues(m.recording)
        + publication_section_issues(m.publication)
}

fn validate_id(issues: &mut Vec<ValidationIssue>, field: &'static str, value: &str)
    ensures
        views(final(issues)@) == views(old(issues)@) + recording_id_issues(field@, value@),
{
    let ghost start = views(issues@);
    if !recording_id_is_valid(value) {
        let message = concat(field, " must contain only ASCII letters, digits, '-' or '_'");
        add_issue(issues, error("invalid_recording_id", message, Some(string_of(field))));
    }
    assert(views(issues@) =~= start + recording_id_issues(field@, value@));
}

/// Records an issue when `value` is not a relative path inside the project.
fn validate_relative_path(issues: &mut Vec<ValidationIssue>, field: &'static str, value: &str)
    ensures
        views(final(issues)@) == views(old(issues)@) + relative_path_issues(field@, value@),
{
    let ghost start = views(issues@);
    if !path_is_relative_inside(value) {
        let message = concat(
            field,
            " must be a relative path inside the project audio metadata boundary",
        );
        add_issue(issues, error("invalid_audio_path", message, Some(string_of(field))));
    }
    assert(views(issues@) =~= start + relative_path_issues(field@, value@));
}

fn validate_mime(issues: &mut Vec<ValidationIssue>, field: &'static str, mime: &Option<String>)
    ensures
        views(final(issues)@) == views(old(issues)@) + mime_issues(field@, *mime),
{
    let ghost start = views(issues@);
    match mime {
        Some(m) => {
            if !has_char(m.as_str(), '/') {
                let message = concat("MIME type does not contain '/': ", m.as_str());
                add_issue(issues, warning("unusual_mime_type", message, Some(string_of(field))));
            }
        },
        None => {},
    }
    assert(views(issues@) =~= start + mime_issues(field@, *mime));
}

fn recording_core_issues_into(issues: &mut Vec<ValidationIssue>, r: &RecordingSection)
    ensures
        views(final(issues)@) == views(old(issues)@) + recording_core_issues(*r),
{
    let ghost start = views(issues@);
    validate_id(issues, "recording.id", r.id.as_str());
    let ghost a = views(issues@);
    if is_blank_text(r.title.as_str()) {
        add_issue(
            issues,
            error(
                "missing_recording_title",
                string_of("recording title is required"),
                Some(string_of("recording.title")),
            ),
        );
    }
    let ghost b = views(issues@);
    validate_relative_path(issues, "recording.master", r.master.as_str());
    let ghost c = views(issues@);
    match &r.published {
        Some(p) => validate_relative_path(issues, "recording.published", p.as_str()),
        None => {},
    }
    assert(views(issues@) =~= start + recording_core_issues(*r));
}

fn recording_measure_issues_into(issues: &mut Vec<ValidationIssue>, r: &RecordingSection)
    ensures
        views(final(issues)@) == views(old(issues)@) + recording_measure_issues(*r),
{
    let ghost start = views(issues@);
    if r.channels == Some(0u8) {
        add_issue(
            issues,
            error(
                "invalid_channel_count",
                string_of("channel count must be greater than zero"),
                Some(string_of("recording.channels")),
            ),
        );
    }
    let ghost e = views(issues@);
    if r.sample_rate == Some(0u32) {
        add_issue(
            issues,
            error(
                "invalid_sample_rate",
                string_of("sample rate must be greater than zero"),
                Some(string_of("recording.sample_rate")),
            ),
        );
    }
    assert(views(issues@) =~= start + recording_measure_issues(*r));
}

fn publication_section_issues_into(issues: &mut Vec<ValidationIssue>, p: &Option<PublicationSection>)
    ensures
        views(final(issues)@) == views(old(issues)@) + publication_section_issues(*p),
{
    let ghost start = views(issues@);
    match p {
        Some(p) => {
            match &p.feed {
                Some(feed) => validate_relative_path(issues, "publication.feed", feed.as_str()),
                None => {},
            }
            let ghost g = views(issues@);
            validate_mime(issues, "publication.mime_type", &p.mime_type);
        },
        None => {},
    }
    assert(views(issues@) =~= start + publication_section_issues(*p));
}

fn audio_metadata_issues_into(issues: &mut Vec<ValidationIssue>, metadata: &AudioMetadata)
    ensures
        views(final(issues)@) == views(old(issues)@) + audio_metadata_issues(*metadata),
{
    let ghost start = views(issues@);
    recording_core_issues_into(issues, &metadata.recording);
    let ghost a = views(issues@);
    recording_measure_issues_into(issues, &metadata.recording);
    let ghost b = views(issues@);
    publication_section_issues_into(issues, &metadata.publication);
    assert(views(issues@) =~= start + audio_metadata_issues(*metadata));
}

/// Validates recording metadata on its own.
pub fn validate_audio_metadata_record(metadata: &AudioMetadata) -> (r: ValidationReport)
    ensures
        report_of(audio_metadata_issues(*metadata), r),
{
    let mut issues: Vec<ValidationIssue> = Vec::new();
    audio_metadata_issues_into(&mut issues, metadata);
    assert(views(issues@) =~= audio_metadata_issues(*metadata));
    ValidationReport::from_issues(issues)
}

/// Validates recording metadata loaded from a file; a failure to load it is
/// handed back as it came.
pub fn validate_audio_metadata(loaded: Result<AudioMetadata, AudioMetadataError>) -> (r: Result<
    ValidationReport,
    AudioMetadataError,
>)
    ensures
        match (loaded, r) {
            (Err(e), Err(f)) => e == f,
            (Ok(m), Ok(report)) => report_of(audio_metadata_issues(m), report),
            _ => false,
        },
{
    match loaded {
        Err(e) => Err(e),
        Ok(m) => Ok(validate_audio_metadata_record(&m)),
    }
}

/// The errors of a report followed by its warnings.
pub fn validation_report_into_issues(report: ValidationReport) -> (r: Vec<ValidationIssue>)
    ensures
        views(r@) == views(report.errors@) + views(report.warnings@),
{
    let mut errors = report.errors;
    let mut warnings = report.warnings;
    let ghost e = views(errors@);
    let ghost w = views(warnings@);
    errors.append(&mut warnings);
    assert(views(errors@) =~= e + w);
    errors
}

} // verus!

verus! {

/// What the file system shows of the audio files a recording names: whether
/// the master, and the published copy if one is named, are files.
#[derive(Debug, Clone, Copy)]
pub struct PublicationFiles {
    pub master_is_file: bool,
    pub published_is_file: bool,
}

/// Where a recording's metadata file is, for a publication check.
#[derive(Debug, Clone)]
pub struct ValidatePublicationOptions {
    pub project_root: String,
    pub recording_metadata_path: String,
}

pub open spec fn existing_file_issues(
    field: Seq<char>,
    value: Seq<char>,
    is_file: bool,
    missing_code: Seq<char>,
) -> Seq<IssueView> {
    relative_path_issues(field, value) + (if is_inside_path(value) && !is_file {
        seq![error_issue(missing_code, field + " does not exist: "@ + value, field)]
    } else {
        Seq::empty()
    })
}

/// Absent or blank.
pub open spec fn is_absent_or_blank(o: Option<String>) -> bool {
    match o {
        Some(s) => is_blank(s@),
        None => true,
    }
}

pub open spec fn required_publication_issues(field: Seq<char>, value: Option<String>) -> Seq<
    IssueView,
> {
    if is_absent_or_blank(value) {
        seq![
            error_issue(
                "missing_publication_field"@,
                field + " is required for publication validation"@,
                field,
            ),
        ]
    } else {
        Seq::empty()
    }
}

/// The errors, then the warnings, of a list of issues.
pub open spec fn errors_then_warnings(issues: Seq<IssueView>) -> Seq<IssueView> {
    with_severity(issues, Severity::Error) + with_severity(issues, Severity::Warning)
}

pub open spec fn metadata_location_issues(rel: Option<Seq<char>>, field: Seq<char>) -> Seq<
    IssueView,
> {
    match rel {
        Some(r) => relative_path_issues(field, r),
        None => seq![
            error_issue("invalid_audio_path"@, field + " must be inside the project"@, field),
        ],
    }
}

pub open spec fn published_copy_issues(m: AudioMetadata, f: PublicationFiles) -> Seq<IssueView> {
    match m.recording.published {
        Some(p) => existing_file_issues(
            "recording.published"@,
            p@,
            f.published_is_file,
            "missing_published_audio"@,
        ),
        None => seq![
            error_issue(
                "missing_publication_field"@,
                "recording.published is required for publication validation"@,
                "recording.published"@,
            ),
        ],
    }
}

pub open spec fn publication_required_issues(p: Option<PublicationSection>) -> Seq<IssueView> {
    match p {
        Some(p) => required_publication_issues("publication.feed"@, p.feed)
            + required_publication_issues("publication.entry_id"@, p.entry_id)
            + required_publication_issues("publication.mime_type"@, p.mime_type),
        None => seq![
            error_issue(
                "missing_publication"@,
                "publication section is required for publication validation"@,
                "publication"@,
            ),
        ],
    }
}

pub open spec fn publication_fields_issues(m: AudioMetadata, f: PublicationFiles) -> Seq<IssueView> {
    existing_file_issues(
        "recording.master"@,
        m.recording.master@,
        f.master_is_file,
        "missing_master_audio"@,
    ) + published_copy_issues(m, f) + publication_required_issues(m.publication)
}

/// Everything a publication check finds, in the order it reports it.
pub open spec fn publication_copy_issues(
    m: AudioMetadata,
    rel: Option<Seq<char>>,
    f: PublicationFiles,
) -> Seq<IssueView> {
    errors_then_warnings(audio_metadata_issues(m)) + metadata_location_issues(
        rel,
        "recording.metadata"@,
    ) + publication_fields_issues(m, f)
}

fn validate_existing_project_file(
    issues: &mut Vec<ValidationIssue>,
    field: &'static str,
    value: &str,
    is_file: bool,
    missing_code: &'static str,
)
    ensures
        views(final(issues)@) == views(old(issues)@) + existing_file_issues(
            field@,
            value@,
            is_file,
            missing_code@,
        ),
{
    let ghost start = views(issues@);
    validate_relative_path(issues, field, value);
    let ghost a = views(issues@);
    if path_is_relative_inside(value) && !is_file {
        let message = concat3(field, " does not exist: ", value);
        add_issue(issues, error(missing_code, message, Some(string_of(field))));
    }
    assert(views(issues@) =~= start + existing_file_issues(field@, value@, is_file, missing_code@));
}

fn opt_blank(o: &Option<String>) -> (r: bool)
    ensures
        r == is_absent_or_blank(*o),
{
    match o {
        Some(s) => is_blank_text(s.as_str()),
        None => true,
    }
}

fn validate_required_publication_field(
    issues: &mut Vec<ValidationIssue>,
    field: &'static str,
    value: &Option<String>,
)
    ensures
        views(final(issues)@) == views(old(issues)@) + required_publication_issues(field@, *value),
{
    let ghost start = views(issues@);
    if opt_blank(value) {
        let message = concat(field, " is required for publication validation");
        add_issue(issues, error("missing_publication_field", message, Some(string_of(field))));
    }
    assert(views(issues@) =~= start + required_publication_issues(field@, *value));
}

fn validate_metadata_location(
    issues: &mut Vec<ValidationIssue>,
    rel: &Option<String>,
    field: &'static str,
)
    ensures
        views(final(issues)@) == views(old(issues)@) + metadata_location_issues(
            crate::validation::opt_text(*rel),
            field@,
        ),
{
    let ghost start = views(issues@);
    match rel {
        Some(r) => validate_relative_path(issues, field, r.as_str()),
        None => {
            let message = concat(field, " must be inside the project");
            add_issue(issues, error("invalid_audio_path", message, Some(string_of(field))));
        },
    }
    assert(views(issues@) =~= start + metadata_location_issues(
        crate::validation::opt_text(*rel),
        field@,
    ));
}

fn published_copy_issues_into(
    issues: &mut Vec<ValidationIssue>,
    metadata: &AudioMetadata,
    files: &PublicationFiles,
)
    ensures
        views(final(issues)@) == views(old(issues)@) + published_copy_issues(*metadata, *files),
{
    let ghost start = views(issues@);
    match &metadata.recording.published {
        Some(p) => validate_existing_project_file(
            issues,
            "recording.published",
            p.as_str(),
            files.published_is_file,
            "missing_published_audio",
        ),
        None => add_issue(
            issues,
            error(
                "missing_publication_field",
                string_of("recording.published is required for publication validation"),
                Some(string_of("recording.published")),
            ),
        ),
    }
    assert(views(issues@) =~= start + published_copy_issues(*metadata, *files));
}

fn publication_required_issues_into(issues: &mut Vec<ValidationIssue>, p: &Option<PublicationSection>)
    ensures
        views(final(issues)@) == views(old(issues)@) + publication_required_issues(*p),
{
    let ghost start = views(issues@);
    match p {
        Some(p) => {
            validate_required_publication_field(issues, "publication.feed", &p.feed);
            let ghost c = views(issues@);
            validate_required_publication_field(issues, "publication.entry_id", &p.entry_id);
            let ghost d = views(issues@);
            validate_required_publication_field(issues, "publication.mime_type", &p.mime_type);
        },
        None => add_issue(
            issues,
            error(
                "missing_publication",
                string_of("publication section is required for publication validation"),
                Some(string_of("publication")),
            ),
        ),
    }
    assert(views(issues@) =~= start + publication_required_issues(*p));
}

fn publication_fields_issues_into(
    issues: &mut Vec<ValidationIssue>,
    metadata: &AudioMetadata,
    files: &PublicationFiles,
)
    ensures
        views(final(issues)@) == views(old(issues)@) + publication_fields_issues(*metadata, *files),
{
    let ghost start = views(issues@);
    validate_existing_project_file(
        issues,
        "recording.master",
        metadata.recording.master.as_str(),
        files.master_is_file,
        "missing_master_audio",
    );
    let ghost a = views(issues@);
    published_copy_issues_into(issues, metadata, files);
    let ghost b = views(issues@);
    publication_required_issues_into(issues, &metadata.publication);
    assert(views(issues@) =~= start + publication_fields_issues(*metadata, *files));
}

/// The issues of a publication check, before they are split into a report.
pub fn publication_copy_issue_list(
    metadata: &AudioMetadata,
    relative_metadata_path: &Option<String>,
    files: &PublicationFiles,
) -> (r: Vec<ValidationIssue>)
    ensures
        views(r@) == publication_copy_issues(
            *metadata,
            crate::validation::opt_text(*relative_metadata_path),
            *files,
        ),
{
    let mut issues = validation_report_into_issues(validate_audio_metadata_record(metadata));
    let ghost a = views(issues@);
    validate_metadata_location(&mut issues, relative_metadata_path, "recording.metadata");
    let ghost b = views(issues@);
    publication_fields_issues_into(&mut issues, metadata, files);
    assert(views(issues@) =~= publication_copy_issues(
        *metadata,
        crate::validation::opt_text(*relative_metadata_path),
        *files,
    ));
    issues
}

/// Checks that a recording is ready for publication: its metadata is valid,
/// its metadata file is inside the project, its audio files exist and its
/// publication fields are filled. `metadata` is the recording's metadata as
/// loaded (or the failure to check the project root or to load it, handed back
/// as it came); `relative_metadata_path` is the metadata file's path relative to
/// the project root, `None` when it lies outside.
pub fn validate_publication_copy(
    metadata: Result<AudioMetadata, AudioMetadataError>,
    relative_metadata_path: &Option<String>,
    files: &PublicationFiles,
) -> (r: Result<ValidationReport, AudioMetadataError>)
    ensures
        match (metadata, r) {
            (Err(e), Err(f)) => e == f,
            (Ok(m), Ok(report)) => report_of(
                publication_copy_issues(
                    m,
                    crate::validation::opt_text(*relative_metadata_path),
                    *files,
                ),
                report,
            ),
            _ => false,
        },
{
    let metadata = metadata?;
    let issues = publication_copy_issue_list(&metadata, relative_metadata_path, files);
    Ok(ValidationReport::from_issues(issues))
}

} // verus!

verus! {

/// A recording that a feed entry links to, with what its publication check needs.
#[derive(Debug)]
pub struct LinkedRecording {
    pub metadata: AudioMetadata,
    pub relative_path: Option<String>,
    pub files: PublicationFiles,
}

/// Another entry file under `feeds/entries`: its path as shown to the user,
/// and the entry id it holds (`None` when it failed to load or holds none).
#[derive(Debug)]
pub struct OtherFeedEntry {
    pub display_path: String,
    pub entry_id: Option<String>,
}

/// What checking a feed entry needs beyond the entry itself.
#[derive(Debug)]
pub struct FeedEntryContext {
    /// The entry file's path relative to the project root; `None` when it lies outside.
    pub relative_path: Option<String>,
    /// Whether `enclosure.path` names a file of the project.
    pub enclosure_is_file: bool,
    /// The recording that `entry.recording_metadata` names: `None` when that
    /// path is not a file, otherwise the recording as loaded.
    pub recording: Option<Result<LinkedRecording, AudioMetadataError>>,
    /// The other entry files under `feeds/entries` (empty when that directory is missing).
    pub other_entries: Result<Vec<OtherFeedEntry>, AudioMetadataError>,
}

/// Where a feed entry file is.
#[derive(Debug, Clone)]
pub struct ValidateFeedEntryOptions {
    pub project_root: String,
    pub feed_entry_path: String,
}

pub open spec fn required_feed_entry_issues(field: Seq<char>, value: Option<String>) -> Seq<
    IssueView,
> {
    if is_absent_or_blank(value) {
        seq![
            error_issue(
                "missing_feed_entry_field"@,
                field + " is required for feed-entry validation"@,
                field,
            ),
        ]
    } else {
        Seq::empty()
    }
}

pub open spec fn entry_required_issues(e: FeedEntrySection, c: EnclosureSection) -> Seq<IssueView> {
    required_feed_entry_issues("entry.id"@, e.id) + required_feed_entry_issues(
        "entry.title"@,
        e.title,
    ) + required_feed_entry_issues("entry.updated"@, e.updated) + required_feed_entry_issues(
        "entry.summary"@,
        e.summary,
    ) + required_feed_entry_issues("entry.feed"@, e.feed) + required_feed_entry_issues(
        "entry.recording"@,
        e.recording,
    ) + required_feed_entry_issues("entry.recording_metadata"@, e.recording_metadata)
        + required_feed_entry_issues("enclosure.path"@, c.path) + required_feed_entry_issues(
        "enclosure.mime_type"@,
        c.mime_type,
    )
}

pub open spec fn entry_link_issues(e: FeedEntrySection) -> Seq<IssueView> {
    (match e.recording {
        Some(r) => recording_id_issues("entry.recording"@, r@),
        None => Seq::empty(),
    }) + (match e.feed {
        Some(f) => relative_path_issues("entry.feed"@, f@),
        None => Seq::empty(),
    }) + (match e.recording_metadata {
        Some(r) => relative_path_issues("entry.recording_metadata"@, r@),
        None => Seq::empty(),
    })
}

pub open spec fn enclosure_issues(c: EnclosureSection, enclosure_is_file: bool) -> Seq<IssueView> {
    (match c.path {
        Some(p) => existing_file_issues(
            "enclosure.path"@,
            p@,
            enclosure_is_file,
            "missing_enclosure_audio"@,
        ),
        None => Seq::empty(),
    }) + mime_issues("enclosure.mime_type"@, c.mime_type)
}

pub open spec fn entry_shape_issues(e: FeedEntrySection, c: EnclosureSection, enclosure_is_file: bool) -> Seq<
    IssueView,
> {
    entry_link_issues(e) + enclosure_issues(c, enclosure_is_file)
}

pub open spec fn mismatch_issues(
    field: Seq<char>,
    actual: Option<String>,
    expected: Option<String>,
    code: Seq<char>,
) -> Seq<IssueView> {
    match (actual, expected) {
        (Some(a), Some(x)) => if a@ != x@ {
            seq![
                error_issue(
                    code,
                    field + " does not match recording metadata: "@ + a@ + " != "@ + x@,
                    field,
                ),
            ]
        } else {
            Seq::empty()
        },
        _ => Seq::empty(),
    }
}

/// What an entry is found to contradict in the recording it links to.
pub open spec fn entry_recording_mismatches(
    e: FeedEntrySection,
    c: EnclosureSection,
    r: AudioMetadata,
) -> Seq<IssueView> {
    (match e.recording {
        Some(id) => if id@ != r.recording.id@ {
            seq![
                error_issue(
                    "feed_entry_recording_mismatch"@,
                    "entry.recording does not match recording.id: "@ + id@ + " != "@
                        + r.recording.id@,
                    "entry.recording"@,
                ),
            ]
        } else {
            Seq::empty()
        },
        None => Seq::empty(),
    }) + (match e.title {
        Some(t) => if t@ != r.recording.title@ {
            seq![
                warning_issue(
                    "feed_entry_title_mismatch"@,
                    "entry.title differs from the recording title"@,
                    "entry.title"@,
                ),
            ]
        } else {
            Seq::empty()
        },
        None => Seq::empty(),
    }) + (match r.publication {
        Some(p) => mismatch_issues("entry.id"@, e.id, p.entry_id, "feed_entry_id_mismatch"@)
            + mismatch_issues("entry.feed"@, e.feed, p.feed, "feed_entry_feed_mismatch"@)
            + mismatch_issues(
            "enclosure.path"@,
            c.path,
            r.recording.published,
            "feed_entry_enclosure_mismatch"@,
        ) + mismatch_issues(
            "enclosure.mime_type"@,
            c.mime_type,
            p.mime_type,
            "feed_entry_mime_type_mismatch"@,
        ),
        None => Seq::empty(),
    })
}

/// What the linked recording adds: its publication findings and the
/// contradictions, or a missing-file error, or the failure to load it.
pub open spec fn linked_recording_outcome(
    e: FeedEntrySection,
    c: EnclosureSection,
    recording: Option<Result<LinkedRecording, AudioMetadataError>>,
) -> Result<Seq<IssueView>, AudioMetadataError> {
    match e.recording_metadata {
        Some(rm) => if is_inside_path(rm@) {
            match recording {
                None => Ok(
                    seq![
                        error_issue(
                            "missing_recording_metadata"@,
                            "entry.recording_metadata does not exist: "@ + rm@,
                            "entry.recording_metadata"@,
                        ),
                    ],
                ),
                Some(Err(err)) => Err(err),
                Some(Ok(lr)) => Ok(
                    errors_then_warnings(
                        publication_copy_issues(
                            lr.metadata,
                            crate::validation::opt_text(lr.relative_path),
                            lr.files,
                        ),
                    ) + entry_recording_mismatches(e, c, lr.metadata),
                ),
            }
        } else {
            Ok(Seq::empty())
        },
        None => Ok(Seq::empty()),
    }
}

/// One duplicate-id error for each other entry that holds the same id.
pub open spec fn duplicate_id_issues(others: Seq<OtherFeedEntry>, id: Seq<char>) -> Seq<IssueView>
    decreases others.len(),
{
    if others.len() == 0 {
        Seq::empty()
    } else {
        duplicate_id_issues(others.drop_last(), id) + (match others.last().entry_id {
            Some(x) => if x@ == id {
                seq![
                    error_issue(
                        "duplicate_feed_entry_id"@,
                        "feed entry id is already used by "@ + others.last().display_path@,
                        "entry.id"@,
                    ),
                ]
            } else {
                Seq::empty()
            },
            None => Seq::empty(),
        })
    }
}

pub open spec fn duplicate_outcome(
    e: FeedEntrySection,
    others: Result<Vec<OtherFeedEntry>, AudioMetadataError>,
) -> Result<Seq<IssueView>, AudioMetadataError> {
    match e.id {
        Some(id) => if is_blank(id@) {
            Ok(Seq::empty())
        } else {
            match others {
                Err(err) => Err(err),
                Ok(os) => Ok(duplicate_id_issues(os@, id@)),
            }
        },
        None => Ok(Seq::empty()),
    }
}

/// Everything that checking a feed entry finds, in order, or the failure
/// that stopped it.
pub open spec fn feed_entry_outcome(fe: FeedEntryMetadata, ctx: FeedEntryContext) -> Result<
    Seq<IssueView>,
    AudioMetadataError,
> {
    let loc = metadata_location_issues(
        crate::validation::opt_text(ctx.relative_path),
        "feed-entry.metadata"@,
    );
    match fe.entry {
        None => Ok(
            loc + seq![
                error_issue(
                    "missing_feed_entry_section"@,
                    "entry section is required"@,
                    "entry"@,
                ),
            ],
        ),
        Some(e) => match fe.enclosure {
            None => Ok(
                loc + seq![
                    error_issue(
                        "missing_feed_entry_section"@,
                        "enclosure section is required"@,
                        "enclosure"@,
                    ),
                ],
            ),
            Some(c) => {
                let base = loc + entry_required_issues(e, c) + entry_shape_issues(
                    e,
                    c,
                    ctx.enclosure_is_file,
                );
                match linked_recording_outcome(e, c, ctx.recording) {
                    Err(err) => Err(err),
                    Ok(linked) => match duplicate_outcome(e, ctx.other_entries) {
                        Err(err) => Err(err),
                        Ok(dups) => Ok(base + linked + dups),
                    },
                }
            },
        },
    }
}

} // verus!

verus! {

fn validate_required_feed_entry_field(
    issues: &mut Vec<ValidationIssue>,
    field: &'static str,
    value: &Option<String>,
)
    ensures
        views(final(issues)@) == views(old(issues)@) + required_feed_entry_issues(field@, *value),
{
    let ghost start = views(issues@);
    if opt_blank(value) {
        let message = concat(field, " is required for feed-entry validation");
        add_issue(issues, error("missing_feed_entry_field", message, Some(string_of(field))));
    }
    assert(views(issues@) =~= start + required_feed_entry_issues(field@, *value));
}

fn entry_required_into(
    issues: &mut Vec<ValidationIssue>,
    e: &FeedEntrySection,
    c: &EnclosureSection,
)
    ensures
        views(final(issues)@) == views(old(issues)@) + entry_required_issues(*e, *c),
{
    let ghost s0 = views(issues@);
    validate_required_feed_entry_field(issues, "entry.id", &e.id);
    let ghost s1 = views(issues@);
    validate_required_feed_entry_field(issues, "entry.title", &e.title);
    let ghost s2 = views(issues@);
    validate_required_feed_entry_field(issues, "entry.updated", &e.updated);
    let ghost s3 = views(issues@);
    validate_required_feed_entry_field(issues, "entry.summary", &e.summary);
    let ghost s4 = views(issues@);
    validate_required_feed_entry_field(issues, "entry.feed", &e.feed);
    let ghost s5 = views(issues@);
    validate_required_feed_entry_field(issues, "entry.recording", &e.recording);
    let ghost s6 = views(issues@);
    validate_required_feed_entry_field(issues, "entry.recording_metadata", &e.recording_metadata);
    let ghost s7 = views(issues@);
    validate_required_feed_entry_field(issues, "enclosure.path", &c.path);
    let ghost s8 = views(issues@);
    validate_required_feed_entry_field(issues, "enclosure.mime_type", &c.mime_type);
    assert(views(issues@) =~= s0 + entry_required_issues(*e, *c));
}

fn entry_link_into(issues: &mut Vec<ValidationIssue>, e: &FeedEntrySection)
    ensures
        views(final(issues)@) == views(old(issues)@) + entry_link_issues(*e),
{
    let ghost s0 = views(issues@);
    match &e.recording {
        Some(r) => validate_id(issues, "entry.recording", r.as_str()),
        None => {},
    }
    let ghost s1 = views(issues@);
    match &e.feed {
        Some(f) => validate_relative_path(issues, "entry.feed", f.as_str()),
        None => {},
    }
    let ghost s2 = views(issues@);
    match &e.recording_metadata {
        Some(r) => validate_relative_path(issues, "entry.recording_metadata", r.as_str()),
        None => {},
    }
    assert(views(issues@) =~= s0 + entry_link_issues(*e));
}

fn enclosure_into(issues: &mut Vec<ValidationIssue>, c: &EnclosureSection, enclosure_is_file: bool)
    ensures
        views(final(issues)@) == views(old(issues)@) + enclosure_issues(*c, enclosure_is_file),
{
    let ghost s3 = views(issues@);
    match &c.path {
        Some(p) => validate_existing_project_file(
            issues,
            "enclosure.path",
            p.as_str(),
            enclosure_is_file,
            "missing_enclosure_audio",
        ),
        None => {},
    }
    let ghost s4 = views(issues@);
    validate_mime(issues, "enclosure.mime_type", &c.mime_type);
    assert(views(issues@) =~= s3 + enclosure_issues(*c, enclosure_is_file));
}

fn entry_shape_into(
    issues: &mut Vec<ValidationIssue>,
    e: &FeedEntrySection,
    c: &EnclosureSection,
    enclosure_is_file: bool,
)
    ensures
        views(final(issues)@) == views(old(issues)@) + entry_shape_issues(*e, *c, enclosure_is_file),
{
    let ghost s0 = views(issues@);
    entry_link_into(issues, e);
    let ghost s1 = views(issues@);
    enclosure_into(issues, c, enclosure_is_file);
    assert(views(issues@) =~= s0 + entry_shape_issues(*e, *c, enclosure_is_file));
}

fn compare_optional_field(
    issues: &mut Vec<ValidationIssue>,
    field: &'static str,
    actual: &Option<String>,
    expected: &Option<String>,
    code: &'static str,
)
    ensures
        views(final(issues)@) == views(old(issues)@) + mismatch_issues(
            field@,
            *actual,
            *expected,
            code@,
        ),
{
    let ghost s0 = views(issues@);
    match (actual, expected) {
        (Some(a), Some(x)) => {
            if !crate::text::text_eq(a.as_str(), x.as_str()) {
                let mut message = concat(field, " does not match recording metadata: ");
                message.append(a.as_str());
                message.append(" != ");
                message.append(x.as_str());
                add_issue(issues, error(code, message, Some(string_of(field))));
            }
        },
        _ => {},
    }
    assert(views(issues@) =~= s0 + mismatch_issues(field@, *actual, *expected, code@));
}

fn publication_mismatches_into(
    issues: &mut Vec<ValidationIssue>,
    e: &FeedEntrySection,
    c: &EnclosureSection,
    r: &AudioMetadata,
)
    ensures
        views(final(issues)@) == views(old(issues)@) + (match r.publication {
            Some(p) => mismatch_issues("entry.id"@, e.id, p.entry_id, "feed_entry_id_mismatch"@)
                + mismatch_issues("entry.feed"@, e.feed, p.feed, "feed_entry_feed_mismatch"@)
                + mismatch_issues(
                "enclosure.path"@,
                c.path,
                r.recording.published,
                "feed_entry_enclosure_mismatch"@,
            ) + mismatch_issues(
                "enclosure.mime_type"@,
                c.mime_type,
                p.mime_type,
                "feed_entry_mime_type_mismatch"@,
            ),
            None => Seq::empty(),
        }),
{
    let ghost s0 = views(issues@);
    match &r.publication {
        Some(p) => {
            compare_optional_field(issues, "entry.id", &e.id, &p.entry_id, "feed_entry_id_mismatch");
            let ghost s1 = views(issues@);
            compare_optional_field(issues, "entry.feed", &e.feed, &p.feed, "feed_entry_feed_mismatch");
            let ghost s2 = views(issues@);
            compare_optional_field(
                issues,
                "enclosure.path",
                &c.path,
                &r.recording.published,
                "feed_entry_enclosure_mismatch",
            );
            let ghost s3 = views(issues@);
            compare_optional_field(
                issues,
                "enclosure.mime_type",
                &c.mime_type,
                &p.mime_type,
                "feed_entry_mime_type_mismatch",
            );
            assert(views(issues@) =~= s0 + mismatch_issues(
                "entry.id"@,
                e.id,
                p.entry_id,
                "feed_entry_id_mismatch"@,
            ) + mismatch_issues("entry.feed"@, e.feed, p.feed, "feed_entry_feed_mismatch"@)
                + mismatch_issues(
                "enclosure.path"@,
                c.path,
                r.recording.published,
                "feed_entry_enclosure_mismatch"@,
            ) + mismatch_issues(
                "enclosure.mime_type"@,
                c.mime_type,
                p.mime_type,
                "feed_entry_mime_type_mismatch"@,
            ));
        },
        None => {
            assert(views(issues@) =~= s0 + Seq::<IssueView>::empty());
        },
    }
}

/// Records what an entry contradicts in the recording it links to.
pub fn validate_feed_entry_matches_recording(
    issues: &mut Vec<ValidationIssue>,
    e: &FeedEntrySection,
    c: &EnclosureSection,
    r: &AudioMetadata,
)
    ensures
        views(final(issues)@) == views(old(issues)@) + entry_recording_mismatches(*e, *c, *r),
{
    let ghost s0 = views(issues@);
    match &e.recording {
        Some(id) => {
            if !crate::text::text_eq(id.as_str(), r.recording.id.as_str()) {
                let mut message = concat(
                    "entry.recording does not match recording.id: ",
                    id.as_str(),
                );
                message.append(" != ");
                message.append(r.recording.id.as_str());
                add_issue(
                    issues,
                    error("feed_entry_recording_mismatch", message, Some(string_of("entry.recording"))),
                );
            }
        },
        None => {},
    }
    let ghost s1 = views(issues@);
    match &e.title {
        Some(t) => {
            if !crate::text::text_eq(t.as_str(), r.recording.title.as_str()) {
                add_issue(
                    issues,
                    warning(
                        "feed_entry_title_mismatch",
                        string_of("entry.title differs from the recording title"),
                        Some(string_of("entry.title")),
                    ),
                );
            }
        },
        None => {},
    }
    let ghost s2 = views(issues@);
    publication_mismatches_into(issues, e, c, r);
    assert(views(issues@) =~= s0 + entry_recording_mismatches(*e, *c, *r));
}

fn linked_recording_into(
    issues: &mut Vec<ValidationIssue>,
    e: &FeedEntrySection,
    c: &EnclosureSection,
    recording: Option<Result<LinkedRecording, AudioMetadataError>>,
) -> (r: Result<(), AudioMetadataError>)
    ensures
        match (linked_recording_outcome(*e, *c, recording), r) {
            (Err(x), Err(y)) => x == y,
            (Ok(added), Ok(())) => views(final(issues)@) == views(old(issues)@) + added,
            _ => false,
        },
{
    let ghost s0 = views(issues@);
    match &e.recording_metadata {
        Some(rm) => {
            if path_is_relative_inside(rm.as_str()) {
                match recording {
                    None => {
                        let message = concat(
                            "entry.recording_metadata does not exist: ",
                            rm.as_str(),
                        );
                        add_issue(
                            issues,
                            error(
                                "missing_recording_metadata",
                                message,
                                Some(string_of("entry.recording_metadata")),
                            ),
                        );
                        Ok(())
                    },
                    Some(Err(err)) => Err(err),
                    Some(Ok(lr)) => {
                        let copy = publication_copy_issue_list(
                            &lr.metadata,
                            &lr.relative_path,
                            &lr.files,
                        );
                        let report = ValidationReport::from_issues(copy);
                        let mut more = validation_report_into_issues(report);
                        let ghost m = views(more@);
                        let ghost i0 = views(issues@);
                        issues.append(&mut more);
                        assert(views(issues@) =~= i0 + m);
                        validate_feed_entry_matches_recording(issues, e, c, &lr.metadata);
                        assert(views(issues@) =~= s0 + errors_then_warnings(
                            publication_copy_issues(
                                lr.metadata,
                                crate::validation::opt_text(lr.relative_path),
                                lr.files,
                            ),
                        ) + entry_recording_mismatches(*e, *c, lr.metadata));
                        Ok(())
                    },
                }
            } else {
                assert(views(issues@) =~= s0 + Seq::<IssueView>::empty());
                Ok(())
            }
        },
        None => {
            assert(views(issues@) =~= s0 + Seq::<IssueView>::empty());
            Ok(())
        },
    }
}

fn duplicates_into(
    issues: &mut Vec<ValidationIssue>,
    e: &FeedEntrySection,
    others: Result<Vec<OtherFeedEntry>, AudioMetadataError>,
) -> (r: Result<(), AudioMetadataError>)
    ensures
        match (duplicate_outcome(*e, others), r) {
            (Err(x), Err(y)) => x == y,
            (Ok(added), Ok(())) => views(final(issues)@) == views(old(issues)@) + added,
            _ => false,
        },
{
    let ghost s0 = views(issues@);
    match &e.id {
        Some(id) => {
            if is_blank_text(id.as_str()) {
                assert(views(issues@) =~= s0 + Seq::<IssueView>::empty());
                return Ok(());
            }
            let os = others?;
            let mut i: usize = 0;
            assert(views(issues@) =~= s0 + duplicate_id_issues(os@.take(0), id@));
            while i < os.len()
                invariant
                    i <= os@.len(),
                    views(issues@) == s0 + duplicate_id_issues(os@.take(i as int), id@),
                decreases os@.len() - i,
            {
                assert(os@.take(i + 1).drop_last() =~= os@.take(i as int));
                match &os[i].entry_id {
                    Some(x) => {
                        if crate::text::text_eq(x.as_str(), id.as_str()) {
                            let message = concat(
                                "feed entry id is already used by ",
                                os[i].display_path.as_str(),
                            );
                            add_issue(
                                issues,
                                error("duplicate_feed_entry_id", message, Some(string_of("entry.id"))),
                            );
                        }
                    },
                    None => {},
                }
                assert(views(issues@) =~= s0 + duplicate_id_issues(os@.take(i + 1), id@));
                i = i + 1;
            }
            assert(os@.take(os@.len() as int) =~= os@);
            Ok(())
        },
        None => {
            assert(views(issues@) =~= s0 + Seq::<IssueView>::empty());
            Ok(())
        },
    }
}

#[verifier::rlimit(40)]
pub(crate) fn feed_entry_report(fe: &FeedEntryMetadata, context: FeedEntryContext) -> (r: Result<
    ValidationReport,
    AudioMetadataError,
>)
    ensures
        match (feed_entry_outcome(*fe, context), r) {
            (Err(x), Err(y)) => x == y,
            (Ok(issues), Ok(report)) => report_of(issues, report),
            _ => false,
        },
{
    let mut issues: Vec<ValidationIssue> = Vec::new();
    validate_metadata_location(&mut issues, &context.relative_path, "feed-entry.metadata");
    let ghost loc = views(issues@);
    let e = match &fe.entry {
        Some(e) => e,
        None => {
            add_issue(
                &mut issues,
                error(
                    "missing_feed_entry_section",
                    string_of("entry section is required"),
                    Some(string_of("entry")),
                ),
            );
            assert(views(issues@) =~= feed_entry_outcome(*fe, context)->Ok_0);
            return Ok(ValidationReport::from_issues(issues));
        },
    };
    let c = match &fe.enclosure {
        Some(c) => c,
        None => {
            add_issue(
                &mut issues,
                error(
                    "missing_feed_entry_section",
                    string_of("enclosure section is required"),
                    Some(string_of("enclosure")),
                ),
            );
            assert(views(issues@) =~= feed_entry_outcome(*fe, context)->Ok_0);
            return Ok(ValidationReport::from_issues(issues));
        },
    };
    entry_required_into(&mut issues, e, c);
    let ghost req = views(issues@);
    entry_shape_into(&mut issues, e, c, context.enclosure_is_file);
    let ghost base = views(issues@);
    assert(base =~= loc + entry_required_issues(*e, *c) + entry_shape_issues(
        *e,
        *c,
        context.enclosure_is_file,
    ));
    linked_recording_into(&mut issues, e, c, context.recording)?;
    let ghost linked = views(issues@);
    duplicates_into(&mut issues, e, context.other_entries)?;
    proof {
        let lo = linked_recording_outcome(*e, *c, context.recording);
        let du = duplicate_outcome(*e, context.other_entries);
        assert(views(issues@) =~= base + lo->Ok_0 + du->Ok_0);
    }
    Ok(ValidationReport::from_issues(issues))
}

/// Checks a prepared feed entry: its fields, its paths, the recording it links
/// to and the uniqueness of its id. `entry` is the entry as loaded (or the
/// failure to check the project root or to load it, handed back as it came).
pub fn validate_feed_entry(
    entry: Result<FeedEntryMetadata, AudioMetadataError>,
    context: FeedEntryContext,
) -> (r: Result<ValidationReport, AudioMetadataError>)
    ensures
        match entry {
            Err(e) => r == Err::<ValidationReport, AudioMetadataError>(e),
            Ok(fe) => match (feed_entry_outcome(fe, context), r) {
                (Err(x), Err(y)) => x == y,
                (Ok(issues), Ok(report)) => report_of(issues, report),
                _ => false,
            },
        },
{
    match entry {
        Err(e) => Err(e),
        Ok(fe) => feed_entry_report(&fe, context),
    }
}


/// An error in a list of issues reaches the list of errors that a report of
/// the list holds, and makes the report invalid.
proof fn lemma_error_reaches_report(
    before: Seq<IssueView>,
    x: IssueView,
    after: Seq<IssueView>,
    report: ValidationReport,
)
    requires
        x.severity == Severity::Error,
        report_of(before + seq![x] + after, report),
    ensures
        !report.valid,
        exists|k: int| 0 <= k < report.errors@.len() && (#[trigger] report.errors@[k])@ == x,
{
    let issues = before + seq![x] + after;
    lemma_with_severity_append(before, seq![x], Severity::Error);
    lemma_with_severity_append(before + seq![x], after, Severity::Error);
    assert(seq![x].drop_last() =~= Seq::<IssueView>::empty());
    assert(seq![x].last() == x);
    assert(with_severity(Seq::<IssueView>::empty(), Severity::Error) =~= Seq::<IssueView>::empty());
    assert(with_severity(seq![x], Severity::Error) =~= seq![x]);
    let k = with_severity(before, Severity::Error).len() as int;
    assert(with_severity(issues, Severity::Error)[k] == x);
    assert(views(report.errors@)[k] == x);
    assert(report.errors@[k]@ == x);
}

/// When a feed entry names a recording id other than the id of the recording
/// metadata it links to, its check reports the error
/// `feed_entry_recording_mismatch` at `entry.recording`, naming both ids, and
/// the entry is not valid.
pub proof fn law_feed_entry_recording_mismatch_is_an_error(
    fe: FeedEntryMetadata,
    ctx: FeedEntryContext,
    e: FeedEntrySection,
    c: EnclosureSection,
    id: String,
    rm: String,
    lr: LinkedRecording,
    issues: Seq<IssueView>,
    report: ValidationReport,
)
    requires
        fe.entry == Some(e),
        fe.enclosure == Some(c),
        e.recording == Some(id),
        e.recording_metadata == Some(rm),
        is_inside_path(rm@),
        ctx.recording == Some(Ok::<LinkedRecording, AudioMetadataError>(lr)),
        id@ != lr.metadata.recording.id@,
        feed_entry_outcome(fe, ctx) == Ok::<Seq<IssueView>, AudioMetadataError>(issues),
        report_of(issues, report),
    ensures
        !report.valid,
        exists|k: int|
            0 <= k < report.errors@.len() && (#[trigger] report.errors@[k])@ == error_issue(
                "feed_entry_recording_mismatch"@,
                "entry.recording does not match recording.id: "@ + id@ + " != "@
                    + lr.metadata.recording.id@,
                "entry.recording"@,
            ),
{
    let x = error_issue(
        "feed_entry_recording_mismatch"@,
        "entry.recording does not match recording.id: "@ + id@ + " != "@ + lr.metadata.recording.id@,
        "entry.recording"@,
    );
    let loc = metadata_location_issues(
        crate::validation::opt_text(ctx.relative_path),
        "feed-entry.metadata"@,
    );
    let base = loc + entry_required_issues(e, c) + entry_shape_issues(e, c, ctx.enclosure_is_file);
    let copy = errors_then_warnings(
        publication_copy_issues(lr.metadata, crate::validation::opt_text(lr.relative_path), lr.files),
    );
    let mism = entry_recording_mismatches(e, c, lr.metadata);
    let dups = match duplicate_outcome(e, ctx.other_entries) {
        Ok(d) => d,
        Err(_) => Seq::empty(),
    };
    assert(linked_recording_outcome(e, c, ctx.recording) == Ok::<Seq<IssueView>, AudioMetadataError>(copy + mism));
    assert(issues == base + (copy + mism) + dups);
    assert(mism[0] == x);
    let rest = mism.drop_first();
    assert(mism =~= seq![x] + rest);
    assert(issues =~= (base + copy) + seq![x] + (rest + dups));
    lemma_error_reaches_report(base + copy, x, rest + dups, report);
}

/// The lengths (and, where they agree, a telling letter) of the codes that
/// comparing an entry with its recording uses.
proof fn lemma_mismatch_code_literals()
    ensures
        "feed_entry_recording_mismatch"@.len() == 29,
        "feed_entry_title_mismatch"@.len() == 25,
        "feed_entry_id_mismatch"@.len() == 22,
        "feed_entry_feed_mismatch"@.len() == 24,
        "feed_entry_enclosure_mismatch"@.len() == 29,
        "feed_entry_mime_type_mismatch"@.len() == 29,
        "feed_entry_recording_mismatch"@[11] == 'r',
        "feed_entry_enclosure_mismatch"@[11] == 'e',
        "feed_entry_mime_type_mismatch"@[11] == 'm',
{
    reveal_strlit("feed_entry_recording_mismatch");
    reveal_strlit("feed_entry_title_mismatch");
    reveal_strlit("feed_entry_id_mismatch");
    reveal_strlit("feed_entry_feed_mismatch");
    reveal_strlit("feed_entry_enclosure_mismatch");
    reveal_strlit("feed_entry_mime_type_mismatch");
}

/// An entry that names no recording id, or the id of the recording it links
/// to, gets no `feed_entry_recording_mismatch` from the comparison with that
/// recording.
pub proof fn law_feed_entry_matching_recording_is_not_a_mismatch(
    e: FeedEntrySection,
    c: EnclosureSection,
    r: AudioMetadata,
)
    requires
        e.recording matches Some(id) ==> id@ == r.recording.id@,
    ensures
        forall|k: int|
            0 <= k < entry_recording_mismatches(e, c, r).len() ==> (#[trigger] entry_recording_mismatches(
                e,
                c,
                r,
            )[k]).code != "feed_entry_recording_mismatch"@,
{
    lemma_mismatch_code_literals();
    let code = "feed_entry_recording_mismatch"@;
    let first = match e.recording {
        Some(id) => if id@ != r.recording.id@ {
            seq![
                error_issue(
                    "feed_entry_recording_mismatch"@,
                    "entry.recording does not match recording.id: "@ + id@ + " != "@
                        + r.recording.id@,
                    "entry.recording"@,
                ),
            ]
        } else {
            Seq::<IssueView>::empty()
        },
        None => Seq::<IssueView>::empty(),
    };
    assert(first.len() == 0);
    assert forall|f: Seq<char>, a: Option<String>, x: Option<String>, cd: Seq<char>, k: int|
        cd != code && 0 <= k < mismatch_issues(f, a, x, cd).len() implies (#[trigger] mismatch_issues(f, a, x, cd)[k]).code != code by {}
    assert forall|k: int| 0 <= k < entry_recording_mismatches(e, c, r).len() implies (#[trigger] entry_recording_mismatches(e, c, r)[k]).code != code by {
        let t = match e.title {
            Some(t) => if t@ != r.recording.title@ {
                seq![
                    warning_issue(
                        "feed_entry_title_mismatch"@,
                        "entry.title differs from the recording title"@,
                        "entry.title"@,
                    ),
                ]
            } else {
                Seq::<IssueView>::empty()
            },
            None => Seq::<IssueView>::empty(),
        };
        match r.publication {
            Some(p) => {
                let m1 = mismatch_issues("entry.id"@, e.id, p.entry_id, "feed_entry_id_mismatch"@);
                let m2 = mismatch_issues("entry.feed"@, e.feed, p.feed, "feed_entry_feed_mismatch"@);
                let m3 = mismatch_issues("enclosure.path"@, c.path, r.recording.published, "feed_entry_enclosure_mismatch"@);
                let m4 = mismatch_issues("enclosure.mime_type"@, c.mime_type, p.mime_type, "feed_entry_mime_type_mismatch"@);
                assert(entry_recording_mismatches(e, c, r) =~= first + t + (m1 + m2 + m3 + m4));
                let all = first + t + (m1 + m2 + m3 + m4);
                let o = (first + t).len();
                if k >= o {
                    let q = k - o;
                    if q < m1.len() {
                        assert(all[k] == m1[q]);
                    } else if q < m1.len() + m2.len() {
                        assert(all[k] == m2[q - m1.len()]);
                    } else if q < m1.len() + m2.len() + m3.len() {
                        assert(all[k] == m3[q - m1.len() - m2.len()]);
                    } else {
                        assert(all[k] == m4[q - m1.len() - m2.len() - m3.len()]);
                    }
                } else {
                    assert(all[k] == t[k]);
                }
            },
            None => {
                assert(entry_recording_mismatches(e, c, r) =~= first + t);
            },
        }
    }
}
} // verus!
