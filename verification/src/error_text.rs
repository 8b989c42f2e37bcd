use vstd::prelude::*;
use crate::audio_metadata::AudioMetadataError;
use crate::cli_output::texts;
use crate::host_identity::HostIdentityError;
use crate::project_format::ProjectFormatError;
use crate::publication_history::HistoryError;
use crate::publish_plan::PublishPlanError;
use crate::text::{append_decimal, chars_of, concat, concat3, decimal, push_char, string_of};

verus! {

/// `a`, `b`, `c` and `d`, one after the other.
pub fn concat4(a: &str, b: &str, c: &str, d: &str) -> (r: String)
    ensures
        r@ == a@ + b@ + c@ + d@,
{
    let mut out = concat3(a, b, c);
    out.append(d);
    out
}

/// An integer in decimal, with a leading `-` when negative.
pub open spec fn signed_decimal(n: int) -> Seq<char> {
    if n < 0 {
        seq!['-'] + decimal((-n) as nat)
    } else {
        decimal(n as nat)
    }
}

/// An exit status as Rust's debug format writes an `Option<i32>`.
pub open spec fn debug_status(status: Option<i32>) -> Seq<char> {
    match status {
        Some(n) => "Some("@ + signed_decimal(n as int) + ")"@,
        None => "None"@,
    }
}

fn append_debug_status(out: &mut String, status: Option<i32>)
    ensures
        final(out)@ == old(out)@ + debug_status(status),
{
    match status {
        Some(n) => {
            out.append("Some(");
            if n < 0 {
                push_char(out, '-');
                let magnitude: i64 = -(n as i64);
                append_decimal(out, magnitude as u64);
            } else {
                append_decimal(out, n as u64);
            }
            out.append(")");
        },
        None => out.append("None"),
    }
}

/// A lowercase hexadecimal digit.
pub open spec fn hex_digit(d: nat) -> char {
    if d < 10 {
        (d + 48) as char
    } else {
        (d + 87) as char
    }
}

/// Whether a character is an ASCII control character other than those with
/// a letter escape: Rust's debug format writes these as `\u{..}`.
pub open spec fn is_unicode_escaped_control(c: char) -> bool {
    ((c as u32) > 0 && (c as u32) < 32 && c != '\t' && c != '\n' && c != '\r') || c as u32 == 127
}

/// `\u{..}` with the code of `c` in lowercase hexadecimal, without leading zeros.
pub open spec fn unicode_escape(c: char) -> Seq<char> {
    let n = (c as u32) as nat;
    seq!['\\', 'u', '{'] + (if n < 16 {
        seq![hex_digit(n)]
    } else {
        seq![hex_digit(n / 16), hex_digit(n % 16)]
    }) + seq!['}']
}

/// The debug escape of a character in a quoted string: backslash, double
/// quote, newline, carriage return, tab and NUL have their letter escapes,
/// other ASCII control characters their `\u{..}` escape.
pub open spec fn debug_char_escape(c: char) -> Seq<char> {
    if c == '\\' {
        seq!['\\', '\\']
    } else if c == '"' {
        seq!['\\', '"']
    } else if c == '\n' {
        seq!['\\', 'n']
    } else if c == '\r' {
        seq!['\\', 'r']
    } else if c == '\t' {
        seq!['\\', 't']
    } else if c == '\0' {
        seq!['\\', '0']
    } else if is_unicode_escaped_control(c) {
        unicode_escape(c)
    } else {
        seq![c]
    }
}

fn hex_digit_char(d: u32) -> (r: char)
    requires
        d < 16,
    ensures
        r == hex_digit(d as nat),
{
    if d < 10 {
        ((d + 48) as u8) as char
    } else {
        ((d + 87) as u8) as char
    }
}

fn append_unicode_escape(out: &mut String, c: char)
    requires
        is_unicode_escaped_control(c),
    ensures
        final(out)@ == old(out)@ + unicode_escape(c),
{
    let n = c as u32;
    push_char(out, '\\');
    push_char(out, 'u');
    push_char(out, '{');
    if n < 16 {
        push_char(out, hex_digit_char(n));
    } else {
        push_char(out, hex_digit_char(n / 16));
        push_char(out, hex_digit_char(n % 16));
    }
    push_char(out, '}');
}

pub open spec fn debug_escaped(s: Seq<char>) -> Seq<char>
    decreases s.len(),
{
    if s.len() == 0 {
        Seq::empty()
    } else {
        debug_escaped(s.drop_last()) + debug_char_escape(s.last())
    }
}

/// A list of texts as Rust's debug format writes a `Vec<String>`.
pub open spec fn debug_items(items: Seq<Seq<char>>) -> Seq<char>
    decreases items.len(),
{
    if items.len() == 0 {
        Seq::empty()
    } else if items.len() == 1 {
        seq!['"'] + debug_escaped(items[0]) + seq!['"']
    } else {
        debug_items(items.drop_last()) + seq![',', ' ', '"'] + debug_escaped(items.last()) + seq!['"']
    }
}

pub open spec fn debug_list(items: Seq<Seq<char>>) -> Seq<char> {
    seq!['['] + debug_items(items) + seq![']']
}

fn append_debug_escaped(out: &mut String, value: &str)
    ensures
        final(out)@ == old(out)@ + debug_escaped(value@),
{
    let value_chars = chars_of(value);
    let n = value_chars.len();
    let ghost start = out@;
    let mut i: usize = 0;
    while i < n
        invariant
            value_chars@ == value@,
            n == value@.len(),
            i <= n,
            out@ == start + debug_escaped(value@.take(i as int)),
        decreases n - i,
    {
        let c = value_chars[i];
        assert(value@.take(i + 1).drop_last() =~= value@.take(i as int));
        if c == '\\' {
            push_char(out, '\\');
            push_char(out, '\\');
        } else if c == '"' {
            push_char(out, '\\');
            push_char(out, '"');
        } else if c == '\n' {
            push_char(out, '\\');
            push_char(out, 'n');
        } else if c == '\r' {
            push_char(out, '\\');
            push_char(out, 'r');
        } else if c == '\t' {
            push_char(out, '\\');
            push_char(out, 't');
        } else if c == '\0' {
            push_char(out, '\\');
            push_char(out, '0');
        } else if ((c as u32) > 0 && (c as u32) < 32 && c != '\t' && c != '\n' && c != '\r') || c as u32
            == 127 {
            append_unicode_escape(out, c);
        } else {
            push_char(out, c);
        }
        assert(out@ =~= start + debug_escaped(value@.take(i + 1)));
        i = i + 1;
    }
    assert(value@.take(n as int) =~= value@);
}

fn append_debug_list(out: &mut String, items: &Vec<String>)
    ensures
        final(out)@ == old(out)@ + debug_list(texts(items@)),
{
    let ghost start = out@;
    push_char(out, '[');
    let mut i: usize = 0;
    while i < items.len()
        invariant
            i <= items@.len(),
            out@ == start + seq!['['] + debug_items(texts(items@.take(i as int))),
        decreases items@.len() - i,
    {
        if i > 0 {
            push_char(out, ',');
            push_char(out, ' ');
        }
        push_char(out, '"');
        append_debug_escaped(out, items[i].as_str());
        push_char(out, '"');
        proof {
            assert(texts(items@.take(i + 1)).drop_last() =~= texts(items@.take(i as int)));
            if i == 0 {
                assert(texts(items@.take(0)) =~= Seq::<Seq<char>>::empty());
            }
        }
        assert(out@ =~= start + seq!['['] + debug_items(texts(items@.take(i + 1))));
        i = i + 1;
    }
    assert(items@.take(items@.len() as int) =~= items@);
    push_char(out, ']');
    assert(out@ =~= start + debug_list(texts(items@)));
}

/// The message of an audio-metadata failure.
pub open spec fn audio_error_text(e: AudioMetadataError) -> Seq<char> {
    match e {
        AudioMetadataError::ProjectNotFound(p) => "project path does not exist: "@ + p@,
        AudioMetadataError::ProjectNotDirectory(p) => "project path is not a directory: "@ + p@,
        AudioMetadataError::NotFound(p) => "metadata path does not exist: "@ + p@,
        AudioMetadataError::NotFile(p) => "metadata path is not a file: "@ + p@,
        AudioMetadataError::Unreadable { path, message } => "metadata could not be read: "@ + path@ + ": "@ + message@,
        AudioMetadataError::ParseFailed(m) => "metadata could not be parsed: "@ + m@,
        AudioMetadataError::DirectoryNotFound(p) => "metadata directory does not exist: "@ + p@,
        AudioMetadataError::NotDirectory(p) => "metadata path is not a directory: "@ + p@,
        AudioMetadataError::ReadDirectoryFailed { path, message } => "metadata directory could not be read: "@ + path@ + ": "@ + message@,
        AudioMetadataError::InvalidRecordingId(v) => "invalid recording id: "@ + v@,
        AudioMetadataError::InvalidAudioPath { field, value } => "invalid audio path in "@ + field@ + ": "@ + value@,
        AudioMetadataError::MetadataAlreadyExists(p) => "recording metadata already exists: "@ + p@,
        AudioMetadataError::AudioFileMissing { path } => "audio file is missing: "@ + path@,
        AudioMetadataError::MissingRecordingTitle => "recording title is required"@,
        AudioMetadataError::PublicationCopyAlreadyExists(p) => "publication copy already exists: "@ + p@,
        AudioMetadataError::InvalidPublicationCopyPath(v) => "publication copy path must end with .opus: "@ + v@,
        AudioMetadataError::UnsupportedOpusPreset(v) => "unsupported Opus export preset: "@ + v@,
        AudioMetadataError::OpusEncoderUnavailable { message } => "Opus encoder could not be started: "@ + message@,
        AudioMetadataError::OpusEncoderFailed { status, stderr } => "Opus encoder failed with status "@ + debug_status(status) + ": "@ + stderr@,
        AudioMetadataError::WritePublicationCopyFailed { path, message } => "publication copy could not be written: "@ + path@ + ": "@ + message@,
        AudioMetadataError::InstallPublicationCopyFailed { path, message } => "publication copy could not be installed: "@ + path@ + ": "@ + message@,
        AudioMetadataError::CreateDirectoryFailed { path, message } => "metadata directory could not be created: "@ + path@ + ": "@ + message@,
        AudioMetadataError::WriteFileFailed { path, message } => "metadata file could not be written: "@ + path@ + ": "@ + message@,
        AudioMetadataError::InstallMetadataFailed { path, message } => "metadata file could not be installed: "@ + path@ + ": "@ + message@,
        AudioMetadataError::MissingPublicationField(f) => "recording metadata is missing publication field: "@ + f@,
        AudioMetadataError::FeedEntryAlreadyExists(p) => "feed entry metadata already exists: "@ + p@,
        AudioMetadataError::WriteFeedEntryFailed { path, message } => "feed entry metadata could not be written: "@ + path@ + ": "@ + message@,
        AudioMetadataError::InstallFeedEntryFailed { path, message } => "feed entry metadata could not be installed: "@ + path@ + ": "@ + message@,
        AudioMetadataError::InvalidFeedEntry { path, issues } => "feed entry metadata is invalid: "@ + path@ + ": "@ + debug_list(texts(issues@)),
        AudioMetadataError::InvalidFeedXml { path, issue } => "feed XML is invalid: "@ + path@ + ": "@ + issue@,
        AudioMetadataError::WriteFeedFailed { path, message } => "feed file could not be written: "@ + path@ + ": "@ + message@,
        AudioMetadataError::InstallFeedFailed { path, message } => "feed file could not be installed: "@ + path@ + ": "@ + message@,
    }
}

impl AudioMetadataError {
    /// The message that describes the failure.
    pub fn message(&self) -> (r: String)
        ensures
            r@ == audio_error_text(*self),
    {
        match self {
            AudioMetadataError::ProjectNotFound(p) => concat("project path does not exist: ", p.as_str()),
            AudioMetadataError::ProjectNotDirectory(p) => concat("project path is not a directory: ", p.as_str()),
            AudioMetadataError::NotFound(p) => concat("metadata path does not exist: ", p.as_str()),
            AudioMetadataError::NotFile(p) => concat("metadata path is not a file: ", p.as_str()),
            AudioMetadataError::Unreadable { path, message } => concat4("metadata could not be read: ", path.as_str(), ": ", message.as_str()),
            AudioMetadataError::ParseFailed(m) => concat("metadata could not be parsed: ", m.as_str()),
            AudioMetadataError::DirectoryNotFound(p) => concat("metadata directory does not exist: ", p.as_str()),
            AudioMetadataError::NotDirectory(p) => concat("metadata path is not a directory: ", p.as_str()),
            AudioMetadataError::ReadDirectoryFailed { path, message } => concat4("metadata directory could not be read: ", path.as_str(), ": ", message.as_str()),
            AudioMetadataError::InvalidRecordingId(v) => concat("invalid recording id: ", v.as_str()),
            AudioMetadataError::InvalidAudioPath { field, value } => concat4("invalid audio path in ", field.as_str(), ": ", value.as_str()),
            AudioMetadataError::MetadataAlreadyExists(p) => concat("recording metadata already exists: ", p.as_str()),
            AudioMetadataError::AudioFileMissing { path } => concat("audio file is missing: ", path.as_str()),
            AudioMetadataError::MissingRecordingTitle => string_of("recording title is required"),
            AudioMetadataError::PublicationCopyAlreadyExists(p) => concat("publication copy already exists: ", p.as_str()),
            AudioMetadataError::InvalidPublicationCopyPath(v) => concat("publication copy path must end with .opus: ", v.as_str()),
            AudioMetadataError::UnsupportedOpusPreset(v) => concat("unsupported Opus export preset: ", v.as_str()),
            AudioMetadataError::OpusEncoderUnavailable { message } => concat("Opus encoder could not be started: ", message.as_str()),
            AudioMetadataError::OpusEncoderFailed { status, stderr } => {
                let mut m = string_of("Opus encoder failed with status ");
                append_debug_status(&mut m, *status);
                m.append(": ");
                m.append(stderr.as_str());
                m
            },
            AudioMetadataError::WritePublicationCopyFailed { path, message } => concat4("publication copy could not be written: ", path.as_str(), ": ", message.as_str()),
            AudioMetadataError::InstallPublicationCopyFailed { path, message } => concat4("publication copy could not be installed: ", path.as_str(), ": ", message.as_str()),
            AudioMetadataError::CreateDirectoryFailed { path, message } => concat4("metadata directory could not be created: ", path.as_str(), ": ", message.as_str()),
            AudioMetadataError::WriteFileFailed { path, message } => concat4("metadata file could not be written: ", path.as_str(), ": ", message.as_str()),
            AudioMetadataError::InstallMetadataFailed { path, message } => concat4("metadata file could not be installed: ", path.as_str(), ": ", message.as_str()),
            AudioMetadataError::MissingPublicationField(f) => concat("recording metadata is missing publication field: ", *f),
            AudioMetadataError::FeedEntryAlreadyExists(p) => concat("feed entry metadata already exists: ", p.as_str()),
            AudioMetadataError::WriteFeedEntryFailed { path, message } => concat4("feed entry metadata could not be written: ", path.as_str(), ": ", message.as_str()),
            AudioMetadataError::InstallFeedEntryFailed { path, message } => concat4("feed entry metadata could not be installed: ", path.as_str(), ": ", message.as_str()),
            AudioMetadataError::InvalidFeedEntry { path, issues } => {
                let mut m = concat3("feed entry metadata is invalid: ", path.as_str(), ": ");
                append_debug_list(&mut m, issues);
                m
            },
            AudioMetadataError::InvalidFeedXml { path, issue } => concat4("feed XML is invalid: ", path.as_str(), ": ", issue.as_str()),
            AudioMetadataError::WriteFeedFailed { path, message } => concat4("feed file could not be written: ", path.as_str(), ": ", message.as_str()),
            AudioMetadataError::InstallFeedFailed { path, message } => concat4("feed file could not be installed: ", path.as_str(), ": ", message.as_str()),
        }
    }
}

/// The message of a project-format failure.
pub open spec fn project_error_text(e: ProjectFormatError) -> Seq<char> {
    match e {
        ProjectFormatError::ProjectNotFound(p) => "project path does not exist: "@ + p@,
        ProjectFormatError::ProjectNotDirectory(p) => "project path is not a directory: "@ + p@,
        ProjectFormatError::ManifestMissing(p) => "project manifest is missing: "@ + p@,
        ProjectFormatError::ManifestUnreadable { path, message } => "project manifest could not be read: "@ + path@ + ": "@ + message@,
        ProjectFormatError::ManifestParseFailed(m) => "project manifest could not be parsed: "@ + m@,
        ProjectFormatError::ProjectAlreadyExists(p) => "project already exists: "@ + p@,
        ProjectFormatError::InvalidProjectId(v) => "invalid project id: "@ + v@,
        ProjectFormatError::InvalidProjectType(v) => "invalid project type: "@ + v@,
        ProjectFormatError::InvalidProjectPath { field, value } => "invalid project path in "@ + field@ + ": "@ + value@,
        ProjectFormatError::CreateDirectoryFailed { path, message } => "project directory could not be created: "@ + path@ + ": "@ + message@,
        ProjectFormatError::WriteFileFailed { path, message } => "project file could not be written: "@ + path@ + ": "@ + message@,
        ProjectFormatError::InstallManifestFailed { path, message } => "project manifest could not be installed: "@ + path@ + ": "@ + message@,
        ProjectFormatError::ReadDirectoryFailed { path, message } => "project directory could not be read: "@ + path@ + ": "@ + message@,
        ProjectFormatError::DuplicatePublishTarget(v) => "duplicate publish target: "@ + v@,
        ProjectFormatError::InvalidPublishTargetName(v) => "invalid publish target name: "@ + v@,
    }
}

impl ProjectFormatError {
    /// The message that describes the failure.
    pub fn message(&self) -> (r: String)
        ensures
            r@ == project_error_text(*self),
    {
        match self {
            ProjectFormatError::ProjectNotFound(p) => concat("project path does not exist: ", p.as_str()),
            ProjectFormatError::ProjectNotDirectory(p) => concat("project path is not a directory: ", p.as_str()),
            ProjectFormatError::ManifestMissing(p) => concat("project manifest is missing: ", p.as_str()),
            ProjectFormatError::ManifestUnreadable { path, message } => concat4("project manifest could not be read: ", path.as_str(), ": ", message.as_str()),
            ProjectFormatError::ManifestParseFailed(m) => concat("project manifest could not be parsed: ", m.as_str()),
            ProjectFormatError::ProjectAlreadyExists(p) => concat("project already exists: ", p.as_str()),
            ProjectFormatError::InvalidProjectId(v) => concat("invalid project id: ", v.as_str()),
            ProjectFormatError::InvalidProjectType(v) => concat("invalid project type: ", v.as_str()),
            ProjectFormatError::InvalidProjectPath { field, value } => concat4("invalid project path in ", field.as_str(), ": ", value.as_str()),
            ProjectFormatError::CreateDirectoryFailed { path, message } => concat4("project directory could not be created: ", path.as_str(), ": ", message.as_str()),
            ProjectFormatError::WriteFileFailed { path, message } => concat4("project file could not be written: ", path.as_str(), ": ", message.as_str()),
            ProjectFormatError::InstallManifestFailed { path, message } => concat4("project manifest could not be installed: ", path.as_str(), ": ", message.as_str()),
            ProjectFormatError::ReadDirectoryFailed { path, message } => concat4("project directory could not be read: ", path.as_str(), ": ", message.as_str()),
            ProjectFormatError::DuplicatePublishTarget(v) => concat("duplicate publish target: ", v.as_str()),
            ProjectFormatError::InvalidPublishTargetName(v) => concat("invalid publish target name: ", v.as_str()),
        }
    }
}

/// The message of a host or identity failure.
pub open spec fn host_error_text(e: HostIdentityError) -> Seq<char> {
    match e {
        HostIdentityError::NotFound(p) => "record path does not exist: "@ + p@,
        HostIdentityError::NotFile(p) => "record path is not a file: "@ + p@,
        HostIdentityError::Unreadable { path, message } => "record could not be read: "@ + path@ + ": "@ + message@,
        HostIdentityError::ParseFailed(m) => "record could not be parsed: "@ + m@,
        HostIdentityError::DirectoryNotFound(p) => "directory path does not exist: "@ + p@,
        HostIdentityError::NotDirectory(p) => "directory path is not a directory: "@ + p@,
        HostIdentityError::ReadDirectoryFailed { path, message } => "directory could not be read: "@ + path@ + ": "@ + message@,
    }
}

impl HostIdentityError {
    /// The message that describes the failure.
    pub fn message(&self) -> (r: String)
        ensures
            r@ == host_error_text(*self),
    {
        match self {
            HostIdentityError::NotFound(p) => concat("record path does not exist: ", p.as_str()),
            HostIdentityError::NotFile(p) => concat("record path is not a file: ", p.as_str()),
            HostIdentityError::Unreadable { path, message } => concat4("record could not be read: ", path.as_str(), ": ", message.as_str()),
            HostIdentityError::ParseFailed(m) => concat("record could not be parsed: ", m.as_str()),
            HostIdentityError::DirectoryNotFound(p) => concat("directory path does not exist: ", p.as_str()),
            HostIdentityError::NotDirectory(p) => concat("directory path is not a directory: ", p.as_str()),
            HostIdentityError::ReadDirectoryFailed { path, message } => concat4("directory could not be read: ", path.as_str(), ": ", message.as_str()),
        }
    }
}

/// The message of a publication-planning failure.
pub open spec fn plan_error_text(e: PublishPlanError) -> Seq<char> {
    match e {
        PublishPlanError::Project(p) => project_error_text(p),
        PublishPlanError::ProjectInvalid => "project validation failed"@,
        PublishPlanError::TargetNotFound(t) => "publish target not found: "@ + t@,
        PublishPlanError::ReadDirectoryFailed { path, message } => "project files could not be read: "@
            + path@ + ": "@ + message@,
    }
}

impl PublishPlanError {
    /// The message that describes the failure.
    pub fn message(&self) -> (r: String)
        ensures
            r@ == plan_error_text(*self),
    {
        match self {
            PublishPlanError::Project(p) => p.message(),
            PublishPlanError::ProjectInvalid => string_of("project validation failed"),
            PublishPlanError::TargetNotFound(t) => concat("publish target not found: ", t.as_str()),
            PublishPlanError::ReadDirectoryFailed { path, message } => concat4(
                "project files could not be read: ",
                path.as_str(),
                ": ",
                message.as_str(),
            ),
        }
    }
}

/// The message of a history failure.
pub open spec fn history_error_text(e: HistoryError) -> Seq<char> {
    match e {
        HistoryError::PermissionDenied(m) => m@,
        HistoryError::InvalidInput(m) => m@,
        HistoryError::Io(m) => m@,
    }
}

impl HistoryError {
    /// The message that describes the failure.
    pub fn message(&self) -> (r: String)
        ensures
            r@ == history_error_text(*self),
    {
        match self {
            HistoryError::PermissionDenied(m) => m.clone(),
            HistoryError::InvalidInput(m) => m.clone(),
            HistoryError::Io(m) => m.clone(),
        }
    }
}

} // verus!
