use vstd::prelude::*;
use crate::text::{
    append_decimal, append_opt_toml_line, append_toml_escaped, append_toml_line, opt_toml_line, toml_line, concat, concat3, decimal, has_parent_component,
    has_parent_component_exec, is_absolute_exec, is_absolute_path, is_valid_id, is_valid_id_text,
    joined_path, lemma_lex_le_total, lemma_lex_le_transitive, lex_le, path_join, push_char,
    string_of, text_eq, text_le, toml_escaped,
};
use crate::order::{is_sorted, keeps_tie_order, stable_sort, SortOrder};
use crate::validation::{
    add_issue, error, error_issue, report_of, views, warning, warning_issue, with_severity,
    IssueView, ValidationIssue,
};
pub use crate::validation::{Severity, ValidationReport};

verus! {

pub const SUPPORTED_SCHEMA: u32 = 1;

/// A project manifest (`project.toml`).
#[derive(Debug)]
pub struct Manifest {
    pub waystone: WaystoneSection,
    pub project: ProjectSection,
    pub content: ContentSection,
    pub audio: Option<AudioSection>,
    pub feed: Option<FeedSection>,
    pub publish: Option<PublishSection>,
}

#[derive(Debug)]
pub struct WaystoneSection {
    pub schema: u32,
    pub created_by: Option<String>,
}

#[derive(Debug)]
pub struct ProjectSection {
    pub id: String,
    pub name: String,
    pub project_type: String,
    pub language: Option<String>,
    pub author: Option<String>,
    pub description: Option<String>,
}

#[derive(Debug)]
pub struct ContentSection {
    pub root: String,
    pub index: String,
}

#[derive(Debug)]
pub struct AudioSection {
    pub masters: Option<String>,
    pub published: Option<String>,
    pub metadata: Option<String>,
    pub master_format: Option<String>,
    pub publish_format: Option<String>,
    pub publish_bitrate: Option<u32>,
}

#[derive(Debug)]
pub struct FeedSection {
    pub enabled: Option<bool>,
    pub feed_type: Option<String>,
    pub path: Option<String>,
    pub title: Option<String>,
}

#[derive(Debug)]
pub struct PublishSection {
    pub targets: Option<Vec<PublishTarget>>,
}

#[derive(Debug)]
pub struct PublishTarget {
    pub name: String,
    pub method: String,
    pub host: Option<String>,
    pub identity: Option<String>,
    pub remote_path: Option<String>,
    pub url: Option<String>,
    pub path: Option<String>,
    pub delete_policy: Option<String>,
}

/// What the file system shows of the paths that a manifest names, relative to
/// the project root: whether the content root is a directory, whether the
/// content index inside it is a file, and whether the feed file (if the feed
/// names a path) is a file.
#[derive(Debug, Clone, Copy)]
pub struct ProjectFiles {
    pub content_root_is_dir: bool,
    pub content_index_is_file: bool,
    pub feed_file_is_file: bool,
}

// ---------------------------------------------------------------------------
// Vocabulary
// ---------------------------------------------------------------------------

pub open spec fn is_supported_project_type(t: Seq<char>) -> bool {
    ||| t == "capsule"@
    ||| t == "gemlog"@
    ||| t == "gopherhole"@
    ||| t == "spartan-site"@
    ||| t == "audio-series"@
    ||| t == "feed"@
    ||| t == "pubnix-home"@
    ||| t == "documentation-archive"@
    ||| t == "classroom-assignment"@
    ||| t == "mixed-publication"@
}

pub open spec fn is_audio_capable_project_type(t: Seq<char>) -> bool {
    t == "audio-series"@ || t == "mixed-publication"@
}

pub open spec fn is_supported_publish_method(m: Seq<char>) -> bool {
    ||| m == "rsync"@
    ||| m == "scp"@
    ||| m == "sftp"@
    ||| m == "titan"@
    ||| m == "git"@
    ||| m == "local-service"@
    ||| m == "removable"@
}

pub fn supported_project_type(project_type: &str) -> (r: bool)
    ensures
        r == is_supported_project_type(project_type@),
{
    text_eq(project_type, "capsule") || text_eq(project_type, "gemlog") || text_eq(
        project_type,
        "gopherhole",
    ) || text_eq(project_type, "spartan-site") || text_eq(project_type, "audio-series")
        || text_eq(project_type, "feed") || text_eq(project_type, "pubnix-home") || text_eq(
        project_type,
        "documentation-archive",
    ) || text_eq(project_type, "classroom-assignment") || text_eq(
        project_type,
        "mixed-publication",
    )
}

pub fn audio_capable_project_type(project_type: &str) -> (r: bool)
    ensures
        r == is_audio_capable_project_type(project_type@),
{
    text_eq(project_type, "audio-series") || text_eq(project_type, "mixed-publication")
}

pub fn supported_publish_method(method: &str) -> (r: bool)
    ensures
        r == is_supported_publish_method(method@),
{
    text_eq(method, "rsync") || text_eq(method, "scp") || text_eq(method, "sftp") || text_eq(
        method,
        "titan",
    ) || text_eq(method, "git") || text_eq(method, "local-service") || text_eq(
        method,
        "removable",
    )
}

// ---------------------------------------------------------------------------
// What a manifest is found to break
// ---------------------------------------------------------------------------

/// The issue a project path gets: it must be relative, and must not climb upward.
pub open spec fn local_path_issues(field: Seq<char>, value: Seq<char>) -> Seq<IssueView> {
    if is_absolute_path(value) {
        seq![
            error_issue(
                "invalid_project_path"@,
                field + " must be relative: "@ + value,
                field,
            ),
        ]
    } else if has_parent_component(value) {
        seq![
            error_issue(
                "invalid_project_path"@,
                field + " must not traverse upward: "@ + value,
                field,
            ),
        ]
    } else {
        Seq::empty()
    }
}

pub open spec fn opt_local_path_issues(field: Seq<char>, value: Option<String>) -> Seq<IssueView> {
    match value {
        Some(v) => local_path_issues(field, v@),
        None => Seq::empty(),
    }
}

pub open spec fn schema_issues(m: Manifest) -> Seq<IssueView> {
    if m.waystone.schema != SUPPORTED_SCHEMA {
        seq![
            error_issue(
                "unsupported_schema"@,
                "schema "@ + decimal(m.waystone.schema as nat) + " is not supported; expected "@
                    + decimal(SUPPORTED_SCHEMA as nat),
                "waystone.schema"@,
            ),
        ]
    } else {
        Seq::empty()
    }
}

pub open spec fn project_type_issues(m: Manifest) -> Seq<IssueView> {
    if !is_supported_project_type(m.project.project_type@) {
        seq![
            error_issue(
                "unsupported_project_type"@,
                "unsupported project type: "@ + m.project.project_type@,
                "project.type"@,
            ),
        ]
    } else {
        Seq::empty()
    }
}

pub open spec fn content_issues(m: Manifest, f: ProjectFiles) -> Seq<IssueView> {
    let root = m.content.root@;
    let index = m.content.index@;
    local_path_issues("content.root"@, root) + local_path_issues("content.index"@, index) + (if !f.content_root_is_dir {
        seq![error_issue("missing_content_root"@, "content root is missing: "@ + root, root)]
    } else {
        Seq::empty()
    }) + (if !f.content_index_is_file {
        seq![
            error_issue(
                "missing_content_index"@,
                "content index is missing: "@ + root + "/"@ + index,
                root + "/"@ + index,
            ),
        ]
    } else {
        Seq::empty()
    })
}

pub open spec fn audio_issues(m: Manifest) -> Seq<IssueView> {
    match m.audio {
        Some(a) => opt_local_path_issues("audio.masters"@, a.masters) + opt_local_path_issues(
            "audio.published"@,
            a.published,
        ) + opt_local_path_issues("audio.metadata"@, a.metadata),
        None => Seq::empty(),
    }
}

pub open spec fn feed_issues(m: Manifest, f: ProjectFiles) -> Seq<IssueView> {
    match m.feed {
        Some(feed) => match feed.path {
            Some(p) => local_path_issues("feed.path"@, p@) + (if feed.enabled == Some(true)
                && !f.feed_file_is_file {
                seq![
                    warning_issue(
                        "missing_feed_file"@,
                        "feed is enabled but file is missing: "@ + p@,
                        p@,
                    ),
                ]
            } else {
                Seq::empty()
            }),
            None => Seq::empty(),
        },
        None => Seq::empty(),
    }
}

/// The publish targets a manifest lists.
pub open spec fn targets_of(m: Manifest) -> Seq<PublishTarget> {
    match m.publish {
        Some(p) => match p.targets {
            Some(t) => t@,
            None => Seq::empty(),
        },
        None => Seq::empty(),
    }
}

/// An earlier target has the same name as target `i`.
pub open spec fn is_duplicate_target(ts: Seq<PublishTarget>, i: int) -> bool {
    exists|j: int| 0 <= j < i && (#[trigger] ts[j]).name@ == ts[i].name@
}

pub open spec fn target_field(name: Seq<char>, field: Seq<char>) -> Seq<char> {
    "publish.targets."@ + name + "."@ + field
}

/// Absent or empty.
pub open spec fn is_missing(o: Option<String>) -> bool {
    match o {
        Some(s) => s@.len() == 0,
        None => true,
    }
}

pub open spec fn delete_policy_issues(t: PublishTarget) -> Seq<IssueView> {
    match t.delete_policy {
        Some(p) => if p@ == "confirm"@ || p@ == "forbid"@ {
            Seq::empty()
        } else {
            seq![
                error_issue(
                    "unsupported_delete_policy"@,
                    "unsupported delete policy for target "@ + t.name@ + ": "@ + p@,
                    target_field(t.name@, "delete_policy"@),
                ),
            ]
        },
        None => Seq::empty(),
    }
}

pub open spec fn requirement_issue(
    missing: bool,
    code: Seq<char>,
    message: Seq<char>,
    path: Seq<char>,
) -> Seq<IssueView> {
    if missing {
        seq![error_issue(code, message, path)]
    } else {
        Seq::empty()
    }
}

pub open spec fn shape_issues(t: PublishTarget) -> Seq<IssueView> {
    let m = t.method@;
    let n = t.name@;
    if m == "rsync"@ || m == "scp"@ || m == "sftp"@ {
        requirement_issue(
            is_missing(t.host),
            "missing_publish_host"@,
            m + " target "@ + n + " requires host"@,
            target_field(n, "host"@),
        ) + requirement_issue(
            is_missing(t.remote_path),
            "missing_remote_path"@,
            m + " target "@ + n + " requires remote_path"@,
            target_field(n, "remote_path"@),
        ) + requirement_issue(
            is_missing(t.identity),
            "missing_publish_identity"@,
            m + " target "@ + n + " requires identity"@,
            target_field(n, "identity"@),
        )
    } else if m == "removable"@ {
        requirement_issue(
            is_missing(t.path),
            "missing_export_path"@,
            "removable target "@ + n + " requires path"@,
            target_field(n, "path"@),
        )
    } else {
        Seq::empty()
    }
}

/// The issues of target `i` of `ts`.
pub open spec fn target_issues(ts: Seq<PublishTarget>, i: int) -> Seq<IssueView> {
    let t = ts[i];
    (if is_duplicate_target(ts, i) {
        seq![
            error_issue(
                "duplicate_publish_target"@,
                "duplicate publish target: "@ + t.name@,
                "publish.targets."@ + t.name@,
            ),
        ]
    } else {
        Seq::empty()
    }) + (if !is_supported_publish_method(t.method@) {
        seq![
            error_issue(
                "unsupported_publish_method"@,
                "unsupported publish method: "@ + t.method@,
                target_field(t.name@, "method"@),
            ),
        ]
    } else {
        Seq::empty()
    }) + opt_local_path_issues(target_field(t.name@, "path"@), t.path) + delete_policy_issues(t)
        + shape_issues(t)
}

/// The issues of the first `n` targets of `ts`.
pub open spec fn targets_issues(ts: Seq<PublishTarget>, n: int) -> Seq<IssueView>
    decreases n,
{
    if n <= 0 {
        Seq::empty()
    } else {
        targets_issues(ts, n - 1) + target_issues(ts, n - 1)
    }
}

/// Everything that validation finds in a manifest, in the order it reports it.
pub open spec fn manifest_issues(m: Manifest, f: ProjectFiles) -> Seq<IssueView> {
    schema_issues(m) + project_type_issues(m) + content_issues(m, f) + audio_issues(m)
        + feed_issues(m, f) + targets_issues(targets_of(m), targets_of(m).len() as int)
}

// ---------------------------------------------------------------------------
// Validation
// ---------------------------------------------------------------------------

/// Records an issue if `value` is an absolute path or climbs upward.
pub fn validate_local_path(issues: &mut Vec<ValidationIssue>, field: &str, value: &str)
    ensures
        views(final(issues)@) == views(old(issues)@) + local_path_issues(field@, value@),
{
    let ghost start = views(issues@);
    if is_absolute_exec(value) {
        let message = concat3(field, " must be relative: ", value);
        add_issue(issues, error("invalid_project_path", message, Some(string_of(field))));
        assert(views(issues@) =~= start + local_path_issues(field@, value@));
        return ;
    }
    if has_parent_component_exec(value) {
        let message = concat3(field, " must not traverse upward: ", value);
        add_issue(issues, error("invalid_project_path", message, Some(string_of(field))));
        assert(views(issues@) =~= start + local_path_issues(field@, value@));
    } else {
        assert(views(issues@) =~= start + local_path_issues(field@, value@));
    }
}

fn validate_opt_local_path(issues: &mut Vec<ValidationIssue>, field: &str, value: &Option<String>)
    ensures
        views(final(issues)@) == views(old(issues)@) + opt_local_path_issues(field@, *value),
{
    match value {
        Some(v) => validate_local_path(issues, field, v.as_str()),
        None => {
            assert(views(issues@) =~= views(issues@) + opt_local_path_issues(field@, *value));
        },
    }
}

fn opt_is_missing(o: &Option<String>) -> (r: bool)
    ensures
        r == is_missing(*o),
{
    match o {
        Some(s) => s.unicode_len() == 0,
        None => true,
    }
}

fn target_field_text(name: &str, field: &str) -> (r: String)
    ensures
        r@ == target_field(name@, field@),
{
    let mut out = string_of("publish.targets.");
    out.append(name);
    out.append(".");
    out.append(field);
    out
}

/// Records an issue for a delete policy other than `confirm` or `forbid`.
pub fn validate_delete_policy(issues: &mut Vec<ValidationIssue>, target: &PublishTarget)
    ensures
        views(final(issues)@) == views(old(issues)@) + delete_policy_issues(*target),
{
    let ghost start = views(issues@);
    match &target.delete_policy {
        Some(policy) => {
            if !(text_eq(policy.as_str(), "confirm") || text_eq(policy.as_str(), "forbid")) {
                let mut message = string_of("unsupported delete policy for target ");
                message.append(target.name.as_str());
                message.append(": ");
                message.append(policy.as_str());
                let path = target_field_text(target.name.as_str(), "delete_policy");
                add_issue(issues, error("unsupported_delete_policy", message, Some(path)));
            }
        },
        None => {},
    }
    assert(views(issues@) =~= start + delete_policy_issues(*target));
}

fn require_field(
    issues: &mut Vec<ValidationIssue>,
    missing: bool,
    code: &'static str,
    message: String,
    path: String,
)
    ensures
        views(final(issues)@) == views(old(issues)@) + requirement_issue(
            missing,
            code@,
            message@,
            path@,
        ),
{
    let ghost start = views(issues@);
    if missing {
        add_issue(issues, error(code, message, Some(path)));
    }
    assert(views(issues@) =~= start + requirement_issue(missing, code@, message@, path@));
}

fn requires_message(method: &str, name: &str, what: &str) -> (r: String)
    ensures
        r@ == method@ + " target "@ + name@ + what@,
{
    let mut m = string_of(method);
    m.append(" target ");
    m.append(name);
    m.append(what);
    m
}

/// Records the fields that the target's method needs and that it lacks.
pub fn validate_target_shape(issues: &mut Vec<ValidationIssue>, target: &PublishTarget)
    ensures
        views(final(issues)@) == views(old(issues)@) + shape_issues(*target),
{
    let ghost start = views(issues@);
    let method = target.method.as_str();
    let name = target.name.as_str();
    if text_eq(method, "rsync") || text_eq(method, "scp") || text_eq(method, "sftp") {
        require_field(
            issues,
            opt_is_missing(&target.host),
            "missing_publish_host",
            requires_message(method, name, " requires host"),
            target_field_text(name, "host"),
        );
        let ghost a = views(issues@);
        require_field(
            issues,
            opt_is_missing(&target.remote_path),
            "missing_remote_path",
            requires_message(method, name, " requires remote_path"),
            target_field_text(name, "remote_path"),
        );
        let ghost b = views(issues@);
        require_field(
            issues,
            opt_is_missing(&target.identity),
            "missing_publish_identity",
            requires_message(method, name, " requires identity"),
            target_field_text(name, "identity"),
        );
        assert(views(issues@) =~= start + shape_issues(*target));
    } else if text_eq(method, "removable") {
        let mut message = string_of("removable target ");
        message.append(name);
        message.append(" requires path");
        require_field(
            issues,
            opt_is_missing(&target.path),
            "missing_export_path",
            message,
            target_field_text(name, "path"),
        );
        assert(views(issues@) =~= start + shape_issues(*target));
    } else {
        assert(views(issues@) =~= start + shape_issues(*target));
    }
}

fn validate_target(issues: &mut Vec<ValidationIssue>, targets: &Vec<PublishTarget>, i: usize)
    requires
        i < targets@.len(),
    ensures
        views(final(issues)@) == views(old(issues)@) + target_issues(targets@, i as int),
{
    let ghost start = views(issues@);
    let target = &targets[i];
    let mut duplicate = false;
    let mut j: usize = 0;
    while j < i
        invariant
            i < targets@.len(),
            j <= i,
            *target == targets@[i as int],
            duplicate == (exists|k: int| 0 <= k < j && (#[trigger] targets@[k]).name@ == targets@[i as int].name@),
        decreases i - j,
    {
        if text_eq(targets[j].name.as_str(), target.name.as_str()) {
            duplicate = true;
        }
        j = j + 1;
    }
    if duplicate {
        let message = concat(
            "duplicate publish target: ",
            target.name.as_str(),
        );
        let path = concat("publish.targets.", target.name.as_str());
        add_issue(issues, error("duplicate_publish_target", message, Some(path)));
    }
    let ghost a = views(issues@);
    if !supported_publish_method(target.method.as_str()) {
        let message = concat("unsupported publish method: ", target.method.as_str());
        let path = target_field_text(target.name.as_str(), "method");
        add_issue(issues, error("unsupported_publish_method", message, Some(path)));
    }
    let ghost b = views(issues@);
    let field = target_field_text(target.name.as_str(), "path");
    validate_opt_local_path(issues, field.as_str(), &target.path);
    let ghost c = views(issues@);
    validate_delete_policy(issues, target);
    let ghost d = views(issues@);
    validate_target_shape(issues, target);
    assert(views(issues@) =~= start + target_issues(targets@, i as int));
}

/// Records the issues of every publish target of the manifest.
pub fn validate_publish_targets(issues: &mut Vec<ValidationIssue>, manifest: &Manifest)
    ensures
        views(final(issues)@) == views(old(issues)@) + targets_issues(
            targets_of(*manifest),
            targets_of(*manifest).len() as int,
        ),
{
    let ghost start = views(issues@);
    match &manifest.publish {
        Some(publish) => match &publish.targets {
            Some(targets) => {
                let mut i: usize = 0;
                assert(views(issues@) =~= start + targets_issues(targets@, 0));
                while i < targets.len()
                    invariant
                        i <= targets@.len(),
                        targets@ == targets_of(*manifest),
                        views(issues@) == start + targets_issues(targets@, i as int),
                    decreases targets@.len() - i,
                {
                    validate_target(issues, targets, i);
                    assert(views(issues@) =~= start + targets_issues(targets@, i + 1));
                    i = i + 1;
                }
            },
            None => {
                assert(views(issues@) =~= start + targets_issues(targets_of(*manifest), 0));
            },
        },
        None => {
            assert(views(issues@) =~= start + targets_issues(targets_of(*manifest), 0));
        },
    }
}

fn validate_schema(issues: &mut Vec<ValidationIssue>, manifest: &Manifest)
    ensures
        views(final(issues)@) == views(old(issues)@) + schema_issues(*manifest),
{
    let ghost start = views(issues@);
    if manifest.waystone.schema != SUPPORTED_SCHEMA {
        let mut message = string_of("schema ");
        append_decimal(&mut message, manifest.waystone.schema as u64);
        message.append(" is not supported; expected ");
        append_decimal(&mut message, SUPPORTED_SCHEMA as u64);
        add_issue(issues, error("unsupported_schema", message, Some(string_of("waystone.schema"))));
    }
    assert(views(issues@) =~= start + schema_issues(*manifest));
}

fn validate_project_type(issues: &mut Vec<ValidationIssue>, manifest: &Manifest)
    ensures
        views(final(issues)@) == views(old(issues)@) + project_type_issues(*manifest),
{
    let ghost start = views(issues@);
    if !supported_project_type(manifest.project.project_type.as_str()) {
        let message = concat("unsupported project type: ", manifest.project.project_type.as_str());
        add_issue(issues, error("unsupported_project_type", message, Some(string_of("project.type"))));
    }
    assert(views(issues@) =~= start + project_type_issues(*manifest));
}

fn validate_content(issues: &mut Vec<ValidationIssue>, manifest: &Manifest, files: &ProjectFiles)
    ensures
        views(final(issues)@) == views(old(issues)@) + content_issues(*manifest, *files),
{
    let ghost start = views(issues@);
    let root = manifest.content.root.as_str();
    let index = manifest.content.index.as_str();
    validate_local_path(issues, "content.root", root);
    let ghost a = views(issues@);
    validate_local_path(issues, "content.index", index);
    let ghost b = views(issues@);
    if !files.content_root_is_dir {
        let message = concat("content root is missing: ", root);
        add_issue(issues, error("missing_content_root", message, Some(string_of(root))));
    }
    let ghost c = views(issues@);
    if !files.content_index_is_file {
        let mut message = string_of("content index is missing: ");
        message.append(root);
        message.append("/");
        message.append(index);
        let path = concat3(root, "/", index);
        add_issue(issues, error("missing_content_index", message, Some(path)));
    }
    assert(views(issues@) =~= start + content_issues(*manifest, *files));
}

fn validate_audio(issues: &mut Vec<ValidationIssue>, manifest: &Manifest)
    ensures
        views(final(issues)@) == views(old(issues)@) + audio_issues(*manifest),
{
    let ghost start = views(issues@);
    match &manifest.audio {
        Some(audio) => {
            validate_opt_local_path(issues, "audio.masters", &audio.masters);
            let ghost a = views(issues@);
            validate_opt_local_path(issues, "audio.published", &audio.published);
            let ghost b = views(issues@);
            validate_opt_local_path(issues, "audio.metadata", &audio.metadata);
        },
        None => {},
    }
    assert(views(issues@) =~= start + audio_issues(*manifest));
}

fn validate_feed(issues: &mut Vec<ValidationIssue>, manifest: &Manifest, files: &ProjectFiles)
    ensures
        views(final(issues)@) == views(old(issues)@) + feed_issues(*manifest, *files),
{
    let ghost start = views(issues@);
    match &manifest.feed {
        Some(feed) => match &feed.path {
            Some(path) => {
                validate_local_path(issues, "feed.path", path.as_str());
                let ghost a = views(issues@);
                let enabled = match feed.enabled {
                    Some(e) => e,
                    None => false,
                };
                if enabled && !files.feed_file_is_file {
                    let message = concat("feed is enabled but file is missing: ", path.as_str());
                    add_issue(issues, warning("missing_feed_file", message, Some(path.clone())));
                }
            },
            None => {},
        },
        None => {},
    }
    assert(views(issues@) =~= start + feed_issues(*manifest, *files));
}

/// Validates a manifest against the schema and against what the file system
/// shows of its paths.
pub fn validate_manifest(manifest: &Manifest, files: &ProjectFiles) -> (r: ValidationReport)
    ensures
        report_of(manifest_issues(*manifest, *files), r),
{
    let mut issues: Vec<ValidationIssue> = Vec::new();
    let ghost m = *manifest;
    let ghost f = *files;
    validate_schema(&mut issues, manifest);
    let ghost a = views(issues@);
    validate_project_type(&mut issues, manifest);
    let ghost b = views(issues@);
    validate_content(&mut issues, manifest, files);
    let ghost c = views(issues@);
    validate_audio(&mut issues, manifest);
    let ghost d = views(issues@);
    validate_feed(&mut issues, manifest, files);
    let ghost e = views(issues@);
    validate_publish_targets(&mut issues, manifest);
    assert(views(issues@) =~= manifest_issues(m, f));
    ValidationReport::from_issues(issues)
}

} // verus!

verus! {

/// The ways a project operation can fail.
#[derive(Debug)]
pub enum ProjectFormatError {
    ProjectNotFound(String),
    ProjectNotDirectory(String),
    ManifestMissing(String),
    ManifestUnreadable { path: String, message: String },
    ManifestParseFailed(String),
    ProjectAlreadyExists(String),
    InvalidProjectId(String),
    InvalidProjectType(String),
    InvalidProjectPath { field: String, value: String },
    CreateDirectoryFailed { path: String, message: String },
    WriteFileFailed { path: String, message: String },
    InstallManifestFailed { path: String, message: String },
    ReadDirectoryFailed { path: String, message: String },
    DuplicatePublishTarget(String),
    InvalidPublishTargetName(String),
}

/// A portable project path: relative and without `..`.
pub open spec fn is_portable_path(value: Seq<char>) -> bool {
    !is_absolute_path(value) && !has_parent_component(value)
}

/// Accepts a non-empty id of ASCII letters, digits, `-` and `_`.
pub fn validate_project_id(id: &str) -> (r: Result<(), ProjectFormatError>)
    ensures
        match r {
            Ok(()) => is_valid_id(id@),
            Err(ProjectFormatError::InvalidProjectId(v)) => !is_valid_id(id@) && v@ == id@,
            Err(_) => false,
        },
{
    if is_valid_id_text(id) {
        Ok(())
    } else {
        Err(ProjectFormatError::InvalidProjectId(string_of(id)))
    }
}

/// Accepts a non-empty target name of ASCII letters, digits, `-` and `_`.
pub fn validate_publish_target_name(name: &str) -> (r: Result<(), ProjectFormatError>)
    ensures
        match r {
            Ok(()) => is_valid_id(name@),
            Err(ProjectFormatError::InvalidPublishTargetName(v)) => !is_valid_id(name@) && v@
                == name@,
            Err(_) => false,
        },
{
    if is_valid_id_text(name) {
        Ok(())
    } else {
        Err(ProjectFormatError::InvalidPublishTargetName(string_of(name)))
    }
}

/// Accepts a relative path without `..`.
pub fn validate_portable_path(field: &str, value: &str) -> (r: Result<(), ProjectFormatError>)
    ensures
        match r {
            Ok(()) => is_portable_path(value@),
            Err(ProjectFormatError::InvalidProjectPath { field: f, value: v }) => !is_portable_path(
                value@,
            ) && f@ == field@ && v@ == value@,
            Err(_) => false,
        },
{
    if is_absolute_exec(value) || has_parent_component_exec(value) {
        Err(ProjectFormatError::InvalidProjectPath { field: string_of(field), value: string_of(value) })
    } else {
        Ok(())
    }
}

/// The options of a new project.
#[derive(Debug, Clone)]
pub struct ProjectCreateOptions {
    pub parent: String,
    pub id: String,
    pub name: String,
    pub project_type: String,
    pub content_index: String,
    pub language: Option<String>,
    pub author: Option<String>,
}

pub open spec fn manifest_head_text(o: ProjectCreateOptions) -> Seq<char> {
    "[waystone]\n"@ + "schema = "@ + decimal(SUPPORTED_SCHEMA as nat) + "\n"@
        + "created_by = \"WaystoneOS\"\n\n"@ + "[project]\n"@ + toml_line("id"@, o.id@) + toml_line(
        "name"@,
        o.name@,
    ) + toml_line("type"@, o.project_type@) + opt_toml_line("language"@, o.language)
        + opt_toml_line("author"@, o.author)
}

pub open spec fn manifest_content_text(o: ProjectCreateOptions) -> Seq<char> {
    "\n[content]\n"@ + "root = \"content\"\n"@ + toml_line("index"@, o.content_index@)
}

pub open spec fn manifest_audio_text(o: ProjectCreateOptions) -> Seq<char> {
    "\n[audio]\n"@ + "masters = \"audio/masters\"\n"@ + "published = \"audio/published\"\n"@
        + "metadata = \"audio/metadata\"\n"@ + "master_format = \"flac\"\n"@
        + "publish_format = \"opus\"\n"@ + "publish_bitrate = 96000\n"@ + "\n[feed]\n"@
        + "enabled = true\n"@ + "type = \"atom\"\n"@ + "path = \"feeds/feed.xml\"\n"@ + toml_line(
        "title"@,
        o.name@,
    )
}

/// The `project.toml` text of a new project.
pub open spec fn manifest_text(o: ProjectCreateOptions) -> Seq<char> {
    manifest_head_text(o) + manifest_content_text(o) + (if is_audio_capable_project_type(
        o.project_type@,
    ) {
        manifest_audio_text(o)
    } else {
        Seq::empty()
    })
}

fn append_manifest_head(m: &mut String, options: &ProjectCreateOptions)
    ensures
        final(m)@ == old(m)@ + manifest_head_text(*options),
{
    let ghost start = m@;
    m.append("[waystone]\n");
    m.append("schema = ");
    append_decimal(m, SUPPORTED_SCHEMA as u64);
    m.append("\n");
    m.append("created_by = \"WaystoneOS\"\n\n");
    m.append("[project]\n");
    let ghost a = m@;
    append_toml_line(m, "id", options.id.as_str());
    append_toml_line(m, "name", options.name.as_str());
    append_toml_line(m, "type", options.project_type.as_str());
    append_opt_toml_line(m, "language", &options.language);
    append_opt_toml_line(m, "author", &options.author);
    assert(m@ =~= start + manifest_head_text(*options));
}

fn append_manifest_audio(m: &mut String, options: &ProjectCreateOptions)
    ensures
        final(m)@ == old(m)@ + manifest_audio_text(*options),
{
    let ghost start = m@;
    m.append("\n[audio]\n");
    m.append("masters = \"audio/masters\"\n");
    m.append("published = \"audio/published\"\n");
    m.append("metadata = \"audio/metadata\"\n");
    m.append("master_format = \"flac\"\n");
    m.append("publish_format = \"opus\"\n");
    m.append("publish_bitrate = 96000\n");
    m.append("\n[feed]\n");
    m.append("enabled = true\n");
    m.append("type = \"atom\"\n");
    m.append("path = \"feeds/feed.xml\"\n");
    append_toml_line(m, "title", options.name.as_str());
    assert(m@ =~= start + manifest_audio_text(*options));
}

/// Renders the manifest of a new project.
pub fn render_manifest(options: &ProjectCreateOptions) -> (r: String)
    ensures
        r@ == manifest_text(*options),
{
    let mut m = String::new();
    append_manifest_head(&mut m, options);
    let ghost a = m@;
    m.append("\n[content]\n");
    m.append("root = \"content\"\n");
    append_toml_line(&mut m, "index", options.content_index.as_str());
    assert(m@ =~= manifest_head_text(*options) + manifest_content_text(*options));
    if audio_capable_project_type(options.project_type.as_str()) {
        append_manifest_audio(&mut m, options);
    }
    assert(m@ =~= manifest_text(*options));
    m
}

/// The placeholder that a new audio project's feed file holds.
pub fn initial_feed_placeholder() -> (r: &'static str)
    ensures
        r@ == feed_placeholder_text(),
{
    "<?xml version=\"1.0\" encoding=\"utf-8\"?>\n<!-- WaystoneOS feed placeholder; run record generate-feed after preparing entries. -->\n"
}

pub open spec fn feed_placeholder_text() -> Seq<char> {
    "<?xml version=\"1.0\" encoding=\"utf-8\"?>\n<!-- WaystoneOS feed placeholder; run record generate-feed after preparing entries. -->\n"@
}

/// One file-system step of creating a project.
#[derive(Debug)]
pub enum CreateStep {
    CreateDirectory(String),
    WriteFile { path: String, contents: String },
    Rename { from: String, to: String },
}

pub enum StepView {
    Dir(Seq<char>),
    Write(Seq<char>, Seq<char>),
    Move(Seq<char>, Seq<char>),
}

impl View for CreateStep {
    type V = StepView;

    open spec fn view(&self) -> StepView {
        match self {
            CreateStep::CreateDirectory(p) => StepView::Dir(p@),
            CreateStep::WriteFile { path, contents } => StepView::Write(path@, contents@),
            CreateStep::Rename { from, to } => StepView::Move(from@, to@),
        }
    }
}

/// The writes that create a project, in the order they are made.
#[derive(Debug)]
pub struct ProjectCreation {
    pub project_path: String,
    pub steps: Vec<CreateStep>,
    pub schema: u32,
}

pub open spec fn project_path_of(o: ProjectCreateOptions) -> Seq<char> {
    joined_path(o.parent@, o.id@ + ".wayproject"@)
}

/// The steps that create the project directory `p` from options `o`.
pub open spec fn creation_steps(o: ProjectCreateOptions, p: Seq<char>) -> Seq<StepView> {
    let content = joined_path(p, "content"@);
    seq![
        StepView::Dir(content),
        StepView::Write(joined_path(content, o.content_index@), "# "@ + o.name@ + "\n\n"@),
    ] + (if is_audio_capable_project_type(o.project_type@) {
        seq![
            StepView::Dir(joined_path(p, "audio/masters"@)),
            StepView::Dir(joined_path(p, "audio/published"@)),
            StepView::Dir(joined_path(p, "audio/metadata"@)),
            StepView::Dir(joined_path(p, "feeds"@)),
            StepView::Write(joined_path(p, "feeds/feed.xml"@), feed_placeholder_text()),
        ]
    } else {
        Seq::empty()
    }) + seq![
        StepView::Write(joined_path(p, "project.toml.tmp"@), manifest_text(o)),
        StepView::Move(joined_path(p, "project.toml.tmp"@), joined_path(p, "project.toml"@)),
    ]
}

pub open spec fn step_views(s: Seq<CreateStep>) -> Seq<StepView> {
    s.map_values(|x: CreateStep| x@)
}

/// The directory a new project gets: `<parent>/<id>.wayproject`.
pub fn project_path_for(options: &ProjectCreateOptions) -> (r: String)
    ensures
        r@ == project_path_of(*options),
{
    let child = concat(options.id.as_str(), ".wayproject");
    path_join(options.parent.as_str(), child.as_str())
}

fn push_step(steps: &mut Vec<CreateStep>, step: CreateStep)
    ensures
        step_views(final(steps)@) == step_views(old(steps)@).push(step@),
{
    assert(step_views(steps@.push(step)) =~= step_views(steps@).push(step@));
    steps.push(step);
}

/// What creating a project gives: the refusal of the first check that
/// fails, or the project's path and the steps that create it.
pub open spec fn creation_outcome(
    options: ProjectCreateOptions,
    exists: bool,
    r: Result<ProjectCreation, ProjectFormatError>,
) -> bool {
    match r {
        Err(ProjectFormatError::InvalidProjectId(v)) => !is_valid_id(options.id@) && v@
            == options.id@,
        Err(ProjectFormatError::InvalidProjectType(v)) => is_valid_id(options.id@)
            && !is_supported_project_type(options.project_type@) && v@
            == options.project_type@,
        Err(ProjectFormatError::InvalidProjectPath { field, value }) => is_valid_id(
            options.id@,
        ) && is_supported_project_type(options.project_type@) && !is_portable_path(
            options.content_index@,
        ) && field@ == "content_index"@ && value@ == options.content_index@,
        Err(ProjectFormatError::ProjectAlreadyExists(p)) => is_valid_id(options.id@)
            && is_supported_project_type(options.project_type@) && is_portable_path(
            options.content_index@,
        ) && exists && p@ == project_path_of(options),
        Ok(c) => is_valid_id(options.id@) && is_supported_project_type(options.project_type@)
            && is_portable_path(options.content_index@) && !exists && c.project_path@
            == project_path_of(options) && c.schema == SUPPORTED_SCHEMA && step_views(
            c.steps@,
        ) == creation_steps(options, project_path_of(options)),
        Err(_) => false,
    }
}

/// Plans the creation of a project. `exists` tells whether the project
/// directory (see `project_path_for`) is already there.
pub fn create_project(options: &ProjectCreateOptions, exists: bool) -> (r: Result<
    ProjectCreation,
    ProjectFormatError,
>)
    ensures
        creation_outcome(*options, exists, r),
{
    validate_project_id(options.id.as_str())?;
    if !supported_project_type(options.project_type.as_str()) {
        return Err(ProjectFormatError::InvalidProjectType(options.project_type.clone()));
    }
    validate_portable_path("content_index", options.content_index.as_str())?;
    let project_path = project_path_for(options);
    if exists {
        return Err(ProjectFormatError::ProjectAlreadyExists(project_path));
    }
    let p = project_path.as_str();
    let mut steps: Vec<CreateStep> = Vec::new();
    let content_root = path_join(p, "content");
    let index_path = path_join(content_root.as_str(), options.content_index.as_str());
    let index_text = concat3("# ", options.name.as_str(), "\n\n");
    push_step(&mut steps, CreateStep::CreateDirectory(content_root));
    push_step(&mut steps, CreateStep::WriteFile { path: index_path, contents: index_text });
    let ghost first = step_views(steps@);
    if audio_capable_project_type(options.project_type.as_str()) {
        push_step(&mut steps, CreateStep::CreateDirectory(path_join(p, "audio/masters")));
        push_step(&mut steps, CreateStep::CreateDirectory(path_join(p, "audio/published")));
        push_step(&mut steps, CreateStep::CreateDirectory(path_join(p, "audio/metadata")));
        push_step(&mut steps, CreateStep::CreateDirectory(path_join(p, "feeds")));
        push_step(
            &mut steps,
            CreateStep::WriteFile {
                path: path_join(p, "feeds/feed.xml"),
                contents: string_of(initial_feed_placeholder()),
            },
        );
    }
    let ghost second = step_views(steps@);
    push_step(
        &mut steps,
        CreateStep::WriteFile {
            path: path_join(p, "project.toml.tmp"),
            contents: render_manifest(options),
        },
    );
    push_step(
        &mut steps,
        CreateStep::Rename { from: path_join(p, "project.toml.tmp"), to: path_join(p, "project.toml") },
    );
    assert(step_views(steps@) =~= creation_steps(*options, project_path_of(*options)));
    Ok(ProjectCreation { project_path, steps, schema: SUPPORTED_SCHEMA })
}

/// A created project.
#[derive(Debug, Clone)]
pub struct CreatedProject {
    pub project_path: String,
    pub schema: u32,
}

} // verus!

verus! {

/// What inspecting a project shows.
#[derive(Debug)]
pub struct ProjectInspection {
    pub schema: u32,
    pub id: String,
    pub name: String,
    pub project_type: String,
    pub content_root: String,
    pub content_index: String,
    pub publish_targets: Vec<String>,
    pub warnings: Vec<ValidationIssue>,
}

pub open spec fn target_names(ts: Seq<PublishTarget>) -> Seq<Seq<char>> {
    ts.map_values(|t: PublishTarget| t.name@)
}

pub open spec fn texts_of(v: Seq<String>) -> Seq<Seq<char>> {
    v.map_values(|s: String| s@)
}

/// The names of the targets of a manifest, in order.
pub fn publish_target_names(manifest: &Manifest) -> (r: Vec<String>)
    ensures
        texts_of(r@) == target_names(targets_of(*manifest)),
{
    let mut names: Vec<String> = Vec::new();
    match &manifest.publish {
        Some(publish) => match &publish.targets {
            Some(targets) => {
                let mut i: usize = 0;
                while i < targets.len()
                    invariant
                        i <= targets@.len(),
                        targets@ == targets_of(*manifest),
                        texts_of(names@) == target_names(targets@.take(i as int)),
                    decreases targets@.len() - i,
                {
                    names.push(targets[i].name.clone());
                    assert(target_names(targets@.take(i + 1)) =~= target_names(
                        targets@.take(i as int),
                    ).push(targets@[i as int].name@));
                    assert(texts_of(names@) =~= target_names(targets@.take(i + 1)));
                    i = i + 1;
                }
                assert(targets@.take(targets@.len() as int) =~= targets@);
            },
            None => {
                assert(texts_of(names@) =~= target_names(targets_of(*manifest)));
            },
        },
        None => {
            assert(texts_of(names@) =~= target_names(targets_of(*manifest)));
        },
    }
    names
}

/// What inspecting a valid manifest shows.
pub open spec fn is_inspection(m: Manifest, files: ProjectFiles, i: ProjectInspection) -> bool {
    &&& i.schema == m.waystone.schema
    &&& i.id == m.project.id
    &&& i.name == m.project.name
    &&& i.project_type == m.project.project_type
    &&& i.content_root == m.content.root
    &&& i.content_index == m.content.index
    &&& texts_of(i.publish_targets@) == target_names(targets_of(m))
    &&& views(i.warnings@) == with_severity(manifest_issues(m, files), Severity::Warning)
}

/// Inspects a loaded project: its identity, content, targets and warnings.
/// A failure to load the manifest is handed back as it came.
pub fn inspect_project(manifest: Result<Manifest, ProjectFormatError>, files: &ProjectFiles) -> (r:
    Result<ProjectInspection, ProjectFormatError>)
    ensures
        match (manifest, r) {
            (Err(e), Err(f)) => e == f,
            (Ok(m), Ok(i)) => is_inspection(m, *files, i),
            _ => false,
        },
{
    match manifest {
        Err(e) => Err(e),
        Ok(m) => {
            let report = validate_manifest(&m, files);
            let publish_targets = publish_target_names(&m);
            Ok(
                ProjectInspection {
                    schema: m.waystone.schema,
                    id: m.project.id,
                    name: m.project.name,
                    project_type: m.project.project_type,
                    content_root: m.content.root,
                    content_index: m.content.index,
                    publish_targets,
                    warnings: report.warnings,
                },
            )
        },
    }
}

/// Validates a loaded project. A failure to load the manifest is handed back as it came.
pub fn validate_project(manifest: Result<Manifest, ProjectFormatError>, files: &ProjectFiles) -> (r:
    Result<ValidationReport, ProjectFormatError>)
    ensures
        match (manifest, r) {
            (Err(e), Err(f)) => e == f,
            (Ok(m), Ok(report)) => report_of(manifest_issues(m, *files), report),
            _ => false,
        },
{
    match manifest {
        Err(e) => Err(e),
        Ok(m) => Ok(validate_manifest(&m, files)),
    }
}

/// The options of adding a removable publish target.
#[derive(Debug, Clone)]
pub struct AddRemovablePublishTargetOptions {
    pub project_root: String,
    pub name: String,
    pub path: String,
}

/// The manifest text with a removable target appended.
pub open spec fn with_removable_target(text: Seq<char>, name: Seq<char>, path: Seq<char>) -> Seq<
    char,
> {
    (if text.len() > 0 && text.last() == '\n' {
        text
    } else {
        text.push('\n')
    }) + "\n"@ + "[[publish.targets]]\n"@ + toml_line("name"@, name) + "method = \"removable\"\n"@
        + toml_line("path"@, path) + "delete_policy = \"forbid\"\n"@
}

pub open spec fn has_target_named(m: Manifest, name: Seq<char>) -> bool {
    exists|i: int| 0 <= i < targets_of(m).len() && (#[trigger] targets_of(m)[i]).name@ == name
}

fn manifest_has_target(manifest: &Manifest, name: &str) -> (r: bool)
    ensures
        r == has_target_named(*manifest, name@),
{
    match &manifest.publish {
        Some(publish) => match &publish.targets {
            Some(targets) => {
                let mut i: usize = 0;
                while i < targets.len()
                    invariant
                        i <= targets@.len(),
                        targets@ == targets_of(*manifest),
                        forall|k: int| 0 <= k < i ==> (#[trigger] targets@[k]).name@ != name@,
                    decreases targets@.len() - i,
                {
                    if text_eq(targets[i].name.as_str(), name) {
                        return true;
                    }
                    i = i + 1;
                }
                false
            },
            None => false,
        },
        None => false,
    }
}

/// The new manifest text after adding a removable publish target, given the
/// loaded manifest and its text (either of which may have failed to load).
pub fn add_removable_publish_target(
    options: &AddRemovablePublishTargetOptions,
    manifest: Result<Manifest, ProjectFormatError>,
    manifest_text: Result<String, ProjectFormatError>,
) -> (r: Result<String, ProjectFormatError>)
    ensures
        !is_valid_id(options.name@) ==> (r matches Err(
            ProjectFormatError::InvalidPublishTargetName(v),
        ) && v@ == options.name@),
        is_valid_id(options.name@) && !is_portable_path(options.path@) ==> (r matches Err(
            ProjectFormatError::InvalidProjectPath { field, value },
        ) && field@ == "publish target path"@ && value@ == options.path@),
        is_valid_id(options.name@) && is_portable_path(options.path@) ==> match manifest {
            Err(e) => r == Err::<String, ProjectFormatError>(e),
            Ok(m) => if has_target_named(m, options.name@) {
                r matches Err(ProjectFormatError::DuplicatePublishTarget(v)) && v@ == options.name@
            } else {
                match manifest_text {
                    Err(e) => r == Err::<String, ProjectFormatError>(e),
                    Ok(t) => r matches Ok(new_text) && new_text@ == with_removable_target(
                        t@,
                        options.name@,
                        options.path@,
                    ),
                }
            },
        },
{
    validate_publish_target_name(options.name.as_str())?;
    validate_portable_path("publish target path", options.path.as_str())?;
    let m = manifest?;
    if manifest_has_target(&m, options.name.as_str()) {
        return Err(ProjectFormatError::DuplicatePublishTarget(options.name.clone()));
    }
    let mut text = manifest_text?;
    let n = text.as_str().unicode_len();
    if !(n > 0 && text.as_str().get_char(n - 1) == '\n') {
        push_char(&mut text, '\n');
    }
    text.append("\n");
    text.append("[[publish.targets]]\n");
    append_toml_line(&mut text, "name", options.name.as_str());
    text.append("method = \"removable\"\n");
    append_toml_line(&mut text, "path", options.path.as_str());
    text.append("delete_policy = \"forbid\"\n");
    Ok(text)
}

/// A project found under a root directory.
#[derive(Debug, Clone)]
pub struct ProjectSummary {
    pub schema: u32,
    pub id: String,
    pub name: String,
    pub project_type: String,
    pub path: String,
}

/// A list of projects in their sort order runs by id, in text order.
pub proof fn law_sorted_projectsummary_run_by_id(v: Seq<ProjectSummary>)
    requires
        is_sorted(v),
    ensures
        forall|i: int, j: int| 0 <= i < j < v.len() ==> lex_le((#[trigger] v[i]).id@, (#[trigger] v[j]).id@),
{
    assert forall|i: int, j: int| 0 <= i < j < v.len() implies lex_le((#[trigger] v[i]).id@, (#[trigger] v[j]).id@) by {
        assert(ProjectSummary::precedes(v[i], v[j]));
    }
}

impl SortOrder for ProjectSummary {
    open spec fn precedes(a: Self, b: Self) -> bool {
        lex_le(a.id@, b.id@)
    }

    proof fn precedes_transitive(a: Self, b: Self, c: Self) {
        lemma_lex_le_transitive(a.id@, b.id@, c.id@);
    }

    proof fn precedes_total(a: Self, b: Self) {
        lemma_lex_le_total(a.id@, b.id@);
    }

    fn precedes_exec(&self, other: &Self) -> (r: bool) {
        text_le(self.id.as_str(), other.id.as_str())
    }
}

/// Orders the projects found under a root by id.
pub fn list_projects(found: Vec<ProjectSummary>) -> (r: Vec<ProjectSummary>)
    ensures
        r@.to_multiset() == found@.to_multiset(),
        r@.len() == found@.len(),
        is_sorted(r@),
        keeps_tie_order(r@, found@),
{
    stable_sort(found)
}


/// No issue of `issues` carries `code`.
pub open spec fn lacks_code(issues: Seq<IssueView>, code: Seq<char>) -> bool {
    forall|k: int| 0 <= k < issues.len() ==> (#[trigger] issues[k]).code != code
}

proof fn lemma_lacks_code_concat(a: Seq<IssueView>, b: Seq<IssueView>, code: Seq<char>)
    requires
        lacks_code(a, code),
        lacks_code(b, code),
    ensures
        lacks_code(a + b, code),
{
    assert forall|k: int| 0 <= k < (a + b).len() implies (#[trigger] (a + b)[k]).code != code by {
        if k >= a.len() {
            assert((a + b)[k] == b[k - a.len()]);
        }
    }
}

/// The lengths (and, where two lengths agree, the first letters) of the
/// issue codes that manifest validation uses.
proof fn lemma_issue_code_literals()
    ensures
        "unsupported_publish_method"@.len() == 26,
        "unsupported_project_type"@.len() == 24,
        "duplicate_publish_target"@.len() == 24,
        "missing_publish_identity"@.len() == 24,
        "unsupported_delete_policy"@.len() == 25,
        "missing_publish_host"@.len() == 20,
        "missing_remote_path"@.len() == 19,
        "missing_export_path"@.len() == 19,
        "invalid_project_path"@.len() == 20,
        "unsupported_schema"@.len() == 18,
        "missing_content_root"@.len() == 20,
        "missing_content_index"@.len() == 21,
        "missing_feed_file"@.len() == 17,
        "unsupported_project_type"@[0] == 'u',
        "duplicate_publish_target"@[0] == 'd',
        "missing_publish_identity"@[0] == 'm',
{
    reveal_strlit("unsupported_publish_method");
    reveal_strlit("unsupported_project_type");
    reveal_strlit("duplicate_publish_target");
    reveal_strlit("missing_publish_identity");
    reveal_strlit("unsupported_delete_policy");
    reveal_strlit("missing_publish_host");
    reveal_strlit("missing_remote_path");
    reveal_strlit("missing_export_path");
    reveal_strlit("invalid_project_path");
    reveal_strlit("unsupported_schema");
    reveal_strlit("missing_content_root");
    reveal_strlit("missing_content_index");
    reveal_strlit("missing_feed_file");
}

/// The codes that the checks of paths, files and the feed use are neither
/// of the two vocabulary codes.
proof fn lemma_shared_sections_lack(m: Manifest, f: ProjectFiles, code: Seq<char>)
    requires
        code == "unsupported_publish_method"@ || code == "unsupported_project_type"@,
    ensures
        lacks_code(schema_issues(m), code),
        lacks_code(content_issues(m, f), code),
        lacks_code(audio_issues(m), code),
        lacks_code(feed_issues(m, f), code),
        forall|field: Seq<char>, v: Option<String>| lacks_code(
            #[trigger] opt_local_path_issues(field, v),
            code,
        ),
{
    lemma_issue_code_literals();
    assert forall|field: Seq<char>, value: Seq<char>| lacks_code(
        #[trigger] local_path_issues(field, value),
        code,
    ) by {}
    assert forall|field: Seq<char>, v: Option<String>| lacks_code(
        #[trigger] opt_local_path_issues(field, v),
        code,
    ) by {}
    let r = m.content.root@;
    let i = m.content.index@;
    lemma_lacks_code_concat(local_path_issues("content.root"@, r), local_path_issues("content.index"@, i), code);
    match m.audio {
        Some(a) => {
            lemma_lacks_code_concat(
                opt_local_path_issues("audio.masters"@, a.masters),
                opt_local_path_issues("audio.published"@, a.published),
                code,
            );
            lemma_lacks_code_concat(
                opt_local_path_issues("audio.masters"@, a.masters) + opt_local_path_issues(
                    "audio.published"@,
                    a.published,
                ),
                opt_local_path_issues("audio.metadata"@, a.metadata),
                code,
            );
        },
        None => {},
    }
}

/// The issues of a target whose method is documented carry neither the
/// unsupported-method code nor the unsupported-type code.
proof fn lemma_target_issues_lack(ts: Seq<PublishTarget>, i: int, code: Seq<char>)
    requires
        0 <= i < ts.len(),
        is_supported_publish_method(ts[i].method@) || code == "unsupported_project_type"@,
        code == "unsupported_publish_method"@ || code == "unsupported_project_type"@,
    ensures
        lacks_code(target_issues(ts, i), code),
{
    let t = ts[i];
    lemma_issue_code_literals();
    let dup = if is_duplicate_target(ts, i) {
        seq![
            error_issue(
                "duplicate_publish_target"@,
                "duplicate publish target: "@ + t.name@,
                "publish.targets."@ + t.name@,
            ),
        ]
    } else {
        Seq::<IssueView>::empty()
    };
    let meth = if !is_supported_publish_method(t.method@) {
        seq![
            error_issue(
                "unsupported_publish_method"@,
                "unsupported publish method: "@ + t.method@,
                target_field(t.name@, "method"@),
            ),
        ]
    } else {
        Seq::<IssueView>::empty()
    };
    let paths = opt_local_path_issues(target_field(t.name@, "path"@), t.path);
    let del = delete_policy_issues(t);
    let shape = shape_issues(t);
    assert(lacks_code(dup, code));
    assert(lacks_code(meth, code));
    lemma_shared_sections_lack(arbitrary(), arbitrary(), code);
    assert(lacks_code(paths, code));
    assert(lacks_code(del, code));
    let sm = t.method@;
    let n = t.name@;
    if sm == "rsync"@ || sm == "scp"@ || sm == "sftp"@ {
        let h = requirement_issue(is_missing(t.host), "missing_publish_host"@, sm + " target "@ + n + " requires host"@, target_field(n, "host"@));
        let rp = requirement_issue(is_missing(t.remote_path), "missing_remote_path"@, sm + " target "@ + n + " requires remote_path"@, target_field(n, "remote_path"@));
        let id = requirement_issue(is_missing(t.identity), "missing_publish_identity"@, sm + " target "@ + n + " requires identity"@, target_field(n, "identity"@));
        assert(lacks_code(h, code));
        assert(lacks_code(rp, code));
        assert(lacks_code(id, code));
        lemma_lacks_code_concat(h, rp, code);
        lemma_lacks_code_concat(h + rp, id, code);
    }
    assert(lacks_code(shape, code));
    lemma_lacks_code_concat(dup, meth, code);
    lemma_lacks_code_concat(dup + meth, paths, code);
    lemma_lacks_code_concat(dup + meth + paths, del, code);
    lemma_lacks_code_concat(dup + meth + paths + del, shape, code);
    assert(target_issues(ts, i) == dup + meth + paths + del + shape);
}

/// The issues of the first `n` targets carry the code only where a target does.
proof fn lemma_targets_issues_lack(ts: Seq<PublishTarget>, n: int, code: Seq<char>)
    requires
        0 <= n <= ts.len(),
        forall|i: int| 0 <= i < n ==> lacks_code(#[trigger] target_issues(ts, i), code),
    ensures
        lacks_code(targets_issues(ts, n), code),
    decreases n,
{
    if n > 0 {
        lemma_targets_issues_lack(ts, n - 1, code);
        lemma_lacks_code_concat(targets_issues(ts, n - 1), target_issues(ts, n - 1), code);
    }
}

/// Every publish method that the project format documents (rsync, scp,
/// sftp, titan, git, local-service, removable) is accepted: a manifest whose
/// targets use only these methods gets no unsupported-method issue.
pub proof fn law_documented_publish_methods_are_accepted(m: Manifest, f: ProjectFiles)
    requires
        forall|i: int| 0 <= i < targets_of(m).len() ==> {
            let x = (#[trigger] targets_of(m)[i]).method@;
            ||| x == "rsync"@
            ||| x == "scp"@
            ||| x == "sftp"@
            ||| x == "titan"@
            ||| x == "git"@
            ||| x == "local-service"@
            ||| x == "removable"@
        },
    ensures
        lacks_code(manifest_issues(m, f), "unsupported_publish_method"@),
{
    let code = "unsupported_publish_method"@;
    let ts = targets_of(m);
    assert forall|i: int| 0 <= i < ts.len() implies lacks_code(#[trigger] target_issues(ts, i), code) by {
        assert(is_supported_publish_method(ts[i].method@));
        lemma_target_issues_lack(ts, i, code);
    }
    lemma_targets_issues_lack(ts, ts.len() as int, code);
    lemma_shared_sections_lack(m, f, code);
    lemma_issue_code_literals();
    assert(lacks_code(project_type_issues(m), code));
    lemma_lacks_code_concat(schema_issues(m), project_type_issues(m), code);
    lemma_lacks_code_concat(schema_issues(m) + project_type_issues(m), content_issues(m, f), code);
    lemma_lacks_code_concat(schema_issues(m) + project_type_issues(m) + content_issues(m, f), audio_issues(m), code);
    lemma_lacks_code_concat(
        schema_issues(m) + project_type_issues(m) + content_issues(m, f) + audio_issues(m),
        feed_issues(m, f),
        code,
    );
    lemma_lacks_code_concat(
        schema_issues(m) + project_type_issues(m) + content_issues(m, f) + audio_issues(m)
            + feed_issues(m, f),
        targets_issues(ts, ts.len() as int),
        code,
    );
}

/// Every project type that the project format documents (capsule, gemlog,
/// gopherhole, spartan-site, audio-series, feed, pubnix-home,
/// documentation-archive, classroom-assignment, mixed-publication) is
/// accepted: a manifest of such a type gets no unsupported-type issue.
pub proof fn law_documented_project_types_pass_validation(m: Manifest, f: ProjectFiles)
    requires
        ({
            let x = m.project.project_type@;
            ||| x == "capsule"@
            ||| x == "gemlog"@
            ||| x == "gopherhole"@
            ||| x == "spartan-site"@
            ||| x == "audio-series"@
            ||| x == "feed"@
            ||| x == "pubnix-home"@
            ||| x == "documentation-archive"@
            ||| x == "classroom-assignment"@
            ||| x == "mixed-publication"@
        }),
    ensures
        lacks_code(manifest_issues(m, f), "unsupported_project_type"@),
{
    let code = "unsupported_project_type"@;
    let ts = targets_of(m);
    assert forall|i: int| 0 <= i < ts.len() implies lacks_code(#[trigger] target_issues(ts, i), code) by {
        lemma_target_issues_lack(ts, i, code);
    }
    lemma_targets_issues_lack(ts, ts.len() as int, code);
    lemma_shared_sections_lack(m, f, code);
    assert(project_type_issues(m) == Seq::<IssueView>::empty());
    lemma_lacks_code_concat(schema_issues(m), project_type_issues(m), code);
    lemma_lacks_code_concat(schema_issues(m) + project_type_issues(m), content_issues(m, f), code);
    lemma_lacks_code_concat(schema_issues(m) + project_type_issues(m) + content_issues(m, f), audio_issues(m), code);
    lemma_lacks_code_concat(
        schema_issues(m) + project_type_issues(m) + content_issues(m, f) + audio_issues(m),
        feed_issues(m, f),
        code,
    );
    lemma_lacks_code_concat(
        schema_issues(m) + project_type_issues(m) + content_issues(m, f) + audio_issues(m)
            + feed_issues(m, f),
        targets_issues(ts, ts.len() as int),
        code,
    );
}

/// A new project of any documented type, with a valid id and a portable
/// index path, is planned at `<parent>/<id>.wayproject` whenever nothing
/// stands there yet.
pub proof fn law_documented_project_types_are_created(
    options: ProjectCreateOptions,
    exists: bool,
    r: Result<ProjectCreation, ProjectFormatError>,
)
    requires
        creation_outcome(options, exists, r),
        is_valid_id(options.id@),
        is_portable_path(options.content_index@),
        !exists,
        ({
            let x = options.project_type@;
            ||| x == "capsule"@
            ||| x == "gemlog"@
            ||| x == "gopherhole"@
            ||| x == "spartan-site"@
            ||| x == "audio-series"@
            ||| x == "feed"@
            ||| x == "pubnix-home"@
            ||| x == "documentation-archive"@
            ||| x == "classroom-assignment"@
            ||| x == "mixed-publication"@
        }),
    ensures
        r matches Ok(c) && c.project_path@ == project_path_of(options),
{
}


proof fn lemma_contains_in_concat(a: Seq<IssueView>, b: Seq<IssueView>, x: IssueView)
    requires
        a.contains(x) || b.contains(x),
    ensures
        (a + b).contains(x),
{
    if a.contains(x) {
        let k = choose|k: int| 0 <= k < a.len() && a[k] == x;
        assert((a + b)[k] == x);
    } else {
        let k = choose|k: int| 0 <= k < b.len() && b[k] == x;
        assert((a + b)[a.len() + k] == x);
    }
}

proof fn lemma_targets_issues_contain(ts: Seq<PublishTarget>, n: int, i: int, x: IssueView)
    requires
        0 <= i < n <= ts.len(),
        target_issues(ts, i).contains(x),
    ensures
        targets_issues(ts, n).contains(x),
    decreases n,
{
    if i < n - 1 {
        lemma_targets_issues_contain(ts, n - 1, i, x);
    }
    lemma_contains_in_concat(targets_issues(ts, n - 1), target_issues(ts, n - 1), x);
}

/// A target whose method is none of the documented ones (rsync, scp, sftp,
/// titan, git, local-service, removable) is reported: validation finds the
/// error `unsupported_publish_method` at the target's `method` field.
pub proof fn law_undocumented_publish_method_is_reported(m: Manifest, f: ProjectFiles, i: int)
    requires
        0 <= i < targets_of(m).len(),
        ({
            let x = targets_of(m)[i].method@;
            &&& x != "rsync"@
            &&& x != "scp"@
            &&& x != "sftp"@
            &&& x != "titan"@
            &&& x != "git"@
            &&& x != "local-service"@
            &&& x != "removable"@
        }),
    ensures
        manifest_issues(m, f).contains(
            error_issue(
                "unsupported_publish_method"@,
                "unsupported publish method: "@ + targets_of(m)[i].method@,
                target_field(targets_of(m)[i].name@, "method"@),
            ),
        ),
{
    let ts = targets_of(m);
    let t = ts[i];
    let x = error_issue(
        "unsupported_publish_method"@,
        "unsupported publish method: "@ + t.method@,
        target_field(t.name@, "method"@),
    );
    let dup = if is_duplicate_target(ts, i) {
        seq![
            error_issue(
                "duplicate_publish_target"@,
                "duplicate publish target: "@ + t.name@,
                "publish.targets."@ + t.name@,
            ),
        ]
    } else {
        Seq::<IssueView>::empty()
    };
    let rest = opt_local_path_issues(target_field(t.name@, "path"@), t.path) + delete_policy_issues(t)
        + shape_issues(t);
    assert(seq![x][0] == x);
    lemma_contains_in_concat(dup, seq![x], x);
    lemma_contains_in_concat(dup + seq![x], rest, x);
    assert(target_issues(ts, i) =~= dup + seq![x] + rest);
    lemma_targets_issues_contain(ts, ts.len() as int, i, x);
    lemma_contains_in_concat(
        schema_issues(m) + project_type_issues(m) + content_issues(m, f) + audio_issues(m)
            + feed_issues(m, f),
        targets_issues(ts, ts.len() as int),
        x,
    );
}

/// A manifest whose project type is none of the documented ones is
/// reported: validation finds the error `unsupported_project_type` at
/// `project.type`.
pub proof fn law_undocumented_project_type_is_reported(m: Manifest, f: ProjectFiles)
    requires
        ({
            let x = m.project.project_type@;
            &&& x != "capsule"@
            &&& x != "gemlog"@
            &&& x != "gopherhole"@
            &&& x != "spartan-site"@
            &&& x != "audio-series"@
            &&& x != "feed"@
            &&& x != "pubnix-home"@
            &&& x != "documentation-archive"@
            &&& x != "classroom-assignment"@
            &&& x != "mixed-publication"@
        }),
    ensures
        manifest_issues(m, f).contains(
            error_issue(
                "unsupported_project_type"@,
                "unsupported project type: "@ + m.project.project_type@,
                "project.type"@,
            ),
        ),
{
    let x = error_issue(
        "unsupported_project_type"@,
        "unsupported project type: "@ + m.project.project_type@,
        "project.type"@,
    );
    assert(project_type_issues(m)[0] == x);
    lemma_contains_in_concat(schema_issues(m), project_type_issues(m), x);
    lemma_contains_in_concat(schema_issues(m) + project_type_issues(m), content_issues(m, f), x);
    lemma_contains_in_concat(
        schema_issues(m) + project_type_issues(m) + content_issues(m, f),
        audio_issues(m),
        x,
    );
    lemma_contains_in_concat(
        schema_issues(m) + project_type_issues(m) + content_issues(m, f) + audio_issues(m),
        feed_issues(m, f),
        x,
    );
    lemma_contains_in_concat(
        schema_issues(m) + project_type_issues(m) + content_issues(m, f) + audio_issues(m)
            + feed_issues(m, f),
        targets_issues(targets_of(m), targets_of(m).len() as int),
        x,
    );
}

/// Creating a project of a type that the format does not document is
/// refused with that type, once the id is valid.
pub proof fn law_undocumented_project_type_is_refused(
    options: ProjectCreateOptions,
    exists: bool,
    r: Result<ProjectCreation, ProjectFormatError>,
)
    requires
        creation_outcome(options, exists, r),
        is_valid_id(options.id@),
        ({
            let x = options.project_type@;
            &&& x != "capsule"@
            &&& x != "gemlog"@
            &&& x != "gopherhole"@
            &&& x != "spartan-site"@
            &&& x != "audio-series"@
            &&& x != "feed"@
            &&& x != "pubnix-home"@
            &&& x != "documentation-archive"@
            &&& x != "classroom-assignment"@
            &&& x != "mixed-publication"@
        }),
    ensures
        r matches Err(ProjectFormatError::InvalidProjectType(v)) && v@ == options.project_type@,
{
}
} // verus!
