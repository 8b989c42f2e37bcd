use vstd::prelude::*;
use crate::order::{is_sorted, keeps_tie_order, stable_sort, SortOrder};
use crate::publish_plan::PublishDryRun;
use crate::text::{
    append_bool, append_decimal, append_opt_toml_line, chars_of, append_toml_line, bool_text, char_is_id,
    decimal, ends_with_exec, is_id_char, is_valid_id, joined_path, lemma_lex_le_total, lemma_lex_le_transitive,
    lex_le, starts_with_exec, starts_with_text, text_eq, text_le, opt_toml_line, path_join, push_char, string_of, toml_line,
};
use crate::validation::opt_text;

verus! {

/// The schema of publication history records.
pub const HISTORY_SCHEMA: u32 = 1;

/// A record of a publication, planned or completed.
#[derive(Debug, Clone)]
pub struct PublicationHistoryRecord {
    pub schema: u32,
    pub date: String,
    pub project_id: String,
    pub target: String,
    pub method: String,
    pub destination: Option<String>,
    pub transfer_result: String,
    pub verification_result: String,
    pub files: Vec<PublicationFile>,
    pub rollback: RollbackInfo,
}

/// A file of a publication and what was done with it.
#[derive(Debug, Clone)]
pub struct PublicationFile {
    pub path: String,
    pub action: String,
    pub sha256: Option<String>,
}

/// Whether a publication can be rolled back, and how.
#[derive(Debug, Clone)]
pub struct RollbackInfo {
    pub available: bool,
    pub notes: String,
}

/// What a completed publication reports.
#[derive(Debug, Clone)]
pub struct CompletedHistoryOptions {
    pub transfer_result: String,
    pub verification_result: String,
    pub rollback_available: bool,
    pub rollback_notes: String,
}

/// A file of a publication as plain values.
pub struct FileView {
    pub path: Seq<char>,
    pub action: Seq<char>,
    pub sha256: Option<Seq<char>>,
}

pub open spec fn file_view(f: PublicationFile) -> FileView {
    FileView { path: f.path@, action: f.action@, sha256: opt_text(f.sha256) }
}

pub open spec fn file_views(s: Seq<PublicationFile>) -> Seq<FileView> {
    s.map_values(|f: PublicationFile| file_view(f))
}

/// The files of a list of paths, all with one action and no hash.
pub open spec fn planned_files(paths: Seq<String>, action: Seq<char>) -> Seq<FileView> {
    paths.map_values(|p: String| FileView { path: p@, action, sha256: None })
}

/// The files of a planned publication: its uploads, updates and deletions.
pub open spec fn dry_run_files(plan: PublishDryRun) -> Seq<FileView> {
    planned_files(plan.upload@, "planned-upload"@) + planned_files(plan.update@, "planned-update"@)
        + planned_files(plan.delete@, "planned-delete"@)
}

/// The record of a planned publication, with its date.
pub open spec fn is_planned_record(plan: PublishDryRun, date: Seq<char>, r: PublicationHistoryRecord) -> bool {
    &&& r.schema == HISTORY_SCHEMA
    &&& r.date@ == date
    &&& r.project_id@ == plan.project_id@
    &&& r.target@ == plan.target@
    &&& r.method@ == plan.method@
    &&& r.destination == plan.destination
    &&& file_views(r.files@) == dry_run_files(plan)
}

fn push_planned_files(files: &mut Vec<PublicationFile>, paths: &Vec<String>, action: &str)
    ensures
        file_views(final(files)@) == file_views(old(files)@) + planned_files(paths@, action@),
{
    let ghost start = file_views(files@);
    let mut i: usize = 0;
    while i < paths.len()
        invariant
            i <= paths@.len(),
            file_views(files@) == start + planned_files(paths@, action@).take(i as int),
        decreases paths@.len() - i,
    {
        let ghost before = file_views(files@);
        files.push(PublicationFile { path: paths[i].clone(), action: string_of(action), sha256: None });
        assert(file_views(files@) =~= before.push(file_view(files@.last())));
        assert(planned_files(paths@, action@).take(i + 1) =~= planned_files(paths@, action@).take(
            i as int,
        ).push(FileView { path: paths@[i as int]@, action: action@, sha256: None }));
        i = i + 1;
    }
    assert(planned_files(paths@, action@).take(paths@.len() as int) =~= planned_files(
        paths@,
        action@,
    ));
}

impl PublicationHistoryRecord {
    /// The record of a planned publication: every file to upload, update or
    /// delete, planned and not verified, with nothing to roll back.
    pub fn planned_from_dry_run(plan: &PublishDryRun, date: String) -> (r: Self)
        ensures
            is_planned_record(*plan, date@, r),
            r.transfer_result@ == "planned"@,
            r.verification_result@ == "not-run"@,
            !r.rollback.available,
            r.rollback.notes@ == "Dry-run only; no remote state changed"@,
    {
        let mut files: Vec<PublicationFile> = Vec::new();
        push_planned_files(&mut files, &plan.upload, "planned-upload");
        push_planned_files(&mut files, &plan.update, "planned-update");
        push_planned_files(&mut files, &plan.delete, "planned-delete");
        assert(file_views(files@) =~= dry_run_files(*plan));
        PublicationHistoryRecord {
            schema: HISTORY_SCHEMA,
            date,
            project_id: plan.project_id.clone(),
            target: plan.target.clone(),
            method: plan.method.clone(),
            destination: match &plan.destination {
                Some(d) => Some(d.clone()),
                None => None,
            },
            transfer_result: string_of("planned"),
            verification_result: string_of("not-run"),
            files,
            rollback: RollbackInfo {
                available: false,
                notes: string_of("Dry-run only; no remote state changed"),
            },
        }
    }

    /// The record of a completed publication: the planned record with the
    /// reported transfer, verification and rollback.
    pub fn completed_from_dry_run(plan: &PublishDryRun, date: String, options: CompletedHistoryOptions) -> (r: Self)
        ensures
            is_planned_record(*plan, date@, r),
            r.transfer_result == options.transfer_result,
            r.verification_result == options.verification_result,
            r.rollback.available == options.rollback_available,
            r.rollback.notes == options.rollback_notes,
    {
        let mut record = Self::planned_from_dry_run(plan, date);
        record.transfer_result = options.transfer_result;
        record.verification_result = options.verification_result;
        record.rollback = RollbackInfo {
            available: options.rollback_available,
            notes: options.rollback_notes,
        };
        record
    }
}

/// The TOML of a record's files, each as a `[[files]]` table.
pub open spec fn files_toml(files: Seq<PublicationFile>) -> Seq<char>
    decreases files.len(),
{
    if files.len() == 0 {
        Seq::empty()
    } else {
        let f = files.last();
        files_toml(files.drop_last()) + "[[files]]\n"@ + toml_line("path"@, f.path@) + toml_line(
            "action"@,
            f.action@,
        ) + opt_toml_line("sha256"@, f.sha256) + "\n"@
    }
}

/// The TOML text of a record.
pub open spec fn record_toml(r: PublicationHistoryRecord) -> Seq<char> {
    "[publication]\n"@ + "schema = "@ + decimal(r.schema as nat) + "\n"@ + toml_line(
        "date"@,
        r.date@,
    ) + toml_line("project_id"@, r.project_id@) + toml_line("target"@, r.target@) + toml_line(
        "method"@,
        r.method@,
    ) + opt_toml_line("destination"@, r.destination) + toml_line(
        "transfer_result"@,
        r.transfer_result@,
    ) + toml_line("verification_result"@, r.verification_result@) + "\n"@ + files_toml(r.files@)
        + "[rollback]\n"@ + "available = "@ + bool_text(r.rollback.available) + "\n"@ + toml_line(
        "notes"@,
        r.rollback.notes@,
    )
}

impl PublicationHistoryRecord {
    /// The record as TOML that a person can read.
    pub fn to_toml(&self) -> (r: String)
        ensures
            r@ == record_toml(*self),
    {
        let mut out = string_of("[publication]\n");
        out.append("schema = ");
        append_decimal(&mut out, self.schema as u64);
        out.append("\n");
        append_toml_line(&mut out, "date", self.date.as_str());
        append_toml_line(&mut out, "project_id", self.project_id.as_str());
        append_toml_line(&mut out, "target", self.target.as_str());
        append_toml_line(&mut out, "method", self.method.as_str());
        append_opt_toml_line(&mut out, "destination", &self.destination);
        append_toml_line(&mut out, "transfer_result", self.transfer_result.as_str());
        append_toml_line(&mut out, "verification_result", self.verification_result.as_str());
        out.append("\n");
        let ghost head = out@;
        let mut i: usize = 0;
        while i < self.files.len()
            invariant
                i <= self.files@.len(),
                out@ == head + files_toml(self.files@.take(i as int)),
            decreases self.files@.len() - i,
        {
            let f = &self.files[i];
            let ghost before = out@;
            out.append("[[files]]\n");
            append_toml_line(&mut out, "path", f.path.as_str());
            append_toml_line(&mut out, "action", f.action.as_str());
            append_opt_toml_line(&mut out, "sha256", &f.sha256);
            out.append("\n");
            assert(self.files@.take(i + 1).drop_last() =~= self.files@.take(i as int));
            i = i + 1;
        }
        assert(self.files@.take(self.files@.len() as int) =~= self.files@);
        out.append("[rollback]\n");
        out.append("available = ");
        append_bool(&mut out, self.rollback.available);
        out.append("\n");
        append_toml_line(&mut out, "notes", self.rollback.notes.as_str());
        out
    }
}

// ---------------------------------------------------------------------------
// File names
// ---------------------------------------------------------------------------

/// The text after each character of `s` is taken in turn: identifier
/// characters are kept, and each run of other characters becomes one `-`.
/// The flag tells whether the text ends with such a replacement.
pub open spec fn collapsed(s: Seq<char>) -> (Seq<char>, bool)
    decreases s.len(),
{
    if s.len() == 0 {
        (Seq::empty(), false)
    } else {
        let (out, dash) = collapsed(s.drop_last());
        let c = s.last();
        if is_id_char(c) {
            (out.push(c), false)
        } else if !dash {
            (out.push('-'), true)
        } else {
            (out, true)
        }
    }
}

pub open spec fn leading_dashes(s: Seq<char>) -> nat
    decreases s.len(),
{
    if s.len() > 0 && s[0] == '-' {
        1 + leading_dashes(s.drop_first())
    } else {
        0
    }
}

pub open spec fn trailing_dashes(s: Seq<char>) -> nat
    decreases s.len(),
{
    if s.len() > 0 && s.last() == '-' {
        1 + trailing_dashes(s.drop_last())
    } else {
        0
    }
}

/// `s` without `-` at either end.
pub open spec fn dash_trimmed(s: Seq<char>) -> Seq<char> {
    let rest = s.skip(leading_dashes(s) as int);
    rest.take(rest.len() - trailing_dashes(rest))
}

/// A text made safe for a file name: identifier characters kept, other runs
/// turned into one `-`, no `-` at either end, and `unknown` when nothing is left.
pub open spec fn safe_segment(value: Seq<char>) -> Seq<char> {
    let t = dash_trimmed(collapsed(value).0);
    if t.len() == 0 {
        "unknown"@
    } else {
        t
    }
}

proof fn lemma_leading_dashes_bound(s: Seq<char>)
    ensures
        leading_dashes(s) <= s.len(),
    decreases s.len(),
{
    if s.len() > 0 && s[0] == '-' {
        lemma_leading_dashes_bound(s.drop_first());
    }
}

proof fn lemma_trailing_dashes_bound(s: Seq<char>)
    ensures
        trailing_dashes(s) <= s.len(),
    decreases s.len(),
{
    if s.len() > 0 && s.last() == '-' {
        lemma_trailing_dashes_bound(s.drop_last());
    }
}

proof fn lemma_collapsed_id_chars(s: Seq<char>)
    ensures
        forall|i: int| 0 <= i < collapsed(s).0.len() ==> is_id_char(#[trigger] collapsed(s).0[i]),
    decreases s.len(),
{
    if s.len() > 0 {
        lemma_collapsed_id_chars(s.drop_last());
        let prev = collapsed(s.drop_last()).0;
        let out = collapsed(s).0;
        assert forall|i: int| 0 <= i < out.len() implies is_id_char(#[trigger] out[i]) by {
            if i < prev.len() {
                assert(out[i] == prev[i]);
            }
        }
    }
}

/// Whatever a date or a target holds, the segment made of it for a history
/// file name is a non-empty run of identifier characters: it holds no path
/// separator and no dot, so the file name cannot leave the history directory.
pub proof fn law_safe_segment_is_valid_id(value: Seq<char>)
    ensures
        is_valid_id(safe_segment(value)),
{
    let c = collapsed(value).0;
    lemma_collapsed_id_chars(value);
    let rest = c.skip(leading_dashes(c) as int);
    lemma_leading_dashes_bound(c);
    lemma_trailing_dashes_bound(rest);
    let t = dash_trimmed(c);
    assert forall|i: int| 0 <= i < t.len() implies is_id_char(#[trigger] t[i]) by {
        assert(t[i] == c[i + leading_dashes(c)]);
    }
    if t.len() == 0 {
        reveal_strlit("unknown");
    }
}

proof fn lemma_collapsed_len(s: Seq<char>)
    ensures
        collapsed(s).0.len() <= s.len(),
    decreases s.len(),
{
    if s.len() > 0 {
        lemma_collapsed_len(s.drop_last());
    }
}

/// Turns a text into a safe part of a file name.
pub fn safe_filename_segment(value: &str) -> (r: String)
    ensures
        r@ == safe_segment(value@),
{
    let value_chars = chars_of(value);
    let n = value_chars.len();
    let mut segment: Vec<char> = Vec::new();
    let mut previous_dash = false;
    let mut i: usize = 0;
    while i < n
        invariant
            value_chars@ == value@,
            i <= n,
            n == value@.len(),
            (segment@, previous_dash) == collapsed(value@.take(i as int)),
            segment@.len() <= i,
        decreases n - i,
    {
        let c = value_chars[i];
        assert(value@.take(i + 1).drop_last() =~= value@.take(i as int));
        if char_is_id(c) {
            segment.push(c);
            previous_dash = false;
        } else if !previous_dash {
            segment.push('-');
            previous_dash = true;
        }
        i = i + 1;
    }
    assert(value@.take(n as int) =~= value@);
    let ghost col = segment@;
    let m = segment.len();
    let mut lo: usize = 0;
    assert(col.skip(0) =~= col);
    while lo < m && segment[lo] == '-'
        invariant
            value_chars@ == value@,
            lo <= m,
            m == col.len(),
            col == segment@,
            leading_dashes(col) == lo + leading_dashes(col.skip(lo as int)),
        decreases m - lo,
    {
        assert(col.skip(lo as int).drop_first() =~= col.skip(lo + 1));
        lo = lo + 1;
    }
    proof {
        if lo < m {
            assert(col.skip(lo as int)[0] == col[lo as int]);
        }
        assert(leading_dashes(col) == lo);
    }
    let ghost rest = col.skip(lo as int);
    let mut hi = m;
    assert(rest.take(m - lo) =~= rest);
    while hi > lo && segment[hi - 1] == '-'
        invariant
            value_chars@ == value@,
            lo <= hi <= m,
            m == col.len(),
            col == segment@,
            rest == col.skip(lo as int),
            trailing_dashes(rest) == (m - hi) + trailing_dashes(rest.take(hi - lo)),
        decreases hi - lo,
    {
        assert(rest.take(hi - lo).drop_last() =~= rest.take(hi - 1 - lo));
        assert(rest.take(hi - lo).last() == col[hi - 1]);
        hi = hi - 1;
    }
    proof {
        if hi > lo {
            assert(rest.take(hi - lo).last() == col[hi - 1]);
        }
        assert(trailing_dashes(rest) == m - hi);
        assert(dash_trimmed(col) =~= col.subrange(lo as int, hi as int));
    }
    if hi == lo {
        return string_of("unknown");
    }
    let mut out = String::new();
    let mut k = lo;
    while k < hi
        invariant
            value_chars@ == value@,
            lo <= k <= hi <= m,
            m == col.len(),
            col == segment@,
            out@ == col.subrange(lo as int, k as int),
        decreases hi - k,
    {
        push_char(&mut out, segment[k]);
        assert(out@ =~= col.subrange(lo as int, k + 1));
        k = k + 1;
    }
    out
}

/// Where history records of a kind live in a project.
pub open spec fn history_dir(project_root: Seq<char>, kind: Seq<char>) -> Seq<char> {
    joined_path(joined_path(project_root, "history"@), kind)
}

/// The file name of a record: its date and target made safe, and a suffix.
pub open spec fn history_filename(r: PublicationHistoryRecord, suffix: Seq<char>) -> Seq<char> {
    safe_segment(r.date@) + "-"@ + safe_segment(r.target@) + suffix
}

/// Where the preview of a planned record goes:
/// `history/previews/<date>-<target>-planned.toml`.
pub fn planned_history_preview_path(project_root: &str, record: &PublicationHistoryRecord) -> (r: String)
    ensures
        r@ == joined_path(
            history_dir(project_root@, "previews"@),
            history_filename(*record, "-planned.toml"@),
        ),
{
    let dir = path_join(project_root, "history");
    let dir = path_join(dir.as_str(), "previews");
    let mut name = safe_filename_segment(record.date.as_str());
    name.append("-");
    let target = safe_filename_segment(record.target.as_str());
    name.append(target.as_str());
    name.append("-planned.toml");
    path_join(dir.as_str(), name.as_str())
}

/// Where a completed record goes:
/// `history/completed/<date>-<target>-completed.toml`.
pub fn completed_history_record_path(project_root: &str, record: &PublicationHistoryRecord) -> (r: String)
    ensures
        r@ == joined_path(
            history_dir(project_root@, "completed"@),
            history_filename(*record, "-completed.toml"@),
        ),
{
    let dir = path_join(project_root, "history");
    let dir = path_join(dir.as_str(), "completed");
    let mut name = safe_filename_segment(record.date.as_str());
    name.append("-");
    let target = safe_filename_segment(record.target.as_str());
    name.append(target.as_str());
    name.append("-completed.toml");
    path_join(dir.as_str(), name.as_str())
}

// ---------------------------------------------------------------------------
// Listing and reading records
// ---------------------------------------------------------------------------

/// A planned history preview on disk.
#[derive(Debug, Clone, PartialEq, Eq)]
pub struct PlannedHistoryPreviewEntry {
    pub path: String,
    pub filename: String,
    pub modified_unix: u64,
    pub size_bytes: u64,
}

/// A planned history preview with its text.
#[derive(Debug, Clone, PartialEq, Eq)]
pub struct PlannedHistoryPreviewDetail {
    pub entry: PlannedHistoryPreviewEntry,
    pub record_toml: String,
}

/// A completed history record on disk.
#[derive(Debug, Clone, PartialEq, Eq)]
pub struct CompletedHistoryEntry {
    pub path: String,
    pub filename: String,
    pub modified_unix: u64,
    pub size_bytes: u64,
}

/// A completed history record with its text.
#[derive(Debug, Clone, PartialEq, Eq)]
pub struct CompletedHistoryDetail {
    pub entry: CompletedHistoryEntry,
    pub record_toml: String,
}

/// The ways reading history can fail.
#[derive(Debug)]
pub enum HistoryError {
    /// The path lies outside the history directory, or is not a record.
    PermissionDenied(String),
    /// The path is not a file.
    InvalidInput(String),
    /// The file system refused an operation.
    Io(String),
}

/// An item found in a history directory: its path, its file name, whether
/// it is a file, when it was last modified (seconds since the epoch, 0 when
/// unknown) and its size.
#[derive(Debug, Clone)]
pub struct HistoryDirItem {
    pub path: String,
    pub filename: String,
    pub is_file: bool,
    pub modified_unix: u64,
    pub size_bytes: u64,
}

/// The last component of a path ends with `.toml` after at least one other
/// character: the path has the extension `toml`.
pub open spec fn has_toml_extension(path: Seq<char>) -> bool {
    &&& path.len() > 5
    &&& path.subrange(path.len() - 5, path.len() as int) == ".toml"@
    &&& path[path.len() - 6] != '/'
}

pub fn has_toml_extension_exec(path: &str) -> (r: bool)
    ensures
        r == has_toml_extension(path@),
{
    let path_chars = chars_of(path);
    let n = path_chars.len();
    if n <= 5 {
        return false;
    }
    proof {
        reveal_strlit(".toml");
    }
    let ends = ends_with_exec(path, ".toml");
    assert(ends == (path@.subrange(n - 5, n as int) == ".toml"@)) by {
        if ends {
            assert(path@.subrange(n - 5, n as int) =~= ".toml"@);
        }
    }
    ends && path_chars[n - 6] != '/'
}

/// Newest first; among records modified at the same second, by file name.
/// A list of planned previews in their sort order is newest first; previews
/// modified at the same time stand in the order of their file names.
pub proof fn law_sorted_previews_are_newest_first(v: Seq<PlannedHistoryPreviewEntry>)
    requires
        is_sorted(v),
    ensures
        forall|i: int, j: int|
            0 <= i < j < v.len() ==> {
                &&& (#[trigger] v[i]).modified_unix >= (#[trigger] v[j]).modified_unix
                &&& v[i].modified_unix == v[j].modified_unix ==> lex_le(v[i].filename@, v[j].filename@)
            },
{
    assert forall|i: int, j: int| 0 <= i < j < v.len() implies {
        &&& (#[trigger] v[i]).modified_unix >= (#[trigger] v[j]).modified_unix
        &&& v[i].modified_unix == v[j].modified_unix ==> lex_le(v[i].filename@, v[j].filename@)
    } by {
        assert(PlannedHistoryPreviewEntry::precedes(v[i], v[j]));
    }
}

impl SortOrder for PlannedHistoryPreviewEntry {
    open spec fn precedes(a: Self, b: Self) -> bool {
        a.modified_unix > b.modified_unix || (a.modified_unix == b.modified_unix && lex_le(
            a.filename@,
            b.filename@,
        ))
    }

    proof fn precedes_transitive(a: Self, b: Self, c: Self) {
        if a.modified_unix == b.modified_unix && b.modified_unix == c.modified_unix {
            lemma_lex_le_transitive(a.filename@, b.filename@, c.filename@);
        }
    }

    proof fn precedes_total(a: Self, b: Self) {
        lemma_lex_le_total(a.filename@, b.filename@);
    }

    fn precedes_exec(&self, other: &Self) -> (r: bool) {
        self.modified_unix > other.modified_unix || (self.modified_unix == other.modified_unix
            && text_le(self.filename.as_str(), other.filename.as_str()))
    }
}

/// Newest first; among records modified at the same second, by file name.
impl SortOrder for CompletedHistoryEntry {
    open spec fn precedes(a: Self, b: Self) -> bool {
        a.modified_unix > b.modified_unix || (a.modified_unix == b.modified_unix && lex_le(
            a.filename@,
            b.filename@,
        ))
    }

    proof fn precedes_transitive(a: Self, b: Self, c: Self) {
        if a.modified_unix == b.modified_unix && b.modified_unix == c.modified_unix {
            lemma_lex_le_transitive(a.filename@, b.filename@, c.filename@);
        }
    }

    proof fn precedes_total(a: Self, b: Self) {
        lemma_lex_le_total(a.filename@, b.filename@);
    }

    fn precedes_exec(&self, other: &Self) -> (r: bool) {
        self.modified_unix > other.modified_unix || (self.modified_unix == other.modified_unix
            && text_le(self.filename.as_str(), other.filename.as_str()))
    }
}

/// A history item is a record when it is a file with the extension `toml`.
pub open spec fn is_record_item(i: HistoryDirItem) -> bool {
    i.is_file && has_toml_extension(i.path@)
}

/// The records among the items of a history directory, in order.
pub open spec fn record_items(items: Seq<HistoryDirItem>) -> Seq<HistoryDirItem>
    decreases items.len(),
{
    if items.len() == 0 {
        Seq::empty()
    } else if is_record_item(items.last()) {
        record_items(items.drop_last()).push(items.last())
    } else {
        record_items(items.drop_last())
    }
}

pub open spec fn preview_entry_of(i: HistoryDirItem) -> PlannedHistoryPreviewEntry {
    PlannedHistoryPreviewEntry {
        path: i.path,
        filename: i.filename,
        modified_unix: i.modified_unix,
        size_bytes: i.size_bytes,
    }
}

pub open spec fn completed_entry_of(i: HistoryDirItem) -> CompletedHistoryEntry {
    CompletedHistoryEntry {
        path: i.path,
        filename: i.filename,
        modified_unix: i.modified_unix,
        size_bytes: i.size_bytes,
    }
}

fn keep_record_items(items: Vec<HistoryDirItem>) -> (r: Vec<HistoryDirItem>)
    ensures
        r@ == record_items(items@),
{
    let ghost all = items@;
    let mut out: Vec<HistoryDirItem> = Vec::new();
    let mut i: usize = 0;
    while i < items.len()
        invariant
            i <= items@.len(),
            all == items@,
            out@ == record_items(all.take(i as int)),
        decreases all.len() - i,
    {
        assert(all.take(i + 1).drop_last() =~= all.take(i as int));
        if items[i].is_file && has_toml_extension_exec(items[i].path.as_str()) {
            out.push(items[i].clone_item());
        }
        i = i + 1;
    }
    assert(all.take(all.len() as int) =~= all);
    out
}

impl HistoryDirItem {
    /// A copy of the item.
    pub fn clone_item(&self) -> (r: Self)
        ensures
            r == *self,
    {
        HistoryDirItem {
            path: self.path.clone(),
            filename: self.filename.clone(),
            is_file: self.is_file,
            modified_unix: self.modified_unix,
            size_bytes: self.size_bytes,
        }
    }
}

/// The planned history previews of a project, newest first. `items` is what
/// the previews directory holds (`None` when there is no such directory), or
/// the failure to read it.
pub fn list_planned_history_previews(items: Result<Option<Vec<HistoryDirItem>>, HistoryError>) -> (r:
    Result<Vec<PlannedHistoryPreviewEntry>, HistoryError>)
    ensures
        match items {
            Err(e) => r == Err::<Vec<PlannedHistoryPreviewEntry>, HistoryError>(e),
            Ok(None) => r matches Ok(v) && v@.len() == 0,
            Ok(Some(found)) => r matches Ok(v) && v@.to_multiset() == record_items(found@).map_values(
                |i: HistoryDirItem| preview_entry_of(i),
            ).to_multiset() && is_sorted(v@) && keeps_tie_order(
                v@,
                record_items(found@).map_values(|i: HistoryDirItem| preview_entry_of(i)),
            ),
        },
{
    let found = match items {
        Err(e) => return Err(e),
        Ok(None) => return Ok(Vec::new()),
        Ok(Some(found)) => found,
    };
    let records = keep_record_items(found);
    let ghost rs = records@;
    let mut entries: Vec<PlannedHistoryPreviewEntry> = Vec::new();
    let mut i: usize = 0;
    while i < records.len()
        invariant
            i <= records@.len(),
            rs == records@,
            entries@ == rs.take(i as int).map_values(|x: HistoryDirItem| preview_entry_of(x)),
        decreases rs.len() - i,
    {
        let item = &records[i];
        entries.push(
            PlannedHistoryPreviewEntry {
                path: item.path.clone(),
                filename: item.filename.clone(),
                modified_unix: item.modified_unix,
                size_bytes: item.size_bytes,
            },
        );
        assert(rs.take(i + 1).map_values(|x: HistoryDirItem| preview_entry_of(x)) =~= rs.take(
            i as int,
        ).map_values(|x: HistoryDirItem| preview_entry_of(x)).push(preview_entry_of(rs[i as int])));
        i = i + 1;
    }
    assert(rs.take(rs.len() as int) =~= rs);
    Ok(stable_sort(entries))
}

/// The completed history records of a project, newest first. `items` is
/// what the completed directory holds (`None` when there is no such
/// directory), or the failure to read it.
pub fn list_completed_history_records(items: Result<Option<Vec<HistoryDirItem>>, HistoryError>) -> (r:
    Result<Vec<CompletedHistoryEntry>, HistoryError>)
    ensures
        match items {
            Err(e) => r == Err::<Vec<CompletedHistoryEntry>, HistoryError>(e),
            Ok(None) => r matches Ok(v) && v@.len() == 0,
            Ok(Some(found)) => r matches Ok(v) && v@.to_multiset() == record_items(found@).map_values(
                |i: HistoryDirItem| completed_entry_of(i),
            ).to_multiset() && is_sorted(v@) && keeps_tie_order(
                v@,
                record_items(found@).map_values(|i: HistoryDirItem| completed_entry_of(i)),
            ) && newest_first(v@),
        },
{
    let found = match items {
        Err(e) => return Err(e),
        Ok(None) => return Ok(Vec::new()),
        Ok(Some(found)) => found,
    };
    let records = keep_record_items(found);
    let ghost rs = records@;
    let mut entries: Vec<CompletedHistoryEntry> = Vec::new();
    let mut i: usize = 0;
    while i < records.len()
        invariant
            i <= records@.len(),
            rs == records@,
            entries@ == rs.take(i as int).map_values(|x: HistoryDirItem| completed_entry_of(x)),
        decreases rs.len() - i,
    {
        let item = &records[i];
        entries.push(
            CompletedHistoryEntry {
                path: item.path.clone(),
                filename: item.filename.clone(),
                modified_unix: item.modified_unix,
                size_bytes: item.size_bytes,
            },
        );
        assert(rs.take(i + 1).map_values(|x: HistoryDirItem| completed_entry_of(x)) =~= rs.take(
            i as int,
        ).map_values(|x: HistoryDirItem| completed_entry_of(x)).push(completed_entry_of(rs[i as int])));
        i = i + 1;
    }
    assert(rs.take(rs.len() as int) =~= rs);
    let sorted = stable_sort(entries);
    proof {
        law_sorted_completed_records_are_newest_first(sorted@);
    }
    Ok(sorted)
}

/// Each record was modified no earlier than every record after it; records
/// modified at the same time stand in the order of their file names.
pub open spec fn newest_first(v: Seq<CompletedHistoryEntry>) -> bool {
    forall|i: int, j: int|
        0 <= i < j < v.len() ==> {
            &&& (#[trigger] v[i]).modified_unix >= (#[trigger] v[j]).modified_unix
            &&& v[i].modified_unix == v[j].modified_unix ==> lex_le(v[i].filename@, v[j].filename@)
        }
}

/// A list of completed records in their sort order is newest first, with
/// ties ordered by file name.
pub proof fn law_sorted_completed_records_are_newest_first(v: Seq<CompletedHistoryEntry>)
    requires
        is_sorted(v),
    ensures
        newest_first(v),
{
    assert forall|i: int, j: int| 0 <= i < j < v.len() implies {
        &&& (#[trigger] v[i]).modified_unix >= (#[trigger] v[j]).modified_unix
        &&& v[i].modified_unix == v[j].modified_unix ==> lex_le(v[i].filename@, v[j].filename@)
    } by {
        assert(CompletedHistoryEntry::precedes(v[i], v[j]));
    }
}

/// Whether `path` lies under `dir`, comparing whole components; both are
/// taken as canonical paths (absolute, without `.`, `..`, repeated or
/// trailing separators).
pub open spec fn path_under(path: Seq<char>, dir: Seq<char>) -> bool {
    ||| dir.len() == 0
    ||| path == dir
    ||| (dir.last() == '/' && starts_with_text(path, dir))
    ||| starts_with_text(path, dir + seq!['/'])
}

pub fn path_under_exec(path: &str, dir: &str) -> (r: bool)
    ensures
        r == path_under(path@, dir@),
{
    let dir_chars = chars_of(dir);
    let n = dir_chars.len();
    if n == 0 || text_eq(path, dir) {
        return true;
    }
    if dir_chars[n - 1] == '/' && starts_with_exec(path, dir) {
        return true;
    }
    let mut with_slash = string_of(dir);
    push_char(&mut with_slash, '/');
    assert(with_slash@ =~= dir@ + seq!['/']);
    starts_with_exec(path, with_slash.as_str())
}

/// The last component of a path: what follows its last `/`.
pub open spec fn last_component(s: Seq<char>) -> Seq<char>
    decreases s.len(),
{
    if s.len() == 0 || s.last() == '/' {
        Seq::empty()
    } else {
        last_component(s.drop_last()).push(s.last())
    }
}

/// The file name shown for a record: its last component, or `unknown`.
pub open spec fn shown_file_name(path: Seq<char>) -> Seq<char> {
    if last_component(path).len() == 0 {
        "unknown"@
    } else {
        last_component(path)
    }
}

proof fn lemma_last_component_after_separator(a: Seq<char>, name: Seq<char>)
    requires
        forall|i: int| 0 <= i < name.len() ==> name[i] != '/',
    ensures
        last_component(a + seq!['/'] + name) == name,
    decreases name.len(),
{
    let s = a + seq!['/'] + name;
    if name.len() == 0 {
        assert(s.last() == '/');
    } else {
        lemma_last_component_after_separator(a, name.drop_last());
        assert(s.drop_last() =~= a + seq!['/'] + name.drop_last());
        assert(name.drop_last().push(name.last()) =~= name);
    }
}

/// The shape of a record file's path in a history directory: inside the
/// directory, with the extension `toml`, and named `name`.
proof fn lemma_history_path(project_root: Seq<char>, kind: Seq<char>, name: Seq<char>)
    requires
        kind.len() > 0,
        kind[0] != '/',
        kind.last() != '/',
        name.len() > 6,
        name.subrange(name.len() - 5, name.len() as int) == ".toml"@,
        forall|i: int| 0 <= i < name.len() ==> name[i] != '/',
    ensures
        path_under(joined_path(history_dir(project_root, kind), name), history_dir(project_root, kind)),
        has_toml_extension(joined_path(history_dir(project_root, kind), name)),
        last_component(joined_path(history_dir(project_root, kind), name)) == name,
{
    reveal_strlit("history");
    let dir = history_dir(project_root, kind);
    assert(dir.len() > 0 && dir.last() == kind.last()) by {
        let base = joined_path(project_root, "history"@);
        if base.len() == 0 {
            assert(dir == kind);
        } else if base.last() == '/' {
            assert(dir == base + kind);
        } else {
            assert(dir == base + seq!['/'] + kind);
        }
    }
    let p = joined_path(dir, name);
    assert(p =~= dir + seq!['/'] + name);
    assert(starts_with_text(p, dir + seq!['/'])) by {
        assert(p.subrange(0, dir.len() + 1int) =~= dir + seq!['/']);
    }
    assert(p.subrange(p.len() - 5, p.len() as int) =~= name.subrange(name.len() - 5, name.len() as int));
    assert(p[p.len() - 6] == name[name.len() - 6]);
    lemma_last_component_after_separator(dir, name);
}

proof fn lemma_history_filename_shape(record: PublicationHistoryRecord, suffix: Seq<char>)
    requires
        suffix.len() > 6,
        suffix.subrange(suffix.len() - 5, suffix.len() as int) == ".toml"@,
        forall|i: int| 0 <= i < suffix.len() ==> suffix[i] != '/',
    ensures
        history_filename(record, suffix).len() > 6,
        history_filename(record, suffix).subrange(
            history_filename(record, suffix).len() - 5,
            history_filename(record, suffix).len() as int,
        ) == ".toml"@,
        forall|i: int|
            0 <= i < history_filename(record, suffix).len() ==> history_filename(record, suffix)[i]
                != '/',
{
    reveal_strlit("-");
    law_safe_segment_is_valid_id(record.date@);
    law_safe_segment_is_valid_id(record.target@);
    let a = safe_segment(record.date@);
    let b = safe_segment(record.target@);
    let name = history_filename(record, suffix);
    assert(name =~= a + "-"@ + b + suffix);
    assert(name.subrange(name.len() - 5, name.len() as int) =~= suffix.subrange(
        suffix.len() - 5,
        suffix.len() as int,
    ));
    assert forall|i: int| 0 <= i < name.len() implies name[i] != '/' by {
        if i < a.len() {
            assert(name[i] == a[i] && is_id_char(a[i]));
        } else if i == a.len() {
        } else if i < a.len() + 1 + b.len() {
            assert(name[i] == b[i - a.len() - 1] && is_id_char(b[i - a.len() - 1]));
        } else {
            assert(name[i] == suffix[i - a.len() - 1 - b.len()]);
        }
    }
}

/// A record saved as a planned preview or as a completed record lands inside
/// the project's history directory for its kind, under a `.toml` name that
/// the listing and the reader show as its file name: reading it back passes
/// the boundary check (for a project root given in canonical form).
pub proof fn law_saved_history_records_are_readable(
    project_root: Seq<char>,
    record: PublicationHistoryRecord,
)
    ensures
        path_under(
            joined_path(
                history_dir(project_root, "previews"@),
                history_filename(record, "-planned.toml"@),
            ),
            history_dir(project_root, "previews"@),
        ),
        has_toml_extension(
            joined_path(
                history_dir(project_root, "previews"@),
                history_filename(record, "-planned.toml"@),
            ),
        ),
        last_component(
            joined_path(
                history_dir(project_root, "previews"@),
                history_filename(record, "-planned.toml"@),
            ),
        ) == history_filename(record, "-planned.toml"@),
        shown_file_name(
            joined_path(
                history_dir(project_root, "previews"@),
                history_filename(record, "-planned.toml"@),
            ),
        ) == history_filename(record, "-planned.toml"@),
        path_under(
            joined_path(
                history_dir(project_root, "completed"@),
                history_filename(record, "-completed.toml"@),
            ),
            history_dir(project_root, "completed"@),
        ),
        has_toml_extension(
            joined_path(
                history_dir(project_root, "completed"@),
                history_filename(record, "-completed.toml"@),
            ),
        ),
        last_component(
            joined_path(
                history_dir(project_root, "completed"@),
                history_filename(record, "-completed.toml"@),
            ),
        ) == history_filename(record, "-completed.toml"@),
        shown_file_name(
            joined_path(
                history_dir(project_root, "completed"@),
                history_filename(record, "-completed.toml"@),
            ),
        ) == history_filename(record, "-completed.toml"@),
{
    reveal_strlit("previews");
    reveal_strlit("completed");
    reveal_strlit("-planned.toml");
    reveal_strlit("-completed.toml");
    reveal_strlit(".toml");
    let planned = "-planned.toml"@;
    let completed = "-completed.toml"@;
    assert(planned.subrange(planned.len() - 5, planned.len() as int) =~= ".toml"@);
    assert(completed.subrange(completed.len() - 5, completed.len() as int) =~= ".toml"@);
    lemma_history_filename_shape(record, planned);
    lemma_history_filename_shape(record, completed);
    lemma_history_path(project_root, "previews"@, history_filename(record, planned));
    lemma_history_path(project_root, "completed"@, history_filename(record, completed));
}

fn file_name_of(path: &str) -> (r: String)
    ensures
        r@ == shown_file_name(path@),
{
    let path_chars = chars_of(path);
    let n = path_chars.len();
    let mut start = n;
    assert(path@.take(n as int) =~= path@);
    assert(path@.subrange(n as int, n as int) =~= Seq::<char>::empty());
    assert(last_component(path@) =~= last_component(path@.take(n as int)) + path@.subrange(
        n as int,
        n as int,
    ));
    while start > 0 && path_chars[start - 1] != '/'
        invariant
            path_chars@ == path@,
            start <= n,
            n == path@.len(),
            last_component(path@) == last_component(path@.take(start as int)) + path@.subrange(
                start as int,
                n as int,
            ),
        decreases start,
    {
        assert(path@.take(start as int).drop_last() =~= path@.take(start - 1));
        assert(path@.subrange(start - 1, n as int) =~= seq![path@[start - 1]] + path@.subrange(
            start as int,
            n as int,
        ));
        start = start - 1;
    }
    proof {
        if start > 0 {
            assert(path@.take(start as int).last() == path@[start - 1]);
        }
        assert(last_component(path@.take(start as int)) =~= Seq::<char>::empty());
        assert(path@.take(n as int) =~= path@);
    }
    if start == n {
        return string_of("unknown");
    }
    let mut out = String::new();
    let mut k = start;
    while k < n
        invariant
            path_chars@ == path@,
            start <= k <= n,
            n == path@.len(),
            out@ == path@.subrange(start as int, k as int),
        decreases n - k,
    {
        push_char(&mut out, path_chars[k]);
        assert(out@ =~= path@.subrange(start as int, k + 1));
        k = k + 1;
    }
    out
}

/// What the file system shows of a history record file.
#[derive(Debug, Clone, Copy)]
pub struct HistoryFileFacts {
    pub is_file: bool,
    pub modified_unix: u64,
    pub size_bytes: u64,
}

/// Refuses a preview path outside the previews directory or without the
/// extension `toml`; both paths canonical.
pub fn check_planned_history_preview_path(preview_dir: &str, preview_path: &str) -> (r: Result<
    (),
    HistoryError,
>)
    ensures
        match r {
            Ok(()) => path_under(preview_path@, preview_dir@) && has_toml_extension(preview_path@),
            Err(e) => !(path_under(preview_path@, preview_dir@) && has_toml_extension(
                preview_path@,
            )) && (e matches HistoryError::PermissionDenied(m) && m@
                == "planned history preview path is outside project preview directory"@),
        },
{
    if !path_under_exec(preview_path, preview_dir) || !has_toml_extension_exec(preview_path) {
        return Err(
            HistoryError::PermissionDenied(
                string_of("planned history preview path is outside project preview directory"),
            ),
        );
    }
    Ok(())
}

/// Refuses a record path outside the completed directory or without the
/// extension `toml`; both paths canonical.
pub fn check_completed_history_record_path(history_dir: &str, record_path: &str) -> (r: Result<
    (),
    HistoryError,
>)
    ensures
        match r {
            Ok(()) => path_under(record_path@, history_dir@) && has_toml_extension(record_path@),
            Err(e) => !(path_under(record_path@, history_dir@) && has_toml_extension(
                record_path@,
            )) && (e matches HistoryError::PermissionDenied(m) && m@
                == "completed history record path is outside project completed history directory"@),
        },
{
    if !path_under_exec(record_path, history_dir) || !has_toml_extension_exec(record_path) {
        return Err(
            HistoryError::PermissionDenied(
                string_of(
                    "completed history record path is outside project completed history directory",
                ),
            ),
        );
    }
    Ok(())
}

/// Reads a planned history preview: the path must lie in the previews
/// directory (both canonical) and be a file. `facts` and `text` are what the
/// file system gives for the path; they are read only once the path passed
/// `check_planned_history_preview_path`.
pub fn read_planned_history_preview(
    preview_dir: &str,
    preview_path: &str,
    facts: Result<HistoryFileFacts, HistoryError>,
    text: Result<String, HistoryError>,
) -> (r: Result<PlannedHistoryPreviewDetail, HistoryError>)
    ensures
        if !(path_under(preview_path@, preview_dir@) && has_toml_extension(preview_path@)) {
            r matches Err(HistoryError::PermissionDenied(_))
        } else {
            match facts {
                Err(e) => r == Err::<PlannedHistoryPreviewDetail, HistoryError>(e),
                Ok(f) => if !f.is_file {
                    r matches Err(HistoryError::InvalidInput(m)) && m@
                        == "planned history preview path is not a file"@
                } else {
                    match text {
                        Err(e) => r == Err::<PlannedHistoryPreviewDetail, HistoryError>(e),
                        Ok(t) => r matches Ok(d) && d.record_toml == t && d.entry.path@
                            == preview_path@ && d.entry.filename@ == shown_file_name(preview_path@)
                            && d.entry.modified_unix == f.modified_unix && d.entry.size_bytes
                            == f.size_bytes,
                    }
                },
            }
        },
{
    if let Err(e) = check_planned_history_preview_path(preview_dir, preview_path) {
        return Err(e);
    }
    let f = match facts {
        Err(e) => return Err(e),
        Ok(f) => f,
    };
    if !f.is_file {
        return Err(HistoryError::InvalidInput(string_of("planned history preview path is not a file")));
    }
    let record_toml = match text {
        Err(e) => return Err(e),
        Ok(t) => t,
    };
    Ok(
        PlannedHistoryPreviewDetail {
            entry: PlannedHistoryPreviewEntry {
                path: string_of(preview_path),
                filename: file_name_of(preview_path),
                modified_unix: f.modified_unix,
                size_bytes: f.size_bytes,
            },
            record_toml,
        },
    )
}

/// Reads a completed history record: the path must lie in the completed
/// directory (both canonical) and be a file. `facts` and `text` are what the
/// file system gives for the path; they are read only once the path passed
/// `check_completed_history_record_path`.
pub fn read_completed_history_record(
    history_dir: &str,
    record_path: &str,
    facts: Result<HistoryFileFacts, HistoryError>,
    text: Result<String, HistoryError>,
) -> (r: Result<CompletedHistoryDetail, HistoryError>)
    ensures
        if !(path_under(record_path@, history_dir@) && has_toml_extension(record_path@)) {
            r matches Err(HistoryError::PermissionDenied(_))
        } else {
            match facts {
                Err(e) => r == Err::<CompletedHistoryDetail, HistoryError>(e),
                Ok(f) => if !f.is_file {
                    r matches Err(HistoryError::InvalidInput(m)) && m@
                        == "completed history record path is not a file"@
                } else {
                    match text {
                        Err(e) => r == Err::<CompletedHistoryDetail, HistoryError>(e),
                        Ok(t) => r matches Ok(d) && d.record_toml == t && d.entry.path@
                            == record_path@ && d.entry.filename@ == shown_file_name(record_path@)
                            && d.entry.modified_unix == f.modified_unix && d.entry.size_bytes
                            == f.size_bytes,
                    }
                },
            }
        },
{
    if let Err(e) = check_completed_history_record_path(history_dir, record_path) {
        return Err(e);
    }
    let f = match facts {
        Err(e) => return Err(e),
        Ok(f) => f,
    };
    if !f.is_file {
        return Err(HistoryError::InvalidInput(string_of("completed history record path is not a file")));
    }
    let record_toml = match text {
        Err(e) => return Err(e),
        Ok(t) => t,
    };
    Ok(
        CompletedHistoryDetail {
            entry: CompletedHistoryEntry {
                path: string_of(record_path),
                filename: file_name_of(record_path),
                modified_unix: f.modified_unix,
                size_bytes: f.size_bytes,
            },
            record_toml,
        },
    )
}

} // verus!
