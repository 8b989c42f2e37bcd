use vstd::prelude::*;
use crate::cli_output::{append_json_escaped, json_escaped};
use crate::project_format::Manifest;
use crate::publication_history::{
    CompletedHistoryDetail, CompletedHistoryEntry, PlannedHistoryPreviewDetail,
    PlannedHistoryPreviewEntry, PublicationFile, PublicationHistoryRecord,
};
use crate::text::{append_decimal, decimal, is_blank, is_blank_text, push_char, string_of, text_eq};
use crate::validation::{views, IssueView, ValidationIssue};

verus! {

// ---------------------------------------------------------------------------
// Options on the command line
// ---------------------------------------------------------------------------

/// The position of the first `option` that has a value after it.
pub open spec fn option_index(args: Seq<&str>, option: Seq<char>) -> Option<int>
    decreases args.len(),
{
    if args.len() < 2 {
        None
    } else if args[0]@ == option {
        Some(0)
    } else {
        match option_index(args.drop_first(), option) {
            Some(k) => Some(k + 1),
            None => None,
        }
    }
}

proof fn lemma_option_index(args: Seq<&str>, option: Seq<char>, i: int)
    requires
        0 <= i,
        i + 1 <= args.len(),
        forall|j: int| 0 <= j < i ==> (#[trigger] args[j])@ != option,
    ensures
        i + 1 < args.len() && args[i]@ == option ==> option_index(args, option) == Some(i),
        i + 1 == args.len() ==> option_index(args, option) is None,
    decreases i,
{
    if i > 0 {
        lemma_option_index(args.drop_first(), option, i - 1);
    }
}

/// The value that follows the first `option` among the arguments.
pub fn option_value<'a>(args: &[&'a str], option: &str) -> (r: Option<&'a str>)
    ensures
        match option_index(args@, option@) {
            Some(i) => r == Some(args@[i + 1]),
            None => r is None,
        },
{
    if args.len() < 2 {
        return None;
    }
    let mut i: usize = 0;
    while i < args.len() - 1
        invariant
            i + 1 <= args@.len(),
            forall|j: int| 0 <= j < i ==> (#[trigger] args@[j])@ != option@,
        decreases args@.len() - i,
    {
        if text_eq(args[i], option) {
            proof {
                lemma_option_index(args@, option@, i as int);
            }
            return Some(args[i + 1]);
        }
        i = i + 1;
    }
    proof {
        lemma_option_index(args@, option@, i as int);
    }
    None
}

/// The value of an option that must be given, or `missing <option>`.
pub fn required_option<'a>(args: &[&'a str], option: &str) -> (r: Result<&'a str, String>)
    ensures
        match option_index(args@, option@) {
            Some(i) => r == Ok::<&str, String>(args@[i + 1]),
            None => r matches Err(m) && m@ == "missing "@ + option@,
        },
{
    match option_value(args, option) {
        Some(v) => Ok(v),
        None => {
            let mut m = string_of("missing ");
            m.append(option);
            Err(m)
        },
    }
}

/// Reads a yes-or-no option: `true`, `yes`, `1` or `false`, `no`, `0`.
pub fn parse_bool_option(value: &str) -> (r: Result<bool, String>)
    ensures
        match r {
            Ok(b) => (b && (value@ == "true"@ || value@ == "yes"@ || value@ == "1"@)) || (!b && (
            value@ == "false"@ || value@ == "no"@ || value@ == "0"@)),
            Err(m) => !(value@ == "true"@ || value@ == "yes"@ || value@ == "1"@ || value@
                == "false"@ || value@ == "no"@ || value@ == "0"@) && m@
                == "invalid --rollback-available (use true or false)"@,
        },
{
    if text_eq(value, "true") || text_eq(value, "yes") || text_eq(value, "1") {
        Ok(true)
    } else if text_eq(value, "false") || text_eq(value, "no") || text_eq(value, "0") {
        Ok(false)
    } else {
        Err(string_of("invalid --rollback-available (use true or false)"))
    }
}

/// The texts of `items` separated by `sep`.
pub open spec fn joined_with(items: Seq<Seq<char>>, sep: Seq<char>) -> Seq<char>
    decreases items.len(),
{
    if items.len() == 0 {
        Seq::empty()
    } else if items.len() == 1 {
        items[0]
    } else {
        joined_with(items.drop_last(), sep) + sep + items.last()
    }
}

pub open spec fn str_texts(items: Seq<&str>) -> Seq<Seq<char>> {
    items.map_values(|t: &str| t@)
}

/// Refuses a value that is not one of the allowed ones, naming them.
pub fn validate_option_value(option: &str, value: &str, allowed: &[&str]) -> (r: Result<(), String>)
    ensures
        match r {
            Ok(()) => str_texts(allowed@).contains(value@),
            Err(m) => !str_texts(allowed@).contains(value@) && m@ == "invalid "@ + option@
                + " value '"@ + value@ + "' (allowed: "@ + joined_with(str_texts(allowed@), ", "@)
                + ")"@,
        },
{
    let mut i: usize = 0;
    while i < allowed.len()
        invariant
            i <= allowed@.len(),
            forall|j: int| 0 <= j < i ==> (#[trigger] allowed@[j])@ != value@,
        decreases allowed@.len() - i,
    {
        if text_eq(allowed[i], value) {
            assert(str_texts(allowed@)[i as int] == value@);
            return Ok(());
        }
        i = i + 1;
    }
    let mut m = string_of("invalid ");
    m.append(option);
    m.append(" value '");
    m.append(value);
    m.append("' (allowed: ");
    let ghost head = m@;
    let mut k: usize = 0;
    while k < allowed.len()
        invariant
            k <= allowed@.len(),
            m@ == head + joined_with(str_texts(allowed@.take(k as int)), ", "@),
        decreases allowed@.len() - k,
    {
        if k > 0 {
            m.append(", ");
        }
        m.append(allowed[k]);
        proof {
            assert(str_texts(allowed@.take(k + 1)).drop_last() =~= str_texts(allowed@.take(k as int)));
            if k == 0 {
                assert(str_texts(allowed@.take(0)) =~= Seq::<Seq<char>>::empty());
            }
        }
        k = k + 1;
    }
    assert(allowed@.take(allowed@.len() as int) =~= allowed@);
    m.append(")");
    assert(!str_texts(allowed@).contains(value@));
    Err(m)
}

/// The inputs of a completed history record, as given on the command line.
#[derive(Debug, Clone, Copy)]
pub struct CompletedHistoryInputs<'a> {
    pub project: &'a str,
    pub target: &'a str,
    pub date: &'a str,
    pub transfer_result: &'a str,
    pub verification_result: &'a str,
    pub rollback_available: bool,
    pub rollback_notes: &'a str,
}

/// A transfer result that a completed record may report.
pub open spec fn is_transfer_result(v: Seq<char>) -> bool {
    v == "completed"@ || v == "failed"@ || v == "skipped"@
}

/// A verification result that a completed record may report.
pub open spec fn is_verification_result(v: Seq<char>) -> bool {
    v == "not-run"@ || v == "passed"@ || v == "failed"@
}

/// Whether a transfer result is one a completed record may report.
pub fn is_valid_transfer_result(result: &str) -> (r: bool)
    ensures
        r == is_transfer_result(result@),
{
    text_eq(result, "completed") || text_eq(result, "failed") || text_eq(result, "skipped")
}

/// Whether a verification result is one a completed record may report.
pub fn is_valid_verification_result(result: &str) -> (r: bool)
    ensures
        r == is_verification_result(result@),
{
    text_eq(result, "not-run") || text_eq(result, "passed") || text_eq(result, "failed")
}

/// Whether every option of a completed record is given: the value of each.
pub open spec fn given(args: Seq<&str>, option: Seq<char>) -> bool {
    option_index(args, option) is Some
}

pub open spec fn value_of(args: Seq<&str>, option: Seq<char>) -> Seq<char> {
    args[option_index(args, option)->Some_0 + 1]@
}

/// Reads the inputs of a completed history record from the arguments: every
/// option is required, `--rollback-available` is a yes or a no, and the two
/// results must be ones a record may report. On success the inputs are the
/// options' values.
pub fn completed_history_inputs<'a>(args: &[&'a str]) -> (r: Result<CompletedHistoryInputs<'a>, String>)
    ensures
        match r {
            Ok(inputs) => {
                &&& given(args@, "--project"@) && inputs.project@ == value_of(args@, "--project"@)
                &&& given(args@, "--target"@) && inputs.target@ == value_of(args@, "--target"@)
                &&& given(args@, "--date"@) && inputs.date@ == value_of(args@, "--date"@)
                &&& given(args@, "--transfer-result"@) && inputs.transfer_result@ == value_of(
                    args@,
                    "--transfer-result"@,
                )
                &&& given(args@, "--verification-result"@) && inputs.verification_result@
                    == value_of(args@, "--verification-result"@)
                &&& given(args@, "--rollback-available"@)
                &&& given(args@, "--rollback-notes"@) && inputs.rollback_notes@ == value_of(
                    args@,
                    "--rollback-notes"@,
                )
                &&& is_transfer_result(inputs.transfer_result@)
                &&& is_verification_result(inputs.verification_result@)
            },
            Err(_) => !given(args@, "--project"@) || !given(args@, "--target"@) || !given(
                args@,
                "--date"@,
            ) || !given(args@, "--transfer-result"@) || !given(args@, "--verification-result"@)
                || !given(args@, "--rollback-available"@) || !given(args@, "--rollback-notes"@)
                || !is_transfer_result(value_of(args@, "--transfer-result"@))
                || !is_verification_result(value_of(args@, "--verification-result"@)) || !(
            value_of(args@, "--rollback-available"@) == "true"@ || value_of(
                args@,
                "--rollback-available"@,
            ) == "yes"@ || value_of(args@, "--rollback-available"@) == "1"@ || value_of(
                args@,
                "--rollback-available"@,
            ) == "false"@ || value_of(args@, "--rollback-available"@) == "no"@ || value_of(
                args@,
                "--rollback-available"@,
            ) == "0"@),
        },
{
    let project = required_option(args, "--project")?;
    let target = required_option(args, "--target")?;
    let date = required_option(args, "--date")?;
    let transfer_result = required_option(args, "--transfer-result")?;
    let verification_result = required_option(args, "--verification-result")?;
    let rollback_text = required_option(args, "--rollback-available")?;
    let rollback_available = parse_bool_option(rollback_text)?;
    let rollback_notes = required_option(args, "--rollback-notes")?;
    let transfer_allowed: &[&str] = &["completed", "failed", "skipped"];
    assert(str_texts(transfer_allowed@) =~= seq!["completed"@, "failed"@, "skipped"@]);
    if let Err(m) = validate_option_value("--transfer-result", transfer_result, transfer_allowed) {
        return Err(m);
    }
    let verification_allowed: &[&str] = &["not-run", "passed", "failed"];
    assert(str_texts(verification_allowed@) =~= seq!["not-run"@, "passed"@, "failed"@]);
    if let Err(m) = validate_option_value(
        "--verification-result",
        verification_result,
        verification_allowed,
    ) {
        return Err(m);
    }
    Ok(
        CompletedHistoryInputs {
            project,
            target,
            date,
            transfer_result,
            verification_result,
            rollback_available,
            rollback_notes,
        },
    )
}

/// The audio metadata directory that a project's manifest names, when it is not blank.
pub fn project_audio_metadata_root(manifest: &Manifest) -> (r: Option<String>)
    ensures
        match manifest.audio {
            Some(a) => match a.metadata {
                Some(m) => if is_blank(m@) {
                    r is None
                } else {
                    r == Some(m)
                },
                None => r is None,
            },
            None => r is None,
        },
{
    match &manifest.audio {
        Some(a) => match &a.metadata {
            Some(m) => if is_blank_text(m.as_str()) {
                None
            } else {
                Some(m.clone())
            },
            None => None,
        },
        None => None,
    }
}

// ---------------------------------------------------------------------------
// JSON output
// ---------------------------------------------------------------------------

/// An issue as the command-line tools print it in JSON.
pub open spec fn json_issue(i: IssueView) -> Seq<char> {
    "{\"code\":\""@ + i.code + "\",\"message\":\""@ + json_escaped(i.message) + "\"}"@
}

pub open spec fn json_issue_objects(s: Seq<IssueView>) -> Seq<Seq<char>> {
    s.map_values(|i: IssueView| json_issue(i))
}

/// The JSON objects of issues, separated by commas.
pub fn json_issues(issues: &[ValidationIssue]) -> (r: String)
    ensures
        r@ == joined_with(json_issue_objects(views(issues@)), seq![',']),
{
    let mut out = String::new();
    let mut i: usize = 0;
    while i < issues.len()
        invariant
            i <= issues@.len(),
            out@ == joined_with(json_issue_objects(views(issues@.take(i as int))), seq![',']),
        decreases issues@.len() - i,
    {
        if i > 0 {
            push_char(&mut out, ',');
        }
        out.append("{\"code\":\"");
        out.append(issues[i].code);
        out.append("\",\"message\":\"");
        append_json_escaped(&mut out, issues[i].message.as_str());
        out.append("\"}");
        proof {
            assert(json_issue_objects(views(issues@.take(i + 1))).drop_last() =~= json_issue_objects(
                views(issues@.take(i as int)),
            ));
            if i == 0 {
                assert(json_issue_objects(views(issues@.take(0))) =~= Seq::<Seq<char>>::empty());
            }
        }
        i = i + 1;
    }
    assert(issues@.take(issues@.len() as int) =~= issues@);
    out
}

/// A history entry as a JSON object.
pub open spec fn json_history_entry(
    path: Seq<char>,
    filename: Seq<char>,
    modified_unix: u64,
    size_bytes: u64,
) -> Seq<char> {
    seq!['{'] + json_history_fields(path, filename, modified_unix, size_bytes) + seq!['}']
}

/// The fields of a history entry in JSON, without braces.
pub open spec fn json_history_fields(
    path: Seq<char>,
    filename: Seq<char>,
    modified_unix: u64,
    size_bytes: u64,
) -> Seq<char> {
    "\"path\":\""@ + json_escaped(path) + "\",\"filename\":\""@ + json_escaped(filename)
        + "\",\"modified_unix\":"@ + decimal(modified_unix as nat) + ",\"size_bytes\":"@ + decimal(
        size_bytes as nat,
    )
}

fn append_history_fields(out: &mut String, path: &str, filename: &str, modified_unix: u64, size_bytes: u64)
    ensures
        final(out)@ == old(out)@ + json_history_fields(path@, filename@, modified_unix, size_bytes),
{
    out.append("\"path\":\"");
    append_json_escaped(out, path);
    out.append("\",\"filename\":\"");
    append_json_escaped(out, filename);
    out.append("\",\"modified_unix\":");
    append_decimal(out, modified_unix);
    out.append(",\"size_bytes\":");
    append_decimal(out, size_bytes);
}

pub open spec fn preview_objects(s: Seq<PlannedHistoryPreviewEntry>) -> Seq<Seq<char>> {
    s.map_values(
        |e: PlannedHistoryPreviewEntry|
            json_history_entry(e.path@, e.filename@, e.modified_unix, e.size_bytes),
    )
}

pub open spec fn record_objects(s: Seq<CompletedHistoryEntry>) -> Seq<Seq<char>> {
    s.map_values(
        |e: CompletedHistoryEntry|
            json_history_entry(e.path@, e.filename@, e.modified_unix, e.size_bytes),
    )
}

/// The JSON objects of planned history previews, separated by commas.
pub fn json_planned_history_previews(previews: &[PlannedHistoryPreviewEntry]) -> (r: String)
    ensures
        r@ == joined_with(preview_objects(previews@), seq![',']),
{
    let mut out = String::new();
    let mut i: usize = 0;
    while i < previews.len()
        invariant
            i <= previews@.len(),
            out@ == joined_with(preview_objects(previews@.take(i as int)), seq![',']),
        decreases previews@.len() - i,
    {
        if i > 0 {
            push_char(&mut out, ',');
        }
        let e = &previews[i];
        push_char(&mut out, '{');
        append_history_fields(&mut out, e.path.as_str(), e.filename.as_str(), e.modified_unix, e.size_bytes);
        push_char(&mut out, '}');
        proof {
            assert(preview_objects(previews@.take(i + 1)).drop_last() =~= preview_objects(
                previews@.take(i as int),
            ));
            if i == 0 {
                assert(preview_objects(previews@.take(0)) =~= Seq::<Seq<char>>::empty());
            }
        }
        i = i + 1;
    }
    assert(previews@.take(previews@.len() as int) =~= previews@);
    out
}

/// The JSON objects of completed history records, separated by commas.
pub fn json_completed_history_records(records: &[CompletedHistoryEntry]) -> (r: String)
    ensures
        r@ == joined_with(record_objects(records@), seq![',']),
{
    let mut out = String::new();
    let mut i: usize = 0;
    while i < records.len()
        invariant
            i <= records@.len(),
            out@ == joined_with(record_objects(records@.take(i as int)), seq![',']),
        decreases records@.len() - i,
    {
        if i > 0 {
            push_char(&mut out, ',');
        }
        let e = &records[i];
        push_char(&mut out, '{');
        append_history_fields(&mut out, e.path.as_str(), e.filename.as_str(), e.modified_unix, e.size_bytes);
        push_char(&mut out, '}');
        proof {
            assert(record_objects(records@.take(i + 1)).drop_last() =~= record_objects(
                records@.take(i as int),
            ));
            if i == 0 {
                assert(record_objects(records@.take(0)) =~= Seq::<Seq<char>>::empty());
            }
        }
        i = i + 1;
    }
    assert(records@.take(records@.len() as int) =~= records@);
    out
}

/// The JSON fields of a planned history preview with its text, without braces.
pub fn json_planned_history_preview_detail(detail: &PlannedHistoryPreviewDetail) -> (r: String)
    ensures
        r@ == json_history_fields(
            detail.entry.path@,
            detail.entry.filename@,
            detail.entry.modified_unix,
            detail.entry.size_bytes,
        ) + ",\"record_toml\":\""@ + json_escaped(detail.record_toml@) + "\""@,
{
    let mut out = String::new();
    let e = &detail.entry;
    append_history_fields(&mut out, e.path.as_str(), e.filename.as_str(), e.modified_unix, e.size_bytes);
    out.append(",\"record_toml\":\"");
    append_json_escaped(&mut out, detail.record_toml.as_str());
    out.append("\"");
    out
}

/// The JSON fields of a completed history record with its text, without braces.
pub fn json_completed_history_detail(detail: &CompletedHistoryDetail) -> (r: String)
    ensures
        r@ == json_history_fields(
            detail.entry.path@,
            detail.entry.filename@,
            detail.entry.modified_unix,
            detail.entry.size_bytes,
        ) + ",\"record_toml\":\""@ + json_escaped(detail.record_toml@) + "\""@,
{
    let mut out = String::new();
    let e = &detail.entry;
    append_history_fields(&mut out, e.path.as_str(), e.filename.as_str(), e.modified_unix, e.size_bytes);
    out.append(",\"record_toml\":\"");
    append_json_escaped(&mut out, detail.record_toml.as_str());
    out.append("\"");
    out
}

/// A file of a history record as a JSON object.
pub open spec fn json_history_file(f: PublicationFile) -> Seq<char> {
    "{\"path\":\""@ + json_escaped(f.path@) + "\",\"action\":\""@ + json_escaped(f.action@)
        + "\"}"@
}

pub open spec fn history_file_objects(s: Seq<PublicationFile>) -> Seq<Seq<char>> {
    s.map_values(|f: PublicationFile| json_history_file(f))
}

/// The JSON objects of a record's files, separated by commas.
pub fn json_history_files(record: &PublicationHistoryRecord) -> (r: String)
    ensures
        r@ == joined_with(history_file_objects(record.files@), seq![',']),
{
    let files = &record.files;
    let mut out = String::new();
    let mut i: usize = 0;
    while i < files.len()
        invariant
            i <= files@.len(),
            files == &record.files,
            out@ == joined_with(history_file_objects(files@.take(i as int)), seq![',']),
        decreases files@.len() - i,
    {
        if i > 0 {
            push_char(&mut out, ',');
        }
        out.append("{\"path\":\"");
        append_json_escaped(&mut out, files[i].path.as_str());
        out.append("\",\"action\":\"");
        append_json_escaped(&mut out, files[i].action.as_str());
        out.append("\"}");
        proof {
            assert(history_file_objects(files@.take(i + 1)).drop_last() =~= history_file_objects(
                files@.take(i as int),
            ));
            if i == 0 {
                assert(history_file_objects(files@.take(0)) =~= Seq::<Seq<char>>::empty());
            }
        }
        i = i + 1;
    }
    assert(files@.take(files@.len() as int) =~= files@);
    out
}

} // verus!
