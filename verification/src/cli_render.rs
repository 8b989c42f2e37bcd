use vstd::prelude::*;
use crate::cli_output::{append_json_escaped, json_escaped, json_joined, json_quoted, json_string_array, texts};
use crate::cli_support::{joined_with, json_issue_objects, json_issues};
use crate::project_format::{ProjectInspection, ProjectSummary};
use crate::validation::{views, IssueView, ValidationIssue, ValidationReport};
use crate::publish_plan::{FeedEntryDiagnostic, FeedPublicationState, PublishDryRun, Resolution, ResolutionStatus};
use crate::text::{append_bool, append_decimal, bool_text, decimal, push_char};

verus! {

// ---------------------------------------------------------------------------
// Pieces shared by the renderings
// ---------------------------------------------------------------------------

/// A JSON string for `Some` text, `null` for `None`.
pub open spec fn json_opt(o: Option<String>) -> Seq<char> {
    match o {
        Some(v) => json_quoted(v@),
        None => "null"@,
    }
}

fn append_json_opt(out: &mut String, o: &Option<String>)
    ensures
        final(out)@ == old(out)@ + json_opt(*o),
{
    match o {
        Some(v) => {
            push_char(out, '"');
            append_json_escaped(out, v.as_str());
            push_char(out, '"');
        },
        None => out.append("null"),
    }
}

fn append_json_items(out: &mut String, values: &Vec<String>)
    ensures
        final(out)@ == old(out)@ + json_joined(texts(values@)),
{
    let items = json_string_array(values.as_slice());
    out.append(items.as_str());
}

/// Each text on a line of its own after `prefix`.
pub open spec fn prefixed_lines(prefix: Seq<char>, items: Seq<Seq<char>>) -> Seq<char>
    decreases items.len(),
{
    if items.len() == 0 {
        Seq::empty()
    } else {
        prefixed_lines(prefix, items.drop_last()) + prefix + items.last() + seq!['\n']
    }
}

fn append_prefixed_lines(out: &mut String, prefix: &str, items: &Vec<String>)
    ensures
        final(out)@ == old(out)@ + prefixed_lines(prefix@, texts(items@)),
{
    let ghost start = out@;
    let mut i: usize = 0;
    while i < items.len()
        invariant
            i <= items@.len(),
            out@ == start + prefixed_lines(prefix@, texts(items@.take(i as int))),
        decreases items@.len() - i,
    {
        out.append(prefix);
        out.append(items[i].as_str());
        push_char(out, '\n');
        proof {
            assert(texts(items@.take(i + 1)).drop_last() =~= texts(items@.take(i as int)));
        }
        assert(out@ =~= start + prefixed_lines(prefix@, texts(items@.take(i + 1))));
        i = i + 1;
    }
    assert(items@.take(items@.len() as int) =~= items@);
}

// ---------------------------------------------------------------------------
// Publication plans
// ---------------------------------------------------------------------------

/// The name of a resolution status, as Rust's debug format writes it.
pub open spec fn status_name(s: ResolutionStatus) -> Seq<char> {
    match s {
        ResolutionStatus::NotRequired => "NotRequired"@,
        ResolutionStatus::Resolved => "Resolved"@,
        ResolutionStatus::Missing => "Missing"@,
        ResolutionStatus::Blocked => "Blocked"@,
        ResolutionStatus::Invalid => "Invalid"@,
    }
}

fn append_status_name(out: &mut String, s: ResolutionStatus)
    ensures
        final(out)@ == old(out)@ + status_name(s),
{
    match s {
        ResolutionStatus::NotRequired => out.append("NotRequired"),
        ResolutionStatus::Resolved => out.append("Resolved"),
        ResolutionStatus::Missing => out.append("Missing"),
        ResolutionStatus::Blocked => out.append("Blocked"),
        ResolutionStatus::Invalid => out.append("Invalid"),
    }
}

/// A resolution as a JSON object, `null` when there is none.
pub open spec fn json_resolution_text(r: Option<Resolution>) -> Seq<char> {
    match r {
        None => "null"@,
        Some(r) => "{\"id\":\""@ + json_escaped(r.id@) + "\",\"status\":\""@ + status_name(r.status)
            + "\",\"detail\":\""@ + json_escaped(r.detail@) + "\"}"@,
    }
}

fn append_json_resolution(out: &mut String, r: &Option<Resolution>)
    ensures
        final(out)@ == old(out)@ + json_resolution_text(*r),
{
    let ghost start = out@;
    match r {
        None => out.append("null"),
        Some(r) => {
            out.append("{\"id\":\"");
            append_json_escaped(out, r.id.as_str());
            out.append("\",\"status\":\"");
            append_status_name(out, r.status);
            out.append("\",\"detail\":\"");
            append_json_escaped(out, r.detail.as_str());
            out.append("\"}");
        },
    }
    assert(out@ =~= start + json_resolution_text(*r));
}

/// A resolution as a JSON object, `null` when there is none.
pub fn json_resolution(resolution: &Option<Resolution>) -> (r: String)
    ensures
        r@ == json_resolution_text(*resolution),
{
    let mut out = String::new();
    append_json_resolution(&mut out, resolution);
    assert(out@ =~= json_resolution_text(*resolution));
    out
}

/// A feed entry's diagnostic as a JSON object.
pub open spec fn json_diagnostic(d: FeedEntryDiagnostic) -> Seq<char> {
    "{\"path\":\""@ + json_escaped(d.path@) + "\",\"issues\":["@ + json_joined(texts(d.issues@))
        + "]}"@
}

pub open spec fn json_diagnostics_text(ds: Seq<FeedEntryDiagnostic>) -> Seq<char> {
    joined_with(ds.map_values(|d: FeedEntryDiagnostic| json_diagnostic(d)), seq![','])
}

fn append_json_diagnostics(out: &mut String, ds: &Vec<FeedEntryDiagnostic>)
    ensures
        final(out)@ == old(out)@ + json_diagnostics_text(ds@),
{
    let ghost start = out@;
    let mut i: usize = 0;
    while i < ds.len()
        invariant
            i <= ds@.len(),
            out@ == start + json_diagnostics_text(ds@.take(i as int)),
        decreases ds@.len() - i,
    {
        let ghost before = out@;
        if i > 0 {
            push_char(out, ',');
        }
        let ghost mid = out@;
        out.append("{\"path\":\"");
        append_json_escaped(out, ds[i].path.as_str());
        out.append("\",\"issues\":[");
        append_json_items(out, &ds[i].issues);
        out.append("]}");
        assert(out@ =~= mid + json_diagnostic(ds@[i as int]));
        proof {
            let f = |d: FeedEntryDiagnostic| json_diagnostic(d);
            assert(ds@.take(i + 1).map_values(f).drop_last() =~= ds@.take(i as int).map_values(f));
            if i == 0 {
                assert(ds@.take(0).map_values(f) =~= Seq::<Seq<char>>::empty());
            }
        }
        assert(out@ =~= start + json_diagnostics_text(ds@.take(i + 1)));
        i = i + 1;
    }
    assert(ds@.take(ds@.len() as int) =~= ds@);
}

/// The diagnostics of invalid feed entries as JSON objects, separated by commas.
pub fn json_feed_diagnostics(diagnostics: &Vec<FeedEntryDiagnostic>) -> (r: String)
    ensures
        r@ == json_diagnostics_text(diagnostics@),
{
    let mut out = String::new();
    append_json_diagnostics(&mut out, diagnostics);
    assert(out@ =~= json_diagnostics_text(diagnostics@));
    out
}

pub open spec fn json_feed_flags(f: FeedPublicationState) -> Seq<char> {
    "{\"configured\":"@ + bool_text(f.configured) + ",\"enabled\":"@ + bool_text(f.enabled)
        + ",\"type\":"@ + json_opt(f.feed_type)
}

pub open spec fn json_feed_file(f: FeedPublicationState) -> Seq<char> {
    ",\"path\":"@ + json_opt(f.path) + ",\"exists\":"@ + bool_text(f.exists)
}

pub open spec fn json_feed_counts(f: FeedPublicationState) -> Seq<char> {
    ",\"prepared_entries\":"@ + decimal(f.prepared_entries as nat) + ",\"invalid_entries\":"@
        + decimal(f.invalid_entries as nat)
}

/// The publication state of a feed as a JSON object.
pub open spec fn json_feed_state_text(f: FeedPublicationState) -> Seq<char> {
    json_feed_flags(f) + json_feed_file(f) + json_feed_counts(f)
        + ",\"invalid_entry_diagnostics\":["@ + json_diagnostics_text(f.invalid_entry_diagnostics@)
        + "]}"@
}

fn append_json_feed_flags(out: &mut String, f: &FeedPublicationState)
    ensures
        final(out)@ == old(out)@ + json_feed_flags(*f),
{
    let ghost start = out@;
    out.append("{\"configured\":");
    append_bool(out, f.configured);
    out.append(",\"enabled\":");
    append_bool(out, f.enabled);
    out.append(",\"type\":");
    append_json_opt(out, &f.feed_type);
    assert(out@ =~= start + json_feed_flags(*f));
}

fn append_json_feed_file(out: &mut String, f: &FeedPublicationState)
    ensures
        final(out)@ == old(out)@ + json_feed_file(*f),
{
    let ghost start = out@;
    out.append(",\"path\":");
    append_json_opt(out, &f.path);
    out.append(",\"exists\":");
    append_bool(out, f.exists);
    assert(out@ =~= start + json_feed_file(*f));
}

fn append_json_feed_counts(out: &mut String, f: &FeedPublicationState)
    ensures
        final(out)@ == old(out)@ + json_feed_counts(*f),
{
    let ghost start = out@;
    out.append(",\"prepared_entries\":");
    append_decimal(out, f.prepared_entries as u64);
    out.append(",\"invalid_entries\":");
    append_decimal(out, f.invalid_entries as u64);
    assert(out@ =~= start + json_feed_counts(*f));
}

fn append_json_feed_state(out: &mut String, f: &FeedPublicationState)
    ensures
        final(out)@ == old(out)@ + json_feed_state_text(*f),
{
    let ghost start = out@;
    append_json_feed_flags(out, f);
    append_json_feed_file(out, f);
    append_json_feed_counts(out, f);
    out.append(",\"invalid_entry_diagnostics\":[");
    append_json_diagnostics(out, &f.invalid_entry_diagnostics);
    out.append("]}");
    assert(out@ =~= start + json_feed_state_text(*f));
}

/// The publication state of a feed as a JSON object.
pub fn json_feed_state(feed: &FeedPublicationState) -> (r: String)
    ensures
        r@ == json_feed_state_text(*feed),
{
    let mut out = String::new();
    append_json_feed_state(&mut out, feed);
    assert(out@ =~= json_feed_state_text(*feed));
    out
}

/// The publication state of a feed in words.
pub open spec fn human_feed_state_text(f: FeedPublicationState) -> Seq<char> {
    if !f.configured {
        "not configured"@
    } else {
        (match f.path {
            Some(p) => p@,
            None => "no path"@,
        }) + " ("@ + (if f.exists {
            "exists"@
        } else {
            "missing"@
        }) + ", "@ + decimal(f.prepared_entries as nat) + " prepared entries, "@ + decimal(
            f.invalid_entries as nat,
        ) + " invalid entries)"@
    }
}

fn append_human_feed_state(out: &mut String, f: &FeedPublicationState)
    ensures
        final(out)@ == old(out)@ + human_feed_state_text(*f),
{
    let ghost start = out@;
    if !f.configured {
        out.append("not configured");
    } else {
        match &f.path {
            Some(p) => out.append(p.as_str()),
            None => out.append("no path"),
        }
        out.append(" (");
        if f.exists {
            out.append("exists");
        } else {
            out.append("missing");
        }
        out.append(", ");
        append_decimal(out, f.prepared_entries as u64);
        out.append(" prepared entries, ");
        append_decimal(out, f.invalid_entries as u64);
        out.append(" invalid entries)");
    }
    assert(out@ =~= start + human_feed_state_text(*f));
}

/// The publication state of a feed in words.
pub fn human_feed_state(feed: &FeedPublicationState) -> (r: String)
    ensures
        r@ == human_feed_state_text(*feed),
{
    let mut out = String::new();
    append_human_feed_state(&mut out, feed);
    assert(out@ =~= human_feed_state_text(*feed));
    out
}

// ---------------------------------------------------------------------------
// The dry-run report
// ---------------------------------------------------------------------------

pub open spec fn dry_run_ident(p: PublishDryRun) -> Seq<char> {
    "{\"project\":\""@ + json_escaped(p.project_id@) + "\",\"target\":\""@ + json_escaped(p.target@)
        + "\",\"method\":\""@ + json_escaped(p.method@) + "\",\"destination\":"@ + json_opt(
        p.destination,
    )
}

pub open spec fn dry_run_resolutions(p: PublishDryRun) -> Seq<char> {
    ",\"blocked\":"@ + bool_text(p.blocked) + ",\"host_resolution\":"@ + json_resolution_text(
        p.host_resolution,
    ) + ",\"identity_resolution\":"@ + json_resolution_text(p.identity_resolution)
}

pub open spec fn dry_run_changes(p: PublishDryRun) -> Seq<char> {
    ",\"changes\":{\"upload\":["@ + json_joined(texts(p.upload@)) + "],\"update\":["@ + json_joined(
        texts(p.update@),
    ) + "],\"delete\":["@ + json_joined(texts(p.delete@)) + "],\"skip\":["@ + json_joined(
        texts(p.skip@),
    ) + "]}"@
}

pub open spec fn dry_run_checks(p: PublishDryRun) -> Seq<char> {
    ",\"verification\":{\"checks\":["@ + json_joined(texts(p.verification_checks@))
        + "]},\"confirmations\":["@ + json_joined(texts(p.confirmations@)) + "]"@
}

/// What `publish --dry-run --json` prints for a plan.
pub open spec fn dry_run_json_text(p: PublishDryRun) -> Seq<char> {
    "{\"status\":\"ok\",\"schema\":1,\"data\":"@ + dry_run_ident(p) + dry_run_resolutions(p)
        + ",\"feed\":"@ + json_feed_state_text(p.feed) + dry_run_changes(p) + dry_run_checks(p)
        + "}}"@
}

fn append_dry_run_ident(out: &mut String, p: &PublishDryRun)
    ensures
        final(out)@ == old(out)@ + dry_run_ident(*p),
{
    let ghost start = out@;
    out.append("{\"project\":\"");
    append_json_escaped(out, p.project_id.as_str());
    out.append("\",\"target\":\"");
    append_json_escaped(out, p.target.as_str());
    out.append("\",\"method\":\"");
    append_json_escaped(out, p.method.as_str());
    out.append("\",\"destination\":");
    append_json_opt(out, &p.destination);
    assert(out@ =~= start + dry_run_ident(*p));
}

fn append_dry_run_resolutions(out: &mut String, p: &PublishDryRun)
    ensures
        final(out)@ == old(out)@ + dry_run_resolutions(*p),
{
    let ghost start = out@;
    out.append(",\"blocked\":");
    append_bool(out, p.blocked);
    out.append(",\"host_resolution\":");
    append_json_resolution(out, &p.host_resolution);
    out.append(",\"identity_resolution\":");
    append_json_resolution(out, &p.identity_resolution);
    assert(out@ =~= start + dry_run_resolutions(*p));
}

fn append_dry_run_changes(out: &mut String, p: &PublishDryRun)
    ensures
        final(out)@ == old(out)@ + dry_run_changes(*p),
{
    let ghost start = out@;
    out.append(",\"changes\":{\"upload\":[");
    append_json_items(out, &p.upload);
    out.append("],\"update\":[");
    append_json_items(out, &p.update);
    let ghost mid = out@;
    out.append("],\"delete\":[");
    append_json_items(out, &p.delete);
    out.append("],\"skip\":[");
    append_json_items(out, &p.skip);
    out.append("]}");
    assert(out@ =~= start + dry_run_changes(*p));
}

fn append_dry_run_checks(out: &mut String, p: &PublishDryRun)
    ensures
        final(out)@ == old(out)@ + dry_run_checks(*p),
{
    let ghost start = out@;
    out.append(",\"verification\":{\"checks\":[");
    append_json_items(out, &p.verification_checks);
    out.append("]},\"confirmations\":[");
    append_json_items(out, &p.confirmations);
    out.append("]");
    assert(out@ =~= start + dry_run_checks(*p));
}

/// What `publish --dry-run --json` prints for a plan.
pub fn dry_run_json(plan: &PublishDryRun) -> (r: String)
    ensures
        r@ == dry_run_json_text(*plan),
{
    let mut out = String::new();
    out.append("{\"status\":\"ok\",\"schema\":1,\"data\":");
    append_dry_run_ident(&mut out, plan);
    append_dry_run_resolutions(&mut out, plan);
    out.append(",\"feed\":");
    append_json_feed_state(&mut out, &plan.feed);
    append_dry_run_changes(&mut out, plan);
    append_dry_run_checks(&mut out, plan);
    out.append("}}");
    assert(out@ =~= dry_run_json_text(*plan));
    out
}

/// A line naming a resolution, or nothing when there is none.
pub open spec fn resolution_line(label: Seq<char>, r: Option<Resolution>) -> Seq<char> {
    match r {
        None => Seq::empty(),
        Some(r) => label + ": "@ + r.id@ + " ("@ + status_name(r.status) + ") - "@ + r.detail@ + "\n"@,
    }
}

fn append_resolution_line(out: &mut String, label: &str, r: &Option<Resolution>)
    ensures
        final(out)@ == old(out)@ + resolution_line(label@, *r),
{
    let ghost start = out@;
    match r {
        None => {},
        Some(r) => {
            out.append(label);
            out.append(": ");
            out.append(r.id.as_str());
            out.append(" (");
            append_status_name(out, r.status);
            out.append(") - ");
            out.append(r.detail.as_str());
            out.append("\n");
        },
    }
    assert(out@ =~= start + resolution_line(label@, *r));
}

/// One diagnostic: its path, then each issue, indented further.
pub open spec fn diagnostic_lines(d: FeedEntryDiagnostic) -> Seq<char> {
    "  "@ + d.path@ + "\n"@ + prefixed_lines("    "@, texts(d.issues@))
}

pub open spec fn diagnostics_lines(ds: Seq<FeedEntryDiagnostic>) -> Seq<char>
    decreases ds.len(),
{
    if ds.len() == 0 {
        Seq::empty()
    } else {
        diagnostics_lines(ds.drop_last()) + diagnostic_lines(ds.last())
    }
}

/// The diagnostics section of the dry-run report, or nothing.
pub open spec fn diagnostics_section(ds: Seq<FeedEntryDiagnostic>) -> Seq<char> {
    if ds.len() == 0 {
        Seq::empty()
    } else {
        "Feed diagnostics:\n"@ + diagnostics_lines(ds)
    }
}

fn append_diagnostics_section(out: &mut String, ds: &Vec<FeedEntryDiagnostic>)
    ensures
        final(out)@ == old(out)@ + diagnostics_section(ds@),
{
    if ds.len() == 0 {
        assert(out@ =~= old(out)@ + diagnostics_section(ds@));
        return;
    }
    let ghost start = out@;
    out.append("Feed diagnostics:\n");
    let ghost head = out@;
    let mut i: usize = 0;
    while i < ds.len()
        invariant
            i <= ds@.len(),
            out@ == head + diagnostics_lines(ds@.take(i as int)),
        decreases ds@.len() - i,
    {
        let ghost before = out@;
        out.append("  ");
        out.append(ds[i].path.as_str());
        out.append("\n");
        append_prefixed_lines(out, "    ", &ds[i].issues);
        assert(out@ =~= before + diagnostic_lines(ds@[i as int]));
        assert(ds@.take(i + 1).drop_last() =~= ds@.take(i as int));
        i = i + 1;
    }
    assert(ds@.take(ds@.len() as int) =~= ds@);
    assert(out@ =~= start + diagnostics_section(ds@));
}

/// A labelled list of paths, one per line.
pub open spec fn path_section(label: Seq<char>, items: Seq<String>) -> Seq<char> {
    label + ":\n"@ + prefixed_lines("  "@, texts(items))
}

fn append_path_section(out: &mut String, label: &str, items: &Vec<String>)
    ensures
        final(out)@ == old(out)@ + path_section(label@, items@),
{
    let ghost start = out@;
    out.append(label);
    out.append(":\n");
    append_prefixed_lines(out, "  ", items);
    assert(out@ =~= start + path_section(label@, items@));
}

pub open spec fn dry_run_head(p: PublishDryRun) -> Seq<char> {
    "Dry-run publication plan\nProject: "@ + p.project_id@ + "\nTarget: "@ + p.target@ + "\nMethod: "@
        + p.method@ + "\n"@ + (match p.destination {
        Some(d) => "Destination: "@ + d@ + "\n"@,
        None => Seq::empty(),
    })
}

pub open spec fn dry_run_status(p: PublishDryRun) -> Seq<char> {
    resolution_line("Host"@, p.host_resolution) + resolution_line("Identity"@, p.identity_resolution)
        + (if p.blocked {
        "Blocked: yes\n"@
    } else {
        Seq::empty()
    }) + "Feed: "@ + human_feed_state_text(p.feed) + "\n"@
}

pub open spec fn dry_run_lists(p: PublishDryRun) -> Seq<char> {
    path_section("Upload"@, p.upload@) + path_section("Update"@, p.update@) + path_section(
        "Delete"@,
        p.delete@,
    ) + path_section("Skip"@, p.skip@) + (if p.confirmations@.len() == 0 {
        Seq::empty()
    } else {
        path_section("Confirmations"@, p.confirmations@)
    })
}

/// What `publish --dry-run` prints for a plan.
pub open spec fn dry_run_report_text(p: PublishDryRun) -> Seq<char> {
    dry_run_head(p) + dry_run_status(p) + diagnostics_section(p.feed.invalid_entry_diagnostics@)
        + dry_run_lists(p)
}

fn append_dry_run_head(out: &mut String, p: &PublishDryRun)
    ensures
        final(out)@ == old(out)@ + dry_run_head(*p),
{
    let ghost start = out@;
    out.append("Dry-run publication plan\nProject: ");
    out.append(p.project_id.as_str());
    out.append("\nTarget: ");
    out.append(p.target.as_str());
    out.append("\nMethod: ");
    out.append(p.method.as_str());
    out.append("\n");
    match &p.destination {
        Some(d) => {
            out.append("Destination: ");
            out.append(d.as_str());
            out.append("\n");
        },
        None => {},
    }
    assert(out@ =~= start + dry_run_head(*p));
}

fn append_dry_run_status(out: &mut String, p: &PublishDryRun)
    ensures
        final(out)@ == old(out)@ + dry_run_status(*p),
{
    let ghost start = out@;
    append_resolution_line(out, "Host", &p.host_resolution);
    append_resolution_line(out, "Identity", &p.identity_resolution);
    if p.blocked {
        out.append("Blocked: yes\n");
    }
    out.append("Feed: ");
    append_human_feed_state(out, &p.feed);
    out.append("\n");
    assert(out@ =~= start + dry_run_status(*p));
}

fn append_dry_run_lists(out: &mut String, p: &PublishDryRun)
    ensures
        final(out)@ == old(out)@ + dry_run_lists(*p),
{
    let ghost start = out@;
    append_path_section(out, "Upload", &p.upload);
    append_path_section(out, "Update", &p.update);
    append_path_section(out, "Delete", &p.delete);
    append_path_section(out, "Skip", &p.skip);
    if p.confirmations.len() > 0 {
        append_path_section(out, "Confirmations", &p.confirmations);
    }
    assert(out@ =~= start + dry_run_lists(*p));
}

/// What `publish --dry-run` prints for a plan.
pub fn dry_run_report(plan: &PublishDryRun) -> (r: String)
    ensures
        r@ == dry_run_report_text(*plan),
{
    let mut out = String::new();
    append_dry_run_head(&mut out, plan);
    append_dry_run_status(&mut out, plan);
    append_diagnostics_section(&mut out, &plan.feed.invalid_entry_diagnostics);
    append_dry_run_lists(&mut out, plan);
    assert(out@ =~= dry_run_report_text(*plan));
    out
}

// ---------------------------------------------------------------------------
// Validation reports
// ---------------------------------------------------------------------------

/// What a `validate --json` command prints for a report.
pub open spec fn validation_json_text(report: ValidationReport) -> Seq<char> {
    "{\"status\":\"ok\",\"schema\":1,\"data\":{\"valid\":"@ + bool_text(report.valid)
        + ",\"errors\":["@ + joined_with(json_issue_objects(views(report.errors@)), seq![','])
        + "],\"warnings\":["@ + joined_with(json_issue_objects(views(report.warnings@)), seq![','])
        + "]}}"@
}

/// What a `validate --json` command prints for a report.
pub fn validation_json(report: &ValidationReport) -> (r: String)
    ensures
        r@ == validation_json_text(*report),
{
    let mut out = String::new();
    out.append("{\"status\":\"ok\",\"schema\":1,\"data\":{\"valid\":");
    append_bool(&mut out, report.valid);
    out.append(",\"errors\":[");
    let errors = json_issues(report.errors.as_slice());
    out.append(errors.as_str());
    out.append("],\"warnings\":[");
    let warnings = json_issues(report.warnings.as_slice());
    out.append(warnings.as_str());
    out.append("]}}");
    assert(out@ =~= validation_json_text(*report));
    out
}

/// Each issue on a line: its kind, its code and its message.
pub open spec fn issue_lines(kind: Seq<char>, issues: Seq<IssueView>) -> Seq<char>
    decreases issues.len(),
{
    if issues.len() == 0 {
        Seq::empty()
    } else {
        issue_lines(kind, issues.drop_last()) + kind + ": "@ + issues.last().code + ": "@
            + issues.last().message + "\n"@
    }
}

fn append_issue_lines(out: &mut String, kind: &str, issues: &Vec<ValidationIssue>)
    ensures
        final(out)@ == old(out)@ + issue_lines(kind@, views(issues@)),
{
    let ghost start = out@;
    let mut i: usize = 0;
    while i < issues.len()
        invariant
            i <= issues@.len(),
            out@ == start + issue_lines(kind@, views(issues@.take(i as int))),
        decreases issues@.len() - i,
    {
        out.append(kind);
        out.append(": ");
        out.append(issues[i].code);
        out.append(": ");
        out.append(issues[i].message.as_str());
        out.append("\n");
        proof {
            assert(views(issues@.take(i + 1)).drop_last() =~= views(issues@.take(i as int)));
        }
        assert(out@ =~= start + issue_lines(kind@, views(issues@.take(i + 1))));
        i = i + 1;
    }
    assert(issues@.take(issues@.len() as int) =~= issues@);
}

/// What a `validate` command prints for a report on `label`: whether it is
/// valid, then its errors and its warnings.
pub open spec fn validation_text(label: Seq<char>, report: ValidationReport) -> Seq<char> {
    label + " is "@ + (if report.valid {
        "valid"@
    } else {
        "invalid"@
    }) + "\n"@ + issue_lines("error"@, views(report.errors@)) + issue_lines(
        "warning"@,
        views(report.warnings@),
    )
}

/// What a `validate` command prints for a report on `label`.
pub fn validation_report(label: &str, report: &ValidationReport) -> (r: String)
    ensures
        r@ == validation_text(label@, *report),
{
    let mut out = String::new();
    out.append(label);
    out.append(" is ");
    if report.valid {
        out.append("valid");
    } else {
        out.append("invalid");
    }
    out.append("\n");
    append_issue_lines(&mut out, "error", &report.errors);
    append_issue_lines(&mut out, "warning", &report.warnings);
    assert(out@ =~= validation_text(label@, *report));
    out
}

/// What `project validate` prints: whether the project is valid, its errors
/// when it is not, and its warnings.
pub open spec fn project_validation_text(report: ValidationReport) -> Seq<char> {
    if report.valid {
        "Project is valid\n"@ + issue_lines("warning"@, views(report.warnings@))
    } else {
        "Project is invalid\n"@ + issue_lines("error"@, views(report.errors@)) + issue_lines(
            "warning"@,
            views(report.warnings@),
        )
    }
}

/// What `project validate` prints for a report.
pub fn project_validation_report(report: &ValidationReport) -> (r: String)
    ensures
        r@ == project_validation_text(*report),
{
    let mut out = String::new();
    if report.valid {
        out.append("Project is valid\n");
    } else {
        out.append("Project is invalid\n");
        append_issue_lines(&mut out, "error", &report.errors);
    }
    append_issue_lines(&mut out, "warning", &report.warnings);
    assert(out@ =~= project_validation_text(*report));
    out
}

// ---------------------------------------------------------------------------
// Projects
// ---------------------------------------------------------------------------

fn append_joined(out: &mut String, items: &Vec<String>, sep: &str)
    ensures
        final(out)@ == old(out)@ + joined_with(texts(items@), sep@),
{
    let ghost start = out@;
    let mut i: usize = 0;
    while i < items.len()
        invariant
            i <= items@.len(),
            out@ == start + joined_with(texts(items@.take(i as int)), sep@),
        decreases items@.len() - i,
    {
        if i > 0 {
            out.append(sep);
        }
        out.append(items[i].as_str());
        proof {
            assert(texts(items@.take(i + 1)).drop_last() =~= texts(items@.take(i as int)));
            if i == 0 {
                assert(texts(items@.take(0)) =~= Seq::<Seq<char>>::empty());
            }
        }
        assert(out@ =~= start + joined_with(texts(items@.take(i + 1)), sep@));
        i = i + 1;
    }
    assert(items@.take(items@.len() as int) =~= items@);
}

pub open spec fn inspection_names(p: ProjectInspection) -> Seq<char> {
    "{\"status\":\"ok\",\"schema\":1,\"data\":{\"id\":\""@ + json_escaped(p.id@) + "\",\"name\":\""@
        + json_escaped(p.name@) + "\",\"type\":\""@ + json_escaped(p.project_type@)
}

pub open spec fn inspection_layout(p: ProjectInspection) -> Seq<char> {
    "\",\"project_schema\":"@ + decimal(p.schema as nat) + ",\"content_root\":\""@ + json_escaped(
        p.content_root@,
    ) + "\",\"content_index\":\""@ + json_escaped(p.content_index@)
}

/// What `project inspect --json` prints.
pub open spec fn inspection_json_text(p: ProjectInspection) -> Seq<char> {
    inspection_names(p) + inspection_layout(p) + "\",\"publish_targets\":["@ + json_joined(
        texts(p.publish_targets@),
    ) + "]}}"@
}

fn append_inspection_names(out: &mut String, p: &ProjectInspection)
    ensures
        final(out)@ == old(out)@ + inspection_names(*p),
{
    let ghost start = out@;
    out.append("{\"status\":\"ok\",\"schema\":1,\"data\":{\"id\":\"");
    append_json_escaped(out, p.id.as_str());
    out.append("\",\"name\":\"");
    append_json_escaped(out, p.name.as_str());
    out.append("\",\"type\":\"");
    append_json_escaped(out, p.project_type.as_str());
    assert(out@ =~= start + inspection_names(*p));
}

fn append_inspection_layout(out: &mut String, p: &ProjectInspection)
    ensures
        final(out)@ == old(out)@ + inspection_layout(*p),
{
    let ghost start = out@;
    out.append("\",\"project_schema\":");
    append_decimal(out, p.schema as u64);
    out.append(",\"content_root\":\"");
    append_json_escaped(out, p.content_root.as_str());
    out.append("\",\"content_index\":\"");
    append_json_escaped(out, p.content_index.as_str());
    assert(out@ =~= start + inspection_layout(*p));
}

/// What `project inspect --json` prints.
pub fn inspection_json(inspection: &ProjectInspection) -> (r: String)
    ensures
        r@ == inspection_json_text(*inspection),
{
    let mut out = String::new();
    append_inspection_names(&mut out, inspection);
    append_inspection_layout(&mut out, inspection);
    out.append("\",\"publish_targets\":[");
    append_json_items(&mut out, &inspection.publish_targets);
    out.append("]}}");
    assert(out@ =~= inspection_json_text(*inspection));
    out
}

/// What `project inspect` prints.
pub open spec fn inspection_text(p: ProjectInspection) -> Seq<char> {
    "Project: "@ + p.name@ + "\nID: "@ + p.id@ + "\nType: "@ + p.project_type@ + "\nSchema: "@
        + decimal(p.schema as nat) + "\nContent: "@ + p.content_root@ + "/"@ + p.content_index@
        + "\n"@ + (if p.publish_targets@.len() == 0 {
        "Publish targets: none\n"@
    } else {
        "Publish targets: "@ + joined_with(texts(p.publish_targets@), ", "@) + "\n"@
    })
}

/// What `project inspect` prints.
pub fn inspection_report(inspection: &ProjectInspection) -> (r: String)
    ensures
        r@ == inspection_text(*inspection),
{
    let mut out = String::new();
    out.append("Project: ");
    out.append(inspection.name.as_str());
    out.append("\nID: ");
    out.append(inspection.id.as_str());
    out.append("\nType: ");
    out.append(inspection.project_type.as_str());
    out.append("\nSchema: ");
    append_decimal(&mut out, inspection.schema as u64);
    let ghost head = out@;
    out.append("\nContent: ");
    out.append(inspection.content_root.as_str());
    out.append("/");
    out.append(inspection.content_index.as_str());
    out.append("\n");
    if inspection.publish_targets.len() == 0 {
        out.append("Publish targets: none\n");
    } else {
        out.append("Publish targets: ");
        append_joined(&mut out, &inspection.publish_targets, ", ");
        out.append("\n");
    }
    assert(out@ =~= inspection_text(*inspection));
    out
}

/// A project as a JSON object.
pub open spec fn project_object(p: ProjectSummary) -> Seq<char> {
    "{\"id\":\""@ + json_escaped(p.id@) + "\",\"name\":\""@ + json_escaped(p.name@) + "\",\"type\":\""@
        + json_escaped(p.project_type@) + "\",\"schema\":"@ + decimal(p.schema as nat)
        + ",\"path\":\""@ + json_escaped(p.path@) + "\"}"@
}

/// What `project list --json` prints.
pub open spec fn project_list_json_text(ps: Seq<ProjectSummary>) -> Seq<char> {
    "{\"status\":\"ok\",\"schema\":1,\"data\":{\"projects\":["@ + joined_with(
        ps.map_values(|p: ProjectSummary| project_object(p)),
        seq![','],
    ) + "]}}"@
}

fn append_project_object(out: &mut String, p: &ProjectSummary)
    ensures
        final(out)@ == old(out)@ + project_object(*p),
{
    let ghost start = out@;
    out.append("{\"id\":\"");
    append_json_escaped(out, p.id.as_str());
    out.append("\",\"name\":\"");
    append_json_escaped(out, p.name.as_str());
    out.append("\",\"type\":\"");
    append_json_escaped(out, p.project_type.as_str());
    let ghost mid = out@;
    out.append("\",\"schema\":");
    append_decimal(out, p.schema as u64);
    out.append(",\"path\":\"");
    append_json_escaped(out, p.path.as_str());
    out.append("\"}");
    assert(out@ =~= start + project_object(*p));
}

/// What `project list --json` prints.
pub fn project_list_json(projects: &Vec<ProjectSummary>) -> (r: String)
    ensures
        r@ == project_list_json_text(projects@),
{
    let mut out = String::new();
    out.append("{\"status\":\"ok\",\"schema\":1,\"data\":{\"projects\":[");
    let ghost head = out@;
    let mut i: usize = 0;
    while i < projects.len()
        invariant
            i <= projects@.len(),
            out@ == head + joined_with(
                projects@.take(i as int).map_values(|p: ProjectSummary| project_object(p)),
                seq![','],
            ),
        decreases projects@.len() - i,
    {
        if i > 0 {
            push_char(&mut out, ',');
        }
        append_project_object(&mut out, &projects[i]);
        proof {
            let f = |p: ProjectSummary| project_object(p);
            assert(projects@.take(i + 1).map_values(f).drop_last() =~= projects@.take(i as int).map_values(f));
            if i == 0 {
                assert(projects@.take(0).map_values(f) =~= Seq::<Seq<char>>::empty());
            }
        }
        i = i + 1;
    }
    assert(projects@.take(projects@.len() as int) =~= projects@);
    out.append("]}}");
    assert(out@ =~= project_list_json_text(projects@));
    out
}

/// A project on a line of `project list`.
pub open spec fn project_line(p: ProjectSummary) -> Seq<char> {
    p.id@ + "\t"@ + p.project_type@ + "\t"@ + decimal(p.schema as nat) + "\t"@ + p.path@ + "\n"@
}

pub open spec fn project_lines(ps: Seq<ProjectSummary>) -> Seq<char>
    decreases ps.len(),
{
    if ps.len() == 0 {
        Seq::empty()
    } else {
        project_lines(ps.drop_last()) + project_line(ps.last())
    }
}

/// What `project list` prints.
pub open spec fn project_list_text(ps: Seq<ProjectSummary>) -> Seq<char> {
    if ps.len() == 0 {
        "No projects found\n"@
    } else {
        project_lines(ps)
    }
}

/// What `project list` prints.
pub fn project_list_report(projects: &Vec<ProjectSummary>) -> (r: String)
    ensures
        r@ == project_list_text(projects@),
{
    let mut out = String::new();
    if projects.len() == 0 {
        out.append("No projects found\n");
        return out;
    }
    let mut i: usize = 0;
    while i < projects.len()
        invariant
            i <= projects@.len(),
            projects@.len() > 0,
            out@ == project_lines(projects@.take(i as int)),
        decreases projects@.len() - i,
    {
        let p = &projects[i];
        let ghost before = out@;
        out.append(p.id.as_str());
        out.append("\t");
        out.append(p.project_type.as_str());
        out.append("\t");
        append_decimal(&mut out, p.schema as u64);
        out.append("\t");
        out.append(p.path.as_str());
        out.append("\n");
        assert(out@ =~= before + project_line(*p));
        assert(projects@.take(i + 1).drop_last() =~= projects@.take(i as int));
        i = i + 1;
    }
    assert(projects@.take(projects@.len() as int) =~= projects@);
    out
}

} // verus!
