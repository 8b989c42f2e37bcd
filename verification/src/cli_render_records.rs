use vstd::prelude::*;
use crate::audio_metadata::AudioMetadata;
use crate::audio_write::{AttachedRecording, PreparedFeedEntry, RecordingSummary};
use crate::cli_output::{append_json_escaped, json_escaped};
use crate::cli_render::{json_opt, prefixed_lines};
use crate::cli_support::joined_with;
use crate::host_identity::{HostRecord, HostSummary, IdentityRecord, IdentitySummary};
use crate::cli_support::{
    history_file_objects, json_completed_history_detail, json_completed_history_records,
    json_history_fields, json_history_files, json_planned_history_preview_detail,
    json_planned_history_previews, preview_objects, record_objects,
};
use crate::project_format::CreatedProject;
use crate::publication_history::{
    record_toml, CompletedHistoryDetail, CompletedHistoryEntry, PlannedHistoryPreviewDetail,
    PlannedHistoryPreviewEntry, PublicationHistoryRecord,
};
use crate::text::{append_decimal, decimal, push_char};

verus! {

/// A JSON field whose value is a string.
pub open spec fn string_field(kv: (Seq<char>, Seq<char>)) -> Seq<char> {
    seq!['"'] + kv.0 + "\":\""@ + json_escaped(kv.1) + seq!['"']
}

/// String fields of a JSON object, separated by commas.
pub open spec fn string_fields(fs: Seq<(Seq<char>, Seq<char>)>) -> Seq<char> {
    joined_with(fs.map_values(|kv: (Seq<char>, Seq<char>)| string_field(kv)), seq![','])
}

pub open spec fn pair_views(fs: Seq<(&str, &str)>) -> Seq<(Seq<char>, Seq<char>)> {
    fs.map_values(|p: (&str, &str)| (p.0@, p.1@))
}

fn append_string_fields(out: &mut String, fs: &[(&str, &str)])
    ensures
        final(out)@ == old(out)@ + string_fields(pair_views(fs@)),
{
    let ghost start = out@;
    let mut i: usize = 0;
    while i < fs.len()
        invariant
            i <= fs@.len(),
            out@ == start + string_fields(pair_views(fs@.take(i as int))),
        decreases fs@.len() - i,
    {
        let ghost before = out@;
        if i > 0 {
            push_char(out, ',');
        }
        let ghost sep = out@;
        let (k, v) = fs[i];
        push_char(out, '"');
        out.append(k);
        out.append("\":\"");
        append_json_escaped(out, v);
        push_char(out, '"');
        assert(out@ =~= sep + string_field((k@, v@)));
        proof {
            let f = |kv: (Seq<char>, Seq<char>)| string_field(kv);
            let a = pair_views(fs@.take(i + 1));
            let b = pair_views(fs@.take(i as int));
            assert(a.drop_last() =~= b);
            assert(a.last() == (k@, v@));
            assert(a.map_values(f).drop_last() =~= b.map_values(f));
            assert(a.map_values(f).last() == string_field((k@, v@)));
            if i == 0 {
                assert(b.map_values(f) =~= Seq::<Seq<char>>::empty());
                assert(a.map_values(f).len() == 1);
                assert(string_fields(a) == string_field((k@, v@)));
                assert(sep == before);
            } else {
                assert(string_fields(a) == string_fields(b) + seq![','] + string_field((k@, v@)));
                assert(sep =~= before + seq![',']);
            }
        }
        assert(out@ =~= start + string_fields(pair_views(fs@.take(i + 1))));
        i = i + 1;
    }
    assert(fs@.take(fs@.len() as int) =~= fs@);
}

/// The success envelope of a command around the fields of its data.
pub open spec fn ok_envelope(data_fields: Seq<char>) -> Seq<char> {
    "{\"status\":\"ok\",\"schema\":1,\"data\":{"@ + data_fields + "}}"@
}

fn string_fields_envelope(fs: &[(&str, &str)]) -> (r: String)
    ensures
        r@ == ok_envelope(string_fields(pair_views(fs@))),
{
    let mut out = String::new();
    out.append("{\"status\":\"ok\",\"schema\":1,\"data\":{");
    append_string_fields(&mut out, fs);
    out.append("}}");
    assert(out@ =~= ok_envelope(string_fields(pair_views(fs@))));
    out
}

// ---------------------------------------------------------------------------
// Recordings
// ---------------------------------------------------------------------------

pub open spec fn attached_fields(a: AttachedRecording) -> Seq<(Seq<char>, Seq<char>)> {
    seq![
        ("id"@, a.id@),
        ("title"@, a.title@),
        ("metadata_path"@, a.metadata_path@),
        ("metadata_relative_path"@, a.metadata_relative_path@),
        ("master"@, a.master@),
        ("published"@, a.published@),
        ("feed"@, a.feed@),
        ("entry_id"@, a.entry_id@),
        ("mime_type"@, a.mime_type@),
    ]
}

/// What `record attach --json` prints.
pub fn attached_json(a: &AttachedRecording) -> (r: String)
    ensures
        r@ == ok_envelope(string_fields(attached_fields(*a))),
{
    let fields = [
        ("id", a.id.as_str()),
        ("title", a.title.as_str()),
        ("metadata_path", a.metadata_path.as_str()),
        ("metadata_relative_path", a.metadata_relative_path.as_str()),
        ("master", a.master.as_str()),
        ("published", a.published.as_str()),
        ("feed", a.feed.as_str()),
        ("entry_id", a.entry_id.as_str()),
        ("mime_type", a.mime_type.as_str()),
    ];
    let r = string_fields_envelope(&fields);
    assert(pair_views(fields@) =~= attached_fields(*a));
    r
}

/// What `record attach` prints.
pub open spec fn attached_text(a: AttachedRecording) -> Seq<char> {
    "Attached recording: "@ + a.id@ + "\nMetadata: "@ + a.metadata_path@ + "\nMaster: "@ + a.master@
        + "\nPublished: "@ + a.published@ + "\nFeed: "@ + a.feed@ + "\n"@
}

/// What `record attach` prints.
pub fn attached_report(a: &AttachedRecording) -> (r: String)
    ensures
        r@ == attached_text(*a),
{
    let mut out = String::new();
    out.append("Attached recording: ");
    out.append(a.id.as_str());
    out.append("\nMetadata: ");
    out.append(a.metadata_path.as_str());
    out.append("\nMaster: ");
    out.append(a.master.as_str());
    out.append("\nPublished: ");
    out.append(a.published.as_str());
    out.append("\nFeed: ");
    out.append(a.feed.as_str());
    out.append("\n");
    assert(out@ =~= attached_text(*a));
    out
}

pub open spec fn prepared_fields(p: PreparedFeedEntry) -> Seq<(Seq<char>, Seq<char>)> {
    seq![
        ("recording_id"@, p.recording_id@),
        ("title"@, p.title@),
        ("entry_id"@, p.entry_id@),
        ("feed"@, p.feed@),
        ("output_path"@, p.output_path@),
        ("output_relative_path"@, p.output_relative_path@),
        ("published"@, p.published@),
        ("mime_type"@, p.mime_type@),
        ("updated"@, p.updated@),
    ]
}

/// What `record prepare-feed-entry --json` prints.
pub fn prepared_json(p: &PreparedFeedEntry) -> (r: String)
    ensures
        r@ == ok_envelope(string_fields(prepared_fields(*p))),
{
    let fields = [
        ("recording_id", p.recording_id.as_str()),
        ("title", p.title.as_str()),
        ("entry_id", p.entry_id.as_str()),
        ("feed", p.feed.as_str()),
        ("output_path", p.output_path.as_str()),
        ("output_relative_path", p.output_relative_path.as_str()),
        ("published", p.published.as_str()),
        ("mime_type", p.mime_type.as_str()),
        ("updated", p.updated.as_str()),
    ];
    let r = string_fields_envelope(&fields);
    assert(pair_views(fields@) =~= prepared_fields(*p));
    r
}

/// What `record prepare-feed-entry` prints.
pub open spec fn prepared_text(p: PreparedFeedEntry) -> Seq<char> {
    "Prepared feed entry: "@ + p.recording_id@ + "\nMetadata: "@ + p.output_path@ + "\nPublished: "@
        + p.published@ + "\nFeed: "@ + p.feed@ + "\n"@
}

/// What `record prepare-feed-entry` prints.
pub fn prepared_report(p: &PreparedFeedEntry) -> (r: String)
    ensures
        r@ == prepared_text(*p),
{
    let mut out = String::new();
    out.append("Prepared feed entry: ");
    out.append(p.recording_id.as_str());
    out.append("\nMetadata: ");
    out.append(p.output_path.as_str());
    out.append("\nPublished: ");
    out.append(p.published.as_str());
    out.append("\nFeed: ");
    out.append(p.feed.as_str());
    out.append("\n");
    assert(out@ =~= prepared_text(*p));
    out
}

pub open spec fn recording_fields(m: AudioMetadata) -> Seq<(Seq<char>, Seq<char>)> {
    seq![("id"@, m.recording.id@), ("title"@, m.recording.title@), ("master"@, m.recording.master@)]
}

/// What `record inspect --json` prints.
pub open spec fn recording_json_text(m: AudioMetadata) -> Seq<char> {
    ok_envelope(string_fields(recording_fields(m)) + ",\"published\":"@ + json_opt(m.recording.published))
}

/// What `record inspect --json` prints.
pub fn recording_json(m: &AudioMetadata) -> (r: String)
    ensures
        r@ == recording_json_text(*m),
{
    let fields = [
        ("id", m.recording.id.as_str()),
        ("title", m.recording.title.as_str()),
        ("master", m.recording.master.as_str()),
    ];
    let mut out = String::new();
    out.append("{\"status\":\"ok\",\"schema\":1,\"data\":{");
    append_string_fields(&mut out, &fields);
    assert(pair_views(fields@) =~= recording_fields(*m));
    out.append(",\"published\":");
    match &m.recording.published {
        Some(p) => {
            push_char(&mut out, '"');
            append_json_escaped(&mut out, p.as_str());
            push_char(&mut out, '"');
        },
        None => out.append("null"),
    }
    out.append("}}");
    assert(out@ =~= recording_json_text(*m));
    out
}

/// What `record inspect` prints.
pub open spec fn recording_text(m: AudioMetadata) -> Seq<char> {
    "Recording: "@ + m.recording.title@ + "\nID: "@ + m.recording.id@ + "\nMaster: "@
        + m.recording.master@ + "\n"@ + (match m.recording.published {
        Some(p) => "Published: "@ + p@ + "\n"@,
        None => Seq::empty(),
    })
}

/// What `record inspect` prints.
pub fn recording_report(m: &AudioMetadata) -> (r: String)
    ensures
        r@ == recording_text(*m),
{
    let mut out = String::new();
    out.append("Recording: ");
    out.append(m.recording.title.as_str());
    out.append("\nID: ");
    out.append(m.recording.id.as_str());
    out.append("\nMaster: ");
    out.append(m.recording.master.as_str());
    out.append("\n");
    match &m.recording.published {
        Some(p) => {
            out.append("Published: ");
            out.append(p.as_str());
            out.append("\n");
        },
        None => {},
    }
    assert(out@ =~= recording_text(*m));
    out
}

// ---------------------------------------------------------------------------
// Listings
// ---------------------------------------------------------------------------

/// A listed item whose JSON object is made of string fields.
pub trait JsonObject: Sized {
    spec fn json_fields(self) -> Seq<(Seq<char>, Seq<char>)>;

    fn append_json_object(&self, out: &mut String)
        ensures
            final(out)@ == old(out)@ + seq!['{'] + string_fields(self.json_fields()) + seq!['}'],
    ;
}

pub open spec fn json_object<T: JsonObject>(x: T) -> Seq<char> {
    seq!['{'] + string_fields(x.json_fields()) + seq!['}']
}

/// The JSON objects of a list, separated by commas.
pub open spec fn json_objects<T: JsonObject>(xs: Seq<T>) -> Seq<char> {
    joined_with(xs.map_values(|x: T| json_object(x)), seq![','])
}

/// What a listing command prints in JSON: its items under `key`.
pub open spec fn listing_json_text<T: JsonObject>(key: Seq<char>, xs: Seq<T>) -> Seq<char> {
    ok_envelope(seq!['"'] + key + "\":["@ + json_objects(xs) + seq![']'])
}

/// What a listing command prints in JSON: its items under `key`.
pub fn listing_json<T: JsonObject>(key: &str, items: &Vec<T>) -> (r: String)
    ensures
        r@ == listing_json_text(key@, items@),
{
    let mut out = String::new();
    out.append("{\"status\":\"ok\",\"schema\":1,\"data\":{");
    push_char(&mut out, '"');
    out.append(key);
    out.append("\":[");
    let ghost head = out@;
    let mut i: usize = 0;
    while i < items.len()
        invariant
            i <= items@.len(),
            out@ == head + json_objects(items@.take(i as int)),
        decreases items@.len() - i,
    {
        let ghost before = out@;
        if i > 0 {
            push_char(&mut out, ',');
        }
        items[i].append_json_object(&mut out);
        proof {
            let f = |x: T| json_object(x);
            assert(items@.take(i + 1).map_values(f).drop_last() =~= items@.take(i as int).map_values(f));
            if i == 0 {
                assert(items@.take(0).map_values(f) =~= Seq::<Seq<char>>::empty());
            }
        }
        assert(out@ =~= head + json_objects(items@.take(i + 1)));
        i = i + 1;
    }
    assert(items@.take(items@.len() as int) =~= items@);
    push_char(&mut out, ']');
    out.append("}}");
    assert(out@ =~= listing_json_text(key@, items@));
    out
}

fn append_braced_fields(out: &mut String, fs: &[(&str, &str)])
    ensures
        final(out)@ == old(out)@ + seq!['{'] + string_fields(pair_views(fs@)) + seq!['}'],
{
    push_char(out, '{');
    append_string_fields(out, fs);
    push_char(out, '}');
}

impl JsonObject for HostSummary {
    open spec fn json_fields(self) -> Seq<(Seq<char>, Seq<char>)> {
        seq![
            ("id"@, self.id@),
            ("display_name"@, self.display_name@),
            ("address"@, self.address@),
            ("path"@, self.path@),
        ]
    }

    fn append_json_object(&self, out: &mut String) {
        let fields = [
            ("id", self.id.as_str()),
            ("display_name", self.display_name.as_str()),
            ("address", self.address.as_str()),
            ("path", self.path.as_str()),
        ];
        append_braced_fields(out, &fields);
        assert(pair_views(fields@) =~= self.json_fields());
    }
}

impl JsonObject for IdentitySummary {
    open spec fn json_fields(self) -> Seq<(Seq<char>, Seq<char>)> {
        seq![("id"@, self.id@), ("display_name"@, self.display_name@), ("path"@, self.path@)]
    }

    fn append_json_object(&self, out: &mut String) {
        let fields = [
            ("id", self.id.as_str()),
            ("display_name", self.display_name.as_str()),
            ("path", self.path.as_str()),
        ];
        append_braced_fields(out, &fields);
        assert(pair_views(fields@) =~= self.json_fields());
    }
}

impl JsonObject for RecordingSummary {
    open spec fn json_fields(self) -> Seq<(Seq<char>, Seq<char>)> {
        seq![("id"@, self.id@), ("title"@, self.title@), ("path"@, self.path@)]
    }

    fn append_json_object(&self, out: &mut String) {
        let fields = [
            ("id", self.id.as_str()),
            ("title", self.title.as_str()),
            ("path", self.path.as_str()),
        ];
        append_braced_fields(out, &fields);
        assert(pair_views(fields@) =~= self.json_fields());
    }
}

/// Tab-separated fields on a line.
pub open spec fn tab_line(fields: Seq<Seq<char>>) -> Seq<char> {
    joined_with(fields, seq!['\t']) + seq!['\n']
}

/// A listing in text: `empty` when there is nothing, else one line per item.
pub open spec fn listing_text(empty: Seq<char>, lines: Seq<Seq<char>>) -> Seq<char>
    decreases lines.len(),
{
    if lines.len() == 0 {
        empty
    } else if lines.len() == 1 {
        lines[0]
    } else {
        listing_text(empty, lines.drop_last()) + lines.last()
    }
}

pub open spec fn host_line(h: HostSummary) -> Seq<char> {
    tab_line(seq![h.id@, h.address@, h.path@])
}

pub open spec fn identity_line(i: IdentitySummary) -> Seq<char> {
    tab_line(seq![i.id@, i.path@])
}

pub open spec fn playable_line(r: RecordingSummary) -> Seq<char> {
    tab_line(seq![r.id@, r.title@])
}

pub open spec fn recording_line(r: RecordingSummary) -> Seq<char> {
    tab_line(seq![r.id@, r.title@, r.path@])
}

fn append_tab_fields(out: &mut String, fields: &[&str])
    ensures
        final(out)@ == old(out)@ + tab_line(fields@.map_values(|f: &str| f@)),
{
    let ghost start = out@;
    let ghost views = fields@.map_values(|f: &str| f@);
    let mut i: usize = 0;
    while i < fields.len()
        invariant
            i <= fields@.len(),
            views == fields@.map_values(|f: &str| f@),
            out@ == start + joined_with(views.take(i as int), seq!['\t']),
        decreases fields@.len() - i,
    {
        if i > 0 {
            push_char(out, '\t');
        }
        out.append(fields[i]);
        proof {
            assert(views.take(i + 1).drop_last() =~= views.take(i as int));
            if i == 0 {
                assert(views.take(0) =~= Seq::<Seq<char>>::empty());
            }
        }
        assert(out@ =~= start + joined_with(views.take(i + 1), seq!['\t']));
        i = i + 1;
    }
    assert(views.take(views.len() as int) =~= views);
    push_char(out, '\n');
}

/// What `host list` prints.
pub fn host_list_report(hosts: &Vec<HostSummary>) -> (r: String)
    ensures
        r@ == listing_text("No hosts found\n"@, hosts@.map_values(|h: HostSummary| host_line(h))),
{
    let mut out = String::new();
    if hosts.len() == 0 {
        out.append("No hosts found\n");
        return out;
    }
    let mut i: usize = 0;
    while i < hosts.len()
        invariant
            i <= hosts@.len(),
            hosts@.len() > 0,
            i > 0 ==> out@ == listing_text(
                "No hosts found\n"@,
                hosts@.take(i as int).map_values(|h: HostSummary| host_line(h)),
            ),
            i == 0 ==> out@ == Seq::<char>::empty(),
        decreases hosts@.len() - i,
    {
        let h = &hosts[i];
        let ghost before = out@;
        let fields = [h.id.as_str(), h.address.as_str(), h.path.as_str()];
        append_tab_fields(&mut out, &fields);
        proof {
            assert(fields@.map_values(|f: &str| f@) =~= seq![h.id@, h.address@, h.path@]);
            let g = |h: HostSummary| host_line(h);
            assert(hosts@.take(i + 1).map_values(g).drop_last() =~= hosts@.take(i as int).map_values(g));
        }
        i = i + 1;
    }
    assert(hosts@.take(hosts@.len() as int) =~= hosts@);
    out
}

/// What `identity list` prints.
pub fn identity_list_report(items: &Vec<IdentitySummary>) -> (r: String)
    ensures
        r@ == listing_text("No identities found\n"@, items@.map_values(|x: IdentitySummary| identity_line(x))),
{
    let mut out = String::new();
    if items.len() == 0 {
        out.append("No identities found\n");
        return out;
    }
    let mut i: usize = 0;
    while i < items.len()
        invariant
            i <= items@.len(),
            items@.len() > 0,
            i > 0 ==> out@ == listing_text(
                "No identities found\n"@,
                items@.take(i as int).map_values(|x: IdentitySummary| identity_line(x)),
            ),
            i == 0 ==> out@ == Seq::<char>::empty(),
        decreases items@.len() - i,
    {
        let x = &items[i];
        let fields = [x.id.as_str(), x.path.as_str()];
        append_tab_fields(&mut out, &fields);
        proof {
            assert(fields@.map_values(|f: &str| f@) =~= seq![x.id@, x.path@]);
            let g = |x: IdentitySummary| identity_line(x);
            assert(items@.take(i + 1).map_values(g).drop_last() =~= items@.take(i as int).map_values(g));
        }
        i = i + 1;
    }
    assert(items@.take(items@.len() as int) =~= items@);
    out
}

/// What `listen library` prints.
pub fn playable_list_report(items: &Vec<RecordingSummary>) -> (r: String)
    ensures
        r@ == listing_text("No playable recordings found\n"@, items@.map_values(|x: RecordingSummary| playable_line(x))),
{
    let mut out = String::new();
    if items.len() == 0 {
        out.append("No playable recordings found\n");
        return out;
    }
    let mut i: usize = 0;
    while i < items.len()
        invariant
            i <= items@.len(),
            items@.len() > 0,
            i > 0 ==> out@ == listing_text(
                "No playable recordings found\n"@,
                items@.take(i as int).map_values(|x: RecordingSummary| playable_line(x)),
            ),
            i == 0 ==> out@ == Seq::<char>::empty(),
        decreases items@.len() - i,
    {
        let x = &items[i];
        let fields = [x.id.as_str(), x.title.as_str()];
        append_tab_fields(&mut out, &fields);
        proof {
            assert(fields@.map_values(|f: &str| f@) =~= seq![x.id@, x.title@]);
            let g = |x: RecordingSummary| playable_line(x);
            assert(items@.take(i + 1).map_values(g).drop_last() =~= items@.take(i as int).map_values(g));
        }
        i = i + 1;
    }
    assert(items@.take(items@.len() as int) =~= items@);
    out
}

/// What `record list` prints.
pub fn recording_list_report(items: &Vec<RecordingSummary>) -> (r: String)
    ensures
        r@ == listing_text("No recordings found\n"@, items@.map_values(|x: RecordingSummary| recording_line(x))),
{
    let mut out = String::new();
    if items.len() == 0 {
        out.append("No recordings found\n");
        return out;
    }
    let mut i: usize = 0;
    while i < items.len()
        invariant
            i <= items@.len(),
            items@.len() > 0,
            i > 0 ==> out@ == listing_text(
                "No recordings found\n"@,
                items@.take(i as int).map_values(|x: RecordingSummary| recording_line(x)),
            ),
            i == 0 ==> out@ == Seq::<char>::empty(),
        decreases items@.len() - i,
    {
        let x = &items[i];
        let fields = [x.id.as_str(), x.title.as_str(), x.path.as_str()];
        append_tab_fields(&mut out, &fields);
        proof {
            assert(fields@.map_values(|f: &str| f@) =~= seq![x.id@, x.title@, x.path@]);
            let g = |x: RecordingSummary| recording_line(x);
            assert(items@.take(i + 1).map_values(g).drop_last() =~= items@.take(i as int).map_values(g));
        }
        i = i + 1;
    }
    assert(items@.take(items@.len() as int) =~= items@);
    out
}

pub open spec fn host_fields(h: HostRecord) -> Seq<(Seq<char>, Seq<char>)> {
    seq![("id"@, h.host.id@), ("display_name"@, h.host.display_name@), ("address"@, h.host.address@)]
}

/// What `host inspect --json` prints.
pub open spec fn host_json_text(h: HostRecord) -> Seq<char> {
    ok_envelope(string_fields(host_fields(h)) + ",\"services\":"@ + decimal(h.services@.len()))
}

/// What `host inspect --json` prints.
pub fn host_json(h: &HostRecord) -> (r: String)
    ensures
        r@ == host_json_text(*h),
{
    let fields = [
        ("id", h.host.id.as_str()),
        ("display_name", h.host.display_name.as_str()),
        ("address", h.host.address.as_str()),
    ];
    let mut out = String::new();
    out.append("{\"status\":\"ok\",\"schema\":1,\"data\":{");
    append_string_fields(&mut out, &fields);
    assert(pair_views(fields@) =~= host_fields(*h));
    out.append(",\"services\":");
    append_decimal(&mut out, h.services.len() as u64);
    out.append("}}");
    assert(out@ =~= host_json_text(*h));
    out
}

pub open spec fn service_lines(h: HostRecord, n: int) -> Seq<char>
    decreases n,
{
    if n <= 0 {
        Seq::empty()
    } else {
        let s = h.services@[n - 1];
        service_lines(h, n - 1) + "Service: "@ + s.service_type@ + "\tport "@ + decimal(s.port as nat)
            + "\ttrust "@ + s.trust@ + "\n"@
    }
}

/// What `host inspect` prints.
pub open spec fn host_text(h: HostRecord) -> Seq<char> {
    "Host: "@ + h.host.display_name@ + "\nID: "@ + h.host.id@ + "\nAddress: "@ + h.host.address@
        + "\n"@ + service_lines(h, h.services@.len() as int)
}

/// What `host inspect` prints.
pub fn host_report(h: &HostRecord) -> (r: String)
    ensures
        r@ == host_text(*h),
{
    let mut out = String::new();
    out.append("Host: ");
    out.append(h.host.display_name.as_str());
    out.append("\nID: ");
    out.append(h.host.id.as_str());
    out.append("\nAddress: ");
    out.append(h.host.address.as_str());
    out.append("\n");
    let ghost head = out@;
    let mut i: usize = 0;
    while i < h.services.len()
        invariant
            i <= h.services@.len(),
            out@ == head + service_lines(*h, i as int),
        decreases h.services@.len() - i,
    {
        let s = &h.services[i];
        out.append("Service: ");
        out.append(s.service_type.as_str());
        out.append("\tport ");
        append_decimal(&mut out, s.port as u64);
        out.append("\ttrust ");
        out.append(s.trust.as_str());
        out.append("\n");
        i = i + 1;
    }
    assert(out@ =~= host_text(*h));
    out
}

pub open spec fn identity_fields(r: IdentityRecord) -> Seq<(Seq<char>, Seq<char>)> {
    seq![("id"@, r.identity.id@), ("display_name"@, r.identity.display_name@)]
}

/// What `identity inspect --json` prints.
pub open spec fn identity_json_text(r: IdentityRecord) -> Seq<char> {
    ok_envelope(string_fields(identity_fields(r)) + ",\"ssh_keys\":"@ + decimal(r.ssh_keys@.len())
        + ",\"certificates\":"@ + decimal(r.certificates@.len()))
}

/// What `identity inspect --json` prints.
pub fn identity_json(r: &IdentityRecord) -> (out_text: String)
    ensures
        out_text@ == identity_json_text(*r),
{
    let fields = [("id", r.identity.id.as_str()), ("display_name", r.identity.display_name.as_str())];
    let mut out = String::new();
    out.append("{\"status\":\"ok\",\"schema\":1,\"data\":{");
    append_string_fields(&mut out, &fields);
    assert(pair_views(fields@) =~= identity_fields(*r));
    out.append(",\"ssh_keys\":");
    append_decimal(&mut out, r.ssh_keys.len() as u64);
    out.append(",\"certificates\":");
    append_decimal(&mut out, r.certificates.len() as u64);
    out.append("}}");
    assert(out@ =~= identity_json_text(*r));
    out
}

pub open spec fn key_lines(r: IdentityRecord, n: int) -> Seq<char>
    decreases n,
{
    if n <= 0 {
        Seq::empty()
    } else {
        let k = r.ssh_keys@[n - 1];
        key_lines(r, n - 1) + "SSH key: "@ + k.id@ + "\t"@ + k.public_key@ + "\n"@
    }
}

pub open spec fn certificate_lines(r: IdentityRecord, n: int) -> Seq<char>
    decreases n,
{
    if n <= 0 {
        Seq::empty()
    } else {
        let c = r.certificates@[n - 1];
        certificate_lines(r, n - 1) + "Certificate: "@ + c.id@ + "\t"@ + c.certificate_type@ + "\t"@
            + c.fingerprint@ + "\n"@
    }
}

/// What `identity inspect` prints.
pub open spec fn identity_text(r: IdentityRecord) -> Seq<char> {
    "Identity: "@ + r.identity.display_name@ + "\nID: "@ + r.identity.id@ + "\n"@ + key_lines(
        r,
        r.ssh_keys@.len() as int,
    ) + certificate_lines(r, r.certificates@.len() as int)
}

/// What `identity inspect` prints.
pub fn identity_report(r: &IdentityRecord) -> (text: String)
    ensures
        text@ == identity_text(*r),
{
    let mut out = String::new();
    out.append("Identity: ");
    out.append(r.identity.display_name.as_str());
    out.append("\nID: ");
    out.append(r.identity.id.as_str());
    out.append("\n");
    let ghost head = out@;
    let mut i: usize = 0;
    while i < r.ssh_keys.len()
        invariant
            i <= r.ssh_keys@.len(),
            out@ == head + key_lines(*r, i as int),
        decreases r.ssh_keys@.len() - i,
    {
        let k = &r.ssh_keys[i];
        out.append("SSH key: ");
        out.append(k.id.as_str());
        out.append("\t");
        out.append(k.public_key.as_str());
        out.append("\n");
        i = i + 1;
    }
    let ghost keys = out@;
    let mut j: usize = 0;
    while j < r.certificates.len()
        invariant
            j <= r.certificates@.len(),
            out@ == keys + certificate_lines(*r, j as int),
        decreases r.certificates@.len() - j,
    {
        let c = &r.certificates[j];
        out.append("Certificate: ");
        out.append(c.id.as_str());
        out.append("\t");
        out.append(c.certificate_type.as_str());
        out.append("\t");
        out.append(c.fingerprint.as_str());
        out.append("\n");
        j = j + 1;
    }
    assert(out@ =~= identity_text(*r));
    out
}

// ---------------------------------------------------------------------------
// Projects
// ---------------------------------------------------------------------------

/// What `project create --json` prints.
pub open spec fn created_json_text(c: CreatedProject) -> Seq<char> {
    ok_envelope(string_field(("project_path"@, c.project_path@)) + ",\"project_schema\":"@ + decimal(
        c.schema as nat,
    ))
}

/// What `project create --json` prints.
pub fn created_json(c: &CreatedProject) -> (r: String)
    ensures
        r@ == created_json_text(*c),
{
    let fields = [("project_path", c.project_path.as_str())];
    let mut out = String::new();
    out.append("{\"status\":\"ok\",\"schema\":1,\"data\":{");
    append_string_fields(&mut out, &fields);
    proof {
        let f = |kv: (Seq<char>, Seq<char>)| string_field(kv);
        assert(pair_views(fields@) =~= seq![("project_path"@, c.project_path@)]);
        assert(pair_views(fields@).map_values(f).len() == 1);
    }
    out.append(",\"project_schema\":");
    append_decimal(&mut out, c.schema as u64);
    out.append("}}");
    assert(out@ =~= created_json_text(*c));
    out
}

/// What `project create` prints.
pub fn created_report(c: &CreatedProject) -> (r: String)
    ensures
        r@ == "Created project: "@ + c.project_path@ + seq!['\n'],
{
    let mut out = String::new();
    out.append("Created project: ");
    out.append(c.project_path.as_str());
    push_char(&mut out, '\n');
    out
}

/// What `project target add-removable` prints.
pub fn removable_target_report(name: &str) -> (r: String)
    ensures
        r@ == "Added removable publish target: "@ + name@ + seq!['\n'],
{
    let mut out = String::new();
    out.append("Added removable publish target: ");
    out.append(name);
    push_char(&mut out, '\n');
    out
}

/// What `project target add-removable --json` prints.
pub fn removable_target_json(name: &str, path: &str) -> (r: String)
    ensures
        r@ == ok_envelope(string_fields(seq![("name"@, name@), ("method"@, "removable"@), ("path"@, path@)])),
{
    let fields = [("name", name), ("method", "removable"), ("path", path)];
    let r = string_fields_envelope(&fields);
    assert(pair_views(fields@) =~= seq![("name"@, name@), ("method"@, "removable"@), ("path"@, path@)]);
    r
}

// ---------------------------------------------------------------------------
// Publication history
// ---------------------------------------------------------------------------

pub open spec fn history_head(r: PublicationHistoryRecord) -> Seq<char> {
    "{\"status\":\"ok\",\"schema\":1,\"data\":{"@ + string_fields(
        seq![("project"@, r.project_id@), ("target"@, r.target@)],
    )
}

pub open spec fn history_results(r: PublicationHistoryRecord) -> Seq<char> {
    seq![','] + string_fields(
        seq![("transfer_result"@, r.transfer_result@), ("verification_result"@, r.verification_result@)],
    ) + ",\"files\":["@ + joined_with(history_file_objects(r.files@), seq![',']) + seq![']']
}

fn append_history_head(out: &mut String, r: &PublicationHistoryRecord)
    ensures
        final(out)@ == old(out)@ + history_head(*r),
{
    let ghost start = out@;
    out.append("{\"status\":\"ok\",\"schema\":1,\"data\":{");
    let fields = [("project", r.project_id.as_str()), ("target", r.target.as_str())];
    append_string_fields(out, &fields);
    assert(pair_views(fields@) =~= seq![("project"@, r.project_id@), ("target"@, r.target@)]);
    assert(out@ =~= start + history_head(*r));
}

fn append_history_results(out: &mut String, r: &PublicationHistoryRecord)
    ensures
        final(out)@ == old(out)@ + history_results(*r),
{
    let ghost start = out@;
    push_char(out, ',');
    let fields = [
        ("transfer_result", r.transfer_result.as_str()),
        ("verification_result", r.verification_result.as_str()),
    ];
    append_string_fields(out, &fields);
    assert(pair_views(fields@) =~= seq![
        ("transfer_result"@, r.transfer_result@),
        ("verification_result"@, r.verification_result@),
    ]);
    out.append(",\"files\":[");
    let files = json_history_files(r);
    out.append(files.as_str());
    push_char(out, ']');
    assert(out@ =~= start + history_results(*r));
}

/// What `publish --planned-history --json` and `--completed-history --json`
/// print for a record: its identity, results, files and TOML text.
pub open spec fn history_record_json_text(r: PublicationHistoryRecord) -> Seq<char> {
    history_head(r) + history_results(r) + ",\"record_toml\":\""@ + json_escaped(record_toml(r))
        + "\"}}"@
}

/// What `publish --planned-history --json` and `--completed-history --json` print.
pub fn history_record_json(r: &PublicationHistoryRecord) -> (text: String)
    ensures
        text@ == history_record_json_text(*r),
{
    let mut out = String::new();
    append_history_head(&mut out, r);
    append_history_results(&mut out, r);
    out.append(",\"record_toml\":\"");
    let toml = r.to_toml();
    append_json_escaped(&mut out, toml.as_str());
    out.append("\"}}");
    assert(out@ =~= history_record_json_text(*r));
    out
}

/// What the commands that save a record print in JSON: the record's
/// identity, where it was saved, its results and its files.
pub open spec fn saved_history_json_text(r: PublicationHistoryRecord, output_path: Seq<char>) -> Seq<char> {
    history_head(r) + seq![','] + string_field(("output_path"@, output_path)) + history_results(r) + "}}"@
}

/// What the commands that save a record print in JSON.
pub fn saved_history_json(r: &PublicationHistoryRecord, output_path: &str) -> (text: String)
    ensures
        text@ == saved_history_json_text(*r, output_path@),
{
    let mut out = String::new();
    append_history_head(&mut out, r);
    push_char(&mut out, ',');
    let fields = [("output_path", output_path)];
    append_string_fields(&mut out, &fields);
    proof {
        let f = |kv: (Seq<char>, Seq<char>)| string_field(kv);
        assert(pair_views(fields@) =~= seq![("output_path"@, output_path@)]);
        assert(pair_views(fields@).map_values(f).len() == 1);
    }
    append_history_results(&mut out, r);
    out.append("}}");
    assert(out@ =~= saved_history_json_text(*r, output_path@));
    out
}

/// A history file on a line of a listing: its path, size and modification time.
pub open spec fn history_entry_line(path: Seq<char>, size_bytes: u64, modified_unix: u64) -> Seq<char> {
    "  "@ + path + " ("@ + decimal(size_bytes as nat) + " bytes, modified "@ + decimal(
        modified_unix as nat,
    ) + ")\n"@
}

fn append_history_entry_line(out: &mut String, path: &str, size_bytes: u64, modified_unix: u64)
    ensures
        final(out)@ == old(out)@ + history_entry_line(path@, size_bytes, modified_unix),
{
    let ghost start = out@;
    out.append("  ");
    out.append(path);
    out.append(" (");
    append_decimal(out, size_bytes);
    out.append(" bytes, modified ");
    append_decimal(out, modified_unix);
    out.append(")\n");
    assert(out@ =~= start + history_entry_line(path@, size_bytes, modified_unix));
}

pub open spec fn preview_lines(es: Seq<PlannedHistoryPreviewEntry>) -> Seq<char>
    decreases es.len(),
{
    if es.len() == 0 {
        Seq::empty()
    } else {
        preview_lines(es.drop_last()) + history_entry_line(
            es.last().path@,
            es.last().size_bytes,
            es.last().modified_unix,
        )
    }
}

/// What `publish --list-planned-history-previews` prints.
pub open spec fn previews_text(es: Seq<PlannedHistoryPreviewEntry>) -> Seq<char> {
    if es.len() == 0 {
        "No planned history previews\n"@
    } else {
        "Planned history previews\n"@ + preview_lines(es)
    }
}

/// What `publish --list-planned-history-previews` prints.
pub fn previews_report(previews: &Vec<PlannedHistoryPreviewEntry>) -> (r: String)
    ensures
        r@ == previews_text(previews@),
{
    let mut out = String::new();
    if previews.len() == 0 {
        out.append("No planned history previews\n");
        return out;
    }
    out.append("Planned history previews\n");
    let ghost head = out@;
    let mut i: usize = 0;
    while i < previews.len()
        invariant
            i <= previews@.len(),
            out@ == head + preview_lines(previews@.take(i as int)),
        decreases previews@.len() - i,
    {
        let e = &previews[i];
        append_history_entry_line(&mut out, e.path.as_str(), e.size_bytes, e.modified_unix);
        assert(previews@.take(i + 1).drop_last() =~= previews@.take(i as int));
        i = i + 1;
    }
    assert(previews@.take(previews@.len() as int) =~= previews@);
    out
}

pub open spec fn completed_lines(es: Seq<CompletedHistoryEntry>) -> Seq<char>
    decreases es.len(),
{
    if es.len() == 0 {
        Seq::empty()
    } else {
        completed_lines(es.drop_last()) + history_entry_line(
            es.last().path@,
            es.last().size_bytes,
            es.last().modified_unix,
        )
    }
}

/// What `publish --list-completed-history` prints.
pub open spec fn completed_text(es: Seq<CompletedHistoryEntry>) -> Seq<char> {
    if es.len() == 0 {
        "No completed history records\n"@
    } else {
        "Completed history records\n"@ + completed_lines(es)
    }
}

/// What `publish --list-completed-history` prints.
pub fn completed_report(records: &Vec<CompletedHistoryEntry>) -> (r: String)
    ensures
        r@ == completed_text(records@),
{
    let mut out = String::new();
    if records.len() == 0 {
        out.append("No completed history records\n");
        return out;
    }
    out.append("Completed history records\n");
    let ghost head = out@;
    let mut i: usize = 0;
    while i < records.len()
        invariant
            i <= records@.len(),
            out@ == head + completed_lines(records@.take(i as int)),
        decreases records@.len() - i,
    {
        let e = &records[i];
        append_history_entry_line(&mut out, e.path.as_str(), e.size_bytes, e.modified_unix);
        assert(records@.take(i + 1).drop_last() =~= records@.take(i as int));
        i = i + 1;
    }
    assert(records@.take(records@.len() as int) =~= records@);
    out
}

/// What `publish --list-planned-history-previews --json` prints.
pub open spec fn previews_json_text(project: Seq<char>, es: Seq<PlannedHistoryPreviewEntry>) -> Seq<char> {
    ok_envelope(string_field(("project_path"@, project)) + ",\"previews\":["@ + joined_with(
        preview_objects(es),
        seq![','],
    ) + seq![']'])
}

/// What `publish --list-planned-history-previews --json` prints.
pub fn previews_json(project: &str, previews: &Vec<PlannedHistoryPreviewEntry>) -> (r: String)
    ensures
        r@ == previews_json_text(project@, previews@),
{
    let mut out = String::new();
    out.append("{\"status\":\"ok\",\"schema\":1,\"data\":{");
    let fields = [("project_path", project)];
    append_string_fields(&mut out, &fields);
    proof {
        let f = |kv: (Seq<char>, Seq<char>)| string_field(kv);
        assert(pair_views(fields@) =~= seq![("project_path"@, project@)]);
        assert(pair_views(fields@).map_values(f).len() == 1);
    }
    out.append(",\"previews\":[");
    let items = json_planned_history_previews(previews.as_slice());
    out.append(items.as_str());
    push_char(&mut out, ']');
    out.append("}}");
    assert(out@ =~= previews_json_text(project@, previews@));
    out
}

/// What `publish --list-completed-history --json` prints.
pub open spec fn completed_json_text(project: Seq<char>, es: Seq<CompletedHistoryEntry>) -> Seq<char> {
    ok_envelope(string_field(("project_path"@, project)) + ",\"records\":["@ + joined_with(
        record_objects(es),
        seq![','],
    ) + seq![']'])
}

/// What `publish --list-completed-history --json` prints.
pub fn completed_json(project: &str, records: &Vec<CompletedHistoryEntry>) -> (r: String)
    ensures
        r@ == completed_json_text(project@, records@),
{
    let mut out = String::new();
    out.append("{\"status\":\"ok\",\"schema\":1,\"data\":{");
    let fields = [("project_path", project)];
    append_string_fields(&mut out, &fields);
    proof {
        let f = |kv: (Seq<char>, Seq<char>)| string_field(kv);
        assert(pair_views(fields@) =~= seq![("project_path"@, project@)]);
        assert(pair_views(fields@).map_values(f).len() == 1);
    }
    out.append(",\"records\":[");
    let items = json_completed_history_records(records.as_slice());
    out.append(items.as_str());
    push_char(&mut out, ']');
    out.append("}}");
    assert(out@ =~= completed_json_text(project@, records@));
    out
}

/// What the commands that read a history file print in JSON: the project,
/// then the file's fields and text.
pub open spec fn history_detail_json_text(
    project: Seq<char>,
    path: Seq<char>,
    filename: Seq<char>,
    modified_unix: u64,
    size_bytes: u64,
    toml: Seq<char>,
) -> Seq<char> {
    ok_envelope(string_field(("project_path"@, project)) + seq![','] + json_history_fields(
        path,
        filename,
        modified_unix,
        size_bytes,
    ) + ",\"record_toml\":\""@ + json_escaped(toml) + "\""@)
}

fn detail_envelope(project: &str, fields_text: &str) -> (r: String)
    ensures
        r@ == ok_envelope(string_field(("project_path"@, project@)) + seq![','] + fields_text@),
{
    let mut out = String::new();
    out.append("{\"status\":\"ok\",\"schema\":1,\"data\":{");
    let fields = [("project_path", project)];
    append_string_fields(&mut out, &fields);
    proof {
        let f = |kv: (Seq<char>, Seq<char>)| string_field(kv);
        assert(pair_views(fields@) =~= seq![("project_path"@, project@)]);
        assert(pair_views(fields@).map_values(f).len() == 1);
    }
    push_char(&mut out, ',');
    out.append(fields_text);
    out.append("}}");
    assert(out@ =~= ok_envelope(string_field(("project_path"@, project@)) + seq![','] + fields_text@));
    out
}

/// What `publish --read-planned-history-preview --json` prints.
pub fn planned_detail_json(project: &str, detail: &PlannedHistoryPreviewDetail) -> (r: String)
    ensures
        r@ == history_detail_json_text(
            project@,
            detail.entry.path@,
            detail.entry.filename@,
            detail.entry.modified_unix,
            detail.entry.size_bytes,
            detail.record_toml@,
        ),
{
    let fields = json_planned_history_preview_detail(detail);
    let r = detail_envelope(project, fields.as_str());
    assert(r@ =~= history_detail_json_text(
        project@,
        detail.entry.path@,
        detail.entry.filename@,
        detail.entry.modified_unix,
        detail.entry.size_bytes,
        detail.record_toml@,
    ));
    r
}

/// What `publish --read-completed-history --json` prints.
pub fn completed_detail_json(project: &str, detail: &CompletedHistoryDetail) -> (r: String)
    ensures
        r@ == history_detail_json_text(
            project@,
            detail.entry.path@,
            detail.entry.filename@,
            detail.entry.modified_unix,
            detail.entry.size_bytes,
            detail.record_toml@,
        ),
{
    let fields = json_completed_history_detail(detail);
    let r = detail_envelope(project, fields.as_str());
    assert(r@ =~= history_detail_json_text(
        project@,
        detail.entry.path@,
        detail.entry.filename@,
        detail.entry.modified_unix,
        detail.entry.size_bytes,
        detail.record_toml@,
    ));
    r
}

} // verus!
