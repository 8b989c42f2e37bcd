use vstd::prelude::*;
use crate::audio_metadata::{
    feed_entry_outcome, feed_entry_report, is_absent_or_blank, is_inside_path,
    validate_audio_path_for_write, validation_report_into_issues, AudioMetadataError, FeedEntryContext, FeedEntryMetadata,
};
use crate::cli_output::texts;
use crate::feed_xml::{atom_feed_entries, atom_entries, entry_views, AtomEntryView, PreservedAtomEntry};
use crate::order::{is_sorted, keeps_tie_order, stable_sort, SortOrder};
use crate::text::{
    append_xml_escaped, concat, joined_path, path_join, contains_exec, contains_text, is_blank_text, lemma_lex_le_reflexive,
    lemma_lex_le_total, lemma_lex_le_transitive, lex_le, string_of, text_eq, text_le, xml_escaped,
};
use crate::validation::{views, with_severity, IssueView, Severity, ValidationIssue, ValidationReport};

verus! {

/// A feed entry ready to be written as Atom XML.
#[derive(Debug)]
pub struct FeedXmlEntry {
    pub id: String,
    pub title: String,
    pub updated: String,
    pub summary: String,
    pub feed: String,
    pub enclosure_path: String,
    pub enclosure_mime_type: String,
}

/// A list of feed entries in their sort order is newest first by update
/// time (compared as text); entries updated at the same time stand in the
/// order of their ids.
pub proof fn law_sorted_feed_entries_are_newest_first(v: Seq<FeedXmlEntry>)
    requires
        is_sorted(v),
    ensures
        forall|i: int, j: int|
            0 <= i < j < v.len() ==> {
                &&& lex_le((#[trigger] v[j]).updated@, (#[trigger] v[i]).updated@)
                &&& v[i].updated@ == v[j].updated@ ==> lex_le(v[i].id@, v[j].id@)
            },
{
    assert forall|i: int, j: int| 0 <= i < j < v.len() implies {
        &&& lex_le((#[trigger] v[j]).updated@, (#[trigger] v[i]).updated@)
        &&& v[i].updated@ == v[j].updated@ ==> lex_le(v[i].id@, v[j].id@)
    } by {
        assert(FeedXmlEntry::precedes(v[i], v[j]));
        if v[i].updated@ == v[j].updated@ {
            lemma_lex_le_reflexive(v[i].updated@);
        }
    }
}

/// Newest first; among entries updated at the same time, by id.
impl SortOrder for FeedXmlEntry {
    open spec fn precedes(a: Self, b: Self) -> bool {
        lex_le(b.updated@, a.updated@) && (lex_le(a.updated@, b.updated@) ==> lex_le(a.id@, b.id@))
    }

    proof fn precedes_transitive(a: Self, b: Self, c: Self) {
        lemma_lex_le_transitive(c.updated@, b.updated@, a.updated@);
        if lex_le(a.updated@, c.updated@) {
            lemma_lex_le_transitive(a.updated@, c.updated@, b.updated@);
            lemma_lex_le_transitive(b.updated@, a.updated@, c.updated@);
            lemma_lex_le_transitive(a.id@, b.id@, c.id@);
        }
    }

    proof fn precedes_total(a: Self, b: Self) {
        lemma_lex_le_total(a.updated@, b.updated@);
        lemma_lex_le_total(a.id@, b.id@);
    }

    fn precedes_exec(&self, other: &Self) -> (r: bool) {
        let down = text_le(other.updated.as_str(), self.updated.as_str());
        let up = text_le(self.updated.as_str(), other.updated.as_str());
        down && (!up || text_le(self.id.as_str(), other.id.as_str()))
    }
}

/// A required entry value: present and not blank.
pub fn required_feed_value(path: &str, field: &str, value: &Option<String>) -> (r: Result<
    String,
    AudioMetadataError,
>)
    ensures
        match r {
            Ok(v) => !is_absent_or_blank(*value) && *value == Some(v),
            Err(AudioMetadataError::InvalidFeedEntry { path: p, issues }) => is_absent_or_blank(
                *value,
            ) && p@ == path@ && issues@.len() == 1 && issues@[0]@ == field@ + " is required"@,
            Err(_) => false,
        },
{
    match value {
        Some(v) => {
            if !is_blank_text(v.as_str()) {
                return Ok(v.clone());
            }
        },
        None => {},
    }
    let mut issues: Vec<String> = Vec::new();
    issues.push(concat(field, " is required"));
    Err(AudioMetadataError::InvalidFeedEntry { path: string_of(path), issues })
}

fn invalid_feed_entry(path: &str, issue: &str) -> (r: AudioMetadataError)
    ensures
        r matches AudioMetadataError::InvalidFeedEntry { path: p, issues } && p@ == path@
            && issues@.len() == 1 && issues@[0]@ == issue@,
{
    let mut issues: Vec<String> = Vec::new();
    issues.push(string_of(issue));
    AudioMetadataError::InvalidFeedEntry { path: string_of(path), issues }
}

/// A feed entry's metadata has every value that the XML needs.
pub open spec fn is_complete_entry(m: FeedEntryMetadata) -> bool {
    match (m.entry, m.enclosure) {
        (Some(e), Some(c)) => !is_absent_or_blank(e.id) && !is_absent_or_blank(e.title)
            && !is_absent_or_blank(e.updated) && !is_absent_or_blank(e.summary)
            && !is_absent_or_blank(e.feed) && !is_absent_or_blank(c.path) && !is_absent_or_blank(
            c.mime_type,
        ),
        _ => false,
    }
}

/// The XML entry that complete feed-entry metadata gives.
pub open spec fn xml_entry_matches(m: FeedEntryMetadata, x: FeedXmlEntry) -> bool {
    match (m.entry, m.enclosure) {
        (Some(e), Some(c)) => e.id == Some(x.id) && e.title == Some(x.title) && e.updated == Some(
            x.updated,
        ) && e.summary == Some(x.summary) && e.feed == Some(x.feed) && c.path == Some(
            x.enclosure_path,
        ) && c.mime_type == Some(x.enclosure_mime_type),
        _ => false,
    }
}

/// Builds the XML entry of feed-entry metadata read from `path`, refusing
/// metadata that lacks a section or a value.
pub fn feed_xml_entry_from_metadata(path: &str, metadata: &FeedEntryMetadata) -> (r: Result<
    FeedXmlEntry,
    AudioMetadataError,
>)
    ensures
        match r {
            Ok(x) => is_complete_entry(*metadata) && xml_entry_matches(*metadata, x),
            Err(AudioMetadataError::InvalidFeedEntry { path: p, .. }) => !is_complete_entry(
                *metadata,
            ) && p@ == path@,
            Err(_) => false,
        },
{
    let entry = match &metadata.entry {
        Some(e) => e,
        None => return Err(invalid_feed_entry(path, "entry section is required")),
    };
    let enclosure = match &metadata.enclosure {
        Some(c) => c,
        None => return Err(invalid_feed_entry(path, "enclosure section is required")),
    };
    let id = required_feed_value(path, "entry.id", &entry.id)?;
    let title = required_feed_value(path, "entry.title", &entry.title)?;
    let updated = required_feed_value(path, "entry.updated", &entry.updated)?;
    let summary = required_feed_value(path, "entry.summary", &entry.summary)?;
    let feed = required_feed_value(path, "entry.feed", &entry.feed)?;
    let enclosure_path = required_feed_value(path, "enclosure.path", &enclosure.path)?;
    let enclosure_mime_type = required_feed_value(path, "enclosure.mime_type", &enclosure.mime_type)?;
    Ok(FeedXmlEntry { id, title, updated, summary, feed, enclosure_path, enclosure_mime_type })
}

// ---------------------------------------------------------------------------
// Rendering
// ---------------------------------------------------------------------------

pub open spec fn xml_element(indent: Seq<char>, name: Seq<char>, text: Seq<char>) -> Seq<char> {
    indent + "<"@ + name + ">"@ + xml_escaped(text) + "</"@ + name + ">\n"@
}

/// The Atom XML of one entry.
pub open spec fn feed_entry_xml(x: FeedXmlEntry) -> Seq<char> {
    "  <entry>\n"@ + xml_element("    "@, "id"@, x.id@) + xml_element("    "@, "title"@, x.title@)
        + xml_element("    "@, "updated"@, x.updated@) + xml_element(
        "    "@,
        "summary"@,
        x.summary@,
    ) + "    <link rel=\"enclosure\" href=\""@ + xml_escaped(x.enclosure_path@) + "\" type=\""@
        + xml_escaped(x.enclosure_mime_type@) + "\" />\n"@ + "  </entry>\n"@
}

fn append_xml_element(out: &mut String, indent: &str, name: &str, text: &str)
    ensures
        final(out)@ == old(out)@ + xml_element(indent@, name@, text@),
{
    let ghost start = out@;
    out.append(indent);
    out.append("<");
    out.append(name);
    out.append(">");
    append_xml_escaped(out, text);
    out.append("</");
    out.append(name);
    out.append(">\n");
    assert(out@ =~= start + xml_element(indent@, name@, text@));
}

fn append_feed_entry_xml(out: &mut String, x: &FeedXmlEntry)
    ensures
        final(out)@ == old(out)@ + feed_entry_xml(*x),
{
    let ghost start = out@;
    out.append("  <entry>\n");
    append_xml_element(out, "    ", "id", x.id.as_str());
    append_xml_element(out, "    ", "title", x.title.as_str());
    append_xml_element(out, "    ", "updated", x.updated.as_str());
    append_xml_element(out, "    ", "summary", x.summary.as_str());
    let ghost mid = out@;
    out.append("    <link rel=\"enclosure\" href=\"");
    append_xml_escaped(out, x.enclosure_path.as_str());
    out.append("\" type=\"");
    append_xml_escaped(out, x.enclosure_mime_type.as_str());
    out.append("\" />\n");
    out.append("  </entry>\n");
    assert(out@ =~= start + feed_entry_xml(*x));
}

/// Renders one entry as Atom XML.
pub fn render_feed_xml_entry(entry: &FeedXmlEntry) -> (r: String)
    ensures
        r@ == feed_entry_xml(*entry),
{
    let mut out = String::new();
    append_feed_entry_xml(&mut out, entry);
    assert(out@ =~= feed_entry_xml(*entry));
    out
}

pub open spec fn entries_xml(s: Seq<FeedXmlEntry>) -> Seq<char>
    decreases s.len(),
{
    if s.len() == 0 {
        Seq::empty()
    } else {
        entries_xml(s.drop_last()) + feed_entry_xml(s.last())
    }
}

pub open spec fn preserved_xml(s: Seq<AtomEntryView>) -> Seq<char>
    decreases s.len(),
{
    if s.len() == 0 {
        Seq::empty()
    } else {
        preserved_xml(s.drop_last()) + s.last().xml + "\n"@
    }
}

/// The whole Atom feed: header, generated entries, then the kept entries.
pub open spec fn atom_feed_xml(
    title: Seq<char>,
    feed_path: Seq<char>,
    updated: Seq<char>,
    entries: Seq<FeedXmlEntry>,
    preserved: Seq<AtomEntryView>,
) -> Seq<char> {
    "<?xml version=\"1.0\" encoding=\"utf-8\"?>\n"@ + "<feed xmlns=\"http://www.w3.org/2005/Atom\">\n"@
        + xml_element("  "@, "title"@, title) + xml_element(
        "  "@,
        "id"@,
        "waystone:feed:"@ + feed_path,
    ) + xml_element("  "@, "updated"@, updated) + entries_xml(entries) + preserved_xml(preserved)
        + "</feed>\n"@
}

/// Renders an Atom feed.
pub fn render_atom_feed(
    title: &str,
    feed_path: &str,
    updated: &str,
    entries: &Vec<FeedXmlEntry>,
    preserved_entries: &Vec<PreservedAtomEntry>,
) -> (r: String)
    ensures
        r@ == atom_feed_xml(title@, feed_path@, updated@, entries@, entry_views(preserved_entries@)),
{
    let mut feed = String::new();
    feed.append("<?xml version=\"1.0\" encoding=\"utf-8\"?>\n");
    feed.append("<feed xmlns=\"http://www.w3.org/2005/Atom\">\n");
    append_xml_element(&mut feed, "  ", "title", title);
    let id = concat("waystone:feed:", feed_path);
    append_xml_element(&mut feed, "  ", "id", id.as_str());
    append_xml_element(&mut feed, "  ", "updated", updated);
    let ghost head = feed@;
    let mut i: usize = 0;
    assert(entries@.take(0) =~= Seq::<FeedXmlEntry>::empty());
    while i < entries.len()
        invariant
            i <= entries@.len(),
            feed@ == head + entries_xml(entries@.take(i as int)),
        decreases entries@.len() - i,
    {
        append_feed_entry_xml(&mut feed, &entries[i]);
        assert(entries@.take(i + 1).drop_last() =~= entries@.take(i as int));
        assert(feed@ =~= head + entries_xml(entries@.take(i + 1)));
        i = i + 1;
    }
    assert(entries@.take(entries@.len() as int) =~= entries@);
    let ghost mid = feed@;
    let mut j: usize = 0;
    assert(entry_views(preserved_entries@).take(0) =~= Seq::<AtomEntryView>::empty());
    while j < preserved_entries.len()
        invariant
            j <= preserved_entries@.len(),
            feed@ == mid + preserved_xml(entry_views(preserved_entries@).take(j as int)),
        decreases preserved_entries@.len() - j,
    {
        feed.append(preserved_entries[j].xml.as_str());
        feed.append("\n");
        let ghost pv = entry_views(preserved_entries@);
        assert(pv.take(j + 1).drop_last() =~= pv.take(j as int));
        assert(feed@ =~= mid + preserved_xml(pv.take(j + 1)));
        j = j + 1;
    }
    assert(entry_views(preserved_entries@).take(preserved_entries@.len() as int) =~= entry_views(
        preserved_entries@,
    ));
    feed.append("</feed>\n");
    assert(feed@ =~= atom_feed_xml(
        title@,
        feed_path@,
        updated@,
        entries@,
        entry_views(preserved_entries@),
    ));
    feed
}

} // verus!

verus! {

// ---------------------------------------------------------------------------
// The feed's update time
// ---------------------------------------------------------------------------

/// The greatest text of a non-empty list, in lexicographic order.
pub open spec fn lex_max(s: Seq<Seq<char>>) -> Seq<char>
    decreases s.len(),
{
    if s.len() <= 1 {
        s[0]
    } else {
        let m = lex_max(s.drop_last());
        if lex_le(m, s.last()) {
            s.last()
        } else {
            m
        }
    }
}

pub open spec fn managed_times(s: Seq<FeedXmlEntry>) -> Seq<Seq<char>> {
    s.map_values(|x: FeedXmlEntry| x.updated@)
}

pub open spec fn preserved_times(s: Seq<AtomEntryView>) -> Seq<Seq<char>>
    decreases s.len(),
{
    if s.len() == 0 {
        Seq::empty()
    } else {
        preserved_times(s.drop_last()) + (match s.last().updated {
            Some(u) => seq![u],
            None => Seq::empty(),
        })
    }
}

/// The latest update time among the entries, or the epoch when there is none.
pub open spec fn feed_update_time(managed: Seq<FeedXmlEntry>, preserved: Seq<AtomEntryView>) -> Seq<
    char,
> {
    let all = managed_times(managed) + preserved_times(preserved);
    if all.len() == 0 {
        "1970-01-01T00:00:00Z"@
    } else {
        lex_max(all)
    }
}

/// The latest update time among the entries, or the epoch when there is none.
pub fn feed_updated(managed_entries: &Vec<FeedXmlEntry>, preserved_entries: &Vec<PreservedAtomEntry>) -> (r:
    String)
    ensures
        r@ == feed_update_time(managed_entries@, entry_views(preserved_entries@)),
{
    let mut best: Option<String> = None;
    let ghost all = managed_times(managed_entries@) + preserved_times(entry_views(preserved_entries@));
    let mut i: usize = 0;
    while i < managed_entries.len()
        invariant
            i <= managed_entries@.len(),
            all == managed_times(managed_entries@) + preserved_times(entry_views(preserved_entries@)),
            match best {
                Some(b) => i > 0 && b@ == lex_max(managed_times(managed_entries@).take(i as int)),
                None => i == 0,
            },
        decreases managed_entries@.len() - i,
    {
        let u = &managed_entries[i].updated;
        let ghost prefix = managed_times(managed_entries@).take(i + 1);
        assert(prefix.drop_last() =~= managed_times(managed_entries@).take(i as int));
        assert(prefix.last() == u@);
        best = match best {
            Some(b) => if text_le(b.as_str(), u.as_str()) {
                Some(u.clone())
            } else {
                Some(b)
            },
            None => Some(u.clone()),
        };
        i = i + 1;
    }
    assert(managed_times(managed_entries@).take(managed_entries@.len() as int) =~= managed_times(
        managed_entries@,
    ));
    let ghost pv = entry_views(preserved_entries@);
    let ghost mt = managed_times(managed_entries@);
    let mut j: usize = 0;
    assert(pv.take(0) =~= Seq::<AtomEntryView>::empty());
    assert(mt + preserved_times(pv.take(0)) =~= mt);
    while j < preserved_entries.len()
        invariant
            j <= preserved_entries@.len(),
            pv == entry_views(preserved_entries@),
            mt == managed_times(managed_entries@),
            match best {
                Some(b) => (mt + preserved_times(pv.take(j as int))).len() > 0 && b@ == lex_max(
                    mt + preserved_times(pv.take(j as int)),
                ),
                None => (mt + preserved_times(pv.take(j as int))).len() == 0,
            },
        decreases preserved_entries@.len() - j,
    {
        let ghost before = mt + preserved_times(pv.take(j as int));
        assert(pv.take(j + 1).drop_last() =~= pv.take(j as int));
        match &preserved_entries[j].updated {
            Some(u) => {
                let ghost after = mt + preserved_times(pv.take(j + 1));
                assert(after =~= before.push(u@));
                assert(after.drop_last() =~= before);
                best = match best {
                    Some(b) => if text_le(b.as_str(), u.as_str()) {
                        Some(u.clone())
                    } else {
                        Some(b)
                    },
                    None => Some(u.clone()),
                };
            },
            None => {
                assert(mt + preserved_times(pv.take(j + 1)) =~= before);
            },
        }
        j = j + 1;
    }
    assert(pv.take(preserved_entries@.len() as int) =~= pv);
    match best {
        Some(b) => b,
        None => string_of("1970-01-01T00:00:00Z"),
    }
}

// ---------------------------------------------------------------------------
// Entries kept from the existing feed
// ---------------------------------------------------------------------------

pub open spec fn managed_ids(s: Seq<FeedXmlEntry>) -> Seq<Seq<char>> {
    s.map_values(|x: FeedXmlEntry| x.id@)
}

/// The entries whose id is none of the generated ones (or that have no id).
pub open spec fn kept_entries(s: Seq<AtomEntryView>, ids: Seq<Seq<char>>) -> Seq<AtomEntryView>
    decreases s.len(),
{
    if s.len() == 0 {
        Seq::empty()
    } else {
        kept_entries(s.drop_last(), ids) + (match s.last().id {
            Some(id) => if ids.contains(id) {
                Seq::empty()
            } else {
                seq![s.last()]
            },
            None => seq![s.last()],
        })
    }
}

fn id_is_managed(id: &str, managed: &Vec<FeedXmlEntry>) -> (r: bool)
    ensures
        r == managed_ids(managed@).contains(id@),
{
    let mut i: usize = 0;
    while i < managed.len()
        invariant
            i <= managed@.len(),
            forall|k: int| 0 <= k < i ==> (#[trigger] managed@[k]).id@ != id@,
        decreases managed@.len() - i,
    {
        if text_eq(managed[i].id.as_str(), id) {
            assert(managed_ids(managed@)[i as int] == id@);
            return true;
        }
        i = i + 1;
    }
    assert(forall|k: int| 0 <= k < managed_ids(managed@).len() ==> managed_ids(managed@)[k] != id@);
    false
}

/// Keeps the entries that no generated entry replaces.
pub fn keep_unmanaged_entries(entries: Vec<PreservedAtomEntry>, managed: &Vec<FeedXmlEntry>) -> (r:
    Vec<PreservedAtomEntry>)
    ensures
        entry_views(r@) == kept_entries(entry_views(entries@), managed_ids(managed@)),
{
    let ghost all = entry_views(entries@);
    let ghost ids = managed_ids(managed@);
    let mut rest = entries;
    let mut kept: Vec<PreservedAtomEntry> = Vec::new();
    assert(all.take(all.len() as int) =~= all);
    while rest.len() > 0
        invariant
            rest@.len() <= all.len(),
            all == entry_views(entries@),
            ids == managed_ids(managed@),
            entry_views(rest@) == all.take(rest@.len() as int),
            kept_entries(all, ids) == kept_entries(entry_views(rest@), ids) + entry_views(kept@).reverse(),
        decreases rest@.len(),
    {
        let ghost before = rest@;
        let e = rest.pop().unwrap();
        proof {
            assert(entry_views(before).drop_last() =~= entry_views(rest@));
            assert(entry_views(before).last() == e@);
            assert(entry_views(rest@) =~= all.take(rest@.len() as int));
        }
        let ghost old_kept = entry_views(kept@);
        let keep = match &e.id {
            Some(id) => !id_is_managed(id.as_str(), managed),
            None => true,
        };
        if keep {
            kept.push(e);
            assert(entry_views(kept@).reverse() =~= seq![e@] + old_kept.reverse());
            assert(entry_views(kept@).reverse() =~= seq![e@] + old_kept.reverse());
        }
        proof {
            if keep {
                assert(kept_entries(entry_views(before), ids) =~= kept_entries(entry_views(rest@), ids)
                    + seq![e@]);
            } else {
                assert(kept_entries(entry_views(before), ids) =~= kept_entries(entry_views(rest@), ids));
            }
        }
    }
    assert(entry_views(rest@) =~= Seq::<AtomEntryView>::empty());
    // reverse the kept entries into the order they came in
    let mut out: Vec<PreservedAtomEntry> = Vec::new();
    let ghost rev = entry_views(kept@).reverse();
    assert(entry_views(out@) =~= Seq::<AtomEntryView>::empty());
    while kept.len() > 0
        invariant
            rev == entry_views(out@) + entry_views(kept@).reverse(),
        decreases kept@.len(),
    {
        let ghost before = kept@;
        let x = kept.pop().unwrap();
        proof {
            assert(entry_views(before).reverse() =~= seq![x@] + entry_views(kept@).reverse());
        }
        out.push(x);
        assert(entry_views(out@) =~= entry_views(out@).drop_last().push(x@));
    }
    assert(entry_views(kept@).reverse() =~= Seq::<AtomEntryView>::empty());
    assert(entry_views(out@) =~= rev);
    out
}

// ---------------------------------------------------------------------------
// Loading the generated entries
// ---------------------------------------------------------------------------

/// A `.toml` file under `feeds/entries`, with what checking it needs: its
/// path, the metadata it holds (or the failure to load it), and the context
/// that `validate_feed_entry` reads from the project.
#[derive(Debug)]
pub struct FeedEntryFile {
    pub path: String,
    pub entry: Result<FeedEntryMetadata, AudioMetadataError>,
    pub context: FeedEntryContext,
}

/// The XML entry of complete feed-entry metadata.
pub open spec fn entry_of(m: FeedEntryMetadata) -> FeedXmlEntry {
    let e = m.entry->Some_0;
    let c = m.enclosure->Some_0;
    FeedXmlEntry {
        id: e.id->Some_0,
        title: e.title->Some_0,
        updated: e.updated->Some_0,
        summary: e.summary->Some_0,
        feed: e.feed->Some_0,
        enclosure_path: c.path->Some_0,
        enclosure_mime_type: c.mime_type->Some_0,
    }
}

/// An issue as one line of text: its code, a colon and its message.
pub open spec fn issue_line(i: IssueView) -> Seq<char> {
    i.code + seq![':', ' '] + i.message
}

pub open spec fn issue_lines(s: Seq<IssueView>) -> Seq<Seq<char>> {
    s.map_values(|i: IssueView| issue_line(i))
}

/// The line that reports an entry meant for another feed.
pub open spec fn feed_mismatch_line(entry_feed: Seq<char>, feed_path: Seq<char>) -> Seq<char> {
    "entry.feed does not match configured feed path: "@ + entry_feed + " != "@ + feed_path
}

/// A feed-entry file that passes its check, is complete, and belongs to the
/// feed at `feed_path`.
pub open spec fn accepted_entry(feed_path: Seq<char>, f: FeedEntryFile) -> bool {
    match f.entry {
        Err(_) => false,
        Ok(fe) => match feed_entry_outcome(fe, f.context) {
            Err(_) => false,
            Ok(issues) => with_severity(issues, Severity::Error).len() == 0 && is_complete_entry(fe)
                && entry_of(fe).feed@ == feed_path,
        },
    }
}

/// The error that refuses a feed-entry file that is not accepted.
pub open spec fn entry_rejection(
    feed_path: Seq<char>,
    f: FeedEntryFile,
    err: AudioMetadataError,
) -> bool {
    match f.entry {
        Err(e) => err == e,
        Ok(fe) => match feed_entry_outcome(fe, f.context) {
            Err(x) => err == x,
            Ok(issues) => if with_severity(issues, Severity::Error).len() > 0 {
                &&& err matches AudioMetadataError::InvalidFeedEntry { path, issues: lines }
                &&& path@ == f.path@
                &&& texts(lines@) == issue_lines(
                    with_severity(issues, Severity::Error) + with_severity(issues, Severity::Warning),
                )
            } else if !is_complete_entry(fe) {
                err matches AudioMetadataError::InvalidFeedEntry { path, .. } && path@ == f.path@
            } else {
                &&& err matches AudioMetadataError::InvalidFeedEntry { path, issues: lines }
                &&& path@ == f.path@
                &&& texts(lines@) == seq![feed_mismatch_line(entry_of(fe).feed@, feed_path)]
            },
        },
    }
}

/// The XML entries of accepted files, in file order.
pub open spec fn accepted_xml(s: Seq<FeedEntryFile>) -> Seq<FeedXmlEntry> {
    s.map_values(|f: FeedEntryFile| entry_of(f.entry->Ok_0))
}

/// What loading the entries of a feed gives: every file accepted and the
/// entries sorted (newest first, then by id), or the refusal of the first file
/// that is not accepted.
pub open spec fn entries_loaded(
    feed_path: Seq<char>,
    files: Seq<FeedEntryFile>,
    r: Result<Seq<FeedXmlEntry>, AudioMetadataError>,
) -> bool {
    match r {
        Ok(v) => (forall|i: int| 0 <= i < files.len() ==> accepted_entry(feed_path, #[trigger] files[i]))
            && v.to_multiset() == accepted_xml(files).to_multiset() && is_sorted(v)
            && keeps_tie_order(v, accepted_xml(files)),
        Err(err) => exists|k: int|
            0 <= k < files.len() && (forall|i: int|
                0 <= i < k ==> accepted_entry(feed_path, #[trigger] files[i])) && !accepted_entry(
                feed_path,
                files[k],
            ) && entry_rejection(feed_path, files[k], err),
    }
}

fn issue_line_texts(issues: &Vec<ValidationIssue>) -> (r: Vec<String>)
    ensures
        texts(r@) == issue_lines(views(issues@)),
{
    let mut out: Vec<String> = Vec::new();
    let mut i: usize = 0;
    while i < issues.len()
        invariant
            i <= issues@.len(),
            texts(out@) == issue_lines(views(issues@)).take(i as int),
        decreases issues@.len() - i,
    {
        let mut line = string_of(issues[i].code);
        line.append(": ");
        line.append(issues[i].message.as_str());
        proof {
            reveal_strlit(": ");
            assert(": "@ =~= seq![':', ' ']);
        }
        let ghost before = out@;
        out.push(line);
        assert(texts(out@) =~= texts(before).push(line@));
        assert(issue_lines(views(issues@)).take(i + 1) =~= issue_lines(views(issues@)).take(
            i as int,
        ).push(issue_line(issues@[i as int]@)));
        i = i + 1;
    }
    assert(issue_lines(views(issues@)).take(issues@.len() as int) =~= issue_lines(views(issues@)));
    out
}

fn feed_mismatch(path: String, entry_feed: &str, feed_path: &str) -> (r: AudioMetadataError)
    ensures
        r matches AudioMetadataError::InvalidFeedEntry { path: p, issues: lines } && p == path
            && texts(lines@) == seq![feed_mismatch_line(entry_feed@, feed_path@)],
{
    let mut line = string_of("entry.feed does not match configured feed path: ");
    line.append(entry_feed);
    line.append(" != ");
    line.append(feed_path);
    let mut lines: Vec<String> = Vec::new();
    lines.push(line);
    assert(texts(lines@) =~= seq![line@]);
    AudioMetadataError::InvalidFeedEntry { path, issues: lines }
}

/// Checks one feed-entry file and gives its XML entry, or the error that
/// refuses it.
fn load_feed_entry_file(feed_path: &str, f: FeedEntryFile) -> (r: Result<FeedXmlEntry, AudioMetadataError>)
    ensures
        match r {
            Ok(x) => accepted_entry(feed_path@, f) && x == entry_of(f.entry->Ok_0),
            Err(err) => !accepted_entry(feed_path@, f) && entry_rejection(feed_path@, f, err),
        },
{
    let ghost whole = f;
    let FeedEntryFile { path, entry, context } = f;
    let fe = match entry {
        Err(e) => return Err(e),
        Ok(fe) => fe,
    };
    let report = match feed_entry_report(&fe, context) {
        Err(e) => return Err(e),
        Ok(report) => report,
    };
    if !report.valid {
        let issues = validation_report_into_issues(report);
        let lines = issue_line_texts(&issues);
        return Err(AudioMetadataError::InvalidFeedEntry { path, issues: lines });
    }
    let x = match feed_xml_entry_from_metadata(path.as_str(), &fe) {
        Err(e) => return Err(e),
        Ok(x) => x,
    };
    if !text_eq(x.feed.as_str(), feed_path) {
        return Err(feed_mismatch(path, x.feed.as_str(), feed_path));
    }
    Ok(x)
}

/// A list result as a sequence.
pub open spec fn listed<T>(r: Result<Vec<T>, AudioMetadataError>) -> Result<Seq<T>, AudioMetadataError> {
    match r {
        Ok(v) => Ok(v@),
        Err(e) => Err(e),
    }
}

/// Loads the generated entries of the feed at `feed_path` from the files
/// under `feeds/entries`: `None` when that directory is missing, or the
/// failure to list it. Every file must pass its check and belong to this
/// feed; the entries come out newest first, then by id.
pub fn load_valid_feed_entries(
    feed_path: &str,
    files: Result<Option<Vec<FeedEntryFile>>, AudioMetadataError>,
) -> (r: Result<Vec<FeedXmlEntry>, AudioMetadataError>)
    ensures
        entry_stage(feed_path@, files, listed(r)),
{
    reveal(entry_stage);
    let fs = match files {
        Err(e) => return Err(e),
        Ok(None) => return Ok(Vec::new()),
        Ok(Some(fs)) => fs,
    };
    let ghost orig = fs@;
    let mut rest = fs;
    let mut out: Vec<FeedXmlEntry> = Vec::new();
    while rest.len() > 0
        invariant
            files matches Ok(Some(v)) && v@ == orig,
            rest@.len() <= orig.len(),
            rest@ == orig.skip(orig.len() - rest@.len()),
            out@ == accepted_xml(orig.take(orig.len() - rest@.len())),
            forall|i: int|
                0 <= i < orig.len() - rest@.len() ==> accepted_entry(feed_path@, #[trigger] orig[i]),
        decreases rest@.len(),
    {
        let ghost k = orig.len() - rest@.len();
        let f = rest.remove(0);
        assert(f == orig[k]);
        match load_feed_entry_file(feed_path, f) {
            Err(err) => {
                assert(entries_loaded(feed_path@, orig, Err(err)));
                reveal(entry_stage);
                return Err(err);
            },
            Ok(x) => {
                out.push(x);
                assert(orig.take(k + 1) =~= orig.take(k).push(orig[k]));
                assert(accepted_xml(orig.take(k + 1)) =~= accepted_xml(orig.take(k)).push(x));
                assert(rest@ =~= orig.skip(k + 1));
            },
        }
    }
    assert(orig.take(orig.len() as int) =~= orig);
    let sorted = stable_sort(out);
    Ok(sorted)
}

// ---------------------------------------------------------------------------
// Entries kept from the feed on disk
// ---------------------------------------------------------------------------

/// What the files under `feeds/entries` give: the generated entries, or the
/// failure that stops the generation.
#[verifier::opaque]
pub open spec fn entry_stage(
    feed_path: Seq<char>,
    files: Result<Option<Vec<FeedEntryFile>>, AudioMetadataError>,
    r: Result<Seq<FeedXmlEntry>, AudioMetadataError>,
) -> bool {
    match files {
        Err(e) => r == Err::<Seq<FeedXmlEntry>, AudioMetadataError>(e),
        Ok(None) => r == Ok::<Seq<FeedXmlEntry>, AudioMetadataError>(Seq::empty()),
        Ok(Some(fs)) => entries_loaded(feed_path, fs@, r),
    }
}

/// What the feed on disk gives: the entries to keep, or the failure that
/// stops the generation.
#[verifier::opaque]
pub open spec fn preserved_stage(
    feed_path: Seq<char>,
    existing: Result<Option<String>, AudioMetadataError>,
    managed: Seq<FeedXmlEntry>,
    r: Result<Seq<AtomEntryView>, AudioMetadataError>,
) -> bool {
    match existing {
        Err(e) => r == Err::<Seq<AtomEntryView>, AudioMetadataError>(e),
        Ok(None) => r == Ok::<Seq<AtomEntryView>, AudioMetadataError>(Seq::empty()),
        Ok(Some(feed)) => preserved_loaded(feed_path, feed@, managed, r),
    }
}

/// Whether a feed file holds a whole Atom feed.
pub open spec fn is_complete_feed(feed: Seq<char>) -> bool {
    contains_text(feed, "<feed"@) && contains_text(feed, "</feed>"@)
}

/// What reading the existing feed gives: the entries it holds that no
/// generated entry replaces, or the flaw that makes it unusable.
pub open spec fn preserved_loaded(
    feed_path: Seq<char>,
    feed: Seq<char>,
    managed: Seq<FeedXmlEntry>,
    r: Result<Seq<AtomEntryView>, AudioMetadataError>,
) -> bool {
    if !is_complete_feed(feed) {
        if contains_text(feed, "WaystoneOS feed placeholder"@) {
            r matches Ok(v) && v.len() == 0
        } else {
            &&& r matches Err(AudioMetadataError::InvalidFeedXml { path, issue })
            &&& path@ == feed_path
            &&& issue@ == "existing feed is not a complete Atom feed"@
        }
    } else {
        match atom_entries(feed, 0) {
            Err(flaw) => r matches Err(AudioMetadataError::InvalidFeedXml { path, issue })
                && path@ == feed_path && issue@ == flaw,
            Ok(all) => r == Ok::<Seq<AtomEntryView>, AudioMetadataError>(
                kept_entries(all, managed_ids(managed)),
            ),
        }
    }
}

/// A result of kept entries as their views.
pub open spec fn kept_result(r: Result<Vec<PreservedAtomEntry>, AudioMetadataError>) -> Result<
    Seq<AtomEntryView>,
    AudioMetadataError,
> {
    match r {
        Ok(v) => Ok(entry_views(v@)),
        Err(e) => Err(e),
    }
}

/// The entries of the existing feed at `feed_path` to keep beside the
/// generated ones. `existing` is the feed's text, `None` when there is no
/// such file, or the failure to read it.
pub fn load_preserved_atom_entries(
    feed_path: &str,
    existing: Result<Option<String>, AudioMetadataError>,
    managed: &Vec<FeedXmlEntry>,
) -> (r: Result<Vec<PreservedAtomEntry>, AudioMetadataError>)
    ensures
        preserved_stage(feed_path@, existing, managed@, kept_result(r)),
{
    reveal(preserved_stage);
    let feed = match existing {
        Err(e) => return Err(e),
        Ok(None) => {
            let v: Vec<PreservedAtomEntry> = Vec::new();
            assert(entry_views(v@) =~= Seq::<AtomEntryView>::empty());
            return Ok(v);
        },
        Ok(Some(feed)) => feed,
    };
    if !contains_exec(feed.as_str(), "<feed") || !contains_exec(feed.as_str(), "</feed>") {
        if contains_exec(feed.as_str(), "WaystoneOS feed placeholder") {
            let v: Vec<PreservedAtomEntry> = Vec::new();
            assert(entry_views(v@) =~= Seq::<AtomEntryView>::empty());
            return Ok(v);
        }
        return Err(
            AudioMetadataError::InvalidFeedXml {
                path: string_of(feed_path),
                issue: string_of("existing feed is not a complete Atom feed"),
            },
        );
    }
    match atom_feed_entries(feed.as_str()) {
        Err(issue) => Err(AudioMetadataError::InvalidFeedXml { path: string_of(feed_path), issue }),
        Ok(entries) => Ok(keep_unmanaged_entries(entries, managed)),
    }
}

// ---------------------------------------------------------------------------
// Generating the feed
// ---------------------------------------------------------------------------

/// Where to write a feed, relative to the project, and its title.
#[derive(Debug, Clone)]
pub struct GenerateFeedOptions {
    pub project_root: String,
    pub feed_path: String,
    pub title: String,
}

/// A generated feed: where it goes, how many entries it holds, and when it
/// was last updated.
#[derive(Debug, Clone)]
pub struct GeneratedFeed {
    pub feed_path: String,
    pub feed_relative_path: String,
    pub entries: usize,
    pub updated: String,
}

/// A generated feed together with the XML to write.
#[derive(Debug)]
pub struct FeedOutput {
    pub feed: GeneratedFeed,
    pub xml: String,
}

/// The number of entries of a feed, as a `usize`.
pub open spec fn entry_count(managed: nat, preserved: nat) -> nat {
    if managed + preserved <= usize::MAX {
        managed + preserved
    } else {
        usize::MAX as nat
    }
}

/// The feed that generated entries `v` and kept entries `p` make.
pub open spec fn feed_output(
    options: GenerateFeedOptions,
    v: Seq<FeedXmlEntry>,
    p: Seq<AtomEntryView>,
    out: FeedOutput,
) -> bool {
    let updated = feed_update_time(v, p);
    &&& out.xml@ == atom_feed_xml(options.title@, options.feed_path@, updated, v, p)
    &&& out.feed.updated@ == updated
    &&& out.feed.entries == entry_count(v.len(), p.len())
    &&& out.feed.feed_relative_path@ == options.feed_path@
    &&& out.feed.feed_path@ == joined_path(options.project_root@, options.feed_path@)
}

/// The feed that the generated and the kept entries make.
fn feed_of_entries(
    options: &GenerateFeedOptions,
    entries: &Vec<FeedXmlEntry>,
    preserved: &Vec<PreservedAtomEntry>,
) -> (out: FeedOutput)
    ensures
        feed_output(*options, entries@, entry_views(preserved@), out),
{
    let updated = feed_updated(entries, preserved);
    let xml = render_atom_feed(
        options.title.as_str(),
        options.feed_path.as_str(),
        updated.as_str(),
        entries,
        preserved,
    );
    let feed_path = path_join(options.project_root.as_str(), options.feed_path.as_str());
    let count = entries.len().saturating_add(preserved.len());
    FeedOutput {
        feed: GeneratedFeed {
            feed_path,
            feed_relative_path: options.feed_path.clone(),
            entries: count,
            updated,
        },
        xml,
    }
}

/// Generates the Atom feed of a project from its prepared entries and the
/// feed already on disk. `project` is the check of the project root;
/// `entry_files` and `existing_feed` are what `load_valid_feed_entries` and
/// `load_preserved_atom_entries` read. The generated entries come first,
/// newest first, then the kept ones; the feed's update time is the latest of
/// theirs.
pub fn generate_feed(
    options: &GenerateFeedOptions,
    project: Result<(), AudioMetadataError>,
    entry_files: Result<Option<Vec<FeedEntryFile>>, AudioMetadataError>,
    existing_feed: Result<Option<String>, AudioMetadataError>,
) -> (r: Result<FeedOutput, AudioMetadataError>)
    ensures
        match project {
            Err(e) => r == Err::<FeedOutput, AudioMetadataError>(e),
            Ok(_) => if !is_inside_path(options.feed_path@) {
                &&& r matches Err(AudioMetadataError::InvalidAudioPath { field, value })
                &&& field@ == "feed.path"@
                &&& value@ == options.feed_path@
            } else {
                match r {
                    Err(err) => entry_stage(options.feed_path@, entry_files, Err(err)) || exists|
                        v: Seq<FeedXmlEntry>,
                    |
                        entry_stage(options.feed_path@, entry_files, Ok(v)) && preserved_stage(
                            options.feed_path@,
                            existing_feed,
                            v,
                            Err(err),
                        ),
                    Ok(out) => exists|v: Seq<FeedXmlEntry>, p: Seq<AtomEntryView>|
                        entry_stage(options.feed_path@, entry_files, Ok(v)) && preserved_stage(
                            options.feed_path@,
                            existing_feed,
                            v,
                            Ok(p),
                        ) && feed_output(*options, v, p, out),
                }
            },
        },
{
    if let Err(e) = project {
        return Err(e);
    }
    if let Err(e) = validate_audio_path_for_write("feed.path", options.feed_path.as_str()) {
        return Err(e);
    }
    let ghost fp = options.feed_path@;
    let ghost files = entry_files;
    let ghost existing = existing_feed;
    let entries = match load_valid_feed_entries(options.feed_path.as_str(), entry_files) {
        Err(e) => {
            assert(entry_stage(fp, files, Err(e)));
            return Err(e);
        },
        Ok(v) => v,
    };
    assert(entry_stage(fp, files, Ok(entries@)));
    let preserved = match load_preserved_atom_entries(options.feed_path.as_str(), existing_feed, &entries) {
        Err(e) => {
            assert(preserved_stage(fp, existing, entries@, Err(e)));
            return Err(e);
        },
        Ok(p) => p,
    };
    assert(preserved_stage(fp, existing, entries@, Ok(entry_views(preserved@))));
    let out = feed_of_entries(options, &entries, &preserved);
    let r: Result<FeedOutput, AudioMetadataError> = Ok(out);
    proof {
        let v = entries@;
        let p = entry_views(preserved@);
        assert(entry_stage(fp, files, Ok(v)) && preserved_stage(fp, existing, v, Ok(p)));
        assert(feed_output(*options, v, p, r->Ok_0));
    }
    r
}

} // verus!
