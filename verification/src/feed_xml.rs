use vstd::prelude::*;
use crate::text::{
    append_xml_escaped, char_is_space, chars_of, find_from, occurs_at_chars, is_space, occurs_at, push_char,
    string_of, xml_char_escape, xml_escaped,
};

verus! {

// ---------------------------------------------------------------------------
// Entities
// ---------------------------------------------------------------------------

pub open spec fn starts_with_seq(s: Seq<char>, p: Seq<char>) -> bool {
    p.len() <= s.len() && s.take(p.len() as int) == p
}

/// The text with the entities `&quot;`, `&gt;`, `&lt;` and `&amp;` decoded,
/// reading from left to right.
pub open spec fn quot_entity() -> Seq<char> {
    seq!['&', 'q', 'u', 'o', 't', ';']
}

pub open spec fn gt_entity() -> Seq<char> {
    seq!['&', 'g', 't', ';']
}

pub open spec fn lt_entity() -> Seq<char> {
    seq!['&', 'l', 't', ';']
}

pub open spec fn amp_entity() -> Seq<char> {
    seq!['&', 'a', 'm', 'p', ';']
}

pub open spec fn xml_unescaped(s: Seq<char>) -> Seq<char>
    decreases s.len(),
{
    if s.len() == 0 {
        Seq::empty()
    } else if starts_with_seq(s, quot_entity()) {
        seq!['"'] + xml_unescaped(s.skip(6))
    } else if starts_with_seq(s, gt_entity()) {
        seq!['>'] + xml_unescaped(s.skip(4))
    } else if starts_with_seq(s, lt_entity()) {
        seq!['<'] + xml_unescaped(s.skip(4))
    } else if starts_with_seq(s, amp_entity()) {
        seq!['&'] + xml_unescaped(s.skip(5))
    } else {
        seq![s[0]] + xml_unescaped(s.skip(1))
    }
}

proof fn lemma_occurs_iff_starts(s: Seq<char>, p: Seq<char>, i: int)
    requires
        0 <= i <= s.len(),
    ensures
        occurs_at(s, p, i) == starts_with_seq(s.skip(i), p),
{
    if p.len() <= s.len() - i {
        assert(s.skip(i).take(p.len() as int) =~= s.subrange(i, i + p.len()));
    }
}

/// Decodes the entities `&quot;`, `&gt;`, `&lt;` and `&amp;`.
pub fn xml_unescape(value: &str) -> (r: String)
    ensures
        r@ == xml_unescaped(value@),
{
    proof {
        reveal_strlit("&quot;");
        reveal_strlit("&gt;");
        reveal_strlit("&lt;");
        reveal_strlit("&amp;");
        assert("&quot;"@ =~= quot_entity());
        assert("&gt;"@ =~= gt_entity());
        assert("&lt;"@ =~= lt_entity());
        assert("&amp;"@ =~= amp_entity());
    }
    let value_chars = chars_of(value);
    let quot = chars_of("&quot;");
    let gt = chars_of("&gt;");
    let lt = chars_of("&lt;");
    let amp = chars_of("&amp;");
    let n = value_chars.len();
    let mut out = String::new();
    let mut i: usize = 0;
    assert(value@.skip(0) =~= value@);
    while i < n
        invariant
            value_chars@ == value@,
            quot@ == "&quot;"@,
            gt@ == "&gt;"@,
            lt@ == "&lt;"@,
            amp@ == "&amp;"@,
            n == value@.len(),
            i <= n,
            out@ + xml_unescaped(value@.skip(i as int)) == xml_unescaped(value@),
        decreases n - i,
    {
        let ghost rest = value@.skip(i as int);
        proof {
            reveal_strlit("&quot;");
            reveal_strlit("&gt;");
            reveal_strlit("&lt;");
            reveal_strlit("&amp;");
            assert("&quot;"@ =~= quot_entity());
            assert("&gt;"@ =~= gt_entity());
            assert("&lt;"@ =~= lt_entity());
            assert("&amp;"@ =~= amp_entity());
            lemma_occurs_iff_starts(value@, quot_entity(), i as int);
            lemma_occurs_iff_starts(value@, gt_entity(), i as int);
            lemma_occurs_iff_starts(value@, lt_entity(), i as int);
            lemma_occurs_iff_starts(value@, amp_entity(), i as int);
        }
        let ghost before = out@;
        if occurs_at_chars(&value_chars, &quot, i) {
            push_char(&mut out, '"');
            assert(rest.skip(6) =~= value@.skip(i + 6));
            assert(out@ + xml_unescaped(value@.skip(i + 6)) =~= before + xml_unescaped(rest));
            i = i + 6;
        } else if occurs_at_chars(&value_chars, &gt, i) {
            push_char(&mut out, '>');
            assert(rest.skip(4) =~= value@.skip(i + 4));
            assert(out@ + xml_unescaped(value@.skip(i + 4)) =~= before + xml_unescaped(rest));
            i = i + 4;
        } else if occurs_at_chars(&value_chars, &lt, i) {
            push_char(&mut out, '<');
            assert(rest.skip(4) =~= value@.skip(i + 4));
            assert(out@ + xml_unescaped(value@.skip(i + 4)) =~= before + xml_unescaped(rest));
            i = i + 4;
        } else if occurs_at_chars(&value_chars, &amp, i) {
            push_char(&mut out, '&');
            assert(rest.skip(5) =~= value@.skip(i + 5));
            assert(out@ + xml_unescaped(value@.skip(i + 5)) =~= before + xml_unescaped(rest));
            i = i + 5;
        } else {
            let c = value_chars[i];
            push_char(&mut out, c);
            assert(rest[0] == c);
            assert(rest.skip(1) =~= value@.skip(i + 1));
            assert(out@ + xml_unescaped(value@.skip(i + 1)) =~= before + xml_unescaped(rest));
            i = i + 1;
        }
    }
    assert(value@.skip(n as int) =~= Seq::<char>::empty());
    assert(out@ + xml_unescaped(value@.skip(n as int)) =~= out@);
    out
}

proof fn lemma_xml_escaped_front(s: Seq<char>)
    requires
        s.len() > 0,
    ensures
        xml_escaped(s) == xml_char_escape(s[0]) + xml_escaped(s.drop_first()),
    decreases s.len(),
{
    if s.len() == 1 {
        assert(s.drop_last() =~= Seq::<char>::empty());
        assert(s.drop_first() =~= Seq::<char>::empty());
        assert(xml_escaped(s.drop_last()) =~= Seq::<char>::empty());
        assert(xml_escaped(s.drop_first()) =~= Seq::<char>::empty());
        assert(xml_escaped(s) =~= xml_char_escape(s[0]));
    } else {
        lemma_xml_escaped_front(s.drop_last());
        assert(s.drop_last().drop_first() =~= s.drop_first().drop_last());
        assert(s.drop_first().last() == s.last());
        assert(xml_escaped(s) =~= xml_char_escape(s[0]) + xml_escaped(s.drop_first()));
    }
}

proof fn lemma_unescape_one(c: char, rest: Seq<char>)
    ensures
        xml_unescaped(xml_char_escape(c) + rest) == seq![c] + xml_unescaped(rest),
{
    reveal_strlit("&quot;");
    reveal_strlit("&gt;");
    reveal_strlit("&lt;");
    reveal_strlit("&amp;");
    assert("&quot;"@ =~= quot_entity());
    assert("&gt;"@ =~= gt_entity());
    assert("&lt;"@ =~= lt_entity());
    assert("&amp;"@ =~= amp_entity());
    let e = xml_char_escape(c);
    let s = e + rest;
    assert(s.len() > 0);
    if c == '&' {
        assert(s.take(5) =~= amp_entity());
        assert(s.skip(5) =~= rest);
        assert(!starts_with_seq(s, quot_entity())) by {
            if 6 <= s.len() {
                assert(s.take(6)[1] != quot_entity()[1]);
            }
        }
        assert(!starts_with_seq(s, gt_entity())) by {
            assert(s.take(4)[1] != gt_entity()[1]);
        }
        assert(!starts_with_seq(s, lt_entity())) by {
            assert(s.take(4)[1] != lt_entity()[1]);
        }
    } else if c == '<' {
        assert(s.take(4) =~= lt_entity());
        assert(s.skip(4) =~= rest);
        assert(!starts_with_seq(s, quot_entity())) by {
            if 6 <= s.len() {
                assert(s.take(6)[1] != quot_entity()[1]);
            }
        }
        assert(!starts_with_seq(s, gt_entity())) by {
            assert(s.take(4)[1] != gt_entity()[1]);
        }
    } else if c == '>' {
        assert(s.take(4) =~= gt_entity());
        assert(s.skip(4) =~= rest);
        assert(!starts_with_seq(s, quot_entity())) by {
            if 6 <= s.len() {
                assert(s.take(6)[1] != quot_entity()[1]);
            }
        }
    } else if c == '"' {
        assert(s.take(6) =~= quot_entity());
        assert(s.skip(6) =~= rest);
    } else {
        assert(s[0] == c);
        assert(!starts_with_seq(s, quot_entity())) by {
            if 6 <= s.len() {
                assert(s.take(6)[0] != quot_entity()[0]);
            }
        }
        assert(!starts_with_seq(s, gt_entity())) by {
            if 4 <= s.len() {
                assert(s.take(4)[0] != gt_entity()[0]);
            }
        }
        assert(!starts_with_seq(s, lt_entity())) by {
            if 4 <= s.len() {
                assert(s.take(4)[0] != lt_entity()[0]);
            }
        }
        assert(!starts_with_seq(s, amp_entity())) by {
            if 5 <= s.len() {
                assert(s.take(5)[0] != amp_entity()[0]);
            }
        }
        assert(s.skip(1) =~= rest);
    }
}

/// Decoding the XML escape of a text gives the text back.
pub proof fn law_xml_unescape_inverts_escape(s: Seq<char>)
    ensures
        xml_unescaped(xml_escaped(s)) == s,
    decreases s.len(),
{
    if s.len() == 0 {
        assert(xml_escaped(s) =~= Seq::<char>::empty());
    } else {
        lemma_xml_escaped_front(s);
        law_xml_unescape_inverts_escape(s.drop_first());
        lemma_unescape_one(s[0], xml_escaped(s.drop_first()));
        assert(seq![s[0]] + s.drop_first() =~= s);
    }
}

} // verus!

verus! {

// ---------------------------------------------------------------------------
// Searching and trimming
// ---------------------------------------------------------------------------

/// The first position at or after `from` where `needle` occurs in `s`.
pub open spec fn first_occurrence(s: Seq<char>, needle: Seq<char>, from: int) -> Option<int>
    decreases s.len() + 1 - from,
{
    if from < 0 || from > s.len() {
        None
    } else if occurs_at(s, needle, from) {
        Some(from)
    } else {
        first_occurrence(s, needle, from + 1)
    }
}

pub proof fn lemma_first_occurrence_some(s: Seq<char>, needle: Seq<char>, from: int, i: int)
    requires
        0 <= from <= i,
        occurs_at(s, needle, i),
        forall|j: int| from <= j < i ==> !occurs_at(s, needle, j),
    ensures
        first_occurrence(s, needle, from) == Some(i),
    decreases i - from,
{
    if from < i {
        lemma_first_occurrence_some(s, needle, from + 1, i);
    }
}

pub proof fn lemma_first_occurrence_none(s: Seq<char>, needle: Seq<char>, from: int)
    requires
        0 <= from,
        forall|j: int| from <= j ==> !occurs_at(s, needle, j),
    ensures
        first_occurrence(s, needle, from) == None::<int>,
    decreases s.len() + 1 - from,
{
    if from <= s.len() {
        lemma_first_occurrence_none(s, needle, from + 1);
    }
}

pub proof fn lemma_first_occurrence_bounds(s: Seq<char>, needle: Seq<char>, from: int)
    ensures
        first_occurrence(s, needle, from) matches Some(i) ==> from <= i && i + needle.len()
            <= s.len() && occurs_at(s, needle, i),
    decreases s.len() + 1 - from,
{
    if 0 <= from <= s.len() && !occurs_at(s, needle, from) {
        lemma_first_occurrence_bounds(s, needle, from + 1);
    }
}

/// The first occurrence of `needle` at or after `from`.
pub fn find_first(s: &str, needle: &str, from: usize) -> (r: Option<usize>)
    ensures
        match (r, first_occurrence(s@, needle@, from as int)) {
            (Some(i), Some(j)) => i == j,
            (None, None) => true,
            _ => false,
        },
{
    let r = find_from(s, needle, from);
    proof {
        match r {
            Some(i) => lemma_first_occurrence_some(s@, needle@, from as int, i as int),
            None => lemma_first_occurrence_none(s@, needle@, from as int),
        }
    }
    r
}

/// The number of whitespace characters at the front of `s`.
pub open spec fn leading_spaces(s: Seq<char>) -> nat
    decreases s.len(),
{
    if s.len() > 0 && is_space(s[0]) {
        1 + leading_spaces(s.drop_first())
    } else {
        0
    }
}

/// The number of whitespace characters at the back of `s`.
pub open spec fn trailing_spaces(s: Seq<char>) -> nat
    decreases s.len(),
{
    if s.len() > 0 && is_space(s.last()) {
        1 + trailing_spaces(s.drop_last())
    } else {
        0
    }
}

/// `s` without whitespace at either end, as `str::trim` gives it.
pub open spec fn trimmed(s: Seq<char>) -> Seq<char> {
    let lead = leading_spaces(s);
    s.skip(lead as int).take(s.len() - lead - trailing_spaces(s.skip(lead as int)))
}

proof fn lemma_leading_bound(s: Seq<char>)
    ensures
        leading_spaces(s) <= s.len(),
    decreases s.len(),
{
    if s.len() > 0 && is_space(s[0]) {
        lemma_leading_bound(s.drop_first());
    }
}

proof fn lemma_trailing_bound(s: Seq<char>)
    ensures
        trailing_spaces(s) <= s.len(),
    decreases s.len(),
{
    if s.len() > 0 && is_space(s.last()) {
        lemma_trailing_bound(s.drop_last());
    }
}

/// The characters of `s` from `a` up to (not including) `b`.
pub fn substring(s: &str, a: usize, b: usize) -> (r: String)
    requires
        a <= b <= s@.len(),
    ensures
        r@ == s@.subrange(a as int, b as int),
{
    let s_chars = chars_of(s);
    let mut out = String::new();
    let mut i = a;
    while i < b
        invariant
            s_chars@ == s@,
            a <= i <= b,
            b <= s@.len(),
            out@ == s@.subrange(a as int, i as int),
        decreases b - i,
    {
        push_char(&mut out, s_chars[i]);
        assert(out@ =~= s@.subrange(a as int, i + 1));
        i = i + 1;
    }
    out
}

/// The characters of `s` from `a` to `b`, without whitespace at either end.
pub fn trimmed_substring(s: &str, a: usize, b: usize) -> (r: String)
    requires
        a <= b <= s@.len(),
    ensures
        r@ == trimmed(s@.subrange(a as int, b as int)),
{
    let s_chars = chars_of(s);
    let ghost t = s@.subrange(a as int, b as int);
    let mut lo = a;
    assert(t.skip(0) =~= t);
    while lo < b && char_is_space(s_chars[lo])
        invariant
            s_chars@ == s@,
            a <= lo <= b,
            b <= s@.len(),
            t == s@.subrange(a as int, b as int),
            leading_spaces(t) == (lo - a) + leading_spaces(t.skip(lo - a)),
        decreases b - lo,
    {
        assert(t.skip(lo - a).drop_first() =~= t.skip(lo + 1 - a));
        lo = lo + 1;
    }
    proof {
        if lo < b {
            assert(t.skip(lo - a)[0] == s@[lo as int]);
        } else {
            assert(t.skip(lo - a).len() == 0);
        }
        assert(leading_spaces(t) == lo - a);
    }
    let ghost u = t.skip(lo - a);
    let mut hi = b;
    assert(u.take(b - lo) =~= u);
    while hi > lo && char_is_space(s_chars[hi - 1])
        invariant
            s_chars@ == s@,
            a <= lo <= hi <= b,
            b <= s@.len(),
            t == s@.subrange(a as int, b as int),
            u == t.skip(lo - a),
            trailing_spaces(u) == (b - hi) + trailing_spaces(u.take(hi - lo)),
        decreases hi - lo,
    {
        assert(u.take(hi - lo).drop_last() =~= u.take(hi - 1 - lo));
        assert(u.take(hi - lo).last() == s@[hi - 1]);
        hi = hi - 1;
    }
    proof {
        if hi > lo {
            assert(u.take(hi - lo).last() == s@[hi - 1]);
        } else {
            assert(u.take(hi - lo).len() == 0);
        }
        assert(trailing_spaces(u) == b - hi);
        assert(trimmed(t) =~= s@.subrange(lo as int, hi as int));
    }
    substring(s, lo, hi)
}

} // verus!

verus! {

// ---------------------------------------------------------------------------
// Elements
// ---------------------------------------------------------------------------

pub open spec fn open_tag(name: Seq<char>) -> Seq<char> {
    seq!['<'] + name + seq!['>']
}

pub open spec fn close_tag(name: Seq<char>) -> Seq<char> {
    seq!['<', '/'] + name + seq!['>']
}

/// The trimmed text between the first `<name>` and the first `</name>` after it.
pub open spec fn xml_text(xml: Seq<char>, name: Seq<char>) -> Option<Seq<char>> {
    match first_occurrence(xml, open_tag(name), 0) {
        None => None,
        Some(i) => {
            let start = i + open_tag(name).len();
            match first_occurrence(xml, close_tag(name), start) {
                None => None,
                Some(j) => Some(trimmed(xml.subrange(start, j))),
            }
        },
    }
}

/// The text of the first `name` element of `xml`, trimmed.
pub fn extract_xml_text(xml: &str, name: &str) -> (r: Option<String>)
    ensures
        match (r, xml_text(xml@, name@)) {
            (Some(t), Some(u)) => t@ == u,
            (None, None) => true,
            _ => false,
        },
{
    let mut open = String::new();
    push_char(&mut open, '<');
    open.append(name);
    push_char(&mut open, '>');
    let mut close = String::new();
    push_char(&mut close, '<');
    push_char(&mut close, '/');
    close.append(name);
    push_char(&mut close, '>');
    assert(open@ =~= open_tag(name@));
    assert(close@ =~= close_tag(name@));
    let i = match find_first(xml, open.as_str(), 0) {
        Some(i) => i,
        None => return None,
    };
    let olen = open.as_str().unicode_len();
    let n = xml.unicode_len();
    proof {
        lemma_first_occurrence_bounds(xml@, open@, 0);
        assert(first_occurrence(xml@, open@, 0) == Some(i as int));
        assert(i + olen <= xml@.len());
    }
    let start = i + olen;
    let j = match find_first(xml, close.as_str(), start) {
        Some(j) => j,
        None => return None,
    };
    proof {
        lemma_first_occurrence_bounds(xml@, close@, start as int);
        assert(first_occurrence(xml@, close@, start as int) == Some(j as int));
    }
    Some(trimmed_substring(xml, start, j))
}

/// An entry of an Atom feed kept as it stands, with its id and update time.
#[derive(Debug)]
pub struct PreservedAtomEntry {
    pub id: Option<String>,
    pub updated: Option<String>,
    pub xml: String,
}

pub struct AtomEntryView {
    pub id: Option<Seq<char>>,
    pub updated: Option<Seq<char>>,
    pub xml: Seq<char>,
}

impl View for PreservedAtomEntry {
    type V = AtomEntryView;

    open spec fn view(&self) -> AtomEntryView {
        AtomEntryView {
            id: crate::validation::opt_text(self.id),
            updated: crate::validation::opt_text(self.updated),
            xml: self.xml@,
        }
    }
}

pub open spec fn unescaped_opt(o: Option<Seq<char>>) -> Option<Seq<char>> {
    match o {
        Some(t) => Some(xml_unescaped(t)),
        None => None,
    }
}

/// The entry whose XML is `xml`: its `id` and `updated` texts, decoded.
pub open spec fn atom_entry_of(xml: Seq<char>) -> AtomEntryView {
    AtomEntryView {
        id: unescaped_opt(xml_text(xml, seq!['i', 'd'])),
        updated: unescaped_opt(xml_text(xml, seq!['u', 'p', 'd', 'a', 't', 'e', 'd'])),
        xml,
    }
}

pub open spec fn entry_open() -> Seq<char> {
    seq!['<', 'e', 'n', 't', 'r', 'y']
}

pub open spec fn entry_close() -> Seq<char> {
    seq!['<', '/', 'e', 'n', 't', 'r', 'y', '>']
}

/// The entries of a feed from `offset` on, each from `<entry` to the first
/// `</entry>` after its start tag, or the flaw that stops the reading.
pub open spec fn atom_entries(feed: Seq<char>, offset: int) -> Result<Seq<AtomEntryView>, Seq<char>>
    decreases feed.len() + 1 - offset,
{
    if offset < 0 || offset > feed.len() {
        Ok(Seq::empty())
    } else {
        match first_occurrence(feed, entry_open(), offset) {
            None => Ok(Seq::empty()),
            Some(start) => match first_occurrence(feed, seq!['>'], start) {
                None => Err("entry start tag is incomplete"@),
                Some(gt) => match first_occurrence(feed, entry_close(), gt + 1) {
                    None => Err("entry end tag is missing"@),
                    Some(cs) => {
                        let end = cs + 8;
                        proof {
                            lemma_first_occurrence_bounds(feed, entry_open(), offset);
                            lemma_first_occurrence_bounds(feed, seq!['>'], start);
                            lemma_first_occurrence_bounds(feed, entry_close(), gt + 1);
                        }
                        if end <= offset {
                            Ok(Seq::empty())
                        } else {
                            match atom_entries(feed, end) {
                                Err(e) => Err(e),
                                Ok(rest) => Ok(
                                    seq![atom_entry_of(trimmed(feed.subrange(start, end)))] + rest,
                                ),
                            }
                        }
                    },
                },
            },
        }
    }
}

} // verus!

verus! {

pub open spec fn entry_views(s: Seq<PreservedAtomEntry>) -> Seq<AtomEntryView> {
    s.map_values(|e: PreservedAtomEntry| e@)
}

pub open spec fn after_prefix(
    prefix: Seq<AtomEntryView>,
    r: Result<Seq<AtomEntryView>, Seq<char>>,
) -> Result<Seq<AtomEntryView>, Seq<char>> {
    match r {
        Ok(rest) => Ok(prefix + rest),
        Err(e) => Err(e),
    }
}

fn atom_entry_from_xml(xml: String) -> (r: PreservedAtomEntry)
    ensures
        r@ == atom_entry_of(xml@),
{
    proof {
        reveal_strlit("id");
        reveal_strlit("updated");
        assert("id"@ =~= seq!['i', 'd']);
        assert("updated"@ =~= seq!['u', 'p', 'd', 'a', 't', 'e', 'd']);
    }
    let id = match extract_xml_text(xml.as_str(), "id") {
        Some(t) => Some(xml_unescape(t.as_str())),
        None => None,
    };
    let updated = match extract_xml_text(xml.as_str(), "updated") {
        Some(t) => Some(xml_unescape(t.as_str())),
        None => None,
    };
    PreservedAtomEntry { id, updated, xml }
}

/// The entries of an Atom feed, or the flaw that stops the reading.
pub fn atom_feed_entries(feed: &str) -> (r: Result<Vec<PreservedAtomEntry>, String>)
    ensures
        match (r, atom_entries(feed@, 0)) {
            (Ok(v), Ok(w)) => entry_views(v@) == w,
            (Err(e), Err(f)) => e@ == f,
            _ => false,
        },
{
    let n = feed.unicode_len();
    let mut entries: Vec<PreservedAtomEntry> = Vec::new();
    let mut offset: usize = 0;
    assert(entry_views(entries@) =~= Seq::<AtomEntryView>::empty());
    assert(after_prefix(Seq::empty(), atom_entries(feed@, 0)) =~= atom_entries(feed@, 0)) by {
        match atom_entries(feed@, 0) {
            Ok(w) => {
                assert(Seq::<AtomEntryView>::empty() + w =~= w);
            },
            Err(_) => {},
        }
    }
    loop
        invariant
            n == feed@.len(),
            offset <= n,
            atom_entries(feed@, 0) == after_prefix(entry_views(entries@), atom_entries(feed@, offset as int)),
        decreases n - offset,
    {
        proof {
            reveal_strlit("<entry");
            reveal_strlit(">");
            reveal_strlit("</entry>");
            assert("<entry"@ =~= entry_open());
            assert(">"@ =~= seq!['>']);
            assert("</entry>"@ =~= entry_close());
        }
        let ghost prefix = entry_views(entries@);
        let start = match find_first(feed, "<entry", offset) {
            Some(s) => s,
            None => {
                assert(prefix + Seq::<AtomEntryView>::empty() =~= prefix);
                return Ok(entries);
            },
        };
        proof {
            lemma_first_occurrence_bounds(feed@, entry_open(), offset as int);
        }
        let gt = match find_first(feed, ">", start) {
            Some(g) => g,
            None => {
                return Err(string_of("entry start tag is incomplete"));
            },
        };
        proof {
            lemma_first_occurrence_bounds(feed@, seq!['>'], start as int);
        }
        let cs = match find_first(feed, "</entry>", gt + 1) {
            Some(c) => c,
            None => {
                return Err(string_of("entry end tag is missing"));
            },
        };
        proof {
            lemma_first_occurrence_bounds(feed@, entry_close(), gt + 1);
        }
        let end = cs + 8;
        let xml = trimmed_substring(feed, start, end);
        let entry = atom_entry_from_xml(xml);
        let ghost e = entry@;
        entries.push(entry);
        proof {
            assert(entry_views(entries@) =~= prefix.push(e));
            match atom_entries(feed@, end as int) {
                Ok(rest) => {
                    assert(prefix + (seq![e] + rest) =~= prefix.push(e) + rest);
                },
                Err(_) => {},
            }
        }
        offset = end;
    }
}

} // verus!
