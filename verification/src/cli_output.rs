use vstd::prelude::*;
use crate::text::{chars_of, push_char};

verus! {

/// The JSON escape of one character as the command-line tools write it:
/// backslash, double quote and newline are escaped, every other character is kept.
pub open spec fn json_char_escape(c: char) -> Seq<char> {
    if c == '\\' {
        seq!['\\', '\\']
    } else if c == '"' {
        seq!['\\', '"']
    } else if c == '\n' {
        seq!['\\', 'n']
    } else {
        seq![c]
    }
}

/// The JSON escape of a whole text: the escapes of its characters, in order.
pub open spec fn json_escaped(s: Seq<char>) -> Seq<char>
    decreases s.len(),
{
    if s.len() == 0 {
        Seq::empty()
    } else {
        json_escaped(s.drop_last()) + json_char_escape(s.last())
    }
}

/// Whatever a text holds, its JSON escape holds no line break: a JSON
/// document built from escaped texts and one-line literals stays on one line.
pub proof fn law_json_escaped_is_one_line(s: Seq<char>)
    ensures
        forall|i: int| 0 <= i < json_escaped(s).len() ==> json_escaped(s)[i] != '\n',
    decreases s.len(),
{
    if s.len() > 0 {
        law_json_escaped_is_one_line(s.drop_last());
        let a = json_escaped(s.drop_last());
        let b = json_char_escape(s.last());
        assert(json_escaped(s) == a + b);
        assert forall|i: int| 0 <= i < json_escaped(s).len() implies json_escaped(s)[i] != '\n' by {
            if i < a.len() {
                assert(json_escaped(s)[i] == a[i]);
            } else {
                assert(json_escaped(s)[i] == b[i - a.len()]);
            }
        }
    }
}

/// A JSON string literal: the escaped text between double quotes.
pub open spec fn json_quoted(s: Seq<char>) -> Seq<char> {
    seq!['"'] + json_escaped(s) + seq!['"']
}

/// The quoted texts of `values`, separated by commas.
pub open spec fn json_joined(values: Seq<Seq<char>>) -> Seq<char>
    decreases values.len(),
{
    if values.len() == 0 {
        Seq::empty()
    } else if values.len() == 1 {
        json_quoted(values[0])
    } else {
        json_joined(values.drop_last()) + seq![','] + json_quoted(values.last())
    }
}

/// The error envelope that every command prints in JSON mode.
pub open spec fn json_error_text(operation: Seq<char>, message: Seq<char>) -> Seq<char> {
    "{\"status\":\"error\",\"schema\":1,\"error\":{\"code\":\""@ + json_escaped(operation)
        + "_failed\",\"message\":\""@ + json_escaped(message) + "\"}}"@
}

/// Appends the JSON escape of `value` to `out`.
pub fn append_json_escaped(out: &mut String, value: &str)
    ensures
        final(out)@ == old(out)@ + json_escaped(value@),
{
    let value_chars = chars_of(value);
    let n = value_chars.len();
    let ghost start = out@;
    let mut i: usize = 0;
    while i < n
        invariant
            value_chars@ == value@,
            n == value@.len(),
            i <= n,
            out@ == start + json_escaped(value@.take(i as int)),
        decreases n - i,
    {
        let c = value_chars[i];
        proof {
            assert(value@.take(i + 1).drop_last() =~= value@.take(i as int));
        }
        if c == '\\' {
            push_char(out, '\\');
            push_char(out, '\\');
        } else if c == '"' {
            push_char(out, '\\');
            push_char(out, '"');
        } else if c == '\n' {
            push_char(out, '\\');
            push_char(out, 'n');
        } else {
            push_char(out, c);
        }
        assert(out@ =~= start + json_escaped(value@.take(i + 1)));
        i = i + 1;
    }
    assert(value@.take(n as int) =~= value@);
}

/// Escapes backslashes, double quotes and newlines for a JSON string.
pub fn escape_json(value: &str) -> (r: String)
    ensures
        r@ == json_escaped(value@),
{
    let mut out = String::new();
    append_json_escaped(&mut out, value);
    assert(out@ =~= json_escaped(value@));
    out
}

/// A JSON string for `Some` text, `null` for `None`.
pub fn json_optional_string(value: Option<&str>) -> (r: String)
    ensures
        r@ == (match value {
            Some(v) => json_quoted(v@),
            None => "null"@,
        }),
{
    match value {
        Some(v) => {
            let mut out = String::new();
            push_char(&mut out, '"');
            append_json_escaped(&mut out, v);
            push_char(&mut out, '"');
            assert(out@ =~= json_quoted(v@));
            out
        },
        None => {
            let mut out = String::new();
            out.append("null");
            assert(out@ =~= "null"@);
            out
        },
    }
}

/// The spec view of a list of strings.
pub open spec fn texts(values: Seq<String>) -> Seq<Seq<char>> {
    values.map_values(|v: String| v@)
}

/// The JSON strings of `values`, separated by commas (the inside of an array).
pub fn json_string_array(values: &[String]) -> (r: String)
    ensures
        r@ == json_joined(texts(values@)),
{
    let mut out = String::new();
    let mut i: usize = 0;
    while i < values.len()
        invariant
            i <= values@.len(),
            out@ == json_joined(texts(values@.take(i as int))),
        decreases values@.len() - i,
    {
        let ghost before = out@;
        if i > 0 {
            push_char(&mut out, ',');
        }
        push_char(&mut out, '"');
        append_json_escaped(&mut out, values[i].as_str());
        push_char(&mut out, '"');
        proof {
            let t = texts(values@.take(i + 1));
            assert(texts(values@.take(i + 1)).drop_last() =~= texts(values@.take(i as int)));
            assert(t.last() == values@[i as int]@);
        }
        assert(out@ =~= json_joined(texts(values@.take(i + 1))));
        i = i + 1;
    }
    assert(values@.take(values@.len() as int) =~= values@);
    out
}

/// The JSON error envelope for a failed operation.
pub fn json_error(operation: &str, message: &str) -> (r: String)
    ensures
        r@ == json_error_text(operation@, message@),
{
    let mut out = String::new();
    out.append("{\"status\":\"error\",\"schema\":1,\"error\":{\"code\":\"");
    append_json_escaped(&mut out, operation);
    out.append("_failed\",\"message\":\"");
    append_json_escaped(&mut out, message);
    out.append("\"}}");
    out
}

} // verus!
