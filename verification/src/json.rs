//! JSON text: string quoting and the nesting of pretty-printed values.

use crate::support::push_char;
use vstd::prelude::*;

verus! {

/// The lower-case hexadecimal digit for `d`.
pub open spec fn hex_digit(d: int) -> char {
    if d < 10 {
        ((48 + d) as u8) as char
    } else {
        ((87 + d) as u8) as char
    }
}

/// What one character of a string becomes inside a JSON string literal.
pub open spec fn escaped_char(c: char) -> Seq<char> {
    if c == '"' {
        seq!['\\', '"']
    } else if c == '\\' {
        seq!['\\', '\\']
    } else if c == '\x08' {
        seq!['\\', 'b']
    } else if c == '\x0c' {
        seq!['\\', 'f']
    } else if c == '\n' {
        seq!['\\', 'n']
    } else if c == '\r' {
        seq!['\\', 'r']
    } else if c == '\t' {
        seq!['\\', 't']
    } else if (c as u32) < 0x20 {
        seq!['\\', 'u', '0', '0', hex_digit((c as u32) as int / 16), hex_digit((c as u32) as int % 16)]
    } else {
        seq![c]
    }
}

/// The characters of `s`, each escaped for a JSON string literal.
pub open spec fn escaped(s: Seq<char>) -> Seq<char>
    decreases s.len(),
{
    if s.len() == 0 {
        Seq::empty()
    } else {
        escaped(s.drop_last()) + escaped_char(s.last())
    }
}

/// `s` as a JSON string literal: escaped, between double quotes.
pub open spec fn quoted(s: Seq<char>) -> Seq<char> {
    seq!['"'] + escaped(s) + seq!['"']
}

/// Whether a character stands for itself inside a JSON string literal.
pub open spec fn is_plain(c: char) -> bool {
    c != '"' && c != '\\' && (c as u32) >= 0x20
}

/// Escaping changes nothing in a string of plain characters.
pub proof fn lemma_escaped_plain(s: Seq<char>)
    requires
        forall|i: int| 0 <= i < s.len() ==> is_plain(#[trigger] s[i]),
    ensures
        escaped(s) == s,
        quoted(s) == seq!['"'] + s + seq!['"'],
    decreases s.len(),
{
    if s.len() == 0 {
        assert(escaped(s) =~= s);
    } else {
        let front = s.drop_last();
        assert forall|i: int| 0 <= i < front.len() implies is_plain(#[trigger] front[i]) by {
            assert(front[i] == s[i]);
        }
        lemma_escaped_plain(front);
        assert(is_plain(s[s.len() - 1]));
        assert(escaped_char(s.last()) =~= seq![s.last()]);
        assert(escaped(s) =~= s);
    }
}

/// The pretty-printed form of a JSON text, two spaces per level, or `None`
/// where the text is not JSON.
pub uninterp spec fn pretty_text(text: Seq<char>) -> Option<Seq<char>>;

/// Calls `serde_json::to_string` on a string slice. Trusted: the result is
/// the slice between double quotes, where `"` and `\` are preceded by a
/// backslash, backspace, form feed, line feed, carriage return and tab become
/// `\b`, `\f`, `\n`, `\r`, `\t`, any other character below U+0020 becomes
/// `\u00` and two lower-case hexadecimal digits, and every other character
/// is kept. Serialising a string slice into memory does not fail.
#[verifier::external_body]
pub(crate) fn quote(s: &str) -> (out: String)
    ensures
        out@ == quoted(s@),
{
    serde_json::to_string(s).unwrap_or_default()
}

/// Parses `text` with `serde_json::from_str` into a `serde_json::Value` and
/// prints it with `serde_json::to_string_pretty`. Trusted: the outcome
/// depends on the text alone; it is `None` where the text does not parse.
#[verifier::external_body]
pub(crate) fn prettify(text: &str) -> (out: Option<String>)
    ensures
        out matches Some(p) ==> pretty_text(text@) == Some(p@),
        out is None ==> pretty_text(text@) is None,
{
    match serde_json::from_str::<serde_json::Value>(text) {
        Ok(value) => serde_json::to_string_pretty(&value).ok(),
        Err(_) => None,
    }
}

/// What one character of a pretty-printed value becomes when the value is
/// placed one level deeper: a line break is followed by two more spaces.
pub open spec fn nested_char(c: char) -> Seq<char> {
    if c == '\n' {
        seq!['\n', ' ', ' ']
    } else {
        seq![c]
    }
}

/// A pretty-printed value moved one level deeper.
pub open spec fn nested(text: Seq<char>) -> Seq<char>
    decreases text.len(),
{
    if text.len() == 0 {
        Seq::empty()
    } else {
        nested(text.drop_last()) + nested_char(text.last())
    }
}

/// Appends `text` to `out`, moved one level deeper.
pub fn append_nested(out: &mut String, text: &str)
    ensures
        final(out)@ == old(out)@ + nested(text@),
{
    let ghost start = out@;
    for c in it: text.chars()
        invariant
            it.seq() == text@,
            out@ == start + nested(text@.take(it.index() as int)),
    {
        proof {
            let i = it.index() as int;
            assert(text@.take(i + 1).drop_last() =~= text@.take(i));
        }
        if c == '\n' {
            push_char(out, '\n');
            push_char(out, ' ');
            push_char(out, ' ');
        } else {
            push_char(out, c);
        }
    }
    proof {
        assert(text@.take(text@.len() as int) =~= text@);
    }
}

} // verus!
