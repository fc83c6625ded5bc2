//! The serialized value that a record carries.

use crate::json::{append_nested, nested, prettify, pretty_text, quote, quoted};
use vstd::prelude::*;

verus! {

/// A value in its wire form.
#[derive(Debug, PartialEq, Eq)]
pub enum Payload {
    /// A bare string, held unquoted.
    Text(String),
    /// Any other value, held as compact JSON text.
    Structured(String),
}

/// What a [`Payload`] holds.
pub enum PayloadView {
    Text(Seq<char>),
    Structured(Seq<char>),
}

impl View for Payload {
    type V = PayloadView;

    open spec fn view(&self) -> PayloadView {
        match self {
            Payload::Text(s) => PayloadView::Text(s@),
            Payload::Structured(json) => PayloadView::Structured(json@),
        }
    }
}

impl Clone for Payload {
    fn clone(&self) -> (copy: Self)
        ensures
            copy@ == self@,
    {
        match self {
            Payload::Text(s) => Payload::Text(s.clone()),
            Payload::Structured(json) => Payload::Structured(json.clone()),
        }
    }
}

impl PayloadView {
    /// The value on one line.
    pub open spec fn compact(self) -> Seq<char> {
        match self {
            PayloadView::Text(s) => quoted(s),
            PayloadView::Structured(json) => json,
        }
    }

    /// The value as the member of a pretty-printed object: over several
    /// lines, one level deep. A structured value that is not JSON text is
    /// kept as it is.
    pub open spec fn pretty(self) -> Seq<char> {
        match self {
            PayloadView::Text(s) => quoted(s),
            PayloadView::Structured(json) => match pretty_text(json) {
                Some(p) => nested(p),
                None => json,
            },
        }
    }

    /// The value in the compact or the pretty layout.
    pub open spec fn rendered(self, pretty: bool) -> Seq<char> {
        if pretty {
            self.pretty()
        } else {
            self.compact()
        }
    }
}

impl Payload {
    /// Whether the value is a bare string.
    pub fn is_text(&self) -> (b: bool)
        ensures
            b == (self@ is Text),
    {
        match self {
            Payload::Text(_) => true,
            Payload::Structured(_) => false,
        }
    }

    /// Appends the value to `out` in the compact or the pretty layout.
    pub fn append_to(&self, out: &mut String, pretty: bool)
        ensures
            final(out)@ == old(out)@ + self@.rendered(pretty),
    {
        match self {
            Payload::Text(s) => {
                let literal = quote(s.as_str());
                out.append(literal.as_str());
            },
            Payload::Structured(json) => {
                if pretty {
                    match prettify(json.as_str()) {
                        Some(p) => append_nested(out, p.as_str()),
                        None => out.append(json.as_str()),
                    }
                } else {
                    out.append(json.as_str());
                }
            },
        }
    }
}

/// A named member of the object that a line holds.
pub struct FieldView {
    pub key: Seq<char>,
    pub value: PayloadView,
}

/// What stands between two members of an object.
pub open spec fn member_separator(pretty: bool) -> Seq<char> {
    if pretty {
        ",\n  "@
    } else {
        ","@
    }
}

/// What stands between a member's name and its value.
pub open spec fn name_separator(pretty: bool) -> Seq<char> {
    if pretty {
        ": "@
    } else {
        ":"@
    }
}

/// A member that follows another one: separator, quoted name, value.
pub open spec fn member_text(key: Seq<char>, value: Seq<char>, pretty: bool) -> Seq<char> {
    member_separator(pretty) + quoted(key) + name_separator(pretty) + value
}

/// Appends the separator and the quoted name of a member to `out`; its value
/// is to follow.
pub fn append_member_name(out: &mut String, key: &str, pretty: bool)
    ensures
        final(out)@ == old(out)@ + member_text(key@, Seq::empty(), pretty),
{
    if pretty {
        out.append(",\n  ");
    } else {
        out.append(",");
    }
    let name = quote(key);
    out.append(name.as_str());
    if pretty {
        out.append(": ");
    } else {
        out.append(":");
    }
}

/// Appends a member that holds `value` to `out`.
pub fn append_member(out: &mut String, key: &str, value: &Payload, pretty: bool)
    ensures
        final(out)@ == old(out)@ + member_text(key@, value@.rendered(pretty), pretty),
{
    append_member_name(out, key, pretty);
    value.append_to(out, pretty);
}

} // verus!
