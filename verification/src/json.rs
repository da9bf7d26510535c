//! Reading values out of JSON text and writing JSON messages.
//!
//! Parsing and string quoting are serde_json's; the library decides which
//! values it reads and how its messages are shaped.

use serde_json::Value;
use vstd::prelude::*;
use vstd::string::StringExecFns;

use crate::text::{join_strings, joined, views_of};

verus! {

/// What a JSON document holds at some place.
#[derive(Debug, Clone, PartialEq, Eq)]
pub enum JsonItem {
    /// Nothing is there.
    Absent,
    Null,
    Bool(bool),
    /// A number that fits an `i64`.
    Integer(i64),
    /// Any other number.
    Number,
    Text(String),
    /// An array of the given length.
    Array(usize),
    Object,
}

pub enum JsonItemView {
    Absent,
    Null,
    Bool(bool),
    Integer(int),
    Number,
    Text(Seq<char>),
    Array(nat),
    Object,
}

impl View for JsonItem {
    type V = JsonItemView;

    open spec fn view(&self) -> JsonItemView {
        match self {
            JsonItem::Absent => JsonItemView::Absent,
            JsonItem::Null => JsonItemView::Null,
            JsonItem::Bool(b) => JsonItemView::Bool(*b),
            JsonItem::Integer(i) => JsonItemView::Integer(*i as int),
            JsonItem::Number => JsonItemView::Number,
            JsonItem::Text(s) => JsonItemView::Text(s@),
            JsonItem::Array(n) => JsonItemView::Array(*n as nat),
            JsonItem::Object => JsonItemView::Object,
        }
    }
}

/// What `serde_json` finds in the JSON `text` at the JSON Pointer `pointer`,
/// or the message of its parse error when `text` is not JSON.
pub uninterp spec fn json_lookup(text: Seq<char>, pointer: Seq<char>) -> Result<JsonItemView, Seq<char>>;

/// Parses `text` with `serde_json::from_str` into a `serde_json::Value` and
/// looks `pointer` up with `Value::pointer`; a parse error comes back as its
/// `Display` text. The result is `json_lookup` of the two arguments.
#[verifier::external_body]
pub(crate) fn json_at(text: &str, pointer: &str) -> (item: Result<JsonItem, String>)
    ensures
        match item {
            Ok(found) => json_lookup(text@, pointer@) == Ok::<JsonItemView, Seq<char>>(found@),
            Err(message) => json_lookup(text@, pointer@) == Err::<JsonItemView, Seq<char>>(
                message@,
            ),
        },
{
    let value: Value = serde_json::from_str(text).map_err(|e: serde_json::Error| e.to_string())?;
    Ok(match value.pointer(pointer) {
        None => JsonItem::Absent,
        Some(Value::Null) => JsonItem::Null,
        Some(Value::Bool(b)) => JsonItem::Bool(*b),
        Some(Value::Number(n)) => n.as_i64().map_or(JsonItem::Number, JsonItem::Integer),
        Some(Value::String(s)) => JsonItem::Text(s.clone()),
        Some(Value::Array(items)) => JsonItem::Array(items.len()),
        Some(Value::Object(_)) => JsonItem::Object,
    })
}

/// The string found at `pointer`, if the text is JSON and holds one there.
pub open spec fn text_lookup(text: Seq<char>, pointer: Seq<char>) -> Option<Seq<char>> {
    match json_lookup(text, pointer) {
        Ok(JsonItemView::Text(s)) => Some(s),
        _ => None,
    }
}

/// The string at `pointer`, if there is one.
pub(crate) fn text_at(text: &str, pointer: &str) -> (found: Option<String>)
    ensures
        match found {
            Some(s) => text_lookup(text@, pointer@) == Some(s@),
            None => text_lookup(text@, pointer@) is None,
        },
{
    match json_at(text, pointer) {
        Ok(JsonItem::Text(s)) => Some(s),
        _ => None,
    }
}

/// A hexadecimal digit, in lower case.
pub open spec fn hex_digit(n: int) -> char {
    if n < 10 {
        (('0' as int) + n) as char
    } else {
        (('a' as int) + n - 10) as char
    }
}

/// How a character is written inside a JSON string.
pub open spec fn json_escape(c: char) -> Seq<char> {
    if c == '"' {
        seq!['\\', '"']
    } else if c == '\\' {
        seq!['\\', '\\']
    } else if c == '\u{8}' {
        seq!['\\', 'b']
    } else if c == '\t' {
        seq!['\\', 't']
    } else if c == '\n' {
        seq!['\\', 'n']
    } else if c == '\u{c}' {
        seq!['\\', 'f']
    } else if c == '\r' {
        seq!['\\', 'r']
    } else if (c as u32) < 0x20 {
        seq!['\\', 'u', '0', '0', hex_digit((c as int) / 16), hex_digit((c as int) % 16)]
    } else {
        seq![c]
    }
}

pub open spec fn json_escaped(s: Seq<char>) -> Seq<char>
    decreases s.len(),
{
    if s.len() == 0 {
        Seq::empty()
    } else {
        json_escaped(s.drop_last()) + json_escape(s.last())
    }
}

/// `s` as a JSON string literal.
pub open spec fn json_string(s: Seq<char>) -> Seq<char> {
    seq!['"'] + json_escaped(s) + seq!['"']
}

/// Writes `s` as a JSON string with `serde_json::to_string`, which quotes it
/// and escapes `"`, `\` and the control characters below U+0020 (the short
/// forms `\b \t \n \f \r` where they exist, `\u00xx` otherwise) and nothing
/// else. Serialising a `str` into memory does not fail.
#[verifier::external_body]
pub(crate) fn quote_json(s: &str) -> (quoted: String)
    ensures
        quoted@ == json_string(s@),
{
    match serde_json::to_string(s) {
        Ok(quoted) => quoted,
        Err(_) => String::new(),
    }
}

/// A JSON object with the given members, each a key and the JSON text of its value.
pub open spec fn json_object(members: Seq<(Seq<char>, Seq<char>)>) -> Seq<char> {
    seq!['{'] + joined(
        members.map_values(|m: (Seq<char>, Seq<char>)| json_string(m.0) + seq![':'] + m.1),
        seq![','],
    ) + seq!['}']
}

/// A JSON array of the given JSON texts.
pub open spec fn json_array(items: Seq<Seq<char>>) -> Seq<char> {
    seq!['['] + joined(items, seq![',']) + seq![']']
}

pub open spec fn members_view(members: Seq<(&str, String)>) -> Seq<(Seq<char>, Seq<char>)> {
    members.map_values(|m: (&str, String)| (m.0@, m.1@))
}

/// Writes a JSON object from its members, in the order given.
pub fn object_text(members: &Vec<(&str, String)>) -> (text: String)
    ensures
        text@ == json_object(members_view(members@)),
{
    let mut parts: Vec<String> = Vec::new();
    let mut i: usize = 0;
    while i < members.len()
        invariant
            i <= members.len(),
            parts@.len() == i,
            forall|j: int|
                0 <= j < i ==> (#[trigger] parts@[j])@ == json_string(members@[j].0@) + seq![
                    ':',
                ] + members@[j].1@,
        decreases members.len() - i,
    {
        let mut part = quote_json(members[i].0);
        proof {
            reveal_strlit(":");
        }
        part.append(":");
        part.append(members[i].1.as_str());
        parts.push(part);
        i = i + 1;
    }
    proof {
        let expected = members_view(members@).map_values(
            |m: (Seq<char>, Seq<char>)| json_string(m.0) + seq![':'] + m.1,
        );
        assert(views_of(parts@) == expected);
        reveal_strlit("{");
        reveal_strlit("}");
        reveal_strlit(",");
    }
    let inner = join_strings(&parts, ",");
    let mut text = "{".to_owned();
    assert(text@ =~= seq!['{']);
    text.append(inner.as_str());
    text.append("}");
    assert(text@ =~= seq!['{'] + inner@ + seq!['}']);
    assert(","@ =~= seq![',']);
    text
}

/// Writes a JSON array from the JSON texts of its items.
pub fn array_text(items: &Vec<String>) -> (text: String)
    ensures
        text@ == json_array(views_of(items@)),
{
    proof {
        reveal_strlit("[");
        reveal_strlit("]");
        reveal_strlit(",");
    }
    let inner = join_strings(items, ",");
    let mut text = "[".to_owned();
    assert(text@ =~= seq!['[']);
    text.append(inner.as_str());
    text.append("]");
    assert(text@ =~= seq!['['] + inner@ + seq![']']);
    assert(","@ =~= seq![',']);
    text
}

/// The JSON text of a string.
pub fn string_value(s: &str) -> (text: String)
    ensures
        text@ == json_string(s@),
{
    quote_json(s)
}

} // verus!
