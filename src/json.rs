//! Reading translation tables out of JSON text, through serde_json.
use vstd::prelude::*;
use crate::locale::{lookup, TableNode};

verus! {

#[verifier::external_type_specification]
#[verifier::external_body]
pub struct ExJsonValue(serde_json::Value);

/// The strings of the JSON document `text` as serde_json reads it, or
/// `None` when serde_json refuses the text. Each path of member names that
/// leads from the top through objects to a string is mapped to that string.
pub uninterp spec fn json_strings(text: Seq<char>) -> Option<Map<Seq<Seq<char>>, Seq<char>>>;

/// The string at `path` in the JSON document `text`, if it is JSON and the
/// path leads through objects to a string.
pub open spec fn json_string_at(text: Seq<char>, path: Seq<Seq<char>>) -> Option<Seq<char>> {
    match json_strings(text) {
        Some(m) => if m.contains_key(path) {
            Some(m[path])
        } else {
            None
        },
        None => None,
    }
}

/// Relies on the variants of `serde_json::Value` and on
/// `serde_json::Map::into_iter`: strings become text, objects become
/// branches holding each member once, anything else is inert.
#[verifier::external_body]
fn value_to_table(v: serde_json::Value) -> TableNode {
    match v {
        serde_json::Value::String(s) => TableNode::Text(s),
        serde_json::Value::Object(m) => TableNode::Branch(
            m.into_iter().map(|(name, child)| (name, value_to_table(child))).collect(),
        ),
        serde_json::Value::Null => TableNode::Other,
        serde_json::Value::Bool(_) => TableNode::Other,
        serde_json::Value::Number(_) => TableNode::Other,
        serde_json::Value::Array(_) => TableNode::Other,
    }
}

/// Relies on `serde_json::from_str::<serde_json::Value>`: it parses `text`
/// as one JSON document, and what it reads depends on the text alone. The
/// table is that document converted by `value_to_table`, so following a
/// path in it reaches exactly the document's string at that path.
#[verifier::external_body]
fn parse_table(text: &str) -> (r: Option<TableNode>)
    ensures
        r is Some == json_strings(text@) is Some,
        r matches Some(t) ==> forall|p: Seq<Seq<char>>| #[trigger] lookup(t, p) == json_string_at(text@, p),
{
    serde_json::from_str::<serde_json::Value>(text).ok().map(value_to_table)
}

/// Parses a translation table from JSON text; `None` when the text is not
/// JSON. Every path leads in the table to the string it leads to in the
/// document.
pub fn table_from_json(text: &str) -> (r: Option<TableNode>)
    ensures
        r is Some == json_strings(text@) is Some,
        r matches Some(t) ==> forall|p: Seq<Seq<char>>| #[trigger] lookup(t, p) == json_string_at(text@, p),
{
    parse_table(text)
}

} // verus!
