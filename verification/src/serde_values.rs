//! JSON text, read and written by `serde_json`.
use vstd::prelude::*;

use crate::json;
use crate::json::{Json, JsonNumber, JsonNumberView, JsonView};

verus! {

/// `serde_json::Value`, a JSON value of `serde_json`.
#[verifier::external_type_specification]
#[verifier::external_body]
pub struct ExValue(serde_json::Value);

/// What a `serde_json::Value` holds: numbers as `serde_json` writes them, the
/// members of an object in the order in which its map gives them.
pub uninterp spec fn value_tree(value: serde_json::Value) -> JsonView;

/// The value that `serde_json::from_str` reads from a text; nothing where it
/// fails.
pub uninterp spec fn parsed_json(text: Seq<char>) -> Option<JsonView>;

/// The text that `serde_json::to_string` writes for the object with these
/// members, whose values are strings; nothing where it fails.
pub uninterp spec fn written_members(members: Seq<(Seq<char>, Seq<char>)>) -> Option<Seq<char>>;

/// One level of a `serde_json::Value`.
enum JsonNode {
    Null,
    Bool(bool),
    Number(String),
    Text(String),
    Array(Vec<serde_json::Value>),
    Object(Vec<(String, serde_json::Value)>),
}

/// The values that a list of `serde_json` values holds.
pub open spec fn value_trees(items: Seq<serde_json::Value>) -> Seq<JsonView> {
    Seq::new(items.len(), |i: int| value_tree(items[i]))
}

/// The members that a list of named `serde_json` values holds.
pub open spec fn member_trees(members: Seq<(String, serde_json::Value)>) -> Seq<(Seq<char>, JsonView)> {
    Seq::new(members.len(), |i: int| (members[i].0@, value_tree(members[i].1)))
}

/// What a level holds together with the levels below it.
spec fn node_tree(node: JsonNode) -> JsonView {
    match node {
        JsonNode::Null => JsonView::Null,
        JsonNode::Bool(b) => JsonView::Bool(b),
        JsonNode::Number(digits) => JsonView::Number(JsonNumberView::Literal(digits@)),
        JsonNode::Text(s) => JsonView::Text(s@),
        JsonNode::Array(items) => JsonView::Array(value_trees(items@)),
        JsonNode::Object(members) => JsonView::Object(member_trees(members@)),
    }
}

/// Tells the variants of `serde_json::Value` apart and hands out what the
/// variant has: a number by its `Display` text, an object by the entries of
/// its map.
#[verifier::external_body]
fn open_value(value: serde_json::Value) -> (node: JsonNode)
    ensures
        node_tree(node) == value_tree(value),
{
    match value {
        serde_json::Value::Null => JsonNode::Null,
        serde_json::Value::Bool(b) => JsonNode::Bool(b),
        serde_json::Value::Number(n) => JsonNode::Number(n.to_string()),
        serde_json::Value::String(s) => JsonNode::Text(s),
        serde_json::Value::Array(items) => JsonNode::Array(items),
        serde_json::Value::Object(map) => JsonNode::Object(map.into_iter().collect()),
    }
}

/// `serde_json::from_str`: the JSON value that the whole text denotes.
#[verifier::external_body]
fn value_from_str(text: &str) -> (r: Option<serde_json::Value>)
    ensures
        match r {
            Some(value) => parsed_json(text@) == Some(value_tree(value)),
            None => parsed_json(text@) is None,
        },
{
    serde_json::from_str::<serde_json::Value>(text).ok()
}

/// The characters of pairs of strings.
pub open spec fn pair_views(pairs: Seq<(String, String)>) -> Seq<(Seq<char>, Seq<char>)> {
    Seq::new(pairs.len(), |i: int| (pairs[i].0@, pairs[i].1@))
}

/// `serde_json::to_string` of the object with these members, each a string.
#[verifier::external_body]
pub(crate) fn write_members(members: Vec<(String, String)>) -> (r: Option<String>)
    ensures
        match r {
            Some(text) => written_members(pair_views(members@)) == Some(text@),
            None => written_members(pair_views(members@)) is None,
        },
{
    let map: serde_json::Map<String, serde_json::Value> =
        members.into_iter().map(|(name, value)| (name, serde_json::Value::String(value))).collect();
    serde_json::to_string(&serde_json::Value::Object(map)).ok()
}

/// Copies a `serde_json::Value` into a [`Json`].
pub fn json_from_value(value: serde_json::Value) -> (r: Json)
    ensures
        r@ == value_tree(value),
    decreases value_tree(value),
{
    broadcast use {json::lemma_array_view, json::lemma_object_view};

    let ghost tree = value_tree(value);
    match open_value(value) {
        JsonNode::Null => Json::Null,
        JsonNode::Bool(b) => Json::Bool(b),
        JsonNode::Number(digits) => Json::Number(JsonNumber::Literal(digits)),
        JsonNode::Text(s) => Json::Text(s),
        JsonNode::Array(items) => {
            let mut out: Vec<Json> = Vec::new();
            let ghost all = items@;
            for item in it: items
                invariant
                    it.seq() == all,
                    tree == value_tree(value),
                    tree == JsonView::Array(value_trees(all)),
                    out@.len() == it.index(),
                    forall|k: int| 0 <= k < out@.len() ==> (#[trigger] out@[k])@ == value_tree(all[k]),
            {
                proof {
                    assert(decreases_to!(tree => tree->Array_0[out@.len() as int]));
                }
                out.push(json_from_value(item));
            }
            proof {
                assert(json::views(out@) =~= value_trees(all));
            }
            Json::Array(out)
        },
        JsonNode::Object(members) => {
            let mut out: Vec<(String, Json)> = Vec::new();
            let ghost all = members@;
            for entry in it: members
                invariant
                    it.seq() == all,
                    tree == value_tree(value),
                    tree == JsonView::Object(member_trees(all)),
                    out@.len() == it.index(),
                    forall|k: int|
                        0 <= k < out@.len() ==> (#[trigger] out@[k]).0@ == all[k].0@ && out@[k].1@ == value_tree(
                            all[k].1,
                        ),
            {
                proof {
                    assert(decreases_to!(tree => tree->Object_0[out@.len() as int].1));
                }
                let (name, value) = entry;
                out.push((name, json_from_value(value)));
            }
            proof {
                assert(json::member_views(out@) =~= member_trees(all));
            }
            Json::Object(out)
        },
    }
}

/// Reads a JSON text.
pub fn parse_json(text: &str) -> (r: Option<Json>)
    ensures
        match r {
            Some(value) => parsed_json(text@) == Some(value@),
            None => parsed_json(text@) is None,
        },
{
    match value_from_str(text) {
        Some(value) => Some(json_from_value(value)),
        None => None,
    }
}

} // verus!
