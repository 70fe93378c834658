//! JSON text, read and written by the serde_json crate.

use vstd::prelude::*;
use crate::json::{
    items_view, lemma_members_map_last, members_map, members_view, Json, JsonValue,
};

verus! {

/// `serde_json::Value`, the JSON document of the serde_json crate. The
/// library reads and writes text through it and keeps none.
#[verifier::external_type_specification]
#[verifier::external_body]
pub struct ExValue(serde_json::Value);

/// The document that a `serde_json::Value` holds.
pub uninterp spec fn value_model(value: serde_json::Value) -> JsonValue;

/// What `serde_json::from_str` makes of a text: the document it reads, or the
/// message with which it refuses the text.
pub uninterp spec fn parsed_json(text: Seq<char>) -> Result<JsonValue, Seq<char>>;

/// What `serde_json::to_string` makes of a document: its compact text, or the
/// message with which it refuses the document.
pub uninterp spec fn json_text(document: JsonValue) -> Result<Seq<char>, Seq<char>>;

/// The view of a text that was written, or of the message that came in its
/// place.
pub open spec fn rendered_view(rendered: Result<String, String>) -> Result<Seq<char>, Seq<char>> {
    match rendered {
        Ok(text) => Ok(text@),
        Err(message) => Err(message@),
    }
}

/// The topmost level of a `serde_json::Value`: which kind of document it is,
/// with the documents below it still in the outside crate's form.
pub enum Node {
    Null,
    Bool(bool),
    Number(serde_json::Number),
    Text(String),
    Array(Vec<serde_json::Value>),
    Object(Vec<(String, serde_json::Value)>),
}

/// The documents that a list of values holds.
pub open spec fn values_model(values: Seq<serde_json::Value>) -> Seq<JsonValue> {
    Seq::new(values.len(), |i: int| value_model(values[i]))
}

/// The keys of a list of entries, each with the document that its value
/// holds.
pub open spec fn entries_model(entries: Seq<(String, serde_json::Value)>) -> Seq<
    (Seq<char>, JsonValue),
> {
    Seq::new(entries.len(), |i: int| (entries[i].0@, value_model(entries[i].1)))
}

/// No two of the entries have the same key.
pub open spec fn distinct_keys(entries: Seq<(String, serde_json::Value)>) -> bool {
    forall|i: int, j: int|
        0 <= i < entries.len() && 0 <= j < entries.len() && i != j ==> (#[trigger] entries[i]).0@
            != (#[trigger] entries[j]).0@
}

/// The document that a node stands for.
pub open spec fn node_model(node: Node) -> JsonValue {
    match node {
        Node::Null => JsonValue::Null,
        Node::Bool(flag) => JsonValue::Bool(flag),
        Node::Number(number) => JsonValue::Number(number),
        Node::Text(text) => JsonValue::Text(text@),
        Node::Array(values) => JsonValue::Array(values_model(values@)),
        Node::Object(entries) => JsonValue::Object(members_map(entries_model(entries@))),
    }
}

/// Calls `serde_json::from_str` for a `serde_json::Value`. The value that
/// comes back holds the document that `parsed_json` names for the text; a
/// refusal comes back as the text of the error, which `parsed_json` names too.
#[verifier::external_body]
fn parse_value(text: &str) -> (parsed: Result<serde_json::Value, String>)
    ensures
        match parsed {
            Ok(value) => parsed_json(text@) == Ok::<JsonValue, Seq<char>>(value_model(value)),
            Err(message) => parsed_json(text@) == Err::<JsonValue, Seq<char>>(message@),
        },
{
    match serde_json::from_str::<serde_json::Value>(text) {
        Ok(value) => Ok(value),
        Err(error) => Err(error.to_string()),
    }
}

/// Takes the variant of a `serde_json::Value` apart. The node stands for the
/// document that the value holds: a scalar for itself, an array for the
/// documents of its items, an object for the documents of its entries under
/// their keys. The entries of an object come out of a `serde_json::Map`, so
/// no key comes twice.
#[verifier::external_body]
fn open_value(value: serde_json::Value) -> (node: Node)
    ensures
        node_model(node) == value_model(value),
        node matches Node::Object(entries) ==> distinct_keys(entries@),
{
    match value {
        serde_json::Value::Null => Node::Null,
        serde_json::Value::Bool(flag) => Node::Bool(flag),
        serde_json::Value::Number(number) => Node::Number(number),
        serde_json::Value::String(text) => Node::Text(text),
        serde_json::Value::Array(values) => Node::Array(values),
        serde_json::Value::Object(map) => Node::Object(map.into_iter().collect()),
    }
}

/// Makes the `serde_json::Value` of a node, variant for variant. The entries
/// of an object go into a `serde_json::Map` one after the other with
/// `serde_json::Map::insert`, which replaces the value of a key that is
/// there: so a later entry replaces an earlier one of the same key, as in the
/// node's document.
#[verifier::external_body]
fn close_node(node: Node) -> (value: serde_json::Value)
    ensures
        value_model(value) == node_model(node),
{
    match node {
        Node::Null => serde_json::Value::Null,
        Node::Bool(flag) => serde_json::Value::Bool(flag),
        Node::Number(number) => serde_json::Value::Number(number),
        Node::Text(text) => serde_json::Value::String(text),
        Node::Array(values) => serde_json::Value::Array(values),
        Node::Object(entries) => {
            let mut map = serde_json::Map::new();
            for (key, value) in entries {
                map.insert(key, value);
            }
            serde_json::Value::Object(map)
        },
    }
}

/// Calls `serde_json::to_string` on a `serde_json::Value`. The text that comes
/// back is the one that `json_text` names for the document in the value; where
/// the call fails, the error's text comes back, which `json_text` names too.
#[verifier::external_body]
fn render_value(value: &serde_json::Value) -> (rendered: Result<String, String>)
    ensures
        rendered_view(rendered) == json_text(value_model(*value)),
{
    match serde_json::to_string(value) {
        Ok(text) => Ok(text),
        Err(error) => Err(error.to_string()),
    }
}

/// The map of a list of members has finitely many keys.
pub proof fn lemma_members_map_finite(members: Seq<(Seq<char>, JsonValue)>)
    ensures
        members_map(members).dom().finite(),
    decreases members.len(),
{
    if members.len() > 0 {
        lemma_members_map_finite(members.drop_last());
    }
}

/// The document of a value, in the library's own form.
fn json_from_value(value: serde_json::Value) -> (json: Json)
    ensures
        json@ == value_model(value),
    decreases value_model(value),
{
    let ghost model = value_model(value);
    match open_value(value) {
        Node::Null => Json::Null,
        Node::Bool(flag) => Json::Bool(flag),
        Node::Number(number) => Json::Number(number),
        Node::Text(text) => Json::Text(text),
        Node::Array(values) => {
            let ghost original = values@;
            let mut values = values;
            let mut reversed: Vec<Json> = Vec::new();
            while values.len() > 0
                invariant
                    model == value_model(value),
                    model == JsonValue::Array(values_model(original)),
                    values@.len() + reversed@.len() == original.len(),
                    values@ =~= original.take(values@.len() as int),
                    forall|j: int|
                        0 <= j < reversed@.len() ==> (#[trigger] reversed@[j])@ == value_model(
                            original[original.len() - 1 - j],
                        ),
                decreases values.len(),
            {
                let ghost at = values@.len() - 1;
                let item = values.pop().unwrap();
                proof {
                    assert(item == original[at]);
                    assert(values_model(original)[at] == value_model(item));
                    assert(decreases_to!(model->Array_0 => model->Array_0[at]));
                }
                let converted = json_from_value(item);
                reversed.push(converted);
            }
            let mut items: Vec<Json> = Vec::new();
            let ghost backwards = reversed@;
            while reversed.len() > 0
                invariant
                    backwards.len() == original.len(),
                    reversed@ =~= backwards.take(reversed@.len() as int),
                    items@.len() + reversed@.len() == original.len(),
                    forall|j: int|
                        0 <= j < backwards.len() ==> (#[trigger] backwards[j])@ == value_model(
                            original[original.len() - 1 - j],
                        ),
                    forall|j: int|
                        0 <= j < items@.len() ==> (#[trigger] items@[j])@ == value_model(
                            original[j],
                        ),
                decreases reversed.len(),
            {
                let ghost at = reversed@.len() - 1;
                let item = reversed.pop().unwrap();
                proof {
                    assert(item == backwards[at]);
                }
                items.push(item);
            }
            proof {
                assert(items_view(items) =~= values_model(original));
            }
            Json::Array(items)
        },
        Node::Object(entries) => {
            let ghost original = entries@;
            let ghost viewed = entries_model(original);
            let mut entries = entries;
            let mut reversed: Vec<(String, Json)> = Vec::new();
            proof {
                lemma_members_map_finite(viewed);
            }
            while entries.len() > 0
                invariant
                    model == value_model(value),
                    viewed == entries_model(original),
                    model == JsonValue::Object(members_map(viewed)),
                    members_map(viewed).dom().finite(),
                    distinct_keys(original),
                    entries@.len() + reversed@.len() == original.len(),
                    entries@ =~= original.take(entries@.len() as int),
                    forall|j: int|
                        0 <= j < reversed@.len() ==> (#[trigger] reversed@[j]).0@
                            == original[original.len() - 1 - j].0@ && reversed@[j].1@
                            == value_model(original[original.len() - 1 - j].1),
                decreases entries.len(),
            {
                let ghost at = entries@.len() - 1;
                let entry = entries.pop().unwrap();
                proof {
                    assert(entry == original[at]);
                    assert(viewed[at] == (entry.0@, value_model(entry.1)));
                    assert forall|j: int| at < j < viewed.len() implies (#[trigger] viewed[j]).0
                        != viewed[at].0 by {
                        assert(original[j].0@ != original[at].0@);
                    }
                    lemma_members_map_last(viewed, at);
                    assert(decreases_to!(model->Object_0 => model->Object_0[entry.0@]));
                }
                let converted = json_from_value(entry.1);
                reversed.push((entry.0, converted));
            }
            let mut members: Vec<(String, Json)> = Vec::new();
            let ghost backwards = reversed@;
            while reversed.len() > 0
                invariant
                    backwards.len() == original.len(),
                    reversed@ =~= backwards.take(reversed@.len() as int),
                    members@.len() + reversed@.len() == original.len(),
                    forall|j: int|
                        0 <= j < backwards.len() ==> (#[trigger] backwards[j]).0@
                            == original[original.len() - 1 - j].0@ && backwards[j].1@
                            == value_model(original[original.len() - 1 - j].1),
                    forall|j: int|
                        0 <= j < members@.len() ==> (#[trigger] members@[j]).0@ == original[j].0@
                            && members@[j].1@ == value_model(original[j].1),
                decreases reversed.len(),
            {
                let ghost at = reversed@.len() - 1;
                let member = reversed.pop().unwrap();
                proof {
                    assert(member == backwards[at]);
                }
                members.push(member);
            }
            proof {
                assert(members_view(members) =~= entries_model(original));
            }
            Json::Object(members)
        },
    }
}

/// The value of a document, in the outside crate's form.
fn value_from_json(json: &Json) -> (value: serde_json::Value)
    ensures
        value_model(value) == json@,
    decreases json,
{
    match json {
        Json::Null => close_node(Node::Null),
        Json::Bool(flag) => close_node(Node::Bool(*flag)),
        Json::Number(number) => close_node(Node::Number(number.clone())),
        Json::Text(text) => close_node(Node::Text(text.clone())),
        Json::Array(items) => {
            let mut values: Vec<serde_json::Value> = Vec::new();
            let mut i: usize = 0;
            while i < items.len()
                invariant
                    *json == Json::Array(*items),
                    i <= items.len(),
                    values@.len() == i,
                    forall|j: int| 0 <= j < i ==> value_model(#[trigger] values@[j]) == items@[j]@,
                decreases items.len() - i,
            {
                assert(json->Array_0 == *items);
                assert(decreases_to!(*items => items[i as int]));
                values.push(value_from_json(&items[i]));
                i = i + 1;
            }
            proof {
                assert(values_model(values@) =~= items_view(*items));
            }
            close_node(Node::Array(values))
        },
        Json::Object(members) => {
            let mut entries: Vec<(String, serde_json::Value)> = Vec::new();
            let mut i: usize = 0;
            while i < members.len()
                invariant
                    *json == Json::Object(*members),
                    i <= members.len(),
                    entries@.len() == i,
                    forall|j: int|
                        0 <= j < i ==> (#[trigger] entries@[j]).0@ == members@[j].0@
                            && value_model(entries@[j].1) == members@[j].1@,
                decreases members.len() - i,
            {
                assert(json->Object_0 == *members);
                assert(decreases_to!(*members => members[i as int]));
                entries.push((members[i].0.clone(), value_from_json(&members[i].1)));
                i = i + 1;
            }
            proof {
                assert(entries_model(entries@) =~= members_view(*members));
            }
            close_node(Node::Object(entries))
        },
    }
}

/// The view of what reading a text gave.
pub open spec fn parsed_view(parsed: Result<Json, String>) -> Result<JsonValue, Seq<char>> {
    match parsed {
        Ok(json) => Ok(json@),
        Err(message) => Err(message@),
    }
}

impl Json {
    /// Reads a JSON text.
    pub fn parse(text: &str) -> (parsed: Result<Json, String>)
        ensures
            parsed_view(parsed) == parsed_json(text@),
    {
        match parse_value(text) {
            Ok(value) => Ok(json_from_value(value)),
            Err(message) => Err(message),
        }
    }

    /// Writes the document as compact JSON text.
    pub fn render(&self) -> (rendered: Result<String, String>)
        ensures
            rendered_view(rendered) == json_text(self@),
    {
        let value = value_from_json(self);
        render_value(&value)
    }
}

} // verus!
