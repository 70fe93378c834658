//! JSON documents: the library's own type for them, its mathematical view,
//! and the operations that read and build documents.

use vstd::prelude::*;
use crate::text::text_eq;

verus! {

/// `serde_json::Number`, a JSON number. The library carries such a number
/// through and never looks into it.
#[verifier::external_type_specification]
#[verifier::external_body]
pub struct ExNumber(serde_json::Number);

/// `Clone::clone` of `serde_json::Number`, which the crate derives: the copy
/// is the same number.
pub assume_specification[ <serde_json::Number as Clone>::clone ](number: &serde_json::Number) -> (copy:
    serde_json::Number)
    ensures
        copy == *number,
;

/// The mathematical value of a JSON document.
pub enum JsonValue {
    Null,
    Bool(bool),
    Number(serde_json::Number),
    Text(Seq<char>),
    Array(Seq<JsonValue>),
    Object(Map<Seq<char>, JsonValue>),
}

/// A JSON document as the library holds it.
#[derive(Debug, PartialEq)]
pub enum Json {
    Null,
    Bool(bool),
    Number(serde_json::Number),
    Text(String),
    Array(Vec<Json>),
    Object(Vec<(String, Json)>),
}

/// The map that a list of members stands for: a later member replaces an
/// earlier one of the same key.
pub open spec fn members_map(members: Seq<(Seq<char>, JsonValue)>) -> Map<Seq<char>, JsonValue>
    decreases members.len(),
{
    if members.len() == 0 {
        Map::empty()
    } else {
        members_map(members.drop_last()).insert(members.last().0, members.last().1)
    }
}

impl View for Json {
    type V = JsonValue;

    open spec fn view(&self) -> JsonValue
        decreases self,
    {
        match self {
            Json::Null => JsonValue::Null,
            Json::Bool(b) => JsonValue::Bool(*b),
            Json::Number(n) => JsonValue::Number(*n),
            Json::Text(s) => JsonValue::Text(s@),
            Json::Array(items) => JsonValue::Array(items_view(*items)),
            Json::Object(members) => JsonValue::Object(members_map(members_view(*members))),
        }
    }
}

/// The items of an array, each by its view.
pub open spec fn items_view(items: Vec<Json>) -> Seq<JsonValue>
    decreases items,
{
    Seq::new(items.len() as nat, |i: int| if 0 <= i < items.len() { items[i]@ } else { JsonValue::Null })
}

/// The members of an object, each by its view.
pub open spec fn members_view(members: Vec<(String, Json)>) -> Seq<(Seq<char>, JsonValue)>
    decreases members,
{
    Seq::new(
        members.len() as nat,
        |i: int|
            if 0 <= i < members.len() {
                (members[i].0@, members[i].1@)
            } else {
                (Seq::empty(), JsonValue::Null)
            },
    )
}

/// A key is in the map exactly when some member carries it.
pub proof fn lemma_members_map_keys(members: Seq<(Seq<char>, JsonValue)>, key: Seq<char>)
    ensures
        members_map(members).contains_key(key) <==> exists|i: int|
            0 <= i < members.len() && (#[trigger] members[i]).0 == key,
    decreases members.len(),
{
    if members.len() > 0 {
        let front = members.drop_last();
        lemma_members_map_keys(front, key);
        if members_map(members).contains_key(key) {
            if members.last().0 == key {
                assert(members[members.len() - 1].0 == key);
            } else {
                let i = choose|i: int| 0 <= i < front.len() && (#[trigger] front[i]).0 == key;
                assert(members[i].0 == key);
            }
        }
        if exists|i: int| 0 <= i < members.len() && (#[trigger] members[i]).0 == key {
            let i = choose|i: int| 0 <= i < members.len() && (#[trigger] members[i]).0 == key;
            if i < members.len() - 1 {
                assert(front[i].0 == key);
            }
        }
    }
}

/// The map gives a key the value of the last member that carries it.
pub proof fn lemma_members_map_last(members: Seq<(Seq<char>, JsonValue)>, at: int)
    requires
        0 <= at < members.len(),
        forall|j: int| at < j < members.len() ==> (#[trigger] members[j]).0 != members[at].0,
    ensures
        members_map(members).contains_key(members[at].0),
        members_map(members)[members[at].0] == members[at].1,
    decreases members.len(),
{
    if at < members.len() - 1 {
        let front = members.drop_last();
        assert(members[members.len() - 1].0 != members[at].0);
        assert forall|j: int| at < j < front.len() implies (#[trigger] front[j]).0 != front[at].0 by {
            assert(members[j].0 != members[at].0);
        }
        lemma_members_map_last(front, at);
    }
}

/// One member more at the end puts its value under its key.
pub proof fn lemma_members_push(members: Vec<(String, Json)>, longer: Vec<(String, Json)>)
    requires
        longer@.len() == members@.len() + 1,
        longer@.drop_last() =~= members@,
    ensures
        members_map(members_view(longer)) == members_map(members_view(members)).insert(
            longer@.last().0@,
            longer@.last().1@,
        ),
{
    assert(members_view(longer).drop_last() =~= members_view(members));
}

/// One item more at the end puts its view at the end.
pub proof fn lemma_items_push(items: Vec<Json>, longer: Vec<Json>)
    requires
        longer@.len() == items@.len() + 1,
        longer@.drop_last() =~= items@,
    ensures
        items_view(longer) == items_view(items).push(longer@.last()@),
{
    assert(items_view(longer) =~= items_view(items).push(longer@.last()@));
}

/// Vectors with the same items in the same places have the same views.
pub proof fn lemma_items_same(a: Vec<Json>, b: Vec<Json>)
    requires
        a@.len() == b@.len(),
        forall|i: int| 0 <= i < a@.len() ==> a@[i]@ == b@[i]@,
    ensures
        items_view(a) == items_view(b),
{
    assert(items_view(a) =~= items_view(b));
}

/// Member lists with the same keys and values in the same places have the
/// same views.
pub proof fn lemma_members_same(a: Vec<(String, Json)>, b: Vec<(String, Json)>)
    requires
        a@.len() == b@.len(),
        forall|i: int| 0 <= i < a@.len() ==> a@[i].0@ == b@[i].0@ && a@[i].1@ == b@[i].1@,
    ensures
        members_view(a) == members_view(b),
{
    assert(members_view(a) =~= members_view(b));
}

/// The text under `key` in an object; nothing where the document is no
/// object, lacks the key or holds something else than a string there.
pub open spec fn text_member(document: JsonValue, key: Seq<char>) -> Option<Seq<char>> {
    match document {
        JsonValue::Object(map) => if map.contains_key(key) {
            match map[key] {
                JsonValue::Text(text) => Some(text),
                _ => None,
            }
        } else {
            None
        },
        _ => None,
    }
}

/// The text that may stand under `key` in an object: the outer `Some` says
/// that the document is an object with a string, `null` or nothing under the
/// key, the inner one that it is a string.
pub open spec fn optional_text_member(document: JsonValue, key: Seq<char>) -> Option<
    Option<Seq<char>>,
> {
    match document {
        JsonValue::Object(map) => if map.contains_key(key) {
            match map[key] {
                JsonValue::Text(text) => Some(Some(text)),
                JsonValue::Null => Some(None),
                _ => None,
            }
        } else {
            Some(None)
        },
        _ => None,
    }
}

/// The view of a text that may be missing.
pub open spec fn text_view(text: Option<String>) -> Option<Seq<char>> {
    match text {
        Some(text) => Some(text@),
        None => None,
    }
}

/// The view of a text that may be missing, where the question may have no
/// answer.
pub open spec fn optional_text_view(text: Option<Option<String>>) -> Option<Option<Seq<char>>> {
    match text {
        Some(text) => Some(text_view(text)),
        None => None,
    }
}

/// The view of a document that may be missing.
pub open spec fn json_view(json: Option<Json>) -> Option<JsonValue> {
    match json {
        Some(json) => Some(json@),
        None => None,
    }
}

impl Clone for Json {
    fn clone(&self) -> (copy: Json)
        ensures
            copy@ == self@,
        decreases self,
    {
        match self {
            Json::Null => Json::Null,
            Json::Bool(flag) => Json::Bool(*flag),
            Json::Number(number) => Json::Number(number.clone()),
            Json::Text(text) => Json::Text(text.clone()),
            Json::Array(items) => {
                let mut copies: Vec<Json> = Vec::new();
                let mut i: usize = 0;
                while i < items.len()
                    invariant
                        *self == Json::Array(*items),
                        i <= items.len(),
                        copies@.len() == i,
                        forall|j: int| 0 <= j < i ==> copies@[j]@ == items@[j]@,
                    decreases items.len() - i,
                {
                    assert(self->Array_0 == *items);
                    assert(decreases_to!(*items => items[i as int]));
                    copies.push(items[i].clone());
                    i = i + 1;
                }
                proof {
                    lemma_items_same(copies, *items);
                }
                Json::Array(copies)
            },
            Json::Object(members) => {
                let mut copies: Vec<(String, Json)> = Vec::new();
                let mut i: usize = 0;
                while i < members.len()
                    invariant
                        *self == Json::Object(*members),
                        i <= members.len(),
                        copies@.len() == i,
                        forall|j: int|
                            0 <= j < i ==> copies@[j].0@ == members@[j].0@ && copies@[j].1@
                                == members@[j].1@,
                    decreases members.len() - i,
                {
                    assert(self->Object_0 == *members);
                    assert(decreases_to!(*members => members[i as int]));
                    copies.push((members[i].0.clone(), members[i].1.clone()));
                    i = i + 1;
                }
                proof {
                    lemma_members_same(copies, *members);
                }
                Json::Object(copies)
            },
        }
    }
}

impl Json {
    /// A string document with the given text.
    pub fn text(text: &str) -> (json: Json)
        ensures
            json@ == JsonValue::Text(text@),
    {
        Json::Text(text.to_owned())
    }

    /// The object without members.
    pub fn object() -> (json: Json)
        ensures
            json@ == JsonValue::Object(Map::empty()),
    {
        let members: Vec<(String, Json)> = Vec::new();
        proof {
            assert(members_view(members) =~= Seq::empty());
        }
        Json::Object(members)
    }

    /// The object with `value` under `key`, in place of what it held there. A
    /// document that is no object comes back as it is.
    pub fn with(self, key: &str, value: Json) -> (json: Json)
        ensures
            json@ == match self@ {
                JsonValue::Object(map) => JsonValue::Object(map.insert(key@, value@)),
                other => other,
            },
    {
        match self {
            Json::Object(members) => {
                let ghost before = members;
                let mut members = members;
                members.push((key.to_owned(), value));
                proof {
                    lemma_members_push(before, members);
                }
                Json::Object(members)
            },
            other => other,
        }
    }

    /// The array without items.
    pub fn array() -> (json: Json)
        ensures
            json@ == JsonValue::Array(Seq::empty()),
    {
        let items: Vec<Json> = Vec::new();
        proof {
            assert(items_view(items) =~= Seq::empty());
        }
        Json::Array(items)
    }

    /// The array with `item` behind its last item. A document that is no
    /// array comes back as it is.
    pub fn appended(self, item: Json) -> (json: Json)
        ensures
            json@ == match self@ {
                JsonValue::Array(items) => JsonValue::Array(items.push(item@)),
                other => other,
            },
    {
        match self {
            Json::Array(items) => {
                let ghost before = items;
                let mut items = items;
                items.push(item);
                proof {
                    lemma_items_push(before, items);
                }
                Json::Array(items)
            },
            other => other,
        }
    }

    /// The text under `key`, where the document is an object that holds a
    /// string there.
    pub fn text_member(&self, key: &str) -> (text: Option<String>)
        ensures
            text_view(text) == text_member(self@, key@),
    {
        match self.member(key) {
            Some(found) => match found.as_text() {
                Some(text) => Some(text.to_owned()),
                None => None,
            },
            None => None,
        }
    }

    /// The text that may stand under `key`; the outer `None` where the
    /// document is no object or holds there something that is neither a
    /// string nor `null`.
    pub fn optional_text_member(&self, key: &str) -> (text: Option<Option<String>>)
        ensures
            optional_text_view(text) == optional_text_member(self@, key@),
    {
        match self {
            Json::Object(_) => match self.member(key) {
                Some(Json::Text(text)) => Some(Some(text.clone())),
                Some(Json::Null) => Some(None),
                Some(_) => None,
                None => Some(None),
            },
            _ => None,
        }
    }

    /// The items of an array.
    pub fn as_array(&self) -> (items: Option<&Vec<Json>>)
        ensures
            match items {
                Some(items) => self@ == JsonValue::Array(items_view(*items)),
                None => !(self@ is Array),
            },
    {
        match self {
            Json::Array(items) => Some(items),
            _ => None,
        }
    }

    /// Whether the document is an object.
    pub fn is_object(&self) -> (object: bool)
        ensures
            object == (self@ is Object),
    {
        match self {
            Json::Object(_) => true,
            _ => false,
        }
    }

    /// The text of a string document.
    pub fn as_text(&self) -> (text: Option<&str>)
        ensures
            match self@ {
                JsonValue::Text(s) => text.is_some() && text.unwrap()@ == s,
                _ => text.is_none(),
            },
    {
        match self {
            Json::Text(s) => Some(s.as_str()),
            _ => None,
        }
    }

    /// The value that an object holds under `key`; nothing for a key that it
    /// lacks and for a document that is no object.
    pub fn member(&self, key: &str) -> (found: Option<&Json>)
        ensures
            match self@ {
                JsonValue::Object(map) if map.contains_key(key@) => found.is_some()
                    && found.unwrap()@ == map[key@],
                _ => found.is_none(),
            },
    {
        match self {
            Json::Object(members) => {
                let mut i: usize = members.len();
                while i > 0
                    invariant
                        *self == Json::Object(*members),
                        i <= members.len(),
                        forall|j: int| i <= j < members.len() ==> (#[trigger] members[j]).0@ != key@,
                    decreases i,
                {
                    i = i - 1;
                    if text_eq(members[i].0.as_str(), key) {
                        proof {
                            let viewed = members_view(*members);
                            assert forall|j: int| i < j < viewed.len() implies (#[trigger] viewed[j]).0
                                != viewed[i as int].0 by {
                                assert(members[j].0@ != key@);
                            }
                            lemma_members_map_last(viewed, i as int);
                        }
                        return Some(&members[i].1);
                    }
                }
                proof {
                    let viewed = members_view(*members);
                    lemma_members_map_keys(viewed, key@);
                    if members_map(viewed).contains_key(key@) {
                        let j = choose|j: int| 0 <= j < viewed.len() && (#[trigger] viewed[j]).0 == key@;
                        assert(members[j].0@ != key@);
                    }
                }
                None
            },
            _ => None,
        }
    }
}

} // verus!
