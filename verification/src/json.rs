//! JSON documents as plain data, with the lookups the gateway performs on them.
//!
//! Reading a document from bytes and writing one as text is serde_json's work;
//! everything between the two is done here, on [`Json`].

use crate::text::same_text;
use vstd::prelude::*;

verus! {

/// `serde_json::Number`: a JSON number, carried through unread.
#[verifier::external_type_specification]
#[verifier::external_body]
pub struct ExNumber(serde_json::Number);

/// `serde_json::Value`: serde_json's own document type.
#[verifier::external_type_specification]
#[verifier::external_body]
pub struct ExValue(serde_json::Value);

/// `serde_json::Error`: why a text is no JSON document.
#[verifier::external_type_specification]
#[verifier::external_body]
pub struct ExError(serde_json::Error);

/// The mathematical value of a JSON document.
pub ghost enum JsonValue {
    Null,
    Bool(bool),
    Number(serde_json::Number),
    Text(Seq<char>),
    Array(Seq<JsonValue>),
    Object(Seq<(Seq<char>, JsonValue)>),
}

/// The member that `key` names in a list of members: the last one with that
/// key, if there is any.
pub open spec fn lookup(members: Seq<(Seq<char>, JsonValue)>, key: Seq<char>) -> Option<
    JsonValue,
>
    decreases members.len(),
{
    if members.len() == 0 {
        None
    } else if members.last().0 == key {
        Some(members.last().1)
    } else {
        lookup(members.drop_last(), key)
    }
}

impl JsonValue {
    /// The member `key` of an object; `None` for anything but an object that
    /// has such a member.
    pub open spec fn member(self, key: Seq<char>) -> Option<JsonValue> {
        match self {
            JsonValue::Object(members) => lookup(members, key),
            _ => None,
        }
    }

    /// The element at `index` of an array; `None` for anything but an array
    /// that is long enough.
    pub open spec fn element(self, index: int) -> Option<JsonValue> {
        match self {
            JsonValue::Array(items) => if 0 <= index < items.len() {
                Some(items[index])
            } else {
                None
            },
            _ => None,
        }
    }

    /// The characters of a string; `None` for anything but a string.
    pub open spec fn text(self) -> Option<Seq<char>> {
        match self {
            JsonValue::Text(s) => Some(s),
            _ => None,
        }
    }

    /// The string member `key` of an object.
    pub open spec fn text_member(self, key: Seq<char>) -> Option<Seq<char>> {
        match self.member(key) {
            Some(v) => v.text(),
            None => None,
        }
    }
}

/// A member that is added last is the one that its key names, and the
/// members under other keys stay what they were.
pub proof fn lemma_lookup_after_push(
    members: Seq<(Seq<char>, JsonValue)>,
    key: Seq<char>,
    value: JsonValue,
    other: Seq<char>,
)
    ensures
        lookup(members.push((key, value)), key) == Some(value),
        other != key ==> lookup(members.push((key, value)), other) == lookup(members, other),
{
    let grown = members.push((key, value));
    assert(grown.last() == (key, value));
    assert(grown.drop_last() =~= members);
}

/// A key is found exactly when some member carries it, and what is found is
/// the value of a member with that key.
pub proof fn lemma_lookup_finds_a_member(members: Seq<(Seq<char>, JsonValue)>, key: Seq<char>)
    ensures
        lookup(members, key) is Some <==> exists|i: int|
            0 <= i < members.len() && (#[trigger] members[i]).0 == key,
        lookup(members, key) matches Some(v) ==> exists|i: int|
            0 <= i < members.len() && #[trigger] members[i] == (key, v),
    decreases members.len(),
{
    if members.len() > 0 {
        let init = members.drop_last();
        lemma_lookup_finds_a_member(init, key);
        let last: int = members.len() - 1;
        if members.last().0 == key {
            assert(members[last].0 == key);
            assert(members[last] == (key, members.last().1));
        } else {
            if lookup(init, key) is Some {
                let i: int = choose|i: int| 0 <= i < init.len() && (#[trigger] init[i]).0 == key;
                assert(members[i].0 == key);
                let v = lookup(init, key)->0;
                let j: int = choose|j: int|
                    0 <= j < init.len() && #[trigger] init[j] == (key, v);
                assert(members[j] == (key, v));
            }
            if exists|i: int| 0 <= i < members.len() && (#[trigger] members[i]).0 == key {
                let i: int = choose|i: int|
                    0 <= i < members.len() && (#[trigger] members[i]).0 == key;
                assert(i < last);
                assert(init[i].0 == key);
            }
        }
    }
}

/// A JSON document. An object keeps its members in a list; where a key
/// occurs more than once, the last occurrence is the member.
#[derive(Debug, PartialEq, Eq)]
pub enum Json {
    Null,
    Bool(bool),
    Number(serde_json::Number),
    Text(String),
    Array(Vec<Json>),
    Object(Vec<(String, Json)>),
}

/// The value of a document.
pub open spec fn value_of(json: Json) -> JsonValue
    decreases json,
{
    match json {
        Json::Null => JsonValue::Null,
        Json::Bool(b) => JsonValue::Bool(b),
        Json::Number(n) => JsonValue::Number(n),
        Json::Text(s) => JsonValue::Text(s@),
        Json::Array(items) => JsonValue::Array(
            Seq::new(
                items@.len(),
                |i: int|
                    if 0 <= i < items@.len() {
                        value_of(items@[i])
                    } else {
                        JsonValue::Null
                    },
            ),
        ),
        Json::Object(members) => JsonValue::Object(
            Seq::new(
                members@.len(),
                |i: int|
                    if 0 <= i < members@.len() {
                        (members@[i].0@, value_of(members@[i].1))
                    } else {
                        (Seq::empty(), JsonValue::Null)
                    },
            ),
        ),
    }
}

impl View for Json {
    type V = JsonValue;

    open spec fn view(&self) -> JsonValue {
        value_of(*self)
    }
}

/// The value of an optional document.
pub open spec fn optional_value(json: Option<Json>) -> Option<JsonValue> {
    match json {
        Some(j) => Some(j@),
        None => None,
    }
}

/// The document that `bytes` hold, by serde_json's reading of them; `None`
/// where they are no JSON document.
pub uninterp spec fn parsed(bytes: Seq<u8>) -> Option<JsonValue>;

/// The compact JSON text of a document, as serde_json writes it.
pub uninterp spec fn compact_text(value: JsonValue) -> Seq<char>;

/// Turns serde_json's document into a [`Json`], variant by variant; an
/// object's members come in the order in which serde_json's map hands them
/// out.
#[verifier::external_body]
fn lift(value: serde_json::Value) -> Json {
    match value {
        serde_json::Value::Null => Json::Null,
        serde_json::Value::Bool(b) => Json::Bool(b),
        serde_json::Value::Number(n) => Json::Number(n),
        serde_json::Value::String(s) => Json::Text(s),
        serde_json::Value::Array(items) => Json::Array(items.into_iter().map(lift).collect()),
        serde_json::Value::Object(members) => Json::Object(
            members.into_iter().map(|(k, v)| (k, lift(v))).collect(),
        ),
    }
}

/// Turns a [`Json`] into serde_json's document, variant by variant; an
/// object's members are inserted in list order, so that a later member
/// replaces an earlier one with the same key.
#[verifier::external_body]
fn lower(json: &Json) -> serde_json::Value {
    match json {
        Json::Null => serde_json::Value::Null,
        Json::Bool(b) => serde_json::Value::Bool(*b),
        Json::Number(n) => serde_json::Value::Number(n.clone()),
        Json::Text(s) => serde_json::Value::String(s.clone()),
        Json::Array(items) => serde_json::Value::Array(items.iter().map(lower).collect()),
        Json::Object(members) => {
            let mut map = serde_json::Map::new();
            for (k, v) in members {
                map.insert(k.clone(), lower(v));
            }
            serde_json::Value::Object(map)
        },
    }
}

/// `serde_json::from_slice`, called for a `serde_json::Value`. It reads the
/// bytes as one JSON text and refuses anything else. Claimed of it: whether
/// it refuses, and which document it reads, depends on the bytes alone.
#[verifier::external_body]
fn from_slice(bytes: &[u8]) -> (r: Result<Json, serde_json::Error>)
    ensures
        match r {
            Ok(json) => parsed(bytes@) == Some(json@),
            Err(_) => parsed(bytes@) is None,
        },
{
    match serde_json::from_slice::<serde_json::Value>(bytes) {
        Ok(value) => Ok(lift(value)),
        Err(e) => Err(e),
    }
}

/// `to_string` on a `serde_json::Value`, which goes by the value's
/// `Display`: the JSON text of the document without white space. Claimed of
/// it: the text depends on the document's value alone.
#[verifier::external_body]
fn to_string(json: &Json) -> (text: String)
    ensures
        text@ == compact_text(json@),
{
    lower(json).to_string()
}

impl Json {
    /// The document that `bytes` hold, or `None` where they are no JSON
    /// document.
    pub fn parse(bytes: &[u8]) -> (r: Option<Json>)
        ensures
            match r {
                Some(json) => parsed(bytes@) == Some(json@),
                None => parsed(bytes@) is None,
            },
    {
        match from_slice(bytes) {
            Ok(json) => Some(json),
            Err(_) => None,
        }
    }

    /// The compact JSON text of the document.
    pub fn to_text(&self) -> (text: String)
        ensures
            text@ == compact_text(self@),
    {
        to_string(self)
    }

    /// A string document with the characters of `s`.
    pub fn text(s: &str) -> (json: Json)
        ensures
            json@ == JsonValue::Text(s@),
    {
        Json::Text(s.to_owned())
    }

    /// An array with the given elements, in their order.
    pub fn array(items: Vec<Json>) -> (json: Json)
        ensures
            json@ == JsonValue::Array(items@.map_values(|item: Json| item@)),
    {
        let json = Json::Array(items);
        assert(json@->Array_0 =~= items@.map_values(|item: Json| item@));
        json
    }

    /// An object with the given members, in their order.
    pub fn object(members: Vec<(String, Json)>) -> (json: Json)
        ensures
            json@ == JsonValue::Object(members@.map_values(|m: (String, Json)| (m.0@, m.1@))),
    {
        let json = Json::Object(members);
        assert(json@->Object_0 =~= members@.map_values(|m: (String, Json)| (m.0@, m.1@)));
        json
    }

    /// The member `key` of an object.
    pub fn get(&self, key: &str) -> (found: Option<&Json>)
        ensures
            match found {
                Some(v) => self@.member(key@) == Some(v@),
                None => self@.member(key@) is None,
            },
    {
        match self {
            Json::Object(members) => {
                let ghost all = self@->Object_0;
                let mut i: usize = members.len();
                assert(all.subrange(0, i as int) =~= all);
                while i > 0
                    invariant
                        self@ == JsonValue::Object(all),
                        i <= members.len(),
                        all.len() == members.len(),
                        forall|k: int|
                            0 <= k < all.len() ==> #[trigger] all[k] == (
                                members@[k].0@,
                                members@[k].1@,
                            ),
                        lookup(all, key@) == lookup(all.subrange(0, i as int), key@),
                    decreases i,
                {
                    i -= 1;
                    let member = &members[i];
                    let ghost upto = all.subrange(0, i + 1);
                    assert(upto.last() == all[i as int]);
                    assert(upto.drop_last() =~= all.subrange(0, i as int));
                    if same_text(member.0.as_str(), key) {
                        return Some(&member.1);
                    }
                }
                None
            },
            _ => None,
        }
    }

    /// The element at `index` of an array.
    pub fn at(&self, index: usize) -> (found: Option<&Json>)
        ensures
            match found {
                Some(v) => self@.element(index as int) == Some(v@),
                None => self@.element(index as int) is None,
            },
    {
        match self {
            Json::Array(items) => {
                if index < items.len() {
                    Some(&items[index])
                } else {
                    None
                }
            },
            _ => None,
        }
    }

    /// The characters of a string.
    pub fn as_str(&self) -> (found: Option<&str>)
        ensures
            match found {
                Some(s) => self@.text() == Some(s@),
                None => self@.text() is None,
            },
    {
        match self {
            Json::Text(s) => Some(s.as_str()),
            _ => None,
        }
    }

    /// The string member `key` of an object.
    pub fn get_str(&self, key: &str) -> (found: Option<&str>)
        ensures
            match found {
                Some(s) => self@.text_member(key@) == Some(s@),
                None => self@.text_member(key@) is None,
            },
    {
        match self.get(key) {
            Some(v) => v.as_str(),
            None => None,
        }
    }
}

} // verus!
