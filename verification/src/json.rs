//! JSON documents as the response parser reads them.

use crate::number::{parse_unsigned, unsigned_of};
use crate::text::{chars_of, same_text};
use vstd::prelude::*;

verus! {

/// A JSON value as a mathematical tree.
pub enum JsonValue {
    Null,
    Bool(bool),
    Number(Seq<char>),
    Text(Seq<char>),
    Array(Seq<JsonValue>),
    Object(Seq<(Seq<char>, JsonValue)>),
}

impl JsonValue {
    /// The text of a string.
    pub open spec fn text(self) -> Option<Seq<char>> {
        match self {
            JsonValue::Text(t) => Some(t),
            _ => None,
        }
    }

    /// The value of a number that is written as a plain unsigned integer
    /// and fits in 64 bits.
    pub open spec fn unsigned(self) -> Option<u64> {
        match self {
            JsonValue::Number(t) => unsigned_of(t),
            _ => None,
        }
    }

    /// The value of a literal `true` or `false`.
    pub open spec fn boolean(self) -> Option<bool> {
        match self {
            JsonValue::Bool(b) => Some(b),
            _ => None,
        }
    }

    /// The items of an array.
    pub open spec fn items(self) -> Option<Seq<JsonValue>> {
        match self {
            JsonValue::Array(items) => Some(items),
            _ => None,
        }
    }

    /// The value of the first entry named `key` of an object.
    pub open spec fn member(self, key: Seq<char>) -> Option<JsonValue> {
        match self {
            JsonValue::Object(members) => find_member(members, key, 0),
            _ => None,
        }
    }
}

/// The value of the first entry named `key` among those from index `from` on.
pub open spec fn find_member(
    members: Seq<(Seq<char>, JsonValue)>,
    key: Seq<char>,
    from: int,
) -> Option<JsonValue>
    decreases members.len() - from,
{
    if 0 <= from < members.len() {
        if members[from].0 == key {
            Some(members[from].1)
        } else {
            find_member(members, key, from + 1)
        }
    } else {
        None
    }
}

/// The values that a run of JSON items stands for.
pub open spec fn values(items: Seq<Json>) -> Seq<JsonValue> {
    Seq::new(items.len(), |i: int| items[i]@)
}

/// One entry of a JSON object.
#[derive(Debug, PartialEq)]
pub struct Member {
    pub key: String,
    pub value: Json,
}

/// A JSON value.
#[derive(Debug, PartialEq)]
pub enum Json {
    Null,
    Bool(bool),
    Number(String),
    Text(String),
    Array(Vec<Json>),
    Object(Vec<Member>),
}

impl View for Json {
    type V = JsonValue;

    open spec fn view(&self) -> JsonValue
        decreases self,
    {
        match self {
            Json::Null => JsonValue::Null,
            Json::Bool(b) => JsonValue::Bool(*b),
            Json::Number(t) => JsonValue::Number(t@),
            Json::Text(t) => JsonValue::Text(t@),
            Json::Array(items) => JsonValue::Array(
                Seq::new(
                    items@.len(),
                    |i: int|
                        if 0 <= i < items@.len() {
                            items@[i]@
                        } else {
                            JsonValue::Null
                        },
                ),
            ),
            Json::Object(members) => JsonValue::Object(
                Seq::new(
                    members@.len(),
                    |i: int|
                        if 0 <= i < members@.len() {
                            (members@[i].key@, members@[i].value@)
                        } else {
                            (Seq::empty(), JsonValue::Null)
                        },
                ),
            ),
        }
    }
}

impl Json {
    /// The text of a string.
    pub fn as_text(&self) -> (r: Option<&String>)
        ensures
            match r {
                Some(t) => self@.text() == Some(t@),
                None => self@.text().is_none(),
            },
    {
        match self {
            Json::Text(t) => Some(t),
            _ => None,
        }
    }

    /// The value of a number that is written as a plain unsigned integer
    /// and fits in 64 bits.
    pub fn as_u64(&self) -> (r: Option<u64>)
        ensures
            r == self@.unsigned(),
    {
        match self {
            Json::Number(t) => {
                let digits = chars_of(t.as_str());
                parse_unsigned(&digits)
            },
            _ => None,
        }
    }

    /// The value of a literal `true` or `false`.
    pub fn as_bool(&self) -> (r: Option<bool>)
        ensures
            r == self@.boolean(),
    {
        match self {
            Json::Bool(b) => Some(*b),
            _ => None,
        }
    }

    /// The items of an array.
    pub fn as_items(&self) -> (r: Option<&Vec<Json>>)
        ensures
            match r {
                Some(items) => self@.items() == Some(values(items@)),
                None => self@.items().is_none(),
            },
    {
        match self {
            Json::Array(items) => {
                proof {
                    assert(self@.items()->0 =~= values(items@));
                }
                Some(items)
            },
            _ => None,
        }
    }

    /// Whether this value is an object.
    pub fn is_object(&self) -> (r: bool)
        ensures
            r == (self@ is Object),
    {
        match self {
            Json::Object(_) => true,
            _ => false,
        }
    }

    /// The value of the first entry named `key` of an object.
    pub fn member(&self, key: &str) -> (r: Option<&Json>)
        ensures
            match r {
                Some(value) => self@.member(key@) == Some(value@),
                None => self@.member(key@).is_none(),
            },
    {
        match self {
            Json::Object(members) => {
                let ghost entries = Seq::new(
                    members@.len(),
                    |j: int| (members@[j].key@, members@[j].value@),
                );
                proof {
                    let got = self@->Object_0;
                    assert(got.len() == entries.len());
                    assert forall|j: int| 0 <= j < got.len() implies got[j] == entries[j] by {
                        assert(got[j].0 == entries[j].0);
                        assert(got[j].1 == entries[j].1);
                    }
                    assert(got =~= entries);
                }
                let mut i: usize = 0;
                while i < members.len()
                    invariant
                        i <= members.len(),
                        self@ == JsonValue::Object(entries),
                        entries == Seq::new(
                            members@.len(),
                            |j: int| (members@[j].key@, members@[j].value@),
                        ),
                        find_member(entries, key@, 0) == find_member(entries, key@, i as int),
                    decreases members.len() - i,
                {
                    if same_text(members[i].key.as_str(), key) {
                        return Some(&members[i].value);
                    }
                    i += 1;
                }
                None
            },
            _ => None,
        }
    }
}

/// The document that a text holds, as `serde_json::from_str` reads it into a
/// `serde_json::Value`; `None` where it reports an error.
pub uninterp spec fn json_document(text: Seq<char>) -> Option<JsonValue>;

#[verifier::external_type_specification]
#[verifier::external_body]
pub struct ExValue(serde_json::Value);

#[verifier::external_type_specification]
#[verifier::external_body]
pub struct ExJsonError(serde_json::Error);

/// Copies a `serde_json::Value` into a [`Json`], variant by variant. A number
/// is kept as the text that `serde_json::Number` displays.
#[verifier::external_body]
fn lift(value: &serde_json::Value) -> Json {
    match value {
        serde_json::Value::Null => Json::Null,
        serde_json::Value::Bool(b) => Json::Bool(*b),
        serde_json::Value::Number(n) => Json::Number(n.to_string()),
        serde_json::Value::String(s) => Json::Text(s.clone()),
        serde_json::Value::Array(a) => Json::Array(a.iter().map(lift).collect()),
        serde_json::Value::Object(m) => Json::Object(
            m.iter().map(|(k, v)| Member { key: k.clone(), value: lift(v) }).collect(),
        ),
    }
}

/// Calls `serde_json::from_str` for a `serde_json::Value`. The outcome is a
/// function of the text alone: it is the document named by
/// [`json_document`], or an error where that is `None`.
#[verifier::external_body]
fn read_document(text: &str) -> (r: Result<Json, serde_json::Error>)
    ensures
        match r {
            Ok(json) => json_document(text@) == Some(json@),
            Err(_) => json_document(text@).is_none(),
        },
{
    match serde_json::from_str::<serde_json::Value>(text) {
        Ok(value) => Ok(lift(&value)),
        Err(e) => Err(e),
    }
}

/// Reads a JSON document.
pub fn decode(text: &str) -> (r: Option<Json>)
    ensures
        match r {
            Some(json) => json_document(text@) == Some(json@),
            None => json_document(text@).is_none(),
        },
{
    match read_document(text) {
        Ok(json) => Some(json),
        Err(_) => None,
    }
}

} // verus!
