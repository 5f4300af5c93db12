//! JSON documents as the decoders read them.

use crate::text::same_text;
use vstd::prelude::*;

verus! {

/// A JSON value.
///
/// A number is kept as its value where it is an integer from 0 up to the
/// largest `u64`; of any other number only the fact that it is one is kept.
#[derive(Debug, PartialEq, Eq)]
pub enum Json {
    Null,
    Bool(bool),
    Natural(u64),
    OtherNumber,
    Text(String),
    Array(Vec<Json>),
    Object(Vec<(String, Json)>),
}

/// The value of the first member named `key`, if there is one.
pub open spec fn first_member(members: Seq<(String, Json)>, key: Seq<char>) -> Option<Json>
    decreases members.len(),
{
    if members.len() == 0 {
        None
    } else if members[0].0@ == key {
        Some(members[0].1)
    } else {
        first_member(members.drop_first(), key)
    }
}

fn find_member<'a>(members: &'a Vec<(String, Json)>, key: &str) -> (r: Option<&'a Json>)
    ensures
        match r {
            Some(value) => first_member(members@, key@) == Some(*value),
            None => first_member(members@, key@) is None,
        },
{
    let mut i: usize = 0;
    assert(members@.skip(0) =~= members@);
    while i < members.len()
        invariant
            i <= members.len(),
            first_member(members@, key@) == first_member(members@.skip(i as int), key@),
        decreases members.len() - i,
    {
        let ghost rest = members@.skip(i as int);
        assert(rest[0] == members@[i as int]);
        assert(rest.drop_first() =~= members@.skip(i + 1));
        if same_text(members[i].0.as_str(), key) {
            return Some(&members[i].1);
        }
        i += 1;
    }
    None
}

impl Json {
    /// The member `key` of an object; `None` for anything else.
    pub open spec fn member(self, key: Seq<char>) -> Option<Json> {
        match self {
            Json::Object(members) => first_member(members@, key),
            _ => None,
        }
    }

    /// The value of a number that is kept; `None` for anything else.
    pub open spec fn natural(self) -> Option<u64> {
        match self {
            Json::Natural(n) => Some(n),
            _ => None,
        }
    }

    /// The characters of a string; `None` for anything else.
    pub open spec fn text(self) -> Option<Seq<char>> {
        match self {
            Json::Text(s) => Some(s@),
            _ => None,
        }
    }

    /// The elements of an array; `None` for anything else.
    pub open spec fn items(self) -> Option<Seq<Json>> {
        match self {
            Json::Array(items) => Some(items@),
            _ => None,
        }
    }

    /// Looks up a member of an object by name.
    pub fn get(&self, key: &str) -> (r: Option<&Json>)
        ensures
            match r {
                Some(value) => self.member(key@) == Some(*value),
                None => self.member(key@) is None,
            },
    {
        match self {
            Json::Object(members) => find_member(members, key),
            _ => None,
        }
    }

    /// The value of a number that is kept.
    pub fn as_u64(&self) -> (r: Option<u64>)
        ensures
            r == self.natural(),
    {
        match self {
            Json::Natural(n) => Some(*n),
            _ => None,
        }
    }

    /// The characters of a string.
    pub fn as_str(&self) -> (r: Option<&str>)
        ensures
            match r {
                Some(s) => self.text() == Some(s@),
                None => self.text() is None,
            },
    {
        match self {
            Json::Text(s) => Some(s.as_str()),
            _ => None,
        }
    }

    /// The elements of an array.
    pub fn as_array(&self) -> (r: Option<&Vec<Json>>)
        ensures
            match r {
                Some(items) => self.items() == Some(items@),
                None => self.items() is None,
            },
    {
        match self {
            Json::Array(items) => Some(items),
            _ => None,
        }
    }
}

#[verifier::external_type_specification]
#[verifier::external_body]
pub struct ExJsonValue(serde_json::Value);

/// What a `serde_json::Value` holds, as a [`Json`].
pub uninterp spec fn document_of(value: serde_json::Value) -> Json;

/// The document that `serde_json::from_str` reads from a text; `None` where
/// it refuses the text.
pub uninterp spec fn parsed_document(text: Seq<char>) -> Option<Json>;

/// `serde_json::from_str` at type `serde_json::Value`. What it accepts, and
/// what it reads, depends on the text alone.
#[verifier::external_body]
fn read_value(text: &str) -> (r: Option<serde_json::Value>)
    ensures
        r matches Some(value) ==> parsed_document(text@) == Some(document_of(value)),
        r is None ==> parsed_document(text@) is None,
{
    serde_json::from_str::<serde_json::Value>(text).ok()
}

/// Copies a `serde_json::Value` into a [`Json`], variant by variant. The
/// members of an object come in the order in which `serde_json::Map` walks
/// them, each name once.
#[verifier::external_body]
fn copy_value(value: &serde_json::Value) -> (r: Json)
    ensures
        r == document_of(*value),
{
    match value {
        serde_json::Value::Null => Json::Null,
        serde_json::Value::Bool(b) => Json::Bool(*b),
        serde_json::Value::Number(n) => match n.as_u64() {
            Some(u) => Json::Natural(u),
            None => Json::OtherNumber,
        },
        serde_json::Value::String(s) => Json::Text(s.clone()),
        serde_json::Value::Array(items) => Json::Array(items.iter().map(copy_value).collect()),
        serde_json::Value::Object(members) => Json::Object(
            members.iter().map(|(name, member)| (name.clone(), copy_value(member))).collect(),
        ),
    }
}

/// Reads a JSON document from its text.
pub fn parse_document(text: &str) -> (r: Option<Json>)
    ensures
        r == parsed_document(text@),
{
    match read_value(text) {
        Some(value) => Some(copy_value(&value)),
        None => None,
    }
}

} // verus!
