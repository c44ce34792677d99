//! The JSON values that the metadata engine reads.

use vstd::prelude::*;

verus! {

/// A JSON value. A number is kept as the text that writes it: nothing the
/// engine extracts is numeric, so a number is only told apart from the other
/// kinds and carried along.
#[derive(Debug, PartialEq, Eq)]
pub enum Json {
    Null,
    Bool(bool),
    Number(String),
    Text(String),
    Array(Vec<Json>),
    Object(Vec<(String, Json)>),
}

/// A document as `serde_json` holds it once parsed.
#[verifier::external_type_specification]
#[verifier::external_body]
pub struct ExValue(serde_json::Value);

/// The reason `serde_json` gives for rejecting a text.
#[verifier::external_type_specification]
#[verifier::external_body]
pub struct ExError(serde_json::Error);

/// What a parsed document holds, kind by kind: null, a boolean, a number, a
/// string, the elements of an array in order, the entries of an object in the
/// order in which `serde_json` walks them.
pub uninterp spec fn lowered(value: serde_json::Value) -> Json;

/// What the bytes of a response body decode to: the document that
/// `serde_json::from_slice` reads from them, or nothing where it rejects them.
pub uninterp spec fn decoded(bytes: Seq<u8>) -> Option<Json>;

/// Calls `serde_json::from_slice` for a `serde_json::Value`. Parsing reads
/// nothing but the bytes, so the contract names the outcome as a function of
/// them: the document on success, nothing on rejection. What the grammar
/// accepts is left to the parser.
#[verifier::external_body]
fn from_slice(bytes: &[u8]) -> (outcome: Result<serde_json::Value, serde_json::Error>)
    ensures
        match outcome {
            Ok(value) => decoded(bytes@) == Some(lowered(value)),
            Err(_) => decoded(bytes@) is None,
        },
{
    serde_json::from_slice::<serde_json::Value>(bytes)
}

/// Moves a parsed `serde_json::Value` into a `Json`, variant for variant. A
/// number is written out as text with `Number::to_string`; everything else is
/// moved as it is.
#[verifier::external_body]
fn lower(value: serde_json::Value) -> (json: Json)
    ensures
        json == lowered(value),
{
    match value {
        serde_json::Value::Null => Json::Null,
        serde_json::Value::Bool(flag) => Json::Bool(flag),
        serde_json::Value::Number(number) => Json::Number(number.to_string()),
        serde_json::Value::String(text) => Json::Text(text),
        serde_json::Value::Array(items) => Json::Array(items.into_iter().map(lower).collect()),
        serde_json::Value::Object(entries) => Json::Object(
            entries.into_iter().map(|(name, member)| (name, lower(member))).collect(),
        ),
    }
}

/// Decodes a response body. A body that is not one well-formed JSON document
/// decodes to nothing.
pub fn decode(bytes: &[u8]) -> (document: Option<Json>)
    ensures
        document == decoded(bytes@),
{
    match from_slice(bytes) {
        Ok(value) => Some(lower(value)),
        Err(_) => None,
    }
}

/// The value of the first entry named `key`, if any entry has that name.
pub open spec fn entry_named(entries: Seq<(String, Json)>, key: Seq<char>) -> Option<Json>
    decreases entries.len(),
{
    if entries.len() == 0 {
        None
    } else if entries[0].0@ == key {
        Some(entries[0].1)
    } else {
        entry_named(entries.skip(1), key)
    }
}

impl Json {
    /// The member named `key` of an object; nothing for any other kind of value.
    pub open spec fn member(self, key: Seq<char>) -> Option<Json> {
        match self {
            Json::Object(entries) => entry_named(entries@, key),
            _ => None,
        }
    }

    /// The characters of a string value; nothing for any other kind of value.
    pub open spec fn text(self) -> Option<Seq<char>> {
        match self {
            Json::Text(s) => Some(s@),
            _ => None,
        }
    }

    /// The value to read a stream's fields from: the first element of a
    /// non-empty array, and otherwise the value itself.
    pub open spec fn head(self) -> Json {
        match self {
            Json::Array(items) => if items@.len() > 0 {
                items@[0]
            } else {
                self
            },
            _ => self,
        }
    }

    /// Whether the value is an object.
    pub fn is_object(&self) -> (answer: bool)
        ensures
            answer == (self is Object),
    {
        match self {
            Json::Object(_) => true,
            _ => false,
        }
    }

    /// The first element of a non-empty array; any other value is handed back
    /// as it is.
    pub fn first_or_self(&self) -> (value: &Json)
        ensures
            *value == self.head(),
    {
        match self {
            Json::Array(items) => if items.len() > 0 {
                &items[0]
            } else {
                self
            },
            _ => self,
        }
    }

    /// Looks up the member named `key`.
    pub fn get(&self, key: &str) -> (found: Option<&Json>)
        ensures
            match found {
                Some(value) => self.member(key@) == Some(*value),
                None => self.member(key@) is None,
            },
    {
        match self {
            Json::Object(entries) => {
                let wanted = key.to_owned();
                let mut i: usize = 0;
                assert(entries@.skip(0) =~= entries@);
                while i < entries.len()
                    invariant
                        i <= entries@.len(),
                        wanted@ == key@,
                        self.member(key@) == entry_named(entries@, key@),
                        entry_named(entries@, key@) == entry_named(entries@.skip(i as int), key@),
                    decreases entries@.len() - i,
                {
                    if entries[i].0 == wanted {
                        return Some(&entries[i].1);
                    }
                    assert(entries@.skip(i as int).skip(1) =~= entries@.skip(i + 1));
                    i += 1;
                }
                None
            },
            _ => None,
        }
    }

    /// The string slice of a string value.
    pub fn as_str(&self) -> (found: Option<&str>)
        ensures
            match found {
                Some(s) => self.text() == Some(s@),
                None => self.text() is None,
            },
    {
        match self {
            Json::Text(s) => Some(s.as_str()),
            _ => None,
        }
    }
}

} // verus!
