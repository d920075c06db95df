//! JSON documents as trees, and the reading of a document from text.

use crate::error::ResolveError;
use vstd::prelude::*;
use vstd::string::*;

verus! {

/// A JSON document, or a part of one.
#[derive(Debug, PartialEq, Eq)]
pub enum Json {
    /// `null`.
    Null,
    /// `true` or `false`.
    Bool(bool),
    /// A number, as the decimal text that writes it.
    Number(String),
    /// A string.
    Text(String),
    /// An array, in the order of the document.
    Array(Vec<Json>),
    /// An object: its keys, each with its value.
    Object(Vec<(String, Json)>),
}

/// The value of the first entry among `entries` whose key is `key`.
pub open spec fn first_entry(entries: Seq<(String, Json)>, key: Seq<char>) -> Option<Json>
    decreases entries.len(),
{
    if entries.len() == 0 {
        None
    } else if entries[0].0@ == key {
        Some(entries[0].1)
    } else {
        first_entry(entries.drop_first(), key)
    }
}

impl Json {
    /// What an object holds under `key`. A value that is no object holds
    /// nothing under any key; of several entries with one key the first counts.
    pub open spec fn member(self, key: Seq<char>) -> Option<Json> {
        match self {
            Json::Object(entries) => first_entry(entries@, key),
            _ => None,
        }
    }

    /// The characters of a string; nothing for a value of another type.
    pub open spec fn text(self) -> Option<Seq<char>> {
        match self {
            Json::Text(s) => Some(s@),
            _ => None,
        }
    }

    /// The elements of an array; nothing for a value of another type.
    pub open spec fn items(self) -> Option<Seq<Json>> {
        match self {
            Json::Array(items) => Some(items@),
            _ => None,
        }
    }

    /// The string that an object holds under `key`; nothing where the key is
    /// absent or holds a value of another type.
    pub open spec fn text_member(self, key: Seq<char>) -> Option<Seq<char>> {
        match self.member(key) {
            Some(value) => value.text(),
            None => None,
        }
    }

    /// The value under `key`.
    pub fn get(&self, key: &str) -> (found: Option<&Json>)
        ensures
            match found {
                Some(value) => self.member(key@) == Some(*value),
                None => self.member(key@) is None,
            },
    {
        match self {
            Json::Object(entries) => {
                let wanted = String::from_str(key);
                let mut at: usize = 0;
                assert(entries@.skip(0) =~= entries@);
                while at < entries.len()
                    invariant
                        at <= entries.len(),
                        wanted@ == key@,
                        self.member(key@) == first_entry(entries@, key@),
                        first_entry(entries@, key@) == first_entry(entries@.skip(at as int), key@),
                    decreases entries.len() - at,
                {
                    let ghost rest = entries@.skip(at as int);
                    assert(rest[0] == entries@[at as int]);
                    assert(rest.drop_first() =~= entries@.skip(at + 1));
                    if entries[at].0 == wanted {
                        assert(first_entry(rest, key@) == Some(entries@[at as int].1));
                        return Some(&entries[at].1);
                    }
                    at += 1;
                }
                None
            },
            _ => None,
        }
    }

    /// The characters of a string.
    pub fn as_str(&self) -> (found: Option<&str>)
        ensures
            match found {
                Some(s) => self.text() == Some(s@),
                None => self.text() is None,
            },
    {
        match self {
            Json::Text(s) => Some(s.as_str()),
            _ => None,
        }
    }

    /// The elements of an array.
    pub fn as_array(&self) -> (found: Option<&Vec<Json>>)
        ensures
            match found {
                Some(items) => self.items() == Some(items@),
                None => self.items() is None,
            },
    {
        match self {
            Json::Array(items) => Some(items),
            _ => None,
        }
    }

    /// The string under `key`.
    pub fn get_str(&self, key: &str) -> (found: Option<&str>)
        ensures
            match found {
                Some(s) => self.text_member(key@) == Some(s@),
                None => self.text_member(key@) is None,
            },
    {
        match self.get(key) {
            Some(value) => value.as_str(),
            None => None,
        }
    }
}

#[verifier::external_type_specification]
#[verifier::external_body]
pub struct ExValue(serde_json::Value);

#[verifier::external_type_specification]
#[verifier::external_body]
pub struct ExParseError(serde_json::Error);

/// The tree that `text` writes, where `text` is a JSON document: what
/// `serde_json::from_str` reads from it.
pub uninterp spec fn document_of(text: Seq<char>) -> Option<Json>;

/// The tree that a `serde_json::Value` holds.
pub uninterp spec fn tree_of(value: serde_json::Value) -> Json;

/// `serde_json::from_str`, asked for a `Value`. It succeeds on the texts that
/// are JSON documents, and on no others; the value it gives holds the tree
/// that the text writes.
#[verifier::external_body]
fn read_value(text: &str) -> (read: Result<serde_json::Value, serde_json::Error>)
    ensures
        read is Ok <==> document_of(text@) is Some,
        read matches Ok(value) ==> document_of(text@) == Some(tree_of(value)),
{
    serde_json::from_str::<serde_json::Value>(text)
}

/// Moves what a `serde_json::Value` holds into a tree, variant by variant. A
/// number is kept as the text that `serde_json` writes for it; the entries of
/// an object come in the order in which its map hands them out.
#[verifier::external_body]
fn tree_from_value(value: serde_json::Value) -> (tree: Json)
    ensures
        tree == tree_of(value),
{
    match value {
        serde_json::Value::Null => Json::Null,
        serde_json::Value::Bool(flag) => Json::Bool(flag),
        serde_json::Value::Number(number) => Json::Number(number.to_string()),
        serde_json::Value::String(text) => Json::Text(text),
        serde_json::Value::Array(items) => Json::Array(
            items.into_iter().map(tree_from_value).collect(),
        ),
        serde_json::Value::Object(entries) => Json::Object(
            entries.into_iter().map(|(key, item)| (key, tree_from_value(item))).collect(),
        ),
    }
}

/// Reads a JSON document from `text`.
pub fn parse(text: &str) -> (document: Result<Json, ResolveError>)
    ensures
        document == match document_of(text@) {
            Some(tree) => Ok::<Json, ResolveError>(tree),
            None => Err(ResolveError::Parse),
        },
{
    match read_value(text) {
        Ok(value) => Ok(tree_from_value(value)),
        Err(_) => Err(ResolveError::Parse),
    }
}

} // verus!
