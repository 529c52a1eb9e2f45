//! Reading strings out of JSON documents.

use serde_json::Value;
use vstd::prelude::*;

verus! {

/// A JSON document, as `serde_json` holds it.
#[verifier::external_type_specification]
#[verifier::external_body]
pub struct ExValue(serde_json::Value);

/// The strings that a JSON value holds, each under the path that leads to it: the keys of the
/// nested objects from the outside in. A value that is itself a string holds it under the empty
/// path; what stands in arrays is not listed.
pub uninterp spec fn strings_of(value: Value) -> Map<Seq<Seq<char>>, Seq<char>>;

/// The strings of the JSON document that a text spells out, by path, or `None` where the text is
/// no JSON document.
pub uninterp spec fn strings_in(text: Seq<char>) -> Option<Map<Seq<Seq<char>>, Seq<char>>>;

/// The entries of `strings` whose path starts with `key`, under the rest of their path.
pub open spec fn under(strings: Map<Seq<Seq<char>>, Seq<char>>, key: Seq<char>) -> Map<
    Seq<Seq<char>>,
    Seq<char>,
> {
    Map::new(
        |path: Seq<Seq<char>>| strings.dom().contains(seq![key] + path),
        |path: Seq<Seq<char>>| strings[seq![key] + path],
    )
}

/// Reads a text as one JSON document, by `serde_json::from_str`. Trusted: whether it succeeds,
/// and the strings of the document that comes back, depend on the text alone.
#[verifier::external_body]
fn parse(text: &str) -> (document: Option<Value>)
    ensures
        match document {
            Some(value) => strings_in(text@) == Some(strings_of(value)),
            None => strings_in(text@) is None,
        },
{
    serde_json::from_str(text).ok()
}

/// The member of an object under a key, by the indexing operator of `serde_json::Value`. Trusted:
/// its strings are those that the object holds under that key. Of a value that has no such
/// member, or is no object, the operator gives `null`, which holds no string.
#[verifier::external_body]
fn member<'a>(value: &'a Value, key: &str) -> (found: &'a Value)
    ensures
        strings_of(*found) == under(strings_of(*value), key@),
{
    &value[key]
}

/// The text of a JSON string, by `serde_json::Value::as_str`. Trusted: it is the string that
/// the value itself is, and `None` of every other value.
pub assume_specification[ serde_json::Value::as_str ](value: &Value) -> (text: Option<&str>)
    ensures
        text is Some <==> strings_of(*value).dom().contains(seq![]),
        text matches Some(s) ==> s@ == strings_of(*value)[seq![]],
;

/// What came of looking for a string in a document.
#[derive(Debug, PartialEq, Eq)]
pub enum Found {
    /// The text is no JSON document.
    NoDocument,
    /// There is no string in that place.
    NoString,
    /// The string that stands there.
    Text(String),
}

/// The string under a key of the object under a key of the document that a text spells out.
pub open spec fn is_found(text: Seq<char>, outer: Seq<char>, inner: Seq<char>, found: Found) -> bool {
    match strings_in(text) {
        None => found is NoDocument,
        Some(strings) => if strings.dom().contains(seq![outer, inner]) {
            found matches Found::Text(s) && s@ == strings[seq![outer, inner]]
        } else {
            found is NoString
        },
    }
}

/// Looks for the string under the key `inner` of the object under the key `outer` of a document.
pub fn string_at(text: &str, outer: &str, inner: &str) -> (found: Found)
    ensures
        is_found(text@, outer@, inner@, found),
{
    let document = match parse(text) {
        Some(document) => document,
        None => return Found::NoDocument,
    };
    proof {
        assert(seq![outer@] + (seq![inner@] + seq![]) =~= seq![outer@, inner@]);
    }
    match member(member(&document, outer), inner).as_str() {
        Some(s) => Found::Text(s.to_owned()),
        None => Found::NoString,
    }
}

} // verus!
