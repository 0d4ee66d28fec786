//! JSON documents, as `serde_json` parses and prints them.
//!
//! The parser and the printer are not verified. This module gives
//! `serde_json::Value` a mathematical model, [`Json`], and states over that
//! model what each call into `serde_json` returns. Everything else in the
//! crate is proved against these statements.
//!
//! An object is modelled without an order of its members, and [`printed`]
//! is a function of that model: both hold while `serde_json` keeps its
//! sorted map, that is, while nothing in the build turns on its
//! `preserve_order` feature, under which printing follows insertion order.

use serde_json::Value;
use vstd::prelude::*;

verus! {

/// `serde_json::Value`: an owned JSON document. Opaque to the verifier; its
/// content is [`document`].
#[verifier::external_type_specification]
#[verifier::external_body]
pub struct ExValue(serde_json::Value);

/// `serde_json::Error`: why a text is not JSON. Carried, never inspected.
#[verifier::external_type_specification]
#[verifier::external_body]
pub struct ExJsonError(serde_json::Error);

/// The content of a JSON document.
///
/// Numbers come in the three forms `serde_json` keeps apart: a non-negative
/// integer that fits `u64`, a negative integer that fits `i64`, and a finite
/// binary64 float given by its bit pattern. An object is a map from member
/// name to member; member order is not part of the content.
pub enum Json {
    Null,
    Bool(bool),
    Unsigned(u64),
    Negative(i64),
    Float(u64),
    Text(Seq<char>),
    List(Seq<Json>),
    Object(Map<Seq<char>, Json>),
}

/// The content of `v`.
pub uninterp spec fn document(v: Value) -> Json;

/// What `serde_json::from_str::<Value>` makes of `text`: the content of the
/// document it returns, or `None` where it reports an error.
pub uninterp spec fn parsed(text: Seq<char>) -> Option<Json>;

/// The compact text that `serde_json` prints for a document with content
/// `doc`.
pub uninterp spec fn printed(doc: Json) -> Seq<char>;

/// The member `key` of `doc`: `None` unless `doc` is an object that has it.
pub open spec fn member(doc: Json, key: Seq<char>) -> Option<Json> {
    match doc {
        Json::Object(m) => if m.dom().contains(key) {
            Some(m[key])
        } else {
            None
        },
        _ => None,
    }
}

/// The contents of a sequence of documents, in order.
pub open spec fn documents(vs: Seq<Value>) -> Seq<Json> {
    vs.map_values(|v: Value| document(v))
}

/// `serde_json::from_str::<Value>`. Claims that the outcome is a function
/// of the text alone, named [`parsed`].
#[verifier::external_body]
pub(crate) fn parse(text: &str) -> (r: Result<Value, serde_json::Error>)
    ensures
        match r {
            Ok(v) => parsed(text@) == Some(document(v)),
            Err(_) => parsed(text@) is None,
        },
{
    serde_json::from_str::<Value>(text)
}

/// `Value::to_string`, the `Display` form. Claims that the text is a
/// function of the content alone, named [`printed`].
#[verifier::external_body]
pub(crate) fn print(v: &Value) -> (r: String)
    ensures
        r@ == printed(document(*v)),
{
    v.to_string()
}

/// `Value::get` with a string index. Claims that it finds exactly the
/// members of an object, and nothing in any other document.
#[verifier::external_body]
pub(crate) fn get<'a>(v: &'a Value, key: &str) -> (r: Option<&'a Value>)
    ensures
        match r {
            Some(x) => member(document(*v), key@) == Some(document(*x)),
            None => member(document(*v), key@) is None,
        },
{
    v.get(key)
}

/// `Value::as_u64`. Claims `Some` exactly for a non-negative integer that
/// fits `u64`.
#[verifier::external_body]
pub(crate) fn as_u64(v: &Value) -> (r: Option<u64>)
    ensures
        r == match document(*v) {
            Json::Unsigned(n) => Some(n),
            _ => None::<u64>,
        },
{
    v.as_u64()
}

/// `Value::as_str`. Claims `Some` exactly for a string, with its
/// characters.
#[verifier::external_body]
pub(crate) fn as_str<'a>(v: &'a Value) -> (r: Option<&'a str>)
    ensures
        match r {
            Some(s) => document(*v) == Json::Text(s@),
            None => !(document(*v) is Text),
        },
{
    v.as_str()
}

/// `Value::as_array`. Claims `Some` exactly for an array, with its
/// elements in order.
#[verifier::external_body]
pub(crate) fn as_array<'a>(v: &'a Value) -> (r: Option<&'a Vec<Value>>)
    ensures
        match r {
            Some(xs) => document(*v) == Json::List(documents(xs@)),
            None => !(document(*v) is List),
        },
{
    v.as_array()
}

/// `Value::as_bool`. Claims `Some` exactly for a boolean.
#[verifier::external_body]
pub(crate) fn as_bool(v: &Value) -> (r: Option<bool>)
    ensures
        r == match document(*v) {
            Json::Bool(b) => Some(b),
            _ => None::<bool>,
        },
{
    v.as_bool()
}

/// `Value::is_null`.
#[verifier::external_body]
pub(crate) fn is_null(v: &Value) -> (r: bool)
    ensures
        r == (document(*v) is Null),
{
    v.is_null()
}

/// `Value::is_object`.
#[verifier::external_body]
pub(crate) fn is_object(v: &Value) -> (r: bool)
    ensures
        r == (document(*v) is Object),
{
    v.is_object()
}

/// `Value::clone`. Claims that the copy has the same content.
pub assume_specification[ <Value as Clone>::clone ](v: &Value) -> (r: Value)
    ensures
        document(r) == document(*v),
;

/// The variant `Value::Null`.
#[verifier::external_body]
pub(crate) fn null() -> (r: Value)
    ensures
        document(r) == Json::Null,
{
    Value::Null
}

/// `Value::from` on a `bool`.
#[verifier::external_body]
pub(crate) fn boolean(b: bool) -> (r: Value)
    ensures
        document(r) == Json::Bool(b),
{
    Value::from(b)
}

/// `Value::from` on a `u64`.
#[verifier::external_body]
pub(crate) fn unsigned(n: u64) -> (r: Value)
    ensures
        document(r) == Json::Unsigned(n),
{
    Value::from(n)
}

/// `Value::from` on a string slice.
#[verifier::external_body]
pub(crate) fn text(s: &str) -> (r: Value)
    ensures
        document(r) == Json::Text(s@),
{
    Value::from(s)
}

/// The variant `Value::Array`, around the given elements.
#[verifier::external_body]
pub(crate) fn list(items: Vec<Value>) -> (r: Value)
    ensures
        document(r) == Json::List(documents(items@)),
{
    Value::Array(items)
}

/// The variant `Value::Object`, around `serde_json::Map::new`: an object
/// without members.
#[verifier::external_body]
pub(crate) fn object() -> (r: Value)
    ensures
        document(r) == Json::Object(Map::empty()),
{
    Value::Object(serde_json::Map::new())
}

/// `serde_json::Map::insert` on the map of an object. Claims that the
/// member `key` is set to `value`, replacing an earlier member of that name,
/// and that a document which is no object is left as it was.
#[verifier::external_body]
pub(crate) fn insert(target: &mut Value, key: &str, value: Value)
    ensures
        document(*final(target)) == match document(*old(target)) {
            Json::Object(m) => Json::Object(m.insert(key@, document(value))),
            other => other,
        },
{
    if let Value::Object(m) = target {
        m.insert(key.to_owned(), value);
    }
}

} // verus!
