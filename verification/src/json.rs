//! JSON support through `serde_json`: building the protocol's JSON object
//! texts and reading fields back out of received ones.
//!
//! A JSON object under construction is a `serde_json::Map`; its contents are
//! modelled as a map from each key's characters to the canonical JSON text
//! (the bytes `serde_json::to_vec` produces) of the value stored under it.
//! `serde_json`'s map is a `BTreeMap` underneath, so the serialized text is
//! determined by the contents alone, with keys in sorted order.

use vstd::prelude::*;
use vstd::utf8::valid_utf8;

verus! {

/// `serde_json::Value`, declared so that it can stand in signatures; opaque.
#[verifier::external_type_specification]
#[verifier::external_body]
pub struct ExJsonValue(serde_json::Value);

/// `serde_json::Map`, the crate's JSON object representation.
#[verifier::external_type_specification]
#[verifier::external_body]
#[verifier::reject_recursive_types(K)]
#[verifier::reject_recursive_types(V)]
pub struct ExJsonMap<K, V>(serde_json::Map<K, V>);

/// A JSON object under construction.
pub type JsonObject = serde_json::Map<String, serde_json::Value>;

/// The contents of a JSON object under construction: each key's characters
/// mapped to the canonical JSON text of the value stored under it.
pub uninterp spec fn jmap_model(m: JsonObject) -> Map<
    Seq<char>,
    Seq<u8>,
>;

/// Canonical JSON text of a JSON string value holding the given UTF-8 bytes:
/// what `serde_json` serializes `Value::String` of it to, quotes and escapes
/// included; a function of the bytes alone.
pub uninterp spec fn json_string_repr(s: Seq<u8>) -> Seq<u8>;

/// Canonical JSON text of the object with the given contents: what
/// `serde_json::to_vec` produces for a map holding them.
pub uninterp spec fn json_object_repr(m: Map<Seq<char>, Seq<u8>>) -> Seq<u8>;

/// True when the bytes parse as a JSON object.
pub uninterp spec fn is_json_object(b: Seq<u8>) -> bool;

/// True of objects every one of whose values is a scalar: a string, a
/// boolean, or null. Serializing such an object yields text that nests only
/// one level, so `serde_json`'s parser, which caps recursion at 128 levels,
/// is sure to accept it back; for a deeply nested object it would not be,
/// although the serializer itself has no such limit.
pub uninterp spec fn jmap_shallow(m: JsonObject) -> bool;

/// The contents of an object with nothing stored in it yet.
pub open spec fn empty_model() -> Map<Seq<char>, Seq<u8>> {
    Map::empty()
}

/// The canonical text of JSON `true`.
pub open spec fn spec_true_repr() -> Seq<u8> {
    seq![116u8, 114u8, 117u8, 101u8]
}

/// The canonical text of JSON `false`.
pub open spec fn spec_false_repr() -> Seq<u8> {
    seq![102u8, 97u8, 108u8, 115u8, 101u8]
}

/// The canonical text of JSON `null`.
pub open spec fn spec_null_repr() -> Seq<u8> {
    seq![110u8, 117u8, 108u8, 108u8]
}

/// A fresh, empty JSON object. Relies on `serde_json::Map::new`.
#[verifier::external_body]
pub(crate) fn jmap_new() -> (m: JsonObject)
    ensures
        jmap_model(m) == empty_model(),
        jmap_shallow(m),
{
    serde_json::Map::new()
}

/// Stores a JSON string under `key`. Relies on `serde_json::Map::insert` and
/// `serde_json::Value::String`; when `val` is not valid UTF-8 it returns
/// false and leaves the object unchanged.
#[verifier::external_body]
pub(crate) fn jmap_set_string(
    m: &mut JsonObject,
    key: &str,
    val: &Vec<u8>,
) -> (r: bool)
    ensures
        r == valid_utf8(val@),
        r ==> jmap_model(*final(m)) == jmap_model(*old(m)).insert(key@, json_string_repr(val@)),
        !r ==> jmap_model(*final(m)) == jmap_model(*old(m)),
        jmap_shallow(*old(m)) ==> jmap_shallow(*final(m)),
{
    match core::str::from_utf8(val.as_slice()) {
        Ok(s) => {
            m.insert(key.to_string(), serde_json::Value::String(s.to_string()));
            true
        },
        Err(_) => false,
    }
}

/// Stores a JSON boolean under `key`. Relies on `serde_json::Map::insert`
/// and `serde_json::Value::Bool`.
#[verifier::external_body]
pub(crate) fn jmap_set_bool(
    m: &mut JsonObject,
    key: &str,
    val: bool,
)
    ensures
        jmap_model(*final(m)) == jmap_model(*old(m)).insert(
            key@,
            if val {
                spec_true_repr()
            } else {
                spec_false_repr()
            },
        ),
        jmap_shallow(*old(m)) ==> jmap_shallow(*final(m)),
{
    m.insert(key.to_string(), serde_json::Value::Bool(val));
}

/// Stores JSON `null` under `key`. Relies on `serde_json::Map::insert` and
/// `serde_json::Value::Null`.
#[verifier::external_body]
pub(crate) fn jmap_set_null(m: &mut JsonObject, key: &str)
    ensures
        jmap_model(*final(m)) == jmap_model(*old(m)).insert(key@, spec_null_repr()),
        jmap_shallow(*old(m)) ==> jmap_shallow(*final(m)),
{
    m.insert(key.to_string(), serde_json::Value::Null);
}

/// Serializes a JSON object to its canonical text. Relies on
/// `serde_json::to_vec` on a `Map`, which cannot fail and produces UTF-8.
/// Only a shallow object is promised to parse back: the parser's recursion
/// limit rejects deeply nested text the serializer happily produces.
#[verifier::external_body]
pub(crate) fn jmap_to_bytes(m: &JsonObject) -> (r: Vec<u8>)
    ensures
        r@ == json_object_repr(jmap_model(*m)),
        valid_utf8(r@),
        jmap_shallow(*m) ==> is_json_object(r@),
{
    serde_json::to_vec(m).expect("serializing a JSON object cannot fail")
}

/// True when the bytes parse as a JSON object. Relies on
/// `serde_json::from_slice` deserializing to a `Map`.
#[verifier::external_body]
pub(crate) fn check_json_object(b: &Vec<u8>) -> (r: bool)
    ensures
        r == is_json_object(b@),
{
    serde_json::from_slice::<JsonObject>(b.as_slice()).is_ok()
}

/// The string value stored under `key` in the JSON object `obj`, as UTF-8
/// bytes; nothing when `obj` is not a JSON object, the key is absent, or the
/// value is not a string. A function of the bytes and the key alone.
pub uninterp spec fn json_string_field(obj: Seq<u8>, key: Seq<char>) -> Option<Seq<u8>>;

/// Looks a string field up. Relies on `serde_json::from_slice`, `Map::get`
/// and `Value::as_str`.
#[verifier::external_body]
pub(crate) fn get_string_field(obj: &Vec<u8>, key: &str) -> (r: Option<Vec<u8>>)
    ensures
        (r matches Some(v) ==> json_string_field(obj@, key@) == Some(v@)),
        (r is None ==> json_string_field(obj@, key@) is None),
{
    let map: JsonObject = serde_json::from_slice(obj.as_slice()).ok()?;
    Some(map.get(key)?.as_str()?.as_bytes().to_vec())
}

/// The object stored under `key` in the JSON object `obj`, re-serialized to
/// its canonical text; nothing when absent or not an object.
pub uninterp spec fn json_object_field(obj: Seq<u8>, key: Seq<char>) -> Option<Seq<u8>>;

/// Looks an embedded object up. Relies on `serde_json::from_slice`,
/// `Map::get` and `serde_json::to_vec`.
#[verifier::external_body]
pub(crate) fn get_object_field(obj: &Vec<u8>, key: &str) -> (r: Option<Vec<u8>>)
    ensures
        (r matches Some(v) ==> json_object_field(obj@, key@) == Some(v@)),
        (r is None ==> json_object_field(obj@, key@) is None),
{
    let map: JsonObject = serde_json::from_slice(obj.as_slice()).ok()?;
    match map.get(key)? {
        serde_json::Value::Object(o) => serde_json::to_vec(o).ok(),
        _ => None,
    }
}

/// The unsigned integer stored under `key` in the JSON object `obj`; nothing
/// when absent, not an integer, or out of range.
pub uninterp spec fn json_u64_field(obj: Seq<u8>, key: Seq<char>) -> Option<u64>;

/// Looks an unsigned integer field up. Relies on `serde_json::from_slice`,
/// `Map::get` and `Value::as_u64`.
#[verifier::external_body]
pub(crate) fn get_u64_field(obj: &Vec<u8>, key: &str) -> (r: Option<u64>)
    ensures
        r == json_u64_field(obj@, key@),
{
    let map: JsonObject = serde_json::from_slice(obj.as_slice()).ok()?;
    map.get(key)?.as_u64()
}

/// The array of strings stored under `key` in the JSON object `obj`, each as
/// UTF-8 bytes; nothing when absent, not an array, or holding a non-string.
pub uninterp spec fn json_string_array_field(obj: Seq<u8>, key: Seq<char>) -> Option<Seq<Seq<u8>>>;

/// Looks a string-array field up. Relies on `serde_json::from_slice`,
/// `Map::get` and `Value::as_str` on each element.
#[verifier::external_body]
pub(crate) fn get_string_array_field(obj: &Vec<u8>, key: &str) -> (r: Option<Vec<Vec<u8>>>)
    ensures
        (r matches Some(v) ==> json_string_array_field(obj@, key@) == Some(v.deep_view())),
        (r is None ==> json_string_array_field(obj@, key@) is None),
{
    let map: JsonObject = serde_json::from_slice(obj.as_slice()).ok()?;
    let arr = match map.get(key)? {
        serde_json::Value::Array(a) => a,
        _ => return None,
    };
    let mut out: Vec<Vec<u8>> = Vec::new();
    for v in arr {
        out.push(v.as_str()?.as_bytes().to_vec());
    }
    Some(out)
}

} // verus!
