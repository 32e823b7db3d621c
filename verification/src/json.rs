//! Trusted bridge to the JSON library that carries Twirp error documents.
//!
//! A Twirp error travels as a small JSON object. The runtime's own logic —
//! which fields are read, how missing fields are defaulted, what the object
//! holds — is verified in `errors`; this module only declares the JSON
//! library's value type and gives each library call a contract stating what
//! its source shows. A JSON value itself stays opaque: the contracts speak
//! of it through the named results below.

use vstd::prelude::*;

verus! {

#[verifier::external_type_specification]
#[verifier::external_body]
pub struct ExJsonValue(serde_json::Value);

#[verifier::external_type_specification]
#[verifier::external_body]
pub struct ExJsonError(serde_json::Error);

#[verifier::external_type_specification]
#[verifier::external_body]
#[verifier::reject_recursive_types(K)]
#[verifier::reject_recursive_types(V)]
pub struct ExJsonMap<K, V>(serde_json::Map<K, V>);

/// What `serde_json::Value::get` returns for a string key: the field of a
/// JSON object under that key, or nothing for a missing key or a non-object.
pub uninterp spec fn json_field(v: serde_json::Value, key: Seq<char>) -> Option<serde_json::Value>;

/// What `serde_json::Value::as_str` returns: the characters of a JSON
/// string value, or nothing for any other kind of value.
pub uninterp spec fn json_str(v: serde_json::Value) -> Option<Seq<char>>;

/// The contents of a `serde_json::Map`, keyed by its string keys.
pub uninterp spec fn json_map_model(m: JsonMap) -> Map<Seq<char>, serde_json::Value>;

/// The JSON object map type: string keys to JSON values.
pub type JsonMap = serde_json::Map<String, serde_json::Value>;

/// What `serde_json::to_vec` emits for a JSON value; a function of the
/// value alone (keys are serialized in the map's fixed order).
pub uninterp spec fn json_emitted(v: serde_json::Value) -> Seq<u8>;

/// What `serde_json::from_slice` parses the given bytes into, or nothing
/// when the bytes are not a valid JSON document.
pub uninterp spec fn json_parsed(b: Seq<u8>) -> Option<serde_json::Value>;

/// The string field of a JSON object under `key`: its characters when the
/// field exists and is a string, nothing otherwise.
pub open spec fn json_str_field(v: serde_json::Value, key: Seq<char>) -> Option<Seq<char>> {
    match json_field(v, key) {
        Some(x) => json_str(x),
        None => None,
    }
}

/// Relies on `serde_json::Value::get`: the field of a JSON object under the
/// given key; `None` for a missing key or a non-object.
#[verifier::external_body]
pub fn json_get<'a>(v: &'a serde_json::Value, key: &str) -> (r: Option<&'a serde_json::Value>)
    ensures
        match r {
            Some(x) => json_field(*v, key@) == Some(*x),
            None => json_field(*v, key@) is None,
        },
{
    v.get(key)
}

/// Relies on `serde_json::Value::as_str`: the characters of a JSON string
/// value; `None` for any other kind of value.
#[verifier::external_body]
pub fn json_as_str(v: &serde_json::Value) -> (r: Option<String>)
    ensures
        match r {
            Some(s) => json_str(*v) == Some(s@),
            None => json_str(*v) is None,
        },
{
    v.as_str().map(|s| s.to_string())
}

/// Relies on `serde_json::Value`'s `Clone`: the clone equals the original.
#[verifier::external_body]
pub fn json_clone(v: &serde_json::Value) -> (r: serde_json::Value)
    ensures
        r == *v,
{
    v.clone()
}

/// Relies on `serde_json::Value::String` holding exactly the given
/// characters, which `as_str` then returns.
#[verifier::external_body]
pub fn json_string_value(s: &str) -> (r: serde_json::Value)
    ensures
        json_str(r) == Some(s@),
{
    serde_json::Value::String(s.to_string())
}

/// Relies on `serde_json::Map::new`: a map with no entries.
#[verifier::external_body]
pub fn json_map_new() -> (r: JsonMap)
    ensures
        json_map_model(r).dom() == Set::<Seq<char>>::empty(),
{
    serde_json::Map::new()
}

/// Relies on `serde_json::Map::insert`: the entry under the given key is
/// now the given value, and no other entry changes.
#[verifier::external_body]
pub fn json_map_insert(m: &mut JsonMap, key: String, value: serde_json::Value)
    ensures
        json_map_model(*final(m)) == json_map_model(*old(m)).insert(key@, value),
{
    m.insert(key, value);
}

/// Relies on `serde_json::Value::Object` and `Value::get`: a field of the
/// object value is exactly the map's entry under that key.
#[verifier::external_body]
pub fn json_object(m: JsonMap) -> (r: serde_json::Value)
    ensures
        forall|k: Seq<char>|
            #[trigger] json_field(r, k) == if json_map_model(m).dom().contains(k) {
                Some(json_map_model(m)[k])
            } else {
                None::<serde_json::Value>
            },
{
    serde_json::Value::Object(m)
}

/// Relies on `serde_json::to_vec`: serializing a JSON value cannot fail
/// — its numbers are finite, its keys are strings, and the buffer is a
/// growable vector — and the bytes are the value's JSON serialization.
#[verifier::external_body]
pub fn json_to_vec(v: &serde_json::Value) -> (r: Result<Vec<u8>, serde_json::Error>)
    ensures
        r is Ok,
        r matches Ok(b) ==> b@ == json_emitted(*v),
{
    serde_json::to_vec(v)
}

/// Relies on `serde_json::from_slice`: succeeds exactly on valid JSON
/// bytes, and the parsed value is a function of the bytes.
#[verifier::external_body]
pub fn json_from_slice(b: &[u8]) -> (r: Result<serde_json::Value, serde_json::Error>)
    ensures
        (r is Ok) == (json_parsed(b@) is Some),
        r matches Ok(v) ==> json_parsed(b@) == Some(v),
{
    serde_json::from_slice(b)
}

} // verus!
