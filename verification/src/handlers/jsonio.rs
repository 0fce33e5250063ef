//! JSON access for the demo handlers, through serde_json.
//!
//! What serde_json computes is a pure function of its input, but far too
//! large to restate; each operation's result is therefore named by an
//! uninterpreted function, and the handlers' contracts speak of those
//! names.

use vstd::prelude::*;

verus! {

/// The string under `key` in the object that `bytes` parses to — nothing
/// when `bytes` is not a JSON object holding a string there.
pub uninterp spec fn json_str_field(bytes: Seq<u8>, key: Seq<char>) -> Option<Seq<char>>;

/// The string under `key` inside the object under `"state"` — nothing
/// when any level is missing or of the wrong shape.
pub uninterp spec fn json_state_str_field(bytes: Seq<u8>, key: Seq<char>) -> Option<Seq<char>>;

/// The serde_json serialization of the one-entry object `{"name": name}`.
pub uninterp spec fn json_name_obj(name: Seq<char>) -> Seq<u8>;

/// Relies on serde_json's `from_slice`, `Value::get` and `Value::as_str`:
/// deterministic in `bytes` and `key`, `Some` exactly when the bytes
/// parse to an object with a string under the key.
#[verifier::external_body]
pub fn json_string_field(bytes: &[u8], key: &str) -> (r: Option<String>)
    ensures
        r matches Some(s) ==> json_str_field(bytes@, key@) == Some(s@),
        r is None ==> json_str_field(bytes@, key@) is None,
{
    let v: serde_json::Value = match serde_json::from_slice(bytes) {
        Ok(v) => v,
        Err(_) => return None,
    };
    match v.get(key) {
        Some(f) => f.as_str().map(|s| s.to_owned()),
        None => None,
    }
}

/// Relies on the same serde_json calls, one object deeper: the string
/// under `key` inside the object under `"state"`.
#[verifier::external_body]
pub fn json_state_string_field(bytes: &[u8], key: &str) -> (r: Option<String>)
    ensures
        r matches Some(s) ==> json_state_str_field(bytes@, key@) == Some(s@),
        r is None ==> json_state_str_field(bytes@, key@) is None,
{
    let v: serde_json::Value = match serde_json::from_slice(bytes) {
        Ok(v) => v,
        Err(_) => return None,
    };
    match v.get("state").and_then(|s| s.get(key)) {
        Some(f) => f.as_str().map(|s| s.to_owned()),
        None => None,
    }
}

/// Relies on serde_json's `to_vec` of a built `Value`: deterministic in
/// the name.
#[verifier::external_body]
pub fn json_name_object(name: &str) -> (r: Vec<u8>)
    ensures
        r@ == json_name_obj(name@),
{
    let mut map = serde_json::Map::new();
    map.insert(String::from("name"), serde_json::Value::String(name.to_string()));
    serde_json::to_vec(&serde_json::Value::Object(map)).unwrap_or_default()
}

} // verus!
