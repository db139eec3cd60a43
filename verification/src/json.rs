//! Field access into JSON response bodies, through serde_json.
//!
//! A token endpoint answers with a JSON object (RFC 6749 sections 5.1 and
//! 5.2). These trusted accessors read one top-level field of the body at a
//! time as a plain value; every further interpretation — error-code
//! classification, token-type folding, scope splitting — happens in verified
//! code on what they hand back.

use vstd::prelude::*;

verus! {

/// How the top-level JSON object of `body` holds the string field `key`:
/// `Err(())` when the body is not a JSON object at all, or holds `key` with
/// a value that is neither a string nor null; `Ok(None)` when `key` is
/// absent or null; `Ok(Some(s))` when `key` holds the string `s`.
pub uninterp spec fn json_string_field(body: Seq<u8>, key: Seq<char>) -> Result<
    Option<Seq<char>>,
    (),
>;

/// As [`json_string_field`], for a field holding an unsigned 64-bit integer.
pub uninterp spec fn json_u64_field(body: Seq<u8>, key: Seq<char>) -> Result<Option<u64>, ()>;

/// Relies on `serde_json::from_slice` and `serde_json::Value::get`: parses
/// the body and reads one top-level string field, as described by
/// [`json_string_field`].
#[verifier::external_body]
pub(crate) fn get_string_field(body: &[u8], key: &str) -> (r: Result<Option<String>, ()>)
    ensures
        json_string_field(body@, key@) == (match r {
            Ok(Some(ref s)) => Ok::<Option<Seq<char>>, ()>(Some(s@)),
            Ok(None) => Ok(None),
            Err(()) => Err(()),
        }),
{
    let v: serde_json::Value = match serde_json::from_slice(body) {
        Ok(v) => v,
        Err(_) => return Err(()),
    };
    if !v.is_object() {
        return Err(());
    }
    match v.get(key) {
        None | Some(serde_json::Value::Null) => Ok(None),
        Some(serde_json::Value::String(s)) => Ok(Some(s.clone())),
        Some(_) => Err(()),
    }
}

/// Relies on `serde_json::from_slice`, `serde_json::Value::get` and
/// `serde_json::Number::as_u64`: parses the body and reads one top-level
/// unsigned integer field, as described by [`json_u64_field`].
#[verifier::external_body]
pub(crate) fn get_u64_field(body: &[u8], key: &str) -> (r: Result<Option<u64>, ()>)
    ensures
        json_u64_field(body@, key@) == (match r {
            Ok(Some(n)) => Ok::<Option<u64>, ()>(Some(n)),
            Ok(None) => Ok(None),
            Err(()) => Err(()),
        }),
{
    let v: serde_json::Value = match serde_json::from_slice(body) {
        Ok(v) => v,
        Err(_) => return Err(()),
    };
    if !v.is_object() {
        return Err(());
    }
    match v.get(key) {
        None | Some(serde_json::Value::Null) => Ok(None),
        Some(serde_json::Value::Number(n)) => n.as_u64().map(Some).ok_or(()),
        Some(_) => Err(()),
    }
}

} // verus!
