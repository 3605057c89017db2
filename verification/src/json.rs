//! Trusted boundary to the JSON codec, and the verified response-envelope
//! logic built on it.
//!
//! Response bodies are decoded in two stages: first into a generic
//! `serde_json::Value`, so that a concurrency-control token (ETag) taken from
//! a response header can be merged into the structured value when the body
//! does not already carry one, and only then into the caller's typed shape.
//! The structured value is opaque here; what the logic reads of it is named
//! by the uninterpreted functions below, and every trusted wrapper speaks in
//! those names.

use vstd::prelude::*;
use crate::error::{Error, TidalApiError};

verus! {

#[verifier::external_type_specification]
#[verifier::external_body]
pub struct ExValue(serde_json::Value);

/// Relies on serde_json::Value's derived Clone: the clone equals the
/// original value.
pub assume_specification[ <serde_json::Value as Clone>::clone ](v: &serde_json::Value) -> (r:
    serde_json::Value)
    ensures
        r == *v,
;

/// Whether the JSON value is an object.
pub uninterp spec fn json_is_object(v: serde_json::Value) -> bool;

/// Whether the JSON object `v` has a field named `key`.
pub uninterp spec fn json_has_key(v: serde_json::Value, key: Seq<char>) -> bool;

/// The unsigned-integer content of field `key` of `v`, when the field is
/// present and holds one.
pub uninterp spec fn json_u64_field(v: serde_json::Value, key: Seq<char>) -> Option<u64>;

/// The string content of field `key` of `v`, when the field is present and
/// holds one.
pub uninterp spec fn json_str_field(v: serde_json::Value, key: Seq<char>) -> Option<Seq<char>>;

/// The string that `s` denotes when read as one JSON string literal, if it is
/// one.
pub uninterp spec fn json_unquoted(s: Seq<char>) -> Option<Seq<char>>;

/// The structured value that a JSON reading of `bytes` denotes, when the
/// bytes are well-formed JSON; a function of the bytes alone.
pub uninterp spec fn json_parsed(bytes: Seq<u8>) -> Option<serde_json::Value>;

/// Relies on serde_json::from_slice: parses bytes into a generic JSON
/// value. The parse is a deterministic function of the bytes, succeeding
/// exactly on well-formed JSON.
#[verifier::external_body]
pub(crate) fn json_parse(bytes: &[u8]) -> (r: Result<serde_json::Value, String>)
    ensures
        r is Ok <==> json_parsed(bytes@) is Some,
        r matches Ok(v) ==> json_parsed(bytes@) == Some(v),
{
    match serde_json::from_slice::<serde_json::Value>(bytes) {
        Ok(v) => Ok(v),
        Err(e) => Err(e.to_string()),
    }
}

/// Relies on serde_json::Value::is_object.
#[verifier::external_body]
pub(crate) fn json_object_check(v: &serde_json::Value) -> (r: bool)
    ensures
        r == json_is_object(*v),
{
    v.is_object()
}

/// Relies on serde_json::Value::get: whether the object has the field.
#[verifier::external_body]
pub(crate) fn json_contains(v: &serde_json::Value, key: &str) -> (r: bool)
    ensures
        r == json_has_key(*v, key@),
{
    v.get(key).is_some()
}

/// Relies on serde_json::Value::get and Value::as_u64: the field's content as
/// an unsigned integer, when it holds one.
#[verifier::external_body]
pub(crate) fn json_get_u64(v: &serde_json::Value, key: &str) -> (r: Option<u64>)
    ensures
        r == json_u64_field(*v, key@),
        r is Some ==> json_has_key(*v, key@),
{
    v.get(key).and_then(|f| f.as_u64())
}

/// Relies on serde_json::Value::get and Value::as_str: the field's content as
/// a string, when it holds one.
#[verifier::external_body]
pub(crate) fn json_get_string(v: &serde_json::Value, key: &str) -> (r: Option<String>)
    ensures
        r is Some <==> json_str_field(*v, key@) is Some,
        r matches Some(s) ==> json_str_field(*v, key@) == Some(s@),
        r is Some ==> json_has_key(*v, key@),
{
    v.get(key).and_then(|f| f.as_str()).map(|s| s.to_owned())
}

/// Relies on serde_json::Value::as_object_mut and Map::insert: sets the field
/// to the given string, leaving every other field as it was.
#[verifier::external_body]
pub(crate) fn json_insert_string(v: &mut serde_json::Value, key: &str, val: &str)
    requires
        json_is_object(*old(v)),
    ensures
        json_is_object(*final(v)),
        json_has_key(*final(v), key@),
        json_str_field(*final(v), key@) == Some(val@),
        forall|k: Seq<char>|
            k != key@ ==> #[trigger] json_str_field(*final(v), k) == json_str_field(*old(v), k),
        forall|k: Seq<char>|
            k != key@ ==> #[trigger] json_u64_field(*final(v), k) == json_u64_field(*old(v), k),
        forall|k: Seq<char>| k != key@ ==> #[trigger] json_has_key(*final(v), k) == json_has_key(
            *old(v),
            k,
        ),
{
    v.as_object_mut().unwrap().insert(key.to_owned(), serde_json::Value::String(val.to_owned()));
}

/// The JSON-text rendering of field `key` of `v`, when the field is
/// present.
pub uninterp spec fn json_text_field(v: serde_json::Value, key: Seq<char>) -> Option<Seq<char>>;

/// Relies on serde_json::Value::get and Value::to_string: the field
/// rendered as JSON text, when it is present.
#[verifier::external_body]
pub(crate) fn json_field_text(v: &serde_json::Value, key: &str) -> (r: Option<String>)
    ensures
        r is Some <==> json_text_field(*v, key@) is Some,
        r matches Some(s) ==> json_text_field(*v, key@) == Some(s@),
{
    v.get(key).map(|f| f.to_string())
}

/// Relies on serde_json::Value::Null being the null value, which is not an
/// object.
#[verifier::external_body]
pub(crate) fn json_null_value() -> (r: serde_json::Value)
    ensures
        !json_is_object(r),
{
    serde_json::Value::Null
}

/// Relies on serde_json::from_str::<String>: reads `s` as one JSON string
/// literal, if it is one.
#[verifier::external_body]
pub(crate) fn json_unquote(s: &str) -> (r: Option<String>)
    ensures
        r is Some <==> json_unquoted(s@) is Some,
        r matches Some(t) ==> json_unquoted(s@) == Some(t@),
{
    serde_json::from_str::<String>(s).ok()
}

/// An ETag response-header value with one level of JSON string quoting
/// removed, when it carries one; otherwise the value as it came.
pub open spec fn spec_normalize_etag(raw: Seq<char>) -> Seq<char> {
    match json_unquoted(raw) {
        Some(inner) => inner,
        None => raw,
    }
}

/// Normalize a possibly JSON-quoted ETag header value into a bare token.
pub fn normalize_etag(raw: String) -> (r: String)
    ensures
        r@ == spec_normalize_etag(raw@),
{
    match json_unquote(raw.as_str()) {
        Some(inner) => inner,
        None => raw,
    }
}

/// The vendor error body read from a structured value: `status` from its only
/// spelling, `sub_status` accepted in either snake_case or camelCase spelling
/// (the former taking precedence), and the message likewise, defaulting to
/// empty when absent. The result is `Some` exactly when both numeric fields
/// are present and the status fits an HTTP status code.
pub open spec fn spec_api_error(v: serde_json::Value) -> Option<crate::error::ApiErrorView> {
    let status = json_u64_field(v, "status"@);
    let sub = match json_u64_field(v, "sub_status"@) {
        Some(s) => Some(s),
        None => json_u64_field(v, "subStatus"@),
    };
    let msg = match json_str_field(v, "userMessage"@) {
        Some(m) => m,
        None => match json_str_field(v, "user_message"@) {
            Some(m) => m,
            None => Seq::<char>::empty(),
        },
    };
    match (status, sub) {
        (Some(st), Some(sb)) => if st <= u16::MAX as u64 {
            Some(
                crate::error::ApiErrorView { status: st as u16, sub_status: sb, user_message: msg },
            )
        } else {
            None
        },
        _ => None,
    }
}

/// Read a vendor error body from a structured value, accepting both
/// snake_case and camelCase spellings of the sub-status and message fields
/// and defaulting the message to the empty string.
pub fn api_error_from_value(v: &serde_json::Value) -> (r: Option<TidalApiError>)
    ensures
        r is Some <==> spec_api_error(*v) is Some,
        r matches Some(e) ==> spec_api_error(*v) == Some(e@),
{
    let status = match json_get_u64(v, "status") {
        Some(st) => st,
        None => {
            return None;
        },
    };
    if status > u16::MAX as u64 {
        return None;
    }
    let sub_status = match json_get_u64(v, "sub_status") {
        Some(sb) => sb,
        None => match json_get_u64(v, "subStatus") {
            Some(sb) => sb,
            None => {
                return None;
            },
        },
    };
    let user_message = match json_get_string(v, "userMessage") {
        Some(m) => m,
        None => match json_get_string(v, "user_message") {
            Some(m) => m,
            None => String::new(),
        },
    };
    Some(TidalApiError { status: status as u16, sub_status, user_message })
}

/// How a header-derived concurrency token is merged into a decoded body:
/// an object without an "etag" field gets the token written under that
/// reserved name, every other field untouched; an object that already
/// carries the field, and a value that is not an object, stay exactly as
/// they were.
pub open spec fn spec_etag_merged(
    before: serde_json::Value,
    tag: Seq<char>,
    after: serde_json::Value,
) -> bool {
    &&& (json_is_object(before) && !json_has_key(before, "etag"@)) ==> {
        &&& json_str_field(after, "etag"@) == Some(tag)
        &&& forall|k: Seq<char>|
            k != "etag"@ ==> #[trigger] json_str_field(after, k) == json_str_field(before, k)
        &&& forall|k: Seq<char>|
            k != "etag"@ ==> #[trigger] json_u64_field(after, k) == json_u64_field(before, k)
    }
    &&& (json_has_key(before, "etag"@) || !json_is_object(before)) ==> after == before
}

/// Merge a header-derived concurrency token into a decoded response body:
/// when the body is an object that does not already carry an "etag" field,
/// the token is written under that reserved name; a body that carries the
/// field, and a body that is not an object, are left exactly as they were.
pub fn inject_etag(v: &mut serde_json::Value, etag: &str)
    ensures
        spec_etag_merged(*old(v), etag@, *final(v)),
{
    if json_object_check(v) {
        if !json_contains(v, "etag") {
            json_insert_string(v, "etag", etag);
        }
    }
}

/// Decode a response body that arrived with a success status: an empty body
/// stands for the JSON null value; a non-empty body is parsed as a generic
/// structured value — succeeding exactly when the bytes are well-formed
/// JSON — and a header-derived ETag, when one is present, is merged into
/// the parse as `spec_etag_merged` describes.
pub fn decode_success_body(body: &Vec<u8>, etag: Option<&String>) -> (r: Result<
    serde_json::Value,
    Error,
>)
    ensures
        body@.len() == 0 ==> (r matches Ok(v) && !json_is_object(v)),
        body@.len() > 0 ==> (r is Ok <==> json_parsed(body@) is Some),
        r matches Ok(v) ==> (body@.len() > 0 ==> match etag {
            Some(t) => spec_etag_merged(json_parsed(body@).unwrap(), t@, v),
            None => v == json_parsed(body@).unwrap(),
        }),
        r matches Err(e) ==> e is SerdeJson,
{
    if body.len() == 0 {
        return Ok(json_null_value());
    }
    let mut value = match json_parse(body.as_slice()) {
        Ok(v) => v,
        Err(msg) => {
            return Err(Error::SerdeJson(msg));
        },
    };
    if let Some(tag) = etag {
        inject_etag(&mut value, tag.as_str());
    }
    Ok(value)
}

} // verus!
