//! Reading JSON text through serde_json.
//!
//! Each read here is one call into serde_json (or std, for UTF-8). Its
//! result is named by a spec function of the input alone; the decoders are
//! verified against these names.
use std::collections::BTreeMap;
use serde_json::value::RawValue;
use serde_json::Error as JsonError;
use vstd::prelude::*;

verus! {

#[verifier::external_type_specification]
#[verifier::external_body]
pub struct ExJsonError(JsonError);

/// The members of a JSON object as serde_json reads them: each key with the
/// text of its value.
pub uninterp spec fn object_members(text: Seq<u8>) -> Option<Seq<(Seq<char>, Seq<u8>)>>;

/// The items of a JSON array as serde_json reads them, each as its text.
pub uninterp spec fn array_items(text: Seq<u8>) -> Option<Seq<Seq<u8>>>;

/// The contents of a JSON string literal.
pub uninterp spec fn string_value(text: Seq<u8>) -> Option<Seq<char>>;

/// The text serde_json prints for a JSON number.
pub uninterp spec fn number_text(text: Seq<u8>) -> Option<Seq<char>>;

/// Whether the text is the JSON `null`.
pub uninterp spec fn is_null(text: Seq<u8>) -> bool;

/// The text of bytes that are valid UTF-8.
pub uninterp spec fn utf8_text(bytes: Seq<u8>) -> Option<Seq<char>>;

pub open spec fn members_view(m: Seq<(String, Vec<u8>)>) -> Seq<(Seq<char>, Seq<u8>)> {
    m.map_values(|p: (String, Vec<u8>)| (p.0@, p.1@))
}

pub open spec fn items_view(v: Seq<Vec<u8>>) -> Seq<Seq<u8>> {
    v.map_values(|x: Vec<u8>| x@)
}

pub open spec fn keys_distinct(m: Seq<(Seq<char>, Seq<u8>)>) -> bool {
    forall|i: int, j: int| 0 <= i < j < m.len() ==> m[i].0 != m[j].0
}

/// Relies on serde_json::from_slice into a `BTreeMap<String, Box<RawValue>>`:
/// it succeeds on a JSON object, and a `BTreeMap` holds each key once.
#[verifier::external_body]
pub(crate) fn read_object(text: &[u8]) -> (r: Result<Vec<(String, Vec<u8>)>, JsonError>)
    ensures
        r is Ok <==> object_members(text@) is Some,
        r matches Ok(m) ==> object_members(text@) == Some(members_view(m@)),
        r matches Ok(m) ==> keys_distinct(members_view(m@)),
{
    serde_json::from_slice::<BTreeMap<String, Box<RawValue>>>(text).map(
        |m| m.into_iter().map(|(k, v)| (k, v.get().as_bytes().to_vec())).collect(),
    )
}

/// Relies on serde_path_to_error::deserialize over serde_json's
/// `Deserializer::from_slice`, then `Deserializer::end`: the same reading as
/// `read_object` (serde_json::from_slice is this deserialize followed by
/// `end`), and on failure the path at which reading stopped.
#[verifier::external_body]
pub(crate) fn read_object_tracked(text: &[u8]) -> (r: Result<
    Vec<(String, Vec<u8>)>,
    (String, JsonError),
>)
    ensures
        r is Ok <==> object_members(text@) is Some,
        r matches Ok(m) ==> object_members(text@) == Some(members_view(m@)),
        r matches Ok(m) ==> keys_distinct(members_view(m@)),
{
    let mut de = serde_json::Deserializer::from_slice(text);
    let m = serde_path_to_error::deserialize::<_, BTreeMap<String, Box<RawValue>>>(&mut de)
        .map_err(|e| (e.path().to_string(), e.into_inner()))?;
    de.end().map_err(|e| (String::new(), e))?;
    Ok(m.into_iter().map(|(k, v)| (k, v.get().as_bytes().to_vec())).collect())
}

/// Relies on serde_json::from_slice into a `Vec<Box<RawValue>>`: it succeeds
/// on a JSON array and keeps the items in order.
#[verifier::external_body]
pub(crate) fn read_array(text: &[u8]) -> (r: Result<Vec<Vec<u8>>, JsonError>)
    ensures
        r is Ok <==> array_items(text@) is Some,
        r matches Ok(v) ==> array_items(text@) == Some(items_view(v@)),
{
    serde_json::from_slice::<Vec<Box<RawValue>>>(text).map(
        |v| v.into_iter().map(|x| x.get().as_bytes().to_vec()).collect(),
    )
}

/// Relies on serde_json::from_slice into a `String`: it succeeds on a JSON
/// string literal and gives its contents.
#[verifier::external_body]
pub(crate) fn read_string(text: &[u8]) -> (r: Result<String, JsonError>)
    ensures
        r is Ok <==> string_value(text@) is Some,
        r matches Ok(s) ==> string_value(text@) == Some(s@),
{
    serde_json::from_slice::<String>(text)
}

/// Relies on serde_json::from_slice into a `serde_json::Number` and on its
/// `to_string`: it succeeds on a JSON number and gives it as text.
#[verifier::external_body]
pub(crate) fn read_number(text: &[u8]) -> (r: Result<String, JsonError>)
    ensures
        r is Ok <==> number_text(text@) is Some,
        r matches Ok(s) ==> number_text(text@) == Some(s@),
{
    serde_json::from_slice::<serde_json::Number>(text).map(|n| n.to_string())
}

/// Relies on serde_json::from_slice into `()`: it succeeds on `null` alone.
#[verifier::external_body]
pub(crate) fn read_null(text: &[u8]) -> (r: bool)
    ensures
        r == is_null(text@),
{
    serde_json::from_slice::<()>(text).is_ok()
}

/// Relies on std::str::from_utf8: it succeeds on valid UTF-8.
#[verifier::external_body]
pub(crate) fn decode_utf8(bytes: &[u8]) -> (r: Option<String>)
    ensures
        r is Some <==> utf8_text(bytes@) is Some,
        r matches Some(s) ==> utf8_text(bytes@) == Some(s@),
{
    std::str::from_utf8(bytes).ok().map(|s| s.to_string())
}

} // verus!
