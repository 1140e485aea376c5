//! JSON texts of plain values, written and read by `serde_json`.
//!
//! Nothing in this module is proved. Each function makes one call into
//! `serde_json` and hands the result on; what the call returns is given a
//! name, and the rest of the library states its contracts over these names.

use crate::text::{bytes_view, text_view};
use crate::time::Timestamp;
use std::collections::BTreeMap;
use vstd::prelude::*;

verus! {

/// The JSON text of a string: what `serde_json::to_string` returns for it.
pub uninterp spec fn json_text_of_string(s: Seq<char>) -> Option<Seq<char>>;

/// The JSON text of a seat count: what `serde_json::to_string` returns for it.
pub uninterp spec fn json_text_of_seats(seats: Option<i32>) -> Option<Seq<char>>;

/// The JSON text of a byte string: what `serde_json::to_string` returns for
/// the slice.
pub uninterp spec fn json_text_of_bytes(bytes: Seq<u8>) -> Option<Seq<char>>;

/// The JSON text of an instant: what `serde_json::to_string` returns for the
/// `chrono::DateTime<Utc>` that `DateTime::from_timestamp` makes of it.
pub uninterp spec fn json_text_of_timestamp(secs: i64, nanos: u32) -> Option<Seq<char>>;

/// The members of a JSON object, each with the text of its value, in the
/// order of their names: what `serde_json::from_slice` returns for a map from
/// `String` to `RawValue`.
pub uninterp spec fn json_members_of(doc: Seq<u8>) -> Option<Seq<(Seq<char>, Seq<char>)>>;

/// The string that a JSON text holds: what `serde_json::from_str` returns
/// for a `String`.
pub uninterp spec fn json_string_of(text: Seq<char>) -> Option<Seq<char>>;

/// The seat count that a JSON text holds: what `serde_json::from_str` returns
/// for an `Option<i32>`.
pub uninterp spec fn json_seats_of(text: Seq<char>) -> Option<Option<i32>>;

/// The byte string that a JSON text holds: what `serde_json::from_str`
/// returns for a `Vec<u8>`.
pub uninterp spec fn json_bytes_of(text: Seq<char>) -> Option<Seq<u8>>;

/// The instant that a JSON text holds: `timestamp()` and
/// `timestamp_subsec_nanos()` of what `serde_json::from_str` returns for a
/// `chrono::DateTime<Utc>`.
pub uninterp spec fn json_timestamp_of(text: Seq<char>) -> Option<(i64, u32)>;

/// The view of the members of an object.
pub open spec fn members_view(members: Seq<(String, String)>) -> Seq<(Seq<char>, Seq<char>)> {
    Seq::new(members.len(), |i: int| (members[i].0@, members[i].1@))
}

/// The view of members that may be missing.
pub open spec fn opt_members_view(members: Option<Vec<(String, String)>>) -> Option<
    Seq<(Seq<char>, Seq<char>)>,
> {
    match members {
        Some(m) => Some(members_view(m@)),
        None => None,
    }
}

/// Calls `serde_json::to_string` on a string. The result is the JSON text of
/// `s`, quoted and escaped, or `None` where the call fails.
#[verifier::external_body]
pub(crate) fn write_string(s: &str) -> (r: Option<String>)
    ensures
        text_view(r) == json_text_of_string(s@),
{
    serde_json::to_string(s).ok()
}

/// Calls `serde_json::to_string` on a seat count. The result is `null` or a
/// decimal number, or `None` where the call fails.
#[verifier::external_body]
pub(crate) fn write_seats(seats: Option<i32>) -> (r: Option<String>)
    ensures
        text_view(r) == json_text_of_seats(seats),
{
    serde_json::to_string(&seats).ok()
}

/// Calls `serde_json::to_string` on a byte slice. The result is a JSON array
/// of numbers, or `None` where the call fails.
#[verifier::external_body]
pub(crate) fn write_bytes(bytes: &[u8]) -> (r: Option<String>)
    ensures
        text_view(r) == json_text_of_bytes(bytes@),
{
    serde_json::to_string(bytes).ok()
}

/// Calls `chrono::DateTime::from_timestamp` and then `serde_json::to_string`
/// on the date. The result is an RFC 3339 text in quotes, or `None` where
/// chrono has no date for the instant or the second call fails.
#[verifier::external_body]
pub(crate) fn write_timestamp(at: Timestamp) -> (r: Option<String>)
    ensures
        text_view(r) == json_text_of_timestamp(at.secs, at.nanos),
{
    let date = chrono::DateTime::from_timestamp(at.secs, at.nanos)?;
    serde_json::to_string(&date).ok()
}

/// Calls `serde_json::from_slice` for a map from `String` to `RawValue`, and
/// takes from each `RawValue` its text with `get`. The result holds the
/// members of the object that `doc` is, or `None` where `doc` is not one
/// JSON object.
#[verifier::external_body]
pub(crate) fn read_members(doc: &[u8]) -> (r: Option<Vec<(String, String)>>)
    ensures
        opt_members_view(r) == json_members_of(doc@),
{
    let members: BTreeMap<String, Box<serde_json::value::RawValue>> =
        serde_json::from_slice(doc).ok()?;
    Some(members.into_iter().map(|(name, value)| (name, value.get().to_string())).collect())
}

/// Calls `serde_json::from_str` for a `String`. The result is the string
/// that `text` holds, or `None` where `text` is not one JSON string.
#[verifier::external_body]
pub(crate) fn read_string(text: &str) -> (r: Option<String>)
    ensures
        text_view(r) == json_string_of(text@),
{
    serde_json::from_str::<String>(text).ok()
}

/// Calls `serde_json::from_str` for an `Option<i32>`. The result is `None`
/// inside `Some` for `null`, the number for an integer that fits, and `None`
/// for any other text.
#[verifier::external_body]
pub(crate) fn read_seats(text: &str) -> (r: Option<Option<i32>>)
    ensures
        r == json_seats_of(text@),
{
    serde_json::from_str::<Option<i32>>(text).ok()
}

/// Calls `serde_json::from_str` for a `Vec<u8>`. The result holds the numbers
/// of the array that `text` is, or `None` where `text` is not a JSON array of
/// numbers from 0 to 255.
#[verifier::external_body]
pub(crate) fn read_bytes(text: &str) -> (r: Option<Vec<u8>>)
    ensures
        bytes_view(r) == json_bytes_of(text@),
{
    serde_json::from_str::<Vec<u8>>(text).ok()
}

/// Calls `serde_json::from_str` for a `chrono::DateTime<Utc>` and takes the
/// date apart with `timestamp` and `timestamp_subsec_nanos`. The result is
/// `None` where `text` is not an RFC 3339 date in quotes.
#[verifier::external_body]
pub(crate) fn read_timestamp(text: &str) -> (r: Option<(i64, u32)>)
    ensures
        r == json_timestamp_of(text@),
{
    let date = serde_json::from_str::<chrono::DateTime<chrono::Utc>>(text).ok()?;
    Some((date.timestamp(), date.timestamp_subsec_nanos()))
}

} // verus!
