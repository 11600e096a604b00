//! JSON payloads received from the rover: validity of the text carried by
//! the two JSON commands, and extraction of the log entries that a
//! `TransmitLogs` body holds.
//!
//! The `serde_json` crate does the parsing; contracts refer to what it
//! decides through the uninterpreted names below, each a pure function of
//! the text.

use vstd::prelude::*;

verus! {

/// True of text that `serde_json` accepts as a JSON document.  Acceptance
/// depends on the text alone; nothing more is assumed of it.
pub uninterp spec fn is_json(text: Seq<char>) -> bool;

/// Relies on `serde_json::from_str::<Value>`: whether parsing succeeds is
/// a function of the input text alone, which is what [`is_json`] names.
#[verifier::external_body]
pub(crate) fn json_validate(s: &str) -> (r: bool)
    ensures
        r == is_json(s@),
{
    serde_json::from_str::<serde_json::Value>(s).is_ok()
}

/// True of text that parses to a JSON object whose `logs` member is an
/// array: the shape a `TransmitLogs` body must have for its entries to be
/// forwarded.  A pure function of the text.
pub uninterp spec fn has_log_array(text: Seq<char>) -> bool;

/// What the `logs` array of the text holds, element by element: the
/// `severity` number and `msg` string of each element that is an object
/// carrying both, and nothing for a malformed element.  A pure function
/// of the text; nothing is assumed about the values themselves.
pub uninterp spec fn log_entries_of(text: Seq<char>) -> Seq<Option<(u64, Seq<char>)>>;

/// Relies on `serde_json`'s `from_str`, `Value::get`, `Value::as_array`,
/// `Value::as_u64` and `Value::as_str`: parses the text, looks up its
/// `logs` array and hands the elements out as plain values, one for one.
/// Each step is deterministic in the text, so the result is the one that
/// [`log_entries_of`] and [`has_log_array`] name.
#[verifier::external_body]
pub(crate) fn extract_log_entries(text: &str) -> (r: Option<Vec<Option<(u64, String)>>>)
    ensures
        r is Some <==> has_log_array(text@),
        (r matches Some(v) ==> is_json(text@) && v.deep_view() == log_entries_of(text@)),
{
    let root: serde_json::Value = serde_json::from_str(text).ok()?;
    let entries = root.get("logs")?.as_array()?;
    let convert = |entry: &serde_json::Value| match (
        entry.get("severity").and_then(serde_json::Value::as_u64),
        entry.get("msg").and_then(serde_json::Value::as_str),
    ) {
        (Some(severity), Some(msg)) => Some((severity, msg.to_owned())),
        _ => None,
    };
    Some(entries.iter().map(convert).collect())
}

} // verus!
