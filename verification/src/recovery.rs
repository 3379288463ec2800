//! Best-effort recovery from a response that failed the typed decode:
//! parse the raw body as generic JSON and, if the upstream's success shape
//! is recognizable, salvage the trailing event id so the cursor can move
//! past the offending batch. Without this, a single malformed item would
//! make the same batch be fetched forever.

use vstd::prelude::*;

verus! {

/// The shallow facts the recovery heuristic reads from the raw body,
/// as plain values.
#[derive(Clone, Copy, Debug, PartialEq, Eq, Structural)]
pub struct JsonShallow {
    /// `Some(b)` exactly when the body is a JSON object whose `"ok"`
    /// member is the boolean `b`.
    pub ok: Option<bool>,
    /// `Some(id)` exactly when the body is a JSON object whose `"result"`
    /// member is a non-empty array whose last element is an object with an
    /// integer `"update_id"` member equal to `id`.
    pub last_id: Option<i64>,
}

/// The shallow view of a byte sequence as a JSON document. Fully
/// determined by the bytes; what it is on given bytes is stated only by
/// `shallow_parse`.
pub uninterp spec fn shallow_of(data: Seq<u8>) -> JsonShallow;

/// Relies on serde_json: `from_slice` to parse the body, and
/// `Value::as_object`, `Map::get`, `Value::as_bool`, `Value::as_array`,
/// `Value::get` and `Value::as_i64` to project out the two facts named by
/// `JsonShallow`. A body that is not valid JSON, or not an object, has
/// both fields `None`.
#[verifier::external_body]
fn shallow_parse(data: &[u8]) -> (r: JsonShallow)
    ensures
        r == shallow_of(data@),
{
    let v: Option<serde_json::Value> = serde_json::from_slice(data).ok();
    let m = v.as_ref().and_then(|x| x.as_object());
    JsonShallow {
        ok: m.and_then(|m| m.get("ok")).and_then(|x| x.as_bool()),
        last_id: m
            .and_then(|m| m.get("result"))
            .and_then(|x| x.as_array())
            .and_then(|a| a.last())
            .and_then(|x| x.get("update_id"))
            .and_then(|x| x.as_i64()),
    }
}

/// The id the recovery heuristic salvages from a shallow view: the
/// trailing id, but only out of a response that claims success.
pub open spec fn recovery_spec(s: JsonShallow) -> Option<i64> {
    if s.ok == Some(true) {
        s.last_id
    } else {
        None
    }
}

/// Try to salvage a usable next-cursor id from the raw body of a response
/// that failed the typed decode.
pub fn may_recover_from_error(data: &[u8]) -> (r: Option<i64>)
    ensures
        r == recovery_spec(shallow_of(data@)),
{
    let s = shallow_parse(data);
    match s.ok {
        Some(true) => s.last_id,
        _ => None,
    }
}

} // verus!
