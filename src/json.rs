use vstd::prelude::*;

use crate::rpc::{ErrorField, ErrorFieldView};

verus! {

#[verifier::external_type_specification]
#[verifier::external_body]
pub struct ExValue(serde_json::Value);

/// What reading a bridged-call reply as JSON gives for its `error` member: `None`
/// where the text is no JSON.
pub uninterp spec fn parsed_error_field(payload: Seq<char>) -> Option<ErrorFieldView>;

/// What reading a script-side action reply as JSON gives for its `success` member
/// (where it is a boolean) and its `error` member (where it is a string): `None`
/// where the text is no JSON.
pub uninterp spec fn parsed_action_reply(payload: Seq<char>) -> Option<
    (Option<bool>, Option<Seq<char>>),
>;

/// Relies on `serde_json::from_str` into a `serde_json::Value`, `Value::get` and
/// the variants of `Value`: the reply's `error` member sorted by its kind (any
/// other value as its compact JSON text) and its `result` member; on a text that
/// is no JSON, the parser's description of the fault.
#[verifier::external_body]
pub(crate) fn parse_rpc_reply(payload: &str) -> (r: Result<
    (ErrorField, Option<serde_json::Value>),
    String,
>)
    ensures
        match r {
            Ok((f, _)) => parsed_error_field(payload@) == Some(f@),
            Err(_) => parsed_error_field(payload@) is None,
        },
{
    let v: serde_json::Value = serde_json::from_str(payload).map_err(|e| e.to_string())?;
    let field = match v.get("error") {
        None => ErrorField::Absent,
        Some(serde_json::Value::Null) => ErrorField::Null,
        Some(serde_json::Value::Bool(b)) => ErrorField::Bool(*b),
        Some(serde_json::Value::String(s)) => ErrorField::Text(s.clone()),
        Some(other) => ErrorField::Other(other.to_string()),
    };
    Ok((field, v.get("result").cloned()))
}

/// Relies on `serde_json::from_str` into a `serde_json::Value`, `Value::get` and
/// the variants of `Value`: the reply's `success` member where it is a boolean,
/// its `data` member, and its `error` member where it is a string; on a text that
/// is no JSON, the parser's description of the fault.
#[verifier::external_body]
pub(crate) fn parse_action_reply(payload: &str) -> (r: Result<
    (Option<bool>, Option<serde_json::Value>, Option<String>),
    String,
>)
    ensures
        match r {
            Ok((s, _, e)) => parsed_action_reply(payload@) == Some(
                (
                    s,
                    match e {
                        Some(t) => Some(t@),
                        None => None,
                    },
                ),
            ),
            Err(_) => parsed_action_reply(payload@) is None,
        },
{
    let v: serde_json::Value = serde_json::from_str(payload).map_err(|e| e.to_string())?;
    let success = match v.get("success") {
        Some(serde_json::Value::Bool(b)) => Some(*b),
        _ => None,
    };
    let error = match v.get("error") {
        Some(serde_json::Value::String(s)) => Some(s.clone()),
        _ => None,
    };
    Ok((success, v.get("data").cloned(), error))
}

/// Relies on `serde_json::Value::String`: the JSON string holding `s`.
#[verifier::external_body]
pub(crate) fn json_string(s: String) -> (r: serde_json::Value) {
    serde_json::Value::String(s)
}

/// Relies on `serde_json::Value::Null`: the JSON null value.
#[verifier::external_body]
pub(crate) fn json_null() -> (r: serde_json::Value) {
    serde_json::Value::Null
}

} // verus!
