//! The export surface for a host that loads the adapter as a WebAssembly
//! module: every call returns a two-arm value, and adapter errors fill the
//! error arm.

use crate::error::{AdapterError, ConfigKey, DecodeError, EncodeError};
use crate::outcome::{accepts, answers, call, CallOutcome, OutcomeView};
use crate::schema::{Config, Diagnostics, Output};
use crate::value::{
    is_safe_integer, members_view, push_member, HostValue, Value, MAX_SAFE_INTEGER,
};
use vstd::prelude::*;

verus! {

/// The name under which the entry point is exported.
pub const EXPORT_NAME: &'static str = "transform";

/// The key that a decoding failed at, as the host reads it.
pub open spec fn key_value(key: Option<ConfigKey>) -> Value {
    match key {
        Some(key) => Value::Text(key.name()),
        None => Value::Undefined,
    }
}

/// A place in a list as the host reads it: a number, where a host number
/// holds it exactly.
pub open spec fn index_value(index: usize) -> Value {
    if is_safe_integer(index as int) {
        Value::Number(index as int)
    } else {
        Value::Undefined
    }
}

/// The host value that fills the error arm for an adapter error: a record
/// that says which side failed, how, and where.
pub open spec fn error_value(e: AdapterError) -> Value {
    match e {
        AdapterError::Decode(d) => Value::Record(
            seq![
                ("error"@, Value::Text("decode"@)),
                ("reason"@, Value::Text(d.words())),
                ("key"@, key_value(d.key())),
            ],
        ),
        AdapterError::Encode(EncodeError::NumberOutOfRange { list, index, .. }) => Value::Record(
            seq![
                ("error"@, Value::Text("encode"@)),
                ("reason"@, Value::Text("number out of range"@)),
                ("list"@, Value::Text(list.name())),
                ("index"@, index_value(index)),
            ],
        ),
    }
}

/// What the host gets of an outcome: the success arm with the output or the
/// diagnostics, or the error arm with the adapter error as a host value.
pub open spec fn reply_spec(outcome: OutcomeView) -> Result<Value, Value> {
    match outcome {
        OutcomeView::Success(value) => Ok(value),
        OutcomeView::InputDiagnostics(value) => Ok(value),
        OutcomeView::AdapterError(e) => Err(error_value(e)),
    }
}

/// The model of what the host gets.
pub open spec fn reply_view(reply: Result<HostValue, HostValue>) -> Result<Value, Value> {
    match reply {
        Ok(value) => Ok(value@),
        Err(value) => Err(value@),
    }
}

/// Whether `reply` is something that the host may get from the entry point
/// on `value` with `core` as the transform: what this host's convention
/// makes of a way for the call to end.
pub open spec fn may_reply<F: FnOnce(Config) -> Result<Output, Diagnostics>>(
    value: Value,
    core: F,
    reply: Result<Value, Value>,
) -> bool {
    exists|outcome: OutcomeView| #[trigger]
        answers(value, core, outcome) && reply == reply_spec(outcome)
}

fn decode_error_value(e: DecodeError) -> (value: HostValue)
    ensures
        value@ == error_value(AdapterError::Decode(e)),
{
    let key = match e.config_key() {
        Some(key) => HostValue::Text(key.as_str().to_owned()),
        None => HostValue::Undefined,
    };
    let mut members: Vec<(String, HostValue)> = Vec::new();
    assert(members_view(members) =~= Seq::empty());
    push_member(&mut members, "error", HostValue::Text("decode".to_owned()));
    push_member(&mut members, "reason", HostValue::Text(e.as_str().to_owned()));
    push_member(&mut members, "key", key);
    assert(members_view(members) =~= error_value(AdapterError::Decode(e))->Record_0);
    HostValue::Record(members)
}

fn encode_error_value(e: EncodeError) -> (value: HostValue)
    ensures
        value@ == error_value(AdapterError::Encode(e)),
{
    match e {
        EncodeError::NumberOutOfRange { list, index, .. } => {
            let index_number = if index as u64 <= MAX_SAFE_INTEGER {
                HostValue::Number(index as i64)
            } else {
                HostValue::Undefined
            };
            let mut members: Vec<(String, HostValue)> = Vec::new();
            assert(members_view(members) =~= Seq::empty());
            push_member(&mut members, "error", HostValue::Text("encode".to_owned()));
            push_member(&mut members, "reason", HostValue::Text("number out of range".to_owned()));
            push_member(&mut members, "list", HostValue::Text(list.as_str().to_owned()));
            push_member(&mut members, "index", index_number);
            assert(members_view(members) =~= error_value(AdapterError::Encode(e))->Record_0);
            HostValue::Record(members)
        },
    }
}

/// Writes an adapter error as the host value that fills the error arm.
pub fn error_to_value(e: AdapterError) -> (value: HostValue)
    ensures
        value@ == error_value(e),
{
    match e {
        AdapterError::Decode(d) => decode_error_value(d),
        AdapterError::Encode(n) => encode_error_value(n),
    }
}

/// Maps an outcome to this host's convention: one of two arms, never both.
pub fn reply(outcome: CallOutcome) -> (reply: Result<HostValue, HostValue>)
    ensures
        reply_view(reply) == reply_spec(outcome@),
{
    match outcome {
        CallOutcome::Success(value) => Ok(value),
        CallOutcome::InputDiagnostics(value) => Ok(value),
        CallOutcome::AdapterError(e) => Err(error_to_value(e)),
    }
}

/// The entry point: transforms the source that the configuration `value`
/// describes, with `core` as the transform.
///
/// The success arm holds the output or the diagnostics as a host value. The
/// error arm is filled exactly where the adapter could not decode `value`
/// or encode what `core` returned.
pub fn transform<F>(value: &HostValue, core: F) -> (reply: Result<HostValue, HostValue>) where
    F: FnOnce(Config) -> Result<Output, Diagnostics>,

    requires
        accepts(value@, core),
    ensures
        may_reply(value@, core, reply_view(reply)),
{
    let outcome = call(value, core);
    self::reply(outcome)
}

} // verus!
