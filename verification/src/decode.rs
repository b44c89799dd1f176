//! The configuration decoder: from a host value to a typed configuration.

use crate::error::{ConfigKey, DecodeError};
use crate::schema::{Config, ConfigView, Flags};
use crate::value::{find, lookup, members_view, HostValue, Value};
use vstd::prelude::*;

verus! {

/// What a required text key of the mapping `members` holds.
pub open spec fn required_text(members: Seq<(Seq<char>, Value)>, key: ConfigKey) -> Result<
    Seq<char>,
    DecodeError,
> {
    match lookup(members, key.name()) {
        None => Err(DecodeError::MissingField(key)),
        Some(Value::Text(text)) => Ok(text),
        Some(_) => Err(DecodeError::TypeMismatch(key)),
    }
}

/// What a flag of the mapping `members` holds. A flag that is absent, or
/// present as the host's undefined or null, is off.
pub open spec fn optional_flag(members: Seq<(Seq<char>, Value)>, key: ConfigKey) -> Result<
    bool,
    DecodeError,
> {
    match lookup(members, key.name()) {
        None => Ok(false),
        Some(Value::Undefined) => Ok(false),
        Some(Value::Null) => Ok(false),
        Some(Value::Bool(on)) => Ok(on),
        Some(_) => Err(DecodeError::TypeMismatch(key)),
    }
}

/// What the target key of the mapping `members` holds. The target is a
/// number from 0 to `u32::MAX`; absent, undefined or null means that none is
/// set.
pub open spec fn optional_target(members: Seq<(Seq<char>, Value)>) -> Result<
    Option<u32>,
    DecodeError,
> {
    match lookup(members, ConfigKey::Target.name()) {
        None => Ok(None),
        Some(Value::Undefined) => Ok(None),
        Some(Value::Null) => Ok(None),
        Some(Value::Number(n)) => if 0 <= n <= u32::MAX {
            Ok(Some(n as u32))
        } else {
            Err(DecodeError::OutOfRange(ConfigKey::Target))
        },
        Some(_) => Err(DecodeError::TypeMismatch(ConfigKey::Target)),
    }
}

/// The flags that the mapping `members` holds, or the error of the first
/// flag, in the order of the schema, that cannot be read.
pub open spec fn flags_of(members: Seq<(Seq<char>, Value)>) -> Result<Flags, DecodeError> {
    match optional_flag(members, ConfigKey::IsTypeScript) {
        Err(e) => Err(e),
        Ok(is_type_script) => match optional_flag(members, ConfigKey::IsJsx) {
            Err(e) => Err(e),
            Ok(is_jsx) => match optional_flag(members, ConfigKey::Decorators) {
                Err(e) => Err(e),
                Ok(decorators) => match optional_flag(members, ConfigKey::SourceMaps) {
                    Err(e) => Err(e),
                    Ok(source_maps) => Ok(
                        Flags { is_type_script, is_jsx, decorators, source_maps },
                    ),
                },
            },
        },
    }
}

/// The configuration that the mapping `members` holds, or the error of the
/// first key, in the order of the schema, that cannot be read. Keys that the
/// schema does not know are not looked at.
pub open spec fn config_of(members: Seq<(Seq<char>, Value)>) -> Result<ConfigView, DecodeError> {
    match required_text(members, ConfigKey::Filename) {
        Err(e) => Err(e),
        Ok(filename) => match required_text(members, ConfigKey::Code) {
            Err(e) => Err(e),
            Ok(code) => match flags_of(members) {
                Err(e) => Err(e),
                Ok(flags) => match optional_target(members) {
                    Err(e) => Err(e),
                    Ok(target) => Ok(ConfigView { filename, code, flags, target }),
                },
            },
        },
    }
}

/// The configuration that a host value stands for, or why it stands for none.
pub open spec fn decode_spec(value: Value) -> Result<ConfigView, DecodeError> {
    match value {
        Value::Record(members) => config_of(members),
        _ => Err(DecodeError::NotAMapping),
    }
}

/// Whether the typed result `decoded` is the modelled result `expected`.
pub open spec fn decoded_as(
    decoded: Result<Config, DecodeError>,
    expected: Result<ConfigView, DecodeError>,
) -> bool {
    match decoded {
        Ok(config) => expected == Ok::<ConfigView, DecodeError>(config@),
        Err(e) => expected == Err::<ConfigView, DecodeError>(e),
    }
}

fn read_text(members: &Vec<(String, HostValue)>, key: ConfigKey) -> (text: Result<
    String,
    DecodeError,
>)
    ensures
        (match text {
            Ok(s) => required_text(members_view(*members), key) == Ok::<Seq<char>, DecodeError>(s@),
            Err(e) => required_text(members_view(*members), key) == Err::<Seq<char>, DecodeError>(
                e,
            ),
        }),
{
    match find(members, key.as_str()) {
        None => Err(DecodeError::MissingField(key)),
        Some(HostValue::Text(s)) => Ok(s.clone()),
        Some(_) => Err(DecodeError::TypeMismatch(key)),
    }
}

fn read_flag(members: &Vec<(String, HostValue)>, key: ConfigKey) -> (flag: Result<
    bool,
    DecodeError,
>)
    ensures
        flag == optional_flag(members_view(*members), key),
{
    match find(members, key.as_str()) {
        None => Ok(false),
        Some(HostValue::Undefined) => Ok(false),
        Some(HostValue::Null) => Ok(false),
        Some(HostValue::Bool(on)) => Ok(*on),
        Some(_) => Err(DecodeError::TypeMismatch(key)),
    }
}

fn read_target(members: &Vec<(String, HostValue)>) -> (target: Result<Option<u32>, DecodeError>)
    ensures
        target == optional_target(members_view(*members)),
{
    match find(members, ConfigKey::Target.as_str()) {
        None => Ok(None),
        Some(HostValue::Undefined) => Ok(None),
        Some(HostValue::Null) => Ok(None),
        Some(HostValue::Number(n)) => {
            if 0 <= *n && *n <= 4294967295i64 {
                Ok(Some(*n as u32))
            } else {
                Err(DecodeError::OutOfRange(ConfigKey::Target))
            }
        },
        Some(_) => Err(DecodeError::TypeMismatch(ConfigKey::Target)),
    }
}

fn read_flags(members: &Vec<(String, HostValue)>) -> (flags: Result<Flags, DecodeError>)
    ensures
        flags == flags_of(members_view(*members)),
{
    let is_type_script = match read_flag(members, ConfigKey::IsTypeScript) {
        Ok(on) => on,
        Err(e) => { return Err(e); },
    };
    let is_jsx = match read_flag(members, ConfigKey::IsJsx) {
        Ok(on) => on,
        Err(e) => { return Err(e); },
    };
    let decorators = match read_flag(members, ConfigKey::Decorators) {
        Ok(on) => on,
        Err(e) => { return Err(e); },
    };
    let source_maps = match read_flag(members, ConfigKey::SourceMaps) {
        Ok(on) => on,
        Err(e) => { return Err(e); },
    };
    Ok(Flags { is_type_script, is_jsx, decorators, source_maps })
}

/// Decodes a host value into a configuration.
///
/// Succeeds exactly on the mappings that hold every required key with a
/// value of the schema's type; otherwise says which key, first in the order
/// of the schema, is at fault and how. Reads `value` and keeps nothing of it.
pub fn decode(value: &HostValue) -> (decoded: Result<Config, DecodeError>)
    ensures
        decoded_as(decoded, decode_spec(value@)),
{
    match value {
        HostValue::Record(members) => {
            let filename = match read_text(members, ConfigKey::Filename) {
                Ok(text) => text,
                Err(e) => { return Err(e); },
            };
            let code = match read_text(members, ConfigKey::Code) {
                Ok(text) => text,
                Err(e) => { return Err(e); },
            };
            let flags = match read_flags(members) {
                Ok(flags) => flags,
                Err(e) => { return Err(e); },
            };
            let target = match read_target(members) {
                Ok(target) => target,
                Err(e) => { return Err(e); },
            };
            Ok(Config { filename, code, flags, target })
        },
        _ => Err(DecodeError::NotAMapping),
    }
}

} // verus!
