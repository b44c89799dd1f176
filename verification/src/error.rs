//! The adapter's own failures, kept apart from what a transform reports
//! about its input.

use vstd::prelude::*;
use vstd::string::StringExecFns;

verus! {

/// A key of the configuration mapping.
#[derive(Clone, Copy, Debug, PartialEq, Eq)]
pub enum ConfigKey {
    Filename,
    Code,
    IsTypeScript,
    IsJsx,
    Decorators,
    SourceMaps,
    Target,
}

impl ConfigKey {
    /// The key as the host writes it.
    pub open spec fn name(self) -> Seq<char> {
        match self {
            ConfigKey::Filename => "filename"@,
            ConfigKey::Code => "code"@,
            ConfigKey::IsTypeScript => "is_type_script"@,
            ConfigKey::IsJsx => "is_jsx"@,
            ConfigKey::Decorators => "decorators"@,
            ConfigKey::SourceMaps => "source_maps"@,
            ConfigKey::Target => "target"@,
        }
    }

    /// The key as the host writes it.
    pub fn as_str(self) -> (key: &'static str)
        ensures
            key@ == self.name(),
    {
        match self {
            ConfigKey::Filename => "filename",
            ConfigKey::Code => "code",
            ConfigKey::IsTypeScript => "is_type_script",
            ConfigKey::IsJsx => "is_jsx",
            ConfigKey::Decorators => "decorators",
            ConfigKey::SourceMaps => "source_maps",
            ConfigKey::Target => "target",
        }
    }
}

/// Why a host value is no configuration. The caller can mend each of these.
#[derive(Clone, Copy, Debug, PartialEq, Eq)]
pub enum DecodeError {
    /// The value as a whole is no keyed mapping.
    NotAMapping,
    /// A required key is absent.
    MissingField(ConfigKey),
    /// The value under a key has another type than the schema gives it.
    TypeMismatch(ConfigKey),
    /// The value under a key has the right type and lies outside the range
    /// that the schema allows.
    OutOfRange(ConfigKey),
}

impl DecodeError {
    /// The key that the decoding failed at, where it failed at one.
    pub open spec fn key(self) -> Option<ConfigKey> {
        match self {
            DecodeError::NotAMapping => None,
            DecodeError::MissingField(key) => Some(key),
            DecodeError::TypeMismatch(key) => Some(key),
            DecodeError::OutOfRange(key) => Some(key),
        }
    }

    /// The key that the decoding failed at, where it failed at one.
    pub fn config_key(self) -> (key: Option<ConfigKey>)
        ensures
            key == self.key(),
    {
        match self {
            DecodeError::NotAMapping => None,
            DecodeError::MissingField(key) => Some(key),
            DecodeError::TypeMismatch(key) => Some(key),
            DecodeError::OutOfRange(key) => Some(key),
        }
    }

    /// The words for the way the decoding failed.
    pub open spec fn words(self) -> Seq<char> {
        match self {
            DecodeError::NotAMapping => "not a mapping"@,
            DecodeError::MissingField(_) => "missing field"@,
            DecodeError::TypeMismatch(_) => "type mismatch"@,
            DecodeError::OutOfRange(_) => "out of range"@,
        }
    }

    /// The words for the way the decoding failed.
    pub fn as_str(self) -> (words: &'static str)
        ensures
            words@ == self.words(),
    {
        match self {
            DecodeError::NotAMapping => "not a mapping",
            DecodeError::MissingField(_) => "missing field",
            DecodeError::TypeMismatch(_) => "type mismatch",
            DecodeError::OutOfRange(_) => "out of range",
        }
    }
}

/// Which list of a result an entry stands in.
#[derive(Clone, Copy, Debug, PartialEq, Eq)]
pub enum ResultList {
    Dependencies,
    Diagnostics,
}

impl ResultList {
    /// The list's key in the result.
    pub open spec fn name(self) -> Seq<char> {
        match self {
            ResultList::Dependencies => "dependencies"@,
            ResultList::Diagnostics => "diagnostics"@,
        }
    }

    /// The list's key in the result.
    pub fn as_str(self) -> (name: &'static str)
        ensures
            name@ == self.name(),
    {
        match self {
            ResultList::Dependencies => "dependencies",
            ResultList::Diagnostics => "diagnostics",
        }
    }
}

/// Why a result has no representation in the host's value model.
#[derive(Clone, Copy, Debug, PartialEq, Eq)]
pub enum EncodeError {
    /// The offset of entry `index` of `list` is larger than any integer that
    /// a host number holds exactly.
    NumberOutOfRange { list: ResultList, index: usize, value: u64 },
}

/// A failure of the adapter itself, as opposed to diagnostics about the
/// source that was handed in.
#[derive(Clone, Copy, Debug, PartialEq, Eq)]
pub enum AdapterError {
    Decode(DecodeError),
    Encode(EncodeError),
}

impl AdapterError {
    /// The one-line message of the error: which side failed, how, and at
    /// which key or in which list.
    pub open spec fn message_text(self) -> Seq<char> {
        match self {
            AdapterError::Decode(e) => match e.key() {
                Some(key) => "decode: "@ + e.words() + ": "@ + key.name(),
                None => "decode: "@ + e.words(),
            },
            AdapterError::Encode(EncodeError::NumberOutOfRange { list, .. }) => {
                "encode: number out of range: "@ + list.name()
            },
        }
    }

    /// The one-line message of the error.
    pub fn message(self) -> (text: String)
        ensures
            text@ == self.message_text(),
    {
        match self {
            AdapterError::Decode(e) => {
                let mut text = "decode: ".to_owned();
                text.append(e.as_str());
                match e.config_key() {
                    Some(key) => {
                        text.append(": ");
                        text.append(key.as_str());
                    },
                    None => {},
                }
                text
            },
            AdapterError::Encode(EncodeError::NumberOutOfRange { list, .. }) => {
                let mut text = "encode: number out of range: ".to_owned();
                text.append(list.as_str());
                text
            },
        }
    }
}

} // verus!
