//! The one error type of every store operation.

use serde_json::Error as JsonError;
use vstd::prelude::*;
use vstd::std_specs::convert::FromSpecImpl;
use vstd::string::to_string_from_display_ensures;

verus! {

/// `serde_json::Error`: what went wrong in encoding or decoding JSON.
#[verifier::external_type_specification]
#[verifier::external_body]
pub struct ExJsonError(JsonError);

/// What `serde_json::Error::is_io` answers for the error: whether the
/// fault lies in reading or writing bytes.
pub uninterp spec fn json_error_is_io(err: JsonError) -> bool;

/// What `serde_json::Error::is_syntax` answers for the error: whether the
/// input was not valid JSON.
pub uninterp spec fn json_error_is_syntax(err: JsonError) -> bool;

/// What `serde_json::Error::is_eof` answers for the error: whether the input
/// ended too early.
pub uninterp spec fn json_error_is_eof(err: JsonError) -> bool;

/// `serde_json::Error::is_io`: the answer hangs on the error alone, and is
/// what `json_error_is_io` names.
pub assume_specification[ JsonError::is_io ](err: &JsonError) -> (yes: bool)
    ensures
        yes == json_error_is_io(*err),
;

/// `serde_json::Error::is_syntax`: the answer hangs on the error alone, and
/// is what `json_error_is_syntax` names.
pub assume_specification[ JsonError::is_syntax ](err: &JsonError) -> (yes: bool)
    ensures
        yes == json_error_is_syntax(*err),
;

/// `serde_json::Error::is_eof`: the answer hangs on the error alone, and is
/// what `json_error_is_eof` names.
pub assume_specification[ JsonError::is_eof ](err: &JsonError) -> (yes: bool)
    ensures
        yes == json_error_is_eof(*err),
;

/// What can go wrong in a store.
#[non_exhaustive]
#[derive(Debug, Clone, PartialEq, Eq)]
pub enum Error {
    /// The file system refused a read, a write or a rename.
    Io(String),
    /// The entries could not be encoded.
    Serialize(String),
    /// The bytes could not be decoded into entries.
    Deserialize(String),
    /// The store was configured with something it cannot use.
    Config(String),
}

/// The error that a JSON fault becomes: an I/O fault stays one, broken or
/// truncated JSON is a decoding error, and anything else counts as an
/// encoding error.
pub open spec fn json_fault(is_io: bool, is_syntax: bool, is_eof: bool, message: String) -> Error {
    if is_io {
        Error::Io(message)
    } else if is_syntax || is_eof {
        Error::Deserialize(message)
    } else {
        Error::Serialize(message)
    }
}

impl Error {
    /// The message that the error carries.
    pub open spec fn message(self) -> Seq<char> {
        match self {
            Error::Io(m) => m@,
            Error::Serialize(m) => m@,
            Error::Deserialize(m) => m@,
            Error::Config(m) => m@,
        }
    }

    /// The words that name the error's kind in `to_text`.
    pub open spec fn label(self) -> Seq<char> {
        match self {
            Error::Io(_) => "i/o error: "@,
            Error::Serialize(_) => "serialization error: "@,
            Error::Deserialize(_) => "deserialization error: "@,
            Error::Config(_) => "config error: "@,
        }
    }

    /// The error for a reader: its kind, then its message.
    pub fn to_text(&self) -> (text: String)
        ensures
            text@ == self.label() + self.message(),
    {
        match self {
            Error::Io(m) => String::from_str("i/o error: ").concat(m.as_str()),
            Error::Serialize(m) => String::from_str("serialization error: ").concat(m.as_str()),
            Error::Deserialize(m) => String::from_str("deserialization error: ").concat(
                m.as_str(),
            ),
            Error::Config(m) => String::from_str("config error: ").concat(m.as_str()),
        }
    }

    /// Sorts a JSON fault, given by what `serde_json` says of it and by its
    /// message, into the store's error kinds.
    pub fn from_json_fault(is_io: bool, is_syntax: bool, is_eof: bool, message: String) -> (e:
        Error)
        ensures
            e == json_fault(is_io, is_syntax, is_eof, message),
    {
        if is_io {
            Error::Io(message)
        } else if is_syntax || is_eof {
            Error::Deserialize(message)
        } else {
            Error::Serialize(message)
        }
    }
}

impl From<JsonError> for Error {
    /// Sorts the fault by what `serde_json` says of it, and keeps the
    /// message that its `Display` writes: the result is `json_fault` of the
    /// three answers and of that message.
    fn from(err: JsonError) -> (e: Error)
        ensures
            exists|m: String| #[trigger]
                to_string_from_display_ensures::<JsonError>(&err, m) && e == json_fault(
                    json_error_is_io(err),
                    json_error_is_syntax(err),
                    json_error_is_eof(err),
                    m,
                ),
            e is Io <==> json_error_is_io(err),
            e is Deserialize <==> !json_error_is_io(err) && (json_error_is_syntax(err)
                || json_error_is_eof(err)),
            e is Serialize <==> !json_error_is_io(err) && !json_error_is_syntax(err)
                && !json_error_is_eof(err),
    {
        let message = err.to_string();
        Error::from_json_fault(err.is_io(), err.is_syntax(), err.is_eof(), message)
    }
}

/// The message in `from` is whatever `Display` writes, which is a relation
/// and not a spec function, so `from` states its own contract and `from_spec`
/// stands for nothing.
impl FromSpecImpl<JsonError> for Error {
    open spec fn obeys_from_spec() -> bool {
        false
    }

    open spec fn from_spec(err: JsonError) -> Error {
        arbitrary()
    }
}

} // verus!
