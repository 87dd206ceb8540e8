//! The conversion layer: one standing conversion from each wrapped failure type
//! into an `Error` of the matching kind.
//!
//! Every conversion is total and keeps the failure value as it was given.

use super::{lemma_new_holds_kind, new, spec_new, Error, ErrorKind};
use vstd::prelude::*;
use vstd::std_specs::convert::FromSpec;

verus! {

impl From<std::io::Error> for Error {
    fn from(source: std::io::Error) -> (e: Error)
        ensures
            e@ == ErrorKind::IO(source),
    {
        new(ErrorKind::IO(source))
    }
}

impl vstd::std_specs::convert::FromSpecImpl<std::io::Error> for Error {
    open spec fn obeys_from_spec() -> bool {
        true
    }

    open spec fn from_spec(source: std::io::Error) -> Error {
        spec_new(ErrorKind::IO(source))
    }
}

impl From<parity_wasm::elements::Error> for Error {
    fn from(source: parity_wasm::elements::Error) -> (e: Error)
        ensures
            e@ == ErrorKind::WasmElement(source),
    {
        new(ErrorKind::WasmElement(source))
    }
}

impl vstd::std_specs::convert::FromSpecImpl<parity_wasm::elements::Error> for Error {
    open spec fn obeys_from_spec() -> bool {
        true
    }

    open spec fn from_spec(source: parity_wasm::elements::Error) -> Error {
        spec_new(ErrorKind::WasmElement(source))
    }
}

impl From<serde_json::error::Error> for Error {
    fn from(source: serde_json::error::Error) -> (e: Error)
        ensures
            e@ == ErrorKind::Serialize(source),
    {
        new(ErrorKind::Serialize(source))
    }
}

impl vstd::std_specs::convert::FromSpecImpl<serde_json::error::Error> for Error {
    open spec fn obeys_from_spec() -> bool {
        true
    }

    open spec fn from_spec(source: serde_json::error::Error) -> Error {
        spec_new(ErrorKind::Serialize(source))
    }
}

impl From<base64::DecodeError> for Error {
    fn from(source: base64::DecodeError) -> (e: Error)
        ensures
            e@ == ErrorKind::Decode(source),
    {
        new(ErrorKind::Decode(source))
    }
}

impl vstd::std_specs::convert::FromSpecImpl<base64::DecodeError> for Error {
    open spec fn obeys_from_spec() -> bool {
        true
    }

    open spec fn from_spec(source: base64::DecodeError) -> Error {
        spec_new(ErrorKind::Decode(source))
    }
}

impl From<nkeys::error::Error> for Error {
    fn from(source: nkeys::error::Error) -> (e: Error)
        ensures
            e@ == ErrorKind::Encryption(source),
    {
        new(ErrorKind::Encryption(source))
    }
}

impl vstd::std_specs::convert::FromSpecImpl<nkeys::error::Error> for Error {
    open spec fn obeys_from_spec() -> bool {
        true
    }

    open spec fn from_spec(source: nkeys::error::Error) -> Error {
        spec_new(ErrorKind::Encryption(source))
    }
}

impl From<std::string::FromUtf8Error> for Error {
    fn from(source: std::string::FromUtf8Error) -> (e: Error)
        ensures
            e@ == ErrorKind::UTF8(source),
    {
        new(ErrorKind::UTF8(source))
    }
}

impl vstd::std_specs::convert::FromSpecImpl<std::string::FromUtf8Error> for Error {
    open spec fn obeys_from_spec() -> bool {
        true
    }

    open spec fn from_spec(source: std::string::FromUtf8Error) -> Error {
        spec_new(ErrorKind::UTF8(source))
    }
}

/// Converting an I/O failure gives an error of kind `IO` that holds that very
/// failure.
pub proof fn lemma_from_io_keeps_source(source: std::io::Error)
    ensures
        *Error::from_spec(source).kind() == ErrorKind::IO(source),
        Error::from_spec(source).kind().is_wrapping(),
{
    lemma_new_holds_kind(ErrorKind::IO(source));
}

/// Converting a module-parsing failure gives an error of kind `WasmElement`
/// that holds that very failure.
pub proof fn lemma_from_wasm_keeps_source(source: parity_wasm::elements::Error)
    ensures
        *Error::from_spec(source).kind() == ErrorKind::WasmElement(source),
        Error::from_spec(source).kind().is_wrapping(),
{
    lemma_new_holds_kind(ErrorKind::WasmElement(source));
}

/// Converting a serialization failure gives an error of kind `Serialize` that
/// holds that very failure.
pub proof fn lemma_from_json_keeps_source(source: serde_json::error::Error)
    ensures
        *Error::from_spec(source).kind() == ErrorKind::Serialize(source),
        Error::from_spec(source).kind().is_wrapping(),
{
    lemma_new_holds_kind(ErrorKind::Serialize(source));
}

/// Converting a base64 decoding failure gives an error of kind `Decode` that
/// holds that very failure.
pub proof fn lemma_from_base64_keeps_source(source: base64::DecodeError)
    ensures
        *Error::from_spec(source).kind() == ErrorKind::Decode(source),
        Error::from_spec(source).kind().is_wrapping(),
{
    lemma_new_holds_kind(ErrorKind::Decode(source));
}

/// Converting a key or signature failure gives an error of kind `Encryption`
/// that holds that very failure.
pub proof fn lemma_from_nkeys_keeps_source(source: nkeys::error::Error)
    ensures
        *Error::from_spec(source).kind() == ErrorKind::Encryption(source),
        Error::from_spec(source).kind().is_wrapping(),
{
    lemma_new_holds_kind(ErrorKind::Encryption(source));
}

/// Converting a text-decoding failure gives an error of kind `UTF8` that holds
/// that very failure.
pub proof fn lemma_from_utf8_keeps_source(source: std::string::FromUtf8Error)
    ensures
        *Error::from_spec(source).kind() == ErrorKind::UTF8(source),
        Error::from_spec(source).kind().is_wrapping(),
{
    lemma_new_holds_kind(ErrorKind::UTF8(source));
}

} // verus!
