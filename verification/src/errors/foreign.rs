//! The failure types of the subsystems whose errors the taxonomy wraps.
//!
//! Each is declared opaque: a value of one of these types is carried through
//! unchanged and never looked into. Three of them are called `Error` in their
//! own crates, as this library's own type is; they are brought in here under
//! names that tell them apart.

use nkeys::error::Error as KeyError;
use parity_wasm::elements::Error as WasmError;
use serde_json::error::Error as JsonError;
use vstd::prelude::*;

verus! {

/// `serde_json::error::Error`, the failure of encoding or decoding structured
/// data. Nothing is claimed of it.
#[verifier::external_type_specification]
#[verifier::external_body]
pub struct ExJsonError(JsonError);

/// `nkeys::error::Error`, the failure of a key or signature operation. Nothing
/// is claimed of it.
#[verifier::external_type_specification]
#[verifier::external_body]
pub struct ExKeyError(KeyError);

/// `base64::DecodeError`, the failure of decoding a base64 payload. Nothing is
/// claimed of it.
#[verifier::external_type_specification]
#[verifier::external_body]
pub struct ExDecodeError(base64::DecodeError);

/// `std::string::FromUtf8Error`, the failure of reading bytes as UTF-8 text.
/// Nothing is claimed of it.
#[verifier::external_type_specification]
#[verifier::external_body]
pub struct ExFromUtf8Error(std::string::FromUtf8Error);

/// `parity_wasm::elements::Error`, the failure of parsing a binary module.
/// Nothing is claimed of it.
#[verifier::external_type_specification]
#[verifier::external_body]
pub struct ExWasmError(WasmError);

/// `std::io::Error`, the failure of a read or write. Nothing is claimed of it.
#[verifier::external_type_specification]
#[verifier::external_body]
pub struct ExIoError(std::io::Error);

} // verus!
