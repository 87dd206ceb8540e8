//! The error type and the taxonomy of failure causes.

use vstd::prelude::*;

pub mod convert;
mod foreign;

verus! {

/// The closed set of causes a failure can have.
///
/// Six variants wrap, unchanged, the failure value of another subsystem
/// (`is_wrapping`); the others name a rule of the library itself that a token
/// or a module broke (`is_semantic`).
#[derive(Debug)]
pub enum ErrorKind {
    /// Encoding or decoding of structured claims data failed.
    Serialize(serde_json::error::Error),
    /// Key generation, signing or signature verification failed.
    Encryption(nkeys::error::Error),
    /// Base64 decoding of an encoded payload failed.
    Decode(base64::DecodeError),
    /// Bytes that should have been text were not valid UTF-8.
    UTF8(std::string::FromUtf8Error),
    /// A token broke a validation rule that has no variant of its own.
    Token(String),
    /// A claimed capability is not recognized or not permitted.
    InvalidCapability,
    /// Parsing of the binary module format failed.
    WasmElement(parity_wasm::elements::Error),
    /// A read or write against an external resource failed.
    IO(std::io::Error),
    /// The hash computed for a module differs from the one in its token.
    InvalidModuleHash,
    /// The token's expiry time has passed.
    ExpiredToken,
    /// The token's valid-from time has not come yet.
    TokenTooEarly,
    /// The token names an algorithm the verifier does not accept.
    InvalidAlgorithm,
    /// The token has no issuer.
    MissingIssuer,
    /// The token has no subject.
    MissingSubject,
}

impl ErrorKind {
    /// Whether this kind wraps the failure value of another subsystem.
    pub open spec fn is_wrapping(&self) -> bool {
        ||| self is Serialize
        ||| self is Encryption
        ||| self is Decode
        ||| self is UTF8
        ||| self is WasmElement
        ||| self is IO
    }

    /// Whether this kind names a rule of the library that a token or a module
    /// broke.
    pub open spec fn is_semantic(&self) -> bool {
        ||| self is Token
        ||| self is InvalidCapability
        ||| self is InvalidModuleHash
        ||| self is ExpiredToken
        ||| self is TokenTooEarly
        ||| self is InvalidAlgorithm
        ||| self is MissingIssuer
        ||| self is MissingSubject
    }
}

/// An error of the library: the sole owner of one `ErrorKind`.
#[derive(Debug)]
pub struct Error(Box<ErrorKind>);

impl View for Error {
    type V = ErrorKind;

    /// An error is nothing but the kind it holds.
    closed spec fn view(&self) -> ErrorKind {
        *self.0
    }
}

/// The value that `new` returns, for use in contracts and proofs.
pub closed spec fn spec_new(kind: ErrorKind) -> Error {
    Error(Box::new(kind))
}

/// Builds the error that holds `kind`. This is how a failure that the library
/// detects itself becomes an error; failures of other subsystems come in
/// through the conversions of `convert`.
#[verifier::when_used_as_spec(spec_new)]
pub fn new(kind: ErrorKind) -> (e: Error)
    ensures
        e == spec_new(kind),
        e@ == kind,
{
    Error(Box::new(kind))
}

impl Error {
    /// The value that `kind` returns, for use in contracts and proofs.
    pub open spec fn spec_kind(&self) -> &ErrorKind {
        &self@
    }

    /// The value that `into_kind` returns, for use in contracts and proofs.
    pub open spec fn spec_into_kind(self) -> ErrorKind {
        self@
    }

    /// A read-only look at the kind this error holds.
    #[verifier::when_used_as_spec(spec_kind)]
    pub fn kind(&self) -> (k: &ErrorKind)
        ensures
            *k == self@,
    {
        &*self.0
    }

    /// Gives up the error and hands over the kind it held.
    #[verifier::when_used_as_spec(spec_into_kind)]
    pub fn into_kind(self) -> (k: ErrorKind)
        ensures
            k == self@,
    {
        *self.0
    }
}

/// The taxonomy is closed and its two groups do not overlap: every kind either
/// wraps a failure of another subsystem or names a broken rule of the library,
/// and never both.
pub proof fn lemma_taxonomy_is_closed(kind: ErrorKind)
    ensures
        kind.is_wrapping() != kind.is_semantic(),
{
}

/// An error built from `kind` holds `kind`, whatever `kind` is: inspecting it
/// reports `kind`, and consuming it hands `kind` back.
pub proof fn lemma_new_holds_kind(kind: ErrorKind)
    ensures
        new(kind)@ == kind,
        *new(kind).kind() == kind,
        new(kind).into_kind() == kind,
{
}

/// Consuming an error yields the kind that inspecting it reported.
pub proof fn lemma_into_kind_agrees_with_kind(e: Error)
    ensures
        e.into_kind() == *e.kind(),
{
}

/// An error has no identity beyond the kind it holds: two errors of the same
/// kind are the same error, and each is the error built from its own kind.
pub proof fn lemma_error_is_its_kind(a: Error, b: Error)
    ensures
        a@ == b@ ==> a == b,
        new(a@) == a,
{
}

} // verus!
