//! The error model of a capability-token library: one opaque error type that
//! every fallible operation returns, and the closed taxonomy of causes behind it.

pub mod errors;
