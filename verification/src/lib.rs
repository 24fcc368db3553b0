//! Generator for dual-language foreign-function bindings.
//!
//! A restricted, annotated module of host-language declarations is parsed
//! into a small model, every declared type is classified into its wire
//! representation, and two synchronized artifacts are emitted: an ABI-safe
//! native wrapper source and a client-side binding module for a dynamically
//! typed runtime.  Both sides agree on one wire protocol: scalars cross the
//! boundary by value, everything else as a byte buffer, with returned buffers
//! carrying a four-byte big-endian length header.

pub mod classify;
pub mod expand;
pub mod native;
pub mod parse;
pub mod span;
pub mod syntax;
pub mod text;
pub mod typescript;
pub mod wire;
