//! A safe call protocol for an external text tokenizer with a classic C
//! buffer convention: the callee writes up to N bytes into a caller-supplied
//! buffer and answers with a single signed 32-bit length signal meaning
//! "succeeded, wrote K bytes" or "failed, you need at least K bytes".
//!
//! This crate verifies the protocol around that call: sizing and growing the
//! destination buffer until the callee succeeds, classifying every signal,
//! and bounding the length under which the written bytes are exposed. The
//! call itself is left to an unverified shell that drives [`protocol`].

use vstd::prelude::*;

pub mod errors;
pub mod protocol;

pub use crate::errors::Error;
pub use crate::protocol::{begin, capacity_signal, interpret_signal, Outcome, Step};

verus! {

/// The longest source, in bytes, that one call accepts: the external
/// tokenizer's published maximum array size. It keeps a safety margin below
/// the signed 32-bit signal range for the worst case in which every source
/// byte is doubled in the output (token plus separator) and one terminator
/// byte is appended.
pub const MAX_TEXT_LENGTH: usize = 1_000_000_000;

} // verus!
