//! The error taxonomy of the call protocol: every failure path maps to
//! exactly one of these kinds, and none is ever coerced into another.

use vstd::prelude::*;

verus! {

/// The ways one tokenization call can fail. Each kind is terminal for that
/// call: nothing is retried, and no partial output is exposed.
#[derive(Clone, Copy, Debug, PartialEq, Eq, Structural)]
pub enum Error {
    /// The source text is longer than the external tokenizer accepts.
    /// Carries the limit for diagnostics.
    SourceTooLarge { max_text_length: usize },
    /// The destination buffer's capacity cannot be expressed in the signed
    /// 32-bit width of the length signal. Practically unreachable under the
    /// source-length ceiling, but an explicit checked case rather than a
    /// silent truncation.
    DestinationTooLarge,
    /// The external tokenizer reported failure: a length signal of zero or
    /// less, with no further detail exposed by its contract.
    UnknownError,
}

} // verus!
