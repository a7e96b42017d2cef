//! The buffer negotiation protocol, as a verified decision core.
//!
//! The external tokenizer is an opaque capability: it takes the source
//! bytes, a destination buffer and the destination's capacity, and answers
//! with one signed 32-bit length signal. The unverified shell that owns the
//! actual call drives this module in a loop:
//!
//! 1. clear the destination and ask [`begin`] for the first step;
//! 2. on [`Step::Call`], invoke the external function with the given
//!    capacity and hand the returned signal to [`interpret_signal`];
//! 3. on [`Outcome::Grow`], reserve exactly the requested capacity, renarrow
//!    the new capacity with [`capacity_signal`], and call again;
//! 4. on [`Outcome::Materialize`], expose exactly `content_len` bytes of the
//!    destination as the output.
//!
//! Every decision in that loop is taken here and verified; only the foreign
//! call and the final reinterpretation of the written bytes stay outside.

use vstd::prelude::*;

use crate::errors::Error;
use crate::MAX_TEXT_LENGTH;

verus! {

/// What the negotiator asks the caller to do before any call has been made.
#[derive(Clone, Copy, Debug, PartialEq, Eq, Structural)]
pub enum Step {
    /// The result is already complete: the source is empty, the destination
    /// stays cleared, and the external function is never invoked.
    Done,
    /// Invoke the external function, lending it the destination's storage
    /// and this capacity (the destination's capacity, narrowed to the
    /// signal's width).
    Call { capacity: i32 },
}

/// What one length signal tells the caller to do next.
#[derive(Clone, Copy, Debug, PartialEq, Eq, Structural)]
pub enum Outcome {
    /// The capacity did not suffice and nothing was written. Grow the
    /// destination to exactly this many bytes and call again.
    Grow { capacity: usize },
    /// Success: the external function wrote `content_len` content bytes plus
    /// one terminator byte. Exactly `content_len` bytes of the destination
    /// are the output.
    Materialize { content_len: usize },
}

/// How a destination capacity is narrowed to the signal's signed 32-bit
/// width: exactly when it fits; anything larger is rejected rather than
/// silently truncated.
pub open spec fn spec_capacity_signal(dest_capacity: int) -> Result<i32, Error> {
    if dest_capacity <= i32::MAX as int {
        Ok(dest_capacity as i32)
    } else {
        Err(Error::DestinationTooLarge)
    }
}

/// What [`begin`] decides, as a function of the source length and the
/// destination's capacity alone.
pub open spec fn spec_begin(source_len: int, dest_capacity: int) -> Result<Step, Error> {
    if source_len == 0 {
        Ok(Step::Done)
    } else if source_len > MAX_TEXT_LENGTH as int {
        Err(Error::SourceTooLarge { max_text_length: MAX_TEXT_LENGTH })
    } else {
        match spec_capacity_signal(dest_capacity) {
            Ok(capacity) => Ok(Step::Call { capacity }),
            Err(e) => Err(e),
        }
    }
}

/// What one length signal means, as a function of the signal and the
/// capacity that was offered to the call. The three disjoint cases of the
/// signal's contract: zero or negative is failure; a value above the
/// capacity is the exact capacity that would have sufficed (nothing was
/// written); a positive value within the capacity is success, counting the
/// written content plus one terminator byte.
pub open spec fn spec_interpret(signal: int, capacity: int) -> Result<Outcome, Error> {
    if signal <= 0 {
        Err(Error::UnknownError)
    } else if signal > capacity {
        Ok(Outcome::Grow { capacity: signal as usize })
    } else {
        Ok(Outcome::Materialize { content_len: (signal - 1) as usize })
    }
}

/// Entry check of one call: an empty source completes at once without any
/// external call; an oversized source is rejected without any external call;
/// otherwise the destination's capacity is narrowed to the signal width for
/// the first call.
pub fn begin(source_len: usize, dest_capacity: usize) -> (r: Result<Step, Error>)
    ensures
        r == spec_begin(source_len as int, dest_capacity as int),
        source_len == 0 ==> r == Ok::<Step, Error>(Step::Done),
        source_len > MAX_TEXT_LENGTH ==> r == Err::<Step, Error>(Error::SourceTooLarge {
            max_text_length: MAX_TEXT_LENGTH,
        }),
        0 < source_len <= MAX_TEXT_LENGTH && dest_capacity <= i32::MAX ==> r == Ok::<Step, Error>(
            Step::Call { capacity: dest_capacity as i32 },
        ),
        0 < source_len <= MAX_TEXT_LENGTH && dest_capacity > i32::MAX ==> r == Err::<Step, Error>(
            Error::DestinationTooLarge,
        ),
{
    if source_len == 0 {
        Ok(Step::Done)
    } else if source_len > MAX_TEXT_LENGTH {
        Err(Error::SourceTooLarge { max_text_length: MAX_TEXT_LENGTH })
    } else {
        match capacity_signal(dest_capacity) {
            Ok(capacity) => Ok(Step::Call { capacity }),
            Err(e) => Err(e),
        }
    }
}

/// Checked narrowing of a destination capacity to the signal's width, done
/// anew before every external call: a capacity that does not fit the signed
/// 32-bit range fails with [`Error::DestinationTooLarge`], never a silent
/// wraparound.
pub fn capacity_signal(dest_capacity: usize) -> (r: Result<i32, Error>)
    ensures
        r == spec_capacity_signal(dest_capacity as int),
        dest_capacity <= i32::MAX ==> r == Ok::<i32, Error>(dest_capacity as i32),
        dest_capacity > i32::MAX ==> r == Err::<i32, Error>(Error::DestinationTooLarge),
        r matches Ok(capacity) ==> capacity >= 0 && capacity == dest_capacity as int,
{
    if dest_capacity <= i32::MAX as usize {
        Ok(dest_capacity as i32)
    } else {
        Err(Error::DestinationTooLarge)
    }
}

/// Classification of one length signal against the capacity that was
/// offered: failure, exact growth, or success with the content length (the
/// signal minus the terminator byte). On success the content length is
/// strictly below the capacity, so exposing that many bytes of the
/// destination stays within what the external function was lent; on growth
/// the requested capacity strictly exceeds the one that failed.
pub fn interpret_signal(signal: i32, capacity: i32) -> (r: Result<Outcome, Error>)
    ensures
        r == spec_interpret(signal as int, capacity as int),
        signal <= 0 ==> r == Err::<Outcome, Error>(Error::UnknownError),
        0 < signal && signal > capacity ==> r == Ok::<Outcome, Error>(Outcome::Grow {
            capacity: signal as usize,
        }),
        0 < signal <= capacity ==> r == Ok::<Outcome, Error>(Outcome::Materialize {
            content_len: (signal - 1) as usize,
        }),
        r matches Ok(Outcome::Materialize { content_len }) ==> content_len < capacity,
        r matches Ok(Outcome::Grow { capacity: needed }) ==> needed > capacity,
{
    if signal <= 0 {
        Err(Error::UnknownError)
    } else if signal > capacity {
        Ok(Outcome::Grow { capacity: signal as usize })
    } else {
        Ok(Outcome::Materialize { content_len: (signal - 1) as usize })
    }
}

/// The source-length ceiling leaves the worst-case output representable in
/// the signal's signed 32-bit width: even if every byte of an accepted
/// source were doubled in the output and one terminator byte appended, the
/// external function could still report that requirement exactly.
pub proof fn lemma_expansion_margin_fits_signal()
    ensures
        2 * (MAX_TEXT_LENGTH as int) + 1 <= i32::MAX as int,
{
}

/// Capacity-independence: against an external function that reports the same
/// requirement `required` on every call — the documented behaviour, since
/// the signal is the byte count the output needs whether or not it fit —
/// the negotiation ends with the same content length `required - 1` from any
/// starting capacity. Either the first call already fits, or the one growth
/// it requests is exactly `required`, and any capacity `grown` at least that
/// large (growing is exact, but the allocator may hand back more) makes the
/// second call fit. So at most one growth ever happens, and the output never
/// depends on the capacity the caller started with.
pub proof fn lemma_capacity_independence(required: int, initial: int, grown: int)
    requires
        1 <= required <= i32::MAX as int,
        0 <= initial <= i32::MAX as int,
        required <= grown <= i32::MAX as int,
    ensures
        required <= initial ==> spec_interpret(required, initial) == Ok::<Outcome, Error>(
            Outcome::Materialize { content_len: (required - 1) as usize },
        ),
        initial < required ==> spec_interpret(required, initial) == Ok::<Outcome, Error>(
            Outcome::Grow { capacity: required as usize },
        ),
        spec_interpret(required, grown) == Ok::<Outcome, Error>(Outcome::Materialize {
            content_len: (required - 1) as usize,
        }),
{
}

/// A sufficient starting capacity is never grown: when the requirement the
/// external function reports already fits, the very first signal
/// materializes the output, with the logical length matching the new content
/// exactly — so a compliant driver never reallocates the destination.
pub proof fn lemma_sufficient_capacity_is_kept(required: int, capacity: int)
    requires
        1 <= required <= capacity,
    ensures
        spec_interpret(required, capacity) == Ok::<Outcome, Error>(Outcome::Materialize {
            content_len: (required - 1) as usize,
        }),
{
}

/// Every growth request strictly exceeds the capacity that failed, so the
/// negotiation never repeats a capacity: each retry makes strict progress
/// towards the requirement the external function reported.
pub proof fn lemma_growth_makes_progress(signal: int, capacity: int, needed: usize)
    requires
        signal <= i32::MAX as int,
        spec_interpret(signal, capacity) == Ok::<Outcome, Error>(Outcome::Grow {
            capacity: needed,
        }),
    ensures
        needed > capacity,
        needed == signal,
{
}

} // verus!
