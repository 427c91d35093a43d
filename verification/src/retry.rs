//! Retrying a step that failed for a passing reason.
//!
//! Two tool runs that share a cache can trip over each other. Such a failure
//! shows in the tool's message; it is retried after a random pause, a bounded
//! number of times. Any other failure is final at once.

use vstd::prelude::*;
use vstd::string::*;
use rand::Rng;
use crate::text::{contains, occurs_in};

verus! {

/// How often a step is retried unless the caller says otherwise.
pub const DEFAULT_RETRIES: u32 = 3;

/// The shortest pause before a retry, in milliseconds.
pub const BACKOFF_MIN_MS: u64 = 1000;

/// The bound that every pause before a retry stays under, in milliseconds.
pub const BACKOFF_LIMIT_MS: u64 = 5000;

/// What to do about a failed step.
#[derive(Debug, PartialEq, Eq, Clone, Copy, Structural)]
pub enum RetryDecision {
    /// Pause for so many milliseconds, then run the step again.
    RetryAfter(u64),
    /// The failure is final.
    GiveUp,
}

/// The message shows that two runs collided over a shared cache.
pub open spec fn transient_message(message: Seq<char>) -> bool {
    occurs_in("Error: Directory not empty"@, message) || occurs_in(
        "binary does not exist"@,
        message,
    )
}

/// A pause that may be handed out.
pub open spec fn valid_backoff(millis: u64) -> bool {
    BACKOFF_MIN_MS <= millis < BACKOFF_LIMIT_MS
}

/// The decision on a failure with the given message, `retries_left` retries
/// unspent and `pause` the pause drawn for this failure.
pub open spec fn spec_decide(message: Seq<char>, retries_left: u32, pause: u64) -> RetryDecision {
    if transient_message(message) && retries_left > 0 {
        RetryDecision::RetryAfter(pause)
    } else {
        RetryDecision::GiveUp
    }
}

/// Does the message show a collision over a shared cache?
pub fn is_transient(message: &str) -> (r: bool)
    ensures
        r == transient_message(message@),
{
    contains(message, "Error: Directory not empty") || contains(message, "binary does not exist")
}

/// Calls `rand::thread_rng().gen_range(low..high)`: a number drawn from the
/// half-open range, which must not be empty. Nothing is claimed of which
/// number it is.
#[verifier::external_body]
fn sample_between(low: u64, high: u64) -> (r: u64)
    requires
        low < high,
    ensures
        low <= r < high,
{
    rand::thread_rng().gen_range(low..high)
}

/// Draws the pause before a retry.
pub fn sample_backoff() -> (r: u64)
    ensures
        valid_backoff(r),
{
    sample_between(BACKOFF_MIN_MS, BACKOFF_LIMIT_MS)
}

/// The decision on a failure, for a pause that was drawn already.
pub fn decide_with(message: &str, retries_left: u32, pause: u64) -> (r: RetryDecision)
    ensures
        r == spec_decide(message@, retries_left, pause),
{
    if retries_left > 0 && is_transient(message) {
        RetryDecision::RetryAfter(pause)
    } else {
        RetryDecision::GiveUp
    }
}

/// The decision on a failure. Where the step is retried, the pause is drawn at
/// random and lies in the accepted range.
pub fn decide(message: &str, retries_left: u32) -> (r: RetryDecision)
    ensures
        r is GiveUp <==> !(transient_message(message@) && retries_left > 0),
        r matches RetryDecision::RetryAfter(pause) ==> valid_backoff(pause) && r == spec_decide(
            message@,
            retries_left,
            pause,
        ),
{
    if retries_left > 0 && is_transient(message) {
        RetryDecision::RetryAfter(sample_backoff())
    } else {
        RetryDecision::GiveUp
    }
}

/// No failure is retried once the retries are spent, whatever its message, and
/// no failure with another message is ever retried.
pub proof fn lemma_retry_needs_budget_and_signature(
    message: Seq<char>,
    retries_left: u32,
    pause: u64,
)
    ensures
        retries_left == 0 ==> spec_decide(message, retries_left, pause) == RetryDecision::GiveUp,
        !transient_message(message) ==> spec_decide(message, retries_left, pause)
            == RetryDecision::GiveUp,
{
}

} // verus!
