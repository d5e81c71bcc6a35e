//! The delay between two polling attempts.
use vstd::prelude::*;

verus! {

/// The base delay, in milliseconds, that a process starts with.
pub const DEFAULT_DELAY: u64 = 100;

/// The largest multiplier that an attempt number brings to the base delay.
pub const MAX_FACTOR: u64 = 10;

/// The multiplier for an attempt: the attempt number, at most `MAX_FACTOR`.
pub open spec fn factor(attempt: nat) -> nat {
    if attempt < MAX_FACTOR {
        attempt
    } else {
        MAX_FACTOR as nat
    }
}

/// The time to sleep before attempt number `attempt`, in milliseconds.
pub open spec fn delay_spec(base: nat, attempt: nat) -> nat {
    base * factor(attempt)
}

/// The sleep before attempt number `attempt` with base delay `base`:
/// `base * min(attempt, 10)`, or `None` where that does not fit in a `u64`.
pub fn delay_for(base: u64, attempt: u64) -> (r: Option<u64>)
    ensures
        r == (if delay_spec(base as nat, attempt as nat) <= u64::MAX {
            Some(delay_spec(base as nat, attempt as nat) as u64)
        } else {
            None::<u64>
        }),
{
    let f: u64 = if attempt < MAX_FACTOR { attempt } else { MAX_FACTOR };
    base.checked_mul(f)
}

} // verus!
