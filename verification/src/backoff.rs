//! Reconnect delays: exponential backoff with jitter.

use crate::duration::{Duration, MAX_NANOS};
use rand::Rng;
use vstd::prelude::*;

verus! {

/// `gen_range` of `rand` on the thread's generator: some number of the range
/// `0..bound`. It panics on an empty range.
#[verifier::external_body]
fn random_below(bound: u64) -> (r: u64)
    requires
        bound > 0,
    ensures
        r < bound,
{
    rand::thread_rng().gen_range(0..bound)
}

/// Half of the whole milliseconds of a delay, as far as a `u64` counts them.
pub open spec fn half_millis(backoff: nat) -> nat {
    (backoff / 1_000_000) % 0x1_0000_0000_0000_0000 / 2
}

/// Whether `millis` is a jitter of a delay `backoff`: fewer milliseconds than
/// half of those of the delay, and none where there is no such number.
pub open spec fn is_jitter(backoff: nat, millis: nat) -> bool {
    millis < half_millis(backoff) || (half_millis(backoff) == 0 && millis == 0)
}

/// How long to wait with a backoff and `millis` milliseconds of jitter: both
/// together, but at most `max_backoff`. A backoff that is longer than that by
/// itself is not cut short.
pub open spec fn jittered(backoff: nat, millis: nat, max_backoff: nat) -> nat {
    if backoff <= max_backoff < backoff + millis * 1_000_000 {
        max_backoff
    } else {
        backoff + millis * 1_000_000
    }
}

/// The number of milliseconds below which the jitter of a delay is drawn.
pub fn jitter_bound(backoff: Duration) -> (r: u64)
    ensures
        r == half_millis(backoff@),
{
    let millis: u128 = backoff.as_millis();
    proof {
        assert((millis as u64) == millis % 0x1_0000_0000_0000_0000) by (bit_vector);
    }
    (millis as u64) / 2
}

/// Jitter in milliseconds, drawn from `[0, backoff/2)`, guarded so that very
/// small `backoff` values don't collapse to an empty range.
pub fn jitter(backoff: Duration) -> (r: u64)
    ensures
        is_jitter(backoff@, r as nat),
{
    let bound: u64 = jitter_bound(backoff);
    if bound == 0 {
        0
    } else {
        random_below(bound)
    }
}

/// How long to wait before the next attempt where the jitter drawn for it is
/// `millis` milliseconds. `None` where that is too long to count.
pub fn delay(backoff: Duration, millis: u64, max_backoff: Duration) -> (r: Option<Duration>)
    ensures
        match r {
            Some(d) => d@ == jittered(backoff@, millis as nat, max_backoff@) && d@ <= MAX_NANOS,
            None => jittered(backoff@, millis as nat, max_backoff@) > MAX_NANOS,
        },
        backoff@ <= max_backoff@ ==> r is Some,
{
    let jitter = Duration::from_millis(millis);
    if backoff.exceeds(&max_backoff) {
        backoff.checked_sum(jitter)
    } else {
        Some(backoff.sum_up_to(jitter, max_backoff))
    }
}

/// How long to wait before the next attempt, with a jitter that is drawn anew.
/// `None` where that is too long to count, which a backoff of at most
/// `max_backoff` never is.
pub fn sleep_duration(backoff: Duration, max_backoff: Duration) -> (r: Option<Duration>)
    ensures
        match r {
            Some(d) => exists|millis: nat| #[trigger]
                is_jitter(backoff@, millis) && d@ == jittered(backoff@, millis, max_backoff@),
            None => exists|millis: nat| #[trigger]
                is_jitter(backoff@, millis) && jittered(backoff@, millis, max_backoff@)
                    > MAX_NANOS,
        },
        backoff@ <= max_backoff@ ==> (r matches Some(d) && d@ <= max_backoff@),
{
    let millis: u64 = jitter(backoff);
    proof {
        assert(is_jitter(backoff@, millis as nat));
    }
    delay(backoff, millis, max_backoff)
}

/// The delay after `backoff`: twice as long, but at most `max_backoff`.
pub open spec fn next_backoff(backoff: nat, max_backoff: nat) -> nat {
    if 2 * backoff <= max_backoff {
        2 * backoff
    } else {
        max_backoff
    }
}

/// The delay after `backoff`: twice as long, but at most `max_backoff`.
pub fn grown(backoff: Duration, max_backoff: Duration) -> (r: Duration)
    requires
        2 * backoff@ <= MAX_NANOS,
    ensures
        r@ == next_backoff(backoff@, max_backoff@),
{
    backoff.plus(backoff).shorter(max_backoff)
}

} // verus!
