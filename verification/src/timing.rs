//! The one place where the engine's timer does its work.

use bevy::time::{Timer, TimerMode};
use std::time::Duration;
use vstd::prelude::*;

verus! {

/// One frame of a repeating `bevy::time::Timer`.
///
/// Makes a timer of length `period` with `Timer::new`, gives it the time
/// `elapsed` with `Timer::set_elapsed`, advances it by `delta` with
/// `Timer::tick`, and returns `Timer::finished` and `Timer::elapsed` as they
/// are after the tick. All times are nanoseconds.
///
/// The contract is taken on trust from the timer's source. A repeating timer
/// that is not paused adds the frame to the time it holds. It has finished
/// when that sum reaches its length; it then holds the remainder of the sum
/// divided by the length, or nothing at all if the length is zero. When it
/// has not finished it holds the whole sum. Sums of two `u64` are far from
/// the limit of a `Duration`, so the addition inside the timer cannot fail.
#[verifier::external_body]
pub(crate) fn timer_tick(period: u64, elapsed: u64, delta: u64) -> (r: (bool, u128))
    ensures
        r.0 == (elapsed + delta >= period),
        r.1 == if elapsed + delta < period {
            elapsed + delta
        } else if period == 0 {
            0
        } else {
            (elapsed + delta) % (period as int)
        },
{
    let mut timer = Timer::new(Duration::from_nanos(period), TimerMode::Repeating);
    timer.set_elapsed(Duration::from_nanos(elapsed));
    timer.tick(Duration::from_nanos(delta));
    (timer.finished(), timer.elapsed().as_nanos())
}

} // verus!
