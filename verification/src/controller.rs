//! The countdown controller that the frame loop drives.

use crate::fade::{restart_commands, restart_fade, SpriteCommand};
use crate::model::{State, RESET_ABOVE, SPEED_UP_EVERY};
use crate::theorems::{fire_keeps_well_formed, ten_halvings_divide_by_1024};
use crate::timing::timer_tick;
use vstd::prelude::*;

verus! {

/// The period of a default countdown, in seconds.
pub const DEFAULT_PERIOD_SECS: u32 = 2;

/// Nanoseconds in a second.
pub const NANOS_PER_SEC: u64 = 1_000_000_000;

/// A repeating timer together with the count of its fires.
///
/// All times are in nanoseconds.
#[derive(Clone, Copy, Debug, PartialEq, Eq)]
pub struct Countdown {
    /// The time between two fires.
    pub period: u64,
    /// The time accumulated towards the next fire.
    pub elapsed: u64,
    /// The fires counted since the countdown last started over.
    pub counter: u32,
    /// The period that the countdown was made with.
    pub default_period: u64,
}

/// What happened at a fire, and what is to be done about it.
#[derive(Debug, PartialEq, Eq)]
pub struct Fire {
    /// The count of this fire, before a possible start over.
    pub count: u32,
    /// The count was a multiple of ten: the period was halved.
    pub speed_up: bool,
    /// The count went past a hundred: the countdown started over.
    pub reset: bool,
    /// What the sprite is to do, in this order.
    pub commands: Vec<SpriteCommand>,
}

impl Fire {
    /// Whether this is the report of the fire that follows the state `before`.
    pub open spec fn reports(&self, before: State) -> bool {
        &&& self.count == before.next_count()
        &&& self.speed_up == before.speeds_up()
        &&& self.reset == before.starts_over()
        &&& self.commands@ == restart_fade()
    }
}

impl View for Countdown {
    type V = State;

    open spec fn view(&self) -> State {
        State {
            period: self.period as nat,
            elapsed: self.elapsed as nat,
            counter: self.counter as nat,
            default_period: self.default_period as nat,
        }
    }
}

impl Countdown {
    /// Whether the countdown is in a state that it can reach by itself.
    pub open spec fn wf(&self) -> bool {
        self@.wf()
    }

    /// A countdown that fires every `duration_sec` seconds and has not yet
    /// accumulated or counted anything. The period of a countdown is
    /// positive, so it is at least a second.
    pub fn new(duration_sec: u32) -> (countdown: Self)
        requires
            duration_sec >= 1,
        ensures
            countdown@ == State::fresh(duration_sec as nat * NANOS_PER_SEC as nat),
            countdown.wf(),
    {
        let period: u64 = (duration_sec as u64) * NANOS_PER_SEC;
        proof {
            ten_halvings_divide_by_1024(period as nat);
        }
        Countdown { period, elapsed: 0, counter: 0, default_period: period }
    }

    /// Whether a frame of `delta` nanoseconds would make the timer fire.
    /// Nothing is changed.
    pub fn will_fire(&self, delta: u64) -> (fires: bool)
        ensures
            fires == self@.fires(delta as nat),
    {
        let (finished, _) = timer_tick(self.period, self.elapsed, delta);
        finished
    }

    /// Counts one fire and applies the speed-up and start-over rules.
    pub fn fire(&mut self) -> (fire: Fire)
        requires
            old(self).counter < u32::MAX,
        ensures
            final(self)@ == old(self)@.fired(),
            fire.reports(old(self)@),
            old(self).wf() ==> final(self).wf(),
    {
        let count: u32 = self.counter + 1;
        let speed_up = count % SPEED_UP_EVERY == 0;
        let reset = count > RESET_ABOVE;
        self.counter = count;
        if speed_up {
            self.period = self.period / 2;
        }
        if reset {
            self.counter = 0;
            self.period = self.default_period;
        }
        proof {
            if old(self).wf() {
                fire_keeps_well_formed(old(self)@);
            }
        }
        Fire { count, speed_up, reset, commands: restart_commands() }
    }

    /// Advances the countdown by a frame of `delta` nanoseconds. The timer
    /// fires when the accumulated time reaches the period, and at most once
    /// in a frame; what goes beyond the period counts towards the next one.
    /// A fire is counted and reported. A frame of no time changes nothing
    /// unless the accumulated time is already up to the period. Only a
    /// frame that fires needs room in the counter.
    pub fn tick(&mut self, delta: u64) -> (fire: Option<Fire>)
        requires
            old(self).counter < u32::MAX || !old(self)@.fires(delta as nat),
        ensures
            final(self)@ == old(self)@.step(delta as nat),
            fire.is_some() == old(self)@.fires(delta as nat),
            fire matches Some(f) ==> f.reports(old(self)@),
            old(self).wf() ==> final(self).wf(),
            delta == 0 && old(self).elapsed < old(self).period ==> *final(self) == *old(self),
    {
        let (finished, left) = timer_tick(self.period, self.elapsed, delta);
        assert(left <= u64::MAX) by {
            if finished && self.period > 0 {
                assert((self.elapsed + delta) % (self.period as int) < self.period);
            }
        }
        self.elapsed = left as u64;
        if finished {
            Some(self.fire())
        } else {
            None
        }
    }
}

impl Default for Countdown {
    /// The countdown of two seconds.
    fn default() -> (countdown: Self)
        ensures
            countdown@ == State::fresh(2_000_000_000),
            countdown.wf(),
    {
        Countdown::new(DEFAULT_PERIOD_SECS)
    }
}

} // verus!
