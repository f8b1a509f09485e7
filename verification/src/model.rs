//! The countdown as a state machine over natural numbers.
//!
//! Every time in this module is a number of nanoseconds.

use vstd::prelude::*;

verus! {

/// A fire whose count is a multiple of this halves the period.
pub const SPEED_UP_EVERY: u32 = 10;

/// The largest count that is kept: a fire that counts past it starts over.
pub const RESET_ABOVE: u32 = 100;

/// What the countdown remembers between two frames.
pub struct State {
    /// The time between two fires.
    pub period: nat,
    /// The time accumulated towards the next fire.
    pub elapsed: nat,
    /// The fires counted since the countdown last started over.
    pub counter: nat,
    /// The period that a new countdown has, and gets back when it starts over.
    pub default_period: nat,
}

/// `period` after it has been halved `times` times, each time rounding down.
pub open spec fn halved(period: nat, times: nat) -> nat
    decreases times,
{
    if times == 0 {
        period
    } else {
        halved(period, (times - 1) as nat) / 2
    }
}

/// The sum of a sequence of frame times.
pub open spec fn total(deltas: Seq<nat>) -> nat
    decreases deltas.len(),
{
    if deltas.len() == 0 {
        0
    } else {
        deltas[0] + total(deltas.drop_first())
    }
}

impl State {
    /// The state of a countdown that was just made with the given period.
    pub open spec fn fresh(period: nat) -> State {
        State { period, elapsed: 0, counter: 0, default_period: period }
    }

    /// Whether a frame of `delta` makes the timer fire: the accumulated time
    /// reaches the period.
    pub open spec fn fires(self, delta: nat) -> bool {
        self.elapsed + delta >= self.period
    }

    /// What a firing frame carries over into the next period. A timer
    /// without a period carries nothing.
    pub open spec fn carry(self, delta: nat) -> nat {
        if self.period == 0 {
            0
        } else {
            (self.elapsed + delta) % self.period
        }
    }

    /// How many period boundaries a frame of `delta` crosses.
    pub open spec fn crossed(self, delta: nat) -> nat
        recommends
            self.period > 0,
    {
        (self.elapsed + delta) / self.period
    }

    /// The count that the next fire gets.
    pub open spec fn next_count(self) -> nat {
        self.counter + 1
    }

    /// Whether the next fire halves the period.
    pub open spec fn speeds_up(self) -> bool {
        self.next_count() % (SPEED_UP_EVERY as nat) == 0
    }

    /// Whether the next fire starts the countdown over.
    pub open spec fn starts_over(self) -> bool {
        self.next_count() > RESET_ABOVE
    }

    /// The state after one fire. The fire is counted; a count that is a
    /// multiple of ten halves the period; a count above a hundred then puts
    /// the counter back to zero and the period back to its default, whatever
    /// the halving made of it. The accumulated time is left alone.
    pub open spec fn fired(self) -> State {
        let sped_up = if self.speeds_up() {
            self.period / 2
        } else {
            self.period
        };
        if self.starts_over() {
            State { period: self.default_period, counter: 0, ..self }
        } else {
            State { period: sped_up, counter: self.next_count(), ..self }
        }
    }

    /// The state after a frame of `delta`. A frame that does not fire only
    /// accumulates; one that fires keeps what it carries over and fires once,
    /// however many periods it spans.
    pub open spec fn step(self, delta: nat) -> State {
        if self.fires(delta) {
            (State { elapsed: self.carry(delta), ..self }).fired()
        } else {
            State { elapsed: self.elapsed + delta, ..self }
        }
    }

    /// The state after the frames `deltas`, taken in order.
    pub open spec fn run(self, deltas: Seq<nat>) -> State
        decreases deltas.len(),
    {
        if deltas.len() == 0 {
            self
        } else {
            self.step(deltas[0]).run(deltas.drop_first())
        }
    }

    /// How many of the frames `deltas` fire.
    pub open spec fn fire_count(self, deltas: Seq<nat>) -> nat
        decreases deltas.len(),
    {
        if deltas.len() == 0 {
            0
        } else {
            let here: nat = if self.fires(deltas[0]) {
                1
            } else {
                0
            };
            here + self.step(deltas[0]).fire_count(deltas.drop_first())
        }
    }

    /// How many period boundaries the frames `deltas` cross between them,
    /// each frame measured against the period at its time.
    pub open spec fn crossings(self, deltas: Seq<nat>) -> nat
        decreases deltas.len(),
    {
        if deltas.len() == 0 {
            0
        } else {
            self.crossed(deltas[0]) + self.step(deltas[0]).crossings(deltas.drop_first())
        }
    }

    /// Whether every one of the frames `deltas` stays short of a second
    /// period boundary.
    pub open spec fn one_crossing_per_frame(self, deltas: Seq<nat>) -> bool
        decreases deltas.len(),
    {
        deltas.len() > 0 ==> {
            &&& self.elapsed + deltas[0] < 2 * self.period
            &&& self.step(deltas[0]).one_crossing_per_frame(deltas.drop_first())
        }
    }

    /// The states that a countdown can be in: at most a hundred fires are
    /// counted, the period is the default halved once for every ten of them,
    /// and the default is long enough to be halved ten times.
    pub open spec fn wf(self) -> bool {
        &&& self.counter <= RESET_ABOVE
        &&& halved(self.default_period, 10) > 0
        &&& self.period == halved(self.default_period, self.counter / (SPEED_UP_EVERY as nat))
    }
}

} // verus!
