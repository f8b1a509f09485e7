//! What holds of the countdown in every state and over every run of frames.

use crate::model::{halved, total, State};
use vstd::prelude::*;

verus! {

/// Ten halvings divide by 1024.
pub proof fn ten_halvings_divide_by_1024(period: nat)
    ensures
        halved(period, 10) == period / 1024,
{
    reveal_with_fuel(halved, 11);
}

/// The period of a well-formed countdown is positive.
pub proof fn well_formed_period_is_positive(s: State)
    requires
        s.wf(),
    ensures
        s.period > 0,
{
    reveal_with_fuel(halved, 11);
}

/// A fire leaves a well-formed countdown well formed.
pub proof fn fire_keeps_well_formed(s: State)
    requires
        s.wf(),
    ensures
        s.fired().wf(),
{
    if !s.starts_over() {
        assert(s.fired().period == halved(s.default_period, s.next_count() / 10)) by {
            reveal_with_fuel(halved, 2);
        }
    }
}

/// A frame leaves a well-formed countdown well formed: afterwards the period
/// is still positive and the counter at most a hundred.
pub proof fn frame_keeps_well_formed(s: State, delta: nat)
    requires
        s.wf(),
    ensures
        s.step(delta).wf(),
        s.step(delta).period > 0,
        s.step(delta).counter <= 100,
{
    if s.fires(delta) {
        fire_keeps_well_formed(State { elapsed: s.carry(delta), ..s });
    }
    well_formed_period_is_positive(s.step(delta));
}

/// Any run of frames leaves a well-formed countdown well formed.
pub proof fn run_keeps_well_formed(s: State, deltas: Seq<nat>)
    requires
        s.wf(),
    ensures
        s.run(deltas).wf(),
        s.run(deltas).period > 0,
        s.run(deltas).counter <= 100,
    decreases deltas.len(),
{
    if deltas.len() == 0 {
        well_formed_period_is_positive(s);
    } else {
        frame_keeps_well_formed(s, deltas[0]);
        run_keeps_well_formed(s.step(deltas[0]), deltas.drop_first());
    }
}

/// Frames that bring the accumulated time up to the period make the timer
/// fire at least once.
pub proof fn reaching_the_period_fires(s: State, deltas: Seq<nat>)
    requires
        deltas.len() > 0,
        s.elapsed + total(deltas) >= s.period,
    ensures
        s.fire_count(deltas) >= 1,
    decreases deltas.len(),
{
    if !s.fires(deltas[0]) {
        let rest = deltas.drop_first();
        if rest.len() > 0 {
            reaching_the_period_fires(s.step(deltas[0]), rest);
        }
    }
}

/// Frames that add up to the period or more make the timer fire at least
/// once, whatever had been accumulated before.
pub proof fn frames_of_a_period_fire(s: State, deltas: Seq<nat>)
    requires
        s.period > 0,
        total(deltas) >= s.period,
    ensures
        s.fire_count(deltas) >= 1,
{
    reaching_the_period_fires(s, deltas);
}

/// As long as the countdown does not start over, the counter grows by the
/// number of frames that fire.
pub proof fn counter_grows_by_fires(s: State, deltas: Seq<nat>)
    requires
        s.counter + s.fire_count(deltas) <= 100,
    ensures
        s.run(deltas).counter == s.counter + s.fire_count(deltas),
    decreases deltas.len(),
{
    if deltas.len() > 0 {
        counter_grows_by_fires(s.step(deltas[0]), deltas.drop_first());
    }
}

/// A frame that stays short of a second period boundary fires exactly when
/// it crosses the first.
pub proof fn short_frame_crosses_when_it_fires(s: State, delta: nat)
    requires
        s.period > 0,
        s.elapsed + delta < 2 * s.period,
    ensures
        s.crossed(delta) == if s.fires(delta) { 1nat } else { 0nat },
{
    let time = s.elapsed + delta;
    let period = s.period;
    assert(time / period == if time >= period { 1nat } else { 0nat }) by (nonlinear_arith)
        requires
            period > 0,
            time < 2 * period,
    ;
}

/// Over frames of which none crosses two period boundaries, the fires are
/// the boundaries crossed; and as long as the countdown does not start over,
/// the counter grows by exactly their number.
pub proof fn counter_grows_by_crossings(s: State, deltas: Seq<nat>)
    requires
        s.wf(),
        s.one_crossing_per_frame(deltas),
    ensures
        s.fire_count(deltas) == s.crossings(deltas),
        s.counter + s.crossings(deltas) <= 100 ==> s.run(deltas).counter == s.counter
            + s.crossings(deltas),
    decreases deltas.len(),
{
    if deltas.len() > 0 {
        well_formed_period_is_positive(s);
        short_frame_crosses_when_it_fires(s, deltas[0]);
        frame_keeps_well_formed(s, deltas[0]);
        counter_grows_by_crossings(s.step(deltas[0]), deltas.drop_first());
    }
    if s.counter + s.crossings(deltas) <= 100 {
        counter_grows_by_fires(s, deltas);
    }
}

/// A fire that does not start the countdown over halves the period when its
/// count is a multiple of ten, and leaves it alone when it is not.
pub proof fn tenth_fire_halves(s: State)
    requires
        !s.starts_over(),
    ensures
        s.speeds_up() <==> s.next_count() > 0 && s.next_count() % 10 == 0,
        s.speeds_up() ==> s.fired().period == s.period / 2,
        !s.speeds_up() ==> s.fired().period == s.period,
{
}

/// In a well-formed countdown the period after a fire is half the period
/// before it exactly when the count of the fire is a multiple of ten.
pub proof fn halved_exactly_on_tenth_fire(s: State)
    requires
        s.wf(),
    ensures
        s.fired().period == s.period / 2 <==> s.next_count() % 10 == 0,
{
    reveal_with_fuel(halved, 11);
}

/// A fire starts the countdown over exactly when its count is above a
/// hundred. The counter is then zero and the period the default one, whether
/// or not the same fire halved the period; otherwise the fire is counted.
/// Either way the counter is at most a hundred afterwards.
pub proof fn starts_over_exactly_past_hundred(s: State)
    ensures
        s.starts_over() <==> s.counter + 1 > 100,
        s.starts_over() <==> s.fired().counter == 0,
        s.starts_over() ==> s.fired().period == s.default_period,
        !s.starts_over() ==> s.fired().counter == s.counter + 1,
        s.fired().counter <= 100,
        s.fired().default_period == s.default_period,
        s.fired().elapsed == s.elapsed,
{
}

/// A frame of no time changes nothing, as long as the accumulated time is
/// short of the period.
pub proof fn empty_frame_changes_nothing(s: State)
    requires
        s.elapsed < s.period,
    ensures
        !s.fires(0),
        s.step(0) == s,
{
}

} // verus!
