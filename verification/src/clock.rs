//! The animation clock: a repeating timer that reports, once per update,
//! whether a period boundary was crossed.

use bevy::time::{Timer, TimerMode};
use bevy::utils::Duration;
use vstd::arithmetic::div_mod::{lemma_div_non_zero, lemma_fundamental_div_mod, lemma_mod_bound};
use vstd::prelude::*;

verus! {

/// A repeating timer, held as plain nanosecond counts.
///
/// `fired` is the signal of the latest `tick`: whether that update crossed at
/// least one period boundary. A period of zero fires on every update.
#[derive(Clone, Copy, Debug, PartialEq, Eq, Structural)]
pub struct AnimationTimer {
    pub period_nanos: u64,
    pub elapsed_nanos: u64,
    pub fired: bool,
}

/// What is left of `total` nanoseconds once every whole period is taken out.
pub open spec fn carried_elapsed(period: nat, total: nat) -> nat {
    if period == 0 {
        0
    } else {
        total % period
    }
}

/// Advances a repeating `bevy::time::Timer` by one update.
///
/// The timer is made with `Timer::new` in `TimerMode::Repeating`, given its
/// elapsed time with `set_elapsed`, and advanced with `Timer::tick`; the pair
/// returned is `elapsed()` in nanoseconds and `finished()`. For a repeating,
/// unpaused timer `tick` adds the delta to the elapsed time, sets `finished`
/// to whether that sum reaches the period, and then keeps the remainder of
/// the sum by the period (zero for a zero period).
#[verifier::external_body]
fn tick_repeating(period_nanos: u64, elapsed_nanos: u64, delta_nanos: u64) -> (outcome: (u64, bool))
    ensures
        outcome.0 == carried_elapsed(period_nanos as nat, (elapsed_nanos + delta_nanos) as nat),
        outcome.1 == (elapsed_nanos + delta_nanos >= period_nanos),
{
    let mut timer = Timer::new(Duration::from_nanos(period_nanos), TimerMode::Repeating);
    timer.set_elapsed(Duration::from_nanos(elapsed_nanos));
    timer.tick(Duration::from_nanos(delta_nanos));
    (timer.elapsed().as_nanos() as u64, timer.finished())
}

impl AnimationTimer {
    /// A timer of the given period that has not run yet.
    pub fn new(period_nanos: u64) -> (timer: AnimationTimer)
        ensures
            timer == (AnimationTimer { period_nanos, elapsed_nanos: 0, fired: false }),
    {
        AnimationTimer { period_nanos, elapsed_nanos: 0, fired: false }
    }

    /// Whether the latest update fired.
    pub fn just_finished(&self) -> (fired: bool)
        ensures
            fired == self.fired,
    {
        self.fired
    }

    /// The timer after one update of `delta_nanos`.
    pub open spec fn ticked(self, delta_nanos: u64) -> AnimationTimer {
        AnimationTimer {
            period_nanos: self.period_nanos,
            elapsed_nanos: carried_elapsed(
                self.period_nanos as nat,
                (self.elapsed_nanos + delta_nanos) as nat,
            ) as u64,
            fired: self.elapsed_nanos + delta_nanos >= self.period_nanos,
        }
    }

    /// Accumulates `delta_nanos` against the period and returns whether this
    /// update fired. However many boundaries the update crossed, the signal is
    /// a single one.
    pub fn tick(&mut self, delta_nanos: u64) -> (fired: bool)
        ensures
            *final(self) == old(self).ticked(delta_nanos),
            fired == (old(self).elapsed_nanos + delta_nanos >= old(self).period_nanos),
    {
        let outcome = tick_repeating(self.period_nanos, self.elapsed_nanos, delta_nanos);
        self.elapsed_nanos = outcome.0;
        self.fired = outcome.1;
        outcome.1
    }
}

/// The number of updates that fire when a timer takes the updates of `deltas`
/// one after the other.
pub open spec fn fire_count(timer: AnimationTimer, deltas: Seq<u64>) -> nat
    decreases deltas.len(),
{
    if deltas.len() == 0 {
        0
    } else {
        let next = timer.ticked(deltas[0]);
        (if next.fired {
            1nat
        } else {
            0nat
        }) + fire_count(next, deltas.drop_first())
    }
}

/// The time that the updates of `deltas` hand over in all.
pub open spec fn total_nanos(deltas: Seq<u64>) -> nat
    decreases deltas.len(),
{
    if deltas.len() == 0 {
        0
    } else {
        deltas[0] as nat + total_nanos(deltas.drop_first())
    }
}

/// A timer fires at most once per update, however much time an update hands
/// over: over any sequence of updates there are no more fires than updates.
/// Nor are there more fires than period boundaries crossed: the fires, each
/// counted as one period, fit into the time on the timer and handed over.
pub proof fn lemma_fires_at_most_once_per_tick(timer: AnimationTimer, deltas: Seq<u64>)
    ensures
        fire_count(timer, deltas) <= deltas.len(),
        fire_count(timer, deltas) * timer.period_nanos <= timer.elapsed_nanos + total_nanos(
            deltas,
        ),
    decreases deltas.len(),
{
    let period = timer.period_nanos as int;
    if deltas.len() == 0 {
        assert(fire_count(timer, deltas) * period == 0) by (nonlinear_arith)
            requires
                fire_count(timer, deltas) == 0,
        ;
    } else {
        let next = timer.ticked(deltas[0]);
        let rest = deltas.drop_first();
        lemma_fires_at_most_once_per_tick(next, rest);
        let total = timer.elapsed_nanos + deltas[0];
        let carried = carried_elapsed(period as nat, total as nat) as int;
        let fired: int = if next.fired {
            1
        } else {
            0
        };
        assert(carried <= u64::MAX && fired * period + carried <= total) by {
            if period > 0 {
                lemma_fundamental_div_mod(total, period);
                lemma_mod_bound(total, period);
                if total >= period {
                    lemma_div_non_zero(total, period);
                    assert(period * (total / period) >= period) by (nonlinear_arith)
                        requires
                            total / period >= 1,
                            period > 0,
                    ;
                }
            }
        }
        assert(next.elapsed_nanos == carried);
        let later = fire_count(next, rest) as int;
        assert(later * period <= carried + total_nanos(rest));
        assert((fired + later) * period == fired * period + later * period) by (nonlinear_arith);
        assert(fire_count(timer, deltas) == fired + later);
        assert(total_nanos(deltas) == deltas[0] + total_nanos(rest));
    }
}

} // verus!
