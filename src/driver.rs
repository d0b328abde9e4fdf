use vstd::prelude::*;

use crate::ledger::ResourceLedger;
use crate::queue::{advance_queue, spec_advance, CraftQueue, TickEvent};
use crate::recipe::RecipeRegistry;

verus! {

/// The interval, in milliseconds, at which the craft queue is advanced.
pub const TICK_INTERVAL_MS: u64 = 1000;

/// A repeating timer: it accumulates elapsed time and fires once that reaches
/// its interval, going back to zero when it does.
#[derive(Clone, Copy, Debug, PartialEq, Eq, Structural)]
pub struct TickTimer {
    pub interval_ms: u64,
    pub elapsed_ms: u64,
}

impl TickTimer {
    /// A timer of `interval_ms` with nothing elapsed.
    pub fn new(interval_ms: u64) -> (r: TickTimer)
        ensures
            r.interval_ms == interval_ms,
            r.elapsed_ms == 0,
    {
        TickTimer { interval_ms, elapsed_ms: 0 }
    }

    /// Sets the elapsed time back to zero.
    pub fn reset(&mut self)
        ensures
            final(self).interval_ms == old(self).interval_ms,
            final(self).elapsed_ms == 0,
    {
        self.elapsed_ms = 0;
    }

    /// Adds `delta_ms` to the elapsed time. Returns whether the interval was
    /// reached; if it was, the elapsed time goes back to zero.
    pub fn tick(&mut self, delta_ms: u64) -> (fired: bool)
        ensures
            fired == (old(self).elapsed_ms + delta_ms >= old(self).interval_ms),
            final(self).interval_ms == old(self).interval_ms,
            fired ==> final(self).elapsed_ms == 0,
            !fired ==> final(self).elapsed_ms == old(self).elapsed_ms + delta_ms,
    {
        if self.elapsed_ms >= self.interval_ms || delta_ms >= self.interval_ms - self.elapsed_ms {
            self.elapsed_ms = 0;
            true
        } else {
            self.elapsed_ms = self.elapsed_ms + delta_ms;
            false
        }
    }
}

/// Lets `delta_ms` of real time pass on `timer`. When the timer fires, the queue
/// is advanced by one whole interval of craft time, whatever the delta was;
/// otherwise nothing but the timer changes. Returns the advancement's events.
pub fn tick_player_craft_queue(
    timer: &mut TickTimer,
    delta_ms: u64,
    queue: &mut CraftQueue,
    ledger: &mut ResourceLedger,
    registry: &RecipeRegistry,
) -> (events: Vec<TickEvent>)
    ensures
        final(timer).interval_ms == old(timer).interval_ms,
        old(timer).elapsed_ms + delta_ms >= old(timer).interval_ms ==> {
            &&& final(timer).elapsed_ms == 0
            &&& (final(queue)@, *final(ledger), events@) == spec_advance(
                old(queue)@,
                *old(ledger),
                *registry,
                old(timer).interval_ms,
            )
        },
        old(timer).elapsed_ms + delta_ms < old(timer).interval_ms ==> {
            &&& final(timer).elapsed_ms == old(timer).elapsed_ms + delta_ms
            &&& final(queue)@ == old(queue)@
            &&& *final(ledger) == *old(ledger)
            &&& events@.len() == 0
        },
{
    if timer.tick(delta_ms) {
        advance_queue(queue, ledger, registry, timer.interval_ms)
    } else {
        Vec::new()
    }
}

} // verus!
