use vstd::prelude::*;

verus! {

/// Length of one period of the 60 Hz clock, in nanoseconds.
pub const TICK_NANOS: u64 = 16_666_667;

/// The timer driver: it gathers elapsed time and turns every full period
/// of the 60 Hz clock into one tick. Its pace is that of the wall clock,
/// whatever the number of instructions executed meanwhile.
pub struct Timer {
    pending: u64,
}

impl View for Timer {
    type V = nat;

    /// The nanoseconds gathered since the last tick.
    closed spec fn view(&self) -> nat {
        self.pending as nat
    }
}

impl Timer {
    /// Less than one period is pending.
    pub open spec fn wf(&self) -> bool {
        self@ < TICK_NANOS
    }

    /// A timer with no time gathered.
    pub fn new() -> (timer: Timer)
        ensures
            timer.wf(),
            timer@ == 0,
    {
        Timer { pending: 0 }
    }

    /// Adds `elapsed_nanos` nanoseconds to the time gathered and returns
    /// the number of full periods in it, keeping the rest.
    pub fn advance(&mut self, elapsed_nanos: u64) -> (ticks: u64)
        requires
            old(self).wf(),
        ensures
            final(self).wf(),
            ticks == (old(self)@ + elapsed_nanos) / (TICK_NANOS as int),
            final(self)@ == (old(self)@ + elapsed_nanos) % (TICK_NANOS as int),
    {
        let total: u128 = self.pending as u128 + elapsed_nanos as u128;
        let ticks: u128 = total / (TICK_NANOS as u128);
        self.pending = (total % (TICK_NANOS as u128)) as u64;
        ticks as u64
    }
}

} // verus!
