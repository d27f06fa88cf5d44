use vstd::prelude::*;

verus! {

/// Largest number of whole periods that one tick of the engine's timer can count.
pub const MAX_PERIODS_PER_TICK: u128 = 0x1_0000_0000;

/// A repeating countdown measured in nanoseconds.
///
/// `elapsed_ns` is the time gathered towards the next expiry; it is always
/// shorter than `period_ns`, which is never zero.
#[derive(Clone, Copy, Debug, PartialEq, Eq)]
pub struct FrameTimer {
    pub period_ns: u64,
    pub elapsed_ns: u64,
}

/// Relies on bevy's `Timer::tick` in repeating mode (on a timer built with
/// `Timer::new` and `set_elapsed`, read back with `elapsed` and `just_finished`):
/// after a tick of `delta_ns` the elapsed time is the total modulo the duration,
/// and `just_finished` holds when the total reached the duration. The engine counts the periods
/// passed in a `u32`, hence the bound on how many one tick may span.
#[verifier::external_body]
fn repeating_tick(period_ns: u64, elapsed_ns: u64, delta_ns: u64) -> (r: (u64, bool))
    requires
        period_ns > 0,
        elapsed_ns < period_ns,
        (elapsed_ns + delta_ns) / (period_ns as int) < MAX_PERIODS_PER_TICK,
    ensures
        r.0 == (elapsed_ns + delta_ns) % (period_ns as int),
        r.1 == (elapsed_ns + delta_ns >= period_ns),
{
    let mut timer = bevy::time::Timer::new(
        std::time::Duration::from_nanos(period_ns),
        bevy::time::TimerMode::Repeating,
    );
    timer.set_elapsed(std::time::Duration::from_nanos(elapsed_ns));
    timer.tick(std::time::Duration::from_nanos(delta_ns));
    (timer.elapsed().as_nanos() as u64, timer.just_finished())
}

impl FrameTimer {
    pub open spec fn wf(self) -> bool {
        self.period_ns > 0 && self.elapsed_ns < self.period_ns
    }

    /// Whether a tick of `delta_ns` stays within what one tick can count.
    pub open spec fn admits(self, delta_ns: u64) -> bool {
        (self.elapsed_ns + delta_ns) / (self.period_ns as int) < MAX_PERIODS_PER_TICK
    }

    /// Whether a tick of `delta_ns` makes the timer expire.
    pub open spec fn fires(self, delta_ns: u64) -> bool {
        self.elapsed_ns + delta_ns >= self.period_ns
    }

    /// The timer after a tick of `delta_ns`.
    pub open spec fn ticked(self, delta_ns: u64) -> FrameTimer
        recommends
            self.wf(),
    {
        FrameTimer {
            period_ns: self.period_ns,
            elapsed_ns: ((self.elapsed_ns + delta_ns) % (self.period_ns as int)) as u64,
        }
    }

    pub open spec fn new_spec(period_ns: u64) -> FrameTimer {
        FrameTimer { period_ns, elapsed_ns: 0 }
    }

    pub fn new(period_ns: u64) -> (r: FrameTimer)
        requires
            period_ns > 0,
        ensures
            r.wf(),
            r == FrameTimer::new_spec(period_ns),
    {
        FrameTimer { period_ns, elapsed_ns: 0 }
    }

    pub fn can_tick(&self, delta_ns: u64) -> (r: bool)
        requires
            self.wf(),
        ensures
            r == self.admits(delta_ns),
    {
        (self.elapsed_ns as u128 + delta_ns as u128) / (self.period_ns as u128)
            < MAX_PERIODS_PER_TICK
    }

    /// Advances the timer by `delta_ns` and reports whether it expired.
    pub fn tick(&mut self, delta_ns: u64) -> (fired: bool)
        requires
            old(self).wf(),
            old(self).admits(delta_ns),
        ensures
            final(self).wf(),
            *final(self) == old(self).ticked(delta_ns),
            fired == old(self).fires(delta_ns),
    {
        let (elapsed, fired) = repeating_tick(self.period_ns, self.elapsed_ns, delta_ns);
        self.elapsed_ns = elapsed;
        fired
    }
}

} // verus!
