//! Jittered pacing of reconciliation attempts.
//!
//! Time is counted in whole milliseconds on a monotonic clock whose origin the
//! caller chooses. The random draw itself happens outside: the timer is handed
//! the draw already scaled to milliseconds and turns it into a bounded delay.

use vstd::prelude::*;

verus! {

/// Shortest wait between two attempts, in milliseconds.
pub const MIN_DELAY_MILLIS: u64 = 2000;

/// Longest wait between two attempts, in milliseconds.
pub const MAX_DELAY_MILLIS: u64 = 20000;

/// Milliseconds of extra wait per unit of the exponential sample.
pub const JITTER_SCALE_MILLIS: u64 = 3000;

/// The delay that a scaled sample stands for: the floor plus the jitter, cut
/// off at the ceiling.
pub open spec fn delay_for(jitter_millis: u64) -> int {
    if MIN_DELAY_MILLIS + jitter_millis <= MAX_DELAY_MILLIS {
        MIN_DELAY_MILLIS + jitter_millis
    } else {
        MAX_DELAY_MILLIS as int
    }
}

/// Turns a scaled sample (the exponential draw times `JITTER_SCALE_MILLIS`,
/// rounded down) into the number of milliseconds to wait.
pub fn backoff_millis(jitter_millis: u64) -> (delay: u64)
    ensures
        delay == delay_for(jitter_millis),
        MIN_DELAY_MILLIS <= delay <= MAX_DELAY_MILLIS,
{
    if jitter_millis >= MAX_DELAY_MILLIS - MIN_DELAY_MILLIS {
        MAX_DELAY_MILLIS
    } else {
        MIN_DELAY_MILLIS + jitter_millis
    }
}

/// The due time that a reset at `now` with the given scaled sample leads
/// to. It lies past every clock reading, so it is counted in a wider type
/// than the clock.
pub open spec fn due_after(now: u64, jitter_millis: u64) -> int {
    now + delay_for(jitter_millis)
}

/// Every reset waits for between two and twenty seconds, whatever the clock
/// reads and whatever was drawn. The wait follows from the draw of that
/// reset alone, not from the clock, an earlier due time or an earlier draw;
/// and it is not the same for every draw.
pub proof fn law_each_wait_follows_from_its_own_draw(
    now: u64,
    jitter_millis: u64,
    other_now: u64,
    other_jitter_millis: u64,
)
    ensures
        due_after(now, jitter_millis) - now == delay_for(jitter_millis),
        MIN_DELAY_MILLIS <= due_after(now, jitter_millis) - now <= MAX_DELAY_MILLIS,
        jitter_millis == other_jitter_millis ==> due_after(now, jitter_millis) - now == due_after(
            other_now,
            other_jitter_millis,
        ) - other_now,
        exists|a: u64, b: u64| delay_for(a) != delay_for(b),
{
    assert(delay_for(0) != delay_for(1));
}

/// The one piece of state that survives between ticks: the instant at which
/// the next attempt may start.
#[derive(Clone, Copy, Debug)]
pub struct RandomExpBackoffTimer {
    due_time: u128,
}

impl RandomExpBackoffTimer {
    /// The due time, in milliseconds.
    pub closed spec fn due(&self) -> u128 {
        self.due_time
    }

    /// A timer that is due at once.
    pub fn new(now: u64) -> (timer: Self)
        ensures
            timer.due() == now,
    {
        RandomExpBackoffTimer { due_time: now as u128 }
    }

    /// Whether the due time has been reached.
    pub fn is_due(&self, now: u64) -> (due: bool)
        ensures
            due == (now >= self.due()),
    {
        now as u128 >= self.due_time
    }

    /// The instant at which the next attempt may start.
    pub fn due_time(&self) -> (due: u128)
        ensures
            due == self.due(),
    {
        self.due_time
    }

    /// Re-arms the timer after an attempt, whatever its outcome, and returns
    /// the new due time: `now` plus the delay that the scaled sample stands
    /// for. Whatever the timer held before is forgotten.
    pub fn reset(&mut self, now: u64, jitter_millis: u64) -> (due: u128)
        ensures
            due == due_after(now, jitter_millis),
            final(self).due() == due,
            now + MIN_DELAY_MILLIS <= due <= now + MAX_DELAY_MILLIS,
    {
        let delay: u64 = backoff_millis(jitter_millis);
        self.due_time = now as u128 + delay as u128;
        self.due_time
    }
}

} // verus!
