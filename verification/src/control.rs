//! The outer loop's decisions: whether to stop, to start an attempt or to
//! wait, and how the agent paces itself once an attempt is over.

use vstd::prelude::*;
use crate::engine::attempt;
use crate::engine::ActionView;
use crate::engine::EventView;
use crate::engine::Plan;
use crate::timer::due_after;
use crate::timer::RandomExpBackoffTimer;
use crate::timer::MAX_DELAY_MILLIS;
use crate::timer::MIN_DELAY_MILLIS;
use crate::ui::RetryWindow;
use crate::ui::Summary;
use crate::ui::SummaryView;

verus! {

/// Time between two looks at the running flag, in milliseconds.
pub const TICK_PERIOD_MILLIS: u64 = 64;

/// What the loop does at a tick.
#[derive(Clone, Copy, Debug, PartialEq, Eq, Structural)]
pub enum Tick {
    /// Leave the loop. Nothing is asked of the platform, the working copy
    /// or the log storage any more.
    Stop,
    /// Run one reconciliation attempt to its end, then re-arm the timer.
    Attempt,
    /// Draw the dashboard and sleep for one tick period.
    Wait,
}

/// What a tick comes to, given the running flag and whether the timer is
/// due.
pub open spec fn decision_at(running: bool, due: bool) -> Tick {
    if !running {
        Tick::Stop
    } else if due {
        Tick::Attempt
    } else {
        Tick::Wait
    }
}

/// Everything that is asked for at one tick: a whole attempt where one is
/// started, and nothing otherwise.
pub open spec fn asked_at(plan: Plan, running: bool, due: bool, events: Seq<EventView>) -> Seq<
    ActionView,
> {
    if decision_at(running, due) == Tick::Attempt {
        attempt(plan, events)
    } else {
        Seq::empty()
    }
}

/// A tick that sees the running flag down leaves the loop, due or not, and
/// asks for nothing: no status is posted and no log is written after a
/// shutdown request that arrives between attempts.
pub proof fn law_shutdown_asks_for_nothing(plan: Plan, due: bool, events: Seq<EventView>)
    ensures
        decision_at(false, due) == Tick::Stop,
        asked_at(plan, false, due, events) == Seq::<ActionView>::empty(),
{
}

/// Decides a tick from the running flag and the timer. A shutdown request
/// wins over a due attempt: the loop leaves at the first tick that sees the
/// flag down, and starts nothing then.
pub fn tick(running: bool, due: bool) -> (decision: Tick)
    ensures
        decision == decision_at(running, due),
        !running ==> decision == Tick::Stop,
{
    if !running {
        Tick::Stop
    } else if due {
        Tick::Attempt
    } else {
        Tick::Wait
    }
}

/// Re-arms the timer after an attempt, whatever its outcome, and shows the
/// new retry window on the dashboard. Returns the new due time.
pub fn rearm(
    timer: &mut RandomExpBackoffTimer,
    summary: &mut Summary,
    now: u64,
    jitter_millis: u64,
) -> (due: u128)
    ensures
        due == due_after(now, jitter_millis),
        now + MIN_DELAY_MILLIS <= due <= now + MAX_DELAY_MILLIS,
        final(timer).due() == due,
        final(summary)@ == (SummaryView {
            retry_window: RetryWindow { start_time: now, due_time: due },
            ..old(summary)@
        }),
{
    let due = timer.reset(now, jitter_millis);
    summary.reset_retry_window(now, due);
    due
}

} // verus!
