//! The window clock and the rhythm of the polling loops.

use vstd::prelude::*;
use crate::state::WINDOW_SECS;

verus! {

/// The seconds from `now` to two seconds past the next window boundary.
pub fn secs_until_next_window(now: u64) -> (r: u64)
    ensures
        r == WINDOW_SECS - now % WINDOW_SECS + 2,
        (now + r) % (WINDOW_SECS as int) == 2,
        (now + r) % 300 == 2,
        3 <= r <= 302,
{
    WINDOW_SECS - now % WINDOW_SECS + 2
}

/// What the window clock does when it wakes up.
#[derive(Clone, Copy, Debug, PartialEq, Eq, Structural)]
pub enum ClockAction {
    /// The boundary has not been crossed yet.
    Wait,
    /// Stop the feed of the old window, then start the feed of the new one and announce it.
    Switch { close_feed: u64, open: u64 },
}

/// What the window clock does when it wakes up in the window `current`.
pub fn clock_step(last_window: u64, current: u64) -> (r: ClockAction)
    ensures
        r == (if current == last_window {
            ClockAction::Wait
        } else {
            ClockAction::Switch { close_feed: last_window, open: current }
        }),
{
    if current == last_window {
        ClockAction::Wait
    } else {
        ClockAction::Switch { close_feed: last_window, open: current }
    }
}

/// What a polling loop does next.
#[derive(Clone, Copy, Debug, PartialEq, Eq, Structural)]
pub struct PollStep {
    /// The interval in milliseconds that is now in force.
    pub interval_ms: u64,
    /// Whether the timer has to be made anew, and with which period.
    pub restart_timer: Option<u64>,
    /// Whether to poll once the timer fires; else polling is off, and the loop looks again
    /// after a quarter of a second.
    pub poll: bool,
}

/// The period of the timer for an interval; a timer has no period of zero.
pub fn timer_period(interval_ms: u64) -> (r: u64)
    ensures
        r == (if interval_ms == 0 { 1u64 } else { interval_ms }),
{
    if interval_ms == 0 {
        1
    } else {
        interval_ms
    }
}

/// What a polling loop does next, where `current` is the interval in force and `latest` the
/// one that the user has set.
pub fn poll_step(current: u64, latest: u64) -> (r: PollStep)
    ensures
        r.interval_ms == latest,
        r.restart_timer == (if latest == current {
            None
        } else {
            Some(if latest == 0 { 1u64 } else { latest })
        }),
        r.poll == (latest != 0),
{
    PollStep {
        interval_ms: latest,
        restart_timer: if latest != current {
            Some(timer_period(latest))
        } else {
            None
        },
        poll: latest != 0,
    }
}

} // verus!
