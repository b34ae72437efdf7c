//! Timing windows shared by the chord hook and the toggle heuristic, and the
//! elapsed-time rule they are measured with.
//!
//! Times are milliseconds on a monotonic clock chosen by the caller.

use vstd::prelude::*;

verus! {

/// A trigger that comes sooner than this after the last accepted one is ignored.
pub const CLICK_DEBOUNCE_MS: u64 = 250;

/// The panel must have been believed open for longer than this before a
/// trigger is taken as a request to close it.
pub const TOGGLE_MIN_HIDE_MS: u64 = 800;

/// A second chord press within this window after a swallowed one is let
/// through to the operating system.
pub const PASS_THROUGH_WINDOW_MS: u64 = 1200;

/// Time from `from` to `to`; a clock reading earlier than `from` counts as no
/// time at all, as a monotonic clock's saturating difference does.
pub open spec fn elapsed(from: u64, to: u64) -> nat {
    if from <= to {
        (to - from) as nat
    } else {
        0
    }
}

/// Milliseconds from `from` to `to`, zero when `to` is the earlier reading.
pub fn elapsed_ms(from: u64, to: u64) -> (r: u64)
    ensures
        r == elapsed(from, to),
{
    if from <= to {
        to - from
    } else {
        0
    }
}

/// Whether a press at `now` falls inside the pass-through window opened by a
/// swallowed press at `first`.
pub open spec fn within_pass_through(first: u64, now: u64) -> bool {
    elapsed(first, now) < PASS_THROUGH_WINDOW_MS
}

/// Decides whether `now` lies inside the pass-through window that started at `first`.
pub fn in_pass_through_window(first: u64, now: u64) -> (r: bool)
    ensures
        r == within_pass_through(first, now),
{
    elapsed_ms(first, now) < PASS_THROUGH_WINDOW_MS
}

} // verus!
