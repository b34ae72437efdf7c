//! Debounce for the taskbar-restart broadcast: Explorer may announce a new
//! taskbar several times in a row, and the tray icon is rebuilt once.

use vstd::prelude::*;
use crate::config::{elapsed, elapsed_ms};

verus! {

/// Announcements closer together than this are rebuilt for once.
pub const RECREATE_DEBOUNCE_MS: u64 = 300;

/// When the tray icon was last rebuilt, if it was.
pub struct RecreateDebounce {
    last_recreate: Option<u64>,
}

impl View for RecreateDebounce {
    type V = Option<u64>;

    closed spec fn view(&self) -> Option<u64> {
        self.last_recreate
    }
}

/// Whether an announcement at `now` calls for a rebuild.
pub open spec fn recreate_due(last: Option<u64>, now: u64) -> bool {
    match last {
        Some(t) => elapsed(t, now) >= RECREATE_DEBOUNCE_MS,
        None => true,
    }
}

impl RecreateDebounce {
    pub fn new() -> (d: Self)
        ensures
            d@ is None,
    {
        RecreateDebounce { last_recreate: None }
    }

    /// Decides whether an announcement at `now_ms` rebuilds the icon, and
    /// records the rebuild when it does.
    pub fn should_recreate(&mut self, now_ms: u64) -> (r: bool)
        ensures
            r == recreate_due(old(self)@, now_ms),
            r ==> final(self)@ == Some(now_ms),
            !r ==> final(self)@ == old(self)@,
    {
        let due = match self.last_recreate {
            Some(t) => elapsed_ms(t, now_ms) >= RECREATE_DEBOUNCE_MS,
            None => true,
        };
        if due {
            self.last_recreate = Some(now_ms);
        }
        due
    }
}

} // verus!
