//! The toggle heuristic: one entry point for both trigger sources (a tray
//! click and the chord hook) that decides whether to launch the panel, and
//! keeps a belief of whether the panel is open.
//!
//! The operating system says nothing about whether the panel is visible, so
//! the belief is kept by timing alone: a trigger while believed closed opens
//! it; one while believed open closes it, but only once the panel has been up
//! long enough not to flicker; triggers that come too close together count once.

use vstd::prelude::*;
use crate::config::{CLICK_DEBOUNCE_MS, TOGGLE_MIN_HIDE_MS, elapsed, elapsed_ms};

verus! {

/// What a trigger led to.
#[derive(Clone, Copy, Debug, PartialEq, Eq, Structural)]
pub enum ToggleDecision {
    /// Too soon after the last accepted trigger: ignored.
    Debounced,
    /// Believed closed: launch the panel, now believed open.
    Open,
    /// Believed open long enough: launch again to close it, now believed closed.
    Close,
    /// Believed open too briefly to close: nothing launched.
    KeepOpen,
}

impl ToggleDecision {
    /// Whether the panel launcher is to be called.
    pub fn launches(&self) -> (r: bool)
        ensures
            r == (*self == ToggleDecision::Open || *self == ToggleDecision::Close),
    {
        match self {
            ToggleDecision::Open | ToggleDecision::Close => true,
            _ => false,
        }
    }
}

/// The toggle state as a value.
pub struct ToggleView {
    /// When the last trigger was accepted, if one was.
    pub last_click: Option<u64>,
    /// When the launcher was last called to open the panel.
    pub last_launch: u64,
    /// Whether the panel is believed open.
    pub believed_open: bool,
}

pub open spec fn toggle_initial() -> ToggleView {
    ToggleView { last_click: None, last_launch: 0, believed_open: false }
}

/// Whether a trigger at `now` comes too soon after the last accepted one.
pub open spec fn debounced(s: ToggleView, now: u64) -> bool {
    match s.last_click {
        Some(c) => elapsed(c, now) < CLICK_DEBOUNCE_MS,
        None => false,
    }
}

/// The heuristic: the next state and the decision for a trigger at `now`.
pub open spec fn toggle_step(s: ToggleView, now: u64) -> (ToggleView, ToggleDecision) {
    if debounced(s, now) {
        (s, ToggleDecision::Debounced)
    } else if !s.believed_open {
        (ToggleView { last_click: Some(now), last_launch: now, believed_open: true }, ToggleDecision::Open)
    } else if elapsed(s.last_launch, now) > TOGGLE_MIN_HIDE_MS {
        (ToggleView { last_click: Some(now), believed_open: false, ..s }, ToggleDecision::Close)
    } else {
        (ToggleView { last_click: Some(now), ..s }, ToggleDecision::KeepOpen)
    }
}

/// The coordinator's state; one per process, on the main event thread.
#[derive(Debug)]
pub struct AppState {
    last_click_time: Option<u64>,
    last_launch_time: u64,
    last_user_thought_open: bool,
}

impl View for AppState {
    type V = ToggleView;

    closed spec fn view(&self) -> ToggleView {
        ToggleView {
            last_click: self.last_click_time,
            last_launch: self.last_launch_time,
            believed_open: self.last_user_thought_open,
        }
    }
}

impl AppState {
    /// No trigger yet, panel believed closed: the first trigger is never debounced.
    pub fn new() -> (s: Self)
        ensures
            s@ == toggle_initial(),
    {
        AppState { last_click_time: None, last_launch_time: 0, last_user_thought_open: false }
    }

    fn toggle_bluetooth_ui_internal(&mut self, now_ms: u64) -> (d: ToggleDecision)
        ensures
            (final(self)@, d) == toggle_step(old(self)@, now_ms),
    {
        if let Some(last) = self.last_click_time {
            if elapsed_ms(last, now_ms) < CLICK_DEBOUNCE_MS {
                return ToggleDecision::Debounced;
            }
        }
        self.last_click_time = Some(now_ms);
        if !self.last_user_thought_open {
            self.last_launch_time = now_ms;
            self.last_user_thought_open = true;
            ToggleDecision::Open
        } else if elapsed_ms(self.last_launch_time, now_ms) > TOGGLE_MIN_HIDE_MS {
            self.last_user_thought_open = false;
            ToggleDecision::Close
        } else {
            ToggleDecision::KeepOpen
        }
    }

    /// A left click on the tray icon at `now_ms`.
    pub fn on_tray_left_click(&mut self, now_ms: u64) -> (d: ToggleDecision)
        ensures
            (final(self)@, d) == toggle_step(old(self)@, now_ms),
    {
        self.toggle_bluetooth_ui_internal(now_ms)
    }

    /// A chord press reported by the keyboard hook at `now_ms`.
    pub fn on_win_k(&mut self, now_ms: u64) -> (d: ToggleDecision)
        ensures
            (final(self)@, d) == toggle_step(old(self)@, now_ms),
    {
        self.toggle_bluetooth_ui_internal(now_ms)
    }

    /// Whether the panel is believed open.
    pub fn is_panel_thought_open(&self) -> (r: bool)
        ensures
            r == self@.believed_open,
    {
        self.last_user_thought_open
    }

    /// Records that the panel was closed by other means.
    pub fn mark_panel_closed(&mut self)
        ensures
            final(self)@ == (ToggleView { believed_open: false, ..old(self)@ }),
    {
        self.last_user_thought_open = false;
    }
}

/// The time of the last accepted trigger never moves back, whatever clock
/// reading a trigger carries.
pub proof fn lemma_click_time_monotonic(s: ToggleView, now: u64)
    ensures
        ({
            let s1 = toggle_step(s, now).0;
            s.last_click is Some ==> s1.last_click is Some && s.last_click->0 <= s1.last_click->0
        }),
{
}

/// A trigger sooner than the debounce window after an accepted one launches
/// nothing and changes nothing.
pub proof fn lemma_debounce(s: ToggleView, t1: u64, t2: u64)
    requires
        !debounced(s, t1),
        t1 <= t2,
        t2 - t1 < CLICK_DEBOUNCE_MS,
    ensures
        ({
            let (s1, d1) = toggle_step(s, t1);
            let (s2, d2) = toggle_step(s1, t2);
            &&& d2 == ToggleDecision::Debounced
            &&& s2 == s1
        }),
{
}

/// From a closed belief, an accepted trigger launches and believes the panel
/// open. A next trigger outside the debounce window launches again and
/// believes it closed when it comes later than the minimum visible time after
/// the first; otherwise it launches nothing and the belief stays open.
pub proof fn lemma_open_close_cycle(s: ToggleView, t1: u64, t2: u64)
    requires
        !s.believed_open,
        !debounced(s, t1),
        t1 <= t2,
        t2 - t1 >= CLICK_DEBOUNCE_MS,
    ensures
        ({
            let (s1, d1) = toggle_step(s, t1);
            let (s2, d2) = toggle_step(s1, t2);
            &&& d1 == ToggleDecision::Open
            &&& s1.believed_open
            &&& t2 - t1 > TOGGLE_MIN_HIDE_MS ==> d2 == ToggleDecision::Close && !s2.believed_open
            &&& t2 - t1 <= TOGGLE_MIN_HIDE_MS ==> d2 == ToggleDecision::KeepOpen && s2.believed_open
        }),
{
}

} // verus!
