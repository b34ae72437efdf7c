//! The chord protocol of the global keyboard hook, and the lifecycle of the
//! hook itself.
//!
//! The chord is a Windows key held down while K is pressed. The first K press
//! of a hold is swallowed and reported; a second one within the pass-through
//! window reaches the operating system untouched, so its own flyout still
//! opens; one after the window counts as a new first press.

use vstd::prelude::*;
use crate::config::{PASS_THROUGH_WINDOW_MS, elapsed, within_pass_through, in_pass_through_window};

verus! {

/// Virtual-key code of the left Windows key.
pub const VK_LWIN: u32 = 0x5B;

/// Virtual-key code of the right Windows key.
pub const VK_RWIN: u32 = 0x5C;

/// Virtual-key code of the K key.
pub const VK_K: u32 = 0x4B;

/// How long a release waits for the pump thread before leaving it behind.
pub const RELEASE_GRACE_MS: u64 = 200;

/// A keyboard event reduced to what the chord protocol reads.
#[derive(Clone, Copy, Debug, PartialEq, Eq, Structural)]
pub enum KeyEvent {
    ModifierDown,
    ModifierUp,
    LetterDown,
    Other,
}

/// What the hook does with an event.
#[derive(Clone, Copy, Debug, PartialEq, Eq, Structural)]
pub enum KeyVerdict {
    /// Report a first press and keep the event from the operating system.
    Intercept,
    /// Hand the event on unchanged.
    PassThrough,
}

pub open spec fn is_modifier_key(vk: u32) -> bool {
    vk == VK_LWIN || vk == VK_RWIN
}

/// The event that a key transition stands for.
pub open spec fn key_event_of(vk: u32, is_keydown: bool) -> KeyEvent {
    if is_modifier_key(vk) {
        if is_keydown {
            KeyEvent::ModifierDown
        } else {
            KeyEvent::ModifierUp
        }
    } else if is_keydown && vk == VK_K {
        KeyEvent::LetterDown
    } else {
        KeyEvent::Other
    }
}

/// Classifies a key transition by its virtual-key code and direction.
pub fn classify_key(vk: u32, is_keydown: bool) -> (e: KeyEvent)
    ensures
        e == key_event_of(vk, is_keydown),
{
    if vk == VK_LWIN || vk == VK_RWIN {
        if is_keydown {
            KeyEvent::ModifierDown
        } else {
            KeyEvent::ModifierUp
        }
    } else if is_keydown && vk == VK_K {
        KeyEvent::LetterDown
    } else {
        KeyEvent::Other
    }
}

/// The chord state as a value: whether the modifier is held, and when the
/// last swallowed press of this hold happened, if there was one.
pub struct ChordView {
    pub modifier_down: bool,
    pub first_press: Option<u64>,
}

/// Nothing held, nothing swallowed.
pub open spec fn chord_idle() -> ChordView {
    ChordView { modifier_down: false, first_press: None }
}

/// The chord protocol: the next state and the verdict for one event at `now`.
pub open spec fn chord_step(s: ChordView, e: KeyEvent, now: u64) -> (ChordView, KeyVerdict) {
    match e {
        KeyEvent::ModifierDown => (ChordView { modifier_down: true, ..s }, KeyVerdict::PassThrough),
        KeyEvent::ModifierUp => (chord_idle(), KeyVerdict::PassThrough),
        KeyEvent::LetterDown => {
            if !s.modifier_down {
                (s, KeyVerdict::PassThrough)
            } else {
                match s.first_press {
                    Some(t) if within_pass_through(t, now) => (s, KeyVerdict::PassThrough),
                    _ => (
                        ChordView { modifier_down: true, first_press: Some(now) },
                        KeyVerdict::Intercept,
                    ),
                }
            }
        },
        KeyEvent::Other => (s, KeyVerdict::PassThrough),
    }
}

/// The state the hook callback keeps between events.
pub struct HookState {
    win_down: bool,
    swallowed_first: bool,
    first_k_time: Option<u64>,
}

impl View for HookState {
    type V = ChordView;

    closed spec fn view(&self) -> ChordView {
        ChordView { modifier_down: self.win_down, first_press: self.first_k_time }
    }
}

impl HookState {
    /// A press time is recorded exactly when a press has been swallowed.
    #[verifier::type_invariant]
    spec fn swallow_recorded(&self) -> bool {
        self.swallowed_first == self.first_k_time.is_some()
    }

    pub fn new() -> (s: Self)
        ensures
            s@ == chord_idle(),
    {
        HookState { win_down: false, swallowed_first: false, first_k_time: None }
    }

    /// Applies one event at `now_ms` and says whether to intercept it.
    pub fn handle_key(&mut self, event: KeyEvent, now_ms: u64) -> (v: KeyVerdict)
        ensures
            (final(self)@, v) == chord_step(old(self)@, event, now_ms),
    {
        proof {
            use_type_invariant(&*self);
        }
        match event {
            KeyEvent::ModifierDown => {
                self.win_down = true;
                KeyVerdict::PassThrough
            },
            KeyEvent::ModifierUp => {
                *self = HookState::new();
                KeyVerdict::PassThrough
            },
            KeyEvent::LetterDown => {
                if !self.win_down {
                    return KeyVerdict::PassThrough;
                }
                let window_ok = match self.first_k_time {
                    Some(t) => in_pass_through_window(t, now_ms),
                    None => false,
                };
                if !self.swallowed_first || !window_ok {
                    *self = HookState { win_down: true, swallowed_first: true, first_k_time: Some(now_ms) };
                    KeyVerdict::Intercept
                } else {
                    KeyVerdict::PassThrough
                }
            },
            KeyEvent::Other => KeyVerdict::PassThrough,
        }
    }

    /// Applies a raw key transition: its virtual-key code and direction.
    pub fn handle_key_code(&mut self, vk: u32, is_keydown: bool, now_ms: u64) -> (v: KeyVerdict)
        ensures
            (final(self)@, v) == chord_step(old(self)@, key_event_of(vk, is_keydown), now_ms),
    {
        let event = classify_key(vk, is_keydown);
        self.handle_key(event, now_ms)
    }
}

/// Why installing the hook failed.
#[derive(Clone, Copy, Debug, PartialEq, Eq, Structural)]
pub enum HookError {
    /// A hook is installed already and has not been released.
    AlreadyInstalled,
    /// The operating system refused to register the hook.
    InstallFailed,
    /// The pump thread did not confirm the registration in time.
    InstallTimeout,
}

/// What the installing thread heard back from the pump thread.
#[derive(Clone, Copy, Debug, PartialEq, Eq, Structural)]
pub enum Handshake {
    /// The hook was registered.
    Registered,
    /// Registration was refused.
    Refused,
    /// No answer came within the handshake bound.
    TimedOut,
}

/// What a release does next while it waits for the pump thread to end.
#[derive(Clone, Copy, Debug, PartialEq, Eq, Structural)]
pub enum ReleaseStep {
    /// The thread has ended: join it.
    Join,
    /// Poll again shortly.
    Wait,
    /// The grace period is over: leave the thread behind.
    Detach,
}

/// The lifecycle of the hook as a value: whether one is installed, and the
/// chord state its callback works on.
pub struct HookControlView {
    pub installed: bool,
    pub chord: ChordView,
}

pub open spec fn control_initial() -> HookControlView {
    HookControlView { installed: false, chord: chord_idle() }
}

/// Starting an install: refused while a hook is installed; otherwise the hook
/// counts as installed and its chord state starts afresh.
pub open spec fn install_begun(c: HookControlView) -> (Result<(), HookError>, HookControlView) {
    if c.installed {
        (Err(HookError::AlreadyInstalled), c)
    } else {
        (Ok(()), HookControlView { installed: true, chord: chord_idle() })
    }
}

/// Completing an install with the pump thread's answer.
pub open spec fn install_finished(c: HookControlView, h: Handshake) -> (Result<(), HookError>, HookControlView) {
    match h {
        Handshake::Registered => (Ok(()), c),
        Handshake::Refused => (Err(HookError::InstallFailed), HookControlView { installed: false, ..c }),
        Handshake::TimedOut => (Err(HookError::InstallTimeout), HookControlView { installed: false, ..c }),
    }
}

/// Releasing: afterwards no hook is installed, whatever was before.
pub open spec fn released(c: HookControlView) -> HookControlView {
    HookControlView { installed: false, ..c }
}

/// The wait rule of a release, `elapsed_ms` after it signalled the pump thread.
pub open spec fn release_step_of(elapsed_ms: u64, finished: bool) -> ReleaseStep {
    if elapsed_ms >= RELEASE_GRACE_MS {
        ReleaseStep::Detach
    } else if finished {
        ReleaseStep::Join
    } else {
        ReleaseStep::Wait
    }
}

/// Decides how a release goes on, given the time since it signalled the pump
/// thread and whether that thread has ended.
pub fn release_step(elapsed_ms: u64, finished: bool) -> (r: ReleaseStep)
    ensures
        r == release_step_of(elapsed_ms, finished),
        r == ReleaseStep::Wait ==> elapsed_ms < RELEASE_GRACE_MS,
{
    if elapsed_ms >= RELEASE_GRACE_MS {
        ReleaseStep::Detach
    } else if finished {
        ReleaseStep::Join
    } else {
        ReleaseStep::Wait
    }
}

/// The one hook of a process: whether it is installed, and its chord state.
pub struct HookControl {
    installed: bool,
    state: HookState,
}

impl View for HookControl {
    type V = HookControlView;

    closed spec fn view(&self) -> HookControlView {
        HookControlView { installed: self.installed, chord: self.state@ }
    }
}

impl HookControl {
    pub fn new() -> (c: Self)
        ensures
            c@ == control_initial(),
    {
        HookControl { installed: false, state: HookState::new() }
    }

    pub fn is_installed(&self) -> (r: bool)
        ensures
            r == self@.installed,
    {
        self.installed
    }

    /// Claims the hook for a new install, with a fresh chord state.
    pub fn begin_install(&mut self) -> (r: Result<(), HookError>)
        ensures
            (r, final(self)@) == install_begun(old(self)@),
    {
        if self.installed {
            return Err(HookError::AlreadyInstalled);
        }
        self.installed = true;
        self.state = HookState::new();
        Ok(())
    }

    /// Completes an install with the pump thread's answer; a refusal or a
    /// timeout gives the hook up again.
    pub fn finish_install(&mut self, handshake: Handshake) -> (r: Result<(), HookError>)
        ensures
            (r, final(self)@) == install_finished(old(self)@, handshake),
    {
        match handshake {
            Handshake::Registered => Ok(()),
            Handshake::Refused => {
                self.installed = false;
                Err(HookError::InstallFailed)
            },
            Handshake::TimedOut => {
                self.installed = false;
                Err(HookError::InstallTimeout)
            },
        }
    }

    /// Gives the hook up; releasing an uninstalled hook changes nothing else.
    pub fn release(&mut self)
        ensures
            final(self)@ == released(old(self)@),
    {
        self.installed = false;
    }

    /// Applies one event at `now_ms` to the hook's chord state.
    pub fn handle_key(&mut self, event: KeyEvent, now_ms: u64) -> (v: KeyVerdict)
        ensures
            (final(self)@.chord, v) == chord_step(old(self)@.chord, event, now_ms),
            final(self)@.installed == old(self)@.installed,
    {
        self.state.handle_key(event, now_ms)
    }
}

/// Whether a letter press at `now` counts as a first press: nothing has been
/// swallowed in this hold, or the last swallowed press is out of the window.
pub open spec fn is_first_press(s: ChordView, now: u64) -> bool {
    match s.first_press {
        Some(t) => !within_pass_through(t, now),
        None => true,
    }
}

/// With the modifier held, a first letter press is intercepted and opens the
/// window. A next press sooner than the window after it passes through,
/// reports nothing and changes nothing; one at or after the window is again
/// a first press: intercepted, and opening the window anew. Chained, this
/// covers any run of presses within one hold.
pub proof fn lemma_chord_presses(s: ChordView, t1: u64, t2: u64)
    requires
        s.modifier_down,
        is_first_press(s, t1),
        t1 <= t2,
    ensures
        ({
            let (s1, v1) = chord_step(s, KeyEvent::LetterDown, t1);
            let (s2, v2) = chord_step(s1, KeyEvent::LetterDown, t2);
            &&& v1 == KeyVerdict::Intercept
            &&& s1 == ChordView { modifier_down: true, first_press: Some(t1) }
            &&& t2 - t1 < PASS_THROUGH_WINDOW_MS ==> v2 == KeyVerdict::PassThrough && s2 == s1
            &&& t2 - t1 >= PASS_THROUGH_WINDOW_MS ==> is_first_press(s1, t2)
                && v2 == KeyVerdict::Intercept
                && s2 == ChordView { modifier_down: true, first_press: Some(t2) }
        }),
{
    assert(elapsed(t1, t2) == t2 - t1);
}

/// Letting go of the modifier resets the chord from any state; holding it
/// again and pressing the letter is then a fresh first press.
pub proof fn lemma_modifier_up_resets(s: ChordView, t_up: u64, t_down: u64, t_press: u64)
    ensures
        ({
            let (s1, v1) = chord_step(s, KeyEvent::ModifierUp, t_up);
            let (s2, v2) = chord_step(s1, KeyEvent::ModifierDown, t_down);
            let (s3, v3) = chord_step(s2, KeyEvent::LetterDown, t_press);
            &&& s1 == chord_idle()
            &&& v1 == KeyVerdict::PassThrough
            &&& v2 == KeyVerdict::PassThrough
            &&& v3 == KeyVerdict::Intercept
            &&& s3 == ChordView { modifier_down: true, first_press: Some(t_press) }
        }),
{
}

/// Releasing twice is releasing once, and a release never waits once its
/// grace period is over.
pub proof fn lemma_release_idempotent(c: HookControlView, elapsed_ms: u64, finished: bool)
    ensures
        released(released(c)) == released(c),
        !released(c).installed,
        release_step_of(elapsed_ms, finished) == ReleaseStep::Wait ==> elapsed_ms < RELEASE_GRACE_MS,
{
}

/// After any install and release, installing again succeeds and leaves the
/// hook exactly as a first install in a new process does.
pub proof fn lemma_reinstall_after_release(c: HookControlView)
    ensures
        install_begun(released(c)) == install_begun(control_initial()),
        install_begun(released(c)).0 is Ok,
        install_begun(released(c)).1.chord == chord_idle(),
{
}

} // verus!
