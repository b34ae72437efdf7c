use show_bt_connect::config::{elapsed_ms, in_pass_through_window, PASS_THROUGH_WINDOW_MS};
use show_bt_connect::keyboard_hook::{
    classify_key, release_step, Handshake, HookControl, HookError, HookState, KeyEvent, KeyVerdict,
    ReleaseStep, VK_K, VK_LWIN, VK_RWIN,
};

#[test]
fn classify_modifier_and_letter() {
    assert_eq!(classify_key(VK_LWIN, true), KeyEvent::ModifierDown);
    assert_eq!(classify_key(VK_RWIN, true), KeyEvent::ModifierDown);
    assert_eq!(classify_key(VK_LWIN, false), KeyEvent::ModifierUp);
    assert_eq!(classify_key(VK_RWIN, false), KeyEvent::ModifierUp);
    assert_eq!(classify_key(VK_K, true), KeyEvent::LetterDown);
    assert_eq!(classify_key(VK_K, false), KeyEvent::Other);
    assert_eq!(classify_key(0x41, true), KeyEvent::Other);
}

#[test]
fn elapsed_saturates_when_clock_reads_earlier() {
    assert_eq!(elapsed_ms(100, 350), 250);
    assert_eq!(elapsed_ms(350, 100), 0);
    assert!(in_pass_through_window(1000, 1000 + PASS_THROUGH_WINDOW_MS - 1));
    assert!(!in_pass_through_window(1000, 1000 + PASS_THROUGH_WINDOW_MS));
    assert!(in_pass_through_window(1000, 500));
}

#[test]
fn first_press_swallowed_second_within_window_passes() {
    let mut s = HookState::new();
    assert_eq!(s.handle_key(KeyEvent::ModifierDown, 0), KeyVerdict::PassThrough);
    assert_eq!(s.handle_key(KeyEvent::LetterDown, 10), KeyVerdict::Intercept);
    assert_eq!(s.handle_key(KeyEvent::LetterDown, 10 + 1199), KeyVerdict::PassThrough);
}

#[test]
fn press_after_window_restarts_it() {
    let mut s = HookState::new();
    s.handle_key(KeyEvent::ModifierDown, 0);
    assert_eq!(s.handle_key(KeyEvent::LetterDown, 100), KeyVerdict::Intercept);
    assert_eq!(s.handle_key(KeyEvent::LetterDown, 100 + 1200), KeyVerdict::Intercept);
    // The window now runs from the second swallowed press.
    assert_eq!(s.handle_key(KeyEvent::LetterDown, 100 + 1200 + 1199), KeyVerdict::PassThrough);
    assert_eq!(s.handle_key(KeyEvent::LetterDown, 100 + 2400), KeyVerdict::Intercept);
}

#[test]
fn letter_without_modifier_is_never_swallowed() {
    let mut s = HookState::new();
    assert_eq!(s.handle_key(KeyEvent::LetterDown, 0), KeyVerdict::PassThrough);
    assert_eq!(s.handle_key_code(VK_K, true, 5000), KeyVerdict::PassThrough);
}

#[test]
fn modifier_up_resets_chord() {
    let mut s = HookState::new();
    s.handle_key_code(VK_LWIN, true, 0);
    assert_eq!(s.handle_key_code(VK_K, true, 10), KeyVerdict::Intercept);
    assert_eq!(s.handle_key_code(VK_LWIN, false, 20), KeyVerdict::PassThrough);
    // Pressed again well within the old window: a fresh first press.
    s.handle_key_code(VK_RWIN, true, 30);
    assert_eq!(s.handle_key_code(VK_K, true, 40), KeyVerdict::Intercept);
    assert_eq!(s.handle_key_code(VK_K, true, 50), KeyVerdict::PassThrough);
}

#[test]
fn other_keys_pass_and_keep_state() {
    let mut s = HookState::new();
    s.handle_key(KeyEvent::ModifierDown, 0);
    assert_eq!(s.handle_key(KeyEvent::LetterDown, 0), KeyVerdict::Intercept);
    assert_eq!(s.handle_key_code(0x41, true, 5), KeyVerdict::PassThrough);
    assert_eq!(s.handle_key_code(VK_K, false, 6), KeyVerdict::PassThrough);
    assert_eq!(s.handle_key(KeyEvent::LetterDown, 7), KeyVerdict::PassThrough);
}

#[test]
fn install_twice_is_refused() {
    let mut c = HookControl::new();
    assert!(!c.is_installed());
    assert_eq!(c.begin_install(), Ok(()));
    assert_eq!(c.finish_install(Handshake::Registered), Ok(()));
    assert!(c.is_installed());
    assert_eq!(c.begin_install(), Err(HookError::AlreadyInstalled));
    assert!(c.is_installed());
}

#[test]
fn refused_or_timed_out_install_frees_the_hook() {
    let mut c = HookControl::new();
    assert_eq!(c.begin_install(), Ok(()));
    assert_eq!(c.finish_install(Handshake::Refused), Err(HookError::InstallFailed));
    assert!(!c.is_installed());
    assert_eq!(c.begin_install(), Ok(()));
    assert_eq!(c.finish_install(Handshake::TimedOut), Err(HookError::InstallTimeout));
    assert!(!c.is_installed());
    assert_eq!(c.begin_install(), Ok(()));
}

#[test]
fn release_is_idempotent() {
    let mut c = HookControl::new();
    c.release();
    assert!(!c.is_installed());
    assert_eq!(c.begin_install(), Ok(()));
    c.release();
    c.release();
    assert!(!c.is_installed());
}

#[test]
fn reinstall_after_release_starts_fresh() {
    let mut c = HookControl::new();
    assert_eq!(c.begin_install(), Ok(()));
    assert_eq!(c.finish_install(Handshake::Registered), Ok(()));
    c.handle_key(KeyEvent::ModifierDown, 0);
    assert_eq!(c.handle_key(KeyEvent::LetterDown, 10), KeyVerdict::Intercept);
    c.release();
    assert_eq!(c.begin_install(), Ok(()));
    assert_eq!(c.finish_install(Handshake::Registered), Ok(()));
    // No modifier is remembered across the cycle.
    assert_eq!(c.handle_key(KeyEvent::LetterDown, 20), KeyVerdict::PassThrough);
    c.handle_key(KeyEvent::ModifierDown, 30);
    // No swallowed press is remembered either: this is a first press.
    assert_eq!(c.handle_key(KeyEvent::LetterDown, 40), KeyVerdict::Intercept);
}

#[test]
fn release_waits_only_within_grace() {
    assert_eq!(release_step(0, false), ReleaseStep::Wait);
    assert_eq!(release_step(0, true), ReleaseStep::Join);
    assert_eq!(release_step(199, false), ReleaseStep::Wait);
    assert_eq!(release_step(199, true), ReleaseStep::Join);
    assert_eq!(release_step(200, false), ReleaseStep::Detach);
    assert_eq!(release_step(200, true), ReleaseStep::Detach);
}
