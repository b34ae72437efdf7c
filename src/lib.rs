//! Chord interception and panel-toggle decisions for a tray utility that
//! brings up the Bluetooth devices panel.
//!
//! Everything here is a pure decision over plain values: the caller reads the
//! clock and the operating system's events, hands them in, and performs the
//! actions that come back.

pub mod config;
pub mod keyboard_hook;
pub mod app_state;
pub mod utf16_strings;
pub mod bluetooth;
pub mod single_instance;
pub mod taskbar_restart;
pub mod audio_device;
pub mod tray;
