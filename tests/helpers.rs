use std::cell::RefCell;

use show_bt_connect::audio_device::AudioDevice;
use show_bt_connect::bluetooth::{show_bluetooth_ui, FALLBACK_BLUETOOTH_URI, PRIMARY_BLUETOOTH_URI};
use show_bt_connect::single_instance::{instance_check, InstanceCheck, ERROR_ALREADY_EXISTS};
use show_bt_connect::taskbar_restart::RecreateDebounce;
use show_bt_connect::tray::{device_label, TrayHandles};
use show_bt_connect::utf16_strings::{encode_utf16, encode_utf16_null};

#[test]
fn utf16_ascii_with_terminator() {
    assert_eq!(encode_utf16_null("open"), vec![0x006F, 0x0070, 0x0065, 0x006E, 0]);
    assert_eq!(encode_utf16_null(""), vec![0]);
    assert_eq!(encode_utf16(""), Vec::<u16>::new());
}

#[test]
fn utf16_wide_characters() {
    assert_eq!(encode_utf16("é✓"), vec![0x00E9, 0x2713]);
    assert_eq!(encode_utf16("a\u{1F600}b"), vec![0x0061, 0xD83D, 0xDE00, 0x0062]);
    assert_eq!(encode_utf16("\u{10FFFF}"), vec![0xDBFF, 0xDFFF]);
    let s = "Global\\ShowBTConnectMutex";
    assert_eq!(encode_utf16(s), s.encode_utf16().collect::<Vec<u16>>());
}

#[test]
fn primary_uri_tried_first() {
    let calls = RefCell::new(Vec::new());
    let ok = show_bluetooth_ui(|uri: &str| {
        calls.borrow_mut().push(uri.to_string());
        true
    });
    assert!(ok);
    assert_eq!(*calls.borrow(), vec![PRIMARY_BLUETOOTH_URI.to_string()]);
    assert_eq!(PRIMARY_BLUETOOTH_URI, "ms-actioncenter:controlcenter/bluetooth");
}

#[test]
fn fallback_uri_after_primary_fails() {
    let calls = RefCell::new(Vec::new());
    let ok = show_bluetooth_ui(|uri: &str| {
        calls.borrow_mut().push(uri.to_string());
        uri == FALLBACK_BLUETOOTH_URI
    });
    assert!(ok);
    assert_eq!(
        *calls.borrow(),
        vec![PRIMARY_BLUETOOTH_URI.to_string(), "ms-settings:bluetooth".to_string()]
    );
    assert!(!show_bluetooth_ui(|_uri: &str| false));
}

#[test]
fn instance_verdicts() {
    assert_eq!(instance_check(true, 0), InstanceCheck::First);
    assert_eq!(instance_check(true, ERROR_ALREADY_EXISTS), InstanceCheck::AlreadyRunning);
    assert_eq!(instance_check(true, 183), InstanceCheck::AlreadyRunning);
    assert_eq!(instance_check(false, 5), InstanceCheck::Failed(5));
    assert_eq!(instance_check(false, 183), InstanceCheck::Failed(183));
}

#[test]
fn taskbar_announcements_debounced() {
    let mut d = RecreateDebounce::new();
    assert!(d.should_recreate(0));
    assert!(!d.should_recreate(299));
    assert!(d.should_recreate(300));
    assert!(!d.should_recreate(100));
    assert!(d.should_recreate(600));
}

fn device(id: &str, name: &str, is_default: bool) -> AudioDevice {
    AudioDevice { id: id.to_string(), name: name.to_string(), is_default }
}

#[test]
fn device_default_flag_from_endpoint() {
    let def = "{b}".to_string();
    let a = AudioDevice::from_endpoint("{a}".to_string(), "Speakers".to_string(), Some(&def));
    let b = AudioDevice::from_endpoint("{b}".to_string(), "Headset".to_string(), Some(&def));
    let c = AudioDevice::from_endpoint("{b}".to_string(), "Headset".to_string(), None);
    assert!(!a.is_default);
    assert!(b.is_default);
    assert!(!c.is_default);
    assert_eq!(b.id, "{b}");
    assert_eq!(b.name, "Headset");
}

#[test]
fn device_labels() {
    assert_eq!(device_label(&device("1", "Speakers", true)), "\u{2713} Speakers");
    assert_eq!(device_label(&device("2", "Headset", false)), "    Headset");
}

#[test]
fn menu_entry_lookup() {
    let handles = TrayHandles {
        about_id: "10".to_string(),
        exit_id: "11".to_string(),
        audio_devices: vec![device("a", "A", false), device("b", "B", true)],
        audio_device_ids: vec!["7".to_string(), "8".to_string(), "8".to_string()],
    };
    assert_eq!(handles.audio_device_index("7"), Some(0));
    assert_eq!(handles.audio_device_index("8"), Some(1));
    assert_eq!(handles.audio_device_index("10"), None);
    assert_eq!(handles.get_audio_device(1).map(|d| d.name.clone()), Some("B".to_string()));
    assert!(handles.get_audio_device(2).is_none());
}
