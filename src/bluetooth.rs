//! Showing the Bluetooth devices panel: the quick-settings flyout first, the
//! Settings page when that cannot be opened.

use vstd::prelude::*;

verus! {

/// The quick-settings Bluetooth flyout.
pub const PRIMARY_BLUETOOTH_URI: &'static str = "ms-actioncenter:controlcenter/bluetooth";

/// The Bluetooth page of Settings.
pub const FALLBACK_BLUETOOTH_URI: &'static str = "ms-settings:bluetooth";

/// Asks `launch_uri` to open the flyout and, only if that fails, the Settings
/// page; says whether either request was accepted.
pub fn show_bluetooth_ui<F: Fn(&str) -> bool>(launch_uri: F) -> (ok: bool)
    requires
        launch_uri.requires((PRIMARY_BLUETOOTH_URI,)),
        launch_uri.requires((FALLBACK_BLUETOOTH_URI,)),
    ensures
        ok ==> launch_uri.ensures((PRIMARY_BLUETOOTH_URI,), true)
            || launch_uri.ensures((FALLBACK_BLUETOOTH_URI,), true),
        !ok ==> launch_uri.ensures((PRIMARY_BLUETOOTH_URI,), false)
            && launch_uri.ensures((FALLBACK_BLUETOOTH_URI,), false),
{
    if launch_uri(PRIMARY_BLUETOOTH_URI) {
        return true;
    }
    launch_uri(FALLBACK_BLUETOOTH_URI)
}

} // verus!
