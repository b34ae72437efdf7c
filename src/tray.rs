//! What the tray menu needs beyond the widgets themselves: the label of each
//! audio device entry, and the lookup from a clicked menu entry back to its
//! device.

use vstd::prelude::*;
use vstd::string::*;
use crate::audio_device::AudioDevice;

verus! {

/// Prefix of the default device's entry: a check mark.
pub const DEFAULT_DEVICE_MARK: &'static str = "\u{2713} ";

/// Prefix of the other entries, blank to line their names up.
pub const OTHER_DEVICE_MARK: &'static str = "    ";

/// The menu label of a device: its name behind a check mark when it is the
/// default, behind blanks otherwise.
pub open spec fn label_of(d: AudioDevice) -> Seq<char> {
    if d.is_default {
        DEFAULT_DEVICE_MARK@ + d.name@
    } else {
        OTHER_DEVICE_MARK@ + d.name@
    }
}

/// Builds the menu label of a device.
pub fn device_label(device: &AudioDevice) -> (label: String)
    ensures
        label@ == label_of(*device),
{
    let mark = if device.is_default {
        DEFAULT_DEVICE_MARK
    } else {
        OTHER_DEVICE_MARK
    };
    String::from_str(mark).concat(device.name.as_str())
}

/// Whether entry `i` is the first of `ids` that equals `id`.
pub open spec fn first_match(ids: Seq<String>, id: Seq<char>, i: int) -> bool {
    &&& 0 <= i < ids.len()
    &&& ids[i]@ == id
    &&& forall|j: int| 0 <= j < i ==> ids[j]@ != id
}

/// Whether no entry of `ids` equals `id`.
pub open spec fn no_match(ids: Seq<String>, id: Seq<char>) -> bool {
    forall|j: int| 0 <= j < ids.len() ==> ids[j]@ != id
}

/// What a click on a tray menu entry asks for.
#[derive(Clone, Copy, Debug, PartialEq, Eq, Structural)]
pub enum MenuAction {
    /// Show the about dialog.
    About,
    /// Leave the application.
    Exit,
    /// Make the device at this menu position the default output.
    SelectDevice(usize),
    /// Not an entry of this menu.
    Ignore,
}

/// The identifiers of the tray menu's entries, and the devices listed in it.
pub struct TrayHandles {
    pub about_id: String,
    pub exit_id: String,
    /// The devices in menu order.
    pub audio_devices: Vec<AudioDevice>,
    /// The menu identifier of each device's entry, in the same order.
    pub audio_device_ids: Vec<String>,
}

impl TrayHandles {
    /// The device at position `idx` of the menu, if there is one.
    pub fn get_audio_device(&self, idx: usize) -> (r: Option<&AudioDevice>)
        ensures
            idx < self.audio_devices@.len() ==> r == Some(&self.audio_devices@[idx as int]),
            idx >= self.audio_devices@.len() ==> r is None,
    {
        if idx < self.audio_devices.len() {
            Some(&self.audio_devices[idx])
        } else {
            None
        }
    }

    /// The position of the first device entry whose menu identifier is
    /// `menu_id`, if any is.
    pub fn audio_device_index(&self, menu_id: &str) -> (r: Option<usize>)
        ensures
            r is Some ==> first_match(self.audio_device_ids@, menu_id@, r->0 as int),
            r is None ==> no_match(self.audio_device_ids@, menu_id@),
    {
        let target = String::from_str(menu_id);
        let n = self.audio_device_ids.len();
        let mut i: usize = 0;
        while i < n
            invariant
                n == self.audio_device_ids@.len(),
                i <= n,
                target@ == menu_id@,
                forall|j: int| 0 <= j < i ==> self.audio_device_ids@[j]@ != menu_id@,
            decreases n - i,
        {
            if self.audio_device_ids[i] == target {
                return Some(i);
            }
            i = i + 1;
        }
        None
    }

    /// What a click on the entry with identifier `menu_id` asks for: the
    /// about and exit entries first, then the device entries.
    pub fn menu_action(&self, menu_id: &str) -> (a: MenuAction)
        ensures
            self.about_id@ == menu_id@ ==> a == MenuAction::About,
            self.about_id@ != menu_id@ && self.exit_id@ == menu_id@ ==> a == MenuAction::Exit,
            self.about_id@ != menu_id@ && self.exit_id@ != menu_id@ ==> match a {
                MenuAction::SelectDevice(i) => first_match(self.audio_device_ids@, menu_id@, i as int),
                MenuAction::Ignore => no_match(self.audio_device_ids@, menu_id@),
                _ => false,
            },
    {
        let target = String::from_str(menu_id);
        if self.about_id == target {
            MenuAction::About
        } else if self.exit_id == target {
            MenuAction::Exit
        } else {
            match self.audio_device_index(menu_id) {
                Some(i) => MenuAction::SelectDevice(i),
                None => MenuAction::Ignore,
            }
        }
    }
}

} // verus!
