//! Audio output devices as the tray menu lists them.

use vstd::prelude::*;

verus! {

/// An audio output device.
#[derive(Clone, Debug)]
pub struct AudioDevice {
    /// The endpoint identifier.
    pub id: String,
    /// The friendly name shown in the menu.
    pub name: String,
    /// Whether this is the default console output.
    pub is_default: bool,
}

impl AudioDevice {
    /// A device from its endpoint identifier and name, marked default when
    /// its identifier is the default endpoint's.
    pub fn from_endpoint(id: String, name: String, default_id: Option<&String>) -> (d: AudioDevice)
        ensures
            d.id@ == id@,
            d.name@ == name@,
            d.is_default == (default_id is Some && default_id->0@ == id@),
    {
        let is_default = match default_id {
            Some(d) => *d == id,
            None => false,
        };
        AudioDevice { id, name, is_default }
    }
}

} // verus!
