//! Where a save lives on disk.
use vstd::prelude::*;

verus! {

/// Which emulator a save location belongs to.
#[derive(Clone, Copy, Debug, PartialEq, Eq, Structural)]
pub enum EmuType {
    Yuzu,
    Ryujinx,
}

/// A save location.
pub struct Save {
    pub location: String,
    pub emu_type: EmuType,
}

impl Save {
    pub fn new(location: String, emu_type: EmuType) -> (r: Save)
        ensures
            r.location == location,
            r.emu_type == emu_type,
    {
        Save { location, emu_type }
    }

    pub fn get_location(&self) -> (r: &String)
        ensures
            r == &self.location,
    {
        &self.location
    }
}

} // verus!
