//! An opened save together with where it was read from.
use vstd::prelude::*;
use crate::container::SaveContainer;

verus! {

pub struct SaveData {
    pub save: SaveContainer,
    pub location: String,
}

impl SaveData {
    pub fn new(save: SaveContainer, location: String) -> (r: SaveData)
        ensures
            r.save == save,
            r.location == location,
    {
        SaveData { save, location }
    }

    pub fn get_location(&self) -> (r: &String)
        ensures
            r == &self.location,
    {
        &self.location
    }
}

} // verus!
