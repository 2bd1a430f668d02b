//! User settings: the catalog API key.
use vstd::prelude::*;

verus! {

pub struct Settings {
    pub apikey: Option<String>,
}

impl Clone for Settings {
    fn clone(&self) -> (r: Settings)
        ensures
            r == *self,
    {
        Settings {
            apikey: match &self.apikey {
                Some(k) => Some(k.clone()),
                None => None,
            },
        }
    }
}

impl Default for Settings {
    fn default() -> (r: Settings)
        ensures
            r.apikey is None,
    {
        Settings { apikey: None }
    }
}

} // verus!
