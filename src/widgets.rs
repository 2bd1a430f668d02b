//! Which catalog listing is shown beside the save.
use vstd::prelude::*;

verus! {

#[derive(Clone, Copy, Debug, PartialEq, Eq, Structural)]
pub enum SmmdbTab {
    Courses,
    Uploads,
}

} // verus!
