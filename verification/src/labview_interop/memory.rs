//! References into the memory manager of the LabVIEW run-time.

use vstd::prelude::*;

verus! {

/// An opaque reference that the run-time hands out.
#[derive(Clone, Copy, PartialEq, Eq, Debug, Structural)]
pub struct MagicCookie(pub u32);

impl MagicCookie {
    pub fn new(value: u32) -> (r: MagicCookie)
        ensures
            r.0 == value,
    {
        MagicCookie(value)
    }

    pub fn as_raw(&self) -> (r: u32)
        ensures
            r == self.0,
    {
        self.0
    }
}

} // verus!
