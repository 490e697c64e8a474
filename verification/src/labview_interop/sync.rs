//! References to the synchronisation objects of LabVIEW.

use crate::labview_interop::memory::MagicCookie;
use std::marker::PhantomData;
use vstd::prelude::*;

verus! {

/// A reference to a LabVIEW user event whose data has the type `T`.
pub struct LVUserEvent<T> {
    reference: MagicCookie,
    _marker: PhantomData<T>,
}

impl<T> Clone for LVUserEvent<T> {
    fn clone(&self) -> (r: Self)
        ensures
            r == *self,
    {
        Self { reference: self.reference, _marker: PhantomData }
    }
}

impl<T> Copy for LVUserEvent<T> {

}

impl<T> LVUserEvent<T> {
    /// The raw reference behind the event.
    pub closed spec fn raw(&self) -> u32 {
        self.reference.0
    }

    /// The user event behind a raw reference.
    pub fn from_raw(reference: u32) -> (r: Self)
        ensures
            r.raw() == reference,
    {
        Self { reference: MagicCookie::new(reference), _marker: PhantomData }
    }

    /// The reference to hand to the run-time when the event is posted.
    pub fn reference(&self) -> (r: MagicCookie)
        ensures
            r.0 == self.raw(),
    {
        self.reference
    }
}

/// A LabVIEW occurrence.
#[derive(Clone, Copy)]
pub struct Occurrence(MagicCookie);

impl Occurrence {
    /// The raw reference behind the occurrence.
    pub closed spec fn raw(&self) -> u32 {
        self.0.0
    }

    /// The occurrence behind a raw reference.
    pub fn from_raw(reference: u32) -> (r: Self)
        ensures
            r.raw() == reference,
    {
        Self(MagicCookie::new(reference))
    }

    /// The reference to hand to the run-time when the occurrence is set.
    pub fn reference(&self) -> (r: MagicCookie)
        ensures
            r.0 == self.raw(),
    {
        self.0
    }
}

} // verus!
