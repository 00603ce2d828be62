//! The contrasting baseline: an owning handle with no address guarantee.

use vstd::prelude::*;

use crate::cell::NumberCell;
use crate::sample::AddressSample;

verus! {

/// An ordinary owning handle: the payload is stored inline, directly in
/// whatever binding currently holds the handle, so transferring ownership
/// physically copies the payload to the new binding's storage.  It offers
/// the same read/mutate/address-query surface as the pinned handle, but
/// makes no stability promise: the payload's address before and after a
/// relocation may — and here, by construction, does — differ.
///
/// A location stands for the storage address of the binding that holds the
/// handle; it is supplied by whoever owns that binding.  Two bindings that
/// are alive at the same time occupy distinct locations, which is why a
/// relocation demands a location different from the current one.
pub struct MovableHandle {
    payload: NumberCell,
    location: usize,
}

impl MovableHandle {
    /// The storage location of the payload: the location of the binding
    /// that currently holds the handle.
    pub closed spec fn location(self) -> usize {
        self.location
    }

    /// The integer the payload currently holds.
    pub closed spec fn value(self) -> i32 {
        self.payload.number
    }

    /// Builds a handle holding `number` inline, at the given binding
    /// location.  No stability promise is made for it.
    pub fn create(number: i32, location: usize) -> (h: MovableHandle)
        ensures
            h.value() == number,
            h.location() == location,
    {
        MovableHandle { payload: NumberCell::new(number), location }
    }

    /// Transfers ownership into a new binding.  The payload's bytes are
    /// copied to the new binding's storage: its value is preserved, its
    /// address is not — the new location is necessarily distinct from the
    /// old one, since both bindings exist across the transfer.
    pub fn relocate(self, new_location: usize) -> (h: MovableHandle)
        requires
            new_location != self.location(),
        ensures
            h.value() == self.value(),
            h.location() == new_location,
    {
        MovableHandle { payload: self.payload, location: new_location }
    }

    /// Samples the payload's current storage location.
    pub fn address_of_payload(&self) -> (s: AddressSample)
        ensures
            s.location == self.location(),
    {
        AddressSample::new(self.location)
    }

    /// Reads the payload's integer field.
    pub fn get(&self) -> (n: i32)
        ensures
            n == self.value(),
    {
        self.payload.get()
    }

    /// Overwrites the payload's integer field with exactly `number`,
    /// in place: the payload's location does not change.
    pub fn set(&mut self, number: i32)
        ensures
            final(self).value() == number,
            final(self).location() == old(self).location(),
    {
        self.payload.set(number);
    }
}

} // verus!
