//! Address snapshots taken of a payload at a point in time.

use vstd::prelude::*;

verus! {

/// A comparable token capturing "the address of a value at a point in
/// time".  Two samples are equal exactly when they denote the same storage
/// location.
///
/// For a pinned payload the location is the index of its arena slot; for a
/// movable payload it is the location of the binding that currently holds
/// it, supplied by whoever owns that binding.
#[derive(PartialEq, Eq, Structural, Clone, Copy, Debug)]
pub struct AddressSample {
    pub location: usize,
}

impl AddressSample {
    /// Snapshots the given storage location.
    pub fn new(location: usize) -> (s: AddressSample)
        ensures
            s.location == location,
    {
        AddressSample { location }
    }

    /// True exactly when both samples denote the same storage location.
    pub fn same_location(&self, other: &AddressSample) -> (r: bool)
        ensures
            r == (self == other),
    {
        self.location == other.location
    }
}

} // verus!
