//! The payload whose address stability the library demonstrates.

use vstd::prelude::*;

verus! {

/// A minimal mutable value: a single integer field.  It has no identity
/// beyond its storage location and its current value.
#[derive(PartialEq, Eq, Structural, Debug)]
pub struct NumberCell {
    pub number: i32,
}

impl NumberCell {
    /// Builds a cell holding `number`.
    pub fn new(number: i32) -> (c: NumberCell)
        ensures
            c.number == number,
    {
        NumberCell { number }
    }

    /// Reads the integer field.
    pub fn get(&self) -> (n: i32)
        ensures
            n == self.number,
    {
        self.number
    }

    /// Overwrites the integer field with exactly `number`.
    pub fn set(&mut self, number: i32)
        ensures
            final(self).number == number,
    {
        self.number = number;
    }
}

} // verus!
