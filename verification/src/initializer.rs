//! Deferred in-place construction of a payload.

use vstd::prelude::*;

use crate::cell::NumberCell;
use crate::error::ContractViolation;
use crate::memory::Slot;

verus! {

/// A construction recipe: closed over its arguments, it writes a fully
/// formed payload directly into a destination slot, exactly once.  It
/// never produces a standalone payload that exists outside of a slot.
#[derive(PartialEq, Eq, Structural, Clone, Copy, Debug)]
pub struct InPlaceInitializer {
    number: i32,
}

impl InPlaceInitializer {
    /// The integer the recipe will write into its destination.
    pub closed spec fn value(self) -> i32 {
        self.number
    }

    /// A recipe that constructs a payload holding `number`.
    pub fn new(number: i32) -> (r: InPlaceInitializer)
        ensures
            r.value() == number,
    {
        InPlaceInitializer { number }
    }

    /// Constructs the payload directly in the destination slot.
    ///
    /// The destination must be allocated but not yet initialized; running a
    /// recipe twice into the same slot is a contract violation, which this
    /// entry point rules out by precondition.  On return the slot holds the
    /// fully formed value — construction happened in its final storage, no
    /// fully formed payload was ever relocated into it from elsewhere.
    pub fn run(&self, destination: &mut Slot)
        requires
            *old(destination) is Uninitialized,
        ensures
            *final(destination) == Slot::Initialized(NumberCell { number: self.value() }),
    {
        *destination = Slot::Initialized(NumberCell::new(self.number));
    }

    /// Like [`Self::run`], but detects misuse at run time: a destination
    /// outside the `Uninitialized` state is reported as a contract
    /// violation and left untouched, so a payload is never constructed
    /// twice into one slot.
    pub fn run_checked(&self, destination: &mut Slot) -> (r: Result<(), ContractViolation>)
        ensures
            *old(destination) is Uninitialized ==> (r is Ok
                && *final(destination) == Slot::Initialized(NumberCell { number: self.value() })),
            !(*old(destination) is Uninitialized) ==> (r matches Err(ContractViolation)
                && *final(destination) == *old(destination)),
    {
        match destination {
            Slot::Uninitialized => {
                self.run(destination);
                Ok(())
            },
            _ => Err(ContractViolation),
        }
    }
}

} // verus!
