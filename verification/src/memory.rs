//! The allocation boundary: an opaque provider of backing storage.
//!
//! Storage is an arena of slots.  An address is the index of a slot; a slot
//! is handed out once and never reused, so an address, once given, denotes
//! the same storage location forever.  The provider is bounded: it may run
//! out, and then fails atomically.  Besides whole slots it also hands out
//! anonymous units of backing storage for collection growth.

use vstd::prelude::*;

use crate::cell::NumberCell;
use crate::error::AllocError;

verus! {

/// The lifecycle of one storage slot.  The only transitions are
/// `Uninitialized -> Initialized` (in-place construction, exactly once) and
/// `Initialized -> Released` (explicit teardown).
#[derive(PartialEq, Eq, Structural, Debug)]
pub enum Slot {
    /// Allocated, but no payload has been constructed in it yet.
    Uninitialized,
    /// Holds a fully constructed payload.
    Initialized(NumberCell),
    /// The payload has been torn down; the slot is never reused.
    Released,
}

impl Slot {
    /// The integer held by an initialized slot.
    pub open spec fn value(self) -> i32
        recommends
            self is Initialized,
    {
        match self {
            Slot::Initialized(c) => c.number,
            _ => arbitrary(),
        }
    }
}

/// A bounded arena of slots.  `capacity` counts how many units of backing
/// storage it can hand out in total, whether as slots or as anonymous
/// units; when they are exhausted, every further request fails.
pub struct Memory {
    slots: Vec<Slot>,
    reserved: usize,
    capacity: usize,
}

impl View for Memory {
    type V = Seq<Slot>;

    closed spec fn view(&self) -> Seq<Slot> {
        self.slots@
    }
}

impl Memory {
    /// How many units of backing storage this provider can hand out in all.
    pub closed spec fn capacity(self) -> usize {
        self.capacity
    }

    /// How many anonymous units have been handed out for collection growth.
    pub closed spec fn reserved(self) -> usize {
        self.reserved
    }

    /// How many units are gone: one per slot, one per anonymous unit.
    pub open spec fn used(self) -> int {
        self@.len() + self.reserved()
    }

    /// The provider never hands out more than its capacity.
    pub open spec fn wf(self) -> bool {
        self.used() <= self.capacity()
    }

    /// At least one more unit of backing storage is available.
    pub open spec fn has_room(self) -> bool {
        self.used() < self.capacity()
    }

    /// A fresh provider that can hand out `capacity` units in all.
    pub fn new(capacity: usize) -> (m: Memory)
        ensures
            m@ =~= Seq::<Slot>::empty(),
            m.capacity() == capacity,
            m.reserved() == 0,
            m.wf(),
    {
        Memory { slots: Vec::new(), reserved: 0, capacity }
    }

    /// Hands out a fresh uninitialized slot and its address, or fails
    /// atomically when no backing storage is left.
    pub fn allocate_slot(&mut self) -> (r: Result<usize, AllocError>)
        requires
            old(self).wf(),
        ensures
            final(self).wf(),
            final(self).capacity() == old(self).capacity(),
            old(self).has_room() ==> (r matches Ok(address)
                && address == old(self)@.len()
                && final(self)@ =~= old(self)@.push(Slot::Uninitialized)
                && final(self).reserved() == old(self).reserved()),
            !old(self).has_room() ==> (r matches Err(AllocError) && *final(self) == *old(self)),
    {
        if self.slots.len() + self.reserved < self.capacity {
            let address = self.slots.len();
            self.slots.push(Slot::Uninitialized);
            Ok(address)
        } else {
            Err(AllocError)
        }
    }

    /// Hands out one anonymous unit of backing storage (collection growth),
    /// or fails atomically when none is left.
    pub fn reserve_unit(&mut self) -> (r: Result<(), AllocError>)
        requires
            old(self).wf(),
        ensures
            final(self).wf(),
            final(self).capacity() == old(self).capacity(),
            final(self)@ =~= old(self)@,
            old(self).has_room() ==> (r is Ok
                && final(self).reserved() == old(self).reserved() + 1),
            !old(self).has_room() ==> (r matches Err(AllocError) && *final(self) == *old(self)),
    {
        if self.slots.len() + self.reserved < self.capacity {
            self.reserved = self.reserved + 1;
            Ok(())
        } else {
            Err(AllocError)
        }
    }

    /// Reads the integer held by an initialized slot.
    pub fn read_value(&self, address: usize) -> (n: i32)
        requires
            address < self@.len(),
            self@[address as int] is Initialized,
        ensures
            n == self@[address as int].value(),
    {
        match &self.slots[address] {
            Slot::Initialized(c) => c.get(),
            _ => unreached(),
        }
    }

    /// Exclusive access to one slot, for in-place construction, payload
    /// mutation and release.  Only handles reach this: through the public
    /// surface a payload can never be extracted, replaced wholesale, or
    /// relocated.
    pub(crate) fn slot_mut(&mut self, address: usize) -> (s: &mut Slot)
        requires
            address < old(self)@.len(),
        ensures
            *s == old(self)@[address as int],
            final(self)@ == old(self)@.update(address as int, *final(s)),
            final(self).capacity() == old(self).capacity(),
            final(self).reserved() == old(self).reserved(),
    {
        &mut self.slots[address]
    }
}

} // verus!
