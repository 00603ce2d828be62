//! The owning handle whose payload address never changes.

use vstd::prelude::*;

use crate::cell::NumberCell;
use crate::error::AllocError;
use crate::initializer::InPlaceInitializer;
use crate::memory::{Memory, Slot};
use crate::sample::AddressSample;

verus! {

/// An owning handle over one storage slot whose payload was constructed in
/// place by an [`InPlaceInitializer`].
///
/// Once `create` succeeds, the address of the payload is fixed for the
/// handle's whole lifetime: the handle carries only the slot's address, the
/// slot itself is never reallocated, and no operation of this type rewrites
/// the address.  The handle itself may freely change hands — stored
/// elsewhere, moved between bindings — without the payload moving.
///
/// The payload can never be extracted by value, replaced wholesale, or
/// relocated: the public surface exposes only its integer field, for
/// reading and for writing.
pub struct PinnedHandle {
    address: usize,
}

impl PinnedHandle {
    /// The storage location of the payload: the address of the slot it was
    /// constructed into.
    pub closed spec fn address(self) -> usize {
        self.address
    }

    /// The handle points at an initialized slot of `m`.
    pub open spec fn valid(self, m: Memory) -> bool {
        &&& self.address() < m@.len()
        &&& m@[self.address() as int] is Initialized
    }

    /// The integer the payload currently holds in `m`.
    pub open spec fn value(self, m: Memory) -> i32
        recommends
            self.valid(m),
    {
        m@[self.address() as int].value()
    }

    /// Allocates a fresh slot and runs the initializer directly into it.
    ///
    /// Succeeds exactly when backing storage is available; failure is
    /// atomic — the provider is left unchanged and no partially
    /// initialized payload exists anywhere.  On success the new payload
    /// sits in a fresh slot at the end of the arena, holding exactly the
    /// initializer's value.
    pub fn create(memory: &mut Memory, initializer: InPlaceInitializer) -> (r: Result<
        PinnedHandle,
        AllocError,
    >)
        requires
            old(memory).wf(),
        ensures
            final(memory).wf(),
            final(memory).capacity() == old(memory).capacity(),
            old(memory).has_room() ==> (r matches Ok(h)
                && h.address() == old(memory)@.len()
                && final(memory)@ =~= old(memory)@.push(
                    Slot::Initialized(NumberCell { number: initializer.value() }),
                )
                && final(memory).reserved() == old(memory).reserved()
                && h.valid(*final(memory))
                && h.value(*final(memory)) == initializer.value()),
            !old(memory).has_room() ==> (r matches Err(AllocError)
                && *final(memory) == *old(memory)),
    {
        let address = match memory.allocate_slot() {
            Ok(address) => address,
            Err(e) => {
                return Err(e);
            },
        };
        let destination = memory.slot_mut(address);
        initializer.run(destination);
        Ok(PinnedHandle { address })
    }

    /// Samples the payload's current storage location.
    pub fn address_of_payload(&self) -> (s: AddressSample)
        ensures
            s.location == self.address(),
    {
        AddressSample::new(self.address)
    }

    /// Transfers ownership of the handle itself to the caller's new
    /// binding.  The handle is returned unchanged: in particular the
    /// payload's address is exactly what it was before the transfer, and
    /// the payload itself was never touched.
    pub fn transfer(self) -> (r: PinnedHandle)
        ensures
            r == self,
    {
        self
    }

    /// Reads the payload's integer field.
    pub fn get(&self, memory: &Memory) -> (n: i32)
        requires
            self.valid(*memory),
        ensures
            n == self.value(*memory),
    {
        memory.read_value(self.address)
    }

    /// Overwrites the payload's integer field with exactly `number`.  Only
    /// the one slot this handle owns changes, and only its integer field:
    /// the payload's address is untouched, as is every other slot.
    pub fn set(&self, memory: &mut Memory, number: i32)
        requires
            self.valid(*old(memory)),
        ensures
            final(memory)@ =~= old(memory)@.update(
                self.address() as int,
                Slot::Initialized(NumberCell { number }),
            ),
            final(memory).capacity() == old(memory).capacity(),
            final(memory).reserved() == old(memory).reserved(),
            self.valid(*final(memory)),
            self.value(*final(memory)) == number,
    {
        let destination = memory.slot_mut(self.address);
        match destination {
            Slot::Initialized(c) => c.set(number),
            _ => unreached(),
        }
    }

    /// Tears the payload down: the slot moves to `Released` and, since the
    /// handle is consumed, no accessor can ever reach the slot again.
    pub fn release(self, memory: &mut Memory)
        requires
            self.valid(*old(memory)),
        ensures
            final(memory)@ =~= old(memory)@.update(self.address() as int, Slot::Released),
            final(memory).capacity() == old(memory).capacity(),
            final(memory).reserved() == old(memory).reserved(),
    {
        let destination = memory.slot_mut(self.address);
        *destination = Slot::Released;
    }
}

/// Address stability, stated for a whole chain of ownership transfers: if
/// each handle in the chain is what a pure transfer made of its
/// predecessor — the unchanged predecessor — then every handle in the
/// chain reports the address the first one did.
pub proof fn lemma_address_stable_across_transfers(chain: Seq<PinnedHandle>)
    requires
        chain.len() >= 1,
        forall|i: int| 0 < i < chain.len() ==> #[trigger] chain[i] == chain[i - 1],
    ensures
        forall|i: int|
            0 <= i < chain.len() ==> #[trigger] chain[i].address() == chain[0].address(),
{
    assert forall|i: int| 0 <= i < chain.len() implies #[trigger] chain[i].address()
        == chain[0].address() by {
        lemma_chain_stays_at_head(chain, i);
    }
}

proof fn lemma_chain_stays_at_head(chain: Seq<PinnedHandle>, i: int)
    requires
        0 <= i < chain.len(),
        forall|j: int| 0 < j < chain.len() ==> #[trigger] chain[j] == chain[j - 1],
    ensures
        chain[i] == chain[0],
    decreases i,
{
    if i > 0 {
        lemma_chain_stays_at_head(chain, i - 1);
    }
}

} // verus!
