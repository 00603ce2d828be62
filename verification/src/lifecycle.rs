//! The host lifecycle boundary: building the module state at load and
//! observing it once more at unload.
//!
//! `init` runs the whole demonstration: it grows the integer collection,
//! constructs the pinned payload in place, transfers ownership of both
//! handles, verifies address stability for the pinned one and relocation
//! for the movable one, and hands back the state together with the two
//! verification records.  `teardown` echoes what the state holds and
//! releases the pinned payload's slot.

use vstd::prelude::*;

use crate::cell::NumberCell;
use crate::error::{AllocError, InitError};
use crate::initializer::InPlaceInitializer;
use crate::memory::{Memory, Slot};
use crate::movable::MovableHandle;
use crate::pinned::PinnedHandle;
use crate::report::{ReportRecord, TeardownReport};
use crate::stability::verify;

verus! {

/// The value the pinned payload is constructed with.
pub const PINNED_INITIAL: i32 = 2023;

/// The value the pinned payload is set to during the self-test.
pub const PINNED_UPDATED: i32 = 20232023;

/// The value the movable payload is constructed with.
pub const MOVABLE_INITIAL: i32 = 3202;

/// The value the movable payload is set to during the self-test.
pub const MOVABLE_UPDATED: i32 = 32023202;

/// The integer collection grown during `init`, in push order.
pub open spec fn demo_numbers() -> Seq<i32> {
    seq![72i32, 108i32, 200i32]
}

/// The long-lived state the host keeps between load and unload.
pub struct ModuleState {
    pub memory: Memory,
    pub numbers: Vec<i32>,
    pub pinned: PinnedHandle,
    pub movable: MovableHandle,
}

impl ModuleState {
    pub open spec fn wf(self) -> bool {
        &&& self.memory.wf()
        &&& self.pinned.valid(self.memory)
    }
}

/// The values a successful `init` leaves in the state: the collection in
/// push order, and the two payloads at their updated values.
pub open spec fn init_values_installed(state: ModuleState) -> bool {
    &&& state.numbers@ =~= demo_numbers()
    &&& state.pinned.value(state.memory) == PINNED_UPDATED
    &&& state.movable.value() == MOVABLE_UPDATED
}

/// Grows the integer collection by one element, drawing one unit of
/// backing storage from the provider; when none is left, the collection
/// and the provider are both left unchanged.
pub fn try_push_number(memory: &mut Memory, numbers: &mut Vec<i32>, number: i32) -> (r: Result<
    (),
    AllocError,
>)
    requires
        old(memory).wf(),
    ensures
        final(memory).wf(),
        final(memory).capacity() == old(memory).capacity(),
        final(memory)@ =~= old(memory)@,
        old(memory).has_room() ==> (r is Ok
            && final(numbers)@ =~= old(numbers)@.push(number)
            && final(memory).reserved() == old(memory).reserved() + 1),
        !old(memory).has_room() ==> (r matches Err(AllocError)
            && *final(memory) == *old(memory)
            && final(numbers)@ =~= old(numbers)@),
{
    match memory.reserve_unit() {
        Ok(()) => {
            numbers.push(number);
            Ok(())
        },
        Err(e) => Err(e),
    }
}

/// Loads the module: grows the collection with 72, 108 and 200, constructs
/// the pinned payload in place, runs the two stability self-tests, updates
/// both payloads, and returns the state and the two verification records.
///
/// `movable_binding` and `movable_rebinding` are the storage locations of
/// the two successive bindings the movable handle lives in; they are
/// distinct because both bindings exist across the transfer.
///
/// Loading succeeds exactly when the provider has four units of backing
/// storage left — three for collection growth, one for the pinned slot.
/// Any allocation failure aborts the load atomically: no partial state is
/// handed back.  On success the state is well formed, holds exactly the
/// installed values, the pinned payload occupies the one freshly allocated
/// slot, and both verification records report a pass — the pinned address
/// was stable across the transfer, the movable address was not.
pub fn init(memory: Memory, movable_binding: usize, movable_rebinding: usize) -> (r: Result<
    (ModuleState, Vec<ReportRecord>),
    InitError,
>)
    requires
        memory.wf(),
        movable_binding != movable_rebinding,
    ensures
        r is Ok <==> memory.used() + 4 <= memory.capacity(),
        r matches Err(e) ==> e == InitError::Alloc(AllocError),
        r matches Ok(p) ==> ({
            &&& p.0.wf()
            &&& init_values_installed(p.0)
            &&& p.0.memory.capacity() == memory.capacity()
            &&& p.0.memory@ =~= memory@.push(
                Slot::Initialized(NumberCell { number: PINNED_UPDATED }),
            )
            &&& p.0.pinned.address() == memory@.len()
            &&& p.0.movable.location() == movable_rebinding
            &&& p.1@.len() == 2
            &&& p.1@[0].passed && p.1@[0].value == PINNED_INITIAL && p.1@[0].address == Some(
                p.0.pinned.address(),
            )
            &&& p.1@[1].passed && p.1@[1].value == MOVABLE_INITIAL && p.1@[1].address == Some(
                movable_rebinding,
            )
        }),
{
    let mut memory = memory;
    let mut numbers: Vec<i32> = Vec::new();
    match try_push_number(&mut memory, &mut numbers, 72) {
        Ok(()) => (),
        Err(e) => {
            return Err(InitError::Alloc(e));
        },
    }
    match try_push_number(&mut memory, &mut numbers, 108) {
        Ok(()) => (),
        Err(e) => {
            return Err(InitError::Alloc(e));
        },
    }
    match try_push_number(&mut memory, &mut numbers, 200) {
        Ok(()) => (),
        Err(e) => {
            return Err(InitError::Alloc(e));
        },
    }

    let pinned = match PinnedHandle::create(
        &mut memory,
        InPlaceInitializer::new(PINNED_INITIAL),
    ) {
        Ok(h) => h,
        Err(e) => {
            return Err(InitError::Alloc(e));
        },
    };
    let movable = MovableHandle::create(MOVABLE_INITIAL, movable_binding);

    // Self-test on the pinned handle: sample, transfer ownership, sample
    // again; the two samples must agree.
    let before = pinned.address_of_payload();
    let observed = pinned.get(&memory);
    let pinned_moved = pinned.transfer();
    let after = pinned_moved.address_of_payload();
    let (_, pinned_record) = verify(before, after, true, observed);
    pinned_moved.set(&mut memory, PINNED_UPDATED);

    // Self-test on the movable baseline: sample, relocate into the new
    // binding, sample again; the two samples must differ.
    let movable_before = movable.address_of_payload();
    let movable_observed = movable.get();
    let mut movable_moved = movable.relocate(movable_rebinding);
    let movable_after = movable_moved.address_of_payload();
    let (_, movable_record) = verify(movable_before, movable_after, false, movable_observed);
    movable_moved.set(MOVABLE_UPDATED);

    let mut records: Vec<ReportRecord> = Vec::new();
    records.push(pinned_record);
    records.push(movable_record);

    Ok(
        (
            ModuleState { memory, numbers, pinned: pinned_moved, movable: movable_moved },
            records,
        ),
    )
}

/// Unloads the module: observes the collection and both payload values,
/// echoes them verbatim in the teardown report, and releases the pinned
/// payload's slot.
pub fn teardown(state: ModuleState) -> (r: TeardownReport)
    requires
        state.wf(),
    ensures
        r.numbers@ == state.numbers@,
        r.pinned_value == state.pinned.value(state.memory),
        r.movable_value == state.movable.value(),
{
    let ModuleState { mut memory, numbers, pinned, movable } = state;
    let pinned_value = pinned.get(&memory);
    let movable_value = movable.get();
    pinned.release(&mut memory);
    TeardownReport { numbers, pinned_value, movable_value }
}

/// Round trip: a teardown report taken of a state that a successful load
/// produced echoes exactly the values installed during the load — the
/// collection in push order and both updated payload values, with no
/// drift and no truncation.
pub proof fn lemma_round_trip(state: ModuleState, report: TeardownReport)
    requires
        init_values_installed(state),
        report.numbers@ == state.numbers@,
        report.pinned_value == state.pinned.value(state.memory),
        report.movable_value == state.movable.value(),
    ensures
        report.numbers@ =~= demo_numbers(),
        report.pinned_value == PINNED_UPDATED,
        report.movable_value == MOVABLE_UPDATED,
{
}

} // verus!
