use pin_stability::cell::NumberCell;
use pin_stability::error::{AllocError, ContractViolation};
use pin_stability::initializer::InPlaceInitializer;
use pin_stability::memory::{Memory, Slot};
use pin_stability::movable::MovableHandle;
use pin_stability::pinned::PinnedHandle;
use pin_stability::sample::AddressSample;
use pin_stability::report::Level;
use pin_stability::stability::{verify, FailDetail, VerificationOutcome};

#[test]
fn number_cell_set_updates_value() {
    let mut cell = NumberCell::new(7);
    assert_eq!(cell.get(), 7);
    cell.set(42);
    assert_eq!(cell.get(), 42);
}

#[test]
fn address_samples_compare_by_location() {
    let a = AddressSample::new(5);
    let b = AddressSample::new(5);
    let c = AddressSample::new(6);
    assert!(a.same_location(&b));
    assert!(!a.same_location(&c));
    assert_eq!(a, b);
    assert_ne!(a, c);
}

#[test]
fn pinned_address_stable_across_transfer() {
    let mut memory = Memory::new(1);
    let handle = PinnedHandle::create(&mut memory, InPlaceInitializer::new(2023))
        .expect("one slot is available");
    let before = handle.address_of_payload();
    let moved = handle.transfer();
    let after = moved.address_of_payload();
    assert!(before.same_location(&after));
    assert_eq!(before, after);
    assert_eq!(moved.get(&memory), 2023);
}

#[test]
fn pinned_set_updates_value_and_keeps_address() {
    let mut memory = Memory::new(1);
    let handle = PinnedHandle::create(&mut memory, InPlaceInitializer::new(2023))
        .expect("one slot is available");
    let before = handle.address_of_payload();
    handle.set(&mut memory, 20232023);
    let after = handle.address_of_payload();
    assert_eq!(handle.get(&memory), 20232023);
    assert_eq!(before, after);
}

#[test]
fn pinned_create_fails_without_storage() {
    let mut memory = Memory::new(0);
    let r = PinnedHandle::create(&mut memory, InPlaceInitializer::new(1));
    assert_eq!(r.err(), Some(AllocError));
}

#[test]
fn pinned_handles_are_independent() {
    let mut memory = Memory::new(2);
    let first = PinnedHandle::create(&mut memory, InPlaceInitializer::new(10))
        .expect("two slots are available");
    let second = PinnedHandle::create(&mut memory, InPlaceInitializer::new(20))
        .expect("a second slot is available");
    assert_ne!(first.address_of_payload(), second.address_of_payload());
    first.set(&mut memory, 11);
    assert_eq!(first.get(&memory), 11);
    assert_eq!(second.get(&memory), 20);
}

#[test]
fn released_slot_is_not_reused() {
    let mut memory = Memory::new(1);
    let handle = PinnedHandle::create(&mut memory, InPlaceInitializer::new(3))
        .expect("one slot is available");
    handle.release(&mut memory);
    // The slot stays claimed after release: its address is never handed out again.
    let r = PinnedHandle::create(&mut memory, InPlaceInitializer::new(4));
    assert_eq!(r.err(), Some(AllocError));
}

#[test]
fn initializer_runs_exactly_once_per_slot() {
    let recipe = InPlaceInitializer::new(72);
    let mut slot = Slot::Uninitialized;
    assert_eq!(recipe.run_checked(&mut slot), Ok(()));
    assert_eq!(slot, Slot::Initialized(NumberCell { number: 72 }));
    // A second invocation on the already-initialized slot is a contract
    // violation, and the slot is left untouched.
    assert_eq!(recipe.run_checked(&mut slot), Err(ContractViolation));
    assert_eq!(slot, Slot::Initialized(NumberCell { number: 72 }));
}

#[test]
fn initializer_refuses_released_slot() {
    let recipe = InPlaceInitializer::new(9);
    let mut slot = Slot::Released;
    assert_eq!(recipe.run_checked(&mut slot), Err(ContractViolation));
    assert_eq!(slot, Slot::Released);
}

#[test]
fn movable_relocation_changes_address_and_keeps_value() {
    let handle = MovableHandle::create(3202, 100);
    let before = handle.address_of_payload();
    let moved = handle.relocate(200);
    let after = moved.address_of_payload();
    assert!(!before.same_location(&after));
    assert_eq!(moved.get(), 3202);
    let (outcome, record) = verify(before, after, false, moved.get());
    assert_eq!(outcome, VerificationOutcome::Pass);
    assert!(record.passed);
}

#[test]
fn movable_set_updates_value_in_place() {
    let mut handle = MovableHandle::create(3202, 100);
    handle.set(32023202);
    assert_eq!(handle.get(), 32023202);
    assert_eq!(handle.address_of_payload(), AddressSample::new(100));
}

#[test]
fn verify_covers_all_four_outcomes() {
    let here = AddressSample::new(1);
    let there = AddressSample::new(2);

    let (outcome, _) = verify(here, here, true, 0);
    assert_eq!(outcome, VerificationOutcome::Pass);

    let (outcome, _) = verify(here, there, true, 0);
    assert_eq!(
        outcome,
        VerificationOutcome::Fail(FailDetail::MovedWhilePinned)
    );

    let (outcome, _) = verify(here, here, false, 0);
    assert_eq!(
        outcome,
        VerificationOutcome::Fail(FailDetail::CollidedWhileMovable)
    );

    let (outcome, _) = verify(here, there, false, 0);
    assert_eq!(outcome, VerificationOutcome::Pass);
}

#[test]
fn verify_emits_one_structured_record() {
    let before = AddressSample::new(4);
    let after = AddressSample::new(4);
    let (outcome, record) = verify(before, after, true, 2023);
    assert_eq!(outcome, VerificationOutcome::Pass);
    assert!(record.passed);
    assert_eq!(record.level, Level::Info);
    assert_eq!(record.value, 2023);
    assert_eq!(record.address, Some(4));

    let (outcome, record) = verify(before, after, false, 3202);
    assert_ne!(outcome, VerificationOutcome::Pass);
    assert!(!record.passed);
    assert_eq!(record.level, Level::Error);
    assert_eq!(record.value, 3202);
    assert_eq!(record.address, Some(4));
}

#[test]
fn memory_hands_out_sequential_addresses_until_exhausted() {
    let mut memory = Memory::new(2);
    assert_eq!(memory.allocate_slot(), Ok(0));
    assert_eq!(memory.allocate_slot(), Ok(1));
    assert_eq!(memory.allocate_slot(), Err(AllocError));
}

#[test]
fn memory_reservations_consume_capacity() {
    let mut memory = Memory::new(2);
    assert_eq!(memory.reserve_unit(), Ok(()));
    assert_eq!(memory.allocate_slot(), Ok(0));
    assert_eq!(memory.reserve_unit(), Err(AllocError));
    assert_eq!(memory.allocate_slot(), Err(AllocError));
}
