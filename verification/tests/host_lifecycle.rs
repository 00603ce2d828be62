use pin_stability::error::{AllocError, InitError};
use pin_stability::lifecycle::{init, teardown, try_push_number};
use pin_stability::memory::Memory;
use pin_stability::report::Level;

#[test]
fn init_succeeds_with_four_units_of_storage() {
    let memory = Memory::new(4);
    let (state, records) = init(memory, 100, 200).expect("four units suffice");
    assert_eq!(records.len(), 2);
    let report = teardown(state);
    assert_eq!(report.numbers, vec![72, 108, 200]);
    assert_eq!(report.pinned_value, 20232023);
    assert_eq!(report.movable_value, 32023202);
}

#[test]
fn init_verification_records_both_pass() {
    let memory = Memory::new(4);
    let (_, records) = init(memory, 100, 200).expect("four units suffice");
    // The pinned payload went into the first slot and stayed there.
    assert!(records[0].passed);
    assert_eq!(records[0].level, Level::Info);
    assert_eq!(records[0].value, 2023);
    assert_eq!(records[0].address, Some(0));
    // The movable payload ended up at the new binding's location.
    assert!(records[1].passed);
    assert_eq!(records[1].level, Level::Info);
    assert_eq!(records[1].value, 3202);
    assert_eq!(records[1].address, Some(200));
}

#[test]
fn init_fails_atomically_when_storage_is_short() {
    for capacity in 0..4 {
        let memory = Memory::new(capacity);
        match init(memory, 100, 200) {
            Err(InitError::Alloc(AllocError)) => (),
            Ok(_) => panic!("load must fail with {capacity} units of storage"),
        }
    }
    let memory = Memory::new(4);
    assert!(init(memory, 100, 200).is_ok());
    let memory = Memory::new(5);
    assert!(init(memory, 100, 200).is_ok());
}

#[test]
fn numbers_are_echoed_verbatim_in_push_order() {
    let memory = Memory::new(16);
    let (state, _) = init(memory, 100, 200).expect("plenty of storage");
    assert_eq!(state.numbers, vec![72, 108, 200]);
    let report = teardown(state);
    assert_eq!(report.numbers, vec![72, 108, 200]);
}

#[test]
fn collection_growth_failure_leaves_everything_unchanged() {
    let mut memory = Memory::new(1);
    let mut numbers = Vec::new();
    assert_eq!(try_push_number(&mut memory, &mut numbers, 72), Ok(()));
    assert_eq!(try_push_number(&mut memory, &mut numbers, 108), Err(AllocError));
    assert_eq!(numbers, vec![72]);
}
