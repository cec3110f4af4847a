//! Tests for the status codes, the arena allocator, and the destructor
//! registry.

use nginx_rs::arena::{Arena, TypedAlloc, DESTRUCTOR_ENTRY_COST, TYPED_SLOT_COST};
use nginx_rs::status::{Status, NGX_AGAIN, NGX_ERROR, NGX_OK};

#[test]
fn it_works() {
    assert_eq!(2 + 2, 4);
}

#[test]
fn status_is_ok() {
    assert!(Status::ok().is_ok());
    assert!(!Status::error().is_ok());
    assert!(!Status::again().is_ok());
    assert!(!Status(200).is_ok());
    assert_eq!(Status::ok().0, NGX_OK);
    assert_eq!(Status::error().0, NGX_ERROR);
    assert_eq!(Status::again().0, NGX_AGAIN);
}

#[test]
fn status_ordering_drives_failure() {
    // ERROR and everything greater than OK signal failure; AGAIN does not.
    assert!(Status::error() == Status::error());
    assert!(Status(200) > Status::ok());
    assert!(Status::again() < Status::ok());
    assert!(Status::error().is_failure());
    assert!(Status(200).is_failure());
    assert!(Status(1).is_failure());
    assert!(!Status::ok().is_failure());
    assert!(!Status::again().is_failure());
}

#[test]
fn allocate_charges_and_fails_when_exhausted() {
    let mut a = Arena::new(10);
    let block = a.allocate(6).expect("6 bytes fit in 10");
    assert_eq!(block.len(), 6);
    assert_eq!(a.used, 6);
    assert!(a.allocate(5).is_none());
    assert_eq!(a.used, 6);
    let rest = a.allocate(4).expect("4 bytes left");
    assert_eq!(rest.len(), 4);
    assert_eq!(a.used, 10);
}

#[test]
fn allocate_zero_returns_valid_empty_block() {
    let mut a = Arena::new(4);
    a.allocate(4).expect("exhaust the arena");
    let empty = a.allocate(0).expect("zero bytes always fit");
    assert_eq!(empty.len(), 0);
}

#[test]
fn allocate_zeroed_is_zeroed() {
    let mut a = Arena::new(16);
    let block = a.allocate_zeroed(16).expect("16 bytes fit");
    assert_eq!(block, vec![0u8; 16]);
}

#[test]
fn teardown_runs_destructors_once_in_registration_order() {
    let mut a = Arena::new(1024);
    let first = match a.allocate_typed(7, 40) {
        TypedAlloc::Stored(h) => h,
        other => panic!("expected a stored slot, got {:?}", other),
    };
    let second = match a.allocate_typed(8, 41) {
        TypedAlloc::Stored(h) => h,
        other => panic!("expected a stored slot, got {:?}", other),
    };
    assert_eq!(a.typed_value(first), 7);
    assert_eq!(a.typed_value(second), 8);
    let log = a.teardown();
    assert_eq!(log.len(), 2);
    assert_eq!((log[0].handle, log[0].dtor), (first, 40));
    assert_eq!((log[1].handle, log[1].dtor), (second, 41));
}

#[test]
fn failed_registration_drops_immediately() {
    // Room for the value, but not for its registry entry.
    let mut a = Arena::new(TYPED_SLOT_COST + DESTRUCTOR_ENTRY_COST - 1);
    match a.allocate_typed(5, 9) {
        TypedAlloc::DroppedImmediately => {}
        other => panic!("expected an immediate drop, got {:?}", other),
    }
    // Nothing was registered: teardown has nothing to run.
    assert!(a.teardown().is_empty());
}

#[test]
fn typed_allocation_out_of_memory() {
    let mut a = Arena::new(TYPED_SLOT_COST - 1);
    match a.allocate_typed(5, 9) {
        TypedAlloc::OutOfMemory => {}
        other => panic!("expected exhaustion, got {:?}", other),
    }
    assert_eq!(a.used, 0);
}

#[test]
fn register_destructor_fails_without_room() {
    let mut a = Arena::new(DESTRUCTOR_ENTRY_COST);
    assert!(a.register_destructor(3, 70));
    assert!(!a.register_destructor(4, 71));
    let log = a.teardown();
    assert_eq!(log.len(), 1);
    assert_eq!((log[0].handle, log[0].dtor), (3, 70));
}
