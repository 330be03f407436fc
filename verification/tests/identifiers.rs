//! Identifier service: mint order, uniqueness, tagging.

use chat_core::entities::{MessageTag, RoomTag, UserTag};
use chat_core::ids::{IdError, IdMinter};

#[test]
fn minted_ids_are_distinct_and_increasing() {
    let mut minter = IdMinter::<UserTag>::new();
    let mut ids = Vec::new();
    for _ in 0..80_000 {
        ids.push(minter.next().expect("mint"));
    }
    assert_eq!(ids.len(), 80_000);
    for pair in ids.windows(2) {
        assert!(pair[0] < pair[1]);
        assert_ne!(pair[0], pair[1]);
    }
}

#[test]
fn mint_order_is_total_order() {
    let mut minter = IdMinter::<MessageTag>::new();
    let a = minter.next().expect("mint");
    let b = minter.next().expect("mint");
    let c = minter.next().expect("mint");
    assert!(a < b && b < c && a < c);
    assert!(a.precedes(&b) && b.precedes(&c));
    assert!(!b.precedes(&a));
    assert!(a.same_as(&a.dup()));
    assert!(!a.same_as(&b));
}

#[test]
fn separate_minters_are_independent() {
    let mut users = IdMinter::<UserTag>::new();
    let mut rooms = IdMinter::<RoomTag>::new();
    let u1 = users.next().expect("mint");
    let r1 = rooms.next().expect("mint");
    let u2 = users.next().expect("mint");
    // The room counter does not move with the user counter.
    let r2 = rooms.next().expect("mint");
    assert!(u1 < u2);
    assert!(r1 < r2);
}

#[test]
fn resumed_minter_continues_above_the_store() {
    let mut minter = IdMinter::<UserTag>::new();
    let persisted = minter.next().expect("mint");
    let _ = minter.next().expect("mint");
    // A service restart resumes above the highest persisted counter value.
    let mut resumed = IdMinter::<UserTag>::resume_after(5);
    let fresh = resumed.next().expect("mint");
    assert!(persisted < fresh);
}

#[test]
fn exhausted_counter_is_a_fatal_error() {
    let mut minter = IdMinter::<UserTag>::resume_after(u64::MAX);
    assert_eq!(minter.next(), Err(IdError::IdentifierExhausted));
    // The failed mint changes nothing: the next attempt fails the same way.
    assert_eq!(minter.next(), Err(IdError::IdentifierExhausted));
}
