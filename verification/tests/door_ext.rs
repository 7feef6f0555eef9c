#![allow(unused_imports)]
use aihack::door_ext::{DoorActionResult, DoorState, kick_door, open_door, pick_lock, search_secret};
use aihack::rng::NetHackRng;
#[test]
fn test_open_closed() {
    assert_eq!(
        open_door(DoorState::Closed),
        DoorActionResult::Success(DoorState::Open)
    );
}

#[test]
fn test_open_locked() {
    assert!(matches!(
        open_door(DoorState::Locked),
        DoorActionResult::Failed(_)
    ));
}

#[test]
fn test_pick_lock() {
    let mut success = 0;
    for s in 0..30 {
        let mut rng = NetHackRng::new(s);
        if let DoorActionResult::Success(_) = pick_lock(DoorState::Locked, 18, &mut rng) {
            success += 1;
        }
    }
    assert!(success > 15);
}

#[test]
fn test_kick_broken() {
    let mut rng = NetHackRng::new(42);
    assert_eq!(
        kick_door(DoorState::Broken, 18, &mut rng),
        DoorActionResult::AlreadyInState
    );
}

#[test]
fn test_search_secret() {
    let mut found = false;
    for s in 0..50 {
        let mut rng = NetHackRng::new(s);
        if search_secret(15, &mut rng) {
            found = true;
            break;
        }
    }
    assert!(found);
}
