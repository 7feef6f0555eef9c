#![allow(unused_imports)]
use aihack::lock::{BLAST_COLOR, DoorState, LockResult, LockTarget, LockTool, TRAP_COLOR, close_door, force_container, is_closed_door, is_locked_door, kick_door, lock_door, open_door, pick_lock_container, pick_lock_door};
use aihack::rng::NetHackRng;
use aihack::game_log::GameLog;
use aihack::tile::TileType;
#[test]
fn test_wand_knock_always_unlocks() {
    let mut rng = NetHackRng::new(42);
    let mut log = GameLog::new(100);
    let result = pick_lock_door(LockTool::WandKnock, 10, false, &mut rng, &mut log, 1);
    assert!(result.success);
}

#[test]
fn test_lock_door_needs_key() {
    let mut rng = NetHackRng::new(42);
    let mut log = GameLog::new(100);
    let result = lock_door(LockTool::CreditCard, 10, &mut rng, &mut log, 1);
    assert!(!result.success);
}

#[test]
fn test_is_locked_door() {
    assert!(is_locked_door(TileType::Door, true));
    assert!(!is_locked_door(TileType::Door, false));
    assert!(!is_locked_door(TileType::Room, true));
}

#[test]
fn test_open_close_door() {
    let mut log = GameLog::new(100);
    assert_eq!(
        open_door(TileType::Door, false, &mut log, 1),
        Some(TileType::OpenDoor)
    );
    assert_eq!(
        close_door(TileType::OpenDoor, &mut log, 1),
        Some(TileType::Door)
    );
}
