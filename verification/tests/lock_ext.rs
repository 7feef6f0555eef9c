#![allow(unused_imports)]
use aihack::lock_ext::{BoxlockResult, CloseDoorResult, DoorMask, DoorlockResult, ForceWeaponType, ForcelockTurnResult, LockTarget, MagicLockEffect, ObstructionCheck, OpenDoorResult, PickType, PicklockTurnResult, box_pick_chance, boxlock_result, check_force_weapon, check_obstruction, chest_shatter_message, door_pick_chance, doorlock_result, force_weapon_of_lowercase, forcelock_turn, lock_action_text, picklock_turn, try_close_door, try_open_door};
use aihack::rng::NetHackRng;
#[test]
fn test_lock_action_text() {
    assert_eq!(
        lock_action_text(LockTarget::Door, true, PickType::LockPick),
        "picking the lock"
    );
    assert_eq!(
        lock_action_text(LockTarget::Door, false, PickType::SkeletonKey),
        "locking the door"
    );
    assert_eq!(
        lock_action_text(LockTarget::Chest, true, PickType::SkeletonKey),
        "unlocking the chest"
    );
}

#[test]
fn test_box_pick_chance() {
    // 해골 열쇠: 75 + DEX
    assert_eq!(box_pick_chance(PickType::SkeletonKey, 18, false, false), 93);
    // 도적보너스: LockPick = 4*DEX + 25
    assert_eq!(box_pick_chance(PickType::LockPick, 18, true, false), 97);
    // 저주 시 반감
    assert_eq!(box_pick_chance(PickType::LockPick, 18, false, true), 36);
}

#[test]
fn test_door_pick_chance() {
    assert_eq!(door_pick_chance(PickType::SkeletonKey, 18, false), 88);
    assert_eq!(door_pick_chance(PickType::LockPick, 18, true), 84);
}

#[test]
fn test_picklock_turn_success() {
    let mut rng = NetHackRng::new(42);
    let mut success = false;
    for seed in 0..100u64 {
        let mut r = NetHackRng::new(seed);
        let result = picklock_turn(10, 90, true, Some(DoorMask::Locked), false, false, &mut r);
        if let PicklockTurnResult::Success { .. } = result {
            success = true;
            break;
        }
    }
    assert!(success);
}

#[test]
fn test_picklock_timeout() {
    let mut rng = NetHackRng::new(42);
    let result = picklock_turn(50, 90, true, Some(DoorMask::Locked), false, false, &mut rng);
    assert_eq!(result, PicklockTurnResult::GaveUp);
}

#[test]
fn test_picklock_invalid_door() {
    let mut rng = NetHackRng::new(42);
    let result = picklock_turn(5, 90, true, Some(DoorMask::NoDoor), false, false, &mut rng);
    assert!(matches!(result, PicklockTurnResult::InvalidDoor { .. }));
}

#[test]
fn test_forcelock_turn() {
    let mut rng = NetHackRng::new(42);
    let mut success = false;
    for seed in 0..200u64 {
        let mut r = NetHackRng::new(seed);
        let result = forcelock_turn(10, 50, false, 0, 0, false, &mut r);
        if let ForcelockTurnResult::Success { .. } = result {
            success = true;
            break;
        }
    }
    assert!(success);
}

#[test]
fn test_forcelock_weapon_break() {
    let mut broke = false;
    for seed in 0..500u64 {
        let mut r = NetHackRng::new(seed);
        let result = forcelock_turn(10, 50, true, 0, 5, false, &mut r);
        if result == ForcelockTurnResult::WeaponBroke {
            broke = true;
            break;
        }
    }
    assert!(broke);
}

#[test]
fn test_check_force_weapon() {
    assert_eq!(
        check_force_weapon("long sword", true),
        ForceWeaponType::Blade
    );
    assert_eq!(check_force_weapon("mace", true), ForceWeaponType::Blunt);
    assert_eq!(check_force_weapon("flail", true), ForceWeaponType::Invalid);
    assert_eq!(check_force_weapon("shirt", false), ForceWeaponType::Invalid);
}

#[test]
fn test_obstruction() {
    assert_eq!(
        check_obstruction(false, None, false),
        ObstructionCheck::Clear,
    );
    assert!(matches!(
        check_obstruction(true, Some("orc"), false),
        ObstructionCheck::MonsterBlocking { .. },
    ));
}

#[test]
fn test_open_door() {
    let mut rng = NetHackRng::new(42);
    let mut opened = false;
    for seed in 0..100u64 {
        let mut r = NetHackRng::new(seed);
        if let OpenDoorResult::Opened =
            try_open_door(DoorMask::Closed, false, 18, 16, 14, false, 0, &mut r)
        {
            opened = true;
            break;
        }
    }
    assert!(opened);
}

#[test]
fn test_open_locked_door() {
    let mut rng = NetHackRng::new(42);
    let result = try_open_door(DoorMask::Locked, false, 18, 16, 14, false, 0, &mut rng);
    assert!(matches!(result, OpenDoorResult::InvalidState { .. }));
}

#[test]
fn test_close_door() {
    assert_eq!(
        try_close_door(DoorMask::Open, false),
        CloseDoorResult::Closed
    );
    assert_eq!(
        try_close_door(DoorMask::Open, true),
        CloseDoorResult::Obstructed
    );
    assert!(matches!(
        try_close_door(DoorMask::Closed, false),
        CloseDoorResult::InvalidState { .. }
    ));
}

#[test]
fn test_boxlock_knock() {
    assert_eq!(
        boxlock_result(true, false, MagicLockEffect::Knock),
        BoxlockResult::Unlocked
    );
    assert_eq!(
        boxlock_result(false, true, MagicLockEffect::Knock),
        BoxlockResult::Repaired
    );
    assert_eq!(
        boxlock_result(false, false, MagicLockEffect::Knock),
        BoxlockResult::NoChange
    );
}

#[test]
fn test_boxlock_wizard() {
    assert_eq!(
        boxlock_result(false, false, MagicLockEffect::WizardLock),
        BoxlockResult::Locked
    );
    assert_eq!(
        boxlock_result(true, false, MagicLockEffect::WizardLock),
        BoxlockResult::NoChange
    );
}

#[test]
fn test_doorlock_knock() {
    assert_eq!(
        doorlock_result(DoorMask::Locked, false, MagicLockEffect::Knock),
        DoorlockResult::Unlocked
    );
    assert_eq!(
        doorlock_result(DoorMask::Locked, true, MagicLockEffect::Knock),
        DoorlockResult::Destroyed
    );
    assert_eq!(
        doorlock_result(DoorMask::Closed, false, MagicLockEffect::Knock),
        DoorlockResult::Opened
    );
}

#[test]
fn test_doorlock_wizard() {
    assert_eq!(
        doorlock_result(DoorMask::Open, false, MagicLockEffect::WizardLock),
        DoorlockResult::Closed
    );
    assert_eq!(
        doorlock_result(DoorMask::Closed, false, MagicLockEffect::WizardLock),
        DoorlockResult::Locked
    );
}

#[test]
fn test_chest_shatter_msg() {
    assert!(chest_shatter_message("potion").contains("shatter"));
    assert!(chest_shatter_message("scroll").contains("smoke"));
    assert!(chest_shatter_message("gem").contains("cracking"));
}
