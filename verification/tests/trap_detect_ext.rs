#![allow(unused_imports)]
use aihack::trap_detect_ext::{TrapType, detect_trap_chance, disarm_trap, trap_danger};
use aihack::rng::NetHackRng;
#[test]
fn test_danger() {
    assert_eq!(trap_danger(TrapType::LandMine), 7);
    assert_eq!(trap_danger(TrapType::SqueakyBoard), 1);
}

#[test]
fn test_detect_chance() {
    let high = detect_trap_chance(18, 1);
    let low = detect_trap_chance(5, 7);
    assert!(high > low);
}

#[test]
fn test_disarm_easy() {
    let mut success = 0;
    for s in 0..50 {
        let mut rng = NetHackRng::new(s);
        if disarm_trap(18, TrapType::SqueakyBoard, &mut rng) {
            success += 1;
        }
    }
    assert!(success > 25);
}

#[test]
fn test_disarm_hard() {
    let mut success = 0;
    for s in 0..30 {
        let mut rng = NetHackRng::new(s);
        if disarm_trap(8, TrapType::LandMine, &mut rng) {
            success += 1;
        }
    }
    assert!(success < 15);
}

#[test]
fn test_all_traps_have_danger() {
    let traps = [
        TrapType::ArrowTrap,
        TrapType::Pit,
        TrapType::LandMine,
        TrapType::Web,
        TrapType::PolyTrap,
        TrapType::AntiMagicField,
    ];
    for t in &traps {
        assert!(trap_danger(*t) >= 1);
    }
}
