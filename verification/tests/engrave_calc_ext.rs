#![allow(unused_imports)]
use aihack::engrave_calc_ext::{EngraveType, elbereth_effective, engrave_durability, engrave_turns, monster_fears_elbereth};
use aihack::rng::NetHackRng;
#[test]
fn test_durability() {
    assert_eq!(engrave_durability(EngraveType::Dust), 20);
    assert_eq!(engrave_durability(EngraveType::Headstone), i32::MAX);
}

#[test]
fn test_elbereth_fresh() {
    assert!(elbereth_effective(EngraveType::Burn, 10, true));
}

#[test]
fn test_elbereth_expired() {
    assert!(!elbereth_effective(EngraveType::Dust, 30, true));
}

#[test]
fn test_elbereth_not_standing() {
    assert!(!elbereth_effective(EngraveType::Burn, 0, false));
}

#[test]
fn test_monster_fears() {
    assert!(monster_fears_elbereth(5, false, false));
    assert!(!monster_fears_elbereth(5, true, false)); // 유니크
    assert!(!monster_fears_elbereth(25, false, false)); // 고레벨
}

#[test]
fn test_engrave_turns() {
    assert_eq!(engrave_turns(7, EngraveType::Engrave), 14);
}
