#![allow(unused_imports)]
use aihack::trap_phase96_ext::{DisarmResult, ExtTrapType, TrapTriggerResult, disarm_trap, trigger_trap};
use aihack::rng::NetHackRng;
fn test_rng() -> NetHackRng {
    NetHackRng::new(42)
}

#[test]
fn test_arrow_trap() {
    let mut rng = test_rng();
    let result = trigger_trap(ExtTrapType::ArrowTrap, 10, false, false, &mut rng);
    assert!(matches!(
        result,
        TrapTriggerResult::Damage { .. } | TrapTriggerResult::NoEffect { .. }
    ));
}

#[test]
fn test_bear_trap() {
    let mut rng = test_rng();
    let result = trigger_trap(ExtTrapType::BearTrap, 10, false, false, &mut rng);
    assert!(matches!(result, TrapTriggerResult::Immobilize { .. }));
}

#[test]
fn test_levitation_dodge() {
    let mut rng = test_rng();
    let result = trigger_trap(ExtTrapType::Pit, 10, true, false, &mut rng);
    assert!(matches!(result, TrapTriggerResult::NoEffect { .. }));
}

#[test]
fn trap_phase96_ext_test_teleport_trap() {
    let mut rng = test_rng();
    let result = trigger_trap(ExtTrapType::TeleportTrap, 10, false, false, &mut rng);
    assert!(matches!(result, TrapTriggerResult::Teleport { .. }));
}

#[test]
fn trap_phase96_ext_test_polymorph_trap() {
    let mut rng = test_rng();
    let result = trigger_trap(ExtTrapType::PolymorphTrap, 10, false, false, &mut rng);
    assert!(matches!(result, TrapTriggerResult::Polymorph));
}

#[test]
fn trap_phase96_ext_test_disarm_success() {
    let mut success = false;
    for seed in 0..20u64 {
        let mut rng = NetHackRng::new(seed);
        let result = disarm_trap(ExtTrapType::ArrowTrap, 16, 10, true, &mut rng);
        if matches!(result, DisarmResult::Success) {
            success = true;
            break;
        }
    }
    assert!(success);
}

#[test]
fn test_disarm_no_tool() {
    let mut rng = test_rng();
    let result = disarm_trap(ExtTrapType::LandMine, 16, 10, false, &mut rng);
    assert!(matches!(result, DisarmResult::NeedTool { .. }));
}

#[test]
fn test_disarm_cannot() {
    let mut rng = test_rng();
    let result = disarm_trap(ExtTrapType::MagicPortal, 16, 10, true, &mut rng);
    assert!(matches!(result, DisarmResult::CannotDisarm));
}
