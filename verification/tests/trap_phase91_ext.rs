#![allow(unused_imports)]
use aihack::trap_phase91_ext::{TrapResult, TrapTriggerInput, TrapType, trap_detection_chance, trap_trigger};
use aihack::rng::NetHackRng;
fn test_rng() -> NetHackRng {
    NetHackRng::new(42)
}

fn base_input(trap_type: TrapType) -> TrapTriggerInput {
    TrapTriggerInput {
        trap_type,
        player_dex: 14,
        is_levitating: false,
        is_flying: false,
        has_fire_resist: false,
        has_sleep_resist: false,
        has_poly_resist: false,
        is_wearing_boots: true,
        weight: 1500,
    }
}

#[test]
fn test_arrow_trap_damage() {
    // 여러 시드로 최소 1번은 데미지
    let mut got_damage = false;
    for seed in 0..20u64 {
        let mut rng = NetHackRng::new(seed);
        let result = trap_trigger(&base_input(TrapType::ArrowTrap), &mut rng);
        if matches!(result, TrapResult::Damage { .. }) {
            got_damage = true;
            break;
        }
    }
    assert!(got_damage);
}

#[test]
fn test_bear_trap_levitating() {
    let mut rng = test_rng();
    let mut input = base_input(TrapType::BearTrap);
    input.is_levitating = true;
    let result = trap_trigger(&input, &mut rng);
    assert!(matches!(result, TrapResult::Immune { .. }));
}

#[test]
fn test_fire_trap_resistant() {
    let mut rng = test_rng();
    let mut input = base_input(TrapType::FireTrap);
    input.has_fire_resist = true;
    let result = trap_trigger(&input, &mut rng);
    assert!(matches!(result, TrapResult::Immune { .. }));
}

#[test]
fn test_sleeping_gas_resistant() {
    let mut rng = test_rng();
    let mut input = base_input(TrapType::SleepingGas);
    input.has_sleep_resist = true;
    let result = trap_trigger(&input, &mut rng);
    assert!(matches!(result, TrapResult::Immune { .. }));
}

#[test]
fn trap_phase91_ext_test_teleport_trap() {
    let mut rng = test_rng();
    let result = trap_trigger(&base_input(TrapType::TeleportTrap), &mut rng);
    assert!(matches!(result, TrapResult::Teleport { random: true }));
}

#[test]
fn trap_phase91_ext_test_polymorph_trap() {
    let mut rng = test_rng();
    let result = trap_trigger(&base_input(TrapType::PolymorphTrap), &mut rng);
    assert!(matches!(result, TrapResult::Polymorph));
}

#[test]
fn test_squeaky_board() {
    let mut rng = test_rng();
    let result = trap_trigger(&base_input(TrapType::SqueakyBoard), &mut rng);
    assert!(matches!(result, TrapResult::Alarm { .. }));
}

#[test]
fn test_web_trap() {
    let mut rng = test_rng();
    let result = trap_trigger(&base_input(TrapType::WebTrap), &mut rng);
    assert!(matches!(result, TrapResult::Stuck { .. }));
}

#[test]
fn test_pit_levitating() {
    let mut rng = test_rng();
    let mut input = base_input(TrapType::PitTrap);
    input.is_flying = true;
    let result = trap_trigger(&input, &mut rng);
    assert!(matches!(result, TrapResult::Immune { .. }));
}

#[test]
fn test_detection_with_ability() {
    assert_eq!(trap_detection_chance(10, 0, false, true), 100);
}

#[test]
fn test_detection_searching() {
    let chance = trap_detection_chance(10, 3, true, false);
    assert!(chance > 30);
}
