#![allow(unused_imports)]
use aihack::trap::{Spot, trap_contacts};
use aihack::stairs::LevelTarget;
use aihack::teleport::DungeonBranch;
use aihack::trap::{tool_bonus_from_lowercase};
use aihack::trap::{DisarmResult, ExtendedTrapStatistics, MagicTrapEffect, MonsterTrapResult, TrapImmunity, TrapInfo, TrapResistance, TrapSpring, TrapStatistics, TrapTransformEffect, TrapType, TrapVictim, bear_trap_escape, can_place_trap, chain_reaction_radius, check_trap_immunity, disarm_message, fall_damage, generate_traps_for_level, get_trap_info, level_teleport_destination, magic_trap_effect, magic_trap_effect_damage, max_traps_per_level, monster_trap_damage, random_trap_type, roll_magic_trap_effect, trap_base_damage, trap_chain_reaction, trap_chain_tiles, trap_creation_cost, trap_detection_difficulty, trap_disarm_difficulty, trap_disarm_parts, trap_disarm_tool_bonus, trap_disarm_xp, trap_evasion_check, trap_evasion_difficulty, trap_info_table, trap_name, trap_resist_check, trap_resistance_check, trap_trigger_message, trap_warning_message, trap_weight_table, traps_per_level, trigger_trap, try_detect_trap, try_disarm_trap, web_escape};
use aihack::rng::NetHackRng;
#[test]
fn test_trap_evasion_flying() {
    let mut rng = NetHackRng::new(42);
    //
    assert!(trap_evasion_check(
        10,
        0,
        TrapType::BearTrap,
        true,
        false,
        &mut rng
    ));
}

#[test]
fn test_trap_resistance() {
    let r = trap_resistance_check(TrapType::Fire, true, false, false, false, false);
    assert_eq!(r, TrapResistance::Immune);

    let r2 = trap_resistance_check(TrapType::SleepGas, false, false, true, false, false);
    assert_eq!(r2, TrapResistance::Immune);
}

#[test]
fn test_trap_damage_range() {
    let mut rng = NetHackRng::new(42);
    //
    for _ in 0..50 {
        let dmg = trap_base_damage(TrapType::Arrow, 1, &mut rng);
        assert!(dmg >= 1);
    }
    //
    assert_eq!(trap_base_damage(TrapType::SqueakyBoard, 10, &mut rng), 0);
}

#[test]
fn trap_test_chain_reaction() {
    assert!(trap_chain_reaction(TrapType::Landmine));
    assert!(!trap_chain_reaction(TrapType::Arrow));
}

#[test]
fn test_magic_trap_effect() {
    let mut rng = NetHackRng::new(42);
    let effect = roll_magic_trap_effect(&mut rng);
    //
    let dmg = magic_trap_effect_damage(effect, 10, &mut rng);
    assert!(dmg >= 0);
}

#[test]
fn test_trap_statistics() {
    let mut stats = TrapStatistics::new();
    stats.record_trigger(10);
    stats.record_trigger(5);
    stats.record_evasion();
    assert_eq!(stats.traps_triggered, 2);
    assert_eq!(stats.total_damage_taken, 15);
    assert_eq!(stats.traps_evaded, 1);
}

#[test]
fn test_trap_weight_table() {
    let shallow = trap_weight_table(1);
    let deep = trap_weight_table(20);
    assert!(deep.len() > shallow.len());
}

#[test]
fn test_monster_trap_damage() {
    let mut rng = NetHackRng::new(42);
    let result = monster_trap_damage(TrapType::BearTrap, "orc", 10, 5, false, false, &mut rng);
    assert!(result.damage > 0);
    assert_eq!(result.status_effect, Some("trapped".into()));
}

#[test]
fn test_trap_detect_difficulty() {
    //
    assert!(
        trap_detection_difficulty(TrapType::Landmine)
            > trap_detection_difficulty(TrapType::SqueakyBoard)
    );
}

#[test]
fn test_level_teleport() {
    let mut rng = NetHackRng::new(42);
    //
    let dest = level_teleport_destination(5, 30, true, Some(10), &mut rng);
    assert_eq!(dest, 10);
    //
    let dest2 = level_teleport_destination(5, 30, false, None, &mut rng);
    assert!(dest2 >= 1 && dest2 <= 30);
}

#[test]
fn test_trigger_message() {
    let m = trap_trigger_message(TrapType::BearTrap);
    assert!(m.contains("bear trap"));
}

#[test]
fn test_disarm_xp() {
    assert!(trap_disarm_xp(TrapType::Landmine, 1) > trap_disarm_xp(TrapType::Web, 1));
}

#[test]
fn test_disarm_parts() {
    let parts = trap_disarm_parts(TrapType::Arrow);
    assert!(parts.contains(&"arrow"));
}

#[test]
fn test_immunity() {
    let r = check_trap_immunity(
        TrapType::Pit,
        true,
        false,
        false,
        false,
        false,
        false,
        false,
    );
    assert_eq!(r, TrapImmunity::Immune);
}

#[test]
fn test_creation_cost() {
    assert!(trap_creation_cost(TrapType::Landmine) > trap_creation_cost(TrapType::Dart));
}

#[test]
fn trap_test_chain_tiles() {
    let mut rng = NetHackRng::new(42);
    let chain = trap_chain_tiles(TrapType::Landmine, &mut rng);
    //
    assert!(chain.len() <= 8);
}

#[test]
fn test_magic_effect() {
    let mut rng = NetHackRng::new(42);
    let e = magic_trap_effect(&mut rng);
    //
    let _ = e;
}

#[test]
fn test_tool_bonus() {
    assert_eq!(trap_disarm_tool_bonus("pick-axe"), 5);
    assert_eq!(trap_disarm_tool_bonus("random"), 0);
}

#[test]
fn test_max_traps() {
    assert!(max_traps_per_level(1) < max_traps_per_level(30));
    assert!(max_traps_per_level(100) <= 60);
}

#[test]
fn test_extended_stats() {
    let mut s = ExtendedTrapStatistics::new();
    s.record_trigger();
    s.record_disarm(5);
    s.record_chain();
    assert_eq!(s.traps_triggered, 1);
    assert_eq!(s.traps_disarmed, 1);
    assert_eq!(s.xp_from_disarm, 5);
}

#[test]
fn tool_bonus_on_lowercase_names() {
    assert_eq!(tool_bonus_from_lowercase("tinning kit"), 3);
    assert_eq!(tool_bonus_from_lowercase("dwarvish mattock"), 5);
    assert_eq!(tool_bonus_from_lowercase("elven dagger"), 2);
    assert_eq!(tool_bonus_from_lowercase("TINNING KIT"), 0);
}

#[test]
fn creatures_on_a_trap_spring_it() {
    let l1 = LevelTarget { branch: DungeonBranch::Main, depth: 1 };
    let l2 = LevelTarget { branch: DungeonBranch::Main, depth: 2 };
    let traps = vec![Spot { x: 3, y: 4, level: l1 }, Spot { x: 7, y: 7, level: l1 }];
    let creatures = vec![
        Spot { x: 7, y: 7, level: l1 },
        Spot { x: 3, y: 4, level: l2 },
        Spot { x: 3, y: 4, level: l1 },
        Spot { x: 7, y: 7, level: l1 },
    ];
    assert_eq!(trap_contacts(&traps, &creatures), vec![(0, 2), (1, 0), (1, 3)]);
    assert!(trap_contacts(&traps, &Vec::new()).is_empty());
}
