#![allow(unused_imports)]
use aihack::teleport::{COLNO, DungeonBranch, ROWNO, TeleResistResult, TeleTrapType, TeleportCause, TeleportControl, TeleportOutcome, TeleportResult, TeleportStatistics, can_cross_branch_teleport, can_level_teleport, can_teleport, check_teleport_resist, find_safe_landing, is_noteleport_zone, is_safe_landing, is_valid_teleport_dest, level_teleport_target, monster_can_teleport, random_teleport_location, short_teleport_range, teleport, teleport_cooldown_remaining, teleport_failure_message, teleport_message, teleport_on_cooldown, teleport_trap_effect, teleport_trap_message};
use aihack::rng::NetHackRng;
use aihack::stairs::{LandingType, LevelChange, LevelTarget};
use aihack::tile::{Grid, TileType};
#[test]
fn test_safe_landing() {
    assert!(is_safe_landing(
        5, 5, 80, 25, false, false, false, false, false
    ));
    assert!(!is_safe_landing(
        0, 0, 80, 25, false, false, false, false, false
    ));
    assert!(!is_safe_landing(
        5, 5, 80, 25, true, false, false, false, false
    ));
    assert!(!is_safe_landing(
        5, 5, 80, 25, false, false, false, true, false
    ));
}

#[test]
fn test_noteleport_zone() {
    assert!(is_noteleport_zone(5, false, true));
    assert!(is_noteleport_zone(3, true, false));
    assert!(!is_noteleport_zone(5, false, false));
}

#[test]
fn test_monster_can_teleport() {
    assert!(monster_can_teleport(true, false, false));
    assert!(!monster_can_teleport(true, true, false));
    assert!(!monster_can_teleport(true, false, true));
}

#[test]
fn test_teleport_resist() {
    let mut rng = NetHackRng::new(42);
    let result = check_teleport_resist(true, 0, &mut rng);
    assert_eq!(result, TeleResistResult::FullResist);
}

#[test]
fn test_teleport_trap_effect() {
    let mut rng = NetHackRng::new(42);
    let result = teleport_trap_effect(true, true, &mut rng);
    assert_eq!(result, TeleTrapType::ControlledTeleport);
}

#[test]
fn test_cooldown() {
    assert!(teleport_on_cooldown(100, 105, 10));
    assert!(!teleport_on_cooldown(100, 115, 10));
}

#[test]
fn test_teleport_stats() {
    let mut stats = TeleportStatistics::new();
    stats.record_teleport(true, false);
    stats.record_teleport(false, true);
    stats.record_trap();
    assert_eq!(stats.times_teleported, 2);
    assert_eq!(stats.controlled_teleports, 1);
    assert_eq!(stats.level_teleports, 1);
    assert_eq!(stats.teleport_traps_triggered, 1);
}

#[test]
fn wounded_monsters_teleport_by_chance() {
    let mut rng = NetHackRng::new(3);
    assert!(!aihack::teleport::teleport_urge(false, true, true, true, &mut rng));
    assert!(!aihack::teleport::teleport_urge(true, false, true, false, &mut rng));
    let mut a = NetHackRng::new(11);
    let mut b = NetHackRng::new(11);
    let fled = aihack::teleport::teleport_urge(true, true, true, false, &mut a);
    assert_eq!(fled, b.rn2(4) == 0);
    let mut a = NetHackRng::new(12);
    let mut b = NetHackRng::new(12);
    let hurt = aihack::teleport::teleport_urge(true, false, true, true, &mut a);
    assert_eq!(hurt, b.rn2(2) == 0);
}

fn main_level(depth: i32) -> LevelTarget {
    LevelTarget { branch: DungeonBranch::Main, depth }
}

#[test]
fn teleport_lands_on_the_first_open_square() {
    let grid = Grid::filled(TileType::Room);
    let mut log = aihack::game_log::GameLog::new(10);
    let mut rng = NetHackRng::new(9);
    let mut probe = NetHackRng::new(9);
    let x = probe.rn2(COLNO);
    let y = probe.rn2(ROWNO);
    let r = teleport(false, false, main_level(3), &grid, &mut log, 1, &mut rng);
    assert_eq!(r, TeleportOutcome::Moved(x, y));
    assert_eq!(log.text_at(0), "The monster teleports away!");
    assert_eq!(rng.rn2(1000), probe.rn2(1000));
}

#[test]
fn teleport_among_walls_stays_put() {
    let grid = Grid::filled(TileType::HWall);
    let mut log = aihack::game_log::GameLog::new(10);
    let mut rng = NetHackRng::new(9);
    let r = teleport(true, false, main_level(3), &grid, &mut log, 1, &mut rng);
    assert_eq!(r, TeleportOutcome::Stayed);
    assert_eq!(log.text_at(0), "You feel a shudder, but stay put.");
    let mut probe = NetHackRng::new(9);
    for _ in 0..400 {
        probe.rn2(2);
    }
    assert_eq!(rng.rn2(1000), probe.rn2(1000));
}

#[test]
fn level_teleport_keeps_the_branch_and_lands_at_random() {
    let grid = Grid::filled(TileType::Room);
    let mut log = aihack::game_log::GameLog::new(10);
    let mut rng = NetHackRng::new(5);
    let start = LevelTarget { branch: DungeonBranch::Mines, depth: 10 };
    match teleport(true, true, start, &grid, &mut log, 1, &mut rng) {
        TeleportOutcome::ToLevel(LevelChange::Teleport { target, landing }) => {
            assert_eq!(target.branch, DungeonBranch::Mines);
            assert!(target.depth != 10 && (5..=15).contains(&target.depth));
            assert_eq!(landing, LandingType::Random);
        }
        other => panic!("unexpected {:?}", other),
    }
    assert_eq!(log.text_at(0), "You are swept away to another level!");
}
