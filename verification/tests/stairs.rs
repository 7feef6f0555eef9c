use aihack::game_log::GameLog;
use aihack::level_change::{arrival_message, landing_position, plan_level_change};
use aihack::rng::NetHackRng;
use aihack::stairs::{stairs_decision, LandingType, LevelChange, LevelTarget, StairsCommand};
use aihack::teleport::DungeonBranch;
use aihack::tile::{Grid, Tile, TileType};

fn main_level(depth: i32) -> LevelTarget {
    LevelTarget { branch: DungeonBranch::Main, depth }
}

#[test]
fn descending_plain_stairs() {
    let mut log = GameLog::new(10);
    let out = stairs_decision(StairsCommand::Descend, TileType::StairsDown, None, main_level(3), true, &mut log, 7);
    assert_eq!(out.level_change, Some(LevelChange::NextLevel));
    let t = out.transition.unwrap();
    assert_eq!((t.depth, t.branch, t.direction), (4, "dungeon", "down"));
    let prompt = out.narration_prompt.unwrap();
    assert!(prompt.starts_with("You are a roguelike game narrator. The player just moved down to level 4 of the dungeon.\nWrite"));
    assert!(prompt.ends_with("Reply with ONLY the description, no quotes."));
    assert_eq!(log.len(), 1);
    assert_eq!(log.text_at(0), "You descend the stairs.");
}

#[test]
fn descending_through_a_portal() {
    let mut log = GameLog::new(10);
    let target = LevelTarget { branch: DungeonBranch::Mines, depth: 3 };
    let out = stairs_decision(StairsCommand::Descend, TileType::Ladder, Some(target), main_level(2), false, &mut log, 1);
    assert_eq!(
        out.level_change,
        Some(LevelChange::Teleport { target, landing: LandingType::Connection(main_level(2)) })
    );
    assert_eq!(out.transition.unwrap().branch, "mines");
    assert!(out.narration_prompt.is_none());
    assert_eq!(log.text_at(0), "You enter a passage leading to level 3 (Mines).");
}

#[test]
fn climbing_and_refusals() {
    let mut log = GameLog::new(10);
    let out = stairs_decision(StairsCommand::Ascend, TileType::StairsUp, None, main_level(2), false, &mut log, 1);
    assert_eq!(out.level_change, Some(LevelChange::PrevLevel));
    assert_eq!(out.transition.unwrap().depth, 1);
    let portal = Some(LevelTarget { branch: DungeonBranch::Sokoban, depth: 5 });
    let out = stairs_decision(StairsCommand::Ascend, TileType::StairsUp, portal, main_level(6), false, &mut log, 2);
    assert_eq!(out.transition.unwrap().branch, "dungeon");
    let out = stairs_decision(StairsCommand::Ascend, TileType::Room, None, main_level(2), true, &mut log, 3);
    assert!(out.level_change.is_none() && out.transition.is_none() && out.narration_prompt.is_none());
    let out = stairs_decision(StairsCommand::Descend, TileType::StairsUp, None, main_level(2), true, &mut log, 4);
    assert!(out.level_change.is_none());
    let out = stairs_decision(StairsCommand::Other, TileType::StairsUp, None, main_level(2), true, &mut log, 5);
    assert!(out.level_change.is_none());
    assert_eq!(log.len(), 4);
    assert_eq!(log.text_at(0), "You ascend the stairs.");
    assert_eq!(log.text_at(1), "You climb up to level 5.");
    assert_eq!(log.text_at(2), "You can't go up here.");
    assert_eq!(log.text_at(3), "You can't go down here.");
}

#[test]
fn next_levels_and_messages() {
    assert_eq!(plan_level_change(LevelChange::NextLevel, main_level(1)), Some(main_level(2)));
    assert_eq!(plan_level_change(LevelChange::PrevLevel, main_level(1)), None);
    let t = LevelTarget { branch: DungeonBranch::Mines, depth: 4 };
    assert_eq!(plan_level_change(LevelChange::Teleport { target: t, landing: LandingType::Random }, main_level(1)), Some(t));
    assert_eq!(arrival_message(true, 3), "Welcome back to level 3.");
    assert_eq!(arrival_message(false, 12), "You enter level 12.");
}

#[test]
fn down_then_up_returns_to_the_start() {
    for depth in [1, 7, 49] {
        let start = main_level(depth);
        let down = plan_level_change(LevelChange::NextLevel, start).unwrap();
        assert_eq!(plan_level_change(LevelChange::PrevLevel, down), Some(start));
    }
}

#[test]
fn landing_positions() {
    let mut g = Grid::filled(TileType::Room);
    g.set_tile(4, 2, Tile { typ: TileType::StairsUp, lit: false, roomno: 0 });
    g.set_tile(4, 9, Tile { typ: TileType::StairsUp, lit: false, roomno: 0 });
    g.set_tile(7, 6, Tile { typ: TileType::StairsUp, lit: false, roomno: 0 });
    let mut rng = NetHackRng::new(5);
    let none: Vec<((i32, i32), LevelTarget)> = Vec::new();
    // the scan keeps the first match of the last column that has one
    assert_eq!(landing_position(&g, &none, LevelChange::NextLevel, None, &mut rng), (7, 6));
    assert_eq!(landing_position(&g, &none, LevelChange::PrevLevel, None, &mut rng), (10, 10));
    assert_eq!(landing_position(&g, &none, LevelChange::PrevLevel, Some(((1, 1), (2, 2))), &mut rng), (2, 2));
    let to = |landing| LevelChange::Teleport { target: main_level(2), landing };
    assert_eq!(landing_position(&g, &none, to(LandingType::Coordinate(3, 4)), None, &mut rng), (3, 4));
    let portals = vec![((5, 5), main_level(9)), ((6, 6), main_level(1)), ((8, 8), main_level(1))];
    assert_eq!(landing_position(&g, &portals, to(LandingType::Connection(main_level(1))), None, &mut rng), (6, 6));
    assert_eq!(landing_position(&g, &portals, to(LandingType::Connection(main_level(4))), None, &mut rng), (10, 10));
    let (x, y) = landing_position(&g, &none, to(LandingType::Random), None, &mut rng);
    assert!((0..80).contains(&x) && (0..21).contains(&y));
    let walls = Grid::filled(TileType::HWall);
    assert_eq!(landing_position(&walls, &none, to(LandingType::Random), None, &mut rng), (10, 10));
}
