#![allow(unused_imports)]
use aihack::vision::{light_radius_from_lowercase};
use aihack::vision::{BlockType, COULD_SEE, DetectionMethod, IN_SIGHT, LightSourceType, MAX_COORD, MEMORIZED, TEMP_LIT, VisionStatistics, VisionSystem, classify_block, detect_monster, light_duration, light_radius, light_source_radius};
use aihack::rng::NetHackRng;
use aihack::tile::{TileType, Tile, Grid};
#[test]
fn test_detect_normal() {
    let m = detect_monster(true, false, false, false, false, false, false, false, false);
    assert_eq!(m, DetectionMethod::NormalSight);
}

#[test]
fn test_detect_invisible() {
    let m = detect_monster(true, true, false, true, false, false, false, false, false);
    assert_eq!(m, DetectionMethod::SeeInvisible);
}

#[test]
fn test_detect_telepathy() {
    let m = detect_monster(false, false, false, false, false, true, false, false, true);
    assert_eq!(m, DetectionMethod::Telepathy);
}

#[test]
fn test_detect_mindless_telepathy() {
    let m = detect_monster(false, false, true, false, false, true, false, false, true);
    //
    assert_ne!(m, DetectionMethod::Telepathy);
}

#[test]
fn test_classify_block() {
    assert_eq!(classify_block(TileType::Stone), BlockType::Full);
    assert_eq!(classify_block(TileType::Room), BlockType::Clear);
    assert_eq!(classify_block(TileType::Tree), BlockType::Partial);
}

#[test]
fn test_light_radius() {
    assert_eq!(light_radius(LightSourceType::Candle), 1);
    assert_eq!(light_radius(LightSourceType::MagicLamp), 4);
}

#[test]
fn test_light_duration() {
    assert!(light_duration(LightSourceType::MagicLamp).is_none());
    assert!(light_duration(LightSourceType::Candle).is_some());
}

#[test]
fn test_vision_stats() {
    let mut stats = VisionStatistics::new();
    stats.record_recalc();
    stats.record_blind();
    stats.record_magic_map();
    assert_eq!(stats.recalc_count, 1);
    assert_eq!(stats.blind_turns, 1);
    assert_eq!(stats.magic_maps_used, 1);
}

fn room_grid() -> Grid {
    let mut g = Grid::filled(TileType::Room);
    // a wall column at x = 10, rows 0..=20
    for y in 0..21 {
        g.set_tile(10, y, Tile { typ: TileType::VWall, lit: false, roomno: 0 });
    }
    g
}

#[test]
fn line_of_sight_stops_at_walls() {
    let g = room_grid();
    assert!(VisionSystem::has_line_of_sight(&g, 5, 5, 9, 7));
    assert!(!VisionSystem::has_line_of_sight(&g, 5, 5, 15, 5));
    // the end point itself never blocks
    assert!(VisionSystem::has_line_of_sight(&g, 5, 5, 10, 5));
    assert!(VisionSystem::has_line_of_sight(&g, 3, 3, 3, 3));
}

#[test]
fn apply_vision_marks_only_reachable_squares() {
    let g = room_grid();
    let mut v = VisionSystem::new();
    v.apply_vision(&g, 8, 5, 3);
    assert_eq!(v.viz_array[8][5], IN_SIGHT | MEMORIZED);
    assert_eq!(v.viz_array[10][5], IN_SIGHT | MEMORIZED);
    assert_eq!(v.viz_array[11][5], 0);
    assert_eq!(v.viz_array[8][9], 0);
    let (s, m, t) = v.debug_vision_stats();
    assert_eq!(s, m);
    assert_eq!(t, 0);
}

#[test]
fn recalc_lights_the_players_room() {
    let mut g = Grid::filled(TileType::Stone);
    for x in 20..25 {
        for y in 2..5 {
            g.set_tile(x, y, Tile { typ: TileType::Room, lit: true, roomno: 3 });
        }
    }
    let mut v = VisionSystem::new();
    v.apply_temp_light(0, 0, 1);
    v.recalc(&g, 22, 3, 1);
    assert_eq!(v.viz_array[20][2] & IN_SIGHT, IN_SIGHT);
    assert_eq!(v.viz_array[24][4] & MEMORIZED, MEMORIZED);
    assert_eq!(v.viz_array[30][3], 0);
    assert_eq!(v.viz_array[0][0], TEMP_LIT);
    v.clear_temp_light();
    assert_eq!(v.viz_array[0][0], 0);
    v.recalc_blind(22, 3);
    assert_eq!(v.viz_array[22][3], IN_SIGHT | MEMORIZED);
    assert_eq!(v.viz_array[20][2], MEMORIZED);
    assert!(v.can_see_invisible(22, 3, true));
    assert!(!v.can_see_invisible(22, 3, false));
    assert!(!v.can_see_invisible(20, 2, true));
}

#[test]
fn magic_map_and_clairvoyance() {
    let mut v = VisionSystem::new();
    v.magic_map();
    let (s, m, _) = v.debug_vision_stats();
    assert_eq!((s, m), (0, 80 * 21));
    v.reset_sight();
    v.clairvoyance(1, 1, 1);
    let (s, _, t) = v.debug_vision_stats();
    assert_eq!(s, 9);
    assert_eq!(t, 9);
    let mut g = room_grid();
    v.update_clear_zones(&g);
    assert!(v.viz_clear[5][5]);
    assert!(!v.viz_clear[10][5]);
    g.set_tile(5, 5, Tile { typ: TileType::Tree, lit: false, roomno: 0 });
    v.update_clear_zones(&g);
    assert!(!v.viz_clear[5][5]);
}

#[test]
fn detection_by_distance() {
    let g = room_grid();
    let v = VisionSystem::new();
    assert!(v.infravision_detect(&g, 2, 2, 5, 6, 5));
    assert!(!v.infravision_detect(&g, 2, 2, 5, 6, 4));
    assert!(!v.infravision_detect(&g, 8, 5, 12, 5, 8));
    assert!(VisionSystem::telepathy_detect(0, 0, 70, 20, 0, false));
    assert!(!VisionSystem::telepathy_detect(0, 0, 1, 1, 5, true));
    assert!(VisionSystem::telepathy_detect(0, 0, 3, 4, 5, false));
    assert!(!VisionSystem::telepathy_detect(0, 0, 4, 4, 5, false));
}

#[test]
fn vision_radius_rules() {
    assert_eq!(VisionSystem::effective_vision_radius(8, true, false, false, 0), 1);
    assert_eq!(VisionSystem::effective_vision_radius(8, true, true, false, 0), 3);
    assert_eq!(VisionSystem::effective_vision_radius(2, false, false, true, 6), 6);
    assert_eq!(VisionSystem::effective_vision_radius(40, false, false, false, 0), 15);
    assert_eq!(VisionSystem::effective_vision_radius(-3, false, false, false, 0), 1);
}

#[test]
fn light_source_radius_by_name() {
    assert_eq!(light_source_radius("CANDLE"), 1);
    assert_eq!(light_source_radius("Brass Lantern"), 3);
    assert_eq!(light_source_radius("magic lamp"), 3);
    assert_eq!(light_source_radius("Sunsword"), 3);
    assert_eq!(light_source_radius("dagger"), 0);
    assert_eq!(light_duration(LightSourceType::WandOfLight), Some(50));
    assert_eq!(light_radius(LightSourceType::WandOfLight), 5);
    assert_eq!(classify_block(TileType::Door), BlockType::Full);
}

#[test]
fn light_radius_on_lowercase_names() {
    assert_eq!(light_radius_from_lowercase("wax candle"), 1);
    assert_eq!(light_radius_from_lowercase("magic lamp"), 3);
    assert_eq!(light_radius_from_lowercase("sunsword"), 3);
    assert_eq!(light_radius_from_lowercase("Candle"), 0);
}
