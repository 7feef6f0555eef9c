use aihack::tile::{Grid, Tile, TileType};
use aihack::vision::{VisionSystem, IN_SIGHT, MEMORIZED};
use aihack::vision_update::{magic_map_effect, vision_update, LightAt};

fn dark_room() -> Grid {
    let mut g = Grid::filled(TileType::Room);
    for y in 0..21 {
        g.set_tile(20, y, Tile { typ: TileType::VWall, lit: false, roomno: 0 });
    }
    g
}

#[test]
fn blind_player_sees_only_next_to_them() {
    let g = dark_room();
    let mut v = VisionSystem::new();
    v.viz_array[40][10] = IN_SIGHT | MEMORIZED;
    vision_update(&mut v, &g, 10, 10, true, false, false, &vec![], &vec![]);
    assert_eq!(v.viz_array[10][10], IN_SIGHT | MEMORIZED);
    assert_eq!(v.viz_array[11][11], 0);
    assert_eq!(v.viz_array[11][10], IN_SIGHT | MEMORIZED);
    assert_eq!(v.viz_array[40][10], MEMORIZED);
    assert!(v.viz_clear[10][10]);
    assert!(!v.viz_clear[20][10]);
}

#[test]
fn dark_rooms_need_night_vision_or_light() {
    let g = dark_room();
    let mut v = VisionSystem::new();
    vision_update(&mut v, &g, 10, 10, false, false, false, &vec![], &vec![]);
    assert_eq!(v.viz_array[11][10] & IN_SIGHT, IN_SIGHT);
    assert_eq!(v.viz_array[12][10], 0);
    let mut v = VisionSystem::new();
    vision_update(&mut v, &g, 10, 10, false, true, false, &vec![], &vec![]);
    assert_eq!(v.viz_array[13][10] & IN_SIGHT, IN_SIGHT);
    let mut v = VisionSystem::new();
    let lights = vec![LightAt { x: 15, y: 10, range: 2 }];
    vision_update(&mut v, &g, 10, 10, false, false, false, &lights, &vec![]);
    assert_eq!(v.viz_array[17][10] & IN_SIGHT, IN_SIGHT);
    assert_eq!(v.viz_array[12][10], 0);
    assert_eq!(v.viz_array[14][10] & IN_SIGHT, IN_SIGHT);
}

#[test]
fn infravision_spots_near_monsters_in_line_of_sight() {
    let g = dark_room();
    let mut v = VisionSystem::new();
    let monsters = vec![(15, 10), (25, 10), (19, 3)];
    vision_update(&mut v, &g, 18, 10, false, false, true, &vec![], &monsters);
    assert_eq!(v.viz_array[15][10], IN_SIGHT);
    assert_eq!(v.viz_array[25][10], 0);
    assert_eq!(v.viz_array[19][3], IN_SIGHT);
    magic_map_effect(&mut v, 0);
    assert_eq!(v.viz_array[30][3], 0);
    magic_map_effect(&mut v, 2);
    assert_eq!(v.viz_array[30][3], MEMORIZED);
}
