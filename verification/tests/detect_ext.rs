#![allow(unused_imports)]
use aihack::detect_ext::{BOLT_LIM, CORR, CrystalBallDetection, CrystalBallResult, DOOR, D_BROKEN, D_CLOSED, D_ISOPEN, D_LOCKED, D_NODOOR, D_TRAPPED, DetectionResult, MAX_SEARCH_BONUS, OTRAP_HERE, OTRAP_NONE, OTRAP_THERE, SEARCH_RADIUS, S_CORR, S_DOOR, calc_clairvoyance_range, calc_crystal_ball_int_damage, calc_crystal_ball_oops, calc_cvt_sdoor_to_door, calc_food_detection, calc_gold_detection, calc_level_distance, calc_monster_detection, calc_search_bonus, calc_secret_door_check, calc_trap_detection, calc_trap_discovery, rnl, search_adjacent_positions, should_map_tile};
use aihack::rng::NetHackRng;
#[test]
fn test_level_distance_below() {
    assert_eq!(calc_level_distance(-1, true, 10), "just below");
    assert_eq!(calc_level_distance(-3, true, 10), "below you");
    assert_eq!(calc_level_distance(-15, true, 10), "far below");
}

#[test]
fn test_level_distance_above() {
    assert_eq!(calc_level_distance(1, true, 10), "just above");
    assert_eq!(calc_level_distance(3, true, 10), "above you");
    assert_eq!(calc_level_distance(15, true, 10), "far above");
}

#[test]
fn test_level_distance_different_dungeon() {
    assert_eq!(calc_level_distance(-1, false, 10), "in the distance");
    assert_eq!(calc_level_distance(-3, false, 10), "away below you");
    assert_eq!(calc_level_distance(-15, false, 10), "far away");
    assert_eq!(calc_level_distance(0, false, 10), "in the distance");
}

#[test]
fn test_level_distance_same_depth() {
    assert_eq!(calc_level_distance(0, true, 10), "near you");
    assert_eq!(calc_level_distance(0, false, 10), "in the distance");
}

#[test]
fn test_search_bonus() {
    assert_eq!(calc_search_bonus(false, 0, false), 0);
    assert_eq!(calc_search_bonus(true, 3, false), 3);
    assert_eq!(calc_search_bonus(true, 3, true), 5); // 3+2=5, clamped
    assert_eq!(calc_search_bonus(true, 10, true), 5); // 10+2=12, clamped to 5
    assert_eq!(calc_search_bonus(false, 0, true), 2);
}

#[test]
fn test_secret_door_check_max_bonus() {
    let mut rng = NetHackRng::new(42);
    // fund=7 → threshold=0 → 항상 발견
    let result = calc_secret_door_check(7, 0, &mut rng);
    assert!(!result); // false = 발견 성공
}

#[test]
fn test_search_adjacent() {
    let positions = search_adjacent_positions(5, 5, 80, 25);
    assert_eq!(positions.len(), 8);
    // 플레이어 위치 (5,5) 자체는 포함되지 않음
    assert!(!positions.contains(&(5, 5)));
}

#[test]
fn test_search_adjacent_corner() {
    // 왼쪽 위 모서리
    let positions = search_adjacent_positions(0, 0, 80, 25);
    assert_eq!(positions.len(), 3);
    assert!(positions.contains(&(1, 0)));
    assert!(positions.contains(&(0, 1)));
    assert!(positions.contains(&(1, 1)));
}

#[test]
fn test_gold_detection_nothing() {
    assert_eq!(
        calc_gold_detection(false, false, false, false, false, false),
        DetectionResult::NothingDetected
    );
}

#[test]
fn test_gold_detection_here() {
    assert_eq!(
        calc_gold_detection(true, false, false, false, false, false),
        DetectionResult::DetectedHereOnly
    );
}

#[test]
fn test_gold_detection_elsewhere() {
    assert_eq!(
        calc_gold_detection(false, true, false, false, false, false),
        DetectionResult::DetectedElsewhere
    );
}

#[test]
fn test_food_detection() {
    assert_eq!(calc_food_detection(0, 0), DetectionResult::NothingDetected);
    assert_eq!(calc_food_detection(3, 0), DetectionResult::DetectedHereOnly);
    assert_eq!(
        calc_food_detection(0, 5),
        DetectionResult::DetectedElsewhere
    );
    assert_eq!(
        calc_food_detection(2, 5),
        DetectionResult::DetectedElsewhere
    );
}

#[test]
fn test_monster_detection() {
    assert_eq!(calc_monster_detection(0), DetectionResult::NothingDetected);
    assert_eq!(
        calc_monster_detection(5),
        DetectionResult::DetectedElsewhere
    );
}

#[test]
fn test_trap_detection() {
    // 아무것도 없음
    assert_eq!(
        calc_trap_detection(false, false, OTRAP_NONE, false, false),
        DetectionResult::NothingDetected
    );
    // 플레이어 위치에만
    assert_eq!(
        calc_trap_detection(true, false, OTRAP_NONE, false, false),
        DetectionResult::DetectedHereOnly
    );
    // 다른 곳에 함정
    assert_eq!(
        calc_trap_detection(false, true, OTRAP_NONE, false, false),
        DetectionResult::DetectedElsewhere
    );
    // 오브젝트 함정이 다른 곳에
    assert_eq!(
        calc_trap_detection(false, false, OTRAP_THERE, false, false),
        DetectionResult::DetectedElsewhere
    );
}

#[test]
fn test_cvt_sdoor_to_door() {
    let (typ, mask) = calc_cvt_sdoor_to_door(D_LOCKED | D_TRAPPED);
    assert_eq!(typ, DOOR);
    assert!(mask & D_LOCKED != 0);
    assert!(mask & D_TRAPPED != 0);

    let (typ2, mask2) = calc_cvt_sdoor_to_door(D_LOCKED);
    assert_eq!(typ2, DOOR);
    assert_eq!(mask2, D_LOCKED);

    let (typ3, mask3) = calc_cvt_sdoor_to_door(0);
    assert_eq!(typ3, DOOR);
    assert_eq!(mask3, D_CLOSED);
}

#[test]
fn test_crystal_ball_good_spe() {
    let mut rng = NetHackRng::new(42);
    // spe=5면 oops 확률은 1/15 정도
    let mut oops_count = 0;
    for _ in 0..100 {
        let mut test_rng = NetHackRng::new(rng.rn2(10000) as u64);
        if calc_crystal_ball_oops(5, 15, &mut test_rng) {
            oops_count += 1;
        }
    }
    // 100회 중 15% 미만이어야 함
    assert!(oops_count < 25);
}

#[test]
fn test_crystal_ball_bad_spe() {
    let mut rng = NetHackRng::new(42);
    // spe=0이면 항상 oops
    assert!(calc_crystal_ball_oops(0, 15, &mut rng));
    assert!(calc_crystal_ball_oops(-1, 15, &mut rng));
}

#[test]
fn test_clairvoyance_range() {
    let mut rng = NetHackRng::new(42);
    let (x_min, x_max, y_min, y_max) = calc_clairvoyance_range(40, 12, false, 80, 25, &mut rng);
    assert!(x_min >= 0 && x_min <= 40);
    assert!(x_max >= 40 && x_max < 80);
    assert!(y_min >= 0 && y_min <= 12);
    assert!(y_max >= 12 && y_max < 25);
}

#[test]
fn test_clairvoyance_blessed_wider() {
    let mut rng = NetHackRng::new(42);
    let (x_min_b, x_max_b, _, _) = calc_clairvoyance_range(40, 12, true, 80, 25, &mut rng);
    let mut rng2 = NetHackRng::new(42);
    let (x_min_n, x_max_n, _, _) = calc_clairvoyance_range(40, 12, false, 80, 25, &mut rng2);
    // 축복된 투시는 기본보다 더 넓어야 함
    assert!(x_max_b - x_min_b >= x_max_n - x_min_n);
}

#[test]
fn test_should_map_tile() {
    assert!(should_map_tile(0, true, false, false)); // 벽
    assert!(should_map_tile(0, false, true, false)); // 문
    assert!(should_map_tile(0, false, false, false)); // 미탐험
    assert!(!should_map_tile(0, false, false, true)); // 이미 탐험
}

#[test]
fn test_rnl_lucky() {
    let mut rng = NetHackRng::new(42);
    // 운이 매우 좋으면 결과가 0에 수렴
    let mut zero_count = 0;
    for _ in 0..100 {
        if rnl(8, 10, &mut rng) == 0 {
            zero_count += 1;
        }
    }
    // 운이 좋으면 0 나올 확률이 높아야 함
    assert!(zero_count > 30);
}

#[test]
fn test_rnl_unlucky() {
    let mut rng = NetHackRng::new(42);
    let mut zero_count = 0;
    for _ in 0..100 {
        if rnl(8, -10, &mut rng) == 0 {
            zero_count += 1;
        }
    }
    // 운이 나쁘면 0 나올 확률이 낮아야 함
    assert!(zero_count < 30);
}
