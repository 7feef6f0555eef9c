#![allow(unused_imports)]
use aihack::search::{SearchFindings, SearchResult, SearchSquare, SearchStatistics, auto_search_chance, detect_mimic_chance, search_radius, search_result_message, search_success_rate, secret_passage_difficulty, trap_detection_difficulty, try_search};
use aihack::rng::NetHackRng;
#[test]
fn test_search_success_rate() {
    let rate = search_success_rate(30, 3, 18, 2, 1);
    assert!(rate > 30);
    assert!(rate <= 95);
}

#[test]
fn test_consecutive_bonus() {
    let r1 = search_success_rate(30, 0, 10, 0, 1);
    let r5 = search_success_rate(30, 0, 10, 0, 5);
    assert!(r5 > r1);
}

#[test]
fn test_trap_difficulty() {
    assert!(trap_detection_difficulty("web") < trap_detection_difficulty("magic trap"));
    assert!(trap_detection_difficulty("pit") < trap_detection_difficulty("statue trap"));
}

#[test]
fn test_search_result_message() {
    let r = SearchResult::TrapFound("bear trap".to_string());
    assert!(search_result_message(&r).contains("bear trap"));
}

#[test]
fn test_search_radius() {
    assert_eq!(search_radius(1, false), 1);
    assert_eq!(search_radius(1, true), 2);
    assert_eq!(search_radius(3, true), 3);
}

#[test]
fn test_auto_search() {
    assert_eq!(auto_search_chance(0, false), 0);
    assert!(auto_search_chance(3, true) > 0);
}


#[test]
fn search_rate_reads_the_streak_as_a_signed_count() {
    assert_eq!(search_success_rate(50, 0, 10, 0, 4294967295), 40);
    assert_eq!(search_success_rate(1000, 2000, 10, 0, 1), 95);
    assert_eq!(auto_search_chance(i32::MAX, false), 0);
}

#[test]
fn searching_far_off_the_map_finds_nothing() {
    let squares = [SearchSquare { hidden_traps: 1, secret_door: true }; 9];
    let mut log = aihack::game_log::GameLog::new(10);
    let mut rng = NetHackRng::new(3);
    let r = try_search(5000, -700, &squares, &mut log, 1, &mut rng);
    assert!(!r.found_something || r.read_engraving);
    assert!(log.len() <= 1);
}
