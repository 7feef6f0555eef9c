#![allow(unused_imports)]
use aihack::light_ext::{LightFlags, LightManager, LightSource, LightSourceType, MAX_RADIUS, arti_light_description, arti_light_radius, candle_light_range, obj_is_burning, obj_sheds_light};
use aihack::rng::NetHackRng;
#[test]
fn test_light_source_new() {
    assert!(LightSource::new(5, 5, 3, LightSourceType::Object, 1).is_some());
    assert!(LightSource::new(5, 5, 0, LightSourceType::Object, 1).is_none());
    assert!(LightSource::new(5, 5, 16, LightSourceType::Object, 1).is_none());
}

#[test]
fn test_light_manager_add_remove() {
    let mut mgr = LightManager::new();
    assert!(mgr.add(5, 5, 3, LightSourceType::Object, 100));
    assert!(mgr.add(10, 10, 2, LightSourceType::Monster, 200));
    assert_eq!(mgr.sources.len(), 2);

    assert!(mgr.remove(LightSourceType::Object, 100));
    assert_eq!(mgr.sources.len(), 1);
    assert!(!mgr.remove(LightSourceType::Object, 999)); // 없는 항목
}

#[test]
fn test_light_manager_move() {
    let mut mgr = LightManager::new();
    mgr.add(5, 5, 3, LightSourceType::Object, 100);
    mgr.move_source(LightSourceType::Object, 100, 200);
    assert_eq!(mgr.sources[0].source_id, 200);
}

#[test]
fn test_light_manager_split() {
    let mut mgr = LightManager::new();
    mgr.add(5, 5, 3, LightSourceType::Object, 100);
    mgr.split_source(LightSourceType::Object, 100, 200, Some(2), Some(2));
    assert_eq!(mgr.sources.len(), 2);
}

#[test]
fn test_light_manager_merge() {
    let mut mgr = LightManager::new();
    mgr.add(5, 5, 2, LightSourceType::Object, 100);
    mgr.add(5, 5, 2, LightSourceType::Object, 200);
    mgr.merge_sources(100, 200, 3);
    assert_eq!(mgr.sources.len(), 1);
    assert_eq!(mgr.sources[0].range, 3);
}

#[test]
fn test_light_manager_adjust() {
    let mut mgr = LightManager::new();
    mgr.add(5, 5, 2, LightSourceType::Object, 100);
    mgr.adjust_radius(LightSourceType::Object, 100, 4);
    assert_eq!(mgr.sources[0].range, 4);
    assert!(mgr.vision_recalc_needed);
}

#[test]
fn test_light_manager_snuff() {
    let mut mgr = LightManager::new();
    mgr.add(5, 5, 3, LightSourceType::Object, 100);
    let result = mgr.snuff_at(5, 5, &|_| false);
    assert_eq!(result, Some(100));
    assert!(mgr.sources.is_empty());
}

#[test]
fn test_light_manager_snuff_artifact() {
    let mut mgr = LightManager::new();
    mgr.add(5, 5, 3, LightSourceType::Object, 100);
    // 아티팩트는 소화 안 됨
    let result = mgr.snuff_at(5, 5, &|_| true);
    assert_eq!(result, None);
    assert_eq!(mgr.sources.len(), 1);
}

#[test]
fn test_light_manager_stats() {
    let mut mgr = LightManager::new();
    mgr.add(5, 5, 3, LightSourceType::Object, 100);
    mgr.add(10, 10, 2, LightSourceType::Monster, 200);
    let (count, _size) = mgr.stats();
    assert_eq!(count, 2);
}

#[test]
fn test_lit_positions() {
    let mut mgr = LightManager::new();
    mgr.add(5, 5, 2, LightSourceType::Object, 100);
    let positions = mgr.lit_positions(20, 20);
    // 반경 2 원 → 중심 포함 약 13개 (4+8+1)
    assert!(positions.len() >= 9);
    assert!(positions.contains(&(5, 5)));
    assert!(positions.contains(&(5, 3))); // 위 2칸
}

#[test]
fn test_candle_light_range() {
    // 촛대
    assert_eq!(candle_light_range(3, true), 2);
    assert_eq!(candle_light_range(5, true), 3);
    assert_eq!(candle_light_range(7, true), 4);

    // 일반 양초
    assert_eq!(candle_light_range(1, false), 2);
    assert_eq!(candle_light_range(6, false), 2);
    assert_eq!(candle_light_range(7, false), 3);
    assert_eq!(candle_light_range(48, false), 3);
    assert_eq!(candle_light_range(49, false), 4);
}

#[test]
fn test_arti_light_radius() {
    assert_eq!(arti_light_radius(true, true, true, false), 3);
    assert_eq!(arti_light_radius(true, true, false, false), 2);
    assert_eq!(arti_light_radius(true, true, false, true), 1);
    assert_eq!(arti_light_radius(false, true, true, false), 0);
    assert_eq!(arti_light_radius(true, false, true, false), 0);
}

#[test]
fn test_arti_light_description() {
    assert_eq!(arti_light_description(3), "brilliantly");
    assert_eq!(arti_light_description(2), "brightly");
    assert_eq!(arti_light_description(1), "dimly");
    assert_eq!(arti_light_description(0), "strangely");
}

#[test]
fn test_obj_is_burning() {
    assert!(obj_is_burning(true, true, false, false));
    assert!(obj_is_burning(true, false, true, false));
    assert!(obj_is_burning(true, false, false, true));
    assert!(!obj_is_burning(false, true, true, true));
    assert!(!obj_is_burning(true, false, false, false));
}
