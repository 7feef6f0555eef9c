#![allow(unused_imports)]
use aihack::region_phase94_ext::{GameMessage, MessageLog, MessageType, Region, RegionEffect, RegionTickResult, RegionType, apply_region_effect, create_message, region_tick};
use aihack::rng::NetHackRng;
fn test_rng() -> NetHackRng {
    NetHackRng::new(42)
}

fn test_region() -> Region {
    Region {
        region_type: RegionType::PoisonGas,
        x: 10,
        y: 10,
        radius: 3,
        turns_remaining: 10,
        source: "함정".to_string(),
    }
}

#[test]
fn test_poison_gas_damage() {
    let mut rng = test_rng();
    let region = test_region();
    let result = apply_region_effect(&region, 11, 10, &|_| false, &mut rng);
    assert!(matches!(result, RegionEffect::Damage { .. }));
}

#[test]
fn test_poison_resistant() {
    let mut rng = test_rng();
    let region = test_region();
    let result = apply_region_effect(&region, 11, 10, &|r| r == "독", &mut rng);
    assert!(matches!(result, RegionEffect::NoEffect));
}

#[test]
fn test_out_of_range() {
    let mut rng = test_rng();
    let region = test_region();
    let result = apply_region_effect(&region, 50, 50, &|_| false, &mut rng);
    assert!(matches!(result, RegionEffect::NoEffect));
}

#[test]
fn test_fire_damage() {
    let mut rng = test_rng();
    let mut region = test_region();
    region.region_type = RegionType::Fire;
    let result = apply_region_effect(&region, 10, 10, &|_| false, &mut rng);
    assert!(matches!(result, RegionEffect::Damage { .. }));
}

#[test]
fn test_anti_magic() {
    let mut rng = test_rng();
    let mut region = test_region();
    region.region_type = RegionType::AntiMagic;
    let result = apply_region_effect(&region, 10, 10, &|_| false, &mut rng);
    assert!(matches!(result, RegionEffect::SpellBlock));
}

#[test]
fn test_region_tick_active() {
    let region = test_region();
    let result = region_tick(&region);
    assert!(matches!(result, RegionTickResult::Active { .. }));
}

#[test]
fn test_region_tick_expired() {
    let mut region = test_region();
    region.turns_remaining = 1;
    let result = region_tick(&region);
    assert!(matches!(result, RegionTickResult::Expired));
}

#[test]
fn test_message_log() {
    let mut log = MessageLog::new(100);
    log.add(create_message(MessageType::Normal, "테스트 1", 1));
    log.add(create_message(MessageType::Danger, "위험!", 2));
    assert_eq!(log.messages.len(), 2);
    assert_eq!(log.recent(1).len(), 1);
}

#[test]
fn test_message_filter() {
    let mut log = MessageLog::new(100);
    log.add(create_message(MessageType::Normal, "일반", 1));
    log.add(create_message(MessageType::Danger, "위험1", 2));
    log.add(create_message(MessageType::Danger, "위험2", 3));
    let dangers = log.filter_by_type(MessageType::Danger);
    assert_eq!(dangers.len(), 2);
}

#[test]
fn test_message_priority() {
    let danger = create_message(MessageType::Danger, "위험", 1);
    let normal = create_message(MessageType::Normal, "일반", 1);
    assert!(danger.priority > normal.priority);
}
