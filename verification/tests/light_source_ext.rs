#![allow(unused_imports)]
use aihack::light_source_ext::{LightSource, VisionType, can_see_at, light_duration, light_radius};
use aihack::rng::NetHackRng;
#[test]
fn test_radius() {
    assert_eq!(light_radius(LightSource::MagicLamp), 5);
}

#[test]
fn test_duration() {
    assert_eq!(light_duration(LightSource::MagicLamp), None);
    assert_eq!(light_duration(LightSource::OilLamp), Some(1500));
}

#[test]
fn test_normal_see() {
    assert!(can_see_at(5, 5, 7, 7, 4, VisionType::Normal, false));
    assert!(!can_see_at(5, 5, 15, 15, 4, VisionType::Normal, false));
}

#[test]
fn test_infra() {
    assert!(can_see_at(5, 5, 50, 50, 4, VisionType::Infravision, true));
}

#[test]
fn test_blind() {
    assert!(!can_see_at(5, 5, 5, 5, 10, VisionType::Blind, true));
}
