#![allow(unused_imports)]
use aihack::environ_phase101_ext::{TerrainFeature, TerrainInteraction, environmental_damage, interact_fountain, interact_grave, interact_throne};
use aihack::rng::NetHackRng;
fn test_rng() -> NetHackRng {
    NetHackRng::new(42)
}

#[test]
fn test_fountain_drink() {
    let mut rng = test_rng();
    let result = interact_fountain("마시기", &mut rng);
    assert_eq!(result.feature, TerrainFeature::Fountain);
    assert!(!result.outcome.is_empty());
}

#[test]
fn test_fountain_wash() {
    let mut rng = test_rng();
    let result = interact_fountain("손 씻기", &mut rng);
    assert!(result.outcome.len() > 0);
}

#[test]
fn test_throne() {
    let mut rng = test_rng();
    let result = interact_throne(&mut rng);
    assert_eq!(result.feature, TerrainFeature::Throne);
}

#[test]
fn test_grave() {
    let mut rng = test_rng();
    let result = interact_grave(&mut rng);
    assert!(result.feature_destroyed);
}

#[test]
fn test_lava_deadly() {
    let (dmg, _) = environmental_damage(TerrainFeature::Lava, false, false);
    assert_eq!(dmg, 100);
}

#[test]
fn test_lava_resist() {
    let (dmg, _) = environmental_damage(TerrainFeature::Lava, true, false);
    assert!(dmg < 100);
}

#[test]
fn test_lava_levitate() {
    let (dmg, _) = environmental_damage(TerrainFeature::Lava, false, true);
    assert_eq!(dmg, 0);
}

#[test]
fn test_ice_slip() {
    let (dmg, msg) = environmental_damage(TerrainFeature::Ice, false, false);
    assert!(dmg > 0);
    assert!(msg.contains("미끄러"));
}
