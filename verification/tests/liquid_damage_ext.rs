#![allow(unused_imports)]
use aihack::liquid_damage_ext::{EnvDamageResult, EnvironmentType, ItemMaterial, LavaDamageResult, WaterDamageResult, env_destroy_item, lava_damage_result, water_damage_result};
use aihack::rng::NetHackRng;
fn test_rng() -> NetHackRng {
    NetHackRng::new(42)
}

// --- lava_damage_result ---

#[test]
fn test_lava_artifact_survives() {
    let mut rng = test_rng();
    let result = lava_damage_result(ItemMaterial::Wood, false, true, 0, &mut rng);
    assert!(matches!(result, LavaDamageResult::Survived { .. }));
}

#[test]
fn test_lava_fireproof_survives() {
    let mut rng = test_rng();
    let result = lava_damage_result(ItemMaterial::Paper, true, false, 0, &mut rng);
    assert!(matches!(result, LavaDamageResult::Survived { .. }));
}

#[test]
fn test_lava_stone_survives() {
    let mut rng = test_rng();
    let result = lava_damage_result(ItemMaterial::Stone, false, false, 0, &mut rng);
    assert!(matches!(result, LavaDamageResult::Survived { .. }));
}

#[test]
fn test_lava_paper_destroyed() {
    let mut rng = test_rng();
    let result = lava_damage_result(ItemMaterial::Paper, false, false, 0, &mut rng);
    assert!(matches!(result, LavaDamageResult::Destroyed { .. }));
}

#[test]
fn test_lava_glass_destroyed() {
    let mut rng = test_rng();
    let result = lava_damage_result(ItemMaterial::Glass, false, false, 0, &mut rng);
    assert!(matches!(result, LavaDamageResult::Destroyed { .. }));
}

#[test]
fn test_lava_metal_high_ench_survives() {
    let mut rng = test_rng();
    let result = lava_damage_result(ItemMaterial::Metal, false, false, 5, &mut rng);
    // 인챈트 >= 3 이면 손상만 (파괴 안 됨)
    assert!(matches!(result, LavaDamageResult::Damaged { .. }));
}

// --- water_damage_result ---

#[test]
fn test_water_artifact_survives() {
    let mut rng = test_rng();
    let result = water_damage_result(ItemMaterial::Paper, false, true, false, &mut rng);
    assert!(matches!(result, WaterDamageResult::Survived { .. }));
}

#[test]
fn test_water_metal_survives() {
    let mut rng = test_rng();
    let result = water_damage_result(ItemMaterial::Metal, false, false, false, &mut rng);
    assert!(matches!(result, WaterDamageResult::Survived { .. }));
}

#[test]
fn test_water_potion_diluted() {
    let mut rng = test_rng();
    let result = water_damage_result(ItemMaterial::Liquid, false, false, false, &mut rng);
    assert!(matches!(result, WaterDamageResult::Diluted { .. }));
}

#[test]
fn test_water_diluted_potion_destroyed() {
    let mut rng = test_rng();
    let result = water_damage_result(ItemMaterial::Liquid, false, false, true, &mut rng);
    assert!(matches!(result, WaterDamageResult::Destroyed { .. }));
}

// --- env_destroy_item ---

#[test]
fn test_env_acid_metal() {
    let mut rng = test_rng();
    let result = env_destroy_item(
        EnvironmentType::Acid,
        ItemMaterial::Metal,
        false,
        false,
        0,
        false,
        &mut rng,
    );
    // 산성 + 금속 → 파괴 또는 손상
    assert!(
        matches!(result, EnvDamageResult::Destroyed { .. })
            || matches!(result, EnvDamageResult::Damaged { .. })
    );
}

#[test]
fn test_env_acid_stone_survives() {
    let mut rng = test_rng();
    let result = env_destroy_item(
        EnvironmentType::Acid,
        ItemMaterial::Stone,
        false,
        false,
        0,
        false,
        &mut rng,
    );
    assert!(matches!(result, EnvDamageResult::Survived { .. }));
}

#[test]
fn test_env_lava_via_unified() {
    let mut rng = test_rng();
    let result = env_destroy_item(
        EnvironmentType::Lava,
        ItemMaterial::Paper,
        false,
        false,
        0,
        false,
        &mut rng,
    );
    assert!(matches!(result, EnvDamageResult::Destroyed { .. }));
}

#[test]
fn test_env_water_potion_dilute() {
    let mut rng = test_rng();
    let result = env_destroy_item(
        EnvironmentType::Water,
        ItemMaterial::Liquid,
        false,
        false,
        0,
        false,
        &mut rng,
    );
    assert!(matches!(result, EnvDamageResult::Diluted { .. }));
}
