#![allow(unused_imports)]
use aihack::sit::{AltarSitEffect, AttrCurseResult, IntrinsicAbility, LayEggResult, RndCurseResult, SitResult, SitStatistics, Sitter, TakeGoldResult, ThroneEffect, altar_sit_effect, attrcurse_result, lay_egg_result, rndcurse_result, sit_result_message, take_gold_result, throne_effect, throne_effect_message, throne_gold_amount, throne_vanishes, try_sit};
use aihack::rng::NetHackRng;
#[test]
fn test_throne_effect_variety() {
    let mut rng = NetHackRng::new(42);
    let mut effects = std::collections::HashSet::new();
    for _ in 0..200 {
        let e = throne_effect(&mut rng);
        effects.insert(format!("{:?}", e));
    }
    assert!(effects.len() >= 8);
}

#[test]
fn test_throne_message() {
    assert!(throne_effect_message(&ThroneEffect::Wish).contains("wish"));
}

#[test]
fn test_throne_gold() {
    let mut rng = NetHackRng::new(42);
    let g1 = throne_gold_amount(-5, &mut rng);
    let mut rng2 = NetHackRng::new(42);
    let g2 = throne_gold_amount(10, &mut rng2);
    assert!(g2 > g1);
}

#[test]
fn test_sit_result_message() {
    let m = sit_result_message(&SitResult::Lava);
    assert!(m.contains("lava"));
}

#[test]
fn test_altar_sit_same_alignment() {
    let mut rng = NetHackRng::new(42);
    //
    let mut bonus = 0;
    for _ in 0..30 {
        let e = altar_sit_effect(1, 1, &mut rng);
        if e == AltarSitEffect::AlignmentBonus {
            bonus += 1;
        }
    }
    assert!(bonus > 0);
}

#[test]
fn test_sit_stats() {
    let mut stats = SitStatistics::new();
    stats.record_sit(&SitResult::Throne(ThroneEffect::Wish));
    stats.record_sit(&SitResult::Floor);
    assert_eq!(stats.total_sits, 2);
    assert_eq!(stats.throne_sits, 1);
    assert_eq!(stats.wishes_from_throne, 1);
    assert_eq!(stats.floor_sits, 1);
}

#[test]
fn test_take_gold() {
    assert_eq!(take_gold_result(true), TakeGoldResult::MoneyLost);
    assert_eq!(take_gold_result(false), TakeGoldResult::NoMoney);
}

#[test]
fn test_rndcurse_magicbane() {
    let mut rng = NetHackRng::new(42);
    // Magicbane은 95% 확률로 흡수
    let mut absorbed = 0;
    for seed in 0..100u64 {
        let mut r = NetHackRng::new(seed);
        let result = rndcurse_result(true, false, false, 5, &[false; 5], &[false; 5], false, false, &mut r);
        if result.magicbane_absorbed { absorbed += 1; }
    }
    assert!(absorbed > 80); // ~95%
}

#[test]
fn test_rndcurse_normal() {
    let mut rng = NetHackRng::new(42);
    let result = rndcurse_result(false, false, false, 5, &[false; 5], &[false; 5], false, false, &mut rng);
    assert!(!result.magicbane_absorbed);
    // 저주 대상이 있을 수 있음
}

#[test]
fn test_rndcurse_saddle() {
    // 탈것 안장 저주 확률 테스트
    let mut saddle_cursed = 0;
    for seed in 0..100u64 {
        let mut r = NetHackRng::new(seed);
        let result = rndcurse_result(false, false, false, 0, &[], &[], true, false, &mut r);
        if result.saddle_cursed { saddle_cursed += 1; }
    }
    // 25% 기대값
    assert!(saddle_cursed > 10 && saddle_cursed < 45);
}

#[test]
fn test_attrcurse_with_fire_res() {
    let mut flags = [false; 11];
    flags[0] = true; // 화염 저항
    let mut rng = NetHackRng::new(42);
    // 반복 시도하면 결국 화염 저항이 제거됨
    let mut found = false;
    for seed in 0..20u64 {
        let mut r = NetHackRng::new(seed);
        let result = attrcurse_result(&flags, &mut r);
        if result.removed_ability == Some(IntrinsicAbility::FireResistance) {
            found = true;
            assert_eq!(result.message, "You feel warmer.");
            break;
        }
    }
    assert!(found);
}

#[test]
fn test_attrcurse_no_intrinsics() {
    let flags = [false; 11];
    let mut rng = NetHackRng::new(42);
    let result = attrcurse_result(&flags, &mut rng);
    assert!(result.removed_ability.is_none());
}

#[test]
fn test_attrcurse_multiple() {
    let mut flags = [true; 11]; // 모든 능력 보유
    let mut rng = NetHackRng::new(42);
    let result = attrcurse_result(&flags, &mut rng);
    assert!(result.removed_ability.is_some());
}

#[test]
fn test_throne_vanishes() {
    let mut vanished = 0;
    for seed in 0..100u64 {
        let mut r = NetHackRng::new(seed);
        if throne_vanishes(&mut r) { vanished += 1; }
    }
    assert!(vanished > 20 && vanished < 50); // ~33%
}

#[test]
fn test_lay_egg_male() {
    assert_eq!(lay_egg_result(true, false, 100, 80, false, false), LayEggResult::MaleCantLay);
}

#[test]
fn test_lay_egg_hungry() {
    assert_eq!(lay_egg_result(true, true, 50, 80, false, false), LayEggResult::TooHungry);
}

#[test]
fn test_lay_egg_success() {
    let r = lay_egg_result(true, true, 100, 80, false, false);
    assert_eq!(r, LayEggResult::Success { nutrition_cost: 80 });
}

#[test]
fn test_lay_egg_water() {
    assert_eq!(lay_egg_result(true, true, 100, 80, true, false), LayEggResult::NeedWater);
    let r = lay_egg_result(true, true, 100, 80, true, true);
    assert_eq!(r, LayEggResult::Success { nutrition_cost: 80 });
}
