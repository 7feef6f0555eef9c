#![allow(unused_imports)]
use aihack::dig_phase50_ext::{DigCompletionType, DigHoleInput, DigHoleResult, DigTargetTile, DigTurnInput, DigTurnResult, DigUpResult, LiquidType, PickAxeCheckFailure, PickAxeCheckResult, PickAxeDirection, WatchDigResult, ZapFloorResult, dig_actual_hole, dig_threshold, dig_turn, dig_up_result, pick_axe_check, rnl, watch_dig_result, zap_floor_result};
use aihack::rng::NetHackRng;
fn test_rng() -> NetHackRng {
    NetHackRng::new(42)
}

// --- pick_axe_check ---

#[test]
fn test_pick_axe_not_wielding() {
    let result = pick_axe_check(
        false, false, false, false, false, false,
        PickAxeDirection::Down, "floor", true, false,
    );
    assert_eq!(result, PickAxeCheckResult::Failed(PickAxeCheckFailure::NotWielding));
}

#[test]
fn test_pick_axe_cursed() {
    let result = pick_axe_check(
        true, true, false, false, false, false,
        PickAxeDirection::Down, "floor", true, false,
    );
    assert_eq!(result, PickAxeCheckResult::Failed(PickAxeCheckFailure::CursedWeapon));
}

#[test]
fn test_pick_axe_underwater() {
    let result = pick_axe_check(
        true, false, true, false, false, false,
        PickAxeDirection::Horizontal { dx: 1, dy: 0 }, "wall", true, false,
    );
    assert_eq!(result, PickAxeCheckResult::Failed(PickAxeCheckFailure::Underwater));
}

#[test]
fn test_pick_axe_mounted_down() {
    let result = pick_axe_check(
        true, false, false, false, true, false,
        PickAxeDirection::Down, "floor", true, false,
    );
    assert_eq!(result, PickAxeCheckResult::Failed(PickAxeCheckFailure::MountedDigDown));
}

#[test]
fn test_pick_axe_levitating_down() {
    let result = pick_axe_check(
        true, false, false, false, false, true,
        PickAxeDirection::Down, "floor", true, false,
    );
    assert_eq!(result, PickAxeCheckResult::Failed(PickAxeCheckFailure::LevitatingDigDown));
}

#[test]
fn test_pick_axe_ok() {
    let result = pick_axe_check(
        true, false, false, false, false, false,
        PickAxeDirection::Horizontal { dx: 1, dy: 0 }, "wall", true, false,
    );
    assert!(matches!(result, PickAxeCheckResult::Proceed { .. }));
}

#[test]
fn test_pick_axe_nondiggable() {
    let result = pick_axe_check(
        true, false, false, false, false, false,
        PickAxeDirection::Horizontal { dx: 1, dy: 0 }, "wall", true, true,
    );
    assert!(matches!(result, PickAxeCheckResult::Failed(PickAxeCheckFailure::NonDiggable { .. })));
}

// --- dig_turn ---

fn default_dig_input() -> DigTurnInput {
    DigTurnInput {
        current_effort: 0,
        digging_down: false,
        digging_up: false,
        str_bonus: 2,
        weapon_spe: 0,
        weapon_erosion: 0,
        damage_inc: 0,
        is_dwarf: false,
        is_fumbling: false,
        in_bear_trap: false,
        luck: 0,
        target_tile: DigTargetTile::Wall,
        is_boundary_level: false,
    }
}

#[test]
fn test_dig_turn_progress() {
    let mut rng = test_rng();
    let input = default_dig_input();
    let result = dig_turn(&input, &mut rng);
    assert!(matches!(result, DigTurnResult::InProgress { .. }));
}

#[test]
fn test_dig_turn_complete() {
    let mut rng = test_rng();
    let mut input = default_dig_input();
    // 충분한 노력치를 미리 채워서 완료 유도
    input.current_effort = 95;
    input.str_bonus = 5;
    input.weapon_spe = 3;
    let result = dig_turn(&input, &mut rng);
    assert!(matches!(result, DigTurnResult::Completed { .. }));
}

#[test]
fn test_dig_turn_bear_trap() {
    let mut rng = test_rng();
    let mut input = default_dig_input();
    input.in_bear_trap = true;
    input.luck = -5; // 불운 → 자해 확률 증가
    let result = dig_turn(&input, &mut rng);
    // 곰 함정 결과는 자해 또는 파괴 중 하나
    assert!(matches!(
        result,
        DigTurnResult::BearTrapSelfHit { .. } | DigTurnResult::BearTrapBroken { .. }
    ));
}

#[test]
fn test_dig_turn_fumble() {
    let mut rng = NetHackRng::new(0); // 시드 0이면 첫 rn2(3)==0으로 fumble 확률 높음
    let mut input = default_dig_input();
    input.is_fumbling = true;
    input.current_effort = 50;
    // 여러 번 시도하여 fumble이 한 번은 나오는지 확인
    let mut fumbled = false;
    for seed in 0..20 {
        rng = NetHackRng::new(seed);
        let r = dig_turn(&input, &mut rng);
        if matches!(r, DigTurnResult::Fumbled { .. }) {
            fumbled = true;
            break;
        }
    }
    assert!(fumbled, "어질거림 상태에서 20회 시도 중 1회 이상 후퇴해야 함");
}

#[test]
fn test_dig_turn_down_complete() {
    let mut rng = test_rng();
    let mut input = default_dig_input();
    input.digging_down = true;
    input.target_tile = DigTargetTile::Floor;
    input.current_effort = 245;
    input.str_bonus = 5;
    let result = dig_turn(&input, &mut rng);
    match result {
        DigTurnResult::Completed { result_type, .. } => {
            assert_eq!(result_type, DigCompletionType::FloorHole);
        }
        _ => panic!("바닥 파기가 완료되어야 함"),
    }
}

#[test]
fn test_dig_turn_dwarf_bonus() {
    let mut rng = test_rng();
    let mut input = default_dig_input();
    input.is_dwarf = true;
    let result_dwarf = dig_turn(&input, &mut rng);

    rng = test_rng();
    input.is_dwarf = false;
    let result_normal = dig_turn(&input, &mut rng);

    // 난쟁이의 진행이 더 빨라야 함
    if let (DigTurnResult::InProgress { new_effort: e1, .. }, DigTurnResult::InProgress { new_effort: e2, .. })
        = (&result_dwarf, &result_normal)
    {
        assert!(e1 > e2, "난쟁이 보너스가 적용되어야 함");
    }
}

// --- dig_actual_hole ---

#[test]
fn test_hole_at_bottom() {
    let mut rng = test_rng();
    let input = DigHoleInput {
        is_bottom_level: true,
        adjacent_pools: 0,
        adjacent_moats: 0,
        adjacent_lava: 0,
        items_on_floor: 0,
        is_flying: false,
        is_levitating: false,
        depth: 5,
    };
    let result = dig_actual_hole(&input, &mut rng);
    assert!(matches!(result, DigHoleResult::AtBottom { .. }));
}

#[test]
fn test_hole_liquid_fill() {
    let mut rng = test_rng();
    let input = DigHoleInput {
        is_bottom_level: false,
        adjacent_pools: 0,
        adjacent_moats: 0,
        adjacent_lava: 2,
        items_on_floor: 0,
        is_flying: false,
        is_levitating: false,
        depth: 5,
    };
    let result = dig_actual_hole(&input, &mut rng);
    match result {
        DigHoleResult::LiquidFilled { liquid_type, .. } => {
            assert_eq!(liquid_type, LiquidType::Lava);
        }
        _ => panic!("용암 유입이 발생해야 함"),
    }
}

#[test]
fn test_hole_normal_fall() {
    let mut rng = test_rng();
    let input = DigHoleInput {
        is_bottom_level: false,
        adjacent_pools: 0,
        adjacent_moats: 0,
        adjacent_lava: 0,
        items_on_floor: 3,
        is_flying: false,
        is_levitating: false,
        depth: 5,
    };
    let result = dig_actual_hole(&input, &mut rng);
    match result {
        DigHoleResult::HoleCreated { fall_damage, items_buried, .. } => {
            assert!(fall_damage > 0, "떨어짐 피해가 발생해야 함");
            assert_eq!(items_buried, 3, "바닥 아이템이 매몰되어야 함");
        }
        _ => panic!("구멍이 생성되어야 함"),
    }
}

#[test]
fn test_hole_flying_no_fall() {
    let mut rng = test_rng();
    let input = DigHoleInput {
        is_bottom_level: false,
        adjacent_pools: 0,
        adjacent_moats: 0,
        adjacent_lava: 0,
        items_on_floor: 1,
        is_flying: true,
        is_levitating: false,
        depth: 5,
    };
    let result = dig_actual_hole(&input, &mut rng);
    match result {
        DigHoleResult::HoleCreated { fall_damage, .. } => {
            assert_eq!(fall_damage, 0, "비행 중이면 떨어짐 피해 없음");
        }
        _ => panic!("구멍이 생성되어야 함"),
    }
}

// --- dig_up_result ---

#[test]
fn test_dig_up_at_top() {
    let mut rng = test_rng();
    let result = dig_up_result(true, false, 5, &mut rng);
    assert!(matches!(result, DigUpResult::AtTop { .. }));
}

#[test]
fn test_dig_up_special() {
    let mut rng = test_rng();
    let result = dig_up_result(false, true, 5, &mut rng);
    assert!(matches!(result, DigUpResult::SpecialLevel { .. }));
}

#[test]
fn test_dig_up_success() {
    let mut rng = test_rng();
    let result = dig_up_result(false, false, 5, &mut rng);
    match result {
        DigUpResult::Breached { debris_damage, .. } => {
            assert!(debris_damage > 0, "파편 피해가 발생해야 함");
        }
        _ => panic!("천장 돌파 성공이어야 함"),
    }
}

// --- watch_dig_result ---

#[test]
fn test_watch_dig_no_shop() {
    let result = watch_dig_result(false, true, true, 100);
    assert_eq!(result, WatchDigResult::NoShop);
}

#[test]
fn test_watch_dig_no_keeper() {
    let result = watch_dig_result(true, false, true, 100);
    assert_eq!(result, WatchDigResult::NoShopkeeper);
}

#[test]
fn test_watch_dig_wall_debt() {
    let result = watch_dig_result(true, true, true, 200);
    match result {
        WatchDigResult::Debt { amount, .. } => {
            assert_eq!(amount, 200);
        }
        _ => panic!("부채가 부과되어야 함"),
    }
}

#[test]
fn test_watch_dig_floor_half() {
    let result = watch_dig_result(true, true, false, 200);
    match result {
        WatchDigResult::Debt { amount, .. } => {
            assert_eq!(amount, 100, "바닥 채굴은 절반 비용");
        }
        _ => panic!("부채가 부과되어야 함"),
    }
}

#[test]
fn test_watch_dig_min_cost() {
    let result = watch_dig_result(true, true, true, 10);
    match result {
        WatchDigResult::Debt { amount, .. } => {
            assert_eq!(amount, 50, "최소 50골드");
        }
        _ => panic!("부채가 부과되어야 함"),
    }
}

// --- zap_floor_result ---

#[test]
fn test_zap_floor_pool() {
    let result = zap_floor_result(false, true, false, false, false);
    assert!(matches!(result, ZapFloorResult::AbsorbedByLiquid { .. }));
}

#[test]
fn test_zap_floor_lava() {
    let result = zap_floor_result(false, false, true, false, false);
    assert!(matches!(result, ZapFloorResult::AbsorbedByLiquid { .. }));
}

#[test]
fn test_zap_floor_nondiggable() {
    let result = zap_floor_result(true, false, false, false, true);
    assert!(matches!(result, ZapFloorResult::Resisted { .. }));
}

#[test]
fn test_zap_floor_bottom() {
    let result = zap_floor_result(true, false, false, true, false);
    assert!(matches!(result, ZapFloorResult::Resisted { .. }));
}

#[test]
fn test_zap_floor_success() {
    let result = zap_floor_result(true, false, false, false, false);
    assert!(matches!(result, ZapFloorResult::HoleMade { .. }));
}

// --- rnl ---

#[test]
fn test_rnl_positive_luck() {
    let mut rng = test_rng();
    // 행운이 높으면 결과가 더 낮아야 함
    let high_luck = rnl(10, 9, &mut rng);
    let mut rng2 = test_rng();
    let low_luck = rnl(10, -9, &mut rng2);
    // 같은 seed이므로 raw 값은 같지만, luck 보정으로 차이가 남
    assert!(high_luck <= low_luck, "높은 럭은 결과를 낮춰야 함");
}
