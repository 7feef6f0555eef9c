#![allow(unused_imports)]
use aihack::trap_ext::{BurnArmorSlot, ErodeResult, ErodeType, MAX_ERODE, MagicTrapEffect, PolyTrapResult, RustTrapSlot, SteedTrapResult, TrapEscapeResult, TrapType, arrow_trap_damage, arrow_trap_empty, arrow_trap_hit, bear_trap_damage, bear_trap_duration, burnarmor_slot, dart_poison_chance, dart_trap_damage, erode_check, fall_through_depth, fire_trap_damage, grease_wearoff, landmine_creates_pit, landmine_damage, level_tele_destination, magic_trap_effect, pit_damage, pit_escape_turns, poly_trap_result, random_squeaky_note, rock_trap_damage, rolling_boulder_damage, rolling_boulder_dodge, rust_trap_slot, sleep_gas_duration, squeaky_board_note, steed_trap_check, trap_escape_check, untrap_prob, web_escape_check};
use aihack::rng::NetHackRng;
fn test_rng() -> NetHackRng {
    NetHackRng::new(42)
}

// --- erode_check ---
#[test]
fn test_erode_greased() {
    let mut rng = test_rng();
    let result = erode_check(
        ErodeType::Rust,
        true,
        true,
        true,
        false,
        false,
        0,
        false,
        0,
        &mut rng,
    );
    assert_eq!(result, ErodeResult::Greased);
}

#[test]
fn test_erode_not_vulnerable() {
    let mut rng = test_rng();
    let result = erode_check(
        ErodeType::Rust,
        false,
        false,
        false,
        false,
        false,
        0,
        false,
        0,
        &mut rng,
    );
    assert_eq!(result, ErodeResult::Nothing);
}

#[test]
fn test_erode_erodeproof() {
    let mut rng = test_rng();
    let result = erode_check(
        ErodeType::Rust,
        false,
        false,
        true,
        true,
        false,
        0,
        false,
        0,
        &mut rng,
    );
    assert_eq!(result, ErodeResult::Nothing);
}

#[test]
fn test_erode_damaged() {
    let mut rng = test_rng();
    let result = erode_check(
        ErodeType::Rust,
        false,
        false,
        true,
        false,
        false,
        0,
        false,
        0,
        &mut rng,
    );
    assert_eq!(result, ErodeResult::Damaged);
}

#[test]
fn test_erode_max_destroy() {
    let mut rng = test_rng();
    let result = erode_check(
        ErodeType::Burn,
        false,
        false,
        true,
        false,
        false,
        MAX_ERODE,
        true,
        0,
        &mut rng,
    );
    assert_eq!(result, ErodeResult::Destroyed);
}

// --- grease_wearoff ---
#[test]
fn test_grease_50_50() {
    let mut rng = test_rng();
    let mut worn = 0;
    for _ in 0..200 {
        if grease_wearoff(&mut rng) {
            worn += 1;
        }
    }
    assert!(worn > 60 && worn < 140, "그리스 벗겨짐: {}", worn);
}

// --- burnarmor_slot ---
#[test]
fn test_burnarmor_all_slots() {
    let mut rng = test_rng();
    let mut slots = std::collections::HashSet::new();
    for _ in 0..500 {
        slots.insert(format!("{:?}", burnarmor_slot(&mut rng)));
    }
    assert_eq!(slots.len(), 5, "5가지 슬롯 모두 발생");
}

// --- trap_escape_check ---
#[test]
fn test_escape_levitating() {
    let mut rng = test_rng();
    let result = trap_escape_check(true, false, false, false, true, false, false, &mut rng);
    assert_eq!(result, TrapEscapeResult::FloatOver);
}

#[test]
fn test_escape_sokoban() {
    let mut rng = test_rng();
    let result = trap_escape_check(false, false, false, false, true, false, true, &mut rng);
    assert_eq!(result, TrapEscapeResult::Triggered);
}

// --- bear_trap ---
#[test]
fn test_bear_trap_duration() {
    let mut rng = test_rng();
    for _ in 0..100 {
        let dur = bear_trap_duration(&mut rng);
        assert!(dur >= 4 && dur < 8, "곰 턴: {}", dur);
    }
}

#[test]
fn test_bear_trap_dmg() {
    let mut rng = test_rng();
    for _ in 0..100 {
        let dmg = bear_trap_damage(&mut rng);
        assert!(dmg >= 2 && dmg <= 8, "곰 데미지: {}", dmg);
    }
}

// --- pit_damage ---
#[test]
fn test_pit_spiked() {
    let mut rng = test_rng();
    let mut spiked_total = 0;
    let mut normal_total = 0;
    for _ in 0..100 {
        spiked_total += pit_damage(true, &mut rng);
        normal_total += pit_damage(false, &mut rng);
    }
    // 가시 구덩이가 평균적으로 더 높은 데미지
    assert!(spiked_total > normal_total, "가시 > 일반");
}

// --- dart_poison ---
#[test]
fn test_dart_poison() {
    let mut rng = test_rng();
    let mut poisoned = 0;
    for _ in 0..600 {
        if dart_poison_chance(&mut rng) {
            poisoned += 1;
        }
    }
    // ~16.7% 확률
    assert!(poisoned > 60 && poisoned < 140, "독 다트: {}", poisoned);
}

// --- sleep_gas ---
#[test]
fn test_sleep_gas() {
    let mut rng = test_rng();
    for _ in 0..100 {
        let dur = sleep_gas_duration(&mut rng);
        assert!(dur >= 1 && dur <= 25, "수면 턴: {}", dur);
    }
}

// --- rock_trap ---
#[test]
fn test_rock_helmet() {
    let mut rng = test_rng();
    assert_eq!(rock_trap_damage(true, &mut rng), 2);
}

#[test]
fn test_rock_no_helmet() {
    let mut rng = test_rng();
    let dmg = rock_trap_damage(false, &mut rng);
    assert!(dmg >= 2 && dmg <= 12, "바위 데미지: {}", dmg);
}

// --- fall_through_depth ---
#[test]
fn test_fall_depth() {
    let mut rng = test_rng();
    for _ in 0..100 {
        let depth = fall_through_depth(5, 25, &mut rng);
        assert!(depth >= 6 && depth <= 25, "낙하: {}", depth);
    }
}

#[test]
fn test_fall_at_bottom() {
    let mut rng = test_rng();
    let depth = fall_through_depth(24, 25, &mut rng);
    assert_eq!(depth, 25);
}

// --- arrow_trap_empty ---
#[test]
fn test_arrow_not_fired() {
    let mut rng = test_rng();
    assert!(!arrow_trap_empty(false, &mut rng));
}

#[test]
fn test_arrow_fired_rare_empty() {
    let mut rng = test_rng();
    let mut empties = 0;
    for _ in 0..1500 {
        if arrow_trap_empty(true, &mut rng) {
            empties += 1;
        }
    }
    // ~6.7% 확률
    assert!(empties > 50 && empties < 170, "빈 함정: {}", empties);
}

// --- rust_trap_slot ---
#[test]
fn test_rust_slots() {
    let mut rng = test_rng();
    let mut body_count = 0;
    for _ in 0..500 {
        if rust_trap_slot(&mut rng) == RustTrapSlot::Body {
            body_count += 1;
        }
    }
    // Body = 2/5 = 40%
    assert!(body_count > 140 && body_count < 260, "몸: {}", body_count);
}

// ============================================================
// [v2.19.0] 추가 함수 테스트
// ============================================================

// --- magic_trap_effect ---
#[test]
fn test_magic_trap_various() {
    let mut rng = test_rng();
    let mut effects = std::collections::HashSet::new();
    for _ in 0..500 {
        effects.insert(format!("{:?}", magic_trap_effect(&mut rng)));
    }
    // 다양한 효과 발생 확인
    assert!(effects.len() >= 5, "최소 5가지 효과: {:?}", effects);
}

// --- fire_trap_damage ---
#[test]
fn test_fire_trap_resist() {
    let mut rng = test_rng();
    assert_eq!(fire_trap_damage(true, &mut rng), 0);
}

#[test]
fn test_fire_trap_no_resist() {
    let mut rng = test_rng();
    let dmg = fire_trap_damage(false, &mut rng);
    assert!(dmg >= 2 && dmg <= 8, "화염 데미지: {}", dmg);
}

// --- web_escape_check ---
#[test]
fn test_web_spider_escapes() {
    let mut rng = test_rng();
    assert!(web_escape_check(
        false, false, false, true, false, 10, &mut rng
    ));
}

#[test]
fn test_web_amorphous_escapes() {
    let mut rng = test_rng();
    assert!(web_escape_check(
        true, false, false, false, false, 10, &mut rng
    ));
}

#[test]
fn test_web_edged_weapon_escapes() {
    let mut rng = test_rng();
    assert!(web_escape_check(
        false, false, false, false, true, 10, &mut rng
    ));
}

// --- landmine ---
#[test]
fn test_landmine_full_damage() {
    let mut rng = test_rng();
    let dmg = landmine_damage(false, false, &mut rng);
    assert!(dmg >= 1 && dmg <= 16, "지뢰: {}", dmg);
}

#[test]
fn test_landmine_flying_reduced() {
    let mut rng = test_rng();
    let mut flying_total = 0;
    let mut ground_total = 0;
    for _ in 0..200 {
        flying_total += landmine_damage(false, true, &mut rng);
        ground_total += landmine_damage(false, false, &mut rng);
    }
    assert!(flying_total < ground_total, "비행 < 지상");
}

#[test]
fn test_landmine_pit_creation() {
    assert!(landmine_creates_pit(false, false));
    assert!(!landmine_creates_pit(true, false));
    assert!(!landmine_creates_pit(false, true));
}

// --- rolling_boulder ---
#[test]
fn test_boulder_damage() {
    let mut rng = test_rng();
    for _ in 0..100 {
        let dmg = rolling_boulder_damage(&mut rng);
        assert!(dmg >= 2 && dmg <= 20, "바위: {}", dmg);
    }
}

#[test]
fn test_boulder_dodge_rare() {
    let mut rng = test_rng();
    let mut dodges = 0;
    for _ in 0..1000 {
        if rolling_boulder_dodge(&mut rng) {
            dodges += 1;
        }
    }
    // ~10% 확률
    assert!(dodges > 50 && dodges < 150, "회피: {}", dodges);
}

// --- untrap_prob ---
#[test]
fn test_untrap_rogue_bonus() {
    let prob_norm = untrap_prob(15, 10, false, TrapType::Arrow);
    let prob_rogue = untrap_prob(15, 10, true, TrapType::Arrow);
    assert!(prob_rogue > prob_norm, "도적 보너스");
}

#[test]
fn test_untrap_min_max() {
    let prob_low = untrap_prob(3, 1, false, TrapType::Landmine);
    assert!(prob_low >= 5);
    let prob_high = untrap_prob(25, 30, true, TrapType::SqueakyBoard);
    assert!(prob_high <= 95);
}

// --- arrow_trap_hit ---
#[test]
fn test_arrow_hit_low_ac() {
    let mut rng = test_rng();
    let mut hits = 0;
    for _ in 0..200 {
        if arrow_trap_hit(-5, &mut rng) {
            hits += 1;
        }
    }
    // AC -5는 매우 좋은 방어, 거의 모든 화살이 명중
    assert!(hits > 150, "AC-5 명중: {}", hits);
}

#[test]
fn test_arrow_damage_range() {
    let mut rng = test_rng();
    for _ in 0..100 {
        let dmg = arrow_trap_damage(&mut rng);
        assert!(dmg >= 1 && dmg <= 6, "화살 데미지: {}", dmg);
    }
}

#[test]
fn test_dart_damage_range() {
    let mut rng = test_rng();
    for _ in 0..100 {
        let dmg = dart_trap_damage(&mut rng);
        assert!(dmg >= 1 && dmg <= 3, "다트 데미지: {}", dmg);
    }
}

// --- poly_trap ---
#[test]
fn test_poly_trap_resist() {
    let mut rng = test_rng();
    assert_eq!(
        poly_trap_result(true, false, &mut rng),
        PolyTrapResult::Resisted
    );
    assert_eq!(
        poly_trap_result(false, true, &mut rng),
        PolyTrapResult::Resisted
    );
}

#[test]
fn test_poly_trap_mostly_polymorph() {
    let mut rng = test_rng();
    let mut poly_count = 0;
    let mut shock_count = 0;
    for _ in 0..500 {
        match poly_trap_result(false, false, &mut rng) {
            PolyTrapResult::Polymorph => poly_count += 1,
            PolyTrapResult::SystemShock => shock_count += 1,
            _ => {}
        }
    }
    assert!(poly_count > shock_count * 10, "변이 >> 쇼크");
}

// --- level_tele ---
#[test]
fn test_level_tele_control() {
    let mut rng = test_rng();
    assert_eq!(level_tele_destination(5, 25, true, &mut rng), 5);
}

#[test]
fn test_level_tele_random() {
    let mut rng = test_rng();
    let dest = level_tele_destination(5, 25, false, &mut rng);
    assert!(dest >= 1 && dest <= 25, "목적지: {}", dest);
}

// --- steed_trap ---
#[test]
fn test_steed_flying_passes_pit() {
    let mut rng = test_rng();
    assert_eq!(
        steed_trap_check(TrapType::Pit, true, false, &mut rng),
        SteedTrapResult::Passed
    );
}

#[test]
fn test_steed_bear_trap() {
    let mut rng = test_rng();
    assert_eq!(
        steed_trap_check(TrapType::BearTrap, false, false, &mut rng),
        SteedTrapResult::SteedTrapped
    );
}

#[test]
fn test_steed_web() {
    let mut rng = test_rng();
    assert_eq!(
        steed_trap_check(TrapType::Web, false, false, &mut rng),
        SteedTrapResult::SteedTrapped
    );
}

// --- squeaky_board ---
#[test]
fn test_squeaky_notes() {
    assert_eq!(squeaky_board_note(0), "C");
    assert_eq!(squeaky_board_note(4), "E");
    assert_eq!(squeaky_board_note(11), "B");
    assert_eq!(squeaky_board_note(12), "C"); // 순환
}

#[test]
fn test_random_squeaky() {
    let mut rng = test_rng();
    let note = random_squeaky_note(&mut rng);
    assert!(!note.is_empty());
}
