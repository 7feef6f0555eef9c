#![allow(unused_imports)]
use aihack::music_ext::{BUGLE, DRUM_OF_EARTHQUAKE, FIRE_HORN, FROST_HORN, HornResult, ImprovMode, InstrumentEffect, LEATHER_DRUM, LevelType, MAGIC_FLUTE, MAGIC_HARP, TOOLED_HORN, TuneCheckResult, WOODEN_FLUTE, WOODEN_HARP, awaken_range, charm_range, drawbridge_tune_check, drum_deafness_duration, earthquake_pit_chance, earthquake_range, flute_charm_check, generic_lvl_desc, harp_calm_check, horn_direction_result, improvisation_mode, instrument_effect_type, nymph_calm_range, sleep_range, snake_charm_range};
use aihack::rng::NetHackRng;
// ─── instrument_effect_type ────────────────────────────────
#[test]
fn test_magic_flute_special() {
    assert_eq!(
        instrument_effect_type(MAGIC_FLUTE, true),
        InstrumentEffect::PutToSleep
    );
}

#[test]
fn test_magic_flute_no_special() {
    // 마법 플루트 → special 불가면 나무 플루트로 강등
    assert_eq!(
        instrument_effect_type(MAGIC_FLUTE, false),
        InstrumentEffect::CharmSnakes
    );
}

#[test]
fn test_fire_horn() {
    assert_eq!(
        instrument_effect_type(FIRE_HORN, true),
        InstrumentEffect::FireBeam
    );
}

#[test]
fn test_drum_of_earthquake() {
    assert_eq!(
        instrument_effect_type(DRUM_OF_EARTHQUAKE, true),
        InstrumentEffect::Earthquake
    );
}

#[test]
fn test_earthquake_to_leather() {
    assert_eq!(
        instrument_effect_type(DRUM_OF_EARTHQUAKE, false),
        InstrumentEffect::DrumBeat
    );
}

// ─── awaken_range ─────────────────────────────────────────
#[test]
fn test_awaken_horn() {
    assert_eq!(awaken_range(10, InstrumentEffect::Awaken, false), 300);
}

#[test]
fn test_awaken_drum_mundane() {
    assert_eq!(awaken_range(10, InstrumentEffect::DrumBeat, true), 50);
}

#[test]
fn test_awaken_drum_magic() {
    assert_eq!(awaken_range(10, InstrumentEffect::DrumBeat, false), 400);
}

// ─── sleep_range ──────────────────────────────────────────
#[test]
fn test_sleep_range() {
    assert_eq!(sleep_range(12), 60);
}

// ─── charm_range ──────────────────────────────────────────
#[test]
fn test_charm_range_level1() {
    assert_eq!(charm_range(1), 1);
}

#[test]
fn test_charm_range_level10() {
    assert_eq!(charm_range(10), 4); // (10-1)/3+1=4
}

// ─── earthquake_range ─────────────────────────────────────
#[test]
fn test_earthquake_range() {
    let (sx, sy, ex, ey) = earthquake_range(7);
    // force = (7-1)/3+1 = 3, extend = 6
    assert_eq!(sx, -6);
    assert_eq!(sy, -6);
    assert_eq!(ex, 6);
    assert_eq!(ey, 6);
}

#[test]
fn test_earthquake_pit_chance() {
    assert_eq!(earthquake_pit_chance(3), 11); // 14-3=11
    assert_eq!(earthquake_pit_chance(12), 2); // max(14-12, 2)=2
}

// ─── improvisation_mode ───────────────────────────────────
#[test]
fn test_improv_normal() {
    let mut rng = NetHackRng::new(42);
    assert_eq!(
        improvisation_mode(false, false, false, &mut rng),
        ImprovMode::Normal
    );
}

#[test]
fn test_improv_stunned() {
    let mut rng = NetHackRng::new(42);
    // 단일 장애는 항상 정확히 분류
    let result = improvisation_mode(true, false, false, &mut rng);
    // 50% 확률로 Stunned 또는 MixedImpaired (단일이라 항상 Stunned)
    assert!(result == ImprovMode::Stunned || result == ImprovMode::MixedImpaired);
}

// ─── drawbridge_tune_check ────────────────────────────────
#[test]
fn test_tune_perfect() {
    let played = [b'A', b'B', b'C', b'D', b'E'];
    let correct = [b'A', b'B', b'C', b'D', b'E'];
    let result = drawbridge_tune_check(&played, &correct);
    assert!(result.perfect_match);
    assert_eq!(result.gears, 5);
}

#[test]
fn test_tune_partial() {
    let played = [b'A', b'C', b'B', b'D', b'E'];
    let correct = [b'A', b'B', b'C', b'D', b'E'];
    let result = drawbridge_tune_check(&played, &correct);
    assert!(!result.perfect_match);
    assert_eq!(result.gears, 3); // A, D, E
    assert_eq!(result.tumblers, 2); // B, C (스왑)
}

#[test]
fn test_tune_no_match() {
    let played = [b'F', b'G', b'F', b'G', b'F'];
    let correct = [b'A', b'B', b'C', b'D', b'E'];
    let result = drawbridge_tune_check(&played, &correct);
    assert_eq!(result.gears, 0);
    assert_eq!(result.tumblers, 0);
}

// ─── generic_lvl_desc ─────────────────────────────────────
#[test]
fn test_lvl_desc() {
    assert_eq!(generic_lvl_desc(LevelType::Astral), "astral plane");
    assert_eq!(generic_lvl_desc(LevelType::Normal), "dungeon");
    assert_eq!(generic_lvl_desc(LevelType::VladsTower), "tower");
}

// ─── drum_deafness_duration ───────────────────────────────
#[test]
fn test_deafness_range() {
    let mut rng = NetHackRng::new(42);
    let dur = drum_deafness_duration(&mut rng);
    assert!(dur >= 30 && dur <= 49);
}

// ─── horn_direction_result ────────────────────────────────
#[test]
fn test_horn_no_direction() {
    let mut rng = NetHackRng::new(42);
    assert_eq!(
        horn_direction_result(true, false, 0, 0, 0, &mut rng),
        HornResult::NoDirection
    );
}

#[test]
fn test_horn_self_target() {
    let mut rng = NetHackRng::new(42);
    assert_eq!(
        horn_direction_result(true, true, 0, 0, 0, &mut rng),
        HornResult::SelfTarget
    );
}

#[test]
fn test_horn_beam() {
    let mut rng = NetHackRng::new(42);
    match horn_direction_result(false, true, 1, 0, 0, &mut rng) {
        HornResult::Beam {
            beam_type,
            intensity,
        } => {
            assert_eq!(beam_type, 0); // 화염
            assert!(intensity >= 6 && intensity <= 11);
        }
        _ => panic!("기대값: Beam"),
    }
}

// ─── flute_check ──────────────────────────────────────────
#[test]
fn test_flute_high_dex() {
    let mut rng = NetHackRng::new(42);
    // DEX=30, level=10: rn2(30) + 10 은 대부분 >25
    // 단, rn2 결과에 따라 달라질 수 있음
    let result = flute_charm_check(30, 10, &mut rng);
    // rn2(30)는 0~29, +10 → 10~39 중 25 초과는 대부분
    let _ = result; // 결과는 확률적
}

#[test]
fn test_flute_low_dex() {
    let mut rng = NetHackRng::new(42);
    // DEX=5, level=5: rn2(5)+5 = [5,9] → 모두 <=25
    assert!(!flute_charm_check(5, 5, &mut rng));
}

// ─── harp_check ───────────────────────────────────────────
#[test]
fn test_harp_low_level() {
    let mut rng = NetHackRng::new(42);
    assert!(!harp_calm_check(5, 3, &mut rng));
}
