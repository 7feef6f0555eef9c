#![allow(unused_imports)]
use aihack::engrave_ext::{surface_from_lowercase, hardness_from_lowercase, engrave_tool_from_lowercase};
use aihack::engrave_ext::{CanReachFloorInput, CeilingType, EngraveRejectReason, MakeGraveResult, ReadEngrResult, SurfaceType, WipeEngrResult, blind_engraving, can_engrave_with_gem, can_reach_floor_result, ceiling_name, check_engrave_tool, freehand_result, gem_hardness, make_grave_result, random_headstone_message, read_engr_result, rloc_engr_coords, sanitize_engraving, sengr_at_result, surface_from_tile, surface_name, wipe_engr_result, wipeout_text};
use aihack::rng::NetHackRng;
use aihack::tile::EngraveType;
#[test]
fn test_wipeout_text_basic() {
    let mut rng = NetHackRng::new(42);
    let result = wipeout_text("ELBERETH", 2, 0, &mut rng);
    // 2개 문자가 변경되었으므로 원본과 다를 것
    assert_ne!(result, "ELBERETH");
    // 길이는 같거나 짧아야 함 (후행 공백 제거로 짧아질 수 있음)
    assert!(result.len() <= "ELBERETH".len());
}

#[test]
fn test_wipeout_text_empty() {
    let mut rng = NetHackRng::new(42);
    assert_eq!(wipeout_text("", 5, 0, &mut rng), "");
}

#[test]
fn test_wipeout_text_seeded() {
    let mut rng = NetHackRng::new(42);
    let r1 = wipeout_text("ABCDE", 1, 12345, &mut rng);
    let mut rng2 = NetHackRng::new(42);
    let r2 = wipeout_text("ABCDE", 1, 12345, &mut rng2);
    // 같은 시드면 같은 결과
    assert_eq!(r1, r2);
}

#[test]
fn test_surface_name() {
    assert_eq!(surface_name(SurfaceType::Floor), "floor");
    assert_eq!(surface_name(SurfaceType::Lava), "lava");
    assert_eq!(surface_name(SurfaceType::Altar), "altar");
}

#[test]
fn test_surface_from_tile() {
    assert_eq!(surface_from_tile("room", false), SurfaceType::Floor);
    assert_eq!(surface_from_tile("lava", false), SurfaceType::Lava);
    assert_eq!(surface_from_tile("pool", true), SurfaceType::WaterBottom);
}

#[test]
fn test_sengr_at_strict() {
    assert!(sengr_at_result("Elbereth", Some("Elbereth"), None, true));
    assert!(!sengr_at_result(
        "Elbereth",
        Some("Elbereth is here"),
        None,
        true
    ));
}

#[test]
fn test_sengr_at_loose() {
    assert!(sengr_at_result(
        "Elbereth",
        Some("Elbereth is here"),
        None,
        false
    ));
    assert!(!sengr_at_result("Elbereth", Some("Hello"), None, false));
}

#[test]
fn test_wipe_engr_dust() {
    let mut rng = NetHackRng::new(42);
    let r = wipe_engr_result("Hello World", EngraveType::Dust, 3, false, false, &mut rng);
    assert!(r.was_eroded);
}

#[test]
fn test_read_engr() {
    let r = read_engr_result("Elbereth", EngraveType::Dust, false, false, "floor");
    assert!(r.is_some());
    let r = r.unwrap();
    assert!(r.text.contains("Elbereth"));
}

#[test]
fn test_read_engr_blind_dust() {
    // 눈 먼 상태에서 먼지 위 새기기는 읽을 수 없음
    let r = read_engr_result("test", EngraveType::Dust, true, false, "floor");
    assert!(r.is_none());
}

#[test]
fn test_read_engr_blind_scratched() {
    // 눈 먼 상태에서도 긁힌 새기기는 촉각으로 읽기 가능
    let r = read_engr_result("test", EngraveType::Scratched, true, false, "floor");
    assert!(r.is_some());
    let r = r.unwrap();
    assert!(r.text.contains("feel the words"));
}

#[test]
fn test_can_reach_floor() {
    let input = CanReachFloorInput {
        is_swallowed: false,
        is_riding: false,
        riding_skill_basic_plus: false,
        is_levitating: false,
        is_air_level: false,
        is_water_level: false,
        is_flying: false,
        is_in_pit: false,
        check_pit: false,
        is_hidden_hider: false,
        is_trapper: false,
    };
    assert!(can_reach_floor_result(&input));
}

#[test]
fn test_can_reach_floor_swallowed() {
    let input = CanReachFloorInput {
        is_swallowed: true,
        is_riding: false,
        riding_skill_basic_plus: false,
        is_levitating: false,
        is_air_level: false,
        is_water_level: false,
        is_flying: false,
        is_in_pit: false,
        check_pit: false,
        is_hidden_hider: false,
        is_trapper: false,
    };
    assert!(!can_reach_floor_result(&input));
}

#[test]
fn test_can_reach_floor_riding_unskilled() {
    let input = CanReachFloorInput {
        is_swallowed: false,
        is_riding: true,
        riding_skill_basic_plus: false,
        is_levitating: false,
        is_air_level: false,
        is_water_level: false,
        is_flying: false,
        is_in_pit: false,
        check_pit: false,
        is_hidden_hider: false,
        is_trapper: false,
    };
    assert!(!can_reach_floor_result(&input));
}

#[test]
fn test_freehand() {
    // 무기 없음 = 빈 손
    assert!(freehand_result(false, false, false, false, false));
    // 용접 안 된 무기 = 빈 손
    assert!(freehand_result(true, false, false, false, false));
    // 용접된 양손무기 = 빈 손 없음
    assert!(!freehand_result(true, true, true, false, false));
    // 용접된 한손무기 + 저주 방패 = 빈 손 없음
    assert!(!freehand_result(true, true, false, true, true));
    // 용접된 한손무기 + 저주 안 된 방패 = 빈 손
    assert!(freehand_result(true, true, false, true, false));
}

#[test]
fn test_make_grave() {
    let mut rng = NetHackRng::new(42);
    let r = make_grave_result(true, false, false, Some("RIP"), &mut rng);
    assert!(r.created);
    assert_eq!(r.epitaph, "RIP");
}

#[test]
fn test_make_grave_with_trap() {
    let mut rng = NetHackRng::new(42);
    let r = make_grave_result(true, false, true, None, &mut rng);
    assert!(!r.created);
}

#[test]
fn test_sanitize() {
    assert_eq!(sanitize_engraving("Hello\x07World"), "HelloWorld");
    assert_eq!(sanitize_engraving("Normal text"), "Normal text");
}

#[test]
fn test_blind_engraving() {
    let mut rng = NetHackRng::new(42);
    let text = blind_engraving(&mut rng);
    assert!(!text.is_empty());
    // 디코딩된 텍스트는 ASCII여야 함
    assert!(text.chars().all(|c| c.is_ascii()));
}

#[test]
fn test_gem_hardness() {
    assert_eq!(gem_hardness("diamond"), 10);
    assert_eq!(gem_hardness("ruby"), 9);
    assert_eq!(gem_hardness("moonstone"), 6);
    assert!(can_engrave_with_gem("diamond"));
    assert!(!can_engrave_with_gem("moonstone"));
}

#[test]
fn test_check_engrave_tool() {
    assert!(matches!(
        check_engrave_tool("weapon", false, false),
        Ok(EngraveType::Scratched)
    ));
    assert!(matches!(
        check_engrave_tool("food", false, false),
        Err(EngraveRejectReason::TooSilly)
    ));
    assert!(matches!(
        check_engrave_tool("ball", false, false),
        Err(EngraveRejectReason::TooLarge)
    ));
    assert!(matches!(
        check_engrave_tool("armor", true, false),
        Ok(EngraveType::Dust)
    ));
}

#[test]
fn test_ceiling_name() {
    assert_eq!(ceiling_name(CeilingType::Sky), "sky");
    assert_eq!(ceiling_name(CeilingType::Ceiling), "ceiling");
    assert_eq!(ceiling_name(CeilingType::VaultCeiling), "vault's ceiling");
}

#[test]
fn wipeout_with_live_seed_leaves_the_stream_alone() {
    let mut a = NetHackRng::new(42);
    let mut b = NetHackRng::new(7);
    let ra = wipeout_text("ELBERETH", 3, 12345, &mut a);
    let rb = wipeout_text("ELBERETH", 3, 12345, &mut b);
    assert_eq!(ra, rb);
    let mut fresh = NetHackRng::new(42);
    assert_eq!(a.rn2(1000), fresh.rn2(1000));
}

#[test]
fn sanitizing_twice_is_sanitizing_once() {
    for t in ["Hello\x07World", "a\nb\x1bc\u{85}d", "", "\x00\x01\n"] {
        let once = sanitize_engraving(t);
        assert_eq!(sanitize_engraving(&once), once);
    }
}

#[test]
fn rules_on_lowercase_names() {
    assert_eq!(surface_from_lowercase("moat", true), SurfaceType::WaterBottom);
    assert_eq!(surface_from_lowercase("drawbridge", false), SurfaceType::Bridge);
    assert_eq!(surface_from_lowercase("corridor", false), SurfaceType::Floor);
    assert_eq!(surface_from_lowercase("stone", false), SurfaceType::Ground);
    assert_eq!(hardness_from_lowercase("black opal"), 6);
    assert_eq!(hardness_from_lowercase("diamond"), 10);
    assert_eq!(hardness_from_lowercase("worthless piece of glass"), 5);
    assert_eq!(engrave_tool_from_lowercase("armor", false, false), Err(EngraveRejectReason::TooLarge));
    assert_eq!(engrave_tool_from_lowercase("gem", false, true), Ok(EngraveType::Scratched));
}
