#![allow(unused_imports)]
use aihack::hazard_phase104_ext::{HazardResult, HazardType, detect_hazard, disarm_hazard, hazard_type_name, trigger_hazard};
use aihack::rng::NetHackRng;
fn test_rng() -> NetHackRng {
    NetHackRng::new(42)
}

#[test]
fn test_pit_levitate() {
    let mut rng = test_rng();
    let r = trigger_hazard(HazardType::Pit, 14, 10, true, &mut rng);
    assert!(r.avoided);
    assert_eq!(r.damage, 0);
}

#[test]
fn test_fire_trap() {
    let mut rng = test_rng();
    let r = trigger_hazard(HazardType::FireTrap, 14, 10, false, &mut rng);
    assert!(r.damage > 0);
    assert!(r.status_effect.is_some());
}

#[test]
fn test_teleporter() {
    let mut rng = test_rng();
    let r = trigger_hazard(HazardType::Teleporter, 14, 10, false, &mut rng);
    assert!(r.status_effect.unwrap().contains("텔레포트"));
}

#[test]
fn test_landmine() {
    let mut rng = test_rng();
    let r = trigger_hazard(HazardType::LandMine, 14, 10, false, &mut rng);
    assert!(r.damage >= 10);
}

#[test]
fn test_landmine_levitate() {
    let mut rng = test_rng();
    let r = trigger_hazard(HazardType::LandMine, 14, 10, true, &mut rng);
    assert!(r.avoided);
}

#[test]
fn hazard_phase104_ext_test_disarm_success() {
    let mut rng = NetHackRng::new(1);
    let (ok, _) = disarm_hazard(18, 15, 5, &mut rng);
    // 높은 민첩+레벨, 낮은 난이도
    assert!(ok);
}

#[test]
fn test_detect() {
    let mut rng = NetHackRng::new(1);
    let detected = detect_hazard(18, 3, &mut rng);
    assert!(detected);
}
