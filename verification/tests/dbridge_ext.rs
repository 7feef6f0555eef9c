#![allow(unused_imports)]
use aihack::dbridge_ext::{DB_EAST, DB_ICE, DB_LAVA, DB_MOAT, DB_NORTH, DB_SOUTH, DB_UNDER, DB_WEST, DbDodgeResult, DbJumpResult, DbUnderType, DebrisResult, GasCloudExpireResult, WallOffset, bridge_misses_chunks, db_under_type, destroy_db_debris, e_jumps_calc, e_missed_calc, gas_cloud_damage, gas_cloud_dissipate, gas_cloud_ttl, is_horizontal, wall_for_db};
use aihack::rng::NetHackRng;
fn test_rng() -> NetHackRng {
    NetHackRng::new(42)
}

// --- db_under_type ---
#[test]
fn test_db_under_ice() {
    assert_eq!(db_under_type(DB_ICE), DbUnderType::Ice);
}

#[test]
fn test_db_under_lava() {
    assert_eq!(db_under_type(DB_LAVA), DbUnderType::Lava);
}

#[test]
fn test_db_under_moat() {
    assert_eq!(db_under_type(DB_MOAT), DbUnderType::Moat);
}

#[test]
fn test_db_under_stone() {
    assert_eq!(db_under_type(0), DbUnderType::Stone);
}

// --- wall_for_db ---
#[test]
fn test_wall_north() {
    let off = wall_for_db(DB_NORTH);
    assert_eq!(off.dx, 0);
    assert_eq!(off.dy, -1);
}

#[test]
fn test_wall_east() {
    let off = wall_for_db(DB_EAST);
    assert_eq!(off.dx, 1);
    assert_eq!(off.dy, 0);
}

// --- e_missed_calc ---
#[test]
fn test_automiss_noncorporeal() {
    let mut rng = test_rng();
    let result = e_missed_calc(
        false, true, false, false, false, false, false, false, false, &mut rng,
    );
    assert_eq!(result, DbDodgeResult::AutoMiss);
}

#[test]
fn test_automiss_passes_walls() {
    let mut rng = test_rng();
    let result = e_missed_calc(
        true, false, false, false, false, false, false, false, false, &mut rng,
    );
    assert_eq!(result, DbDodgeResult::AutoMiss);
}

#[test]
fn test_missed_flyer_probability() {
    let mut rng = test_rng();
    let mut dodged = 0;
    for _ in 0..200 {
        if e_missed_calc(
            false, false, true, true, false, false, false, false, false, &mut rng,
        ) == DbDodgeResult::Dodged
        {
            dodged += 1;
        }
    }
    // 5/8 = 62.5%
    assert!(dodged > 90 && dodged < 170, "비행 회피: {}", dodged);
}

#[test]
fn test_missed_portcullis_penalty() {
    let mut rng = test_rng();
    let mut dodged_open = 0;
    let mut dodged_port = 0;
    for _ in 0..200 {
        if e_missed_calc(
            false, false, true, true, false, false, false, false, false, &mut rng,
        ) == DbDodgeResult::Dodged
        {
            dodged_open += 1;
        }
        if e_missed_calc(
            false, false, true, true, false, false, false, true, false, &mut rng,
        ) == DbDodgeResult::Dodged
        {
            dodged_port += 1;
        }
    }
    // 성문 앞이면 더 적게 회피
    assert!(
        dodged_open > dodged_port,
        "성문<개방: {}>{}",
        dodged_port,
        dodged_open
    );
}

// --- e_jumps_calc ---
#[test]
fn test_jump_cannot() {
    let mut rng = test_rng();
    assert_eq!(
        e_jumps_calc(false, false, false, false, &mut rng),
        DbJumpResult::CannotJump
    );
}

#[test]
fn test_jump_probability() {
    let mut rng = test_rng();
    let mut jumped = 0;
    for _ in 0..200 {
        if e_jumps_calc(true, false, false, false, &mut rng) == DbJumpResult::Jumped {
            jumped += 1;
        }
    }
    // 4/10 = 40%
    assert!(jumped > 50 && jumped < 120, "점프: {}", jumped);
}

#[test]
fn test_jump_confused_stunned() {
    let mut rng = test_rng();
    let mut jumped = 0;
    for _ in 0..500 {
        if e_jumps_calc(true, true, true, false, &mut rng) == DbJumpResult::Jumped {
            jumped += 1;
        }
    }
    // (4-2-3)=-1 → 거의 0%
    assert!(jumped == 0, "혼란+기절 점프: {}", jumped);
}

// --- destroy_db_debris ---
#[test]
fn test_debris_range() {
    let mut rng = test_rng();
    for _ in 0..100 {
        let d = destroy_db_debris(&mut rng);
        assert!(
            d.chain_count >= 0 && d.chain_count < 6,
            "잔해: {}",
            d.chain_count
        );
    }
}

// --- is_horizontal ---
#[test]
fn test_horizontal() {
    assert!(is_horizontal(DB_NORTH));
    assert!(is_horizontal(DB_SOUTH));
    assert!(!is_horizontal(DB_EAST));
    assert!(!is_horizontal(DB_WEST));
}

// --- gas_cloud ---
#[test]
fn test_gas_ttl() {
    let mut rng = test_rng();
    for _ in 0..100 {
        let ttl = gas_cloud_ttl(&mut rng);
        assert!(ttl >= 4 && ttl <= 6, "TTL: {}", ttl);
    }
}

#[test]
fn test_gas_dissipate() {
    assert!(matches!(
        gas_cloud_dissipate(10),
        GasCloudExpireResult::Dissipate { new_damage: 5 }
    ));
    assert!(matches!(
        gas_cloud_dissipate(5),
        GasCloudExpireResult::Dissipate { new_damage: 2 }
    ));
    assert_eq!(gas_cloud_dissipate(4), GasCloudExpireResult::Expired);
}

#[test]
fn test_gas_damage() {
    let mut rng = test_rng();
    for _ in 0..100 {
        let dmg = gas_cloud_damage(10, &mut rng);
        assert!(dmg >= 6 && dmg <= 15, "가스 데미지: {}", dmg);
    }
}
