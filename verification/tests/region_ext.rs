#![allow(unused_imports)]
use aihack::region_ext::{BoundingBox, GasCloudEffect, GasExpire, MONST_INC, Rect, RegionDanger, compute_bounding_box, gas_cloud_hero_effect, gas_cloud_initial_ttl, gas_cloud_monster_effect, gas_cloud_rects, gas_expire, inside_rect, inside_region, region_danger_check, region_ttl_adjust};
use aihack::rng::NetHackRng;
fn test_rng() -> NetHackRng {
    NetHackRng::new(42)
}

// --- inside_rect ---
#[test]
fn test_inside_rect_center() {
    let r = Rect {
        lx: 5,
        ly: 5,
        hx: 10,
        hy: 10,
    };
    assert!(inside_rect(&r, 7, 7));
}

#[test]
fn test_inside_rect_edge() {
    let r = Rect {
        lx: 5,
        ly: 5,
        hx: 10,
        hy: 10,
    };
    assert!(inside_rect(&r, 5, 5));
    assert!(inside_rect(&r, 10, 10));
}

#[test]
fn test_outside_rect() {
    let r = Rect {
        lx: 5,
        ly: 5,
        hx: 10,
        hy: 10,
    };
    assert!(!inside_rect(&r, 4, 7));
    assert!(!inside_rect(&r, 11, 7));
}

// --- inside_region ---
#[test]
fn test_inside_region_multi_rect() {
    let rects = vec![
        Rect {
            lx: 0,
            ly: 0,
            hx: 5,
            hy: 5,
        },
        Rect {
            lx: 10,
            ly: 10,
            hx: 15,
            hy: 15,
        },
    ];
    let bb = Rect {
        lx: 0,
        ly: 0,
        hx: 15,
        hy: 15,
    };
    assert!(inside_region(&bb, &rects, 3, 3));
    assert!(inside_region(&bb, &rects, 12, 12));
    assert!(!inside_region(&bb, &rects, 7, 7)); // 사이 공간
}

#[test]
fn test_inside_region_outside_bb() {
    let rects = vec![Rect {
        lx: 5,
        ly: 5,
        hx: 10,
        hy: 10,
    }];
    let bb = Rect {
        lx: 5,
        ly: 5,
        hx: 10,
        hy: 10,
    };
    assert!(!inside_region(&bb, &rects, 2, 2));
}

// --- compute_bounding_box ---
#[test]
fn test_bounding_box() {
    let rects = vec![
        Rect {
            lx: 3,
            ly: 4,
            hx: 8,
            hy: 9,
        },
        Rect {
            lx: 1,
            ly: 6,
            hx: 10,
            hy: 7,
        },
    ];
    let bb = compute_bounding_box(&rects);
    assert_eq!(bb.lx, 1);
    assert_eq!(bb.ly, 4);
    assert_eq!(bb.hx, 10);
    assert_eq!(bb.hy, 9);
}

#[test]
fn test_bounding_box_empty() {
    let bb = compute_bounding_box(&[]);
    assert_eq!(bb.lx, 80);
    assert_eq!(bb.hy, 0);
}

// --- gas_cloud_rects ---
#[test]
fn test_gas_cloud_shape() {
    let rects = gas_cloud_rects(10, 10, 3);
    assert_eq!(rects.len(), 3);
    // 첫 번째: 중앙 열, 상하 2칸
    assert_eq!(
        rects[0],
        Rect {
            lx: 10,
            ly: 8,
            hx: 10,
            hy: 12
        }
    );
    // 두 번째: 좌우 1칸 확장, 상하 축소
    assert_eq!(
        rects[1],
        Rect {
            lx: 9,
            ly: 9,
            hx: 11,
            hy: 11
        }
    );
    // 세 번째: 좌우 2칸 확장, 중앙 1줄
    assert_eq!(
        rects[2],
        Rect {
            lx: 8,
            ly: 10,
            hx: 12,
            hy: 10
        }
    );
}

// --- gas_cloud_hero_effect ---
#[test]
fn test_gas_hero_immune() {
    let mut rng = test_rng();
    let e = gas_cloud_hero_effect(10, false, true, false, false, false, &mut rng);
    assert_eq!(e, GasCloudEffect::Immune);
}

#[test]
fn test_gas_hero_resist() {
    let mut rng = test_rng();
    let e = gas_cloud_hero_effect(10, false, false, false, false, true, &mut rng);
    assert_eq!(e, GasCloudEffect::PoisonResist);
}

#[test]
fn test_gas_hero_damaged() {
    let mut rng = test_rng();
    for _ in 0..50 {
        match gas_cloud_hero_effect(10, false, false, false, false, false, &mut rng) {
            GasCloudEffect::Damaged(d) => {
                assert!(d >= 6 && d <= 15, "데미지: {}", d);
            }
            _ => panic!("데미지 예상"),
        }
    }
}

// --- gas_cloud_monster_effect ---
#[test]
fn test_gas_monster_immune_breathless() {
    let mut rng = test_rng();
    let e = gas_cloud_monster_effect(10, false, false, true, false, false, false, &mut rng);
    assert_eq!(e, GasCloudEffect::Immune);
}

#[test]
fn test_gas_monster_damaged() {
    let mut rng = test_rng();
    match gas_cloud_monster_effect(8, false, false, false, false, false, false, &mut rng) {
        GasCloudEffect::Damaged(d) => {
            assert!(d >= 6 && d <= 13, "몬스터 데미지: {}", d);
        }
        _ => panic!("데미지 예상"),
    }
}

// --- gas_expire ---
#[test]
fn test_gas_expire_weaken() {
    match gas_expire(10) {
        GasExpire::Weaken {
            new_damage,
            new_ttl,
        } => {
            assert_eq!(new_damage, 5);
            assert_eq!(new_ttl, 2);
        }
        _ => panic!("약화 예상"),
    }
}

#[test]
fn test_gas_expire_gone() {
    assert_eq!(gas_expire(4), GasExpire::Gone);
}

// --- region_danger_check ---
#[test]
fn test_danger_in_cloud() {
    assert!(region_danger_check(true, false, false, false));
}

#[test]
fn test_danger_resist() {
    assert!(!region_danger_check(true, false, false, true));
}

#[test]
fn test_danger_not_in_cloud() {
    assert!(!region_danger_check(false, false, false, false));
}

// --- gas_cloud_initial_ttl ---
#[test]
fn test_gas_ttl_range() {
    let mut rng = test_rng();
    for _ in 0..100 {
        let ttl = gas_cloud_initial_ttl(&mut rng);
        assert!(ttl >= 4 && ttl <= 6, "TTL: {}", ttl);
    }
}

// --- region_ttl_adjust ---
#[test]
fn test_ttl_adjust_permanent() {
    assert_eq!(region_ttl_adjust(-1, 100), -1);
}

#[test]
fn test_ttl_adjust_remaining() {
    assert_eq!(region_ttl_adjust(50, 30), 20);
}

#[test]
fn test_ttl_adjust_expired() {
    assert_eq!(region_ttl_adjust(10, 20), 0);
}

#[test]
fn test_ttl_adjust_exact() {
    assert_eq!(region_ttl_adjust(10, 10), 0);
}
