#![allow(unused_imports)]
use aihack::timeout_phase91_ext::{ItemTimerResult, ItemTimerType, PeriodicEvent, StatusTimer, StatusType, TimerTickResult, check_periodic_events, tick_item_timer, tick_status_timer};
use aihack::rng::NetHackRng;
fn test_rng() -> NetHackRng {
    NetHackRng::new(42)
}

// --- status timer ---

#[test]
fn test_confusion_expires() {
    let mut rng = test_rng();
    let timer = StatusTimer {
        status: StatusType::Confusion,
        turns_remaining: 1,
        source: "포션".to_string(),
        severity: 1,
    };
    let result = tick_status_timer(&timer, &mut rng);
    assert!(matches!(result, TimerTickResult::Expired { .. }));
}

#[test]
fn test_petrification_fatal() {
    let mut rng = test_rng();
    let timer = StatusTimer {
        status: StatusType::Petrifying,
        turns_remaining: 1,
        source: "코카트리스".to_string(),
        severity: 4,
    };
    let result = tick_status_timer(&timer, &mut rng);
    assert!(matches!(result, TimerTickResult::Fatal { .. }));
}

#[test]
fn test_petrification_warning() {
    let mut rng = test_rng();
    let timer = StatusTimer {
        status: StatusType::Petrifying,
        turns_remaining: 3,
        source: "코카트리스".to_string(),
        severity: 3,
    };
    let result = tick_status_timer(&timer, &mut rng);
    assert!(matches!(result, TimerTickResult::Worsened { .. }));
}

#[test]
fn test_continuing() {
    let mut rng = test_rng();
    let timer = StatusTimer {
        status: StatusType::Blind,
        turns_remaining: 10,
        source: "포션".to_string(),
        severity: 1,
    };
    let result = tick_status_timer(&timer, &mut rng);
    assert!(matches!(
        result,
        TimerTickResult::Continuing { turns_left: 9 }
    ));
}

// --- item timer ---

#[test]
fn test_corpse_rot() {
    let mut rng = test_rng();
    let result = tick_item_timer(ItemTimerType::CorpseRot, 1, &mut rng);
    assert!(matches!(result, ItemTimerResult::Rotted));
}

#[test]
fn test_egg_hatch() {
    let mut rng = test_rng();
    let result = tick_item_timer(ItemTimerType::EggHatch, 1, &mut rng);
    assert!(matches!(result, ItemTimerResult::Hatched { .. }));
}

#[test]
fn test_bomb_explode() {
    let mut rng = test_rng();
    let result = tick_item_timer(ItemTimerType::BombFuse, 1, &mut rng);
    assert!(matches!(result, ItemTimerResult::Exploded { .. }));
}

// --- periodic events ---

#[test]
fn test_periodic_every_turn() {
    let mut rng = test_rng();
    let events = check_periodic_events(1, 10, 1, &mut rng);
    assert!(events
        .iter()
        .any(|e| matches!(e, PeriodicEvent::HungerTick { .. })));
}

#[test]
fn test_periodic_regen() {
    let mut rng = test_rng();
    let events = check_periodic_events(10, 10, 1, &mut rng);
    assert!(events
        .iter()
        .any(|e| matches!(e, PeriodicEvent::PlayerRegen { .. })));
}

#[test]
fn test_periodic_trap_reset() {
    let mut rng = test_rng();
    let events = check_periodic_events(50, 10, 1, &mut rng);
    assert!(events.iter().any(|e| matches!(e, PeriodicEvent::TrapReset)));
}
