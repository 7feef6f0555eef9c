#![allow(unused_imports)]
use aihack::fountain::{DipEffect, Drinker, FountainDrink, FountainStatistics, FountainWishResult, WashEffect, dip_effect_message, dip_in_fountain, fountain_dryup_chance, fountain_wish_roll, try_drink_fountain, wash_at_fountain, wash_effect_message};
use aihack::rng::NetHackRng;
#[test]
fn test_fountain_wish_roll() {
    let mut rng = NetHackRng::new(42);
    //
    let mut no_wish = 0;
    for _ in 0..100 {
        if fountain_wish_roll(0, &mut rng) == FountainWishResult::NoWish {
            no_wish += 1;
        }
    }
    assert!(no_wish > 70); // 70% 이상 NoWish여야 함
}

#[test]
fn test_fountain_dryup() {
    let mut rng = NetHackRng::new(42);
    //
    let mut dried = 0;
    for _ in 0..100 {
        if fountain_dryup_chance(20, &mut rng) {
            dried += 1;
        }
    }
    assert!(dried > 30);
}

#[test]
fn test_dip_excalibur() {
    let mut rng = NetHackRng::new(42);
    let mut excal = false;
    for _ in 0..100 {
        let r = dip_in_fountain("long sword", true, true, 10, &mut rng);
        if r == DipEffect::ExcalSuccess {
            excal = true;
            break;
        }
    }
    assert!(excal);
}

#[test]
fn test_dip_effect_message() {
    assert!(dip_effect_message(&DipEffect::ExcalSuccess).contains("Excalibur"));
    assert!(dip_effect_message(&DipEffect::Curse).contains("curse"));
}

#[test]
fn test_wash() {
    let mut rng = NetHackRng::new(42);
    let r = wash_at_fountain(false, false, &mut rng);
    // 결과는 Clean, Nothing, WaterGush 중 하나
    assert!(matches!(
        r,
        WashEffect::Clean | WashEffect::Nothing | WashEffect::WaterGush
    ));
}

#[test]
fn test_fountain_stats() {
    let mut stats = FountainStatistics::new();
    stats.record_drink();
    stats.record_dip();
    stats.record_wish();
    assert_eq!(stats.drinks, 1);
    assert_eq!(stats.dips, 1);
    assert_eq!(stats.wishes_granted, 1);
}
