#![allow(unused_imports)]
use aihack::altar_ext::{AltarAlignment, BucStatus, OfferingResult, altar_identify_buc, make_offering};
use aihack::rng::NetHackRng;
#[test]
fn test_offering_accepted() {
    let mut rng = NetHackRng::new(42);
    let result = make_offering(
        AltarAlignment::Lawful,
        AltarAlignment::Lawful,
        100,
        false,
        &mut rng,
    );
    assert_eq!(result, OfferingResult::Accepted);
}

#[test]
fn test_offering_angered() {
    let mut rng = NetHackRng::new(42);
    let result = make_offering(
        AltarAlignment::Chaotic,
        AltarAlignment::Lawful,
        100,
        false,
        &mut rng,
    );
    assert_eq!(result, OfferingResult::Angered);
}

#[test]
fn test_offering_corpse() {
    let mut rng = NetHackRng::new(42);
    let result = make_offering(
        AltarAlignment::Neutral,
        AltarAlignment::Neutral,
        0,
        true,
        &mut rng,
    );
    assert!(matches!(result, OfferingResult::CorpseAccepted(_)));
}

#[test]
fn test_buc_identify_same_align() {
    assert_eq!(
        altar_identify_buc(
            BucStatus::Blessed,
            AltarAlignment::Lawful,
            AltarAlignment::Lawful
        ),
        BucStatus::Blessed
    );
}

#[test]
fn test_buc_identify_wrong_align() {
    assert_eq!(
        altar_identify_buc(
            BucStatus::Blessed,
            AltarAlignment::Chaotic,
            AltarAlignment::Lawful
        ),
        BucStatus::Unknown
    );
}
