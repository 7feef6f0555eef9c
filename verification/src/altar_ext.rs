//! Altars: what an offering earns and what an altar reveals of an item's
//! blessed/uncursed/cursed status.
use vstd::prelude::*;
use crate::rng::{NetHackRng, rng_roll, rng_next};

verus! {

/// The alignment of an altar or of the one who uses it.
#[derive(Debug, Clone, Copy, PartialEq, Eq, Structural)]
pub enum AltarAlignment {
    Lawful,
    Neutral,
    Chaotic,
    Unaligned,
}

/// How a god takes an offering.
#[derive(Debug, Clone, PartialEq, Eq)]
pub enum OfferingResult {
    /// The god is pleased.
    Accepted,
    /// The god is greatly pleased.
    GreatlyAccepted,
    /// Nothing happens.
    Ignored,
    /// The altar belongs to another god.
    Angered,
    /// A corpse was taken.
    CorpseAccepted(String),
}

/// The message given when a corpse is accepted.
pub open spec fn corpse_accepted_text() -> Seq<char> {
    "신이 시체를 받아들였다."@
}

/// Judges an offering of an item worth `item_value` (a corpse when `is_corpse`).
///
/// An aligned altar of another god is angered. Otherwise a corpse is taken;
/// an item worth 400 or more is greatly accepted one time in ten (one draw);
/// an item worth 50 or more is accepted; anything else is ignored.
pub fn make_offering(
    altar_align: AltarAlignment,
    player_align: AltarAlignment,
    item_value: i32,
    is_corpse: bool,
    rng: &mut NetHackRng,
) -> (r: OfferingResult)
    ensures
        altar_align != AltarAlignment::Unaligned && altar_align != player_align
            ==> r == OfferingResult::Angered && final(rng)@ == old(rng)@,
        !(altar_align != AltarAlignment::Unaligned && altar_align != player_align) ==> {
            if is_corpse {
                &&& r matches OfferingResult::CorpseAccepted(s) && s@ == corpse_accepted_text()
                &&& final(rng)@ == old(rng)@
            } else if item_value >= 400 {
                &&& final(rng)@ == rng_next(old(rng)@)
                &&& r == (if rng_roll(old(rng)@, 10) == 0 {
                    OfferingResult::GreatlyAccepted
                } else {
                    OfferingResult::Accepted
                })
            } else {
                &&& final(rng)@ == old(rng)@
                &&& r == (if item_value >= 50 { OfferingResult::Accepted } else { OfferingResult::Ignored })
            }
        },
{
    if altar_align != AltarAlignment::Unaligned && altar_align != player_align {
        return OfferingResult::Angered;
    }
    if is_corpse {
        return OfferingResult::CorpseAccepted("신이 시체를 받아들였다.".to_string());
    }
    if item_value >= 400 && rng.rn2(10) == 0 {
        return OfferingResult::GreatlyAccepted;
    }
    if item_value >= 50 {
        return OfferingResult::Accepted;
    }
    OfferingResult::Ignored
}

/// Blessed/uncursed/cursed status of an item.
#[derive(Debug, Clone, Copy, PartialEq, Eq, Structural)]
pub enum BucStatus {
    Blessed,
    Uncursed,
    Cursed,
    Unknown,
}

/// What an altar shows of an item's status: the true status on an altar of
/// one's own alignment or an unaligned one, nothing otherwise.
pub fn altar_identify_buc(
    item_buc: BucStatus,
    altar_align: AltarAlignment,
    player_align: AltarAlignment,
) -> (r: BucStatus)
    ensures
        r == (if altar_align == player_align || altar_align == AltarAlignment::Unaligned {
            item_buc
        } else {
            BucStatus::Unknown
        }),
{
    if altar_align == player_align || altar_align == AltarAlignment::Unaligned {
        item_buc
    } else {
        BucStatus::Unknown
    }
}

} // verus!
