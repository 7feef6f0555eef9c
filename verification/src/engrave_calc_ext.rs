//! Engravings over time: how long each kind lasts, when Elbereth scares,
//! and how long writing takes.
use vstd::prelude::*;

verus! {

/// How an engraving was made.
#[derive(Debug, Clone, Copy, PartialEq, Eq, Structural)]
pub enum EngraveType {
    Dust,
    Engrave,
    Burn,
    BloodWrite,
    Headstone,
}

/// The number of turns an engraving of each kind lasts.
pub open spec fn durability_of(etype: EngraveType) -> int {
    match etype {
        EngraveType::Dust => 20,
        EngraveType::Engrave => 200,
        EngraveType::Burn => 500,
        EngraveType::BloodWrite => 10,
        EngraveType::Headstone => i32::MAX as int,
    }
}

/// The number of turns an engraving of kind `etype` lasts: dust 20, an
/// engraving 200, a burn 500, blood 10, a headstone for ever (`i32::MAX`).
pub fn engrave_durability(etype: EngraveType) -> (r: i32)
    ensures
        r == durability_of(etype),
{
    match etype {
        EngraveType::Dust => 20,
        EngraveType::Engrave => 200,
        EngraveType::Burn => 500,
        EngraveType::BloodWrite => 10,
        EngraveType::Headstone => i32::MAX,
    }
}

/// Elbereth protects one standing on it while the engraving is younger than
/// its durability.
pub fn elbereth_effective(engrave_type: EngraveType, age_turns: i32, player_standing_on: bool) -> (r: bool)
    ensures
        r == (player_standing_on && age_turns < durability_of(engrave_type)),
{
    if !player_standing_on {
        return false;
    }
    let durability = engrave_durability(engrave_type);
    age_turns < durability
}

/// A monster fears Elbereth unless it is unique, blind, or of level 20 or
/// more.
pub fn monster_fears_elbereth(monster_level: i32, is_unique: bool, is_blind: bool) -> (r: bool)
    ensures
        r == (!is_unique && !is_blind && monster_level < 20),
{
    if is_unique {
        return false;
    }
    if is_blind {
        return false;
    }
    monster_level < 20
}

/// Turns needed per character for each kind of engraving.
pub open spec fn turns_per_char(etype: EngraveType) -> int {
    match etype {
        EngraveType::Dust => 1,
        EngraveType::Engrave => 2,
        EngraveType::Burn => 1,
        EngraveType::BloodWrite => 1,
        EngraveType::Headstone => 0,
    }
}

/// Turns needed to write `text_len` characters: the length times the turns
/// per character of the kind, at least 1.
pub fn engrave_turns(text_len: usize, etype: EngraveType) -> (r: i32)
    requires
        i32::MIN <= (text_len as i32) * turns_per_char(etype) <= i32::MAX,
    ensures
        r == (if (text_len as i32) * turns_per_char(etype) >= 1 {
            (text_len as i32) * turns_per_char(etype)
        } else {
            1
        }),
{
    let per_char: i32 = match etype {
        EngraveType::Dust => 1,
        EngraveType::Engrave => 2,
        EngraveType::Burn => 1,
        EngraveType::BloodWrite => 1,
        EngraveType::Headstone => 0,
    };
    let len = text_len as i32;
    assert(len * per_char == (text_len as i32) * turns_per_char(etype));
    let t = len * per_char;
    if t >= 1 { t } else { 1 }
}

} // verus!
