//! Hunger, luck and the other running state of the player.
use vstd::prelude::*;

verus! {

/// The player's running state.
#[derive(Debug, Clone, PartialEq, Eq, Structural)]
pub struct Status {
    pub nutrition: i16,
    pub luck: i16,
    pub prayer_cooldown: u16,
    pub paralysis_turns: u8,
    pub hallucinating: bool,
}

/// How hungry the player is.
#[derive(Debug, Clone, Copy, PartialEq, Eq, Structural)]
pub enum HungerState {
    Fainting,
    Weak,
    Hungry,
    Satiated,
    Oversatiated,
}

/// The hunger state for a nutrition level: up to 150 fainting, up to 300
/// weak, up to 500 hungry, up to 2000 satiated, above that oversatiated;
/// a negative level is oversatiated too (it matches none of the ranges).
pub open spec fn hunger_of(n: int) -> HungerState {
    if 0 <= n <= 150 {
        HungerState::Fainting
    } else if 151 <= n <= 300 {
        HungerState::Weak
    } else if 301 <= n <= 500 {
        HungerState::Hungry
    } else if 501 <= n <= 2000 {
        HungerState::Satiated
    } else {
        HungerState::Oversatiated
    }
}

impl Status {
    /// A fresh adventurer: 900 nutrition, no luck, no cooldown, not
    /// paralysed, not hallucinating.
    pub fn default_adventurer() -> (s: Self)
        ensures
            s == (Status { nutrition: 900, luck: 0, prayer_cooldown: 0, paralysis_turns: 0, hallucinating: false }),
    {
        Status { nutrition: 900, luck: 0, prayer_cooldown: 0, paralysis_turns: 0, hallucinating: false }
    }

    /// The hunger state for the current nutrition.
    pub fn hunger_state(&self) -> (r: HungerState)
        ensures
            r == hunger_of(self.nutrition as int),
    {
        if 0 <= self.nutrition && self.nutrition <= 150 {
            HungerState::Fainting
        } else if 151 <= self.nutrition && self.nutrition <= 300 {
            HungerState::Weak
        } else if 301 <= self.nutrition && self.nutrition <= 500 {
            HungerState::Hungry
        } else if 501 <= self.nutrition && self.nutrition <= 2000 {
            HungerState::Satiated
        } else {
            HungerState::Oversatiated
        }
    }
}

/// The rank of a hunger state, from fainting (0) to oversatiated (4).
pub open spec fn hunger_rank(h: HungerState) -> int {
    match h {
        HungerState::Fainting => 0,
        HungerState::Weak => 1,
        HungerState::Hungry => 2,
        HungerState::Satiated => 3,
        HungerState::Oversatiated => 4,
    }
}

/// More nutrition never makes the player hungrier (for levels from 0 on).
pub proof fn hunger_follows_nutrition(a: int, b: int)
    requires
        0 <= a <= b,
    ensures
        hunger_rank(hunger_of(a)) <= hunger_rank(hunger_of(b)),
{
}

} // verus!
