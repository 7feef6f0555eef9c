//! The starting adventurer.
use vstd::prelude::*;
use crate::domain::combat::{AttackProfile, DamageRoll};

verus! {

/// The starting numbers of the player.
#[derive(Debug, Clone, Copy, PartialEq, Eq)]
pub struct PlayerTemplate {
    pub hp: i16,
    pub ac: i16,
    pub hit_bonus: i16,
    pub damage_bonus: i16,
    pub attack_profile: AttackProfile,
}

/// The adventurer: 16 hit points, AC 0, +2 to hit, no damage bonus, armed
/// with a dagger.
pub fn adventurer_template() -> (t: PlayerTemplate)
    ensures
        t.hp == 16,
        t.ac == 0,
        t.hit_bonus == 2,
        t.damage_bonus == 0,
        t.attack_profile.name@ == "dagger"@,
        t.attack_profile.hit_bonus == 1,
        t.attack_profile.damage == (DamageRoll { dice: 1, sides: 4 }),
{
    PlayerTemplate { hp: 16, ac: 0, hit_bonus: 2, damage_bonus: 0, attack_profile: AttackProfile::dagger() }
}

} // verus!
