//! Damage dice and attack profiles.
use vstd::prelude::*;
use crate::ids::EntityId;

verus! {

/// `dice` dice of `sides` sides; no dice or no sides means no damage.
#[derive(Debug, Clone, Copy, PartialEq, Eq, Hash, Structural)]
pub struct DamageRoll {
    pub dice: i16,
    pub sides: i16,
}

impl DamageRoll {
    /// No damage.
    pub fn none() -> (r: Self)
        ensures
            r == (DamageRoll { dice: 0, sides: 0 }),
    {
        DamageRoll { dice: 0, sides: 0 }
    }

    /// `dice` dice of `sides` sides.
    pub fn new(dice: i16, sides: i16) -> (r: Self)
        ensures
            r == (DamageRoll { dice, sides }),
    {
        DamageRoll { dice, sides }
    }
}

/// How an attack is made: its name, its bonus to hit and its damage.
#[derive(Debug, Clone, Copy, PartialEq, Eq, Hash)]
pub struct AttackProfile {
    pub name: &'static str,
    pub hit_bonus: i16,
    pub damage: DamageRoll,
}

impl AttackProfile {
    /// A dagger: +1 to hit, 1d4.
    pub fn dagger() -> (r: Self)
        ensures
            r.name@ == "dagger"@,
            r.hit_bonus == 1,
            r.damage == (DamageRoll { dice: 1, sides: 4 }),
    {
        AttackProfile { name: "dagger", hit_bonus: 1, damage: DamageRoll::new(1, 4) }
    }

    /// A natural attack: the given name and damage, no bonus to hit.
    pub fn natural(name: &'static str, damage: DamageRoll) -> (r: Self)
        ensures
            r.name == name,
            r.hit_bonus == 0,
            r.damage == damage,
    {
        AttackProfile { name, hit_bonus: 0, damage }
    }
}

/// Why the player died.
#[derive(Debug, Clone, Copy, PartialEq, Eq, Hash, Structural)]
pub enum DeathCause {
    Combat { attacker: EntityId },
}

} // verus!
