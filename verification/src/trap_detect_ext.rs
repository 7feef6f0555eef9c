//! How dangerous each trap is, how likely it is to be noticed, and whether
//! the hero manages to disarm it.
use vstd::prelude::*;
use crate::num::clamp;
use crate::rng::{NetHackRng, rng_roll, rng_next};

verus! {

/// Kinds of trap.
#[derive(Debug, Clone, Copy, PartialEq, Eq, Structural)]
pub enum TrapType {
    ArrowTrap,
    DartTrap,
    RockTrap,
    SqueakyBoard,
    BearTrap,
    LandMine,
    RollingBoulder,
    SleepingGas,
    RustTrap,
    FireTrap,
    Pit,
    SpikedPit,
    Hole,
    TrapDoor,
    Teleporter,
    LevelTeleporter,
    MagicPortal,
    Web,
    StatueTrap,
    PolyTrap,
    AntiMagicField,
}

/// How dangerous a trap is, from 1 to 7.
pub open spec fn danger_of(trap: TrapType) -> i32 {
    match trap {
        TrapType::SqueakyBoard => 1,
        TrapType::ArrowTrap => 3,
        TrapType::DartTrap => 3,
        TrapType::Web => 2,
        TrapType::RustTrap => 2,
        TrapType::Pit => 4,
        TrapType::BearTrap => 4,
        TrapType::SpikedPit => 5,
        TrapType::RockTrap => 5,
        TrapType::SleepingGas => 6,
        TrapType::FireTrap => 6,
        TrapType::LandMine => 7,
        TrapType::RollingBoulder => 7,
        TrapType::Hole => 5,
        TrapType::TrapDoor => 5,
        TrapType::Teleporter => 3,
        TrapType::LevelTeleporter => 3,
        TrapType::PolyTrap => 6,
        TrapType::StatueTrap => 4,
        TrapType::AntiMagicField => 2,
        TrapType::MagicPortal => 1,
    }
}

/// How dangerous a trap is, from 1 to 7.
pub fn trap_danger(trap: TrapType) -> (r: i32)
    ensures
        r == danger_of(trap),
        1 <= r <= 7,
{
    match trap {
        TrapType::SqueakyBoard => 1,
        TrapType::ArrowTrap => 3,
        TrapType::DartTrap => 3,
        TrapType::Web => 2,
        TrapType::RustTrap => 2,
        TrapType::Pit => 4,
        TrapType::BearTrap => 4,
        TrapType::SpikedPit => 5,
        TrapType::RockTrap => 5,
        TrapType::SleepingGas => 6,
        TrapType::FireTrap => 6,
        TrapType::LandMine => 7,
        TrapType::RollingBoulder => 7,
        TrapType::Hole => 5,
        TrapType::TrapDoor => 5,
        TrapType::Teleporter => 3,
        TrapType::LevelTeleporter => 3,
        TrapType::PolyTrap => 6,
        TrapType::StatueTrap => 4,
        TrapType::AntiMagicField => 2,
        TrapType::MagicPortal => 1,
    }
}

fn clamp_percent(v: i32) -> (r: i32)
    ensures
        r == clamp(v as int, 5, 95),
{
    if v < 5 {
        5
    } else if v > 95 {
        95
    } else {
        v
    }
}

/// The percent chance of noticing a trap: `10 + 3 * perception` less twice
/// its danger, kept within 5..=95.
pub fn detect_trap_chance(perception: i32, trap_danger_val: i32) -> (r: i32)
    requires
        i32::MIN <= 10 + perception * 3 - trap_danger_val * 2 <= i32::MAX,
        i32::MIN <= perception * 3 <= i32::MAX - 10,
        i32::MIN <= trap_danger_val * 2 <= i32::MAX,
    ensures
        r == clamp(10 + perception * 3 - trap_danger_val * 2, 5, 95),
{
    let base = 10 + perception * 3;
    clamp_percent(base - trap_danger_val * 2)
}

/// Whether disarming succeeds: a draw from `0..100` must fall under
/// `30 + 4 * dex` less ten times the trap's danger, kept within 5..=95.
pub fn disarm_trap(dex: i32, trap: TrapType, rng: &mut NetHackRng) -> (r: bool)
    requires
        i32::MIN + 70 <= 30 + dex * 4 <= i32::MAX,
    ensures
        r == (rng_roll(old(rng)@, 100) < clamp(30 + dex * 4 - danger_of(trap) * 10, 5, 95)),
        final(rng)@ == rng_next(old(rng)@),
{
    let difficulty = trap_danger(trap) * 10;
    let chance = 30 + dex * 4 - difficulty;
    rng.rn2(100) < clamp_percent(chance)
}

} // verus!
