//! Springing the full range of traps on a victim, and disarming them.
use vstd::prelude::*;
use crate::num::div_trunc;
use crate::rng::{NetHackRng, rng_roll, rng_next};

verus! {

/// Kinds of trap.
#[derive(Debug, Clone, Copy, PartialEq, Eq, Structural)]
pub enum ExtTrapType {
    ArrowTrap,
    DartTrap,
    RockTrap,
    SqueakyBoard,
    BearTrap,
    LandMine,
    RollingBoulder,
    SleepingGas,
    RustTrap,
    FireTrap,
    Pit,
    SpikedPit,
    Hole,
    TrapDoor,
    TeleportTrap,
    LevelTeleport,
    MagicPortal,
    Web,
    StatueTrap,
    MagicTrap,
    AntiMagicTrap,
    PolymorphTrap,
}

/// What springing a trap does to its victim.
#[derive(Debug, Clone, PartialEq, Eq)]
pub enum TrapTriggerResult {
    Damage { amount: i32, trap_type: String },
    StatusEffect { effect: String, turns: i32 },
    FallDown { levels: i32 },
    Teleport { random: bool },
    Polymorph,
    Immobilize { turns: i32 },
    Alert { noise_radius: i32 },
    ItemDamage { item_effect: String },
    NoEffect { reason: String },
}

/// Whether a kind of trap lies on the floor, so that flying or levitating
/// avoids it.
pub open spec fn is_floor_trap(t: ExtTrapType) -> bool {
    t == ExtTrapType::Pit || t == ExtTrapType::SpikedPit || t == ExtTrapType::Hole
        || t == ExtTrapType::TrapDoor || t == ExtTrapType::BearTrap || t == ExtTrapType::Web
        || t == ExtTrapType::SqueakyBoard || t == ExtTrapType::LandMine
}

/// Whether `r` is `amount` damage from a trap named `name`.
pub open spec fn is_hurt(r: TrapTriggerResult, amount: int, name: Seq<char>) -> bool {
    r matches TrapTriggerResult::Damage { amount: a, trap_type: n } && a == amount && n@ == name
}

/// Whether `r` inflicts `effect` for `turns` turns.
pub open spec fn is_effect(r: TrapTriggerResult, effect: Seq<char>, turns: int) -> bool {
    r matches TrapTriggerResult::StatusEffect { effect: e, turns: t } && e@ == effect && t == turns
}

/// Whether `r` is no effect, for `reason`.
pub open spec fn is_spared(r: TrapTriggerResult, reason: Seq<char>) -> bool {
    r matches TrapTriggerResult::NoEffect { reason: m } && m@ == reason
}

/// The effect a magic trap gives for a draw `k` from `0..4`.
pub open spec fn magic_status(k: int) -> Seq<char> {
    if k == 0 {
        "가속"@
    } else if k == 1 {
        "감속"@
    } else if k == 2 {
        "투명"@
    } else {
        "혼란"@
    }
}

/// Whether `r`, with the stream ending in state `s`, is what the trap `t`
/// does once the dodge draw is made, the stream being in state `s1` after
/// it and the victim dodging when `dodged`.
pub open spec fn sprung(t: ExtTrapType, dodged: bool, s1: u64, r: TrapTriggerResult, s: u64) -> bool {
    let s2 = rng_next(s1);
    match t {
        ExtTrapType::ArrowTrap => if dodged {
            is_spared(r, "화살을 피했다!"@) && s == s1
        } else {
            is_hurt(r, rng_roll(s1, 6) + 1, "화살 함정"@) && s == s2
        },
        ExtTrapType::DartTrap => if dodged {
            is_spared(r, "독침을 피했다!"@) && s == s1
        } else {
            is_hurt(r, rng_roll(s1, 4) + 1, "독침 함정"@) && s == s2
        },
        ExtTrapType::RockTrap => is_hurt(r, rng_roll(s1, 10) + 5, "낙석 함정"@) && s == s2,
        ExtTrapType::SqueakyBoard => r == (TrapTriggerResult::Alert { noise_radius: 15 }) && s == s1,
        ExtTrapType::BearTrap => r == (TrapTriggerResult::Immobilize { turns: (rng_roll(s1, 5) + 3) as i32 })
            && s == s2,
        ExtTrapType::LandMine => is_hurt(r, rng_roll(s1, 16) + 10, "지뢰"@) && s == s2,
        ExtTrapType::RollingBoulder => is_hurt(r, rng_roll(s1, 20) + 10, "구르는 바위"@) && s == s2,
        ExtTrapType::SleepingGas => is_effect(r, "수면"@, rng_roll(s1, 15) + 5) && s == s2,
        ExtTrapType::RustTrap => s == s1 && (r matches TrapTriggerResult::ItemDamage { item_effect }
            && item_effect@ == "장비 녹슬음"@),
        ExtTrapType::FireTrap => is_hurt(r, rng_roll(s1, 12) + 4, "화염 함정"@) && s == s2,
        ExtTrapType::Pit => is_hurt(r, rng_roll(s1, 6) + 2, "함정 구덩이"@) && s == s2,
        ExtTrapType::SpikedPit => is_hurt(r, rng_roll(s1, 10) + 5, "가시 구덩이"@) && s == s2,
        ExtTrapType::Hole | ExtTrapType::TrapDoor => r == (TrapTriggerResult::FallDown { levels: 1 }) && s == s1,
        ExtTrapType::TeleportTrap => r == (TrapTriggerResult::Teleport { random: true }) && s == s1,
        ExtTrapType::LevelTeleport => r == (TrapTriggerResult::FallDown { levels: (rng_roll(s1, 5) + 1) as i32 })
            && s == s2,
        ExtTrapType::MagicPortal => r == (TrapTriggerResult::Teleport { random: false }) && s == s1,
        ExtTrapType::Web => r == (TrapTriggerResult::Immobilize { turns: (rng_roll(s1, 3) + 2) as i32 }) && s == s2,
        ExtTrapType::StatueTrap => r == (TrapTriggerResult::Alert { noise_radius: 5 }) && s == s1,
        ExtTrapType::MagicTrap => is_effect(r, magic_status(rng_roll(s1, 4)), rng_roll(s2, 20) + 5)
            && s == rng_next(s2),
        ExtTrapType::AntiMagicTrap => is_effect(r, "마법 봉인"@, rng_roll(s1, 10) + 10) && s == s2,
        ExtTrapType::PolymorphTrap => r == TrapTriggerResult::Polymorph && s == s1,
    }
}

fn spring_after_dodge(trap: ExtTrapType, dodged: bool, rng: &mut NetHackRng) -> (r: TrapTriggerResult)
    ensures
        sprung(trap, dodged, old(rng)@, r, final(rng)@),
{
    match trap {
        ExtTrapType::ArrowTrap => {
            if !dodged {
                TrapTriggerResult::Damage { amount: rng.rn2(6) + 1, trap_type: "화살 함정".to_string() }
            } else {
                TrapTriggerResult::NoEffect { reason: "화살을 피했다!".to_string() }
            }
        },
        ExtTrapType::DartTrap => {
            if !dodged {
                TrapTriggerResult::Damage { amount: rng.rn2(4) + 1, trap_type: "독침 함정".to_string() }
            } else {
                TrapTriggerResult::NoEffect { reason: "독침을 피했다!".to_string() }
            }
        },
        ExtTrapType::RockTrap => TrapTriggerResult::Damage {
            amount: rng.rn2(10) + 5,
            trap_type: "낙석 함정".to_string(),
        },
        ExtTrapType::SqueakyBoard => TrapTriggerResult::Alert { noise_radius: 15 },
        ExtTrapType::BearTrap => TrapTriggerResult::Immobilize { turns: rng.rn2(5) + 3 },
        ExtTrapType::LandMine => TrapTriggerResult::Damage { amount: rng.rn2(16) + 10, trap_type: "지뢰".to_string() },
        ExtTrapType::RollingBoulder => TrapTriggerResult::Damage {
            amount: rng.rn2(20) + 10,
            trap_type: "구르는 바위".to_string(),
        },
        ExtTrapType::SleepingGas => TrapTriggerResult::StatusEffect {
            effect: "수면".to_string(),
            turns: rng.rn2(15) + 5,
        },
        ExtTrapType::RustTrap => TrapTriggerResult::ItemDamage { item_effect: "장비 녹슬음".to_string() },
        ExtTrapType::FireTrap => TrapTriggerResult::Damage {
            amount: rng.rn2(12) + 4,
            trap_type: "화염 함정".to_string(),
        },
        ExtTrapType::Pit => TrapTriggerResult::Damage { amount: rng.rn2(6) + 2, trap_type: "함정 구덩이".to_string() },
        ExtTrapType::SpikedPit => TrapTriggerResult::Damage {
            amount: rng.rn2(10) + 5,
            trap_type: "가시 구덩이".to_string(),
        },
        ExtTrapType::Hole | ExtTrapType::TrapDoor => TrapTriggerResult::FallDown { levels: 1 },
        ExtTrapType::TeleportTrap => TrapTriggerResult::Teleport { random: true },
        ExtTrapType::LevelTeleport => TrapTriggerResult::FallDown { levels: rng.rn2(5) + 1 },
        ExtTrapType::MagicPortal => TrapTriggerResult::Teleport { random: false },
        ExtTrapType::Web => TrapTriggerResult::Immobilize { turns: rng.rn2(3) + 2 },
        ExtTrapType::StatueTrap => TrapTriggerResult::Alert { noise_radius: 5 },
        ExtTrapType::MagicTrap => {
            let idx = rng.rn2(4);
            let effect = if idx == 0 {
                "가속"
            } else if idx == 1 {
                "감속"
            } else if idx == 2 {
                "투명"
            } else {
                "혼란"
            };
            TrapTriggerResult::StatusEffect { effect: effect.to_string(), turns: rng.rn2(20) + 5 }
        },
        ExtTrapType::AntiMagicTrap => TrapTriggerResult::StatusEffect {
            effect: "마법 봉인".to_string(),
            turns: rng.rn2(10) + 10,
        },
        ExtTrapType::PolymorphTrap => TrapTriggerResult::Polymorph,
    }
}

/// What springing a trap does to a victim with dexterity `victim_dex`. A
/// victim in the air avoids floor traps without a draw. Otherwise a dodge
/// draw `1..=20` is made first, and arrows and darts miss when it is no more
/// than half the dexterity. Arrows deal 1 to 6, darts 1 to 4, rocks 5 to 14,
/// land mines 10 to 25, boulders 10 to 29, fire 4 to 15, pits 2 to 7 and
/// spiked pits 5 to 14; a squeaky board makes noise within 15 and a statue
/// trap within 5; bear traps hold 3 to 7 turns and webs 2 to 4; sleeping gas
/// puts to sleep for 5 to 19 turns; rust traps rust equipment; holes and
/// trap doors drop one level and level teleporters 1 to 5; teleporters
/// teleport at random and magic portals to their destination; a magic trap
/// hastes, slows, makes invisible or confuses for 5 to 24 turns; anti-magic
/// seals magic for 10 to 19 turns; a polymorph trap polymorphs.
pub fn trigger_trap(
    trap: ExtTrapType,
    victim_dex: i32,
    has_levitation: bool,
    has_flying: bool,
    rng: &mut NetHackRng,
) -> (r: TrapTriggerResult)
    ensures
        ({
            let s0 = old(rng)@;
            if (has_levitation || has_flying) && is_floor_trap(trap) {
                is_spared(r, "공중에 떠 있어 피했다."@) && final(rng)@ == s0
            } else {
                sprung(trap, rng_roll(s0, 20) + 1 <= div_trunc(victim_dex as int, 2), rng_next(s0), r, final(rng)@)
            }
        }),
{
    let airborne = has_levitation || has_flying;
    if airborne {
        match trap {
            ExtTrapType::Pit | ExtTrapType::SpikedPit | ExtTrapType::Hole | ExtTrapType::TrapDoor
            | ExtTrapType::BearTrap | ExtTrapType::Web | ExtTrapType::SqueakyBoard | ExtTrapType::LandMine => {
                return TrapTriggerResult::NoEffect { reason: "공중에 떠 있어 피했다.".to_string() };
            },
            _ => {},
        }
    }
    let dodge = rng.rn2(20) + 1;
    let dodge_target = victim_dex / 2;
    spring_after_dodge(trap, dodge <= dodge_target, rng)
}

/// How an attempt to disarm a trap ends.
#[derive(Debug, Clone, PartialEq, Eq)]
pub enum DisarmResult {
    Success,
    Failed { triggered: bool },
    NeedTool { tool: String },
    CannotDisarm,
}

/// How hard a trap is to disarm.
pub open spec fn disarm_difficulty(t: ExtTrapType) -> int {
    if t == ExtTrapType::LandMine {
        15
    } else if t == ExtTrapType::RollingBoulder {
        12
    } else if t == ExtTrapType::FireTrap {
        10
    } else {
        8
    }
}

/// Tries to disarm a trap. Magic portals and level teleporters cannot be
/// disarmed; land mines and bear traps need tools. Otherwise a draw from
/// `0..20` plus half of dexterity and level must beat the difficulty; on
/// failure the trap goes off one time in three.
pub fn disarm_trap(
    trap: ExtTrapType,
    player_dex: i32,
    player_level: i32,
    has_tools: bool,
    rng: &mut NetHackRng,
) -> (r: DisarmResult)
    requires
        i32::MIN <= player_dex + player_level <= i32::MAX,
    ensures
        ({
            let s0 = old(rng)@;
            let s1 = rng_next(s0);
            if trap == ExtTrapType::MagicPortal || trap == ExtTrapType::LevelTeleport {
                r == DisarmResult::CannotDisarm && final(rng)@ == s0
            } else if (trap == ExtTrapType::LandMine || trap == ExtTrapType::BearTrap) && !has_tools {
                (r matches DisarmResult::NeedTool { tool } && tool@ == "해체 도구"@) && final(rng)@ == s0
            } else if rng_roll(s0, 20) + div_trunc(player_dex + player_level, 2) > disarm_difficulty(trap) {
                r == DisarmResult::Success && final(rng)@ == s1
            } else {
                r == (DisarmResult::Failed { triggered: rng_roll(s1, 3) == 0 }) && final(rng)@ == rng_next(s1)
            }
        }),
{
    match trap {
        ExtTrapType::MagicPortal | ExtTrapType::LevelTeleport => {
            return DisarmResult::CannotDisarm;
        },
        _ => {},
    }
    if (trap == ExtTrapType::LandMine || trap == ExtTrapType::BearTrap) && !has_tools {
        return DisarmResult::NeedTool { tool: "해체 도구".to_string() };
    }
    let difficulty = if trap == ExtTrapType::LandMine {
        15
    } else if trap == ExtTrapType::RollingBoulder {
        12
    } else if trap == ExtTrapType::FireTrap {
        10
    } else {
        8
    };
    let skill = player_dex + player_level;
    if rng.rn2(20) + skill / 2 > difficulty {
        DisarmResult::Success
    } else {
        DisarmResult::Failed { triggered: rng.rn2(3) == 0 }
    }
}

} // verus!
