//! Springing a trap on the hero, kind by kind, and how likely a trap is to
//! be found.
use vstd::prelude::*;
use crate::num::div_trunc;
use crate::rng::{NetHackRng, rng_roll, rng_next};

verus! {

/// Kinds of trap.
#[derive(Debug, Clone, Copy, PartialEq, Eq, Structural)]
pub enum TrapType {
    ArrowTrap,
    DartTrap,
    RockTrap,
    SqueakyBoard,
    BearTrap,
    LandMine,
    RollingBoulder,
    SleepingGas,
    RustTrap,
    PitTrap,
    SpikedPit,
    HoleTrap,
    TrapDoor,
    TeleportTrap,
    LevelTeleporter,
    FireTrap,
    MagicTrap,
    WebTrap,
    AntiMagicTrap,
    PolymorphTrap,
}

/// What springing a trap does to the hero.
#[derive(Debug, Clone, PartialEq, Eq)]
pub enum TrapResult {
    Damage { amount: i32, source: String },
    StatusEffect { effect: String, turns: i32 },
    EquipDamage { slot: String, damage_type: String },
    Teleport { random: bool },
    LevelChange { direction: i32 },
    Fall { depth: i32, damage: i32 },
    Polymorph,
    Alarm { radius: i32 },
    AntiMagic { drain_amount: i32 },
    Stuck { turns: i32 },
    Evaded { message: String },
    Immune { reason: String },
}

/// The hero as a trap sees them.
#[derive(Debug, Clone)]
pub struct TrapTriggerInput {
    pub trap_type: TrapType,
    pub player_dex: i32,
    pub is_levitating: bool,
    pub is_flying: bool,
    pub has_fire_resist: bool,
    pub has_sleep_resist: bool,
    pub has_poly_resist: bool,
    pub is_wearing_boots: bool,
    pub weight: i32,
}

/// Whether `r` is `amount` damage from `source`.
pub open spec fn is_damage(r: TrapResult, amount: int, source: Seq<char>) -> bool {
    r matches TrapResult::Damage { amount: a, source: s } && a == amount && s@ == source
}

/// Whether `r` inflicts `effect` for `turns` turns.
pub open spec fn is_status(r: TrapResult, effect: Seq<char>, turns: int) -> bool {
    r matches TrapResult::StatusEffect { effect: e, turns: t } && e@ == effect && t == turns
}

/// Whether `r` is an evasion announced by `message`.
pub open spec fn is_evaded(r: TrapResult, message: Seq<char>) -> bool {
    r matches TrapResult::Evaded { message: m } && m@ == message
}

/// Whether `r` is an immunity for `reason`.
pub open spec fn is_immune(r: TrapResult, reason: Seq<char>) -> bool {
    r matches TrapResult::Immune { reason: m } && m@ == reason
}

/// Whether `r`, with the stream ending in state `s`, is what a trap does to
/// the hero described by `input` when the stream starts in state `s0`.
pub open spec fn trap_outcome(input: TrapTriggerInput, s0: u64, r: TrapResult, s: u64) -> bool {
    let s1 = rng_next(s0);
    let s2 = rng_next(s1);
    let airborne = input.is_levitating || input.is_flying;
    match input.trap_type {
        TrapType::ArrowTrap => if rng_roll(s0, 3) == 0 {
            is_evaded(r, "화살을 피했다!"@) && s == s1
        } else if input.player_dex > 14 {
            if rng_roll(s1, 4) == 0 {
                is_evaded(r, "화살을 피했다!"@) && s == s2
            } else {
                is_damage(r, rng_roll(s2, 6) + 1, "화살 함정"@) && s == rng_next(s2)
            }
        } else {
            is_damage(r, rng_roll(s1, 6) + 1, "화살 함정"@) && s == s2
        },
        TrapType::DartTrap => if rng_roll(s0, 4) == 0 {
            is_evaded(r, "다트를 피했다!"@) && s == s1
        } else {
            is_damage(r, rng_roll(s1, 4) + 1, "독 다트 함정"@) && s == s2
        },
        TrapType::RockTrap => is_damage(r, rng_roll(s0, 20) + 10, "떨어지는 바위"@) && s == s1,
        TrapType::SqueakyBoard => r == (TrapResult::Alarm { radius: 20 }) && s == s0,
        TrapType::BearTrap => if airborne {
            is_immune(r, "공중에 떠 있어 회피"@) && s == s0
        } else {
            r == (TrapResult::Stuck { turns: (rng_roll(s0, 4) + 3) as i32 }) && s == s1
        },
        TrapType::LandMine => if airborne {
            is_immune(r, "부유로 지뢰 회피"@) && s == s0
        } else {
            is_damage(r, rng_roll(s0, 16) + 16 + div_trunc(input.weight as int, 100), "지뢰"@) && s == s1
        },
        TrapType::RollingBoulder => if rng_roll(s0, 3) == 0 {
            is_evaded(r, "굴러오는 바위를 피했다!"@) && s == s1
        } else {
            is_damage(r, rng_roll(s1, 20) + 10, "굴러오는 바위"@) && s == s2
        },
        TrapType::SleepingGas => if input.has_sleep_resist {
            is_immune(r, "수면 저항"@) && s == s0
        } else {
            is_status(r, "수면"@, rng_roll(s0, 20) + 5) && s == s1
        },
        TrapType::RustTrap => s == s0 && (r matches TrapResult::EquipDamage { slot, damage_type }
            && slot@ == "armor"@ && damage_type@ == "녹"@),
        TrapType::PitTrap => if airborne {
            is_immune(r, "부유로 구덩이 회피"@) && s == s0
        } else {
            is_damage(r, rng_roll(s0, 6) + 2, "구덩이"@) && s == s1
        },
        TrapType::SpikedPit => if airborne {
            is_immune(r, "부유로 가시 구덩이 회피"@) && s == s0
        } else {
            is_damage(r, rng_roll(s0, 10) + 1 + rng_roll(s1, 6) + 2, "가시 구덩이"@) && s == s2
        },
        TrapType::HoleTrap | TrapType::TrapDoor => if airborne {
            is_immune(r, "부유로 구멍 회피"@) && s == s0
        } else {
            r == (TrapResult::Fall { depth: 1, damage: (rng_roll(s0, 8) + 4) as i32 }) && s == s1
        },
        TrapType::TeleportTrap => r == (TrapResult::Teleport { random: true }) && s == s0,
        TrapType::LevelTeleporter => {
            r == (TrapResult::LevelChange { direction: if rng_roll(s0, 2) == 0 { 1i32 } else { -1i32 } })
                && s == s1
        },
        TrapType::FireTrap => if input.has_fire_resist {
            is_immune(r, "화염 저항"@) && s == s0
        } else {
            is_damage(r, rng_roll(s0, 12) + 8, "화염 함정"@) && s == s1
        },
        TrapType::MagicTrap => {
            let k = rng_roll(s0, 4);
            if k == 0 {
                is_status(r, "혼란"@, rng_roll(s1, 10) + 5) && s == s2
            } else if k == 1 {
                is_status(r, "실명"@, rng_roll(s1, 15) + 5) && s == s2
            } else if k == 2 {
                r == (TrapResult::Teleport { random: true }) && s == s1
            } else {
                is_damage(r, rng_roll(s1, 8) + 1, "마법 폭발"@) && s == s2
            }
        },
        TrapType::WebTrap => r == (TrapResult::Stuck { turns: (rng_roll(s0, 6) + 2) as i32 }) && s == s1,
        TrapType::AntiMagicTrap => r == (TrapResult::AntiMagic { drain_amount: (rng_roll(s0, 10) + 5) as i32 })
            && s == s1,
        TrapType::PolymorphTrap => if input.has_poly_resist {
            is_immune(r, "변이 저항"@) && s == s0
        } else {
            r == TrapResult::Polymorph && s == s0
        },
    }
}

fn spring_missile(input: &TrapTriggerInput, rng: &mut NetHackRng) -> (r: TrapResult)
    requires
        input.trap_type == TrapType::ArrowTrap || input.trap_type == TrapType::DartTrap
            || input.trap_type == TrapType::RockTrap || input.trap_type == TrapType::RollingBoulder,
    ensures
        trap_outcome(*input, old(rng)@, r, final(rng)@),
{
    match input.trap_type {
        TrapType::ArrowTrap => {
            if rng.rn2(3) == 0 || (input.player_dex > 14 && rng.rn2(4) == 0) {
                return TrapResult::Evaded { message: "화살을 피했다!".to_string() };
            }
            TrapResult::Damage { amount: rng.rn2(6) + 1, source: "화살 함정".to_string() }
        },
        TrapType::DartTrap => {
            if rng.rn2(4) == 0 {
                return TrapResult::Evaded { message: "다트를 피했다!".to_string() };
            }
            TrapResult::Damage { amount: rng.rn2(4) + 1, source: "독 다트 함정".to_string() }
        },
        TrapType::RockTrap => TrapResult::Damage { amount: rng.rn2(20) + 10, source: "떨어지는 바위".to_string() },
        _ => {
            if rng.rn2(3) == 0 {
                return TrapResult::Evaded { message: "굴러오는 바위를 피했다!".to_string() };
            }
            TrapResult::Damage { amount: rng.rn2(20) + 10, source: "굴러오는 바위".to_string() }
        },
    }
}

fn spring_ground(input: &TrapTriggerInput, rng: &mut NetHackRng) -> (r: TrapResult)
    requires
        input.trap_type == TrapType::BearTrap || input.trap_type == TrapType::LandMine
            || input.trap_type == TrapType::PitTrap || input.trap_type == TrapType::SpikedPit
            || input.trap_type == TrapType::HoleTrap || input.trap_type == TrapType::TrapDoor,
    ensures
        trap_outcome(*input, old(rng)@, r, final(rng)@),
{
    let airborne = input.is_levitating || input.is_flying;
    match input.trap_type {
        TrapType::BearTrap => {
            if airborne {
                return TrapResult::Immune { reason: "공중에 떠 있어 회피".to_string() };
            }
            TrapResult::Stuck { turns: rng.rn2(4) + 3 }
        },
        TrapType::LandMine => {
            if airborne {
                return TrapResult::Immune { reason: "부유로 지뢰 회피".to_string() };
            }
            TrapResult::Damage { amount: rng.rn2(16) + 16 + input.weight / 100, source: "지뢰".to_string() }
        },
        TrapType::PitTrap => {
            if airborne {
                return TrapResult::Immune { reason: "부유로 구덩이 회피".to_string() };
            }
            TrapResult::Damage { amount: rng.rn2(6) + 2, source: "구덩이".to_string() }
        },
        TrapType::SpikedPit => {
            if airborne {
                return TrapResult::Immune { reason: "부유로 가시 구덩이 회피".to_string() };
            }
            let spike_damage = rng.rn2(10) + 1;
            let fall_damage = rng.rn2(6) + 2;
            TrapResult::Damage { amount: spike_damage + fall_damage, source: "가시 구덩이".to_string() }
        },
        _ => {
            if airborne {
                return TrapResult::Immune { reason: "부유로 구멍 회피".to_string() };
            }
            TrapResult::Fall { depth: 1, damage: rng.rn2(8) + 4 }
        },
    }
}

fn spring_magic(input: &TrapTriggerInput, rng: &mut NetHackRng) -> (r: TrapResult)
    requires
        input.trap_type == TrapType::MagicTrap,
    ensures
        trap_outcome(*input, old(rng)@, r, final(rng)@),
{
    let effect = rng.rn2(4);
    if effect == 0 {
        TrapResult::StatusEffect { effect: "혼란".to_string(), turns: rng.rn2(10) + 5 }
    } else if effect == 1 {
        TrapResult::StatusEffect { effect: "실명".to_string(), turns: rng.rn2(15) + 5 }
    } else if effect == 2 {
        TrapResult::Teleport { random: true }
    } else {
        TrapResult::Damage { amount: rng.rn2(8) + 1, source: "마법 폭발".to_string() }
    }
}

/// What springing a trap does to the hero. Arrows are dodged one time in
/// three, or one in four more with dexterity above 14, and otherwise deal
/// 1 to 6; darts are dodged one time in four and deal 1 to 4; rocks deal 10
/// to 29; a squeaky board wakes monsters within 20; bear traps hold for 3
/// to 6 turns; land mines deal 16 to 31 plus a hundredth of the weight;
/// rolling boulders are dodged one time in three and deal 10 to 29;
/// sleeping gas puts to sleep for 5 to 24 turns; rust traps rust armor;
/// pits deal 2 to 7, spiked ones 1 to 10 more; holes and trap doors drop the
/// hero a level for 4 to 11; teleporters teleport; level teleporters move up
/// or down one time in two; fire deals 8 to 19; a magic trap confuses for 5
/// to 14 turns, blinds for 5 to 19, teleports, or deals 1 to 8, one time in
/// four each; webs hold for 2 to 7 turns; anti-magic drains 5 to 14; a
/// polymorph trap polymorphs. Flying or levitating avoids bear traps, land
/// mines, pits and holes, and resistances avoid sleep, fire and polymorph.
pub fn trap_trigger(input: &TrapTriggerInput, rng: &mut NetHackRng) -> (r: TrapResult)
    ensures
        trap_outcome(*input, old(rng)@, r, final(rng)@),
{
    match input.trap_type {
        TrapType::ArrowTrap | TrapType::DartTrap | TrapType::RockTrap | TrapType::RollingBoulder => {
            spring_missile(input, rng)
        },
        TrapType::BearTrap | TrapType::LandMine | TrapType::PitTrap | TrapType::SpikedPit
        | TrapType::HoleTrap | TrapType::TrapDoor => spring_ground(input, rng),
        TrapType::MagicTrap => spring_magic(input, rng),
        TrapType::SqueakyBoard => TrapResult::Alarm { radius: 20 },
        TrapType::SleepingGas => {
            if input.has_sleep_resist {
                return TrapResult::Immune { reason: "수면 저항".to_string() };
            }
            TrapResult::StatusEffect { effect: "수면".to_string(), turns: rng.rn2(20) + 5 }
        },
        TrapType::RustTrap => TrapResult::EquipDamage {
            slot: "armor".to_string(),
            damage_type: "녹".to_string(),
        },
        TrapType::TeleportTrap => TrapResult::Teleport { random: true },
        TrapType::LevelTeleporter => TrapResult::LevelChange {
            direction: if rng.rn2(2) == 0 { 1 } else { -1 },
        },
        TrapType::FireTrap => {
            if input.has_fire_resist {
                return TrapResult::Immune { reason: "화염 저항".to_string() };
            }
            TrapResult::Damage { amount: rng.rn2(12) + 8, source: "화염 함정".to_string() }
        },
        TrapType::WebTrap => TrapResult::Stuck { turns: rng.rn2(6) + 2 },
        TrapType::AntiMagicTrap => TrapResult::AntiMagic { drain_amount: rng.rn2(10) + 5 },
        TrapType::PolymorphTrap => {
            if input.has_poly_resist {
                return TrapResult::Immune { reason: "변이 저항".to_string() };
            }
            TrapResult::Polymorph
        },
    }
}

/// The percent chance of finding a trap: certain with trap detection;
/// otherwise 20 when searching (5 when not), plus twice the level, plus
/// three per point of good luck, at most 95.
pub fn trap_detection_chance(
    player_level: i32,
    player_luck: i32,
    is_searching: bool,
    has_trap_detection: bool,
) -> (r: i32)
    requires
        !has_trap_detection ==> i32::MIN <= player_level * 2 && 20 + player_level * 2
            + (if player_luck > 0 { player_luck as int } else { 0int }) * 3 <= i32::MAX,
        !has_trap_detection ==> player_luck * 3 <= i32::MAX,
        !has_trap_detection ==> i32::MIN <= 5 + player_level * 2,
    ensures
        ({
            let total = (if is_searching { 20int } else { 5int }) + player_level * 2
                + (if player_luck > 0 { player_luck as int } else { 0int }) * 3;
            r == if has_trap_detection { 100 } else if total < 95 { total } else { 95 }
        }),
{
    if has_trap_detection {
        return 100;
    }
    let base = if is_searching { 20 } else { 5 };
    let level_bonus = player_level * 2;
    let luck_bonus = (if player_luck > 0 { player_luck } else { 0 }) * 3;
    let total = base + level_bonus + luck_bonus;
    if total < 95 { total } else { 95 }
}

} // verus!
