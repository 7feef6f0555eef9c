//! What traps do: erosion of objects, escaping a known trap, damage and
//! durations of each kind of trap, falling through trap doors, magic and
//! polymorph traps, steeds in traps, and the notes of squeaky boards.
use vstd::prelude::*;
use crate::num::{clamp, div_trunc};
use crate::rng::{NetHackRng, rng_roll, rng_next, rng_after, dice_total, luck_roll};

verus! {

/// The most an object can be eroded.
pub const MAX_ERODE: i32 = 3;

/// Kinds of erosion.
#[derive(Debug, Clone, Copy, PartialEq, Eq, Structural)]
pub enum ErodeType {
    Burn,
    Rust,
    Rot,
    Corrode,
}

/// What erosion does to an object.
#[derive(Debug, Clone, Copy, PartialEq, Eq, Structural)]
pub enum ErodeResult {
    Greased,
    Nothing,
    Damaged,
    Destroyed,
}

/// The armor slot that fire reaches.
#[derive(Debug, Clone, Copy, PartialEq, Eq, Structural)]
pub enum BurnArmorSlot {
    Helmet,
    CloakOrBodyOrShirt,
    Shield,
    Gloves,
    Boots,
}

/// Kinds of trap.
#[derive(Debug, Clone, Copy, PartialEq, Eq, Structural)]
pub enum TrapType {
    Arrow,
    Dart,
    Rock,
    SqueakyBoard,
    BearTrap,
    SleepGas,
    RustTrap,
    FireTrap,
    Pit,
    SpikedPit,
    Hole,
    Trapdoor,
    Teleporter,
    LevelTeleporter,
    Web,
    Landmine,
    MagicPortal,
    AntiMagic,
    PolyTrap,
    VibratingSquare,
    RollingBoulder,
    StatueTrap,
}

/// How the hero fares on a trap already known.
#[derive(Debug, Clone, Copy, PartialEq, Eq, Structural)]
pub enum TrapEscapeResult {
    FloatOver,
    Escaped,
    Triggered,
}

/// Whether erosion reaches an object: grease wards it off when grease
/// counts, an object that cannot erode or is erodeproof is untouched, a
/// blessed one resists when a luck-adjusted draw from `0..4` is 0; then it
/// erodes further below the maximum, or is destroyed if that is allowed.
pub fn erode_check(
    erode_type: ErodeType,
    is_greased: bool,
    check_grease: bool,
    is_vulnerable: bool,
    is_erodeproof: bool,
    is_blessed: bool,
    current_erosion: i32,
    allow_destroy: bool,
    luck: i32,
    rng: &mut NetHackRng,
) -> (r: ErodeResult)
    requires
        luck >= 3 - i32::MAX,
    ensures
        ({
            let s0 = old(rng)@;
            let draws = is_blessed && !(check_grease && is_greased) && is_vulnerable && !is_erodeproof;
            let resisted = draws && luck_roll(rng_roll(s0, 4), 4, luck as int) == 0;
            &&& final(rng)@ == (if draws { rng_next(s0) } else { s0 })
            &&& r == if check_grease && is_greased {
                ErodeResult::Greased
            } else if !is_vulnerable || is_erodeproof || resisted {
                ErodeResult::Nothing
            } else if current_erosion < MAX_ERODE {
                ErodeResult::Damaged
            } else if allow_destroy {
                ErodeResult::Destroyed
            } else {
                ErodeResult::Nothing
            }
        }),
{
    if check_grease && is_greased {
        return ErodeResult::Greased;
    }
    if !is_vulnerable {
        return ErodeResult::Nothing;
    }
    if is_erodeproof {
        return ErodeResult::Nothing;
    }
    if is_blessed && rng.rnl(4, luck) == 0 {
        return ErodeResult::Nothing;
    }
    if current_erosion < MAX_ERODE {
        return ErodeResult::Damaged;
    }
    if allow_destroy {
        return ErodeResult::Destroyed;
    }
    ErodeResult::Nothing
}

/// Whether grease wears off after protecting: one time in two.
pub fn grease_wearoff(rng: &mut NetHackRng) -> (r: bool)
    ensures
        r == (rng_roll(old(rng)@, 2) == 0),
        final(rng)@ == rng_next(old(rng)@),
{
    rng.rn2(2) == 0
}

/// The armor slot a draw `k` from `0..5` picks for fire.
pub open spec fn burn_slot(k: int) -> BurnArmorSlot {
    if k == 0 {
        BurnArmorSlot::Helmet
    } else if k == 1 {
        BurnArmorSlot::CloakOrBodyOrShirt
    } else if k == 2 {
        BurnArmorSlot::Shield
    } else if k == 3 {
        BurnArmorSlot::Gloves
    } else {
        BurnArmorSlot::Boots
    }
}

/// The armor slot that fire reaches, each one time in five.
pub fn burnarmor_slot(rng: &mut NetHackRng) -> (r: BurnArmorSlot)
    ensures
        r == burn_slot(rng_roll(old(rng)@, 5)),
        final(rng)@ == rng_next(old(rng)@),
{
    let k = rng.rn2(5);
    if k == 0 {
        BurnArmorSlot::Helmet
    } else if k == 1 {
        BurnArmorSlot::CloakOrBodyOrShirt
    } else if k == 2 {
        BurnArmorSlot::Shield
    } else if k == 3 {
        BurnArmorSlot::Gloves
    } else {
        BurnArmorSlot::Boots
    }
}

/// Whether the hero avoids a trap already known. In Sokoban pits always
/// catch; levitating or flying (not plunging) floats over a pit; fumbling
/// always falls in; otherwise one draw in five escapes, and a clinger always
/// escapes a pit.
pub fn trap_escape_check(
    is_levitating: bool,
    is_flying: bool,
    is_fumbling: bool,
    is_plunging: bool,
    is_pit_type: bool,
    is_clinger: bool,
    is_sokoban: bool,
    rng: &mut NetHackRng,
) -> (r: TrapEscapeResult)
    ensures
        ({
            let s0 = old(rng)@;
            if is_sokoban && is_pit_type {
                r == TrapEscapeResult::Triggered && final(rng)@ == s0
            } else if (is_levitating || (is_flying && !is_plunging)) && is_pit_type {
                r == TrapEscapeResult::FloatOver && final(rng)@ == s0
            } else if is_fumbling {
                r == TrapEscapeResult::Triggered && final(rng)@ == s0
            } else {
                &&& final(rng)@ == rng_next(s0)
                &&& r == if rng_roll(s0, 5) == 0 || (is_pit_type && is_clinger) {
                    TrapEscapeResult::Escaped
                } else {
                    TrapEscapeResult::Triggered
                }
            }
        }),
{
    if is_sokoban && is_pit_type {
        return TrapEscapeResult::Triggered;
    }
    if (is_levitating || (is_flying && !is_plunging)) && is_pit_type {
        return TrapEscapeResult::FloatOver;
    }
    if is_fumbling {
        return TrapEscapeResult::Triggered;
    }
    if rng.rn2(5) == 0 || (is_pit_type && is_clinger) {
        return TrapEscapeResult::Escaped;
    }
    TrapEscapeResult::Triggered
}

/// How many turns a bear trap holds: 4 to 7.
pub fn bear_trap_duration(rng: &mut NetHackRng) -> (r: i32)
    ensures
        r == rng_roll(old(rng)@, 4) + 4,
        final(rng)@ == rng_next(old(rng)@),
        4 <= r <= 7,
{
    rng.rn1(4, 4)
}

/// The damage of a bear trap: two four-sided dice.
pub fn bear_trap_damage(rng: &mut NetHackRng) -> (r: i32)
    ensures
        r == dice_total(old(rng)@, 2, 4),
        final(rng)@ == rng_after(old(rng)@, 2),
        2 <= r <= 8,
{
    rng.d(2, 4)
}

/// The damage of falling into a pit: `1..=6`, plus `1..=10` for spikes.
pub fn pit_damage(is_spiked: bool, rng: &mut NetHackRng) -> (r: i32)
    ensures
        ({
            let s0 = old(rng)@;
            let s1 = rng_next(s0);
            if is_spiked {
                r == rng_roll(s0, 6) + 1 + rng_roll(s1, 10) + 1 && final(rng)@ == rng_next(s1)
            } else {
                r == rng_roll(s0, 6) + 1 && final(rng)@ == s1
            }
        }),
{
    let base = rng.rnd(6);
    if is_spiked {
        base + rng.rnd(10)
    } else {
        base
    }
}

/// How many turns climbing out of a pit takes: 2 to 7.
pub fn pit_escape_turns(rng: &mut NetHackRng) -> (r: i32)
    ensures
        r == rng_roll(old(rng)@, 6) + 2,
        final(rng)@ == rng_next(old(rng)@),
        2 <= r <= 7,
{
    rng.rn1(6, 2)
}

/// Whether a trap's dart is poisoned: one time in six.
pub fn dart_poison_chance(rng: &mut NetHackRng) -> (r: bool)
    ensures
        r == (rng_roll(old(rng)@, 6) == 0),
        final(rng)@ == rng_next(old(rng)@),
{
    rng.rn2(6) == 0
}

/// How long sleeping gas puts the hero to sleep: 1 to 25 turns.
pub fn sleep_gas_duration(rng: &mut NetHackRng) -> (r: i32)
    ensures
        r == rng_roll(old(rng)@, 25) + 1,
        final(rng)@ == rng_next(old(rng)@),
        1 <= r <= 25,
{
    rng.rnd(25)
}

/// The damage of a falling rock: two six-sided dice, or 2 through a metal
/// helmet (the dice are rolled either way).
pub fn rock_trap_damage(has_metal_helmet: bool, rng: &mut NetHackRng) -> (r: i32)
    ensures
        r == (if has_metal_helmet { 2 } else { dice_total(old(rng)@, 2, 6) }),
        final(rng)@ == rng_after(old(rng)@, 2),
{
    let base = rng.d(2, 6);
    if has_metal_helmet {
        2
    } else {
        base
    }
}

/// The level reached falling from `level` and the state after: each level
/// passed, a draw from `0..4` other than 0, or reaching `bottom`, stops the
/// fall.
pub open spec fn fall_from(s: u64, level: int, bottom: int) -> (int, u64)
    decreases bottom - level,
{
    let next = level + 1;
    if rng_roll(s, 4) != 0 || next >= bottom {
        (next, rng_next(s))
    } else {
        fall_from(rng_next(s), next, bottom)
    }
}

proof fn lemma_fall_from_range(s: u64, level: int, bottom: int)
    ensures
        level + 1 <= fall_from(s, level, bottom).0,
        fall_from(s, level, bottom).0 <= (if level + 1 >= bottom { level + 1 } else { bottom }),
    decreases bottom - level,
{
    let next = level + 1;
    if !(rng_roll(s, 4) != 0 || next >= bottom) {
        lemma_fall_from_range(rng_next(s), next, bottom);
    }
}

/// The level a trap door or hole drops the hero to from `current_level`:
/// at least one further, three times in four no further, never below
/// `bottom_level`.
pub fn fall_through_depth(current_level: i32, bottom_level: i32, rng: &mut NetHackRng) -> (r: i32)
    requires
        current_level < i32::MAX,
    ensures
        ({
            let (lvl, s) = fall_from(old(rng)@, current_level as int, bottom_level as int);
            &&& r == (if lvl < bottom_level { lvl } else { bottom_level as int })
            &&& final(rng)@ == s
        }),
{
    let ghost s0 = rng@;
    let mut new_level = current_level;
    proof {
        lemma_fall_from_range(s0, current_level as int, bottom_level as int);
    }
    loop
        invariant_except_break
            current_level <= new_level < i32::MAX,
            new_level < bottom_level || new_level == current_level,
            fall_from(rng@, new_level as int, bottom_level as int)
                == fall_from(s0, current_level as int, bottom_level as int),
        ensures
            (new_level as int, rng@) == fall_from(s0, current_level as int, bottom_level as int),
        decreases bottom_level - new_level,
    {
        proof {
            lemma_fall_from_range(rng@, new_level as int, bottom_level as int);
        }
        new_level = new_level + 1;
        if rng.rn2(4) != 0 || new_level >= bottom_level {
            break;
        }
    }
    if new_level < bottom_level { new_level } else { bottom_level }
}

/// Whether an arrow trap that has fired before is now empty: one time in
/// fifteen, drawn only for such a trap.
pub fn arrow_trap_empty(already_fired: bool, rng: &mut NetHackRng) -> (r: bool)
    ensures
        !already_fired ==> !r && final(rng)@ == old(rng)@,
        already_fired ==> r == (rng_roll(old(rng)@, 15) == 0) && final(rng)@ == rng_next(old(rng)@),
{
    already_fired && rng.rn2(15) == 0
}

/// Where the water of a rust trap strikes.
#[derive(Debug, Clone, Copy, PartialEq, Eq, Structural)]
pub enum RustTrapSlot {
    Head,
    LeftArm,
    RightArm,
    Body,
}

/// Where the water of a rust trap strikes: head, left or right arm one time
/// in five each, the body otherwise.
pub fn rust_trap_slot(rng: &mut NetHackRng) -> (r: RustTrapSlot)
    ensures
        ({
            let k = rng_roll(old(rng)@, 5);
            r == if k == 0 {
                RustTrapSlot::Head
            } else if k == 1 {
                RustTrapSlot::LeftArm
            } else if k == 2 {
                RustTrapSlot::RightArm
            } else {
                RustTrapSlot::Body
            }
        }),
        final(rng)@ == rng_next(old(rng)@),
{
    let k = rng.rn2(5);
    if k == 0 {
        RustTrapSlot::Head
    } else if k == 1 {
        RustTrapSlot::LeftArm
    } else if k == 2 {
        RustTrapSlot::RightArm
    } else {
        RustTrapSlot::Body
    }
}

/// What a magic trap does.
#[derive(Debug, Clone, Copy, PartialEq, Eq, Structural)]
pub enum MagicTrapEffect {
    TurnIntoPit,
    CurseItems,
    BlessItems,
    SummonMonster,
    TeleportShuffle,
    TowerOfFlame,
    MagicMissile,
    Nothing,
}

/// The magic trap effect for a draw `k` from `0..30`.
pub open spec fn magic_effect_of(k: int) -> MagicTrapEffect {
    if k <= 4 {
        MagicTrapEffect::TurnIntoPit
    } else if k <= 9 {
        MagicTrapEffect::CurseItems
    } else if k <= 11 {
        MagicTrapEffect::BlessItems
    } else if k <= 15 {
        MagicTrapEffect::SummonMonster
    } else if k <= 19 {
        MagicTrapEffect::TeleportShuffle
    } else if k <= 23 {
        MagicTrapEffect::TowerOfFlame
    } else if k <= 27 {
        MagicTrapEffect::MagicMissile
    } else {
        MagicTrapEffect::Nothing
    }
}

/// What a magic trap does, chosen by a draw from `0..30`.
pub fn magic_trap_effect(rng: &mut NetHackRng) -> (r: MagicTrapEffect)
    ensures
        r == magic_effect_of(rng_roll(old(rng)@, 30)),
        final(rng)@ == rng_next(old(rng)@),
{
    let roll = rng.rn2(30);
    if roll <= 4 {
        MagicTrapEffect::TurnIntoPit
    } else if roll <= 9 {
        MagicTrapEffect::CurseItems
    } else if roll <= 11 {
        MagicTrapEffect::BlessItems
    } else if roll <= 15 {
        MagicTrapEffect::SummonMonster
    } else if roll <= 19 {
        MagicTrapEffect::TeleportShuffle
    } else if roll <= 23 {
        MagicTrapEffect::TowerOfFlame
    } else if roll <= 27 {
        MagicTrapEffect::MagicMissile
    } else {
        MagicTrapEffect::Nothing
    }
}

/// The damage of a fire trap: none to the fire resistant, else two
/// four-sided dice.
pub fn fire_trap_damage(has_fire_resistance: bool, rng: &mut NetHackRng) -> (r: i32)
    ensures
        has_fire_resistance ==> r == 0 && final(rng)@ == old(rng)@,
        !has_fire_resistance ==> r == dice_total(old(rng)@, 2, 4) && final(rng)@ == rng_after(old(rng)@, 2),
{
    if has_fire_resistance {
        0
    } else {
        rng.d(2, 4)
    }
}

/// Whether a creature gets out of a web: spiders, amorphous and whirling
/// creatures and anyone with an edged weapon do; otherwise one draw in three
/// at strength 18 or more, one in six below.
pub fn web_escape_check(
    is_amorphous: bool,
    is_whirly: bool,
    has_fire_resistance: bool,
    is_spider: bool,
    has_edged_weapon: bool,
    strength: i32,
    rng: &mut NetHackRng,
) -> (r: bool)
    ensures
        is_spider || is_amorphous || is_whirly || has_edged_weapon ==> r && final(rng)@ == old(rng)@,
        !(is_spider || is_amorphous || is_whirly || has_edged_weapon) ==> {
            &&& final(rng)@ == rng_next(old(rng)@)
            &&& r == (rng_roll(old(rng)@, if strength >= 18 { 3 } else { 6 }) == 0)
        },
{
    if is_spider {
        return true;
    }
    if is_amorphous || is_whirly {
        return true;
    }
    if has_edged_weapon {
        return true;
    }
    if strength >= 18 {
        rng.rn2(3) == 0
    } else {
        rng.rn2(6) == 0
    }
}

/// The damage of a land mine: `1..=16`, halved for a hero in the air.
pub fn landmine_damage(is_levitating: bool, is_flying: bool, rng: &mut NetHackRng) -> (r: i32)
    ensures
        ({
            let base = rng_roll(old(rng)@, 16) + 1;
            r == (if is_levitating || is_flying { base / 2 } else { base })
        }),
        final(rng)@ == rng_next(old(rng)@),
{
    let base = rng.rnd(16);
    if is_levitating || is_flying {
        base / 2
    } else {
        base
    }
}

/// Whether an exploding land mine leaves a pit: only under a hero on the
/// ground.
pub fn landmine_creates_pit(is_levitating: bool, is_flying: bool) -> (r: bool)
    ensures
        r == (!is_levitating && !is_flying),
{
    !is_levitating && !is_flying
}

/// The damage of a rolling boulder: two ten-sided dice.
pub fn rolling_boulder_damage(rng: &mut NetHackRng) -> (r: i32)
    ensures
        r == dice_total(old(rng)@, 2, 10),
        final(rng)@ == rng_after(old(rng)@, 2),
        2 <= r <= 20,
{
    rng.d(2, 10)
}

/// Whether the hero dodges a rolling boulder: one time in ten.
pub fn rolling_boulder_dodge(rng: &mut NetHackRng) -> (r: bool)
    ensures
        r == (rng_roll(old(rng)@, 10) == 0),
        final(rng)@ == rng_next(old(rng)@),
{
    rng.rn2(10) == 0
}

/// How hard a kind of trap is to disarm.
pub open spec fn untrap_difficulty(t: TrapType) -> int {
    match t {
        TrapType::Arrow => 5,
        TrapType::Dart => 5,
        TrapType::BearTrap => 10,
        TrapType::SqueakyBoard => 0,
        TrapType::Landmine => 20,
        TrapType::Web => 5,
        TrapType::FireTrap => 15,
        TrapType::SleepGas => 10,
        TrapType::RustTrap => 5,
        TrapType::Pit => 5,
        TrapType::SpikedPit => 5,
        TrapType::RollingBoulder => 15,
        TrapType::PolyTrap => 20,
        _ => 10,
    }
}

/// The percent chance of disarming a trap: half of dexterity plus level,
/// 25 more for a rogue, less the trap's difficulty, kept within 5..=95.
pub fn untrap_prob(dexterity: i32, player_level: i32, is_rogue: bool, trap_type: TrapType) -> (r: i32)
    requires
        i32::MIN <= dexterity + player_level <= i32::MAX,
    ensures
        r == clamp(
            div_trunc(dexterity + player_level, 2) + (if is_rogue { 25int } else { 0int })
                - untrap_difficulty(trap_type),
            5,
            95,
        ),
{
    let mut prob = (dexterity + player_level) / 2;
    if is_rogue {
        prob = prob + 25;
    }
    let difficulty: i32 = match trap_type {
        TrapType::Arrow => 5,
        TrapType::Dart => 5,
        TrapType::BearTrap => 10,
        TrapType::SqueakyBoard => 0,
        TrapType::Landmine => 20,
        TrapType::Web => 5,
        TrapType::FireTrap => 15,
        TrapType::SleepGas => 10,
        TrapType::RustTrap => 5,
        TrapType::Pit => 5,
        TrapType::SpikedPit => 5,
        TrapType::RollingBoulder => 15,
        TrapType::PolyTrap => 20,
        _ => 10,
    };
    prob = prob - difficulty;
    if prob < 5 {
        5
    } else if prob > 95 {
        95
    } else {
        prob
    }
}

/// Whether an arrow or dart hits: `1..=20` plus 4 must beat the armor class.
pub fn arrow_trap_hit(target_ac: i32, rng: &mut NetHackRng) -> (r: bool)
    ensures
        r == (rng_roll(old(rng)@, 20) + 5 > target_ac),
        final(rng)@ == rng_next(old(rng)@),
{
    let roll = rng.rnd(20) + 4;
    roll > target_ac
}

/// The damage of an arrow: one six-sided die.
pub fn arrow_trap_damage(rng: &mut NetHackRng) -> (r: i32)
    ensures
        r == dice_total(old(rng)@, 1, 6),
        final(rng)@ == rng_after(old(rng)@, 1),
        1 <= r <= 6,
{
    rng.d(1, 6)
}

/// The damage of a dart: one three-sided die.
pub fn dart_trap_damage(rng: &mut NetHackRng) -> (r: i32)
    ensures
        r == dice_total(old(rng)@, 1, 3),
        final(rng)@ == rng_after(old(rng)@, 1),
        1 <= r <= 3,
{
    rng.d(1, 3)
}

/// What a polymorph trap does.
#[derive(Debug, Clone, Copy, PartialEq, Eq, Structural)]
pub enum PolyTrapResult {
    Polymorph,
    Resisted,
    SystemShock,
}

/// What a polymorph trap does: magic resistance or unchanging resist it;
/// otherwise one time in 25 a system shock, else a polymorph.
pub fn poly_trap_result(has_magic_resistance: bool, has_unchanging: bool, rng: &mut NetHackRng) -> (r: PolyTrapResult)
    ensures
        has_magic_resistance || has_unchanging ==> r == PolyTrapResult::Resisted && final(rng)@ == old(rng)@,
        !(has_magic_resistance || has_unchanging) ==> {
            &&& final(rng)@ == rng_next(old(rng)@)
            &&& r == if rng_roll(old(rng)@, 25) == 0 {
                PolyTrapResult::SystemShock
            } else {
                PolyTrapResult::Polymorph
            }
        },
{
    if has_magic_resistance || has_unchanging {
        return PolyTrapResult::Resisted;
    }
    if rng.rn2(25) == 0 {
        PolyTrapResult::SystemShock
    } else {
        PolyTrapResult::Polymorph
    }
}

/// Where a level teleporter sends the hero: with teleport control the
/// current level (the caller then asks); otherwise a level drawn from
/// `1..=max_level`, moved one down (at most to `max_level`) if it is the
/// current one.
pub fn level_tele_destination(
    current_level: i32,
    max_level: i32,
    has_tele_control: bool,
    rng: &mut NetHackRng,
) -> (r: i32)
    requires
        !has_tele_control ==> max_level > 0 && current_level < i32::MAX,
    ensures
        has_tele_control ==> r == current_level && final(rng)@ == old(rng)@,
        !has_tele_control ==> {
            let dest = rng_roll(old(rng)@, max_level as int) + 1;
            &&& final(rng)@ == rng_next(old(rng)@)
            &&& r == if dest == current_level {
                if current_level + 1 < max_level { current_level + 1 } else { max_level as int }
            } else {
                dest
            }
        },
{
    if has_tele_control {
        current_level
    } else {
        let dest = rng.rnd(max_level);
        if dest == current_level {
            let up = current_level + 1;
            if up < max_level { up } else { max_level }
        } else {
            dest
        }
    }
}

/// What a trap does to a ridden steed.
#[derive(Debug, Clone, Copy, PartialEq, Eq, Structural)]
pub enum SteedTrapResult {
    SteedTrapped,
    RiderUnseated,
    Passed,
}

/// Whether a kind of trap is a pit or a drop.
pub open spec fn is_drop_trap(t: TrapType) -> bool {
    t == TrapType::Pit || t == TrapType::SpikedPit || t == TrapType::Hole || t == TrapType::Trapdoor
}

/// What a trap does to a ridden steed: a steed in the air passes over pits
/// and drops; a bear trap or web catches it; in a pit the rider is thrown
/// one time in two, else the steed is caught; other traps are passed.
pub fn steed_trap_check(
    trap_type: TrapType,
    steed_flying: bool,
    steed_levitating: bool,
    rng: &mut NetHackRng,
) -> (r: SteedTrapResult)
    ensures
        ({
            let s0 = old(rng)@;
            if (steed_flying || steed_levitating) && is_drop_trap(trap_type) {
                r == SteedTrapResult::Passed && final(rng)@ == s0
            } else if trap_type == TrapType::BearTrap || trap_type == TrapType::Web {
                r == SteedTrapResult::SteedTrapped && final(rng)@ == s0
            } else if trap_type == TrapType::Pit || trap_type == TrapType::SpikedPit {
                &&& final(rng)@ == rng_next(s0)
                &&& r == if rng_roll(s0, 2) == 0 {
                    SteedTrapResult::RiderUnseated
                } else {
                    SteedTrapResult::SteedTrapped
                }
            } else {
                r == SteedTrapResult::Passed && final(rng)@ == s0
            }
        }),
{
    if (steed_flying || steed_levitating)
        && (trap_type == TrapType::Pit || trap_type == TrapType::SpikedPit || trap_type == TrapType::Hole
        || trap_type == TrapType::Trapdoor) {
        return SteedTrapResult::Passed;
    }
    match trap_type {
        TrapType::BearTrap => SteedTrapResult::SteedTrapped,
        TrapType::Pit | TrapType::SpikedPit => {
            if rng.rn2(2) == 0 {
                SteedTrapResult::RiderUnseated
            } else {
                SteedTrapResult::SteedTrapped
            }
        },
        TrapType::Web => SteedTrapResult::SteedTrapped,
        _ => SteedTrapResult::Passed,
    }
}

/// The name of note `k` of the chromatic scale from C, for `k` in `0..12`.
pub open spec fn note_name(k: int) -> Seq<char> {
    if k == 0 {
        "C"@
    } else if k == 1 {
        "C#"@
    } else if k == 2 {
        "D"@
    } else if k == 3 {
        "D#"@
    } else if k == 4 {
        "E"@
    } else if k == 5 {
        "F"@
    } else if k == 6 {
        "F#"@
    } else if k == 7 {
        "G"@
    } else if k == 8 {
        "G#"@
    } else if k == 9 {
        "A"@
    } else if k == 10 {
        "A#"@
    } else {
        "B"@
    }
}

/// The note a squeaky board sounds: the magnitude of `note_index` taken
/// round the twelve notes from C.
pub fn squeaky_board_note(note_index: i32) -> (r: &'static str)
    requires
        note_index > i32::MIN,
    ensures
        r@ == note_name((if note_index < 0 { -note_index } else { note_index as int }) % 12),
{
    let a = if note_index < 0 { -note_index } else { note_index };
    let k = a % 12;
    if k == 0 {
        "C"
    } else if k == 1 {
        "C#"
    } else if k == 2 {
        "D"
    } else if k == 3 {
        "D#"
    } else if k == 4 {
        "E"
    } else if k == 5 {
        "F"
    } else if k == 6 {
        "F#"
    } else if k == 7 {
        "G"
    } else if k == 8 {
        "G#"
    } else if k == 9 {
        "A"
    } else if k == 10 {
        "A#"
    } else {
        "B"
    }
}

/// A squeaky board's note, drawn from the twelve.
pub fn random_squeaky_note(rng: &mut NetHackRng) -> (r: &'static str)
    ensures
        r@ == note_name(rng_roll(old(rng)@, 12)),
        final(rng)@ == rng_next(old(rng)@),
{
    squeaky_board_note(rng.rn2(12))
}

} // verus!
