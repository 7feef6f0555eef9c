//! Musical instruments: which effect an instrument has, how far its sound
//! carries, how the hero improvises when impaired, and the five-note tune
//! that opens a drawbridge.
use vstd::prelude::*;
use crate::num::div_trunc;
use crate::rng::{NetHackRng, rng_roll, rng_next};

verus! {

/// What playing an instrument does.
#[derive(Debug, Clone, Copy, PartialEq, Eq, Structural)]
pub enum InstrumentEffect {
    PutToSleep,
    CharmSnakes,
    FireBeam,
    FrostBeam,
    Awaken,
    AwakenSoldiers,
    CharmMonsters,
    CalmNymphs,
    Earthquake,
    DrumBeat,
    Unknown,
}

pub const MAGIC_FLUTE: i32 = 0;
pub const WOODEN_FLUTE: i32 = 1;
pub const FIRE_HORN: i32 = 2;
pub const FROST_HORN: i32 = 3;
pub const TOOLED_HORN: i32 = 4;
pub const BUGLE: i32 = 5;
pub const MAGIC_HARP: i32 = 6;
pub const WOODEN_HARP: i32 = 7;
pub const DRUM_OF_EARTHQUAKE: i32 = 8;
pub const LEATHER_DRUM: i32 = 9;

/// The instrument that actually sounds: a magic flute, harp or drum that
/// cannot work its magic plays as its mundane counterpart.
pub open spec fn sounding_instrument(otyp: int, can_special: bool) -> int {
    if can_special {
        otyp
    } else if otyp == MAGIC_FLUTE {
        WOODEN_FLUTE as int
    } else if otyp == MAGIC_HARP {
        WOODEN_HARP as int
    } else if otyp == DRUM_OF_EARTHQUAKE {
        LEATHER_DRUM as int
    } else {
        otyp
    }
}

/// The effect of an instrument of kind `otyp`.
pub open spec fn effect_of(otyp: int) -> InstrumentEffect {
    if otyp == MAGIC_FLUTE {
        InstrumentEffect::PutToSleep
    } else if otyp == WOODEN_FLUTE {
        InstrumentEffect::CharmSnakes
    } else if otyp == FIRE_HORN {
        InstrumentEffect::FireBeam
    } else if otyp == FROST_HORN {
        InstrumentEffect::FrostBeam
    } else if otyp == TOOLED_HORN {
        InstrumentEffect::Awaken
    } else if otyp == BUGLE {
        InstrumentEffect::AwakenSoldiers
    } else if otyp == MAGIC_HARP {
        InstrumentEffect::CharmMonsters
    } else if otyp == WOODEN_HARP {
        InstrumentEffect::CalmNymphs
    } else if otyp == DRUM_OF_EARTHQUAKE {
        InstrumentEffect::Earthquake
    } else if otyp == LEATHER_DRUM {
        InstrumentEffect::DrumBeat
    } else {
        InstrumentEffect::Unknown
    }
}

/// The effect of playing an instrument; `can_special` says whether a magic
/// instrument can work its magic now.
pub fn instrument_effect_type(otyp: i32, can_special: bool) -> (r: InstrumentEffect)
    ensures
        r == effect_of(sounding_instrument(otyp as int, can_special)),
{
    let t = if !can_special {
        if otyp == MAGIC_FLUTE {
            WOODEN_FLUTE
        } else if otyp == MAGIC_HARP {
            WOODEN_HARP
        } else if otyp == DRUM_OF_EARTHQUAKE {
            LEATHER_DRUM
        } else {
            otyp
        }
    } else {
        otyp
    };
    if t == MAGIC_FLUTE {
        InstrumentEffect::PutToSleep
    } else if t == WOODEN_FLUTE {
        InstrumentEffect::CharmSnakes
    } else if t == FIRE_HORN {
        InstrumentEffect::FireBeam
    } else if t == FROST_HORN {
        InstrumentEffect::FrostBeam
    } else if t == TOOLED_HORN {
        InstrumentEffect::Awaken
    } else if t == BUGLE {
        InstrumentEffect::AwakenSoldiers
    } else if t == MAGIC_HARP {
        InstrumentEffect::CharmMonsters
    } else if t == WOODEN_HARP {
        InstrumentEffect::CalmNymphs
    } else if t == DRUM_OF_EARTHQUAKE {
        InstrumentEffect::Earthquake
    } else if t == LEATHER_DRUM {
        InstrumentEffect::DrumBeat
    } else {
        InstrumentEffect::Unknown
    }
}

/// The squared distance within which an instrument wakes monsters.
pub open spec fn awaken_distance(level: int, instrument: InstrumentEffect, mundane_drum: bool) -> int {
    match instrument {
        InstrumentEffect::Awaken => level * 30,
        InstrumentEffect::AwakenSoldiers => level * 30,
        InstrumentEffect::DrumBeat => if mundane_drum { level * 5 } else { level * 40 },
        InstrumentEffect::Earthquake => 1680int,
        _ => 0int,
    }
}

/// The squared distance within which an instrument wakes monsters: thirty
/// per level for a horn or bugle, five (forty if magic) for a drum, the
/// whole level for an earthquake.
pub fn awaken_range(player_level: i32, instrument: InstrumentEffect, mundane_drum: bool) -> (r: i32)
    requires
        i32::MIN <= awaken_distance(player_level as int, instrument, mundane_drum) <= i32::MAX,
    ensures
        r == awaken_distance(player_level as int, instrument, mundane_drum),
{
    match instrument {
        InstrumentEffect::Awaken => player_level * 30,
        InstrumentEffect::AwakenSoldiers => player_level * 30,
        InstrumentEffect::DrumBeat => {
            if mundane_drum {
                player_level * 5
            } else {
                player_level * 40
            }
        },
        InstrumentEffect::Earthquake => 80 * 21,
        _ => 0,
    }
}

/// The squared distance within which a magic flute puts monsters to sleep.
pub fn sleep_range(player_level: i32) -> (r: i32)
    requires
        i32::MIN <= player_level * 5 <= i32::MAX,
    ensures
        r == player_level * 5,
{
    player_level * 5
}

/// The squared distance within which a magic harp charms monsters.
pub fn charm_range(player_level: i32) -> (r: i32)
    requires
        player_level > i32::MIN,
    ensures
        r == div_trunc(player_level - 1, 3) + 1,
{
    (player_level - 1) / 3 + 1
}

/// The squared distance within which a wooden flute charms snakes.
pub fn snake_charm_range(player_level: i32) -> (r: i32)
    requires
        i32::MIN <= player_level * 3 <= i32::MAX,
    ensures
        r == player_level * 3,
{
    player_level * 3
}

/// The squared distance within which a wooden harp calms nymphs.
pub fn nymph_calm_range(player_level: i32) -> (r: i32)
    requires
        i32::MIN <= player_level * 3 <= i32::MAX,
    ensures
        r == player_level * 3,
{
    player_level * 3
}

/// The square an earthquake shakes, as offsets from the hero: twice the
/// force `(level - 1) / 3 + 1` on each side.
pub fn earthquake_range(player_level: i32) -> (r: (i32, i32, i32, i32))
    requires
        player_level > i32::MIN,
    ensures
        ({
            let extend = (div_trunc(player_level - 1, 3) + 1) * 2;
            r == (-extend as i32, -extend as i32, extend as i32, extend as i32)
        }),
{
    let force = (player_level - 1) / 3 + 1;
    let extend = force * 2;
    (-extend, -extend, extend, extend)
}

/// One pit in `14 - force` squares, at least one in two.
pub fn earthquake_pit_chance(force: i32) -> (r: i32)
    requires
        14 - force <= i32::MAX,
    ensures
        r == (if 14 - force > 2 { 14 - force } else { 2 }),
{
    let c = 14 - force;
    if c > 2 { c } else { 2 }
}

/// How an impaired hero improvises.
#[derive(Debug, Clone, Copy, PartialEq, Eq, Structural)]
pub enum ImprovMode {
    Normal,
    Stunned,
    Confused,
    Hallucinating,
    MixedImpaired,
}

/// The improvisation for a set of impairments that stayed as they were.
pub open spec fn plain_improv(stunned: bool, confused: bool, hallucinating: bool) -> ImprovMode {
    if stunned && !confused && !hallucinating {
        ImprovMode::Stunned
    } else if !stunned && confused && !hallucinating {
        ImprovMode::Confused
    } else if !stunned && !confused && hallucinating {
        ImprovMode::Hallucinating
    } else {
        ImprovMode::MixedImpaired
    }
}

/// How the hero improvises. An unimpaired hero plays normally and draws
/// nothing. Otherwise one draw in two simplifies the impairments:
/// hallucination wins over the rest, and being both stunned and confused
/// becomes one of them by a second coin flip.
pub fn improvisation_mode(
    is_stunned: bool,
    is_confused: bool,
    is_hallucinating: bool,
    rng: &mut NetHackRng,
) -> (r: ImprovMode)
    ensures
        ({
            let s0 = old(rng)@;
            let s1 = rng_next(s0);
            if !is_stunned && !is_confused && !is_hallucinating {
                r == ImprovMode::Normal && final(rng)@ == s0
            } else if rng_roll(s0, 2) != 0 {
                r == plain_improv(is_stunned, is_confused, is_hallucinating) && final(rng)@ == s1
            } else if is_hallucinating {
                r == ImprovMode::Hallucinating && final(rng)@ == s1
            } else if is_stunned && is_confused {
                &&& r == (if rng_roll(s1, 2) == 0 { ImprovMode::Stunned } else { ImprovMode::Confused })
                &&& final(rng)@ == rng_next(s1)
            } else {
                r == plain_improv(is_stunned, is_confused, false) && final(rng)@ == s1
            }
        }),
{
    let mut mode: u8 = 0;
    if is_stunned {
        mode = mode + 1;
    }
    if is_confused {
        mode = mode + 2;
    }
    if is_hallucinating {
        mode = mode + 4;
    }
    if mode == 0 {
        return ImprovMode::Normal;
    }
    if rng.rn2(2) == 0 {
        if mode == 3 {
            mode = if rng.rn2(2) == 0 { 1 } else { 2 };
        }
        if mode >= 4 {
            mode = 4;
        }
    }
    if mode == 1 {
        ImprovMode::Stunned
    } else if mode == 2 {
        ImprovMode::Confused
    } else if mode == 4 {
        ImprovMode::Hallucinating
    } else {
        ImprovMode::MixedImpaired
    }
}

/// What the drawbridge answers to a tune: notes in the right place
/// (gears), notes of the tune heard in the wrong place (tumblers), and
/// whether the tune was exact.
#[derive(Debug, Clone, PartialEq, Eq, Structural)]
pub struct TuneCheckResult {
    pub gears: i32,
    pub tumblers: i32,
    pub perfect_match: bool,
}

/// Whether position `k` of a played tune is a gear.
pub open spec fn is_gear(p: Seq<u8>, c: Seq<u8>, k: int) -> bool {
    p[k] == c[k]
}

/// The number of gears among the first `n` positions.
pub open spec fn gear_count(p: Seq<u8>, c: Seq<u8>, n: int) -> int
    decreases n,
{
    if n <= 0 {
        0
    } else {
        gear_count(p, c, n - 1) + if is_gear(p, c, n - 1) { 1int } else { 0int }
    }
}

/// Whether position `j` of the tune can still answer the note `x`: it is no
/// gear, has not answered yet, and holds `x`.
pub open spec fn can_answer(p: Seq<u8>, c: Seq<u8>, used: Seq<bool>, x: u8, j: int) -> bool {
    !used[j] && c[j] == x && p[j] != c[j]
}

/// The first position from `from` on that can answer `x`, or 5.
pub open spec fn first_answer(p: Seq<u8>, c: Seq<u8>, used: Seq<bool>, x: u8, from: int) -> int
    decreases 5 - from,
{
    if from >= 5 {
        5
    } else if can_answer(p, c, used, x, from) {
        from
    } else {
        first_answer(p, c, used, x, from + 1)
    }
}

/// The tumblers counted and the positions used after the first `i` notes
/// of the played tune: each misplaced note takes the first position of the
/// tune that can still answer it.
pub open spec fn tumble(p: Seq<u8>, c: Seq<u8>, i: int) -> (int, Seq<bool>)
    decreases i,
{
    if i <= 0 {
        (0, Seq::new(5, |k: int| is_gear(p, c, k)))
    } else {
        let (t, used) = tumble(p, c, i - 1);
        if is_gear(p, c, i - 1) {
            (t, used)
        } else {
            let j = first_answer(p, c, used, p[i - 1], 0);
            if j < 5 {
                (t + 1, used.update(j, true))
            } else {
                (t, used)
            }
        }
    }
}

proof fn lemma_first_answer(p: Seq<u8>, c: Seq<u8>, used: Seq<bool>, x: u8, from: int, j: int)
    requires
        0 <= from <= j <= 5,
        forall|k: int| from <= k < j ==> !can_answer(p, c, used, x, k),
        j < 5 ==> can_answer(p, c, used, x, j),
    ensures
        first_answer(p, c, used, x, from) == j,
    decreases j - from,
{
    if from < j {
        lemma_first_answer(p, c, used, x, from + 1, j);
    }
}

proof fn lemma_tumble_bounds(p: Seq<u8>, c: Seq<u8>, i: int)
    requires
        0 <= i <= 5,
    ensures
        tumble(p, c, i).1.len() == 5,
        0 <= tumble(p, c, i).0 <= i,
    decreases i,
{
    if i > 0 {
        lemma_tumble_bounds(p, c, i - 1);
        let (t, used) = tumble(p, c, i - 1);
        if !is_gear(p, c, i - 1) {
            let j = first_answer(p, c, used, p[i - 1], 0);
            lemma_first_answer_range(p, c, used, p[i - 1], 0);
        }
    }
}

proof fn lemma_first_answer_range(p: Seq<u8>, c: Seq<u8>, used: Seq<bool>, x: u8, from: int)
    requires
        0 <= from <= 5,
    ensures
        from <= first_answer(p, c, used, x, from) <= 5,
    decreases 5 - from,
{
    if from < 5 {
        lemma_first_answer_range(p, c, used, x, from + 1);
    }
}

fn answer_position(played: &[u8; 5], correct: &[u8; 5], used: &Vec<bool>, x: u8) -> (j: usize)
    requires
        used.len() == 5,
    ensures
        j as int == first_answer(played@, correct@, used@, x, 0),
        j <= 5,
{
    let mut j: usize = 0;
    while j < 5
        invariant
            j <= 5,
            used.len() == 5,
            forall|k: int| 0 <= k < j ==> !can_answer(played@, correct@, used@, x, k),
        decreases 5 - j,
    {
        if !used[j] && correct[j] == x && played[j] != correct[j] {
            proof {
                lemma_first_answer(played@, correct@, used@, x, 0, j as int);
            }
            return j;
        }
        j = j + 1;
    }
    proof {
        lemma_first_answer(played@, correct@, used@, x, 0, 5);
    }
    5
}

/// Compares a played tune with the drawbridge's, as in Mastermind: gears
/// count the notes in the right place; then each misplaced note takes the
/// first position of the tune that holds it and is neither a gear nor taken
/// yet, and counts as a tumbler. An exact tune reports five gears.
pub fn drawbridge_tune_check(played: &[u8; 5], correct: &[u8; 5]) -> (r: TuneCheckResult)
    ensures
        r.perfect_match <==> played@ == correct@,
        r.gears == gear_count(played@, correct@, 5),
        r.tumblers == (if played@ == correct@ { 0 } else { tumble(played@, correct@, 5).0 }),
{
    let mut gears: i32 = 0;
    let mut used: Vec<bool> = Vec::new();
    let mut i: usize = 0;
    while i < 5
        invariant
            i <= 5,
            used.len() == i,
            gears == gear_count(played@, correct@, i as int),
            0 <= gears <= i,
            forall|k: int| 0 <= k < i ==> used@[k] == is_gear(played@, correct@, k),
        decreases 5 - i,
    {
        let g = played[i] == correct[i];
        if g {
            gears = gears + 1;
        }
        used.push(g);
        i = i + 1;
    }
    if gears == 5 {
        assert(played@ =~= correct@) by {
            lemma_all_gears(played@, correct@, 5);
        }
        return TuneCheckResult { gears: 5, tumblers: 0, perfect_match: true };
    }
    assert(played@ != correct@) by {
        if played@ == correct@ {
            lemma_gears_of_equal(played@, correct@, 5);
        }
    }
    assert(used@ =~= tumble(played@, correct@, 0).1);
    let mut tumblers: i32 = 0;
    let mut i: usize = 0;
    while i < 5
        invariant
            i <= 5,
            used.len() == 5,
            tumble(played@, correct@, i as int) == (tumblers as int, used@),
            0 <= tumblers <= i,
        decreases 5 - i,
    {
        proof {
            lemma_tumble_bounds(played@, correct@, i as int);
        }
        if played[i] != correct[i] {
            let j = answer_position(played, correct, &used, played[i]);
            if j < 5 {
                tumblers = tumblers + 1;
                used.set(j, true);
            }
        }
        i = i + 1;
    }
    TuneCheckResult { gears, tumblers, perfect_match: false }
}

proof fn lemma_all_gears(p: Seq<u8>, c: Seq<u8>, n: int)
    requires
        0 <= n <= 5,
        p.len() == 5,
        c.len() == 5,
        gear_count(p, c, n) == n,
    ensures
        forall|k: int| 0 <= k < n ==> p[k] == c[k],
    decreases n,
{
    if n > 0 {
        lemma_gear_count_le(p, c, n - 1);
        lemma_all_gears(p, c, n - 1);
    }
}

proof fn lemma_gear_count_le(p: Seq<u8>, c: Seq<u8>, n: int)
    requires
        0 <= n,
    ensures
        0 <= gear_count(p, c, n) <= n,
    decreases n,
{
    if n > 0 {
        lemma_gear_count_le(p, c, n - 1);
    }
}

proof fn lemma_gears_of_equal(p: Seq<u8>, c: Seq<u8>, n: int)
    requires
        0 <= n <= 5,
        p == c,
    ensures
        gear_count(p, c, n) == n,
    decreases n,
{
    if n > 0 {
        lemma_gears_of_equal(p, c, n - 1);
    }
}

/// Kinds of level, for describing where a sound comes from.
#[derive(Debug, Clone, Copy, PartialEq, Eq, Structural)]
pub enum LevelType {
    Astral,
    Endgame,
    Sanctum,
    Sokoban,
    VladsTower,
    Normal,
}

/// The word for a kind of level.
pub open spec fn lvl_desc(t: LevelType) -> Seq<char> {
    match t {
        LevelType::Astral => "astral plane"@,
        LevelType::Endgame => "plane"@,
        LevelType::Sanctum => "sanctum"@,
        LevelType::Sokoban => "puzzle"@,
        LevelType::VladsTower => "tower"@,
        LevelType::Normal => "dungeon"@,
    }
}

/// The word for a kind of level.
pub fn generic_lvl_desc(level_type: LevelType) -> (r: &'static str)
    ensures
        r@ == lvl_desc(level_type),
{
    match level_type {
        LevelType::Astral => "astral plane",
        LevelType::Endgame => "plane",
        LevelType::Sanctum => "sanctum",
        LevelType::Sokoban => "puzzle",
        LevelType::VladsTower => "tower",
        LevelType::Normal => "dungeon",
    }
}

/// How long a leather drum deafens the hero: 30 to 49 turns.
pub fn drum_deafness_duration(rng: &mut NetHackRng) -> (r: i32)
    ensures
        r == rng_roll(old(rng)@, 20) + 30,
        final(rng)@ == rng_next(old(rng)@),
        30 <= r <= 49,
{
    rng.rn1(20, 30)
}

/// What blowing a fire or frost horn does.
#[derive(Debug, Clone, Copy, PartialEq, Eq, Structural)]
pub enum HornResult {
    NoDirection,
    SelfTarget,
    Beam { beam_type: i32, intensity: i32 },
}

/// Blowing a fire or frost horn: without a direction it only vibrates, at
/// oneself it hits the hero, otherwise it fires a beam (cold 1, fire 0) of
/// strength 6 to 11.
pub fn horn_direction_result(
    is_frost: bool,
    has_direction: bool,
    dx: i32,
    dy: i32,
    dz: i32,
    rng: &mut NetHackRng,
) -> (r: HornResult)
    ensures
        !has_direction ==> r == HornResult::NoDirection && final(rng)@ == old(rng)@,
        has_direction && dx == 0 && dy == 0 && dz == 0 ==> r == HornResult::SelfTarget && final(rng)@ == old(rng)@,
        has_direction && !(dx == 0 && dy == 0 && dz == 0) ==> {
            &&& r == (HornResult::Beam {
                beam_type: if is_frost { 1i32 } else { 0i32 },
                intensity: (rng_roll(old(rng)@, 6) + 6) as i32,
            })
            &&& final(rng)@ == rng_next(old(rng)@)
        },
{
    if !has_direction {
        return HornResult::NoDirection;
    }
    if dx == 0 && dy == 0 && dz == 0 {
        return HornResult::SelfTarget;
    }
    let beam_type = if is_frost { 1 } else { 0 };
    let intensity = rng.rn1(6, 6);
    HornResult::Beam { beam_type, intensity }
}

/// Whether a wooden flute charms snakes: a draw from `0..dexterity` plus the
/// hero's level must exceed 25.
pub fn flute_charm_check(dexterity: i32, player_level: i32, rng: &mut NetHackRng) -> (r: bool)
    requires
        dexterity > 0,
        i32::MIN <= dexterity + player_level <= i32::MAX,
    ensures
        r == (rng_roll(old(rng)@, dexterity as int) + player_level > 25),
        final(rng)@ == rng_next(old(rng)@),
{
    rng.rn2(dexterity) + player_level > 25
}

/// Whether a wooden harp calms nymphs: a draw from `0..dexterity` plus the
/// hero's level must exceed 25.
pub fn harp_calm_check(dexterity: i32, player_level: i32, rng: &mut NetHackRng) -> (r: bool)
    requires
        dexterity > 0,
        i32::MIN <= dexterity + player_level <= i32::MAX,
    ensures
        r == (rng_roll(old(rng)@, dexterity as int) + player_level > 25),
        final(rng)@ == rng_next(old(rng)@),
{
    rng.rn2(dexterity) + player_level > 25
}

} // verus!
