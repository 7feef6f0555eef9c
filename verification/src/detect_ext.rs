//! Detection and searching: how far away a level feels, search bonuses and
//! luck-adjusted discovery, which squares a search covers, how detection
//! reports what it found, crystal balls, secret doors and clairvoyance.
use vstd::prelude::*;
use crate::rng::{NetHackRng, rng_roll, rng_next};

verus! {

/// Squares searched on each side of the hero.
pub const SEARCH_RADIUS: i32 = 1;
/// Range of a bolt.
pub const BOLT_LIM: i32 = 8;
/// The highest search bonus.
pub const MAX_SEARCH_BONUS: i32 = 5;

/// No trapped object was found.
pub const OTRAP_NONE: u8 = 0;
/// A trapped object lies under the hero.
pub const OTRAP_HERE: u8 = 1;
/// A trapped object lies elsewhere.
pub const OTRAP_THERE: u8 = 2;

/// The phrase for a level `depth_diff` levels away (negative: below).
pub open spec fn level_distance_text(depth_diff: int, same_dungeon: bool, far_threshold: int) -> Seq<char> {
    if depth_diff < 0 {
        if depth_diff < -far_threshold {
            if !same_dungeon { "far away"@ } else { "far below"@ }
        } else if depth_diff < -1 {
            if !same_dungeon { "away below you"@ } else { "below you"@ }
        } else {
            if !same_dungeon { "in the distance"@ } else { "just below"@ }
        }
    } else if depth_diff > 0 {
        if depth_diff > far_threshold {
            if !same_dungeon { "far away"@ } else { "far above"@ }
        } else if depth_diff > 1 {
            if !same_dungeon { "away above you"@ } else { "above you"@ }
        } else {
            if !same_dungeon { "in the distance"@ } else { "just above"@ }
        }
    } else {
        if !same_dungeon { "in the distance"@ } else { "near you"@ }
    }
}

/// Describes how far away a level lies: `depth_diff` is the current depth
/// minus the target's, `far_threshold` the distance beyond which it is far.
pub fn calc_level_distance(depth_diff: i32, same_dungeon: bool, far_threshold: i32) -> (r: &'static str)
    requires
        depth_diff < 0 ==> far_threshold > i32::MIN,
    ensures
        r@ == level_distance_text(depth_diff as int, same_dungeon, far_threshold as int),
{
    if depth_diff < 0 {
        if depth_diff < -far_threshold {
            if !same_dungeon { "far away" } else { "far below" }
        } else if depth_diff < -1 {
            if !same_dungeon { "away below you" } else { "below you" }
        } else {
            if !same_dungeon { "in the distance" } else { "just below" }
        }
    } else if depth_diff > 0 {
        if depth_diff > far_threshold {
            if !same_dungeon { "far away" } else { "far above" }
        } else if depth_diff > 1 {
            if !same_dungeon { "away above you" } else { "above you" }
        } else {
            if !same_dungeon { "in the distance" } else { "just above" }
        }
    } else {
        if !same_dungeon { "in the distance" } else { "near you" }
    }
}

/// The search bonus: the enchantment of a searching artifact, plus 2 for
/// lenses, at most `MAX_SEARCH_BONUS`.
pub fn calc_search_bonus(has_search_artifact: bool, artifact_spe: i32, has_lenses: bool) -> (r: i32)
    requires
        has_search_artifact && has_lenses ==> artifact_spe <= i32::MAX - 2,
    ensures
        ({
            let fund = (if has_search_artifact { artifact_spe as int } else { 0int })
                + (if has_lenses { 2int } else { 0int });
            r == (if fund < MAX_SEARCH_BONUS { fund } else { MAX_SEARCH_BONUS as int })
        }),
{
    let mut fund = if has_search_artifact { artifact_spe } else { 0 };
    if has_lenses {
        fund += 2;
    }
    if fund < MAX_SEARCH_BONUS { fund } else { MAX_SEARCH_BONUS }
}

/// The luck-adjusted value of a draw `roll` from `0..x`: good luck lowers a
/// nonzero roll by up to the luck, bad luck raises it, capped at `x - 1`.
pub open spec fn luck_adjust(roll: int, x: int, luck: int) -> int {
    let a = if luck > 0 && roll != 0 {
        roll - (if luck < roll { luck } else { roll })
    } else {
        roll
    };
    let b = if luck < 0 {
        if a - luck >= x { x - 1 } else { a - luck }
    } else {
        a
    };
    if b < 0 { 0 } else { b }
}

/// A luck-adjusted draw from `0..x`; 0 without a draw when `x <= 0`.
pub fn rnl(x: i32, luck: i32, rng: &mut NetHackRng) -> (r: i32)
    requires
        luck >= x - 1 - i32::MAX,
    ensures
        x <= 0 ==> r == 0 && final(rng)@ == old(rng)@,
        x > 0 ==> {
            &&& final(rng)@ == rng_next(old(rng)@)
            &&& r == luck_adjust(rng_roll(old(rng)@, x as int), x as int, luck as int)
            &&& 0 <= r < x
        },
{
    if x <= 0 {
        return 0;
    }
    let mut result = rng.rn2(x);
    if luck > 0 && result != 0 {
        result -= if luck < result { luck } else { result };
    }
    if luck < 0 {
        result -= luck;
        if result >= x {
            result = x - 1;
        }
    }
    if result < 0 { 0 } else { result }
}

/// Whether a secret door stays hidden on this search: found for certain
/// when `fund` reaches 7, else hidden unless a luck-adjusted draw from
/// `0..7 - fund` is 0.
pub fn calc_secret_door_check(fund: i32, luck: i32, rng: &mut NetHackRng) -> (r: bool)
    requires
        fund >= 7 - i32::MAX,
        luck >= 6 - fund - i32::MAX,
    ensures
        7 - fund <= 0 ==> !r && final(rng)@ == old(rng)@,
        7 - fund > 0 ==> {
            &&& final(rng)@ == rng_next(old(rng)@)
            &&& r == (luck_adjust(rng_roll(old(rng)@, 7 - fund), 7 - fund, luck as int) != 0)
        },
{
    let threshold = 7 - fund;
    if threshold <= 0 {
        return false;
    }
    let roll = rnl(threshold, luck, rng);
    roll != 0
}

/// Whether a hidden trap is found: a luck-adjusted draw from `0..8` is 0.
pub fn calc_trap_discovery(luck: i32, rng: &mut NetHackRng) -> (r: bool)
    requires
        luck >= 7 - i32::MAX,
    ensures
        r == (luck_adjust(rng_roll(old(rng)@, 8), 8, luck as int) == 0),
        final(rng)@ == rng_next(old(rng)@),
{
    rnl(8, luck, rng) == 0
}

/// The square `(x, y)` when it lies on a `max_x` by `max_y` map, else nothing.
pub open spec fn keep_on_map(x: int, y: int, max_x: int, max_y: int) -> Seq<(i32, i32)> {
    if 0 <= x < max_x && 0 <= y < max_y {
        seq![(x as i32, y as i32)]
    } else {
        seq![]
    }
}

/// The eight neighbours of `(ux, uy)` that lie on the map, column by column
/// from the west and from the north within each column.
pub open spec fn neighbours_on_map(ux: int, uy: int, mx: int, my: int) -> Seq<(i32, i32)> {
    keep_on_map(ux - 1, uy - 1, mx, my) + keep_on_map(ux - 1, uy, mx, my) + keep_on_map(ux - 1, uy + 1, mx, my)
        + keep_on_map(ux, uy - 1, mx, my) + keep_on_map(ux, uy + 1, mx, my)
        + keep_on_map(ux + 1, uy - 1, mx, my) + keep_on_map(ux + 1, uy, mx, my)
        + keep_on_map(ux + 1, uy + 1, mx, my)
}

fn push_on_map(v: &mut Vec<(i32, i32)>, x: i32, y: i32, max_x: i32, max_y: i32)
    ensures
        final(v)@ == old(v)@ + keep_on_map(x as int, y as int, max_x as int, max_y as int),
{
    if x >= 0 && x < max_x && y >= 0 && y < max_y {
        v.push((x, y));
    }
}

/// The squares a search covers: the neighbours of `(ux, uy)` on a `max_x`
/// by `max_y` map.
pub fn search_adjacent_positions(ux: i32, uy: i32, max_x: i32, max_y: i32) -> (r: Vec<(i32, i32)>)
    requires
        i32::MIN < ux < i32::MAX,
        i32::MIN < uy < i32::MAX,
    ensures
        r@ == neighbours_on_map(ux as int, uy as int, max_x as int, max_y as int),
{
    let mut v: Vec<(i32, i32)> = Vec::new();
    push_on_map(&mut v, ux - 1, uy - 1, max_x, max_y);
    push_on_map(&mut v, ux - 1, uy, max_x, max_y);
    push_on_map(&mut v, ux - 1, uy + 1, max_x, max_y);
    push_on_map(&mut v, ux, uy - 1, max_x, max_y);
    push_on_map(&mut v, ux, uy + 1, max_x, max_y);
    push_on_map(&mut v, ux + 1, uy - 1, max_x, max_y);
    push_on_map(&mut v, ux + 1, uy, max_x, max_y);
    push_on_map(&mut v, ux + 1, uy + 1, max_x, max_y);
    v
}

/// How a detection reports what it found.
#[derive(Debug, Clone, PartialEq, Eq, Structural)]
pub enum DetectionResult {
    /// Nothing was found.
    NothingDetected,
    /// Only what the hero stands on was found; the map needs no update.
    DetectedHereOnly,
    /// Something elsewhere was found and is shown on the map.
    DetectedElsewhere,
}

/// Gold detection: gold elsewhere (on the floor or carried by monsters) is
/// shown; otherwise gold on the hero's square, in the pack, a golden hero or
/// a steed's gold is felt here; else nothing.
pub fn calc_gold_detection(
    gold_on_floor_at_hero: bool,
    gold_on_floor_elsewhere: bool,
    gold_in_inventory: bool,
    gold_on_monsters: bool,
    is_gold_golem: bool,
    steed_has_gold: bool,
) -> (r: DetectionResult)
    ensures
        r == (if gold_on_floor_elsewhere || gold_on_monsters {
            DetectionResult::DetectedElsewhere
        } else if gold_on_floor_at_hero || gold_in_inventory || is_gold_golem || steed_has_gold {
            DetectionResult::DetectedHereOnly
        } else {
            DetectionResult::NothingDetected
        }),
{
    let found_elsewhere = gold_on_floor_elsewhere || gold_on_monsters;
    if found_elsewhere {
        DetectionResult::DetectedElsewhere
    } else if gold_on_floor_at_hero || gold_in_inventory || is_gold_golem || steed_has_gold {
        DetectionResult::DetectedHereOnly
    } else {
        DetectionResult::NothingDetected
    }
}

/// Food detection from the counts found here and elsewhere.
pub fn calc_food_detection(count_here: i32, count_there: i32) -> (r: DetectionResult)
    ensures
        r == (if count_here == 0 && count_there == 0 {
            DetectionResult::NothingDetected
        } else if count_there == 0 {
            DetectionResult::DetectedHereOnly
        } else {
            DetectionResult::DetectedElsewhere
        }),
{
    if count_here == 0 && count_there == 0 {
        DetectionResult::NothingDetected
    } else if count_there == 0 {
        DetectionResult::DetectedHereOnly
    } else {
        DetectionResult::DetectedElsewhere
    }
}

/// Monster detection: any living monster is shown.
pub fn calc_monster_detection(living_count: i32) -> (r: DetectionResult)
    ensures
        r == (if living_count == 0 {
            DetectionResult::NothingDetected
        } else {
            DetectionResult::DetectedElsewhere
        }),
{
    if living_count == 0 {
        DetectionResult::NothingDetected
    } else {
        DetectionResult::DetectedElsewhere
    }
}

/// Trap detection over floor traps, trapped objects (`OTRAP_*` bits) and
/// trapped doors.
pub fn calc_trap_detection(
    traps_at_hero: bool,
    traps_elsewhere: bool,
    obj_trap_bits: u8,
    door_traps_at_hero: bool,
    door_traps_elsewhere: bool,
) -> (r: DetectionResult)
    ensures
        r == (if traps_elsewhere || obj_trap_bits & OTRAP_THERE != 0 || door_traps_elsewhere {
            DetectionResult::DetectedElsewhere
        } else if traps_at_hero || obj_trap_bits & OTRAP_HERE != 0 || door_traps_at_hero {
            DetectionResult::DetectedHereOnly
        } else {
            DetectionResult::NothingDetected
        }),
{
    let found_elsewhere = traps_elsewhere || (obj_trap_bits & OTRAP_THERE) != 0 || door_traps_elsewhere;
    let found_here = traps_at_hero || (obj_trap_bits & OTRAP_HERE) != 0 || door_traps_at_hero;
    if found_elsewhere {
        DetectionResult::DetectedElsewhere
    } else if found_here {
        DetectionResult::DetectedHereOnly
    } else {
        DetectionResult::NothingDetected
    }
}

/// What gazing into a crystal ball gives.
#[derive(Debug, Clone, PartialEq, Eq)]
pub enum CrystalBallResult {
    /// A detection is performed.
    Detection { detect_type: CrystalBallDetection },
    /// The ball overwhelms the mind.
    Overload { int_damage: i32 },
    /// The hero cannot see into it.
    NoVision,
}

/// What a crystal ball detects.
#[derive(Debug, Clone, PartialEq, Eq)]
pub enum CrystalBallDetection {
    Objects,
    Monsters,
    Traps,
    LevelFeature { feature_name: String },
}

/// Whether a crystal ball overwhelms its user: with positive enchantment
/// when a draw from `0..3 * spe` is 0, always otherwise.
pub fn calc_crystal_ball_oops(spe: i32, int_current: i32, rng: &mut NetHackRng) -> (r: bool)
    requires
        spe <= i32::MAX / 3,
    ensures
        spe > 0 ==> r == (rng_roll(old(rng)@, 3 * spe) == 0) && final(rng)@ == rng_next(old(rng)@),
        spe <= 0 ==> r && final(rng)@ == old(rng)@,
{
    if spe > 0 {
        rng.rn2(spe * 3) == 0
    } else {
        true
    }
}

/// The intelligence lost to an overwhelming crystal ball, drawn from `1..=8`.
pub fn calc_crystal_ball_int_damage(rng: &mut NetHackRng) -> (r: i32)
    ensures
        r == rng_roll(old(rng)@, 8) + 1,
        final(rng)@ == rng_next(old(rng)@),
{
    rng.rnd(8)
}

/// A secret door.
pub const S_DOOR: u8 = 1;
/// A secret corridor.
pub const S_CORR: u8 = 2;
/// A door.
pub const DOOR: u8 = 3;
/// A corridor.
pub const CORR: u8 = 4;

/// A doorway without a door.
pub const D_NODOOR: u8 = 0x01;
/// A broken door.
pub const D_BROKEN: u8 = 0x02;
/// An open door.
pub const D_ISOPEN: u8 = 0x04;
/// A closed door.
pub const D_CLOSED: u8 = 0x08;
/// A locked door.
pub const D_LOCKED: u8 = 0x10;
/// A trapped door.
pub const D_TRAPPED: u8 = 0x20;

/// Turns a secret door into a door: a trapped one becomes locked and
/// trapped, a locked one locked, any other closed.
pub fn calc_cvt_sdoor_to_door(doormask: u8) -> (r: (u8, u8))
    ensures
        r.0 == DOOR,
        r.1 == (if doormask & D_TRAPPED != 0 {
            D_LOCKED | D_TRAPPED
        } else if doormask & D_LOCKED != 0 {
            D_LOCKED
        } else {
            D_CLOSED
        }),
{
    let new_mask = if doormask & D_TRAPPED != 0 {
        D_LOCKED | D_TRAPPED
    } else if doormask & D_LOCKED != 0 {
        D_LOCKED
    } else {
        D_CLOSED
    };
    (DOOR, new_mask)
}

/// The bounds `(x_min, x_max, y_min, y_max)` seen by clairvoyance around
/// `(ux, uy)`: a radius of 8 when blessed or 5 otherwise, shifted by two
/// draws from `-1..=1` (first across, then down) and kept on the map.
pub fn calc_clairvoyance_range(
    ux: i32,
    uy: i32,
    is_blessed: bool,
    max_x: i32,
    max_y: i32,
    rng: &mut NetHackRng,
) -> (r: (i32, i32, i32, i32))
    requires
        i32::MIN + 9 <= ux <= i32::MAX - 9,
        i32::MIN + 9 <= uy <= i32::MAX - 9,
        max_x > i32::MIN,
        max_y > i32::MIN,
    ensures
        ({
            let range: int = if is_blessed { 8 } else { 5 };
            let s0 = old(rng)@;
            let dx = rng_roll(s0, 3) - 1;
            let dy = rng_roll(rng_next(s0), 3) - 1;
            let x_lo = ux - range + dx;
            let x_hi = ux + range + dx;
            let y_lo = uy - range + dy;
            let y_hi = uy + range + dy;
            &&& r.0 == (if x_lo > 0 { x_lo } else { 0 })
            &&& r.1 == (if x_hi < max_x - 1 { x_hi } else { max_x - 1 })
            &&& r.2 == (if y_lo > 0 { y_lo } else { 0 })
            &&& r.3 == (if y_hi < max_y - 1 { y_hi } else { max_y - 1 })
            &&& final(rng)@ == rng_next(rng_next(s0))
        }),
{
    let range: i32 = if is_blessed { 8 } else { 5 };
    let dx = rng.rn2(3) - 1;
    let dy = rng.rn2(3) - 1;
    let x_lo = ux - range + dx;
    let x_hi = ux + range + dx;
    let y_lo = uy - range + dy;
    let y_hi = uy + range + dy;
    let x_min = if x_lo > 0 { x_lo } else { 0 };
    let x_max = if x_hi < max_x - 1 { x_hi } else { max_x - 1 };
    let y_min = if y_lo > 0 { y_lo } else { 0 };
    let y_max = if y_hi < max_y - 1 { y_hi } else { max_y - 1 };
    (x_min, x_max, y_min, y_max)
}

/// Whether magic mapping shows a square: walls and stone, doors, and squares
/// not yet explored.
pub fn should_map_tile(tile_type: u8, is_wall_or_stone: bool, has_door: bool, is_explored: bool) -> (r: bool)
    ensures
        r == (is_wall_or_stone || has_door || !is_explored),
{
    if is_wall_or_stone {
        return true;
    }
    if has_door {
        return true;
    }
    if !is_explored {
        return true;
    }
    false
}

} // verus!
