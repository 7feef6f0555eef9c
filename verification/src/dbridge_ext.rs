//! Drawbridges: what lies under them, which wall holds them, who escapes a
//! falling bridge, the debris of a destroyed one and the gas clouds that
//! may follow.
use vstd::prelude::*;
use crate::rng::{NetHackRng, rng_roll, rng_next};

verus! {

/// The bridge opens to the north.
pub const DB_NORTH: i32 = 0;
/// The bridge opens to the south.
pub const DB_SOUTH: i32 = 1;
/// The bridge opens to the east.
pub const DB_EAST: i32 = 2;
/// The bridge opens to the west.
pub const DB_WEST: i32 = 3;

/// Mask of the bits that tell what lies under a bridge.
pub const DB_UNDER: i32 = 0x1C;
/// Ice lies under the bridge.
pub const DB_ICE: i32 = 0x04;
/// Lava lies under the bridge.
pub const DB_LAVA: i32 = 0x08;
/// A moat lies under the bridge.
pub const DB_MOAT: i32 = 0x10;

/// The terrain under a drawbridge.
#[derive(Debug, Clone, Copy, PartialEq, Eq, Structural)]
pub enum DbUnderType {
    Ice,
    Lava,
    Moat,
    Stone,
}

/// Whether a falling bridge or portcullis hits a creature.
#[derive(Debug, Clone, Copy, PartialEq, Eq, Structural)]
pub enum DbDodgeResult {
    /// It passes through walls or has no body.
    AutoMiss,
    /// It got out of the way.
    Dodged,
    /// It was hit.
    Hit,
}

/// Whether a creature jumps clear of a closing bridge.
#[derive(Debug, Clone, Copy, PartialEq, Eq, Structural)]
pub enum DbJumpResult {
    /// It cannot move.
    CannotJump,
    /// It jumped clear.
    Jumped,
    /// It was crushed.
    Failed,
}

/// The chains left by a destroyed bridge.
#[derive(Debug, Clone, Copy, PartialEq, Eq)]
pub struct DebrisResult {
    pub chain_count: i32,
}

/// The offset from a bridge to the wall that holds it.
#[derive(Debug, Clone, Copy, PartialEq, Eq)]
pub struct WallOffset {
    pub dx: i32,
    pub dy: i32,
}

/// The terrain under a bridge whose mask is `mask`.
pub open spec fn under_of(mask: i32) -> DbUnderType {
    let u = mask & DB_UNDER;
    if u == DB_ICE {
        DbUnderType::Ice
    } else if u == DB_LAVA {
        DbUnderType::Lava
    } else if u == DB_MOAT {
        DbUnderType::Moat
    } else {
        DbUnderType::Stone
    }
}

/// The terrain under a bridge, read from bits 2 to 4 of its mask.
pub fn db_under_type(mask: i32) -> (r: DbUnderType)
    ensures
        r == under_of(mask),
{
    let u = mask & DB_UNDER;
    if u == DB_ICE {
        DbUnderType::Ice
    } else if u == DB_LAVA {
        DbUnderType::Lava
    } else if u == DB_MOAT {
        DbUnderType::Moat
    } else {
        DbUnderType::Stone
    }
}

/// The offset from a bridge opening to `direction` to its wall; no offset
/// for an unknown direction.
pub fn wall_for_db(direction: i32) -> (r: WallOffset)
    ensures
        direction == DB_NORTH ==> r.dx == 0 && r.dy == -1,
        direction == DB_SOUTH ==> r.dx == 0 && r.dy == 1,
        direction == DB_EAST ==> r.dx == 1 && r.dy == 0,
        direction == DB_WEST ==> r.dx == -1 && r.dy == 0,
        !(0 <= direction <= 3) ==> r.dx == 0 && r.dy == 0,
{
    match direction {
        0 => WallOffset { dx: 0, dy: -1 },
        1 => WallOffset { dx: 0, dy: 1 },
        2 => WallOffset { dx: 1, dy: 0 },
        3 => WallOffset { dx: -1, dy: 0 },
        _ => WallOffset { dx: 0, dy: 0 },
    }
}

/// The chance, in eighths, that a creature escapes a falling bridge.
pub open spec fn miss_chance(
    is_flyer: bool,
    is_alert: bool,
    is_floater: bool,
    is_levitating: bool,
    is_in_water: bool,
    is_at_portcullis: bool,
    is_chunks: bool,
) -> int {
    (if is_flyer && is_alert {
        5int
    } else if is_floater || is_levitating {
        3int
    } else if is_chunks && is_in_water {
        2int
    } else {
        0int
    }) - (if is_at_portcullis { 3int } else { 0int })
}

/// Whether a falling bridge or portcullis misses a creature.
///
/// A creature that passes walls or has no body is missed without a draw.
/// Otherwise it escapes when its chance in eighths (five when flying and
/// alert, three when floating or levitating, two for debris in water, three
/// less at a portcullis) reaches a draw from `1..=8`.
pub fn e_missed_calc(
    passes_walls: bool,
    is_noncorporeal: bool,
    is_flyer: bool,
    is_alert: bool,
    is_floater: bool,
    is_levitating: bool,
    is_in_water: bool,
    is_at_portcullis: bool,
    is_chunks: bool,
    rng: &mut NetHackRng,
) -> (r: DbDodgeResult)
    ensures
        passes_walls || is_noncorporeal ==> r == DbDodgeResult::AutoMiss && final(rng)@ == old(rng)@,
        !(passes_walls || is_noncorporeal) ==> {
            &&& final(rng)@ == rng_next(old(rng)@)
            &&& r == (if miss_chance(is_flyer, is_alert, is_floater, is_levitating, is_in_water,
                is_at_portcullis, is_chunks) >= rng_roll(old(rng)@, 8) + 1 {
                DbDodgeResult::Dodged
            } else {
                DbDodgeResult::Hit
            })
        },
{
    if passes_walls || is_noncorporeal {
        return DbDodgeResult::AutoMiss;
    }
    let mut misses: i32 = if is_flyer && is_alert {
        5
    } else if is_floater || is_levitating {
        3
    } else if is_chunks && is_in_water {
        2
    } else {
        0
    };
    if is_at_portcullis {
        misses -= 3;
    }
    if misses >= rng.rnd(8) {
        DbDodgeResult::Dodged
    } else {
        DbDodgeResult::Hit
    }
}

/// The chance, in tenths, that a creature jumps clear of a bridge.
pub open spec fn jump_chance(is_confused: bool, is_stunned: bool, is_at_portcullis: bool) -> int {
    4 - (if is_confused { 2int } else { 0int }) - (if is_stunned { 3int } else { 0int })
        - (if is_at_portcullis { 2int } else { 0int })
}

/// Whether a creature jumps clear of a closing bridge: one that cannot move
/// does not try; otherwise it makes it when its chance in tenths (four, two
/// less when confused, three less when stunned, two less at a portcullis)
/// reaches a draw from `1..=10`.
pub fn e_jumps_calc(
    can_move: bool,
    is_confused: bool,
    is_stunned: bool,
    is_at_portcullis: bool,
    rng: &mut NetHackRng,
) -> (r: DbJumpResult)
    ensures
        !can_move ==> r == DbJumpResult::CannotJump && final(rng)@ == old(rng)@,
        can_move ==> {
            &&& final(rng)@ == rng_next(old(rng)@)
            &&& r == (if jump_chance(is_confused, is_stunned, is_at_portcullis) >= rng_roll(old(rng)@, 10) + 1 {
                DbJumpResult::Jumped
            } else {
                DbJumpResult::Failed
            })
        },
{
    if !can_move {
        return DbJumpResult::CannotJump;
    }
    let mut tmp: i32 = 4;
    if is_confused {
        tmp -= 2;
    }
    if is_stunned {
        tmp -= 3;
    }
    if is_at_portcullis {
        tmp -= 2;
    }
    if tmp >= rng.rnd(10) {
        DbJumpResult::Jumped
    } else {
        DbJumpResult::Failed
    }
}

/// The number of chains left by a destroyed bridge, drawn from `0..6`.
pub fn destroy_db_debris(rng: &mut NetHackRng) -> (r: DebrisResult)
    ensures
        r.chain_count == rng_roll(old(rng)@, 6),
        final(rng)@ == rng_next(old(rng)@),
{
    DebrisResult { chain_count: rng.rn2(6) }
}

/// Whether a bridge opening to `direction` lies east to west (it opens to
/// the north or south).
pub fn is_horizontal(direction: i32) -> (r: bool)
    ensures
        r == (direction == DB_NORTH || direction == DB_SOUTH),
{
    direction == DB_NORTH || direction == DB_SOUTH
}

/// Whether the debris of a destroyed bridge misses a creature: the rule of
/// `e_missed_calc` for debris.
pub fn bridge_misses_chunks(
    passes_walls: bool,
    is_noncorporeal: bool,
    is_flyer: bool,
    is_alert: bool,
    is_floater: bool,
    is_levitating: bool,
    is_in_water: bool,
    is_at_portcullis: bool,
    rng: &mut NetHackRng,
) -> (r: bool)
    ensures
        passes_walls || is_noncorporeal ==> r && final(rng)@ == old(rng)@,
        !(passes_walls || is_noncorporeal) ==> {
            &&& final(rng)@ == rng_next(old(rng)@)
            &&& r == (miss_chance(is_flyer, is_alert, is_floater, is_levitating, is_in_water,
                is_at_portcullis, true) >= rng_roll(old(rng)@, 8) + 1)
        },
{
    let result = e_missed_calc(
        passes_walls,
        is_noncorporeal,
        is_flyer,
        is_alert,
        is_floater,
        is_levitating,
        is_in_water,
        is_at_portcullis,
        true,
        rng,
    );
    result != DbDodgeResult::Hit
}

/// The lifetime of a gas cloud, drawn from `4..=6`.
pub fn gas_cloud_ttl(rng: &mut NetHackRng) -> (r: i32)
    ensures
        r == rng_roll(old(rng)@, 3) + 4,
        final(rng)@ == rng_next(old(rng)@),
{
    rng.rn1(3, 4)
}

/// What happens to a gas cloud whose time is up.
#[derive(Debug, Clone, Copy, PartialEq, Eq, Structural)]
pub enum GasCloudExpireResult {
    /// It thins out: half the damage, and it lasts longer.
    Dissipate { new_damage: i32 },
    /// It is gone.
    Expired,
}

/// A cloud doing 5 damage or more thins to half its damage; a weaker one
/// is gone.
pub fn gas_cloud_dissipate(damage: i32) -> (r: GasCloudExpireResult)
    ensures
        damage >= 5 ==> r == (GasCloudExpireResult::Dissipate { new_damage: (damage / 2) as i32 }),
        damage < 5 ==> r == GasCloudExpireResult::Expired,
{
    if damage >= 5 {
        GasCloudExpireResult::Dissipate { new_damage: damage / 2 }
    } else {
        GasCloudExpireResult::Expired
    }
}

/// The damage a gas cloud of strength `base_damage` does: a draw from
/// `1..=base_damage`, plus 5.
pub fn gas_cloud_damage(base_damage: i32, rng: &mut NetHackRng) -> (r: i32)
    requires
        1 <= base_damage <= i32::MAX - 5,
    ensures
        r == rng_roll(old(rng)@, base_damage as int) + 6,
        final(rng)@ == rng_next(old(rng)@),
{
    rng.rnd(base_damage) + 5
}

} // verus!
