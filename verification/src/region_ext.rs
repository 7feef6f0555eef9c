//! Regions of the map built from rectangles: membership, bounding boxes,
//! the diamond of a gas cloud, what the gas does to those inside it, and how
//! a region's lifetime runs down.
use vstd::prelude::*;
use crate::num::{min, max};
use crate::rng::{NetHackRng, rng_roll, rng_next};

verus! {

/// How many monster slots a region grows by.
pub const MONST_INC: usize = 5;

/// A rectangle with inclusive corners.
#[derive(Debug, Clone, Copy, PartialEq, Eq, Structural)]
pub struct Rect {
    pub lx: i32,
    pub ly: i32,
    pub hx: i32,
    pub hy: i32,
}

/// The box around a set of rectangles.
#[derive(Debug, Clone, PartialEq, Eq, Structural)]
pub struct BoundingBox {
    pub lx: i32,
    pub ly: i32,
    pub hx: i32,
    pub hy: i32,
}

/// What a gas cloud does to a creature inside it.
#[derive(Debug, Clone, Copy, PartialEq, Eq, Structural)]
pub enum GasCloudEffect {
    Immune,
    PoisonResist,
    Damaged(i32),
}

/// Whether the hero stands in a dangerous region.
#[derive(Debug, Clone, Copy, PartialEq, Eq, Structural)]
pub enum RegionDanger {
    InDanger(i32),
    Safe,
}

/// What becomes of a gas cloud whose time is up.
#[derive(Debug, Clone, Copy, PartialEq, Eq, Structural)]
pub enum GasExpire {
    Weaken { new_damage: i32, new_ttl: i32 },
    Gone,
}

/// Whether `(x, y)` lies in `r`, edges included.
pub open spec fn in_rect(r: Rect, x: int, y: int) -> bool {
    r.lx <= x <= r.hx && r.ly <= y <= r.hy
}

/// Whether `(x, y)` lies in `r`, edges included.
pub fn inside_rect(r: &Rect, x: i32, y: i32) -> (b: bool)
    ensures
        b == in_rect(*r, x as int, y as int),
{
    x >= r.lx && x <= r.hx && y >= r.ly && y <= r.hy
}

/// Whether `(x, y)` lies in one of `rects`.
pub open spec fn in_some_rect(rects: Seq<Rect>, x: int, y: int) -> bool {
    exists|i: int| 0 <= i < rects.len() && #[trigger] in_rect(rects[i], x, y)
}

/// Whether `(x, y)` lies in a region: within its bounding box and in one of
/// its rectangles.
pub fn inside_region(bounding_box: &Rect, rects: &[Rect], x: i32, y: i32) -> (b: bool)
    ensures
        b == (in_rect(*bounding_box, x as int, y as int) && in_some_rect(rects@, x as int, y as int)),
{
    if !inside_rect(bounding_box, x, y) {
        return false;
    }
    let mut i: usize = 0;
    while i < rects.len()
        invariant
            i <= rects@.len(),
            in_rect(*bounding_box, x as int, y as int),
            forall|k: int| 0 <= k < i ==> !in_rect(#[trigger] rects@[k], x as int, y as int),
        decreases rects@.len() - i,
    {
        if inside_rect(&rects[i], x, y) {
            assert(in_rect(rects@[i as int], x as int, y as int));
            return true;
        }
        i = i + 1;
    }
    false
}

/// The box around the first `n` of `rects` (`n >= 1`).
pub open spec fn bbox_of(rects: Seq<Rect>, n: int) -> BoundingBox
    decreases n,
{
    if n <= 1 {
        BoundingBox { lx: rects[0].lx, ly: rects[0].ly, hx: rects[0].hx, hy: rects[0].hy }
    } else {
        let b = bbox_of(rects, n - 1);
        let r = rects[n - 1];
        BoundingBox {
            lx: min(b.lx as int, r.lx as int) as i32,
            ly: min(b.ly as int, r.ly as int) as i32,
            hx: max(b.hx as int, r.hx as int) as i32,
            hy: max(b.hy as int, r.hy as int) as i32,
        }
    }
}

/// The box around `rects`; with none, the inverted box that contains
/// nothing on the map.
pub open spec fn bounding_box_of(rects: Seq<Rect>) -> BoundingBox {
    if rects.len() == 0 {
        BoundingBox { lx: 80, ly: 21, hx: 0, hy: 0 }
    } else {
        bbox_of(rects, rects.len() as int)
    }
}

/// The box around a set of rectangles.
pub fn compute_bounding_box(rects: &[Rect]) -> (bb: BoundingBox)
    ensures
        bb == bounding_box_of(rects@),
{
    if rects.len() == 0 {
        return BoundingBox { lx: 80, ly: 21, hx: 0, hy: 0 };
    }
    let mut bb = BoundingBox { lx: rects[0].lx, ly: rects[0].ly, hx: rects[0].hx, hy: rects[0].hy };
    let mut i: usize = 1;
    while i < rects.len()
        invariant
            1 <= i <= rects@.len(),
            bb == bbox_of(rects@, i as int),
        decreases rects@.len() - i,
    {
        let r = rects[i];
        if r.lx < bb.lx {
            bb.lx = r.lx;
        }
        if r.ly < bb.ly {
            bb.ly = r.ly;
        }
        if r.hx > bb.hx {
            bb.hx = r.hx;
        }
        if r.hy > bb.hy {
            bb.hy = r.hy;
        }
        i = i + 1;
    }
    bb
}

/// The box of the first `n` rectangles holds every one of them.
proof fn lemma_bbox_holds(rects: Seq<Rect>, n: int, k: int)
    requires
        1 <= n <= rects.len(),
        0 <= k < n,
    ensures
        bbox_of(rects, n).lx <= rects[k].lx,
        bbox_of(rects, n).ly <= rects[k].ly,
        rects[k].hx <= bbox_of(rects, n).hx,
        rects[k].hy <= bbox_of(rects, n).hy,
    decreases n,
{
    if n > 1 && k < n - 1 {
        lemma_bbox_holds(rects, n - 1, k);
    }
}

/// The box computed for a set of rectangles holds each of them, so a point
/// lies in the region that the box and the rectangles make exactly when it
/// lies in one of the rectangles.
pub proof fn bounding_box_covers_region(rects: Seq<Rect>, x: int, y: int)
    requires
        rects.len() > 0,
    ensures
        ({
            let b = bounding_box_of(rects);
            let r = Rect { lx: b.lx, ly: b.ly, hx: b.hx, hy: b.hy };
            (in_rect(r, x, y) && in_some_rect(rects, x, y)) == in_some_rect(rects, x, y)
        }),
{
    if in_some_rect(rects, x, y) {
        let i = choose|i: int| 0 <= i < rects.len() && #[trigger] in_rect(rects[i], x, y);
        lemma_bbox_holds(rects, rects.len() as int, i);
    }
}

/// The `k`-th rectangle of a gas cloud of `radius` centred on `(cx, cy)`.
pub open spec fn cloud_rect(cx: int, cy: int, radius: int, k: int) -> Rect {
    Rect {
        lx: (cx - k) as i32,
        ly: (cy - (radius - 1) + k) as i32,
        hx: (cx + k) as i32,
        hy: (cy + (radius - 1) - k) as i32,
    }
}

/// The rectangles of a gas cloud: a diamond of `radius` rows and columns
/// around `(cx, cy)`, from the tall middle column outward.
pub fn gas_cloud_rects(cx: i32, cy: i32, radius: i32) -> (v: Vec<Rect>)
    requires
        radius > i32::MIN,
        i32::MIN <= cy - (radius - 1) <= i32::MAX,
        i32::MIN <= cy + (radius - 1) <= i32::MAX,
        radius > 0 ==> i32::MIN <= cx - radius && cx + radius <= i32::MAX,
        radius > 0 ==> i32::MIN < cy < i32::MAX,
    ensures
        v@.len() == (if radius > 0 { radius as int } else { 0 }),
        forall|k: int| 0 <= k < v@.len() ==> v@[k] == cloud_rect(cx as int, cy as int, radius as int, k),
{
    let mut rects: Vec<Rect> = Vec::new();
    let mut lx = cx;
    let mut hx = cx;
    let mut ly = cy - (radius - 1);
    let mut hy = cy + (radius - 1);
    let mut k: i32 = 0;
    while k < radius
        invariant
            radius > 0 ==> 0 <= k <= radius,
            radius <= 0 ==> k == 0,
            radius > 0 ==> i32::MIN <= cx - radius && cx + radius <= i32::MAX,
            radius > 0 ==> i32::MIN < cy < i32::MAX,
            lx == cx - k,
            hx == cx + k,
            ly == cy - (radius - 1) + k,
            hy == cy + (radius - 1) - k,
            rects@.len() == k,
            forall|j: int| 0 <= j < k ==> rects@[j] == cloud_rect(cx as int, cy as int, radius as int, j),
        decreases radius - k,
    {
        rects.push(Rect { lx, ly, hx, hy });
        lx = lx - 1;
        hx = hx + 1;
        ly = ly + 1;
        hy = hy - 1;
        k = k + 1;
    }
    rects
}

/// What a gas cloud does to the hero: nothing to the invulnerable, the
/// lifeless, the breathless or the hero under water; a cough to the poison
/// resistant; otherwise `1..=damage` plus five.
pub fn gas_cloud_hero_effect(
    damage: i32,
    is_invulnerable: bool,
    is_nonliving: bool,
    is_breathless: bool,
    is_underwater: bool,
    has_poison_resist: bool,
    rng: &mut NetHackRng,
) -> (r: GasCloudEffect)
    requires
        !(is_invulnerable || is_nonliving || is_breathless || is_underwater || has_poison_resist)
            ==> 0 < damage <= i32::MAX - 5,
    ensures
        is_invulnerable || is_nonliving || is_breathless || is_underwater
            ==> r == GasCloudEffect::Immune && final(rng)@ == old(rng)@,
        !(is_invulnerable || is_nonliving || is_breathless || is_underwater) && has_poison_resist
            ==> r == GasCloudEffect::PoisonResist && final(rng)@ == old(rng)@,
        !(is_invulnerable || is_nonliving || is_breathless || is_underwater || has_poison_resist) ==> {
            &&& r == GasCloudEffect::Damaged((rng_roll(old(rng)@, damage as int) + 6) as i32)
            &&& final(rng)@ == rng_next(old(rng)@)
        },
{
    if is_invulnerable || is_nonliving || is_breathless || is_underwater {
        return GasCloudEffect::Immune;
    }
    if has_poison_resist {
        return GasCloudEffect::PoisonResist;
    }
    let dmg = rng.rnd(damage) + 5;
    GasCloudEffect::Damaged(dmg)
}

/// What a gas cloud does to a monster: nothing to the lifeless, shapeshifted
/// vampires, the breathless, eels in water or poison breathers; a cough to
/// the poison resistant; otherwise `1..=damage` plus five.
pub fn gas_cloud_monster_effect(
    damage: i32,
    is_nonliving: bool,
    is_vampshifter: bool,
    is_breathless: bool,
    is_eel_in_water: bool,
    has_poison_breath: bool,
    has_poison_resist: bool,
    rng: &mut NetHackRng,
) -> (r: GasCloudEffect)
    requires
        !(is_nonliving || is_vampshifter || is_breathless || is_eel_in_water || has_poison_breath
            || has_poison_resist) ==> 0 < damage <= i32::MAX - 5,
    ensures
        is_nonliving || is_vampshifter || is_breathless || is_eel_in_water || has_poison_breath
            ==> r == GasCloudEffect::Immune && final(rng)@ == old(rng)@,
        !(is_nonliving || is_vampshifter || is_breathless || is_eel_in_water || has_poison_breath)
            && has_poison_resist ==> r == GasCloudEffect::PoisonResist && final(rng)@ == old(rng)@,
        !(is_nonliving || is_vampshifter || is_breathless || is_eel_in_water || has_poison_breath
            || has_poison_resist) ==> {
            &&& r == GasCloudEffect::Damaged((rng_roll(old(rng)@, damage as int) + 6) as i32)
            &&& final(rng)@ == rng_next(old(rng)@)
        },
{
    if is_nonliving || is_vampshifter || is_breathless || is_eel_in_water || has_poison_breath {
        return GasCloudEffect::Immune;
    }
    if has_poison_resist {
        return GasCloudEffect::PoisonResist;
    }
    let dmg = rng.rnd(damage) + 5;
    GasCloudEffect::Damaged(dmg)
}

/// A cloud of at least five damage weakens to half for two more turns;
/// a weaker one is gone.
pub fn gas_expire(damage: i32) -> (r: GasExpire)
    ensures
        damage >= 5 ==> r == (GasExpire::Weaken { new_damage: (damage / 2) as i32, new_ttl: 2 }),
        damage < 5 ==> r == GasExpire::Gone,
{
    if damage >= 5 {
        GasExpire::Weaken { new_damage: damage / 2, new_ttl: 2 }
    } else {
        GasExpire::Gone
    }
}

/// Whether the hero is in danger from a region when praying: inside a gas
/// cloud while living, breathing and not resisting poison.
pub fn region_danger_check(
    is_in_gas_cloud: bool,
    is_nonliving: bool,
    is_breathless: bool,
    has_poison_resist: bool,
) -> (b: bool)
    ensures
        b == (is_in_gas_cloud && !is_nonliving && !is_breathless && !has_poison_resist),
{
    if !is_in_gas_cloud {
        return false;
    }
    if is_nonliving || is_breathless {
        return false;
    }
    if has_poison_resist {
        return false;
    }
    true
}

/// How long a new gas cloud lasts: 4 to 6 turns.
pub fn gas_cloud_initial_ttl(rng: &mut NetHackRng) -> (r: i32)
    ensures
        r == rng_roll(old(rng)@, 3) + 4,
        final(rng)@ == rng_next(old(rng)@),
        4 <= r <= 6,
{
    rng.rn1(3, 4)
}

/// The lifetime left to a region after `elapsed_turns`: a negative lifetime
/// is permanent, and a lifetime never falls below zero.
pub fn region_ttl_adjust(original_ttl: i64, elapsed_turns: i64) -> (r: i64)
    requires
        original_ttl >= 0 ==> original_ttl - elapsed_turns <= i64::MAX,
    ensures
        original_ttl < 0 ==> r == original_ttl,
        0 <= original_ttl && original_ttl > elapsed_turns ==> r == original_ttl - elapsed_turns,
        0 <= original_ttl <= elapsed_turns ==> r == 0,
{
    if original_ttl < 0 {
        original_ttl
    } else if original_ttl > elapsed_turns {
        original_ttl - elapsed_turns
    } else {
        0
    }
}

} // verus!
