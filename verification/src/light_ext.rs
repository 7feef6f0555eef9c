//! Light sources on a level: a manager that adds, removes, moves, splits,
//! merges and snuffs them, the squares they light, and the radius of
//! candles and glowing artifacts.
use vstd::prelude::*;

verus! {

/// The largest radius a light source may be created with.
pub const MAX_RADIUS: i32 = 15;

/// What carries a light source.
#[derive(Debug, Clone, Copy, PartialEq, Eq, Structural)]
pub enum LightSourceType {
    Object,
    Monster,
}

/// Flags of a light source.
#[derive(Debug, Clone, Copy, PartialEq, Eq)]
pub struct LightFlags {
    pub show: bool,
    pub needs_fixup: bool,
}

impl Default for LightFlags {
    fn default() -> (r: Self)
        ensures
            !r.show && !r.needs_fixup,
    {
        LightFlags { show: false, needs_fixup: false }
    }
}

/// A light source on the level.
#[derive(Debug, Clone, Copy)]
pub struct LightSource {
    pub x: i32,
    pub y: i32,
    pub range: i32,
    pub source_type: LightSourceType,
    pub source_id: u64,
    pub flags: LightFlags,
}

/// A new source at `(x, y)` with cleared flags.
pub open spec fn fresh_source(x: i32, y: i32, range: i32, t: LightSourceType, id: u64) -> LightSource {
    LightSource { x, y, range, source_type: t, source_id: id, flags: LightFlags { show: false, needs_fixup: false } }
}

impl LightSource {
    /// A light source at `(x, y)`, or nothing when `range` lies outside
    /// `1..=MAX_RADIUS`.
    pub fn new(x: i32, y: i32, range: i32, source_type: LightSourceType, source_id: u64) -> (r: Option<Self>)
        ensures
            range < 1 || range > MAX_RADIUS ==> r.is_none(),
            1 <= range <= MAX_RADIUS ==> r == Some(fresh_source(x, y, range, source_type, source_id)),
    {
        if range < 1 || range > MAX_RADIUS {
            return None;
        }
        Some(LightSource { x, y, range, source_type, source_id, flags: LightFlags { show: false, needs_fixup: false } })
    }
}

/// The light sources of a level.
#[derive(Debug, Clone)]
pub struct LightManager {
    pub sources: Vec<LightSource>,
    pub vision_recalc_needed: bool,
}

impl Default for LightManager {
    fn default() -> (r: Self)
        ensures
            r.sources@.len() == 0,
            !r.vision_recalc_needed,
    {
        LightManager::new()
    }
}

/// `ls` belongs to the carrier `(t, id)`.
pub open spec fn owned_by(ls: LightSource, t: LightSourceType, id: u64) -> bool {
    ls.source_type == t && ls.source_id == id
}

/// The sources of `s` that do not belong to `(t, id)`, in order.
pub open spec fn without(s: Seq<LightSource>, t: LightSourceType, id: u64) -> Seq<LightSource>
    decreases s.len(),
{
    if s.len() == 0 {
        s
    } else {
        let rest = without(s.drop_last(), t, id);
        if owned_by(s.last(), t, id) { rest } else { rest.push(s.last()) }
    }
}

/// `ls` passed to a new carrier when it belonged to `(t, old_id)`.
pub open spec fn moved(ls: LightSource, t: LightSourceType, old_id: u64, new_id: u64) -> LightSource {
    if owned_by(ls, t, old_id) { LightSource { source_id: new_id, ..ls } } else { ls }
}

/// `ls` with radius `sr` when it belongs to `(t, id)` and `sr` is given.
pub open spec fn resized(ls: LightSource, t: LightSourceType, id: u64, sr: Option<i32>) -> LightSource {
    if owned_by(ls, t, id) && sr.is_some() { LightSource { range: sr.unwrap(), ..ls } } else { ls }
}

/// The copies split off the sources of `s` that belong to `(t, id)`, each
/// given to `dest_id` and the radius `dr` when given.
pub open spec fn split_copies(s: Seq<LightSource>, t: LightSourceType, id: u64, dest_id: u64, dr: Option<i32>) -> Seq<LightSource>
    decreases s.len(),
{
    if s.len() == 0 {
        Seq::empty()
    } else {
        let rest = split_copies(s.drop_last(), t, id, dest_id, dr);
        let ls = s.last();
        if owned_by(ls, t, id) {
            rest.push(LightSource {
                source_id: dest_id,
                range: if dr.is_some() { dr.unwrap() } else { ls.range },
                ..ls
            })
        } else {
            rest
        }
    }
}

/// `k` is the first index of `s` whose source belongs to `(t, id)`.
pub open spec fn first_owned(s: Seq<LightSource>, t: LightSourceType, id: u64, k: int) -> bool {
    &&& 0 <= k < s.len()
    &&& owned_by(s[k], t, id)
    &&& forall|j: int| 0 <= j < k ==> !owned_by(#[trigger] s[j], t, id)
}

/// No source of `s` belongs to `(t, id)`.
pub open spec fn none_owned(s: Seq<LightSource>, t: LightSourceType, id: u64) -> bool {
    forall|j: int| 0 <= j < s.len() ==> !owned_by(#[trigger] s[j], t, id)
}

/// `s` with the radius of the first source belonging to `(t, id)` set to
/// `r`, and whether that changed a radius.
pub open spec fn first_resized(s: Seq<LightSource>, t: LightSourceType, id: u64, r: i32, out: Seq<LightSource>, changed: bool) -> bool {
    ||| none_owned(s, t, id) && out == s && !changed
    ||| exists|k: int| #[trigger] first_owned(s, t, id, k)
        && out == s.update(k, LightSource { range: r, ..s[k] })
        && changed == (s[k].range != r)
}

/// `out` is `s` with the first source of `(t, id)` given radius `r`, and
/// the recompute flag went from `f0` to `f1`, set when that changed a radius.
pub open spec fn resized_as(s: Seq<LightSource>, t: LightSourceType, id: u64, r: i32, out: Seq<LightSource>, f0: bool, f1: bool) -> bool {
    let changed = exists|k: int| first_owned(s, t, id, k) && s[k].range != r;
    &&& first_resized(s, t, id, r, out, changed)
    &&& f1 == (f0 || changed)
}

/// The sources left when object `src_id` merges into object `dest_id`: the
/// object sources of `src_id` go, unless the two are the same object.
pub open spec fn merge_kept(s: Seq<LightSource>, src_id: u64, dest_id: u64) -> Seq<LightSource> {
    if src_id != dest_id { without(s, LightSourceType::Object, src_id) } else { s }
}

/// `a` comes before `b` in order of column, then row.
pub open spec fn square_lt(a: (i32, i32), b: (i32, i32)) -> bool {
    a.0 < b.0 || (a.0 == b.0 && a.1 < b.1)
}

/// The squares of `s` are in strictly increasing order.
pub open spec fn sorted_squares(s: Seq<(i32, i32)>) -> bool {
    forall|i: int, j: int| 0 <= i < j < s.len() ==> square_lt(#[trigger] s[i], #[trigger] s[j])
}

/// The arithmetic of lighting around `ls` stays within `i32`.
pub open spec fn light_fits(ls: LightSource) -> bool {
    !ls.flags.show && ls.range > 0 ==> {
        &&& ls.range <= 32767
        &&& i32::MIN <= ls.x - ls.range
        &&& ls.x + ls.range <= i32::MAX
        &&& i32::MIN <= ls.y - ls.range
        &&& ls.y + ls.range <= i32::MAX
    }
}

/// `ls` lights the square `q` on a `w` by `h` map.
pub open spec fn lit_by(ls: LightSource, q: (i32, i32), w: i32, h: i32) -> bool {
    let dx = q.0 - ls.x;
    let dy = q.1 - ls.y;
    &&& !ls.flags.show
    &&& ls.range > 0
    &&& -ls.range <= dx <= ls.range
    &&& -ls.range <= dy <= ls.range
    &&& dx * dx + dy * dy <= ls.range * ls.range
    &&& 0 <= q.0 < w
    &&& 0 <= q.1 < h
}

/// `ls` lights `q` at an offset before `(dx_lim, dy_lim)`, going row by row.
pub open spec fn lit_upto(ls: LightSource, q: (i32, i32), w: i32, h: i32, dy_lim: int, dx_lim: int) -> bool {
    &&& lit_by(ls, q, w, h)
    &&& (q.1 - ls.y < dy_lim || (q.1 - ls.y == dy_lim && q.0 - ls.x < dx_lim))
}

fn insert_square(v: &mut Vec<(i32, i32)>, p: (i32, i32))
    requires
        sorted_squares(old(v)@),
    ensures
        sorted_squares(final(v)@),
        forall|q: (i32, i32)| final(v)@.contains(q) <==> (old(v)@.contains(q) || q == p),
{
    let ghost s = v@;
    assert(s == old(v)@);
    let mut i: usize = 0;
    while i < v.len() && square_lt_exec(v[i], p)
        invariant
            v@ == s,
            i <= s.len(),
            forall|j: int| 0 <= j < i ==> square_lt(#[trigger] s[j], p),
        decreases s.len() - i,
    {
        i = i + 1;
    }
    if i < v.len() && v[i].0 == p.0 && v[i].1 == p.1 {
        assert(s[i as int] == p);
        assert forall|q: (i32, i32)| v@.contains(q) <==> (s.contains(q) || q == p) by {
            if q == p {
                assert(s[i as int] == q);
            }
        }
        return;
    }
    v.insert(i, p);
    assert forall|a: int, b: int| 0 <= a < b < v@.len() implies square_lt(#[trigger] v@[a], #[trigger] v@[b]) by {
        if b < i {
        } else if a < i && b == i {
        } else if a < i && b > i {
            assert(v@[b] == s[b - 1]);
        } else if a == i {
            assert(v@[b] == s[b - 1]);
            assert(!square_lt(s[i as int], p));
            if b - 1 > i {
                assert(square_lt(s[i as int], s[b - 1]));
            }
        } else {
            assert(v@[a] == s[a - 1] && v@[b] == s[b - 1]);
        }
    }
    assert forall|q: (i32, i32)| v@.contains(q) <==> (s.contains(q) || q == p) by {
        if s.contains(q) {
            let j = choose|j: int| 0 <= j < s.len() && s[j] == q;
            if j < i {
                assert(v@[j] == q);
            } else {
                assert(v@[j + 1] == q);
            }
        }
        if q == p {
            assert(v@[i as int] == p);
        }
        if v@.contains(q) {
            let j = choose|j: int| 0 <= j < v@.len() && v@[j] == q;
            if j < i {
                assert(s[j] == q);
            } else if j > i {
                assert(s[j - 1] == q);
            }
        }
    }
    assert(forall|q: (i32, i32)| v@.contains(q) <==> (old(v)@.contains(q) || q == p));
}

fn square_lt_exec(a: (i32, i32), b: (i32, i32)) -> (r: bool)
    ensures
        r == square_lt(a, b),
{
    a.0 < b.0 || (a.0 == b.0 && a.1 < b.1)
}

/// `ls` is an object light at `(x, y)`.
pub open spec fn object_at(ls: LightSource, x: i32, y: i32) -> bool {
    ls.source_type == LightSourceType::Object && ls.x == x && ls.y == y
}

impl LightManager {
    /// A manager with no sources.
    pub fn new() -> (r: Self)
        ensures
            r.sources@.len() == 0,
            !r.vision_recalc_needed,
    {
        LightManager { sources: Vec::new(), vision_recalc_needed: false }
    }

    /// Adds a source when its radius is valid (see `LightSource::new`) and
    /// asks for vision to be recomputed; says whether it was added.
    pub fn add(&mut self, x: i32, y: i32, range: i32, source_type: LightSourceType, source_id: u64) -> (r: bool)
        ensures
            r == (1 <= range <= MAX_RADIUS),
            r ==> final(self).sources@ == old(self).sources@.push(fresh_source(x, y, range, source_type, source_id))
                && final(self).vision_recalc_needed,
            !r ==> *final(self) == *old(self),
    {
        match LightSource::new(x, y, range, source_type, source_id) {
            Some(ls) => {
                self.sources.push(ls);
                self.vision_recalc_needed = true;
                true
            },
            None => false,
        }
    }

    fn remove_owned(&mut self, t: LightSourceType, id: u64)
        ensures
            final(self).sources@ == without(old(self).sources@, t, id),
            final(self).vision_recalc_needed == old(self).vision_recalc_needed,
    {
        let ghost s = self.sources@;
        let mut kept: Vec<LightSource> = Vec::new();
        let mut i: usize = 0;
        while i < self.sources.len()
            invariant
                self.sources@ == s,
                i <= s.len(),
                kept@ == without(s.subrange(0, i as int), t, id),
            decreases s.len() - i,
        {
            let ls = self.sources[i];
            assert(s.subrange(0, i + 1).drop_last() =~= s.subrange(0, i as int));
            if !(ls.source_type == t && ls.source_id == id) {
                kept.push(ls);
            }
            i = i + 1;
        }
        assert(s.subrange(0, s.len() as int) =~= s);
        self.sources = kept;
    }

    /// Removes every source of the carrier `(source_type, source_id)`; when
    /// one was removed, asks for vision to be recomputed and says so.
    pub fn remove(&mut self, source_type: LightSourceType, source_id: u64) -> (r: bool)
        ensures
            final(self).sources@ == without(old(self).sources@, source_type, source_id),
            r == (final(self).sources@.len() < old(self).sources@.len()),
            final(self).vision_recalc_needed == (old(self).vision_recalc_needed || r),
    {
        let before = self.sources.len();
        self.remove_owned(source_type, source_id);
        proof {
            lemma_without_len(old(self).sources@, source_type, source_id);
        }
        if self.sources.len() < before {
            self.vision_recalc_needed = true;
            true
        } else {
            false
        }
    }

    /// Hands every source of `(source_type, old_id)` to `new_id`.
    pub fn move_source(&mut self, source_type: LightSourceType, old_id: u64, new_id: u64)
        ensures
            final(self).sources@ == old(self).sources@.map_values(|ls: LightSource| moved(ls, source_type, old_id, new_id)),
            final(self).vision_recalc_needed == old(self).vision_recalc_needed,
    {
        let ghost s = self.sources@;
        let mut i: usize = 0;
        while i < self.sources.len()
            invariant
                self.sources@.len() == s.len(),
                i <= s.len(),
                self.vision_recalc_needed == old(self).vision_recalc_needed,
                s == old(self).sources@,
                forall|j: int| 0 <= j < i ==> self.sources@[j] == moved(s[j], source_type, old_id, new_id),
                forall|j: int| i <= j < s.len() ==> self.sources@[j] == s[j],
            decreases s.len() - i,
        {
            let ls = self.sources[i];
            if ls.source_type == source_type && ls.source_id == old_id {
                self.sources.set(i, LightSource { source_id: new_id, ..ls });
            }
            i = i + 1;
        }
        assert(self.sources@ =~= s.map_values(|ls: LightSource| moved(ls, source_type, old_id, new_id)));
    }

    /// Splits every source of `(source_type, src_id)`: a copy given to
    /// `dest_id` (with radius `dest_range` when given) is appended, in the
    /// order of the originals; an original takes radius `src_new_range` when
    /// given, and vision is then recomputed.
    pub fn split_source(
        &mut self,
        source_type: LightSourceType,
        src_id: u64,
        dest_id: u64,
        src_new_range: Option<i32>,
        dest_range: Option<i32>,
    )
        ensures
            final(self).sources@ == old(self).sources@.map_values(
                |ls: LightSource| resized(ls, source_type, src_id, src_new_range),
            ) + split_copies(old(self).sources@, source_type, src_id, dest_id, dest_range),
            final(self).vision_recalc_needed == (old(self).vision_recalc_needed || (src_new_range.is_some()
                && !none_owned(old(self).sources@, source_type, src_id))),
    {
        let ghost s = self.sources@;
        let mut new_sources: Vec<LightSource> = Vec::new();
        let mut i: usize = 0;
        while i < self.sources.len()
            invariant
                self.sources@.len() == s.len(),
                s == old(self).sources@,
                i <= s.len(),
                forall|j: int| 0 <= j < i ==> self.sources@[j] == resized(s[j], source_type, src_id, src_new_range),
                forall|j: int| i <= j < s.len() ==> self.sources@[j] == s[j],
                new_sources@ == split_copies(s.subrange(0, i as int), source_type, src_id, dest_id, dest_range),
                self.vision_recalc_needed == (old(self).vision_recalc_needed || (src_new_range.is_some()
                    && exists|j: int| 0 <= j < i && #[trigger] owned_by(s[j], source_type, src_id))),
            decreases s.len() - i,
        {
            let ls = self.sources[i];
            assert(s.subrange(0, i + 1).drop_last() =~= s.subrange(0, i as int));
            if ls.source_type == source_type && ls.source_id == src_id {
                let new_range = match dest_range {
                    Some(dr) => dr,
                    None => ls.range,
                };
                new_sources.push(LightSource { source_id: dest_id, range: new_range, ..ls });
                match src_new_range {
                    Some(sr) => {
                        self.sources.set(i, LightSource { range: sr, ..ls });
                        self.vision_recalc_needed = true;
                    },
                    None => {},
                }
            }
            i = i + 1;
        }
        assert(s.subrange(0, s.len() as int) =~= s);
        assert((exists|j: int| 0 <= j < s.len() && #[trigger] owned_by(s[j], source_type, src_id))
            == !none_owned(s, source_type, src_id));
        let ghost mapped = self.sources@;
        let ghost flag = self.vision_recalc_needed;
        assert(mapped =~= s.map_values(|ls: LightSource| resized(ls, source_type, src_id, src_new_range)));
        let mut k: usize = 0;
        while k < new_sources.len()
            invariant
                k <= new_sources@.len(),
                self.vision_recalc_needed == flag,
                self.sources@ == mapped + new_sources@.subrange(0, k as int),
            decreases new_sources@.len() - k,
        {
            self.sources.push(new_sources[k]);
            k = k + 1;
            assert(new_sources@.subrange(0, k as int) =~= new_sources@.subrange(0, k - 1).push(new_sources@[k - 1]));
        }
        assert(new_sources@.subrange(0, new_sources@.len() as int) =~= new_sources@);
    }

    fn resize_first(&mut self, t: LightSourceType, id: u64, new_range: i32)
        ensures
            resized_as(old(self).sources@, t, id, new_range, final(self).sources@,
                old(self).vision_recalc_needed, final(self).vision_recalc_needed),
    {
        let ghost s = self.sources@;
        let mut i: usize = 0;
        while i < self.sources.len()
            invariant
                self.sources@ == s,
                s == old(self).sources@,
                self.vision_recalc_needed == old(self).vision_recalc_needed,
                i <= s.len(),
                forall|j: int| 0 <= j < i ==> !owned_by(#[trigger] s[j], t, id),
            decreases s.len() - i,
        {
            let ls = self.sources[i];
            if ls.source_type == t && ls.source_id == id {
                assert(first_owned(s, t, id, i as int));
                if ls.range != new_range {
                    self.sources.set(i, LightSource { range: new_range, ..ls });
                    self.vision_recalc_needed = true;
                }
                assert(self.sources@ =~= s.update(i as int, LightSource { range: new_range, ..s[i as int] }));
                proof {
                    assert forall|k: int| #[trigger] first_owned(s, t, id, k) implies k == i by {
                        if k < i {
                        } else if k > i {
                            assert(!owned_by(s[i as int], t, id));
                        }
                    }
                }
                return;
            }
            i = i + 1;
        }
        assert(none_owned(s, t, id));
        assert(!exists|k: int| first_owned(s, t, id, k) && s[k].range != new_range);
    }

    /// Merges the light of object `src_id` into object `dest_id`: unless
    /// they are the same, the object sources of `src_id` are removed; then
    /// the first object source of `dest_id` takes radius `new_range`, and
    /// vision is recomputed when that changed it.
    pub fn merge_sources(&mut self, src_id: u64, dest_id: u64, new_range: i32)
        ensures
            resized_as(merge_kept(old(self).sources@, src_id, dest_id), LightSourceType::Object, dest_id, new_range,
                final(self).sources@, old(self).vision_recalc_needed, final(self).vision_recalc_needed),
    {
        if src_id != dest_id {
            self.remove_owned(LightSourceType::Object, src_id);
        }
        self.resize_first(LightSourceType::Object, dest_id, new_range);
    }

    /// Sets the radius of the first source of `(source_type, source_id)` to
    /// `new_radius`; vision is recomputed when that changed it.
    pub fn adjust_radius(&mut self, source_type: LightSourceType, source_id: u64, new_radius: i32)
        ensures
            resized_as(old(self).sources@, source_type, source_id, new_radius, final(self).sources@,
                old(self).vision_recalc_needed, final(self).vision_recalc_needed),
    {
        self.resize_first(source_type, source_id, new_radius);
    }

    /// Snuffs the first object light at `(x, y)` that `is_artifact_fn` does
    /// not call an artifact: it is removed and its carrier returned, and
    /// vision is recomputed. Nothing changes when there is none.
    pub fn snuff_at<F: Fn(u64) -> bool>(&mut self, x: i32, y: i32, is_artifact_fn: &F) -> (r: Option<u64>)
        requires
            forall|id: u64| is_artifact_fn.requires((id,)),
        ensures
            r.is_none() ==> {
                &&& *final(self) == *old(self)
                &&& forall|j: int| 0 <= j < old(self).sources@.len() && #[trigger] object_at(old(self).sources@[j], x, y)
                    ==> is_artifact_fn.ensures((old(self).sources@[j].source_id,), true)
            },
            r.is_some() ==> exists|k: int| {
                &&& 0 <= k < old(self).sources@.len()
                &&& #[trigger] object_at(old(self).sources@[k], x, y)
                &&& old(self).sources@[k].source_id == r.unwrap()
                &&& is_artifact_fn.ensures((r.unwrap(),), false)
                &&& forall|j: int| 0 <= j < k && #[trigger] object_at(old(self).sources@[j], x, y)
                    ==> is_artifact_fn.ensures((old(self).sources@[j].source_id,), true)
                &&& final(self).sources@ == old(self).sources@.remove(k)
                &&& final(self).vision_recalc_needed
            },
    {
        let ghost s = self.sources@;
        let mut i: usize = 0;
        while i < self.sources.len()
            invariant
                self.sources@ == s,
                s == old(self).sources@,
                *self == *old(self),
                i <= s.len(),
                forall|id: u64| is_artifact_fn.requires((id,)),
                forall|j: int| 0 <= j < i && #[trigger] object_at(s[j], x, y)
                    ==> is_artifact_fn.ensures((s[j].source_id,), true),
            decreases s.len() - i,
        {
            let ls = self.sources[i];
            if ls.source_type == LightSourceType::Object && ls.x == x && ls.y == y {
                let art = is_artifact_fn(ls.source_id);
                if !art {
                    let id = ls.source_id;
                    self.sources.remove(i);
                    self.vision_recalc_needed = true;
                    assert(object_at(s[i as int], x, y));
                    return Some(id);
                }
            }
            i = i + 1;
        }
        None
    }

    /// Whether any source exists.
    pub fn any_exist(&self) -> (r: bool)
        ensures
            r == (self.sources@.len() > 0),
    {
        self.sources.len() > 0
    }

    /// The squares lit by the sources, in order of column then row, each
    /// once: a source that is not hidden and has a positive radius lights
    /// every square on the `grid_width` by `grid_height` map whose offset
    /// `(dx, dy)` from it has `dx * dx + dy * dy` within the radius squared.
    pub fn lit_positions(&self, grid_width: i32, grid_height: i32) -> (r: Vec<(i32, i32)>)
        requires
            forall|k: int| 0 <= k < self.sources@.len() ==> #[trigger] light_fits(self.sources@[k]),
        ensures
            sorted_squares(r@),
            forall|q: (i32, i32)| r@.contains(q) <==> exists|k: int| 0 <= k < self.sources@.len()
                && #[trigger] lit_by(self.sources@[k], q, grid_width, grid_height),
    {
        let mut lit: Vec<(i32, i32)> = Vec::new();
        let mut k: usize = 0;
        while k < self.sources.len()
            invariant
                k <= self.sources@.len(),
                forall|j: int| 0 <= j < self.sources@.len() ==> #[trigger] light_fits(self.sources@[j]),
                sorted_squares(lit@),
                forall|q: (i32, i32)| lit@.contains(q) <==> exists|j: int| 0 <= j < k
                    && #[trigger] lit_by(self.sources@[j], q, grid_width, grid_height),
            decreases self.sources@.len() - k,
        {
            let ls = self.sources[k];
            assert(light_fits(self.sources@[k as int]));
            let ghost before = lit@;
            assert(forall|q: (i32, i32)| before.contains(q) <==> exists|j: int| 0 <= j < k
                && #[trigger] lit_by(self.sources@[j], q, grid_width, grid_height));
            if !ls.flags.show && ls.range > 0 {
                let r = ls.range;
                let mut dy = -r;
                while dy <= r
                    invariant
                        k < self.sources@.len(),
                        ls == self.sources@[k as int],
                        light_fits(ls),
                        !ls.flags.show && ls.range > 0,
                        r == ls.range,
                        -r <= dy <= r + 1,
                        sorted_squares(lit@),
                        forall|q: (i32, i32)| before.contains(q) <==> exists|j: int| 0 <= j < k
                            && #[trigger] lit_by(self.sources@[j], q, grid_width, grid_height),
                        forall|q: (i32, i32)| lit@.contains(q) <==> before.contains(q)
                            || lit_upto(ls, q, grid_width, grid_height, dy as int, -r - 1),
                    decreases r + 1 - dy,
                {
                    let mut dx = -r;
                    while dx <= r
                        invariant
                            k < self.sources@.len(),
                            ls == self.sources@[k as int],
                            light_fits(ls),
                            !ls.flags.show && ls.range > 0,
                            r == ls.range,
                            -r <= dy <= r,
                            -r <= dx <= r + 1,
                            sorted_squares(lit@),
                            forall|q: (i32, i32)| before.contains(q) <==> exists|j: int| 0 <= j < k
                                && #[trigger] lit_by(self.sources@[j], q, grid_width, grid_height),
                            forall|q: (i32, i32)| lit@.contains(q) <==> before.contains(q)
                                || lit_upto(ls, q, grid_width, grid_height, dy as int, dx as int),
                        decreases r + 1 - dx,
                    {
                        assert(0 <= dx * dx <= r * r && 0 <= dy * dy <= r * r && r * r <= 1073676289) by (nonlinear_arith)
                            requires -r <= dx <= r, -r <= dy <= r, 0 < r <= 32767;
                        let inside = dx * dx + dy * dy <= r * r;
                        let nx = ls.x + dx;
                        let ny = ls.y + dy;
                        let on_map = nx >= 0 && nx < grid_width && ny >= 0 && ny < grid_height;
                        let ghost prev = lit@;
                        assert(forall|q: (i32, i32)| prev.contains(q) <==> before.contains(q)
                            || lit_upto(ls, q, grid_width, grid_height, dy as int, dx as int));
                        if inside && on_map {
                            insert_square(&mut lit, (nx, ny));
                        }
                        proof {
                            assert forall|q: (i32, i32)| lit@.contains(q) <==> before.contains(q)
                                || lit_upto(ls, q, grid_width, grid_height, dy as int, dx + 1) by {
                                assert(prev.contains(q) == (before.contains(q)
                                    || lit_upto(ls, q, grid_width, grid_height, dy as int, dx as int)));
                                if inside && on_map {
                                    assert(lit@.contains(q) == (prev.contains(q) || q == (nx, ny)));
                                } else {
                                    assert(lit@ == prev);
                                }
                                if q.0 - ls.x == dx && q.1 - ls.y == dy {
                                    assert(q.0 == nx && q.1 == ny);
                                    assert(q == (nx, ny));
                                    assert(lit_by(ls, q, grid_width, grid_height) == (inside && on_map));
                                    assert(lit_upto(ls, q, grid_width, grid_height, dy as int, dx + 1)
                                        == (inside && on_map));
                                    assert(!lit_upto(ls, q, grid_width, grid_height, dy as int, dx as int));
                                } else {
                                    assert(lit_upto(ls, q, grid_width, grid_height, dy as int, dx + 1)
                                        == lit_upto(ls, q, grid_width, grid_height, dy as int, dx as int));
                                    if inside && on_map {
                                        assert(q != (nx, ny));
                                    }
                                }
                            }
                        }
                        dx = dx + 1;
                    }
                    proof {
                        assert(dx == r + 1);
                        assert forall|q: (i32, i32)| lit_upto(ls, q, grid_width, grid_height, dy as int, dx as int)
                            == lit_upto(ls, q, grid_width, grid_height, dy + 1, -r - 1) by {
                        }
                    }
                    dy = dy + 1;
                }
                proof {
                    assert(dy == r + 1);
                    assert forall|q: (i32, i32)| lit_upto(ls, q, grid_width, grid_height, dy as int, -r - 1)
                        == lit_by(ls, q, grid_width, grid_height) by {}
                    assert forall|q: (i32, i32)| lit@.contains(q) <==> (before.contains(q)
                        || lit_by(ls, q, grid_width, grid_height)) by {}
                    assert forall|q: (i32, i32)| lit@.contains(q) implies exists|j: int| 0 <= j < k + 1
                        && #[trigger] lit_by(self.sources@[j], q, grid_width, grid_height) by {
                        assert(before.contains(q) || lit_by(ls, q, grid_width, grid_height));
                        if before.contains(q) {
                            assert(exists|j: int| 0 <= j < k && #[trigger] lit_by(self.sources@[j], q, grid_width, grid_height));
                            let j = choose|j: int| 0 <= j < k && #[trigger] lit_by(self.sources@[j], q, grid_width, grid_height);
                            assert(0 <= j < k + 1 && lit_by(self.sources@[j], q, grid_width, grid_height));
                        } else {
                            assert(lit_by(self.sources@[k as int], q, grid_width, grid_height));
                            assert(0 <= k < k + 1);
                        }
                    }
                    assert forall|q: (i32, i32)| (exists|j: int| 0 <= j < k + 1
                        && #[trigger] lit_by(self.sources@[j], q, grid_width, grid_height)) implies lit@.contains(q) by {
                        let j = choose|j: int| 0 <= j < k + 1 && #[trigger] lit_by(self.sources@[j], q, grid_width, grid_height);
                        if j < k {
                            assert(before.contains(q));
                        } else {
                            assert(lit_by(ls, q, grid_width, grid_height));
                        }
                    }
                }
            } else {
                proof {
                    assert forall|q: (i32, i32)| lit@.contains(q) <==> exists|j: int| 0 <= j < k + 1
                        && #[trigger] lit_by(self.sources@[j], q, grid_width, grid_height) by {
                        assert(!lit_by(self.sources@[k as int], q, grid_width, grid_height));
                        if exists|j: int| 0 <= j < k + 1 && #[trigger] lit_by(self.sources@[j], q, grid_width, grid_height) {
                            let j = choose|j: int| 0 <= j < k + 1 && #[trigger] lit_by(self.sources@[j], q, grid_width, grid_height);
                            assert(j < k);
                        }
                    }
                }
            }
            k = k + 1;
        }
        lit
    }

    /// The number of sources and the bytes they take.
    pub fn stats(&self) -> (r: (usize, usize))
        requires
            self.sources@.len() * vstd::layout::size_of::<LightSource>() <= usize::MAX,
        ensures
            r.0 == self.sources@.len(),
            r.1 == self.sources@.len() * vstd::layout::size_of::<LightSource>(),
    {
        let count = self.sources.len();
        let size = count * core::mem::size_of::<LightSource>();
        (count, size)
    }
}

/// The radius of a lit artifact light: none unless lit and an artifact;
/// 3 when blessed, 2 when uncursed, 1 when cursed.
pub fn arti_light_radius(is_lit: bool, is_artifact: bool, blessed: bool, cursed: bool) -> (r: i32)
    ensures
        r == (if !is_lit || !is_artifact { 0int } else if blessed { 3int } else if !cursed { 2int } else { 1int }),
{
    if !is_lit || !is_artifact {
        return 0;
    }
    if blessed {
        3
    } else if !cursed {
        2
    } else {
        1
    }
}

/// How an artifact of a given light radius shines.
pub fn arti_light_description(radius: i32) -> (r: &'static str)
    ensures
        r@ == (if radius == 3 {
            "brilliantly"@
        } else if radius == 2 {
            "brightly"@
        } else if radius == 1 {
            "dimly"@
        } else {
            "strangely"@
        }),
{
    match radius {
        3 => "brilliantly",
        2 => "brightly",
        1 => "dimly",
        _ => "strangely",
    }
}

/// An object sheds light exactly when it is lit.
pub fn obj_sheds_light(is_lit: bool) -> (r: bool)
    ensures
        r == is_lit,
{
    is_lit
}

/// An object is burning when it is lit and is a magic lamp, something
/// that burns, or an artifact light.
pub fn obj_is_burning(is_lit: bool, is_magic_lamp: bool, is_ignitable: bool, is_artifact_light: bool) -> (r: bool)
    ensures
        r == (is_lit && (is_magic_lamp || is_ignitable || is_artifact_light)),
{
    is_lit && (is_magic_lamp || is_ignitable || is_artifact_light)
}

proof fn lemma_without_len(s: Seq<LightSource>, t: LightSourceType, id: u64)
    ensures
        without(s, t, id).len() <= s.len(),
        without(s, t, id).len() == s.len() <==> none_owned(s, t, id),
    decreases s.len(),
{
    if s.len() > 0 {
        lemma_without_len(s.drop_last(), t, id);
        if none_owned(s, t, id) {
            assert(none_owned(s.drop_last(), t, id)) by {
                assert forall|j: int| 0 <= j < s.drop_last().len() implies !owned_by(#[trigger] s.drop_last()[j], t, id) by {
                    assert(s.drop_last()[j] == s[j]);
                }
            }
        } else if !owned_by(s.last(), t, id) {
            assert(!none_owned(s.drop_last(), t, id)) by {
                let j = choose|j: int| 0 <= j < s.len() && owned_by(#[trigger] s[j], t, id);
                assert(j != s.len() - 1);
                assert(s.drop_last()[j] == s[j]);
            }
        }
    }
}

/// The number of times a candle count `n` is divided by 7 (rounding
/// toward zero) until the quotient is 0 or below, counting the last one.
pub open spec fn sevens(n: int) -> int
    decreases n,
{
    if n / 7 <= 0 { 1 } else { 1 + sevens(n / 7) }
}

/// The radius lit by `quantity` candles: on a candelabrum 2 below four, 3
/// below seven, else 4; otherwise 1 plus `sevens(quantity)`.
pub open spec fn candle_radius(quantity: int, is_candelabrum: bool) -> int {
    if is_candelabrum {
        if quantity < 4 { 2 } else if quantity < 7 { 3 } else { 4 }
    } else {
        1 + sevens(quantity)
    }
}

/// `7` to the power `k`.
pub open spec fn pow7(k: nat) -> int
    decreases k,
{
    if k == 0 { 1 } else { 7 * pow7((k - 1) as nat) }
}

proof fn lemma_sevens_bound(n: int, k: nat)
    requires
        k >= 1,
        n < pow7(k),
    ensures
        1 <= sevens(n) <= k,
    decreases k,
{
    if n / 7 > 0 {
        assert(k >= 2) by {
            if k == 1 {
                assert(pow7(1) == 7) by { reveal_with_fuel(pow7, 2); }
            }
        }
        assert(pow7(k) == 7 * pow7((k - 1) as nat));
        assert(n / 7 < pow7((k - 1) as nat)) by (nonlinear_arith)
            requires n < 7 * pow7((k - 1) as nat), n / 7 > 0;
        lemma_sevens_bound(n / 7, (k - 1) as nat);
    }
}

/// The radius lit by `quantity` candles.
pub fn candle_light_range(quantity: i64, is_candelabrum: bool) -> (r: i32)
    ensures
        r == candle_radius(quantity as int, is_candelabrum),
{
    if is_candelabrum {
        if quantity < 4 {
            2
        } else if quantity < 7 {
            3
        } else {
            4
        }
    } else {
        if quantity <= 0 {
            return 2;
        }
        proof {
            reveal_with_fuel(pow7, 24);
            assert(pow7(23) == 27368747340080916343);
            lemma_sevens_bound(quantity as int, 23);
        }
        let mut n = quantity / 7;
        let mut radius: i32 = 2;
        while n > 0
            invariant
                n >= 0,
                n > 0 ==> radius - 1 + sevens(n as int) == sevens(quantity as int),
                n == 0 ==> radius - 1 == sevens(quantity as int),
                sevens(quantity as int) <= 23,
                pow7(23) == 27368747340080916343,
                n <= quantity,
                radius >= 2,
            decreases n,
        {
            proof {
                lemma_sevens_bound(n as int, 23);
            }
            radius += 1;
            n = n / 7;
        }
        radius
    }
}

/// Removing a carrier's lights leaves none of its lights and keeps every
/// other light in order; removing them again changes nothing; and lights
/// added for the carrier just before are removed with it.
pub proof fn removal_clears_the_carrier(s: Seq<LightSource>, t: LightSourceType, id: u64, x: i32, y: i32, range: i32)
    ensures
        none_owned(without(s, t, id), t, id),
        without(without(s, t, id), t, id) == without(s, t, id),
        without(s.push(fresh_source(x, y, range, t, id)), t, id) == without(s, t, id),
        none_owned(s, t, id) ==> without(s, t, id) == s,
    decreases s.len(),
{
    if s.len() > 0 {
        removal_clears_the_carrier(s.drop_last(), t, id, x, y, range);
        let rest = without(s.drop_last(), t, id);
        if !owned_by(s.last(), t, id) {
            assert(rest.push(s.last()).drop_last() == rest);
            assert forall|j: int| 0 <= j < rest.push(s.last()).len() implies !owned_by(#[trigger] rest.push(s.last())[j], t, id) by {
                if j < rest.len() {
                    assert(rest.push(s.last())[j] == rest[j]);
                }
            }
        }
        if none_owned(s, t, id) {
            assert forall|j: int| 0 <= j < s.drop_last().len() implies !owned_by(#[trigger] s.drop_last()[j], t, id) by {
                assert(s.drop_last()[j] == s[j]);
            }
            assert(!owned_by(s.last(), t, id)) by {
                assert(s.last() == s[s.len() - 1]);
            }
            assert(s.drop_last().push(s.last()) == s);
        }
    }
    assert(s.push(fresh_source(x, y, range, t, id)).drop_last() == s);
}

} // verus!
