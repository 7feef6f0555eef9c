//! The content records as read from the data files, their checks, and the
//! registry that indexes them by identifier.
use vstd::prelude::*;
use crate::error::{ContentError, Fault, fault_of};
use crate::data::dice::{dice_parts, parse_dice};
use crate::text::{str_chars, str_eq, text_with_int, int_text};

verus! {

/// The version of the content format this build reads.
pub const CONTENT_SCHEMA_VERSION: u16 = 1;

/// An item definition.
#[derive(Debug, Clone, PartialEq, Eq)]
pub struct ItemData {
    pub id: String,
    pub kind: String,
    pub glyph: String,
    pub weight: i16,
    pub slot: Option<String>,
    pub hit_bonus: Option<i16>,
    pub damage: Option<String>,
    pub effect: Option<String>,
    pub charges: Option<u8>,
    pub nutrition: Option<i16>,
    pub ac_bonus: Option<i16>,
    pub base_price: Option<i32>,
}

/// A monster definition.
#[derive(Debug, Clone, PartialEq, Eq)]
pub struct MonsterData {
    pub id: String,
    pub glyph: String,
    pub hp: i16,
    pub ac: i16,
    pub hit_bonus: i16,
    pub damage: String,
    pub ai: String,
    pub speed: i16,
    pub difficulty: i16,
    pub passive: Option<String>,
}

/// A level definition; positions are `[x, y]` lists.
#[derive(Debug, Clone, PartialEq, Eq)]
pub struct LevelData {
    pub level_id: String,
    pub branch: String,
    pub depth: i16,
    pub width: i16,
    pub height: i16,
    pub player_start: Vec<i16>,
    pub stairs_down: Option<Vec<i16>>,
    pub stairs_up: Option<Vec<i16>>,
    pub wall: Option<Vec<WallData>>,
    pub door: Option<Vec<DoorData>>,
    pub hidden_door: Option<Vec<HiddenDoorData>>,
    pub hidden_trap: Option<Vec<HiddenTrapData>>,
    pub monster: Option<Vec<LevelMonsterData>>,
    pub item: Option<Vec<LevelItemData>>,
}

/// A wall segment: column `x`, rows `y_range[0]` to `y_range[1]`.
#[derive(Debug, Clone, PartialEq, Eq)]
pub struct WallData {
    pub x: i16,
    pub y_range: Vec<i16>,
}

/// A door and its state.
#[derive(Debug, Clone, PartialEq, Eq)]
pub struct DoorData {
    pub pos: Vec<i16>,
    pub state: String,
}

/// A hidden door and the square it shows.
#[derive(Debug, Clone, PartialEq, Eq)]
pub struct HiddenDoorData {
    pub pos: Vec<i16>,
    pub tile: String,
}

/// A hidden trap, its kind and the square it shows.
#[derive(Debug, Clone, PartialEq, Eq)]
pub struct HiddenTrapData {
    pub pos: Vec<i16>,
    pub trap: String,
    pub tile: String,
}

/// A monster placed on a level.
#[derive(Debug, Clone, PartialEq, Eq)]
pub struct LevelMonsterData {
    pub id: String,
    pub pos: Vec<i16>,
}

/// An item placed on a level.
#[derive(Debug, Clone, PartialEq, Eq)]
pub struct LevelItemData {
    pub id: String,
    pub pos: Vec<i16>,
}

/// A record indexed by a string identifier.
pub trait Keyed {
    /// The identifier.
    spec fn key(&self) -> Seq<char>;

    /// The identifier.
    fn key_ref(&self) -> (r: &String)
        ensures
            r@ == self.key();
}

impl Keyed for ItemData {
    open spec fn key(&self) -> Seq<char> {
        self.id@
    }

    fn key_ref(&self) -> (r: &String) {
        &self.id
    }
}

impl Keyed for MonsterData {
    open spec fn key(&self) -> Seq<char> {
        self.id@
    }

    fn key_ref(&self) -> (r: &String) {
        &self.id
    }
}

impl Keyed for LevelData {
    open spec fn key(&self) -> Seq<char> {
        self.level_id@
    }

    fn key_ref(&self) -> (r: &String) {
        &self.level_id
    }
}

/// The order of strings: character by character, a proper prefix first.
pub open spec fn text_lt(a: Seq<char>, b: Seq<char>) -> bool
    decreases a.len(),
{
    if a.len() == 0 {
        b.len() > 0
    } else if b.len() == 0 {
        false
    } else if a[0] != b[0] {
        a[0] < b[0]
    } else {
        text_lt(a.drop_first(), b.drop_first())
    }
}

proof fn lemma_text_lt_irrefl(a: Seq<char>)
    ensures
        !text_lt(a, a),
    decreases a.len(),
{
    if a.len() > 0 {
        lemma_text_lt_irrefl(a.drop_first());
    }
}

proof fn lemma_text_lt_asym(a: Seq<char>, b: Seq<char>)
    ensures
        text_lt(a, b) ==> !text_lt(b, a),
    decreases a.len(),
{
    if a.len() > 0 && b.len() > 0 && a[0] == b[0] {
        lemma_text_lt_asym(a.drop_first(), b.drop_first());
    }
}

proof fn lemma_text_lt_total(a: Seq<char>, b: Seq<char>)
    ensures
        a != b ==> text_lt(a, b) || text_lt(b, a),
    decreases a.len(),
{
    if a.len() == 0 {
        if b.len() == 0 {
            assert(a =~= b);
        }
    } else if b.len() > 0 {
        if a[0] == b[0] {
            lemma_text_lt_total(a.drop_first(), b.drop_first());
            if a.drop_first() == b.drop_first() {
                assert(a.drop_first().len() == a.len() - 1);
                assert(b.drop_first().len() == b.len() - 1);
                assert(a.len() == b.len());
                assert(a =~= b) by {
                    assert forall|i: int| 0 <= i < a.len() implies a[i] == b[i] by {
                        if i > 0 {
                            assert(a[i] == a.drop_first()[i - 1]);
                            assert(b[i] == b.drop_first()[i - 1]);
                        }
                    }
                }
            }
        } else {
            assert(a[0] < b[0] || b[0] < a[0]);
        }
    }
}

proof fn lemma_text_lt_trans(a: Seq<char>, b: Seq<char>, c: Seq<char>)
    ensures
        text_lt(a, b) && text_lt(b, c) ==> text_lt(a, c),
    decreases a.len(),
{
    if a.len() > 0 && b.len() > 0 && c.len() > 0 {
        lemma_text_lt_trans(a.drop_first(), b.drop_first(), c.drop_first());
    }
}

/// The order of strings is a strict total order.
pub proof fn lemma_text_lt_order(a: Seq<char>, b: Seq<char>, c: Seq<char>)
    ensures
        !text_lt(a, a),
        text_lt(a, b) ==> !text_lt(b, a),
        a != b ==> text_lt(a, b) || text_lt(b, a),
        text_lt(a, b) && text_lt(b, c) ==> text_lt(a, c),
{
    lemma_text_lt_irrefl(a);
    lemma_text_lt_asym(a, b);
    lemma_text_lt_total(a, b);
    lemma_text_lt_trans(a, b, c);
}

/// Whether `a` comes before `b`.
pub fn text_less(a: &String, b: &String) -> (r: bool)
    ensures
        r == text_lt(a@, b@),
{
    let x = str_chars(a.as_str());
    let y = str_chars(b.as_str());
    let n = x.len();
    let m = y.len();
    let mut i: usize = 0;
    proof {
        assert(x@.skip(0) == x@);
        assert(y@.skip(0) == y@);
    }
    while i < n && i < m && x[i] == y[i]
        invariant
            i <= n, i <= m,
            n == x@.len(), m == y@.len(),
            x@ == a@, y@ == b@,
            text_lt(a@, b@) == text_lt(x@.skip(i as int), y@.skip(i as int)),
        decreases n - i,
    {
        proof {
            let xs = x@.skip(i as int);
            let ys = y@.skip(i as int);
            assert(xs.drop_first() == x@.skip(i + 1));
            assert(ys.drop_first() == y@.skip(i + 1));
        }
        i = i + 1;
    }
    if i == n {
        i < m
    } else if i == m {
        false
    } else {
        proof {
            let xs = x@.skip(i as int);
            let ys = y@.skip(i as int);
            assert(xs[0] == x@[i as int]);
            assert(ys[0] == y@[i as int]);
        }
        x[i] < y[i]
    }
}

/// The keys of a sequence of records are strictly increasing.
pub open spec fn sorted_by_key<T: Keyed>(s: Seq<T>) -> bool {
    forall|i: int, j: int| 0 <= i < j < s.len() ==> text_lt(#[trigger] s[i].key(), #[trigger] s[j].key())
}

/// Whether some record of `s` has key `k`.
pub open spec fn has_key<T: Keyed>(s: Seq<T>, k: Seq<char>) -> bool {
    exists|i: int| 0 <= i < s.len() && #[trigger] s[i].key() == k
}

/// The position of the first record of `s` whose key already occurred
/// earlier in `s`, if any.
#[verifier::opaque]
pub open spec fn first_duplicate<T: Keyed>(s: Seq<T>) -> Option<int> {
    if exists|j: int| 0 <= j < s.len() && has_key(s.take(j), #[trigger] s[j].key()) {
        Some(choose|j: int| 0 <= j < s.len() && has_key(s.take(j), #[trigger] s[j].key())
            && forall|k: int| 0 <= k < j ==> !has_key(s.take(k), #[trigger] s[k].key()))
    } else {
        None
    }
}

proof fn lemma_has_key_insert<T: Keyed>(s: Seq<T>, p: int, e: T, k: Seq<char>)
    requires
        0 <= p <= s.len(),
    ensures
        has_key(s.insert(p, e), k) == (has_key(s, k) || e.key() == k),
{
    let t = s.insert(p, e);
    if has_key(t, k) {
        let q = choose|q: int| 0 <= q < t.len() && #[trigger] t[q].key() == k;
        if q < p {
            assert(s[q].key() == k);
        } else if q > p {
            assert(s[q - 1].key() == k);
        }
    }
    if has_key(s, k) {
        let q = choose|q: int| 0 <= q < s.len() && #[trigger] s[q].key() == k;
        if q < p {
            assert(t[q].key() == k);
        } else {
            assert(t[q + 1].key() == k);
        }
    }
    if e.key() == k {
        assert(t[p].key() == k);
    }
}

proof fn lemma_has_key_push<T: Keyed>(s: Seq<T>, e: T, k: Seq<char>)
    ensures
        has_key(s.push(e), k) == (has_key(s, k) || e.key() == k),
{
    lemma_has_key_insert(s, s.len() as int, e, k);
    assert(s.insert(s.len() as int, e) == s.push(e));
}

/// Inserting a record at the place where its key belongs keeps the keys
/// increasing.
proof fn lemma_insert_sorted<T: Keyed>(s: Seq<T>, p: int, e: T)
    requires
        sorted_by_key(s),
        0 <= p <= s.len(),
        forall|q: int| 0 <= q < p ==> text_lt(#[trigger] s[q].key(), e.key()),
        forall|q: int| p <= q < s.len() ==> text_lt(e.key(), #[trigger] s[q].key()),
    ensures
        sorted_by_key(s.insert(p, e)),
{
    let t = s.insert(p, e);
    assert forall|a: int, b: int| 0 <= a < b < t.len() implies text_lt(#[trigger] t[a].key(), #[trigger] t[b].key()) by {
        if b < p {
        } else if a < p && b == p {
        } else if a < p && b > p {
            lemma_text_lt_trans(s[a].key(), e.key(), s[b - 1].key());
        } else if a == p {
        } else {
        }
    }
}

/// In a sorted sequence, from the first key not before `k` on, every key
/// is after `k` unless that first key is `k` itself; and then `k` occurs
/// exactly when that first key is `k`.
proof fn lemma_search_position<T: Keyed>(s: Seq<T>, p: int, k: Seq<char>)
    requires
        sorted_by_key(s),
        0 <= p <= s.len(),
        forall|q: int| 0 <= q < p ==> text_lt(#[trigger] s[q].key(), k),
        p < s.len() ==> !text_lt(s[p].key(), k),
    ensures
        (p < s.len() && s[p].key() == k) == has_key(s, k),
        !(p < s.len() && s[p].key() == k) ==> forall|q: int| p <= q < s.len() ==> text_lt(k, #[trigger] s[q].key()),
{
    if p < s.len() {
        lemma_text_lt_total(s[p].key(), k);
    }
    assert forall|q: int| p < q < s.len() implies text_lt(k, #[trigger] s[q].key()) || s[p].key() == k by {
        lemma_text_lt_total(s[p].key(), k);
        lemma_text_lt_trans(k, s[p].key(), s[q].key());
        if s[p].key() == k {
        }
    }
    if has_key(s, k) {
        let q = choose|q: int| 0 <= q < s.len() && #[trigger] s[q].key() == k;
        lemma_text_lt_irrefl(k);
        if q < p {
        } else if q > p && p < s.len() && s[p].key() != k {
            assert(text_lt(k, s[q].key()));
        }
    }
}

proof fn lemma_first_duplicate_at<T: Keyed>(all: Seq<T>, i: int)
    requires
        0 <= i < all.len(),
        has_key(all.take(i), all[i].key()),
        forall|k: int| 0 <= k < i ==> !has_key(all.take(k), #[trigger] all[k].key()),
    ensures
        first_duplicate(all) == Some(i),
{
    reveal(first_duplicate);
    let j = choose|j: int| 0 <= j < all.len() && has_key(all.take(j), #[trigger] all[j].key())
        && forall|k: int| 0 <= k < j ==> !has_key(all.take(k), #[trigger] all[k].key());
    assert(0 <= j < all.len() && has_key(all.take(j), all[j].key())
        && forall|k: int| 0 <= k < j ==> !has_key(all.take(k), #[trigger] all[k].key())) by {
        assert(has_key(all.take(i), all[i].key()));
    }
    if j < i {
        assert(!has_key(all.take(j), all[j].key()));
    } else if j > i {
        assert(!has_key(all.take(i), all[i].key()));
    }
}

proof fn lemma_no_duplicate<T: Keyed>(all: Seq<T>)
    requires
        forall|k: int| 0 <= k < all.len() ==> !has_key(all.take(k), #[trigger] all[k].key()),
    ensures
        first_duplicate(all) is None,
{
    reveal(first_duplicate);
}

/// What `index_by_id` keeps after taking in the first `i` records: `out`
/// holds them sorted by key, with the same keys, and none of them repeated
/// an earlier key.
#[verifier::opaque]
spec fn index_inv<T: Keyed>(out: Seq<T>, all: Seq<T>, i: int) -> bool {
    &&& 0 <= i <= all.len()
    &&& out.len() == i
    &&& sorted_by_key(out)
    &&& forall|k: int| 0 <= k < i ==> out.contains(#[trigger] all[k])
    &&& forall|key: Seq<char>| #[trigger] has_key(out, key) == has_key(all.take(i), key)
    &&& forall|k: int| 0 <= k < i ==> !has_key(all.take(k), #[trigger] all[k].key())
}

proof fn lemma_index_start<T: Keyed>(all: Seq<T>)
    ensures
        index_inv(Seq::<T>::empty(), all, 0),
{
    reveal(index_inv);
    assert forall|key: Seq<char>| #[trigger] has_key(Seq::<T>::empty(), key) == has_key(all.take(0), key) by {
        assert(all.take(0).len() == 0);
    }
}

proof fn lemma_index_found<T: Keyed>(out: Seq<T>, all: Seq<T>, i: int, p: int)
    requires
        index_inv(out, all, i),
        i < all.len(),
        0 <= p < out.len(),
        out[p].key() == all[i].key(),
    ensures
        first_duplicate(all) == Some(i),
{
    reveal(index_inv);
    assert(has_key(out, all[i].key()));
    assert(has_key(all.take(i), all[i].key()));
    lemma_first_duplicate_at(all, i);
}

proof fn lemma_index_step<T: Keyed>(out: Seq<T>, all: Seq<T>, i: int, p: int)
    requires
        index_inv(out, all, i),
        i < all.len(),
        0 <= p <= out.len(),
        forall|q: int| 0 <= q < p ==> text_lt(#[trigger] out[q].key(), all[i].key()),
        forall|q: int| p <= q < out.len() ==> text_lt(all[i].key(), #[trigger] out[q].key()),
    ensures
        index_inv(out.insert(p, all[i]), all, i + 1),
{
    reveal(index_inv);
    let e = all[i];
    let t = out.insert(p, e);
    lemma_insert_sorted(out, p, e);
    assert(!has_key(out, e.key())) by {
        if has_key(out, e.key()) {
            let q = choose|q: int| 0 <= q < out.len() && #[trigger] out[q].key() == e.key();
            lemma_text_lt_irrefl(e.key());
        }
    }
    assert(all.take(i + 1) == all.take(i).push(e));
    assert forall|key: Seq<char>| #[trigger] has_key(t, key) == has_key(all.take(i + 1), key) by {
        lemma_has_key_insert(out, p, e, key);
        lemma_has_key_push(all.take(i), e, key);
    }
    assert forall|k: int| 0 <= k < i + 1 implies t.contains(#[trigger] all[k]) by {
        if k == i {
            assert(t[p] == all[k]);
        } else {
            let q = choose|q: int| 0 <= q < out.len() && out[q] == all[k];
            if q < p {
                assert(t[q] == all[k]);
            } else {
                assert(t[q + 1] == all[k]);
            }
        }
    }
}

proof fn lemma_index_done<T: Keyed>(out: Seq<T>, all: Seq<T>)
    requires
        index_inv(out, all, all.len() as int),
    ensures
        first_duplicate(all) is None,
        out.len() == all.len(),
        sorted_by_key(out),
        forall|i: int| 0 <= i < all.len() ==> out.contains(#[trigger] all[i]),
{
    reveal(index_inv);
    lemma_no_duplicate(all);
}

proof fn lemma_index_sorted<T: Keyed>(out: Seq<T>, all: Seq<T>, i: int)
    requires
        index_inv(out, all, i),
    ensures
        sorted_by_key(out),
        out.len() == i,
{
    reveal(index_inv);
}

/// Indexes records by key: the records sorted by key, or `DuplicateId`
/// with the key of the first record whose key occurred before it.
pub fn index_by_id<T: Keyed>(entries: Vec<T>) -> (r: Result<Vec<T>, ContentError>)
    ensures
        match first_duplicate(entries@) {
            Some(j) => r matches Err(ContentError::DuplicateId { id }) && id@ == entries@[j].key(),
            None => r matches Ok(v) && v@.len() == entries@.len() && sorted_by_key(v@)
                && forall|i: int| 0 <= i < entries@.len() ==> v@.contains(#[trigger] entries@[i]),
        },
{
    let ghost all = entries@;
    let n = entries.len();
    let mut out: Vec<T> = Vec::new();
    let mut rest = entries;
    let mut i: usize = 0;
    proof {
        lemma_index_start(all);
    }
    while i < n
        invariant
            i <= n,
            n == all.len(),
            rest@ == all.skip(i as int),
            all == entries@,
            index_inv(out@, all, i as int),
        decreases n - i,
    {
        let e = rest.remove(0);
        proof {
            assert(e == all[i as int]);
            assert(rest@ == all.skip(i + 1));
            lemma_index_sorted(out@, all, i as int);
        }
        let len = out.len();
        let mut p: usize = 0;
        while p < len && text_less(out[p].key_ref(), e.key_ref())
            invariant
                p <= len,
                len == out@.len(),
                forall|q: int| 0 <= q < p ==> text_lt(#[trigger] out@[q].key(), e.key()),
            decreases len - p,
        {
            p = p + 1;
        }
        proof {
            lemma_search_position(out@, p as int, e.key());
        }
        if p < len && str_eq(out[p].key_ref().as_str(), e.key_ref().as_str()) {
            let id = e.key_ref().clone();
            proof {
                lemma_index_found(out@, all, i as int, p as int);
                assert(id@ == e.key());
                assert(e == all[i as int]);
                assert(id@ == all[i as int].key());
            }
            proof {
                assert(first_duplicate(all) == Some(i as int));
                assert(all == entries@);
            }
            return Err(ContentError::DuplicateId { id });
        }
        proof {
            lemma_index_step(out@, all, i as int, p as int);
        }
        out.insert(p, e);
        i = i + 1;
    }
    proof {
        lemma_index_done(out@, all);
    }
    Ok(out)
}

/// Whether a damage string is valid: `0`, or `NdM` with positive `N` and
/// `M`.
pub open spec fn dice_ok(s: Seq<char>) -> bool {
    s == "0"@ || match dice_parts(s) {
        Some((a, b)) => a > 0 && b > 0,
        None => false,
    }
}

/// Checks a damage string; `InvalidDice` with the string when it is not
/// valid.
pub fn validate_dice(value: &str) -> (r: Result<(), ContentError>)
    ensures
        dice_ok(value@) ==> r is Ok,
        !dice_ok(value@) ==> (r matches Err(e) && fault_of(e) == Fault::Dice(value@)),
{
    if str_eq(value, "0") {
        return Ok(());
    }
    match parse_dice(value) {
        Some((dice, sides)) => {
            if dice <= 0 || sides <= 0 {
                Err(ContentError::InvalidDice { value: value.to_string() })
            } else {
                Ok(())
            }
        },
        None => Err(ContentError::InvalidDice { value: value.to_string() }),
    }
}

/// The coordinates reported for a position list: both of a pair, the
/// first (and 0) for another non-empty list, (0, 0) for an empty one.
pub open spec fn coord_xy(v: Seq<i16>) -> (int, int) {
    if v.len() == 2 {
        (v[0] as int, v[1] as int)
    } else if v.len() >= 1 {
        (v[0] as int, 0)
    } else {
        (0, 0)
    }
}

/// Whether a position list is an `[x, y]` pair on the level.
pub open spec fn coord_ok(l: LevelData, v: Seq<i16>) -> bool {
    v.len() == 2 && 0 <= v[0] && 0 <= v[1] && v[0] < l.width && v[1] < l.height
}

fn coordinate(level: &LevelData, value: &Vec<i16>) -> (r: Result<(), ContentError>)
    ensures
        coord_ok(*level, value@) ==> r is Ok,
        !coord_ok(*level, value@) ==> (r matches Err(e) && fault_of(e) == Fault::Coordinate(
            level.level_id@, coord_xy(value@).0, coord_xy(value@).1)),
{
    let n = value.len();
    let (x, y) = if n == 2 {
        (value[0], value[1])
    } else if n >= 1 {
        (value[0], 0i16)
    } else {
        (0i16, 0i16)
    };
    if n != 2 || x < 0 || y < 0 || x >= level.width || y >= level.height {
        return Err(ContentError::InvalidCoordinate { level: level.level_id.clone(), x, y });
    }
    Ok(())
}

/// The first position list of `pts` that is not on the level, as the
/// coordinates reported for it.
pub open spec fn bad_point(l: LevelData, pts: Seq<Seq<i16>>) -> Option<(int, int)>
    decreases pts.len(),
{
    if pts.len() == 0 {
        None
    } else if !coord_ok(l, pts[0]) {
        Some(coord_xy(pts[0]))
    } else {
        bad_point(l, pts.drop_first())
    }
}

/// The first square `(x, y)`, `y` from `y0` to `y1`, that is off the level.
pub open spec fn bad_in_column(l: LevelData, x: int, y0: int, y1: int) -> Option<(int, int)>
    decreases y1 - y0 + 1,
{
    if y0 > y1 {
        None
    } else if !(0 <= x < l.width && 0 <= y0 < l.height) {
        Some((x, y0))
    } else {
        bad_in_column(l, x, y0 + 1, y1)
    }
}

/// The first fault among wall segments: a segment whose row range is not
/// a pair is reported at `(x, 0)`, else its first square off the level.
pub open spec fn bad_wall(l: LevelData, ws: Seq<WallData>) -> Option<(int, int)>
    decreases ws.len(),
{
    if ws.len() == 0 {
        None
    } else if ws[0].y_range@.len() != 2 {
        Some((ws[0].x as int, 0))
    } else {
        match bad_in_column(l, ws[0].x as int, ws[0].y_range@[0] as int, ws[0].y_range@[1] as int) {
            Some(p) => Some(p),
            None => bad_wall(l, ws.drop_first()),
        }
    }
}

/// A record placed at a position of a level.
pub trait Placed {
    /// Its position list.
    spec fn place(&self) -> Seq<i16>;

    /// Its position list.
    fn place_ref(&self) -> (r: &Vec<i16>)
        ensures
            r@ == self.place();
}

impl Placed for DoorData {
    open spec fn place(&self) -> Seq<i16> { self.pos@ }
    fn place_ref(&self) -> (r: &Vec<i16>) { &self.pos }
}

impl Placed for HiddenDoorData {
    open spec fn place(&self) -> Seq<i16> { self.pos@ }
    fn place_ref(&self) -> (r: &Vec<i16>) { &self.pos }
}

impl Placed for HiddenTrapData {
    open spec fn place(&self) -> Seq<i16> { self.pos@ }
    fn place_ref(&self) -> (r: &Vec<i16>) { &self.pos }
}

impl Placed for LevelMonsterData {
    open spec fn place(&self) -> Seq<i16> { self.pos@ }
    fn place_ref(&self) -> (r: &Vec<i16>) { &self.pos }
}

impl Placed for LevelItemData {
    open spec fn place(&self) -> Seq<i16> { self.pos@ }
    fn place_ref(&self) -> (r: &Vec<i16>) { &self.pos }
}

/// The position lists of an optional list of placed records.
pub open spec fn places<T: Placed>(o: Option<Vec<T>>) -> Seq<Seq<i16>> {
    match o {
        Some(v) => v@.map_values(|e: T| e.place()),
        None => Seq::empty(),
    }
}

/// The position lists of an optional position.
pub open spec fn opt_place(o: Option<Vec<i16>>) -> Seq<Seq<i16>> {
    match o {
        Some(v) => seq![v@],
        None => Seq::empty(),
    }
}

/// The first of two optional faults.
pub open spec fn or_else<A>(a: Option<A>, b: Option<A>) -> Option<A> {
    match a {
        Some(x) => Some(x),
        None => b,
    }
}

/// The walls of a level.
pub open spec fn walls_of(l: LevelData) -> Seq<WallData> {
    match l.wall {
        Some(v) => v@,
        None => Seq::empty(),
    }
}

/// The first position of a level that is off it, in this order: the
/// player's start, the down and up stairs, the walls, then doors, hidden
/// doors, hidden traps, monsters and items.
pub open spec fn bad_level_point(l: LevelData) -> Option<(int, int)> {
    or_else(bad_point(l, seq![l.player_start@] + opt_place(l.stairs_down) + opt_place(l.stairs_up)),
    or_else(bad_wall(l, walls_of(l)),
    bad_point(l, places(l.door) + places(l.hidden_door) + places(l.hidden_trap) + places(l.monster)
        + places(l.item))))
}

proof fn lemma_bad_point_append(l: LevelData, a: Seq<Seq<i16>>, b: Seq<Seq<i16>>)
    ensures
        bad_point(l, a + b) == or_else(bad_point(l, a), bad_point(l, b)),
    decreases a.len(),
{
    if a.len() > 0 {
        assert((a + b).drop_first() == a.drop_first() + b);
        lemma_bad_point_append(l, a.drop_first(), b);
    } else {
        assert(a + b == b);
    }
}

fn check_point(level: &LevelData, v: &Vec<i16>, Ghost(rest): Ghost<Seq<Seq<i16>>>) -> (r: Result<(), ContentError>)
    ensures
        r is Ok ==> bad_point(*level, seq![v@] + rest) == bad_point(*level, rest),
        r is Err ==> (bad_point(*level, seq![v@] + rest) matches Some(p)
            && r matches Err(e) && fault_of(e) == Fault::Coordinate(level.level_id@, p.0, p.1)),
{
    proof {
        assert((seq![v@] + rest).drop_first() == rest);
    }
    coordinate(level, v)
}

fn check_places<T: Placed>(level: &LevelData, entries: &Option<Vec<T>>) -> (r: Result<(), ContentError>)
    ensures
        match bad_point(*level, places(*entries)) {
            Some(p) => r matches Err(e) && fault_of(e) == Fault::Coordinate(level.level_id@, p.0, p.1),
            None => r is Ok,
        },
{
    match entries {
        Some(v) => {
            let ghost all = v@.map_values(|e: T| e.place());
            let n = v.len();
            let mut k: usize = 0;
            proof {
                assert(all.skip(0) == all);
                assert(all =~= places(*entries));
            }
            while k < n
                invariant
                    k <= n,
                    n == v@.len(),
                    all == v@.map_values(|e: T| e.place()),
                    all == places(*entries),
                    bad_point(*level, all) == bad_point(*level, all.skip(k as int)),
                decreases n - k,
            {
                proof {
                    assert(all.skip(k as int) == seq![v@[k as int].place()] + all.skip(k + 1));
                }
                match check_point(level, v[k].place_ref(), Ghost(all.skip(k + 1))) {
                    Ok(()) => {},
                    Err(e) => return Err(e),
                }
                k = k + 1;
            }
            proof {
                assert(all.skip(n as int).len() == 0);
            }
            Ok(())
        },
        None => Ok(()),
    }
}

fn check_column(level: &LevelData, x: i16, y0: i16, y1: i16) -> (r: Result<(), ContentError>)
    ensures
        match bad_in_column(*level, x as int, y0 as int, y1 as int) {
            Some(p) => r matches Err(e) && fault_of(e) == Fault::Coordinate(level.level_id@, p.0, p.1),
            None => r is Ok,
        },
{
    let mut y: i32 = y0 as i32;
    while y <= y1 as i32
        invariant
            y0 <= y <= y1 + 1 || (y == y0 && y0 > y1),
            bad_in_column(*level, x as int, y0 as int, y1 as int) == bad_in_column(*level, x as int, y as int, y1 as int),
        decreases y1 + 1 - y,
    {
        if x < 0 || y < 0 || x >= level.width || y >= level.height as i32 {
            return Err(ContentError::InvalidCoordinate { level: level.level_id.clone(), x, y: y as i16 });
        }
        y = y + 1;
    }
    Ok(())
}

/// Checks that every position of a level lies on it; `InvalidCoordinate`
/// with the level and the reported coordinates of the first position that
/// does not (see `bad_level_point` for the order).
pub fn validate_level_coordinates(level: &LevelData) -> (r: Result<(), ContentError>)
    ensures
        match bad_level_point(*level) {
            Some(p) => r matches Err(e) && fault_of(e) == Fault::Coordinate(level.level_id@, p.0, p.1),
            None => r is Ok,
        },
{
    let ghost l = *level;
    let ghost head = seq![l.player_start@] + opt_place(l.stairs_down) + opt_place(l.stairs_up);
    proof {
        lemma_bad_point_append(l, seq![l.player_start@], opt_place(l.stairs_down) + opt_place(l.stairs_up));
        lemma_bad_point_append(l, opt_place(l.stairs_down), opt_place(l.stairs_up));
        assert(head == seq![l.player_start@] + (opt_place(l.stairs_down) + opt_place(l.stairs_up)));
        assert(bad_point(l, Seq::<Seq<i16>>::empty()) is None);
        assert(seq![l.player_start@] + Seq::<Seq<i16>>::empty() == seq![l.player_start@]);
    }
    match check_point(level, &level.player_start, Ghost(Seq::empty())) {
        Ok(()) => {},
        Err(e) => return Err(e),
    }
    match &level.stairs_down {
        Some(pos) => {
            proof { assert(seq![pos@] + Seq::<Seq<i16>>::empty() == seq![pos@]); }
            match check_point(level, pos, Ghost(Seq::empty())) {
                Ok(()) => {},
                Err(e) => return Err(e),
            }
        },
        None => {},
    }
    match &level.stairs_up {
        Some(pos) => {
            proof { assert(seq![pos@] + Seq::<Seq<i16>>::empty() == seq![pos@]); }
            match check_point(level, pos, Ghost(Seq::empty())) {
                Ok(()) => {},
                Err(e) => return Err(e),
            }
        },
        None => {},
    }
    assert(bad_point(l, head) is None);
    match &level.wall {
        Some(walls) => {
            let n = walls.len();
            let mut k: usize = 0;
            proof {
                assert(walls@.skip(0) == walls@);
            }
            while k < n
                invariant
                    k <= n,
                    n == walls@.len(),
                    l == *level,
                    level.wall == Some(*walls),
                    bad_wall(l, walls@) == bad_wall(l, walls@.skip(k as int)),
                    bad_point(l, seq![l.player_start@] + opt_place(l.stairs_down) + opt_place(l.stairs_up)) is None,
                decreases n - k,
            {
                let w = &walls[k];
                proof {
                    assert(walls@.skip(k as int)[0] == *w);
                    assert(walls@.skip(k as int).drop_first() == walls@.skip(k + 1));
                }
                if w.y_range.len() != 2 {
                    return Err(ContentError::InvalidCoordinate { level: level.level_id.clone(), x: w.x, y: 0 });
                }
                match check_column(level, w.x, w.y_range[0], w.y_range[1]) {
                    Ok(()) => {},
                    Err(e) => return Err(e),
                }
                k = k + 1;
            }
            proof {
                assert(walls@.skip(n as int).len() == 0);
            }
        },
        None => {},
    }
    assert(bad_wall(l, walls_of(l)) is None);
    let ghost tail = places(l.door) + places(l.hidden_door) + places(l.hidden_trap) + places(l.monster)
        + places(l.item);
    proof {
        lemma_bad_point_append(l, places(l.door) + places(l.hidden_door) + places(l.hidden_trap)
            + places(l.monster), places(l.item));
        lemma_bad_point_append(l, places(l.door) + places(l.hidden_door) + places(l.hidden_trap), places(l.monster));
        lemma_bad_point_append(l, places(l.door) + places(l.hidden_door), places(l.hidden_trap));
        lemma_bad_point_append(l, places(l.door), places(l.hidden_door));
    }
    match check_places(level, &level.door) { Ok(()) => {}, Err(e) => return Err(e) }
    match check_places(level, &level.hidden_door) { Ok(()) => {}, Err(e) => return Err(e) }
    match check_places(level, &level.hidden_trap) { Ok(()) => {}, Err(e) => return Err(e) }
    match check_places(level, &level.monster) { Ok(()) => {}, Err(e) => return Err(e) }
    match check_places(level, &level.item) { Ok(()) => {}, Err(e) => return Err(e) }
    Ok(())
}

/// The first item whose damage string is not valid, as a fault.
pub open spec fn item_fault(items: Seq<ItemData>) -> Option<Fault>
    decreases items.len(),
{
    if items.len() == 0 {
        None
    } else {
        match items[0].damage {
            Some(d) => if !dice_ok(d@) { Some(Fault::Dice(d@)) } else { item_fault(items.drop_first()) },
            None => item_fault(items.drop_first()),
        }
    }
}

/// The first monster whose damage string is not valid, as a fault.
pub open spec fn monster_fault(monsters: Seq<MonsterData>) -> Option<Fault>
    decreases monsters.len(),
{
    if monsters.len() == 0 {
        None
    } else if !dice_ok(monsters[0].damage@) {
        Some(Fault::Dice(monsters[0].damage@))
    } else {
        monster_fault(monsters.drop_first())
    }
}

/// The first placed record whose identifier is not a key of `known`, as
/// an unknown reference owned by `owner`.
pub open spec fn unknown_ref<T: Keyed>(owner: Seq<char>, ids: Seq<Seq<char>>, known: Seq<T>) -> Option<Fault>
    decreases ids.len(),
{
    if ids.len() == 0 {
        None
    } else if !has_key(known, ids[0]) {
        Some(Fault::Unknown(owner, ids[0]))
    } else {
        unknown_ref(owner, ids.drop_first(), known)
    }
}

/// The identifiers of the monsters placed on a level.
pub open spec fn placed_monster_ids(l: LevelData) -> Seq<Seq<char>> {
    match l.monster {
        Some(v) => v@.map_values(|e: LevelMonsterData| e.id@),
        None => Seq::empty(),
    }
}

/// The identifiers of the items placed on a level.
pub open spec fn placed_item_ids(l: LevelData) -> Seq<Seq<char>> {
    match l.item {
        Some(v) => v@.map_values(|e: LevelItemData| e.id@),
        None => Seq::empty(),
    }
}

/// Whether some level of the same branch one deeper has an up staircase.
pub open spec fn paired_up(l: LevelData, levels: Seq<LevelData>) -> bool {
    exists|i: int| 0 <= i < levels.len() && #[trigger] levels[i].branch@ == l.branch@
        && levels[i].depth == l.depth + 1 && levels[i].stairs_up is Some
}

/// Whether some level of the same branch one shallower has a down
/// staircase.
pub open spec fn paired_down(l: LevelData, levels: Seq<LevelData>) -> bool {
    exists|i: int| 0 <= i < levels.len() && #[trigger] levels[i].branch@ == l.branch@
        && levels[i].depth == l.depth - 1 && levels[i].stairs_down is Some
}

/// The first fault of a level: a position off the level, an unknown
/// monster, an unknown item, a down staircase without a matching up
/// staircase below, an up staircase without a matching down staircase
/// above.
pub open spec fn level_fault(l: LevelData, items: Seq<ItemData>, monsters: Seq<MonsterData>,
    levels: Seq<LevelData>) -> Option<Fault> {
    or_else(match bad_level_point(l) {
        Some(p) => Some(Fault::Coordinate(l.level_id@, p.0, p.1)),
        None => None,
    },
    or_else(unknown_ref(l.level_id@, placed_monster_ids(l), monsters),
    or_else(unknown_ref(l.level_id@, placed_item_ids(l), items),
    or_else(if l.stairs_down is Some && !paired_up(l, levels) { Some(Fault::Stairs(l.level_id@)) } else { None },
        if l.stairs_up is Some && !paired_down(l, levels) { Some(Fault::Stairs(l.level_id@)) } else { None }))))
}

/// The first fault among the levels of `ls`.
pub open spec fn levels_fault(ls: Seq<LevelData>, items: Seq<ItemData>, monsters: Seq<MonsterData>,
    levels: Seq<LevelData>) -> Option<Fault>
    decreases ls.len(),
{
    if ls.len() == 0 {
        None
    } else {
        or_else(level_fault(ls[0], items, monsters, levels), levels_fault(ls.drop_first(), items, monsters, levels))
    }
}

/// The first fault of indexed content: items, then monsters, then levels.
pub open spec fn content_fault(items: Seq<ItemData>, monsters: Seq<MonsterData>, levels: Seq<LevelData>) -> Option<Fault> {
    or_else(item_fault(items), or_else(monster_fault(monsters), levels_fault(levels, items, monsters, levels)))
}

fn find_key<T: Keyed>(known: &Vec<T>, id: &String) -> (r: bool)
    ensures
        r == has_key(known@, id@),
{
    let n = known.len();
    let mut k: usize = 0;
    while k < n
        invariant
            k <= n,
            n == known@.len(),
            forall|j: int| 0 <= j < k ==> #[trigger] known@[j].key() != id@,
        decreases n - k,
    {
        if str_eq(known[k].key_ref().as_str(), id.as_str()) {
            return true;
        }
        k = k + 1;
    }
    false
}

fn check_monster_refs(level: &LevelData, monsters: &Vec<MonsterData>) -> (r: Result<(), ContentError>)
    ensures
        match unknown_ref(level.level_id@, placed_monster_ids(*level), monsters@) {
            Some(f) => r matches Err(e) && fault_of(e) == f,
            None => r is Ok,
        },
{
    match &level.monster {
        Some(v) => {
            let ghost ids = v@.map_values(|e: LevelMonsterData| e.id@);
            let n = v.len();
            let mut k: usize = 0;
            proof {
                assert(ids.skip(0) == ids);
                assert(ids =~= placed_monster_ids(*level));
            }
            while k < n
                invariant
                    k <= n,
                    n == v@.len(),
                    ids == v@.map_values(|e: LevelMonsterData| e.id@),
                    ids == placed_monster_ids(*level),
                    unknown_ref(level.level_id@, ids, monsters@) == unknown_ref(level.level_id@, ids.skip(k as int), monsters@),
                decreases n - k,
            {
                proof {
                    assert(ids.skip(k as int)[0] == v@[k as int].id@);
                    assert(ids.skip(k as int).drop_first() == ids.skip(k + 1));
                }
                if !find_key(monsters, &v[k].id) {
                    return Err(ContentError::UnknownReference { owner: level.level_id.clone(), target: v[k].id.clone() });
                }
                k = k + 1;
            }
            proof {
                assert(ids.skip(n as int).len() == 0);
            }
            Ok(())
        },
        None => Ok(()),
    }
}

fn check_item_refs(level: &LevelData, items: &Vec<ItemData>) -> (r: Result<(), ContentError>)
    ensures
        match unknown_ref(level.level_id@, placed_item_ids(*level), items@) {
            Some(f) => r matches Err(e) && fault_of(e) == f,
            None => r is Ok,
        },
{
    match &level.item {
        Some(v) => {
            let ghost ids = v@.map_values(|e: LevelItemData| e.id@);
            let n = v.len();
            let mut k: usize = 0;
            proof {
                assert(ids.skip(0) == ids);
                assert(ids =~= placed_item_ids(*level));
            }
            while k < n
                invariant
                    k <= n,
                    n == v@.len(),
                    ids == v@.map_values(|e: LevelItemData| e.id@),
                    ids == placed_item_ids(*level),
                    unknown_ref(level.level_id@, ids, items@) == unknown_ref(level.level_id@, ids.skip(k as int), items@),
                decreases n - k,
            {
                proof {
                    assert(ids.skip(k as int)[0] == v@[k as int].id@);
                    assert(ids.skip(k as int).drop_first() == ids.skip(k + 1));
                }
                if !find_key(items, &v[k].id) {
                    return Err(ContentError::UnknownReference { owner: level.level_id.clone(), target: v[k].id.clone() });
                }
                k = k + 1;
            }
            proof {
                assert(ids.skip(n as int).len() == 0);
            }
            Ok(())
        },
        None => Ok(()),
    }
}

fn has_paired_up(level: &LevelData, levels: &Vec<LevelData>) -> (r: bool)
    ensures
        r == paired_up(*level, levels@),
{
    let n = levels.len();
    let mut k: usize = 0;
    while k < n
        invariant
            k <= n,
            n == levels@.len(),
            forall|j: int| 0 <= j < k ==> !(#[trigger] levels@[j].branch@ == level.branch@
                && levels@[j].depth == level.depth + 1 && levels@[j].stairs_up is Some),
        decreases n - k,
    {
        let other = &levels[k];
        if str_eq(other.branch.as_str(), level.branch.as_str()) && other.depth as i32 == level.depth as i32 + 1
            && other.stairs_up.is_some() {
            return true;
        }
        k = k + 1;
    }
    false
}

fn has_paired_down(level: &LevelData, levels: &Vec<LevelData>) -> (r: bool)
    ensures
        r == paired_down(*level, levels@),
{
    let n = levels.len();
    let mut k: usize = 0;
    while k < n
        invariant
            k <= n,
            n == levels@.len(),
            forall|j: int| 0 <= j < k ==> !(#[trigger] levels@[j].branch@ == level.branch@
                && levels@[j].depth == level.depth - 1 && levels@[j].stairs_down is Some),
        decreases n - k,
    {
        let other = &levels[k];
        if str_eq(other.branch.as_str(), level.branch.as_str()) && other.depth as i32 == level.depth as i32 - 1
            && other.stairs_down.is_some() {
            return true;
        }
        k = k + 1;
    }
    false
}

fn check_level(level: &LevelData, items: &Vec<ItemData>, monsters: &Vec<MonsterData>, levels: &Vec<LevelData>)
    -> (r: Result<(), ContentError>)
    ensures
        match level_fault(*level, items@, monsters@, levels@) {
            Some(f) => r matches Err(e) && fault_of(e) == f,
            None => r is Ok,
        },
{
    match validate_level_coordinates(level) { Ok(()) => {}, Err(e) => return Err(e) }
    match check_monster_refs(level, monsters) { Ok(()) => {}, Err(e) => return Err(e) }
    match check_item_refs(level, items) { Ok(()) => {}, Err(e) => return Err(e) }
    if level.stairs_down.is_some() && !has_paired_up(level, levels) {
        return Err(ContentError::MissingStairsPair { level: level.level_id.clone() });
    }
    if level.stairs_up.is_some() && !has_paired_down(level, levels) {
        return Err(ContentError::MissingStairsPair { level: level.level_id.clone() });
    }
    Ok(())
}

/// Checks indexed content: every damage string of items and monsters, then
/// each level's positions, references and stairs; the first fault, in that
/// order, is the error.
pub fn validate(items: &Vec<ItemData>, monsters: &Vec<MonsterData>, levels: &Vec<LevelData>) -> (r: Result<(), ContentError>)
    ensures
        match content_fault(items@, monsters@, levels@) {
            Some(f) => r matches Err(e) && fault_of(e) == f,
            None => r is Ok,
        },
{
    let ni = items.len();
    let mut k: usize = 0;
    proof { assert(items@.skip(0) == items@); }
    while k < ni
        invariant
            k <= ni,
            ni == items@.len(),
            item_fault(items@) == item_fault(items@.skip(k as int)),
        decreases ni - k,
    {
        proof {
            assert(items@.skip(k as int)[0] == items@[k as int]);
            assert(items@.skip(k as int).drop_first() == items@.skip(k + 1));
        }
        match &items[k].damage {
            Some(d) => {
                match validate_dice(d.as_str()) { Ok(()) => {}, Err(e) => return Err(e) }
            },
            None => {},
        }
        k = k + 1;
    }
    proof { assert(items@.skip(ni as int).len() == 0); }
    let nm = monsters.len();
    let mut k: usize = 0;
    proof { assert(monsters@.skip(0) == monsters@); }
    while k < nm
        invariant
            k <= nm,
            nm == monsters@.len(),
            item_fault(items@) is None,
            monster_fault(monsters@) == monster_fault(monsters@.skip(k as int)),
        decreases nm - k,
    {
        proof {
            assert(monsters@.skip(k as int)[0] == monsters@[k as int]);
            assert(monsters@.skip(k as int).drop_first() == monsters@.skip(k + 1));
        }
        match validate_dice(monsters[k].damage.as_str()) { Ok(()) => {}, Err(e) => return Err(e) }
        k = k + 1;
    }
    proof { assert(monsters@.skip(nm as int).len() == 0); }
    let nl = levels.len();
    let mut k: usize = 0;
    proof { assert(levels@.skip(0) == levels@); }
    while k < nl
        invariant
            k <= nl,
            nl == levels@.len(),
            item_fault(items@) is None,
            monster_fault(monsters@) is None,
            levels_fault(levels@, items@, monsters@, levels@) == levels_fault(levels@.skip(k as int), items@, monsters@, levels@),
        decreases nl - k,
    {
        proof {
            assert(levels@.skip(k as int)[0] == levels@[k as int]);
            assert(levels@.skip(k as int).drop_first() == levels@.skip(k + 1));
        }
        match check_level(&levels[k], items, monsters, levels) { Ok(()) => {}, Err(e) => return Err(e) }
        k = k + 1;
    }
    proof { assert(levels@.skip(nl as int).len() == 0); }
    Ok(())
}

/// The FNV-1a hash of a byte string (64-bit).
pub open spec fn fnv1a(bytes: Seq<u8>) -> u64
    decreases bytes.len(),
{
    if bytes.len() == 0 {
        0xcbf29ce484222325u64
    } else {
        vstd::wrapping::u64_specs::wrapping_mul(fnv1a(bytes.drop_last()) ^ (bytes.last() as u64), 0x100000001b3u64)
    }
}

/// The lowercase hexadecimal digit of `d` (0 to 15).
pub open spec fn hex_digit(d: u64) -> char {
    if d < 10 { ((d + 48) as u8) as char } else { ((d + 87) as u8) as char }
}

/// `h` as 16 lowercase hexadecimal digits, most significant first.
pub open spec fn hex16(h: u64) -> Seq<char> {
    Seq::new(16, |i: int| hex_digit((h >> ((60 - 4 * i) as u64)) & 15u64))
}

/// The content hash of canonical bytes: FNV-1a as 16 hexadecimal digits.
pub fn content_hash_of(bytes: &[u8]) -> (r: String)
    ensures
        r@ == hex16(fnv1a(bytes@)),
{
    let n = bytes.len();
    let mut h: u64 = 0xcbf29ce484222325u64;
    let mut k: usize = 0;
    while k < n
        invariant
            k <= n,
            n == bytes@.len(),
            h == fnv1a(bytes@.take(k as int)),
        decreases n - k,
    {
        proof {
            assert(bytes@.take(k + 1).drop_last() == bytes@.take(k as int));
            assert(bytes@.take(k + 1).last() == bytes@[k as int]);
        }
        h = (h ^ (bytes[k] as u64)).wrapping_mul(0x100000001b3u64);
        k = k + 1;
    }
    proof {
        assert(bytes@.take(n as int) == bytes@);
    }
    let mut out: Vec<char> = Vec::new();
    let mut i: u64 = 0;
    while i < 16
        invariant
            i <= 16,
            out@.len() == i,
            forall|j: int| 0 <= j < i ==> out@[j] == hex16(h)[j],
        decreases 16 - i,
    {
        let sh: u64 = 60 - 4 * i;
        let d = (h >> sh) & 15u64;
        assert(d < 16) by (bit_vector)
            requires d == (h >> sh) & 15u64;
        let c = if d < 10 { ((d + 48) as u8) as char } else { ((d + 87) as u8) as char };
        out.push(c);
        i = i + 1;
    }
    proof {
        assert(out@ =~= hex16(h));
    }
    crate::text::string_from_chars(&out)
}

/// Content items, monsters and levels, checked and indexed by identifier,
/// with the hash of their canonical form.
#[derive(Debug)]
pub struct ContentRegistry {
    schema_version: u16,
    content_hash: String,
    items: Vec<ItemData>,
    monsters: Vec<MonsterData>,
    levels: Vec<LevelData>,
}

/// `v` is `entries` sorted by key (the keys being distinct).
pub open spec fn indexed<T: Keyed>(v: Seq<T>, entries: Seq<T>) -> bool {
    v.len() == entries.len() && sorted_by_key(v) && forall|i: int| 0 <= i < entries.len() ==> v.contains(#[trigger] entries[i])
}

/// The fault reported for an unsupported content version.
pub open spec fn version_fault(v: u16) -> Fault {
    Fault::Parse("content"@, "unsupported schema_version: "@ + int_text(v as int))
}

/// Checks the content version; a `Parse` error for any version but the
/// supported one.
pub fn check_schema_version(schema_version: u16) -> (r: Result<(), ContentError>)
    ensures
        schema_version == CONTENT_SCHEMA_VERSION ==> r is Ok,
        schema_version != CONTENT_SCHEMA_VERSION ==> (r matches Err(e) && fault_of(e) == version_fault(schema_version)),
{
    if schema_version != CONTENT_SCHEMA_VERSION {
        let message = text_with_int("unsupported schema_version: ", schema_version as i64, "");
        proof {
            reveal_strlit("");
            assert("unsupported schema_version: "@ + int_text(schema_version as int) + ""@
                == "unsupported schema_version: "@ + int_text(schema_version as int));
        }
        return Err(ContentError::Parse { file: "content".to_string(), message });
    }
    Ok(())
}

/// The record of `s` with key `k`, if any (the first such record).
pub open spec fn keyed_entry<T: Keyed>(s: Seq<T>, k: Seq<char>) -> Option<T> {
    if has_key(s, k) {
        Some(s[key_index(s, k)])
    } else {
        None
    }
}

/// A position of `s` whose record has key `k` (meaningful when there is
/// one).
pub open spec fn key_index<T: Keyed>(s: Seq<T>, k: Seq<char>) -> int {
    choose|i: int| 0 <= i < s.len() && #[trigger] s[i].key() == k
}

/// In a sequence sorted by key, a record with key `k` is the one
/// `keyed_entry` names.
pub proof fn lemma_keyed_entry_unique<T: Keyed>(s: Seq<T>, k: Seq<char>, i: int)
    requires
        sorted_by_key(s),
        0 <= i < s.len(),
        s[i].key() == k,
    ensures
        keyed_entry(s, k) == Some(s[i]),
{
    assert(has_key(s, k));
    let j = key_index(s, k);
    if j != i {
        lemma_text_lt_irrefl(k);
        if j < i {
            assert(text_lt(s[j].key(), s[i].key()));
        } else {
            assert(text_lt(s[i].key(), s[j].key()));
        }
    }
}

impl ContentRegistry {
    /// Items, monsters and levels are each sorted by identifier.
    #[verifier::type_invariant]
    spec fn sorted(self) -> bool {
        sorted_by_key(self.items@) && sorted_by_key(self.monsters@) && sorted_by_key(self.levels@)
    }

    /// The content version.
    pub closed spec fn version(&self) -> u16 {
        self.schema_version
    }

    /// The content hash text.
    pub closed spec fn hash_text(&self) -> Seq<char> {
        self.content_hash@
    }

    /// The items, sorted by identifier.
    pub closed spec fn item_seq(&self) -> Seq<ItemData> {
        self.items@
    }

    /// The monsters, sorted by identifier.
    pub closed spec fn monster_seq(&self) -> Seq<MonsterData> {
        self.monsters@
    }

    /// The levels, sorted by identifier.
    pub closed spec fn level_seq(&self) -> Seq<LevelData> {
        self.levels@
    }

    /// Builds the registry from parsed content and the canonical bytes of
    /// that content: the version must be supported, identifiers must be
    /// unique (items, then monsters, then levels), and the indexed content
    /// must pass `validate`; the hash is that of the canonical bytes.
    pub fn from_parsed(schema_version: u16, items: Vec<ItemData>, monsters: Vec<MonsterData>,
        levels: Vec<LevelData>, canonical: &[u8]) -> (r: Result<Self, ContentError>)
        ensures
            schema_version != CONTENT_SCHEMA_VERSION ==> (r matches Err(e) && fault_of(e) == version_fault(schema_version)),
            schema_version == CONTENT_SCHEMA_VERSION ==> match first_duplicate(items@) {
                Some(j) => r matches Err(e) && fault_of(e) == Fault::Duplicate(items@[j].key()),
                None => match first_duplicate(monsters@) {
                    Some(j) => r matches Err(e) && fault_of(e) == Fault::Duplicate(monsters@[j].key()),
                    None => match first_duplicate(levels@) {
                        Some(j) => r matches Err(e) && fault_of(e) == Fault::Duplicate(levels@[j].key()),
                        None => exists|si: Seq<ItemData>, sm: Seq<MonsterData>, sl: Seq<LevelData>|
                            #[trigger] indexed(si, items@) && #[trigger] indexed(sm, monsters@) && #[trigger] indexed(sl, levels@)
                            && match content_fault(si, sm, sl) {
                                Some(f) => r matches Err(e) && fault_of(e) == f,
                                None => r matches Ok(reg) && reg.item_seq() == si && reg.monster_seq() == sm
                                    && reg.level_seq() == sl && reg.version() == schema_version
                                    && reg.hash_text() == hex16(fnv1a(canonical@)),
                            },
                    },
                },
            },
    {
        let ghost items0 = items@;
        let ghost monsters0 = monsters@;
        let ghost levels0 = levels@;
        match check_schema_version(schema_version) { Ok(()) => {}, Err(e) => return Err(e) }
        let items = match index_by_id(items) { Ok(v) => v, Err(e) => return Err(e) };
        let monsters = match index_by_id(monsters) { Ok(v) => v, Err(e) => return Err(e) };
        let levels = match index_by_id(levels) { Ok(v) => v, Err(e) => return Err(e) };
        let ghost si = items@;
        let ghost sm = monsters@;
        let ghost sl = levels@;
        match validate(&items, &monsters, &levels) {
            Ok(()) => {},
            Err(e) => {
                proof {
                    assert(indexed(si, items0) && indexed(sm, monsters0) && indexed(sl, levels0));
                }
                return Err(e);
            },
        }
        let content_hash = content_hash_of(canonical);
        assert(sorted_by_key(items@) && sorted_by_key(monsters@) && sorted_by_key(levels@));
        let reg = ContentRegistry { schema_version, content_hash, items, monsters, levels };
        proof {
            assert(indexed(si, items0) && indexed(sm, monsters0) && indexed(sl, levels0));
        }
        Ok(reg)
    }

    /// The content version.
    pub fn schema_version(&self) -> (r: u16)
        ensures
            r == self.version(),
    {
        self.schema_version
    }

    /// The content hash, 16 hexadecimal digits.
    pub fn content_hash(&self) -> (r: &str)
        ensures
            r@ == self.hash_text(),
    {
        self.content_hash.as_str()
    }

    /// The item with identifier `id`, if any.
    pub fn item(&self, id: &str) -> (r: Option<&ItemData>)
        ensures
            match r {
                Some(d) => keyed_entry(self.item_seq(), id@) == Some(*d),
                None => keyed_entry(self.item_seq(), id@) is None,
            },
    {
        proof {
            use_type_invariant(&*self);
            assert(self.sorted());
        }
        let n = self.items.len();
        let mut k: usize = 0;
        while k < n
            invariant
                k <= n,
                n == self.items@.len(),
                sorted_by_key(self.items@),
                forall|j: int| 0 <= j < k ==> #[trigger] self.items@[j].key() != id@,
            decreases n - k,
        {
            if str_eq(self.items[k].id.as_str(), id) {
                proof {
                    lemma_keyed_entry_unique(self.items@, id@, k as int);
                }
                return Some(&self.items[k]);
            }
            k = k + 1;
        }
        None
    }

    /// The monster with identifier `id`, if any.
    pub fn monster(&self, id: &str) -> (r: Option<&MonsterData>)
        ensures
            match r {
                Some(d) => keyed_entry(self.monster_seq(), id@) == Some(*d),
                None => keyed_entry(self.monster_seq(), id@) is None,
            },
    {
        proof {
            use_type_invariant(&*self);
            assert(self.sorted());
        }
        let n = self.monsters.len();
        let mut k: usize = 0;
        while k < n
            invariant
                k <= n,
                n == self.monsters@.len(),
                sorted_by_key(self.monsters@),
                forall|j: int| 0 <= j < k ==> #[trigger] self.monsters@[j].key() != id@,
            decreases n - k,
        {
            if str_eq(self.monsters[k].id.as_str(), id) {
                proof {
                    lemma_keyed_entry_unique(self.monsters@, id@, k as int);
                }
                return Some(&self.monsters[k]);
            }
            k = k + 1;
        }
        None
    }

    /// The level with identifier `id`, if any.
    pub fn level(&self, id: &str) -> (r: Option<&LevelData>)
        ensures
            match r {
                Some(d) => keyed_entry(self.level_seq(), id@) == Some(*d),
                None => keyed_entry(self.level_seq(), id@) is None,
            },
    {
        proof {
            use_type_invariant(&*self);
            assert(self.sorted());
        }
        let n = self.levels.len();
        let mut k: usize = 0;
        while k < n
            invariant
                k <= n,
                n == self.levels@.len(),
                sorted_by_key(self.levels@),
                forall|j: int| 0 <= j < k ==> #[trigger] self.levels@[j].key() != id@,
            decreases n - k,
        {
            if str_eq(self.levels[k].level_id.as_str(), id) {
                proof {
                    lemma_keyed_entry_unique(self.levels@, id@, k as int);
                }
                return Some(&self.levels[k]);
            }
            k = k + 1;
        }
        None
    }

    /// The items, sorted by identifier.
    pub fn items(&self) -> (r: &[ItemData])
        ensures
            r@ == self.item_seq(),
    {
        self.items.as_slice()
    }

    /// The monsters, sorted by identifier.
    pub fn monsters(&self) -> (r: &[MonsterData])
        ensures
            r@ == self.monster_seq(),
    {
        self.monsters.as_slice()
    }

    /// The levels, sorted by identifier.
    pub fn levels(&self) -> (r: &[LevelData])
        ensures
            r@ == self.level_seq(),
    {
        self.levels.as_slice()
    }
}

/// A content hash is 16 lowercase hexadecimal digits.
pub proof fn content_hash_is_hex(h: u64)
    ensures
        hex16(h).len() == 16,
        forall|i: int| 0 <= i < 16 ==> ('0' <= #[trigger] hex16(h)[i] <= '9' || 'a' <= hex16(h)[i] <= 'f'),
{
    assert forall|i: int| 0 <= i < 16 implies ('0' <= #[trigger] hex16(h)[i] <= '9' || 'a' <= hex16(h)[i] <= 'f') by {
        let sh = (60 - 4 * i) as u64;
        let d = (h >> sh) & 15u64;
        assert(d < 16) by (bit_vector)
            requires d == (h >> sh) & 15u64;
    }
}

/// After indexing, looking a record up by its identifier gives that very
/// record back.
pub proof fn indexed_records_are_found<T: Keyed>(v: Seq<T>, entries: Seq<T>, i: int)
    requires
        indexed(v, entries),
        0 <= i < entries.len(),
    ensures
        keyed_entry(v, entries[i].key()) == Some(entries[i]),
{
    assert(v.contains(entries[i]));
    let k = choose|k: int| 0 <= k < v.len() && v[k] == entries[i];
    lemma_keyed_entry_unique(v, entries[i].key(), k);
}

} // verus!
