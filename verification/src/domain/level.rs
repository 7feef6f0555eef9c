//! The fixed levels of the dungeon, looked up by identifier.
use vstd::prelude::*;
use crate::ids::{LevelId, Pos};
use crate::domain::map::{GameMap, phase2_tile, phase5_level2_tile};
use crate::domain::tile::TileKind;

verus! {

/// A level: its identifier and its map.
#[derive(Debug, Clone, PartialEq, Eq)]
pub struct GameLevel {
    pub id: LevelId,
    pub map: GameMap,
}

/// The levels, in a fixed order.
#[derive(Debug, Clone, PartialEq, Eq)]
pub struct LevelRegistry {
    pub levels: Vec<GameLevel>,
}

/// The position of the first level with identifier `id` (meaningful when
/// there is one).
pub open spec fn level_index(levels: Seq<GameLevel>, id: LevelId) -> int {
    choose|i: int| 0 <= i < levels.len() && #[trigger] levels[i].id == id
        && forall|j: int| 0 <= j < i ==> levels[j].id != id
}

/// Whether some level has identifier `id`.
pub open spec fn has_level(levels: Seq<GameLevel>, id: LevelId) -> bool {
    exists|i: int| 0 <= i < levels.len() && #[trigger] levels[i].id == id
}

/// When some level has identifier `id`, `level_index` names the first one.
pub proof fn lemma_level_index(levels: Seq<GameLevel>, id: LevelId)
    requires
        has_level(levels, id),
    ensures
        0 <= level_index(levels, id) < levels.len(),
        levels[level_index(levels, id)].id == id,
        forall|j: int| 0 <= j < level_index(levels, id) ==> levels[j].id != id,
{
    let k = choose|k: int| 0 <= k < levels.len() && #[trigger] levels[k].id == id;
    lemma_first_level_exists(levels, id, k);
}

proof fn lemma_first_level_exists(levels: Seq<GameLevel>, id: LevelId, k: int)
    requires
        0 <= k < levels.len(),
        levels[k].id == id,
    ensures
        exists|i: int| 0 <= i < levels.len() && #[trigger] levels[i].id == id
            && forall|j: int| 0 <= j < i ==> levels[j].id != id,
    decreases k,
{
    if exists|j: int| 0 <= j < k && #[trigger] levels[j].id == id {
        let j = choose|j: int| 0 <= j < k && #[trigger] levels[j].id == id;
        lemma_first_level_exists(levels, id, j);
    } else {
        assert(forall|j: int| 0 <= j < k ==> levels[j].id != id);
    }
}

/// Whether `p` comes before `q` in row-major order.
pub open spec fn row_major_before(p: Pos, q: Pos) -> bool {
    p.y < q.y || (p.y == q.y && p.x < q.x)
}

/// The first level of the fixed dungeon.
pub open spec fn phase5_level1_id() -> LevelId {
    LevelId::spec_main(1)
}

/// The second level of the fixed dungeon.
pub open spec fn phase5_level2_id() -> LevelId {
    LevelId::spec_main(2)
}

impl LevelRegistry {
    /// Every map is well formed.
    pub open spec fn wf(&self) -> bool {
        forall|i: int| 0 <= i < self.levels@.len() ==> (#[trigger] self.levels@[i]).map.wf()
    }

    /// The map of the first level with identifier `id`.
    pub open spec fn map_of(&self, id: LevelId) -> GameMap {
        self.levels@[level_index(self.levels@, id)].map
    }

    /// The two fixed levels: main 1 and main 2, in that order.
    pub fn fixture_phase5() -> (r: Self)
        ensures
            r.wf(),
            r.levels@.len() == 2,
            r.levels@[0].id == phase5_level1_id(),
            r.levels@[1].id == phase5_level2_id(),
            r.levels@[0].map.width == 40 && r.levels@[0].map.height == 20,
            r.levels@[1].map.width == 40 && r.levels@[1].map.height == 20,
            r.levels@[0].map.matches(|x: int, y: int| phase2_tile(x, y)),
            r.levels@[1].map.matches(|x: int, y: int| phase5_level2_tile(x, y)),
    {
        let mut levels: Vec<GameLevel> = Vec::new();
        levels.push(GameLevel { id: LevelId::main(1), map: GameMap::fixture_phase2() });
        levels.push(GameLevel { id: LevelId::main(2), map: GameMap::fixture_phase5_level2() });
        LevelRegistry { levels }
    }

    /// The number of levels.
    pub fn len(&self) -> (r: usize)
        ensures
            r == self.levels@.len(),
    {
        self.levels.len()
    }

    /// Whether there are no levels.
    pub fn is_empty(&self) -> (r: bool)
        ensures
            r == (self.levels@.len() == 0),
    {
        self.levels.len() == 0
    }

    /// The position of the first level with identifier `id`, if any.
    pub fn position(&self, id: LevelId) -> (r: Option<usize>)
        ensures
            match r {
                Some(i) => has_level(self.levels@, id) && i == level_index(self.levels@, id) && i < self.levels@.len(),
                None => !has_level(self.levels@, id),
            },
    {
        let n = self.levels.len();
        let mut k: usize = 0;
        while k < n
            invariant
                k <= n,
                n == self.levels@.len(),
                forall|j: int| 0 <= j < k ==> #[trigger] self.levels@[j].id != id,
            decreases n - k,
        {
            if self.levels[k].id == id {
                proof {
                    let i = level_index(self.levels@, id);
                    assert(self.levels@[k as int].id == id);
                    if i > k {
                        assert(self.levels@[k as int].id == id);
                    }
                }
                return Some(k);
            }
            k = k + 1;
        }
        None
    }

    /// The first level with identifier `id`, if any.
    pub fn get(&self, id: LevelId) -> (r: Option<&GameLevel>)
        ensures
            has_level(self.levels@, id) ==> r == Some(&self.levels@[level_index(self.levels@, id)]),
            !has_level(self.levels@, id) ==> r is None,
    {
        match self.position(id) {
            Some(i) => Some(&self.levels[i]),
            None => None,
        }
    }

    /// The first level with identifier `id`, to change, if any.
    pub fn get_mut(&mut self, id: LevelId) -> (r: Option<&mut GameLevel>)
        ensures
            has_level(old(self).levels@, id) ==> (r matches Some(l) && *l == old(self).levels@[level_index(old(self).levels@, id)]
                && final(self).levels@ == old(self).levels@.update(level_index(old(self).levels@, id), *final(l))),
            !has_level(old(self).levels@, id) ==> r is None && *final(self) == *old(self),
    {
        match self.position(id) {
            Some(i) => Some(&mut self.levels[i]),
            None => None,
        }
    }

    /// The map of the first level with identifier `id`, if any.
    pub fn map(&self, id: LevelId) -> (r: Option<&GameMap>)
        ensures
            has_level(self.levels@, id) ==> r == Some(&self.map_of(id)),
            !has_level(self.levels@, id) ==> r is None,
    {
        match self.position(id) {
            Some(i) => Some(&self.levels[i].map),
            None => None,
        }
    }

    /// The map of the first level with identifier `id`, to change, if any.
    pub fn map_mut(&mut self, id: LevelId) -> (r: Option<&mut GameMap>)
        ensures
            has_level(old(self).levels@, id) ==> (r matches Some(m) && *m == old(self).map_of(id)
                && final(self).levels@ == old(self).levels@.update(level_index(old(self).levels@, id),
                    GameLevel { id: old(self).levels@[level_index(old(self).levels@, id)].id, map: *final(m) })),
            !has_level(old(self).levels@, id) ==> r is None && *final(self) == *old(self),
    {
        match self.position(id) {
            Some(i) => Some(&mut self.levels[i].map),
            None => None,
        }
    }

    /// Whether a level has identifier `id`.
    pub fn contains(&self, id: LevelId) -> (r: bool)
        ensures
            r == has_level(self.levels@, id),
    {
        self.position(id).is_some()
    }

    /// The first up staircase, in row-major order, of level `id`.
    pub fn stairs_up_pos(&self, id: LevelId) -> (r: Option<Pos>)
        requires
            self.wf(),
        ensures
            !has_level(self.levels@, id) ==> r is None,
            has_level(self.levels@, id) ==> first_tile(self.map_of(id), TileKind::StairsUp, r),
    {
        self.find_tile(id, TileKind::StairsUp)
    }

    /// The first down staircase, in row-major order, of level `id`.
    pub fn stairs_down_pos(&self, id: LevelId) -> (r: Option<Pos>)
        requires
            self.wf(),
        ensures
            !has_level(self.levels@, id) ==> r is None,
            has_level(self.levels@, id) ==> first_tile(self.map_of(id), TileKind::StairsDown, r),
    {
        self.find_tile(id, TileKind::StairsDown)
    }

    fn find_tile(&self, id: LevelId, needle: TileKind) -> (r: Option<Pos>)
        requires
            self.wf(),
        ensures
            !has_level(self.levels@, id) ==> r is None,
            has_level(self.levels@, id) ==> first_tile(self.map_of(id), needle, r),
    {
        let map = match self.map(id) {
            Some(m) => m,
            None => return None,
        };
        proof {
            lemma_level_index(self.levels@, id);
            let i = level_index(self.levels@, id);
            assert(self.levels@[i].map.wf());
        }
        let mut y: i16 = 0;
        while y < map.height
            invariant
                map.wf(),
                has_level(self.levels@, id),
                *map == self.map_of(id),
                0 <= y <= map.height,
                forall|q: Pos| map.in_bounds(q) && q.y < y ==> #[trigger] map.at(q) != needle,
            decreases map.height - y,
        {
            let mut x: i16 = 0;
            while x < map.width
                invariant
                    map.wf(),
                    has_level(self.levels@, id),
                    *map == self.map_of(id),
                    0 <= y < map.height,
                    0 <= x <= map.width,
                    forall|q: Pos| map.in_bounds(q) && (q.y < y || (q.y == y && q.x < x)) ==> #[trigger] map.at(q) != needle,
                decreases map.width - x,
            {
                let pos = Pos { x, y };
                match map.tile(pos) {
                    Ok(t) => {
                        if t == needle {
                            return Some(pos);
                        }
                    },
                    Err(_) => return None,
                }
                x = x + 1;
            }
            y = y + 1;
        }
        None
    }
}

/// `r` is the first square of `m`, in row-major order, holding `needle`,
/// or `None` when no square does.
pub open spec fn first_tile(m: GameMap, needle: TileKind, r: Option<Pos>) -> bool {
    match r {
        Some(p) => m.in_bounds(p) && m.at(p) == needle
            && forall|q: Pos| m.in_bounds(q) && row_major_before(q, p) ==> #[trigger] m.at(q) != needle,
        None => forall|q: Pos| m.in_bounds(q) ==> #[trigger] m.at(q) != needle,
    }
}

} // verus!
