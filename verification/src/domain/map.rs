//! A rectangular map of squares, stored row by row.
use vstd::prelude::*;
use crate::ids::Pos;
use crate::error::GameError;
use crate::domain::tile::{TileKind, DoorState};

verus! {

/// Width of the fixed levels.
pub const PHASE2_WIDTH: i16 = 40;
/// Height of the fixed levels.
pub const PHASE2_HEIGHT: i16 = 20;

/// Where the player starts on the first level.
pub open spec fn phase2_player_start() -> Pos { Pos { x: 5, y: 5 } }

/// The square at `(x, y)` of the first fixed level: a walled 40 by 20 room
/// with a wall segment at column 12 (rows 4 to 8), closed doors at (10, 5)
/// and (14, 5) and the down staircase at (34, 15).
pub open spec fn phase2_tile(x: int, y: int) -> TileKind {
    if x == 0 || y == 0 || x == PHASE2_WIDTH - 1 || y == PHASE2_HEIGHT - 1 {
        TileKind::Wall
    } else if x == 12 && 4 <= y <= 8 {
        TileKind::Wall
    } else if (x == 10 || x == 14) && y == 5 {
        TileKind::Door(DoorState::Closed)
    } else if x == 34 && y == 15 {
        TileKind::StairsDown
    } else {
        TileKind::Floor
    }
}

/// The square at `(x, y)` of the second fixed level: a walled 40 by 20
/// room with a wall segment at column 18 (rows 3 to 10), the up staircase
/// at (5, 5) and a closed door at (8, 5).
pub open spec fn phase5_level2_tile(x: int, y: int) -> TileKind {
    if x == 0 || y == 0 || x == PHASE2_WIDTH - 1 || y == PHASE2_HEIGHT - 1 {
        TileKind::Wall
    } else if x == 18 && 3 <= y <= 10 {
        TileKind::Wall
    } else if x == 5 && y == 5 {
        TileKind::StairsUp
    } else if x == 8 && y == 5 {
        TileKind::Door(DoorState::Closed)
    } else {
        TileKind::Floor
    }
}

fn phase2_tile_exec(x: i16, y: i16) -> (t: TileKind)
    ensures
        t == phase2_tile(x as int, y as int),
{
    if x == 0 || y == 0 || x == PHASE2_WIDTH - 1 || y == PHASE2_HEIGHT - 1 {
        TileKind::Wall
    } else if x == 12 && 4 <= y && y <= 8 {
        TileKind::Wall
    } else if (x == 10 || x == 14) && y == 5 {
        TileKind::Door(DoorState::Closed)
    } else if x == 34 && y == 15 {
        TileKind::StairsDown
    } else {
        TileKind::Floor
    }
}

fn phase5_level2_tile_exec(x: i16, y: i16) -> (t: TileKind)
    ensures
        t == phase5_level2_tile(x as int, y as int),
{
    if x == 0 || y == 0 || x == PHASE2_WIDTH - 1 || y == PHASE2_HEIGHT - 1 {
        TileKind::Wall
    } else if x == 18 && 3 <= y && y <= 10 {
        TileKind::Wall
    } else if x == 5 && y == 5 {
        TileKind::StairsUp
    } else if x == 8 && y == 5 {
        TileKind::Door(DoorState::Closed)
    } else {
        TileKind::Floor
    }
}

/// A `width` by `height` map; the square at `(x, y)` is stored at
/// `y * width + x`.
#[derive(Debug, Clone, PartialEq, Eq)]
pub struct GameMap {
    pub width: i16,
    pub height: i16,
    pub tiles: Vec<TileKind>,
}

/// Row-major positions of distinct squares are distinct, and every square
/// of the map has a position within the storage.
pub proof fn lemma_index_in_range(w: int, h: int, x: int, y: int)
    requires
        0 <= x < w,
        0 <= y < h,
    ensures
        0 <= y * w + x < w * h,
{
    assert(0 <= y * w + x < w * h) by (nonlinear_arith)
        requires 0 <= x < w, 0 <= y < h;
}

/// Distinct squares are stored at distinct places.
pub proof fn lemma_index_injective(w: int, x1: int, y1: int, x2: int, y2: int)
    requires
        0 <= x1 < w,
        0 <= x2 < w,
        y1 * w + x1 == y2 * w + x2,
    ensures
        x1 == x2 && y1 == y2,
{
    assert(y1 == y2) by (nonlinear_arith)
        requires 0 <= x1 < w, 0 <= x2 < w, y1 * w + x1 == y2 * w + x2;
}

impl GameMap {
    /// The storage holds exactly `width * height` squares.
    pub open spec fn wf(&self) -> bool {
        self.width >= 0 && self.height >= 0 && self.cells().len() == self.width * self.height
    }

    /// The squares, row by row.
    pub open spec fn cells(&self) -> Seq<TileKind> {
        self.tiles@
    }

    /// Whether `pos` is on the map.
    pub open spec fn in_bounds(&self, pos: Pos) -> bool {
        0 <= pos.x < self.width && 0 <= pos.y < self.height
    }

    /// The square at `pos` (meaningful on the map).
    pub open spec fn at(&self, pos: Pos) -> TileKind {
        self.tiles@[pos.y * self.width + pos.x]
    }

    /// The map's squares agree with `f` everywhere on the map.
    pub open spec fn matches(&self, f: spec_fn(int, int) -> TileKind) -> bool {
        forall|p: Pos| self.in_bounds(p) ==> #[trigger] self.at(p) == f(p.x as int, p.y as int)
    }

    /// The first fixed level.
    pub fn fixture_phase2() -> (m: Self)
        ensures
            m.wf(),
            m.width == PHASE2_WIDTH,
            m.height == PHASE2_HEIGHT,
            m.matches(|x: int, y: int| phase2_tile(x, y)),
    {
        let mut tiles: Vec<TileKind> = Vec::new();
        let mut y: i16 = 0;
        while y < PHASE2_HEIGHT
            invariant
                0 <= y <= PHASE2_HEIGHT,
                tiles@.len() == y * PHASE2_WIDTH,
                forall|i: int, j: int| 0 <= j < y && 0 <= i < PHASE2_WIDTH
                    ==> #[trigger] tiles@[j * PHASE2_WIDTH + i] == phase2_tile(i, j),
            decreases PHASE2_HEIGHT - y,
        {
            let mut x: i16 = 0;
            while x < PHASE2_WIDTH
                invariant
                    0 <= y < PHASE2_HEIGHT,
                    0 <= x <= PHASE2_WIDTH,
                    tiles@.len() == y * PHASE2_WIDTH + x,
                    forall|i: int, j: int| ((0 <= j < y && 0 <= i < PHASE2_WIDTH) || (j == y && 0 <= i < x))
                        ==> #[trigger] tiles@[j * PHASE2_WIDTH + i] == phase2_tile(i, j),
                decreases PHASE2_WIDTH - x,
            {
                tiles.push(phase2_tile_exec(x, y));
                x = x + 1;
            }
            y = y + 1;
        }
        GameMap { width: PHASE2_WIDTH, height: PHASE2_HEIGHT, tiles }
    }

    /// The second fixed level.
    pub fn fixture_phase5_level2() -> (m: Self)
        ensures
            m.wf(),
            m.width == PHASE2_WIDTH,
            m.height == PHASE2_HEIGHT,
            m.matches(|x: int, y: int| phase5_level2_tile(x, y)),
    {
        let mut tiles: Vec<TileKind> = Vec::new();
        let mut y: i16 = 0;
        while y < PHASE2_HEIGHT
            invariant
                0 <= y <= PHASE2_HEIGHT,
                tiles@.len() == y * PHASE2_WIDTH,
                forall|i: int, j: int| 0 <= j < y && 0 <= i < PHASE2_WIDTH
                    ==> #[trigger] tiles@[j * PHASE2_WIDTH + i] == phase5_level2_tile(i, j),
            decreases PHASE2_HEIGHT - y,
        {
            let mut x: i16 = 0;
            while x < PHASE2_WIDTH
                invariant
                    0 <= y < PHASE2_HEIGHT,
                    0 <= x <= PHASE2_WIDTH,
                    tiles@.len() == y * PHASE2_WIDTH + x,
                    forall|i: int, j: int| ((0 <= j < y && 0 <= i < PHASE2_WIDTH) || (j == y && 0 <= i < x))
                        ==> #[trigger] tiles@[j * PHASE2_WIDTH + i] == phase5_level2_tile(i, j),
                decreases PHASE2_WIDTH - x,
            {
                tiles.push(phase5_level2_tile_exec(x, y));
                x = x + 1;
            }
            y = y + 1;
        }
        GameMap { width: PHASE2_WIDTH, height: PHASE2_HEIGHT, tiles }
    }

    /// The number of stored squares.
    pub fn tile_count(&self) -> (r: usize)
        ensures
            r == self.cells().len(),
    {
        self.tiles.len()
    }

    /// Whether `pos` is on the map.
    pub fn contains(&self, pos: Pos) -> (r: bool)
        ensures
            r == self.in_bounds(pos),
    {
        pos.x >= 0 && pos.y >= 0 && pos.x < self.width && pos.y < self.height
    }

    /// The square at `pos`, or `OutOfBounds` off the map.
    pub fn tile(&self, pos: Pos) -> (r: Result<TileKind, GameError>)
        requires
            self.wf(),
        ensures
            self.in_bounds(pos) ==> r == Ok::<TileKind, GameError>(self.at(pos)),
            !self.in_bounds(pos) ==> r == Err::<TileKind, GameError>(GameError::OutOfBounds { pos }),
    {
        match self.index(pos) {
            Ok(idx) => Ok(self.tiles[idx]),
            Err(e) => Err(e),
        }
    }

    /// Replaces the square at `pos`; `OutOfBounds` (and no change) off the
    /// map.
    pub fn set_tile(&mut self, pos: Pos, tile: TileKind) -> (r: Result<(), GameError>)
        requires
            old(self).wf(),
        ensures
            final(self).wf(),
            final(self).width == old(self).width,
            final(self).height == old(self).height,
            old(self).in_bounds(pos) ==> r is Ok && final(self).at(pos) == tile
                && forall|q: Pos| old(self).in_bounds(q) && q != pos ==> #[trigger] final(self).at(q) == old(self).at(q),
            !old(self).in_bounds(pos) ==> r == Err::<(), GameError>(GameError::OutOfBounds { pos })
                && *final(self) == *old(self),
    {
        let idx = match self.index(pos) {
            Ok(idx) => idx,
            Err(e) => return Err(e),
        };
        self.tiles.set(idx, tile);
        proof {
            assert(idx == pos.y * self.width + pos.x);
            assert forall|q: Pos| old(self).in_bounds(q) && q != pos implies #[trigger] self.at(q) == old(self).at(q) by {
                lemma_index_in_range(self.width as int, self.height as int, q.x as int, q.y as int);
                if q.y * self.width + q.x == pos.y * self.width + pos.x {
                    lemma_index_injective(self.width as int, q.x as int, q.y as int, pos.x as int, pos.y as int);
                }
            }
        }
        Ok(())
    }

    /// The squares, row by row.
    pub fn tiles(&self) -> (r: &[TileKind])
        ensures
            r@ == self.cells(),
    {
        self.tiles.as_slice()
    }

    fn index(&self, pos: Pos) -> (r: Result<usize, GameError>)
        requires
            self.wf(),
        ensures
            self.in_bounds(pos) ==> (r matches Ok(i) && i == pos.y * self.width + pos.x
                && 0 <= pos.y * self.width + pos.x < self.tiles@.len()),
            !self.in_bounds(pos) ==> r == Err::<usize, GameError>(GameError::OutOfBounds { pos }),
    {
        if !self.contains(pos) {
            return Err(GameError::OutOfBounds { pos });
        }
        proof {
            lemma_index_in_range(self.width as int, self.height as int, pos.x as int, pos.y as int);
        }
        let n = self.tiles.len();
        let yy = pos.y as usize;
        let ww = self.width as usize;
        let xx = pos.x as usize;
        assert(yy * ww + xx == pos.y * self.width + pos.x);
        assert(yy * ww <= yy * ww + xx < n);
        Ok((yy * ww) + xx)
    }
}

/// What is written at a square of the map is read back there, and every
/// other square reads as before.
pub proof fn write_then_read(before: GameMap, after: GameMap, pos: Pos, t: TileKind)
    requires
        before.wf(),
        before.in_bounds(pos),
        after.width == before.width,
        after.height == before.height,
        after.cells() == before.cells().update(pos.y * before.width + pos.x, t),
    ensures
        after.wf(),
        after.at(pos) == t,
        forall|q: Pos| before.in_bounds(q) && q != pos ==> #[trigger] after.at(q) == before.at(q),
{
    lemma_index_in_range(before.width as int, before.height as int, pos.x as int, pos.y as int);
    assert forall|q: Pos| before.in_bounds(q) && q != pos implies #[trigger] after.at(q) == before.at(q) by {
        lemma_index_in_range(before.width as int, before.height as int, q.x as int, q.y as int);
        if q.y * before.width + q.x == pos.y * before.width + pos.x {
            lemma_index_injective(before.width as int, q.x as int, q.y as int, pos.x as int, pos.y as int);
        }
    }
}

} // verus!
