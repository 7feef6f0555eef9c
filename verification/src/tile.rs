//! The kinds of map squares and of engravings on them.
use vstd::prelude::*;

verus! {

/// The kind of a map square.
#[derive(Debug, Clone, Copy, PartialEq, Eq, Structural)]
pub enum TileType {
    Stone,
    VWall,
    HWall,
    TlCorner,
    TrCorner,
    BlCorner,
    BrCorner,
    CrossWall,
    TuWall,
    TdWall,
    TlWall,
    TrWall,
    DbWall,
    Tree,
    SDoor,
    SCorr,
    Pool,
    Moat,
    Water,
    DrawbridgeUp,
    LavaPool,
    IronBars,
    Door,
    OpenDoor,
    Corr,
    Room,
    StairsUp,
    StairsDown,
    Ladder,
    Fountain,
    Throne,
    Sink,
    Grave,
    Altar,
    Ice,
    DrawbridgeDown,
    Air,
    Cloud,
}

/// How an engraving was made.
#[derive(Debug, Clone, Copy, PartialEq, Eq, Structural)]
pub enum EngraveType {
    Dust,
    Scratched,
    Etched,
    Burned,
    Blood,
}

/// Number of map columns.
pub const COLNO: usize = 80;

/// Number of map rows.
pub const ROWNO: usize = 21;

/// One map square: its kind, whether it is lit, and the room it belongs
/// to (0 for none).
#[derive(Debug, Clone, Copy, PartialEq, Eq, Structural)]
pub struct Tile {
    pub typ: TileType,
    pub lit: bool,
    pub roomno: u8,
}

/// The squares of a level, indexed by column and then by row.
#[derive(Debug, Clone)]
pub struct Grid {
    pub tiles: Vec<Vec<Tile>>,
}

impl Grid {
    /// The grid has `COLNO` columns of `ROWNO` squares.
    pub open spec fn wf(&self) -> bool {
        &&& self.tiles@.len() == COLNO
        &&& forall|x: int| 0 <= x < COLNO ==> (#[trigger] self.tiles@[x])@.len() == ROWNO
    }

    /// The square at `(x, y)`, if the grid has one there.
    pub open spec fn tile_at(&self, x: int, y: int) -> Option<Tile> {
        if 0 <= x < self.tiles@.len() && 0 <= y < self.tiles@[x]@.len() {
            Some(self.tiles@[x]@[y])
        } else {
            None
        }
    }

    /// A `COLNO` by `ROWNO` grid whose squares are all `fill`, unlit and in
    /// no room.
    pub fn filled(fill: TileType) -> (g: Grid)
        ensures
            g.tiles@.len() == COLNO,
            forall|x: int| 0 <= x < COLNO ==> (#[trigger] g.tiles@[x])@.len() == ROWNO,
            forall|x: int, y: int| 0 <= x < COLNO && 0 <= y < ROWNO
                ==> g.tile_at(x, y) == Some(Tile { typ: fill, lit: false, roomno: 0 }),
    {
        let t = Tile { typ: fill, lit: false, roomno: 0 };
        let mut tiles: Vec<Vec<Tile>> = Vec::new();
        let mut x: usize = 0;
        while x < COLNO
            invariant
                x <= COLNO,
                tiles@.len() == x,
                forall|i: int| 0 <= i < x ==> (#[trigger] tiles@[i])@.len() == ROWNO,
                forall|i: int, j: int| 0 <= i < x && 0 <= j < ROWNO ==> tiles@[i]@[j] == t,
            decreases COLNO - x,
        {
            let mut col: Vec<Tile> = Vec::new();
            let mut y: usize = 0;
            while y < ROWNO
                invariant
                    y <= ROWNO,
                    col@.len() == y,
                    forall|j: int| 0 <= j < y ==> col@[j] == t,
                decreases ROWNO - y,
            {
                col.push(t);
                y = y + 1;
            }
            tiles.push(col);
            x = x + 1;
        }
        Grid { tiles }
    }

    /// The square at `(x, y)`, or `None` off the grid.
    pub fn get_tile(&self, x: usize, y: usize) -> (r: Option<Tile>)
        ensures
            r == self.tile_at(x as int, y as int),
    {
        if x < self.tiles.len() && y < self.tiles[x].len() {
            Some(self.tiles[x][y])
        } else {
            None
        }
    }

    /// Replaces the square at `(x, y)`; does nothing off the grid.
    pub fn set_tile(&mut self, x: usize, y: usize, t: Tile)
        ensures
            final(self).tiles@.len() == old(self).tiles@.len(),
            forall|i: int| 0 <= i < old(self).tiles@.len()
                ==> (#[trigger] final(self).tiles@[i])@.len() == old(self).tiles@[i]@.len(),
            forall|i: int, j: int| final(self).tile_at(i, j) == (if i == x && j == y
                && old(self).tile_at(i, j).is_some() { Some(t) } else { old(self).tile_at(i, j) }),
    {
        if x < self.tiles.len() && y < self.tiles[x].len() {
            self.tiles[x][y] = t;
        }
    }
}

} // verus!
