//! What the player can see: a per-square bit mask of sight, memory and
//! temporary light, recomputed from the map by straight lines of sight.
use vstd::prelude::*;
use crate::tile::{Tile, TileType, Grid, COLNO, ROWNO};
use crate::text::{str_to_lowercase, str_contains, has_sub, lowercase};

verus! {

/// The square could be seen from the player's position.
pub const COULD_SEE: u8 = 0x01;
/// The square is in sight now.
pub const IN_SIGHT: u8 = 0x02;
/// The square is lit by a temporary light.
pub const TEMP_LIT: u8 = 0x04;
/// The square has been seen and is remembered.
pub const MEMORIZED: u8 = 0x08;

/// Coordinates and radii must stay below this bound so that squared
/// distances fit in an `i32`.
pub const MAX_COORD: i32 = 0x4000;

/// Whether a square of this kind blocks sight.
pub open spec fn blocks_sight(t: TileType) -> bool {
    match t {
        TileType::Stone | TileType::Tree | TileType::VWall | TileType::HWall
        | TileType::TlCorner | TileType::TrCorner | TileType::BlCorner
        | TileType::BrCorner | TileType::CrossWall | TileType::TuWall
        | TileType::TdWall | TileType::TlWall | TileType::TrWall | TileType::DbWall
        | TileType::Door => true,
        _ => false,
    }
}

/// Whether the grid has a sight-blocking square at `(x, y)`.
pub open spec fn blocks_at(g: Grid, x: int, y: int) -> bool {
    match g.tile_at(x, y) {
        Some(t) => blocks_sight(t.typ),
        None => false,
    }
}

/// Walks the Bresenham line from the current point toward `(x1, y1)`;
/// false as soon as a blocking square other than the start is met before
/// the end point. `fuel` bounds the number of steps (the line from
/// `(x0, y0)` is never longer than `dx + dy` steps).
pub open spec fn los_walk(g: Grid, x: int, y: int, err: int, x0: int, y0: int, x1: int, y1: int,
    dx: int, dy: int, sx: int, sy: int, fuel: nat) -> bool
    decreases fuel,
{
    if x == x1 && y == y1 {
        true
    } else if fuel == 0 {
        true
    } else if (x != x0 || y != y0) && blocks_at(g, x, y) {
        false
    } else {
        let e2 = 2 * err;
        let err1 = if e2 > -dy { err - dy } else { err };
        let nx = if e2 > -dy { x + sx } else { x };
        let err2 = if e2 < dx { err1 + dx } else { err1 };
        let ny = if e2 < dx { y + sy } else { y };
        los_walk(g, nx, ny, err2, x0, y0, x1, y1, dx, dy, sx, sy, (fuel - 1) as nat)
    }
}

pub open spec fn iabs(a: int) -> int {
    if a < 0 { -a } else { a }
}

/// Whether nothing blocks the Bresenham line from `(x0, y0)` to
/// `(x1, y1)`; the two end points themselves never block.
pub open spec fn line_of_sight(g: Grid, x0: int, y0: int, x1: int, y1: int) -> bool {
    let dx = iabs(x1 - x0);
    let dy = iabs(y1 - y0);
    let sx: int = if x0 < x1 { 1 } else { -1 };
    let sy: int = if y0 < y1 { 1 } else { -1 };
    los_walk(g, x0, y0, dx - dy, x0, y0, x1, y1, dx, dy, sx, sy, (dx + dy) as nat)
}

/// Whether `(x, y)` is a square of the map.
pub open spec fn on_map(x: int, y: int) -> bool {
    0 <= x < COLNO && 0 <= y < ROWNO
}

/// Whether `(x, y)` lies in the square of half-width `r` around `(cx, cy)`.
pub open spec fn in_square(cx: int, cy: int, r: int, x: int, y: int) -> bool {
    -r <= x - cx <= r && -r <= y - cy <= r
}

/// Whether `(x, y)` lies in the disc of radius `r` around `(cx, cy)`.
pub open spec fn in_disc(cx: int, cy: int, r: int, x: int, y: int) -> bool {
    in_square(cx, cy, r, x, y) && (x - cx) * (x - cx) + (y - cy) * (y - cy) <= r * r
}

/// Whether square `(x, y)` is reached by a mark around `(cx, cy)`: within
/// the disc (or the square when `disc` is false) and, when a grid is
/// given, in line of sight of the centre.
pub open spec fn area_hit(g: Option<Grid>, cx: int, cy: int, r: int, disc: bool, x: int, y: int) -> bool {
    &&& if disc { in_disc(cx, cy, r, x, y) } else { in_square(cx, cy, r, x, y) }
    &&& match g {
        Some(g) => line_of_sight(g, cx, cy, x, y),
        None => true,
    }
}

/// Whether the player at `(px, py)` sees `(x, y)` within radius `r`.
pub open spec fn sees(g: Grid, px: int, py: int, r: int, x: int, y: int) -> bool {
    area_hit(Some(g), px, py, r, true, x, y)
}

/// The number of masks in `s` with any bit of `bit` set.
pub open spec fn count_bit(s: Seq<u8>, bit: u8) -> nat
    decreases s.len(),
{
    if s.len() == 0 {
        0
    } else {
        count_bit(s.drop_last(), bit) + if s.last() & bit != 0 { 1nat } else { 0nat }
    }
}

/// The number of masks, over all columns, with any bit of `bit` set.
pub open spec fn count_bit_grid(g: Seq<Vec<u8>>, bit: u8) -> nat
    decreases g.len(),
{
    if g.len() == 0 {
        0
    } else {
        count_bit_grid(g.drop_last(), bit) + count_bit(g.last()@, bit)
    }
}

/// Writes `v` at column `x`, row `y`.
pub(crate) fn set_cell<T>(a: &mut Vec<Vec<T>>, x: usize, y: usize, v: T)
    requires
        x < old(a)@.len(),
        y < old(a)@[x as int]@.len(),
    ensures
        final(a)@.len() == old(a)@.len(),
        forall|i: int| 0 <= i < old(a)@.len() && i != x ==> #[trigger] final(a)@[i] == old(a)@[i],
        final(a)@[x as int]@ == old(a)@[x as int]@.update(y as int, v),
{
    a[x][y] = v;
}

/// The room that lights up around the player at `(px, py)`: the room of
/// the square, if it is a lit room square; 0 otherwise.
pub open spec fn lit_room_at(g: Grid, px: int, py: int) -> u8 {
    match g.tile_at(px, py) {
        Some(t) => if t.lit && t.typ == TileType::Room { t.roomno } else { 0 },
        None => 0,
    }
}

/// Whether square `(x, y)` belongs to room `room` (room 0 is no room).
pub open spec fn in_room(g: Grid, room: u8, x: int, y: int) -> bool {
    room > 0 && match g.tile_at(x, y) {
        Some(t) => t.roomno == room,
        None => false,
    }
}

/// The mask of a square after a full recomputation from the player at
/// `(px, py)`: out of sight first, then the player's lit room and the
/// squares within `radius` in line of sight become seen and remembered.
pub open spec fn recalc_cell(g: Grid, px: int, py: int, radius: int, x: int, y: int, c: u8) -> u8 {
    let c1 = c & !IN_SIGHT;
    let c2 = if in_room(g, lit_room_at(g, px, py), x, y) { c1 | (IN_SIGHT | MEMORIZED) } else { c1 };
    if sees(g, px, py, radius, x, y) { c2 | (IN_SIGHT | MEMORIZED) } else { c2 }
}

/// The vision radius after darkness, night vision and a carried light,
/// kept within 1 to 15.
pub open spec fn vision_radius(base: int, dark: bool, night_vision: bool, carrying_light: bool, light: int) -> int {
    let r0 = if dark { 1 } else { base };
    let r1 = if night_vision && r0 < 3 { 3 } else { r0 };
    let r2 = if carrying_light && r1 < light { light } else { r1 };
    if r2 < 1 { 1 } else if r2 > 15 { 15 } else { r2 }
}

/// The sight and light masks of every square of a `COLNO` by `ROWNO` map,
/// indexed by column and then by row.
pub struct VisionSystem {
    pub viz_array: Vec<Vec<u8>>,
    pub viz_clear: Vec<Vec<bool>>,
}

impl VisionSystem {
    /// Both masks have `COLNO` columns of `ROWNO` rows.
    pub open spec fn wf(&self) -> bool {
        &&& self.viz_array@.len() == COLNO
        &&& self.viz_clear@.len() == COLNO
        &&& forall|x: int| 0 <= x < COLNO ==> (#[trigger] self.viz_array@[x])@.len() == ROWNO
        &&& forall|x: int| 0 <= x < COLNO ==> (#[trigger] self.viz_clear@[x])@.len() == ROWNO
    }

    /// The mask of square `(x, y)`.
    pub open spec fn cell(&self, x: int, y: int) -> u8 {
        self.viz_array@[x]@[y]
    }

    /// The clear flag of square `(x, y)`.
    pub open spec fn clear_at(&self, x: int, y: int) -> bool {
        self.viz_clear@[x]@[y]
    }

    /// Everything unseen, unremembered and unlit; nothing clear.
    pub fn new() -> (v: VisionSystem)
        ensures
            v.wf(),
            forall|x: int, y: int| 0 <= x < COLNO && 0 <= y < ROWNO
                ==> v.cell(x, y) == 0 && !v.clear_at(x, y),
    {
        let mut viz_array: Vec<Vec<u8>> = Vec::new();
        let mut viz_clear: Vec<Vec<bool>> = Vec::new();
        let mut x: usize = 0;
        while x < COLNO
            invariant
                x <= COLNO,
                viz_array@.len() == x,
                viz_clear@.len() == x,
                forall|i: int| 0 <= i < x ==> (#[trigger] viz_array@[i])@.len() == ROWNO,
                forall|i: int| 0 <= i < x ==> (#[trigger] viz_clear@[i])@.len() == ROWNO,
                forall|i: int, j: int| 0 <= i < x && 0 <= j < ROWNO
                    ==> viz_array@[i]@[j] == 0 && !viz_clear@[i]@[j],
            decreases COLNO - x,
        {
            let mut a: Vec<u8> = Vec::new();
            let mut c: Vec<bool> = Vec::new();
            let mut y: usize = 0;
            while y < ROWNO
                invariant
                    y <= ROWNO,
                    a@.len() == y,
                    c@.len() == y,
                    forall|j: int| 0 <= j < y ==> a@[j] == 0 && !c@[j],
                decreases ROWNO - y,
            {
                a.push(0);
                c.push(false);
                y = y + 1;
            }
            viz_array.push(a);
            viz_clear.push(c);
            x = x + 1;
        }
        VisionSystem { viz_array, viz_clear }
    }

    /// Whether nothing blocks the straight (Bresenham) line from
    /// `(x0, y0)` to `(x1, y1)`; the end points themselves never block.
    pub fn has_line_of_sight(grid: &Grid, x0: usize, y0: usize, x1: usize, y1: usize) -> (r: bool)
        requires
            x0 < MAX_COORD, y0 < MAX_COORD, x1 < MAX_COORD, y1 < MAX_COORD,
        ensures
            r == line_of_sight(*grid, x0 as int, y0 as int, x1 as int, y1 as int),
    {
        let ox = x0 as i32;
        let oy = y0 as i32;
        let tx = x1 as i32;
        let ty = y1 as i32;
        let mut x: i32 = ox;
        let mut y: i32 = oy;
        let dx: i32 = if tx >= x { tx - x } else { x - tx };
        let dy: i32 = if ty >= y { ty - y } else { y - ty };
        let sx: i32 = if x < tx { 1 } else { -1 };
        let sy: i32 = if y < ty { 1 } else { -1 };
        let mut err: i32 = dx - dy;
        let ghost mut kx: int = 0;
        let ghost mut ky: int = 0;
        let ghost mut fuel: nat = (dx + dy) as nat;
        proof {
            assert(ky * dx - kx * dy == 0) by (nonlinear_arith)
                requires kx == 0, ky == 0;
        }
        loop
            invariant
                0 <= dx < MAX_COORD,
                0 <= dy < MAX_COORD,
                dx == iabs(tx - ox),
                dy == iabs(ty - oy),
                sx == (if ox < tx { 1int } else { -1int }),
                sy == (if oy < ty { 1int } else { -1int }),
                0 <= kx <= dx,
                0 <= ky <= dy,
                x == (if sx == 1 { ox + kx } else { ox - kx }),
                y == (if sy == 1 { oy + ky } else { oy - ky }),
                err == dx - dy + ky * dx - kx * dy,
                -2 * dy <= err <= 2 * dx,
                fuel >= (dx - kx) + (dy - ky),
                ox == x0, oy == y0, tx == x1, ty == y1,
                x0 < MAX_COORD, y0 < MAX_COORD, x1 < MAX_COORD, y1 < MAX_COORD,
                line_of_sight(*grid, x0 as int, y0 as int, x1 as int, y1 as int)
                    == los_walk(*grid, x as int, y as int, err as int, x0 as int, y0 as int,
                        x1 as int, y1 as int, dx as int, dy as int, sx as int, sy as int, fuel),
            decreases fuel,
        {
            proof {
                if sx == 1 {
                    assert(tx - ox == dx);
                } else {
                    assert(ox - tx == dx || (ox == tx && dx == 0));
                }
            }
            if x == tx && y == ty {
                return true;
            }
            proof {
                // not at the end point: some coordinate still has steps left
                if kx == dx && ky == dy {
                    assert(x == tx && y == ty);
                }
                assert(fuel > 0);
            }
            if x != ox || y != oy {
                match grid.get_tile(x as usize, y as usize) {
                    Some(t) => {
                        if Self::does_block(&t) {
                            return false;
                        }
                    },
                    None => {},
                }
            }
            let e2: i32 = 2 * err;
            let ghost f: int = ky * dx - kx * dy;
            proof {
                if kx == dx && ky < dy {
                    assert(f <= -dx) by (nonlinear_arith)
                        requires f == ky * dx - kx * dy, kx == dx, 0 <= ky < dy, dx >= 0;
                }
                if ky == dy && kx < dx {
                    assert(f >= dy) by (nonlinear_arith)
                        requires f == ky * dx - kx * dy, ky == dy, 0 <= kx < dx, dy >= 0;
                }
            }
            if e2 > -dy {
                err = err - dy;
                x = x + sx;
                proof {
                    assert((kx + 1) * dy == kx * dy + dy) by (nonlinear_arith);
                    kx = kx + 1;
                }
            }
            if e2 < dx {
                err = err + dx;
                y = y + sy;
                proof {
                    assert((ky + 1) * dx == ky * dx + dx) by (nonlinear_arith);
                    ky = ky + 1;
                }
            }
            proof {
                fuel = (fuel - 1) as nat;
            }
        }
    }

    /// Sets `bits` on every map square that `area_hit` reaches.
    fn mark_area(&mut self, grid: Option<&Grid>, cx: usize, cy: usize, r: i32, disc: bool, bits: u8)
        requires
            old(self).wf(),
            cx < MAX_COORD, cy < MAX_COORD,
            -MAX_COORD <= r <= MAX_COORD,
        ensures
            final(self).wf(),
            final(self).viz_clear == old(self).viz_clear,
            forall|x: int, y: int| on_map(x, y) ==> #[trigger] final(self).cell(x, y) == (if area_hit(
                match grid { Some(g) => Some(*g), None => None }, cx as int, cy as int, r as int, disc, x, y)
                { old(self).cell(x, y) | bits } else { old(self).cell(x, y) }),
    {
        let ghost g: Option<Grid> = match grid { Some(g) => Some(*g), None => None };
        let ghost start = *self;
        if r < 0 {
            return;
        }
        let mut dx: i32 = -r;
        while dx <= r
            invariant
                self.wf(),
                self.viz_clear == start.viz_clear,
                start.wf(),
                0 <= r <= MAX_COORD,
                -r <= dx <= r + 1,
                cx < MAX_COORD, cy < MAX_COORD,
                g == (match grid { Some(gg) => Some(*gg), None => None::<Grid> }),
                forall|x: int, y: int| on_map(x, y) ==> #[trigger] self.cell(x, y) == (if area_hit(g, cx as int,
                    cy as int, r as int, disc, x, y) && x - cx < dx { start.cell(x, y) | bits } else { start.cell(x, y) }),
            decreases r + 1 - dx,
        {
            let mut dy: i32 = -r;
            while dy <= r
                invariant
                    self.wf(),
                    self.viz_clear == start.viz_clear,
                    start.wf(),
                    0 <= r <= MAX_COORD,
                    -r <= dx <= r,
                    -r <= dy <= r + 1,
                    cx < MAX_COORD, cy < MAX_COORD,
                    g == (match grid { Some(gg) => Some(*gg), None => None::<Grid> }),
                    forall|x: int, y: int| on_map(x, y) ==> #[trigger] self.cell(x, y) == (if area_hit(g, cx as int,
                        cy as int, r as int, disc, x, y) && (x - cx < dx || (x - cx == dx && y - cy < dy))
                        { start.cell(x, y) | bits } else { start.cell(x, y) }),
                decreases r + 1 - dy,
            {
                proof {
                    assert(dx * dx <= MAX_COORD * MAX_COORD) by (nonlinear_arith)
                        requires -MAX_COORD <= dx <= MAX_COORD;
                    assert(dy * dy <= MAX_COORD * MAX_COORD) by (nonlinear_arith)
                        requires -MAX_COORD <= dy <= MAX_COORD;
                    assert(r * r <= MAX_COORD * MAX_COORD) by (nonlinear_arith)
                        requires 0 <= r <= MAX_COORD;
                    assert(dx * dx >= 0 && dy * dy >= 0) by (nonlinear_arith);
                }
                let inside = if disc { dx * dx + dy * dy <= r * r } else { true };
                let tx: i32 = cx as i32 + dx;
                let ty: i32 = cy as i32 + dy;
                if inside && tx >= 0 && tx < COLNO as i32 && ty >= 0 && ty < ROWNO as i32 {
                    let ux = tx as usize;
                    let uy = ty as usize;
                    let seen = match grid {
                        Some(gr) => Self::has_line_of_sight(gr, cx, cy, ux, uy),
                        None => true,
                    };
                    let ghost prev = *self;
                    assert(self.cell(ux as int, uy as int) == start.cell(ux as int, uy as int));
                    if seen {
                        let v = self.viz_array[ux][uy] | bits;
                        set_cell(&mut self.viz_array, ux, uy, v);
                    }
                    proof {
                        assert forall|i: int, j: int| on_map(i, j) && !(i == ux && j == uy)
                            implies #[trigger] self.cell(i, j) == prev.cell(i, j) by {
                            if i != ux {
                                assert(self.viz_array@[i] == prev.viz_array@[i]);
                            }
                        }
                    }
                    proof {
                        assert(area_hit(g, cx as int, cy as int, r as int, disc, ux as int, uy as int) == seen);
                    }
                }
                dy = dy + 1;
            }
            dx = dx + 1;
        }
    }

    /// Applies `(mask & and_mask) | or_mask` to every square's mask.
    fn map_cells(&mut self, and_mask: u8, or_mask: u8)
        requires
            old(self).wf(),
        ensures
            final(self).wf(),
            final(self).viz_clear == old(self).viz_clear,
            forall|x: int, y: int| on_map(x, y) ==> #[trigger] final(self).cell(x, y)
                == (old(self).cell(x, y) & and_mask) | or_mask,
    {
        let ghost start = *self;
        let mut x: usize = 0;
        while x < COLNO
            invariant
                self.wf(),
                start.wf(),
                self.viz_clear == start.viz_clear,
                x <= COLNO,
                forall|i: int, j: int| on_map(i, j) ==> #[trigger] self.cell(i, j)
                    == if i < x { (start.cell(i, j) & and_mask) | or_mask } else { start.cell(i, j) },
            decreases COLNO - x,
        {
            let mut y: usize = 0;
            while y < ROWNO
                invariant
                    self.wf(),
                    start.wf(),
                    self.viz_clear == start.viz_clear,
                    x < COLNO,
                    y <= ROWNO,
                    forall|i: int, j: int| on_map(i, j) ==> #[trigger] self.cell(i, j)
                        == if i < x || (i == x && j < y) { (start.cell(i, j) & and_mask) | or_mask }
                        else { start.cell(i, j) },
                decreases ROWNO - y,
            {
                let ghost prev = *self;
                assert(self.cell(x as int, y as int) == start.cell(x as int, y as int));
                let v = (self.viz_array[x][y] & and_mask) | or_mask;
                set_cell(&mut self.viz_array, x, y, v);
                proof {
                    assert forall|i: int, j: int| on_map(i, j) && !(i == x && j == y)
                        implies #[trigger] self.cell(i, j) == prev.cell(i, j) by {
                        if i != x {
                            assert(self.viz_array@[i] == prev.viz_array@[i]);
                        }
                    }
                }
                y = y + 1;
            }
            x = x + 1;
        }
    }

    /// Takes every square out of sight; memory and light are kept.
    pub fn reset_sight(&mut self)
        requires
            old(self).wf(),
        ensures
            final(self).wf(),
            final(self).viz_clear == old(self).viz_clear,
            forall|x: int, y: int| on_map(x, y) ==> #[trigger] final(self).cell(x, y)
                == old(self).cell(x, y) & !IN_SIGHT,
    {
        self.map_cells(!IN_SIGHT, 0);
        proof {
            assert(forall|c: u8| #[trigger] ((c & !IN_SIGHT) | 0u8) == c & !IN_SIGHT) by (bit_vector);
        }
    }

    /// Remembers every square of the map.
    pub fn magic_map(&mut self)
        requires
            old(self).wf(),
        ensures
            final(self).wf(),
            final(self).viz_clear == old(self).viz_clear,
            forall|x: int, y: int| on_map(x, y) ==> #[trigger] final(self).cell(x, y)
                == old(self).cell(x, y) | MEMORIZED,
    {
        self.map_cells(0xff, MEMORIZED);
        proof {
            assert(forall|c: u8| #[trigger] ((c & 0xffu8) | MEMORIZED) == c | MEMORIZED) by (bit_vector);
        }
    }

    /// Puts out every temporary light.
    pub fn clear_temp_light(&mut self)
        requires
            old(self).wf(),
        ensures
            final(self).wf(),
            final(self).viz_clear == old(self).viz_clear,
            forall|x: int, y: int| on_map(x, y) ==> #[trigger] final(self).cell(x, y)
                == old(self).cell(x, y) & !TEMP_LIT,
    {
        self.map_cells(!TEMP_LIT, 0);
        proof {
            assert(forall|c: u8| #[trigger] ((c & !TEMP_LIT) | 0u8) == c & !TEMP_LIT) by (bit_vector);
        }
    }

    /// Marks as in sight and remembered every square within `radius` of
    /// `(lx, ly)` that the centre has a line of sight to.
    pub fn apply_vision(&mut self, grid: &Grid, lx: usize, ly: usize, radius: i32)
        requires
            old(self).wf(),
            lx < MAX_COORD, ly < MAX_COORD,
            -MAX_COORD <= radius <= MAX_COORD,
        ensures
            final(self).wf(),
            final(self).viz_clear == old(self).viz_clear,
            forall|x: int, y: int| on_map(x, y) ==> #[trigger] final(self).cell(x, y) == (if sees(*grid,
                lx as int, ly as int, radius as int, x, y) { old(self).cell(x, y) | (IN_SIGHT | MEMORIZED) }
                else { old(self).cell(x, y) }),
    {
        self.mark_area(Some(grid), lx, ly, radius, true, IN_SIGHT | MEMORIZED);
    }

    /// Lights every square within `radius` of `(x, y)` temporarily.
    pub fn apply_temp_light(&mut self, x: usize, y: usize, radius: i32)
        requires
            old(self).wf(),
            x < MAX_COORD, y < MAX_COORD,
            -MAX_COORD <= radius <= MAX_COORD,
        ensures
            final(self).wf(),
            final(self).viz_clear == old(self).viz_clear,
            forall|i: int, j: int| on_map(i, j) ==> #[trigger] final(self).cell(i, j) == (if in_disc(
                x as int, y as int, radius as int, i, j) { old(self).cell(i, j) | TEMP_LIT }
                else { old(self).cell(i, j) }),
    {
        self.mark_area(None, x, y, radius, true, TEMP_LIT);
    }

    /// Clairvoyance: every square of the square of half-width `range`
    /// around the centre becomes seen, remembered and lit, walls or not.
    pub fn clairvoyance(&mut self, center_x: usize, center_y: usize, range: i32)
        requires
            old(self).wf(),
            center_x < MAX_COORD, center_y < MAX_COORD,
            -MAX_COORD <= range <= MAX_COORD,
        ensures
            final(self).wf(),
            final(self).viz_clear == old(self).viz_clear,
            forall|i: int, j: int| on_map(i, j) ==> #[trigger] final(self).cell(i, j) == (if in_square(
                center_x as int, center_y as int, range as int, i, j)
                { old(self).cell(i, j) | (IN_SIGHT | MEMORIZED | TEMP_LIT) } else { old(self).cell(i, j) }),
    {
        self.mark_area(None, center_x, center_y, range, false, IN_SIGHT | MEMORIZED | TEMP_LIT);
    }

    /// Sets `IN_SIGHT | MEMORIZED` on every square of room `room`.
    fn mark_room(&mut self, grid: &Grid, room: u8)
        requires
            old(self).wf(),
        ensures
            final(self).wf(),
            final(self).viz_clear == old(self).viz_clear,
            forall|x: int, y: int| on_map(x, y) ==> #[trigger] final(self).cell(x, y) == (if in_room(*grid,
                room, x, y) { old(self).cell(x, y) | (IN_SIGHT | MEMORIZED) } else { old(self).cell(x, y) }),
    {
        let ghost start = *self;
        if room == 0 {
            return;
        }
        let mut x: usize = 0;
        while x < COLNO
            invariant
                self.wf(),
                start.wf(),
                self.viz_clear == start.viz_clear,
                room > 0,
                x <= COLNO,
                forall|i: int, j: int| on_map(i, j) ==> #[trigger] self.cell(i, j)
                    == if i < x && in_room(*grid, room, i, j) { start.cell(i, j) | (IN_SIGHT | MEMORIZED) }
                    else { start.cell(i, j) },
            decreases COLNO - x,
        {
            let mut y: usize = 0;
            while y < ROWNO
                invariant
                    self.wf(),
                    start.wf(),
                    self.viz_clear == start.viz_clear,
                    room > 0,
                    x < COLNO,
                    y <= ROWNO,
                    forall|i: int, j: int| on_map(i, j) ==> #[trigger] self.cell(i, j)
                        == if (i < x || (i == x && j < y)) && in_room(*grid, room, i, j)
                        { start.cell(i, j) | (IN_SIGHT | MEMORIZED) } else { start.cell(i, j) },
                decreases ROWNO - y,
            {
                let ghost prev = *self;
                assert(self.cell(x as int, y as int) == start.cell(x as int, y as int));
                match grid.get_tile(x, y) {
                    Some(t) => {
                        if t.roomno == room {
                            let v = self.viz_array[x][y] | (IN_SIGHT | MEMORIZED);
                            set_cell(&mut self.viz_array, x, y, v);
                        }
                    },
                    None => {},
                }
                proof {
                    assert forall|i: int, j: int| on_map(i, j) && !(i == x && j == y)
                        implies #[trigger] self.cell(i, j) == prev.cell(i, j) by {
                        if i != x {
                            assert(self.viz_array@[i] == prev.viz_array@[i]);
                        }
                    }
                }
                y = y + 1;
            }
            x = x + 1;
        }
    }

    /// Records, for every square of the grid, whether it lets sight
    /// through; squares the grid lacks keep their old flag.
    pub fn update_clear_zones(&mut self, grid: &Grid)
        requires
            old(self).wf(),
        ensures
            final(self).wf(),
            final(self).viz_array == old(self).viz_array,
            forall|x: int, y: int| on_map(x, y) ==> #[trigger] final(self).clear_at(x, y) == match grid.tile_at(x, y) {
                Some(t) => !blocks_sight(t.typ),
                None => old(self).clear_at(x, y),
            },
    {
        let ghost start = *self;
        let mut x: usize = 0;
        while x < COLNO
            invariant
                self.wf(),
                start.wf(),
                self.viz_array == start.viz_array,
                x <= COLNO,
                forall|i: int, j: int| on_map(i, j) ==> #[trigger] self.clear_at(i, j)
                    == if i < x { match grid.tile_at(i, j) {
                        Some(t) => !blocks_sight(t.typ), None => start.clear_at(i, j) } }
                    else { start.clear_at(i, j) },
            decreases COLNO - x,
        {
            let mut y: usize = 0;
            while y < ROWNO
                invariant
                    self.wf(),
                    start.wf(),
                    self.viz_array == start.viz_array,
                    x < COLNO,
                    y <= ROWNO,
                    forall|i: int, j: int| on_map(i, j) ==> #[trigger] self.clear_at(i, j)
                        == if i < x || (i == x && j < y) { match grid.tile_at(i, j) {
                            Some(t) => !blocks_sight(t.typ), None => start.clear_at(i, j) } }
                        else { start.clear_at(i, j) },
                decreases ROWNO - y,
            {
                let ghost prev = *self;
                assert(self.clear_at(x as int, y as int) == start.clear_at(x as int, y as int));
                match grid.get_tile(x, y) {
                    Some(t) => {
                        let c = !Self::does_block(&t);
                        set_cell(&mut self.viz_clear, x, y, c);
                    },
                    None => {},
                }
                proof {
                    assert forall|i: int, j: int| on_map(i, j) && !(i == x && j == y)
                        implies #[trigger] self.clear_at(i, j) == prev.clear_at(i, j) by {
                        if i != x {
                            assert(self.viz_clear@[i] == prev.viz_clear@[i]);
                        }
                    }
                }
                y = y + 1;
            }
            x = x + 1;
        }
    }

    /// Recomputes sight from the player at `(player_x, player_y)`: every
    /// square goes out of sight, then the player's lit room and the squares
    /// within `radius` in line of sight become seen and remembered.
    pub fn recalc(&mut self, grid: &Grid, player_x: usize, player_y: usize, radius: i32)
        requires
            old(self).wf(),
            player_x < MAX_COORD, player_y < MAX_COORD,
            -MAX_COORD <= radius <= MAX_COORD,
        ensures
            final(self).wf(),
            final(self).viz_clear == old(self).viz_clear,
            forall|x: int, y: int| on_map(x, y) ==> #[trigger] final(self).cell(x, y) == recalc_cell(*grid,
                player_x as int, player_y as int, radius as int, x, y, old(self).cell(x, y)),
    {
        let ghost start = *self;
        self.reset_sight();
        let ghost s1 = *self;
        let mut current_room_no: u8 = 0;
        match grid.get_tile(player_x, player_y) {
            Some(tile) => {
                if tile.lit && tile.typ == TileType::Room {
                    current_room_no = tile.roomno;
                }
            },
            None => {},
        }
        if current_room_no > 0 {
            self.mark_room(grid, current_room_no);
        }
        let ghost s2 = *self;
        self.apply_vision(grid, player_x, player_y, radius);
        proof {
            assert forall|x: int, y: int| on_map(x, y) implies #[trigger] self.cell(x, y) == recalc_cell(*grid,
                player_x as int, player_y as int, radius as int, x, y, start.cell(x, y)) by {
                assert(s1.cell(x, y) == start.cell(x, y) & !IN_SIGHT);
                assert(s2.cell(x, y) == (if in_room(*grid, current_room_no, x, y)
                    { s1.cell(x, y) | (IN_SIGHT | MEMORIZED) } else { s1.cell(x, y) }));
            }
        }
    }

    /// Blind sight: only the player's own square, when on the map, is seen
    /// and remembered; everything else goes out of sight.
    pub fn recalc_blind(&mut self, player_x: usize, player_y: usize)
        requires
            old(self).wf(),
        ensures
            final(self).wf(),
            final(self).viz_clear == old(self).viz_clear,
            forall|x: int, y: int| on_map(x, y) ==> #[trigger] final(self).cell(x, y) == (if x == player_x
                && y == player_y { (old(self).cell(x, y) & !IN_SIGHT) | (IN_SIGHT | MEMORIZED) }
                else { old(self).cell(x, y) & !IN_SIGHT }),
    {
        let ghost start = *self;
        self.reset_sight();
        if player_x < COLNO && player_y < ROWNO {
            let ghost prev = *self;
            assert(prev.cell(player_x as int, player_y as int) == start.cell(player_x as int, player_y as int) & !IN_SIGHT);
            let v = self.viz_array[player_x][player_y] | (IN_SIGHT | MEMORIZED);
            set_cell(&mut self.viz_array, player_x, player_y, v);
            proof {
                assert forall|i: int, j: int| on_map(i, j) && !(i == player_x && j == player_y)
                    implies #[trigger] self.cell(i, j) == prev.cell(i, j) by {
                    if i != player_x {
                        assert(self.viz_array@[i] == prev.viz_array@[i]);
                    }
                }
            }
        }
    }

    /// Infravision: a monster within `infra_range` (Euclidean) that is in
    /// line of sight.
    pub fn infravision_detect(&self, grid: &Grid, player_x: usize, player_y: usize, monster_x: usize,
        monster_y: usize, infra_range: i32) -> (r: bool)
        requires
            player_x < MAX_COORD, player_y < MAX_COORD, monster_x < MAX_COORD, monster_y < MAX_COORD,
            -MAX_COORD <= infra_range <= MAX_COORD,
        ensures
            r == ((monster_x - player_x) * (monster_x - player_x) + (monster_y - player_y) * (monster_y - player_y)
                <= infra_range * infra_range
                && line_of_sight(*grid, player_x as int, player_y as int, monster_x as int, monster_y as int)),
    {
        let dx: i32 = if monster_x >= player_x { (monster_x - player_x) as i32 } else { (player_x - monster_x) as i32 };
        let dy: i32 = if monster_y >= player_y { (monster_y - player_y) as i32 } else { (player_y - monster_y) as i32 };
        proof {
            assert(dx * dx == (monster_x - player_x) * (monster_x - player_x)) by (nonlinear_arith)
                requires dx == iabs(monster_x - player_x);
            assert(dy * dy == (monster_y - player_y) * (monster_y - player_y)) by (nonlinear_arith)
                requires dy == iabs(monster_y - player_y);
            assert(0 <= dx * dx <= MAX_COORD * MAX_COORD) by (nonlinear_arith)
                requires 0 <= dx < MAX_COORD;
            assert(0 <= dy * dy <= MAX_COORD * MAX_COORD) by (nonlinear_arith)
                requires 0 <= dy < MAX_COORD;
            assert(0 <= infra_range * infra_range <= MAX_COORD * MAX_COORD) by (nonlinear_arith)
                requires -MAX_COORD <= infra_range <= MAX_COORD;
        }
        if dx * dx + dy * dy > infra_range * infra_range {
            return false;
        }
        Self::has_line_of_sight(grid, player_x, player_y, monster_x, monster_y)
    }

    /// Telepathy: never a mindless monster; any other monster when the range
    /// is not positive, else one within `range` (Euclidean).
    pub fn telepathy_detect(player_x: usize, player_y: usize, monster_x: usize, monster_y: usize, range: i32,
        monster_mindless: bool) -> (r: bool)
        requires
            player_x < MAX_COORD, player_y < MAX_COORD, monster_x < MAX_COORD, monster_y < MAX_COORD,
            -MAX_COORD <= range <= MAX_COORD,
        ensures
            r == (!monster_mindless && (range <= 0 || (monster_x - player_x) * (monster_x - player_x)
                + (monster_y - player_y) * (monster_y - player_y) <= range * range)),
    {
        if monster_mindless {
            return false;
        }
        if range <= 0 {
            return true;
        }
        let dx: i32 = if monster_x >= player_x { (monster_x - player_x) as i32 } else { (player_x - monster_x) as i32 };
        let dy: i32 = if monster_y >= player_y { (monster_y - player_y) as i32 } else { (player_y - monster_y) as i32 };
        proof {
            assert(dx * dx == (monster_x - player_x) * (monster_x - player_x)) by (nonlinear_arith)
                requires dx == iabs(monster_x - player_x);
            assert(dy * dy == (monster_y - player_y) * (monster_y - player_y)) by (nonlinear_arith)
                requires dy == iabs(monster_y - player_y);
            assert(0 <= dx * dx <= MAX_COORD * MAX_COORD) by (nonlinear_arith)
                requires 0 <= dx < MAX_COORD;
            assert(0 <= dy * dy <= MAX_COORD * MAX_COORD) by (nonlinear_arith)
                requires 0 <= dy < MAX_COORD;
            assert(range * range <= MAX_COORD * MAX_COORD) by (nonlinear_arith)
                requires 0 < range <= MAX_COORD;
        }
        dx * dx + dy * dy <= range * range
    }

    /// Whether an invisible monster at `(monster_x, monster_y)` is seen:
    /// only with see invisible, and only when its square is in sight.
    pub fn can_see_invisible(&self, monster_x: usize, monster_y: usize, has_see_invis: bool) -> (r: bool)
        requires
            self.wf(),
            monster_x < COLNO, monster_y < ROWNO,
        ensures
            r == (has_see_invis && self.cell(monster_x as int, monster_y as int) & IN_SIGHT != 0),
    {
        if !has_see_invis {
            return false;
        }
        self.viz_array[monster_x][monster_y] & IN_SIGHT != 0
    }

    /// The vision radius: 1 on a dark level, at least 3 with night vision,
    /// at least the light's radius when carrying a light, and always
    /// between 1 and 15.
    pub fn effective_vision_radius(base_radius: i32, is_dark_level: bool, has_night_vision: bool,
        carrying_light: bool, light_radius: i32) -> (r: i32)
        ensures
            r == vision_radius(base_radius as int, is_dark_level, has_night_vision, carrying_light,
                light_radius as int),
    {
        let mut radius = base_radius;
        if is_dark_level {
            radius = 1;
        }
        if has_night_vision && radius < 3 {
            radius = 3;
        }
        if carrying_light && radius < light_radius {
            radius = light_radius;
        }
        if radius < 1 {
            1
        } else if radius > 15 {
            15
        } else {
            radius
        }
    }

    /// How many squares are in sight, remembered and temporarily lit.
    pub fn debug_vision_stats(&self) -> (r: (usize, usize, usize))
        requires
            self.wf(),
        ensures
            r.0 == count_bit_grid(self.viz_array@, IN_SIGHT),
            r.1 == count_bit_grid(self.viz_array@, MEMORIZED),
            r.2 == count_bit_grid(self.viz_array@, TEMP_LIT),
    {
        let mut in_sight_count: usize = 0;
        let mut memorized_count: usize = 0;
        let mut temp_lit_count: usize = 0;
        let mut x: usize = 0;
        while x < COLNO
            invariant
                self.wf(),
                x <= COLNO,
                in_sight_count == count_bit_grid(self.viz_array@.take(x as int), IN_SIGHT),
                memorized_count == count_bit_grid(self.viz_array@.take(x as int), MEMORIZED),
                temp_lit_count == count_bit_grid(self.viz_array@.take(x as int), TEMP_LIT),
                in_sight_count <= x * ROWNO,
                memorized_count <= x * ROWNO,
                temp_lit_count <= x * ROWNO,
            decreases COLNO - x,
        {
            let ghost col = self.viz_array@[x as int]@;
            let mut y: usize = 0;
            let ghost base_s = in_sight_count;
            let ghost base_m = memorized_count;
            let ghost base_t = temp_lit_count;
            while y < ROWNO
                invariant
                    self.wf(),
                    x < COLNO,
                    y <= ROWNO,
                    col == self.viz_array@[x as int]@,
                    in_sight_count == base_s + count_bit(col.take(y as int), IN_SIGHT),
                    memorized_count == base_m + count_bit(col.take(y as int), MEMORIZED),
                    temp_lit_count == base_t + count_bit(col.take(y as int), TEMP_LIT),
                    count_bit(col.take(y as int), IN_SIGHT) <= y,
                    count_bit(col.take(y as int), MEMORIZED) <= y,
                    count_bit(col.take(y as int), TEMP_LIT) <= y,
                    base_s <= x * ROWNO, base_m <= x * ROWNO, base_t <= x * ROWNO,
                decreases ROWNO - y,
            {
                let v = self.viz_array[x][y];
                proof {
                    assert(col.take(y + 1).drop_last() == col.take(y as int));
                    assert(col.take(y + 1).last() == v);
                }
                if v & IN_SIGHT != 0 {
                    in_sight_count = in_sight_count + 1;
                }
                if v & MEMORIZED != 0 {
                    memorized_count = memorized_count + 1;
                }
                if v & TEMP_LIT != 0 {
                    temp_lit_count = temp_lit_count + 1;
                }
                y = y + 1;
            }
            proof {
                assert(col.take(ROWNO as int) == col);
                assert(self.viz_array@.take(x + 1).drop_last() == self.viz_array@.take(x as int));
                assert(self.viz_array@.take(x + 1).last() == self.viz_array@[x as int]);
            }
            x = x + 1;
        }
        proof {
            assert(self.viz_array@.take(COLNO as int) == self.viz_array@);
        }
        (in_sight_count, memorized_count, temp_lit_count)
    }

    /// Whether the square blocks sight: stone, trees, every kind of wall
    /// and closed doors.
    pub fn does_block(tile: &Tile) -> (r: bool)
        ensures
            r == blocks_sight(tile.typ),
    {
        match tile.typ {
            TileType::Stone | TileType::Tree => true,
            TileType::VWall | TileType::HWall | TileType::TlCorner | TileType::TrCorner
            | TileType::BlCorner | TileType::BrCorner | TileType::CrossWall | TileType::TuWall
            | TileType::TdWall | TileType::TlWall | TileType::TrWall | TileType::DbWall => true,
            TileType::Door => true,
            _ => false,
        }
    }
}

/// Once remembered, a square stays remembered through a recomputation of
/// sight; a square that gets seen is remembered too.
pub proof fn memory_survives_recalc(g: Grid, px: int, py: int, radius: int, x: int, y: int, c: u8)
    ensures
        c & MEMORIZED != 0 ==> recalc_cell(g, px, py, radius, x, y, c) & MEMORIZED != 0,
        recalc_cell(g, px, py, radius, x, y, c) & IN_SIGHT != 0 ==> recalc_cell(g, px, py, radius, x, y, c) & MEMORIZED != 0,
        recalc_cell(g, px, py, radius, x, y, c) & TEMP_LIT == c & TEMP_LIT,
{
    let c1 = c & !IN_SIGHT;
    let b = (IN_SIGHT | MEMORIZED);
    assert(c & MEMORIZED != 0 ==> c1 & MEMORIZED != 0) by (bit_vector)
        requires c1 == c & !IN_SIGHT;
    assert(c1 & IN_SIGHT == 0) by (bit_vector)
        requires c1 == c & !IN_SIGHT;
    assert(c1 & TEMP_LIT == c & TEMP_LIT) by (bit_vector)
        requires c1 == c & !IN_SIGHT;
    let c2 = c1 | b;
    assert(c2 & MEMORIZED != 0 && c2 & IN_SIGHT != 0 && c2 & TEMP_LIT == c1 & TEMP_LIT) by (bit_vector)
        requires c2 == c1 | b, b == (IN_SIGHT | MEMORIZED);
    let c3 = c2 | b;
    assert(c3 == c2) by (bit_vector)
        requires c3 == c2 | b, c2 == c1 | b;
    let c4 = c1 | b;
    assert(c4 & MEMORIZED != 0 && c4 & TEMP_LIT == c1 & TEMP_LIT) by (bit_vector)
        requires c4 == c1 | b, b == (IN_SIGHT | MEMORIZED);
}

/// The player always sees and remembers their own square when the sight
/// radius is not negative.
pub proof fn own_square_is_seen(g: Grid, px: int, py: int, radius: int, c: u8)
    requires
        0 <= radius,
    ensures
        recalc_cell(g, px, py, radius, px, py, c) & (IN_SIGHT | MEMORIZED) == (IN_SIGHT | MEMORIZED),
{
    assert(line_of_sight(g, px, py, px, py));
    assert(sees(g, px, py, radius, px, py));
    let c1 = c & !IN_SIGHT;
    let c2 = if in_room(g, lit_room_at(g, px, py), px, py) { c1 | (IN_SIGHT | MEMORIZED) } else { c1 };
    let c3 = c2 | (IN_SIGHT | MEMORIZED);
    assert(c3 & (IN_SIGHT | MEMORIZED) == (IN_SIGHT | MEMORIZED)) by (bit_vector)
        requires c3 == c2 | (IN_SIGHT | MEMORIZED);
}

/// The light radius of an item whose name, in lowercase, is `l`: 1 for a
/// candle, 3 for a lamp or lantern (magic lamps and brass lanterns
/// included, since "lamp" and "lantern" are tested first), 3 for
/// Sunsword, 0 otherwise.
pub open spec fn light_radius_of(l: Seq<char>) -> i32 {
    if has_sub(l, "candle"@) { 1i32 }
    else if has_sub(l, "lamp"@) || has_sub(l, "lantern"@) { 3 }
    else if has_sub(l, "magic lamp"@) || has_sub(l, "brass lantern"@) { 4 }
    else if has_sub(l, "sunsword"@) || has_sub(l, "Sun Sword"@) { 3 }
    else { 0 }
}

/// The light radius of an item, from its name in lowercase.
pub fn light_radius_from_lowercase(lower: &str) -> (r: i32)
    ensures
        r == light_radius_of(lower@),
{
    if str_contains(lower, "candle") {
        1
    } else if str_contains(lower, "lamp") || str_contains(lower, "lantern") {
        3
    } else if str_contains(lower, "magic lamp") || str_contains(lower, "brass lantern") {
        4
    } else if str_contains(lower, "sunsword") || str_contains(lower, "Sun Sword") {
        3
    } else {
        0
    }
}

/// The light radius of an item, from its name in any case (see
/// `light_radius_of`).
pub fn light_source_radius(item_name: &str) -> (r: i32)
    ensures
        r == light_radius_of(lowercase(item_name@)),
{
    let lower = str_to_lowercase(item_name);
    light_radius_from_lowercase(lower.as_str())
}

/// How a monster was noticed.
#[derive(Debug, Clone, Copy, PartialEq, Eq, Structural)]
pub enum DetectionMethod {
    NormalSight,
    Infravision,
    Telepathy,
    SeeInvisible,
    TrembleSense,
    Warning,
    Undetected,
}

/// How a monster is noticed, the first that applies: plain sight of a
/// visible monster; sight of an invisible one with see invisible;
/// infravision of a visible one in range; telepathy of a minded one in
/// range; warning; otherwise not at all.
pub fn detect_monster(
    in_sight: bool,
    monster_invisible: bool,
    monster_mindless: bool,
    has_see_invis: bool,
    has_infravision: bool,
    has_telepathy: bool,
    has_warning: bool,
    in_infra_range: bool,
    in_telepathy_range: bool,
) -> (r: DetectionMethod)
    ensures
        r == if in_sight && !monster_invisible { DetectionMethod::NormalSight }
            else if in_sight && monster_invisible && has_see_invis { DetectionMethod::SeeInvisible }
            else if has_infravision && in_infra_range && !monster_invisible { DetectionMethod::Infravision }
            else if has_telepathy && !monster_mindless && in_telepathy_range { DetectionMethod::Telepathy }
            else if has_warning { DetectionMethod::Warning }
            else { DetectionMethod::Undetected },
{
    if in_sight && !monster_invisible {
        return DetectionMethod::NormalSight;
    }
    if in_sight && monster_invisible && has_see_invis {
        return DetectionMethod::SeeInvisible;
    }
    if has_infravision && in_infra_range && !monster_invisible {
        return DetectionMethod::Infravision;
    }
    if has_telepathy && !monster_mindless && in_telepathy_range {
        return DetectionMethod::Telepathy;
    }
    if has_warning {
        return DetectionMethod::Warning;
    }
    DetectionMethod::Undetected
}

/// How much a square blocks sight.
#[derive(Debug, Clone, Copy, PartialEq, Eq, Structural)]
pub enum BlockType {
    Full,
    Partial,
    Clear,
}

/// Stone, walls and closed doors block fully, trees partly, the rest not.
pub open spec fn block_kind(t: TileType) -> BlockType {
    match t {
        TileType::Stone | TileType::DbWall | TileType::VWall | TileType::HWall | TileType::TlCorner
        | TileType::TrCorner | TileType::BlCorner | TileType::BrCorner | TileType::CrossWall
        | TileType::TuWall | TileType::TdWall | TileType::TlWall | TileType::TrWall
        | TileType::Door => BlockType::Full,
        TileType::Tree => BlockType::Partial,
        _ => BlockType::Clear,
    }
}

/// How much a square of this kind blocks sight.
pub fn classify_block(tile_type: TileType) -> (r: BlockType)
    ensures
        r == block_kind(tile_type),
{
    match tile_type {
        TileType::Stone | TileType::DbWall => BlockType::Full,
        TileType::VWall | TileType::HWall | TileType::TlCorner | TileType::TrCorner | TileType::BlCorner
        | TileType::BrCorner | TileType::CrossWall | TileType::TuWall | TileType::TdWall
        | TileType::TlWall | TileType::TrWall => BlockType::Full,
        TileType::Door => BlockType::Full,
        TileType::Tree => BlockType::Partial,
        _ => BlockType::Clear,
    }
}

/// A carried or cast source of light.
#[derive(Debug, Clone, Copy, PartialEq, Eq, Structural)]
pub enum LightSourceType {
    Candle,
    OilLamp,
    BrassLantern,
    MagicLamp,
    SunSword,
    WandOfLight,
    SpellLight,
}

/// The radius each light source lights.
pub open spec fn source_radius(s: LightSourceType) -> int {
    match s {
        LightSourceType::Candle => 1,
        LightSourceType::OilLamp => 2,
        LightSourceType::BrassLantern => 3,
        LightSourceType::MagicLamp => 4,
        LightSourceType::SunSword => 3,
        LightSourceType::WandOfLight => 5,
        LightSourceType::SpellLight => 4,
    }
}

/// The radius a light source lights.
pub fn light_radius(source: LightSourceType) -> (r: i32)
    ensures
        r == source_radius(source),
{
    match source {
        LightSourceType::Candle => 1,
        LightSourceType::OilLamp => 2,
        LightSourceType::BrassLantern => 3,
        LightSourceType::MagicLamp => 4,
        LightSourceType::SunSword => 3,
        LightSourceType::WandOfLight => 5,
        LightSourceType::SpellLight => 4,
    }
}

/// How many turns a light source burns; `None` for one that never runs out.
pub fn light_duration(source: LightSourceType) -> (r: Option<u32>)
    ensures
        r == match source {
            LightSourceType::Candle => Some(400u32),
            LightSourceType::OilLamp => Some(1500u32),
            LightSourceType::BrassLantern => Some(3000u32),
            LightSourceType::MagicLamp => None,
            LightSourceType::SunSword => None,
            LightSourceType::WandOfLight => Some(50u32),
            LightSourceType::SpellLight => Some(100u32),
        },
{
    match source {
        LightSourceType::Candle => Some(400),
        LightSourceType::OilLamp => Some(1500),
        LightSourceType::BrassLantern => Some(3000),
        LightSourceType::MagicLamp => None,
        LightSourceType::SunSword => None,
        LightSourceType::WandOfLight => Some(50),
        LightSourceType::SpellLight => Some(100),
    }
}

/// Counters of vision events.
#[derive(Debug, Clone)]
pub struct VisionStatistics {
    pub recalc_count: u32,
    pub blind_turns: u32,
    pub magic_maps_used: u32,
    pub clairvoyance_uses: u32,
    pub monsters_detected_telepathy: u32,
    pub monsters_detected_infravision: u32,
    pub light_sources_used: u32,
}

impl Default for VisionStatistics {
    fn default() -> (s: Self)
        ensures
            s == VisionStatistics::zero(),
    {
        VisionStatistics::new()
    }
}

impl VisionStatistics {
    /// All counters at zero.
    pub open spec fn zero() -> VisionStatistics {
        VisionStatistics {
            recalc_count: 0,
            blind_turns: 0,
            magic_maps_used: 0,
            clairvoyance_uses: 0,
            monsters_detected_telepathy: 0,
            monsters_detected_infravision: 0,
            light_sources_used: 0,
        }
    }

    /// All counters at zero.
    pub fn new() -> (s: Self)
        ensures
            s == VisionStatistics::zero(),
    {
        VisionStatistics {
            recalc_count: 0,
            blind_turns: 0,
            magic_maps_used: 0,
            clairvoyance_uses: 0,
            monsters_detected_telepathy: 0,
            monsters_detected_infravision: 0,
            light_sources_used: 0,
        }
    }

    /// Counts one recomputation.
    pub fn record_recalc(&mut self)
        requires
            old(self).recalc_count < u32::MAX,
        ensures
            *final(self) == (VisionStatistics { recalc_count: (old(self).recalc_count + 1) as u32, ..*old(self) }),
    {
        self.recalc_count = self.recalc_count + 1;
    }

    /// Counts one blind turn.
    pub fn record_blind(&mut self)
        requires
            old(self).blind_turns < u32::MAX,
        ensures
            *final(self) == (VisionStatistics { blind_turns: (old(self).blind_turns + 1) as u32, ..*old(self) }),
    {
        self.blind_turns = self.blind_turns + 1;
    }

    /// Counts one magic mapping.
    pub fn record_magic_map(&mut self)
        requires
            old(self).magic_maps_used < u32::MAX,
        ensures
            *final(self) == (VisionStatistics { magic_maps_used: (old(self).magic_maps_used + 1) as u32, ..*old(self) }),
    {
        self.magic_maps_used = self.magic_maps_used + 1;
    }

    /// Counts one use of clairvoyance.
    pub fn record_clairvoyance(&mut self)
        requires
            old(self).clairvoyance_uses < u32::MAX,
        ensures
            *final(self) == (VisionStatistics { clairvoyance_uses: (old(self).clairvoyance_uses + 1) as u32,
                ..*old(self) }),
    {
        self.clairvoyance_uses = self.clairvoyance_uses + 1;
    }
}

proof fn lemma_row_walk_blocked(g: Grid, x: int, y: int, x0: int, x1: int, xd: int, sy: int, fuel: nat)
    requires
        x0 < x1,
        x0 <= x <= xd < x1,
        x0 < xd,
        fuel == x1 - x,
        blocks_at(g, xd, y),
    ensures
        !los_walk(g, x, y, x1 - x0, x0, y, x1, y, x1 - x0, 0, 1, sy, fuel),
    decreases xd - x,
{
    let dx = x1 - x0;
    if x < xd {
        lemma_row_walk_blocked(g, x + 1, y, x0, x1, xd, sy, (fuel - 1) as nat);
        assert(2 * dx > -0 && !(2 * dx < dx));
        assert(los_walk(g, x, y, dx, x0, y, x1, y, dx, 0, 1, sy, fuel)
            == los_walk(g, x + 1, y, dx, x0, y, x1, y, dx, 0, 1, sy, (fuel - 1) as nat));
    }
}

proof fn lemma_row_walk_blocked_left(g: Grid, x: int, y: int, x0: int, x1: int, xd: int, sy: int, fuel: nat)
    requires
        x1 < x0,
        x1 < xd <= x <= x0,
        xd < x0,
        fuel == x - x1,
        blocks_at(g, xd, y),
    ensures
        !los_walk(g, x, y, x0 - x1, x0, y, x1, y, x0 - x1, 0, -1, sy, fuel),
    decreases x - xd,
{
    let dx = x0 - x1;
    if x > xd {
        lemma_row_walk_blocked_left(g, x - 1, y, x0, x1, xd, sy, (fuel - 1) as nat);
        assert(2 * dx > -0 && !(2 * dx < dx));
        assert(los_walk(g, x, y, dx, x0, y, x1, y, dx, 0, -1, sy, fuel)
            == los_walk(g, x - 1, y, dx, x0, y, x1, y, dx, 0, -1, sy, (fuel - 1) as nat));
    }
}

proof fn lemma_column_walk_blocked(g: Grid, x: int, y: int, y0: int, y1: int, yd: int, sx: int, fuel: nat)
    requires
        y0 < y1,
        y0 <= y <= yd < y1,
        y0 < yd,
        fuel == y1 - y,
        blocks_at(g, x, yd),
    ensures
        !los_walk(g, x, y, -(y1 - y0), x, y0, x, y1, 0, y1 - y0, sx, 1, fuel),
    decreases yd - y,
{
    let dy = y1 - y0;
    if y < yd {
        lemma_column_walk_blocked(g, x, y + 1, y0, y1, yd, sx, (fuel - 1) as nat);
        assert(!(2 * -dy > -dy) && 2 * -dy < 0);
        assert(los_walk(g, x, y, -dy, x, y0, x, y1, 0, dy, sx, 1, fuel)
            == los_walk(g, x, y + 1, -dy, x, y0, x, y1, 0, dy, sx, 1, (fuel - 1) as nat));
    }
}

proof fn lemma_column_walk_blocked_up(g: Grid, x: int, y: int, y0: int, y1: int, yd: int, sx: int, fuel: nat)
    requires
        y1 < y0,
        y1 < yd <= y <= y0,
        yd < y0,
        fuel == y - y1,
        blocks_at(g, x, yd),
    ensures
        !los_walk(g, x, y, -(y0 - y1), x, y0, x, y1, 0, y0 - y1, sx, -1, fuel),
    decreases y - yd,
{
    let dy = y0 - y1;
    if y > yd {
        lemma_column_walk_blocked_up(g, x, y - 1, y0, y1, yd, sx, (fuel - 1) as nat);
        assert(!(2 * -dy > -dy) && 2 * -dy < 0);
        assert(los_walk(g, x, y, -dy, x, y0, x, y1, 0, dy, sx, -1, fuel)
            == los_walk(g, x, y - 1, -dy, x, y0, x, y1, 0, dy, sx, -1, (fuel - 1) as nat));
    }
}

/// A closed door blocks sight: when a door stands on a square strictly
/// between two squares of the same row, or of the same column, neither
/// end sees the other.
pub proof fn closed_doors_block_sight(g: Grid, x0: int, y0: int, x1: int, y1: int, xd: int, yd: int)
    requires
        g.tile_at(xd, yd) matches Some(t) && t.typ == TileType::Door,
        (y0 == y1 == yd && (x0 < xd < x1 || x1 < xd < x0)) || (x0 == x1 == xd && (y0 < yd < y1 || y1 < yd < y0)),
    ensures
        !line_of_sight(g, x0, y0, x1, y1),
{
    assert(blocks_at(g, xd, yd));
    if y0 == y1 && x0 < x1 {
        lemma_row_walk_blocked(g, x0, y0, x0, x1, xd, -1, (x1 - x0) as nat);
    } else if y0 == y1 {
        lemma_row_walk_blocked_left(g, x0, y0, x0, x1, xd, -1, (x0 - x1) as nat);
    } else if y0 < y1 {
        lemma_column_walk_blocked(g, x0, y0, y0, y1, yd, -1, (y1 - y0) as nat);
    } else {
        lemma_column_walk_blocked_up(g, x0, y0, y0, y1, yd, -1, (y0 - y1) as nat);
    }
}

} // verus!
