//! Arriving on another level: which level, what the player is told, and
//! where on the level the player lands.
use vstd::prelude::*;
use crate::tile::{Grid, TileType, COLNO, ROWNO};
use crate::teleport::DungeonBranch;
use crate::stairs::{LevelChange, LevelTarget, LandingType};
use crate::rng::{NetHackRng, rng_roll, rng_next};
use crate::text::{text_with_int, int_text};

verus! {

/// The level a change leads to: one deeper, one shallower, or the target.
pub open spec fn next_level_of(change: LevelChange, current: LevelTarget) -> (DungeonBranch, int) {
    match change {
        LevelChange::NextLevel => (current.branch, current.depth + 1),
        LevelChange::PrevLevel => (current.branch, current.depth - 1),
        LevelChange::Teleport { target, .. } => (target.branch, target.depth as int),
    }
}

/// The level a change leads to, if it is a level at all (depth 1 or more).
pub fn plan_level_change(change: LevelChange, current: LevelTarget) -> (r: Option<LevelTarget>)
    requires
        i32::MIN < current.depth < i32::MAX,
    ensures
        next_level_of(change, current).1 >= 1 ==> (r matches Some(t) && t.branch == next_level_of(change, current).0
            && t.depth == next_level_of(change, current).1),
        next_level_of(change, current).1 < 1 ==> r is None,
{
    let next = match change {
        LevelChange::NextLevel => LevelTarget { branch: current.branch, depth: current.depth + 1 },
        LevelChange::PrevLevel => LevelTarget { branch: current.branch, depth: current.depth - 1 },
        LevelChange::Teleport { target, .. } => target,
    };
    if next.depth >= 1 {
        Some(next)
    } else {
        None
    }
}

/// Going down a level and then up again leads back to the level one started
/// from, and from any level at depth 1 or more going down leads to a level.
pub proof fn down_then_up_returns(current: LevelTarget)
    requires
        1 <= current.depth < i32::MAX,
    ensures
        next_level_of(LevelChange::NextLevel, current).1 >= 1,
        ({
            let down = LevelTarget { branch: current.branch, depth: (current.depth + 1) as i32 };
            &&& next_level_of(LevelChange::NextLevel, current) == (down.branch, down.depth as int)
            &&& next_level_of(LevelChange::PrevLevel, down) == (current.branch, current.depth as int)
        }),
{
}

/// What the player is told on arrival: a welcome back to a known level, or
/// entering a new one.
pub fn arrival_message(known_level: bool, depth: i32) -> (r: String)
    ensures
        r@ == (if known_level { "Welcome back to level "@ } else { "You enter level "@ }) + int_text(depth as int) + "."@,
{
    if known_level {
        text_with_int("Welcome back to level ", depth as i64, ".")
    } else {
        text_with_int("You enter level ", depth as i64, ".")
    }
}

/// Whether a square of this kind is a wall (any wall or corner piece).
pub open spec fn is_wall_kind(t: TileType) -> bool {
    match t {
        TileType::VWall | TileType::HWall | TileType::TlCorner | TileType::TrCorner | TileType::BlCorner
        | TileType::BrCorner | TileType::CrossWall | TileType::TuWall | TileType::TdWall | TileType::TlWall
        | TileType::TrWall | TileType::DbWall => true,
        _ => false,
    }
}

pub(crate) fn is_wall(t: TileType) -> (r: bool)
    ensures
        r == is_wall_kind(t),
{
    match t {
        TileType::VWall | TileType::HWall | TileType::TlCorner | TileType::TrCorner | TileType::BlCorner
        | TileType::BrCorner | TileType::CrossWall | TileType::TuWall | TileType::TdWall | TileType::TlWall
        | TileType::TrWall | TileType::DbWall => true,
        _ => false,
    }
}

/// The first row, from `y` on, of column `x` holding a square of kind `t`.
pub open spec fn first_in_column(g: Grid, x: int, y: int, t: TileType) -> Option<int>
    decreases ROWNO - y,
{
    if y >= ROWNO {
        None
    } else if g.tiles@[x]@[y].typ == t {
        Some(y)
    } else {
        first_in_column(g, x, y + 1, t)
    }
}

/// The square found by scanning the first `n` columns for kind `t`: the
/// first match of the last column that has one (each column's scan stops
/// at its first match, later columns overwrite earlier ones).
pub open spec fn scan_for(g: Grid, t: TileType, n: int) -> Option<(int, int)>
    decreases n,
{
    if n <= 0 {
        None
    } else {
        match first_in_column(g, n - 1, 0, t) {
            Some(y) => Some((n - 1, y)),
            None => scan_for(g, t, n - 1),
        }
    }
}

/// Where the scan for kind `t` lands: the square found, else (10, 10).
pub open spec fn scan_landing(g: Grid, t: TileType) -> (int, int) {
    match scan_for(g, t, COLNO as int) {
        Some(p) => p,
        None => (10, 10),
    }
}

fn scan_grid(g: &Grid, t: TileType) -> (r: (i32, i32))
    requires
        g.wf(),
    ensures
        r.0 == scan_landing(*g, t).0 && r.1 == scan_landing(*g, t).1,
{
    let mut p: (i32, i32) = (10, 10);
    let mut x: usize = 0;
    while x < COLNO
        invariant
            g.wf(),
            x <= COLNO,
            match scan_for(*g, t, x as int) {
                Some(q) => p.0 == q.0 && p.1 == q.1,
                None => p == (10i32, 10i32),
            },
        decreases COLNO - x,
    {
        let mut y: usize = 0;
        let mut found = false;
        while y < ROWNO && !found
            invariant
                g.wf(),
                x < COLNO,
                y <= ROWNO,
                first_in_column(*g, x as int, 0, t) == (if found { Some(y - 1) } else { first_in_column(*g, x as int, y as int, t) }),
                found ==> y >= 1,
                found ==> p.0 == x && p.1 == y - 1,
                !found ==> match scan_for(*g, t, x as int) {
                    Some(q) => p.0 == q.0 && p.1 == q.1,
                    None => p == (10i32, 10i32),
                },
            decreases ROWNO - y,
        {
            if g.tiles[x][y].typ == t {
                p = (x as i32, y as i32);
                found = true;
            }
            y = y + 1;
        }
        x = x + 1;
    }
    p
}

/// The result of up to `tries` random draws of a square (a column, then a
/// row) from the state `s`: the first square that is not a wall, and the
/// state after the draws made.
pub open spec fn random_landing(g: Grid, s: u64, tries: nat) -> (Option<(int, int)>, u64)
    decreases tries,
{
    if tries == 0 {
        (None, s)
    } else {
        let tx = rng_roll(s, COLNO as int);
        let s1 = rng_next(s);
        let ty = rng_roll(s1, ROWNO as int);
        let s2 = rng_next(s1);
        if !is_wall_kind(g.tiles@[tx]@[ty].typ) {
            (Some((tx, ty)), s2)
        } else {
            random_landing(g, s2, (tries - 1) as nat)
        }
    }
}

fn random_square(g: &Grid, rng: &mut NetHackRng) -> (r: (i32, i32))
    requires
        g.wf(),
    ensures
        match random_landing(*g, old(rng)@, 200) {
            (Some(p), _) => r.0 == p.0 && r.1 == p.1,
            (None, _) => r == (10i32, 10i32),
        },
        final(rng)@ == random_landing(*g, old(rng)@, 200).1,
{
    let mut k: u32 = 0;
    while k < 200
        invariant
            g.wf(),
            k <= 200,
            random_landing(*g, old(rng)@, 200) == random_landing(*g, rng@, (200 - k) as nat),
        decreases 200 - k,
    {
        let tx = rng.rn2(COLNO as i32);
        let ty = rng.rn2(ROWNO as i32);
        if !is_wall(g.tiles[tx as usize][ty as usize].typ) {
            return (tx, ty);
        }
        k = k + 1;
    }
    (10, 10)
}

/// The position of the first portal of `portals` that leads to `source`,
/// else (10, 10).
pub open spec fn connection_landing(portals: Seq<((i32, i32), LevelTarget)>, source: LevelTarget) -> (i32, i32)
    decreases portals.len(),
{
    if portals.len() == 0 {
        (10, 10)
    } else if portals[0].1 == source {
        portals[0].0
    } else {
        connection_landing(portals.drop_first(), source)
    }
}

fn connection_square(portals: &Vec<((i32, i32), LevelTarget)>, source: LevelTarget) -> (r: (i32, i32))
    ensures
        r == connection_landing(portals@, source),
{
    let n = portals.len();
    let mut k: usize = 0;
    proof { assert(portals@.skip(0) == portals@); }
    while k < n
        invariant
            k <= n,
            n == portals@.len(),
            connection_landing(portals@, source) == connection_landing(portals@.skip(k as int), source),
        decreases n - k,
    {
        proof {
            assert(portals@.skip(k as int)[0] == portals@[k as int]);
            assert(portals@.skip(k as int).drop_first() == portals@.skip(k + 1));
        }
        if portals[k].1 == source {
            return portals[k].0;
        }
        k = k + 1;
    }
    (10, 10)
}

/// Where the player lands for a change: stairs are looked for on a known
/// level (`stairs` is `None`) or taken from a new level's generator
/// (`stairs` holds its up and down stairs); a coordinate is taken as it
/// is; a random landing tries 200 random squares that are not walls; a
/// connection lands on the portal back to the level left.
pub open spec fn landing_of(g: Grid, portals: Seq<((i32, i32), LevelTarget)>, change: LevelChange,
    stairs: Option<((i32, i32), (i32, i32))>, s: u64) -> ((int, int), u64) {
    let up = match stairs { Some(st) => (st.0.0 as int, st.0.1 as int), None => scan_landing(g, TileType::StairsUp) };
    let down = match stairs { Some(st) => (st.1.0 as int, st.1.1 as int), None => scan_landing(g, TileType::StairsDown) };
    match change {
        LevelChange::NextLevel => (up, s),
        LevelChange::PrevLevel => (down, s),
        LevelChange::Teleport { landing, .. } => match landing {
            LandingType::StairsUp => (up, s),
            LandingType::StairsDown => (down, s),
            LandingType::Coordinate(x, y) => ((x as int, y as int), s),
            LandingType::Random => match random_landing(g, s, 200) {
                (Some(p), s2) => (p, s2),
                (None, s2) => ((10, 10), s2),
            },
            LandingType::Connection(source) => {
                let c = connection_landing(portals, source);
                ((c.0 as int, c.1 as int), s)
            },
        },
    }
}

/// Where the player lands on arriving by `change` (see `landing_of`).
pub fn landing_position(grid: &Grid, portals: &Vec<((i32, i32), LevelTarget)>, change: LevelChange,
    stairs: Option<((i32, i32), (i32, i32))>, rng: &mut NetHackRng) -> (r: (i32, i32))
    requires
        grid.wf(),
    ensures
        r.0 == landing_of(*grid, portals@, change, stairs, old(rng)@).0.0,
        r.1 == landing_of(*grid, portals@, change, stairs, old(rng)@).0.1,
        final(rng)@ == landing_of(*grid, portals@, change, stairs, old(rng)@).1,
{
    let up = match stairs { Some(st) => st.0, None => scan_grid(grid, TileType::StairsUp) };
    let down = match stairs { Some(st) => st.1, None => scan_grid(grid, TileType::StairsDown) };
    match change {
        LevelChange::NextLevel => up,
        LevelChange::PrevLevel => down,
        LevelChange::Teleport { landing, .. } => match landing {
            LandingType::StairsUp => up,
            LandingType::StairsDown => down,
            LandingType::Coordinate(x, y) => (x, y),
            LandingType::Random => random_square(grid, rng),
            LandingType::Connection(source) => connection_square(portals, source),
        },
    }
}

} // verus!
