//! One turn of sight: from the player's state, the lights on the level and
//! the monsters on it, the sight masks are recomputed. The caller gathers
//! those from the world; this decides what the player sees.
use vstd::prelude::*;
use crate::tile::{Grid, COLNO, ROWNO};
use crate::vision::{VisionSystem, IN_SIGHT, MEMORIZED, MAX_COORD, on_map, sees, recalc_cell, line_of_sight,
    blocks_sight};

verus! {

/// A light source on the level: where it is (or who carries it) and how
/// far it lights.
#[derive(Debug, Clone, Copy, PartialEq, Eq, Structural)]
pub struct LightAt {
    pub x: usize,
    pub y: usize,
    pub range: i32,
}

/// Whether some light of `lights` lets the player see `(x, y)`.
pub open spec fn lit_by(g: Grid, lights: Seq<LightAt>, x: int, y: int) -> bool {
    exists|i: int| 0 <= i < lights.len() && #[trigger] sees(g, lights[i].x as int, lights[i].y as int,
        lights[i].range as int, x, y)
}

/// Whether infravision shows a monster at `(x, y)`: one of `monsters` is
/// there, within 8 squares of the player on both axes, in line of sight.
pub open spec fn infra_seen(g: Grid, px: int, py: int, monsters: Seq<(usize, usize)>, x: int, y: int) -> bool {
    exists|i: int| 0 <= i < monsters.len() && #[trigger] monsters[i].0 == x && monsters[i].1 == y
        && -8 <= x - px <= 8 && -8 <= y - py <= 8 && line_of_sight(g, px, py, x, y)
}

/// The player's base sight radius: 5 in the light, 3 in the dark with
/// night vision, else 1; "dark" when the player's square exists and is
/// unlit.
pub open spec fn base_radius(g: Grid, px: int, py: int, night_vision: bool) -> int {
    let dark = match g.tile_at(px, py) { Some(t) => !t.lit, None => false };
    if dark { if night_vision { 3 } else { 1 } } else { 5 }
}

/// The mask of `(x, y)` after a turn of sight: when blind, out of sight
/// except what is within 1 square in line of sight; otherwise recomputed
/// from the player, then seen and remembered where a light shows it, then
/// in sight where infravision shows a monster.
pub open spec fn sight_cell(g: Grid, px: int, py: int, blind: bool, night_vision: bool, infravision: bool,
    lights: Seq<LightAt>, monsters: Seq<(usize, usize)>, x: int, y: int, c: u8) -> u8 {
    if blind {
        if sees(g, px, py, 1, x, y) { (c & !IN_SIGHT) | (IN_SIGHT | MEMORIZED) } else { c & !IN_SIGHT }
    } else {
        let c1 = recalc_cell(g, px, py, base_radius(g, px, py, night_vision), x, y, c);
        let c2 = if lit_by(g, lights, x, y) { c1 | (IN_SIGHT | MEMORIZED) } else { c1 };
        if infravision && infra_seen(g, px, py, monsters, x, y) { c2 | IN_SIGHT } else { c2 }
    }
}

proof fn lemma_or_twice(c: u8, b: u8)
    ensures
        (c | b) | b == c | b,
{
    assert((c | b) | b == c | b) by (bit_vector);
}

/// Recomputes sight for a turn (see `sight_cell`); the clear flags are
/// refreshed from the grid first.
pub fn vision_update(vs: &mut VisionSystem, grid: &Grid, player_x: usize, player_y: usize, blind: bool,
    night_vision: bool, infravision: bool, lights: &Vec<LightAt>, monsters: &Vec<(usize, usize)>)
    requires
        old(vs).wf(),
        player_x < MAX_COORD, player_y < MAX_COORD,
        forall|i: int| 0 <= i < lights@.len() ==> (#[trigger] lights@[i]).x < MAX_COORD && lights@[i].y < MAX_COORD
            && -MAX_COORD <= lights@[i].range <= MAX_COORD,
        forall|i: int| 0 <= i < monsters@.len() ==> (#[trigger] monsters@[i]).0 < MAX_COORD && monsters@[i].1 < MAX_COORD,
    ensures
        final(vs).wf(),
        forall|x: int, y: int| on_map(x, y) ==> #[trigger] final(vs).clear_at(x, y) == match grid.tile_at(x, y) {
            Some(t) => !blocks_sight(t.typ),
            None => old(vs).clear_at(x, y),
        },
        forall|x: int, y: int| on_map(x, y) ==> #[trigger] final(vs).cell(x, y) == sight_cell(*grid, player_x as int,
            player_y as int, blind, night_vision, infravision, lights@, monsters@, x, y, old(vs).cell(x, y)),
{
    let ghost start = *vs;
    vs.update_clear_zones(grid);
    let ghost s0 = *vs;
    if blind {
        vs.reset_sight();
        vs.apply_vision(grid, player_x, player_y, 1);
        proof {
            assert forall|x: int, y: int| on_map(x, y) implies #[trigger] vs.clear_at(x, y) == s0.clear_at(x, y) by {
                assert(vs.viz_clear == s0.viz_clear);
            }
            assert forall|x: int, y: int| on_map(x, y) implies #[trigger] vs.cell(x, y) == sight_cell(*grid, player_x as int,
                player_y as int, blind, night_vision, infravision, lights@, monsters@, x, y, start.cell(x, y)) by {
                assert(s0.cell(x, y) == start.cell(x, y));
            }
        }
        return;
    }
    let is_dark = match grid.get_tile(player_x, player_y) {
        Some(tile) => !tile.lit,
        None => false,
    };
    let radius: i32 = if is_dark { if night_vision { 3 } else { 1 } } else { 5 };
    vs.recalc(grid, player_x, player_y, radius);
    let ghost s1 = *vs;
    let n = lights.len();
    let mut k: usize = 0;
    while k < n
        invariant
            k <= n,
            n == lights@.len(),
            vs.wf(),
            s1.wf(),
            vs.viz_clear == s1.viz_clear,
            s1.viz_clear == s0.viz_clear,
            forall|i: int| 0 <= i < lights@.len() ==> (#[trigger] lights@[i]).x < MAX_COORD && lights@[i].y < MAX_COORD
                && -MAX_COORD <= lights@[i].range <= MAX_COORD,
            forall|x: int, y: int| on_map(x, y) ==> #[trigger] vs.cell(x, y) == (if lit_by(*grid, lights@.take(k as int), x, y)
                { s1.cell(x, y) | (IN_SIGHT | MEMORIZED) } else { s1.cell(x, y) }),
        decreases n - k,
    {
        let l = lights[k];
        let ghost before = *vs;
        vs.apply_vision(grid, l.x, l.y, l.range);
        proof {
            assert forall|x: int, y: int| on_map(x, y) implies #[trigger] vs.cell(x, y) == (if lit_by(*grid,
                lights@.take(k + 1), x, y) { s1.cell(x, y) | (IN_SIGHT | MEMORIZED) } else { s1.cell(x, y) }) by {
                let t = lights@.take(k + 1);
                assert(t[k as int] == l);
                if lit_by(*grid, lights@.take(k as int), x, y) {
                    let i = choose|i: int| 0 <= i < lights@.take(k as int).len() && #[trigger] sees(*grid,
                        lights@.take(k as int)[i].x as int, lights@.take(k as int)[i].y as int,
                        lights@.take(k as int)[i].range as int, x, y);
                    assert(t[i] == lights@.take(k as int)[i]);
                    assert(lit_by(*grid, t, x, y));
                    lemma_or_twice(s1.cell(x, y), IN_SIGHT | MEMORIZED);
                }
                if sees(*grid, l.x as int, l.y as int, l.range as int, x, y) {
                    assert(lit_by(*grid, t, x, y));
                    lemma_or_twice(s1.cell(x, y), IN_SIGHT | MEMORIZED);
                }
                if lit_by(*grid, t, x, y) && !lit_by(*grid, lights@.take(k as int), x, y) {
                    let i = choose|i: int| 0 <= i < t.len() && #[trigger] sees(*grid, t[i].x as int, t[i].y as int,
                        t[i].range as int, x, y);
                    if i < k {
                        assert(lights@.take(k as int)[i] == t[i]);
                        assert(lit_by(*grid, lights@.take(k as int), x, y));
                    }
                }
            }
        }
        k = k + 1;
    }
    proof {
        assert(lights@.take(n as int) == lights@);
    }
    let ghost s2 = *vs;
    if infravision {
        let m = monsters.len();
        let mut j: usize = 0;
        while j < m
            invariant
                j <= m,
                m == monsters@.len(),
                vs.wf(),
                s2.wf(),
                vs.viz_clear == s2.viz_clear,
                s2.viz_clear == s0.viz_clear,
                player_x < MAX_COORD, player_y < MAX_COORD,
                forall|i: int| 0 <= i < monsters@.len() ==> (#[trigger] monsters@[i]).0 < MAX_COORD && monsters@[i].1 < MAX_COORD,
                forall|x: int, y: int| on_map(x, y) ==> #[trigger] vs.cell(x, y) == (if infra_seen(*grid, player_x as int,
                    player_y as int, monsters@.take(j as int), x, y) { s2.cell(x, y) | IN_SIGHT } else { s2.cell(x, y) }),
            decreases m - j,
        {
            let (mx, my) = monsters[j];
            let ghost before = *vs;
            proof {
                assert forall|x: int, y: int| on_map(x, y) implies #[trigger] before.cell(x, y) == (if infra_seen(*grid,
                    player_x as int, player_y as int, monsters@.take(j as int), x, y) { s2.cell(x, y) | IN_SIGHT }
                    else { s2.cell(x, y) }) by {
                    assert(vs.cell(x, y) == before.cell(x, y));
                }
            }
            let dx: i64 = mx as i64 - player_x as i64;
            let dy: i64 = my as i64 - player_y as i64;
            let near = -8 <= dx && dx <= 8 && -8 <= dy && dy <= 8;
            let hit = near && mx < COLNO && my < ROWNO && VisionSystem::has_line_of_sight(grid, player_x, player_y, mx, my);
            if hit {
                let v = vs.viz_array[mx][my] | IN_SIGHT;
                crate::vision::set_cell(&mut vs.viz_array, mx, my, v);
            }
            proof {
                assert forall|x: int, y: int| on_map(x, y) && !(x == mx && y == my) implies #[trigger] vs.cell(x, y)
                    == before.cell(x, y) by {
                    if x != mx {
                        assert(vs.viz_array@[x] == before.viz_array@[x]);
                    }
                }
            }
            proof {
                let t = monsters@.take(j + 1);
                assert(t[j as int] == (mx, my));
                assert forall|x: int, y: int| on_map(x, y) implies #[trigger] vs.cell(x, y) == (if infra_seen(*grid,
                    player_x as int, player_y as int, t, x, y) { s2.cell(x, y) | IN_SIGHT } else { s2.cell(x, y) }) by {
                    let pre = monsters@.take(j as int);
                    let old_c = before.cell(x, y);
                    assert(old_c == (if infra_seen(*grid, player_x as int, player_y as int, pre, x, y)
                        { s2.cell(x, y) | IN_SIGHT } else { s2.cell(x, y) }));
                    let here = x == mx && y == my && -8 <= x - player_x <= 8 && -8 <= y - player_y <= 8
                        && line_of_sight(*grid, player_x as int, player_y as int, x, y);
                    assert(infra_seen(*grid, player_x as int, player_y as int, t, x, y)
                        == (infra_seen(*grid, player_x as int, player_y as int, pre, x, y) || here)) by {
                        if infra_seen(*grid, player_x as int, player_y as int, pre, x, y) {
                            let i = choose|i: int| 0 <= i < pre.len() && #[trigger] pre[i].0 == x && pre[i].1 == y
                                && -8 <= x - player_x <= 8 && -8 <= y - player_y <= 8
                                && line_of_sight(*grid, player_x as int, player_y as int, x, y);
                            assert(t[i] == pre[i]);
                        }
                        if infra_seen(*grid, player_x as int, player_y as int, t, x, y) {
                            let i = choose|i: int| 0 <= i < t.len() && #[trigger] t[i].0 == x && t[i].1 == y
                                && -8 <= x - player_x <= 8 && -8 <= y - player_y <= 8
                                && line_of_sight(*grid, player_x as int, player_y as int, x, y);
                            if i < j {
                                assert(pre[i] == t[i]);
                            }
                        }
                        if here {
                            assert(t[j as int].0 == x && t[j as int].1 == y);
                        }
                    }
                    if x == mx && y == my {
                        assert(here == hit);
                        if hit {
                            lemma_or_twice(s2.cell(x, y), IN_SIGHT);
                        }
                    } else {
                        assert(vs.cell(x, y) == old_c);
                    }
                }
            }
            j = j + 1;
        }
        proof {
            assert(monsters@.take(m as int) == monsters@);
        }
    }
    proof {
        assert forall|x: int, y: int| on_map(x, y) implies #[trigger] vs.clear_at(x, y) == s0.clear_at(x, y) by {
            assert(vs.viz_clear == s0.viz_clear);
        }
        assert forall|x: int, y: int| on_map(x, y) implies #[trigger] vs.cell(x, y) == sight_cell(*grid, player_x as int,
            player_y as int, blind, night_vision, infravision, lights@, monsters@, x, y, start.cell(x, y)) by {
            assert(s0.cell(x, y) == start.cell(x, y));
            if !infravision {
                assert(vs.cell(x, y) == s2.cell(x, y));
            }
        }
    }
}

/// Carries out pending magic-mapping requests: with at least one, every
/// square becomes remembered; with none, nothing changes.
pub fn magic_map_effect(vs: &mut VisionSystem, requests: usize)
    requires
        old(vs).wf(),
    ensures
        final(vs).wf(),
        requests == 0 ==> *final(vs) == *old(vs),
        requests > 0 ==> forall|x: int, y: int| on_map(x, y) ==> #[trigger] final(vs).cell(x, y)
            == old(vs).cell(x, y) | MEMORIZED,
{
    if requests > 0 {
        vs.magic_map();
    }
}

} // verus!
