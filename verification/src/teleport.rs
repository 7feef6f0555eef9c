//! Teleportation: where a teleport or level teleport takes its target,
//! who may teleport, safe landing spots, resisting teleportation, teleport
//! traps, cooldowns and the messages that go with them.
use vstd::prelude::*;
use crate::num::{clamp, div_trunc};
use crate::rng::{NetHackRng, rng_roll, rng_next, rng_after};
use crate::game_log::{GameLog, Message, after_add, DEFAULT_COLOR};
use crate::tile::Grid;
use crate::stairs::{LevelChange, LevelTarget, LandingType};
use crate::level_change::{is_wall, is_wall_kind};

verus! {

/// Width of a level in columns.
pub const COLNO: i32 = 80;
/// Height of a level in rows.
pub const ROWNO: i32 = 21;

/// Where a pending teleport sends its target.
#[derive(Debug, Clone, Copy, PartialEq, Eq, Structural)]
pub enum TeleportOutcome {
    ToLevel(LevelChange),
    Moved(i32, i32),
    Stayed,
}

/// The spot that try `k` of a teleport picks from a stream that started
/// in state `s`: a column `0..COLNO` and a row `0..ROWNO`.
pub open spec fn tele_try(s: u64, k: nat) -> (i32, i32) {
    (rng_roll(rng_after(s, 2 * k), COLNO as int) as i32, rng_roll(rng_after(s, 2 * k + 1), ROWNO as int) as i32)
}

/// Whether a teleport may land at `p`: the grid has a square there and it
/// is not a wall.
pub open spec fn open_spot(grid: Grid, p: (i32, i32)) -> bool {
    grid.tile_at(p.0 as int, p.1 as int) matches Some(t) && !is_wall_kind(t.typ)
}

/// The depth a level teleport from `depth` reaches: `1..=5` levels down
/// (to 50 at most) or up (to 1 at least), one time in two each.
pub open spec fn level_hop(s: u64, depth: int) -> int {
    let delta = rng_roll(s, 5) + 1;
    if rng_roll(rng_next(s), 2) == 0 {
        if depth + delta < 50 { depth + delta } else { 50 }
    } else {
        if depth - delta > 1 { depth - delta } else { 1 }
    }
}

/// Carries out a pending teleport. The hero on a level teleport hops to
/// another level of the same branch, landing at random; anyone else tries
/// up to 200 random spots of `grid` and moves to the first one that is not
/// a wall, or stays put. The log says what happened (nothing for a monster
/// that stays).
pub fn teleport(
    is_player: bool,
    is_level_tele: bool,
    current: LevelTarget,
    grid: &Grid,
    log: &mut GameLog,
    turn: u64,
    rng: &mut NetHackRng,
) -> (r: TeleportOutcome)
    requires
        old(log).wf(),
        i32::MIN + 5 <= current.depth <= i32::MAX - 5,
    ensures
        final(log).wf(),
        final(log).cap() == old(log).cap(),
        ({
            let s0 = old(rng)@;
            let ms = old(log).messages();
            let cap = old(log).cap();
            if is_level_tele && is_player {
                &&& r == TeleportOutcome::ToLevel(LevelChange::Teleport {
                        target: LevelTarget { branch: current.branch, depth: level_hop(s0, current.depth as int) as i32 },
                        landing: LandingType::Random })
                &&& final(rng)@ == rng_after(s0, 2)
                &&& final(log).messages() == after_add(ms, ("You are swept away to another level!"@, DEFAULT_COLOR, turn), cap)
            } else {
                match r {
                    TeleportOutcome::Moved(x, y) => {
                        &&& exists|n: nat| {
                            &&& n < 200
                            &&& (x, y) == #[trigger] tele_try(s0, n)
                            &&& open_spot(*grid, (x, y))
                            &&& forall|k: nat| k < n ==> !open_spot(*grid, #[trigger] tele_try(s0, k))
                            &&& final(rng)@ == rng_after(s0, 2 * n + 2)
                        }
                        &&& final(log).messages() == after_add(ms, (if is_player {
                            "You teleport!"@
                        } else {
                            "The monster teleports away!"@
                        }, DEFAULT_COLOR, turn), cap)
                    },
                    TeleportOutcome::Stayed => {
                        &&& forall|k: nat| k < 200 ==> !open_spot(*grid, #[trigger] tele_try(s0, k))
                        &&& final(rng)@ == rng_after(s0, 400)
                        &&& final(log).messages() == if is_player {
                            after_add(ms, ("You feel a shudder, but stay put."@, DEFAULT_COLOR, turn), cap)
                        } else {
                            ms
                        }
                    },
                    TeleportOutcome::ToLevel(_) => false,
                }
            }
        }),
{
    let ghost s0 = rng@;
    if is_level_tele && is_player {
        let delta = rng.rn1(5, 1);
        let up = rng.rn2(2) == 0;
        let next_depth = if up {
            let d = current.depth + delta;
            if d < 50 { d } else { 50 }
        } else {
            let d = current.depth - delta;
            if d > 1 { d } else { 1 }
        };
        log.add("You are swept away to another level!", turn);
        proof {
            crate::rng::lemma_one_die(s0, 5);
        }
        assert(rng_after(s0, 2) == rng_next(rng_after(s0, 1)));
        return TeleportOutcome::ToLevel(LevelChange::Teleport {
            target: LevelTarget { branch: current.branch, depth: next_depth },
            landing: LandingType::Random,
        });
    }
    let mut k: i32 = 0;
    while k < 200
        invariant
            0 <= k <= 200,
            s0 == old(rng)@,
            rng@ == rng_after(s0, (2 * k) as nat),
            forall|j: nat| j < k ==> !open_spot(*grid, #[trigger] tele_try(s0, j)),
            *log == *old(log),
            log.wf(),
            !(is_level_tele && is_player),
        decreases 200 - k,
    {
        let ghost n: nat = k as nat;
        let tx = rng.rn2(COLNO);
        let ty = rng.rn2(ROWNO);
        assert(rng_after(s0, 2 * n + 1) == rng_next(rng_after(s0, 2 * n)));
        assert(rng_after(s0, 2 * n + 2) == rng_next(rng_after(s0, 2 * n + 1)));
        assert((tx, ty) == tele_try(s0, n));
        let open = match grid.get_tile(tx as usize, ty as usize) {
            Some(tile) => !is_wall(tile.typ),
            None => false,
        };
        assert(open == open_spot(*grid, (tx, ty)));
        if open {
            if is_player {
                log.add("You teleport!", turn);
            } else {
                log.add("The monster teleports away!", turn);
            }
            return TeleportOutcome::Moved(tx, ty);
        }
        k = k + 1;
    }
    if is_player {
        log.add("You feel a shudder, but stay put.", turn);
    }
    TeleportOutcome::Stayed
}

/// How much control the hero has over a teleport.
#[derive(Debug, Clone, Copy, PartialEq, Eq, Structural)]
pub enum TeleportControl {
    NoControl,
    Directional,
    Full,
}

/// What set off a teleport.
#[derive(Debug, Clone, Copy, PartialEq, Eq, Structural)]
pub enum TeleportCause {
    Trap,
    Magic,
    Item,
    Intrinsic,
    Forced,
    LevelTrap,
}

/// Whether a creature can teleport: not when dead, carrying the Amulet, in
/// a no-teleport zone or resisting teleportation.
pub fn can_teleport(has_teleport_resist: bool, has_amulet: bool, in_no_tele_zone: bool, is_dead: bool) -> (r: bool)
    ensures
        r == (!is_dead && !has_amulet && !in_no_tele_zone && !has_teleport_resist),
{
    if is_dead {
        return false;
    }
    if has_amulet {
        return false;
    }
    if in_no_tele_zone {
        return false;
    }
    !has_teleport_resist
}

/// Whether the hero can level teleport: not with the Amulet, in the
/// endgame or in the quest.
pub fn can_level_teleport(has_amulet: bool, in_quest: bool, in_endgame: bool) -> (r: bool)
    ensures
        r == (!has_amulet && !in_endgame && !in_quest),
{
    if has_amulet {
        return false;
    }
    if in_endgame {
        return false;
    }
    !in_quest
}

/// The spot that try `k` of finding a landing picks from a stream that
/// started in state `s`: a column `1..width - 1` and a row `1..height - 1`.
pub open spec fn landing_try(s: u64, width: int, height: int, k: nat) -> (usize, usize) {
    ((rng_roll(rng_after(s, 2 * k), width - 2) + 1) as usize, (rng_roll(rng_after(s, 2 * k + 1), height - 2) + 1) as usize)
}

/// A spot to land on: up to `max_tries` random spots away from the edge,
/// the first that `is_passable_fn` accepts; none if all are refused.
pub fn find_safe_landing<F: Fn(usize, usize) -> bool>(
    width: usize,
    height: usize,
    is_passable_fn: &F,
    rng: &mut NetHackRng,
    max_tries: i32,
) -> (r: Option<(i32, i32)>)
    requires
        2 < width <= i32::MAX,
        2 < height <= i32::MAX,
        forall|x: usize, y: usize| is_passable_fn.requires((x, y)),
    ensures
        ({
            let s0 = old(rng)@;
            let tries = if max_tries > 0 { max_tries as nat } else { 0nat };
            match r {
                None => {
                    &&& final(rng)@ == rng_after(s0, 2 * tries)
                    &&& forall|k: nat| k < tries ==> is_passable_fn.ensures(
                        #[trigger] landing_try(s0, width as int, height as int, k), false)
                },
                Some((x, y)) => exists|n: nat| {
                    &&& n < tries
                    &&& (x as usize, y as usize) == #[trigger] landing_try(s0, width as int, height as int, n)
                    &&& is_passable_fn.ensures((x as usize, y as usize), true)
                    &&& final(rng)@ == rng_after(s0, 2 * n + 2)
                    &&& forall|k: nat| k < n ==> is_passable_fn.ensures(
                        #[trigger] landing_try(s0, width as int, height as int, k), false)
                },
            }
        }),
{
    let ghost s0 = rng@;
    let mut k: i32 = 0;
    while k < max_tries
        invariant
            0 <= k,
            max_tries > 0 ==> k <= max_tries,
            max_tries <= 0 ==> k == 0,
            2 < width <= i32::MAX,
            2 < height <= i32::MAX,
            s0 == old(rng)@,
            forall|x: usize, y: usize| is_passable_fn.requires((x, y)),
            rng@ == rng_after(s0, (2 * k) as nat),
            forall|j: nat| j < k ==> is_passable_fn.ensures(
                #[trigger] landing_try(s0, width as int, height as int, j), false),
        decreases max_tries - k,
    {
        let ghost n: nat = k as nat;
        proof {
            crate::rng::lemma_roll_range(rng@, width - 2);
            crate::rng::lemma_roll_range(rng_next(rng@), height - 2);
        }
        let x = rng.rn2((width - 2) as i32) as usize + 1;
        let y = rng.rn2((height - 2) as i32) as usize + 1;
        assert(rng_after(s0, 2 * n + 1) == rng_next(rng_after(s0, 2 * n)));
        assert(rng_after(s0, 2 * n + 2) == rng_next(rng_after(s0, 2 * n + 1)));
        assert((x, y) == landing_try(s0, width as int, height as int, n));
        if is_passable_fn(x, y) {
            return Some((x as i32, y as i32));
        }
        k = k + 1;
    }
    None
}

/// Whether `(x, y)` lies on a `width` by `height` map and `is_passable_fn`
/// accepts it (asked only for spots on the map).
pub fn is_valid_teleport_dest<F: Fn(i32, i32) -> bool>(
    x: i32,
    y: i32,
    width: i32,
    height: i32,
    is_passable_fn: &F,
) -> (r: bool)
    requires
        forall|a: i32, b: i32| is_passable_fn.requires((a, b)),
    ensures
        !(0 <= x < width && 0 <= y < height) ==> !r,
        0 <= x < width && 0 <= y < height ==> is_passable_fn.ensures((x, y), r),
{
    x >= 0 && y >= 0 && x < width && y < height && is_passable_fn(x, y)
}

/// The depth a level teleport reaches: with full control the wished depth
/// (else the current one) kept within `1..=max_depth`; with directional
/// control `1..=5` levels towards the wished depth (down if none is given),
/// kept likewise; without control a depth drawn from `1..=max_depth`.
pub fn level_teleport_target(
    current_depth: i32,
    max_depth: i32,
    control: TeleportControl,
    desired_depth: Option<i32>,
    rng: &mut NetHackRng,
) -> (r: i32)
    requires
        control == TeleportControl::NoControl ==> max_depth > 0,
        control == TeleportControl::Directional ==> i32::MIN + 5 <= current_depth <= i32::MAX - 5,
    ensures
        ({
            let s0 = old(rng)@;
            let keep = |t: int| if (if t > 1 { t } else { 1 }) < max_depth { if t > 1 { t } else { 1 } } else { max_depth as int };
            match control {
                TeleportControl::Full => {
                    let t = match desired_depth { Some(d) => d as int, None => current_depth as int };
                    r == keep(t) && final(rng)@ == s0
                },
                TeleportControl::Directional => {
                    let delta = rng_roll(s0, 5) + 1;
                    let wish = match desired_depth { Some(d) => d as int, None => 1int };
                    let t = if wish > current_depth { current_depth + delta } else { current_depth - delta };
                    r == keep(t) && final(rng)@ == rng_next(s0)
                },
                TeleportControl::NoControl => r == rng_roll(s0, max_depth as int) + 1 && final(rng)@ == rng_next(s0),
            }
        }),
{
    match control {
        TeleportControl::Full => {
            let target = match desired_depth {
                Some(d) => d,
                None => current_depth,
            };
            let a = if target > 1 { target } else { 1 };
            if a < max_depth { a } else { max_depth }
        },
        TeleportControl::Directional => {
            let delta = rng.rn1(5, 1);
            let wish = match desired_depth {
                Some(d) => d,
                None => 1,
            };
            let target = if wish > current_depth { current_depth + delta } else { current_depth - delta };
            let a = if target > 1 { target } else { 1 };
            if a < max_depth { a } else { max_depth }
        },
        TeleportControl::NoControl => rng.rn2(max_depth) + 1,
    }
}

/// What the hero is told on teleporting.
pub open spec fn teleport_text(cause: TeleportCause, is_level: bool) -> Seq<char> {
    if is_level {
        match cause {
            TeleportCause::Trap => "You activate a level teleport trap!"@,
            TeleportCause::Magic => "You are whisked away to another level!"@,
            TeleportCause::LevelTrap => "You are swept to another level!"@,
            _ => "You are transported to a different level!"@,
        }
    } else {
        match cause {
            TeleportCause::Trap => "A strange energy envelops you!"@,
            TeleportCause::Magic => "You teleport!"@,
            TeleportCause::Item => "Your ring of teleportation activates!"@,
            TeleportCause::Intrinsic => "You feel a sudden urge to be elsewhere!"@,
            _ => "You teleport!"@,
        }
    }
}

/// What the hero is told on teleporting.
pub fn teleport_message(cause: TeleportCause, is_level: bool) -> (r: &'static str)
    ensures
        r@ == teleport_text(cause, is_level),
{
    if is_level {
        match cause {
            TeleportCause::Trap => "You activate a level teleport trap!",
            TeleportCause::Magic => "You are whisked away to another level!",
            TeleportCause::LevelTrap => "You are swept to another level!",
            _ => "You are transported to a different level!",
        }
    } else {
        match cause {
            TeleportCause::Trap => "A strange energy envelops you!",
            TeleportCause::Magic => "You teleport!",
            TeleportCause::Item => "Your ring of teleportation activates!",
            TeleportCause::Intrinsic => "You feel a sudden urge to be elsewhere!",
            _ => "You teleport!",
        }
    }
}

/// The turns left before the hero may teleport again, five turns after the
/// last teleport.
pub fn teleport_cooldown_remaining(last_tele_turn: u64, current_turn: u64) -> (r: u64)
    requires
        last_tele_turn <= u64::MAX - 5,
    ensures
        r == (if current_turn >= last_tele_turn + 5 { 0 } else { last_tele_turn + 5 - current_turn }),
{
    let cooldown: u64 = 5;
    if current_turn >= last_tele_turn + cooldown {
        0
    } else {
        last_tele_turn + cooldown - current_turn
    }
}

/// Why a teleport failed, in the hero's words: the Amulet, a no-teleport
/// zone, a cooldown, or no reason given.
pub fn teleport_failure_message(has_amulet: bool, in_no_tele_zone: bool, on_cooldown: bool) -> (r: &'static str)
    ensures
        r@ == if has_amulet {
            "You feel a momentary shimmer, but the Amulet prevents it!"@
        } else if in_no_tele_zone {
            "A mysterious force prevents your teleportation!"@
        } else if on_cooldown {
            "You feel a shudder, but nothing happens."@
        } else {
            "Your teleport attempt fails."@
        },
{
    if has_amulet {
        "You feel a momentary shimmer, but the Amulet prevents it!"
    } else if in_no_tele_zone {
        "A mysterious force prevents your teleportation!"
    } else if on_cooldown {
        "You feel a shudder, but nothing happens."
    } else {
        "Your teleport attempt fails."
    }
}

/// The branches of the dungeon.
#[derive(Debug, Clone, Copy, PartialEq, Eq, Hash, Structural)]
pub enum DungeonBranch {
    Main,
    Mines,
    Sokoban,
    Quest,
    Gehennom,
}

/// Whether a teleport may cross from one branch to another: never with the
/// Amulet, otherwise only within one branch.
pub fn can_cross_branch_teleport(has_amulet: bool, source_branch: DungeonBranch, target_branch: DungeonBranch) -> (r: bool)
    ensures
        r == (!has_amulet && source_branch == target_branch),
{
    if has_amulet {
        return false;
    }
    source_branch == target_branch
}

/// How a teleport turned out.
pub struct TeleportResult {
    pub success: bool,
    pub new_pos: (i32, i32),
    pub message: String,
    pub level_change: bool,
}

impl TeleportResult {
    /// A teleport to `(x, y)` on the same level.
    pub fn success(x: i32, y: i32, msg: &str) -> (r: TeleportResult)
        ensures
            r.success && !r.level_change && r.new_pos == (x, y) && r.message@ == msg@,
    {
        TeleportResult { success: true, new_pos: (x, y), message: msg.to_string(), level_change: false }
    }

    /// A teleport to depth `depth`.
    pub fn level_tele(depth: i32, msg: &str) -> (r: TeleportResult)
        ensures
            r.success && r.level_change && r.new_pos == (0i32, depth) && r.message@ == msg@,
    {
        TeleportResult { success: true, new_pos: (0, depth), message: msg.to_string(), level_change: true }
    }

    /// A teleport that failed.
    pub fn failure(msg: &str) -> (r: TeleportResult)
        ensures
            !r.success && !r.level_change && r.new_pos == (0i32, 0i32) && r.message@ == msg@,
    {
        TeleportResult { success: false, new_pos: (0, 0), message: msg.to_string(), level_change: false }
    }
}

/// Whether a spot is safe to land on: inside the map away from the side
/// columns, not a wall and not occupied by a monster.
pub fn is_safe_landing(
    x: i32,
    y: i32,
    map_width: i32,
    map_height: i32,
    is_wall: bool,
    is_water: bool,
    is_lava: bool,
    occupied_by_monster: bool,
    has_trap: bool,
) -> (r: bool)
    requires
        map_width > i32::MIN,
    ensures
        r == (1 <= x < map_width - 1 && 0 <= y < map_height && !is_wall && !occupied_by_monster),
{
    if x < 1 || x >= map_width - 1 || y < 0 || y >= map_height {
        return false;
    }
    if is_wall {
        return false;
    }
    if occupied_by_monster {
        return false;
    }
    true
}

/// Whether a level forbids teleporting: the sanctum, and quest levels.
pub fn is_noteleport_zone(depth: i32, is_quest: bool, is_sanctum: bool) -> (r: bool)
    ensures
        r == (is_sanctum || (is_quest && depth > 0)),
{
    if is_sanctum {
        return true;
    }
    if is_quest && depth > 0 {
        return true;
    }
    false
}

/// A random spot away from the edge of a `map_width` by `map_height` map.
pub fn random_teleport_location(map_width: i32, map_height: i32, rng: &mut NetHackRng) -> (r: (i32, i32))
    requires
        map_width > 2,
        map_height > 2,
    ensures
        r == ((rng_roll(old(rng)@, map_width - 2) + 1) as i32,
            (rng_roll(rng_next(old(rng)@), map_height - 2) + 1) as i32),
        final(rng)@ == rng_next(rng_next(old(rng)@)),
{
    let x = rng.rn2(map_width - 2) + 1;
    let y = rng.rn2(map_height - 2) + 1;
    (x, y)
}

/// Whether a monster can teleport: it must be able to, off no-teleport
/// levels and without the Amulet.
pub fn monster_can_teleport(has_tele_ability: bool, on_noteleport_level: bool, carrying_amulet: bool) -> (r: bool)
    ensures
        r == (has_tele_ability && !on_noteleport_level && !carrying_amulet),
{
    if on_noteleport_level {
        return false;
    }
    if carrying_amulet {
        return false;
    }
    has_tele_ability
}

/// Whether a wounded monster teleports away, given how low its hit points
/// are (below a quarter, below a tenth of its maximum): never without the
/// ability; a fleeing monster below a quarter does so one time in four;
/// otherwise one below a tenth does so one time in two. Draws from `rng`
/// only in those two cases.
pub fn teleport_urge(has_tele_ability: bool, is_fleeing: bool, below_quarter: bool, below_tenth: bool,
    rng: &mut NetHackRng) -> (r: bool)
    ensures
        !has_tele_ability ==> !r && final(rng)@ == old(rng)@,
        has_tele_ability && is_fleeing && below_quarter ==> r == (rng_roll(old(rng)@, 4) == 0)
            && final(rng)@ == rng_next(old(rng)@),
        has_tele_ability && !(is_fleeing && below_quarter) && below_tenth ==> r == (rng_roll(old(rng)@, 2) == 0)
            && final(rng)@ == rng_next(old(rng)@),
        has_tele_ability && !(is_fleeing && below_quarter) && !below_tenth ==> !r && final(rng)@ == old(rng)@,
{
    if !has_tele_ability {
        return false;
    }
    if is_fleeing && below_quarter {
        return rng.rn2(4) == 0;
    }
    if below_tenth {
        return rng.rn2(2) == 0;
    }
    false
}

/// How a teleport is resisted.
#[derive(Debug, Clone, Copy, PartialEq, Eq, Structural)]
pub enum TeleResistResult {
    NoResist,
    PartialResist,
    FullResist,
}

/// Whether a creature resists being teleported: fully with teleport
/// resistance; with magic resistance a draw from `0..100` under it resists
/// fully and under twice it partly; otherwise not at all.
pub fn check_teleport_resist(has_tele_resist: bool, magic_resistance: i32, rng: &mut NetHackRng) -> (r: TeleResistResult)
    requires
        magic_resistance <= i32::MAX / 2,
    ensures
        has_tele_resist ==> r == TeleResistResult::FullResist && final(rng)@ == old(rng)@,
        !has_tele_resist && magic_resistance <= 0 ==> r == TeleResistResult::NoResist && final(rng)@ == old(rng)@,
        !has_tele_resist && magic_resistance > 0 ==> {
            let roll = rng_roll(old(rng)@, 100);
            &&& final(rng)@ == rng_next(old(rng)@)
            &&& r == if roll < magic_resistance {
                TeleResistResult::FullResist
            } else if roll < magic_resistance * 2 {
                TeleResistResult::PartialResist
            } else {
                TeleResistResult::NoResist
            }
        },
{
    if has_tele_resist {
        return TeleResistResult::FullResist;
    }
    if magic_resistance > 0 {
        let roll = rng.rn2(100);
        if roll < magic_resistance {
            return TeleResistResult::FullResist;
        }
        if roll < magic_resistance * 2 {
            return TeleResistResult::PartialResist;
        }
    }
    TeleResistResult::NoResist
}

/// What a teleport trap does.
#[derive(Debug, Clone, Copy, PartialEq, Eq, Structural)]
pub enum TeleTrapType {
    RandomSameLevel,
    LevelTeleport,
    ControlledTeleport,
}

/// What a teleport trap does: with teleport control the hero chooses;
/// otherwise a level teleporter moves between levels and any other
/// teleporter within the level. The random stream is not drawn from.
pub fn teleport_trap_effect(is_level_tele_trap: bool, has_tele_control: bool, rng: &mut NetHackRng) -> (r: TeleTrapType)
    ensures
        r == if has_tele_control {
            TeleTrapType::ControlledTeleport
        } else if is_level_tele_trap {
            TeleTrapType::LevelTeleport
        } else {
            TeleTrapType::RandomSameLevel
        },
        final(rng)@ == old(rng)@,
{
    if is_level_tele_trap {
        if has_tele_control {
            return TeleTrapType::ControlledTeleport;
        }
        return TeleTrapType::LevelTeleport;
    }
    if has_tele_control {
        TeleTrapType::ControlledTeleport
    } else {
        TeleTrapType::RandomSameLevel
    }
}

/// A spot near `(x, y)`: each coordinate moved by a draw from
/// `-max_distance..=max_distance`.
pub fn short_teleport_range(x: i32, y: i32, max_distance: i32, rng: &mut NetHackRng) -> (r: (i32, i32))
    requires
        0 <= max_distance <= (i32::MAX - 1) / 2,
        i32::MIN + max_distance <= x <= i32::MAX - max_distance,
        i32::MIN + max_distance <= y <= i32::MAX - max_distance,
    ensures
        r == ((x + rng_roll(old(rng)@, max_distance * 2 + 1) - max_distance) as i32,
            (y + rng_roll(rng_next(old(rng)@), max_distance * 2 + 1) - max_distance) as i32),
        final(rng)@ == rng_next(rng_next(old(rng)@)),
{
    proof {
        crate::rng::lemma_roll_range(rng@, max_distance * 2 + 1);
        crate::rng::lemma_roll_range(rng_next(rng@), max_distance * 2 + 1);
    }
    let dx = rng.rn2(max_distance * 2 + 1) - max_distance;
    let dy = rng.rn2(max_distance * 2 + 1) - max_distance;
    (x + dx, y + dy)
}

/// Whether a teleport made on `last_tele_turn` still cools down on
/// `current_turn`.
pub fn teleport_on_cooldown(last_tele_turn: u64, current_turn: u64, cooldown: u64) -> (r: bool)
    requires
        last_tele_turn + cooldown <= u64::MAX,
    ensures
        r == (current_turn < last_tele_turn + cooldown),
{
    current_turn < last_tele_turn + cooldown
}

/// What the hero feels when a teleport trap springs.
pub fn teleport_trap_message(tele_type: TeleTrapType, controlled: bool) -> (r: &'static str)
    ensures
        r@ == match tele_type {
            TeleTrapType::RandomSameLevel => "You feel disoriented..."@,
            TeleTrapType::LevelTeleport => "You feel yourself yanked upward!"@,
            TeleTrapType::ControlledTeleport => if controlled {
                "You concentrate and teleport!"@
            } else {
                "You feel in control of your destination."@
            },
        },
{
    match tele_type {
        TeleTrapType::RandomSameLevel => "You feel disoriented...",
        TeleTrapType::LevelTeleport => "You feel yourself yanked upward!",
        TeleTrapType::ControlledTeleport => {
            if controlled {
                "You concentrate and teleport!"
            } else {
                "You feel in control of your destination."
            }
        },
    }
}

/// Counts of teleports.
#[derive(Debug, Clone)]
pub struct TeleportStatistics {
    pub times_teleported: u32,
    pub controlled_teleports: u32,
    pub level_teleports: u32,
    pub teleport_traps_triggered: u32,
    pub teleport_resisted: u32,
}

impl TeleportStatistics {
    /// All counts at zero.
    pub fn new() -> (s: TeleportStatistics)
        ensures
            s.times_teleported == 0 && s.controlled_teleports == 0 && s.level_teleports == 0,
            s.teleport_traps_triggered == 0 && s.teleport_resisted == 0,
    {
        TeleportStatistics {
            times_teleported: 0,
            controlled_teleports: 0,
            level_teleports: 0,
            teleport_traps_triggered: 0,
            teleport_resisted: 0,
        }
    }

    /// Counts a teleport, controlled or between levels.
    pub fn record_teleport(&mut self, controlled: bool, level_tele: bool)
        requires
            old(self).times_teleported < u32::MAX,
            old(self).controlled_teleports < u32::MAX,
            old(self).level_teleports < u32::MAX,
        ensures
            *final(self) == (TeleportStatistics {
                times_teleported: (old(self).times_teleported + 1) as u32,
                controlled_teleports: (old(self).controlled_teleports + if controlled { 1int } else { 0int }) as u32,
                level_teleports: (old(self).level_teleports + if level_tele { 1int } else { 0int }) as u32,
                ..*old(self)
            }),
    {
        self.times_teleported = self.times_teleported + 1;
        if controlled {
            self.controlled_teleports = self.controlled_teleports + 1;
        }
        if level_tele {
            self.level_teleports = self.level_teleports + 1;
        }
    }

    /// Counts a teleport trap sprung.
    pub fn record_trap(&mut self)
        requires
            old(self).teleport_traps_triggered < u32::MAX,
        ensures
            *final(self) == (TeleportStatistics {
                teleport_traps_triggered: (old(self).teleport_traps_triggered + 1) as u32,
                ..*old(self)
            }),
    {
        self.teleport_traps_triggered = self.teleport_traps_triggered + 1;
    }

    /// Counts a resisted teleport.
    pub fn record_resist(&mut self)
        requires
            old(self).teleport_resisted < u32::MAX,
        ensures
            *final(self) == (TeleportStatistics { teleport_resisted: (old(self).teleport_resisted + 1) as u32, ..*old(self) }),
    {
        self.teleport_resisted = self.teleport_resisted + 1;
    }
}

} // verus!
