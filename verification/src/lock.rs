//! Locks on doors and boxes: picking, locking, kicking and forcing them,
//! with what each attempt writes to the message log.
use vstd::prelude::*;
use crate::rng::{NetHackRng, rng_roll, rng_next};
use crate::num::clamp;
use crate::text::{has_sub, str_contains, concat2, concat3};
use crate::game_log::{GameLog, after_add, DEFAULT_COLOR};
use crate::tile::TileType;

verus! {

/// What is used on a lock.
#[derive(Debug, Clone, Copy, PartialEq, Eq, Structural)]
pub enum LockTool {
    Key,
    LockPick,
    CreditCard,
    WandKnock,
    SpellKnock,
    Force,
}

/// What the lock is on.
#[derive(Debug, Clone, Copy, PartialEq, Eq, Structural)]
pub enum LockTarget {
    Door,
    Chest,
    LargeBox,
}

/// The outcome of working a lock.
#[derive(Debug, Clone)]
pub struct LockResult {
    pub success: bool,
    pub message: String,
    pub door_state: Option<DoorState>,
    pub tool_broke: bool,
    pub turns_used: i32,
    pub trapped: bool,
}

/// The state of a door.
#[derive(Debug, Clone, Copy, PartialEq, Eq, Structural)]
pub enum DoorState {
    Open,
    Closed,
    Locked,
    Broken,
}

/// `r` has the given fields.
pub open spec fn lock_is(r: LockResult, success: bool, message: Seq<char>, door: Option<DoorState>, broke: bool, turns: int, trapped: bool) -> bool {
    &&& r.success == success
    &&& r.message@ == message
    &&& r.door_state == door
    &&& r.tool_broke == broke
    &&& r.turns_used == turns
    &&& r.trapped == trapped
}

/// The log `after` is `before` with one more message `text` in `color` on `turn`.
pub open spec fn logged(before: GameLog, after: GameLog, text: Seq<char>, color: [u8; 3], turn: u64) -> bool {
    &&& after.wf()
    &&& after.cap() == before.cap()
    &&& after.messages() == after_add(before.messages(), (text, color, turn), before.cap())
}

/// The colour of a trap going off.
pub const TRAP_COLOR: [u8; 3] = [255, 0, 0];
/// The colour of a trap going off under a boot or an explosion.
pub const BLAST_COLOR: [u8; 3] = [255, 100, 0];

impl LockResult {
    /// A failure taking one turn.
    pub fn fail(msg: &str) -> (r: Self)
        ensures
            lock_is(r, false, msg@, None, false, 1, false),
    {
        LockResult { success: false, message: msg.to_string(), door_state: None, tool_broke: false, turns_used: 1, trapped: false }
    }

    /// A success leaving the door in `state` after `turns` turns.
    pub fn ok(msg: &str, state: DoorState, turns: i32) -> (r: Self)
        ensures
            lock_is(r, true, msg@, Some(state), false, turns as int, false),
    {
        LockResult {
            success: true,
            message: msg.to_string(),
            door_state: Some(state),
            tool_broke: false,
            turns_used: turns,
            trapped: false,
        }
    }
}

/// The base chance in a hundred of opening a door lock with `tool`.
pub open spec fn door_base(tool: LockTool) -> int {
    match tool {
        LockTool::Key => 80,
        LockTool::LockPick => 60,
        LockTool::CreditCard => 40,
        _ => 20,
    }
}

/// The unlocking part of picking a lock from the state `s`: the chance is
/// `base` plus three per point of dexterity over 10, kept in `5..=95`; a
/// failed credit card breaks one time in five.
pub open spec fn unlock_outcome(tool: LockTool, base: int, dex: int, s: u64, r: LockResult, ok_msg: Seq<char>,
    ok_log: Seq<char>, fail_log: Seq<char>, door: bool, before: GameLog, after: GameLog, turn: u64, s_end: u64) -> bool {
    let chance = clamp(base + (dex - 10) * 3, 5, 95);
    if rng_roll(s, 100) < chance {
        &&& lock_is(r, true, ok_msg, if door { Some(DoorState::Closed) } else { None }, false, 1, false)
        &&& logged(before, after, ok_log, DEFAULT_COLOR, turn)
        &&& s_end == rng_next(s)
    } else {
        let broke = tool == LockTool::CreditCard && rng_roll(rng_next(s), 5) == 0;
        &&& lock_is(r, false, "Failed."@, if door { Some(DoorState::Locked) } else { None }, broke, 1, false)
        &&& logged(before, after, if broke { "Your credit card breaks in two!"@ } else { fail_log }, DEFAULT_COLOR, turn)
        &&& s_end == (if tool == LockTool::CreditCard { rng_next(rng_next(s)) } else { rng_next(s) })
    }
}

fn try_unlock(tool: LockTool, base: i32, player_dex: i32, ok_msg: &str, ok_log: &str, fail_log: &str, door: bool,
    rng: &mut NetHackRng, log: &mut GameLog, turn: u64) -> (r: LockResult)
    requires
        old(log).wf(),
        0 <= base <= 100,
        i32::MIN + 10 <= player_dex,
        i32::MIN <= (player_dex - 10) * 3 <= i32::MAX - 100,
    ensures
        unlock_outcome(tool, base as int, player_dex as int, old(rng)@, r, ok_msg@, ok_log@, fail_log@, door,
            *old(log), *final(log), turn, final(rng)@),
{
    let raw = base + (player_dex - 10) * 3;
    let chance = if raw < 5 { 5 } else if raw > 95 { 95 } else { raw };
    if rng.rn2(100) < chance {
        log.add(ok_log, turn);
        LockResult {
            success: true,
            message: ok_msg.to_string(),
            door_state: if door { Some(DoorState::Closed) } else { None },
            tool_broke: false,
            turns_used: 1,
            trapped: false,
        }
    } else {
        let broke = tool == LockTool::CreditCard && rng.rn2(5) == 0;
        if broke {
            log.add("Your credit card breaks in two!", turn);
        } else {
            log.add(fail_log, turn);
        }
        LockResult {
            success: false,
            message: "Failed.".to_string(),
            door_state: if door { Some(DoorState::Locked) } else { None },
            tool_broke: broke,
            turns_used: 1,
            trapped: false,
        }
    }
}

/// Picks the lock of a door.
///
/// A knock spell or wand always works: it disarms a trapped door (leaving
/// it closed) or unlocks it. Otherwise a trapped door goes off one time in
/// fifteen. Else the lock opens when a draw from `0..100` falls under the
/// tool's chance (key 80, lock pick 60, credit card 40, else 20, plus three
/// per point of dexterity over 10, kept in `5..=95`); a credit card that
/// fails breaks one time in five.
pub fn pick_lock_door(
    tool: LockTool,
    player_dex: i32,
    door_trapped: bool,
    rng: &mut NetHackRng,
    log: &mut GameLog,
    turn: u64,
) -> (r: LockResult)
    requires
        old(log).wf(),
        i32::MIN + 10 <= player_dex,
        i32::MIN <= (player_dex - 10) * 3 <= i32::MAX - 100,
    ensures
        ({
            let s0 = old(rng)@;
            if tool == LockTool::WandKnock || tool == LockTool::SpellKnock {
                &&& final(rng)@ == s0
                &&& if door_trapped {
                    &&& lock_is(r, true, "Trap disarmed."@, Some(DoorState::Closed), false, 1, false)
                    &&& logged(*old(log), *final(log), "You hear a click."@, DEFAULT_COLOR, turn)
                } else {
                    &&& lock_is(r, true, "Door unlocked."@, Some(DoorState::Closed), false, 1, false)
                    &&& logged(*old(log), *final(log), "The door unlocks!"@, DEFAULT_COLOR, turn)
                }
            } else if door_trapped && rng_roll(s0, 15) == 0 {
                &&& lock_is(r, false, "Trap triggered!"@, Some(DoorState::Locked), false, 1, true)
                &&& logged(*old(log), *final(log), "CLICK! You trigger a trap!"@, TRAP_COLOR, turn)
                &&& final(rng)@ == rng_next(s0)
            } else {
                unlock_outcome(tool, door_base(tool), player_dex as int, if door_trapped { rng_next(s0) } else { s0 },
                    r, "Door unlocked."@, "You succeed in unlocking the door."@, "You fail to unlock the door."@, true,
                    *old(log), *final(log), turn, final(rng)@)
            }
        }),
{
    if tool == LockTool::WandKnock || tool == LockTool::SpellKnock {
        if door_trapped {
            log.add("You hear a click.", turn);
            return LockResult {
                success: true,
                message: "Trap disarmed.".to_string(),
                door_state: Some(DoorState::Closed),
                tool_broke: false,
                turns_used: 1,
                trapped: false,
            };
        }
        log.add("The door unlocks!", turn);
        return LockResult::ok("Door unlocked.", DoorState::Closed, 1);
    }
    if door_trapped && rng.rn2(15) == 0 {
        log.add_colored("CLICK! You trigger a trap!", TRAP_COLOR, turn);
        return LockResult {
            success: false,
            message: "Trap triggered!".to_string(),
            door_state: Some(DoorState::Locked),
            tool_broke: false,
            turns_used: 1,
            trapped: true,
        };
    }
    let base_chance = match tool {
        LockTool::Key => 80,
        LockTool::LockPick => 60,
        LockTool::CreditCard => 40,
        _ => 20,
    };
    try_unlock(tool, base_chance, player_dex, "Door unlocked.", "You succeed in unlocking the door.",
        "You fail to unlock the door.", true, rng, log, turn)
}

/// Locks a door: only a key or a lock pick will do (no draw otherwise); it
/// works when a draw from `0..100` falls under 70 plus three per point of
/// dexterity over 10, kept in `10..=95`.
pub fn lock_door(tool: LockTool, player_dex: i32, rng: &mut NetHackRng, log: &mut GameLog, turn: u64) -> (r: LockResult)
    requires
        old(log).wf(),
        i32::MIN + 10 <= player_dex,
        i32::MIN <= (player_dex - 10) * 3 <= i32::MAX - 70,
    ensures
        tool != LockTool::Key && tool != LockTool::LockPick ==> {
            &&& lock_is(r, false, "You can't lock a door with that."@, None, false, 1, false)
            &&& logged(*old(log), *final(log), "You can't lock a door with that."@, DEFAULT_COLOR, turn)
            &&& final(rng)@ == old(rng)@
        },
        tool == LockTool::Key || tool == LockTool::LockPick ==> {
            &&& final(rng)@ == rng_next(old(rng)@)
            &&& if rng_roll(old(rng)@, 100) < clamp(70 + (player_dex - 10) * 3, 10, 95) {
                &&& lock_is(r, true, "Door locked."@, Some(DoorState::Locked), false, 1, false)
                &&& logged(*old(log), *final(log), "You lock the door."@, DEFAULT_COLOR, turn)
            } else {
                &&& lock_is(r, false, "Failed to lock."@, None, false, 1, false)
                &&& logged(*old(log), *final(log), "You fail to lock the door."@, DEFAULT_COLOR, turn)
            }
        },
{
    if tool != LockTool::Key && tool != LockTool::LockPick {
        let msg = "You can't lock a door with that.";
        log.add(msg, turn);
        return LockResult::fail(msg);
    }
    let raw = 70 + (player_dex - 10) * 3;
    let chance = if raw < 10 { 10 } else if raw > 95 { 95 } else { raw };
    if rng.rn2(100) < chance {
        log.add("You lock the door.", turn);
        LockResult::ok("Door locked.", DoorState::Locked, 1)
    } else {
        log.add("You fail to lock the door.", turn);
        LockResult::fail("Failed to lock.")
    }
}

/// The name of what a lock is on.
pub open spec fn target_text(target: LockTarget) -> Seq<char> {
    match target {
        LockTarget::Chest => "chest"@,
        LockTarget::LargeBox => "large box"@,
        LockTarget::Door => "door"@,
    }
}

/// The base chance in a hundred of opening a box lock with `tool`.
pub open spec fn box_base(tool: LockTool) -> int {
    match tool {
        LockTool::Key => 85,
        LockTool::LockPick => 65,
        LockTool::CreditCard => 45,
        _ => 25,
    }
}

/// Picks the lock of a box or chest, as `pick_lock_door` does with its own
/// chances (key 85, lock pick 65, credit card 45, else 25) and messages
/// naming the target; a trapped box shoots a needle one time in ten. No
/// door state is reported.
pub fn pick_lock_container(
    tool: LockTool,
    target: LockTarget,
    container_trapped: bool,
    player_dex: i32,
    rng: &mut NetHackRng,
    log: &mut GameLog,
    turn: u64,
) -> (r: LockResult)
    requires
        old(log).wf(),
        i32::MIN + 10 <= player_dex,
        i32::MIN <= (player_dex - 10) * 3 <= i32::MAX - 100,
    ensures
        ({
            let s0 = old(rng)@;
            let name = target_text(target);
            if tool == LockTool::WandKnock || tool == LockTool::SpellKnock {
                &&& final(rng)@ == s0
                &&& if container_trapped {
                    &&& lock_is(r, true, "Trap disarmed."@, None, false, 1, false)
                    &&& logged(*old(log), *final(log), "You hear a click from the "@ + name + "."@, DEFAULT_COLOR, turn)
                } else {
                    &&& lock_is(r, true, name + " unlocked."@, None, false, 1, false)
                    &&& logged(*old(log), *final(log), "The "@ + name + " unlocks!"@, DEFAULT_COLOR, turn)
                }
            } else if container_trapped && rng_roll(s0, 10) == 0 {
                &&& lock_is(r, false, "Poison needle!"@, None, false, 1, true)
                &&& logged(*old(log), *final(log), "CLICK! A needle shoots out from the "@ + name + "!"@, TRAP_COLOR, turn)
                &&& final(rng)@ == rng_next(s0)
            } else {
                unlock_outcome(tool, box_base(tool), player_dex as int, if container_trapped { rng_next(s0) } else { s0 },
                    r, name + " unlocked."@, "You succeed in unlocking the "@ + name + "."@,
                    "You fail to unlock the "@ + name + "."@, false, *old(log), *final(log), turn, final(rng)@)
            }
        }),
{
    let target_name = match target {
        LockTarget::Chest => "chest",
        LockTarget::LargeBox => "large box",
        LockTarget::Door => "door",
    };
    if tool == LockTool::WandKnock || tool == LockTool::SpellKnock {
        if container_trapped {
            let m = concat3("You hear a click from the ", target_name, ".");
            log.add(m.as_str(), turn);
            return LockResult {
                success: true,
                message: "Trap disarmed.".to_string(),
                door_state: None,
                tool_broke: false,
                turns_used: 1,
                trapped: false,
            };
        }
        let m = concat3("The ", target_name, " unlocks!");
        log.add(m.as_str(), turn);
        return LockResult {
            success: true,
            message: concat2(target_name, " unlocked."),
            door_state: None,
            tool_broke: false,
            turns_used: 1,
            trapped: false,
        };
    }
    if container_trapped && rng.rn2(10) == 0 {
        let m = concat3("CLICK! A needle shoots out from the ", target_name, "!");
        log.add_colored(m.as_str(), TRAP_COLOR, turn);
        return LockResult {
            success: false,
            message: "Poison needle!".to_string(),
            door_state: None,
            tool_broke: false,
            turns_used: 1,
            trapped: true,
        };
    }
    let base = match tool {
        LockTool::Key => 85,
        LockTool::LockPick => 65,
        LockTool::CreditCard => 45,
        _ => 25,
    };
    let ok_msg = concat2(target_name, " unlocked.");
    let ok_log = concat3("You succeed in unlocking the ", target_name, ".");
    let fail_log = concat3("You fail to unlock the ", target_name, ".");
    try_unlock(tool, base, player_dex, ok_msg.as_str(), ok_log.as_str(), fail_log.as_str(), false, rng, log, turn)
}

/// Kicks a door: a trapped door goes off one time in five. Otherwise it
/// gives way when three times strength plus dexterity plus a draw from
/// `0..20` exceeds 50, crashing open (broken) one time in three and
/// swinging open otherwise.
pub fn kick_door(
    player_str: i32,
    player_dex: i32,
    door_trapped: bool,
    rng: &mut NetHackRng,
    log: &mut GameLog,
    turn: u64,
) -> (r: LockResult)
    requires
        old(log).wf(),
        i32::MIN <= player_str * 3,
        i32::MIN <= player_str * 3 + player_dex,
        player_str * 3 + player_dex <= i32::MAX - 20,
        player_str * 3 <= i32::MAX,
    ensures
        ({
            let s0 = old(rng)@;
            if door_trapped && rng_roll(s0, 5) == 0 {
                &&& lock_is(r, false, "Trap triggered."@, Some(DoorState::Locked), false, 1, true)
                &&& logged(*old(log), *final(log), "The door was trapped!"@, BLAST_COLOR, turn)
                &&& final(rng)@ == rng_next(s0)
            } else {
                let s1 = if door_trapped { rng_next(s0) } else { s0 };
                if player_str * 3 + player_dex + rng_roll(s1, 20) > 50 {
                    &&& final(rng)@ == rng_next(rng_next(s1))
                    &&& if rng_roll(rng_next(s1), 3) == 0 {
                        &&& lock_is(r, true, "Door broken open."@, Some(DoorState::Broken), false, 1, false)
                        &&& logged(*old(log), *final(log), "The door crashes open!"@, DEFAULT_COLOR, turn)
                    } else {
                        &&& lock_is(r, true, "Door opened."@, Some(DoorState::Open), false, 1, false)
                        &&& logged(*old(log), *final(log), "The door swings open."@, DEFAULT_COLOR, turn)
                    }
                } else {
                    &&& lock_is(r, false, "Door resists."@, None, false, 1, false)
                    &&& logged(*old(log), *final(log), "The door resists!"@, DEFAULT_COLOR, turn)
                    &&& final(rng)@ == rng_next(s1)
                }
            }
        }),
{
    if door_trapped && rng.rn2(5) == 0 {
        log.add_colored("The door was trapped!", BLAST_COLOR, turn);
        return LockResult {
            success: false,
            message: "Trap triggered.".to_string(),
            door_state: Some(DoorState::Locked),
            tool_broke: false,
            turns_used: 1,
            trapped: true,
        };
    }
    let chance = player_str * 3 + player_dex + rng.rn2(20);
    if chance > 50 {
        if rng.rn2(3) == 0 {
            log.add("The door crashes open!", turn);
            LockResult::ok("Door broken open.", DoorState::Broken, 1)
        } else {
            log.add("The door swings open.", turn);
            LockResult::ok("Door opened.", DoorState::Open, 1)
        }
    } else {
        log.add("The door resists!", turn);
        LockResult::fail("Door resists.")
    }
}

/// The bonus a weapon gives to forcing a lock: 20 for axes and mattocks, 10
/// for swords and maces, else none.
pub open spec fn force_bonus(weapon: Seq<char>) -> int {
    if has_sub(weapon, "axe"@) || has_sub(weapon, "mattock"@) {
        20
    } else if has_sub(weapon, "sword"@) || has_sub(weapon, "mace"@) {
        10
    } else {
        0
    }
}

/// Forces the lock of a box: a trapped box explodes one time in eight;
/// otherwise the lock gives way (taking two turns) when twice strength plus
/// the weapon bonus plus a draw from `0..20` exceeds 40.
pub fn force_container(
    player_str: i32,
    weapon_type: &str,
    container_trapped: bool,
    rng: &mut NetHackRng,
    log: &mut GameLog,
    turn: u64,
) -> (r: LockResult)
    requires
        old(log).wf(),
        i32::MIN + 20 <= player_str * 2 <= i32::MAX - 40,
    ensures
        ({
            let s0 = old(rng)@;
            if container_trapped && rng_roll(s0, 8) == 0 {
                &&& lock_is(r, false, "Explosion!"@, None, false, 1, true)
                &&& logged(*old(log), *final(log), "KABOOM! The box explodes!"@, BLAST_COLOR, turn)
                &&& final(rng)@ == rng_next(s0)
            } else {
                let s1 = if container_trapped { rng_next(s0) } else { s0 };
                &&& final(rng)@ == rng_next(s1)
                &&& if player_str * 2 + force_bonus(weapon_type@) + rng_roll(s1, 20) > 40 {
                    &&& lock_is(r, true, "Forced open."@, None, false, 2, false)
                    &&& logged(*old(log), *final(log), "You succeed in forcing the lock open."@, DEFAULT_COLOR, turn)
                } else {
                    &&& lock_is(r, false, "Failed to force."@, None, false, 1, false)
                    &&& logged(*old(log), *final(log), "You fail to force the lock."@, DEFAULT_COLOR, turn)
                }
            }
        }),
{
    if container_trapped && rng.rn2(8) == 0 {
        log.add_colored("KABOOM! The box explodes!", BLAST_COLOR, turn);
        return LockResult {
            success: false,
            message: "Explosion!".to_string(),
            door_state: None,
            tool_broke: false,
            turns_used: 1,
            trapped: true,
        };
    }
    let weapon_bonus = if str_contains(weapon_type, "axe") || str_contains(weapon_type, "mattock") {
        20
    } else if str_contains(weapon_type, "sword") || str_contains(weapon_type, "mace") {
        10
    } else {
        0
    };
    let chance = player_str * 2 + weapon_bonus + rng.rn2(20);
    if chance > 40 {
        log.add("You succeed in forcing the lock open.", turn);
        LockResult {
            success: true,
            message: "Forced open.".to_string(),
            door_state: None,
            tool_broke: false,
            turns_used: 2,
            trapped: false,
        }
    } else {
        log.add("You fail to force the lock.", turn);
        LockResult::fail("Failed to force.")
    }
}

/// A square holds a locked door.
pub fn is_locked_door(tile: TileType, locked: bool) -> (r: bool)
    ensures
        r == (tile == TileType::Door && locked),
{
    tile == TileType::Door && locked
}

/// A square holds a closed door.
pub fn is_closed_door(tile: TileType) -> (r: bool)
    ensures
        r == (tile == TileType::Door),
{
    tile == TileType::Door
}

/// Opens the door on a square: an unlocked closed door becomes an open one;
/// a locked door stays shut; anything else is no door to open.
pub fn open_door(tile: TileType, locked: bool, log: &mut GameLog, turn: u64) -> (r: Option<TileType>)
    requires
        old(log).wf(),
    ensures
        tile == TileType::Door && !locked ==> r == Some(TileType::OpenDoor)
            && logged(*old(log), *final(log), "The door opens."@, DEFAULT_COLOR, turn),
        tile == TileType::Door && locked ==> r.is_none()
            && logged(*old(log), *final(log), "This door is locked."@, DEFAULT_COLOR, turn),
        tile != TileType::Door ==> r.is_none() && *final(log) == *old(log),
{
    if tile == TileType::Door && !locked {
        log.add("The door opens.", turn);
        Some(TileType::OpenDoor)
    } else if tile == TileType::Door && locked {
        log.add("This door is locked.", turn);
        None
    } else {
        None
    }
}

/// Closes the door on a square: an open door becomes a closed one.
pub fn close_door(tile: TileType, log: &mut GameLog, turn: u64) -> (r: Option<TileType>)
    requires
        old(log).wf(),
    ensures
        tile == TileType::OpenDoor ==> r == Some(TileType::Door)
            && logged(*old(log), *final(log), "The door closes."@, DEFAULT_COLOR, turn),
        tile != TileType::OpenDoor ==> r.is_none()
            && logged(*old(log), *final(log), "There is no open door here."@, DEFAULT_COLOR, turn),
{
    if tile == TileType::OpenDoor {
        log.add("The door closes.", turn);
        Some(TileType::Door)
    } else {
        log.add("There is no open door here.", turn);
        None
    }
}

} // verus!
