//! Doors: opening, picking, kicking and finding secret doors.
use vstd::prelude::*;
use crate::rng::{NetHackRng, rng_roll, rng_next};

verus! {

/// The state of a door.
#[derive(Debug, Clone, Copy, PartialEq, Eq, Structural)]
pub enum DoorState {
    Open,
    Closed,
    Locked,
    Broken,
    Secret,
}

/// The outcome of working a door.
#[derive(Debug, Clone, PartialEq, Eq)]
pub enum DoorActionResult {
    Success(DoorState),
    Failed(String),
    Jammed,
    AlreadyInState,
}

/// Opens a door: a closed door opens; a locked one and a secret one fail
/// with a message; an open or broken one is already so.
pub fn open_door(current: DoorState) -> (r: DoorActionResult)
    ensures
        current == DoorState::Closed ==> r == DoorActionResult::Success(DoorState::Open),
        current == DoorState::Locked ==> (r matches DoorActionResult::Failed(m) && m@ == "문이 잠겨 있다."@),
        current == DoorState::Secret ==> (r matches DoorActionResult::Failed(m) && m@ == "문이 보이지 않는다."@),
        current == DoorState::Open || current == DoorState::Broken ==> r == DoorActionResult::AlreadyInState,
{
    match current {
        DoorState::Closed => DoorActionResult::Success(DoorState::Open),
        DoorState::Locked => DoorActionResult::Failed("문이 잠겨 있다.".to_string()),
        DoorState::Open => DoorActionResult::AlreadyInState,
        DoorState::Broken => DoorActionResult::AlreadyInState,
        DoorState::Secret => DoorActionResult::Failed("문이 보이지 않는다.".to_string()),
    }
}

/// Picks the lock of a locked door: it opens to closed when a draw from
/// `0..100` falls under `30 + 3 * dex`, else the pick jams. Any other door
/// is already unlocked and no draw is made.
pub fn pick_lock(current: DoorState, dex: i32, rng: &mut NetHackRng) -> (r: DoorActionResult)
    requires
        i32::MIN <= 3 * dex <= i32::MAX - 30,
    ensures
        current != DoorState::Locked ==> r == DoorActionResult::AlreadyInState && final(rng)@ == old(rng)@,
        current == DoorState::Locked ==> {
            &&& final(rng)@ == rng_next(old(rng)@)
            &&& r == (if rng_roll(old(rng)@, 100) < 30 + 3 * dex {
                DoorActionResult::Success(DoorState::Closed)
            } else {
                DoorActionResult::Jammed
            })
        },
{
    if current != DoorState::Locked {
        return DoorActionResult::AlreadyInState;
    }
    let chance = 30 + dex * 3;
    if rng.rn2(100) < chance {
        DoorActionResult::Success(DoorState::Closed)
    } else {
        DoorActionResult::Jammed
    }
}

/// Kicks a door: a closed or locked door breaks when a draw from `0..100`
/// falls under `20 + 4 * str_stat`, else it holds; an open or broken door
/// is already so; a secret door is only wall.
pub fn kick_door(current: DoorState, str_stat: i32, rng: &mut NetHackRng) -> (r: DoorActionResult)
    requires
        i32::MIN <= 4 * str_stat <= i32::MAX - 20,
    ensures
        current == DoorState::Open || current == DoorState::Broken
            ==> r == DoorActionResult::AlreadyInState && final(rng)@ == old(rng)@,
        current == DoorState::Secret
            ==> (r matches DoorActionResult::Failed(m) && m@ == "벽밖에 없다..."@) && final(rng)@ == old(rng)@,
        current == DoorState::Locked || current == DoorState::Closed ==> {
            &&& final(rng)@ == rng_next(old(rng)@)
            &&& if rng_roll(old(rng)@, 100) < 20 + 4 * str_stat {
                r == DoorActionResult::Success(DoorState::Broken)
            } else {
                r matches DoorActionResult::Failed(m) && m@ == "문이 꿈쩍도 하지 않는다."@
            }
        },
{
    match current {
        DoorState::Open | DoorState::Broken => DoorActionResult::AlreadyInState,
        DoorState::Locked | DoorState::Closed => {
            let chance = 20 + str_stat * 4;
            if rng.rn2(100) < chance {
                DoorActionResult::Success(DoorState::Broken)
            } else {
                DoorActionResult::Failed("문이 꿈쩍도 하지 않는다.".to_string())
            }
        },
        DoorState::Secret => DoorActionResult::Failed("벽밖에 없다...".to_string()),
    }
}

/// Searches for a secret door: found when a draw from `0..100` falls under
/// `10 + 2 * perception`.
pub fn search_secret(perception: i32, rng: &mut NetHackRng) -> (r: bool)
    requires
        i32::MIN <= 2 * perception <= i32::MAX - 10,
    ensures
        r == (rng_roll(old(rng)@, 100) < 10 + 2 * perception),
        final(rng)@ == rng_next(old(rng)@),
{
    let chance = 10 + perception * 2;
    rng.rn2(100) < chance
}

} // verus!
