//! Working locks over several turns: what the action is called, the
//! chances of picking, one turn of picking or forcing, which weapons can
//! force a lock, opening and closing doors, and knock and wizard lock.
use vstd::prelude::*;
use crate::rng::{NetHackRng, rng_roll, rng_next};
use crate::text::{has_sub, lowercase, str_to_lowercase, str_contains, str_eq};

verus! {

/// A tool for picking locks.
#[derive(Debug, Clone, Copy, PartialEq, Eq, Structural)]
pub enum PickType {
    LockPick,
    CreditCard,
    SkeletonKey,
}

/// What a lock is on.
#[derive(Debug, Clone, Copy, PartialEq, Eq, Structural)]
pub enum LockTarget {
    Door,
    Chest,
    LargeBox,
}

/// The state of a doorway.
#[derive(Debug, Clone, Copy, PartialEq, Eq, Structural)]
pub enum DoorMask {
    NoDoor,
    Open,
    Closed,
    Locked,
    Broken,
}

/// What the hero is doing to a lock.
pub open spec fn action_text(target: LockTarget, is_currently_locked: bool, pick_type: PickType) -> Seq<char> {
    if !is_currently_locked {
        match target {
            LockTarget::Door => "locking the door"@,
            LockTarget::Chest => "locking the chest"@,
            LockTarget::LargeBox => "locking the box"@,
        }
    } else {
        match pick_type {
            PickType::LockPick | PickType::CreditCard => "picking the lock"@,
            PickType::SkeletonKey => match target {
                LockTarget::Door => "unlocking the door"@,
                LockTarget::Chest => "unlocking the chest"@,
                LockTarget::LargeBox => "unlocking the box"@,
            },
        }
    }
}

/// Names what the hero is doing to a lock: locking an unlocked one,
/// picking with a pick or card, unlocking with a key.
pub fn lock_action_text(target: LockTarget, is_currently_locked: bool, pick_type: PickType) -> (r: &'static str)
    ensures
        r@ == action_text(target, is_currently_locked, pick_type),
{
    if !is_currently_locked {
        match target {
            LockTarget::Door => "locking the door",
            LockTarget::Chest => "locking the chest",
            LockTarget::LargeBox => "locking the box",
        }
    } else {
        match pick_type {
            PickType::LockPick | PickType::CreditCard => "picking the lock",
            PickType::SkeletonKey => match target {
                LockTarget::Door => "unlocking the door",
                LockTarget::Chest => "unlocking the chest",
                LockTarget::LargeBox => "unlocking the box",
            },
        }
    }
}

/// The chance per turn of picking a box: card `dex` (+20 for a rogue),
/// pick `4 * dex` (+25), key `75 + dex`; halved (rounding toward zero) when
/// cursed.
pub open spec fn box_chance(pick_type: PickType, dexterity: int, is_rogue: bool, is_cursed: bool) -> int {
    let rb: int = if is_rogue { 1 } else { 0 };
    let ch = match pick_type {
        PickType::CreditCard => dexterity + 20 * rb,
        PickType::LockPick => 4 * dexterity + 25 * rb,
        PickType::SkeletonKey => 75 + dexterity,
    };
    if is_cursed { crate::num::div_trunc(ch, 2) } else { ch }
}

/// The chance per turn of picking a box lock.
pub fn box_pick_chance(pick_type: PickType, dexterity: i32, is_rogue: bool, is_cursed: bool) -> (r: i32)
    requires
        i32::MIN + 25 <= 4 * dexterity <= i32::MAX - 75,
    ensures
        r == box_chance(pick_type, dexterity as int, is_rogue, is_cursed),
{
    let role_bonus = if is_rogue { 1 } else { 0 };
    let mut ch = match pick_type {
        PickType::CreditCard => dexterity + 20 * role_bonus,
        PickType::LockPick => 4 * dexterity + 25 * role_bonus,
        PickType::SkeletonKey => 75 + dexterity,
    };
    if is_cursed {
        ch = ch / 2;
    }
    ch
}

/// The chance per turn of picking a door: card `2 * dex` (+20 for a rogue),
/// pick `3 * dex` (+30), key `70 + dex`.
pub fn door_pick_chance(pick_type: PickType, dexterity: i32, is_rogue: bool) -> (r: i32)
    requires
        i32::MIN + 30 <= 3 * dexterity <= i32::MAX - 70,
        i32::MIN <= 2 * dexterity,
    ensures
        r == (match pick_type {
            PickType::CreditCard => 2 * dexterity + (if is_rogue { 20int } else { 0int }),
            PickType::LockPick => 3 * dexterity + (if is_rogue { 30int } else { 0int }),
            PickType::SkeletonKey => 70 + dexterity,
        }),
{
    let role_bonus = if is_rogue { 1 } else { 0 };
    match pick_type {
        PickType::CreditCard => 2 * dexterity + 20 * role_bonus,
        PickType::LockPick => 3 * dexterity + 30 * role_bonus,
        PickType::SkeletonKey => 70 + dexterity,
    }
}

/// The outcome of one turn of picking a lock.
#[derive(Debug, Clone, PartialEq, Eq)]
pub enum PicklockTurnResult {
    StillBusy,
    GaveUp,
    TargetMoved,
    TrapFound { was_door: bool },
    Success { new_state_locked: bool },
    TrapTriggered,
    InvalidDoor { reason: &'static str },
}

/// One turn of picking a lock.
///
/// A doorway with no door, an open door or a broken door cannot be picked.
/// After 50 turns the hero gives up. Otherwise a draw from `0..100` must
/// fall under `chance`; then a trap is found with a magic key, or goes off;
/// else the lock changes: a locked door is unlocked, any other door locked,
/// a box unlocked.
pub fn picklock_turn(
    used_time: i32,
    chance: i32,
    is_door: bool,
    door_state: Option<DoorMask>,
    is_trapped: bool,
    has_magic_key: bool,
    rng: &mut NetHackRng,
) -> (r: PicklockTurnResult)
    ensures
        ({
            let s0 = old(rng)@;
            let invalid = is_door && door_state.is_some() && (door_state.unwrap() == DoorMask::NoDoor
                || door_state.unwrap() == DoorMask::Open || door_state.unwrap() == DoorMask::Broken);
            if invalid {
                &&& final(rng)@ == s0
                &&& r matches PicklockTurnResult::InvalidDoor { reason } && reason@ == (match door_state.unwrap() {
                    DoorMask::NoDoor => "This doorway has no door."@,
                    DoorMask::Open => "You cannot lock an open door."@,
                    _ => "This door is broken."@,
                })
            } else if used_time >= 50 {
                r == PicklockTurnResult::GaveUp && final(rng)@ == s0
            } else {
                &&& final(rng)@ == rng_next(s0)
                &&& r == (if rng_roll(s0, 100) >= chance {
                    PicklockTurnResult::StillBusy
                } else if is_trapped && has_magic_key {
                    PicklockTurnResult::TrapFound { was_door: is_door }
                } else if is_trapped {
                    PicklockTurnResult::TrapTriggered
                } else if is_door {
                    PicklockTurnResult::Success { new_state_locked: door_state != Some(DoorMask::Locked) }
                } else {
                    PicklockTurnResult::Success { new_state_locked: false }
                })
            }
        }),
{
    if is_door {
        if let Some(state) = door_state {
            match state {
                DoorMask::NoDoor => {
                    return PicklockTurnResult::InvalidDoor { reason: "This doorway has no door." };
                },
                DoorMask::Open => {
                    return PicklockTurnResult::InvalidDoor { reason: "You cannot lock an open door." };
                },
                DoorMask::Broken => {
                    return PicklockTurnResult::InvalidDoor { reason: "This door is broken." };
                },
                _ => {},
            }
        }
    }
    if used_time >= 50 {
        return PicklockTurnResult::GaveUp;
    }
    if rng.rn2(100) >= chance {
        return PicklockTurnResult::StillBusy;
    }
    if is_trapped && has_magic_key {
        return PicklockTurnResult::TrapFound { was_door: is_door };
    }
    if is_trapped {
        PicklockTurnResult::TrapTriggered
    } else if is_door {
        let currently_locked = match door_state {
            Some(DoorMask::Locked) => true,
            _ => false,
        };
        PicklockTurnResult::Success { new_state_locked: !currently_locked }
    } else {
        PicklockTurnResult::Success { new_state_locked: false }
    }
}

/// The outcome of one turn of forcing a lock.
#[derive(Debug, Clone, PartialEq, Eq, Structural)]
pub enum ForcelockTurnResult {
    StillBusy,
    GaveUp,
    WeaponBroke,
    Success { box_destroyed: bool },
}

/// One turn of forcing a lock.
///
/// After 50 turns the hero gives up. A blade breaks when a draw from
/// `0..1000 - spe` exceeds `992 - 10 * erosion` unless it is cursed. Then a
/// draw from `0..100` must fall under `chance`; a blunt weapon smashes the
/// box one time in three.
pub fn forcelock_turn(
    used_time: i32,
    chance: i32,
    is_blade: bool,
    weapon_spe: i32,
    weapon_erosion: i32,
    is_cursed: bool,
    rng: &mut NetHackRng,
) -> (r: ForcelockTurnResult)
    requires
        is_blade ==> 1000 - i32::MAX <= weapon_spe < 1000,
        is_blade ==> i32::MIN + 992 <= weapon_erosion * 10 <= i32::MAX,
    ensures
        ({
            let s0 = old(rng)@;
            if used_time >= 50 {
                r == ForcelockTurnResult::GaveUp && final(rng)@ == s0
            } else {
                let breaks = is_blade && rng_roll(s0, 1000 - weapon_spe) > 992 - weapon_erosion * 10 && !is_cursed;
                let s1 = if is_blade { rng_next(s0) } else { s0 };
                if breaks {
                    r == ForcelockTurnResult::WeaponBroke && final(rng)@ == s1
                } else if rng_roll(s1, 100) >= chance {
                    r == ForcelockTurnResult::StillBusy && final(rng)@ == rng_next(s1)
                } else if is_blade {
                    r == (ForcelockTurnResult::Success { box_destroyed: false }) && final(rng)@ == rng_next(s1)
                } else {
                    &&& r == (ForcelockTurnResult::Success { box_destroyed: rng_roll(rng_next(s1), 3) == 0 })
                    &&& final(rng)@ == rng_next(rng_next(s1))
                }
            }
        }),
{
    if used_time >= 50 {
        return ForcelockTurnResult::GaveUp;
    }
    if is_blade {
        let threshold = 992 - weapon_erosion * 10;
        if rng.rn2(1000 - weapon_spe) > threshold && !is_cursed {
            return ForcelockTurnResult::WeaponBroke;
        }
    }
    if rng.rn2(100) >= chance {
        return ForcelockTurnResult::StillBusy;
    }
    let box_destroyed = !is_blade && rng.rn2(3) == 0;
    ForcelockTurnResult::Success { box_destroyed }
}

/// How a weapon can force a lock.
#[derive(Debug, Clone, Copy, PartialEq, Eq, Structural)]
pub enum ForceWeaponType {
    Blade,
    Blunt,
    Invalid,
}

/// How a weapon whose lowercase name is `l` forces a lock: bladed names
/// pry, flails and whips cannot, anything else bashes.
pub open spec fn force_kind(l: Seq<char>) -> ForceWeaponType {
    if has_sub(l, "dagger"@) || has_sub(l, "sword"@) || has_sub(l, "axe"@) || has_sub(l, "spear"@)
        || has_sub(l, "lance"@) || has_sub(l, "knife"@) || has_sub(l, "blade"@) || has_sub(l, "katana"@)
        || has_sub(l, "scimitar"@) {
        ForceWeaponType::Blade
    } else if has_sub(l, "flail"@) || has_sub(l, "whip"@) {
        ForceWeaponType::Invalid
    } else {
        ForceWeaponType::Blunt
    }
}

/// How a weapon whose name is already in lowercase forces a lock.
pub fn force_weapon_of_lowercase(l: &str) -> (r: ForceWeaponType)
    ensures
        r == force_kind(l@),
{
    if str_contains(l, "dagger") || str_contains(l, "sword") || str_contains(l, "axe") || str_contains(l, "spear")
        || str_contains(l, "lance") || str_contains(l, "knife") || str_contains(l, "blade")
        || str_contains(l, "katana") || str_contains(l, "scimitar") {
        ForceWeaponType::Blade
    } else if str_contains(l, "flail") || str_contains(l, "whip") {
        ForceWeaponType::Invalid
    } else {
        ForceWeaponType::Blunt
    }
}

/// How a weapon forces a lock: only weapons can; otherwise by its name in
/// lowercase, as `force_weapon_of_lowercase` says.
pub fn check_force_weapon(weapon_name: &str, is_weapon_class: bool) -> (r: ForceWeaponType)
    ensures
        !is_weapon_class ==> r == ForceWeaponType::Invalid,
        is_weapon_class ==> r == force_kind(lowercase(weapon_name@)),
{
    if !is_weapon_class {
        return ForceWeaponType::Invalid;
    }
    let l = str_to_lowercase(weapon_name);
    force_weapon_of_lowercase(l.as_str())
}

/// What stands in a doorway.
#[derive(Debug, Clone, PartialEq, Eq)]
pub enum ObstructionCheck {
    Clear,
    MonsterBlocking { name: String },
    ObjectBlocking,
}

/// What blocks a doorway: a monster (named, or "Some creature"), else
/// objects, else nothing.
pub fn check_obstruction(has_monster: bool, monster_name: Option<&str>, has_objects: bool) -> (r: ObstructionCheck)
    ensures
        has_monster ==> (r matches ObstructionCheck::MonsterBlocking { name } && name@ == (match monster_name {
            Some(n) => n@,
            None => "Some creature"@,
        })),
        !has_monster && has_objects ==> r == ObstructionCheck::ObjectBlocking,
        !has_monster && !has_objects ==> r == ObstructionCheck::Clear,
{
    if has_monster {
        let name = match monster_name {
            Some(n) => n.to_string(),
            None => "Some creature".to_string(),
        };
        return ObstructionCheck::MonsterBlocking { name };
    }
    if has_objects {
        return ObstructionCheck::ObjectBlocking;
    }
    ObstructionCheck::Clear
}

/// The outcome of trying to open a door.
#[derive(Debug, Clone, PartialEq, Eq)]
pub enum OpenDoorResult {
    Opened,
    OpenedButTrapped,
    Resisted,
    InvalidState { reason: &'static str },
    TooSmall,
    NoDoor,
}

/// Tries to open a door: only a closed door can be opened, and not by a
/// very small creature; it opens when a draw from `0..20` less the luck
/// modifier (at least 0) falls under the average of strength, dexterity and
/// constitution (rounding toward zero).
pub fn try_open_door(
    door_state: DoorMask,
    is_trapped: bool,
    strength: i32,
    dexterity: i32,
    constitution: i32,
    is_verysmall: bool,
    luck_modifier: i32,
    rng: &mut NetHackRng,
) -> (r: OpenDoorResult)
    requires
        i32::MIN <= strength + dexterity <= i32::MAX,
        i32::MIN <= strength + dexterity + constitution <= i32::MAX,
        luck_modifier >= i32::MIN + 19,
    ensures
        door_state != DoorMask::Closed ==> final(rng)@ == old(rng)@ && (r matches OpenDoorResult::InvalidState { reason }
            && reason@ == (match door_state {
                DoorMask::NoDoor => "way has no door"@,
                DoorMask::Open => " is already open"@,
                DoorMask::Broken => " is broken"@,
                _ => " is locked"@,
            })),
        door_state == DoorMask::Closed && is_verysmall ==> r == OpenDoorResult::TooSmall && final(rng)@ == old(rng)@,
        door_state == DoorMask::Closed && !is_verysmall ==> {
            let raw = rng_roll(old(rng)@, 20) - luck_modifier;
            let roll = if raw > 0 { raw } else { 0 };
            &&& final(rng)@ == rng_next(old(rng)@)
            &&& r == (if roll < crate::num::div_trunc(strength + dexterity + constitution, 3) {
                if is_trapped { OpenDoorResult::OpenedButTrapped } else { OpenDoorResult::Opened }
            } else {
                OpenDoorResult::Resisted
            })
        },
{
    match door_state {
        DoorMask::NoDoor => {
            return OpenDoorResult::InvalidState { reason: "way has no door" };
        },
        DoorMask::Open => {
            return OpenDoorResult::InvalidState { reason: " is already open" };
        },
        DoorMask::Broken => {
            return OpenDoorResult::InvalidState { reason: " is broken" };
        },
        DoorMask::Locked => {
            return OpenDoorResult::InvalidState { reason: " is locked" };
        },
        DoorMask::Closed => {},
    }
    if is_verysmall {
        return OpenDoorResult::TooSmall;
    }
    let stat_total = (strength + dexterity + constitution) / 3;
    let base = rng.rn2(20);
    let raw = base as i64 - luck_modifier as i64;
    let roll = if raw > 0 { raw } else { 0 };
    if roll < stat_total as i64 {
        if is_trapped {
            OpenDoorResult::OpenedButTrapped
        } else {
            OpenDoorResult::Opened
        }
    } else {
        OpenDoorResult::Resisted
    }
}

/// The outcome of trying to close a door.
#[derive(Debug, Clone, PartialEq, Eq)]
pub enum CloseDoorResult {
    Closed,
    Obstructed,
    InvalidState { reason: &'static str },
}

/// Tries to close a door: an open door closes unless something is in the
/// way; other doorways say why not.
pub fn try_close_door(door_state: DoorMask, obstructed: bool) -> (r: CloseDoorResult)
    ensures
        door_state == DoorMask::Open ==> r == (if obstructed { CloseDoorResult::Obstructed } else { CloseDoorResult::Closed }),
        door_state != DoorMask::Open ==> (r matches CloseDoorResult::InvalidState { reason } && reason@ == (match door_state {
            DoorMask::NoDoor => "This doorway has no door."@,
            DoorMask::Broken => "This door won't close."@,
            _ => "This door is already closed."@,
        })),
{
    match door_state {
        DoorMask::NoDoor => CloseDoorResult::InvalidState { reason: "This doorway has no door." },
        DoorMask::Broken => CloseDoorResult::InvalidState { reason: "This door won't close." },
        DoorMask::Closed | DoorMask::Locked => CloseDoorResult::InvalidState { reason: "This door is already closed." },
        DoorMask::Open => {
            if obstructed {
                CloseDoorResult::Obstructed
            } else {
                CloseDoorResult::Closed
            }
        },
    }
}

/// An opening or locking spell or wand.
#[derive(Debug, Clone, Copy, PartialEq, Eq, Structural)]
pub enum MagicLockEffect {
    Knock,
    WizardLock,
}

/// What knock or wizard lock does to a box.
#[derive(Debug, Clone, PartialEq, Eq, Structural)]
pub enum BoxlockResult {
    Unlocked,
    Locked,
    NoChange,
    Repaired,
}

/// What knock or wizard lock does to a box: knock unlocks a locked box;
/// wizard lock locks a sound unlocked one; either repairs a broken one.
pub fn boxlock_result(is_locked: bool, is_broken: bool, effect: MagicLockEffect) -> (r: BoxlockResult)
    ensures
        effect == MagicLockEffect::Knock ==> r == (if is_locked {
            BoxlockResult::Unlocked
        } else if is_broken {
            BoxlockResult::Repaired
        } else {
            BoxlockResult::NoChange
        }),
        effect == MagicLockEffect::WizardLock ==> r == (if !is_locked && !is_broken {
            BoxlockResult::Locked
        } else if is_broken {
            BoxlockResult::Repaired
        } else {
            BoxlockResult::NoChange
        }),
{
    match effect {
        MagicLockEffect::Knock => {
            if is_locked {
                BoxlockResult::Unlocked
            } else if is_broken {
                BoxlockResult::Repaired
            } else {
                BoxlockResult::NoChange
            }
        },
        MagicLockEffect::WizardLock => {
            if !is_locked && !is_broken {
                BoxlockResult::Locked
            } else if is_broken {
                BoxlockResult::Repaired
            } else {
                BoxlockResult::NoChange
            }
        },
    }
}

/// What knock or wizard lock does to a door.
#[derive(Debug, Clone, PartialEq, Eq, Structural)]
pub enum DoorlockResult {
    Opened,
    Unlocked,
    Locked,
    Closed,
    SecretDoorRevealed,
    NoChange,
    Destroyed,
}

/// What knock or wizard lock does to a door: knock unlocks a locked door
/// (destroying a trapped one) and opens a closed one; wizard lock closes an
/// open door and locks a closed one.
pub fn doorlock_result(door_state: DoorMask, is_trapped: bool, effect: MagicLockEffect) -> (r: DoorlockResult)
    ensures
        r == (match effect {
            MagicLockEffect::Knock => match door_state {
                DoorMask::Locked => if is_trapped { DoorlockResult::Destroyed } else { DoorlockResult::Unlocked },
                DoorMask::Closed => DoorlockResult::Opened,
                _ => DoorlockResult::NoChange,
            },
            MagicLockEffect::WizardLock => match door_state {
                DoorMask::Open => DoorlockResult::Closed,
                DoorMask::Closed => DoorlockResult::Locked,
                _ => DoorlockResult::NoChange,
            },
        }),
{
    match effect {
        MagicLockEffect::Knock => match door_state {
            DoorMask::Locked => {
                if is_trapped {
                    DoorlockResult::Destroyed
                } else {
                    DoorlockResult::Unlocked
                }
            },
            DoorMask::Closed => DoorlockResult::Opened,
            _ => DoorlockResult::NoChange,
        },
        MagicLockEffect::WizardLock => match door_state {
            DoorMask::Open => DoorlockResult::Closed,
            DoorMask::Closed => DoorlockResult::Locked,
            _ => DoorlockResult::NoChange,
        },
    }
}

/// The sound of an item of class `item_class` breaking inside a forced box.
pub open spec fn shatter_text(item_class: Seq<char>) -> Seq<char> {
    if item_class == "potion"@ {
        "You hear a muffled shatter."@
    } else if item_class == "scroll"@ || item_class == "spellbook"@ {
        "You notice a puff of smoke."@
    } else if item_class == "food"@ {
        "You smell something nasty."@
    } else if item_class == "gem"@ {
        "You hear a muffled cracking."@
    } else if item_class == "weapon"@ {
        "You hear a muffled clang."@
    } else if item_class == "tool"@ {
        "You hear a muffled thud."@
    } else {
        "You hear a muffled crash."@
    }
}

/// The sound of an item breaking inside a forced box, by its class.
pub fn chest_shatter_message(item_class: &str) -> (r: &'static str)
    ensures
        r@ == shatter_text(item_class@),
{
    if str_eq(item_class, "potion") {
        "You hear a muffled shatter."
    } else if str_eq(item_class, "scroll") || str_eq(item_class, "spellbook") {
        "You notice a puff of smoke."
    } else if str_eq(item_class, "food") {
        "You smell something nasty."
    } else if str_eq(item_class, "gem") {
        "You hear a muffled cracking."
    } else if str_eq(item_class, "weapon") {
        "You hear a muffled clang."
    } else if str_eq(item_class, "tool") {
        "You hear a muffled thud."
    } else {
        "You hear a muffled crash."
    }
}

} // verus!
