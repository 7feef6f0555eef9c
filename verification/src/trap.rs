//! Traps: the table of trap kinds, finding and disarming traps, choosing
//! and placing traps on a level, their damage, evasion and resistance,
//! chain reactions, magic traps, level teleporters, what traps do to
//! monsters, and what springing a trap does to whoever steps on it.
use vstd::prelude::*;
use crate::num::{clamp, div_trunc};
use crate::rng::{NetHackRng, rng_roll, rng_next, rng_after, dice_total};
use crate::text::{has_sub, lowercase, str_to_lowercase, str_contains, concat3, text_with_int};
use crate::game_log::{GameLog, Message, after_add, DEFAULT_COLOR};
use crate::stairs::LevelTarget;

verus! {

/// Kinds of trap.
#[derive(Debug, Clone, Copy, PartialEq, Eq, Hash, Structural)]
pub enum TrapType {
    NoTrap,
    Arrow,
    Dart,
    Rock,
    SqueakyBoard,
    BearTrap,
    Landmine,
    RollingBoulder,
    SleepGas,
    Rust,
    Fire,
    Pit,
    SpikedPit,
    Hole,
    TrapDoor,
    Teleport,
    LevelTeleport,
    Web,
    Statue,
    Magic,
    AntiMagic,
    Polymorph,
    MagicPortal,
    VibratingSquare,
}

/// One row of the trap table.
#[derive(Debug, Clone, Copy)]
pub struct TrapInfo {
    pub typ: TrapType,
    pub name: &'static str,
    pub symbol: char,
    pub detect_difficulty: i32,
    pub disarm_difficulty: i32,
    pub base_damage: (i32, i32),
    pub is_magical: bool,
}

/// The kind of trap in row `k` of the trap table, for `k` in `0..23`.
pub open spec fn row_type(k: int) -> TrapType {
    if k == 0 {
        TrapType::Arrow
    } else if k == 1 {
        TrapType::Dart
    } else if k == 2 {
        TrapType::Rock
    } else if k == 3 {
        TrapType::SqueakyBoard
    } else if k == 4 {
        TrapType::BearTrap
    } else if k == 5 {
        TrapType::Landmine
    } else if k == 6 {
        TrapType::RollingBoulder
    } else if k == 7 {
        TrapType::SleepGas
    } else if k == 8 {
        TrapType::Rust
    } else if k == 9 {
        TrapType::Fire
    } else if k == 10 {
        TrapType::Pit
    } else if k == 11 {
        TrapType::SpikedPit
    } else if k == 12 {
        TrapType::Hole
    } else if k == 13 {
        TrapType::TrapDoor
    } else if k == 14 {
        TrapType::Teleport
    } else if k == 15 {
        TrapType::LevelTeleport
    } else if k == 16 {
        TrapType::Web
    } else if k == 17 {
        TrapType::Statue
    } else if k == 18 {
        TrapType::Magic
    } else if k == 19 {
        TrapType::AntiMagic
    } else if k == 20 {
        TrapType::Polymorph
    } else if k == 21 {
        TrapType::MagicPortal
    } else {
        TrapType::VibratingSquare
    }
}

/// The row of the trap table for a kind of trap (23 for no trap).
pub open spec fn row_of(t: TrapType) -> int {
    match t {
        TrapType::Arrow => 0,
        TrapType::Dart => 1,
        TrapType::Rock => 2,
        TrapType::SqueakyBoard => 3,
        TrapType::BearTrap => 4,
        TrapType::Landmine => 5,
        TrapType::RollingBoulder => 6,
        TrapType::SleepGas => 7,
        TrapType::Rust => 8,
        TrapType::Fire => 9,
        TrapType::Pit => 10,
        TrapType::SpikedPit => 11,
        TrapType::Hole => 12,
        TrapType::TrapDoor => 13,
        TrapType::Teleport => 14,
        TrapType::LevelTeleport => 15,
        TrapType::Web => 16,
        TrapType::Statue => 17,
        TrapType::Magic => 18,
        TrapType::AntiMagic => 19,
        TrapType::Polymorph => 20,
        TrapType::MagicPortal => 21,
        TrapType::VibratingSquare => 22,
        TrapType::NoTrap => 23,
    }
}

/// The table entry for a kind of trap; none for no trap.
pub open spec fn info_of(t: TrapType) -> Option<TrapInfo> {
    match t {
        TrapType::Arrow => Some(TrapInfo { typ: TrapType::Arrow, name: "arrow trap", symbol: '^', detect_difficulty: 2, disarm_difficulty: 3, base_damage: (1, 6), is_magical: false }),
        TrapType::Dart => Some(TrapInfo { typ: TrapType::Dart, name: "dart trap", symbol: '^', detect_difficulty: 2, disarm_difficulty: 3, base_damage: (1, 3), is_magical: false }),
        TrapType::Rock => Some(TrapInfo { typ: TrapType::Rock, name: "falling rock trap", symbol: '^', detect_difficulty: 3, disarm_difficulty: 5, base_damage: (2, 6), is_magical: false }),
        TrapType::SqueakyBoard => Some(TrapInfo { typ: TrapType::SqueakyBoard, name: "squeaky board", symbol: '^', detect_difficulty: 1, disarm_difficulty: 2, base_damage: (0, 0), is_magical: false }),
        TrapType::BearTrap => Some(TrapInfo { typ: TrapType::BearTrap, name: "bear trap", symbol: '^', detect_difficulty: 3, disarm_difficulty: 4, base_damage: (1, 4), is_magical: false }),
        TrapType::Landmine => Some(TrapInfo { typ: TrapType::Landmine, name: "land mine", symbol: '^', detect_difficulty: 4, disarm_difficulty: 7, base_damage: (4, 8), is_magical: false }),
        TrapType::RollingBoulder => Some(TrapInfo { typ: TrapType::RollingBoulder, name: "rolling boulder trap", symbol: '^', detect_difficulty: 5, disarm_difficulty: 6, base_damage: (3, 10), is_magical: false }),
        TrapType::SleepGas => Some(TrapInfo { typ: TrapType::SleepGas, name: "sleeping gas trap", symbol: '^', detect_difficulty: 3, disarm_difficulty: 4, base_damage: (0, 0), is_magical: true }),
        TrapType::Rust => Some(TrapInfo { typ: TrapType::Rust, name: "rust trap", symbol: '^', detect_difficulty: 3, disarm_difficulty: 4, base_damage: (0, 0), is_magical: false }),
        TrapType::Fire => Some(TrapInfo { typ: TrapType::Fire, name: "fire trap", symbol: '^', detect_difficulty: 4, disarm_difficulty: 5, base_damage: (2, 4), is_magical: true }),
        TrapType::Pit => Some(TrapInfo { typ: TrapType::Pit, name: "pit", symbol: '^', detect_difficulty: 2, disarm_difficulty: 3, base_damage: (2, 6), is_magical: false }),
        TrapType::SpikedPit => Some(TrapInfo { typ: TrapType::SpikedPit, name: "spiked pit", symbol: '^', detect_difficulty: 3, disarm_difficulty: 4, base_damage: (2, 10), is_magical: false }),
        TrapType::Hole => Some(TrapInfo { typ: TrapType::Hole, name: "hole", symbol: '^', detect_difficulty: 4, disarm_difficulty: 6, base_damage: (1, 1), is_magical: false }),
        TrapType::TrapDoor => Some(TrapInfo { typ: TrapType::TrapDoor, name: "trap door", symbol: '^', detect_difficulty: 5, disarm_difficulty: 7, base_damage: (1, 1), is_magical: false }),
        TrapType::Teleport => Some(TrapInfo { typ: TrapType::Teleport, name: "teleportation trap", symbol: '^', detect_difficulty: 5, disarm_difficulty: 8, base_damage: (0, 0), is_magical: true }),
        TrapType::LevelTeleport => Some(TrapInfo { typ: TrapType::LevelTeleport, name: "level teleporter", symbol: '^', detect_difficulty: 7, disarm_difficulty: 10, base_damage: (0, 0), is_magical: true }),
        TrapType::Web => Some(TrapInfo { typ: TrapType::Web, name: "web", symbol: '"', detect_difficulty: 2, disarm_difficulty: 3, base_damage: (0, 0), is_magical: false }),
        TrapType::Statue => Some(TrapInfo { typ: TrapType::Statue, name: "statue trap", symbol: '`', detect_difficulty: 6, disarm_difficulty: 8, base_damage: (0, 0), is_magical: true }),
        TrapType::Magic => Some(TrapInfo { typ: TrapType::Magic, name: "magic trap", symbol: '^', detect_difficulty: 5, disarm_difficulty: 7, base_damage: (1, 10), is_magical: true }),
        TrapType::AntiMagic => Some(TrapInfo { typ: TrapType::AntiMagic, name: "anti-magic field", symbol: '^', detect_difficulty: 6, disarm_difficulty: 9, base_damage: (0, 0), is_magical: true }),
        TrapType::Polymorph => Some(TrapInfo { typ: TrapType::Polymorph, name: "polymorph trap", symbol: '^', detect_difficulty: 6, disarm_difficulty: 9, base_damage: (0, 0), is_magical: true }),
        TrapType::MagicPortal => Some(TrapInfo { typ: TrapType::MagicPortal, name: "magic portal", symbol: '\\', detect_difficulty: 10, disarm_difficulty: 10, base_damage: (0, 0), is_magical: true }),
        TrapType::VibratingSquare => Some(TrapInfo { typ: TrapType::VibratingSquare, name: "vibrating square", symbol: '^', detect_difficulty: 10, disarm_difficulty: 10, base_damage: (0, 0), is_magical: true }),
        TrapType::NoTrap => None,
    }
}

/// The table of traps: name, symbol, how hard each is to find and to
/// disarm, its damage dice and whether it is magical, one row per kind.
pub fn trap_info_table() -> (r: Vec<TrapInfo>)
    ensures
        r@.len() == 23,
        forall|k: int| 0 <= k < 23 ==> Some(#[trigger] r@[k]) == info_of(row_type(k)),
{
    let r = vec![
        TrapInfo { typ: TrapType::Arrow, name: "arrow trap", symbol: '^', detect_difficulty: 2, disarm_difficulty: 3, base_damage: (1, 6), is_magical: false },
        TrapInfo { typ: TrapType::Dart, name: "dart trap", symbol: '^', detect_difficulty: 2, disarm_difficulty: 3, base_damage: (1, 3), is_magical: false },
        TrapInfo { typ: TrapType::Rock, name: "falling rock trap", symbol: '^', detect_difficulty: 3, disarm_difficulty: 5, base_damage: (2, 6), is_magical: false },
        TrapInfo { typ: TrapType::SqueakyBoard, name: "squeaky board", symbol: '^', detect_difficulty: 1, disarm_difficulty: 2, base_damage: (0, 0), is_magical: false },
        TrapInfo { typ: TrapType::BearTrap, name: "bear trap", symbol: '^', detect_difficulty: 3, disarm_difficulty: 4, base_damage: (1, 4), is_magical: false },
        TrapInfo { typ: TrapType::Landmine, name: "land mine", symbol: '^', detect_difficulty: 4, disarm_difficulty: 7, base_damage: (4, 8), is_magical: false },
        TrapInfo { typ: TrapType::RollingBoulder, name: "rolling boulder trap", symbol: '^', detect_difficulty: 5, disarm_difficulty: 6, base_damage: (3, 10), is_magical: false },
        TrapInfo { typ: TrapType::SleepGas, name: "sleeping gas trap", symbol: '^', detect_difficulty: 3, disarm_difficulty: 4, base_damage: (0, 0), is_magical: true },
        TrapInfo { typ: TrapType::Rust, name: "rust trap", symbol: '^', detect_difficulty: 3, disarm_difficulty: 4, base_damage: (0, 0), is_magical: false },
        TrapInfo { typ: TrapType::Fire, name: "fire trap", symbol: '^', detect_difficulty: 4, disarm_difficulty: 5, base_damage: (2, 4), is_magical: true },
        TrapInfo { typ: TrapType::Pit, name: "pit", symbol: '^', detect_difficulty: 2, disarm_difficulty: 3, base_damage: (2, 6), is_magical: false },
        TrapInfo { typ: TrapType::SpikedPit, name: "spiked pit", symbol: '^', detect_difficulty: 3, disarm_difficulty: 4, base_damage: (2, 10), is_magical: false },
        TrapInfo { typ: TrapType::Hole, name: "hole", symbol: '^', detect_difficulty: 4, disarm_difficulty: 6, base_damage: (1, 1), is_magical: false },
        TrapInfo { typ: TrapType::TrapDoor, name: "trap door", symbol: '^', detect_difficulty: 5, disarm_difficulty: 7, base_damage: (1, 1), is_magical: false },
        TrapInfo { typ: TrapType::Teleport, name: "teleportation trap", symbol: '^', detect_difficulty: 5, disarm_difficulty: 8, base_damage: (0, 0), is_magical: true },
        TrapInfo { typ: TrapType::LevelTeleport, name: "level teleporter", symbol: '^', detect_difficulty: 7, disarm_difficulty: 10, base_damage: (0, 0), is_magical: true },
        TrapInfo { typ: TrapType::Web, name: "web", symbol: '"', detect_difficulty: 2, disarm_difficulty: 3, base_damage: (0, 0), is_magical: false },
        TrapInfo { typ: TrapType::Statue, name: "statue trap", symbol: '`', detect_difficulty: 6, disarm_difficulty: 8, base_damage: (0, 0), is_magical: true },
        TrapInfo { typ: TrapType::Magic, name: "magic trap", symbol: '^', detect_difficulty: 5, disarm_difficulty: 7, base_damage: (1, 10), is_magical: true },
        TrapInfo { typ: TrapType::AntiMagic, name: "anti-magic field", symbol: '^', detect_difficulty: 6, disarm_difficulty: 9, base_damage: (0, 0), is_magical: true },
        TrapInfo { typ: TrapType::Polymorph, name: "polymorph trap", symbol: '^', detect_difficulty: 6, disarm_difficulty: 9, base_damage: (0, 0), is_magical: true },
        TrapInfo { typ: TrapType::MagicPortal, name: "magic portal", symbol: '\\', detect_difficulty: 10, disarm_difficulty: 10, base_damage: (0, 0), is_magical: true },
        TrapInfo { typ: TrapType::VibratingSquare, name: "vibrating square", symbol: '^', detect_difficulty: 10, disarm_difficulty: 10, base_damage: (0, 0), is_magical: true },
    ];
    assert(r@.len() == 23);
    r
}
/// The name of a kind of trap.
pub open spec fn trap_name_of(t: TrapType) -> Seq<char> {
    match t {
        TrapType::NoTrap => "no trap"@,
        TrapType::Arrow => "arrow trap"@,
        TrapType::Dart => "dart trap"@,
        TrapType::Rock => "falling rock trap"@,
        TrapType::SqueakyBoard => "squeaky board"@,
        TrapType::BearTrap => "bear trap"@,
        TrapType::Landmine => "land mine"@,
        TrapType::RollingBoulder => "rolling boulder trap"@,
        TrapType::SleepGas => "sleeping gas trap"@,
        TrapType::Rust => "rust trap"@,
        TrapType::Fire => "fire trap"@,
        TrapType::Pit => "pit"@,
        TrapType::SpikedPit => "spiked pit"@,
        TrapType::Hole => "hole"@,
        TrapType::TrapDoor => "trap door"@,
        TrapType::Teleport => "teleportation trap"@,
        TrapType::LevelTeleport => "level teleporter"@,
        TrapType::Web => "web"@,
        TrapType::Statue => "statue trap"@,
        TrapType::Magic => "magic trap"@,
        TrapType::AntiMagic => "anti-magic field"@,
        TrapType::Polymorph => "polymorph trap"@,
        TrapType::MagicPortal => "magic portal"@,
        TrapType::VibratingSquare => "vibrating square"@,
    }
}

/// The name of a kind of trap.
pub fn trap_name(typ: TrapType) -> (r: &'static str)
    ensures
        r@ == trap_name_of(typ),
{
    match typ {
        TrapType::NoTrap => "no trap",
        TrapType::Arrow => "arrow trap",
        TrapType::Dart => "dart trap",
        TrapType::Rock => "falling rock trap",
        TrapType::SqueakyBoard => "squeaky board",
        TrapType::BearTrap => "bear trap",
        TrapType::Landmine => "land mine",
        TrapType::RollingBoulder => "rolling boulder trap",
        TrapType::SleepGas => "sleeping gas trap",
        TrapType::Rust => "rust trap",
        TrapType::Fire => "fire trap",
        TrapType::Pit => "pit",
        TrapType::SpikedPit => "spiked pit",
        TrapType::Hole => "hole",
        TrapType::TrapDoor => "trap door",
        TrapType::Teleport => "teleportation trap",
        TrapType::LevelTeleport => "level teleporter",
        TrapType::Web => "web",
        TrapType::Statue => "statue trap",
        TrapType::Magic => "magic trap",
        TrapType::AntiMagic => "anti-magic field",
        TrapType::Polymorph => "polymorph trap",
        TrapType::MagicPortal => "magic portal",
        TrapType::VibratingSquare => "vibrating square",
    }
}

/// What the hero notices on finding a kind of trap.
pub open spec fn warning_text(t: TrapType) -> Seq<char> {
    match t {
        TrapType::NoTrap => ""@,
        TrapType::Arrow => "You notice an arrow trap here!"@,
        TrapType::Dart => "You notice a dart trap here!"@,
        TrapType::Rock => "You notice a falling rock trap here!"@,
        TrapType::SqueakyBoard => "You notice a squeaky board here."@,
        TrapType::BearTrap => "You see a bear trap here!"@,
        TrapType::Landmine => "You see a land mine here!"@,
        TrapType::RollingBoulder => "You see a rolling boulder trap!"@,
        TrapType::SleepGas => "You see a sleeping gas trap here!"@,
        TrapType::Rust => "You see a rust trap here."@,
        TrapType::Fire => "You see a fire trap here!"@,
        TrapType::Pit => "You see a pit here!"@,
        TrapType::SpikedPit => "You see a spiked pit here!"@,
        TrapType::Hole => "You see a hole here!"@,
        TrapType::TrapDoor => "You see a trap door here!"@,
        TrapType::Teleport => "You see a teleportation trap here!"@,
        TrapType::LevelTeleport => "You see a level teleporter here!"@,
        TrapType::Web => "You see a web here."@,
        TrapType::Statue => "You see a statue trap here!"@,
        TrapType::Magic => "You see a magic trap here!"@,
        TrapType::AntiMagic => "You feel an anti-magic field!"@,
        TrapType::Polymorph => "You see a polymorph trap here!"@,
        TrapType::MagicPortal => "You see a magic portal here!"@,
        TrapType::VibratingSquare => "You feel a strange vibration under your feet."@,
    }
}

/// What the hero notices on finding a kind of trap.
pub fn trap_warning_message(trap_typ: TrapType) -> (r: &'static str)
    ensures
        r@ == warning_text(trap_typ),
{
    match trap_typ {
        TrapType::NoTrap => "",
        TrapType::Arrow => "You notice an arrow trap here!",
        TrapType::Dart => "You notice a dart trap here!",
        TrapType::Rock => "You notice a falling rock trap here!",
        TrapType::SqueakyBoard => "You notice a squeaky board here.",
        TrapType::BearTrap => "You see a bear trap here!",
        TrapType::Landmine => "You see a land mine here!",
        TrapType::RollingBoulder => "You see a rolling boulder trap!",
        TrapType::SleepGas => "You see a sleeping gas trap here!",
        TrapType::Rust => "You see a rust trap here.",
        TrapType::Fire => "You see a fire trap here!",
        TrapType::Pit => "You see a pit here!",
        TrapType::SpikedPit => "You see a spiked pit here!",
        TrapType::Hole => "You see a hole here!",
        TrapType::TrapDoor => "You see a trap door here!",
        TrapType::Teleport => "You see a teleportation trap here!",
        TrapType::LevelTeleport => "You see a level teleporter here!",
        TrapType::Web => "You see a web here.",
        TrapType::Statue => "You see a statue trap here!",
        TrapType::Magic => "You see a magic trap here!",
        TrapType::AntiMagic => "You feel an anti-magic field!",
        TrapType::Polymorph => "You see a polymorph trap here!",
        TrapType::MagicPortal => "You see a magic portal here!",
        TrapType::VibratingSquare => "You feel a strange vibration under your feet.",
    }
}

/// What the hero is told on springing a kind of trap.
pub open spec fn trigger_text(t: TrapType) -> Seq<char> {
    match t {
        TrapType::NoTrap => ""@,
        TrapType::Arrow => "An arrow shoots out at you!"@,
        TrapType::Dart => "A little dart shoots out at you!"@,
        TrapType::Rock => "A rock falls on your head!"@,
        TrapType::SqueakyBoard => "A board beneath you squeaks loudly!"@,
        TrapType::BearTrap => "A bear trap closes on your foot!"@,
        TrapType::Landmine => "KAABLAMM!!! You triggered a land mine!"@,
        TrapType::RollingBoulder => "Click! You trigger a rolling boulder trap!"@,
        TrapType::SleepGas => "A cloud of gas puts you to sleep!"@,
        TrapType::Rust => "A gush of water hits you!"@,
        TrapType::Fire => "A tower of flame erupts beneath you!"@,
        TrapType::Pit => "You fall into a pit!"@,
        TrapType::SpikedPit => "You fall into a pit with spikes!"@,
        TrapType::Hole => "You fall through a hole in the floor!"@,
        TrapType::TrapDoor => "A trap door opens up under you!"@,
        TrapType::Teleport => "You feel a wrenching sensation!"@,
        TrapType::LevelTeleport => "You are momentarily blinded by a flash of light!"@,
        TrapType::Web => "You are caught in a web!"@,
        TrapType::Statue => "A statue comes to life!"@,
        TrapType::Magic => "You are caught in a magical explosion!"@,
        TrapType::AntiMagic => "You feel your magical energy drain away!"@,
        TrapType::Polymorph => "You feel a change coming over you!"@,
        TrapType::MagicPortal => "You feel dizzy for a moment, but it passes."@,
        TrapType::VibratingSquare => "You feel a strange vibration under your feet."@,
    }
}

/// What the hero is told on springing a kind of trap.
pub fn trap_trigger_message(trap_type: TrapType) -> (r: &'static str)
    ensures
        r@ == trigger_text(trap_type),
{
    match trap_type {
        TrapType::NoTrap => "",
        TrapType::Arrow => "An arrow shoots out at you!",
        TrapType::Dart => "A little dart shoots out at you!",
        TrapType::Rock => "A rock falls on your head!",
        TrapType::SqueakyBoard => "A board beneath you squeaks loudly!",
        TrapType::BearTrap => "A bear trap closes on your foot!",
        TrapType::Landmine => "KAABLAMM!!! You triggered a land mine!",
        TrapType::RollingBoulder => "Click! You trigger a rolling boulder trap!",
        TrapType::SleepGas => "A cloud of gas puts you to sleep!",
        TrapType::Rust => "A gush of water hits you!",
        TrapType::Fire => "A tower of flame erupts beneath you!",
        TrapType::Pit => "You fall into a pit!",
        TrapType::SpikedPit => "You fall into a pit with spikes!",
        TrapType::Hole => "You fall through a hole in the floor!",
        TrapType::TrapDoor => "A trap door opens up under you!",
        TrapType::Teleport => "You feel a wrenching sensation!",
        TrapType::LevelTeleport => "You are momentarily blinded by a flash of light!",
        TrapType::Web => "You are caught in a web!",
        TrapType::Statue => "A statue comes to life!",
        TrapType::Magic => "You are caught in a magical explosion!",
        TrapType::AntiMagic => "You feel your magical energy drain away!",
        TrapType::Polymorph => "You feel a change coming over you!",
        TrapType::MagicPortal => "You feel dizzy for a moment, but it passes.",
        TrapType::VibratingSquare => "You feel a strange vibration under your feet.",
    }
}

/// How hard a kind of trap is to evade.
pub open spec fn evasion_difficulty(t: TrapType) -> i32 {
    match t {
        TrapType::NoTrap => 0,
        TrapType::Arrow => 12,
        TrapType::Dart => 10,
        TrapType::Rock => 8,
        TrapType::SqueakyBoard => 5,
        TrapType::BearTrap => 14,
        TrapType::Landmine => 16,
        TrapType::RollingBoulder => 14,
        TrapType::SleepGas => 12,
        TrapType::Rust => 10,
        TrapType::Fire => 14,
        TrapType::Pit => 8,
        TrapType::SpikedPit => 10,
        TrapType::Hole => 12,
        TrapType::TrapDoor => 12,
        TrapType::Teleport => 20,
        TrapType::LevelTeleport => 22,
        TrapType::Web => 10,
        TrapType::Statue => 0,
        TrapType::Magic => 18,
        TrapType::AntiMagic => 15,
        TrapType::Polymorph => 20,
        TrapType::MagicPortal => 0,
        TrapType::VibratingSquare => 0,
    }
}

/// How hard a kind of trap is to evade.
pub fn trap_evasion_difficulty(trap_type: TrapType) -> (r: i32)
    ensures
        r == evasion_difficulty(trap_type),
{
    match trap_type {
        TrapType::NoTrap => 0,
        TrapType::Arrow => 12,
        TrapType::Dart => 10,
        TrapType::Rock => 8,
        TrapType::SqueakyBoard => 5,
        TrapType::BearTrap => 14,
        TrapType::Landmine => 16,
        TrapType::RollingBoulder => 14,
        TrapType::SleepGas => 12,
        TrapType::Rust => 10,
        TrapType::Fire => 14,
        TrapType::Pit => 8,
        TrapType::SpikedPit => 10,
        TrapType::Hole => 12,
        TrapType::TrapDoor => 12,
        TrapType::Teleport => 20,
        TrapType::LevelTeleport => 22,
        TrapType::Web => 10,
        TrapType::Statue => 0,
        TrapType::Magic => 18,
        TrapType::AntiMagic => 15,
        TrapType::Polymorph => 20,
        TrapType::MagicPortal => 0,
        TrapType::VibratingSquare => 0,
    }
}

/// How hard a kind of trap is to find by searching.
pub open spec fn detection_difficulty(t: TrapType) -> i32 {
    match t {
        TrapType::NoTrap => 0,
        TrapType::Arrow => 15,
        TrapType::Dart => 12,
        TrapType::Rock => 10,
        TrapType::SqueakyBoard => 8,
        TrapType::BearTrap => 14,
        TrapType::Landmine => 20,
        TrapType::RollingBoulder => 12,
        TrapType::SleepGas => 16,
        TrapType::Rust => 14,
        TrapType::Fire => 16,
        TrapType::Pit => 10,
        TrapType::SpikedPit => 12,
        TrapType::Hole => 18,
        TrapType::TrapDoor => 18,
        TrapType::Teleport => 20,
        TrapType::LevelTeleport => 24,
        TrapType::Web => 8,
        TrapType::Statue => 10,
        TrapType::Magic => 22,
        TrapType::AntiMagic => 20,
        TrapType::Polymorph => 22,
        TrapType::MagicPortal => 25,
        TrapType::VibratingSquare => 5,
    }
}

/// How hard a kind of trap is to find by searching.
pub fn trap_detection_difficulty(trap_type: TrapType) -> (r: i32)
    ensures
        r == detection_difficulty(trap_type),
{
    match trap_type {
        TrapType::NoTrap => 0,
        TrapType::Arrow => 15,
        TrapType::Dart => 12,
        TrapType::Rock => 10,
        TrapType::SqueakyBoard => 8,
        TrapType::BearTrap => 14,
        TrapType::Landmine => 20,
        TrapType::RollingBoulder => 12,
        TrapType::SleepGas => 16,
        TrapType::Rust => 14,
        TrapType::Fire => 16,
        TrapType::Pit => 10,
        TrapType::SpikedPit => 12,
        TrapType::Hole => 18,
        TrapType::TrapDoor => 18,
        TrapType::Teleport => 20,
        TrapType::LevelTeleport => 24,
        TrapType::Web => 8,
        TrapType::Statue => 10,
        TrapType::Magic => 22,
        TrapType::AntiMagic => 20,
        TrapType::Polymorph => 22,
        TrapType::MagicPortal => 25,
        TrapType::VibratingSquare => 5,
    }
}

/// How hard a kind of trap is to disarm.
pub open spec fn disarm_difficulty(t: TrapType) -> i32 {
    match t {
        TrapType::NoTrap => 0,
        TrapType::Arrow => 10,
        TrapType::Dart => 8,
        TrapType::Rock => 15,
        TrapType::SqueakyBoard => 3,
        TrapType::BearTrap => 12,
        TrapType::Landmine => 18,
        TrapType::RollingBoulder => 12,
        TrapType::SleepGas => 10,
        TrapType::Rust => 10,
        TrapType::Fire => 14,
        TrapType::Pit => 5,
        TrapType::SpikedPit => 8,
        TrapType::Hole => 15,
        TrapType::TrapDoor => 15,
        TrapType::Teleport => 20,
        TrapType::LevelTeleport => 20,
        TrapType::Web => 6,
        TrapType::Statue => 8,
        TrapType::Magic => 16,
        TrapType::AntiMagic => 22,
        TrapType::Polymorph => 22,
        TrapType::MagicPortal => 25,
        TrapType::VibratingSquare => 0,
    }
}

/// How hard a kind of trap is to disarm.
pub fn trap_disarm_difficulty(trap_type: TrapType) -> (r: i32)
    ensures
        r == disarm_difficulty(trap_type),
{
    match trap_type {
        TrapType::NoTrap => 0,
        TrapType::Arrow => 10,
        TrapType::Dart => 8,
        TrapType::Rock => 15,
        TrapType::SqueakyBoard => 3,
        TrapType::BearTrap => 12,
        TrapType::Landmine => 18,
        TrapType::RollingBoulder => 12,
        TrapType::SleepGas => 10,
        TrapType::Rust => 10,
        TrapType::Fire => 14,
        TrapType::Pit => 5,
        TrapType::SpikedPit => 8,
        TrapType::Hole => 15,
        TrapType::TrapDoor => 15,
        TrapType::Teleport => 20,
        TrapType::LevelTeleport => 20,
        TrapType::Web => 6,
        TrapType::Statue => 8,
        TrapType::Magic => 16,
        TrapType::AntiMagic => 22,
        TrapType::Polymorph => 22,
        TrapType::MagicPortal => 25,
        TrapType::VibratingSquare => 0,
    }
}

/// What it costs to build a kind of trap; 0 for those that cannot be built.
pub open spec fn creation_cost(t: TrapType) -> i32 {
    match t {
        TrapType::Arrow => 30,
        TrapType::Dart => 20,
        TrapType::BearTrap => 80,
        TrapType::Landmine => 150,
        TrapType::RollingBoulder => 100,
        TrapType::SleepGas => 120,
        TrapType::Fire => 200,
        TrapType::Pit => 50,
        TrapType::SpikedPit => 70,
        TrapType::Web => 40,
        _ => 0,
    }
}

/// What it costs to build a kind of trap; 0 for those that cannot be built.
pub fn trap_creation_cost(trap_type: TrapType) -> (r: i32)
    ensures
        r == creation_cost(trap_type),
{
    match trap_type {
        TrapType::Arrow => 30,
        TrapType::Dart => 20,
        TrapType::BearTrap => 80,
        TrapType::Landmine => 150,
        TrapType::RollingBoulder => 100,
        TrapType::SleepGas => 120,
        TrapType::Fire => 200,
        TrapType::Pit => 50,
        TrapType::SpikedPit => 70,
        TrapType::Web => 40,
        _ => 0,
    }
}

/// The table entry for a kind of trap, or none for no trap.
pub fn get_trap_info(typ: TrapType) -> (r: Option<TrapInfo>)
    ensures
        r == info_of(typ),
{
    let mut table = trap_info_table();
    let mut i: usize = 0;
    while i < table.len()
        invariant
            i <= 23,
            table@.len() == 23,
            forall|k: int| 0 <= k < 23 ==> Some(#[trigger] table@[k]) == info_of(row_type(k)),
            forall|k: int| 0 <= k < i ==> row_type(k) != typ,
        decreases 23 - i,
    {
        let same = table[i].typ == typ;
        proof {
            let k = i as int;
            assert(Some(table@[k]) == info_of(row_type(k)));
            lemma_row_typ(k);
        }
        if same {
            return Some(table.remove(i));
        }
        i = i + 1;
    }
    proof {
        if typ != TrapType::NoTrap {
            lemma_row_of(typ);
            assert(row_type(row_of(typ)) == typ);
        }
    }
    None
}

proof fn lemma_row_typ(k: int)
    requires
        0 <= k < 23,
    ensures
        info_of(row_type(k)) matches Some(info) && info.typ == row_type(k),
{
}

proof fn lemma_row_of(t: TrapType)
    requires
        t != TrapType::NoTrap,
    ensures
        0 <= row_of(t) < 23,
        row_type(row_of(t)) == t,
{
}

/// Every kind of trap has exactly one row in the trap table: the row names
/// that kind, under the name the game gives it, and no trap has no row.
pub proof fn trap_table_covers_every_trap(t: TrapType)
    ensures
        t == TrapType::NoTrap <==> info_of(t) is None,
        t != TrapType::NoTrap ==> {
            &&& 0 <= row_of(t) < 23
            &&& row_type(row_of(t)) == t
            &&& info_of(t) matches Some(info) && info.typ == t && info.name@ == trap_name_of(t)
        },
{
}

/// Traps placed at random are real traps: every depth's pool is non-empty
/// and never holds "no trap".
pub proof fn random_traps_are_real(depth: int)
    ensures
        trap_pool(depth).len() > 0,
        forall|i: int| 0 <= i < trap_pool(depth).len() ==> #[trigger] trap_pool(depth)[i] != TrapType::NoTrap,
{
}

/// Whether the hero finds a trap: the table's difficulty, 3 less for a
/// rogue and less the perception bonus, must be beaten by a draw `1..=10`
/// plus a third of dexterity. No trap is never found.
pub fn try_detect_trap(
    trap_typ: TrapType,
    dexterity: i32,
    perception_bonus: i32,
    is_rogue: bool,
    rng: &mut NetHackRng,
) -> (r: bool)
    requires
        i32::MIN + 20 <= perception_bonus <= i32::MAX - 20,
    ensures
        ({
            let s0 = old(rng)@;
            match info_of(trap_typ) {
                None => !r && final(rng)@ == s0,
                Some(info) => {
                    let threshold = info.detect_difficulty - (if is_rogue { 3int } else { 0int }) - perception_bonus;
                    &&& final(rng)@ == rng_next(s0)
                    &&& r == (rng_roll(s0, 10) + 1 + div_trunc(dexterity as int, 3) > threshold)
                }
            }
        }),
{
    let info = match get_trap_info(trap_typ) {
        Some(i) => i,
        None => return false,
    };
    proof {
        lemma_info_bounds(trap_typ);
    }
    let mut threshold = info.detect_difficulty;
    if is_rogue {
        threshold = threshold - 3;
    }
    threshold = threshold - perception_bonus;
    let roll = rng.rn2(10) + 1;
    roll + dexterity / 3 > threshold
}

proof fn lemma_info_bounds(t: TrapType)
    ensures
        info_of(t) matches Some(info) ==> {
            &&& 1 <= info.detect_difficulty <= 10
            &&& 2 <= info.disarm_difficulty <= 10
        },
{
}

/// How an attempt to disarm a trap ends.
#[derive(Debug, Clone, Copy, PartialEq, Eq, Structural)]
pub enum DisarmResult {
    Success,
    Partial,
    Failed,
    Triggered,
}

/// Tries to disarm a trap: a draw `1..=20` plus half of dexterity and a
/// third of the level, against the table's difficulty (3 less with tools, 2
/// more if magical), succeeds at 10 over it, partly succeeds at it, sets the
/// trap off more than 5 under it, and otherwise fails. No trap always fails.
pub fn try_disarm_trap(
    trap_typ: TrapType,
    dexterity: i32,
    player_level: i32,
    has_tools: bool,
    rng: &mut NetHackRng,
) -> (r: DisarmResult)
    ensures
        ({
            let s0 = old(rng)@;
            match info_of(trap_typ) {
                None => r == DisarmResult::Failed && final(rng)@ == s0,
                Some(info) => {
                    let difficulty = info.disarm_difficulty - (if has_tools { 3int } else { 0int })
                        + (if info.is_magical { 2int } else { 0int });
                    let roll = rng_roll(s0, 20) + 1 + div_trunc(dexterity as int, 2)
                        + div_trunc(player_level as int, 3);
                    &&& final(rng)@ == rng_next(s0)
                    &&& r == if roll >= difficulty + 10 {
                        DisarmResult::Success
                    } else if roll >= difficulty {
                        DisarmResult::Partial
                    } else if roll < difficulty - 5 {
                        DisarmResult::Triggered
                    } else {
                        DisarmResult::Failed
                    }
                }
            }
        }),
{
    let info = match get_trap_info(trap_typ) {
        Some(i) => i,
        None => return DisarmResult::Failed,
    };
    proof {
        lemma_info_bounds(trap_typ);
    }
    let mut difficulty = info.disarm_difficulty;
    if has_tools {
        difficulty = difficulty - 3;
    }
    if info.is_magical {
        difficulty = difficulty + 2;
    }
    let roll = rng.rn2(20) + 1 + dexterity / 2 + player_level / 3;
    if roll >= difficulty + 10 {
        DisarmResult::Success
    } else if roll >= difficulty {
        DisarmResult::Partial
    } else if roll < difficulty - 5 {
        DisarmResult::Triggered
    } else {
        DisarmResult::Failed
    }
}

/// Whether a trap may be placed on a square: it must be walkable, hold no
/// trap and be no door.
pub fn can_place_trap(x: i32, y: i32, is_walkable: bool, has_trap: bool, is_door: bool) -> (r: bool)
    ensures
        r == (is_walkable && !has_trap && !is_door),
{
    is_walkable && !has_trap && !is_door
}

/// The kinds of trap found at a dungeon depth: the mild ones down to 5, more
/// down to 15 and 30, and the deadliest below.
pub open spec fn trap_pool(depth: int) -> Seq<TrapType> {
    if depth <= 5 {
        seq![TrapType::Arrow, TrapType::Dart, TrapType::SqueakyBoard, TrapType::Pit, TrapType::BearTrap,
            TrapType::Web]
    } else if depth <= 15 {
        seq![TrapType::Arrow, TrapType::Dart, TrapType::Rock, TrapType::SqueakyBoard, TrapType::BearTrap,
            TrapType::Pit, TrapType::SpikedPit, TrapType::SleepGas, TrapType::Rust, TrapType::Fire, TrapType::Web,
            TrapType::Landmine]
    } else if depth <= 30 {
        seq![TrapType::Arrow, TrapType::Dart, TrapType::Rock, TrapType::BearTrap, TrapType::Pit,
            TrapType::SpikedPit, TrapType::Landmine, TrapType::SleepGas, TrapType::Rust, TrapType::Fire,
            TrapType::Web, TrapType::Teleport, TrapType::Hole, TrapType::TrapDoor, TrapType::RollingBoulder,
            TrapType::Magic, TrapType::AntiMagic]
    } else {
        seq![TrapType::Arrow, TrapType::Dart, TrapType::Rock, TrapType::BearTrap, TrapType::SpikedPit,
            TrapType::Landmine, TrapType::SleepGas, TrapType::Fire, TrapType::Teleport, TrapType::LevelTeleport,
            TrapType::Hole, TrapType::TrapDoor, TrapType::RollingBoulder, TrapType::Magic, TrapType::AntiMagic,
            TrapType::Polymorph]
    }
}

fn trap_pool_vec(depth: i32) -> (v: Vec<TrapType>)
    ensures
        v@ == trap_pool(depth as int),
        v@.len() > 0,
{
    if depth <= 5 {
        vec![TrapType::Arrow, TrapType::Dart, TrapType::SqueakyBoard, TrapType::Pit, TrapType::BearTrap,
            TrapType::Web]
    } else if depth <= 15 {
        vec![TrapType::Arrow, TrapType::Dart, TrapType::Rock, TrapType::SqueakyBoard, TrapType::BearTrap,
            TrapType::Pit, TrapType::SpikedPit, TrapType::SleepGas, TrapType::Rust, TrapType::Fire, TrapType::Web,
            TrapType::Landmine]
    } else if depth <= 30 {
        vec![TrapType::Arrow, TrapType::Dart, TrapType::Rock, TrapType::BearTrap, TrapType::Pit,
            TrapType::SpikedPit, TrapType::Landmine, TrapType::SleepGas, TrapType::Rust, TrapType::Fire,
            TrapType::Web, TrapType::Teleport, TrapType::Hole, TrapType::TrapDoor, TrapType::RollingBoulder,
            TrapType::Magic, TrapType::AntiMagic]
    } else {
        vec![TrapType::Arrow, TrapType::Dart, TrapType::Rock, TrapType::BearTrap, TrapType::SpikedPit,
            TrapType::Landmine, TrapType::SleepGas, TrapType::Fire, TrapType::Teleport, TrapType::LevelTeleport,
            TrapType::Hole, TrapType::TrapDoor, TrapType::RollingBoulder, TrapType::Magic, TrapType::AntiMagic,
            TrapType::Polymorph]
    }
}

/// A kind of trap for a dungeon depth, drawn evenly from that depth's pool.
pub fn random_trap_type(dungeon_depth: i32, rng: &mut NetHackRng) -> (r: TrapType)
    ensures
        r == trap_pool(dungeon_depth as int)[rng_roll(old(rng)@, trap_pool(dungeon_depth as int).len() as int)],
        final(rng)@ == rng_next(old(rng)@),
{
    let pool = trap_pool_vec(dungeon_depth);
    let idx = rng.rn2(pool.len() as i32) as usize;
    pool[idx]
}

/// The fewest traps a level at `depth` gets: a third of the depth plus one,
/// at least one.
pub open spec fn trap_count_base(depth: int) -> int {
    let b = div_trunc(depth, 3) + 1;
    if b > 1 { b } else { 1 }
}

/// How many traps a level at `depth` gets: its base plus a draw from `0..5`.
pub fn traps_per_level(depth: i32, rng: &mut NetHackRng) -> (r: i32)
    ensures
        r == trap_count_base(depth as int) + rng_roll(old(rng)@, 5),
        final(rng)@ == rng_next(old(rng)@),
{
    let b = depth / 3 + 1;
    let base = if b > 1 { b } else { 1 };
    rng.rn1(5, base)
}

/// The damage of falling into a pit (two six-sided dice), a spiked pit (two
/// ten-sided dice) or through a hole or trap door (one six-sided die plus
/// 2), less a quarter of the constitution modifier, at least 1.
pub fn fall_damage(trap_typ: TrapType, con_mod: i32, rng: &mut NetHackRng) -> (r: i32)
    ensures
        ({
            let s0 = old(rng)@;
            let (base, n) = if trap_typ == TrapType::Pit {
                (dice_total(s0, 2, 6), 2nat)
            } else if trap_typ == TrapType::SpikedPit {
                (dice_total(s0, 2, 10), 2nat)
            } else if trap_typ == TrapType::Hole || trap_typ == TrapType::TrapDoor {
                (dice_total(s0, 1, 6) + 2, 1nat)
            } else {
                (0int, 0nat)
            };
            let d = base - div_trunc(con_mod as int, 4);
            &&& r == (if d > 1 { d } else { 1 })
            &&& final(rng)@ == rng_after(s0, n)
        }),
{
    let base = match trap_typ {
        TrapType::Pit => rng.d(2, 6),
        TrapType::SpikedPit => rng.d(2, 10),
        TrapType::Hole | TrapType::TrapDoor => rng.d(1, 6) + 2,
        _ => 0,
    };
    let d = base - con_mod / 4;
    if d > 1 { d } else { 1 }
}

/// Whether a resistance or being in the air protects against a kind of
/// trap: fire against fire, sleep against gas, poison against darts, magic
/// resistance against magic and anti-magic traps, being in the air against
/// pits, holes, trap doors, bear traps and land mines.
pub fn trap_resist_check(
    trap_typ: TrapType,
    has_fire_res: bool,
    has_cold_res: bool,
    has_sleep_res: bool,
    has_poison_res: bool,
    has_magic_res: bool,
    is_flying: bool,
    is_levitating: bool,
) -> (r: bool)
    ensures
        r == match trap_typ {
            TrapType::Fire => has_fire_res,
            TrapType::SleepGas => has_sleep_res,
            TrapType::Dart => has_poison_res,
            TrapType::Magic => has_magic_res,
            TrapType::AntiMagic => has_magic_res,
            TrapType::Pit | TrapType::SpikedPit | TrapType::Hole | TrapType::TrapDoor | TrapType::BearTrap
            | TrapType::Landmine => is_flying || is_levitating,
            _ => false,
        },
{
    match trap_typ {
        TrapType::Fire => has_fire_res,
        TrapType::SleepGas => has_sleep_res,
        TrapType::Dart => has_poison_res,
        TrapType::Magic => has_magic_res,
        TrapType::AntiMagic => has_magic_res,
        TrapType::Pit | TrapType::SpikedPit => is_flying || is_levitating,
        TrapType::Hole | TrapType::TrapDoor => is_flying || is_levitating,
        TrapType::BearTrap => is_flying || is_levitating,
        TrapType::Landmine => is_flying || is_levitating,
        TrapType::Web => false,
        _ => false,
    }
}

/// Whether the hero pulls free of a bear trap: a draw from `0..20` under
/// the strength.
pub fn bear_trap_escape(strength: i32, rng: &mut NetHackRng) -> (r: bool)
    ensures
        r == (rng_roll(old(rng)@, 20) < strength),
        final(rng)@ == rng_next(old(rng)@),
{
    rng.rn2(20) < strength
}

/// Whether a creature gets out of a web: always for a spider, else a draw
/// from `0..15` under the strength.
pub fn web_escape(strength: i32, is_spider: bool, rng: &mut NetHackRng) -> (r: bool)
    ensures
        is_spider ==> r && final(rng)@ == old(rng)@,
        !is_spider ==> r == (rng_roll(old(rng)@, 15) < strength) && final(rng)@ == rng_next(old(rng)@),
{
    if is_spider {
        return true;
    }
    rng.rn2(15) < strength
}

/// What the hero is told after trying to disarm a trap.
pub open spec fn disarm_text(t: TrapType, result: DisarmResult) -> Seq<char> {
    let name = trap_name_of(t);
    match result {
        DisarmResult::Success => "You disarm the "@ + name + "!"@,
        DisarmResult::Partial => "You partially disarm the "@ + name + ", but it remains."@,
        DisarmResult::Failed => "You fail to disarm the "@ + name + "."@,
        DisarmResult::Triggered => "You set off the "@ + name + " while trying to disarm it!"@,
    }
}

/// What the hero is told after trying to disarm a trap.
pub fn disarm_message(trap_typ: TrapType, result: DisarmResult) -> (r: String)
    ensures
        r@ == disarm_text(trap_typ, result),
{
    let name = trap_name(trap_typ);
    match result {
        DisarmResult::Success => concat3("You disarm the ", name, "!"),
        DisarmResult::Partial => concat3("You partially disarm the ", name, ", but it remains."),
        DisarmResult::Failed => concat3("You fail to disarm the ", name, "."),
        DisarmResult::Triggered => concat3("You set off the ", name, " while trying to disarm it!"),
    }
}

/// The traps placed on a level, from a stream in state `s` after `k` of
/// them: each at a column `1..width - 1` and row `1..height - 1` drawn in
/// turn, then a kind for the depth.
pub open spec fn placed_traps(s: u64, depth: int, width: int, height: int, k: nat) -> (Seq<(i32, i32, TrapType)>, u64)
    decreases k,
{
    if k == 0 {
        (Seq::empty(), s)
    } else {
        let (v, s1) = placed_traps(s, depth, width, height, (k - 1) as nat);
        let x = rng_roll(s1, width - 2) + 1;
        let s2 = rng_next(s1);
        let y = rng_roll(s2, height - 2) + 1;
        let s3 = rng_next(s2);
        let pool = trap_pool(depth);
        let t = pool[rng_roll(s3, pool.len() as int)];
        (v.push((x as i32, y as i32, t)), rng_next(s3))
    }
}

/// The traps of a new level at `depth` in a `width` by `height` map: as
/// many as `traps_per_level` draws, each placed away from the edge.
pub fn generate_traps_for_level(depth: i32, width: i32, height: i32, rng: &mut NetHackRng) -> (r: Vec<(i32, i32, TrapType)>)
    requires
        width > 2,
        height > 2,
    ensures
        ({
            let s0 = old(rng)@;
            let count = trap_count_base(depth as int) + rng_roll(s0, 5);
            let (v, s) = placed_traps(rng_next(s0), depth as int, width as int, height as int, count as nat);
            r@ == v && final(rng)@ == s
        }),
{
    let ghost s0 = rng@;
    proof {
        crate::rng::lemma_roll_range(s0, 5);
    }
    let count = traps_per_level(depth, rng);
    let ghost s1 = rng@;
    let mut result: Vec<(i32, i32, TrapType)> = Vec::new();
    let mut k: i32 = 0;
    while k < count
        invariant
            0 <= k,
            count > 0 ==> k <= count,
            count <= 0 ==> k == 0,
            width > 2,
            height > 2,
            (result@, rng@) == placed_traps(s1, depth as int, width as int, height as int, k as nat),
        decreases count - k,
    {
        let x = rng.rn2(width - 2) + 1;
        let y = rng.rn2(height - 2) + 1;
        let typ = random_trap_type(depth, rng);
        result.push((x, y, typ));
        k = k + 1;
    }
    result
}

fn dice_by_draws(n: i32, sides: i32, rng: &mut NetHackRng) -> (r: i32)
    requires
        0 <= n <= 4,
        0 < sides <= 10,
    ensures
        r == dice_total(old(rng)@, n as nat, sides as int),
        final(rng)@ == rng_after(old(rng)@, n as nat),
        n <= r <= n * sides,
{
    let mut dmg: i32 = 0;
    let mut k: i32 = 0;
    while k < n
        invariant
            0 <= k <= n <= 4,
            0 < sides <= 10,
            dmg == dice_total(old(rng)@, k as nat, sides as int),
            rng@ == rng_after(old(rng)@, k as nat),
            k <= dmg <= k * sides,
        decreases n - k,
    {
        proof {
            crate::rng::lemma_roll_range(rng@, sides as int);
        }
        assert(k * sides <= 40) by (nonlinear_arith)
            requires
                0 <= k <= 4,
                0 < sides <= 10,
        ;
        dmg = dmg + rng.rn2(sides) + 1;
        k = k + 1;
        assert(k * sides == (k - 1) * sides + sides) by (nonlinear_arith);
    }
    dmg
}

/// How many dice of how many sides a kind of trap rolls for its base
/// damage (arrows 1d6 plus a quarter of the depth up to 5, darts 1d3, rocks
/// 2d6, bear traps 2d4, land mines 4d6, pits 2d6, spiked pits 3d6, holes
/// 1d6, fire 2d4 plus half the depth, magic 1d10 plus 4, boulders 3d6).
pub open spec fn base_dice(t: TrapType) -> (nat, int) {
    match t {
        TrapType::Arrow => (1, 6),
        TrapType::Dart => (1, 3),
        TrapType::Rock => (2, 6),
        TrapType::BearTrap => (2, 4),
        TrapType::Landmine => (4, 6),
        TrapType::Pit => (2, 6),
        TrapType::SpikedPit => (3, 6),
        TrapType::Hole | TrapType::TrapDoor => (1, 6),
        TrapType::Fire => (2, 4),
        TrapType::Magic => (1, 10),
        TrapType::RollingBoulder => (3, 6),
        _ => (0, 1),
    }
}

/// The fixed part of a kind of trap's base damage at `depth`.
pub open spec fn base_bonus(t: TrapType, depth: int) -> int {
    match t {
        TrapType::Arrow => { let b = div_trunc(depth, 4); if b < 5 { b } else { 5 } },
        TrapType::Fire => div_trunc(depth, 2),
        TrapType::Magic => 4,
        _ => 0,
    }
}

/// The base damage of a kind of trap at `depth`: its dice, one draw each,
/// plus its fixed part; harmless traps deal 0 without drawing.
pub fn trap_base_damage(trap_type: TrapType, depth: i32, rng: &mut NetHackRng) -> (r: i32)
    ensures
        ({
            let (n, sides) = base_dice(trap_type);
            &&& r == dice_total(old(rng)@, n, sides) + base_bonus(trap_type, depth as int)
            &&& final(rng)@ == rng_after(old(rng)@, n)
        }),
{
    proof {
        crate::rng::lemma_one_die(rng@, 6);
        crate::rng::lemma_one_die(rng@, 3);
        crate::rng::lemma_one_die(rng@, 10);
    }
    match trap_type {
        TrapType::Arrow => {
            let base = rng.rn2(6) + 1;
            let q = depth / 4;
            let depth_bonus = if q < 5 { q } else { 5 };
            base + depth_bonus
        },
        TrapType::Dart => rng.rn2(3) + 1,
        TrapType::Rock => dice_by_draws(2, 6, rng),
        TrapType::BearTrap => dice_by_draws(2, 4, rng),
        TrapType::Landmine => dice_by_draws(4, 6, rng),
        TrapType::Pit => dice_by_draws(2, 6, rng),
        TrapType::SpikedPit => dice_by_draws(3, 6, rng),
        TrapType::Hole | TrapType::TrapDoor => rng.rn2(6) + 1,
        TrapType::Fire => {
            let d = dice_by_draws(2, 4, rng);
            d + depth / 2
        },
        TrapType::Magic => rng.rn2(10) + 5,
        TrapType::RollingBoulder => dice_by_draws(3, 6, rng),
        _ => 0,
    }
}

/// Whether a kind of trap lies on the ground, so that flying or levitating
/// passes over it.
pub open spec fn is_ground_trap(t: TrapType) -> bool {
    t == TrapType::BearTrap || t == TrapType::Landmine || t == TrapType::Pit || t == TrapType::SpikedPit
        || t == TrapType::SqueakyBoard || t == TrapType::Web || t == TrapType::VibratingSquare
}

/// Whether the hero evades a trap: always over a ground trap in the air;
/// otherwise a draw `1..=20` plus a third of dexterity plus luck must beat
/// the trap's evasion difficulty.
pub fn trap_evasion_check(
    dexterity: i32,
    luck: i32,
    trap_type: TrapType,
    is_flying: bool,
    is_levitating: bool,
    rng: &mut NetHackRng,
) -> (r: bool)
    requires
        i32::MIN - i32::MIN / 3 <= luck <= i32::MAX - 21 - i32::MAX / 3,
    ensures
        is_ground_trap(trap_type) && (is_flying || is_levitating) ==> r && final(rng)@ == old(rng)@,
        !(is_ground_trap(trap_type) && (is_flying || is_levitating)) ==> {
            &&& final(rng)@ == rng_next(old(rng)@)
            &&& r == (rng_roll(old(rng)@, 20) + 1 + div_trunc(dexterity as int, 3) + luck > evasion_difficulty(trap_type))
        },
{
    let ground_trap = trap_type == TrapType::BearTrap || trap_type == TrapType::Landmine || trap_type == TrapType::Pit
        || trap_type == TrapType::SpikedPit || trap_type == TrapType::SqueakyBoard || trap_type == TrapType::Web
        || trap_type == TrapType::VibratingSquare;
    if ground_trap && (is_flying || is_levitating) {
        return true;
    }
    let difficulty = trap_evasion_difficulty(trap_type);
    let roll = rng.rn2(20) + 1 + dexterity / 3 + luck;
    roll > difficulty
}

/// How well a creature resists a trap.
#[derive(Debug, Clone, Copy, PartialEq, Eq, Structural)]
pub enum TrapResistance {
    Immune,
    PartialResist,
    Vulnerable,
}

/// How well a creature resists a kind of trap: fire and sleep resistance
/// make it immune to fire and gas, poison resistance partly resists darts,
/// magic resistance partly resists magic and anti-magic traps.
pub fn trap_resistance_check(
    trap_type: TrapType,
    fire_res: bool,
    poison_res: bool,
    sleep_res: bool,
    shock_res: bool,
    magic_res: bool,
) -> (r: TrapResistance)
    ensures
        r == match trap_type {
            TrapType::Fire => if fire_res { TrapResistance::Immune } else { TrapResistance::Vulnerable },
            TrapType::Dart => if poison_res { TrapResistance::PartialResist } else { TrapResistance::Vulnerable },
            TrapType::SleepGas => if sleep_res { TrapResistance::Immune } else { TrapResistance::Vulnerable },
            TrapType::Magic | TrapType::AntiMagic => if magic_res {
                TrapResistance::PartialResist
            } else {
                TrapResistance::Vulnerable
            },
            _ => TrapResistance::Vulnerable,
        },
{
    match trap_type {
        TrapType::Fire => if fire_res { TrapResistance::Immune } else { TrapResistance::Vulnerable },
        TrapType::Dart => if poison_res { TrapResistance::PartialResist } else { TrapResistance::Vulnerable },
        TrapType::SleepGas => if sleep_res { TrapResistance::Immune } else { TrapResistance::Vulnerable },
        TrapType::Magic | TrapType::AntiMagic => {
            if magic_res {
                TrapResistance::PartialResist
            } else {
                TrapResistance::Vulnerable
            }
        },
        TrapType::Rust => TrapResistance::Vulnerable,
        _ => TrapResistance::Vulnerable,
    }
}

/// Whether springing a kind of trap sets off its neighbours: only land
/// mines do.
pub fn trap_chain_reaction(trap_type: TrapType) -> (r: bool)
    ensures
        r == (trap_type == TrapType::Landmine),
{
    trap_type == TrapType::Landmine
}

/// How far a chain reaction reaches: 3 for a land mine, else 0.
pub fn chain_reaction_radius(trap_type: TrapType) -> (r: i32)
    ensures
        r == (if trap_type == TrapType::Landmine { 3i32 } else { 0i32 }),
{
    if trap_type == TrapType::Landmine { 3 } else { 0 }
}

/// What a magic trap conjures.
#[derive(Debug, Clone, Copy, PartialEq, Eq, Structural)]
pub enum MagicTrapEffect {
    ShowerOfMissiles,
    TowerOfFlame,
    PoolOfWater,
    BlindingFlash,
    FindGold,
    FindObject,
    CreateMonster,
    Teleportation,
    Nothing,
}

/// The magic trap effect for a draw `k` from `0..20`.
pub open spec fn magic_effect_for(k: int) -> MagicTrapEffect {
    if k <= 2 {
        MagicTrapEffect::ShowerOfMissiles
    } else if k <= 4 {
        MagicTrapEffect::TowerOfFlame
    } else if k == 5 {
        MagicTrapEffect::PoolOfWater
    } else if k <= 7 {
        MagicTrapEffect::BlindingFlash
    } else if k <= 9 {
        MagicTrapEffect::FindGold
    } else if k <= 11 {
        MagicTrapEffect::FindObject
    } else if k <= 14 {
        MagicTrapEffect::CreateMonster
    } else if k <= 16 {
        MagicTrapEffect::Teleportation
    } else {
        MagicTrapEffect::Nothing
    }
}

/// What a magic trap conjures, by a draw from `0..20`.
pub fn roll_magic_trap_effect(rng: &mut NetHackRng) -> (r: MagicTrapEffect)
    ensures
        r == magic_effect_for(rng_roll(old(rng)@, 20)),
        final(rng)@ == rng_next(old(rng)@),
{
    let k = rng.rn2(20);
    if k <= 2 {
        MagicTrapEffect::ShowerOfMissiles
    } else if k <= 4 {
        MagicTrapEffect::TowerOfFlame
    } else if k == 5 {
        MagicTrapEffect::PoolOfWater
    } else if k <= 7 {
        MagicTrapEffect::BlindingFlash
    } else if k <= 9 {
        MagicTrapEffect::FindGold
    } else if k <= 11 {
        MagicTrapEffect::FindObject
    } else if k <= 14 {
        MagicTrapEffect::CreateMonster
    } else if k <= 16 {
        MagicTrapEffect::Teleportation
    } else {
        MagicTrapEffect::Nothing
    }
}

/// The damage of a magic trap effect at `depth`: missiles deal 5 to 14
/// plus a third of the depth, flames 8 to 19, the rest nothing.
pub fn magic_trap_effect_damage(effect: MagicTrapEffect, depth: i32, rng: &mut NetHackRng) -> (r: i32)
    ensures
        effect == MagicTrapEffect::ShowerOfMissiles ==> {
            &&& r == rng_roll(old(rng)@, 10) + 5 + div_trunc(depth as int, 3)
            &&& final(rng)@ == rng_next(old(rng)@)
        },
        effect == MagicTrapEffect::TowerOfFlame ==> {
            &&& r == rng_roll(old(rng)@, 12) + 8
            &&& final(rng)@ == rng_next(old(rng)@)
        },
        effect != MagicTrapEffect::ShowerOfMissiles && effect != MagicTrapEffect::TowerOfFlame
            ==> r == 0 && final(rng)@ == old(rng)@,
{
    match effect {
        MagicTrapEffect::ShowerOfMissiles => rng.rn2(10) + 5 + depth / 3,
        MagicTrapEffect::TowerOfFlame => rng.rn2(12) + 8,
        _ => 0,
    }
}

/// Where a level teleporter sends the hero: with control and a wish, the
/// wished depth kept within `1..=max_depth`; otherwise the current depth
/// moved by a draw from `0..max_depth` less half of `max_depth`, kept within
/// `1..=max_depth`.
pub fn level_teleport_destination(
    current_depth: i32,
    max_depth: i32,
    has_control: bool,
    desired_depth: Option<i32>,
    rng: &mut NetHackRng,
) -> (r: i32)
    requires
        max_depth >= 1,
        i32::MIN + i32::MAX / 2 <= current_depth <= i32::MAX - i32::MAX / 2,
    ensures
        has_control && desired_depth.is_some() ==> {
            &&& r == clamp(desired_depth.unwrap() as int, 1, max_depth as int)
            &&& final(rng)@ == old(rng)@
        },
        !(has_control && desired_depth.is_some()) ==> {
            let offset = rng_roll(old(rng)@, max_depth as int) - div_trunc(max_depth as int, 2);
            &&& r == clamp(current_depth + offset, 1, max_depth as int)
            &&& final(rng)@ == rng_next(old(rng)@)
        },
{
    if has_control {
        if let Some(desired) = desired_depth {
            return if desired < 1 { 1 } else if desired > max_depth { max_depth } else { desired };
        }
    }
    let offset = rng.rn2(if max_depth > 1 { max_depth } else { 1 }) - max_depth / 2;
    let d = current_depth + offset;
    if d < 1 { 1 } else if d > max_depth { max_depth } else { d }
}

/// Counts of what traps have done.
#[derive(Debug, Clone)]
pub struct TrapStatistics {
    pub traps_placed: u32,
    pub traps_triggered: u32,
    pub traps_evaded: u32,
    pub traps_disarmed: u32,
    pub total_damage_taken: i32,
    pub deaths_by_trap: u32,
}

impl TrapStatistics {
    /// All counts at zero.
    pub fn new() -> (s: TrapStatistics)
        ensures
            s.traps_placed == 0 && s.traps_triggered == 0 && s.traps_evaded == 0,
            s.traps_disarmed == 0 && s.total_damage_taken == 0 && s.deaths_by_trap == 0,
    {
        TrapStatistics {
            traps_placed: 0,
            traps_triggered: 0,
            traps_evaded: 0,
            traps_disarmed: 0,
            total_damage_taken: 0,
            deaths_by_trap: 0,
        }
    }

    /// Counts a sprung trap and the damage it dealt.
    pub fn record_trigger(&mut self, damage: i32)
        requires
            old(self).traps_triggered < u32::MAX,
            i32::MIN <= old(self).total_damage_taken + damage <= i32::MAX,
        ensures
            *final(self) == (TrapStatistics {
                traps_triggered: (old(self).traps_triggered + 1) as u32,
                total_damage_taken: (old(self).total_damage_taken + damage) as i32,
                ..*old(self)
            }),
    {
        self.traps_triggered = self.traps_triggered + 1;
        self.total_damage_taken = self.total_damage_taken + damage;
    }

    /// Counts an evaded trap.
    pub fn record_evasion(&mut self)
        requires
            old(self).traps_evaded < u32::MAX,
        ensures
            *final(self) == (TrapStatistics { traps_evaded: (old(self).traps_evaded + 1) as u32, ..*old(self) }),
    {
        self.traps_evaded = self.traps_evaded + 1;
    }

    /// Counts a disarmed trap.
    pub fn record_disarm(&mut self)
        requires
            old(self).traps_disarmed < u32::MAX,
        ensures
            *final(self) == (TrapStatistics { traps_disarmed: (old(self).traps_disarmed + 1) as u32, ..*old(self) }),
    {
        self.traps_disarmed = self.traps_disarmed + 1;
    }

    /// Counts a death by trap.
    pub fn record_death(&mut self)
        requires
            old(self).deaths_by_trap < u32::MAX,
        ensures
            *final(self) == (TrapStatistics { deaths_by_trap: (old(self).deaths_by_trap + 1) as u32, ..*old(self) }),
    {
        self.deaths_by_trap = self.deaths_by_trap + 1;
    }
}

/// How often each kind of trap turns up at `depth`: the common traps
/// always, land mines, fire and rust from depth 5, holes, trap doors and
/// gas from 8, teleporters and magic from 12, level teleporters,
/// polymorph traps and boulders from 16.
pub open spec fn weight_table(depth: int) -> Seq<(TrapType, i32)> {
    let t0 = seq![(TrapType::Arrow, 20i32), (TrapType::Dart, 20i32), (TrapType::Rock, 15i32),
        (TrapType::SqueakyBoard, 10i32), (TrapType::BearTrap, 10i32), (TrapType::Pit, 15i32),
        (TrapType::SpikedPit, 10i32), (TrapType::Web, 5i32)];
    let t1 = if depth >= 5 {
        t0 + seq![(TrapType::Landmine, 5i32), (TrapType::Fire, 8i32), (TrapType::Rust, 5i32)]
    } else {
        t0
    };
    let t2 = if depth >= 8 {
        t1 + seq![(TrapType::Hole, 5i32), (TrapType::TrapDoor, 5i32), (TrapType::SleepGas, 8i32)]
    } else {
        t1
    };
    let t3 = if depth >= 12 {
        t2 + seq![(TrapType::Teleport, 5i32), (TrapType::Magic, 3i32), (TrapType::AntiMagic, 3i32)]
    } else {
        t2
    };
    if depth >= 16 {
        t3 + seq![(TrapType::LevelTeleport, 3i32), (TrapType::Polymorph, 2i32), (TrapType::RollingBoulder, 5i32)]
    } else {
        t3
    }
}

/// How often each kind of trap turns up at `depth`.
pub fn trap_weight_table(depth: i32) -> (r: Vec<(TrapType, i32)>)
    ensures
        r@ == weight_table(depth as int),
{
    let mut table = vec![(TrapType::Arrow, 20), (TrapType::Dart, 20), (TrapType::Rock, 15),
        (TrapType::SqueakyBoard, 10), (TrapType::BearTrap, 10), (TrapType::Pit, 15), (TrapType::SpikedPit, 10),
        (TrapType::Web, 5)];
    let ghost t0 = table@;
    if depth >= 5 {
        table.push((TrapType::Landmine, 5));
        table.push((TrapType::Fire, 8));
        table.push((TrapType::Rust, 5));
    }
    let ghost t1 = table@;
    if depth >= 8 {
        table.push((TrapType::Hole, 5));
        table.push((TrapType::TrapDoor, 5));
        table.push((TrapType::SleepGas, 8));
    }
    let ghost t2 = table@;
    if depth >= 12 {
        table.push((TrapType::Teleport, 5));
        table.push((TrapType::Magic, 3));
        table.push((TrapType::AntiMagic, 3));
    }
    let ghost t3 = table@;
    if depth >= 16 {
        table.push((TrapType::LevelTeleport, 3));
        table.push((TrapType::Polymorph, 2));
        table.push((TrapType::RollingBoulder, 5));
    }
    assert(table@ =~= weight_table(depth as int));
    table
}

/// What a trap does to a monster.
#[derive(Debug, Clone)]
pub struct MonsterTrapResult {
    pub damage: i32,
    pub killed: bool,
    pub status_effect: Option<String>,
    pub message: String,
}

/// The condition a kind of trap leaves a monster in.
pub open spec fn monster_trap_status(t: TrapType, poison_res: bool) -> Option<Seq<char>> {
    if t == TrapType::BearTrap {
        Some("trapped"@)
    } else if t == TrapType::Web {
        Some("stuck"@)
    } else if t == TrapType::SleepGas && !poison_res {
        Some("asleep"@)
    } else {
        None
    }
}

/// What a trap does to a monster: the trap's base damage (none from fire to
/// a fire resistant monster), which kills it at or above its hit points; a
/// bear trap or web holds it and gas puts it to sleep unless it resists
/// poison; and a message naming it.
pub fn monster_trap_damage(
    trap_type: TrapType,
    monster_name: &str,
    monster_hp: i32,
    depth: i32,
    fire_res: bool,
    poison_res: bool,
    rng: &mut NetHackRng,
) -> (r: MonsterTrapResult)
    ensures
        ({
            let (n, sides) = base_dice(trap_type);
            let base = dice_total(old(rng)@, n, sides) + base_bonus(trap_type, depth as int);
            let dmg = if trap_type == TrapType::Fire && fire_res { 0 } else { base };
            &&& final(rng)@ == rng_after(old(rng)@, n)
            &&& r.damage == dmg
            &&& r.killed == (dmg >= monster_hp)
            &&& crate::text::opt_text(r.status_effect) == monster_trap_status(trap_type, poison_res)
            &&& r.message@ == if dmg >= monster_hp {
                monster_name@ + " is killed by a trap!"@
            } else if dmg > 0 {
                monster_name@ + " triggers a trap! ("@ + crate::text::int_text(dmg) + " damage)"@
            } else {
                monster_name@ + " triggers a trap but is unharmed."@
            }
        }),
{
    let base_dmg = trap_base_damage(trap_type, depth, rng);
    let adjusted_dmg = if trap_type == TrapType::Fire && fire_res { 0 } else { base_dmg };
    let killed = adjusted_dmg >= monster_hp;
    let status: Option<String> = if trap_type == TrapType::BearTrap {
        Some("trapped".to_string())
    } else if trap_type == TrapType::Web {
        Some("stuck".to_string())
    } else if trap_type == TrapType::SleepGas && !poison_res {
        Some("asleep".to_string())
    } else {
        None
    };
    let msg = if killed {
        crate::text::concat2(monster_name, " is killed by a trap!")
    } else if adjusted_dmg > 0 {
        let tail = text_with_int(" triggers a trap! (", adjusted_dmg as i64, " damage)");
        crate::text::concat2(monster_name, tail.as_str())
    } else {
        crate::text::concat2(monster_name, " triggers a trap but is unharmed.")
    };
    MonsterTrapResult { damage: adjusted_dmg, killed, status_effect: status, message: msg }
}

/// The experience for disarming a kind of trap before the level discount.
pub open spec fn disarm_xp_base(t: TrapType) -> int {
    match t {
        TrapType::Landmine => 6,
        TrapType::BearTrap => 3,
        TrapType::Fire => 5,
        TrapType::SleepGas => 4,
        TrapType::Dart | TrapType::Arrow => 2,
        TrapType::SpikedPit | TrapType::Pit => 3,
        TrapType::Web => 1,
        TrapType::Magic | TrapType::AntiMagic => 8,
        TrapType::Polymorph => 10,
        _ => 1,
    }
}

/// The experience for disarming a kind of trap: its base less a fifth of
/// the hero's level, at least 1.
pub fn trap_disarm_xp(trap_type: TrapType, player_level: i32) -> (r: i32)
    requires
        player_level > i32::MIN + 60,
    ensures
        ({
            let x = disarm_xp_base(trap_type) - div_trunc(player_level as int, 5);
            r == (if x > 1 { x } else { 1 })
        }),
{
    let base: i32 = match trap_type {
        TrapType::Landmine => 6,
        TrapType::BearTrap => 3,
        TrapType::Fire => 5,
        TrapType::SleepGas => 4,
        TrapType::Dart | TrapType::Arrow => 2,
        TrapType::SpikedPit | TrapType::Pit => 3,
        TrapType::Web => 1,
        TrapType::Magic | TrapType::AntiMagic => 8,
        TrapType::Polymorph => 10,
        _ => 1,
    };
    let x = base - player_level / 5;
    if x > 1 { x } else { 1 }
}

/// The part recovered from a disarmed trap, if any.
pub open spec fn disarm_part(t: TrapType) -> Option<Seq<char>> {
    match t {
        TrapType::Arrow => Some("arrow"@),
        TrapType::Dart => Some("dart"@),
        TrapType::BearTrap => Some("bear trap"@),
        TrapType::Landmine => Some("land mine"@),
        TrapType::RollingBoulder => Some("boulder"@),
        TrapType::Web => Some("spider web"@),
        _ => None,
    }
}

/// The parts recovered from a disarmed trap: one for traps that leave a
/// part, none for the others.
pub fn trap_disarm_parts(trap_type: TrapType) -> (r: Vec<&'static str>)
    ensures
        disarm_part(trap_type) is None ==> r@.len() == 0,
        disarm_part(trap_type) matches Some(p) ==> r@.len() == 1 && r@[0]@ == p,
{
    match trap_type {
        TrapType::Arrow => vec!["arrow"],
        TrapType::Dart => vec!["dart"],
        TrapType::BearTrap => vec!["bear trap"],
        TrapType::Landmine => vec!["land mine"],
        TrapType::RollingBoulder => vec!["boulder"],
        TrapType::Web => vec!["spider web"],
        _ => Vec::new(),
    }
}

/// How a trap affects a creature.
#[derive(Debug, Clone, PartialEq, Eq, Structural)]
pub enum TrapImmunity {
    Immune,
    Resistant,
    Vulnerable,
    Normal,
}

/// How a kind of trap affects a creature: in the air it is immune to pits,
/// holes, trap doors, squeaky boards and land mines, and flying to bear
/// traps; fire resistance resists fire and webs, sleep resistance makes it
/// immune to gas, poison resistance resists darts, magic resistance resists
/// magic and anti-magic traps; a land mine on the ground is deadly;
/// anything else is normal.
pub open spec fn immunity_of(
    t: TrapType,
    is_flying: bool,
    is_levitating: bool,
    fire_resistant: bool,
    sleep_resistant: bool,
    poison_resistant: bool,
    magic_resistant: bool,
) -> TrapImmunity {
    let airborne = is_flying || is_levitating;
    match t {
        TrapType::Pit | TrapType::SpikedPit | TrapType::Hole | TrapType::TrapDoor | TrapType::SqueakyBoard =>
            if airborne { TrapImmunity::Immune } else { TrapImmunity::Normal },
        TrapType::Fire | TrapType::Web => if fire_resistant { TrapImmunity::Resistant } else { TrapImmunity::Normal },
        TrapType::SleepGas => if sleep_resistant { TrapImmunity::Immune } else { TrapImmunity::Normal },
        TrapType::Dart => if poison_resistant { TrapImmunity::Resistant } else { TrapImmunity::Normal },
        TrapType::BearTrap => if is_flying { TrapImmunity::Immune } else { TrapImmunity::Normal },
        TrapType::Magic | TrapType::AntiMagic => if magic_resistant {
            TrapImmunity::Resistant
        } else {
            TrapImmunity::Normal
        },
        TrapType::Landmine => if airborne { TrapImmunity::Immune } else { TrapImmunity::Vulnerable },
        _ => TrapImmunity::Normal,
    }
}

/// How a kind of trap affects a creature with the given abilities.
pub fn check_trap_immunity(
    trap_type: TrapType,
    is_flying: bool,
    is_levitating: bool,
    fire_resistant: bool,
    sleep_resistant: bool,
    poison_resistant: bool,
    shock_resistant: bool,
    magic_resistant: bool,
) -> (r: TrapImmunity)
    ensures
        r == immunity_of(trap_type, is_flying, is_levitating, fire_resistant, sleep_resistant, poison_resistant,
            magic_resistant),
{
    match trap_type {
        TrapType::Pit | TrapType::SpikedPit | TrapType::Hole | TrapType::TrapDoor => {
            if is_flying || is_levitating {
                TrapImmunity::Immune
            } else {
                TrapImmunity::Normal
            }
        },
        TrapType::Fire => {
            if fire_resistant {
                TrapImmunity::Resistant
            } else {
                TrapImmunity::Normal
            }
        },
        TrapType::SleepGas => {
            if sleep_resistant {
                TrapImmunity::Immune
            } else {
                TrapImmunity::Normal
            }
        },
        TrapType::Dart => {
            if poison_resistant {
                TrapImmunity::Resistant
            } else {
                TrapImmunity::Normal
            }
        },
        TrapType::SqueakyBoard => {
            if is_levitating || is_flying {
                TrapImmunity::Immune
            } else {
                TrapImmunity::Normal
            }
        },
        TrapType::BearTrap => {
            if is_flying {
                TrapImmunity::Immune
            } else {
                TrapImmunity::Normal
            }
        },
        TrapType::Magic | TrapType::AntiMagic => {
            if magic_resistant {
                TrapImmunity::Resistant
            } else {
                TrapImmunity::Normal
            }
        },
        TrapType::Web => {
            if fire_resistant {
                TrapImmunity::Resistant
            } else {
                TrapImmunity::Normal
            }
        },
        TrapType::Rust => TrapImmunity::Normal,
        TrapType::Landmine => {
            if is_flying || is_levitating {
                TrapImmunity::Immune
            } else {
                TrapImmunity::Vulnerable
            }
        },
        _ => TrapImmunity::Normal,
    }
}

/// The offset of neighbour `k` of a square, for `k` in `0..8`, column by
/// column from the north-west.
pub open spec fn neighbour(k: int) -> (i32, i32) {
    if k == 0 {
        (-1i32, -1i32)
    } else if k == 1 {
        (-1i32, 0i32)
    } else if k == 2 {
        (-1i32, 1i32)
    } else if k == 3 {
        (0i32, -1i32)
    } else if k == 4 {
        (0i32, 1i32)
    } else if k == 5 {
        (1i32, -1i32)
    } else if k == 6 {
        (1i32, 0i32)
    } else {
        (1i32, 1i32)
    }
}

/// The neighbours caught in a chain reaction among the first `k`, when each
/// is caught by a draw from `0..odds` being 0, one draw per neighbour in
/// turn from state `s`.
pub open spec fn chained(s: u64, odds: int, k: nat) -> Seq<(i32, i32)>
    decreases k,
{
    if k == 0 {
        Seq::empty()
    } else {
        let prev = chained(s, odds, (k - 1) as nat);
        if rng_roll(rng_after(s, (k - 1) as nat), odds) == 0 {
            prev.push(neighbour(k - 1))
        } else {
            prev
        }
    }
}

/// The odds against each neighbour joining a chain reaction of a kind of
/// trap: 4 for a land mine, 6 for fire, none for the rest.
pub open spec fn chain_odds(t: TrapType) -> int {
    if t == TrapType::Landmine { 4 } else if t == TrapType::Fire { 6 } else { 0 }
}

/// The neighbouring squares a land mine (one in four each) or fire trap
/// (one in six each) sets off; none for other traps.
pub fn trap_chain_tiles(trap_type: TrapType, rng: &mut NetHackRng) -> (r: Vec<(i32, i32)>)
    ensures
        chain_odds(trap_type) == 0 ==> r@.len() == 0 && final(rng)@ == old(rng)@,
        chain_odds(trap_type) > 0 ==> {
            &&& r@ == chained(old(rng)@, chain_odds(trap_type), 8)
            &&& final(rng)@ == rng_after(old(rng)@, 8)
        },
{
    let odds: i32 = if trap_type == TrapType::Landmine {
        4
    } else if trap_type == TrapType::Fire {
        6
    } else {
        return Vec::new();
    };
    let ghost s0 = rng@;
    let mut chain: Vec<(i32, i32)> = Vec::new();
    let mut k: usize = 0;
    let mut dx: i32 = -1;
    while dx <= 1
        invariant
            -1 <= dx <= 2,
            k == 3 * (dx + 1) - (if dx >= 1 { 1int } else { 0int }),
            odds == 4 || odds == 6,
            odds == chain_odds(trap_type),
            s0 == old(rng)@,
            chain@ == chained(s0, odds as int, k as nat),
            rng@ == rng_after(s0, k as nat),
        decreases 2 - dx,
    {
        let mut dy: i32 = -1;
        while dy <= 1
            invariant
                -1 <= dx <= 1,
                -1 <= dy <= 2,
                k == 3 * (dx + 1) + (dy + 1) - (if dx == 1 || (dx == 0 && dy >= 1) { 1int } else { 0int }),
                odds == 4 || odds == 6,
                chain@ == chained(s0, odds as int, k as nat),
                rng@ == rng_after(s0, k as nat),
            decreases 2 - dy,
        {
            if dx == 0 && dy == 0 {
                dy = dy + 1;
                continue;
            }
            assert(neighbour(k as int) == (dx, dy));
            let caught = rng.rn2(odds) == 0;
            if caught {
                chain.push((dx, dy));
            }
            k = k + 1;
            dy = dy + 1;
        }
        dx = dx + 1;
    }
    chain
}

/// What a magic trap changes about the hero.
#[derive(Debug, Clone, PartialEq, Eq, Structural)]
pub enum TrapTransformEffect {
    NoChange,
    Polymorph,
    LevelTeleport,
    Teleport,
    MagicDrain,
    StatChange(i32),
    ItemChange,
}

/// The change for a draw `k` from `0..12`.
pub open spec fn transform_for(k: int) -> TrapTransformEffect {
    if k == 0 {
        TrapTransformEffect::Polymorph
    } else if k == 1 {
        TrapTransformEffect::Teleport
    } else if k == 2 {
        TrapTransformEffect::LevelTeleport
    } else if k == 3 {
        TrapTransformEffect::MagicDrain
    } else if k == 4 {
        TrapTransformEffect::StatChange(1i32)
    } else if k == 5 {
        TrapTransformEffect::StatChange(-1i32)
    } else if k == 6 {
        TrapTransformEffect::ItemChange
    } else {
        TrapTransformEffect::NoChange
    }
}

/// What a magic trap changes, by a draw from `0..12`.
pub fn magic_trap_effect(rng: &mut NetHackRng) -> (r: TrapTransformEffect)
    ensures
        r == transform_for(rng_roll(old(rng)@, 12)),
        final(rng)@ == rng_next(old(rng)@),
{
    let k = rng.rn2(12);
    if k == 0 {
        TrapTransformEffect::Polymorph
    } else if k == 1 {
        TrapTransformEffect::Teleport
    } else if k == 2 {
        TrapTransformEffect::LevelTeleport
    } else if k == 3 {
        TrapTransformEffect::MagicDrain
    } else if k == 4 {
        TrapTransformEffect::StatChange(1)
    } else if k == 5 {
        TrapTransformEffect::StatChange(-1)
    } else if k == 6 {
        TrapTransformEffect::ItemChange
    } else {
        TrapTransformEffect::NoChange
    }
}

/// The bonus a tool whose name, in lowercase, is `l` gives to disarming:
/// a tinning kit 3, a pick-axe or mattock 5, a dagger or knife 2, a
/// stethoscope 4, else nothing.
pub open spec fn tool_bonus(l: Seq<char>) -> i32 {
    if has_sub(l, "tinning kit"@) {
        3
    } else if has_sub(l, "pick-axe"@) || has_sub(l, "mattock"@) {
        5
    } else if has_sub(l, "dagger"@) || has_sub(l, "knife"@) {
        2
    } else if has_sub(l, "stethoscope"@) {
        4
    } else {
        0
    }
}

/// The bonus a tool gives to disarming, by its name in lowercase.
pub fn tool_bonus_from_lowercase(l: &str) -> (r: i32)
    ensures
        r == tool_bonus(l@),
{
    if str_contains(l, "tinning kit") {
        return 3;
    }
    if str_contains(l, "pick-axe") || str_contains(l, "mattock") {
        return 5;
    }
    if str_contains(l, "dagger") || str_contains(l, "knife") {
        return 2;
    }
    if str_contains(l, "stethoscope") {
        return 4;
    }
    0
}

/// The bonus a tool gives to disarming, by its name in any case.
pub fn trap_disarm_tool_bonus(tool_name: &str) -> (r: i32)
    ensures
        r == tool_bonus(lowercase(tool_name@)),
{
    let lower = str_to_lowercase(tool_name);
    tool_bonus_from_lowercase(lower.as_str())
}

/// The most traps a level at a depth may hold: 20 plus the depth, at most 60.
pub fn max_traps_per_level(dungeon_depth: i32) -> (r: i32)
    requires
        dungeon_depth <= i32::MAX - 20,
    ensures
        r == (if 20 + dungeon_depth < 60 { 20 + dungeon_depth } else { 60 }),
{
    let base = 20 + dungeon_depth;
    if base < 60 { base } else { 60 }
}

/// Further counts of what traps have done.
#[derive(Debug, Clone)]
pub struct ExtendedTrapStatistics {
    pub traps_disarmed: u32,
    pub traps_triggered: u32,
    pub chain_reactions: u32,
    pub xp_from_disarm: i32,
    pub parts_recovered: u32,
    pub immunities_used: u32,
    pub magic_effects: u32,
}

impl ExtendedTrapStatistics {
    /// All counts at zero.
    pub fn new() -> (s: ExtendedTrapStatistics)
        ensures
            s.traps_disarmed == 0 && s.traps_triggered == 0 && s.chain_reactions == 0 && s.xp_from_disarm == 0,
            s.parts_recovered == 0 && s.immunities_used == 0 && s.magic_effects == 0,
    {
        ExtendedTrapStatistics {
            traps_disarmed: 0,
            traps_triggered: 0,
            chain_reactions: 0,
            xp_from_disarm: 0,
            parts_recovered: 0,
            immunities_used: 0,
            magic_effects: 0,
        }
    }

    /// Counts a sprung trap.
    pub fn record_trigger(&mut self)
        requires
            old(self).traps_triggered < u32::MAX,
        ensures
            *final(self) == (ExtendedTrapStatistics {
                traps_triggered: (old(self).traps_triggered + 1) as u32,
                ..*old(self)
            }),
    {
        self.traps_triggered = self.traps_triggered + 1;
    }

    /// Counts a disarmed trap and the experience it gave.
    pub fn record_disarm(&mut self, xp: i32)
        requires
            old(self).traps_disarmed < u32::MAX,
            i32::MIN <= old(self).xp_from_disarm + xp <= i32::MAX,
        ensures
            *final(self) == (ExtendedTrapStatistics {
                traps_disarmed: (old(self).traps_disarmed + 1) as u32,
                xp_from_disarm: (old(self).xp_from_disarm + xp) as i32,
                ..*old(self)
            }),
    {
        self.traps_disarmed = self.traps_disarmed + 1;
        self.xp_from_disarm = self.xp_from_disarm + xp;
    }

    /// Counts a chain reaction.
    pub fn record_chain(&mut self)
        requires
            old(self).chain_reactions < u32::MAX,
        ensures
            *final(self) == (ExtendedTrapStatistics {
                chain_reactions: (old(self).chain_reactions + 1) as u32,
                ..*old(self)
            }),
    {
        self.chain_reactions = self.chain_reactions + 1;
    }
}


/// What springing a trap does to the world besides the messages it logs:
/// whether the trap becomes known, the damage dealt, how long the victim
/// sleeps, which equipment slot rusts or burns, whether the trap is used up,
/// the depth the victim falls to, and a teleport (`true` between levels).
#[derive(Debug, Clone, Copy, PartialEq, Eq, Structural)]
pub struct TrapSpring {
    pub reveal: bool,
    pub damage: Option<i32>,
    pub sleep_turns: Option<u32>,
    pub rust_slot: Option<usize>,
    pub burn_slot: Option<usize>,
    pub remove_trap: bool,
    pub fall_to_depth: Option<i32>,
    pub teleport: Option<bool>,
}

/// Nothing happening but the trap perhaps becoming known.
pub open spec fn quiet(reveal: bool) -> TrapSpring {
    TrapSpring {
        reveal,
        damage: None,
        sleep_turns: None,
        rust_slot: None,
        burn_slot: None,
        remove_trap: false,
        fall_to_depth: None,
        teleport: None,
    }
}

/// A plain message on `turn`.
pub open spec fn said(text: Seq<char>, turn: u64) -> Message {
    (text, DEFAULT_COLOR, turn)
}

/// The messages for `dmg` damage to the victim: none for a victim without
/// hit points.
pub open spec fn hurt_msgs(has_health: bool, is_player: bool, dmg: int, turn: u64) -> Seq<Message> {
    if !has_health {
        Seq::empty()
    } else if is_player {
        seq![said("You take "@ + crate::text::int_text(dmg) + " damage!"@, turn)]
    } else {
        seq![said("The monster takes "@ + crate::text::int_text(dmg) + " damage!"@, turn)]
    }
}

/// `msgs` with `m` first when `c` holds.
pub open spec fn say_if(c: bool, m: Message, msgs: Seq<Message>) -> Seq<Message> {
    if c { seq![m] + msgs } else { msgs }
}

/// The log `ms` after the messages `new` are added in turn.
pub open spec fn add_all(ms: Seq<Message>, new: Seq<Message>, cap: nat) -> Seq<Message>
    decreases new.len(),
{
    if new.len() == 0 {
        ms
    } else {
        after_add(add_all(ms, new.drop_last(), cap), new.last(), cap)
    }
}

/// A victim's circumstances when a trap springs.
#[derive(Debug, Clone, Copy, PartialEq, Eq, Structural)]
pub struct TrapVictim {
    pub is_player: bool,
    pub has_health: bool,
    pub has_status: bool,
    pub equipment_slots: usize,
    pub depth: i32,
}

/// The slot of `slots` a random equipment hit picks from state `s`: none
/// without equipment.
pub open spec fn slot_pick(s: u64, slots: usize) -> (Option<usize>, u64) {
    if slots == 0 { (None, s) } else { (Some(rng_roll(s, slots as int) as usize), rng_next(s)) }
}

/// The messages, effects and final stream state when a trap of kind `t`
/// (known when `discovered`) springs on `v` on `turn`, the stream starting
/// in state `s0`.
pub open spec fn spring(t: TrapType, discovered: bool, v: TrapVictim, turn: u64, s0: u64) -> (Seq<Message>, TrapSpring, u64) {
    let p = v.is_player;
    let known = !discovered;
    let s1 = rng_next(s0);
    let s2 = rng_next(s1);
    match t {
        TrapType::Arrow => {
            let m0 = said(if p { "An arrow shoots out at you!"@ } else { "An arrow shoots out at the monster!"@ }, turn);
            if rng_roll(s0, 2) == 0 {
                let d = rng_roll(s1, 6) + 1;
                (seq![m0] + hurt_msgs(v.has_health, p, d, turn), TrapSpring { damage: Some(d as i32), ..quiet(known) }, s2)
            } else {
                (say_if(true, m0, say_if(p, said("The arrow misses you."@, turn), Seq::empty())), quiet(known), s1)
            }
        },
        TrapType::Dart => {
            let head = say_if(p, said("A little dart shoots out at you!"@, turn), Seq::empty());
            if rng_roll(s0, 2) == 0 {
                let d = rng_roll(s1, 3) + 1;
                let poison = if rng_roll(s2, 6) == 0 && p {
                    seq![(("The dart was poisoned!"@), [255u8, 100u8, 100u8], turn)]
                } else {
                    Seq::empty()
                };
                (head + hurt_msgs(v.has_health, p, d, turn) + poison, TrapSpring { damage: Some(d as i32), ..quiet(known) },
                    rng_next(s2))
            } else {
                (head + say_if(p, said("The dart misses you."@, turn), Seq::empty()), quiet(known), s1)
            }
        },
        TrapType::Rock => {
            let d = dice_total(s0, 2, 6);
            (say_if(p, said("A rock falls from the ceiling and hits you!"@, turn), hurt_msgs(v.has_health, p, d, turn)),
                TrapSpring { damage: Some(d as i32), ..quiet(known) }, rng_after(s0, 2))
        },
        TrapType::SqueakyBoard => (seq![said(if p {
            "A board beneath you squeaks loudly."@
        } else {
            "You hear a squeak."@
        }, turn)], quiet(true), s0),
        TrapType::BearTrap => {
            let d = rng_roll(s0, 4) + 1;
            (say_if(p, said("A bear trap snaps shut on your leg!"@, turn), hurt_msgs(v.has_health, p, d, turn)),
                TrapSpring { damage: Some(d as i32), ..quiet(known) }, s1)
        },
        TrapType::Landmine => {
            let d = dice_total(s0, 4, 8);
            (say_if(p, ("KAABLAMM!!! You stepped on a land mine!"@, [255u8, 100u8, 0u8], turn),
                hurt_msgs(v.has_health, p, d, turn)),
                TrapSpring { damage: Some(d as i32), remove_trap: true, ..quiet(known) }, rng_after(s0, 4))
        },
        TrapType::RollingBoulder => {
            let d = dice_total(s0, 3, 10);
            (say_if(p, ("A large boulder rolls towards you!"@, [200u8, 200u8, 200u8], turn),
                hurt_msgs(v.has_health, p, d, turn)), TrapSpring { damage: Some(d as i32), ..quiet(known) },
                rng_after(s0, 3))
        },
        TrapType::SleepGas => if p {
            if v.has_status {
                (seq![said("A cloud of gas puts you to sleep!"@, turn)],
                    TrapSpring { sleep_turns: Some((rng_roll(s0, 50) + 10) as u32), ..quiet(known) }, s1)
            } else {
                (seq![said("A cloud of gas puts you to sleep!"@, turn)], quiet(known), s0)
            }
        } else {
            (Seq::empty(), quiet(known), s0)
        },
        TrapType::Rust => if p {
            let (slot, s) = slot_pick(s0, v.equipment_slots);
            (seq![said("A gush of water hits you!"@, turn)], TrapSpring { rust_slot: slot, ..quiet(known) }, s)
        } else {
            (Seq::empty(), quiet(known), s0)
        },
        TrapType::Fire => {
            let d = rng_roll(s0, 10) + 5;
            let msgs = say_if(p, said("A burst of flame hits you!"@, turn), hurt_msgs(v.has_health, p, d, turn));
            if p {
                let (slot, s) = slot_pick(s1, v.equipment_slots);
                (msgs, TrapSpring { damage: Some(d as i32), burn_slot: slot, ..quiet(known) }, s)
            } else {
                (msgs, TrapSpring { damage: Some(d as i32), ..quiet(known) }, s1)
            }
        },
        TrapType::Pit | TrapType::SpikedPit => {
            let spiked = t == TrapType::SpikedPit;
            let m0 = said(if !p {
                "The monster falls into a pit!"@
            } else if spiked {
                "You fall into a spiked pit!"@
            } else {
                "You fall into a pit!"@
            }, turn);
            let d = dice_total(s0, 2, if spiked { 10 } else { 6 });
            let s = rng_after(s0, 2);
            let msgs = seq![m0] + hurt_msgs(v.has_health, p, d, turn);
            if spiked {
                (msgs + (if rng_roll(s, 6) == 0 && p {
                    seq![(("The spikes were poisoned!"@), [255u8, 100u8, 100u8], turn)]
                } else {
                    Seq::empty()
                }), TrapSpring { damage: Some(d as i32), ..quiet(known) }, rng_next(s))
            } else {
                (msgs, TrapSpring { damage: Some(d as i32), ..quiet(known) }, s)
            }
        },
        TrapType::Hole | TrapType::TrapDoor => if p {
            let m = if t == TrapType::TrapDoor {
                "A trap door opens under your feet!"@
            } else {
                "You fall through a hole in the floor!"@
            };
            (seq![(m, [255u8, 0u8, 0u8], turn)], TrapSpring {
                fall_to_depth: if v.depth + 1 <= 50 { Some((v.depth + 1) as i32) } else { None },
                ..quiet(known)
            }, s0)
        } else {
            (seq![said(if t == TrapType::TrapDoor {
                "A trap door opens under the monster!"@
            } else {
                "The monster falls through a hole!"@
            }, turn)], quiet(known), s0)
        },
        TrapType::Teleport => (say_if(p, said("A strange energy envelops you!"@, turn), Seq::empty()),
            TrapSpring { teleport: Some(false), ..quiet(known) }, s0),
        TrapType::LevelTeleport => (say_if(p, said("You feel a wrenching sensation!"@, turn), Seq::empty()),
            TrapSpring { teleport: Some(true), ..quiet(known) }, s0),
        TrapType::MagicPortal | TrapType::VibratingSquare => (say_if(p, said("Nothing happens."@, turn), Seq::empty()),
            quiet(known), s0),
        TrapType::Web => (say_if(p, said("You are caught in a spider web!"@, turn), Seq::empty()), quiet(known), s0),
        TrapType::Statue => (say_if(p, said("The statue comes to life!"@, turn), Seq::empty()), quiet(known), s0),
        TrapType::Magic => if p {
            let d = dice_total(s0, 1, 10);
            (seq![said("You are caught in a magical explosion!"@, turn)] + hurt_msgs(v.has_health, p, d, turn),
                TrapSpring { damage: Some(d as i32), ..quiet(known) }, rng_after(s0, 1))
        } else {
            (Seq::empty(), quiet(known), s0)
        },
        TrapType::AntiMagic => (say_if(p, said("You feel a sudden loss of energy!"@, turn), Seq::empty()),
            quiet(known), s0),
        TrapType::Polymorph => (say_if(p, said("You feel a change coming over you!"@, turn), Seq::empty()),
            quiet(known), s0),
        TrapType::NoTrap => (Seq::empty(), quiet(known), s0),
    }
}

proof fn lemma_add_all_concat(ms: Seq<Message>, a: Seq<Message>, b: Seq<Message>, cap: nat)
    ensures
        add_all(add_all(ms, a, cap), b, cap) == add_all(ms, a + b, cap),
    decreases b.len(),
{
    if b.len() == 0 {
        assert(a + b =~= a);
    } else {
        assert((a + b).drop_last() =~= a + b.drop_last());
        assert((a + b).last() == b.last());
        lemma_add_all_concat(ms, a, b.drop_last(), cap);
    }
}

fn say(log: &mut GameLog, text: &str, color: [u8; 3], turn: u64)
    requires
        old(log).wf(),
    ensures
        final(log).wf(),
        final(log).cap() == old(log).cap(),
        final(log).messages() == add_all(old(log).messages(), seq![(text@, color, turn)], old(log).cap()),
{
    log.add_colored(text, color, turn);
    proof {
        let one: Seq<Message> = seq![(text@, color, turn)];
        assert(one.drop_last() =~= Seq::<Message>::empty());
        assert(one.last() == (text@, color, turn));
        assert(add_all(old(log).messages(), Seq::<Message>::empty(), old(log).cap()) == old(log).messages());
    }
}

fn say_if_player(is_player: bool, log: &mut GameLog, text: &str, color: [u8; 3], turn: u64)
    requires
        old(log).wf(),
    ensures
        final(log).wf(),
        final(log).cap() == old(log).cap(),
        final(log).messages() == add_all(old(log).messages(), say_if(is_player, (text@, color, turn), Seq::empty()),
            old(log).cap()),
{
    if is_player {
        say(log, text, color, turn);
        assert(seq![(text@, color, turn)] + Seq::<Message>::empty() =~= seq![(text@, color, turn)]);
    }
}

fn report_hurt(log: &mut GameLog, has_health: bool, is_player: bool, dmg: i32, turn: u64)
    requires
        old(log).wf(),
    ensures
        final(log).wf(),
        final(log).cap() == old(log).cap(),
        final(log).messages() == add_all(old(log).messages(), hurt_msgs(has_health, is_player, dmg as int, turn),
            old(log).cap()),
{
    if has_health {
        let text = if is_player {
            text_with_int("You take ", dmg as i64, " damage!")
        } else {
            text_with_int("The monster takes ", dmg as i64, " damage!")
        };
        say(log, text.as_str(), DEFAULT_COLOR, turn);
    }
}

fn pick_slot(slots: usize, rng: &mut NetHackRng) -> (r: Option<usize>)
    requires
        slots <= i32::MAX,
    ensures
        (r, final(rng)@) == slot_pick(old(rng)@, slots),
{
    if slots == 0 {
        return None;
    }
    proof {
        crate::rng::lemma_roll_range(rng@, slots as int);
    }
    let k = rng.rn2(slots as i32);
    Some(k as usize)
}

fn spring_shot(trap: TrapType, discovered: bool, v: TrapVictim, log: &mut GameLog, turn: u64, rng: &mut NetHackRng) -> (r: TrapSpring)
    requires
        old(log).wf(),
        trap == TrapType::Arrow || trap == TrapType::Dart || trap == TrapType::Rock,
    ensures
        final(log).wf(),
        final(log).cap() == old(log).cap(),
        ({
            let (msgs, eff, s) = spring(trap, discovered, v, turn, old(rng)@);
            &&& final(log).messages() == add_all(old(log).messages(), msgs, old(log).cap())
            &&& r == eff
            &&& final(rng)@ == s
        }),
{
    let ghost ms0 = log.messages();
    let ghost cap = log.cap();
    let ghost s0 = rng@;
    let p = v.is_player;
    let known = !discovered;
    let quiet_r = TrapSpring {
        reveal: known,
        damage: None,
        sleep_turns: None,
        rust_slot: None,
        burn_slot: None,
        remove_trap: false,
        fall_to_depth: None,
        teleport: None,
    };
    if trap == TrapType::Arrow {
        let m0 = if p { "An arrow shoots out at you!" } else { "An arrow shoots out at the monster!" };
        say(log, m0, DEFAULT_COLOR, turn);
        let ghost a = seq![(m0@, DEFAULT_COLOR, turn)];
        if rng.rn2(2) == 0 {
            let d = rng.rn1(6, 1);
            report_hurt(log, v.has_health, p, d, turn);
            proof {
                lemma_add_all_concat(ms0, a, hurt_msgs(v.has_health, p, d as int, turn), cap);
            }
            TrapSpring { damage: Some(d), ..quiet_r }
        } else {
            say_if_player(p, log, "The arrow misses you.", DEFAULT_COLOR, turn);
            proof {
                lemma_add_all_concat(ms0, a, say_if(p, said("The arrow misses you."@, turn), Seq::empty()), cap);
                assert(a + say_if(p, said("The arrow misses you."@, turn), Seq::empty())
                    =~= say_if(true, said(m0@, turn), say_if(p, said("The arrow misses you."@, turn), Seq::empty())));
            }
            quiet_r
        }
    } else if trap == TrapType::Dart {
        say_if_player(p, log, "A little dart shoots out at you!", DEFAULT_COLOR, turn);
        let ghost head = say_if(p, said("A little dart shoots out at you!"@, turn), Seq::empty());
        if rng.rn2(2) == 0 {
            let d = rng.rn1(3, 1);
            let ghost ms1 = log.messages();
            report_hurt(log, v.has_health, p, d, turn);
            proof {
                lemma_add_all_concat(ms0, head, hurt_msgs(v.has_health, p, d as int, turn), cap);
            }
            let ghost mid = head + hurt_msgs(v.has_health, p, d as int, turn);
            let poisoned = rng.rn2(6) == 0;
            if poisoned {
                say_if_player(p, log, "The dart was poisoned!", [255, 100, 100], turn);
                proof {
                    lemma_add_all_concat(ms0, mid, say_if(p, ("The dart was poisoned!"@, [255u8, 100u8, 100u8], turn),
                        Seq::empty()), cap);
                    assert(say_if(p, ("The dart was poisoned!"@, [255u8, 100u8, 100u8], turn), Seq::empty())
                        =~= (if p { seq![(("The dart was poisoned!"@), [255u8, 100u8, 100u8], turn)] } else { Seq::empty() }));
                }
            } else {
                assert(mid + Seq::<Message>::empty() =~= mid);
            }
            TrapSpring { damage: Some(d), ..quiet_r }
        } else {
            say_if_player(p, log, "The dart misses you.", DEFAULT_COLOR, turn);
            proof {
                lemma_add_all_concat(ms0, head, say_if(p, said("The dart misses you."@, turn), Seq::empty()), cap);
            }
            quiet_r
        }
    } else {
        let d = rng.d(2, 6);
        say_if_player(p, log, "A rock falls from the ceiling and hits you!", DEFAULT_COLOR, turn);
        report_hurt(log, v.has_health, p, d, turn);
        proof {
            let h = say_if(p, said("A rock falls from the ceiling and hits you!"@, turn), Seq::empty());
            lemma_add_all_concat(ms0, h, hurt_msgs(v.has_health, p, d as int, turn), cap);
            assert(h + hurt_msgs(v.has_health, p, d as int, turn)
                =~= say_if(p, said("A rock falls from the ceiling and hits you!"@, turn), hurt_msgs(v.has_health, p, d as int, turn)));
        }
        TrapSpring { damage: Some(d), ..quiet_r }
    }
}


fn spring_ground(trap: TrapType, discovered: bool, v: TrapVictim, log: &mut GameLog, turn: u64, rng: &mut NetHackRng) -> (r: TrapSpring)
    requires
        old(log).wf(),
        trap == TrapType::BearTrap || trap == TrapType::Landmine || trap == TrapType::RollingBoulder
            || trap == TrapType::Pit || trap == TrapType::SpikedPit,
    ensures
        final(log).wf(),
        final(log).cap() == old(log).cap(),
        ({
            let (msgs, eff, s) = spring(trap, discovered, v, turn, old(rng)@);
            &&& final(log).messages() == add_all(old(log).messages(), msgs, old(log).cap())
            &&& r == eff
            &&& final(rng)@ == s
        }),
{
    let ghost ms0 = log.messages();
    let ghost cap = log.cap();
    let p = v.is_player;
    let quiet_r = TrapSpring {
        reveal: !discovered,
        damage: None,
        sleep_turns: None,
        rust_slot: None,
        burn_slot: None,
        remove_trap: false,
        fall_to_depth: None,
        teleport: None,
    };
    if trap == TrapType::BearTrap || trap == TrapType::Landmine || trap == TrapType::RollingBoulder {
        let (text, color): (&str, [u8; 3]) = if trap == TrapType::BearTrap {
            ("A bear trap snaps shut on your leg!", DEFAULT_COLOR)
        } else if trap == TrapType::Landmine {
            ("KAABLAMM!!! You stepped on a land mine!", [255, 100, 0])
        } else {
            ("A large boulder rolls towards you!", [200, 200, 200])
        };
        say_if_player(p, log, text, color, turn);
        let d = if trap == TrapType::BearTrap {
            rng.rn1(4, 1)
        } else if trap == TrapType::Landmine {
            rng.d(4, 8)
        } else {
            rng.d(3, 10)
        };
        report_hurt(log, v.has_health, p, d, turn);
        proof {
            let h = say_if(p, (text@, color, turn), Seq::empty());
            lemma_add_all_concat(ms0, h, hurt_msgs(v.has_health, p, d as int, turn), cap);
            assert(h + hurt_msgs(v.has_health, p, d as int, turn)
                =~= say_if(p, (text@, color, turn), hurt_msgs(v.has_health, p, d as int, turn)));
        }
        TrapSpring { damage: Some(d), remove_trap: trap == TrapType::Landmine, ..quiet_r }
    } else {
        let spiked = trap == TrapType::SpikedPit;
        let m0 = if !p {
            "The monster falls into a pit!"
        } else if spiked {
            "You fall into a spiked pit!"
        } else {
            "You fall into a pit!"
        };
        say(log, m0, DEFAULT_COLOR, turn);
        let d = rng.d(2, if spiked { 10 } else { 6 });
        report_hurt(log, v.has_health, p, d, turn);
        let ghost a = seq![(m0@, DEFAULT_COLOR, turn)];
        let ghost msgs = a + hurt_msgs(v.has_health, p, d as int, turn);
        proof {
            lemma_add_all_concat(ms0, a, hurt_msgs(v.has_health, p, d as int, turn), cap);
        }
        if spiked {
            let poisoned = rng.rn2(6) == 0;
            if poisoned {
                say_if_player(p, log, "The spikes were poisoned!", [255, 100, 100], turn);
                proof {
                    lemma_add_all_concat(ms0, msgs, say_if(p, ("The spikes were poisoned!"@, [255u8, 100u8, 100u8], turn),
                        Seq::empty()), cap);
                    assert(say_if(p, ("The spikes were poisoned!"@, [255u8, 100u8, 100u8], turn), Seq::empty())
                        =~= (if p { seq![(("The spikes were poisoned!"@), [255u8, 100u8, 100u8], turn)] } else { Seq::empty() }));
                }
            } else {
                assert(msgs + Seq::<Message>::empty() =~= msgs);
            }
        }
        TrapSpring { damage: Some(d), ..quiet_r }
    }
}

fn spring_element(trap: TrapType, discovered: bool, v: TrapVictim, log: &mut GameLog, turn: u64, rng: &mut NetHackRng) -> (r: TrapSpring)
    requires
        old(log).wf(),
        v.equipment_slots <= i32::MAX,
        trap == TrapType::SleepGas || trap == TrapType::Rust || trap == TrapType::Fire,
    ensures
        final(log).wf(),
        final(log).cap() == old(log).cap(),
        ({
            let (msgs, eff, s) = spring(trap, discovered, v, turn, old(rng)@);
            &&& final(log).messages() == add_all(old(log).messages(), msgs, old(log).cap())
            &&& r == eff
            &&& final(rng)@ == s
        }),
{
    let ghost ms0 = log.messages();
    let ghost cap = log.cap();
    let p = v.is_player;
    let quiet_r = TrapSpring {
        reveal: !discovered,
        damage: None,
        sleep_turns: None,
        rust_slot: None,
        burn_slot: None,
        remove_trap: false,
        fall_to_depth: None,
        teleport: None,
    };
    if trap == TrapType::SleepGas {
        if !p {
            return quiet_r;
        }
        say(log, "A cloud of gas puts you to sleep!", DEFAULT_COLOR, turn);
        if v.has_status {
            let t = rng.rn1(50, 10);
            TrapSpring { sleep_turns: Some(t as u32), ..quiet_r }
        } else {
            quiet_r
        }
    } else if trap == TrapType::Rust {
        if !p {
            return quiet_r;
        }
        say(log, "A gush of water hits you!", DEFAULT_COLOR, turn);
        let slot = pick_slot(v.equipment_slots, rng);
        TrapSpring { rust_slot: slot, ..quiet_r }
    } else {
        say_if_player(p, log, "A burst of flame hits you!", DEFAULT_COLOR, turn);
        let d = rng.rn1(10, 5);
        report_hurt(log, v.has_health, p, d, turn);
        proof {
            let h = say_if(p, said("A burst of flame hits you!"@, turn), Seq::empty());
            lemma_add_all_concat(ms0, h, hurt_msgs(v.has_health, p, d as int, turn), cap);
            assert(h + hurt_msgs(v.has_health, p, d as int, turn)
                =~= say_if(p, said("A burst of flame hits you!"@, turn), hurt_msgs(v.has_health, p, d as int, turn)));
        }
        if p {
            let slot = pick_slot(v.equipment_slots, rng);
            TrapSpring { damage: Some(d), burn_slot: slot, ..quiet_r }
        } else {
            TrapSpring { damage: Some(d), ..quiet_r }
        }
    }
}

fn spring_other(trap: TrapType, discovered: bool, v: TrapVictim, log: &mut GameLog, turn: u64, rng: &mut NetHackRng) -> (r: TrapSpring)
    requires
        old(log).wf(),
        v.depth < i32::MAX,
        !(trap == TrapType::Arrow || trap == TrapType::Dart || trap == TrapType::Rock || trap == TrapType::BearTrap
            || trap == TrapType::Landmine || trap == TrapType::RollingBoulder || trap == TrapType::Pit
            || trap == TrapType::SpikedPit || trap == TrapType::SleepGas || trap == TrapType::Rust
            || trap == TrapType::Fire),
    ensures
        final(log).wf(),
        final(log).cap() == old(log).cap(),
        ({
            let (msgs, eff, s) = spring(trap, discovered, v, turn, old(rng)@);
            &&& final(log).messages() == add_all(old(log).messages(), msgs, old(log).cap())
            &&& r == eff
            &&& final(rng)@ == s
        }),
{
    let ghost ms0 = log.messages();
    let ghost cap = log.cap();
    let p = v.is_player;
    let quiet_r = TrapSpring {
        reveal: !discovered,
        damage: None,
        sleep_turns: None,
        rust_slot: None,
        burn_slot: None,
        remove_trap: false,
        fall_to_depth: None,
        teleport: None,
    };
    match trap {
        TrapType::SqueakyBoard => {
            say(log, if p { "A board beneath you squeaks loudly." } else { "You hear a squeak." }, DEFAULT_COLOR, turn);
            TrapSpring { reveal: true, ..quiet_r }
        },
        TrapType::Hole | TrapType::TrapDoor => {
            if p {
                let m = if trap == TrapType::TrapDoor {
                    "A trap door opens under your feet!"
                } else {
                    "You fall through a hole in the floor!"
                };
                say(log, m, [255, 0, 0], turn);
                let next_depth = v.depth + 1;
                TrapSpring { fall_to_depth: if next_depth <= 50 { Some(next_depth) } else { None }, ..quiet_r }
            } else {
                say(log, if trap == TrapType::TrapDoor {
                    "A trap door opens under the monster!"
                } else {
                    "The monster falls through a hole!"
                }, DEFAULT_COLOR, turn);
                quiet_r
            }
        },
        TrapType::Teleport => {
            say_if_player(p, log, "A strange energy envelops you!", DEFAULT_COLOR, turn);
            TrapSpring { teleport: Some(false), ..quiet_r }
        },
        TrapType::LevelTeleport => {
            say_if_player(p, log, "You feel a wrenching sensation!", DEFAULT_COLOR, turn);
            TrapSpring { teleport: Some(true), ..quiet_r }
        },
        TrapType::MagicPortal | TrapType::VibratingSquare => {
            say_if_player(p, log, "Nothing happens.", DEFAULT_COLOR, turn);
            quiet_r
        },
        TrapType::Web => {
            say_if_player(p, log, "You are caught in a spider web!", DEFAULT_COLOR, turn);
            quiet_r
        },
        TrapType::Statue => {
            say_if_player(p, log, "The statue comes to life!", DEFAULT_COLOR, turn);
            quiet_r
        },
        TrapType::Magic => {
            if p {
                say(log, "You are caught in a magical explosion!", DEFAULT_COLOR, turn);
                let d = rng.d(1, 10);
                report_hurt(log, v.has_health, p, d, turn);
                proof {
                    lemma_add_all_concat(ms0, seq![said("You are caught in a magical explosion!"@, turn)],
                        hurt_msgs(v.has_health, p, d as int, turn), cap);
                }
                TrapSpring { damage: Some(d), ..quiet_r }
            } else {
                quiet_r
            }
        },
        TrapType::AntiMagic => {
            say_if_player(p, log, "You feel a sudden loss of energy!", DEFAULT_COLOR, turn);
            quiet_r
        },
        TrapType::Polymorph => {
            say_if_player(p, log, "You feel a change coming over you!", DEFAULT_COLOR, turn);
            quiet_r
        },
        _ => quiet_r,
    }
}

/// Springs a trap on a victim: logs what happens and gives its effects for
/// the world to apply. Arrows hit one time in two for `1..=6`, else miss;
/// darts hit one time in two for `1..=3`, then poison one time in six;
/// rocks deal two six-sided dice; a squeaky board squeaks and becomes
/// known; bear traps deal `1..=4`; land mines deal four eight-sided dice
/// and are used up; boulders deal three ten-sided dice; gas puts the hero
/// to sleep for 10 to 59 turns; water rusts and fire (5 to 14 damage) burns
/// a random piece of the hero's equipment; pits deal two six-sided dice
/// (ten-sided when spiked, with poisoned spikes one time in six); holes and
/// trap doors drop the hero one level, down to depth 50 at most; teleport
/// traps teleport, within the level or between levels; a magic trap deals
/// one ten-sided die to the hero. Damage is reported only for a victim with
/// hit points. Monsters get their own messages where they have them.
pub fn trigger_trap(
    trap: TrapType,
    discovered: bool,
    victim: TrapVictim,
    log: &mut GameLog,
    turn: u64,
    rng: &mut NetHackRng,
) -> (r: TrapSpring)
    requires
        old(log).wf(),
        victim.depth < i32::MAX,
        victim.equipment_slots <= i32::MAX,
    ensures
        final(log).wf(),
        final(log).cap() == old(log).cap(),
        ({
            let (msgs, eff, s) = spring(trap, discovered, victim, turn, old(rng)@);
            &&& final(log).messages() == add_all(old(log).messages(), msgs, old(log).cap())
            &&& r == eff
            &&& final(rng)@ == s
        }),
{
    if trap == TrapType::Arrow || trap == TrapType::Dart || trap == TrapType::Rock {
        spring_shot(trap, discovered, victim, log, turn, rng)
    } else if trap == TrapType::BearTrap || trap == TrapType::Landmine || trap == TrapType::RollingBoulder
        || trap == TrapType::Pit || trap == TrapType::SpikedPit {
        spring_ground(trap, discovered, victim, log, turn, rng)
    } else if trap == TrapType::SleepGas || trap == TrapType::Rust || trap == TrapType::Fire {
        spring_element(trap, discovered, victim, log, turn, rng)
    } else {
        spring_other(trap, discovered, victim, log, turn, rng)
    }
}

/// A square of a level: where a trap lies or a creature stands.
#[derive(Debug, Clone, Copy, PartialEq, Eq, Structural)]
pub struct Spot {
    pub x: i32,
    pub y: i32,
    pub level: LevelTarget,
}

/// The pairs `(t, j)`, `j` below `m` in order, of the trap `t` at `trap`
/// with each creature of `creatures` standing on that very spot.
pub open spec fn contacts_of(t: int, trap: Spot, creatures: Seq<Spot>, m: nat) -> Seq<(usize, usize)>
    decreases m,
{
    if m == 0 {
        Seq::empty()
    } else {
        let prev = contacts_of(t, trap, creatures, (m - 1) as nat);
        if creatures[m - 1] == trap { prev.push((t as usize, (m - 1) as usize)) } else { prev }
    }
}

/// The trap-creature pairs of the first `n` traps: trap by trap, and for
/// each trap the creatures on its spot in their order.
pub open spec fn contacts(traps: Seq<Spot>, creatures: Seq<Spot>, n: nat) -> Seq<(usize, usize)>
    decreases n,
{
    if n == 0 {
        Seq::empty()
    } else {
        contacts(traps, creatures, (n - 1) as nat) + contacts_of(n - 1, traps[n - 1], creatures, creatures.len())
    }
}

/// Which creatures spring which traps: every creature standing on a trap's
/// square of the trap's level springs it, trap by trap in the order of
/// `traps`, and for each trap the creatures in the order of `creatures`.
/// The pairs are indices into the two lists.
pub fn trap_contacts(traps: &Vec<Spot>, creatures: &Vec<Spot>) -> (r: Vec<(usize, usize)>)
    ensures
        r@ == contacts(traps@, creatures@, traps@.len()),
{
    let mut out: Vec<(usize, usize)> = Vec::new();
    let mut t: usize = 0;
    while t < traps.len()
        invariant
            t <= traps@.len(),
            out@ == contacts(traps@, creatures@, t as nat),
        decreases traps@.len() - t,
    {
        let ghost before = out@;
        let trap = traps[t];
        let mut j: usize = 0;
        while j < creatures.len()
            invariant
                t < traps@.len(),
                trap == traps@[t as int],
                j <= creatures@.len(),
                out@ == before + contacts_of(t as int, trap, creatures@, j as nat),
            decreases creatures@.len() - j,
        {
            if creatures[j] == trap {
                out.push((t, j));
            }
            proof {
                assert(before + contacts_of(t as int, trap, creatures@, (j + 1) as nat) =~= out@);
            }
            j = j + 1;
        }
        t = t + 1;
    }
    out
}

/// Only land mines are used up: a land mine is removed whenever it springs,
/// whoever steps on it and whatever the random stream holds, and no other
/// kind of trap removes itself.
pub proof fn only_land_mines_are_used_up(t: TrapType, discovered: bool, v: TrapVictim, turn: u64, s0: u64)
    ensures
        spring(t, discovered, v, turn, s0).1.remove_trap <==> t == TrapType::Landmine,
{
}

} // verus!
