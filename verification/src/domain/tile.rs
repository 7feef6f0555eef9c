//! The kinds of squares of the fixed levels.
use vstd::prelude::*;

verus! {

/// Whether a door is open.
#[derive(Debug, Clone, Copy, PartialEq, Eq, Hash, Structural)]
pub enum DoorState {
    Closed,
    Open,
}

/// The kinds of trap of the fixed levels.
#[derive(Debug, Clone, Copy, PartialEq, Eq, Hash, Structural)]
pub enum TrapKind {
    Pit,
}

/// A square of a fixed level.
#[derive(Debug, Clone, Copy, PartialEq, Eq, Hash, Structural)]
pub enum TileKind {
    Wall,
    Floor,
    Door(DoorState),
    HiddenDoor,
    Trap(TrapKind),
    HiddenTrap(TrapKind),
    StairsDown,
    StairsUp,
}

/// Floors, open doors, traps (hidden or not) and stairs; walls, closed and
/// hidden doors are not.
pub open spec fn open_square(t: TileKind) -> bool {
    match t {
        TileKind::Floor | TileKind::Door(DoorState::Open) | TileKind::Trap(_) | TileKind::HiddenTrap(_)
        | TileKind::StairsDown | TileKind::StairsUp => true,
        _ => false,
    }
}

impl TileKind {
    /// Whether a creature can walk onto the square.
    pub fn is_movement_passable(self) -> (r: bool)
        ensures
            r == open_square(self),
    {
        match self {
            TileKind::Floor | TileKind::Door(DoorState::Open) | TileKind::Trap(_) | TileKind::HiddenTrap(_)
            | TileKind::StairsDown | TileKind::StairsUp => true,
            _ => false,
        }
    }

    /// Whether sight passes through the square; the same squares as for
    /// movement.
    pub fn is_los_transparent(self) -> (r: bool)
        ensures
            r == open_square(self),
    {
        match self {
            TileKind::Floor | TileKind::Door(DoorState::Open) | TileKind::Trap(_) | TileKind::HiddenTrap(_)
            | TileKind::StairsDown | TileKind::StairsUp => true,
            _ => false,
        }
    }

    /// What the square turns out to be once found: a hidden door is a
    /// closed door, a hidden trap a trap of its kind.
    pub open spec fn revealed(self) -> TileKind {
        match self {
            TileKind::HiddenDoor => TileKind::Door(DoorState::Closed),
            TileKind::HiddenTrap(k) => TileKind::Trap(k),
            other => other,
        }
    }

    /// What the square looks like before it is found: a hidden door looks
    /// like wall, a hidden trap like floor.
    pub open spec fn observed(self) -> TileKind {
        match self {
            TileKind::HiddenDoor => TileKind::Wall,
            TileKind::HiddenTrap(_) => TileKind::Floor,
            other => other,
        }
    }

    /// The square as it is once found.
    pub fn revealed_equivalent(self) -> (r: Self)
        ensures
            r == self.revealed(),
    {
        match self {
            TileKind::HiddenDoor => TileKind::Door(DoorState::Closed),
            TileKind::HiddenTrap(kind) => TileKind::Trap(kind),
            other => other,
        }
    }

    /// The square as it looks before it is found.
    pub fn observation_equivalent(self) -> (r: Self)
        ensures
            r == self.observed(),
    {
        match self {
            TileKind::HiddenDoor => TileKind::Wall,
            TileKind::HiddenTrap(_) => TileKind::Floor,
            other => other,
        }
    }

    /// Whether the square is a hidden door or a hidden trap.
    pub fn is_hidden(self) -> (r: bool)
        ensures
            r == (self is HiddenDoor || self is HiddenTrap),
    {
        match self {
            TileKind::HiddenDoor | TileKind::HiddenTrap(_) => true,
            _ => false,
        }
    }
}

/// Revealing and observing are idempotent and leave squares that are not
/// hidden alone; a square looks exactly as passable as it is, and a hidden
/// square once revealed is as passable as it was.
pub proof fn hidden_squares_look_like_their_surroundings(t: TileKind)
    ensures
        t.revealed().revealed() == t.revealed(),
        t.observed().observed() == t.observed(),
        !(t is HiddenDoor || t is HiddenTrap) ==> t.revealed() == t && t.observed() == t,
        open_square(t.observed()) == open_square(t),
        (t is HiddenDoor || t is HiddenTrap) ==> open_square(t.revealed()) == open_square(t),
{
}

} // verus!
