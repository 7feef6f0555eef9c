//! The errors of the world model and of content loading.
use vstd::prelude::*;
use crate::ids::Pos;

verus! {

/// An error of a world operation.
#[derive(Debug, Clone, Copy, PartialEq, Eq, Structural)]
pub enum GameError {
    /// The position is off the map.
    OutOfBounds { pos: Pos },
}

/// An error found while loading or looking up game content.
#[derive(Debug, Clone, PartialEq, Eq)]
pub enum ContentError {
    /// A content file could not be read.
    Parse { file: String, message: String },
    /// Two entries share an identifier.
    DuplicateId { id: String },
    /// A damage string is not `0` or `NdM` with positive `N` and `M`.
    InvalidDice { value: String },
    /// An entry names something that does not exist.
    UnknownReference { owner: String, target: String },
    /// A level position is off the level.
    InvalidCoordinate { level: String, x: i16, y: i16 },
    /// A staircase has no matching staircase on the neighbouring level.
    MissingStairsPair { level: String },
}

/// A content error as plain values: what kind of error and the texts and
/// numbers it carries.
pub enum Fault {
    Parse(Seq<char>, Seq<char>),
    Duplicate(Seq<char>),
    Dice(Seq<char>),
    Unknown(Seq<char>, Seq<char>),
    Coordinate(Seq<char>, int, int),
    Stairs(Seq<char>),
}

/// The plain values of a content error.
pub open spec fn fault_of(e: ContentError) -> Fault {
    match e {
        ContentError::Parse { file, message } => Fault::Parse(file@, message@),
        ContentError::DuplicateId { id } => Fault::Duplicate(id@),
        ContentError::InvalidDice { value } => Fault::Dice(value@),
        ContentError::UnknownReference { owner, target } => Fault::Unknown(owner@, target@),
        ContentError::InvalidCoordinate { level, x, y } => Fault::Coordinate(level@, x as int, y as int),
        ContentError::MissingStairsPair { level } => Fault::Stairs(level@),
    }
}

} // verus!
