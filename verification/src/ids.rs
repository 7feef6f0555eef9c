//! Identifiers and positions shared by the world model.
use vstd::prelude::*;
use crate::teleport::DungeonBranch;

verus! {

/// A map position, in columns and rows.
#[derive(Debug, Clone, Copy, PartialEq, Eq, Hash, Structural)]
pub struct Pos {
    pub x: i16,
    pub y: i16,
}

/// The identifier of an entity; 0 is never handed out.
#[derive(Debug, Clone, Copy, PartialEq, Eq, Hash, Structural)]
pub struct EntityId(pub u32);

/// A level: its branch and its depth in that branch.
#[derive(Debug, Clone, Copy, PartialEq, Eq, Hash, Structural)]
pub struct LevelId {
    pub branch: DungeonBranch,
    pub depth: i16,
}

impl LevelId {
    /// The level at `depth` of the main dungeon.
    pub open spec fn spec_main(depth: i16) -> LevelId {
        LevelId { branch: DungeonBranch::Main, depth }
    }

    /// The level at `depth` of the main dungeon.
    pub fn main(depth: i16) -> (r: LevelId)
        ensures
            r == LevelId::spec_main(depth),
    {
        LevelId { branch: DungeonBranch::Main, depth }
    }
}

} // verus!
