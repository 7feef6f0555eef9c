//! Taking the stairs: what a climb or descent does, decided from the
//! square under the player, the portal there (if any) and the current
//! level; the caller moves between levels and asks for the narration.
use vstd::prelude::*;
use crate::tile::TileType;
use crate::teleport::DungeonBranch;
use crate::game_log::{GameLog, DEFAULT_COLOR, after_add};
use crate::text::{text_with_int, concat2, concat3, int_text};

verus! {

/// The command the player gave.
#[derive(Debug, Clone, Copy, PartialEq, Eq, Structural)]
pub enum StairsCommand {
    Descend,
    Ascend,
    Other,
}

/// A level of a branch.
#[derive(Debug, Clone, Copy, PartialEq, Eq, Structural)]
pub struct LevelTarget {
    pub branch: DungeonBranch,
    pub depth: i32,
}

/// Where an arrival on another level lands.
#[derive(Debug, Clone, Copy, PartialEq, Eq, Structural)]
pub enum LandingType {
    StairsUp,
    StairsDown,
    Coordinate(i32, i32),
    Random,
    /// At the portal that leads back to this level.
    Connection(LevelTarget),
}

/// The level change to make.
#[derive(Debug, Clone, Copy, PartialEq, Eq, Structural)]
pub enum LevelChange {
    NextLevel,
    PrevLevel,
    /// To `target`, landing as `landing` says.
    Teleport { target: LevelTarget, landing: LandingType },
}

/// What a move between levels was, for the narration.
#[derive(Debug, Clone, Copy, PartialEq, Eq)]
pub struct StairsTransition {
    pub depth: i32,
    pub branch: &'static str,
    pub direction: &'static str,
}

/// What the stairs command did.
#[derive(Debug, Clone, PartialEq, Eq)]
pub struct StairsOutcome {
    pub level_change: Option<LevelChange>,
    pub transition: Option<StairsTransition>,
    /// The request for a narration, when a narrator is available and the
    /// player changed level.
    pub narration_prompt: Option<String>,
}

/// The name of a branch in the passage message.
pub open spec fn branch_title(b: DungeonBranch) -> Seq<char> {
    match b {
        DungeonBranch::Main => "Main"@,
        DungeonBranch::Mines => "Mines"@,
        DungeonBranch::Sokoban => "Sokoban"@,
        _ => "Unknown"@,
    }
}

/// The name of a branch in the narration.
pub open spec fn branch_word(b: DungeonBranch) -> Seq<char> {
    match b {
        DungeonBranch::Mines => "mines"@,
        DungeonBranch::Sokoban => "sokoban"@,
        _ => "dungeon"@,
    }
}

fn branch_title_exec(b: DungeonBranch) -> (r: &'static str)
    ensures
        r@ == branch_title(b),
{
    match b {
        DungeonBranch::Main => "Main",
        DungeonBranch::Mines => "Mines",
        DungeonBranch::Sokoban => "Sokoban",
        _ => "Unknown",
    }
}

fn branch_word_exec(b: DungeonBranch) -> (r: &'static str)
    ensures
        r@ == branch_word(b),
{
    match b {
        DungeonBranch::Mines => "mines",
        DungeonBranch::Sokoban => "sokoban",
        _ => "dungeon",
    }
}

/// A message, a level change and the move made (depth, branch word,
/// direction).
pub type StairsEffect = (Seq<char>, Option<LevelChange>, Option<(int, Seq<char>, Seq<char>)>);

/// The passage message for a portal to `t`.
pub open spec fn passage_message(t: LevelTarget) -> Seq<char> {
    "You enter a passage leading to level "@ + int_text(t.depth as int) + " ("@ + branch_title(t.branch) + ")."@
}

/// Going down stairs or a ladder: through the portal if there is one,
/// else to the next level.
pub open spec fn descend_effect(portal: Option<LevelTarget>, current: LevelTarget) -> StairsEffect {
    match portal {
        Some(t) => (passage_message(t), Some(LevelChange::Teleport { target: t, landing: LandingType::Connection(current) }),
            Some((t.depth as int, branch_word(t.branch), "down"@))),
        None => ("You descend the stairs."@, Some(LevelChange::NextLevel), Some((current.depth + 1, "dungeon"@, "down"@))),
    }
}

/// Going up stairs: through the portal if there is one, else to the
/// previous level.
pub open spec fn ascend_effect(portal: Option<LevelTarget>, current: LevelTarget) -> StairsEffect {
    match portal {
        Some(t) => ("You climb up to level "@ + int_text(t.depth as int) + "."@,
            Some(LevelChange::Teleport { target: t, landing: LandingType::Connection(current) }), Some((t.depth as int, "dungeon"@, "up"@))),
        None => ("You ascend the stairs."@, Some(LevelChange::PrevLevel), Some((current.depth - 1, "dungeon"@, "up"@))),
    }
}

/// What the command does: nothing for another command; going down needs
/// down stairs or a ladder, going up needs up stairs, else a refusal.
pub open spec fn stairs_effect(command: StairsCommand, tile: TileType, portal: Option<LevelTarget>, current: LevelTarget)
    -> Option<StairsEffect> {
    match command {
        StairsCommand::Descend => if tile == TileType::StairsDown || tile == TileType::Ladder {
            Some(descend_effect(portal, current))
        } else {
            Some(("You can't go down here."@, None, None))
        },
        StairsCommand::Ascend => if tile == TileType::StairsUp {
            Some(ascend_effect(portal, current))
        } else {
            Some(("You can't go up here."@, None, None))
        },
        StairsCommand::Other => None,
    }
}

/// The narration request for a move `direction` to level `depth` of
/// `branch`.
pub open spec fn narration_prompt(direction: Seq<char>, depth: int, branch: Seq<char>) -> Seq<char> {
    "You are a roguelike game narrator. The player just moved "@ + direction + " to level "@ + int_text(depth)
        + " of the "@ + branch + NARRATION_TAIL@
}

/// The fixed end of the narration request.
pub const NARRATION_TAIL: &'static str = ".\nWrite a very short atmospheric description (1 sentence, max 15 words) of what they sense.\nExamples: \'A damp chill rises from below.\' / \'The air smells of sulfur and decay.\'\nBe creative, dark, and vary by depth. Deeper = more dangerous atmosphere.\nReply with ONLY the description, no quotes.";

/// Decides a stairs command on the square `tile` under the player, with
/// the portal there (if any): the message goes to the log, and the outcome
/// says which level change to make and what move to narrate; a narration
/// request is made only when `narrator_available` and the level changes.
pub fn stairs_decision(command: StairsCommand, tile: TileType, portal: Option<LevelTarget>, current: LevelTarget,
    narrator_available: bool, log: &mut GameLog, turn: u64) -> (r: StairsOutcome)
    requires
        old(log).wf(),
        i32::MIN < current.depth < i32::MAX,
    ensures
        final(log).wf(),
        final(log).cap() == old(log).cap(),
        match stairs_effect(command, tile, portal, current) {
            None => r.level_change is None && r.transition is None && r.narration_prompt is None
                && final(log).messages() == old(log).messages(),
            Some((msg, change, moved)) => {
                &&& final(log).messages() == after_add(old(log).messages(), (msg, DEFAULT_COLOR, turn), old(log).cap())
                &&& r.level_change == change
                &&& match moved {
                    Some((depth, branch, direction)) => r.transition matches Some(t) && t.depth == depth
                        && t.branch@ == branch && t.direction@ == direction
                        && if narrator_available {
                            r.narration_prompt matches Some(p) && p@ == narration_prompt(direction, depth, branch)
                        } else {
                            r.narration_prompt is None
                        },
                    None => r.transition is None && r.narration_prompt is None,
                }
            },
        },
{
    let mut level_change: Option<LevelChange> = None;
    let mut transition: Option<StairsTransition> = None;
    match command {
        StairsCommand::Descend => {
            if tile == TileType::StairsDown || tile == TileType::Ladder {
                match portal {
                    Some(target) => {
                        let head = text_with_int("You enter a passage leading to level ", target.depth as i64, " (");
                        let msg = concat3(head.as_str(), branch_title_exec(target.branch), ").");
                        log.add(msg.as_str(), turn);
                        transition = Some(StairsTransition { depth: target.depth, branch: branch_word_exec(target.branch),
                            direction: "down" });
                        level_change = Some(LevelChange::Teleport { target, landing: LandingType::Connection(current) });
                    },
                    None => {
                        log.add("You descend the stairs.", turn);
                        transition = Some(StairsTransition { depth: current.depth + 1, branch: "dungeon", direction: "down" });
                        level_change = Some(LevelChange::NextLevel);
                    },
                }
            } else {
                log.add("You can't go down here.", turn);
            }
        },
        StairsCommand::Ascend => {
            if tile == TileType::StairsUp {
                match portal {
                    Some(target) => {
                        let msg = text_with_int("You climb up to level ", target.depth as i64, ".");
                        log.add(msg.as_str(), turn);
                        transition = Some(StairsTransition { depth: target.depth, branch: "dungeon", direction: "up" });
                        level_change = Some(LevelChange::Teleport { target, landing: LandingType::Connection(current) });
                    },
                    None => {
                        log.add("You ascend the stairs.", turn);
                        transition = Some(StairsTransition { depth: current.depth - 1, branch: "dungeon", direction: "up" });
                        level_change = Some(LevelChange::PrevLevel);
                    },
                }
            } else {
                log.add("You can't go up here.", turn);
            }
        },
        StairsCommand::Other => {},
    }
    let narration_prompt = match transition {
        Some(t) => {
            if narrator_available {
                let a = concat3("You are a roguelike game narrator. The player just moved ", t.direction, " to level ");
                let b = text_with_int(a.as_str(), t.depth as i64, " of the ");
                let c = concat3(b.as_str(), t.branch, NARRATION_TAIL);
                Some(c)
            } else {
                None
            }
        },
        None => None,
    };
    StairsOutcome { level_change, transition, narration_prompt }
}

} // verus!
