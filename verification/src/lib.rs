//! Rule engine for a NetHack-style roguelike: dungeon features, traps,
//! doors and locks, digging, engravings, light sources and environment
//! hazards, each written as a pure function from the situation (and a
//! seeded random stream) to an outcome.
use vstd::prelude::*;

pub mod num;
pub mod rng;
pub mod text;
pub mod game_log;
pub mod fountain;
pub mod tile;
pub mod altar_ext;
pub mod dbridge_ext;
pub mod detect_ext;
pub mod dig_phase50_ext;
pub mod door_ext;
pub mod engrave_calc_ext;
pub mod engrave_ext;
pub mod environ_phase101_ext;
pub mod hazard_phase104_ext;
pub mod light_ext;
pub mod light_source_ext;
pub mod liquid_damage_ext;
pub mod lock;
pub mod lock_ext;
pub mod music_ext;
pub mod region_ext;
pub mod region_phase94_ext;
pub mod search;
pub mod sit;
pub mod teleport;
pub mod timeout_phase91_ext;
pub mod trap;
pub mod trap_detect_ext;
pub mod trap_ext;
pub mod trap_phase91_ext;
pub mod trap_phase96_ext;
pub mod vision;
pub mod ids;
pub mod error;
pub mod domain;
pub mod data;
pub mod world;
pub mod stairs;
pub mod vision_update;
pub mod level_change;
pub mod turn;

verus! {

} // verus!
