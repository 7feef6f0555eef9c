//! The world model of the fixed dungeon: squares, maps, levels, items,
//! monsters, the player and the store of entities.
pub mod tile;
pub mod map;
pub mod status;
pub mod combat;
pub mod player;
pub mod item;
pub mod monster;
pub mod inventory;
pub mod level;
pub mod entity;
