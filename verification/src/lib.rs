//! The rules of a small top-down brawler: weapons and their animation clips,
//! the discrete state of the player and of the enemies, weapons lying on the
//! ground, the tile maps, the locations, the menus and the menu labels.
//!
//! Everything that moves in continuous space (positions, speeds, timers,
//! angles, colliders) lives with the caller; the functions here take the
//! outcome of those measurements as plain values and decide what happens.

pub mod assets;
pub mod control;
pub mod npc;
pub mod objects;
pub mod player;
pub mod session;
pub mod tile_map;
pub mod ui;
pub mod world;
