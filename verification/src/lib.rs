//! Shard of the Triforce: the rules of the game's simulation, as verified
//! state machines over plain integer state.

pub mod cue;
pub mod flags;
pub mod player;
pub mod tuning;
pub mod style;
pub mod energy;
pub mod toasts;
pub mod entity;
pub mod sword;
pub mod boss;
pub mod enemies;
pub mod combat;
pub mod tiles;
pub mod map;
pub mod dice;
pub mod puzzle;
pub mod rooms;
pub mod state;
pub mod interact;
pub mod items;
pub mod fx;
pub mod music;
pub mod math;
pub mod looks;
pub mod events;
pub mod frame;
pub mod art;
