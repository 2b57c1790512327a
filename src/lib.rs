//! The tick-driven core of an incremental elevator-building game: the upgrade
//! economy with its escalating prices, the player's commands, and the engine
//! that orders one tick's effects and tells the building what to do.

pub mod game;
pub mod input;
pub mod upgrade;
