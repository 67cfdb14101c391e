//! Gameplay core of a phase-driven space defense game.
//!
//! The library models the simulation state machine of the game in plain
//! integer values: the resource ledger, the cyclical phase scheduler
//! (Gather, Combat, Build), the difficulty progression, the mining loop,
//! the enemy AI state machine, and the turret and combat cooldown loops.
//! All side effects on the outside world (spawning scenes, audio, UI) are
//! returned as event values for an engine layer to perform.

pub mod arena;
pub mod asteroid;
pub mod building;
pub mod combat;
pub mod enemy;
pub mod events;
pub mod gameplay;
pub mod geom;
pub mod mining;
pub mod phase;
pub mod placement;
pub mod resources;
mod rng;
pub mod session;
pub mod timer;
pub mod turret;
pub mod upgrades;
