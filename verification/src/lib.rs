//! Simulation core of a fixed-timestep arcade avoidance game: a paddle dodges
//! falling obstacles and collects power-ups, with persistent best-score
//! tracking.  All geometry is held in micro-pixels and all time in
//! milliseconds, so every rule of the game is integer arithmetic with a
//! verified contract.

pub mod clock;
pub mod config;
pub mod difficulty;
pub mod game;
pub mod geom;
pub mod laws;
pub mod obstacles;
pub mod player;
pub mod powerups;
pub mod rng;
