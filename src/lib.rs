//! Simulation core of a side-scrolling "flappy dragon" reflex game:
//! player physics, obstacle and objective placement, collision tests,
//! scoring and the menu / playing / dead mode machine.
//!
//! Velocities are fixed-point numbers in hundredths of a cell per physics
//! step; elapsed time is counted in microseconds.

pub mod config;
pub mod player;
pub mod random;
pub mod hazards;
pub mod game;
pub mod visitor;
