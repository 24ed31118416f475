//! Timed spawning, cooldown gating, health-bar bookkeeping and facing
//! decisions for a small top-down action game.
//!
//! Time is counted in whole nanoseconds, as `std::time::Duration` counts it.

pub mod timer;

pub mod spawning;

pub mod bars;

pub mod steering;
