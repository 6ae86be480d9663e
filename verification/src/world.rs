//! The simulated game world.

pub mod entity;
