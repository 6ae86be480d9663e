//! The rules of a 3D game client, stated as contracts and proved: what the
//! graphics engine does in each frame, and how the entities of the world
//! move.

pub mod graphics;
pub mod interface;
pub mod network;
pub mod world;
