//! The rendering engine: what it draws each frame, and in which order.

pub mod context;
pub mod device;
pub mod engine;
pub mod frame;
pub mod frame_pacer;
pub mod instruction;
pub mod passes;
pub mod settings;
pub mod surface;
