//! The windows of the user interface.

pub mod windows;
