//! The windows, by what they are for.

pub mod account;
