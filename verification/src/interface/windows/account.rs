//! The windows for the account of the user.

pub mod login;
