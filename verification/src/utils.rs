//! Helpers that the operations share.

pub mod clock;
pub mod jwt;
