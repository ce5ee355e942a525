//! The shapes of requests and responses.

pub mod admin;
pub mod alert;
pub mod auth;
pub mod device;
pub mod measurement;
pub mod reservoir;
