//! What the handlers of requests decide between reading and answering.

pub mod admin;
pub mod alert;
pub mod auth;
pub mod device;
pub mod measurement;
pub mod reservoir;
