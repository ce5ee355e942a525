//! Services that the operations call on.

pub mod notification;
