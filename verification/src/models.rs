//! The operations on the records, one module for each kind of record.

pub mod alert;
pub mod device;
pub mod entities;
pub mod measurement;
pub mod reservoir;
pub mod store;
pub mod system;
pub mod user;
