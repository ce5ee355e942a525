//! Alert rules for monitored reservoirs: evaluating a new measurement against
//! the rules of its reservoir, dispatching notifications, and keeping the
//! append-only history of what was triggered.

pub mod config;
pub mod controllers;
pub mod double;
pub mod error;
pub mod extractors;
pub mod models;
pub mod services;
pub mod utils;
pub mod views;
