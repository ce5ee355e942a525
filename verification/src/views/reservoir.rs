//! What the reservoir operations take from and give to their callers.

use vstd::prelude::*;
use crate::double::Double;

verus! {

/// A request for a new reservoir.
#[derive(Clone, Debug, PartialEq, Eq)]
pub struct CreateReservoirRequest {
    pub name: String,
    pub description: Option<String>,
    pub capacity: Double,
    pub location: Option<String>,
}

/// The fields of a reservoir that are to change; a field that is `None`
/// stays.
#[derive(Clone, Debug, PartialEq, Eq)]
pub struct UpdateReservoirRequest {
    pub name: Option<String>,
    pub description: Option<String>,
    pub capacity: Option<Double>,
    pub location: Option<String>,
}

/// A reservoir as a response shows it.
#[derive(Clone, Debug, PartialEq, Eq)]
pub struct ReservoirResponse {
    pub id: i32,
    pub name: String,
    pub description: Option<String>,
    pub capacity: Double,
    pub location: Option<String>,
}

} // verus!
