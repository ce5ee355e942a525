//! How reservoirs are shown.

use vstd::prelude::*;
use crate::models::entities::Reservoir;
use crate::views::reservoir::ReservoirResponse;

verus! {

/// A reservoir as a response shows it: all of it but its owner.
pub fn reservoir_response(reservoir: Reservoir) -> (response: ReservoirResponse)
    ensures
        response == (ReservoirResponse {
            id: reservoir.id,
            name: reservoir.name,
            description: reservoir.description,
            capacity: reservoir.capacity,
            location: reservoir.location,
        }),
{
    ReservoirResponse {
        id: reservoir.id,
        name: reservoir.name,
        description: reservoir.description,
        capacity: reservoir.capacity,
        location: reservoir.location,
    }
}

} // verus!
