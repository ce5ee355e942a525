//! What is decided about reservoirs around their storage.

use vstd::prelude::*;
use vstd::string::StringExecFns;
use crate::double::Double;
use crate::error::AppError;
use crate::models::entities::Reservoir;
use crate::views::reservoir::CreateReservoirRequest;
use crate::views::reservoir::UpdateReservoirRequest;

verus! {

/// The operations on reservoirs.
pub struct Reservoirs;

/// A reservoir that is about to be stored: all of a `Reservoir` but its id.
#[derive(Clone, Debug, PartialEq, Eq)]
pub struct NewReservoir {
    pub user_id: i32,
    pub name: String,
    pub description: Option<String>,
    pub capacity: Double,
    pub location: Option<String>,
}

/// A reservoir after an update: each field that the request gives replaces
/// the reservoir's, each that it leaves out stays.
pub open spec fn with_changes(model: Reservoir, data: UpdateReservoirRequest) -> Reservoir {
    Reservoir {
        id: model.id,
        user_id: model.user_id,
        name: match data.name {
            Some(name) => name,
            None => model.name,
        },
        description: match data.description {
            Some(text) => Some(text),
            None => model.description,
        },
        capacity: match data.capacity {
            Some(capacity) => capacity,
            None => model.capacity,
        },
        location: match data.location {
            Some(place) => Some(place),
            None => model.location,
        },
    }
}

impl Reservoirs {
    /// The reservoir to store for the user `user_id`.
    pub fn create(user_id: i32, data: CreateReservoirRequest) -> (new_reservoir: NewReservoir)
        ensures
            new_reservoir == (NewReservoir {
                user_id,
                name: data.name,
                description: data.description,
                capacity: data.capacity,
                location: data.location,
            }),
    {
        NewReservoir {
            user_id,
            name: data.name,
            description: data.description,
            capacity: data.capacity,
            location: data.location,
        }
    }

    /// What was looked up for an owner and an id; `NotFound` where there is
    /// nothing.
    pub fn found<T>(model: Option<T>) -> (r: Result<T, AppError>)
        ensures
            match model {
                Some(reservoir) => r == Ok::<T, AppError>(reservoir),
                None => r matches Err(e) && e.is_not_found("Reservoir not found"@),
            },
    {
        match model {
            Some(reservoir) => Ok(reservoir),
            None => Err(AppError::NotFound { msg: String::from_str("Reservoir not found") }),
        }
    }

    /// The reservoir with the changes that the request gives; `NotFound`
    /// where the owner has no such reservoir.
    pub fn update(model: Option<Reservoir>, data: UpdateReservoirRequest) -> (r: Result<
        Reservoir,
        AppError,
    >)
        ensures
            match model {
                Some(reservoir) => r == Ok::<Reservoir, AppError>(with_changes(reservoir, data)),
                None => r matches Err(e) && e.is_not_found("Reservoir not found"@),
            },
    {
        match Reservoirs::found(model) {
            Err(e) => Err(e),
            Ok(reservoir) => {
                let mut reservoir = reservoir;
                if let Some(name) = data.name {
                    reservoir.name = name;
                }
                if let Some(text) = data.description {
                    reservoir.description = Some(text);
                }
                if let Some(capacity) = data.capacity {
                    reservoir.capacity = capacity;
                }
                if let Some(place) = data.location {
                    reservoir.location = Some(place);
                }
                Ok(reservoir)
            },
        }
    }

    /// What a deletion comes to, from the number of rows that it removed:
    /// `NotFound` where it removed none.
    pub fn delete(rows_affected: u64) -> (r: Result<(), AppError>)
        ensures
            rows_affected > 0 ==> r is Ok,
            rows_affected == 0 ==> (r matches Err(e) && e.is_not_found("Reservoir not found"@)),
    {
        if rows_affected == 0 {
            return Err(AppError::NotFound { msg: String::from_str("Reservoir not found") });
        }
        Ok(())
    }
}

} // verus!
