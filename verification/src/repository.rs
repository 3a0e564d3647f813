use vstd::prelude::*;

use crate::model::Drone;

verus! {

/// The ways a drone can fail the repository's validation rules.
#[derive(Debug, PartialEq, Eq, Structural)]
pub enum SaveValidationError {
    InvalidDroneId,
    WrongModelName,
}

/// Stateless validation gate for drones: `save` checks the business rules and
/// reports success, with no storage behind it.
pub struct DroneRepository;

impl DroneRepository {
    /// Validates a drone, in order: the id must not be zero, then the model
    /// name must be at least five characters long.
    pub fn save(drone: Drone) -> (r: Result<bool, SaveValidationError>)
        ensures
            drone.id == 0 <==> r == Err::<bool, SaveValidationError>(
                SaveValidationError::InvalidDroneId,
            ),
            drone.id != 0 && drone.model@.len() < 5 <==> r == Err::<bool, SaveValidationError>(
                SaveValidationError::WrongModelName,
            ),
            drone.id != 0 && drone.model@.len() >= 5 <==> r == Ok::<bool, SaveValidationError>(
                true,
            ),
    {
        if drone.id == 0 {
            return Err(SaveValidationError::InvalidDroneId);
        }
        if drone.model.as_str().unicode_len() < 5 {
            return Err(SaveValidationError::WrongModelName);
        }
        Ok(true)
    }
}

} // verus!
