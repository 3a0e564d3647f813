use vstd::prelude::*;

use crate::model::Drone;
use crate::model::Location;

verus! {

/// The derived condition of a drone, recomputed from each snapshot.
#[derive(Debug, PartialEq)]
pub enum DroneStatus {
    OutOffRange(Location),
    Offline,
    LowBattery(u32),
    Fine,
}

/// The classification rules, first match wins: a dead drone is offline
/// whatever else holds; then low energy; then a coordinate out of the
/// 800-unit field; else fine.
pub open spec fn spec_status(drone: Drone) -> DroneStatus {
    if !drone.is_alive {
        DroneStatus::Offline
    } else if drone.energy_level < 30 {
        DroneStatus::LowBattery(drone.energy_level)
    } else if drone.location.x > 800 || drone.location.y > 800 || drone.location.z > 800 {
        DroneStatus::OutOffRange(drone.location)
    } else {
        DroneStatus::Fine
    }
}

/// Flight control for the drones on the field: classifies a drone's state.
pub struct FlightController;

impl FlightController {
    /// Classifies a drone's current snapshot.
    pub fn check_status(drone: &Drone) -> (r: DroneStatus)
        ensures
            r == spec_status(*drone),
    {
        if !drone.is_alive {
            return DroneStatus::Offline;
        }
        if drone.energy_level < 30 {
            return DroneStatus::LowBattery(drone.energy_level);
        }
        if drone.location.x > 800 || drone.location.y > 800 || drone.location.z > 800 {
            return DroneStatus::OutOffRange(drone.location.clone());
        }
        DroneStatus::Fine
    }
}

} // verus!
