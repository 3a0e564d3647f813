use vstd::prelude::*;

verus! {

/// Ghost image of a `Location`: the coordinates as they are, the caption as a
/// sequence of characters.
pub struct LocationData {
    pub x: u32,
    pub y: u32,
    pub z: u32,
    pub caption: Seq<char>,
}

/// A point in the simulated field, with a descriptive label.
#[derive(Debug, PartialEq)]
pub struct Location {
    pub x: u32,
    pub y: u32,
    pub z: u32,
    pub caption: String,
}

impl View for Location {
    type V = LocationData;

    open spec fn view(&self) -> LocationData {
        LocationData { x: self.x, y: self.y, z: self.z, caption: self.caption@ }
    }
}

impl Clone for Location {
    fn clone(&self) -> (r: Self)
        ensures
            r == *self,
    {
        Location { x: self.x, y: self.y, z: self.z, caption: self.caption.clone() }
    }
}

/// Ghost image of a `Drone`.
pub struct DroneData {
    pub id: u32,
    pub model: Seq<char>,
    pub energy_level: u32,
    pub location: LocationData,
    pub is_alive: bool,
}

/// A simulated drone: identity, model name, energy in percent, position and
/// liveness flag.
#[derive(Debug, PartialEq)]
pub struct Drone {
    pub id: u32,
    pub model: String,
    pub energy_level: u32,
    pub location: Location,
    pub is_alive: bool,
}

impl View for Drone {
    type V = DroneData;

    open spec fn view(&self) -> DroneData {
        DroneData {
            id: self.id,
            model: self.model@,
            energy_level: self.energy_level,
            location: self.location@,
            is_alive: self.is_alive,
        }
    }
}

impl Clone for Drone {
    fn clone(&self) -> (r: Self)
        ensures
            r == *self,
    {
        Drone {
            id: self.id,
            model: self.model.clone(),
            energy_level: self.energy_level,
            location: self.location.clone(),
            is_alive: self.is_alive,
        }
    }
}

} // verus!
