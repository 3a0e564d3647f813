use drone_lab::catalog::drone_models;
use drone_lab::codec::render_drone;
use drone_lab::codec::FleetParseError;
use drone_lab::flight::DroneStatus;
use drone_lab::flight::FlightController;
use drone_lab::generator::checked_random_between;
use drone_lab::generator::draw_below;
use drone_lab::generator::draw_in_range;
use drone_lab::generator::get_random_between;
use drone_lab::generator::get_random_number;
use drone_lab::model::Drone;
use drone_lab::model::Location;
use drone_lab::repository::DroneRepository;
use drone_lab::repository::SaveValidationError;
use drone_lab::simulation::SimulationController;
use drone_lab::simulation::SimulationError;

fn drone(id: u32, model: &str, energy: u32, x: u32, y: u32, z: u32, caption: &str, alive: bool) -> Drone {
    Drone {
        id,
        model: model.to_string(),
        energy_level: energy,
        location: Location {
            x,
            y,
            z,
            caption: caption.to_string(),
        },
        is_alive: alive,
    }
}

#[test]
fn tests_should_drone_save_returns_ok_test() {
    let temperature_drone = drone(1145, "UHD Drone TX-19", 100, 0, 0, 0, "Kuzey Blogu", true);
    let actual = DroneRepository::save(temperature_drone);
    assert!(actual.is_ok());
}

#[test]
fn drone_repository_tests_should_drone_save_returns_ok_test() {
    let temperature_drone = drone(1145, "UHD Drone TX-19", 100, 0, 0, 0, "Kuzey Blogu", true);
    let actual = DroneRepository::save(temperature_drone);
    assert!(actual.is_ok());
}

#[test]
fn should_wrong_drone_id_returns_validation_error() {
    let discovery_drone = drone(0, "DIS Drone TX-258", 9, 450, 500, 801, "Sahra II Bölgesi", true);
    let actual = DroneRepository::save(discovery_drone);
    assert!(actual.is_err());
    assert_eq!(actual.err(), Some(SaveValidationError::InvalidDroneId));
}

#[test]
fn short_model_name_is_rejected() {
    let d = drone(7, "DJI", 80, 0, 0, 0, "Zemin Kat - Merkez", true);
    assert_eq!(
        DroneRepository::save(d).err(),
        Some(SaveValidationError::WrongModelName)
    );
}

#[test]
fn should_return_offline_test() {
    let discovery_drone = drone(0, "DIS Drone TX-258", 9, 450, 500, 801, "Sahra II Bölgesi", false);
    let actual = FlightController::check_status(&discovery_drone);
    assert_eq!(actual, DroneStatus::Offline);
}

#[test]
fn should_return_low_battery_test() {
    let energy_level = 25;
    let discovery_drone = drone(0, "DIS Drone TX-258", energy_level, 450, 500, 801, "Sahra II Bölgesi", true);
    let actual = FlightController::check_status(&discovery_drone);
    assert_eq!(actual, DroneStatus::LowBattery(energy_level));
}

#[test]
fn should_return_out_off_range_test() {
    let location = Location {
        x: 450,
        y: 500,
        z: 801,
        caption: "Sahra II Bölgesi".to_string(),
    };
    let discovery_drone = Drone {
        id: 0,
        model: "DIS Drone TX-258".to_string(),
        energy_level: 55,
        location: location.clone(),
        is_alive: true,
    };
    let actual = FlightController::check_status(&discovery_drone);
    assert_eq!(actual, DroneStatus::OutOffRange(location));
}

#[test]
fn should_return_fine_test() {
    let location = Location {
        x: 450,
        y: 500,
        z: 750,
        caption: "Sahra II Bölgesi".to_string(),
    };
    let discovery_drone = Drone {
        id: 19,
        model: "DIS Drone TX-258".to_string(),
        energy_level: 80,
        location,
        is_alive: true,
    };
    let actual = FlightController::check_status(&discovery_drone);
    assert_eq!(actual, DroneStatus::Fine);
}

#[test]
fn random_drone_model_test() {
    let models = drone_models();
    let max_value = models.len();
    let random_number = get_random_number(max_value);
    let model = &models[random_number];
    assert!(models.iter().any(|m| m.to_string() == model.to_string()));
}

#[test]
fn random_number_between_range_test() {
    let min_value = 10;
    let max_value = 50;
    let actual = get_random_between(min_value, max_value);
    assert!(actual >= min_value && actual <= max_value);
}

#[test]
fn random_number_with_zero_bound_is_zero() {
    assert_eq!(get_random_number(0), 0);
}

#[test]
fn draw_formulas_are_exact() {
    assert_eq!(draw_below(123_456_789, 100), 89);
    assert_eq!(draw_below(7, 0), 0);
    assert_eq!(draw_in_range(987_654_321, 10, 50), 42);
    assert_eq!(draw_in_range(0, 10, 50), 10);
}

#[test]
fn empty_range_is_reported() {
    assert_eq!(checked_random_between(5, 3), None);
    let drawn = checked_random_between(3, 5);
    assert!(drawn.is_some());
    let v = drawn.unwrap();
    assert!((3..=5).contains(&v));
}

#[test]
fn should_allocate_one_drone_test() {
    let mut simulation = SimulationController::new();
    let actual = simulation.load(1);
    let expected = true;
    assert_eq!(actual, expected);
}

#[test]
fn should_allocate_ten_drone_returns_ten_test() {
    let mut simulation = SimulationController::new();
    let _ = simulation.load(10);
    let actual = simulation.get_count();
    assert_eq!(actual, 10);
}

#[test]
fn load_of_zero_keeps_the_fleet() {
    let mut simulation = SimulationController::new();
    assert!(simulation.load(0));
    assert_eq!(simulation.get_count(), 0);
    assert!(simulation.load(3));
    assert!(simulation.load(0));
    assert_eq!(simulation.get_count(), 3);
}

#[test]
fn get_random_on_empty_fleet_is_an_error() {
    let simulation = SimulationController::new();
    assert_eq!(simulation.get_random().err(), Some(SimulationError::EmptyFleet));
}

#[test]
fn get_random_returns_a_member() {
    let mut simulation = SimulationController::new();
    simulation.load(10);
    let picked = simulation.get_random().expect("fleet is not empty");
    assert!(picked.id < 10);
    let line = render_drone(&picked);
    let content = simulation.save();
    assert!(content.contains(&line));
}

#[test]
fn record_format_is_exact() {
    let d = drone(1145, "UHD Drone TX-19", 100, 4, 0, 27, "Kuzey Blogu", true);
    assert_eq!(render_drone(&d), "UHD Drone TX-19 (100%),(4:0:27)-Kuzey Blogu,alive");
    let dead = drone(2, "T-800", 0, 801, 900, 1000, "Zemin Kat - Merkez", false);
    assert_eq!(render_drone(&dead), "T-800 (0%),(801:900:1000)-Zemin Kat - Merkez,dead");
}

#[test]
fn save_then_load_from_reproduces_the_fleet() {
    let mut first = SimulationController::new();
    first.load(5);
    let saved = first.save();
    let mut restored = SimulationController::new();
    restored.load_from(&saved).expect("saved text reads back");
    assert_eq!(restored.get_count(), 5);
    assert_eq!(restored.save(), saved);
}

#[test]
fn load_from_reads_exact_records() {
    let text = "T-1000 (100%),(1:2:3)-Kuzey Blogu,alive\nQuick-90 (40%),(0:0:0)-Zemin Kat - Merkez,dead\n";
    let mut simulation = SimulationController::new();
    simulation.load_from(text).expect("well-formed text");
    assert_eq!(simulation.get_count(), 2);
    assert_eq!(simulation.save(), text);
}

#[test]
fn malformed_fleet_text_is_rejected() {
    let mut simulation = SimulationController::new();
    simulation.load(2);
    let before = simulation.save();
    assert_eq!(
        simulation.load_from("no record here"),
        Err(FleetParseError::InvalidFormat)
    );
    assert_eq!(
        simulation.load_from("T-1000 (1x0%),(1:2:3)-Base,alive\n"),
        Err(FleetParseError::InvalidFormat)
    );
    assert_eq!(
        simulation.load_from("T-1000 (100%),(1:2:3)-Base,alive"),
        Err(FleetParseError::InvalidFormat)
    );
    assert_eq!(simulation.save(), before);
}

#[test]
fn empty_fleet_saves_to_empty_text() {
    let simulation = SimulationController::new();
    assert_eq!(simulation.save(), "");
    let mut restored = SimulationController::new();
    restored.load_from("").expect("empty text is a fleet of none");
    assert_eq!(restored.get_count(), 0);
}
