//! A small simulation laboratory around a fleet of drones: a controller
//! that loads randomly generated drones and persists the fleet as plain
//! text with a proved round trip, a validation gate and a flight-status
//! classifier for single drones, and a handful of sibling services: input
//! validators, a request router, log filters, a metrics command reader and
//! a tiny system utility.

pub mod catalog;
pub mod codec;
pub mod digits;
pub mod engine;
pub mod flight;
pub mod generator;
pub mod login;
pub mod logs;
pub mod metrics;
pub mod model;
pub mod monitor;
pub mod repository;
pub mod router;
pub mod servers;
pub mod simulation;
pub mod sysco;
pub mod system_log;
pub mod textcase;
pub mod timing;
pub mod tools;
pub mod utility;
pub mod validation;
