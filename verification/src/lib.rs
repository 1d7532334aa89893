//! Control core of a single-station electric-vehicle charging controller.
//!
//! The library tracks one connected vehicle's battery ([`car::Car`]), drives
//! the charging-session lifecycle ([`charging_controller::ChargingController`]),
//! and binds the two behind the locking discipline of [`context::Context`]:
//! a mutual-exclusion lock serialising session transitions and a
//! reader-writer lock letting telemetry reads run concurrently with them.

pub mod car;
pub mod charging_controller;
pub mod context;
pub mod errors;
pub mod handle_event_implementation;
pub mod handler_functions;
pub mod payload;
pub mod tpl_potentiometer;
pub mod trip;
