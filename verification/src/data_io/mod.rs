//! What the charger exchanges with the world outside the vehicle.
pub mod commands;
pub mod config;
pub mod discovery;
pub mod keyboard;
pub mod meter;
pub mod mqtt;
pub mod operator_settings;
pub mod staleness;
pub mod status;
pub mod supervisor;
