//! Decision logic of a bidirectional (V2H) CHAdeMO charger.
//!
//! Every rule the charger follows stands here as a verified function: which
//! supervisory feature acts, what current a session asks for, how a session is
//! started and shut down, what the meter, the broker, the web socket and the
//! scheduler make of what they receive. Sockets, pins, the clock and the disk
//! belong to the program around this library.
use vstd::prelude::*;

pub mod api;
pub mod chademo;
pub mod charge_time;
pub mod clock;
pub mod data_io;
pub mod global_state;
pub mod json;
pub mod logger;
pub mod scheduler;
pub mod text;

verus! {

/// Highest state of charge, in percent.
pub const MAX_SOC: u8 = 100;

/// Lowest state of charge that the charger discharges to, in percent.
pub const MIN_SOC: u8 = 31;

/// Highest DC current in either direction, in amps.
pub const MAX_AMPS: u8 = 16;

} // verus!
