//! The vehicle side: starting a session, holding its current, ending it.
pub mod charge_mode;
pub mod ev_connect;
pub mod panel_leds;
pub mod shutdown;
pub mod start_up;
