//! What the program's configuration says to the handlers.
use vstd::prelude::*;

verus! {

/// The broker: where it is, and the topics that are heard.
#[derive(Debug, Clone)]
pub struct MqttConfig {
    pub enabled: bool,
    pub host: String,
    pub port: u16,
    pub client_id: String,
    pub username: String,
    pub password: String,
    pub interval: u32,
    pub topic: String,
    pub sub: String,
    /// Prefix of the topics that the charger itself publishes
    pub base_topic: String,
    pub mqtt_smart_charge_topic: String,
    pub mqtt_smart_charge_field: String,
    pub mqtt_ev_drain_protection_topic: String,
    pub mqtt_ev_drain_protection_field: String,
    pub mqtt_smart_export_topic: String,
    pub mqtt_smart_export_field: String,
    pub mqtt_smart_export_excess_solar_topic: String,
    pub mqtt_smart_export_excess_solar_field: String,
    /// Seconds after which a request that is not renewed is given up
    pub mqtt_timeout_seconds: u64,
}

/// The meter: how it is reached, and the topics that are heard. The scales by
/// which its values are multiplied stay with the program.
#[derive(Debug, Clone)]
pub struct MeterConfig {
    /// "mqtt", in any case, or anything else for a modbus meter
    pub meter_type: String,
    /// Address of a modbus meter
    pub address: String,
    pub mqtt_meter_host: String,
    pub mqtt_meter_port: u16,
    pub mqtt_meter_client_id: String,
    pub mqtt_meter_username: String,
    pub mqtt_meter_password: String,
    pub mqtt_meter_total_power_topic: String,
    pub mqtt_meter_total_power_field: String,
    pub mqtt_meter_phase_power_topic: String,
    pub mqtt_meter_phase_power_field: String,
    /// Seconds after which a value that is not renewed is given up
    pub mqtt_meter_timeout_seconds: u64,
    /// Meter of the charger itself; an empty topic is not heard
    pub mqtt_meter_charger_volts_topic: String,
    pub mqtt_meter_charger_current_topic: String,
    pub mqtt_meter_charger_power_topic: String,
}

} // verus!
