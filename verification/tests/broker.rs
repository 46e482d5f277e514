use indra_beaglebone::data_io::config::{MeterConfig, MqttConfig};
use indra_beaglebone::data_io::discovery::{
    announcements, publish_discovery, publish_one_discovery, Entity, Field, Leaf,
};
use indra_beaglebone::data_io::meter::{
    calculate_crc, document_number, energy_modbus_rtu_request, extract_value as extract_watts,
    handle_publish as handle_meter, is_mqtt, is_stale as meter_is_stale, is_too_old,
    meter_subscriptions, power_request, read_register, MeterState, MeterUpdate, FIRST_VALUE,
};
use indra_beaglebone::data_io::mqtt::{
    apply_requests, availability, availability_topic, check_staleness, command_topic, document_value,
    expire_requests, extract_value, handle_publish, read_message, status_topic, subscriptions,
    Ages, Message, Requests,
};
use indra_beaglebone::data_io::supervisor::SupervisoryState;
use indra_beaglebone::global_state::OperationMode;
use indra_beaglebone::json::{positive, read_json, Json, Reading};
use indra_beaglebone::text::{
    clean, matches_word, payload_text, same_text, split_at_each, white_space,
};
use std::time::{Duration, Instant};

fn mqtt_config() -> MqttConfig {
    MqttConfig {
        enabled: true,
        host: "broker".to_string(),
        port: 1883,
        client_id: "v2h".to_string(),
        username: "u".to_string(),
        password: "p".to_string(),
        interval: 1,
        topic: "t".to_string(),
        sub: "s".to_string(),
        base_topic: "v2h".to_string(),
        mqtt_smart_charge_topic: "ha/charge".to_string(),
        mqtt_smart_charge_field: "state".to_string(),
        mqtt_ev_drain_protection_topic: "ha/drain".to_string(),
        mqtt_ev_drain_protection_field: "a.b".to_string(),
        mqtt_smart_export_topic: "ha/export".to_string(),
        mqtt_smart_export_field: "export".to_string(),
        mqtt_smart_export_excess_solar_topic: "ha/export".to_string(),
        mqtt_smart_export_excess_solar_field: "solar".to_string(),
        mqtt_timeout_seconds: 120,
    }
}

fn meter_config() -> MeterConfig {
    MeterConfig {
        meter_type: "MQTT".to_string(),
        address: "10.0.0.1:502".to_string(),
        mqtt_meter_host: "broker".to_string(),
        mqtt_meter_port: 1883,
        mqtt_meter_client_id: "meter".to_string(),
        mqtt_meter_username: "u".to_string(),
        mqtt_meter_password: "p".to_string(),
        mqtt_meter_total_power_topic: "m/total".to_string(),
        mqtt_meter_total_power_field: "sensor.power.total".to_string(),
        mqtt_meter_phase_power_topic: "m/phase".to_string(),
        mqtt_meter_phase_power_field: "sensor.power.phase".to_string(),
        mqtt_meter_timeout_seconds: 30,
        mqtt_meter_charger_volts_topic: "m/v".to_string(),
        mqtt_meter_charger_current_topic: String::new(),
        mqtt_meter_charger_power_topic: "m/w".to_string(),
    }
}

fn plain(payload: &str) -> Option<u32> {
    payload.parse::<f32>().ok().map(f32::to_bits)
}

fn number(value: f64) -> Reading {
    Reading::Double(value.to_bits())
}

#[test]
fn white_space_is_that_of_unicode() {
    for code in 0..=0x10ffffu32 {
        if let Some(c) = char::from_u32(code) {
            assert_eq!(white_space(c), c.is_whitespace());
        }
    }
}

#[test]
fn words_match_in_any_case() {
    for word in ["mqtt", "trace", "debug", "info", "warn", "error", "off"] {
        assert!(matches_word(word, word));
        assert!(matches_word(&word.to_uppercase(), word));
        for i in 0..word.chars().count() {
            for code in 0..=0x2fffu32 {
                if let Some(c) = char::from_u32(code) {
                    let mut text: Vec<char> = word.chars().collect();
                    text[i] = c;
                    let text: String = text.into_iter().collect();
                    assert_eq!(matches_word(&text, word), text.to_lowercase() == word);
                }
            }
        }
    }
}

#[test]
fn payloads_are_cleaned() {
    for text in ["", " ", " 1 \n", "\r\n{\n\"a\": 1\r\n}\n", "a\nb", "\u{3000}x\u{85}", "a b"] {
        assert_eq!(clean(text), text.trim().replace(['\n', '\r'], ""));
        assert_eq!(payload_text(text.as_bytes()), clean(text));
    }
    assert_eq!(payload_text(&[0x20, 0x31, 0xff, 0x0a]), "1\u{fffd}");
}

#[test]
fn paths_are_split_at_dots() {
    for path in ["", "a", "a.b", ".", "a..b", ".a."] {
        let expected: Vec<&str> = path.split('.').collect();
        assert_eq!(split_at_each(path, '.'), expected);
    }
    assert!(same_text("a", "a") && !same_text("a", "b") && !same_text("a", "ab"));
}

#[test]
fn documents_are_read() {
    assert!(read_json("{").is_none());
    assert!(matches!(read_json("true"), Some(Json::Bool(true))));
    assert!(matches!(read_json("null"), Some(Json::Other)));
    assert!(matches!(read_json("\"text\""), Some(Json::Other)));
    assert!(matches!(read_json("[1]"), Some(Json::Other)));
    match read_json("-1.5") {
        Some(Json::Number(Some(bits))) => assert_eq!(f64::from_bits(bits), -1.5),
        _ => panic!("no number"),
    }
    match read_json("{\"b\":1,\"a\":{\"c\":false},\"b\":2}") {
        Some(Json::Object(members)) => {
            assert_eq!(members.len(), 2);
            assert_eq!(members[0].0, "a");
            assert_eq!(members[1].0, "b");
            assert!(matches!(&members[0].1, Json::Object(inner) if inner.len() == 1));
            assert!(matches!(&members[1].1, Json::Number(Some(bits))
                if f64::from_bits(*bits) == 2.0));
        }
        _ => panic!("no object"),
    }
}

#[test]
fn values_above_zero_are_on() {
    for v in [0.0f32, -0.0, 1.0, -1.0, f32::MIN_POSITIVE, 1e-45, f32::INFINITY, f32::NEG_INFINITY,
        f32::NAN, -f32::NAN, f32::MAX]
    {
        assert_eq!(positive(Reading::Single(v.to_bits())), v > 0.0);
    }
    let half = f64::from_bits(0x3690_0000_0000_0000);
    for v in [0.0f64, -0.0, 1.0, -1.0, 1e-300, 1e-46, half, f64::from_bits(half.to_bits() + 1),
        f64::from_bits(half.to_bits() - 1), 1.4e-45, f64::INFINITY, f64::NEG_INFINITY, f64::NAN,
        f64::MAX, -1e-300]
    {
        assert_eq!(positive(Reading::Double(v.to_bits())), (v as f32) > 0.0);
    }
    assert!(positive(Reading::Flag(true)));
    assert!(!positive(Reading::Flag(false)));
}

#[test]
fn signals_are_extracted() {
    assert_eq!(extract_value(plain("1"), "1", "x"), Some(Reading::Single(1f32.to_bits())));
    assert_eq!(extract_value(None, "true", "x"), Some(Reading::Flag(true)));
    assert_eq!(extract_value(None, "false", ""), Some(Reading::Flag(false)));
    assert_eq!(extract_value(None, "{\"field\": 1}", "field"), Some(number(1.0)));
    assert_eq!(extract_value(None, "{\"field\": true}", "field"), Some(Reading::Flag(true)));
    assert_eq!(extract_value(None, "{\"a\":{\"b\":-2.5}}", "a.b"), Some(number(-2.5)));
    assert_eq!(extract_value(None, "{\"a\":{\"b\":-2.5}}", "a.c"), None);
    assert_eq!(extract_value(None, "{\"a\":\"on\"}", "a"), None);
    assert_eq!(extract_value(None, "{\"a\":1}", "a.b"), None);
    assert_eq!(extract_value(None, "{\"\":3}", ""), Some(number(3.0)));
    assert_eq!(extract_value(None, "on", "a"), None);
    assert_eq!(extract_value(None, "[true]", "0"), None);
    let doc = Json::Object(vec![
        ("a".to_string(), Json::Bool(true)),
        ("b".to_string(), Json::Number(Some(7))),
    ]);
    assert_eq!(document_value(&doc, "b"), Some(Reading::Double(7)));
}

#[test]
fn watts_are_extracted() {
    assert_eq!(
        extract_watts(plain("1234.5"), "1234.5", "x"),
        Some(Reading::Single(1234.5f32.to_bits()))
    );
    assert_eq!(
        extract_watts(None, "{\"sensor\":{\"power\":{\"total\":12}}}", "sensor.power.total"),
        Some(number(12.0))
    );
    assert_eq!(extract_watts(None, "true", "x"), None);
    assert_eq!(extract_watts(None, "{\"a\":true}", "a"), None);
    assert_eq!(extract_watts(None, "nonsense", "a"), None);
    assert_eq!(document_number(&Json::Bool(true), "a"), None);
}

#[test]
fn topics_hang_below_the_base() {
    assert_eq!(availability_topic("v2h"), "v2h/availability");
    assert_eq!(command_topic("v2h"), "v2h/command");
    assert_eq!(status_topic("v2h"), "v2h/status");
    let list = subscriptions(&mqtt_config());
    let topics: Vec<(&str, bool)> =
        list.iter().map(|s| (s.topic.as_str(), s.at_least_once)).collect();
    assert_eq!(
        topics,
        vec![
            ("ha/charge", false),
            ("ha/drain", false),
            ("ha/export", false),
            ("ha/export", false),
            ("v2h/command", true),
        ]
    );
}

#[test]
fn commands_are_nothing_else() {
    let mut cfg = mqtt_config();
    cfg.mqtt_smart_charge_topic = "v2h/command".to_string();
    assert_eq!(read_message(&cfg, "v2h/command", "1", plain("1")), Message::Command);
    let mut sup = SupervisoryState::default();
    assert!(handle_publish(&mut sup, &cfg, "v2h/command", "1", plain("1")));
    assert!(!sup.smart_charge_request);
}

#[test]
fn messages_set_requests() {
    let cfg = mqtt_config();
    let mut sup = SupervisoryState::default();
    assert!(!handle_publish(&mut sup, &cfg, "ha/charge", "1", plain("1")));
    assert!(sup.smart_charge_request && sup.smart_charge_request_update.is_some());
    assert!(!handle_publish(&mut sup, &cfg, "ha/drain", "{\"a\":{\"b\":true}}", None));
    assert!(sup.ev_drain_protection_request);
    let both = "{\"export\": 0, \"solar\": 3}";
    assert!(!handle_publish(&mut sup, &cfg, "ha/export", both, None));
    assert!(!sup.smart_export_request && sup.smart_export_request_update.is_some());
    assert!(sup.smart_export_excess_solar_request);
    assert!(!handle_publish(&mut sup, &cfg, "ha/charge", "-1", plain("-1")));
    assert!(!sup.smart_charge_request);
}

#[test]
fn other_messages_change_nothing() {
    let cfg = mqtt_config();
    let none = Requests {
        smart_charge: None,
        ev_drain_protection: None,
        smart_export: None,
        smart_export_excess_solar: None,
    };
    assert_eq!(read_message(&cfg, "ha/else", "1", plain("1")), Message::Requests(none));
    assert_eq!(read_message(&cfg, "ha/charge", "junk", None), Message::Requests(none));
    let mut sup = SupervisoryState::default();
    sup.smart_charge_active = true;
    apply_requests(&mut sup, none, Instant::now());
    assert!(sup.smart_charge_active && sup.smart_charge_request_update.is_none());
}

#[test]
fn old_requests_are_given_up() {
    let mut sup = SupervisoryState::default();
    sup.smart_charge_request = true;
    sup.ev_drain_protection_request = true;
    sup.smart_export_request = true;
    sup.smart_export_excess_solar_request = true;
    sup.smart_charge_active = true;
    let ages = Ages {
        smart_charge: Some(121),
        ev_drain_protection: Some(120),
        smart_export: None,
        smart_export_excess_solar: Some(1000),
    };
    expire_requests(&mut sup, ages, 120);
    assert!(!sup.smart_charge_request && !sup.smart_export_excess_solar_request);
    assert!(sup.ev_drain_protection_request && sup.smart_export_request);
    assert!(sup.smart_charge_active);
}

#[test]
fn staleness_goes_by_the_clock() {
    let mut sup = SupervisoryState::default();
    sup.update_smart_charge_request(true, false);
    sup.smart_export_request = true;
    check_staleness(&mut sup, 3600);
    assert!(sup.smart_charge_request && sup.smart_export_request);
    if let Some(past) = Instant::now().checked_sub(Duration::from_secs(5)) {
        sup.smart_charge_request_update = Some(past);
        check_staleness(&mut sup, 1);
        assert!(!sup.smart_charge_request && sup.smart_export_request);
        assert_eq!(sup.smart_charge_request_update, Some(past));
    }
}

fn text<'a>(entity: &'a Entity, key: &str) -> &'a str {
    for (k, field) in &entity.payload {
        if k == key {
            if let Field::Leaf(Leaf::Text(value)) = field {
                return value;
            }
        }
    }
    panic!("no text under {}", key)
}

fn integer(entity: &Entity, key: &str) -> i64 {
    for (k, field) in &entity.payload {
        if k == key {
            if let Field::Leaf(Leaf::Integer(value)) = field {
                return *value;
            }
        }
    }
    panic!("no integer under {}", key)
}

fn find<'a>(list: &'a [Entity], topic: &str) -> &'a Entity {
    list.iter().find(|e| e.topic == topic).unwrap()
}

#[test]
fn everything_is_discovered_once() {
    let list = publish_discovery("v2h");
    assert_eq!(list.len(), 56);
    let mut topics: Vec<&str> = list.iter().map(|e| e.topic.as_str()).collect();
    topics.sort();
    topics.dedup();
    assert_eq!(topics.len(), 56);
    for e in &list {
        assert_eq!(text(e, "state_topic"), "v2h/status");
        assert_eq!(text(e, "availability_topic"), "v2h/availability");
        assert_eq!(text(e, "payload_available"), "online");
        assert_eq!(text(e, "payload_not_available"), "offline");
        assert!(e.payload.iter().any(|(k, f)| k == "device" && matches!(f, Field::Group(_))));
        let mut keys: Vec<&str> = e.payload.iter().map(|(k, _)| k.as_str()).collect();
        keys.sort();
        keys.dedup();
        assert_eq!(keys.len(), e.payload.len());
    }
}

#[test]
fn sensors_are_discovered() {
    let list = publish_discovery("v2h");
    let soc = find(&list, "homeassistant/sensor/beaglebone_v2h_soc/config");
    assert_eq!(text(soc, "device_class"), "battery");
    assert_eq!(text(soc, "unit_of_measurement"), "%");
    assert_eq!(text(soc, "value_template"), "{{ value_json.chademo.soc }}");
    let fan = find(&list, "homeassistant/sensor/beaglebone_v2h_pre_fan_duty_pct/config");
    assert!(!fan.payload.iter().any(|(k, _)| k == "device_class"));
    let flag = find(&list, "homeassistant/binary_sensor/beaglebone_v2h_smart_charge_active/config");
    assert_eq!(
        text(flag, "value_template"),
        "{{value_json.supervisory.smart_charge_active | lower}}"
    );
    let day = find(&list, "homeassistant/binary_sensor/beaglebone_v2h_rtd_day_sun/config");
    assert_eq!(text(day, "object_id"), "v2h_rtd_day_sun");
    assert_eq!(text(day, "name"), "RTD Sunday");
    assert_eq!(
        text(day, "value_template"),
        "{{value_json.settings.ready_to_drive_days[6] | lower}}"
    );
    let active = find(&list, "homeassistant/sensor/beaglebone_v2h_active_mode/config");
    assert_eq!(
        text(active, "value_template"),
        "{% if value_json.supervisory.ready_to_drive_active %}Ready to Drive{% elif \
value_json.supervisory.off_peak_charging_active %}Off-Peak{% elif \
value_json.supervisory.smart_export_active %}Smart Export{% elif \
value_json.supervisory.smart_export_excess_solar_active %}Excess Solar{% elif \
value_json.supervisory.smart_charge_active %}Smart Charge{% elif \
value_json.supervisory.ev_drain_protection_active %}EV Drain Protection{% else %}Normal{% endif %}"
    );
}

#[test]
fn settings_are_discovered() {
    let list = publish_discovery("v2h");
    let eco = find(&list, "homeassistant/switch/beaglebone_v2h_charge_eco/config");
    assert_eq!(text(eco, "command_topic"), "v2h/command");
    assert_eq!(text(eco, "payload_on"), "{\"cmd\":{\"SetSetting\":{\"charge_eco\":true}}}");
    assert_eq!(text(eco, "payload_off"), "{\"cmd\":{\"SetSetting\":{\"charge_eco\":false}}}");
    assert_eq!(text(eco, "value_template"), "{{value_json.settings.charge_eco | lower}}");
    let limit = find(&list, "homeassistant/number/beaglebone_v2h_smart_export_limit_w/config");
    assert_eq!((integer(limit, "min"), integer(limit, "max")), (0, 10000));
    assert_eq!(integer(limit, "step"), 100);
    assert_eq!(
        text(limit, "command_template"),
        "{\"cmd\":{\"SetSetting\":{\"smart_export_limit_w\":{{ value | int }}}}}"
    );
    let start = find(&list, "homeassistant/text/beaglebone_v2h_off_peak_start/config");
    assert_eq!(text(start, "pattern"), "^([0-1][0-9]|2[0-3]):[0-5][0-9]$");
    assert_eq!(
        text(start, "command_template"),
        "{\"cmd\":{\"SetSetting\":{\"off_peak_start\":\"{{ value }}\"}}}"
    );
    let mode = find(&list, "homeassistant/select/v2h_mode/config");
    assert!(mode.payload.iter().any(|(k, f)| k == "options"
        && matches!(f, Field::Leaf(Leaf::Texts(o)) if o.len() == 4 && o[3] == "Discharge")));
}

#[test]
fn discovery_is_written_as_json() {
    for entity in publish_discovery("v2h") {
        let keys = entity.payload.len();
        let topic = entity.topic.clone();
        let unique = text(&entity, "unique_id").to_string();
        let (to, payload) = publish_one_discovery(&entity);
        assert_eq!(to, topic);
        let value: serde_json::Value = serde_json::from_str(&payload).unwrap();
        assert_eq!(value.as_object().unwrap().len(), keys);
        assert_eq!(value["unique_id"], unique.as_str());
        assert_eq!(value["device"]["identifiers"][0], "BeagleBone-V2H");
        assert_eq!(value["device"]["name"], "V2H");
        assert_eq!(value["device"]["manufacturer"], "Indra");
    }
    let small = Entity {
        topic: "t".to_string(),
        payload: vec![
            ("b".to_string(), Field::Leaf(Leaf::Integer(-3))),
            ("a".to_string(), Field::Leaf(Leaf::Text("\"x\"".to_string()))),
        ],
    };
    let (_, payload) = publish_one_discovery(&small);
    assert_eq!(payload, "{\"a\":\"\\\"x\\\"\",\"b\":-3}");
}

#[test]
fn every_entity_is_announced() {
    let entities = publish_discovery("v2h");
    let messages = announcements("v2h");
    assert_eq!(messages.len(), entities.len());
    for (entity, message) in entities.iter().zip(messages) {
        assert_eq!(publish_one_discovery(entity), message);
        assert_eq!(text(entity, "payload_available"), availability(true));
        assert_eq!(text(entity, "payload_not_available"), availability(false));
    }
    assert_eq!((availability(true), availability(false)), ("online".to_string(), "offline".to_string()));
}

#[test]
fn modbus_checksum() {
    assert_eq!(calculate_crc(&[]), 0xffff);
    assert_eq!(calculate_crc(&[0x01, 0x04, 0x00, 0x0c, 0x00, 0x02]), 0xc8b1);
    assert_eq!(calculate_crc(b"123456789"), 0x4b37);
    assert_eq!(power_request(), [0x01, 0x04, 0x00, 0x0c, 0x00, 0x02, 0xb1, 0xc8]);
    let request = energy_modbus_rtu_request(0x11, 0x03, 0x1234, 0xabcd);
    assert_eq!(request[..6], [0x11, 0x03, 0x12, 0x34, 0xab, 0xcd]);
    assert_eq!(calculate_crc(&request), 0);
}

#[test]
fn modbus_replies_are_read() {
    let mut reply = [0u8; 24];
    reply[3..7].copy_from_slice(&(-321.5f32).to_be_bytes());
    assert_eq!(read_register(&reply), Some((-321.5f32).to_bits()));
    assert_eq!(read_register(&[0u8; 24]), None);
    assert_eq!(f32::from_bits(FIRST_VALUE), 0.1f32);
    let mut m = MeterState::default();
    let mut value = FIRST_VALUE;
    let at = Instant::now();
    m.on_reply(&mut value, &[0u8; 24], at);
    assert_eq!(m.total_w, Some(0.1f32.to_bits()));
    m.on_reply(&mut value, &reply, at);
    assert_eq!(m.total_w, Some((-321.5f32).to_bits()));
    m.on_reply(&mut value, &[0u8; 24], at);
    assert_eq!(m.total_w, Some((-321.5f32).to_bits()));
    assert_eq!(m.last_total_update, Some(at));
    assert!(!m.total_lost());
    m.mark_total_power_as_stale();
    assert!(m.total_lost());
    assert!(!MeterState::default().total_lost());
}

#[test]
fn meter_type_is_read() {
    let mut cfg = meter_config();
    assert!(is_mqtt(&cfg));
    cfg.meter_type = "modbus".to_string();
    assert!(!is_mqtt(&cfg));
}

#[test]
fn meter_topics_are_subscribed_to() {
    let mut cfg = meter_config();
    assert_eq!(meter_subscriptions(&cfg), vec!["m/total", "m/phase", "m/v", "m/w"]);
    cfg.mqtt_meter_phase_power_topic = "m/total".to_string();
    cfg.mqtt_meter_charger_volts_topic = String::new();
    assert_eq!(meter_subscriptions(&cfg), vec!["m/total", "m/w"]);
}

#[test]
fn meter_messages_are_read() {
    let mut cfg = meter_config();
    cfg.mqtt_meter_phase_power_topic = "m/total".to_string();
    let payload = "{\"sensor\":{\"power\":{\"total\":12,\"phase\":-4}}}";
    let m = handle_meter(&cfg, "m/total", payload, None);
    assert_eq!(m.total, Some(number(12.0)));
    assert_eq!(m.phase, Some(number(-4.0)));
    assert_eq!(m.charger_v, None);
    let m = handle_meter(&cfg, "m/v", "231.5", plain("231.5"));
    assert_eq!(m.charger_v, plain("231.5"));
    assert_eq!((m.total, m.charger_a, m.charger_w), (None, None, None));
    let m = handle_meter(&cfg, "m/w", "{\"w\":1}", None);
    assert_eq!(m.charger_w, None);
    let m = handle_meter(&cfg, "", "5", plain("5"));
    assert_eq!(m.charger_a, None);
}

#[test]
fn meter_values_are_taken_over() {
    let mut m = MeterState::default();
    let at = Instant::now();
    let update = MeterUpdate {
        total_w: Some(1),
        phase_w: None,
        charger_v: Some(2),
        charger_a: None,
        charger_w: Some((3, Some(4))),
    };
    m.apply(update, at);
    assert_eq!((m.total_w, m.phase_w), (Some(1), None));
    assert_eq!((m.last_total_update, m.last_phase_update), (Some(at), None));
    assert_eq!((m.charger_v, m.charger_w, m.efficiency), (Some(2), Some(3), Some(4)));
    let update = MeterUpdate {
        total_w: None,
        phase_w: Some(9),
        charger_v: None,
        charger_a: Some(8),
        charger_w: Some((7, None)),
    };
    m.apply(update, at);
    assert_eq!((m.total_w, m.phase_w), (Some(1), Some(9)));
    assert_eq!((m.charger_v, m.charger_a), (Some(2), Some(8)));
    assert_eq!((m.charger_w, m.efficiency), (Some(7), None));
}

#[test]
fn stale_meter_stops_load_matching() {
    let mut m = MeterState::default();
    m.total_w = Some(1);
    m.phase_w = Some(2);
    let mut copy = m;
    assert_eq!(copy.lapse(true, false, OperationMode::V2h), Some(OperationMode::Idle));
    assert_eq!((copy.total_w, copy.phase_w), (None, Some(2)));
    let mut copy = m;
    assert_eq!(copy.lapse(true, true, OperationMode::Charge), None);
    assert_eq!((copy.total_w, copy.phase_w), (None, None));
    let mut copy = m;
    assert_eq!(copy.lapse(false, true, OperationMode::V2h), None);
    assert_eq!((copy.total_w, copy.phase_w), (Some(1), None));
}

#[test]
fn meter_that_was_never_heard_is_stale() {
    assert!(is_too_old(None, 1000));
    assert!(!is_too_old(Some(30), 30));
    assert!(is_too_old(Some(31), 30));
    assert!(meter_is_stale(None, 1000));
    assert!(!meter_is_stale(Some(Instant::now()), 1000));
    let mut m = MeterState::default();
    assert_eq!(m.check_staleness(30, OperationMode::V2h), Some(OperationMode::Idle));
    m.total_w = Some(5);
    m.last_total_update = Some(Instant::now());
    assert_eq!(m.check_staleness(3600, OperationMode::V2h), None);
    assert_eq!(m.total_w, Some(5));
    if let Some(past) = Instant::now().checked_sub(Duration::from_secs(5)) {
        m.last_total_update = Some(past);
        assert_eq!(m.check_staleness(1, OperationMode::Charge), None);
        assert_eq!(m.total_w, None);
    }
}
