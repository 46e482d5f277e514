//! What the charger tells Home Assistant of itself: one retained message for
//! each thing that can be shown or set.
use serde_json::Value;
use vstd::prelude::*;

use crate::data_io::mqtt::{availability, availability_text, availability_topic, command_topic, status_topic};
use crate::text::{join, views};

verus! {

/// A single value.
#[derive(Debug)]
pub enum Leaf {
    Text(String),
    Integer(i64),
    Texts(Vec<String>),
}

/// A value of a payload.
#[derive(Debug)]
pub enum Field {
    Leaf(Leaf),
    /// Values under keys of their own
    Group(Vec<(String, Leaf)>),
}

/// A single value as a mathematical value.
pub enum LeafView {
    Text(Seq<char>),
    Integer(i64),
    Texts(Seq<Seq<char>>),
}

/// A value of a payload as a mathematical value.
pub enum FieldView {
    Leaf(LeafView),
    Group(Seq<(Seq<char>, LeafView)>),
}

impl View for Leaf {
    type V = LeafView;

    open spec fn view(&self) -> LeafView {
        match self {
            Leaf::Text(text) => LeafView::Text(text@),
            Leaf::Integer(n) => LeafView::Integer(*n),
            Leaf::Texts(list) => LeafView::Texts(views(list@)),
        }
    }
}

/// The values of a group.
pub open spec fn leaves(pairs: Seq<(String, Leaf)>) -> Seq<(Seq<char>, LeafView)> {
    pairs.map_values(|pair: (String, Leaf)| (pair.0@, pair.1@))
}

impl View for Field {
    type V = FieldView;

    open spec fn view(&self) -> FieldView {
        match self {
            Field::Leaf(leaf) => FieldView::Leaf(leaf@),
            Field::Group(pairs) => FieldView::Group(leaves(pairs@)),
        }
    }
}

/// The keys and values of a payload.
pub open spec fn fields(payload: Seq<(String, Field)>) -> Seq<(Seq<char>, FieldView)> {
    payload.map_values(|pair: (String, Field)| (pair.0@, pair.1@))
}

/// What `serde_json::to_string` writes for an object with these keys and
/// values.
pub uninterp spec fn object_text(fields: Seq<(Seq<char>, FieldView)>) -> Seq<char>;

/// `serde_json::to_string` on the object that holds the given values under
/// the given keys: the text of that object. An object with texts as keys, and
/// texts, whole numbers, lists of texts and such objects as values, can always
/// be written.
#[verifier::external_body]
pub(crate) fn write_object(payload: &Vec<(String, Field)>) -> (text: Option<String>)
    ensures
        text is Some,
        text->0@ == object_text(fields(payload@)),
{
    let leaf = |leaf: &Leaf| match leaf {
        Leaf::Text(text) => Value::from(text.as_str()),
        Leaf::Integer(n) => Value::from(*n),
        Leaf::Texts(list) => Value::from(list.clone()),
    };
    let value = |field: &Field| match field {
        Field::Leaf(l) => leaf(l),
        Field::Group(pairs) => pairs.iter().map(|(key, l)| (key.as_str(), leaf(l))).collect(),
    };
    let object: Value = payload.iter().map(|(key, f)| (key.as_str(), value(f))).collect();
    serde_json::to_string(&object).ok()
}

/// One thing that can be shown or set: the topic and the payload of its
/// message.
#[derive(Debug)]
pub struct Entity {
    pub topic: String,
    pub payload: Vec<(String, Field)>,
}

/// An entity as a mathematical value.
#[verifier::ext_equal]
pub struct EntityView {
    pub topic: Seq<char>,
    pub payload: Seq<(Seq<char>, FieldView)>,
}

impl View for Entity {
    type V = EntityView;

    open spec fn view(&self) -> EntityView {
        EntityView { topic: self.topic@, payload: fields(self.payload@) }
    }
}

/// A list of entities as mathematical values.
pub open spec fn entities(list: Seq<Entity>) -> Seq<EntityView> {
    list.map_values(|entity: Entity| entity@)
}

/// The device that everything belongs to.
pub open spec fn device() -> FieldView {
    FieldView::Group(
        seq![
            ("identifiers"@, LeafView::Texts(seq!["BeagleBone-V2H"@])),
            ("name"@, LeafView::Text("V2H"@)),
            ("manufacturer"@, LeafView::Text("Indra"@)),
        ],
    )
}

/// A text under a key.
pub open spec fn text(key: Seq<char>, value: Seq<char>) -> (Seq<char>, FieldView) {
    (key, FieldView::Leaf(LeafView::Text(value)))
}

/// Topic of the message that describes an entity of a kind.
pub open spec fn config_topic(kind: Seq<char>, id: Seq<char>) -> Seq<char> {
    "homeassistant/"@ + kind + "/"@ + id + "/config"@
}

/// What every payload starts with.
pub open spec fn heading(
    base: Seq<char>,
    unique_id: Seq<char>,
    object_id: Seq<char>,
    name: Seq<char>,
    template: Seq<char>,
) -> Seq<(Seq<char>, FieldView)> {
    seq![
        text("unique_id"@, unique_id),
        text("object_id"@, object_id),
        text("name"@, name),
        text("state_topic"@, base + "/status"@),
        text("value_template"@, template),
    ]
}

/// What every payload ends with.
pub open spec fn closing(base: Seq<char>) -> Seq<(Seq<char>, FieldView)> {
    seq![
        text("availability_topic"@, base + "/availability"@),
        text("payload_available"@, availability_text(true)),
        text("payload_not_available"@, availability_text(false)),
        ("device"@, device()),
    ]
}

/// Template of a supervisory flag.
pub open spec fn flag_template(field: Seq<char>) -> Seq<char> {
    "{{value_json.supervisory."@ + field + " | lower}}"@
}

/// Template of a setting.
pub open spec fn setting_template(field: Seq<char>) -> Seq<char> {
    "{{value_json.settings."@ + field + "}}"@
}

/// Command that sets one setting to a value.
pub open spec fn set_command(field: Seq<char>, value: Seq<char>) -> Seq<char> {
    "{\"cmd\":{\"SetSetting\":{\""@ + field + "\":"@ + value + "}}}"@
}

/// A numeric sensor. An empty class is left out.
pub open spec fn sensor(
    base: Seq<char>,
    id: Seq<char>,
    name: Seq<char>,
    template: Seq<char>,
    unit: Seq<char>,
    class: Seq<char>,
) -> EntityView {
    EntityView {
        topic: config_topic("sensor"@, id),
        payload: heading(base, id, id, name, template) + seq![
            text("unit_of_measurement"@, unit),
            text("state_class"@, "measurement"@),
        ] + closing(base) + (if class.len() == 0 {
            seq![]
        } else {
            seq![text("device_class"@, class)]
        }),
    }
}

/// A text sensor.
pub open spec fn text_sensor(
    base: Seq<char>,
    id: Seq<char>,
    name: Seq<char>,
    template: Seq<char>,
) -> EntityView {
    EntityView {
        topic: config_topic("sensor"@, id),
        payload: heading(base, id, id, name, template) + closing(base),
    }
}

/// A sensor for a supervisory flag.
pub open spec fn binary_sensor(
    base: Seq<char>,
    id: Seq<char>,
    name: Seq<char>,
    field: Seq<char>,
) -> EntityView {
    EntityView {
        topic: config_topic("binary_sensor"@, id),
        payload: heading(base, id, id, name, flag_template(field)) + seq![
            text("payload_on"@, "true"@),
            text("payload_off"@, "false"@),
        ] + closing(base),
    }
}

/// A switch for a setting.
pub open spec fn switch(
    base: Seq<char>,
    unique_id: Seq<char>,
    object_id: Seq<char>,
    name: Seq<char>,
    field: Seq<char>,
) -> EntityView {
    EntityView {
        topic: config_topic("switch"@, unique_id),
        payload: heading(
            base,
            unique_id,
            object_id,
            name,
            setting_template(field + " | lower"@),
        ) + seq![
            text("state_on"@, "true"@),
            text("state_off"@, "false"@),
            text("command_topic"@, base + "/command"@),
            text("payload_on"@, set_command(field, "true"@)),
            text("payload_off"@, set_command(field, "false"@)),
            text("entity_category"@, "config"@),
        ] + closing(base),
    }
}

/// A slider for a setting.
pub open spec fn slider(
    base: Seq<char>,
    unique_id: Seq<char>,
    object_id: Seq<char>,
    name: Seq<char>,
    field: Seq<char>,
    min: i64,
    max: i64,
    step: i64,
    unit: Seq<char>,
) -> EntityView {
    EntityView {
        topic: config_topic("number"@, unique_id),
        payload: heading(base, unique_id, object_id, name, setting_template(field)) + seq![
            text("command_topic"@, base + "/command"@),
            text("command_template"@, set_command(field, "{{ value | int }}"@)),
            ("min"@, FieldView::Leaf(LeafView::Integer(min))),
            ("max"@, FieldView::Leaf(LeafView::Integer(max))),
            ("step"@, FieldView::Leaf(LeafView::Integer(step))),
            text("unit_of_measurement"@, unit),
            text("entity_category"@, "config"@),
        ] + closing(base),
    }
}

/// A text field for a time of day.
pub open spec fn time_field(
    base: Seq<char>,
    unique_id: Seq<char>,
    object_id: Seq<char>,
    name: Seq<char>,
    field: Seq<char>,
) -> EntityView {
    EntityView {
        topic: config_topic("text"@, unique_id),
        payload: heading(base, unique_id, object_id, name, setting_template(field)) + seq![
            text("command_topic"@, base + "/command"@),
            text("command_template"@, set_command(field, "\"{{ value }}\""@)),
            ("min"@, FieldView::Leaf(LeafView::Integer(5))),
            ("max"@, FieldView::Leaf(LeafView::Integer(5))),
            text("pattern"@, "^([0-1][0-9]|2[0-3]):[0-5][0-9]$"@),
            text("entity_category"@, "config"@),
        ] + closing(base),
    }
}

/// A sensor for a day of the week.
pub open spec fn day(
    base: Seq<char>,
    short: Seq<char>,
    label: Seq<char>,
    number: Seq<char>,
) -> EntityView {
    EntityView {
        topic: config_topic("binary_sensor"@, "beaglebone_v2h_rtd_day_"@ + short),
        payload: heading(
            base,
            "beaglebone_v2h_rtd_day_"@ + short,
            "v2h_rtd_day_"@ + short,
            "RTD "@ + label,
            setting_template("ready_to_drive_days["@ + number + "] | lower"@),
        ) + seq![
            text("payload_on"@, "true"@),
            text("payload_off"@, "false"@),
            text("entity_category"@, "config"@),
        ] + closing(base),
    }
}

/// The selection of the mode.
pub open spec fn mode_select(base: Seq<char>) -> EntityView {
    EntityView {
        topic: "homeassistant/select/v2h_mode/config"@,
        payload: heading(
            base,
            "beaglebone_v2h_mode"@,
            "beaglebone_v2h_mode"@,
            "Mode"@,
            "{{ value_json.chademo.state }}"@,
        ) + seq![
            text("command_topic"@, base + "/command"@),
            text("command_template"@, "{\"cmd\":{\"SetMode\":\"{{ value }}\"}}"@),
            ("options"@, FieldView::Leaf(LeafView::Texts(seq!["Idle"@, "V2h"@, "Charge"@, "Discharge"@]))),
        ] + closing(base),
    }
}

/// Numeric sensors.
pub open spec fn sensors(base: Seq<char>) -> Seq<EntityView> {
    seq![
        sensor(
            base,
            "beaglebone_v2h_soc"@,
            "SoC"@,
            "{{ value_json.chademo.soc }}"@,
            "%"@,
            "battery"@,
        ),
        sensor(
            base,
            "beaglebone_v2h_dc_power_w"@,
            "DC Power"@,
            "{{ ((value_json.pre.dc_output_volts | float(0)) * (value_json.pre.dc_output_amps | float(0))) | round(0) | int }}"@,
            "W"@,
            "power"@,
        ),
        sensor(
            base,
            "beaglebone_v2h_charger_ac_power_w"@,
            "AC Power"@,
            "{{ value_json.meter.charger_w | default(0) | round(0) | int }}"@,
            "W"@,
            "power"@,
        ),
        sensor(
            base,
            "beaglebone_v2h_grid_power_w"@,
            "Grid Power"@,
            "{{ value_json.meter.total_w | default(0) | round(0) | int }}"@,
            "W"@,
            "power"@,
        ),
        sensor(
            base,
            "beaglebone_v2h_grid_phase_power_w"@,
            "Grid Phase Power"@,
            "{{ value_json.meter.phase_w | default(0) | round(0) | int }}"@,
            "W"@,
            "power"@,
        ),
        sensor(
            base,
            "beaglebone_v2h_efficiency_pct"@,
            "Efficiency"@,
            "{{ value_json.meter.efficiency | default(0) | round(1) }}"@,
            "%"@,
            ""@,
        ),
        sensor(
            base,
            "beaglebone_v2h_pre_temp_c"@,
            "PRE Temperature"@,
            "{{ value_json.pre.temp | round(1) }}"@,
            "°C"@,
            "temperature"@,
        ),
        sensor(
            base,
            "beaglebone_v2h_pre_fan_duty_pct"@,
            "PRE Fan Duty"@,
            "{{ value_json.pre.fan_duty }}"@,
            "%"@,
            ""@,
        ),
        sensor(
            base,
            "beaglebone_v2h_charging_current_req_a"@,
            "Charging Current Request"@,
            "{{ value_json.chademo.x102.charging_current_request }}"@,
            "A"@,
            "current"@,
        ),
        sensor(
            base,
            "beaglebone_v2h_dc_output_volts"@,
            "DC Output Volts"@,
            "{{ value_json.pre.dc_output_volts | round(1) }}"@,
            "V"@,
            "voltage"@,
        ),
        sensor(
            base,
            "beaglebone_v2h_dc_output_amps"@,
            "DC Output Amps"@,
            "{{ value_json.pre.dc_output_amps | round(1) }}"@,
            "A"@,
            "current"@,
        ),
    ]
}

/// Text sensors, without a unit.
pub open spec fn text_sensors(base: Seq<char>) -> Seq<EntityView> {
    seq![
        text_sensor(
            base,
            "beaglebone_v2h_operation_mode"@,
            "Operation Mode"@,
            "{{ value_json.chademo.state }}"@,
        ),
        text_sensor(
            base,
            "beaglebone_v2h_pre_state"@,
            "PRE State"@,
            "{{ value_json.pre.state }}"@,
        ),
        text_sensor(
            base,
            "beaglebone_v2h_active_mode"@,
            "Active Mode"@,
            "{% if value_json.supervisory.ready_to_drive_active %}Ready to Drive\
{% elif value_json.supervisory.off_peak_charging_active %}Off-Peak\
{% elif value_json.supervisory.smart_export_active %}Smart Export\
{% elif value_json.supervisory.smart_export_excess_solar_active %}Excess Solar\
{% elif value_json.supervisory.smart_charge_active %}Smart Charge\
{% elif value_json.supervisory.ev_drain_protection_active %}EV Drain Protection\
{% else %}Normal{% endif %}"@,
        ),
    ]
}

/// The supervisory flags.
pub open spec fn binary_sensors(base: Seq<char>) -> Seq<EntityView> {
    seq![
        binary_sensor(
            base,
            "beaglebone_v2h_smart_charge_request"@,
            "Smart Charge Request"@,
            "smart_charge_request"@,
        ),
        binary_sensor(
            base,
            "beaglebone_v2h_smart_charge_active"@,
            "Smart Charge Active"@,
            "smart_charge_active"@,
        ),
        binary_sensor(
            base,
            "beaglebone_v2h_ev_drain_protection_request"@,
            "EV Drain Protection Request"@,
            "ev_drain_protection_request"@,
        ),
        binary_sensor(
            base,
            "beaglebone_v2h_ev_drain_protection_active"@,
            "EV Drain Protection Active"@,
            "ev_drain_protection_active"@,
        ),
        binary_sensor(
            base,
            "beaglebone_v2h_smart_export_request"@,
            "Smart Export Request"@,
            "smart_export_request"@,
        ),
        binary_sensor(
            base,
            "beaglebone_v2h_smart_export_active"@,
            "Smart Export Active"@,
            "smart_export_active"@,
        ),
        binary_sensor(
            base,
            "beaglebone_v2h_smart_export_solar_request"@,
            "Smart Export Solar Request"@,
            "smart_export_excess_solar_request"@,
        ),
        binary_sensor(
            base,
            "beaglebone_v2h_smart_export_solar_active"@,
            "Smart Export Solar Active"@,
            "smart_export_excess_solar_active"@,
        ),
        binary_sensor(
            base,
            "beaglebone_v2h_ready_to_drive_request"@,
            "Ready to Drive Request"@,
            "ready_to_drive_request"@,
        ),
        binary_sensor(
            base,
            "beaglebone_v2h_ready_to_drive_active"@,
            "Ready to Drive Active"@,
            "ready_to_drive_active"@,
        ),
        binary_sensor(
            base,
            "beaglebone_v2h_off_peak_charging_request"@,
            "Off-Peak Charging Request"@,
            "off_peak_charging_request"@,
        ),
        binary_sensor(
            base,
            "beaglebone_v2h_off_peak_charging_active"@,
            "Off-Peak Charging Active"@,
            "off_peak_charging_active"@,
        ),
    ]
}

/// The settings that are on or off.
pub open spec fn switches(base: Seq<char>) -> Seq<EntityView> {
    seq![
        switch(
            base,
            "beaglebone_v2h_ready_to_drive_enabled"@,
            "v2h_ready_to_drive_enabled"@,
            "Ready to Drive"@,
            "ready_to_drive"@,
        ),
        switch(
            base,
            "beaglebone_v2h_off_peak_charging_enabled"@,
            "v2h_off_peak_charging_enabled"@,
            "Off-Peak Charging"@,
            "off_peak_charging"@,
        ),
        switch(
            base,
            "beaglebone_v2h_smart_export_enabled"@,
            "v2h_smart_export_enabled"@,
            "Smart Export"@,
            "smart_export"@,
        ),
        switch(
            base,
            "beaglebone_v2h_smart_export_solar_enabled"@,
            "v2h_smart_export_solar_enabled"@,
            "Smart Export Solar"@,
            "smart_export_excess_solar"@,
        ),
        switch(
            base,
            "beaglebone_v2h_smart_charge_enabled"@,
            "v2h_smart_charge_enabled"@,
            "Smart Charge"@,
            "smart_charge"@,
        ),
        switch(
            base,
            "beaglebone_v2h_ev_drain_protection_enabled"@,
            "v2h_ev_drain_protection_enabled"@,
            "EV Drain Protection"@,
            "ev_drain_protection"@,
        ),
        switch(base, "beaglebone_v2h_self_use"@, "v2h_self_use"@, "Self Use"@, "self_use"@),
        switch(
            base,
            "beaglebone_v2h_export_excess_solar"@,
            "v2h_export_excess_solar"@,
            "Export Excess Solar"@,
            "export_excess_solar"@,
        ),
        switch(
            base,
            "beaglebone_v2h_charge_eco"@,
            "v2h_charge_eco"@,
            "Charge Eco"@,
            "charge_eco"@,
        ),
    ]
}

/// The settings that are numbers.
pub open spec fn numbers(base: Seq<char>) -> Seq<EntityView> {
    seq![
        slider(
            base,
            "beaglebone_v2h_soc_min"@,
            "v2h_soc_min"@,
            "V2H SoC Min"@,
            "v2h_soc_min"@,
            10,
            100,
            1,
            "%"@,
        ),
        slider(
            base,
            "beaglebone_v2h_soc_max"@,
            "v2h_soc_max"@,
            "V2H SoC Max"@,
            "v2h_soc_max"@,
            10,
            100,
            1,
            "%"@,
        ),
        slider(
            base,
            "beaglebone_v2h_soc_max_boost"@,
            "v2h_soc_max_boost"@,
            "V2H SoC Max Boost"@,
            "v2h_soc_max_boost"@,
            10,
            100,
            1,
            "%"@,
        ),
        slider(
            base,
            "beaglebone_v2h_max_amps"@,
            "v2h_max_amps"@,
            "V2H Max Amps"@,
            "v2h_max_amps"@,
            1,
            16,
            1,
            "A"@,
        ),
        slider(
            base,
            "beaglebone_v2h_rtd_soc"@,
            "v2h_rtd_soc"@,
            "RTD SoC Target"@,
            "ready_to_drive_soc"@,
            10,
            100,
            1,
            "%"@,
        ),
        slider(
            base,
            "beaglebone_v2h_smart_export_limit_w"@,
            "v2h_smart_export_limit_w"@,
            "Smart Export Limit"@,
            "smart_export_limit_w"@,
            0,
            10000,
            100,
            "W"@,
        ),
        slider(
            base,
            "beaglebone_v2h_smart_export_soc_min"@,
            "v2h_smart_export_soc_min"@,
            "Smart Export SoC Min"@,
            "smart_export_soc_min"@,
            10,
            100,
            1,
            "%"@,
        ),
        slider(
            base,
            "beaglebone_v2h_charge_soc_limit"@,
            "v2h_charge_soc_limit"@,
            "Charge SoC Limit"@,
            "charge_soc_limit"@,
            10,
            100,
            1,
            "%"@,
        ),
        slider(
            base,
            "beaglebone_v2h_charge_amps"@,
            "v2h_charge_amps"@,
            "Charge Amps"@,
            "charge_amps"@,
            1,
            16,
            1,
            "A"@,
        ),
    ]
}

/// The settings that are times of day.
pub open spec fn times(base: Seq<char>) -> Seq<EntityView> {
    seq![
        time_field(
            base,
            "beaglebone_v2h_rtd_start_time"@,
            "v2h_rtd_start_time"@,
            "RTD Start Time"@,
            "ready_to_drive_start_time"@,
        ),
        time_field(
            base,
            "beaglebone_v2h_rtd_end_time"@,
            "v2h_rtd_end_time"@,
            "RTD End Time"@,
            "ready_to_drive_end_time"@,
        ),
        time_field(
            base,
            "beaglebone_v2h_off_peak_start"@,
            "v2h_off_peak_start"@,
            "Off-Peak Start"@,
            "off_peak_start"@,
        ),
        time_field(
            base,
            "beaglebone_v2h_off_peak_end"@,
            "v2h_off_peak_end"@,
            "Off-Peak End"@,
            "off_peak_end"@,
        ),
    ]
}

/// The days on which the vehicle is made ready, Monday first.
pub open spec fn days(base: Seq<char>) -> Seq<EntityView> {
    seq![
        day(base, "mon"@, "Monday"@, "0"@),
        day(base, "tue"@, "Tuesday"@, "1"@),
        day(base, "wed"@, "Wednesday"@, "2"@),
        day(base, "thu"@, "Thursday"@, "3"@),
        day(base, "fri"@, "Friday"@, "4"@),
        day(base, "sat"@, "Saturday"@, "5"@),
        day(base, "sun"@, "Sunday"@, "6"@),
    ]
}

/// Everything that the charger tells of itself.
pub open spec fn discovery(base: Seq<char>) -> Seq<EntityView> {
    sensors(base) + text_sensors(base) + binary_sensors(base) + switches(base) + numbers(base)
        + times(base) + days(base) + seq![mode_select(base)]
}

fn add_field(payload: &mut Vec<(String, Field)>, key: &str, value: Field)
    ensures
        fields(final(payload)@) == fields(old(payload)@).push((key@, value@)),
{
    payload.push((key.to_owned(), value));
    assert(fields(payload@) =~= fields(old(payload)@).push((key@, value@)));
}

fn add_text(payload: &mut Vec<(String, Field)>, key: &str, value: &str)
    ensures
        fields(final(payload)@) == fields(old(payload)@).push(text(key@, value@)),
{
    add_field(payload, key, Field::Leaf(Leaf::Text(value.to_owned())));
}

fn device_field() -> (field: Field)
    ensures
        field@ == device(),
{
    let identifiers = vec!["BeagleBone-V2H".to_owned()];
    let pairs = vec![
        ("identifiers".to_owned(), Leaf::Texts(identifiers)),
        ("name".to_owned(), Leaf::Text("V2H".to_owned())),
        ("manufacturer".to_owned(), Leaf::Text("Indra".to_owned())),
    ];
    assert(views(identifiers@) =~= seq!["BeagleBone-V2H"@]);
    assert(leaves(pairs@) =~= seq![
        ("identifiers"@, LeafView::Texts(seq!["BeagleBone-V2H"@])),
        ("name"@, LeafView::Text("V2H"@)),
        ("manufacturer"@, LeafView::Text("Indra"@)),
    ]);
    Field::Group(pairs)
}

fn start(base: &str, unique_id: &str, object_id: &str, name: &str, template: &str) -> (payload: Vec<
    (String, Field),
>)
    ensures
        fields(payload@) == heading(base@, unique_id@, object_id@, name@, template@),
{
    let mut payload: Vec<(String, Field)> = Vec::new();
    add_text(&mut payload, "unique_id", unique_id);
    add_text(&mut payload, "object_id", object_id);
    add_text(&mut payload, "name", name);
    add_text(&mut payload, "state_topic", &status_topic(base));
    add_text(&mut payload, "value_template", template);
    assert(fields(payload@) =~= heading(base@, unique_id@, object_id@, name@, template@));
    payload
}

fn close(payload: &mut Vec<(String, Field)>, base: &str)
    ensures
        fields(final(payload)@) == fields(old(payload)@) + closing(base@),
{
    add_text(payload, "availability_topic", &availability_topic(base));
    add_text(payload, "payload_available", &availability(true));
    add_text(payload, "payload_not_available", &availability(false));
    add_field(payload, "device", device_field());
    assert(fields(payload@) =~= fields(old(payload)@) + closing(base@));
}

fn topic_of(kind: &str, id: &str) -> (topic: String)
    ensures
        topic@ == config_topic(kind@, id@),
{
    let mut topic = join("homeassistant/", kind);
    topic.append("/");
    topic.append(id);
    topic.append("/config");
    topic
}

fn template_of(field: &str) -> (template: String)
    ensures
        template@ == setting_template(field@),
{
    let mut template = join("{{value_json.settings.", field);
    template.append("}}");
    template
}

fn command_of(field: &str, value: &str) -> (command: String)
    ensures
        command@ == set_command(field@, value@),
{
    let mut command = join("{\"cmd\":{\"SetSetting\":{\"", field);
    command.append("\":");
    command.append(value);
    command.append("}}}");
    command
}

fn numeric_sensor(base: &str, id: &str, name: &str, template: &str, unit: &str, class: &str) -> (r:
    Entity)
    ensures
        r@ == sensor(base@, id@, name@, template@, unit@, class@),
{
    let mut payload = start(base, id, id, name, template);
    add_text(&mut payload, "unit_of_measurement", unit);
    add_text(&mut payload, "state_class", "measurement");
    close(&mut payload, base);
    if class.unicode_len() > 0 {
        add_text(&mut payload, "device_class", class);
    }
    let r = Entity { topic: topic_of("sensor", id), payload };
    assert(r@ =~= sensor(base@, id@, name@, template@, unit@, class@));
    r
}

fn text_sensor_entity(base: &str, id: &str, name: &str, template: &str) -> (r: Entity)
    ensures
        r@ == text_sensor(base@, id@, name@, template@),
{
    let mut payload = start(base, id, id, name, template);
    close(&mut payload, base);
    Entity { topic: topic_of("sensor", id), payload }
}

fn binary_sensor_entity(base: &str, id: &str, name: &str, field: &str) -> (r: Entity)
    ensures
        r@ == binary_sensor(base@, id@, name@, field@),
{
    let mut template = join("{{value_json.supervisory.", field);
    template.append(" | lower}}");
    let mut payload = start(base, id, id, name, &template);
    add_text(&mut payload, "payload_on", "true");
    add_text(&mut payload, "payload_off", "false");
    close(&mut payload, base);
    let r = Entity { topic: topic_of("binary_sensor", id), payload };
    assert(r@ =~= binary_sensor(base@, id@, name@, field@));
    r
}

fn switch_entity(base: &str, unique_id: &str, object_id: &str, name: &str, field: &str) -> (r:
    Entity)
    ensures
        r@ == switch(base@, unique_id@, object_id@, name@, field@),
{
    let template = template_of(&join(field, " | lower"));
    let mut payload = start(base, unique_id, object_id, name, &template);
    add_text(&mut payload, "state_on", "true");
    add_text(&mut payload, "state_off", "false");
    add_text(&mut payload, "command_topic", &command_topic(base));
    add_text(&mut payload, "payload_on", &command_of(field, "true"));
    add_text(&mut payload, "payload_off", &command_of(field, "false"));
    add_text(&mut payload, "entity_category", "config");
    close(&mut payload, base);
    let r = Entity { topic: topic_of("switch", unique_id), payload };
    assert(r@ =~= switch(base@, unique_id@, object_id@, name@, field@));
    r
}

fn slider_entity(
    base: &str,
    unique_id: &str,
    object_id: &str,
    name: &str,
    field: &str,
    min: i64,
    max: i64,
    step: i64,
    unit: &str,
) -> (r: Entity)
    ensures
        r@ == slider(base@, unique_id@, object_id@, name@, field@, min, max, step, unit@),
{
    let mut payload = start(base, unique_id, object_id, name, &template_of(field));
    add_text(&mut payload, "command_topic", &command_topic(base));
    add_text(&mut payload, "command_template", &command_of(field, "{{ value | int }}"));
    add_field(&mut payload, "min", Field::Leaf(Leaf::Integer(min)));
    add_field(&mut payload, "max", Field::Leaf(Leaf::Integer(max)));
    add_field(&mut payload, "step", Field::Leaf(Leaf::Integer(step)));
    add_text(&mut payload, "unit_of_measurement", unit);
    add_text(&mut payload, "entity_category", "config");
    close(&mut payload, base);
    let r = Entity { topic: topic_of("number", unique_id), payload };
    assert(r@ =~= slider(base@, unique_id@, object_id@, name@, field@, min, max, step, unit@));
    r
}

fn time_entity(base: &str, unique_id: &str, object_id: &str, name: &str, field: &str) -> (r: Entity)
    ensures
        r@ == time_field(base@, unique_id@, object_id@, name@, field@),
{
    let mut payload = start(base, unique_id, object_id, name, &template_of(field));
    add_text(&mut payload, "command_topic", &command_topic(base));
    add_text(&mut payload, "command_template", &command_of(field, "\"{{ value }}\""));
    add_field(&mut payload, "min", Field::Leaf(Leaf::Integer(5)));
    add_field(&mut payload, "max", Field::Leaf(Leaf::Integer(5)));
    add_text(&mut payload, "pattern", "^([0-1][0-9]|2[0-3]):[0-5][0-9]$");
    add_text(&mut payload, "entity_category", "config");
    close(&mut payload, base);
    let r = Entity { topic: topic_of("text", unique_id), payload };
    assert(r@ =~= time_field(base@, unique_id@, object_id@, name@, field@));
    r
}

fn day_entity(base: &str, short: &str, label: &str, number: &str) -> (r: Entity)
    ensures
        r@ == day(base@, short@, label@, number@),
{
    let unique_id = join("beaglebone_v2h_rtd_day_", short);
    let mut place = join("ready_to_drive_days[", number);
    place.append("] | lower");
    let mut payload = start(
        base,
        &unique_id,
        &join("v2h_rtd_day_", short),
        &join("RTD ", label),
        &template_of(&place),
    );
    add_text(&mut payload, "payload_on", "true");
    add_text(&mut payload, "payload_off", "false");
    add_text(&mut payload, "entity_category", "config");
    close(&mut payload, base);
    let r = Entity { topic: topic_of("binary_sensor", &unique_id), payload };
    assert(r@ =~= day(base@, short@, label@, number@));
    r
}

fn mode_entity(base: &str) -> (r: Entity)
    ensures
        r@ == mode_select(base@),
{
    let mut payload = start(
        base,
        "beaglebone_v2h_mode",
        "beaglebone_v2h_mode",
        "Mode",
        "{{ value_json.chademo.state }}",
    );
    let options = vec![
        "Idle".to_owned(),
        "V2h".to_owned(),
        "Charge".to_owned(),
        "Discharge".to_owned(),
    ];
    assert(views(options@) =~= seq!["Idle"@, "V2h"@, "Charge"@, "Discharge"@]);
    add_text(&mut payload, "command_topic", &command_topic(base));
    add_text(&mut payload, "command_template", "{\"cmd\":{\"SetMode\":\"{{ value }}\"}}");
    add_field(&mut payload, "options", Field::Leaf(Leaf::Texts(options)));
    close(&mut payload, base);
    let r = Entity { topic: "homeassistant/select/v2h_mode/config".to_owned(), payload };
    assert(r@ =~= mode_select(base@));
    r
}

fn add_entity(list: &mut Vec<Entity>, entity: Entity)
    ensures
        entities(final(list)@) == entities(old(list)@).push(entity@),
{
    list.push(entity);
    assert(entities(list@) =~= entities(old(list)@).push(entity@));
}

fn add_sensors(list: &mut Vec<Entity>, base: &str)
    ensures
        entities(final(list)@) == entities(old(list)@) + sensors(base@),
{
    add_entity(
        list,
        numeric_sensor(
            base,
            "beaglebone_v2h_soc",
            "SoC",
            "{{ value_json.chademo.soc }}",
            "%",
            "battery",
        ),
    );
    add_entity(
        list,
        numeric_sensor(
            base,
            "beaglebone_v2h_dc_power_w",
            "DC Power",
            "{{ ((value_json.pre.dc_output_volts | float(0)) * (value_json.pre.dc_output_amps | float(0))) | round(0) | int }}",
            "W",
            "power",
        ),
    );
    add_entity(
        list,
        numeric_sensor(
            base,
            "beaglebone_v2h_charger_ac_power_w",
            "AC Power",
            "{{ value_json.meter.charger_w | default(0) | round(0) | int }}",
            "W",
            "power",
        ),
    );
    add_entity(
        list,
        numeric_sensor(
            base,
            "beaglebone_v2h_grid_power_w",
            "Grid Power",
            "{{ value_json.meter.total_w | default(0) | round(0) | int }}",
            "W",
            "power",
        ),
    );
    add_entity(
        list,
        numeric_sensor(
            base,
            "beaglebone_v2h_grid_phase_power_w",
            "Grid Phase Power",
            "{{ value_json.meter.phase_w | default(0) | round(0) | int }}",
            "W",
            "power",
        ),
    );
    add_entity(
        list,
        numeric_sensor(
            base,
            "beaglebone_v2h_efficiency_pct",
            "Efficiency",
            "{{ value_json.meter.efficiency | default(0) | round(1) }}",
            "%",
            "",
        ),
    );
    add_entity(
        list,
        numeric_sensor(
            base,
            "beaglebone_v2h_pre_temp_c",
            "PRE Temperature",
            "{{ value_json.pre.temp | round(1) }}",
            "°C",
            "temperature",
        ),
    );
    add_entity(
        list,
        numeric_sensor(
            base,
            "beaglebone_v2h_pre_fan_duty_pct",
            "PRE Fan Duty",
            "{{ value_json.pre.fan_duty }}",
            "%",
            "",
        ),
    );
    add_entity(
        list,
        numeric_sensor(
            base,
            "beaglebone_v2h_charging_current_req_a",
            "Charging Current Request",
            "{{ value_json.chademo.x102.charging_current_request }}",
            "A",
            "current",
        ),
    );
    add_entity(
        list,
        numeric_sensor(
            base,
            "beaglebone_v2h_dc_output_volts",
            "DC Output Volts",
            "{{ value_json.pre.dc_output_volts | round(1) }}",
            "V",
            "voltage",
        ),
    );
    add_entity(
        list,
        numeric_sensor(
            base,
            "beaglebone_v2h_dc_output_amps",
            "DC Output Amps",
            "{{ value_json.pre.dc_output_amps | round(1) }}",
            "A",
            "current",
        ),
    );
}

fn add_text_sensors(list: &mut Vec<Entity>, base: &str)
    ensures
        entities(final(list)@) == entities(old(list)@) + text_sensors(base@),
{
    add_entity(
        list,
        text_sensor_entity(
            base,
            "beaglebone_v2h_operation_mode",
            "Operation Mode",
            "{{ value_json.chademo.state }}",
        ),
    );
    add_entity(
        list,
        text_sensor_entity(
            base,
            "beaglebone_v2h_pre_state",
            "PRE State",
            "{{ value_json.pre.state }}",
        ),
    );
    add_entity(
        list,
        text_sensor_entity(
            base,
            "beaglebone_v2h_active_mode",
            "Active Mode",
            "{% if value_json.supervisory.ready_to_drive_active %}Ready to Drive\
{% elif value_json.supervisory.off_peak_charging_active %}Off-Peak\
{% elif value_json.supervisory.smart_export_active %}Smart Export\
{% elif value_json.supervisory.smart_export_excess_solar_active %}Excess Solar\
{% elif value_json.supervisory.smart_charge_active %}Smart Charge\
{% elif value_json.supervisory.ev_drain_protection_active %}EV Drain Protection\
{% else %}Normal{% endif %}",
        ),
    );
}

fn add_binary_sensors(list: &mut Vec<Entity>, base: &str)
    ensures
        entities(final(list)@) == entities(old(list)@) + binary_sensors(base@),
{
    add_entity(
        list,
        binary_sensor_entity(
            base,
            "beaglebone_v2h_smart_charge_request",
            "Smart Charge Request",
            "smart_charge_request",
        ),
    );
    add_entity(
        list,
        binary_sensor_entity(
            base,
            "beaglebone_v2h_smart_charge_active",
            "Smart Charge Active",
            "smart_charge_active",
        ),
    );
    add_entity(
        list,
        binary_sensor_entity(
            base,
            "beaglebone_v2h_ev_drain_protection_request",
            "EV Drain Protection Request",
            "ev_drain_protection_request",
        ),
    );
    add_entity(
        list,
        binary_sensor_entity(
            base,
            "beaglebone_v2h_ev_drain_protection_active",
            "EV Drain Protection Active",
            "ev_drain_protection_active",
        ),
    );
    add_entity(
        list,
        binary_sensor_entity(
            base,
            "beaglebone_v2h_smart_export_request",
            "Smart Export Request",
            "smart_export_request",
        ),
    );
    add_entity(
        list,
        binary_sensor_entity(
            base,
            "beaglebone_v2h_smart_export_active",
            "Smart Export Active",
            "smart_export_active",
        ),
    );
    add_entity(
        list,
        binary_sensor_entity(
            base,
            "beaglebone_v2h_smart_export_solar_request",
            "Smart Export Solar Request",
            "smart_export_excess_solar_request",
        ),
    );
    add_entity(
        list,
        binary_sensor_entity(
            base,
            "beaglebone_v2h_smart_export_solar_active",
            "Smart Export Solar Active",
            "smart_export_excess_solar_active",
        ),
    );
    add_entity(
        list,
        binary_sensor_entity(
            base,
            "beaglebone_v2h_ready_to_drive_request",
            "Ready to Drive Request",
            "ready_to_drive_request",
        ),
    );
    add_entity(
        list,
        binary_sensor_entity(
            base,
            "beaglebone_v2h_ready_to_drive_active",
            "Ready to Drive Active",
            "ready_to_drive_active",
        ),
    );
    add_entity(
        list,
        binary_sensor_entity(
            base,
            "beaglebone_v2h_off_peak_charging_request",
            "Off-Peak Charging Request",
            "off_peak_charging_request",
        ),
    );
    add_entity(
        list,
        binary_sensor_entity(
            base,
            "beaglebone_v2h_off_peak_charging_active",
            "Off-Peak Charging Active",
            "off_peak_charging_active",
        ),
    );
}

fn add_switches(list: &mut Vec<Entity>, base: &str)
    ensures
        entities(final(list)@) == entities(old(list)@) + switches(base@),
{
    add_entity(
        list,
        switch_entity(
            base,
            "beaglebone_v2h_ready_to_drive_enabled",
            "v2h_ready_to_drive_enabled",
            "Ready to Drive",
            "ready_to_drive",
        ),
    );
    add_entity(
        list,
        switch_entity(
            base,
            "beaglebone_v2h_off_peak_charging_enabled",
            "v2h_off_peak_charging_enabled",
            "Off-Peak Charging",
            "off_peak_charging",
        ),
    );
    add_entity(
        list,
        switch_entity(
            base,
            "beaglebone_v2h_smart_export_enabled",
            "v2h_smart_export_enabled",
            "Smart Export",
            "smart_export",
        ),
    );
    add_entity(
        list,
        switch_entity(
            base,
            "beaglebone_v2h_smart_export_solar_enabled",
            "v2h_smart_export_solar_enabled",
            "Smart Export Solar",
            "smart_export_excess_solar",
        ),
    );
    add_entity(
        list,
        switch_entity(
            base,
            "beaglebone_v2h_smart_charge_enabled",
            "v2h_smart_charge_enabled",
            "Smart Charge",
            "smart_charge",
        ),
    );
    add_entity(
        list,
        switch_entity(
            base,
            "beaglebone_v2h_ev_drain_protection_enabled",
            "v2h_ev_drain_protection_enabled",
            "EV Drain Protection",
            "ev_drain_protection",
        ),
    );
    add_entity(
        list,
        switch_entity(
            base,
            "beaglebone_v2h_self_use",
            "v2h_self_use",
            "Self Use",
            "self_use",
        ),
    );
    add_entity(
        list,
        switch_entity(
            base,
            "beaglebone_v2h_export_excess_solar",
            "v2h_export_excess_solar",
            "Export Excess Solar",
            "export_excess_solar",
        ),
    );
    add_entity(
        list,
        switch_entity(
            base,
            "beaglebone_v2h_charge_eco",
            "v2h_charge_eco",
            "Charge Eco",
            "charge_eco",
        ),
    );
}

fn add_numbers(list: &mut Vec<Entity>, base: &str)
    ensures
        entities(final(list)@) == entities(old(list)@) + numbers(base@),
{
    add_entity(
        list,
        slider_entity(
            base,
            "beaglebone_v2h_soc_min",
            "v2h_soc_min",
            "V2H SoC Min",
            "v2h_soc_min",
            10,
            100,
            1,
            "%",
        ),
    );
    add_entity(
        list,
        slider_entity(
            base,
            "beaglebone_v2h_soc_max",
            "v2h_soc_max",
            "V2H SoC Max",
            "v2h_soc_max",
            10,
            100,
            1,
            "%",
        ),
    );
    add_entity(
        list,
        slider_entity(
            base,
            "beaglebone_v2h_soc_max_boost",
            "v2h_soc_max_boost",
            "V2H SoC Max Boost",
            "v2h_soc_max_boost",
            10,
            100,
            1,
            "%",
        ),
    );
    add_entity(
        list,
        slider_entity(
            base,
            "beaglebone_v2h_max_amps",
            "v2h_max_amps",
            "V2H Max Amps",
            "v2h_max_amps",
            1,
            16,
            1,
            "A",
        ),
    );
    add_entity(
        list,
        slider_entity(
            base,
            "beaglebone_v2h_rtd_soc",
            "v2h_rtd_soc",
            "RTD SoC Target",
            "ready_to_drive_soc",
            10,
            100,
            1,
            "%",
        ),
    );
    add_entity(
        list,
        slider_entity(
            base,
            "beaglebone_v2h_smart_export_limit_w",
            "v2h_smart_export_limit_w",
            "Smart Export Limit",
            "smart_export_limit_w",
            0,
            10000,
            100,
            "W",
        ),
    );
    add_entity(
        list,
        slider_entity(
            base,
            "beaglebone_v2h_smart_export_soc_min",
            "v2h_smart_export_soc_min",
            "Smart Export SoC Min",
            "smart_export_soc_min",
            10,
            100,
            1,
            "%",
        ),
    );
    add_entity(
        list,
        slider_entity(
            base,
            "beaglebone_v2h_charge_soc_limit",
            "v2h_charge_soc_limit",
            "Charge SoC Limit",
            "charge_soc_limit",
            10,
            100,
            1,
            "%",
        ),
    );
    add_entity(
        list,
        slider_entity(
            base,
            "beaglebone_v2h_charge_amps",
            "v2h_charge_amps",
            "Charge Amps",
            "charge_amps",
            1,
            16,
            1,
            "A",
        ),
    );
}

fn add_times(list: &mut Vec<Entity>, base: &str)
    ensures
        entities(final(list)@) == entities(old(list)@) + times(base@),
{
    add_entity(
        list,
        time_entity(
            base,
            "beaglebone_v2h_rtd_start_time",
            "v2h_rtd_start_time",
            "RTD Start Time",
            "ready_to_drive_start_time",
        ),
    );
    add_entity(
        list,
        time_entity(
            base,
            "beaglebone_v2h_rtd_end_time",
            "v2h_rtd_end_time",
            "RTD End Time",
            "ready_to_drive_end_time",
        ),
    );
    add_entity(
        list,
        time_entity(
            base,
            "beaglebone_v2h_off_peak_start",
            "v2h_off_peak_start",
            "Off-Peak Start",
            "off_peak_start",
        ),
    );
    add_entity(
        list,
        time_entity(
            base,
            "beaglebone_v2h_off_peak_end",
            "v2h_off_peak_end",
            "Off-Peak End",
            "off_peak_end",
        ),
    );
}

fn add_days(list: &mut Vec<Entity>, base: &str)
    ensures
        entities(final(list)@) == entities(old(list)@) + days(base@),
{
    add_entity(list, day_entity(base, "mon", "Monday", "0"));
    add_entity(list, day_entity(base, "tue", "Tuesday", "1"));
    add_entity(list, day_entity(base, "wed", "Wednesday", "2"));
    add_entity(list, day_entity(base, "thu", "Thursday", "3"));
    add_entity(list, day_entity(base, "fri", "Friday", "4"));
    add_entity(list, day_entity(base, "sat", "Saturday", "5"));
    add_entity(list, day_entity(base, "sun", "Sunday", "6"));
}

/// Everything that the charger tells of itself, in the order in which it is
/// published.
pub fn publish_discovery(base: &str) -> (list: Vec<Entity>)
    ensures
        entities(list@) == discovery(base@),
{
    let mut list: Vec<Entity> = Vec::new();
    assert(entities(list@) =~= seq![]);
    add_sensors(&mut list, base);
    add_text_sensors(&mut list, base);
    add_binary_sensors(&mut list, base);
    add_switches(&mut list, base);
    add_numbers(&mut list, base);
    add_times(&mut list, base);
    add_days(&mut list, base);
    add_entity(&mut list, mode_entity(base));
    assert(entities(list@) =~= discovery(base@));
    list
}

/// A message as it is published: its topic and its text.
pub open spec fn message_of(entity: EntityView) -> (Seq<char>, Seq<char>) {
    (entity.topic, object_text(entity.payload))
}

/// The topic and the text of the message that tells of an entity.
pub fn publish_one_discovery(entity: &Entity) -> (message: (String, String))
    ensures
        (message.0@, message.1@) == message_of(entity@),
{
    let payload = write_object(&entity.payload);
    (entity.topic.clone(), payload.unwrap())
}

/// The topics and texts of a list of messages.
pub open spec fn messages(list: Seq<(String, String)>) -> Seq<(Seq<char>, Seq<char>)> {
    list.map_values(|message: (String, String)| (message.0@, message.1@))
}

/// The messages that announce everything that the charger tells of itself:
/// one for each entity, none left out, in their order.
pub fn announcements(base: &str) -> (list: Vec<(String, String)>)
    ensures
        messages(list@) == discovery(base@).map_values(|entity: EntityView| message_of(entity)),
{
    let all = publish_discovery(base);
    let mut list: Vec<(String, String)> = Vec::new();
    let mut i: usize = 0;
    while i < all.len()
        invariant
            i <= all.len(),
            list.len() == i,
            forall|j: int|
                0 <= j < i ==> #[trigger] messages(list@)[j] == message_of(entities(all@)[j]),
        decreases all.len() - i,
    {
        let ghost before = list@;
        list.push(publish_one_discovery(&all[i]));
        proof {
            assert forall|j: int| 0 <= j < i + 1 implies #[trigger] messages(list@)[j]
                == message_of(entities(all@)[j]) by {
                if j < i {
                    assert(messages(list@)[j] == messages(before)[j]);
                }
            }
        }
        i = i + 1;
    }
    assert(messages(list@) =~= entities(all@).map_values(|entity: EntityView| message_of(entity)));
    list
}

/// The message tells where the state of the entity is published, how to learn
/// whether the charger is online, and which device the entity belongs to.
pub open spec fn complete(entity: EntityView, base: Seq<char>) -> bool {
    &&& entity.payload.contains(text("state_topic"@, base + "/status"@))
    &&& entity.payload.contains(text("availability_topic"@, base + "/availability"@))
    &&& entity.payload.contains(text("payload_available"@, "online"@))
    &&& entity.payload.contains(text("payload_not_available"@, "offline"@))
    &&& entity.payload.contains(("device"@, device()))
}

/// Every message of a list is complete.
pub open spec fn all_complete(list: Seq<EntityView>, base: Seq<char>) -> bool {
    forall|i: int| 0 <= i < list.len() ==> complete(#[trigger] list[i], base)
}

proof fn lemma_framed(entity: EntityView, base: Seq<char>, n: int)
    requires
        5 <= n,
        n + 4 <= entity.payload.len(),
        entity.payload[3] == text("state_topic"@, base + "/status"@),
        entity.payload[n] == text("availability_topic"@, base + "/availability"@),
        entity.payload[n + 1] == text("payload_available"@, "online"@),
        entity.payload[n + 2] == text("payload_not_available"@, "offline"@),
        entity.payload[n + 3] == ("device"@, device()),
    ensures
        complete(entity, base),
{
}

proof fn lemma_append_complete(a: Seq<EntityView>, b: Seq<EntityView>, base: Seq<char>)
    requires
        all_complete(a, base),
        all_complete(b, base),
    ensures
        all_complete(a + b, base),
{
    assert forall|i: int| 0 <= i < (a + b).len() implies complete(#[trigger] (a + b)[i], base) by {
        if i < a.len() {
            assert((a + b)[i] == a[i]);
        } else {
            assert((a + b)[i] == b[i - a.len()]);
        }
    }
}

proof fn lemma_sensor_complete(
    base: Seq<char>,
    id: Seq<char>,
    name: Seq<char>,
    template: Seq<char>,
    unit: Seq<char>,
    class: Seq<char>,
)
    ensures
        complete(sensor(base, id, name, template, unit, class), base),
{
    lemma_framed(sensor(base, id, name, template, unit, class), base, 7);
}

proof fn lemma_readings_complete(base: Seq<char>)
    ensures
        all_complete(sensors(base), base),
{
    assert forall|
        id: Seq<char>,
        name: Seq<char>,
        template: Seq<char>,
        unit: Seq<char>,
        class: Seq<char>,
    | complete(#[trigger] sensor(base, id, name, template, unit, class), base) by {
        lemma_sensor_complete(base, id, name, template, unit, class);
    }
}

proof fn lemma_words_complete(
    base: Seq<char>,
    id: Seq<char>,
    name: Seq<char>,
    template: Seq<char>,
)
    ensures
        complete(text_sensor(base, id, name, template), base),
{
    lemma_framed(text_sensor(base, id, name, template), base, 5);
}

proof fn lemma_text_sensors_complete(base: Seq<char>)
    ensures
        all_complete(text_sensors(base), base),
{
    assert forall|
        id: Seq<char>,
        name: Seq<char>,
        template: Seq<char>,
    | complete(#[trigger] text_sensor(base, id, name, template), base) by {
        lemma_words_complete(base, id, name, template);
    }
}

proof fn lemma_flag_complete(
    base: Seq<char>,
    id: Seq<char>,
    name: Seq<char>,
    field: Seq<char>,
)
    ensures
        complete(binary_sensor(base, id, name, field), base),
{
    lemma_framed(binary_sensor(base, id, name, field), base, 7);
}

proof fn lemma_binary_sensors_complete(base: Seq<char>)
    ensures
        all_complete(binary_sensors(base), base),
{
    assert forall|
        id: Seq<char>,
        name: Seq<char>,
        field: Seq<char>,
    | complete(#[trigger] binary_sensor(base, id, name, field), base) by {
        lemma_flag_complete(base, id, name, field);
    }
}

proof fn lemma_day_complete(
    base: Seq<char>,
    short: Seq<char>,
    label: Seq<char>,
    number: Seq<char>,
)
    ensures
        complete(day(base, short, label, number), base),
{
    lemma_framed(day(base, short, label, number), base, 8);
}

proof fn lemma_days_complete(base: Seq<char>)
    ensures
        all_complete(days(base), base),
{
    assert forall|
        short: Seq<char>,
        label: Seq<char>,
        number: Seq<char>,
    | complete(#[trigger] day(base, short, label, number), base) by {
        lemma_day_complete(base, short, label, number);
    }
}

proof fn lemma_switch_complete(
    base: Seq<char>,
    id: Seq<char>,
    object_id: Seq<char>,
    name: Seq<char>,
    field: Seq<char>,
)
    ensures
        complete(switch(base, id, object_id, name, field), base),
{
    lemma_framed(switch(base, id, object_id, name, field), base, 11);
}

proof fn lemma_switches_complete(base: Seq<char>)
    ensures
        all_complete(switches(base), base),
{
    assert forall|
        id: Seq<char>,
        object_id: Seq<char>,
        name: Seq<char>,
        field: Seq<char>,
    | complete(#[trigger] switch(base, id, object_id, name, field), base) by {
        lemma_switch_complete(base, id, object_id, name, field);
    }
}

proof fn lemma_slider_complete(
    base: Seq<char>,
    id: Seq<char>,
    object_id: Seq<char>,
    name: Seq<char>,
    field: Seq<char>,
    min: i64,
    max: i64,
    step: i64,
    unit: Seq<char>,
)
    ensures
        complete(slider(base, id, object_id, name, field, min, max, step, unit), base),
{
    lemma_framed(slider(base, id, object_id, name, field, min, max, step, unit), base, 12);
}

proof fn lemma_numbers_complete(base: Seq<char>)
    ensures
        all_complete(numbers(base), base),
{
    assert forall|
        id: Seq<char>,
        object_id: Seq<char>,
        name: Seq<char>,
        field: Seq<char>,
        min: i64,
        max: i64,
        step: i64,
        unit: Seq<char>,
    | complete(#[trigger] slider(base, id, object_id, name, field, min, max, step, unit), base) by {
        lemma_slider_complete(base, id, object_id, name, field, min, max, step, unit);
    }
}

proof fn lemma_time_complete(
    base: Seq<char>,
    id: Seq<char>,
    object_id: Seq<char>,
    name: Seq<char>,
    field: Seq<char>,
)
    ensures
        complete(time_field(base, id, object_id, name, field), base),
{
    lemma_framed(time_field(base, id, object_id, name, field), base, 11);
}

proof fn lemma_times_complete(base: Seq<char>)
    ensures
        all_complete(times(base), base),
{
    assert forall|
        id: Seq<char>,
        object_id: Seq<char>,
        name: Seq<char>,
        field: Seq<char>,
    | complete(#[trigger] time_field(base, id, object_id, name, field), base) by {
        lemma_time_complete(base, id, object_id, name, field);
    }
}

proof fn lemma_sensors_complete(base: Seq<char>)
    ensures
        all_complete(sensors(base), base),
        all_complete(text_sensors(base), base),
{
    lemma_readings_complete(base);
    lemma_text_sensors_complete(base);
}

proof fn lemma_flags_complete(base: Seq<char>)
    ensures
        all_complete(binary_sensors(base), base),
        all_complete(days(base), base),
{
    lemma_binary_sensors_complete(base);
    lemma_days_complete(base);
}

proof fn lemma_settings_complete(base: Seq<char>)
    ensures
        all_complete(switches(base), base),
        all_complete(numbers(base), base),
        all_complete(times(base), base),
{
    lemma_switches_complete(base);
    lemma_numbers_complete(base);
    lemma_times_complete(base);
}

/// Every message tells where the state of its entity is published, how to
/// learn whether the charger is online, and which device it belongs to.
pub proof fn law_every_message_is_complete(base: Seq<char>)
    ensures
        all_complete(discovery(base), base),
{
    lemma_sensors_complete(base);
    lemma_flags_complete(base);
    lemma_settings_complete(base);
    let e = mode_select(base);
    lemma_framed(e, base, 8);
    let a = sensors(base);
    let b = a + text_sensors(base);
    let c = b + binary_sensors(base);
    let d = c + switches(base);
    let f = d + numbers(base);
    let g = f + times(base);
    let h = g + days(base);
    lemma_append_complete(a, text_sensors(base), base);
    lemma_append_complete(b, binary_sensors(base), base);
    lemma_append_complete(c, switches(base), base);
    lemma_append_complete(d, numbers(base), base);
    lemma_append_complete(f, times(base), base);
    lemma_append_complete(g, days(base), base);
    lemma_append_complete(h, seq![e], base);
}

/// An entity is published on the topic, and its message holds the given values
/// and, beside them, only what every message ends with.
pub open spec fn tells(
    entity: EntityView,
    topic: Seq<char>,
    values: Seq<(Seq<char>, FieldView)>,
) -> bool {
    &&& entity.topic == topic
    &&& entity.payload.len() == values.len() + 4
    &&& forall|j: int| 0 <= j < values.len() ==> entity.payload.contains(#[trigger] values[j])
}

/// One of the messages is published on the topic and holds the given values.
pub open spec fn told(
    base: Seq<char>,
    topic: Seq<char>,
    values: Seq<(Seq<char>, FieldView)>,
) -> bool {
    exists|i: int|
        0 <= i < discovery(base).len() && tells(#[trigger] discovery(base)[i], topic, values)
}

/// There is a sensor for a reading, with its unit and its class.
pub open spec fn reading_told(
    base: Seq<char>,
    id: Seq<char>,
    name: Seq<char>,
    template: Seq<char>,
    unit: Seq<char>,
    class: Seq<char>,
) -> bool {
    told(
        base,
        "homeassistant/"@ + "sensor"@ + "/"@ + id + "/config"@,
        seq![
            text("unique_id"@, id),
            text("object_id"@, id),
            text("name"@, name),
            text("state_topic"@, base + "/status"@),
            text("value_template"@, template),
            text("unit_of_measurement"@, unit),
            text("state_class"@, "measurement"@),
            text("device_class"@, class),
        ],
    )
}

/// There is a sensor for a reading that has a unit and no class.
pub open spec fn share_told(
    base: Seq<char>,
    id: Seq<char>,
    name: Seq<char>,
    template: Seq<char>,
    unit: Seq<char>,
) -> bool {
    told(
        base,
        "homeassistant/"@ + "sensor"@ + "/"@ + id + "/config"@,
        seq![
            text("unique_id"@, id),
            text("object_id"@, id),
            text("name"@, name),
            text("state_topic"@, base + "/status"@),
            text("value_template"@, template),
            text("unit_of_measurement"@, unit),
            text("state_class"@, "measurement"@),
        ],
    )
}

/// There is a sensor for something that is said in words.
pub open spec fn words_told(
    base: Seq<char>,
    id: Seq<char>,
    name: Seq<char>,
    template: Seq<char>,
) -> bool {
    told(
        base,
        "homeassistant/"@ + "sensor"@ + "/"@ + id + "/config"@,
        seq![
            text("unique_id"@, id),
            text("object_id"@, id),
            text("name"@, name),
            text("state_topic"@, base + "/status"@),
            text("value_template"@, template),
        ],
    )
}

/// There is a sensor for a flag of the supervisor.
pub open spec fn flag_told(
    base: Seq<char>,
    id: Seq<char>,
    name: Seq<char>,
    field: Seq<char>,
) -> bool {
    told(
        base,
        "homeassistant/"@ + "binary_sensor"@ + "/"@ + id + "/config"@,
        seq![
            text("unique_id"@, id),
            text("object_id"@, id),
            text("name"@, name),
            text("state_topic"@, base + "/status"@),
            text("value_template"@, "{{value_json.supervisory."@ + field + " | lower}}"@),
            text("payload_on"@, "true"@),
            text("payload_off"@, "false"@),
        ],
    )
}

/// There is a switch for a setting: it shows the setting that it sets.
pub open spec fn switch_told(
    base: Seq<char>,
    id: Seq<char>,
    object_id: Seq<char>,
    name: Seq<char>,
    field: Seq<char>,
) -> bool {
    told(
        base,
        "homeassistant/"@ + "switch"@ + "/"@ + id + "/config"@,
        seq![
            text("unique_id"@, id),
            text("object_id"@, object_id),
            text("name"@, name),
            text("state_topic"@, base + "/status"@),
            text("value_template"@, "{{value_json.settings."@ + (field + " | lower"@) + "}}"@),
            text("state_on"@, "true"@),
            text("state_off"@, "false"@),
            text("command_topic"@, base + "/command"@),
            text("payload_on"@, "{\"cmd\":{\"SetSetting\":{\""@ + field + "\":"@ + "true"@ + "}}}"@),
            text("payload_off"@, "{\"cmd\":{\"SetSetting\":{\""@ + field + "\":"@ + "false"@ + "}}}"@),
            text("entity_category"@, "config"@),
        ],
    )
}

/// There is a slider for a setting, with its range, its step and its unit: it
/// shows the setting that it sets.
pub open spec fn slider_told(
    base: Seq<char>,
    id: Seq<char>,
    object_id: Seq<char>,
    name: Seq<char>,
    field: Seq<char>,
    min: i64,
    max: i64,
    step: i64,
    unit: Seq<char>,
) -> bool {
    told(
        base,
        "homeassistant/"@ + "number"@ + "/"@ + id + "/config"@,
        seq![
            text("unique_id"@, id),
            text("object_id"@, object_id),
            text("name"@, name),
            text("state_topic"@, base + "/status"@),
            text("value_template"@, "{{value_json.settings."@ + field + "}}"@),
            text("command_topic"@, base + "/command"@),
            text("command_template"@, "{\"cmd\":{\"SetSetting\":{\""@ + field + "\":"@ + "{{ value | int }}"@ + "}}}"@),
            ("min"@, FieldView::Leaf(LeafView::Integer(min))),
            ("max"@, FieldView::Leaf(LeafView::Integer(max))),
            ("step"@, FieldView::Leaf(LeafView::Integer(step))),
            text("unit_of_measurement"@, unit),
            text("entity_category"@, "config"@),
        ],
    )
}

/// There is a field for a time of day, five characters long: it shows the setting
/// that it sets.
pub open spec fn time_told(
    base: Seq<char>,
    id: Seq<char>,
    object_id: Seq<char>,
    name: Seq<char>,
    field: Seq<char>,
) -> bool {
    told(
        base,
        "homeassistant/"@ + "text"@ + "/"@ + id + "/config"@,
        seq![
            text("unique_id"@, id),
            text("object_id"@, object_id),
            text("name"@, name),
            text("state_topic"@, base + "/status"@),
            text("value_template"@, "{{value_json.settings."@ + field + "}}"@),
            text("command_topic"@, base + "/command"@),
            text("command_template"@, "{\"cmd\":{\"SetSetting\":{\""@ + field + "\":"@ + "\"{{ value }}\""@ + "}}}"@),
            ("min"@, FieldView::Leaf(LeafView::Integer(5))),
            ("max"@, FieldView::Leaf(LeafView::Integer(5))),
            text("pattern"@, "^([0-1][0-9]|2[0-3]):[0-5][0-9]$"@),
            text("entity_category"@, "config"@),
        ],
    )
}

/// There is a sensor for a day of the week, by its number.
pub open spec fn day_told(
    base: Seq<char>,
    short: Seq<char>,
    name: Seq<char>,
    number: Seq<char>,
) -> bool {
    told(
        base,
        "homeassistant/"@ + "binary_sensor"@ + "/"@ + ("beaglebone_v2h_rtd_day_"@ + short) + "/config"@,
        seq![
            text("unique_id"@, "beaglebone_v2h_rtd_day_"@ + short),
            text("object_id"@, "v2h_rtd_day_"@ + short),
            text("name"@, name),
            text("state_topic"@, base + "/status"@),
            text("value_template"@, "{{value_json.settings."@ + ("ready_to_drive_days["@ + number
                + "] | lower"@) + "}}"@),
            text("payload_on"@, "true"@),
            text("payload_off"@, "false"@),
            text("entity_category"@, "config"@),
        ],
    )
}

proof fn lemma_reading_told(
    base: Seq<char>,
    i: int,
    id: Seq<char>,
    name: Seq<char>,
    template: Seq<char>,
    unit: Seq<char>,
    class: Seq<char>,
)
    requires
        0 <= i < discovery(base).len(),
        discovery(base)[i] == sensor(base, id, name, template, unit, class),
        class.len() > 0,
    ensures
        reading_told(base, id, name, template, unit, class),
{
    let entity = discovery(base)[i];
    let topic = "homeassistant/"@ + "sensor"@ + "/"@ + id + "/config"@;
    let values = seq![
        text("unique_id"@, id),
        text("object_id"@, id),
        text("name"@, name),
        text("state_topic"@, base + "/status"@),
        text("value_template"@, template),
        text("unit_of_measurement"@, unit),
        text("state_class"@, "measurement"@),
        text("device_class"@, class),
    ];
    assert(entity.topic == topic);
    assert forall|j: int| 0 <= j < values.len() implies entity.payload.contains(
        #[trigger] values[j],
    ) by {
        if j == 7 {
            assert(entity.payload[11] == values[j]);
        } else {
            assert(entity.payload[j] == values[j]);
        }
    }
    assert(tells(discovery(base)[i], topic, values));
}

proof fn lemma_share_told(
    base: Seq<char>,
    i: int,
    id: Seq<char>,
    name: Seq<char>,
    template: Seq<char>,
    unit: Seq<char>,
)
    requires
        0 <= i < discovery(base).len(),
        discovery(base)[i] == sensor(base, id, name, template, unit, ""@),
    ensures
        share_told(base, id, name, template, unit),
{
    let entity = discovery(base)[i];
    let topic = "homeassistant/"@ + "sensor"@ + "/"@ + id + "/config"@;
    let values = seq![
        text("unique_id"@, id),
        text("object_id"@, id),
        text("name"@, name),
        text("state_topic"@, base + "/status"@),
        text("value_template"@, template),
        text("unit_of_measurement"@, unit),
        text("state_class"@, "measurement"@),
    ];
    reveal_strlit("");
    assert(entity.topic == topic);
    assert forall|j: int| 0 <= j < values.len() implies entity.payload.contains(
        #[trigger] values[j],
    ) by {
        assert(entity.payload[j] == values[j]);
    }
    assert(tells(discovery(base)[i], topic, values));
}

proof fn lemma_words_told(
    base: Seq<char>,
    i: int,
    id: Seq<char>,
    name: Seq<char>,
    template: Seq<char>,
)
    requires
        0 <= i < discovery(base).len(),
        discovery(base)[i] == text_sensor(base, id, name, template),
    ensures
        words_told(base, id, name, template),
{
    let entity = discovery(base)[i];
    let topic = "homeassistant/"@ + "sensor"@ + "/"@ + id + "/config"@;
    let values = seq![
        text("unique_id"@, id),
        text("object_id"@, id),
        text("name"@, name),
        text("state_topic"@, base + "/status"@),
        text("value_template"@, template),
    ];
    assert(entity.topic == topic);
    assert forall|j: int| 0 <= j < values.len() implies entity.payload.contains(
        #[trigger] values[j],
    ) by {
        assert(entity.payload[j] == values[j]);
    }
    assert(tells(discovery(base)[i], topic, values));
}

proof fn lemma_flag_told(
    base: Seq<char>,
    i: int,
    id: Seq<char>,
    name: Seq<char>,
    field: Seq<char>,
)
    requires
        0 <= i < discovery(base).len(),
        discovery(base)[i] == binary_sensor(base, id, name, field),
    ensures
        flag_told(base, id, name, field),
{
    let entity = discovery(base)[i];
    let topic = "homeassistant/"@ + "binary_sensor"@ + "/"@ + id + "/config"@;
    let values = seq![
        text("unique_id"@, id),
        text("object_id"@, id),
        text("name"@, name),
        text("state_topic"@, base + "/status"@),
        text("value_template"@, "{{value_json.supervisory."@ + field + " | lower}}"@),
        text("payload_on"@, "true"@),
        text("payload_off"@, "false"@),
    ];
    assert(entity.topic == topic);
    assert forall|j: int| 0 <= j < values.len() implies entity.payload.contains(
        #[trigger] values[j],
    ) by {
        assert(entity.payload[j] == values[j]);
    }
    assert(tells(discovery(base)[i], topic, values));
}

proof fn lemma_switch_told(
    base: Seq<char>,
    i: int,
    id: Seq<char>,
    object_id: Seq<char>,
    name: Seq<char>,
    field: Seq<char>,
)
    requires
        0 <= i < discovery(base).len(),
        discovery(base)[i] == switch(base, id, object_id, name, field),
    ensures
        switch_told(base, id, object_id, name, field),
{
    let entity = discovery(base)[i];
    let topic = "homeassistant/"@ + "switch"@ + "/"@ + id + "/config"@;
    let values = seq![
        text("unique_id"@, id),
        text("object_id"@, object_id),
        text("name"@, name),
        text("state_topic"@, base + "/status"@),
        text("value_template"@, "{{value_json.settings."@ + (field + " | lower"@) + "}}"@),
        text("state_on"@, "true"@),
        text("state_off"@, "false"@),
        text("command_topic"@, base + "/command"@),
        text("payload_on"@, "{\"cmd\":{\"SetSetting\":{\""@ + field + "\":"@ + "true"@ + "}}}"@),
        text("payload_off"@, "{\"cmd\":{\"SetSetting\":{\""@ + field + "\":"@ + "false"@ + "}}}"@),
        text("entity_category"@, "config"@),
    ];
    assert(entity.topic == topic);
    assert forall|j: int| 0 <= j < values.len() implies entity.payload.contains(
        #[trigger] values[j],
    ) by {
        assert(entity.payload[j] == values[j]);
    }
    assert(tells(discovery(base)[i], topic, values));
}

proof fn lemma_slider_told(
    base: Seq<char>,
    i: int,
    id: Seq<char>,
    object_id: Seq<char>,
    name: Seq<char>,
    field: Seq<char>,
    min: i64,
    max: i64,
    step: i64,
    unit: Seq<char>,
)
    requires
        0 <= i < discovery(base).len(),
        discovery(base)[i] == slider(base, id, object_id, name, field, min, max, step, unit),
    ensures
        slider_told(base, id, object_id, name, field, min, max, step, unit),
{
    let entity = discovery(base)[i];
    let topic = "homeassistant/"@ + "number"@ + "/"@ + id + "/config"@;
    let values = seq![
        text("unique_id"@, id),
        text("object_id"@, object_id),
        text("name"@, name),
        text("state_topic"@, base + "/status"@),
        text("value_template"@, "{{value_json.settings."@ + field + "}}"@),
        text("command_topic"@, base + "/command"@),
        text("command_template"@, "{\"cmd\":{\"SetSetting\":{\""@ + field + "\":"@ + "{{ value | int }}"@ + "}}}"@),
        ("min"@, FieldView::Leaf(LeafView::Integer(min))),
        ("max"@, FieldView::Leaf(LeafView::Integer(max))),
        ("step"@, FieldView::Leaf(LeafView::Integer(step))),
        text("unit_of_measurement"@, unit),
        text("entity_category"@, "config"@),
    ];
    assert(entity.topic == topic);
    assert forall|j: int| 0 <= j < values.len() implies entity.payload.contains(
        #[trigger] values[j],
    ) by {
        assert(entity.payload[j] == values[j]);
    }
    assert(tells(discovery(base)[i], topic, values));
}

proof fn lemma_time_told(
    base: Seq<char>,
    i: int,
    id: Seq<char>,
    object_id: Seq<char>,
    name: Seq<char>,
    field: Seq<char>,
)
    requires
        0 <= i < discovery(base).len(),
        discovery(base)[i] == time_field(base, id, object_id, name, field),
    ensures
        time_told(base, id, object_id, name, field),
{
    let entity = discovery(base)[i];
    let topic = "homeassistant/"@ + "text"@ + "/"@ + id + "/config"@;
    let values = seq![
        text("unique_id"@, id),
        text("object_id"@, object_id),
        text("name"@, name),
        text("state_topic"@, base + "/status"@),
        text("value_template"@, "{{value_json.settings."@ + field + "}}"@),
        text("command_topic"@, base + "/command"@),
        text("command_template"@, "{\"cmd\":{\"SetSetting\":{\""@ + field + "\":"@ + "\"{{ value }}\""@ + "}}}"@),
        ("min"@, FieldView::Leaf(LeafView::Integer(5))),
        ("max"@, FieldView::Leaf(LeafView::Integer(5))),
        text("pattern"@, "^([0-1][0-9]|2[0-3]):[0-5][0-9]$"@),
        text("entity_category"@, "config"@),
    ];
    assert(entity.topic == topic);
    assert forall|j: int| 0 <= j < values.len() implies entity.payload.contains(
        #[trigger] values[j],
    ) by {
        assert(entity.payload[j] == values[j]);
    }
    assert(tells(discovery(base)[i], topic, values));
}

proof fn lemma_day_told(
    base: Seq<char>,
    i: int,
    short: Seq<char>,
    label: Seq<char>,
    number: Seq<char>,
)
    requires
        0 <= i < discovery(base).len(),
        discovery(base)[i] == day(base, short, label, number),
    ensures
        day_told(base, short, "RTD "@ + label, number),
{
    let entity = discovery(base)[i];
    let topic = "homeassistant/"@ + "binary_sensor"@ + "/"@ + ("beaglebone_v2h_rtd_day_"@ + short) + "/config"@;
    let values = seq![
        text("unique_id"@, "beaglebone_v2h_rtd_day_"@ + short),
        text("object_id"@, "v2h_rtd_day_"@ + short),
        text("name"@, "RTD "@ + label),
        text("state_topic"@, base + "/status"@),
        text("value_template"@, "{{value_json.settings."@ + ("ready_to_drive_days["@ + number
            + "] | lower"@) + "}}"@),
        text("payload_on"@, "true"@),
        text("payload_off"@, "false"@),
        text("entity_category"@, "config"@),
    ];
    assert(entity.topic == topic);
    assert forall|j: int| 0 <= j < values.len() implies entity.payload.contains(
        #[trigger] values[j],
    ) by {
        assert(entity.payload[j] == values[j]);
    }
    assert(tells(discovery(base)[i], topic, values));
}

proof fn lemma_positions(base: Seq<char>)
    ensures
        discovery(base).len() == 56,
        forall|i: int| 0 <= i < 11 ==> discovery(base)[i] == #[trigger] sensors(base)[i],
        forall|i: int| 0 <= i < 3 ==> discovery(base)[11 + i] == #[trigger] text_sensors(base)[i],
        forall|i: int|
            0 <= i < 12 ==> discovery(base)[14 + i] == #[trigger] binary_sensors(base)[i],
        forall|i: int| 0 <= i < 9 ==> discovery(base)[26 + i] == #[trigger] switches(base)[i],
        forall|i: int| 0 <= i < 9 ==> discovery(base)[35 + i] == #[trigger] numbers(base)[i],
        forall|i: int| 0 <= i < 4 ==> discovery(base)[44 + i] == #[trigger] times(base)[i],
        forall|i: int| 0 <= i < 7 ==> discovery(base)[48 + i] == #[trigger] days(base)[i],
        discovery(base)[55] == mode_select(base),
{
}

/// Every reading of the charger has its sensor.
pub proof fn law_readings_are_told(base: Seq<char>)
    ensures
        reading_told(base, "beaglebone_v2h_soc"@, "SoC"@, "{{ value_json.chademo.soc }}"@, "%"@, "battery"@),
        reading_told(base, "beaglebone_v2h_dc_power_w"@, "DC Power"@, "{{ ((value_json.pre.dc_output_volts | float(0)) * (value_json.pre.dc_output_amps | float(0))) | round(0) | int }}"@, "W"@, "power"@),
        reading_told(base, "beaglebone_v2h_charger_ac_power_w"@, "AC Power"@, "{{ value_json.meter.charger_w | default(0) | round(0) | int }}"@, "W"@, "power"@),
        reading_told(base, "beaglebone_v2h_grid_power_w"@, "Grid Power"@, "{{ value_json.meter.total_w | default(0) | round(0) | int }}"@, "W"@, "power"@),
        reading_told(base, "beaglebone_v2h_grid_phase_power_w"@, "Grid Phase Power"@, "{{ value_json.meter.phase_w | default(0) | round(0) | int }}"@, "W"@, "power"@),
        share_told(base, "beaglebone_v2h_efficiency_pct"@, "Efficiency"@, "{{ value_json.meter.efficiency | default(0) | round(1) }}"@, "%"@),
        reading_told(base, "beaglebone_v2h_pre_temp_c"@, "PRE Temperature"@, "{{ value_json.pre.temp | round(1) }}"@, "°C"@, "temperature"@),
        share_told(base, "beaglebone_v2h_pre_fan_duty_pct"@, "PRE Fan Duty"@, "{{ value_json.pre.fan_duty }}"@, "%"@),
        reading_told(base, "beaglebone_v2h_charging_current_req_a"@, "Charging Current Request"@, "{{ value_json.chademo.x102.charging_current_request }}"@, "A"@, "current"@),
        reading_told(base, "beaglebone_v2h_dc_output_volts"@, "DC Output Volts"@, "{{ value_json.pre.dc_output_volts | round(1) }}"@, "V"@, "voltage"@),
        reading_told(base, "beaglebone_v2h_dc_output_amps"@, "DC Output Amps"@, "{{ value_json.pre.dc_output_amps | round(1) }}"@, "A"@, "current"@),
{
    lemma_positions(base);
    reveal_strlit("battery");
    assert(sensors(base)[0] == discovery(base)[0]);
    lemma_reading_told(base, 0, "beaglebone_v2h_soc"@, "SoC"@, "{{ value_json.chademo.soc }}"@, "%"@, "battery"@);
    reveal_strlit("power");
    assert(sensors(base)[1] == discovery(base)[1]);
    lemma_reading_told(base, 1, "beaglebone_v2h_dc_power_w"@, "DC Power"@, "{{ ((value_json.pre.dc_output_volts | float(0)) * (value_json.pre.dc_output_amps | float(0))) | round(0) | int }}"@, "W"@, "power"@);
    reveal_strlit("power");
    assert(sensors(base)[2] == discovery(base)[2]);
    lemma_reading_told(base, 2, "beaglebone_v2h_charger_ac_power_w"@, "AC Power"@, "{{ value_json.meter.charger_w | default(0) | round(0) | int }}"@, "W"@, "power"@);
    reveal_strlit("power");
    assert(sensors(base)[3] == discovery(base)[3]);
    lemma_reading_told(base, 3, "beaglebone_v2h_grid_power_w"@, "Grid Power"@, "{{ value_json.meter.total_w | default(0) | round(0) | int }}"@, "W"@, "power"@);
    reveal_strlit("power");
    assert(sensors(base)[4] == discovery(base)[4]);
    lemma_reading_told(base, 4, "beaglebone_v2h_grid_phase_power_w"@, "Grid Phase Power"@, "{{ value_json.meter.phase_w | default(0) | round(0) | int }}"@, "W"@, "power"@);
    assert(sensors(base)[5] == discovery(base)[5]);
    lemma_share_told(base, 5, "beaglebone_v2h_efficiency_pct"@, "Efficiency"@, "{{ value_json.meter.efficiency | default(0) | round(1) }}"@, "%"@);
    reveal_strlit("temperature");
    assert(sensors(base)[6] == discovery(base)[6]);
    lemma_reading_told(base, 6, "beaglebone_v2h_pre_temp_c"@, "PRE Temperature"@, "{{ value_json.pre.temp | round(1) }}"@, "°C"@, "temperature"@);
    assert(sensors(base)[7] == discovery(base)[7]);
    lemma_share_told(base, 7, "beaglebone_v2h_pre_fan_duty_pct"@, "PRE Fan Duty"@, "{{ value_json.pre.fan_duty }}"@, "%"@);
    reveal_strlit("current");
    assert(sensors(base)[8] == discovery(base)[8]);
    lemma_reading_told(base, 8, "beaglebone_v2h_charging_current_req_a"@, "Charging Current Request"@, "{{ value_json.chademo.x102.charging_current_request }}"@, "A"@, "current"@);
    reveal_strlit("voltage");
    assert(sensors(base)[9] == discovery(base)[9]);
    lemma_reading_told(base, 9, "beaglebone_v2h_dc_output_volts"@, "DC Output Volts"@, "{{ value_json.pre.dc_output_volts | round(1) }}"@, "V"@, "voltage"@);
    reveal_strlit("current");
    assert(sensors(base)[10] == discovery(base)[10]);
    lemma_reading_told(base, 10, "beaglebone_v2h_dc_output_amps"@, "DC Output Amps"@, "{{ value_json.pre.dc_output_amps | round(1) }}"@, "A"@, "current"@);
}

/// What the charger is doing is told in words: its mode, the state of its
/// converter, and which function of the supervisor acts.
pub proof fn law_words_are_told(base: Seq<char>)
    ensures
        words_told(base, "beaglebone_v2h_operation_mode"@, "Operation Mode"@, "{{ value_json.chademo.state }}"@),
        words_told(base, "beaglebone_v2h_pre_state"@, "PRE State"@, "{{ value_json.pre.state }}"@),
        words_told(base, "beaglebone_v2h_active_mode"@, "Active Mode"@, "{% if value_json.supervisory.ready_to_drive_active %}Ready to Drive\
{% elif value_json.supervisory.off_peak_charging_active %}Off-Peak\
{% elif value_json.supervisory.smart_export_active %}Smart Export\
{% elif value_json.supervisory.smart_export_excess_solar_active %}Excess Solar\
{% elif value_json.supervisory.smart_charge_active %}Smart Charge\
{% elif value_json.supervisory.ev_drain_protection_active %}EV Drain Protection\
{% else %}Normal{% endif %}"@),
{
    lemma_positions(base);
    assert(text_sensors(base)[0] == discovery(base)[11]);
    lemma_words_told(base, 11, "beaglebone_v2h_operation_mode"@, "Operation Mode"@, "{{ value_json.chademo.state }}"@);
    assert(text_sensors(base)[1] == discovery(base)[12]);
    lemma_words_told(base, 12, "beaglebone_v2h_pre_state"@, "PRE State"@, "{{ value_json.pre.state }}"@);
    assert(text_sensors(base)[2] == discovery(base)[13]);
    lemma_words_told(base, 13, "beaglebone_v2h_active_mode"@, "Active Mode"@, "{% if value_json.supervisory.ready_to_drive_active %}Ready to Drive\
{% elif value_json.supervisory.off_peak_charging_active %}Off-Peak\
{% elif value_json.supervisory.smart_export_active %}Smart Export\
{% elif value_json.supervisory.smart_export_excess_solar_active %}Excess Solar\
{% elif value_json.supervisory.smart_charge_active %}Smart Charge\
{% elif value_json.supervisory.ev_drain_protection_active %}EV Drain Protection\
{% else %}Normal{% endif %}"@);
}

/// Every function of the supervisor has a sensor for its request and one for
/// whether it acts.
pub proof fn law_flags_are_told(base: Seq<char>)
    ensures
        flag_told(base, "beaglebone_v2h_smart_charge_request"@, "Smart Charge Request"@, "smart_charge_request"@),
        flag_told(base, "beaglebone_v2h_smart_charge_active"@, "Smart Charge Active"@, "smart_charge_active"@),
        flag_told(base, "beaglebone_v2h_ev_drain_protection_request"@, "EV Drain Protection Request"@, "ev_drain_protection_request"@),
        flag_told(base, "beaglebone_v2h_ev_drain_protection_active"@, "EV Drain Protection Active"@, "ev_drain_protection_active"@),
        flag_told(base, "beaglebone_v2h_smart_export_request"@, "Smart Export Request"@, "smart_export_request"@),
        flag_told(base, "beaglebone_v2h_smart_export_active"@, "Smart Export Active"@, "smart_export_active"@),
        flag_told(base, "beaglebone_v2h_smart_export_solar_request"@, "Smart Export Solar Request"@, "smart_export_excess_solar_request"@),
        flag_told(base, "beaglebone_v2h_smart_export_solar_active"@, "Smart Export Solar Active"@, "smart_export_excess_solar_active"@),
        flag_told(base, "beaglebone_v2h_ready_to_drive_request"@, "Ready to Drive Request"@, "ready_to_drive_request"@),
        flag_told(base, "beaglebone_v2h_ready_to_drive_active"@, "Ready to Drive Active"@, "ready_to_drive_active"@),
        flag_told(base, "beaglebone_v2h_off_peak_charging_request"@, "Off-Peak Charging Request"@, "off_peak_charging_request"@),
        flag_told(base, "beaglebone_v2h_off_peak_charging_active"@, "Off-Peak Charging Active"@, "off_peak_charging_active"@),
{
    lemma_positions(base);
    assert(binary_sensors(base)[0] == discovery(base)[14]);
    lemma_flag_told(base, 14, "beaglebone_v2h_smart_charge_request"@, "Smart Charge Request"@, "smart_charge_request"@);
    assert(binary_sensors(base)[1] == discovery(base)[15]);
    lemma_flag_told(base, 15, "beaglebone_v2h_smart_charge_active"@, "Smart Charge Active"@, "smart_charge_active"@);
    assert(binary_sensors(base)[2] == discovery(base)[16]);
    lemma_flag_told(base, 16, "beaglebone_v2h_ev_drain_protection_request"@, "EV Drain Protection Request"@, "ev_drain_protection_request"@);
    assert(binary_sensors(base)[3] == discovery(base)[17]);
    lemma_flag_told(base, 17, "beaglebone_v2h_ev_drain_protection_active"@, "EV Drain Protection Active"@, "ev_drain_protection_active"@);
    assert(binary_sensors(base)[4] == discovery(base)[18]);
    lemma_flag_told(base, 18, "beaglebone_v2h_smart_export_request"@, "Smart Export Request"@, "smart_export_request"@);
    assert(binary_sensors(base)[5] == discovery(base)[19]);
    lemma_flag_told(base, 19, "beaglebone_v2h_smart_export_active"@, "Smart Export Active"@, "smart_export_active"@);
    assert(binary_sensors(base)[6] == discovery(base)[20]);
    lemma_flag_told(base, 20, "beaglebone_v2h_smart_export_solar_request"@, "Smart Export Solar Request"@, "smart_export_excess_solar_request"@);
    assert(binary_sensors(base)[7] == discovery(base)[21]);
    lemma_flag_told(base, 21, "beaglebone_v2h_smart_export_solar_active"@, "Smart Export Solar Active"@, "smart_export_excess_solar_active"@);
    assert(binary_sensors(base)[8] == discovery(base)[22]);
    lemma_flag_told(base, 22, "beaglebone_v2h_ready_to_drive_request"@, "Ready to Drive Request"@, "ready_to_drive_request"@);
    assert(binary_sensors(base)[9] == discovery(base)[23]);
    lemma_flag_told(base, 23, "beaglebone_v2h_ready_to_drive_active"@, "Ready to Drive Active"@, "ready_to_drive_active"@);
    assert(binary_sensors(base)[10] == discovery(base)[24]);
    lemma_flag_told(base, 24, "beaglebone_v2h_off_peak_charging_request"@, "Off-Peak Charging Request"@, "off_peak_charging_request"@);
    assert(binary_sensors(base)[11] == discovery(base)[25]);
    lemma_flag_told(base, 25, "beaglebone_v2h_off_peak_charging_active"@, "Off-Peak Charging Active"@, "off_peak_charging_active"@);
}

/// Every setting that is on or off has its switch.
pub proof fn law_switches_are_told(base: Seq<char>)
    ensures
        switch_told(base, "beaglebone_v2h_ready_to_drive_enabled"@, "v2h_ready_to_drive_enabled"@, "Ready to Drive"@, "ready_to_drive"@),
        switch_told(base, "beaglebone_v2h_off_peak_charging_enabled"@, "v2h_off_peak_charging_enabled"@, "Off-Peak Charging"@, "off_peak_charging"@),
        switch_told(base, "beaglebone_v2h_smart_export_enabled"@, "v2h_smart_export_enabled"@, "Smart Export"@, "smart_export"@),
        switch_told(base, "beaglebone_v2h_smart_export_solar_enabled"@, "v2h_smart_export_solar_enabled"@, "Smart Export Solar"@, "smart_export_excess_solar"@),
        switch_told(base, "beaglebone_v2h_smart_charge_enabled"@, "v2h_smart_charge_enabled"@, "Smart Charge"@, "smart_charge"@),
        switch_told(base, "beaglebone_v2h_ev_drain_protection_enabled"@, "v2h_ev_drain_protection_enabled"@, "EV Drain Protection"@, "ev_drain_protection"@),
        switch_told(base, "beaglebone_v2h_self_use"@, "v2h_self_use"@, "Self Use"@, "self_use"@),
        switch_told(base, "beaglebone_v2h_export_excess_solar"@, "v2h_export_excess_solar"@, "Export Excess Solar"@, "export_excess_solar"@),
        switch_told(base, "beaglebone_v2h_charge_eco"@, "v2h_charge_eco"@, "Charge Eco"@, "charge_eco"@),
{
    lemma_positions(base);
    assert(switches(base)[0] == discovery(base)[26]);
    lemma_switch_told(base, 26, "beaglebone_v2h_ready_to_drive_enabled"@, "v2h_ready_to_drive_enabled"@, "Ready to Drive"@, "ready_to_drive"@);
    assert(switches(base)[1] == discovery(base)[27]);
    lemma_switch_told(base, 27, "beaglebone_v2h_off_peak_charging_enabled"@, "v2h_off_peak_charging_enabled"@, "Off-Peak Charging"@, "off_peak_charging"@);
    assert(switches(base)[2] == discovery(base)[28]);
    lemma_switch_told(base, 28, "beaglebone_v2h_smart_export_enabled"@, "v2h_smart_export_enabled"@, "Smart Export"@, "smart_export"@);
    assert(switches(base)[3] == discovery(base)[29]);
    lemma_switch_told(base, 29, "beaglebone_v2h_smart_export_solar_enabled"@, "v2h_smart_export_solar_enabled"@, "Smart Export Solar"@, "smart_export_excess_solar"@);
    assert(switches(base)[4] == discovery(base)[30]);
    lemma_switch_told(base, 30, "beaglebone_v2h_smart_charge_enabled"@, "v2h_smart_charge_enabled"@, "Smart Charge"@, "smart_charge"@);
    assert(switches(base)[5] == discovery(base)[31]);
    lemma_switch_told(base, 31, "beaglebone_v2h_ev_drain_protection_enabled"@, "v2h_ev_drain_protection_enabled"@, "EV Drain Protection"@, "ev_drain_protection"@);
    assert(switches(base)[6] == discovery(base)[32]);
    lemma_switch_told(base, 32, "beaglebone_v2h_self_use"@, "v2h_self_use"@, "Self Use"@, "self_use"@);
    assert(switches(base)[7] == discovery(base)[33]);
    lemma_switch_told(base, 33, "beaglebone_v2h_export_excess_solar"@, "v2h_export_excess_solar"@, "Export Excess Solar"@, "export_excess_solar"@);
    assert(switches(base)[8] == discovery(base)[34]);
    lemma_switch_told(base, 34, "beaglebone_v2h_charge_eco"@, "v2h_charge_eco"@, "Charge Eco"@, "charge_eco"@);
}

/// Every setting that is a number has its slider: percentages from 10 to 100,
/// currents from 1 to 16 amps and the power limit up to 10000 watts.
pub proof fn law_sliders_are_told(base: Seq<char>)
    ensures
        slider_told(base, "beaglebone_v2h_soc_min"@, "v2h_soc_min"@, "V2H SoC Min"@, "v2h_soc_min"@, 10, 100, 1, "%"@),
        slider_told(base, "beaglebone_v2h_soc_max"@, "v2h_soc_max"@, "V2H SoC Max"@, "v2h_soc_max"@, 10, 100, 1, "%"@),
        slider_told(base, "beaglebone_v2h_soc_max_boost"@, "v2h_soc_max_boost"@, "V2H SoC Max Boost"@, "v2h_soc_max_boost"@, 10, 100, 1, "%"@),
        slider_told(base, "beaglebone_v2h_max_amps"@, "v2h_max_amps"@, "V2H Max Amps"@, "v2h_max_amps"@, 1, 16, 1, "A"@),
        slider_told(base, "beaglebone_v2h_rtd_soc"@, "v2h_rtd_soc"@, "RTD SoC Target"@, "ready_to_drive_soc"@, 10, 100, 1, "%"@),
        slider_told(base, "beaglebone_v2h_smart_export_limit_w"@, "v2h_smart_export_limit_w"@, "Smart Export Limit"@, "smart_export_limit_w"@, 0, 10000, 100, "W"@),
        slider_told(base, "beaglebone_v2h_smart_export_soc_min"@, "v2h_smart_export_soc_min"@, "Smart Export SoC Min"@, "smart_export_soc_min"@, 10, 100, 1, "%"@),
        slider_told(base, "beaglebone_v2h_charge_soc_limit"@, "v2h_charge_soc_limit"@, "Charge SoC Limit"@, "charge_soc_limit"@, 10, 100, 1, "%"@),
        slider_told(base, "beaglebone_v2h_charge_amps"@, "v2h_charge_amps"@, "Charge Amps"@, "charge_amps"@, 1, 16, 1, "A"@),
{
    lemma_positions(base);
    assert(numbers(base)[0] == discovery(base)[35]);
    lemma_slider_told(base, 35, "beaglebone_v2h_soc_min"@, "v2h_soc_min"@, "V2H SoC Min"@, "v2h_soc_min"@, 10, 100, 1, "%"@);
    assert(numbers(base)[1] == discovery(base)[36]);
    lemma_slider_told(base, 36, "beaglebone_v2h_soc_max"@, "v2h_soc_max"@, "V2H SoC Max"@, "v2h_soc_max"@, 10, 100, 1, "%"@);
    assert(numbers(base)[2] == discovery(base)[37]);
    lemma_slider_told(base, 37, "beaglebone_v2h_soc_max_boost"@, "v2h_soc_max_boost"@, "V2H SoC Max Boost"@, "v2h_soc_max_boost"@, 10, 100, 1, "%"@);
    assert(numbers(base)[3] == discovery(base)[38]);
    lemma_slider_told(base, 38, "beaglebone_v2h_max_amps"@, "v2h_max_amps"@, "V2H Max Amps"@, "v2h_max_amps"@, 1, 16, 1, "A"@);
    assert(numbers(base)[4] == discovery(base)[39]);
    lemma_slider_told(base, 39, "beaglebone_v2h_rtd_soc"@, "v2h_rtd_soc"@, "RTD SoC Target"@, "ready_to_drive_soc"@, 10, 100, 1, "%"@);
    assert(numbers(base)[5] == discovery(base)[40]);
    lemma_slider_told(base, 40, "beaglebone_v2h_smart_export_limit_w"@, "v2h_smart_export_limit_w"@, "Smart Export Limit"@, "smart_export_limit_w"@, 0, 10000, 100, "W"@);
    assert(numbers(base)[6] == discovery(base)[41]);
    lemma_slider_told(base, 41, "beaglebone_v2h_smart_export_soc_min"@, "v2h_smart_export_soc_min"@, "Smart Export SoC Min"@, "smart_export_soc_min"@, 10, 100, 1, "%"@);
    assert(numbers(base)[7] == discovery(base)[42]);
    lemma_slider_told(base, 42, "beaglebone_v2h_charge_soc_limit"@, "v2h_charge_soc_limit"@, "Charge SoC Limit"@, "charge_soc_limit"@, 10, 100, 1, "%"@);
    assert(numbers(base)[8] == discovery(base)[43]);
    lemma_slider_told(base, 43, "beaglebone_v2h_charge_amps"@, "v2h_charge_amps"@, "Charge Amps"@, "charge_amps"@, 1, 16, 1, "A"@);
}

/// Every setting that is a time of day has its field.
pub proof fn law_times_are_told(base: Seq<char>)
    ensures
        time_told(base, "beaglebone_v2h_rtd_start_time"@, "v2h_rtd_start_time"@, "RTD Start Time"@, "ready_to_drive_start_time"@),
        time_told(base, "beaglebone_v2h_rtd_end_time"@, "v2h_rtd_end_time"@, "RTD End Time"@, "ready_to_drive_end_time"@),
        time_told(base, "beaglebone_v2h_off_peak_start"@, "v2h_off_peak_start"@, "Off-Peak Start"@, "off_peak_start"@),
        time_told(base, "beaglebone_v2h_off_peak_end"@, "v2h_off_peak_end"@, "Off-Peak End"@, "off_peak_end"@),
{
    lemma_positions(base);
    assert(times(base)[0] == discovery(base)[44]);
    lemma_time_told(base, 44, "beaglebone_v2h_rtd_start_time"@, "v2h_rtd_start_time"@, "RTD Start Time"@, "ready_to_drive_start_time"@);
    assert(times(base)[1] == discovery(base)[45]);
    lemma_time_told(base, 45, "beaglebone_v2h_rtd_end_time"@, "v2h_rtd_end_time"@, "RTD End Time"@, "ready_to_drive_end_time"@);
    assert(times(base)[2] == discovery(base)[46]);
    lemma_time_told(base, 46, "beaglebone_v2h_off_peak_start"@, "v2h_off_peak_start"@, "Off-Peak Start"@, "off_peak_start"@);
    assert(times(base)[3] == discovery(base)[47]);
    lemma_time_told(base, 47, "beaglebone_v2h_off_peak_end"@, "v2h_off_peak_end"@, "Off-Peak End"@, "off_peak_end"@);
}

/// Every day of the week has its sensor, and Monday is the first.
pub proof fn law_days_are_told(base: Seq<char>)
    ensures
        day_told(base, "mon"@, "RTD "@ + "Monday"@, "0"@),
        day_told(base, "tue"@, "RTD "@ + "Tuesday"@, "1"@),
        day_told(base, "wed"@, "RTD "@ + "Wednesday"@, "2"@),
        day_told(base, "thu"@, "RTD "@ + "Thursday"@, "3"@),
        day_told(base, "fri"@, "RTD "@ + "Friday"@, "4"@),
        day_told(base, "sat"@, "RTD "@ + "Saturday"@, "5"@),
        day_told(base, "sun"@, "RTD "@ + "Sunday"@, "6"@),
{
    lemma_positions(base);
    assert(days(base)[0] == discovery(base)[48]);
    lemma_day_told(base, 48, "mon"@, "Monday"@, "0"@);
    assert(days(base)[1] == discovery(base)[49]);
    lemma_day_told(base, 49, "tue"@, "Tuesday"@, "1"@);
    assert(days(base)[2] == discovery(base)[50]);
    lemma_day_told(base, 50, "wed"@, "Wednesday"@, "2"@);
    assert(days(base)[3] == discovery(base)[51]);
    lemma_day_told(base, 51, "thu"@, "Thursday"@, "3"@);
    assert(days(base)[4] == discovery(base)[52]);
    lemma_day_told(base, 52, "fri"@, "Friday"@, "4"@);
    assert(days(base)[5] == discovery(base)[53]);
    lemma_day_told(base, 53, "sat"@, "Saturday"@, "5"@);
    assert(days(base)[6] == discovery(base)[54]);
    lemma_day_told(base, 54, "sun"@, "Sunday"@, "6"@);
}

/// The mode can be selected: what is shown is the mode of the session, and what
/// is sent asks for the mode that was chosen. A charger cannot be made to quit in
/// this way.
pub proof fn law_mode_can_be_selected(base: Seq<char>)
    ensures
        told(
            base,
            "homeassistant/select/v2h_mode/config"@,
            seq![
                text("unique_id"@, "beaglebone_v2h_mode"@),
                text("object_id"@, "beaglebone_v2h_mode"@),
                text("name"@, "Mode"@),
                text("state_topic"@, base + "/status"@),
                text("value_template"@, "{{ value_json.chademo.state }}"@),
                text("command_topic"@, base + "/command"@),
                text("command_template"@, "{\"cmd\":{\"SetMode\":\"{{ value }}\"}}"@),
                (
                    "options"@,
                    FieldView::Leaf(
                        LeafView::Texts(seq!["Idle"@, "V2h"@, "Charge"@, "Discharge"@]),
                    ),
                ),
            ],
        ),
{
    lemma_positions(base);
    let entity = discovery(base)[55];
    let values = seq![
        text("unique_id"@, "beaglebone_v2h_mode"@),
        text("object_id"@, "beaglebone_v2h_mode"@),
        text("name"@, "Mode"@),
        text("state_topic"@, base + "/status"@),
        text("value_template"@, "{{ value_json.chademo.state }}"@),
        text("command_topic"@, base + "/command"@),
        text("command_template"@, "{\"cmd\":{\"SetMode\":\"{{ value }}\"}}"@),
        (
            "options"@,
            FieldView::Leaf(LeafView::Texts(seq!["Idle"@, "V2h"@, "Charge"@, "Discharge"@])),
        ),
    ];
    assert forall|j: int| 0 <= j < values.len() implies entity.payload.contains(
        #[trigger] values[j],
    ) by {
        assert(entity.payload[j] == values[j]);
    }
    assert(tells(discovery(base)[55], "homeassistant/select/v2h_mode/config"@, values));
}

/// Every entity is announced once, in its place, on its own topic and with all
/// that is to be told of it.
pub proof fn law_all_is_announced(base: &str, list: Vec<(String, String)>, i: int)
    requires
        call_ensures(announcements, (base,), list),
        0 <= i < 56,
    ensures
        list@.len() == 56,
        list@[i].0@ == discovery(base@)[i].topic,
        list@[i].1@ == object_text(discovery(base@)[i].payload),
{
    lemma_positions(base@);
    let all = discovery(base@).map_values(|entity: EntityView| message_of(entity));
    assert(messages(list@).len() == all.len());
    assert(messages(list@)[i] == all[i]);
}

} // verus!
