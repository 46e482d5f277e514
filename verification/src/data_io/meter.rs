//! The meter: how a modbus meter is asked and read, what the messages of a
//! meter on the broker mean, and when a value is too old to be trusted.
//!
//! Values are singles, kept here as their bits: the library carries them and
//! never computes with them.
use std::time::Instant;
use vstd::arithmetic::div_mod::lemma_fundamental_div_mod_converse;
use vstd::prelude::*;

use crate::data_io::config::MeterConfig;
use crate::data_io::staleness::{age_fits, age_of, clock_gives};
use crate::global_state::OperationMode;
use crate::json::{document_of, follow, number, number_in, part, read_json, Json, JsonView, Reading};
use crate::text::{is_word, law_words_go_by_their_letters, matches_word, pieces, same_text, views};

verus! {

/// What is known of the power in the house.
#[derive(Debug, Clone, Copy)]
pub struct MeterState {
    /// Power drawn from the grid, in watts; negative where it is exported
    pub total_w: Option<u32>,
    /// Power on the charger's phase, in watts
    pub phase_w: Option<u32>,
    pub last_total_update: Option<Instant>,
    pub last_phase_update: Option<Instant>,
    /// The charger's own meter
    pub charger_v: Option<u32>,
    pub charger_a: Option<u32>,
    pub charger_w: Option<u32>,
    /// Efficiency of the charger, in percent
    pub efficiency: Option<u32>,
}

/// The state before the meter has been heard.
pub open spec fn unheard() -> MeterState {
    MeterState {
        total_w: None,
        phase_w: None,
        last_total_update: None,
        last_phase_update: None,
        charger_v: None,
        charger_a: None,
        charger_w: None,
        efficiency: None,
    }
}

impl Default for MeterState {
    fn default() -> (m: Self)
        ensures
            m == unheard(),
    {
        MeterState {
            total_w: None,
            phase_w: None,
            last_total_update: None,
            last_phase_update: None,
            charger_v: None,
            charger_a: None,
            charger_w: None,
            efficiency: None,
        }
    }
}

/// Whether the meter is one on the broker.
pub fn is_mqtt(cfg: &MeterConfig) -> (r: bool)
    ensures
        r == is_word(cfg.meter_type@, "mqtt"@),
{
    matches_word(&cfg.meter_type, "mqtt")
}

/// Reversed generator polynomial of the modbus checksum.
pub const POLYNOMIAL: u16 = 0xa001;

/// The checksum after one more bit.
pub open spec fn crc_bit(crc: u16) -> u16 {
    if crc & 1 != 0 {
        (crc >> 1) ^ POLYNOMIAL
    } else {
        crc >> 1
    }
}

/// The checksum after a number of bits.
pub open spec fn crc_bits(crc: u16, bits: nat) -> u16
    decreases bits,
{
    if bits == 0 {
        crc
    } else {
        crc_bit(crc_bits(crc, (bits - 1) as nat))
    }
}

/// The checksum after one more byte.
pub open spec fn crc_byte(crc: u16, byte: u8) -> u16 {
    crc_bits(crc ^ (byte as u16), 8)
}

/// The checksum of a message.
pub open spec fn crc_of(data: Seq<u8>) -> u16
    decreases data.len(),
{
    if data.len() == 0 {
        0xffff
    } else {
        crc_byte(crc_of(data.drop_last()), data.last())
    }
}

/// The modbus checksum of a message.
pub fn calculate_crc(data: &[u8]) -> (crc: u16)
    ensures
        crc == crc_of(data@),
{
    let mut crc: u16 = 0xffff;
    let mut i: usize = 0;
    while i < data.len()
        invariant
            i <= data.len(),
            crc == crc_of(data@.take(i as int)),
        decreases data.len() - i,
    {
        let ghost before = crc;
        let byte: u8 = data[i];
        crc = crc ^ (byte as u16);
        let ghost mixed = crc;
        let mut bit: u32 = 0;
        while bit < 8
            invariant
                bit <= 8,
                crc == crc_bits(mixed, bit as nat),
            decreases 8 - bit,
        {
            if crc & 1 != 0 {
                crc = crc >> 1;
                crc = crc ^ POLYNOMIAL;
            } else {
                crc = crc >> 1;
            }
            bit = bit + 1;
        }
        proof {
            assert(data@.take(i + 1).drop_last() =~= data@.take(i as int));
            assert(data@.take(i + 1).last() == byte);
        }
        i = i + 1;
    }
    assert(data@.take(i as int) =~= data@);
    crc
}

/// High byte first.
pub open spec fn big_endian(n: u16) -> Seq<u8> {
    seq![(n / 256) as u8, (n % 256) as u8]
}

/// Low byte first.
pub open spec fn little_endian(n: u16) -> Seq<u8> {
    seq![(n % 256) as u8, (n / 256) as u8]
}

/// A request for registers, without its checksum.
pub open spec fn request_body(device: u8, function: u8, address: u16, quantity: u16) -> Seq<u8> {
    seq![device, function] + big_endian(address) + big_endian(quantity)
}

/// A request to a modbus meter for a number of registers from an address on.
pub fn energy_modbus_rtu_request(
    device_id: u8,
    function_code: u8,
    starting_address: u16,
    quantity: u16,
) -> (request: [u8; 8])
    ensures
        request@ == request_body(device_id, function_code, starting_address, quantity)
            + little_endian(crc_of(request_body(device_id, function_code, starting_address, quantity))),
{
    let body: [u8; 6] = [
        device_id,
        function_code,
        (starting_address / 256) as u8,
        (starting_address % 256) as u8,
        (quantity / 256) as u8,
        (quantity % 256) as u8,
    ];
    assert(body@ =~= request_body(device_id, function_code, starting_address, quantity));
    let crc: u16 = calculate_crc(&body);
    let request: [u8; 8] = [
        body[0],
        body[1],
        body[2],
        body[3],
        body[4],
        body[5],
        (crc % 256) as u8,
        (crc / 256) as u8,
    ];
    assert(request@ =~= request_body(device_id, function_code, starting_address, quantity)
        + little_endian(crc));
    request
}

/// The request for the power: two registers from 12 on.
pub fn power_request() -> (request: [u8; 8])
    ensures
        request@ == request_body(1, 4, 12, 2) + little_endian(crc_of(request_body(1, 4, 12, 2))),
{
    energy_modbus_rtu_request(1, 0x04, 0x0c, 2)
}

proof fn lemma_crc_byte_of_low(crc: u16)
    ensures
        crc_byte(crc, (crc % 256) as u8) == crc / 256,
        crc_byte(crc / 256, (crc / 256) as u8) == 0,
{
    reveal_with_fuel(crc_bits, 9);
    let high: u16 = crc / 256;
    let rest: u16 = crc % 256;
    let low: u16 = crc ^ rest;
    let s1 = crc_bit(low);
    let s2 = crc_bit(s1);
    let s3 = crc_bit(s2);
    let s4 = crc_bit(s3);
    let s5 = crc_bit(s4);
    let s6 = crc_bit(s5);
    let s7 = crc_bit(s6);
    let s8 = crc_bit(s7);
    assert((crc ^ (crc % 256u16)) & 0xffu16 == 0u16) by (bit_vector);
    assert((crc ^ (crc % 256u16)) >> 8u16 == crc / 256u16) by (bit_vector);
    assert(low & 1 == 0 && (low >> 1) & 1 == 0 && (low >> 2) & 1 == 0 && (low >> 3) & 1 == 0 && (low
        >> 4) & 1 == 0 && (low >> 5) & 1 == 0 && (low >> 6) & 1 == 0 && (low >> 7) & 1 == 0)
        by (bit_vector)
        requires
            low & 0xffu16 == 0u16,
    ;
    assert((low >> 1) >> 1 == low >> 2 && (low >> 2) >> 1 == low >> 3 && (low >> 3) >> 1 == low >> 4
        && (low >> 4) >> 1 == low >> 5 && (low >> 5) >> 1 == low >> 6 && (low >> 6) >> 1 == low >> 7
        && (low >> 7) >> 1 == low >> 8) by (bit_vector);
    assert(s8 == low >> 8);
    assert(high ^ high == 0u16) by (bit_vector);
    assert(0u16 & 1 == 0u16 && 0u16 >> 1 == 0u16) by (bit_vector);
}

/// A message with its checksum behind it, low byte first, has the checksum
/// zero: this is how the other side tells that it has arrived unharmed.
pub proof fn law_checksum_closes_the_message(data: Seq<u8>)
    ensures
        crc_of(data + little_endian(crc_of(data))) == 0,
{
    let crc = crc_of(data);
    let low = (crc % 256) as u8;
    let high = (crc / 256) as u8;
    let whole = data + little_endian(crc);
    assert(whole.drop_last() =~= data.push(low));
    assert(data.push(low).drop_last() =~= data);
    lemma_crc_byte_of_low(crc);
    assert(crc_of(data.push(low)) == crc / 256);
    assert(whole.last() == high);
}

/// The first register of a reply, high byte first.
pub open spec fn register(reply: Seq<u8>) -> int {
    reply[3] * 0x100_0000 + reply[4] * 0x1_0000 + reply[5] * 0x100 + reply[6]
}

/// The value in a reply of a modbus meter. A blank one carries none.
pub fn read_register(reply: &[u8]) -> (bits: Option<u32>)
    requires
        reply@.len() >= 7,
    ensures
        bits is None <==> register(reply@) == 0,
        bits is Some ==> bits->0 == register(reply@),
{
    let a: u32 = reply[3] as u32;
    let b: u32 = reply[4] as u32;
    let c: u32 = reply[5] as u32;
    let d: u32 = reply[6] as u32;
    let n: u32 = a * 0x100_0000 + b * 0x1_0000 + c * 0x100 + d;
    if n == 0 {
        None
    } else {
        Some(n)
    }
}

/// The value of a modbus meter until it has sent one: a tenth of a watt.
pub const FIRST_VALUE: u32 = 0x3dcc_cccd;

/// The value that is known of a modbus meter after a reply: a blank one leaves
/// it as it is.
pub open spec fn value_after(before: u32, reply: Seq<u8>) -> u32 {
    if register(reply) == 0 {
        before
    } else {
        register(reply) as u32
    }
}

impl MeterState {
    /// Takes over a reply of a modbus meter that came at `at`. `value` is the
    /// value that the meter last sent.
    pub fn on_reply(&mut self, value: &mut u32, reply: &[u8], at: Instant)
        requires
            reply@.len() >= 7,
        ensures
            *final(value) == value_after(*old(value), reply@),
            *final(self) == (MeterState {
                total_w: Some(*final(value)),
                last_total_update: Some(at),
                ..*old(self)
            }),
    {
        if let Some(bits) = read_register(reply) {
            *value = bits;
        }
        self.total_w = Some(*value);
        self.last_total_update = Some(at);
    }

    /// The modbus meter does not answer, or the total is too old.
    pub fn mark_total_power_as_stale(&mut self)
        ensures
            *final(self) == (MeterState { total_w: None, ..*old(self) }),
    {
        self.total_w = None;
    }

    /// The power of the phase is too old.
    pub fn mark_phase_power_as_stale(&mut self)
        ensures
            *final(self) == (MeterState { phase_w: None, ..*old(self) }),
    {
        self.phase_w = None;
    }

    /// Whether the total was known once and is not any more.
    pub fn total_lost(&self) -> (r: bool)
        ensures
            r == (self.total_w is None && self.last_total_update is Some),
    {
        self.total_w.is_none() && self.last_total_update.is_some()
    }
}

/// The number that a payload gives for a field: the payload itself where it is
/// a plain number, else the number at the end of the path of keys in the
/// document that it spells.
pub open spec fn payload_number(
    plain: Option<u32>,
    json: Option<JsonView>,
    field: Seq<char>,
) -> Option<Reading> {
    match (plain, json) {
        (Some(bits), _) => Some(Reading::Single(bits)),
        (None, Some(document)) => match part(document, pieces(field, '.')) {
            Some(leaf) => number_in(leaf),
            None => None,
        },
        (None, None) => None,
    }
}

/// The number that a document gives for a field.
pub fn document_number(json: &Json, field: &str) -> (r: Option<Reading>)
    ensures
        r == payload_number(None, Some(json@), field@),
{
    match follow(json, field) {
        Some(leaf) => number(leaf),
        None => None,
    }
}

/// Reads a value in watts out of a payload: a plain number, or a document with
/// a number at the end of a path of keys. `plain` holds the bits of the number
/// that the payload is, where it is one.
pub fn extract_value(plain: Option<u32>, payload: &str, field: &str) -> (r: Option<Reading>)
    ensures
        r == payload_number(plain, document_of(payload@), field@),
{
    if let Some(bits) = plain {
        return Some(Reading::Single(bits));
    }
    match read_json(payload) {
        Some(json) => document_number(&json, field),
        None => None,
    }
}

/// The values that a message of the meter carries, before any scaling.
#[derive(Debug, Clone, Copy, PartialEq, Eq, Structural)]
pub struct MeterMessage {
    pub total: Option<Reading>,
    pub phase: Option<Reading>,
    pub charger_v: Option<u32>,
    pub charger_a: Option<u32>,
    pub charger_w: Option<u32>,
}

/// A value of the charger's own meter: a plain number on a topic that is not
/// empty.
pub open spec fn charger_value(
    topic: Seq<char>,
    wanted: Seq<char>,
    plain: Option<u32>,
) -> Option<u32> {
    if wanted.len() > 0 && topic == wanted {
        plain
    } else {
        None
    }
}

/// The values that a message on a topic carries. The total and the phase may
/// share a topic, with a field each.
pub open spec fn values_in(
    cfg: MeterConfig,
    topic: Seq<char>,
    plain: Option<u32>,
    json: Option<JsonView>,
) -> MeterMessage {
    MeterMessage {
        total: if topic == cfg.mqtt_meter_total_power_topic@ {
            payload_number(plain, json, cfg.mqtt_meter_total_power_field@)
        } else {
            None
        },
        phase: if topic == cfg.mqtt_meter_phase_power_topic@ {
            payload_number(plain, json, cfg.mqtt_meter_phase_power_field@)
        } else {
            None
        },
        charger_v: charger_value(topic, cfg.mqtt_meter_charger_volts_topic@, plain),
        charger_a: charger_value(topic, cfg.mqtt_meter_charger_current_topic@, plain),
        charger_w: charger_value(topic, cfg.mqtt_meter_charger_power_topic@, plain),
    }
}

fn read_charger(topic: &str, wanted: &str, plain: Option<u32>) -> (r: Option<u32>)
    ensures
        r == charger_value(topic@, wanted@, plain),
{
    if wanted.unicode_len() > 0 && same_text(topic, wanted) {
        plain
    } else {
        None
    }
}

/// Reads a message of the meter. `payload` is its cleaned text, `plain` the
/// bits of the number that it is, where it is one.
pub fn handle_publish(cfg: &MeterConfig, topic: &str, payload: &str, plain: Option<u32>) -> (r:
    MeterMessage)
    ensures
        r == values_in(*cfg, topic@, plain, document_of(payload@)),
{
    let total = if same_text(topic, &cfg.mqtt_meter_total_power_topic) {
        extract_value(plain, payload, &cfg.mqtt_meter_total_power_field)
    } else {
        None
    };
    let phase = if same_text(topic, &cfg.mqtt_meter_phase_power_topic) {
        extract_value(plain, payload, &cfg.mqtt_meter_phase_power_field)
    } else {
        None
    };
    MeterMessage {
        total,
        phase,
        charger_v: read_charger(topic, &cfg.mqtt_meter_charger_volts_topic, plain),
        charger_a: read_charger(topic, &cfg.mqtt_meter_charger_current_topic, plain),
        charger_w: read_charger(topic, &cfg.mqtt_meter_charger_power_topic, plain),
    }
}

/// The values of a message, scaled.
#[derive(Debug, Clone, Copy)]
pub struct MeterUpdate {
    pub total_w: Option<u32>,
    pub phase_w: Option<u32>,
    pub charger_v: Option<u32>,
    pub charger_a: Option<u32>,
    /// The power of the charger, and the efficiency that goes with it
    pub charger_w: Option<(u32, Option<u32>)>,
}

/// The second value where there is none in the first place.
pub open spec fn or_else<T>(new: Option<T>, old: Option<T>) -> Option<T> {
    match new {
        Some(_) => new,
        None => old,
    }
}

/// The state after the values of a message that came at `at`.
pub open spec fn updated(m: MeterState, u: MeterUpdate, at: Instant) -> MeterState {
    MeterState {
        total_w: or_else(u.total_w, m.total_w),
        last_total_update: if u.total_w is Some {
            Some(at)
        } else {
            m.last_total_update
        },
        phase_w: or_else(u.phase_w, m.phase_w),
        last_phase_update: if u.phase_w is Some {
            Some(at)
        } else {
            m.last_phase_update
        },
        charger_v: or_else(u.charger_v, m.charger_v),
        charger_a: or_else(u.charger_a, m.charger_a),
        charger_w: match u.charger_w {
            Some((watts, _)) => Some(watts),
            None => m.charger_w,
        },
        efficiency: match u.charger_w {
            Some((_, efficiency)) => efficiency,
            None => m.efficiency,
        },
    }
}

impl MeterState {
    /// Takes over the values of a message that came at `at`.
    pub fn apply(&mut self, update: MeterUpdate, at: Instant)
        ensures
            *final(self) == updated(*old(self), update, at),
    {
        if update.total_w.is_some() {
            self.total_w = update.total_w;
            self.last_total_update = Some(at);
        }
        if update.phase_w.is_some() {
            self.phase_w = update.phase_w;
            self.last_phase_update = Some(at);
        }
        if update.charger_v.is_some() {
            self.charger_v = update.charger_v;
        }
        if update.charger_a.is_some() {
            self.charger_a = update.charger_a;
        }
        if let Some((watts, efficiency)) = update.charger_w {
            self.charger_w = Some(watts);
            self.efficiency = efficiency;
        }
    }
}

/// The topics of the meter, in the order in which they are subscribed to. The
/// phase is left out where it shares the topic of the total, and so is every
/// empty topic of the charger's own meter.
pub open spec fn meter_topics(cfg: MeterConfig) -> Seq<Seq<char>> {
    let phase = cfg.mqtt_meter_phase_power_topic@;
    let volts = cfg.mqtt_meter_charger_volts_topic@;
    let amps = cfg.mqtt_meter_charger_current_topic@;
    let power = cfg.mqtt_meter_charger_power_topic@;
    seq![cfg.mqtt_meter_total_power_topic@] + listed(
        phase,
        phase != cfg.mqtt_meter_total_power_topic@,
    ) + listed(volts, volts.len() > 0) + listed(amps, amps.len() > 0) + listed(
        power,
        power.len() > 0,
    )
}

/// A topic, or none.
pub open spec fn listed(topic: Seq<char>, yes: bool) -> Seq<Seq<char>> {
    if yes {
        seq![topic]
    } else {
        seq![]
    }
}

fn list_topic(list: &mut Vec<String>, topic: &String, yes: bool)
    ensures
        views(final(list)@) == views(old(list)@) + listed(topic@, yes),
{
    if yes {
        list.push(topic.clone());
    }
    assert(views(list@) =~= views(old(list)@) + listed(topic@, yes));
}

/// The topics to subscribe to on every connection.
pub fn meter_subscriptions(cfg: &MeterConfig) -> (list: Vec<String>)
    ensures
        views(list@) == meter_topics(*cfg),
{
    let mut list: Vec<String> = Vec::new();
    list_topic(&mut list, &cfg.mqtt_meter_total_power_topic, true);
    let own = !same_text(&cfg.mqtt_meter_phase_power_topic, &cfg.mqtt_meter_total_power_topic);
    list_topic(&mut list, &cfg.mqtt_meter_phase_power_topic, own);
    let volts = &cfg.mqtt_meter_charger_volts_topic;
    let amps = &cfg.mqtt_meter_charger_current_topic;
    let power = &cfg.mqtt_meter_charger_power_topic;
    list_topic(&mut list, volts, volts.as_str().unicode_len() > 0);
    list_topic(&mut list, amps, amps.as_str().unicode_len() > 0);
    list_topic(&mut list, power, power.as_str().unicode_len() > 0);
    assert(views(list@) =~= meter_topics(*cfg));
    list
}

/// A value that is older than the time limit, or was never set.
pub open spec fn too_old(age: Option<u64>, timeout_seconds: u64) -> bool {
    match age {
        Some(seconds) => seconds > timeout_seconds,
        None => true,
    }
}

/// Whether a value is older than `timeout_seconds`, or was never set, by its
/// age.
pub fn is_too_old(age: Option<u64>, timeout_seconds: u64) -> (stale: bool)
    ensures
        stale == too_old(age, timeout_seconds),
{
    match age {
        Some(seconds) => seconds > timeout_seconds,
        None => true,
    }
}

/// Whether `last` is older than `timeout_seconds`, or was never set.
pub fn is_stale(last: Option<Instant>, timeout_seconds: u64) -> (stale: bool)
    ensures
        exists|age: Option<u64>| #[trigger]
            age_fits(age, last) && stale == too_old(age, timeout_seconds),
        last is None ==> stale,
        last is Some && timeout_seconds == u64::MAX ==> !stale,
{
    let age = age_of(last);
    is_too_old(age, timeout_seconds)
}

/// The state once the values that are too old have been given up.
pub open spec fn lapsed(m: MeterState, total_stale: bool, phase_stale: bool) -> MeterState {
    MeterState {
        total_w: if total_stale {
            None
        } else {
            m.total_w
        },
        phase_w: if phase_stale {
            None
        } else {
            m.phase_w
        },
        ..m
    }
}

impl MeterState {
    /// Gives up the values that are too old. The mode to ask for, if any:
    /// load matching must not go on without the total.
    pub fn lapse(&mut self, total_stale: bool, phase_stale: bool, mode: OperationMode) -> (ask:
        Option<OperationMode>)
        ensures
            *final(self) == lapsed(*old(self), total_stale, phase_stale),
            ask == (if total_stale && mode is V2h {
                Some(OperationMode::Idle)
            } else {
                None
            }),
    {
        let ask = if total_stale && mode.is_v2h() {
            Some(OperationMode::Idle)
        } else {
            None
        };
        if total_stale {
            self.mark_total_power_as_stale();
        }
        if phase_stale {
            self.mark_phase_power_as_stale();
        }
        ask
    }

    /// Gives up the values that are, at the time of the call, too old, and
    /// says which mode to ask for, if any.
    pub fn check_staleness(&mut self, timeout_seconds: u64, mode: OperationMode) -> (ask: Option<
        OperationMode,
    >)
        ensures
            exists|total: Option<u64>, phase: Option<u64>|
                {
                    &&& #[trigger] age_fits(total, old(self).last_total_update)
                    &&& #[trigger] age_fits(phase, old(self).last_phase_update)
                    &&& *final(self) == lapsed(
                        *old(self),
                        too_old(total, timeout_seconds),
                        too_old(phase, timeout_seconds),
                    )
                    &&& ask == (if too_old(total, timeout_seconds) && mode is V2h {
                        Some(OperationMode::Idle)
                    } else {
                        None
                    })
                },
    {
        let total_stale = is_stale(self.last_total_update, timeout_seconds);
        let phase_stale = is_stale(self.last_phase_update, timeout_seconds);
        self.lapse(total_stale, phase_stale, mode)
    }
}

/// Once the total is too old it is not known any more. When it was last known
/// still is.
pub proof fn law_stale_total_is_unknown(
    m: MeterState,
    age: Option<u64>,
    timeout: u64,
    phase_stale: bool,
)
    requires
        too_old(age, timeout),
    ensures
        lapsed(m, too_old(age, timeout), phase_stale).total_w is None,
        lapsed(m, too_old(age, timeout), phase_stale).last_total_update == m.last_total_update,
{
}

/// A message that shares one topic for the total and the phase updates both.
pub proof fn law_shared_topic_updates_both(
    cfg: MeterConfig,
    plain: Option<u32>,
    json: Option<JsonView>,
)
    requires
        cfg.mqtt_meter_total_power_topic@ == cfg.mqtt_meter_phase_power_topic@,
    ensures
        ({
            let m = values_in(cfg, cfg.mqtt_meter_total_power_topic@, plain, json);
            &&& m.total == payload_number(plain, json, cfg.mqtt_meter_total_power_field@)
            &&& m.phase == payload_number(plain, json, cfg.mqtt_meter_phase_power_field@)
        }),
{
}

/// The four bytes of a reply behind its third, high byte first, are the
/// register, and the other bytes have no part in it.
pub proof fn law_register_is_four_bytes(reply: Seq<u8>)
    requires
        reply.len() >= 7,
    ensures
        0 <= register(reply) <= u32::MAX,
        register(reply) / 0x100_0000 == reply[3],
        register(reply) / 0x1_0000 % 0x100 == reply[4],
        register(reply) / 0x100 % 0x100 == reply[5],
        register(reply) % 0x100 == reply[6],
{
    let a = reply[3] as int;
    let b = reply[4] as int;
    let c = reply[5] as int;
    let d = reply[6] as int;
    let n = register(reply);
    lemma_fundamental_div_mod_converse(n, 0x100_0000, a, b * 0x1_0000 + c * 0x100 + d);
    lemma_fundamental_div_mod_converse(n, 0x1_0000, a * 0x100 + b, c * 0x100 + d);
    lemma_fundamental_div_mod_converse(a * 0x100 + b, 0x100, a, b);
    lemma_fundamental_div_mod_converse(n, 0x100, a * 0x1_0000 + b * 0x100 + c, d);
    lemma_fundamental_div_mod_converse(a * 0x1_0000 + b * 0x100 + c, 0x100, a * 0x100 + b, c);
}

/// A reply makes its register the total, known from then on. Four blank bytes
/// leave the value as it was, which still counts as heard. Nothing else
/// changes.
pub proof fn law_reply_is_the_total(
    m: &mut MeterState,
    value: &mut u32,
    bytes: &[u8],
    at: Instant,
)
    requires
        bytes@.len() >= 7,
        call_ensures(MeterState::on_reply, (m, value, bytes, at), ()),
    ensures
        ({
            let n = *final(m);
            let v = *final(value);
            let reply = bytes@;
            let blank = reply[3] == 0 && reply[4] == 0 && reply[5] == 0 && reply[6] == 0;
            &&& blank ==> v == *old(value)
            &&& !blank ==> v == register(reply)
            &&& n.total_w == Some(v)
            &&& n.last_total_update == Some(at)
            &&& n.phase_w == old(m).phase_w && n.last_phase_update == old(m).last_phase_update
            &&& n.charger_v == old(m).charger_v && n.charger_a == old(m).charger_a
            &&& n.charger_w == old(m).charger_w && n.efficiency == old(m).efficiency
        }),
{
}

/// A payload that is a plain number is the value, whatever the field; one that
/// is a document gives the number under the field, and one that is neither
/// gives none.
pub proof fn law_payload_number(plain: Option<u32>, json: Option<JsonView>, field: Seq<char>)
    ensures
        ({
            let r = payload_number(plain, json, field);
            &&& plain matches Some(bits) ==> r == Some(Reading::Single(bits))
            &&& plain is None && json is None ==> r is None
            &&& plain is None && json is Some ==> match part(json->0, pieces(field, '.')) {
                Some(JsonView::Number(Some(bits))) => r == Some(Reading::Double(bits)),
                _ => r is None,
            }
        }),
{
}

/// Every value of a message comes on its own topic and on no other, and the
/// charger's own meter is heard only where it has a topic and sends plain
/// numbers.
pub proof fn law_meter_values_come_on_their_topics(
    cfg: MeterConfig,
    name: &str,
    payload: &str,
    plain: Option<u32>,
    m: MeterMessage,
)
    requires
        call_ensures(handle_publish, (&cfg, name, payload, plain), m),
    ensures
        ({
            let topic = name@;
            let json = document_of(payload@);
            let volts = cfg.mqtt_meter_charger_volts_topic@;
            let amps = cfg.mqtt_meter_charger_current_topic@;
            let power = cfg.mqtt_meter_charger_power_topic@;
            &&& topic != cfg.mqtt_meter_total_power_topic@ ==> m.total is None
            &&& topic != cfg.mqtt_meter_phase_power_topic@ ==> m.phase is None
            &&& topic == cfg.mqtt_meter_total_power_topic@ ==> {
                &&& plain matches Some(bits) ==> m.total == Some(Reading::Single(bits))
                &&& plain is None ==> m.total == payload_number(
                    None,
                    json,
                    cfg.mqtt_meter_total_power_field@,
                )
            }
            &&& topic == cfg.mqtt_meter_phase_power_topic@ ==> {
                &&& plain matches Some(bits) ==> m.phase == Some(Reading::Single(bits))
                &&& plain is None ==> m.phase == payload_number(
                    None,
                    json,
                    cfg.mqtt_meter_phase_power_field@,
                )
            }
            &&& topic != volts ==> m.charger_v is None
            &&& topic != amps ==> m.charger_a is None
            &&& topic != power ==> m.charger_w is None
            &&& topic.len() == 0 ==> m.charger_v is None && m.charger_a is None
                && m.charger_w is None
            &&& topic.len() > 0 && topic == volts ==> m.charger_v == plain
            &&& topic.len() > 0 && topic == amps ==> m.charger_a == plain
            &&& topic.len() > 0 && topic == power ==> m.charger_w == plain
        }),
{
}

/// An update replaces the values that it carries, notes when the total and the
/// phase came, and leaves the rest. The efficiency goes with the power of the
/// charger.
pub proof fn law_updates_replace_what_they_carry(m: &mut MeterState, u: MeterUpdate, at: Instant)
    requires
        call_ensures(MeterState::apply, (m, u, at), ()),
    ensures
        ({
            let n = *final(m);
            &&& u.total_w is Some ==> n.total_w == u.total_w && n.last_total_update == Some(at)
            &&& u.total_w is None ==> n.total_w == old(m).total_w && n.last_total_update
                == old(m).last_total_update
            &&& u.phase_w is Some ==> n.phase_w == u.phase_w && n.last_phase_update == Some(at)
            &&& u.phase_w is None ==> n.phase_w == old(m).phase_w && n.last_phase_update
                == old(m).last_phase_update
            &&& u.charger_v is Some ==> n.charger_v == u.charger_v
            &&& u.charger_v is None ==> n.charger_v == old(m).charger_v
            &&& u.charger_a is Some ==> n.charger_a == u.charger_a
            &&& u.charger_a is None ==> n.charger_a == old(m).charger_a
            &&& u.charger_w matches Some(w) ==> n.charger_w == Some(w.0) && n.efficiency == w.1
            &&& u.charger_w is None ==> n.charger_w == old(m).charger_w && n.efficiency == old(m).efficiency
        }),
{
}

/// Every topic on which a value may come is subscribed to, each empty one of
/// the charger's own meter apart, and nothing else is.
pub proof fn law_meter_topics_are_subscribed_to(cfg: MeterConfig)
    ensures
        ({
            let list = meter_topics(cfg);
            let total = cfg.mqtt_meter_total_power_topic@;
            let phase = cfg.mqtt_meter_phase_power_topic@;
            let volts = cfg.mqtt_meter_charger_volts_topic@;
            let amps = cfg.mqtt_meter_charger_current_topic@;
            let power = cfg.mqtt_meter_charger_power_topic@;
            &&& list.contains(total)
            &&& list.contains(phase)
            &&& volts.len() > 0 ==> list.contains(volts)
            &&& amps.len() > 0 ==> list.contains(amps)
            &&& power.len() > 0 ==> list.contains(power)
            &&& forall|i: int| 1 <= i < list.len() ==> (#[trigger] list[i] == phase && phase != total)
                || (list[i].len() > 0 && (list[i] == volts || list[i] == amps || list[i] == power))
            &&& list[0] == total
            &&& list.len() == 1 + (if phase != total {
                1int
            } else {
                0
            }) + (if volts.len() > 0 {
                1int
            } else {
                0
            }) + (if amps.len() > 0 {
                1int
            } else {
                0
            }) + (if power.len() > 0 {
                1int
            } else {
                0
            })
        }),
{
    let list = meter_topics(cfg);
    let total = cfg.mqtt_meter_total_power_topic@;
    let phase = cfg.mqtt_meter_phase_power_topic@;
    let volts = cfg.mqtt_meter_charger_volts_topic@;
    let amps = cfg.mqtt_meter_charger_current_topic@;
    let power = cfg.mqtt_meter_charger_power_topic@;
    let p: int = if phase != total {
        1
    } else {
        0
    };
    let v: int = if volts.len() > 0 {
        1
    } else {
        0
    };
    let a: int = if amps.len() > 0 {
        1
    } else {
        0
    };
    assert(list[0] == total);
    if phase != total {
        assert(list[1] == phase);
    }
    if volts.len() > 0 {
        assert(list[1 + p] == volts);
    }
    if amps.len() > 0 {
        assert(list[1 + p + v] == amps);
    }
    if power.len() > 0 {
        assert(list[1 + p + v + a] == power);
    }
}

/// A value that was never set is too old; any other is once its age is above
/// the limit, and a value does not grow younger.
pub proof fn law_values_grow_old(age: u64, later: u64, timeout: u64)
    ensures
        too_old(None, timeout),
        too_old(Some(age), timeout) <==> age > timeout,
        too_old(Some(age), timeout) && later >= age ==> too_old(Some(later), timeout),
{
}

/// What is too old is given up, and nothing else. Load matching stops where the
/// total is given up, and nothing else makes the meter ask for a mode.
pub proof fn law_old_values_are_given_up(
    m: &mut MeterState,
    total_stale: bool,
    phase_stale: bool,
    mode: OperationMode,
    ask: Option<OperationMode>,
)
    requires
        call_ensures(MeterState::lapse, (m, total_stale, phase_stale, mode), ask),
    ensures
        ({
            let n = *final(m);
            &&& total_stale ==> n.total_w is None
            &&& !total_stale ==> n.total_w == old(m).total_w
            &&& phase_stale ==> n.phase_w is None
            &&& !phase_stale ==> n.phase_w == old(m).phase_w
            &&& n.last_total_update == old(m).last_total_update
            &&& n.last_phase_update == old(m).last_phase_update
            &&& n.charger_v == old(m).charger_v && n.charger_a == old(m).charger_a
            &&& n.charger_w == old(m).charger_w && n.efficiency == old(m).efficiency
            &&& ask is Some <==> total_stale && mode == OperationMode::V2h
            &&& ask matches Some(wish) ==> wish == OperationMode::Idle
        }),
{
}

/// The total is lost where it was heard once and has been given up since: not
/// before it is heard, and not after it is heard again.
pub proof fn law_total_is_lost_when_given_up(m: MeterState, lost: bool)
    requires
        call_ensures(MeterState::total_lost, (&m,), lost),
    ensures
        m.last_total_update is None ==> !lost,
        m.total_w is Some ==> !lost,
        m.last_total_update is Some && m.total_w is None ==> lost,
{
}

/// A request is made of its four numbers, high byte first, and of a checksum
/// that the meter finds right.
pub proof fn law_requests_arrive_unharmed(
    device: u8,
    function: u8,
    address: u16,
    quantity: u16,
    request: [u8; 8],
)
    requires
        call_ensures(energy_modbus_rtu_request, (device, function, address, quantity), request),
    ensures
        request@[0] == device,
        request@[1] == function,
        request@[2] * 256 + request@[3] == address,
        request@[4] * 256 + request@[5] == quantity,
        crc_of(request@) == 0,
{
    law_checksum_closes_the_message(request_body(device, function, address, quantity));
}

/// The request for the power asks the first meter for the two input registers
/// from the twelfth on, and arrives unharmed.
pub proof fn law_power_request(request: [u8; 8])
    requires
        call_ensures(power_request, (), request),
    ensures
        request@[0] == 1 && request@[1] == 4,
        request@[2] == 0 && request@[3] == 12,
        request@[4] == 0 && request@[5] == 2,
        crc_of(request@) == 0,
{
    law_checksum_closes_the_message(request_body(1, 4, 12, 2));
}

/// A value is stale where the clock gives it an age above the limit, and also
/// before it was ever heard.
pub proof fn law_unheard_values_are_stale(last: Option<Instant>, timeout: u64, stale: bool)
    requires
        call_ensures(is_stale, (last, timeout), stale),
    ensures
        last is None ==> stale,
        last matches Some(t) ==> exists|age: u64| #[trigger]
            clock_gives(t, age) && (stale <==> age > timeout),
{
    if let Some(t) = last {
        let age = choose|age: Option<u64>| #[trigger]
            age_fits(age, last) && stale == too_old(age, timeout);
        assert(clock_gives(t, age->0) && (stale <==> age->0 > timeout));
    }
}

/// Before the meter is heard nothing is known of it.
pub proof fn law_meter_starts_unheard()
    ensures
        unheard().total_w is None && unheard().last_total_update is None,
        unheard().phase_w is None && unheard().last_phase_update is None,
        unheard().charger_v is None && unheard().charger_a is None,
        unheard().charger_w is None && unheard().efficiency is None,
{
}

/// A meter is one on the broker where its type reads so, in small letters or in
/// capitals.
pub proof fn law_broker_meters_go_by_their_type(cfg: MeterConfig, r: bool)
    requires
        call_ensures(is_mqtt, (&cfg,), r),
    ensures
        ({
            let s = cfg.meter_type@;
            r <==> s.len() == 4 && (s[0] == 'm' || s[0] == 'M') && (s[1] == 'q' || s[1] == 'Q') && (
            s[2] == 't' || s[2] == 'T') && (s[3] == 't' || s[3] == 'T')
        }),
{
    let s = cfg.meter_type@;
    let word = "mqtt"@;
    reveal_strlit("mqtt");
    law_words_go_by_their_letters(s, word);
    assert(word.len() == 4 && word[0] == 'm' && word[1] == 'q' && word[2] == 't' && word[3] == 't');
}

/// What is subscribed to is the list of the meter's topics.
pub proof fn law_meter_subscribes_to_its_topics(cfg: MeterConfig, list: Vec<String>)
    requires
        call_ensures(meter_subscriptions, (&cfg,), list),
    ensures
        views(list@) == meter_topics(cfg),
        list@.len() == meter_topics(cfg).len(),
{
    assert(views(list@).len() == list@.len());
}

/// A check gives each value up where the clock finds it older than the limit or
/// it was never heard, and keeps it otherwise. It asks for rest exactly where the
/// total is given up during load matching.
pub proof fn law_check_goes_by_the_clock(
    m: &mut MeterState,
    timeout: u64,
    mode: OperationMode,
    ask: Option<OperationMode>,
)
    requires
        call_ensures(MeterState::check_staleness, (m, timeout, mode), ask),
    ensures
        old(m).last_total_update is None ==> final(m).total_w is None,
        old(m).last_phase_update is None ==> final(m).phase_w is None,
        old(m).last_total_update matches Some(t) ==> exists|age: u64| #[trigger]
            clock_gives(t, age) && final(m).total_w == (if age > timeout {
                None
            } else {
                old(m).total_w
            }) && (ask is Some <==> age > timeout && mode == OperationMode::V2h),
        old(m).last_phase_update matches Some(t) ==> exists|age: u64| #[trigger]
            clock_gives(t, age) && final(m).phase_w == (if age > timeout {
                None
            } else {
                old(m).phase_w
            }),
        old(m).last_total_update is None && mode == OperationMode::V2h ==> ask is Some,
        ask matches Some(wish) ==> wish == OperationMode::Idle,
        ask is Some ==> final(m).total_w is None,
        final(m).last_total_update == old(m).last_total_update,
        final(m).last_phase_update == old(m).last_phase_update,
{
    let before = *old(m);
    let (total, phase) = choose|total: Option<u64>, phase: Option<u64>|
        {
            &&& #[trigger] age_fits(total, before.last_total_update)
            &&& #[trigger] age_fits(phase, before.last_phase_update)
            &&& *final(m) == lapsed(before, too_old(total, timeout), too_old(phase, timeout))
            &&& ask == (if too_old(total, timeout) && mode is V2h {
                Some(OperationMode::Idle)
            } else {
                None
            })
        };
    if let Some(t) = before.last_total_update {
        assert(clock_gives(t, total->0));
    }
    if let Some(t) = before.last_phase_update {
        assert(clock_gives(t, phase->0));
    }
}

/// Giving the total up leaves all else as it is, and so does giving the phase
/// up.
pub proof fn law_values_are_given_up_one_by_one(m: &mut MeterState, n: &mut MeterState)
    requires
        call_ensures(MeterState::mark_total_power_as_stale, (m,), ()),
        call_ensures(MeterState::mark_phase_power_as_stale, (n,), ()),
    ensures
        final(m).total_w is None,
        *final(m) == (MeterState { total_w: None, ..*old(m) }),
        final(n).phase_w is None,
        *final(n) == (MeterState { phase_w: None, ..*old(n) }),
{
}

} // verus!
