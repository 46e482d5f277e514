//! What the charger makes of the messages of the broker, and which topics it
//! uses.
use std::time::Instant;
use vstd::prelude::*;

use crate::data_io::config::MqttConfig;
use crate::data_io::staleness::{age_fits, age_of, clock_gives, clock_reads, is_outdated, outdated, present};
use crate::data_io::supervisor::SupervisoryState;
use crate::json::{document_of, follow, is_positive, part, positive, read_json, signal, signal_in, Json, JsonView, Reading};
use crate::text::{join, pieces, same_text};

verus! {

/// Topic on which the charger says whether it is online.
pub fn availability_topic(base: &str) -> (topic: String)
    ensures
        topic@ == base@ + "/availability"@,
{
    join(base, "/availability")
}

/// What the charger says of itself on that topic.
pub open spec fn availability_text(online: bool) -> Seq<char> {
    if online {
        "online"@
    } else {
        "offline"@
    }
}

/// What the charger says of itself while it is online, and what the broker
/// says of it once it is gone.
pub fn availability(online: bool) -> (text: String)
    ensures
        text@ == availability_text(online),
{
    if online {
        "online".to_owned()
    } else {
        "offline".to_owned()
    }
}

/// Topic on which the charger takes commands.
pub fn command_topic(base: &str) -> (topic: String)
    ensures
        topic@ == base@ + "/command"@,
{
    join(base, "/command")
}

/// Topic on which the charger publishes its status.
pub fn status_topic(base: &str) -> (topic: String)
    ensures
        topic@ == base@ + "/status"@,
{
    join(base, "/status")
}

/// A topic to be heard, and whether its messages must arrive at least once.
#[derive(Debug)]
pub struct Subscription {
    pub topic: String,
    pub at_least_once: bool,
}

/// A subscription by its topic's characters.
pub open spec fn subscription_view(s: Subscription) -> (Seq<char>, bool) {
    (s.topic@, s.at_least_once)
}

/// Every topic to be heard, in the order in which they are subscribed to.
pub open spec fn topics_heard(cfg: MqttConfig) -> Seq<(Seq<char>, bool)> {
    seq![
        (cfg.mqtt_smart_charge_topic@, false),
        (cfg.mqtt_ev_drain_protection_topic@, false),
        (cfg.mqtt_smart_export_topic@, false),
        (cfg.mqtt_smart_export_excess_solar_topic@, false),
        (cfg.base_topic@ + "/command"@, true),
    ]
}

/// The topics to subscribe to on every connection.
pub fn subscriptions(cfg: &MqttConfig) -> (list: Vec<Subscription>)
    ensures
        list@.map_values(|s: Subscription| subscription_view(s)) == topics_heard(*cfg),
{
    let list = vec![
        Subscription { topic: cfg.mqtt_smart_charge_topic.clone(), at_least_once: false },
        Subscription { topic: cfg.mqtt_ev_drain_protection_topic.clone(), at_least_once: false },
        Subscription { topic: cfg.mqtt_smart_export_topic.clone(), at_least_once: false },
        Subscription {
            topic: cfg.mqtt_smart_export_excess_solar_topic.clone(),
            at_least_once: false,
        },
        Subscription { topic: command_topic(&cfg.base_topic), at_least_once: true },
    ];
    assert(list@.map_values(|s: Subscription| subscription_view(s)) =~= topics_heard(*cfg));
    list
}

/// The value that a document gives for a field: that of the whole document
/// where it is a truth value, else that of the part that the field leads to.
pub open spec fn value_of(json: JsonView, field: Seq<char>) -> Option<Reading> {
    match json {
        JsonView::Bool(b) => Some(Reading::Flag(b)),
        _ => match part(json, pieces(field, '.')) {
            Some(leaf) => signal_in(leaf),
            None => None,
        },
    }
}

/// The value that a payload gives for a field: the payload itself where it is
/// a plain number, else that of the document that it spells.
pub open spec fn payload_value(
    plain: Option<u32>,
    json: Option<JsonView>,
    field: Seq<char>,
) -> Option<Reading> {
    match (plain, json) {
        (Some(bits), _) => Some(Reading::Single(bits)),
        (None, Some(document)) => value_of(document, field),
        (None, None) => None,
    }
}

/// The value that a document gives for a field.
pub fn document_value(json: &Json, field: &str) -> (r: Option<Reading>)
    ensures
        r == value_of(json@, field@),
{
    if let Json::Bool(b) = json {
        return Some(Reading::Flag(*b));
    }
    match follow(json, field) {
        Some(leaf) => signal(leaf),
        None => None,
    }
}

/// Reads the value of a field out of a payload. `plain` holds the bits of the
/// number that the payload is, where it is one. Handles a plain number, a
/// bare truth value, and a document with a number or a truth value at the end
/// of a path of keys.
pub fn extract_value(plain: Option<u32>, payload: &str, field: &str) -> (r: Option<Reading>)
    ensures
        r == payload_value(plain, document_of(payload@), field@),
        plain is None && payload@ == "true"@ ==> r == Some(Reading::Flag(true)),
        plain is None && payload@ == "false"@ ==> r == Some(Reading::Flag(false)),
{
    if let Some(bits) = plain {
        return Some(Reading::Single(bits));
    }
    match read_json(payload) {
        Some(json) => document_value(&json, field),
        None => None,
    }
}

/// What a request becomes at a message on `topic`: where it is `wanted` and
/// the payload has a value, whether that value is above zero.
pub open spec fn request(
    topic: Seq<char>,
    wanted: Seq<char>,
    plain: Option<u32>,
    json: Option<JsonView>,
    field: Seq<char>,
) -> Option<bool> {
    if topic == wanted {
        match payload_value(plain, json, field) {
            Some(value) => Some(is_positive(value)),
            None => None,
        }
    } else {
        None
    }
}

fn read_request(
    topic: &str,
    wanted: &str,
    plain: Option<u32>,
    payload: &str,
    field: &str,
) -> (r: Option<bool>)
    ensures
        r == request(topic@, wanted@, plain, document_of(payload@), field@),
{
    if !same_text(topic, wanted) {
        return None;
    }
    match extract_value(plain, payload, field) {
        Some(value) => Some(positive(value)),
        None => None,
    }
}

/// The requests that a message carries.
#[derive(Debug, Clone, Copy, PartialEq, Eq, Structural)]
pub struct Requests {
    pub smart_charge: Option<bool>,
    pub ev_drain_protection: Option<bool>,
    pub smart_export: Option<bool>,
    pub smart_export_excess_solar: Option<bool>,
}

/// The requests that a message on a topic carries. One topic may stand for
/// several requests.
pub open spec fn requests_in(
    cfg: MqttConfig,
    topic: Seq<char>,
    plain: Option<u32>,
    json: Option<JsonView>,
) -> Requests {
    Requests {
        smart_charge: request(
            topic,
            cfg.mqtt_smart_charge_topic@,
            plain,
            json,
            cfg.mqtt_smart_charge_field@,
        ),
        ev_drain_protection: request(
            topic,
            cfg.mqtt_ev_drain_protection_topic@,
            plain,
            json,
            cfg.mqtt_ev_drain_protection_field@,
        ),
        smart_export: request(
            topic,
            cfg.mqtt_smart_export_topic@,
            plain,
            json,
            cfg.mqtt_smart_export_field@,
        ),
        smart_export_excess_solar: request(
            topic,
            cfg.mqtt_smart_export_excess_solar_topic@,
            plain,
            json,
            cfg.mqtt_smart_export_excess_solar_field@,
        ),
    }
}

/// What a message is.
#[derive(Debug, Clone, Copy, PartialEq, Eq, Structural)]
pub enum Message {
    /// A command
    Command,
    /// Requests to the supervisor
    Requests(Requests),
}

/// What a message on a topic is. A command is nothing else.
pub open spec fn message_of(
    cfg: MqttConfig,
    topic: Seq<char>,
    plain: Option<u32>,
    json: Option<JsonView>,
) -> Message {
    if topic == cfg.base_topic@ + "/command"@ {
        Message::Command
    } else {
        Message::Requests(requests_in(cfg, topic, plain, json))
    }
}

/// Reads a message. `payload` is its cleaned text, `plain` the bits of the
/// number that it is, where it is one.
pub fn read_message(cfg: &MqttConfig, topic: &str, payload: &str, plain: Option<u32>) -> (message:
    Message)
    ensures
        message == message_of(*cfg, topic@, plain, document_of(payload@)),
{
    let command = command_topic(&cfg.base_topic);
    if same_text(topic, &command) {
        return Message::Command;
    }
    Message::Requests(
        Requests {
            smart_charge: read_request(
                topic,
                &cfg.mqtt_smart_charge_topic,
                plain,
                payload,
                &cfg.mqtt_smart_charge_field,
            ),
            ev_drain_protection: read_request(
                topic,
                &cfg.mqtt_ev_drain_protection_topic,
                plain,
                payload,
                &cfg.mqtt_ev_drain_protection_field,
            ),
            smart_export: read_request(
                topic,
                &cfg.mqtt_smart_export_topic,
                plain,
                payload,
                &cfg.mqtt_smart_export_field,
            ),
            smart_export_excess_solar: read_request(
                topic,
                &cfg.mqtt_smart_export_excess_solar_topic,
                plain,
                payload,
                &cfg.mqtt_smart_export_excess_solar_field,
            ),
        },
    )
}

/// A request flag after a message.
pub open spec fn flag_after(request: Option<bool>, before: bool) -> bool {
    match request {
        Some(on) => on,
        None => before,
    }
}

/// The time at which a request was last heard, after a message at `at`.
pub open spec fn time_after(
    request: Option<bool>,
    at: Instant,
    before: Option<Instant>,
) -> Option<Instant> {
    match request {
        Some(_) => Some(at),
        None => before,
    }
}

/// The supervisory state once the requests of a message that came at `at` have
/// been taken over.
pub open spec fn requested(sup: SupervisoryState, r: Requests, at: Instant) -> SupervisoryState {
    SupervisoryState {
        smart_charge_request: flag_after(r.smart_charge, sup.smart_charge_request),
        smart_charge_request_update: time_after(
            r.smart_charge,
            at,
            sup.smart_charge_request_update,
        ),
        ev_drain_protection_request: flag_after(
            r.ev_drain_protection,
            sup.ev_drain_protection_request,
        ),
        ev_drain_protection_request_update: time_after(
            r.ev_drain_protection,
            at,
            sup.ev_drain_protection_request_update,
        ),
        smart_export_request: flag_after(r.smart_export, sup.smart_export_request),
        smart_export_request_update: time_after(
            r.smart_export,
            at,
            sup.smart_export_request_update,
        ),
        smart_export_excess_solar_request: flag_after(
            r.smart_export_excess_solar,
            sup.smart_export_excess_solar_request,
        ),
        smart_export_excess_solar_request_update: time_after(
            r.smart_export_excess_solar,
            at,
            sup.smart_export_excess_solar_request_update,
        ),
        ..sup
    }
}

fn take_smart_charge(sup: &mut SupervisoryState, request: Option<bool>, at: Instant)
    ensures
        *final(sup) == (SupervisoryState {
            smart_charge_request: flag_after(request, old(sup).smart_charge_request),
            smart_charge_request_update: time_after(
                request,
                at,
                old(sup).smart_charge_request_update,
            ),
            ..*old(sup)
        }),
{
    if let Some(on) = request {
        sup.set_smart_charge_request(on, Some(at));
    }
}

fn take_ev_drain_protection(sup: &mut SupervisoryState, request: Option<bool>, at: Instant)
    ensures
        *final(sup) == (SupervisoryState {
            ev_drain_protection_request: flag_after(request, old(sup).ev_drain_protection_request),
            ev_drain_protection_request_update: time_after(
                request,
                at,
                old(sup).ev_drain_protection_request_update,
            ),
            ..*old(sup)
        }),
{
    if let Some(on) = request {
        sup.set_ev_drain_protection_request(on, Some(at));
    }
}

fn take_smart_export(sup: &mut SupervisoryState, request: Option<bool>, at: Instant)
    ensures
        *final(sup) == (SupervisoryState {
            smart_export_request: flag_after(request, old(sup).smart_export_request),
            smart_export_request_update: time_after(
                request,
                at,
                old(sup).smart_export_request_update,
            ),
            ..*old(sup)
        }),
{
    if let Some(on) = request {
        sup.set_smart_export_request(on, Some(at));
    }
}

fn take_smart_export_excess_solar(sup: &mut SupervisoryState, request: Option<bool>, at: Instant)
    ensures
        *final(sup) == (SupervisoryState {
            smart_export_excess_solar_request: flag_after(request, old(sup).smart_export_excess_solar_request),
            smart_export_excess_solar_request_update: time_after(
                request,
                at,
                old(sup).smart_export_excess_solar_request_update,
            ),
            ..*old(sup)
        }),
{
    if let Some(on) = request {
        sup.set_smart_export_excess_solar_request(on, Some(at));
    }
}

/// Takes over the requests of a message that came at `at`.
pub fn apply_requests(sup: &mut SupervisoryState, requests: Requests, at: Instant)
    ensures
        *final(sup) == requested(*old(sup), requests, at),
{
    take_smart_charge(sup, requests.smart_charge, at);
    take_ev_drain_protection(sup, requests.ev_drain_protection, at);
    take_smart_export(sup, requests.smart_export, at);
    take_smart_export_excess_solar(sup, requests.smart_export_excess_solar, at);
}

/// Handles a message at the time at which it is called. Whether it is a
/// command, which is left to the caller; anything else is taken over.
pub fn handle_publish(
    sup: &mut SupervisoryState,
    cfg: &MqttConfig,
    topic: &str,
    payload: &str,
    plain: Option<u32>,
) -> (command: bool)
    ensures
        command == (message_of(*cfg, topic@, plain, document_of(payload@)) is Command),
        command ==> *final(sup) == *old(sup),
        !command ==> exists|at: Instant| #[trigger]
            clock_reads(at) && *final(sup) == requested(
                *old(sup),
                requests_in(*cfg, topic@, plain, document_of(payload@)),
                at,
            ),
{
    match read_message(cfg, topic, payload, plain) {
        Message::Command => true,
        Message::Requests(requests) => {
            let at = present();
            apply_requests(sup, requests, at);
            false
        },
    }
}

/// The ages of the four requests in seconds, for those that were ever heard.
#[derive(Debug, Clone, Copy, PartialEq, Eq, Structural)]
pub struct Ages {
    pub smart_charge: Option<u64>,
    pub ev_drain_protection: Option<u64>,
    pub smart_export: Option<u64>,
    pub smart_export_excess_solar: Option<u64>,
}

/// The supervisory state once the requests that are too old have been given
/// up. The times at which they were heard stay.
pub open spec fn expired(sup: SupervisoryState, ages: Ages, timeout: u64) -> SupervisoryState {
    SupervisoryState {
        smart_charge_request: sup.smart_charge_request && !outdated(ages.smart_charge, timeout),
        ev_drain_protection_request: sup.ev_drain_protection_request && !outdated(
            ages.ev_drain_protection,
            timeout,
        ),
        smart_export_request: sup.smart_export_request && !outdated(ages.smart_export, timeout),
        smart_export_excess_solar_request: sup.smart_export_excess_solar_request && !outdated(
            ages.smart_export_excess_solar,
            timeout,
        ),
        ..sup
    }
}

/// Gives up the requests that are older than `timeout` seconds.
pub fn expire_requests(sup: &mut SupervisoryState, ages: Ages, timeout: u64)
    ensures
        *final(sup) == expired(*old(sup), ages, timeout),
{
    if is_outdated(ages.smart_charge, timeout) {
        sup.set_smart_charge_request(false, None);
    }
    if is_outdated(ages.ev_drain_protection, timeout) {
        sup.set_ev_drain_protection_request(false, None);
    }
    if is_outdated(ages.smart_export, timeout) {
        sup.set_smart_export_request(false, None);
    }
    if is_outdated(ages.smart_export_excess_solar, timeout) {
        sup.set_smart_export_excess_solar_request(false, None);
    }
}

/// The ages are what the clock may give for the requests.
pub open spec fn ages_fit(ages: Ages, sup: SupervisoryState) -> bool {
    &&& age_fits(ages.smart_charge, sup.smart_charge_request_update)
    &&& age_fits(ages.ev_drain_protection, sup.ev_drain_protection_request_update)
    &&& age_fits(ages.smart_export, sup.smart_export_request_update)
    &&& age_fits(ages.smart_export_excess_solar, sup.smart_export_excess_solar_request_update)
}

/// Gives up the requests that are, at the time of the call, older than
/// `timeout` seconds.
pub fn check_staleness(sup: &mut SupervisoryState, timeout: u64)
    ensures
        exists|ages: Ages|
            ages_fit(ages, *old(sup)) && *final(sup) == #[trigger] expired(
                *old(sup),
                ages,
                timeout,
            ),
{
    let ages = Ages {
        smart_charge: age_of(sup.smart_charge_request_update),
        ev_drain_protection: age_of(sup.ev_drain_protection_request_update),
        smart_export: age_of(sup.smart_export_request_update),
        smart_export_excess_solar: age_of(sup.smart_export_excess_solar_request_update),
    };
    expire_requests(sup, ages, timeout);
    assert(ages_fit(ages, *old(sup)) && *sup == expired(*old(sup), ages, timeout));
}

/// No message and no lapse of time touches what the supervisor has set to act.
pub proof fn law_messages_leave_active_flags(
    sup: SupervisoryState,
    r: Requests,
    at: Instant,
    ages: Ages,
    timeout: u64,
)
    ensures
        forall|s: SupervisoryState|
            s == requested(sup, r, at) || s == expired(sup, ages, timeout) ==> {
                &&& s.smart_charge_active == sup.smart_charge_active
                &&& s.ev_drain_protection_active == sup.ev_drain_protection_active
                &&& s.smart_export_active == sup.smart_export_active
                &&& #[trigger] s.smart_export_excess_solar_active
                    == sup.smart_export_excess_solar_active
                &&& s.ready_to_drive_active == sup.ready_to_drive_active
                &&& s.off_peak_charging_active == sup.off_peak_charging_active
            },
{
}

/// The lapse of time never sets a request, and leaves one alone that was never
/// heard: no data yet is not the same as stale data.
pub proof fn law_expiry_only_clears(sup: SupervisoryState, ages: Ages, timeout: u64)
    ensures
        ({
            let s = expired(sup, ages, timeout);
            &&& s.smart_charge_request ==> sup.smart_charge_request
            &&& s.ev_drain_protection_request ==> sup.ev_drain_protection_request
            &&& s.smart_export_request ==> sup.smart_export_request
            &&& s.smart_export_excess_solar_request ==> sup.smart_export_excess_solar_request
            &&& ages.smart_charge is None ==> s.smart_charge_request == sup.smart_charge_request
            &&& ages.ev_drain_protection is None ==> s.ev_drain_protection_request
                == sup.ev_drain_protection_request
            &&& ages.smart_export is None ==> s.smart_export_request == sup.smart_export_request
            &&& ages.smart_export_excess_solar is None ==> s.smart_export_excess_solar_request
                == sup.smart_export_excess_solar_request
        }),
{
}

/// A message on a topic that is not heard changes nothing.
pub proof fn law_other_topics_change_nothing(
    sup: SupervisoryState,
    cfg: MqttConfig,
    topic: Seq<char>,
    plain: Option<u32>,
    json: Option<JsonView>,
    at: Instant,
)
    requires
        forall|i: int| 0 <= i < topics_heard(cfg).len() ==> (#[trigger] topics_heard(cfg)[i]).0 != topic,
    ensures
        requested(sup, requests_in(cfg, topic, plain, json), at) == sup,
{
    assert(topics_heard(cfg)[0].0 != topic);
    assert(topics_heard(cfg)[1].0 != topic);
    assert(topics_heard(cfg)[2].0 != topic);
    assert(topics_heard(cfg)[3].0 != topic);
}

/// Every request that was heard longer ago than the time limit is off after
/// the check; one that was heard in time, or never, is left as it was. When it
/// was heard is not forgotten.
pub proof fn law_old_requests_are_given_up(
    sup: &mut SupervisoryState,
    ages: Ages,
    timeout: u64,
)
    requires
        call_ensures(expire_requests, (sup, ages, timeout), ()),
    ensures
        ({
            let s = *final(sup);
            &&& ages.smart_charge matches Some(age) ==> age > timeout ==> !s.smart_charge_request
            &&& ages.smart_charge matches Some(age) ==> age <= timeout ==> s.smart_charge_request
                == old(sup).smart_charge_request
            &&& ages.smart_charge is None ==> s.smart_charge_request == old(sup).smart_charge_request
            &&& s.smart_charge_request_update == old(sup).smart_charge_request_update
            &&& ages.ev_drain_protection matches Some(age) ==> age > timeout ==> !s.ev_drain_protection_request
            &&& ages.ev_drain_protection matches Some(age) ==> age <= timeout ==> s.ev_drain_protection_request
                == old(sup).ev_drain_protection_request
            &&& ages.ev_drain_protection is None ==> s.ev_drain_protection_request == old(sup).ev_drain_protection_request
            &&& s.ev_drain_protection_request_update == old(sup).ev_drain_protection_request_update
            &&& ages.smart_export matches Some(age) ==> age > timeout ==> !s.smart_export_request
            &&& ages.smart_export matches Some(age) ==> age <= timeout ==> s.smart_export_request
                == old(sup).smart_export_request
            &&& ages.smart_export is None ==> s.smart_export_request == old(sup).smart_export_request
            &&& s.smart_export_request_update == old(sup).smart_export_request_update
            &&& ages.smart_export_excess_solar matches Some(age) ==> age > timeout ==> !s.smart_export_excess_solar_request
            &&& ages.smart_export_excess_solar matches Some(age) ==> age <= timeout ==> s.smart_export_excess_solar_request
                == old(sup).smart_export_excess_solar_request
            &&& ages.smart_export_excess_solar is None ==> s.smart_export_excess_solar_request == old(sup).smart_export_excess_solar_request
            &&& s.smart_export_excess_solar_request_update == old(sup).smart_export_excess_solar_request_update
        }),
{
}

/// A message sets each request that it carries, on or off, and notes when it
/// came; a request that it does not carry stays as it was.
pub proof fn law_messages_set_what_they_carry(
    sup: &mut SupervisoryState,
    r: Requests,
    at: Instant,
)
    requires
        call_ensures(apply_requests, (sup, r, at), ()),
    ensures
        ({
            let s = *final(sup);
            &&& r.smart_charge matches Some(on) ==> s.smart_charge_request == on
                && s.smart_charge_request_update == Some(at)
            &&& r.smart_charge is None ==> s.smart_charge_request == old(sup).smart_charge_request
                && s.smart_charge_request_update == old(sup).smart_charge_request_update
            &&& r.ev_drain_protection matches Some(on) ==> s.ev_drain_protection_request == on
                && s.ev_drain_protection_request_update == Some(at)
            &&& r.ev_drain_protection is None ==> s.ev_drain_protection_request == old(sup).ev_drain_protection_request
                && s.ev_drain_protection_request_update == old(sup).ev_drain_protection_request_update
            &&& r.smart_export matches Some(on) ==> s.smart_export_request == on
                && s.smart_export_request_update == Some(at)
            &&& r.smart_export is None ==> s.smart_export_request == old(sup).smart_export_request
                && s.smart_export_request_update == old(sup).smart_export_request_update
            &&& r.smart_export_excess_solar matches Some(on) ==> s.smart_export_excess_solar_request == on
                && s.smart_export_excess_solar_request_update == Some(at)
            &&& r.smart_export_excess_solar is None ==> s.smart_export_excess_solar_request == old(sup).smart_export_excess_solar_request
                && s.smart_export_excess_solar_request_update == old(sup).smart_export_excess_solar_request_update
            &&& s.ready_to_drive_request == old(sup).ready_to_drive_request
            &&& s.off_peak_charging_request == old(sup).off_peak_charging_request
        }),
{
}

/// A request is carried by messages on its own topic and on no other. A plain
/// number switches it on where it is above zero, a bare truth value as it says,
/// and a payload that is neither a number nor a document says nothing.
pub proof fn law_requests_come_on_their_topics(
    cfg: MqttConfig,
    topic: Seq<char>,
    plain: Option<u32>,
    json: Option<JsonView>,
)
    ensures
        ({
            let r = requests_in(cfg, topic, plain, json);
            &&& topic != cfg.mqtt_smart_charge_topic@ ==> r.smart_charge is None
            &&& topic == cfg.mqtt_smart_charge_topic@ ==> {
                &&& plain matches Some(bits) ==> r.smart_charge == Some(0 < bits <= 0x7f80_0000)
                &&& plain is None && json is None ==> r.smart_charge is None
                &&& plain is None ==> (json matches Some(JsonView::Bool(on)) ==> r.smart_charge == Some(on))
            }
            &&& topic != cfg.mqtt_ev_drain_protection_topic@ ==> r.ev_drain_protection is None
            &&& topic == cfg.mqtt_ev_drain_protection_topic@ ==> {
                &&& plain matches Some(bits) ==> r.ev_drain_protection == Some(0 < bits <= 0x7f80_0000)
                &&& plain is None && json is None ==> r.ev_drain_protection is None
                &&& plain is None ==> (json matches Some(JsonView::Bool(on)) ==> r.ev_drain_protection == Some(on))
            }
            &&& topic != cfg.mqtt_smart_export_topic@ ==> r.smart_export is None
            &&& topic == cfg.mqtt_smart_export_topic@ ==> {
                &&& plain matches Some(bits) ==> r.smart_export == Some(0 < bits <= 0x7f80_0000)
                &&& plain is None && json is None ==> r.smart_export is None
                &&& plain is None ==> (json matches Some(JsonView::Bool(on)) ==> r.smart_export == Some(on))
            }
            &&& topic != cfg.mqtt_smart_export_excess_solar_topic@ ==> r.smart_export_excess_solar is None
            &&& topic == cfg.mqtt_smart_export_excess_solar_topic@ ==> {
                &&& plain matches Some(bits) ==> r.smart_export_excess_solar == Some(0 < bits <= 0x7f80_0000)
                &&& plain is None && json is None ==> r.smart_export_excess_solar is None
                &&& plain is None ==> (json matches Some(JsonView::Bool(on)) ==> r.smart_export_excess_solar == Some(on))
            }
        }),
{
}

/// What the part of a document at the end of a path says of a request.
pub open spec fn on_at(json: JsonView, field: Seq<char>) -> Option<bool> {
    match part(json, pieces(field, '.')) {
        Some(JsonView::Bool(on)) => Some(on),
        Some(JsonView::Number(Some(bits))) => Some(
            0x3690_0000_0000_0000 < bits <= 0x7ff0_0000_0000_0000,
        ),
        _ => None,
    }
}

/// In a document each request is looked up under its own field: a truth value
/// there says it outright, a number where it is above zero, and anything else
/// says nothing.
pub proof fn law_requests_stand_under_their_fields(
    cfg: MqttConfig,
    topic: Seq<char>,
    json: JsonView,
)
    requires
        !(json is Bool),
    ensures
        ({
            let r = requests_in(cfg, topic, None, Some(json));
            &&& topic == cfg.mqtt_smart_charge_topic@ ==> r.smart_charge == on_at(json, cfg.mqtt_smart_charge_field@)
            &&& topic == cfg.mqtt_ev_drain_protection_topic@ ==> r.ev_drain_protection == on_at(json, cfg.mqtt_ev_drain_protection_field@)
            &&& topic == cfg.mqtt_smart_export_topic@ ==> r.smart_export == on_at(json, cfg.mqtt_smart_export_field@)
            &&& topic == cfg.mqtt_smart_export_excess_solar_topic@ ==> r.smart_export_excess_solar == on_at(json, cfg.mqtt_smart_export_excess_solar_field@)
        }),
{
}

/// A message is a command exactly on the command topic, which lies under the
/// base topic, whatever else that topic stands for.
pub proof fn law_commands_have_their_topic(
    cfg: MqttConfig,
    topic: Seq<char>,
    plain: Option<u32>,
    json: Option<JsonView>,
)
    ensures
        message_of(cfg, topic, plain, json) is Command <==> topic == cfg.base_topic@
            + "/command"@,
        message_of(cfg, topic, plain, json) matches Message::Requests(r) ==> r == requests_in(
            cfg,
            topic,
            plain,
            json,
        ),
{
}

/// Every topic that carries a request is subscribed to, and so is the command
/// topic, which alone must not miss a message.
pub proof fn law_every_topic_is_subscribed_to(cfg: MqttConfig)
    ensures
        topics_heard(cfg).contains((cfg.mqtt_smart_charge_topic@, false)),
        topics_heard(cfg).contains((cfg.mqtt_ev_drain_protection_topic@, false)),
        topics_heard(cfg).contains((cfg.mqtt_smart_export_topic@, false)),
        topics_heard(cfg).contains((cfg.mqtt_smart_export_excess_solar_topic@, false)),
        topics_heard(cfg).contains((cfg.base_topic@ + "/command"@, true)),
        topics_heard(cfg).len() == 5,
{
    let t = topics_heard(cfg);
    assert(t[0] == (cfg.mqtt_smart_charge_topic@, false));
    assert(t[1] == (cfg.mqtt_ev_drain_protection_topic@, false));
    assert(t[2] == (cfg.mqtt_smart_export_topic@, false));
    assert(t[3] == (cfg.mqtt_smart_export_excess_solar_topic@, false));
    assert(t[4] == (cfg.base_topic@ + "/command"@, true));
}

/// Where a message switches a request on and none follows, the request is off
/// once the time limit has gone by: the broker's silence ends what it asked
/// for.
pub proof fn law_silence_ends_a_request(
    sup: SupervisoryState,
    r: Requests,
    at: Instant,
    ages: Ages,
    timeout: u64,
)
    ensures
        ({
            let s = expired(requested(sup, r, at), ages, timeout);
            &&& ages.smart_charge matches Some(age) ==> age > timeout ==> !s.smart_charge_request
            &&& ages.ev_drain_protection matches Some(age) ==> age > timeout
                ==> !s.ev_drain_protection_request
            &&& ages.smart_export matches Some(age) ==> age > timeout ==> !s.smart_export_request
            &&& ages.smart_export_excess_solar matches Some(age) ==> age > timeout
                ==> !s.smart_export_excess_solar_request
        }),
{
}

/// Giving up old requests leaves what the clock asks for alone.
pub proof fn law_clock_requests_do_not_grow_old(sup: SupervisoryState, ages: Ages, timeout: u64)
    ensures
        expired(sup, ages, timeout).ready_to_drive_request == sup.ready_to_drive_request,
        expired(sup, ages, timeout).off_peak_charging_request == sup.off_peak_charging_request,
{
}

/// Each request has the age of its own last message, and none where it was
/// never heard.
pub proof fn law_each_request_has_its_age(ages: Ages, sup: SupervisoryState)
    requires
        ages_fit(ages, sup),
    ensures
        ages.smart_charge is Some <==> sup.smart_charge_request_update is Some,
        sup.smart_charge_request_update matches Some(t) ==> clock_gives(t, ages.smart_charge->0),
        ages.ev_drain_protection is Some <==> sup.ev_drain_protection_request_update is Some,
        sup.ev_drain_protection_request_update matches Some(t) ==> clock_gives(
            t,
            ages.ev_drain_protection->0,
        ),
        ages.smart_export is Some <==> sup.smart_export_request_update is Some,
        sup.smart_export_request_update matches Some(t) ==> clock_gives(t, ages.smart_export->0),
        ages.smart_export_excess_solar is Some
            <==> sup.smart_export_excess_solar_request_update is Some,
        sup.smart_export_excess_solar_request_update matches Some(t) ==> clock_gives(
            t,
            ages.smart_export_excess_solar->0,
        ),
{
}

/// The three topics of the charger lie under its base topic, each under its own
/// name, and what it says of itself online and offline differs.
pub proof fn law_topics_lie_under_the_base(
    base: &str,
    commands: String,
    status: String,
    available: String,
    up: String,
    down: String,
)
    requires
        call_ensures(command_topic, (base,), commands),
        call_ensures(status_topic, (base,), status),
        call_ensures(availability_topic, (base,), available),
        call_ensures(availability, (true,), up),
        call_ensures(availability, (false,), down),
    ensures
        commands@ == base@ + "/command"@,
        status@ == base@ + "/status"@,
        available@ == base@ + "/availability"@,
        up@ == "online"@,
        down@ == "offline"@,
{
}

/// A command on its topic leaves the requests alone. A plain number on the topic
/// of a request switches it on or off and makes it heard; a request whose topic
/// it is not stays as it was.
pub proof fn law_messages_reach_their_requests(
    sup: &mut SupervisoryState,
    cfg: MqttConfig,
    name: &str,
    payload: &str,
    bits: u32,
    command: bool,
)
    requires
        call_ensures(handle_publish, (sup, &cfg, name, payload, Some(bits)), command),
    ensures
        command <==> name@ == cfg.base_topic@ + "/command"@,
        command ==> *final(sup) == *old(sup),
        !command ==> {
            &&& name@ == cfg.mqtt_smart_charge_topic@ ==> final(sup).smart_charge_request == (0 < bits
                <= 0x7f80_0000) && (final(sup).smart_charge_request_update matches Some(t)
                && clock_reads(t))
            &&& name@ != cfg.mqtt_smart_charge_topic@ ==> final(sup).smart_charge_request
                == old(sup).smart_charge_request && final(sup).smart_charge_request_update
                == old(sup).smart_charge_request_update
            &&& name@ == cfg.mqtt_ev_drain_protection_topic@ ==> final(sup).ev_drain_protection_request == (0 < bits
                <= 0x7f80_0000) && (final(sup).ev_drain_protection_request_update matches Some(t)
                && clock_reads(t))
            &&& name@ != cfg.mqtt_ev_drain_protection_topic@ ==> final(sup).ev_drain_protection_request
                == old(sup).ev_drain_protection_request && final(sup).ev_drain_protection_request_update
                == old(sup).ev_drain_protection_request_update
            &&& name@ == cfg.mqtt_smart_export_topic@ ==> final(sup).smart_export_request == (0 < bits
                <= 0x7f80_0000) && (final(sup).smart_export_request_update matches Some(t)
                && clock_reads(t))
            &&& name@ != cfg.mqtt_smart_export_topic@ ==> final(sup).smart_export_request
                == old(sup).smart_export_request && final(sup).smart_export_request_update
                == old(sup).smart_export_request_update
            &&& name@ == cfg.mqtt_smart_export_excess_solar_topic@ ==> final(sup).smart_export_excess_solar_request == (0 < bits
                <= 0x7f80_0000) && (final(sup).smart_export_excess_solar_request_update matches Some(t)
                && clock_reads(t))
            &&& name@ != cfg.mqtt_smart_export_excess_solar_topic@ ==> final(sup).smart_export_excess_solar_request
                == old(sup).smart_export_excess_solar_request && final(sup).smart_export_excess_solar_request_update
                == old(sup).smart_export_excess_solar_request_update
        },
{
}

/// A check switches each request off where the clock finds it older than the
/// limit, and leaves it as it is otherwise; one that was never heard stays.
pub proof fn law_check_goes_by_the_clock(sup: &mut SupervisoryState, timeout: u64)
    requires
        call_ensures(check_staleness, (sup, timeout), ()),
    ensures
        old(sup).smart_charge_request_update is None ==> final(sup).smart_charge_request
            == old(sup).smart_charge_request,
        old(sup).smart_charge_request_update matches Some(t) ==> exists|age: u64| #[trigger]
            clock_gives(t, age) && final(sup).smart_charge_request == (old(sup).smart_charge_request
                && age <= timeout),
        final(sup).smart_charge_request_update == old(sup).smart_charge_request_update,
        old(sup).ev_drain_protection_request_update is None ==> final(sup).ev_drain_protection_request
            == old(sup).ev_drain_protection_request,
        old(sup).ev_drain_protection_request_update matches Some(t) ==> exists|age: u64| #[trigger]
            clock_gives(t, age) && final(sup).ev_drain_protection_request == (old(sup).ev_drain_protection_request
                && age <= timeout),
        final(sup).ev_drain_protection_request_update == old(sup).ev_drain_protection_request_update,
        old(sup).smart_export_request_update is None ==> final(sup).smart_export_request
            == old(sup).smart_export_request,
        old(sup).smart_export_request_update matches Some(t) ==> exists|age: u64| #[trigger]
            clock_gives(t, age) && final(sup).smart_export_request == (old(sup).smart_export_request
                && age <= timeout),
        final(sup).smart_export_request_update == old(sup).smart_export_request_update,
        old(sup).smart_export_excess_solar_request_update is None ==> final(sup).smart_export_excess_solar_request
            == old(sup).smart_export_excess_solar_request,
        old(sup).smart_export_excess_solar_request_update matches Some(t) ==> exists|age: u64| #[trigger]
            clock_gives(t, age) && final(sup).smart_export_excess_solar_request == (old(sup).smart_export_excess_solar_request
                && age <= timeout),
        final(sup).smart_export_excess_solar_request_update == old(sup).smart_export_excess_solar_request_update,
{
    let before = *old(sup);
    let ages = choose|ages: Ages|
        ages_fit(ages, before) && *final(sup) == #[trigger] expired(before, ages, timeout);
    if let Some(t) = before.smart_charge_request_update {
        assert(clock_gives(t, ages.smart_charge->0));
    }
    if let Some(t) = before.ev_drain_protection_request_update {
        assert(clock_gives(t, ages.ev_drain_protection->0));
    }
    if let Some(t) = before.smart_export_request_update {
        assert(clock_gives(t, ages.smart_export->0));
    }
    if let Some(t) = before.smart_export_excess_solar_request_update {
        assert(clock_gives(t, ages.smart_export_excess_solar->0));
    }
}

/// What is subscribed to is the list of the topics that are heard.
pub proof fn law_subscriptions_are_the_topics_heard(
    cfg: MqttConfig,
    list: Vec<Subscription>,
    i: int,
)
    requires
        call_ensures(subscriptions, (&cfg,), list),
        0 <= i < 5,
    ensures
        list@.len() == 5,
        (list@[i].topic@, list@[i].at_least_once) == topics_heard(cfg)[i],
{
    let shown = list@.map_values(|s: Subscription| subscription_view(s));
    assert(shown.len() == topics_heard(cfg).len());
    assert(shown[i] == topics_heard(cfg)[i]);
}

} // verus!
