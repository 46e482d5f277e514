//! The supervisor: once a second it decides which of the features that the
//! operator has enabled acts. It alone sets the `_active` flags; the charging
//! loop reads them and nothing else.
use std::time::Instant;
use vstd::prelude::*;

use crate::charge_time::{charge_minutes, law_minutes_suffice_for_the_charge, minutes_to_charge};
use crate::clock::{can_parse_hhmm, hhmm, hhmm_fits, hhmm_text, in_daily_window, law_hhmm_read_back, parse_hhmm, within_daily_window, write_hhmm};
use crate::data_io::operator_settings::{default_rtd_start_time, OperatorSettings};
use crate::data_io::staleness::{clock_reads, present};
use crate::global_state::OperationMode;

verus! {

/// All supervisory signals in one place.
///
/// `_request` is the raw signal, from the broker or worked out from the clock.
/// `_active` is set where the supervisor acts on a request.
#[derive(Clone, Copy)]
pub struct SupervisoryState {
    /// Smart charge: a cheap slot
    pub smart_charge_request: bool,
    pub smart_charge_active: bool,
    pub smart_charge_request_update: Option<Instant>,
    /// EV drain protection: hold at zero current
    pub ev_drain_protection_request: bool,
    pub ev_drain_protection_active: bool,
    pub ev_drain_protection_request_update: Option<Instant>,
    /// Smart export: a favourable export price
    pub smart_export_request: bool,
    pub smart_export_active: bool,
    pub smart_export_request_update: Option<Instant>,
    /// Smart export of excess solar power
    pub smart_export_excess_solar_request: bool,
    pub smart_export_excess_solar_active: bool,
    pub smart_export_excess_solar_request_update: Option<Instant>,
    /// Ready to drive: the clock is within the worked out start and two hours
    /// past the end time
    pub ready_to_drive_request: bool,
    pub ready_to_drive_active: bool,
    /// Off-peak charging: the clock is within the off-peak window
    pub off_peak_charging_request: bool,
    pub off_peak_charging_active: bool,
}

/// The state in which nothing is requested and nothing acts.
pub open spec fn quiet() -> SupervisoryState {
    SupervisoryState {
        smart_charge_request: false,
        smart_charge_active: false,
        smart_charge_request_update: None,
        ev_drain_protection_request: false,
        ev_drain_protection_active: false,
        ev_drain_protection_request_update: None,
        smart_export_request: false,
        smart_export_active: false,
        smart_export_request_update: None,
        smart_export_excess_solar_request: false,
        smart_export_excess_solar_active: false,
        smart_export_excess_solar_request_update: None,
        ready_to_drive_request: false,
        ready_to_drive_active: false,
        off_peak_charging_request: false,
        off_peak_charging_active: false,
    }
}

impl Default for SupervisoryState {
    fn default() -> (s: Self)
        ensures
            s == quiet(),
    {
        SupervisoryState {
            smart_charge_request: false,
            smart_charge_active: false,
            smart_charge_request_update: None,
            ev_drain_protection_request: false,
            ev_drain_protection_active: false,
            ev_drain_protection_request_update: None,
            smart_export_request: false,
            smart_export_active: false,
            smart_export_request_update: None,
            smart_export_excess_solar_request: false,
            smart_export_excess_solar_active: false,
            smart_export_excess_solar_request_update: None,
            ready_to_drive_request: false,
            ready_to_drive_active: false,
            off_peak_charging_request: false,
            off_peak_charging_active: false,
        }
    }
}

/// The time of the last message once a request is set: the time at which it
/// came, or, where no message stands behind it, the time known before.
pub open spec fn heard(at: Option<Instant>, before: Option<Instant>) -> Option<Instant> {
    if at is Some {
        at
    } else {
        before
    }
}

fn latest(at: Option<Instant>, before: Option<Instant>) -> (r: Option<Instant>)
    ensures
        r == heard(at, before),
{
    if at.is_some() {
        at
    } else {
        before
    }
}

fn arrival(stale: bool) -> (at: Option<Instant>)
    ensures
        at is Some == !stale,
        !stale ==> clock_reads(at->0),
{
    if stale {
        None
    } else {
        Some(present())
    }
}

impl SupervisoryState {
    /// Sets the smart charge request; `at` is when the message came, if one did.
    pub fn set_smart_charge_request(&mut self, enabled: bool, at: Option<Instant>)
        ensures
            *final(self) == (SupervisoryState {
                smart_charge_request: enabled,
                smart_charge_request_update: heard(at, old(self).smart_charge_request_update),
                ..*old(self)
            }),
    {
        self.smart_charge_request = enabled;
        self.smart_charge_request_update = latest(at, self.smart_charge_request_update);
    }

    /// Sets the smart charge request and, unless it was given up as stale,
    /// notes the present as the time at which it was heard.
    pub fn update_smart_charge_request(&mut self, enabled: bool, stale: bool)
        ensures
            *final(self) == (SupervisoryState {
                smart_charge_request: enabled,
                smart_charge_request_update: final(self).smart_charge_request_update,
                ..*old(self)
            }),
            stale ==> final(self).smart_charge_request_update
                == old(self).smart_charge_request_update,
            !stale ==> final(self).smart_charge_request_update is Some,
            !stale ==> clock_reads(final(self).smart_charge_request_update->0),
    {
        self.set_smart_charge_request(enabled, arrival(stale));
    }

    /// Sets the drain protection request; `at` is when the message came, if
    /// one did.
    pub fn set_ev_drain_protection_request(&mut self, enabled: bool, at: Option<Instant>)
        ensures
            *final(self) == (SupervisoryState {
                ev_drain_protection_request: enabled,
                ev_drain_protection_request_update: heard(
                    at,
                    old(self).ev_drain_protection_request_update,
                ),
                ..*old(self)
            }),
    {
        self.ev_drain_protection_request = enabled;
        self.ev_drain_protection_request_update = latest(
            at,
            self.ev_drain_protection_request_update,
        );
    }

    /// Sets the drain protection request and, unless it was given up as stale,
    /// notes the present as the time at which it was heard.
    pub fn update_ev_drain_protection_request(&mut self, enabled: bool, stale: bool)
        ensures
            *final(self) == (SupervisoryState {
                ev_drain_protection_request: enabled,
                ev_drain_protection_request_update: final(self).ev_drain_protection_request_update,
                ..*old(self)
            }),
            stale ==> final(self).ev_drain_protection_request_update
                == old(self).ev_drain_protection_request_update,
            !stale ==> final(self).ev_drain_protection_request_update is Some,
            !stale ==> clock_reads(final(self).ev_drain_protection_request_update->0),
    {
        self.set_ev_drain_protection_request(enabled, arrival(stale));
    }

    /// Sets the smart export request; `at` is when the message came, if one did.
    pub fn set_smart_export_request(&mut self, enabled: bool, at: Option<Instant>)
        ensures
            *final(self) == (SupervisoryState {
                smart_export_request: enabled,
                smart_export_request_update: heard(at, old(self).smart_export_request_update),
                ..*old(self)
            }),
    {
        self.smart_export_request = enabled;
        self.smart_export_request_update = latest(at, self.smart_export_request_update);
    }

    /// Sets the smart export request and, unless it was given up as stale,
    /// notes the present as the time at which it was heard.
    pub fn update_smart_export_request(&mut self, enabled: bool, stale: bool)
        ensures
            *final(self) == (SupervisoryState {
                smart_export_request: enabled,
                smart_export_request_update: final(self).smart_export_request_update,
                ..*old(self)
            }),
            stale ==> final(self).smart_export_request_update
                == old(self).smart_export_request_update,
            !stale ==> final(self).smart_export_request_update is Some,
            !stale ==> clock_reads(final(self).smart_export_request_update->0),
    {
        self.set_smart_export_request(enabled, arrival(stale));
    }

    /// Sets the excess solar request; `at` is when the message came, if one did.
    pub fn set_smart_export_excess_solar_request(&mut self, enabled: bool, at: Option<Instant>)
        ensures
            *final(self) == (SupervisoryState {
                smart_export_excess_solar_request: enabled,
                smart_export_excess_solar_request_update: heard(
                    at,
                    old(self).smart_export_excess_solar_request_update,
                ),
                ..*old(self)
            }),
    {
        self.smart_export_excess_solar_request = enabled;
        self.smart_export_excess_solar_request_update = latest(
            at,
            self.smart_export_excess_solar_request_update,
        );
    }

    /// Sets the excess solar request and, unless it was given up as stale,
    /// notes the present as the time at which it was heard.
    pub fn update_smart_export_excess_solar_request(&mut self, enabled: bool, stale: bool)
        ensures
            *final(self) == (SupervisoryState {
                smart_export_excess_solar_request: enabled,
                smart_export_excess_solar_request_update: final(self).smart_export_excess_solar_request_update,
                ..*old(self)
            }),
            stale ==> final(self).smart_export_excess_solar_request_update
                == old(self).smart_export_excess_solar_request_update,
            !stale ==> final(self).smart_export_excess_solar_request_update is Some,
            !stale ==> clock_reads(final(self).smart_export_excess_solar_request_update->0),
    {
        self.set_smart_export_excess_solar_request(enabled, arrival(stale));
    }
}

/// Ready-to-drive charging and off-peak charging suppress what is requested
/// from outside.
pub open spec fn clock_driven(sup: SupervisoryState) -> bool {
    sup.ready_to_drive_active || sup.off_peak_charging_active
}

/// One of the two exports acts.
pub open spec fn exporting(sup: SupervisoryState) -> bool {
    sup.smart_export_active || sup.smart_export_excess_solar_active
}

/// Whether smart charge should act: a cheap slot is requested, the operator
/// has enabled it, the vehicle is in load matching, the battery is below the
/// charge limit, and nothing of higher priority acts.
pub open spec fn smart_charge_due(
    sup: SupervisoryState,
    settings: OperatorSettings,
    mode: OperationMode,
    soc: u8,
) -> bool {
    &&& sup.smart_charge_request
    &&& settings.smart_charge
    &&& mode is V2h
    &&& soc < settings.charge_soc_limit
    &&& !clock_driven(sup)
    &&& !exporting(sup)
}

/// Decides whether smart charge acts.
pub fn evaluate_smart_charge(
    sup: &mut SupervisoryState,
    settings: &OperatorSettings,
    mode: OperationMode,
    soc: u8,
)
    ensures
        *final(sup) == (SupervisoryState {
            smart_charge_active: smart_charge_due(*old(sup), *settings, mode, soc),
            ..*old(sup)
        }),
{
    if sup.ready_to_drive_active || sup.off_peak_charging_active {
        sup.smart_charge_active = false;
        return ;
    }
    if !sup.smart_charge_request || !settings.smart_charge || !mode.is_v2h() {
        sup.smart_charge_active = false;
        return ;
    }
    // Do not charge if already at the target
    if soc >= settings.charge_soc_limit {
        sup.smart_charge_active = false;
        return ;
    }
    // Export takes priority: do not charge during an active export slot
    if sup.smart_export_active || sup.smart_export_excess_solar_active {
        sup.smart_charge_active = false;
        return ;
    }
    sup.smart_charge_active = true;
}

/// Whether smart export should act. The SoC floor is no condition: the
/// charging loop holds at zero current there, which keeps the session alive
/// for the rest of the slot.
pub open spec fn smart_export_due(
    sup: SupervisoryState,
    settings: OperatorSettings,
    mode: OperationMode,
) -> bool {
    sup.smart_export_request && settings.smart_export && mode is V2h && !clock_driven(sup)
}

/// Decides whether smart export acts.
pub fn evaluate_smart_export(
    sup: &mut SupervisoryState,
    settings: &OperatorSettings,
    mode: OperationMode,
)
    ensures
        *final(sup) == (SupervisoryState {
            smart_export_active: smart_export_due(*old(sup), *settings, mode),
            ..*old(sup)
        }),
{
    if sup.ready_to_drive_active || sup.off_peak_charging_active {
        sup.smart_export_active = false;
        return ;
    }
    if !sup.smart_export_request || !settings.smart_export || !mode.is_v2h() {
        sup.smart_export_active = false;
        return ;
    }
    sup.smart_export_active = true;
}

/// Whether the export of excess solar power should act.
pub open spec fn smart_export_excess_solar_due(
    sup: SupervisoryState,
    settings: OperatorSettings,
    mode: OperationMode,
) -> bool {
    &&& sup.smart_export_excess_solar_request
    &&& settings.smart_export_excess_solar
    &&& mode is V2h
    &&& !clock_driven(sup)
}

/// Decides whether the export of excess solar power acts.
pub fn evaluate_smart_export_excess_solar(
    sup: &mut SupervisoryState,
    settings: &OperatorSettings,
    mode: OperationMode,
)
    ensures
        *final(sup) == (SupervisoryState {
            smart_export_excess_solar_active: smart_export_excess_solar_due(
                *old(sup),
                *settings,
                mode,
            ),
            ..*old(sup)
        }),
{
    if sup.ready_to_drive_active || sup.off_peak_charging_active {
        sup.smart_export_excess_solar_active = false;
        return ;
    }
    if !sup.smart_export_excess_solar_request || !settings.smart_export_excess_solar
        || !mode.is_v2h() {
        sup.smart_export_excess_solar_active = false;
        return ;
    }
    sup.smart_export_excess_solar_active = true;
}

/// Whether drain protection should act: it holds the current at zero, and
/// yields to ready-to-drive charging, to both exports and to smart charge.
pub open spec fn ev_drain_protection_due(
    sup: SupervisoryState,
    settings: OperatorSettings,
    mode: OperationMode,
) -> bool {
    &&& sup.ev_drain_protection_request
    &&& settings.ev_drain_protection
    &&& mode is V2h
    &&& !sup.ready_to_drive_active
    &&& !exporting(sup)
    &&& !sup.smart_charge_active
}

/// Decides whether drain protection acts. It comes after the exports and
/// smart charge, whose flags it reads.
pub fn evaluate_ev_drain_protection(
    sup: &mut SupervisoryState,
    settings: &OperatorSettings,
    mode: OperationMode,
)
    ensures
        *final(sup) == (SupervisoryState {
            ev_drain_protection_active: ev_drain_protection_due(*old(sup), *settings, mode),
            ..*old(sup)
        }),
{
    if sup.ready_to_drive_active {
        sup.ev_drain_protection_active = false;
        return ;
    }
    if !sup.ev_drain_protection_request || !settings.ev_drain_protection || !mode.is_v2h() {
        sup.ev_drain_protection_active = false;
        return ;
    }
    // Yield to higher-priority signals
    if sup.smart_export_active || sup.smart_export_excess_solar_active || sup.smart_charge_active {
        sup.ev_drain_protection_active = false;
        return ;
    }
    sup.ev_drain_protection_active = true;
}

/// The off-peak window holds `minute`; `None` where the settings name no window.
pub open spec fn in_off_peak(settings: OperatorSettings, minute: u32) -> Option<bool> {
    match (hhmm(settings.off_peak_start@), hhmm(settings.off_peak_end@)) {
        (Some(start), Some(end)) => Some(in_daily_window(start, end, minute as int)),
        _ => None,
    }
}

/// What an evaluation of off-peak charging leads to. While the vehicle is
/// made ready to drive the request is not looked at.
pub open spec fn off_peak_evaluated(
    sup: SupervisoryState,
    settings: OperatorSettings,
    mode: OperationMode,
    minute: u32,
) -> SupervisoryState {
    if sup.ready_to_drive_active {
        SupervisoryState { off_peak_charging_active: false, ..sup }
    } else {
        let request = in_off_peak(settings, minute) == Some(true);
        SupervisoryState {
            off_peak_charging_request: request,
            off_peak_charging_active: request && settings.off_peak_charging && mode is V2h,
            ..sup
        }
    }
}

/// Decides whether off-peak charging is requested by the clock and whether it
/// acts. `minute` is the present minute of the day. The SoC is no condition:
/// the charging loop holds at zero current once the limit is reached.
pub fn evaluate_off_peak_charging(
    sup: &mut SupervisoryState,
    settings: &OperatorSettings,
    mode: OperationMode,
    minute: u32,
)
    requires
        old(sup).ready_to_drive_active || (hhmm_fits(settings.off_peak_start@) && hhmm_fits(
            settings.off_peak_end@,
        )),
    ensures
        *final(sup) == off_peak_evaluated(*old(sup), *settings, mode, minute),
{
    if sup.ready_to_drive_active {
        sup.off_peak_charging_active = false;
    } else {
        let request = off_peak_now(settings, minute);
        sup.off_peak_charging_request = request;
        sup.off_peak_charging_active = request && settings.off_peak_charging && mode.is_v2h();
    }
}

/// Whether the off-peak window that is set holds `minute`. Times that cannot
/// be read make no window.
fn off_peak_now(settings: &OperatorSettings, minute: u32) -> (inside: bool)
    requires
        hhmm_fits(settings.off_peak_start@),
        hhmm_fits(settings.off_peak_end@),
    ensures
        inside == (in_off_peak(*settings, minute) == Some(true)),
{
    match (parse_hhmm(&settings.off_peak_start), parse_hhmm(&settings.off_peak_end)) {
        (Some(start), Some(end)) => within_daily_window(start, end, minute),
        _ => false,
    }
}

/// The moment of an evaluation.
#[derive(Clone, Copy)]
pub struct Moment {
    /// Minute of the day
    pub minute: u32,
    /// Day of the week: Monday is 0, Sunday is 6
    pub weekday: u8,
}

/// The 32-bit signed number with the bits of `n`.
pub open spec fn as_signed(n: int) -> int {
    if n <= i32::MAX {
        n
    } else {
        n - 0x1_0000_0000
    }
}

/// The minute of the day at which charging starts, so that it ends at `end`
/// after `minutes`.
pub open spec fn start_minute(end: int, minutes: int) -> int {
    (as_signed(end) - minutes) % 1440
}

/// Whether the vehicle is being made ready: from the start to two hours after
/// the end, on a day that is selected. Where that runs over midnight, the part
/// before midnight goes by the next day's selection, the part after it by the
/// day's own.
pub open spec fn ready_window(
    today: bool,
    tomorrow: bool,
    start: int,
    end: int,
    minute: int,
) -> bool {
    let until = (end + 120) % 1440;
    if start <= until {
        today && start <= minute < until
    } else {
        (minute >= start && tomorrow) || (minute < until && today)
    }
}

/// Whether the end time that is set can be counted with.
pub open spec fn end_time_counts(settings: OperatorSettings, soc: u8) -> bool {
    hhmm(settings.ready_to_drive_end_time@) matches Some(end) ==> {
        &&& end + 120 <= u32::MAX
        &&& as_signed(end) - minutes_to_charge(
            settings.ready_to_drive_soc,
            soc,
            settings.v2h_max_amps,
        ) >= i32::MIN
    }
}

/// The start of the charge that makes the vehicle ready.
pub open spec fn ready_start(settings: OperatorSettings, soc: u8) -> Option<int> {
    match hhmm(settings.ready_to_drive_end_time@) {
        Some(end) => Some(
            start_minute(
                end,
                minutes_to_charge(settings.ready_to_drive_soc, soc, settings.v2h_max_amps),
            ),
        ),
        None => None,
    }
}

/// Whether the clock asks for the vehicle to be made ready.
pub open spec fn ready_request(settings: OperatorSettings, soc: u8, at: Moment) -> bool {
    match (ready_start(settings, soc), hhmm(settings.ready_to_drive_end_time@)) {
        (Some(start), Some(end)) => ready_window(
            settings.ready_to_drive_days@[at.weekday as int],
            settings.ready_to_drive_days@[(at.weekday + 1) % 7],
            start,
            end,
            at.minute as int,
        ),
        _ => false,
    }
}

/// The start time as it is shown.
pub open spec fn start_time_text(settings: OperatorSettings, soc: u8) -> Seq<char> {
    match ready_start(settings, soc) {
        Some(start) => hhmm_text(start),
        None => "--:--"@,
    }
}

/// What an evaluation of ready-to-drive charging leads to.
pub open spec fn ready_evaluated(
    sup: SupervisoryState,
    settings: OperatorSettings,
    mode: OperationMode,
    soc: u8,
    at: Moment,
) -> SupervisoryState {
    let request = ready_request(settings, soc, at);
    SupervisoryState {
        ready_to_drive_request: request,
        ready_to_drive_active: request && settings.ready_to_drive && mode is V2h,
        ..sup
    }
}

/// Whether `after` is `before` but for the start time, which reads `text`.
pub open spec fn only_start_time(
    before: OperatorSettings,
    after: OperatorSettings,
    text: Seq<char>,
) -> bool {
    &&& after.ready_to_drive_start_time@ == text
    &&& after == (OperatorSettings {
        ready_to_drive_start_time: after.ready_to_drive_start_time,
        ..before
    })
}

/// Works out the start of a charge that lasts `minutes` and ends at `end`.
fn start_of_charge(end: u32, minutes: u32) -> (start: u32)
    requires
        minutes <= 0x20_0000,
    ensures
        start == start_minute(end as int, minutes as int),
        start < 1440,
{
    let signed: i64 = if end <= 0x7fff_ffff {
        end as i64
    } else {
        end as i64 - 0x1_0000_0000
    };
    // A whole number of days on top keeps the dividend positive
    ((signed - minutes as i64 + 1440 * 4_000_000) as u64 % 1440) as u32
}

/// Decides whether the vehicle is to be made ready to drive, and shows the
/// start time. It comes first: while it acts, everything else is suppressed.
pub fn evaluate_ready_to_drive(
    sup: &mut SupervisoryState,
    settings: &mut OperatorSettings,
    mode: OperationMode,
    soc: u8,
    at: Moment,
)
    requires
        at.weekday < 7,
        end_time_counts(*old(settings), soc),
    ensures
        *final(sup) == ready_evaluated(*old(sup), *old(settings), mode, soc, at),
        only_start_time(*old(settings), *final(settings), start_time_text(*old(settings), soc)),
{
    let (request, text) = ready_now(settings, soc, at);
    sup.ready_to_drive_request = request;
    sup.ready_to_drive_active = request && settings.ready_to_drive && mode.is_v2h();
    settings.ready_to_drive_start_time = text;
}

/// Whether the clock asks for the vehicle to be made ready, and the start time
/// as it is shown.
fn ready_now(settings: &OperatorSettings, soc: u8, at: Moment) -> (r: (bool, String))
    requires
        at.weekday < 7,
        end_time_counts(*settings, soc),
    ensures
        r.0 == ready_request(*settings, soc, at),
        r.1@ == start_time_text(*settings, soc),
{
    let end = match parse_hhmm(&settings.ready_to_drive_end_time) {
        Some(e) => e,
        None => {
            return (false, default_rtd_start_time());
        },
    };
    let minutes = charge_minutes(settings.ready_to_drive_soc, soc, settings.v2h_max_amps);
    let start = start_of_charge(end, minutes);
    let today = settings.ready_to_drive_days[at.weekday as usize];
    let tomorrow = settings.ready_to_drive_days[(at.weekday as usize + 1) % 7];
    (within_ready_window(today, tomorrow, start, end, at.minute), write_hhmm(start))
}

/// Whether `minute` lies between the start and two hours after the end, on a
/// day that is selected.
fn within_ready_window(today: bool, tomorrow: bool, start: u32, end: u32, minute: u32) -> (inside:
    bool)
    requires
        end + 120 <= u32::MAX,
    ensures
        inside == ready_window(today, tomorrow, start as int, end as int, minute as int),
{
    let until: u32 = (end + 120) % 1440;
    if start <= until {
        today && minute >= start && minute < until
    } else {
        (minute >= start && tomorrow) || (minute < until && today)
    }
}

/// Whether the end time that is set can be counted with.
pub fn can_count_end_time(settings: &OperatorSettings, soc: u8) -> (yes: bool)
    ensures
        yes == end_time_counts(*settings, soc),
{
    if !can_parse_hhmm(&settings.ready_to_drive_end_time) {
        return false;
    }
    let minutes = charge_minutes(settings.ready_to_drive_soc, soc, settings.v2h_max_amps);
    match parse_hhmm(&settings.ready_to_drive_end_time) {
        Some(end) => {
            let signed: i64 = if end <= 0x7fff_ffff {
                end as i64
            } else {
                end as i64 - 0x1_0000_0000
            };
            end <= 0xffff_ffff - 120 && signed - minutes as i64 >= -0x8000_0000
        },
        None => true,
    }
}

/// Whether all times that a cycle of the supervisor reads can be counted with.
pub open spec fn cycle_counts(
    settings: OperatorSettings,
    mode: OperationMode,
    soc: u8,
    at: Moment,
) -> bool {
    &&& at.weekday < 7
    &&& end_time_counts(settings, soc)
    &&& (ready_request(settings, soc, at) && settings.ready_to_drive && mode is V2h) || (hhmm_fits(
        settings.off_peak_start@,
    ) && hhmm_fits(settings.off_peak_end@))
}

/// Whether `supervise` can run with these values.
pub fn can_supervise(settings: &OperatorSettings, mode: OperationMode, soc: u8, at: Moment) -> (yes:
    bool)
    ensures
        yes == cycle_counts(*settings, mode, soc, at),
{
    if at.weekday >= 7 || !can_count_end_time(settings, soc) {
        return false;
    }
    let (request, _text) = ready_now(settings, soc, at);
    (request && settings.ready_to_drive && mode.is_v2h()) || (can_parse_hhmm(
        &settings.off_peak_start,
    ) && can_parse_hhmm(&settings.off_peak_end))
}

/// What one cycle of the supervisor leads to: the features are looked at from
/// the highest priority to the lowest, each with the flags of those before it.
pub open spec fn supervised(
    sup: SupervisoryState,
    settings: OperatorSettings,
    mode: OperationMode,
    soc: u8,
    at: Moment,
) -> SupervisoryState {
    let s1 = ready_evaluated(sup, settings, mode, soc, at);
    let s2 = off_peak_evaluated(s1, settings, mode, at.minute);
    let s3 = SupervisoryState {
        smart_export_active: smart_export_due(s2, settings, mode),
        ..s2
    };
    let s4 = SupervisoryState {
        smart_export_excess_solar_active: smart_export_excess_solar_due(s3, settings, mode),
        ..s3
    };
    let s5 = SupervisoryState {
        smart_charge_active: smart_charge_due(s4, settings, mode, soc),
        ..s4
    };
    SupervisoryState {
        ev_drain_protection_active: ev_drain_protection_due(s5, settings, mode),
        ..s5
    }
}

/// One cycle of the supervisor.
pub fn supervise(
    sup: &mut SupervisoryState,
    settings: &mut OperatorSettings,
    mode: OperationMode,
    soc: u8,
    at: Moment,
)
    requires
        cycle_counts(*old(settings), mode, soc, at),
    ensures
        *final(sup) == supervised(*old(sup), *old(settings), mode, soc, at),
        only_start_time(*old(settings), *final(settings), start_time_text(*old(settings), soc)),
{
    evaluate_ready_to_drive(sup, settings, mode, soc, at);
    evaluate_off_peak_charging(sup, settings, mode, at.minute);
    evaluate_smart_export(sup, settings, mode);
    evaluate_smart_export_excess_solar(sup, settings, mode);
    evaluate_smart_charge(sup, settings, mode, soc);
    evaluate_ev_drain_protection(sup, settings, mode);
}

/// No feature acts.
pub open spec fn nothing_acts(sup: SupervisoryState) -> bool {
    &&& !sup.ready_to_drive_active
    &&& !sup.off_peak_charging_active
    &&& !sup.smart_export_active
    &&& !sup.smart_export_excess_solar_active
    &&& !sup.smart_charge_active
    &&& !sup.ev_drain_protection_active
}

/// After a cycle nothing acts unless the vehicle is in load matching.
pub proof fn law_nothing_acts_outside_v2h(
    sup: SupervisoryState,
    settings: OperatorSettings,
    mode: OperationMode,
    soc: u8,
    at: Moment,
)
    requires
        !(mode is V2h),
    ensures
        nothing_acts(supervised(sup, settings, mode, soc, at)),
{
}

/// After a cycle a feature acts only where it is requested and the operator
/// has enabled it.
pub proof fn law_acts_only_when_requested_and_enabled(
    sup: SupervisoryState,
    settings: OperatorSettings,
    mode: OperationMode,
    soc: u8,
    at: Moment,
)
    ensures
        ({
            let s = supervised(sup, settings, mode, soc, at);
            &&& s.ready_to_drive_active ==> s.ready_to_drive_request && settings.ready_to_drive
            &&& s.off_peak_charging_active ==> s.off_peak_charging_request
                && settings.off_peak_charging
            &&& s.smart_export_active ==> s.smart_export_request && settings.smart_export
            &&& s.smart_export_excess_solar_active ==> s.smart_export_excess_solar_request
                && settings.smart_export_excess_solar
            &&& s.smart_charge_active ==> s.smart_charge_request && settings.smart_charge
            &&& s.ev_drain_protection_active ==> s.ev_drain_protection_request
                && settings.ev_drain_protection
        }),
{
}

/// While the vehicle is made ready to drive, every other feature is
/// suppressed.
pub proof fn law_ready_to_drive_suppresses_the_rest(
    sup: SupervisoryState,
    settings: OperatorSettings,
    mode: OperationMode,
    soc: u8,
    at: Moment,
)
    ensures
        ({
            let s = supervised(sup, settings, mode, soc, at);
            s.ready_to_drive_active ==> nothing_acts(
                SupervisoryState { ready_to_drive_active: false, ..s },
            )
        }),
{
}

/// The order of priority: off-peak charging excludes the exports and smart
/// charge, the exports exclude smart charge, and all of these but off-peak
/// charging exclude drain protection.
pub proof fn law_priorities(
    sup: SupervisoryState,
    settings: OperatorSettings,
    mode: OperationMode,
    soc: u8,
    at: Moment,
)
    ensures
        ({
            let s = supervised(sup, settings, mode, soc, at);
            &&& s.off_peak_charging_active ==> !exporting(s) && !s.smart_charge_active
            &&& exporting(s) ==> !s.smart_charge_active && !s.ev_drain_protection_active
            &&& s.smart_charge_active ==> !s.ev_drain_protection_active
        }),
{
}

/// Smart charge never acts at or above the charge limit.
pub proof fn law_smart_charge_stops_at_the_limit(
    sup: SupervisoryState,
    settings: OperatorSettings,
    mode: OperationMode,
    soc: u8,
    at: Moment,
)
    requires
        soc >= settings.charge_soc_limit,
    ensures
        !supervised(sup, settings, mode, soc, at).smart_charge_active,
{
}

/// A second cycle on the same values changes nothing.
pub proof fn law_supervision_settles(
    sup: SupervisoryState,
    settings: OperatorSettings,
    mode: OperationMode,
    soc: u8,
    at: Moment,
)
    ensures
        supervised(supervised(sup, settings, mode, soc, at), settings, mode, soc, at) == supervised(
            sup,
            settings,
            mode,
            soc,
            at,
        ),
{
}

/// A cycle leaves what comes from the broker as it is.
pub proof fn law_supervision_keeps_outside_requests(
    sup: SupervisoryState,
    settings: OperatorSettings,
    mode: OperationMode,
    soc: u8,
    at: Moment,
)
    ensures
        ({
            let s = supervised(sup, settings, mode, soc, at);
            &&& s.smart_charge_request == sup.smart_charge_request
            &&& s.smart_export_request == sup.smart_export_request
            &&& s.smart_export_excess_solar_request == sup.smart_export_excess_solar_request
            &&& s.ev_drain_protection_request == sup.ev_drain_protection_request
            &&& s.smart_charge_request_update == sup.smart_charge_request_update
            &&& s.smart_export_request_update == sup.smart_export_request_update
            &&& s.smart_export_excess_solar_request_update
                == sup.smart_export_excess_solar_request_update
            &&& s.ev_drain_protection_request_update == sup.ev_drain_protection_request_update
        }),
{
}

/// The start time lies before the end time by the minutes that the charge
/// takes, counted round the clock.
pub proof fn law_charge_ends_at_the_end_time(end: int, minutes: int)
    requires
        0 <= end <= i32::MAX,
    ensures
        0 <= start_minute(end, minutes) < 1440,
        (start_minute(end, minutes) + minutes) % 1440 == end % 1440,
{
}

/// With every day selected, the window runs from the start to two hours after
/// the end, and no further: it holds the minutes that follow the start within
/// the charge and the two hours.
pub proof fn law_ready_window_is_charge_and_two_hours(end: int, minutes: int, minute: int)
    requires
        0 <= end <= i32::MAX,
        0 <= minutes < 1320,
        0 <= minute < 1440,
    ensures
        ready_window(true, true, start_minute(end, minutes), end, minute) == ((minute
            - start_minute(end, minutes)) % 1440 < minutes + 120),
{
}

/// After a cycle each feature acts exactly where it is requested and enabled,
/// the vehicle is in load matching, and nothing of higher priority acts: what
/// may act does act.
pub proof fn law_what_may_act_acts(
    sup: &mut SupervisoryState,
    current: &mut OperatorSettings,
    mode: OperationMode,
    soc: u8,
    at: Moment,
)
    requires
        call_ensures(supervise, (sup, current, mode, soc, at), ()),
    ensures
        ({
            let s = *final(sup);
            let settings = *old(current);
            let v2h = mode == OperationMode::V2h;
            &&& s.ready_to_drive_active <==> s.ready_to_drive_request && settings.ready_to_drive
                && v2h
            &&& s.off_peak_charging_active <==> s.off_peak_charging_request
                && settings.off_peak_charging && v2h && !s.ready_to_drive_active
            &&& s.smart_export_active <==> old(sup).smart_export_request && settings.smart_export && v2h
                && !s.ready_to_drive_active && !s.off_peak_charging_active
            &&& s.smart_export_excess_solar_active <==> old(sup).smart_export_excess_solar_request
                && settings.smart_export_excess_solar && v2h && !s.ready_to_drive_active
                && !s.off_peak_charging_active
            &&& s.smart_charge_active <==> old(sup).smart_charge_request && settings.smart_charge && v2h
                && soc < settings.charge_soc_limit && !s.ready_to_drive_active
                && !s.off_peak_charging_active && !s.smart_export_active
                && !s.smart_export_excess_solar_active
            &&& s.ev_drain_protection_active <==> old(sup).ev_drain_protection_request
                && settings.ev_drain_protection && v2h && !s.ready_to_drive_active
                && !s.smart_export_active && !s.smart_export_excess_solar_active
                && !s.smart_charge_active
        }),
{
}

/// Smart charge acts on every cheap slot that it may: with the request, the
/// switch, load matching and a battery below the charge limit, and nothing of
/// higher priority acting, it acts, whatever the other settings are.
pub proof fn law_smart_charge_takes_its_slot(
    sup: SupervisoryState,
    settings: OperatorSettings,
    soc: u8,
)
    requires
        sup.smart_charge_request,
        settings.smart_charge,
        soc < settings.charge_soc_limit,
        !sup.ready_to_drive_active,
        !sup.off_peak_charging_active,
        !sup.smart_export_active,
        !sup.smart_export_excess_solar_active,
    ensures
        smart_charge_due(sup, settings, OperationMode::V2h, soc),
{
}

/// The off-peak window opens by the clock alone: where the vehicle is not
/// being made ready, off-peak charging is requested exactly for the minutes
/// that follow the start within the length of the window. Times that cannot be
/// read request nothing.
pub proof fn law_off_peak_request_follows_the_clock(
    sup: SupervisoryState,
    settings: OperatorSettings,
    mode: OperationMode,
    soc: u8,
    at: Moment,
    start: int,
    end: int,
)
    requires
        !supervised(sup, settings, mode, soc, at).ready_to_drive_active,
        at.minute < 1440,
    ensures
        hhmm(settings.off_peak_start@) == Some(start) && hhmm(settings.off_peak_end@) == Some(end)
            && 0 <= start < 1440 && 0 <= end < 1440 ==> (supervised(
            sup,
            settings,
            mode,
            soc,
            at,
        ).off_peak_charging_request <==> (at.minute - start) % 1440 < (end - start) % 1440),
        hhmm(settings.off_peak_start@) is None || hhmm(settings.off_peak_end@) is None
            ==> !supervised(sup, settings, mode, soc, at).off_peak_charging_request,
{
}

/// The start of the charge lies before the end time by the time that the
/// charge takes at the current of the session, and is shown as a time of day.
/// Without an end time that can be read there is no start.
pub proof fn law_start_leaves_time_for_the_charge(settings: OperatorSettings, soc: u8)
    requires
        hhmm(settings.ready_to_drive_end_time@) matches Some(end) ==> 0 <= end <= i32::MAX,
    ensures
        match hhmm(settings.ready_to_drive_end_time@) {
            Some(end) => {
                let minutes = minutes_to_charge(
                    settings.ready_to_drive_soc,
                    soc,
                    settings.v2h_max_amps,
                );
                &&& hhmm(start_time_text(settings, soc)) matches Some(start)
                &&& 0 <= start < 1440
                &&& (start + minutes - end) % 1440 == 0
                &&& ready_start(settings, soc) == Some(start)
            },
            None => start_time_text(settings, soc) == "--:--"@ && ready_start(settings, soc) is None,
        },
{
    if let Some(end) = hhmm(settings.ready_to_drive_end_time@) {
        let minutes = minutes_to_charge(settings.ready_to_drive_soc, soc, settings.v2h_max_amps);
        law_hhmm_read_back(start_minute(end, minutes));
    }
}

/// The vehicle is made ready for the days that are selected: from as many
/// minutes before the end time as the charge takes to two hours after it. The
/// part of that which lies on the day before goes by the selection of the next
/// day. An end time within two hours of midnight is worked off by the
/// selection of the next day up to midnight, and of the day after that.
pub proof fn law_ready_request_follows_the_clock(
    settings: OperatorSettings,
    soc: u8,
    at: Moment,
    end: int,
)
    requires
        hhmm(settings.ready_to_drive_end_time@) == Some(end),
        0 <= end < 1440,
        at.weekday < 7,
        at.minute < 1440,
        0 <= minutes_to_charge(settings.ready_to_drive_soc, soc, settings.v2h_max_amps) < 1320,
    ensures
        ({
            let minutes = minutes_to_charge(
                settings.ready_to_drive_soc,
                soc,
                settings.v2h_max_amps,
            );
            let today = settings.ready_to_drive_days@[at.weekday as int];
            let tomorrow = if at.weekday == 6 {
                settings.ready_to_drive_days@[0]
            } else {
                settings.ready_to_drive_days@[at.weekday + 1]
            };
            let now = at.minute as int;
            &&& end < 1320 ==> (ready_request(settings, soc, at) <==> (today && end - minutes <= now
                && now < end + 120) || (tomorrow && end + 1440 - minutes <= now))
            &&& end >= 1320 ==> (ready_request(settings, soc, at) <==> (tomorrow && end - minutes
                <= now) || (today && now < end - 1320))
        }),
{
}

/// Without an end time that can be read the vehicle is never made ready.
pub proof fn law_no_ready_request_without_an_end_time(
    settings: OperatorSettings,
    soc: u8,
    at: Moment,
)
    requires
        hhmm(settings.ready_to_drive_end_time@) is None,
    ensures
        !ready_request(settings, soc, at),
{
}

/// When the vehicle is made ready rests on the end time, the state of charge to
/// be reached, the current of the session and the days, and on no other
/// setting: settings that agree in these give the same start time and the same
/// request.
pub proof fn law_ready_goes_by_its_settings(
    s: OperatorSettings,
    t: OperatorSettings,
    soc: u8,
    at: Moment,
)
    requires
        s.ready_to_drive_end_time@ == t.ready_to_drive_end_time@,
        s.ready_to_drive_soc == t.ready_to_drive_soc,
        s.v2h_max_amps == t.v2h_max_amps,
        s.ready_to_drive_days@ == t.ready_to_drive_days@,
    ensures
        start_time_text(s, soc) == start_time_text(t, soc),
        ready_request(s, soc, at) == ready_request(t, soc, at),
{
}

/// A cycle leaves the settings as they are, but for the start time that is
/// shown: that of the charge that makes the vehicle ready.
pub proof fn law_cycle_shows_the_start_time(
    sup: &mut SupervisoryState,
    current: &mut OperatorSettings,
    mode: OperationMode,
    soc: u8,
    at: Moment,
)
    requires
        call_ensures(supervise, (sup, current, mode, soc, at), ()),
    ensures
        *final(current) == (OperatorSettings {
            ready_to_drive_start_time: final(current).ready_to_drive_start_time,
            ..*old(current)
        }),
        final(current).ready_to_drive_start_time@ == start_time_text(*old(current), soc),
        final(sup).ready_to_drive_request == ready_request(*old(current), soc, at),
{
}

/// A cycle takes its request to be made ready from the clock, and leaves the
/// off-peak request alone while the vehicle is made ready.
pub proof fn law_cycle_takes_requests_from_the_clock(
    sup: SupervisoryState,
    settings: OperatorSettings,
    mode: OperationMode,
    soc: u8,
    at: Moment,
)
    ensures
        ({
            let s = supervised(sup, settings, mode, soc, at);
            &&& s.ready_to_drive_request == ready_request(settings, soc, at)
            &&& s.ready_to_drive_active ==> s.off_peak_charging_request
                == sup.off_peak_charging_request
        }),
{
}

/// A message notes when it came; without a message the time stays.
pub proof fn law_time_heard_is_the_latest(at: Option<Instant>, before: Option<Instant>)
    ensures
        at is Some ==> heard(at, before) == at,
        at is None ==> heard(at, before) == before,
{
}

/// Setting the smart charge request sets it and nothing else, and notes when the
/// message came where there was one.
pub proof fn law_setting_smart_charge(
    sup: &mut SupervisoryState,
    enabled: bool,
    at: Option<Instant>,
)
    requires
        call_ensures(SupervisoryState::set_smart_charge_request, (sup, enabled, at), ()),
    ensures
        final(sup).smart_charge_request == enabled,
        at is Some ==> final(sup).smart_charge_request_update == at,
        at is None ==> final(sup).smart_charge_request_update
            == old(sup).smart_charge_request_update,
        final(sup).smart_charge_active == old(sup).smart_charge_active,
        final(sup).ev_drain_protection_request == old(sup).ev_drain_protection_request,
        final(sup).ev_drain_protection_active == old(sup).ev_drain_protection_active,
        final(sup).ev_drain_protection_request_update == old(sup).ev_drain_protection_request_update,
        final(sup).smart_export_request == old(sup).smart_export_request,
        final(sup).smart_export_active == old(sup).smart_export_active,
        final(sup).smart_export_request_update == old(sup).smart_export_request_update,
        final(sup).smart_export_excess_solar_request == old(sup).smart_export_excess_solar_request,
        final(sup).smart_export_excess_solar_active == old(sup).smart_export_excess_solar_active,
        final(sup).smart_export_excess_solar_request_update == old(sup).smart_export_excess_solar_request_update,
        final(sup).ready_to_drive_request == old(sup).ready_to_drive_request,
        final(sup).ready_to_drive_active == old(sup).ready_to_drive_active,
        final(sup).off_peak_charging_request == old(sup).off_peak_charging_request,
        final(sup).off_peak_charging_active == old(sup).off_peak_charging_active,
{
}

/// The smart charge request that is heard counts as heard at the time that the clock
/// reads; one that was given up as stale is not heard, and keeps its time.
pub proof fn law_updating_smart_charge(
    sup: &mut SupervisoryState,
    enabled: bool,
    stale: bool,
)
    requires
        call_ensures(SupervisoryState::update_smart_charge_request, (sup, enabled, stale), ()),
    ensures
        final(sup).smart_charge_request == enabled,
        stale ==> final(sup).smart_charge_request_update
            == old(sup).smart_charge_request_update,
        !stale ==> (final(sup).smart_charge_request_update matches Some(t) && clock_reads(t)),
        final(sup).smart_charge_active == old(sup).smart_charge_active,
        final(sup).ev_drain_protection_request == old(sup).ev_drain_protection_request,
        final(sup).ev_drain_protection_active == old(sup).ev_drain_protection_active,
        final(sup).ev_drain_protection_request_update == old(sup).ev_drain_protection_request_update,
        final(sup).smart_export_request == old(sup).smart_export_request,
        final(sup).smart_export_active == old(sup).smart_export_active,
        final(sup).smart_export_request_update == old(sup).smart_export_request_update,
        final(sup).smart_export_excess_solar_request == old(sup).smart_export_excess_solar_request,
        final(sup).smart_export_excess_solar_active == old(sup).smart_export_excess_solar_active,
        final(sup).smart_export_excess_solar_request_update == old(sup).smart_export_excess_solar_request_update,
        final(sup).ready_to_drive_request == old(sup).ready_to_drive_request,
        final(sup).ready_to_drive_active == old(sup).ready_to_drive_active,
        final(sup).off_peak_charging_request == old(sup).off_peak_charging_request,
        final(sup).off_peak_charging_active == old(sup).off_peak_charging_active,
{
}

/// Setting the drain protection request sets it and nothing else, and notes when the
/// message came where there was one.
pub proof fn law_setting_ev_drain_protection(
    sup: &mut SupervisoryState,
    enabled: bool,
    at: Option<Instant>,
)
    requires
        call_ensures(SupervisoryState::set_ev_drain_protection_request, (sup, enabled, at), ()),
    ensures
        final(sup).ev_drain_protection_request == enabled,
        at is Some ==> final(sup).ev_drain_protection_request_update == at,
        at is None ==> final(sup).ev_drain_protection_request_update
            == old(sup).ev_drain_protection_request_update,
        final(sup).smart_charge_request == old(sup).smart_charge_request,
        final(sup).smart_charge_active == old(sup).smart_charge_active,
        final(sup).smart_charge_request_update == old(sup).smart_charge_request_update,
        final(sup).ev_drain_protection_active == old(sup).ev_drain_protection_active,
        final(sup).smart_export_request == old(sup).smart_export_request,
        final(sup).smart_export_active == old(sup).smart_export_active,
        final(sup).smart_export_request_update == old(sup).smart_export_request_update,
        final(sup).smart_export_excess_solar_request == old(sup).smart_export_excess_solar_request,
        final(sup).smart_export_excess_solar_active == old(sup).smart_export_excess_solar_active,
        final(sup).smart_export_excess_solar_request_update == old(sup).smart_export_excess_solar_request_update,
        final(sup).ready_to_drive_request == old(sup).ready_to_drive_request,
        final(sup).ready_to_drive_active == old(sup).ready_to_drive_active,
        final(sup).off_peak_charging_request == old(sup).off_peak_charging_request,
        final(sup).off_peak_charging_active == old(sup).off_peak_charging_active,
{
}

/// The drain protection request that is heard counts as heard at the time that the clock
/// reads; one that was given up as stale is not heard, and keeps its time.
pub proof fn law_updating_ev_drain_protection(
    sup: &mut SupervisoryState,
    enabled: bool,
    stale: bool,
)
    requires
        call_ensures(SupervisoryState::update_ev_drain_protection_request, (sup, enabled, stale), ()),
    ensures
        final(sup).ev_drain_protection_request == enabled,
        stale ==> final(sup).ev_drain_protection_request_update
            == old(sup).ev_drain_protection_request_update,
        !stale ==> (final(sup).ev_drain_protection_request_update matches Some(t) && clock_reads(t)),
        final(sup).smart_charge_request == old(sup).smart_charge_request,
        final(sup).smart_charge_active == old(sup).smart_charge_active,
        final(sup).smart_charge_request_update == old(sup).smart_charge_request_update,
        final(sup).ev_drain_protection_active == old(sup).ev_drain_protection_active,
        final(sup).smart_export_request == old(sup).smart_export_request,
        final(sup).smart_export_active == old(sup).smart_export_active,
        final(sup).smart_export_request_update == old(sup).smart_export_request_update,
        final(sup).smart_export_excess_solar_request == old(sup).smart_export_excess_solar_request,
        final(sup).smart_export_excess_solar_active == old(sup).smart_export_excess_solar_active,
        final(sup).smart_export_excess_solar_request_update == old(sup).smart_export_excess_solar_request_update,
        final(sup).ready_to_drive_request == old(sup).ready_to_drive_request,
        final(sup).ready_to_drive_active == old(sup).ready_to_drive_active,
        final(sup).off_peak_charging_request == old(sup).off_peak_charging_request,
        final(sup).off_peak_charging_active == old(sup).off_peak_charging_active,
{
}

/// Setting the smart export request sets it and nothing else, and notes when the
/// message came where there was one.
pub proof fn law_setting_smart_export(
    sup: &mut SupervisoryState,
    enabled: bool,
    at: Option<Instant>,
)
    requires
        call_ensures(SupervisoryState::set_smart_export_request, (sup, enabled, at), ()),
    ensures
        final(sup).smart_export_request == enabled,
        at is Some ==> final(sup).smart_export_request_update == at,
        at is None ==> final(sup).smart_export_request_update
            == old(sup).smart_export_request_update,
        final(sup).smart_charge_request == old(sup).smart_charge_request,
        final(sup).smart_charge_active == old(sup).smart_charge_active,
        final(sup).smart_charge_request_update == old(sup).smart_charge_request_update,
        final(sup).ev_drain_protection_request == old(sup).ev_drain_protection_request,
        final(sup).ev_drain_protection_active == old(sup).ev_drain_protection_active,
        final(sup).ev_drain_protection_request_update == old(sup).ev_drain_protection_request_update,
        final(sup).smart_export_active == old(sup).smart_export_active,
        final(sup).smart_export_excess_solar_request == old(sup).smart_export_excess_solar_request,
        final(sup).smart_export_excess_solar_active == old(sup).smart_export_excess_solar_active,
        final(sup).smart_export_excess_solar_request_update == old(sup).smart_export_excess_solar_request_update,
        final(sup).ready_to_drive_request == old(sup).ready_to_drive_request,
        final(sup).ready_to_drive_active == old(sup).ready_to_drive_active,
        final(sup).off_peak_charging_request == old(sup).off_peak_charging_request,
        final(sup).off_peak_charging_active == old(sup).off_peak_charging_active,
{
}

/// The smart export request that is heard counts as heard at the time that the clock
/// reads; one that was given up as stale is not heard, and keeps its time.
pub proof fn law_updating_smart_export(
    sup: &mut SupervisoryState,
    enabled: bool,
    stale: bool,
)
    requires
        call_ensures(SupervisoryState::update_smart_export_request, (sup, enabled, stale), ()),
    ensures
        final(sup).smart_export_request == enabled,
        stale ==> final(sup).smart_export_request_update
            == old(sup).smart_export_request_update,
        !stale ==> (final(sup).smart_export_request_update matches Some(t) && clock_reads(t)),
        final(sup).smart_charge_request == old(sup).smart_charge_request,
        final(sup).smart_charge_active == old(sup).smart_charge_active,
        final(sup).smart_charge_request_update == old(sup).smart_charge_request_update,
        final(sup).ev_drain_protection_request == old(sup).ev_drain_protection_request,
        final(sup).ev_drain_protection_active == old(sup).ev_drain_protection_active,
        final(sup).ev_drain_protection_request_update == old(sup).ev_drain_protection_request_update,
        final(sup).smart_export_active == old(sup).smart_export_active,
        final(sup).smart_export_excess_solar_request == old(sup).smart_export_excess_solar_request,
        final(sup).smart_export_excess_solar_active == old(sup).smart_export_excess_solar_active,
        final(sup).smart_export_excess_solar_request_update == old(sup).smart_export_excess_solar_request_update,
        final(sup).ready_to_drive_request == old(sup).ready_to_drive_request,
        final(sup).ready_to_drive_active == old(sup).ready_to_drive_active,
        final(sup).off_peak_charging_request == old(sup).off_peak_charging_request,
        final(sup).off_peak_charging_active == old(sup).off_peak_charging_active,
{
}

/// Setting the excess solar request sets it and nothing else, and notes when the
/// message came where there was one.
pub proof fn law_setting_smart_export_excess_solar(
    sup: &mut SupervisoryState,
    enabled: bool,
    at: Option<Instant>,
)
    requires
        call_ensures(SupervisoryState::set_smart_export_excess_solar_request, (sup, enabled, at), ()),
    ensures
        final(sup).smart_export_excess_solar_request == enabled,
        at is Some ==> final(sup).smart_export_excess_solar_request_update == at,
        at is None ==> final(sup).smart_export_excess_solar_request_update
            == old(sup).smart_export_excess_solar_request_update,
        final(sup).smart_charge_request == old(sup).smart_charge_request,
        final(sup).smart_charge_active == old(sup).smart_charge_active,
        final(sup).smart_charge_request_update == old(sup).smart_charge_request_update,
        final(sup).ev_drain_protection_request == old(sup).ev_drain_protection_request,
        final(sup).ev_drain_protection_active == old(sup).ev_drain_protection_active,
        final(sup).ev_drain_protection_request_update == old(sup).ev_drain_protection_request_update,
        final(sup).smart_export_request == old(sup).smart_export_request,
        final(sup).smart_export_active == old(sup).smart_export_active,
        final(sup).smart_export_request_update == old(sup).smart_export_request_update,
        final(sup).smart_export_excess_solar_active == old(sup).smart_export_excess_solar_active,
        final(sup).ready_to_drive_request == old(sup).ready_to_drive_request,
        final(sup).ready_to_drive_active == old(sup).ready_to_drive_active,
        final(sup).off_peak_charging_request == old(sup).off_peak_charging_request,
        final(sup).off_peak_charging_active == old(sup).off_peak_charging_active,
{
}

/// The excess solar request that is heard counts as heard at the time that the clock
/// reads; one that was given up as stale is not heard, and keeps its time.
pub proof fn law_updating_smart_export_excess_solar(
    sup: &mut SupervisoryState,
    enabled: bool,
    stale: bool,
)
    requires
        call_ensures(SupervisoryState::update_smart_export_excess_solar_request, (sup, enabled, stale), ()),
    ensures
        final(sup).smart_export_excess_solar_request == enabled,
        stale ==> final(sup).smart_export_excess_solar_request_update
            == old(sup).smart_export_excess_solar_request_update,
        !stale ==> (final(sup).smart_export_excess_solar_request_update matches Some(t) && clock_reads(t)),
        final(sup).smart_charge_request == old(sup).smart_charge_request,
        final(sup).smart_charge_active == old(sup).smart_charge_active,
        final(sup).smart_charge_request_update == old(sup).smart_charge_request_update,
        final(sup).ev_drain_protection_request == old(sup).ev_drain_protection_request,
        final(sup).ev_drain_protection_active == old(sup).ev_drain_protection_active,
        final(sup).ev_drain_protection_request_update == old(sup).ev_drain_protection_request_update,
        final(sup).smart_export_request == old(sup).smart_export_request,
        final(sup).smart_export_active == old(sup).smart_export_active,
        final(sup).smart_export_request_update == old(sup).smart_export_request_update,
        final(sup).smart_export_excess_solar_active == old(sup).smart_export_excess_solar_active,
        final(sup).ready_to_drive_request == old(sup).ready_to_drive_request,
        final(sup).ready_to_drive_active == old(sup).ready_to_drive_active,
        final(sup).off_peak_charging_request == old(sup).off_peak_charging_request,
        final(sup).off_peak_charging_active == old(sup).off_peak_charging_active,
{
}

/// Smart export acts on its request where it is enabled, in load matching, and
/// neither the time to be ready nor the off-peak window holds it back.
pub proof fn law_evaluate_smart_export(
    sup: &mut SupervisoryState,
    settings: OperatorSettings,
    mode: OperationMode,
)
    requires
        call_ensures(evaluate_smart_export, (sup, &settings, mode), ()),
    ensures
        final(sup).smart_export_active <==> old(sup).smart_export_request && settings.smart_export && mode
            == OperationMode::V2h && !old(sup).ready_to_drive_active && !old(sup).off_peak_charging_active,
        final(sup).smart_charge_request == old(sup).smart_charge_request,
        final(sup).smart_charge_active == old(sup).smart_charge_active,
        final(sup).smart_charge_request_update == old(sup).smart_charge_request_update,
        final(sup).ev_drain_protection_request == old(sup).ev_drain_protection_request,
        final(sup).ev_drain_protection_active == old(sup).ev_drain_protection_active,
        final(sup).ev_drain_protection_request_update == old(sup).ev_drain_protection_request_update,
        final(sup).smart_export_request == old(sup).smart_export_request,
        final(sup).smart_export_request_update == old(sup).smart_export_request_update,
        final(sup).smart_export_excess_solar_request == old(sup).smart_export_excess_solar_request,
        final(sup).smart_export_excess_solar_active == old(sup).smart_export_excess_solar_active,
        final(sup).smart_export_excess_solar_request_update == old(sup).smart_export_excess_solar_request_update,
        final(sup).ready_to_drive_request == old(sup).ready_to_drive_request,
        final(sup).ready_to_drive_active == old(sup).ready_to_drive_active,
        final(sup).off_peak_charging_request == old(sup).off_peak_charging_request,
        final(sup).off_peak_charging_active == old(sup).off_peak_charging_active,
{
}

/// The export of excess solar power acts on its request where it is enabled, in
/// load matching, and neither the time to be ready nor the off-peak window holds
/// it back.
pub proof fn law_evaluate_smart_export_excess_solar(
    sup: &mut SupervisoryState,
    settings: OperatorSettings,
    mode: OperationMode,
)
    requires
        call_ensures(evaluate_smart_export_excess_solar, (sup, &settings, mode), ()),
    ensures
        final(sup).smart_export_excess_solar_active <==> old(sup).smart_export_excess_solar_request
            && settings.smart_export_excess_solar && mode == OperationMode::V2h && !old(sup).ready_to_drive_active && !old(sup).off_peak_charging_active,
        final(sup).smart_charge_request == old(sup).smart_charge_request,
        final(sup).smart_charge_active == old(sup).smart_charge_active,
        final(sup).smart_charge_request_update == old(sup).smart_charge_request_update,
        final(sup).ev_drain_protection_request == old(sup).ev_drain_protection_request,
        final(sup).ev_drain_protection_active == old(sup).ev_drain_protection_active,
        final(sup).ev_drain_protection_request_update == old(sup).ev_drain_protection_request_update,
        final(sup).smart_export_request == old(sup).smart_export_request,
        final(sup).smart_export_active == old(sup).smart_export_active,
        final(sup).smart_export_request_update == old(sup).smart_export_request_update,
        final(sup).smart_export_excess_solar_request == old(sup).smart_export_excess_solar_request,
        final(sup).smart_export_excess_solar_request_update == old(sup).smart_export_excess_solar_request_update,
        final(sup).ready_to_drive_request == old(sup).ready_to_drive_request,
        final(sup).ready_to_drive_active == old(sup).ready_to_drive_active,
        final(sup).off_peak_charging_request == old(sup).off_peak_charging_request,
        final(sup).off_peak_charging_active == old(sup).off_peak_charging_active,
{
}

/// Smart charge acts on its request where it is enabled, in load matching, below
/// the charge limit, and nothing that comes before it acts.
pub proof fn law_evaluate_smart_charge(
    sup: &mut SupervisoryState,
    settings: OperatorSettings,
    mode: OperationMode,
    soc: u8,
)
    requires
        call_ensures(evaluate_smart_charge, (sup, &settings, mode, soc), ()),
    ensures
        final(sup).smart_charge_active <==> old(sup).smart_charge_request && settings.smart_charge && mode
            == OperationMode::V2h && soc < settings.charge_soc_limit && !old(sup).ready_to_drive_active && !old(sup).off_peak_charging_active && !old(sup).smart_export_active && !old(sup).smart_export_excess_solar_active,
        final(sup).smart_charge_request == old(sup).smart_charge_request,
        final(sup).smart_charge_request_update == old(sup).smart_charge_request_update,
        final(sup).ev_drain_protection_request == old(sup).ev_drain_protection_request,
        final(sup).ev_drain_protection_active == old(sup).ev_drain_protection_active,
        final(sup).ev_drain_protection_request_update == old(sup).ev_drain_protection_request_update,
        final(sup).smart_export_request == old(sup).smart_export_request,
        final(sup).smart_export_active == old(sup).smart_export_active,
        final(sup).smart_export_request_update == old(sup).smart_export_request_update,
        final(sup).smart_export_excess_solar_request == old(sup).smart_export_excess_solar_request,
        final(sup).smart_export_excess_solar_active == old(sup).smart_export_excess_solar_active,
        final(sup).smart_export_excess_solar_request_update == old(sup).smart_export_excess_solar_request_update,
        final(sup).ready_to_drive_request == old(sup).ready_to_drive_request,
        final(sup).ready_to_drive_active == old(sup).ready_to_drive_active,
        final(sup).off_peak_charging_request == old(sup).off_peak_charging_request,
        final(sup).off_peak_charging_active == old(sup).off_peak_charging_active,
{
}

/// Drain protection acts on its request where it is enabled, in load matching,
/// and nothing that moves power on request acts.
pub proof fn law_evaluate_ev_drain_protection(
    sup: &mut SupervisoryState,
    settings: OperatorSettings,
    mode: OperationMode,
)
    requires
        call_ensures(evaluate_ev_drain_protection, (sup, &settings, mode), ()),
    ensures
        final(sup).ev_drain_protection_active <==> old(sup).ev_drain_protection_request && settings.ev_drain_protection
            && mode == OperationMode::V2h && !old(sup).ready_to_drive_active && !old(sup).smart_export_active && !old(sup).smart_export_excess_solar_active && !old(sup).smart_charge_active,
        final(sup).smart_charge_request == old(sup).smart_charge_request,
        final(sup).smart_charge_active == old(sup).smart_charge_active,
        final(sup).smart_charge_request_update == old(sup).smart_charge_request_update,
        final(sup).ev_drain_protection_request == old(sup).ev_drain_protection_request,
        final(sup).ev_drain_protection_request_update == old(sup).ev_drain_protection_request_update,
        final(sup).smart_export_request == old(sup).smart_export_request,
        final(sup).smart_export_active == old(sup).smart_export_active,
        final(sup).smart_export_request_update == old(sup).smart_export_request_update,
        final(sup).smart_export_excess_solar_request == old(sup).smart_export_excess_solar_request,
        final(sup).smart_export_excess_solar_active == old(sup).smart_export_excess_solar_active,
        final(sup).smart_export_excess_solar_request_update == old(sup).smart_export_excess_solar_request_update,
        final(sup).ready_to_drive_request == old(sup).ready_to_drive_request,
        final(sup).ready_to_drive_active == old(sup).ready_to_drive_active,
        final(sup).off_peak_charging_request == old(sup).off_peak_charging_request,
        final(sup).off_peak_charging_active == old(sup).off_peak_charging_active,
{
}

/// Looking at off-peak charging changes its own two flags and nothing else. It
/// acts in the window where it is enabled, in load matching; while the vehicle
/// is made ready it does not act, and the window is not looked at.
pub proof fn law_evaluate_off_peak_charging(
    sup: &mut SupervisoryState,
    settings: OperatorSettings,
    mode: OperationMode,
    minute: u32,
)
    requires
        call_ensures(evaluate_off_peak_charging, (sup, &settings, mode, minute), ()),
    ensures
        old(sup).ready_to_drive_active ==> !final(sup).off_peak_charging_active && final(sup).off_peak_charging_request == old(sup).off_peak_charging_request,
        !old(sup).ready_to_drive_active ==> {
            &&& final(sup).off_peak_charging_active <==> final(sup).off_peak_charging_request
                && settings.off_peak_charging && mode == OperationMode::V2h
            &&& final(sup).off_peak_charging_request <==> in_off_peak(settings, minute) == Some(
                true,
            )
        },
        final(sup).smart_charge_request == old(sup).smart_charge_request,
        final(sup).smart_charge_active == old(sup).smart_charge_active,
        final(sup).smart_charge_request_update == old(sup).smart_charge_request_update,
        final(sup).ev_drain_protection_request == old(sup).ev_drain_protection_request,
        final(sup).ev_drain_protection_active == old(sup).ev_drain_protection_active,
        final(sup).ev_drain_protection_request_update == old(sup).ev_drain_protection_request_update,
        final(sup).smart_export_request == old(sup).smart_export_request,
        final(sup).smart_export_active == old(sup).smart_export_active,
        final(sup).smart_export_request_update == old(sup).smart_export_request_update,
        final(sup).smart_export_excess_solar_request == old(sup).smart_export_excess_solar_request,
        final(sup).smart_export_excess_solar_active == old(sup).smart_export_excess_solar_active,
        final(sup).smart_export_excess_solar_request_update == old(sup).smart_export_excess_solar_request_update,
        final(sup).ready_to_drive_request == old(sup).ready_to_drive_request,
        final(sup).ready_to_drive_active == old(sup).ready_to_drive_active,
{
}

/// Looking at whether the vehicle is to be made ready changes its own two flags
/// and the start time that is shown, and nothing else. It acts where the clock
/// asks for it and it is enabled, in load matching.
pub proof fn law_evaluate_ready_to_drive(
    sup: &mut SupervisoryState,
    current: &mut OperatorSettings,
    mode: OperationMode,
    soc: u8,
    at: Moment,
)
    requires
        call_ensures(evaluate_ready_to_drive, (sup, current, mode, soc, at), ()),
    ensures
        final(sup).ready_to_drive_request <==> ready_request(*old(current), soc, at),
        final(sup).ready_to_drive_active <==> final(sup).ready_to_drive_request && old(current).ready_to_drive && mode == OperationMode::V2h,
        *final(current) == (OperatorSettings {
            ready_to_drive_start_time: final(current).ready_to_drive_start_time,
            ..*old(current)
        }),
        final(current).ready_to_drive_start_time@ == start_time_text(*old(current), soc),
        final(sup).smart_charge_request == old(sup).smart_charge_request,
        final(sup).smart_charge_active == old(sup).smart_charge_active,
        final(sup).smart_charge_request_update == old(sup).smart_charge_request_update,
        final(sup).ev_drain_protection_request == old(sup).ev_drain_protection_request,
        final(sup).ev_drain_protection_active == old(sup).ev_drain_protection_active,
        final(sup).ev_drain_protection_request_update == old(sup).ev_drain_protection_request_update,
        final(sup).smart_export_request == old(sup).smart_export_request,
        final(sup).smart_export_active == old(sup).smart_export_active,
        final(sup).smart_export_request_update == old(sup).smart_export_request_update,
        final(sup).smart_export_excess_solar_request == old(sup).smart_export_excess_solar_request,
        final(sup).smart_export_excess_solar_active == old(sup).smart_export_excess_solar_active,
        final(sup).smart_export_excess_solar_request_update == old(sup).smart_export_excess_solar_request_update,
        final(sup).off_peak_charging_request == old(sup).off_peak_charging_request,
        final(sup).off_peak_charging_active == old(sup).off_peak_charging_active,
{
}

/// However long the charge takes and whatever the end time, the vehicle is made
/// ready from the start of the charge to two hours after the end, both as times
/// of day: where the start does not come after that, on the day itself, and
/// otherwise from the start on the day before and up to then on the day.
pub proof fn law_ready_window_ends_two_hours_after(
    settings: OperatorSettings,
    soc: u8,
    at: Moment,
    start: int,
    end: int,
)
    requires
        ready_start(settings, soc) == Some(start),
        hhmm(settings.ready_to_drive_end_time@) == Some(end),
        at.weekday < 7,
    ensures
        ({
            let until = (end + 120) % 1440;
            let today = settings.ready_to_drive_days@[at.weekday as int];
            let tomorrow = settings.ready_to_drive_days@[if at.weekday == 6 {
                0
            } else {
                at.weekday + 1
            }];
            let now = at.minute as int;
            &&& start <= until ==> (ready_request(settings, soc, at) <==> today && now >= start
                && now < until)
            &&& start > until ==> (ready_request(settings, soc, at) <==> (tomorrow && now >= start)
                || (today && now < until))
        }),
{
}

/// An end time beyond what a signed number of 32 bits holds counts as that much
/// before midnight as it lies before the next power of two.
pub proof fn law_late_end_times_wrap_around(settings: OperatorSettings, soc: u8, end: int)
    requires
        hhmm(settings.ready_to_drive_end_time@) == Some(end),
        0x8000_0000 <= end <= 0xffff_ffff,
    ensures
        ready_start(settings, soc) matches Some(start) && 0 <= start < 1440 && (start
            + minutes_to_charge(settings.ready_to_drive_soc, soc, settings.v2h_max_amps) - (end
            - 0x1_0000_0000)) % 1440 == 0,
{
}

/// Times of day can always be counted with: where every time that is set is one
/// of a day, or cannot be read at all, a cycle can run at any state of charge.
pub proof fn law_times_of_day_can_be_counted(
    settings: OperatorSettings,
    mode: OperationMode,
    soc: u8,
    at: Moment,
)
    requires
        at.weekday < 7,
        hhmm(settings.ready_to_drive_end_time@) matches Some(t) ==> 0 <= t < 1440,
        hhmm(settings.off_peak_start@) matches Some(t) ==> 0 <= t < 1440,
        hhmm(settings.off_peak_end@) matches Some(t) ==> 0 <= t < 1440,
    ensures
        cycle_counts(settings, mode, soc, at),
        end_time_counts(settings, soc),
{
    let target = settings.ready_to_drive_soc;
    let amps = settings.v2h_max_amps;
    let minutes = minutes_to_charge(target, soc, amps);
    if soc < target && 0 < amps {
        law_minutes_suffice_for_the_charge(target, soc, amps);
        assert(minutes - 1 <= 93 * 255) by (nonlinear_arith)
            requires
                amps * (minutes - 1) <= 93 * (target - soc),
                0 < amps,
                0 <= soc < target <= 255,
        ;
    }
}

/// A cycle cannot run where the end time is too late for two hours to be added
/// in 32 bits, nor on a day that is none of the week.
pub proof fn law_cycles_need_times_that_count(
    settings: OperatorSettings,
    mode: OperationMode,
    soc: u8,
    at: Moment,
)
    ensures
        at.weekday >= 7 ==> !cycle_counts(settings, mode, soc, at),
        hhmm(settings.ready_to_drive_end_time@) matches Some(end) ==> end > 0xffff_ffff - 120
            ==> !end_time_counts(settings, soc) && !cycle_counts(settings, mode, soc, at),
        !ready_request(settings, soc, at) && (!hhmm_fits(settings.off_peak_start@) || !hhmm_fits(
            settings.off_peak_end@,
        )) ==> !cycle_counts(settings, mode, soc, at),
{
}

/// At the start nothing has been requested or heard, and nothing acts.
pub proof fn law_supervisor_starts_quiet()
    ensures
        nothing_acts(quiet()),
        !quiet().smart_charge_request && quiet().smart_charge_request_update is None,
        !quiet().ev_drain_protection_request && quiet().ev_drain_protection_request_update is None,
        !quiet().smart_export_request && quiet().smart_export_request_update is None,
        !quiet().smart_export_excess_solar_request
            && quiet().smart_export_excess_solar_request_update is None,
        !quiet().ready_to_drive_request && !quiet().off_peak_charging_request,
{
}

/// Where every time that is set is one of a day, or cannot be read, a cycle is
/// found able to run on every day of the week.
pub proof fn law_times_of_day_are_accepted(
    settings: OperatorSettings,
    mode: OperationMode,
    soc: u8,
    at: Moment,
    yes: bool,
)
    requires
        call_ensures(can_supervise, (&settings, mode, soc, at), yes),
        hhmm(settings.ready_to_drive_end_time@) matches Some(t) ==> 0 <= t < 1440,
        hhmm(settings.off_peak_start@) matches Some(t) ==> 0 <= t < 1440,
        hhmm(settings.off_peak_end@) matches Some(t) ==> 0 <= t < 1440,
    ensures
        yes <==> at.weekday < 7,
{
    if at.weekday < 7 {
        law_times_of_day_can_be_counted(settings, mode, soc, at);
    }
}

} // verus!
