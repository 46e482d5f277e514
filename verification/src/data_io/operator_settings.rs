//! The settings that the operator changes from the web page or through the
//! broker, and the bounds that they are kept in.
use vstd::prelude::*;

use crate::{MAX_AMPS, MAX_SOC, MIN_SOC};

verus! {

/// What the operator has set.
#[derive(Debug)]
pub struct OperatorSettings {
    /// SoC floor for discharging, in percent
    pub v2h_soc_min: u8,
    /// SoC ceiling for load matching, in percent
    pub v2h_soc_max: u8,
    /// SoC ceiling for boosted charging, in percent
    pub v2h_soc_max_boost: u8,
    /// Current limit of a session in either direction, in amps
    pub v2h_max_amps: u8,
    /// Discharge to cover the consumption of the house
    pub self_use: bool,
    /// Let surplus solar power go to the grid instead of the battery
    pub export_excess_solar: bool,
    /// Allow the hold at zero current
    pub ev_drain_protection: bool,
    /// Have the vehicle charged by a time of day
    pub ready_to_drive: bool,
    /// The time by which it is charged, "HH:MM"
    pub ready_to_drive_end_time: String,
    /// The time at which the charge starts, worked out every second
    pub ready_to_drive_start_time: String,
    /// SoC to be reached by then, in percent
    pub ready_to_drive_soc: u8,
    /// The days on which it is, Monday first
    pub ready_to_drive_days: [bool; 7],
    /// Charge in the off-peak window
    pub off_peak_charging: bool,
    /// Start of the off-peak window, "HH:MM"
    pub off_peak_start: String,
    /// End of the off-peak window, "HH:MM"
    pub off_peak_end: String,
    /// Charge in cheap slots
    pub smart_charge: bool,
    /// Export in favourable slots
    pub smart_export: bool,
    /// Power to export in such a slot, in watts
    pub smart_export_limit_w: u32,
    /// SoC floor for exporting, in percent
    pub smart_export_soc_min: u8,
    /// Export surplus solar power in favourable slots
    pub smart_export_excess_solar: bool,
    /// SoC at which a charge ends, in percent
    pub charge_soc_limit: u8,
    /// Current of a charge, in amps
    pub charge_amps: u8,
    /// Charge from surplus solar power only
    pub charge_eco: bool,
}

impl Clone for OperatorSettings {
    fn clone(&self) -> (copy: Self)
        ensures
            copy == *self,
    {
        OperatorSettings {
            v2h_soc_min: self.v2h_soc_min,
            v2h_soc_max: self.v2h_soc_max,
            v2h_soc_max_boost: self.v2h_soc_max_boost,
            v2h_max_amps: self.v2h_max_amps,
            self_use: self.self_use,
            export_excess_solar: self.export_excess_solar,
            ev_drain_protection: self.ev_drain_protection,
            ready_to_drive: self.ready_to_drive,
            ready_to_drive_end_time: self.ready_to_drive_end_time.clone(),
            ready_to_drive_start_time: self.ready_to_drive_start_time.clone(),
            ready_to_drive_soc: self.ready_to_drive_soc,
            ready_to_drive_days: self.ready_to_drive_days,
            off_peak_charging: self.off_peak_charging,
            off_peak_start: self.off_peak_start.clone(),
            off_peak_end: self.off_peak_end.clone(),
            smart_charge: self.smart_charge,
            smart_export: self.smart_export,
            smart_export_limit_w: self.smart_export_limit_w,
            smart_export_soc_min: self.smart_export_soc_min,
            smart_export_excess_solar: self.smart_export_excess_solar,
            charge_soc_limit: self.charge_soc_limit,
            charge_amps: self.charge_amps,
            charge_eco: self.charge_eco,
        }
    }
}

/// A change of single settings: what is `None` stays as it is.
#[derive(Debug, Clone)]
pub struct SettingPatch {
    pub v2h_soc_min: Option<u8>,
    pub v2h_soc_max: Option<u8>,
    pub v2h_soc_max_boost: Option<u8>,
    pub v2h_max_amps: Option<u8>,
    pub self_use: Option<bool>,
    pub export_excess_solar: Option<bool>,
    pub ev_drain_protection: Option<bool>,
    pub ready_to_drive: Option<bool>,
    pub ready_to_drive_end_time: Option<String>,
    pub ready_to_drive_start_time: Option<String>,
    pub ready_to_drive_soc: Option<u8>,
    pub ready_to_drive_days: Option<[bool; 7]>,
    pub off_peak_charging: Option<bool>,
    pub off_peak_start: Option<String>,
    pub off_peak_end: Option<String>,
    pub smart_charge: Option<bool>,
    pub smart_export: Option<bool>,
    pub smart_export_limit_w: Option<u32>,
    pub smart_export_soc_min: Option<u8>,
    pub smart_export_excess_solar: Option<bool>,
    pub charge_soc_limit: Option<u8>,
    pub charge_amps: Option<u8>,
    pub charge_eco: Option<bool>,
}

/// The change that changes nothing.
pub open spec fn empty_patch() -> SettingPatch {
    SettingPatch {
        v2h_soc_min: None,
        v2h_soc_max: None,
        v2h_soc_max_boost: None,
        v2h_max_amps: None,
        self_use: None,
        export_excess_solar: None,
        ev_drain_protection: None,
        ready_to_drive: None,
        ready_to_drive_end_time: None,
        ready_to_drive_start_time: None,
        ready_to_drive_soc: None,
        ready_to_drive_days: None,
        off_peak_charging: None,
        off_peak_start: None,
        off_peak_end: None,
        smart_charge: None,
        smart_export: None,
        smart_export_limit_w: None,
        smart_export_soc_min: None,
        smart_export_excess_solar: None,
        charge_soc_limit: None,
        charge_amps: None,
        charge_eco: None,
    }
}

impl Default for SettingPatch {
    fn default() -> (p: Self)
        ensures
            p == empty_patch(),
    {
        SettingPatch {
            v2h_soc_min: None,
            v2h_soc_max: None,
            v2h_soc_max_boost: None,
            v2h_max_amps: None,
            self_use: None,
            export_excess_solar: None,
            ev_drain_protection: None,
            ready_to_drive: None,
            ready_to_drive_end_time: None,
            ready_to_drive_start_time: None,
            ready_to_drive_soc: None,
            ready_to_drive_days: None,
            off_peak_charging: None,
            off_peak_start: None,
            off_peak_end: None,
            smart_charge: None,
            smart_export: None,
            smart_export_limit_w: None,
            smart_export_soc_min: None,
            smart_export_excess_solar: None,
            charge_soc_limit: None,
            charge_amps: None,
            charge_eco: None,
        }
    }
}

/// The start time shown while none can be worked out.
pub fn default_rtd_start_time() -> (s: String)
    ensures
        s@ == "--:--"@,
{
    "--:--".to_owned()
}

pub fn default_v2h_soc_max_boost() -> (soc: u8)
    ensures
        soc == 80,
{
    80
}

pub fn default_smart_export_soc_min() -> (soc: u8)
    ensures
        soc == 31,
{
    31
}

/// The settings of a charger that was never set up.
pub open spec fn is_default(s: OperatorSettings) -> bool {
    &&& s.v2h_soc_min == 31
    &&& s.v2h_soc_max == 90
    &&& s.v2h_soc_max_boost == 80
    &&& s.v2h_max_amps == 16
    &&& s.self_use
    &&& !s.export_excess_solar
    &&& !s.ev_drain_protection
    &&& !s.ready_to_drive
    &&& s.ready_to_drive_end_time@ == "08:00"@
    &&& s.ready_to_drive_start_time@ == "--:--"@
    &&& s.ready_to_drive_soc == 90
    &&& forall|i: int| 0 <= i < 7 ==> !#[trigger] s.ready_to_drive_days@[i]
    &&& s.off_peak_charging
    &&& s.off_peak_start@ == "23:30"@
    &&& s.off_peak_end@ == "05:30"@
    &&& s.smart_charge
    &&& !s.smart_export
    &&& s.smart_export_limit_w == 2500
    &&& s.smart_export_soc_min == 31
    &&& !s.smart_export_excess_solar
    &&& s.charge_soc_limit == 90
    &&& s.charge_amps == 16
    &&& !s.charge_eco
}

impl Default for OperatorSettings {
    fn default() -> (s: Self)
        ensures
            is_default(s),
    {
        OperatorSettings {
            v2h_soc_min: 31,
            v2h_soc_max: 90,
            v2h_soc_max_boost: default_v2h_soc_max_boost(),
            v2h_max_amps: 16,
            self_use: true,
            export_excess_solar: false,
            ev_drain_protection: false,
            ready_to_drive: false,
            ready_to_drive_end_time: "08:00".to_owned(),
            ready_to_drive_start_time: default_rtd_start_time(),
            ready_to_drive_soc: 90,
            ready_to_drive_days: [false; 7],
            off_peak_charging: true,
            off_peak_start: "23:30".to_owned(),
            off_peak_end: "05:30".to_owned(),
            smart_charge: true,
            smart_export: false,
            smart_export_limit_w: 2500,
            smart_export_soc_min: default_smart_export_soc_min(),
            smart_export_excess_solar: false,
            charge_soc_limit: 90,
            charge_amps: 16,
            charge_eco: false,
        }
    }
}

/// The value nearest to `x` between `lo` and `hi`.
pub open spec fn clamped(x: u8, lo: u8, hi: u8) -> u8 {
    if x < lo {
        lo
    } else if x > hi {
        hi
    } else {
        x
    }
}

/// The smaller of two values.
pub open spec fn lesser(x: u8, y: u8) -> u8 {
    if x <= y {
        x
    } else {
        y
    }
}

fn clamp_u8(x: u8, lo: u8, hi: u8) -> (r: u8)
    requires
        lo <= hi,
    ensures
        r == clamped(x, lo, hi),
{
    if x < lo {
        lo
    } else if x > hi {
        hi
    } else {
        x
    }
}

/// The smaller of two values.
pub fn min_u8(x: u8, y: u8) -> (r: u8)
    ensures
        r == lesser(x, y),
{
    if x <= y {
        x
    } else {
        y
    }
}

/// The SoC floor once the ceiling is settled: a floor that does not lie below
/// the ceiling moves to five percent below it, though never under the lowest
/// SoC that the charger discharges to.
pub open spec fn settled_floor(floor: u8, ceiling: u8) -> u8 {
    let floor = clamped(floor, MIN_SOC, MAX_SOC);
    if floor < ceiling {
        floor
    } else if ceiling >= MIN_SOC + 5 {
        (ceiling - 5) as u8
    } else {
        MIN_SOC
    }
}

/// The settings brought within their bounds.
pub open spec fn validated(s: OperatorSettings) -> OperatorSettings {
    let ceiling = clamped(s.v2h_soc_max, MIN_SOC, MAX_SOC);
    let floor = settled_floor(s.v2h_soc_min, ceiling);
    OperatorSettings {
        v2h_soc_min: floor,
        v2h_soc_max: ceiling,
        v2h_soc_max_boost: clamped(s.v2h_soc_max_boost, MIN_SOC, ceiling),
        smart_export_soc_min: clamped(s.smart_export_soc_min, floor, ceiling),
        charge_soc_limit: clamped(s.charge_soc_limit, MIN_SOC, MAX_SOC),
        ready_to_drive_soc: clamped(s.ready_to_drive_soc, MIN_SOC, MAX_SOC),
        v2h_max_amps: lesser(s.v2h_max_amps, MAX_AMPS),
        charge_amps: lesser(s.charge_amps, MAX_AMPS),
        ..s
    }
}

/// The bounds that hold of validated settings.
pub open spec fn within_bounds(s: OperatorSettings) -> bool {
    &&& MIN_SOC <= s.v2h_soc_min <= s.v2h_soc_max <= MAX_SOC
    &&& s.v2h_soc_min < s.v2h_soc_max || s.v2h_soc_max == MIN_SOC
    &&& MIN_SOC <= s.v2h_soc_max_boost <= s.v2h_soc_max
    &&& s.v2h_soc_min <= s.smart_export_soc_min <= s.v2h_soc_max
    &&& MIN_SOC <= s.charge_soc_limit <= MAX_SOC
    &&& MIN_SOC <= s.ready_to_drive_soc <= MAX_SOC
    &&& s.v2h_max_amps <= MAX_AMPS
    &&& s.charge_amps <= MAX_AMPS
}

impl OperatorSettings {
    /// Brings the settings within their bounds.
    pub fn validate_and_clamp(&mut self)
        ensures
            *final(self) == validated(*old(self)),
    {
        // SoC bounds
        self.v2h_soc_min = clamp_u8(self.v2h_soc_min, MIN_SOC, MAX_SOC);
        self.v2h_soc_max = clamp_u8(self.v2h_soc_max, MIN_SOC, MAX_SOC);
        if self.v2h_soc_min >= self.v2h_soc_max {
            let pulled: u8 = self.v2h_soc_max.saturating_sub(5);
            self.v2h_soc_min = if pulled < MIN_SOC {
                MIN_SOC
            } else {
                pulled
            };
        }
        self.v2h_soc_max_boost = clamp_u8(self.v2h_soc_max_boost, MIN_SOC, self.v2h_soc_max);
        self.smart_export_soc_min = clamp_u8(
            self.smart_export_soc_min,
            self.v2h_soc_min,
            self.v2h_soc_max,
        );
        self.charge_soc_limit = clamp_u8(self.charge_soc_limit, MIN_SOC, MAX_SOC);
        self.ready_to_drive_soc = clamp_u8(self.ready_to_drive_soc, MIN_SOC, MAX_SOC);

        // Amps bounds
        self.v2h_max_amps = min_u8(self.v2h_max_amps, MAX_AMPS);
        self.charge_amps = min_u8(self.charge_amps, MAX_AMPS);
    }
}

/// The settings to start with, from what was stored: stored settings are
/// brought within bounds; where none could be read, the defaults are used.
/// The second value says whether the settings are to be written to disk.
pub fn load(stored: Option<OperatorSettings>) -> (r: (OperatorSettings, bool))
    ensures
        match stored {
            Some(s) => r.0 == validated(s) && !r.1,
            None => is_default(r.0) && r.1,
        },
{
    match stored {
        Some(mut settings) => {
            settings.validate_and_clamp();
            (settings, false)
        },
        None => (OperatorSettings::default(), true),
    }
}

/// The settings that a request to replace them all leads to. Every change of
/// the settings goes through here.
pub fn update(new_settings: OperatorSettings) -> (settings: OperatorSettings)
    ensures
        settings == validated(new_settings),
{
    let mut settings = new_settings;
    settings.validate_and_clamp();
    settings
}

/// What a patch leaves of one setting.
pub open spec fn chosen<T>(change: Option<T>, current: T) -> T {
    match change {
        Some(v) => v,
        None => current,
    }
}

fn pick<T>(change: Option<T>, current: T) -> (r: T)
    ensures
        r == chosen(change, current),
{
    match change {
        Some(v) => v,
        None => current,
    }
}

/// The settings with the changes of a patch in place.
pub open spec fn patched(s: OperatorSettings, p: SettingPatch) -> OperatorSettings {
    OperatorSettings {
        v2h_soc_min: chosen(p.v2h_soc_min, s.v2h_soc_min),
        v2h_soc_max: chosen(p.v2h_soc_max, s.v2h_soc_max),
        v2h_soc_max_boost: chosen(p.v2h_soc_max_boost, s.v2h_soc_max_boost),
        v2h_max_amps: chosen(p.v2h_max_amps, s.v2h_max_amps),
        self_use: chosen(p.self_use, s.self_use),
        export_excess_solar: chosen(p.export_excess_solar, s.export_excess_solar),
        ev_drain_protection: chosen(p.ev_drain_protection, s.ev_drain_protection),
        ready_to_drive: chosen(p.ready_to_drive, s.ready_to_drive),
        ready_to_drive_end_time: chosen(p.ready_to_drive_end_time, s.ready_to_drive_end_time),
        ready_to_drive_start_time: chosen(p.ready_to_drive_start_time, s.ready_to_drive_start_time),
        ready_to_drive_soc: chosen(p.ready_to_drive_soc, s.ready_to_drive_soc),
        ready_to_drive_days: chosen(p.ready_to_drive_days, s.ready_to_drive_days),
        off_peak_charging: chosen(p.off_peak_charging, s.off_peak_charging),
        off_peak_start: chosen(p.off_peak_start, s.off_peak_start),
        off_peak_end: chosen(p.off_peak_end, s.off_peak_end),
        smart_charge: chosen(p.smart_charge, s.smart_charge),
        smart_export: chosen(p.smart_export, s.smart_export),
        smart_export_limit_w: chosen(p.smart_export_limit_w, s.smart_export_limit_w),
        smart_export_soc_min: chosen(p.smart_export_soc_min, s.smart_export_soc_min),
        smart_export_excess_solar: chosen(p.smart_export_excess_solar, s.smart_export_excess_solar),
        charge_soc_limit: chosen(p.charge_soc_limit, s.charge_soc_limit),
        charge_amps: chosen(p.charge_amps, s.charge_amps),
        charge_eco: chosen(p.charge_eco, s.charge_eco),
    }
}

/// The settings that a request to change some of them leads to.
pub fn patch(current: &OperatorSettings, p: SettingPatch) -> (settings: OperatorSettings)
    ensures
        settings == validated(patched(*current, p)),
{
    update(OperatorSettings {
        v2h_soc_min: pick(p.v2h_soc_min, current.v2h_soc_min),
        v2h_soc_max: pick(p.v2h_soc_max, current.v2h_soc_max),
        v2h_soc_max_boost: pick(p.v2h_soc_max_boost, current.v2h_soc_max_boost),
        v2h_max_amps: pick(p.v2h_max_amps, current.v2h_max_amps),
        self_use: pick(p.self_use, current.self_use),
        export_excess_solar: pick(p.export_excess_solar, current.export_excess_solar),
        ev_drain_protection: pick(p.ev_drain_protection, current.ev_drain_protection),
        ready_to_drive: pick(p.ready_to_drive, current.ready_to_drive),
        ready_to_drive_end_time: pick(p.ready_to_drive_end_time, current.ready_to_drive_end_time.clone()),
        ready_to_drive_start_time: pick(p.ready_to_drive_start_time, current.ready_to_drive_start_time.clone()),
        ready_to_drive_soc: pick(p.ready_to_drive_soc, current.ready_to_drive_soc),
        ready_to_drive_days: pick(p.ready_to_drive_days, current.ready_to_drive_days),
        off_peak_charging: pick(p.off_peak_charging, current.off_peak_charging),
        off_peak_start: pick(p.off_peak_start, current.off_peak_start.clone()),
        off_peak_end: pick(p.off_peak_end, current.off_peak_end.clone()),
        smart_charge: pick(p.smart_charge, current.smart_charge),
        smart_export: pick(p.smart_export, current.smart_export),
        smart_export_limit_w: pick(p.smart_export_limit_w, current.smart_export_limit_w),
        smart_export_soc_min: pick(p.smart_export_soc_min, current.smart_export_soc_min),
        smart_export_excess_solar: pick(p.smart_export_excess_solar, current.smart_export_excess_solar),
        charge_soc_limit: pick(p.charge_soc_limit, current.charge_soc_limit),
        charge_amps: pick(p.charge_amps, current.charge_amps),
        charge_eco: pick(p.charge_eco, current.charge_eco),
    })
}

/// Validated settings are within their bounds.
pub proof fn law_validated_within_bounds(s: OperatorSettings)
    ensures
        within_bounds(validated(s)),
{
}

/// Validation leaves settings within their bounds as they are, so it changes
/// nothing a second time.
pub proof fn law_validation_settles(s: OperatorSettings)
    ensures
        within_bounds(s) ==> validated(s) == s,
        validated(validated(s)) == validated(s),
{
}

/// Validation touches no switch, no time, no day and no power limit.
pub proof fn law_validation_keeps_the_rest(s: OperatorSettings)
    ensures
        validated(s).self_use == s.self_use,
        validated(s).export_excess_solar == s.export_excess_solar,
        validated(s).ev_drain_protection == s.ev_drain_protection,
        validated(s).ready_to_drive == s.ready_to_drive,
        validated(s).ready_to_drive_end_time == s.ready_to_drive_end_time,
        validated(s).ready_to_drive_start_time == s.ready_to_drive_start_time,
        validated(s).ready_to_drive_days == s.ready_to_drive_days,
        validated(s).off_peak_charging == s.off_peak_charging,
        validated(s).off_peak_start == s.off_peak_start,
        validated(s).off_peak_end == s.off_peak_end,
        validated(s).smart_charge == s.smart_charge,
        validated(s).smart_export == s.smart_export,
        validated(s).smart_export_limit_w == s.smart_export_limit_w,
        validated(s).smart_export_excess_solar == s.smart_export_excess_solar,
        validated(s).charge_eco == s.charge_eco,
{
}

/// The default settings are within their bounds.
pub proof fn law_defaults_within_bounds(s: OperatorSettings)
    requires
        is_default(s),
    ensures
        within_bounds(s),
{
}

/// An empty patch leaves settings within their bounds as they are.
pub proof fn law_empty_patch_changes_nothing(s: OperatorSettings)
    requires
        within_bounds(s),
    ensures
        validated(patched(s, empty_patch())) == s,
{
}

/// A patch applied a second time changes nothing more.
pub proof fn law_patch_settles(s: OperatorSettings, p: SettingPatch)
    ensures
        validated(patched(validated(patched(s, p)), p)) == validated(patched(s, p)),
{
}

/// What a patch leaves out stays as it is: every switch, time, day and power
/// limit in any case, and with settings within their bounds also the ceiling,
/// the limit of a charge, the SoC to be ready with and the currents.
pub proof fn law_patch_leaves_absent_fields(s: OperatorSettings, p: SettingPatch)
    ensures
        ({
            let n = validated(patched(s, p));
            &&& p.self_use is None ==> n.self_use == s.self_use
            &&& p.export_excess_solar is None ==> n.export_excess_solar == s.export_excess_solar
            &&& p.ev_drain_protection is None ==> n.ev_drain_protection == s.ev_drain_protection
            &&& p.ready_to_drive is None ==> n.ready_to_drive == s.ready_to_drive
            &&& p.ready_to_drive_end_time is None ==> n.ready_to_drive_end_time == s.ready_to_drive_end_time
            &&& p.ready_to_drive_start_time is None ==> n.ready_to_drive_start_time == s.ready_to_drive_start_time
            &&& p.ready_to_drive_days is None ==> n.ready_to_drive_days == s.ready_to_drive_days
            &&& p.off_peak_charging is None ==> n.off_peak_charging == s.off_peak_charging
            &&& p.off_peak_start is None ==> n.off_peak_start == s.off_peak_start
            &&& p.off_peak_end is None ==> n.off_peak_end == s.off_peak_end
            &&& p.smart_charge is None ==> n.smart_charge == s.smart_charge
            &&& p.smart_export is None ==> n.smart_export == s.smart_export
            &&& p.smart_export_limit_w is None ==> n.smart_export_limit_w == s.smart_export_limit_w
            &&& p.smart_export_excess_solar is None ==> n.smart_export_excess_solar == s.smart_export_excess_solar
            &&& p.charge_eco is None ==> n.charge_eco == s.charge_eco
        }),
        within_bounds(s) ==> ({
            let n = validated(patched(s, p));
            &&& p.v2h_soc_max is None ==> n.v2h_soc_max == s.v2h_soc_max
            &&& p.charge_soc_limit is None ==> n.charge_soc_limit == s.charge_soc_limit
            &&& p.ready_to_drive_soc is None ==> n.ready_to_drive_soc == s.ready_to_drive_soc
            &&& p.v2h_max_amps is None ==> n.v2h_max_amps == s.v2h_max_amps
            &&& p.charge_amps is None ==> n.charge_amps == s.charge_amps
        }),
{
}

/// With settings within their bounds, a floor, a boost ceiling or an export
/// floor that a patch leaves out moves only where it clashes with a floor or a
/// ceiling that the patch gives: the floor gives way to a ceiling that is not
/// above it, the boost ceiling to a lower ceiling, and the export floor to a
/// higher floor or a lower ceiling.
pub proof fn law_patch_moves_absent_fields_only_on_a_clash(s: OperatorSettings, p: SettingPatch)
    requires
        within_bounds(s),
    ensures
        ({
            let n = validated(patched(s, p));
            &&& p.v2h_soc_min is None ==> n.v2h_soc_min == (if p.v2h_soc_max is Some
                && s.v2h_soc_min >= n.v2h_soc_max {
                settled_floor(s.v2h_soc_min, n.v2h_soc_max)
            } else {
                s.v2h_soc_min
            })
            &&& p.v2h_soc_max_boost is None ==> n.v2h_soc_max_boost == (if p.v2h_soc_max is Some
                && s.v2h_soc_max_boost > n.v2h_soc_max {
                n.v2h_soc_max
            } else {
                s.v2h_soc_max_boost
            })
            &&& p.smart_export_soc_min is None ==> n.smart_export_soc_min == (
            if p.v2h_soc_min is Some && s.smart_export_soc_min < n.v2h_soc_min {
                n.v2h_soc_min
            } else if p.v2h_soc_max is Some && s.smart_export_soc_min > n.v2h_soc_max {
                n.v2h_soc_max
            } else {
                s.smart_export_soc_min
            })
        }),
{
}

/// Validation brings every number to the nearest value within its bounds, and
/// leaves it alone where it is within them: the ceiling, the charge limit and
/// the SoC to be ready with lie between 31 and 100 percent, the boost ceiling
/// between 31 and the ceiling, the export floor between the floor and the
/// ceiling, and the currents go up to 16 amps. A floor that does not lie below
/// the ceiling goes to five percent below it, though not under 31.
pub proof fn law_validation_goes_to_the_nearest_bound(s: OperatorSettings, n: OperatorSettings)
    requires
        n == validated(s) || call_ensures(update, (s,), n),
    ensures
        ({
            let top = n.v2h_soc_max;
            let low = n.v2h_soc_min;
            &&& 31 <= s.v2h_soc_max <= 100 ==> top == s.v2h_soc_max
            &&& s.v2h_soc_max < 31 ==> top == 31
            &&& s.v2h_soc_max > 100 ==> top == 100
            &&& 31 <= s.v2h_soc_min < top ==> low == s.v2h_soc_min
            &&& s.v2h_soc_min < 31 ==> low == 31
            &&& s.v2h_soc_min >= top && top >= 36 && s.v2h_soc_min >= 31 ==> low + 5 == top
            &&& s.v2h_soc_min >= top && top < 36 ==> low == 31
            &&& 31 <= s.v2h_soc_max_boost <= top ==> n.v2h_soc_max_boost == s.v2h_soc_max_boost
            &&& s.v2h_soc_max_boost < 31 ==> n.v2h_soc_max_boost == 31
            &&& s.v2h_soc_max_boost > top ==> n.v2h_soc_max_boost == top
            &&& low <= s.smart_export_soc_min <= top ==> n.smart_export_soc_min
                == s.smart_export_soc_min
            &&& s.smart_export_soc_min < low ==> n.smart_export_soc_min == low
            &&& s.smart_export_soc_min > top ==> n.smart_export_soc_min == top
            &&& 31 <= s.charge_soc_limit <= 100 ==> n.charge_soc_limit == s.charge_soc_limit
            &&& s.charge_soc_limit < 31 ==> n.charge_soc_limit == 31
            &&& s.charge_soc_limit > 100 ==> n.charge_soc_limit == 100
            &&& 31 <= s.ready_to_drive_soc <= 100 ==> n.ready_to_drive_soc == s.ready_to_drive_soc
            &&& s.ready_to_drive_soc < 31 ==> n.ready_to_drive_soc == 31
            &&& s.ready_to_drive_soc > 100 ==> n.ready_to_drive_soc == 100
            &&& s.v2h_max_amps <= 16 ==> n.v2h_max_amps == s.v2h_max_amps
            &&& s.v2h_max_amps > 16 ==> n.v2h_max_amps == 16
            &&& s.charge_amps <= 16 ==> n.charge_amps == s.charge_amps
            &&& s.charge_amps > 16 ==> n.charge_amps == 16
        }),
{
}

/// What a patch names takes effect: every switch, time, day and power limit as
/// it is given, whatever the settings were.
pub proof fn law_patch_sets_what_it_names(
    s: OperatorSettings,
    p: SettingPatch,
    n: OperatorSettings,
)
    requires
        call_ensures(patch, (&s, p), n),
    ensures
        ({
            &&& p.self_use matches Some(v) ==> n.self_use == v
            &&& p.export_excess_solar matches Some(v) ==> n.export_excess_solar == v
            &&& p.ev_drain_protection matches Some(v) ==> n.ev_drain_protection == v
            &&& p.ready_to_drive matches Some(v) ==> n.ready_to_drive == v
            &&& p.ready_to_drive_end_time matches Some(v) ==> n.ready_to_drive_end_time == v
            &&& p.ready_to_drive_start_time matches Some(v) ==> n.ready_to_drive_start_time == v
            &&& p.ready_to_drive_days matches Some(v) ==> n.ready_to_drive_days == v
            &&& p.off_peak_charging matches Some(v) ==> n.off_peak_charging == v
            &&& p.off_peak_start matches Some(v) ==> n.off_peak_start == v
            &&& p.off_peak_end matches Some(v) ==> n.off_peak_end == v
            &&& p.smart_charge matches Some(v) ==> n.smart_charge == v
            &&& p.smart_export matches Some(v) ==> n.smart_export == v
            &&& p.smart_export_limit_w matches Some(v) ==> n.smart_export_limit_w == v
            &&& p.smart_export_excess_solar matches Some(v) ==> n.smart_export_excess_solar == v
            &&& p.charge_eco matches Some(v) ==> n.charge_eco == v
        }),
{
}

/// What a patch names takes effect: every number as it is given where it is
/// within its bounds, and otherwise at the nearest bound.
pub proof fn law_patch_sets_the_numbers_it_names(
    s: OperatorSettings,
    p: SettingPatch,
    n: OperatorSettings,
)
    requires
        call_ensures(patch, (&s, p), n),
    ensures
        ({
            let top = n.v2h_soc_max;
            let low = n.v2h_soc_min;
            &&& p.v2h_soc_max matches Some(v) ==> {
                &&& 31 <= v <= 100 ==> top == v
                &&& v < 31 ==> top == 31
                &&& v > 100 ==> top == 100
            }
            &&& p.v2h_soc_min matches Some(v) ==> {
                &&& 31 <= v < top ==> low == v
                &&& v < 31 ==> low == 31
                &&& v >= top ==> low == 31 || low + 5 == top
            }
            &&& p.v2h_soc_max_boost matches Some(v) ==> {
                &&& 31 <= v <= top ==> n.v2h_soc_max_boost == v
                &&& v < 31 ==> n.v2h_soc_max_boost == 31
                &&& v > top ==> n.v2h_soc_max_boost == top
            }
            &&& p.smart_export_soc_min matches Some(v) ==> {
                &&& low <= v <= top ==> n.smart_export_soc_min == v
                &&& v < low ==> n.smart_export_soc_min == low
                &&& v > top ==> n.smart_export_soc_min == top
            }
            &&& p.charge_soc_limit matches Some(v) ==> {
                &&& 31 <= v <= 100 ==> n.charge_soc_limit == v
                &&& v < 31 ==> n.charge_soc_limit == 31
                &&& v > 100 ==> n.charge_soc_limit == 100
            }
            &&& p.ready_to_drive_soc matches Some(v) ==> {
                &&& 31 <= v <= 100 ==> n.ready_to_drive_soc == v
                &&& v < 31 ==> n.ready_to_drive_soc == 31
                &&& v > 100 ==> n.ready_to_drive_soc == 100
            }
            &&& p.v2h_max_amps matches Some(v) ==> {
                &&& v <= 16 ==> n.v2h_max_amps == v
                &&& v > 16 ==> n.v2h_max_amps == 16
            }
            &&& p.charge_amps matches Some(v) ==> {
                &&& v <= 16 ==> n.charge_amps == v
                &&& v > 16 ==> n.charge_amps == 16
            }
        }),
{
}

/// A patch that comes a second time changes nothing more.
pub proof fn law_patch_twice_is_once(s: OperatorSettings, p: SettingPatch)
    ensures
        patched(patched(s, p), p) == patched(s, p),
{
}

/// A charger that was never set up runs within the widest limits: its floors
/// are the lowest there are, its currents the highest, and all its upper SoC
/// settings but the boost ceiling are the same. It uses the battery for the
/// house and charges in cheap times, and neither exports nor holds nor makes
/// the vehicle ready on any day.
pub proof fn law_defaults_are_modest(s: OperatorSettings)
    requires
        is_default(s),
    ensures
        s.v2h_soc_min == 31 && s.smart_export_soc_min == s.v2h_soc_min,
        s.v2h_max_amps == 16 && s.charge_amps == s.v2h_max_amps,
        s.v2h_soc_max == 90 && s.ready_to_drive_soc == s.v2h_soc_max && s.charge_soc_limit
            == s.v2h_soc_max,
        s.v2h_soc_max_boost + 10 == s.v2h_soc_max,
        s.self_use && s.off_peak_charging && s.smart_charge,
        !s.export_excess_solar && !s.smart_export && !s.smart_export_excess_solar,
        !s.ev_drain_protection && !s.ready_to_drive && !s.charge_eco,
        forall|i: int| 0 <= i < 7 ==> !#[trigger] s.ready_to_drive_days@[i],
        s.smart_export_limit_w == 2500,
        s.off_peak_start@ == "23:30"@ && s.off_peak_end@ == "05:30"@,
        s.ready_to_drive_end_time@ == "08:00"@ && s.ready_to_drive_start_time@ == "--:--"@,
        validated(s) == s,
{
}

/// What was stored is what the charger starts with, where it is within its
/// bounds, and is not written again. Where nothing was stored the defaults are
/// used, and written.
pub proof fn law_stored_settings_are_loaded(
    stored: Option<OperatorSettings>,
    r: (OperatorSettings, bool),
)
    requires
        call_ensures(load, (stored,), r),
    ensures
        r.1 <==> stored is None,
        stored matches Some(s) ==> within_bounds(s) ==> r.0 == s,
        stored is None ==> is_default(r.0),
        within_bounds(r.0),
{
    if let Some(s) = stored {
        law_validated_within_bounds(s);
    }
}

/// Replacing all settings and patching them end in the same place: a patch does
/// what the settings with its changes in place would.
pub proof fn law_patch_is_an_update(
    current: OperatorSettings,
    p: SettingPatch,
    by_patch: OperatorSettings,
    by_update: OperatorSettings,
)
    requires
        call_ensures(patch, (&current, p), by_patch),
        call_ensures(update, (patched(current, p),), by_update),
    ensures
        by_patch == by_update,
        within_bounds(by_patch),
{
    law_validated_within_bounds(patched(current, p));
}

/// Settings are brought within their bounds in place as they are on the way in.
pub proof fn law_validation_in_place(s: &mut OperatorSettings, n: OperatorSettings)
    requires
        call_ensures(OperatorSettings::validate_and_clamp, (s,), ()),
        call_ensures(update, (*old(s),), n),
    ensures
        *final(s) == n,
{
}

} // verus!
