//! The charging loop: ten times a second it decides what current a session
//! asks for, from the mode, the supervisor's flags, the operator's settings
//! and the state of charge.
use vstd::prelude::*;

use crate::data_io::operator_settings::{lesser, min_u8, OperatorSettings};
use crate::data_io::supervisor::SupervisoryState;
use crate::global_state::OperationMode;
use crate::{MAX_AMPS, MAX_SOC, MIN_SOC};

verus! {

/// Ticks of the loop between two steps of the controller: one second.
pub const STEP_TICKS: u32 = 10;

/// The range and the balance point of the controller that follows the meter.
/// Amps below zero discharge the vehicle.
#[derive(Debug, Clone, Copy, PartialEq, Eq, Structural)]
pub struct Regulation {
    /// Least current, in amps
    pub lower: i16,
    /// Greatest current, in amps
    pub upper: i16,
    /// Power to export at balance, in watts
    pub export_w: u32,
    /// The target of earlier ticks is to be brought into the range first
    pub reclamp: bool,
}

/// Where the current of this tick comes from.
#[derive(Debug, Clone, Copy, PartialEq, Eq, Structural)]
pub enum Setpoint {
    /// No current
    Zero,
    /// No current, and the target of the controller is forgotten
    ZeroAndForget,
    /// Charge with `amps`, or with what the vehicle requests if that is less
    Charge { amps: u8 },
    /// Discharge with `amps`, or with what the vehicle allows if that is less
    Discharge { amps: u8 },
    /// Follow the meter within a range
    Follow(Regulation),
}

/// What a tick comes to.
#[derive(Debug, Clone, Copy, PartialEq, Eq, Structural)]
pub enum Tick {
    /// The session is over; the mode to go on with
    Exit(OperationMode),
    /// The vehicle is asked to stop charging; the current stays as it is
    Stop,
    /// Nothing happens
    Pass,
    /// The current is set. `step` says that the controller takes a step,
    /// `new_soc` that the state of charge is not that of the last such tick
    Run { setpoint: Setpoint, step: bool, new_soc: bool },
}

/// The greater of two values.
pub open spec fn greater(x: u8, y: u8) -> u8 {
    if x >= y {
        x
    } else {
        y
    }
}

fn max_u8(x: u8, y: u8) -> (r: u8)
    ensures
        r == greater(x, y),
{
    if x >= y {
        x
    } else {
        y
    }
}

/// The session's current limit.
pub open spec fn session_amps(s: OperatorSettings) -> u8 {
    lesser(s.v2h_max_amps, MAX_AMPS)
}

/// The SoC at and below which the vehicle is not discharged.
pub open spec fn soc_floor(s: OperatorSettings) -> u8 {
    greater(s.v2h_soc_min, MIN_SOC)
}

/// The SoC at which a charge ends.
pub open spec fn charge_limit(s: OperatorSettings) -> u8 {
    lesser(s.charge_soc_limit, MAX_SOC)
}

/// Charges with `amps` while the SoC is below `limit`.
pub open spec fn charge_below(limit: u8, soc: u8, amps: u8) -> Setpoint {
    if limit <= soc {
        Setpoint::Zero
    } else {
        Setpoint::Charge { amps }
    }
}

/// The current of off-peak charging. A charge that has stopped starts again
/// only once the SoC is more than one percent below the limit.
pub open spec fn off_peak_setpoint(s: OperatorSettings, soc: u8, stopped: bool) -> Setpoint {
    let limit = charge_limit(s);
    let restart = if limit >= 1 {
        limit - 1
    } else {
        0
    };
    if soc >= limit || (stopped && soc >= restart) {
        Setpoint::Zero
    } else {
        Setpoint::Charge { amps: lesser(lesser(s.charge_amps, s.v2h_max_amps), MAX_AMPS) }
    }
}

/// The current of smart export: the meter is held at the export limit, by
/// discharging only.
pub open spec fn export_setpoint(s: OperatorSettings, soc: u8) -> Setpoint {
    if soc <= soc_floor(s) {
        Setpoint::ZeroAndForget
    } else {
        Setpoint::Follow(
            Regulation {
                lower: -(session_amps(s) as i16) as i16,
                upper: 0,
                export_w: s.smart_export_limit_w,
                reclamp: false,
            },
        )
    }
}

/// The current of load matching: the meter is held at zero. The vehicle
/// charges unless it is full or surplus power is to be exported, and
/// discharges unless it is empty or its use is not wanted.
pub open spec fn matching_setpoint(s: OperatorSettings, soc: u8, export_surplus: bool) -> Setpoint {
    let amps = session_amps(s) as i16;
    Setpoint::Follow(
        Regulation {
            lower: if s.self_use && soc > soc_floor(s) {
                -amps as i16
            } else {
                0
            },
            upper: if s.export_excess_solar || export_surplus || soc >= lesser(
                s.v2h_soc_max,
                MAX_SOC,
            ) {
                0
            } else {
                amps
            },
            export_w: 0,
            reclamp: true,
        },
    )
}

/// The current in load matching, by what the supervisor has set to act.
pub open spec fn v2h_setpoint(
    sup: SupervisoryState,
    s: OperatorSettings,
    soc: u8,
    stopped: bool,
) -> Setpoint {
    if sup.ready_to_drive_active {
        charge_below(lesser(s.ready_to_drive_soc, MAX_SOC), soc, session_amps(s))
    } else if sup.off_peak_charging_active {
        off_peak_setpoint(s, soc, stopped)
    } else if sup.smart_export_active {
        export_setpoint(s, soc)
    } else if sup.smart_charge_active {
        charge_below(charge_limit(s), soc, lesser(s.charge_amps, MAX_AMPS))
    } else if sup.ev_drain_protection_active {
        Setpoint::Zero
    } else {
        matching_setpoint(s, soc, sup.smart_export_excess_solar_active)
    }
}

/// What the mode asks for, if it asks for a current at all: a discharge ends
/// at the floor and a charge at its limit.
pub open spec fn mode_setpoint(
    mode: OperationMode,
    sup: SupervisoryState,
    s: OperatorSettings,
    soc: u8,
    stopped: bool,
) -> Option<Setpoint> {
    match mode {
        OperationMode::V2h => Some(v2h_setpoint(sup, s, soc, stopped)),
        OperationMode::Discharge => if soc <= soc_floor(s) {
            None
        } else {
            Some(Setpoint::Discharge { amps: session_amps(s) })
        },
        OperationMode::Charge => if charge_limit(s) <= soc {
            None
        } else if s.charge_eco {
            Some(
                Setpoint::Follow(
                    Regulation {
                        lower: 0,
                        upper: lesser(s.charge_amps, MAX_AMPS) as i16,
                        export_w: 0,
                        reclamp: true,
                    },
                ),
            )
        } else {
            Some(Setpoint::Charge { amps: lesser(s.charge_amps, MAX_AMPS) })
        },
        _ => None,
    }
}

/// What a tick comes to while the vehicle charges; `ticks` counts from the
/// last step of the controller, this tick included.
pub open spec fn running(
    mode: OperationMode,
    sup: SupervisoryState,
    s: OperatorSettings,
    soc: u8,
    stopped: bool,
    ticks: u32,
    last_soc: u8,
) -> Tick {
    match mode_setpoint(mode, sup, s, soc, stopped) {
        Some(setpoint) => Tick::Run {
            setpoint,
            step: setpoint is Follow && ticks >= STEP_TICKS,
            new_soc: soc != last_soc,
        },
        None => if mode is Uninitalised {
            Tick::Pass
        } else {
            Tick::Stop
        },
    }
}

/// The mode to go on with once the vehicle has ended the charge.
pub open spec fn mode_after_session(mode: OperationMode) -> OperationMode {
    if mode is Quit {
        OperationMode::Quit
    } else {
        OperationMode::Idle
    }
}

/// What the loop carries from tick to tick.
#[derive(Debug, Clone, Copy)]
pub struct ChargeLoop {
    /// The mode that is run
    pub mode: OperationMode,
    /// Ticks since the last step of the controller
    pub inner_tick: u32,
    /// State of charge at the last tick that set a current
    pub last_soc: u8,
}

fn plan_charge_below(limit: u8, soc: u8, amps: u8) -> (r: Setpoint)
    ensures
        r == charge_below(limit, soc, amps),
{
    if limit <= soc {
        Setpoint::Zero
    } else {
        Setpoint::Charge { amps }
    }
}

/// Decides the current in load matching. `stopped` says that the current of
/// the last tick was zero.
pub fn plan_v2h(sup: &SupervisoryState, s: &OperatorSettings, soc: u8, stopped: bool) -> (r:
    Setpoint)
    ensures
        r == v2h_setpoint(*sup, *s, soc, stopped),
{
    let session: u8 = min_u8(s.v2h_max_amps, MAX_AMPS);
    let floor: u8 = max_u8(s.v2h_soc_min, MIN_SOC);
    let limit: u8 = min_u8(s.charge_soc_limit, MAX_SOC);
    if sup.ready_to_drive_active {
        plan_charge_below(min_u8(s.ready_to_drive_soc, MAX_SOC), soc, session)
    } else if sup.off_peak_charging_active {
        if soc >= limit || (stopped && soc >= limit.saturating_sub(1)) {
            Setpoint::Zero
        } else {
            Setpoint::Charge { amps: min_u8(min_u8(s.charge_amps, s.v2h_max_amps), MAX_AMPS) }
        }
    } else if sup.smart_export_active {
        if soc <= floor {
            Setpoint::ZeroAndForget
        } else {
            Setpoint::Follow(
                Regulation {
                    lower: -(session as i16),
                    upper: 0,
                    export_w: s.smart_export_limit_w,
                    reclamp: false,
                },
            )
        }
    } else if sup.smart_charge_active {
        plan_charge_below(limit, soc, min_u8(s.charge_amps, MAX_AMPS))
    } else if sup.ev_drain_protection_active {
        Setpoint::Zero
    } else {
        let full = soc >= min_u8(s.v2h_soc_max, MAX_SOC);
        let surplus = s.export_excess_solar || sup.smart_export_excess_solar_active;
        Setpoint::Follow(
            Regulation {
                lower: if s.self_use && soc > floor {
                    -(session as i16)
                } else {
                    0
                },
                upper: if surplus || full {
                    0
                } else {
                    session as i16
                },
                export_w: 0,
                reclamp: true,
            },
        )
    }
}

/// Decides what the mode asks for.
pub fn plan_mode(
    mode: OperationMode,
    sup: &SupervisoryState,
    s: &OperatorSettings,
    soc: u8,
    stopped: bool,
) -> (r: Option<Setpoint>)
    ensures
        r == mode_setpoint(mode, *sup, *s, soc, stopped),
{
    match mode {
        OperationMode::V2h => Some(plan_v2h(sup, s, soc, stopped)),
        OperationMode::Discharge => {
            if soc <= max_u8(s.v2h_soc_min, MIN_SOC) {
                None
            } else {
                Some(Setpoint::Discharge { amps: min_u8(s.v2h_max_amps, MAX_AMPS) })
            }
        },
        OperationMode::Charge => {
            let amps: u8 = min_u8(s.charge_amps, MAX_AMPS);
            if min_u8(s.charge_soc_limit, MAX_SOC) <= soc {
                None
            } else if s.charge_eco {
                Some(
                    Setpoint::Follow(
                        Regulation { lower: 0, upper: amps as i16, export_w: 0, reclamp: true },
                    ),
                )
            } else {
                Some(Setpoint::Charge { amps })
            }
        },
        _ => None,
    }
}

impl ChargeLoop {
    /// The loop at the start of a session.
    pub fn new(mode: OperationMode, soc: u8) -> (r: Self)
        ensures
            r.mode == mode,
            r.inner_tick == 0,
            r.last_soc == soc,
    {
        ChargeLoop { mode, inner_tick: 0, last_soc: soc }
    }

    /// One tick. `vehicle_charging` is what the vehicle reports, `received` a
    /// mode that has come in since the last tick, `stopped` says that the
    /// current of the last tick was zero.
    pub fn tick(
        &mut self,
        vehicle_charging: bool,
        received: Option<OperationMode>,
        sup: &SupervisoryState,
        settings: &OperatorSettings,
        soc: u8,
        stopped: bool,
    ) -> (r: Tick)
        requires
            old(self).inner_tick < u32::MAX,
        ensures
            !vehicle_charging ==> *final(self) == *old(self) && r == Tick::Exit(
                mode_after_session(old(self).mode),
            ),
            vehicle_charging ==> {
                &&& final(self).mode == (match received {
                    Some(mode) => mode,
                    None => old(self).mode,
                })
                &&& r == running(
                    final(self).mode,
                    *sup,
                    *settings,
                    soc,
                    stopped,
                    (old(self).inner_tick + 1) as u32,
                    old(self).last_soc,
                )
                &&& final(self).inner_tick == (if r matches Tick::Run { step: true, .. } {
                    0
                } else {
                    old(self).inner_tick + 1
                })
                &&& final(self).last_soc == (if r is Run {
                    soc
                } else {
                    old(self).last_soc
                })
            },
    {
        if !vehicle_charging {
            return Tick::Exit(
                if self.mode.is_quit() {
                    OperationMode::Quit
                } else {
                    OperationMode::Idle
                },
            );
        }
        self.inner_tick = self.inner_tick + 1;
        if let Some(mode) = received {
            self.mode = mode;
        }
        match plan_mode(self.mode, sup, settings, soc, stopped) {
            Some(setpoint) => {
                let step = matches!(setpoint, Setpoint::Follow(_)) && self.inner_tick >= STEP_TICKS;
                if step {
                    self.inner_tick = 0;
                }
                let new_soc = soc != self.last_soc;
                self.last_soc = soc;
                Tick::Run { setpoint, step, new_soc }
            },
            None => if self.mode.is_uninitalised() {
                Tick::Pass
            } else {
                Tick::Stop
            },
        }
    }
}

/// The vehicle may be discharged by this setpoint.
pub open spec fn may_discharge(p: Setpoint) -> bool {
    match p {
        Setpoint::Discharge { .. } => true,
        Setpoint::Follow(r) => r.lower < 0,
        _ => false,
    }
}

/// The vehicle may be charged by this setpoint.
pub open spec fn may_charge(p: Setpoint) -> bool {
    match p {
        Setpoint::Charge { .. } => true,
        Setpoint::Follow(r) => r.upper > 0,
        _ => false,
    }
}

/// No mode, flag or setting leads to a current above the limit of the charger
/// in either direction.
pub proof fn law_current_is_limited(
    mode: OperationMode,
    sup: SupervisoryState,
    s: OperatorSettings,
    soc: u8,
    stopped: bool,
)
    ensures
        match mode_setpoint(mode, sup, s, soc, stopped) {
            Some(Setpoint::Charge { amps }) => amps <= MAX_AMPS,
            Some(Setpoint::Discharge { amps }) => amps <= MAX_AMPS,
            Some(Setpoint::Follow(r)) => -(MAX_AMPS as int) <= r.lower <= 0 <= r.upper <= MAX_AMPS,
            _ => true,
        },
{
}

/// The vehicle is never discharged at or below the floor that is set, nor at
/// or below the floor of the charger.
pub proof fn law_no_discharge_at_the_floor(
    mode: OperationMode,
    sup: SupervisoryState,
    s: OperatorSettings,
    soc: u8,
    stopped: bool,
)
    requires
        soc <= s.v2h_soc_min || soc <= MIN_SOC,
    ensures
        !(mode_setpoint(mode, sup, s, soc, stopped) matches Some(p) && may_discharge(p)),
{
}

/// The vehicle is never charged at or above a full battery, nor in charge mode
/// or by smart or off-peak charging at or above the charge limit, nor in plain
/// load matching at or above its ceiling.
pub proof fn law_no_charge_at_the_limit(
    mode: OperationMode,
    sup: SupervisoryState,
    s: OperatorSettings,
    soc: u8,
    stopped: bool,
)
    requires
        ({
            ||| soc >= MAX_SOC
            ||| mode is Charge && soc >= s.charge_soc_limit
            ||| mode is V2h && sup.ready_to_drive_active && soc >= s.ready_to_drive_soc
            ||| mode is V2h && !sup.ready_to_drive_active && (sup.off_peak_charging_active || (
            sup.smart_charge_active && !sup.smart_export_active)) && soc >= s.charge_soc_limit
            ||| mode is V2h && !sup.ready_to_drive_active && !sup.off_peak_charging_active
                && !sup.smart_charge_active && soc >= s.v2h_soc_max
        }),
    ensures
        !(mode_setpoint(mode, sup, s, soc, stopped) matches Some(p) && may_charge(p)),
{
}

/// An export only ever discharges, and never while the vehicle is made ready
/// or charged off-peak.
pub proof fn law_export_only_discharges(
    sup: SupervisoryState,
    s: OperatorSettings,
    soc: u8,
    stopped: bool,
)
    ensures
        sup.smart_export_active && !sup.ready_to_drive_active && !sup.off_peak_charging_active
            ==> !may_charge(v2h_setpoint(sup, s, soc, stopped)),
        sup.ready_to_drive_active || sup.off_peak_charging_active ==> !may_discharge(
            v2h_setpoint(sup, s, soc, stopped),
        ),
{
}

/// Drain protection, once it is what acts, asks for no current at all.
pub proof fn law_drain_protection_holds_at_zero(
    sup: SupervisoryState,
    s: OperatorSettings,
    soc: u8,
    stopped: bool,
)
    requires
        sup.ev_drain_protection_active,
        !sup.ready_to_drive_active,
        !sup.off_peak_charging_active,
        !sup.smart_export_active,
        !sup.smart_charge_active,
    ensures
        v2h_setpoint(sup, s, soc, stopped) == Setpoint::Zero,
{
}

/// Off-peak charging that has stopped does not start again within one percent
/// of the limit.
pub proof fn law_off_peak_deadband(s: OperatorSettings, soc: u8)
    requires
        soc + 1 >= charge_limit(s),
    ensures
        off_peak_setpoint(s, soc, true) == Setpoint::Zero,
{
}

/// Asked to idle or to quit, the session asks the vehicle to stop.
pub proof fn law_idle_and_quit_stop(
    mode: OperationMode,
    sup: SupervisoryState,
    s: OperatorSettings,
    soc: u8,
    stopped: bool,
    ticks: u32,
    last_soc: u8,
)
    requires
        mode is Idle || mode is Quit,
    ensures
        running(mode, sup, s, soc, stopped, ticks, last_soc) == Tick::Stop,
{
}

/// The loop goes by what the supervisor has set to act, and by nothing else
/// that the supervisor holds.
pub proof fn law_loop_reads_only_active_flags(
    mode: OperationMode,
    a: SupervisoryState,
    b: SupervisoryState,
    s: OperatorSettings,
    soc: u8,
    stopped: bool,
)
    requires
        a.smart_charge_active == b.smart_charge_active,
        a.ev_drain_protection_active == b.ev_drain_protection_active,
        a.smart_export_active == b.smart_export_active,
        a.smart_export_excess_solar_active == b.smart_export_excess_solar_active,
        a.ready_to_drive_active == b.ready_to_drive_active,
        a.off_peak_charging_active == b.off_peak_charging_active,
    ensures
        mode_setpoint(mode, a, s, soc, stopped) == mode_setpoint(mode, b, s, soc, stopped),
{
}

/// After a step of the controller the next one is at least a second away.
pub proof fn law_steps_are_a_second_apart(
    mode: OperationMode,
    sup: SupervisoryState,
    s: OperatorSettings,
    soc: u8,
    stopped: bool,
    ticks: u32,
    last_soc: u8,
)
    ensures
        running(mode, sup, s, soc, stopped, ticks, last_soc) matches Tick::Run { step: true, .. }
            ==> ticks >= STEP_TICKS,
{
}

/// Load matching never ends a session of itself: where a feature has reached
/// its limit the current is held at zero, and the session stays alive.
pub proof fn law_features_hold_at_zero(
    sup: SupervisoryState,
    s: OperatorSettings,
    soc: u8,
    stopped: bool,
    ticks: u32,
    last_soc: u8,
)
    ensures
        running(OperationMode::V2h, sup, s, soc, stopped, ticks, last_soc) is Run,
        sup.ready_to_drive_active && soc >= s.ready_to_drive_soc ==> v2h_setpoint(
            sup,
            s,
            soc,
            stopped,
        ) == Setpoint::Zero,
        !sup.ready_to_drive_active && sup.off_peak_charging_active && soc >= s.charge_soc_limit
            ==> v2h_setpoint(sup, s, soc, stopped) == Setpoint::Zero,
        !sup.ready_to_drive_active && !sup.off_peak_charging_active && sup.smart_export_active
            && soc <= s.v2h_soc_min ==> v2h_setpoint(sup, s, soc, stopped)
            == Setpoint::ZeroAndForget,
{
}

/// Whatever runs in load matching but smart charge, its current in either
/// direction never exceeds the limit that the operator has set for the session.
pub proof fn law_session_limit_bounds_load_matching(
    sup: SupervisoryState,
    s: OperatorSettings,
    soc: u8,
    stopped: bool,
)
    requires
        !sup.smart_charge_active || sup.ready_to_drive_active || sup.off_peak_charging_active
            || sup.smart_export_active,
    ensures
        match v2h_setpoint(sup, s, soc, stopped) {
            Setpoint::Charge { amps } => amps <= s.v2h_max_amps && amps <= 16,
            Setpoint::Discharge { .. } => false,
            Setpoint::Follow(r) => {
                &&& -(s.v2h_max_amps as int) <= r.lower <= 0 <= r.upper <= s.v2h_max_amps
                &&& -16 <= r.lower && r.upper <= 16
            },
            _ => true,
        },
{
}

/// Plain load matching follows the meter with the full current of the session:
/// it charges unless the battery is at its ceiling or surplus power is to be
/// exported, and discharges unless the battery is at its floor or its use is
/// not wanted. In a direction that is open the range goes up to the limit of
/// the operator or that of the charger, whichever is lower.
pub proof fn law_load_matching_uses_the_whole_range(
    sup: SupervisoryState,
    s: OperatorSettings,
    soc: u8,
    stopped: bool,
)
    requires
        !sup.ready_to_drive_active,
        !sup.off_peak_charging_active,
        !sup.smart_export_active,
        !sup.smart_charge_active,
        !sup.ev_drain_protection_active,
    ensures
        ({
            let closed_up = s.export_excess_solar || sup.smart_export_excess_solar_active || soc
                >= s.v2h_soc_max || soc >= 100;
            let closed_down = !s.self_use || soc <= s.v2h_soc_min || soc <= 31;
            &&& v2h_setpoint(sup, s, soc, stopped) matches Setpoint::Follow(r)
            &&& r.export_w == 0
            &&& r.reclamp
            &&& closed_up ==> r.upper == 0
            &&& !closed_up ==> {
                &&& r.upper <= s.v2h_max_amps && r.upper <= 16
                &&& r.upper == s.v2h_max_amps || r.upper == 16
            }
            &&& closed_down ==> r.lower == 0
            &&& !closed_down ==> {
                &&& -r.lower <= s.v2h_max_amps && -r.lower <= 16
                &&& -r.lower == s.v2h_max_amps || -r.lower == 16
            }
        }),
{
}

/// Ready to drive charges, with the full current of the session, exactly below
/// its target.
pub proof fn law_ready_to_drive_charges_to_its_target(
    sup: SupervisoryState,
    s: OperatorSettings,
    soc: u8,
    stopped: bool,
)
    requires
        sup.ready_to_drive_active,
    ensures
        soc >= s.ready_to_drive_soc || soc >= 100 ==> v2h_setpoint(sup, s, soc, stopped)
            == Setpoint::Zero,
        soc < s.ready_to_drive_soc && soc < 100 ==> {
            &&& v2h_setpoint(sup, s, soc, stopped) matches Setpoint::Charge { amps }
            &&& amps <= s.v2h_max_amps && amps <= 16
            &&& amps == s.v2h_max_amps || amps == 16
        },
{
}

/// Off-peak charging runs up to the charge limit, with the lowest of the
/// charge current, the limit of the session and that of the charger. Once
/// stopped it starts again only where the battery is more than a percent below
/// the limit.
pub proof fn law_off_peak_charges_to_the_limit(
    sup: SupervisoryState,
    s: OperatorSettings,
    soc: u8,
    stopped: bool,
)
    requires
        sup.off_peak_charging_active,
        !sup.ready_to_drive_active,
    ensures
        ({
            let near: int = if stopped {
                soc + 1
            } else {
                soc as int
            };
            &&& near >= s.charge_soc_limit || near >= 100 ==> v2h_setpoint(sup, s, soc, stopped)
                == Setpoint::Zero
            &&& near < s.charge_soc_limit && near < 100 ==> {
                &&& v2h_setpoint(sup, s, soc, stopped) matches Setpoint::Charge { amps }
                &&& amps <= s.charge_amps && amps <= s.v2h_max_amps && amps <= 16
                &&& amps == s.charge_amps || amps == s.v2h_max_amps || amps == 16
            }
        }),
{
}

/// Smart export discharges down to the floor, with the full current of the
/// session, and holds the meter at the export limit.
pub proof fn law_smart_export_discharges_to_the_floor(
    sup: SupervisoryState,
    s: OperatorSettings,
    soc: u8,
    stopped: bool,
)
    requires
        sup.smart_export_active,
        !sup.ready_to_drive_active,
        !sup.off_peak_charging_active,
    ensures
        soc <= s.v2h_soc_min || soc <= 31 ==> v2h_setpoint(sup, s, soc, stopped)
            == Setpoint::ZeroAndForget,
        soc > s.v2h_soc_min && soc > 31 ==> {
            &&& v2h_setpoint(sup, s, soc, stopped) matches Setpoint::Follow(r)
            &&& r.upper == 0
            &&& r.export_w == s.smart_export_limit_w
            &&& !r.reclamp
            &&& -r.lower <= s.v2h_max_amps && -r.lower <= 16
            &&& -r.lower == s.v2h_max_amps || -r.lower == 16
        },
{
}

/// Smart charge charges up to the charge limit, with the lower of the charge
/// current and the limit of the charger.
pub proof fn law_smart_charge_charges_to_the_limit(
    sup: SupervisoryState,
    s: OperatorSettings,
    soc: u8,
    stopped: bool,
)
    requires
        sup.smart_charge_active,
        !sup.ready_to_drive_active,
        !sup.off_peak_charging_active,
        !sup.smart_export_active,
    ensures
        soc >= s.charge_soc_limit || soc >= 100 ==> v2h_setpoint(sup, s, soc, stopped)
            == Setpoint::Zero,
        soc < s.charge_soc_limit && soc < 100 ==> {
            &&& v2h_setpoint(sup, s, soc, stopped) matches Setpoint::Charge { amps }
            &&& amps <= s.charge_amps && amps <= 16
            &&& amps == s.charge_amps || amps == 16
        },
{
}

/// A forced discharge runs down to the floor with the full current of the
/// session, and then asks for nothing more.
pub proof fn law_discharge_runs_to_the_floor(
    sup: SupervisoryState,
    s: OperatorSettings,
    soc: u8,
    stopped: bool,
)
    ensures
        soc <= s.v2h_soc_min || soc <= 31 <==> mode_setpoint(
            OperationMode::Discharge,
            sup,
            s,
            soc,
            stopped,
        ) is None,
        mode_setpoint(OperationMode::Discharge, sup, s, soc, stopped) matches Some(p) ==> {
            &&& p matches Setpoint::Discharge { amps }
            &&& amps <= s.v2h_max_amps && amps <= 16
            &&& amps == s.v2h_max_amps || amps == 16
        },
{
}

/// A charge runs up to its limit, with the lower of the charge current and the
/// limit of the charger. An eco charge takes up to that from the surplus and
/// never discharges.
pub proof fn law_charge_runs_to_the_limit(
    sup: SupervisoryState,
    s: OperatorSettings,
    soc: u8,
    stopped: bool,
)
    ensures
        soc >= s.charge_soc_limit || soc >= 100 <==> mode_setpoint(
            OperationMode::Charge,
            sup,
            s,
            soc,
            stopped,
        ) is None,
        mode_setpoint(OperationMode::Charge, sup, s, soc, stopped) matches Some(p) ==> {
            if s.charge_eco {
                &&& p matches Setpoint::Follow(r)
                &&& r.lower == 0 && r.export_w == 0 && r.reclamp
                &&& r.upper <= s.charge_amps && r.upper <= 16
                &&& r.upper == s.charge_amps || r.upper == 16
            } else {
                &&& p matches Setpoint::Charge { amps }
                &&& amps <= s.charge_amps && amps <= 16
                &&& amps == s.charge_amps || amps == 16
            }
        },
{
}

/// A tick sets a current exactly where the mode asks for one. The controller
/// steps where it follows the meter and ten ticks have gone by, and a change of
/// the state of charge is noticed. Where the mode asks for none the vehicle is
/// asked to stop, but for a bad mode, in which nothing happens.
pub proof fn law_tick_follows_the_mode(
    mode: OperationMode,
    sup: SupervisoryState,
    s: OperatorSettings,
    soc: u8,
    stopped: bool,
    ticks: u32,
    last_soc: u8,
)
    ensures
        match running(mode, sup, s, soc, stopped, ticks, last_soc) {
            Tick::Run { setpoint, step, new_soc } => {
                &&& mode_setpoint(mode, sup, s, soc, stopped) == Some(setpoint)
                &&& step <==> setpoint is Follow && ticks >= 10
                &&& new_soc <==> soc != last_soc
            },
            Tick::Stop => mode_setpoint(mode, sup, s, soc, stopped) is None && !(
            mode is Uninitalised),
            Tick::Pass => mode is Uninitalised,
            Tick::Exit(_) => false,
        },
        mode is Idle || mode is Quit || mode is Uninitalised ==> mode_setpoint(
            mode,
            sup,
            s,
            soc,
            stopped,
        ) is None,
{
}

/// A session that the vehicle has ended goes on to quit exactly where it was
/// asked to, and to idle otherwise.
pub proof fn law_session_exits_to_idle_or_quit(mode: OperationMode)
    ensures
        mode_after_session(mode) == OperationMode::Quit <==> mode == OperationMode::Quit,
        mode != OperationMode::Quit ==> mode_after_session(mode) == OperationMode::Idle,
{
}

/// The current goes by the ten settings that concern it. Settings that agree
/// in these lead to the same current, whatever the others are.
pub proof fn law_setpoint_goes_by_its_settings(
    mode: OperationMode,
    sup: SupervisoryState,
    s: OperatorSettings,
    t: OperatorSettings,
    soc: u8,
    stopped: bool,
)
    requires
        s.v2h_soc_min == t.v2h_soc_min,
        s.v2h_soc_max == t.v2h_soc_max,
        s.v2h_max_amps == t.v2h_max_amps,
        s.self_use == t.self_use,
        s.export_excess_solar == t.export_excess_solar,
        s.ready_to_drive_soc == t.ready_to_drive_soc,
        s.smart_export_limit_w == t.smart_export_limit_w,
        s.charge_soc_limit == t.charge_soc_limit,
        s.charge_amps == t.charge_amps,
        s.charge_eco == t.charge_eco,
    ensures
        mode_setpoint(mode, sup, s, soc, stopped) == mode_setpoint(mode, sup, t, soc, stopped),
{
}

/// The session ends exactly when the vehicle stops, and then nothing else
/// changes. Until then a mode that comes in is run from this tick on.
pub proof fn law_loop_ends_with_the_vehicle(
    run: &mut ChargeLoop,
    vehicle_charging: bool,
    received: Option<OperationMode>,
    sup: SupervisoryState,
    s: OperatorSettings,
    soc: u8,
    stopped: bool,
    tick: Tick,
)
    requires
        old(run).inner_tick < u32::MAX,
        call_ensures(
            ChargeLoop::tick,
            (run, vehicle_charging, received, &sup, &s, soc, stopped),
            tick,
        ),
    ensures
        ({
            let before = *old(run);
            let after = *final(run);
            &&& tick is Exit <==> !vehicle_charging
            &&& !vehicle_charging ==> after == before
            &&& vehicle_charging && received is Some ==> Some(after.mode) == received
            &&& vehicle_charging && received is None ==> after.mode == before.mode
            &&& tick matches Tick::Run { setpoint, .. } ==> mode_setpoint(
                after.mode,
                sup,
                s,
                soc,
                stopped,
            ) == Some(setpoint)
        }),
{
}

/// While the controller follows the meter from tick to tick it steps at every
/// tenth: a tick steps exactly where nine or more have gone by since the last
/// step, and the count starts anew after a step and goes up by one otherwise.
pub proof fn law_controller_steps_at_every_tenth_tick(
    run: &mut ChargeLoop,
    received: Option<OperationMode>,
    sup: SupervisoryState,
    s: OperatorSettings,
    soc: u8,
    stopped: bool,
    tick: Tick,
)
    requires
        old(run).inner_tick < u32::MAX,
        call_ensures(
            ChargeLoop::tick,
            (run, true, received, &sup, &s, soc, stopped),
            tick,
        ),
    ensures
        ({
            let before = *old(run);
            let after = *final(run);
            &&& tick matches Tick::Run { setpoint: Setpoint::Follow(_), step, .. } ==> (step
                <==> before.inner_tick >= 9)
            &&& tick matches Tick::Run { step: true, .. } ==> after.inner_tick == 0
            &&& !(tick matches Tick::Run { step: true, .. }) ==> after.inner_tick
                == before.inner_tick + 1
            &&& tick is Run ==> after.last_soc == soc
            &&& !(tick is Run) ==> after.last_soc == before.last_soc
        }),
{
}

/// In load matching the supervisor decides, and a session is asked for a
/// current at every tick.
pub proof fn law_load_matching_always_has_a_setpoint(
    sup: SupervisoryState,
    s: OperatorSettings,
    soc: u8,
    stopped: bool,
)
    ensures
        mode_setpoint(OperationMode::V2h, sup, s, soc, stopped) == Some(
            v2h_setpoint(sup, s, soc, stopped),
        ),
{
}

/// A session starts in the mode that it is given, with the controller's count at
/// zero and the state of charge of its start.
pub proof fn law_loop_starts_afresh(mode: OperationMode, soc: u8, r: ChargeLoop)
    requires
        call_ensures(ChargeLoop::new, (mode, soc), r),
    ensures
        r.mode == mode,
        r.inner_tick == 0,
        r.last_soc == soc,
{
}

/// A tick says what the mode that runs after it comes to: the end of the
/// session, the current that the mode asks for, with the changes since the last
/// tick, a stop where it asks for none, and nothing in the bad state.
pub proof fn law_ticks_say_what_the_mode_comes_to(
    run: &mut ChargeLoop,
    vehicle_charging: bool,
    received: Option<OperationMode>,
    sup: SupervisoryState,
    s: OperatorSettings,
    soc: u8,
    stopped: bool,
    tick: Tick,
)
    requires
        old(run).inner_tick < u32::MAX,
        call_ensures(
            ChargeLoop::tick,
            (run, vehicle_charging, received, &sup, &s, soc, stopped),
            tick,
        ),
    ensures
        ({
            let before = *old(run);
            let after = *final(run);
            let wish = mode_setpoint(after.mode, sup, s, soc, stopped);
            &&& tick == Tick::Exit(OperationMode::Quit) <==> !vehicle_charging && before.mode
                == OperationMode::Quit
            &&& tick == Tick::Exit(OperationMode::Idle) <==> !vehicle_charging && before.mode
                != OperationMode::Quit
            &&& tick matches Tick::Run { setpoint, step, new_soc } ==> (new_soc <==> soc
                != before.last_soc) && (step ==> setpoint is Follow)
            &&& tick is Run <==> vehicle_charging && wish is Some
            &&& tick is Stop <==> vehicle_charging && wish is None && after.mode
                != OperationMode::Uninitalised
            &&& tick is Pass <==> vehicle_charging && after.mode == OperationMode::Uninitalised
        }),
{
}

} // verus!
