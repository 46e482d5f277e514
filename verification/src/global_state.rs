//! The mode that the charger is asked to run in.
use vstd::prelude::*;

verus! {

/// What the charger is to do with the vehicle.
#[derive(Debug, Clone, Copy, PartialEq, Eq, Structural)]
pub enum OperationMode {
    /// Bidirectional load matching
    V2h,
    /// Charge using settings from OperatorSettings
    Charge,
    /// Safe idle mode - plug unlocked
    Idle,
    /// Bad state
    Uninitalised,
    /// Shutdown all peripherals and safely unlock plug
    Quit,
    /// Forced discharge mode, with the amps and the SoC floor from OperatorSettings
    Discharge,
}

impl Default for OperationMode {
    fn default() -> (mode: Self)
        ensures
            mode == OperationMode::Idle,
    {
        OperationMode::Idle
    }
}

/// The mode that the boost button leads to.
pub open spec fn boosted(mode: OperationMode) -> OperationMode {
    match mode {
        OperationMode::Quit => OperationMode::Quit,
        OperationMode::Uninitalised => OperationMode::Idle,
        OperationMode::Charge => OperationMode::V2h,
        OperationMode::Discharge | OperationMode::V2h | OperationMode::Idle => OperationMode::Charge,
    }
}

/// The mode that the on/off button leads to.
pub open spec fn toggled(mode: OperationMode) -> OperationMode {
    match mode {
        OperationMode::Quit => OperationMode::Quit,
        OperationMode::Idle => OperationMode::V2h,
        _ => OperationMode::Idle,
    }
}

impl OperationMode {
    /// No session runs in these modes.
    pub open spec fn inactive(self) -> bool {
        self is Idle || self is Quit || self is Uninitalised
    }

    pub fn is_discharge(&self) -> (yes: bool)
        ensures
            yes == (self is Discharge),
    {
        matches!(self, OperationMode::Discharge)
    }

    /// The boost button: starts a charge, or goes from a charge back to load
    /// matching.
    pub fn boost(&mut self)
        ensures
            *final(self) == boosted(*old(self)),
    {
        *self = match self {
            OperationMode::Quit => OperationMode::Quit,
            OperationMode::Uninitalised => OperationMode::Idle,
            OperationMode::Discharge | OperationMode::V2h | OperationMode::Idle => {
                OperationMode::Charge
            },
            OperationMode::Charge => OperationMode::V2h,
        };
    }

    /// The on/off button: stops what runs, or starts load matching.
    pub fn onoff(&mut self)
        ensures
            *final(self) == toggled(*old(self)),
    {
        *self = match self {
            OperationMode::Quit => OperationMode::Quit,
            OperationMode::Uninitalised => OperationMode::Idle,
            OperationMode::Discharge | OperationMode::V2h | OperationMode::Charge => {
                OperationMode::Idle
            },
            OperationMode::Idle => OperationMode::V2h,
        };
    }

    pub fn idle(&mut self)
        ensures
            *final(self) == OperationMode::Idle,
    {
        *self = OperationMode::Idle;
    }

    pub fn is_idle(&self) -> (yes: bool)
        ensures
            yes == (self is Idle),
    {
        matches!(self, OperationMode::Idle)
    }

    pub fn is_quit(&self) -> (yes: bool)
        ensures
            yes == (self is Quit),
    {
        matches!(self, OperationMode::Quit)
    }

    pub fn is_uninitalised(&self) -> (yes: bool)
        ensures
            yes == (self is Uninitalised),
    {
        matches!(self, OperationMode::Uninitalised)
    }

    pub fn is_inactive(&self) -> (yes: bool)
        ensures
            yes == self.inactive(),
    {
        self.is_idle() || self.is_quit() || self.is_uninitalised()
    }

    pub fn is_charge(&self) -> (yes: bool)
        ensures
            yes == (self is Charge),
    {
        matches!(self, OperationMode::Charge)
    }

    pub fn is_v2h(&self) -> (yes: bool)
        ensures
            yes == (self is V2h),
    {
        matches!(self, OperationMode::V2h)
    }
}

/// No button leads out of Quit, and none leads into it.
pub proof fn law_buttons_keep_quit(mode: OperationMode)
    ensures
        boosted(mode) is Quit <==> mode is Quit,
        toggled(mode) is Quit <==> mode is Quit,
{
}

/// The on/off button stops whatever runs, and pressed again starts load
/// matching.
pub proof fn law_onoff_stops_then_starts(mode: OperationMode)
    requires
        !mode.inactive(),
    ensures
        toggled(mode) is Idle,
        toggled(toggled(mode)) is V2h,
{
}

/// Pressed twice, the boost button leads to load matching from every mode in
/// which the first press starts a charge.
pub proof fn law_boost_twice(mode: OperationMode)
    requires
        boosted(mode) is Charge,
    ensures
        boosted(boosted(mode)) is V2h,
{
}

/// The boost button starts a charge from load matching, from a discharge and
/// from rest, and leads from the bad state to rest.
pub proof fn law_boost_starts_a_charge(mode: &mut OperationMode)
    requires
        call_ensures(OperationMode::boost, (mode,), ()),
    ensures
        *final(mode) is Charge <==> *old(mode) is V2h || *old(mode) is Discharge || *old(mode) is Idle,
        *final(mode) is V2h <==> *old(mode) is Charge,
        *final(mode) is Idle <==> *old(mode) is Uninitalised,
{
}

/// The on/off button starts load matching from rest, and from rest only; from
/// every other mode but Quit it leads to rest.
pub proof fn law_onoff_leads_to_rest_and_back(mode: &mut OperationMode)
    requires
        call_ensures(OperationMode::onoff, (mode,), ()),
    ensures
        *final(mode) is V2h <==> *old(mode) is Idle,
        *final(mode) is Idle <==> *old(mode) is V2h || *old(mode) is Charge || *old(mode) is Discharge
            || *old(mode) is Uninitalised,
{
}

/// The buttons start sessions, and only load matching and charges: a discharge
/// is never started by hand.
pub proof fn law_buttons_start_no_discharge(mode: OperationMode)
    ensures
        !(boosted(mode) is Discharge) && !(toggled(mode) is Discharge),
        !(boosted(mode) is Uninitalised) && !(toggled(mode) is Uninitalised),
{
}

/// Each mode is told from all others: of the tests for a mode exactly one
/// holds, and a mode is inactive where it is none of the three that run a
/// session.
pub proof fn law_modes_are_told_apart(
    mode: OperationMode,
    v2h: bool,
    charge: bool,
    idle: bool,
    uninitalised: bool,
    quit: bool,
    discharge: bool,
    inactive: bool,
)
    requires
        call_ensures(OperationMode::is_v2h, (&mode,), v2h),
        call_ensures(OperationMode::is_charge, (&mode,), charge),
        call_ensures(OperationMode::is_idle, (&mode,), idle),
        call_ensures(OperationMode::is_uninitalised, (&mode,), uninitalised),
        call_ensures(OperationMode::is_quit, (&mode,), quit),
        call_ensures(OperationMode::is_discharge, (&mode,), discharge),
        call_ensures(OperationMode::is_inactive, (&mode,), inactive),
    ensures
        v2h <==> mode == OperationMode::V2h,
        charge <==> mode == OperationMode::Charge,
        idle <==> mode == OperationMode::Idle,
        uninitalised <==> mode == OperationMode::Uninitalised,
        quit <==> mode == OperationMode::Quit,
        discharge <==> mode == OperationMode::Discharge,
        inactive <==> !v2h && !charge && !discharge,
{
}

/// Whatever the mode was, a request for rest leads to rest.
pub proof fn law_idle_is_idle(mode: &mut OperationMode)
    requires
        call_ensures(OperationMode::idle, (mode,), ()),
    ensures
        *final(mode) == OperationMode::Idle,
{
}

} // verus!
