//! The lines of the charger as its status shows them.
use vstd::prelude::*;

verus! {

/// What stands for a line that cannot be read.
pub const UNREADABLE: u8 = 255;

/// Signals on the CHAdeMO connector itself.
#[derive(Debug, Clone, Copy, PartialEq, Eq, Structural)]
pub struct ChademoConnectorGpio {
    /// Charge sequence signal (input: low where the vehicle asks for it)
    pub k_line: u8,
    /// D1: positive relay of the vehicle (output: high to close it)
    pub d1_ev_contactor: u8,
    /// D2: negative relay of the vehicle (output: high to close it)
    pub d2_ev_contactor: u8,
    /// Lock of the plug (output: high to lock it)
    pub plug_lock: u8,
}

/// Buttons, safety and the contactors inside the charger.
#[derive(Debug, Clone, Copy, PartialEq, Eq, Structural)]
pub struct EvseGpio {
    /// Emergency stop (input: low where it is pressed)
    pub estop: u8,
    /// On/off button (input: low where it is pressed)
    pub on_off_button: u8,
    /// Boost button (input: low where it is pressed)
    pub boost_button: u8,
    /// First contactor (output)
    pub c1_contactor: u8,
    /// Second contactor (output)
    pub c2_contactor: u8,
    /// Mains supply of the power converter (output)
    pub pre_ac: u8,
    /// Main DC contactor (output)
    pub master_contactor: u8,
    /// Reset of the LED driver (output)
    pub pca_reset: u8,
}

/// All lines.
#[derive(Debug, Clone, Copy, PartialEq, Eq, Structural)]
pub struct GpioSnapshot {
    pub chademo_connector: ChademoConnectorGpio,
    pub evse_io: EvseGpio,
}

/// What reading the lines has given, each where it could be read.
#[derive(Debug, Clone, Copy, PartialEq, Eq, Structural)]
pub struct Readings {
    pub k: Option<u8>,
    pub d1: Option<u8>,
    pub d2: Option<u8>,
    pub pluglock: Option<u8>,
    pub estop: Option<u8>,
    pub on_off: Option<u8>,
    pub boost: Option<u8>,
    pub c1: Option<u8>,
    pub c2: Option<u8>,
    pub pre_ac: Option<u8>,
    pub master: Option<u8>,
    pub pca_reset: Option<u8>,
}

/// A line as the status shows it.
pub open spec fn shown(reading: Option<u8>) -> u8 {
    match reading {
        Some(value) => value,
        None => UNREADABLE,
    }
}

fn show(reading: Option<u8>) -> (value: u8)
    ensures
        value == shown(reading),
{
    match reading {
        Some(value) => value,
        None => UNREADABLE,
    }
}

/// The lines as the status shows them.
pub fn snapshot(r: &Readings) -> (s: GpioSnapshot)
    ensures
        s.chademo_connector == (ChademoConnectorGpio {
            k_line: shown(r.k),
            d1_ev_contactor: shown(r.d1),
            d2_ev_contactor: shown(r.d2),
            plug_lock: shown(r.pluglock),
        }),
        s.evse_io == (EvseGpio {
            estop: shown(r.estop),
            on_off_button: shown(r.on_off),
            boost_button: shown(r.boost),
            c1_contactor: shown(r.c1),
            c2_contactor: shown(r.c2),
            pre_ac: shown(r.pre_ac),
            master_contactor: shown(r.master),
            pca_reset: shown(r.pca_reset),
        }),
{
    GpioSnapshot {
        chademo_connector: ChademoConnectorGpio {
            k_line: show(r.k),
            d1_ev_contactor: show(r.d1),
            d2_ev_contactor: show(r.d2),
            plug_lock: show(r.pluglock),
        },
        evse_io: EvseGpio {
            estop: show(r.estop),
            on_off_button: show(r.on_off),
            boost_button: show(r.boost),
            c1_contactor: show(r.c1),
            c2_contactor: show(r.c2),
            pre_ac: show(r.pre_ac),
            master_contactor: show(r.master),
            pca_reset: show(r.pca_reset),
        },
    }
}

/// The emergency stop holds the start of the charger up: it does so from the
/// beginning only where it reads as pressed, and from then on until it reads
/// as released.
pub fn estop_holds(waiting: bool, reading: Option<u8>) -> (holds: bool)
    ensures
        holds == (if waiting {
            reading != Some(1u8)
        } else {
            reading == Some(0u8)
        }),
{
    match reading {
        Some(value) => if waiting {
            value != 1
        } else {
            value == 0
        },
        None => waiting,
    }
}

/// Every line is shown under its own name: as it was read, or as 255 where it
/// could not be.
pub proof fn law_status_shows_what_was_read(r: Readings, s: GpioSnapshot)
    requires
        call_ensures(snapshot, (&r,), s),
    ensures
        r.k matches Some(value) ==> s.chademo_connector.k_line == value,
        r.k is None ==> s.chademo_connector.k_line == 255,
        r.d1 matches Some(value) ==> s.chademo_connector.d1_ev_contactor == value,
        r.d1 is None ==> s.chademo_connector.d1_ev_contactor == 255,
        r.d2 matches Some(value) ==> s.chademo_connector.d2_ev_contactor == value,
        r.d2 is None ==> s.chademo_connector.d2_ev_contactor == 255,
        r.pluglock matches Some(value) ==> s.chademo_connector.plug_lock == value,
        r.pluglock is None ==> s.chademo_connector.plug_lock == 255,
        r.estop matches Some(value) ==> s.evse_io.estop == value,
        r.estop is None ==> s.evse_io.estop == 255,
        r.on_off matches Some(value) ==> s.evse_io.on_off_button == value,
        r.on_off is None ==> s.evse_io.on_off_button == 255,
        r.boost matches Some(value) ==> s.evse_io.boost_button == value,
        r.boost is None ==> s.evse_io.boost_button == 255,
        r.c1 matches Some(value) ==> s.evse_io.c1_contactor == value,
        r.c1 is None ==> s.evse_io.c1_contactor == 255,
        r.c2 matches Some(value) ==> s.evse_io.c2_contactor == value,
        r.c2 is None ==> s.evse_io.c2_contactor == 255,
        r.pre_ac matches Some(value) ==> s.evse_io.pre_ac == value,
        r.pre_ac is None ==> s.evse_io.pre_ac == 255,
        r.master matches Some(value) ==> s.evse_io.master_contactor == value,
        r.master is None ==> s.evse_io.master_contactor == 255,
        r.pca_reset matches Some(value) ==> s.evse_io.pca_reset == value,
        r.pca_reset is None ==> s.evse_io.pca_reset == 255,
{
}

/// A pressed emergency stop holds the start up, and a released one does not. A
/// reading that fails, or says neither, leaves things as they are: it holds up
/// what was held up already, and nothing else.
pub proof fn law_emergency_stop_holds_until_released(
    waiting: bool,
    reading: Option<u8>,
    holds: bool,
)
    requires
        call_ensures(estop_holds, (waiting, reading), holds),
    ensures
        reading == Some(0u8) ==> holds,
        reading == Some(1u8) ==> !holds,
        reading != Some(0u8) && reading != Some(1u8) ==> holds == waiting,
{
}

} // verus!
