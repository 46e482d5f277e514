//! What the panel shows of a session.
use vstd::prelude::*;

use crate::global_state::OperationMode;
use crate::MAX_AMPS;

verus! {

/// The logo of the panel.
#[derive(Debug, Clone, Copy, PartialEq, Eq, Structural)]
pub enum Logo {
    Off,
    /// The charger waits for its emergency stop to be released
    Initialising,
    Error,
    MeterStale,
    Mode(OperationMode),
}

/// A command to the panel.
#[derive(Debug, Clone, Copy, PartialEq, Eq, Structural)]
pub enum LedCommand {
    Logo(Logo),
    /// Share of the highest current, in percent, and whether it discharges
    EnergyBar(u8, bool),
    /// State of charge, in percent
    SocBar(u8),
}

/// The panel, by the logo that it shows.
#[derive(Debug, Clone, Copy, PartialEq, Eq, Structural)]
pub struct Panel {
    pub last_logo: Logo,
}

/// A fault comes before a stale meter, and that before the mode.
pub open spec fn logo_of(fault: bool, meter_stale: bool, mode: OperationMode) -> Logo {
    if fault {
        Logo::Error
    } else if meter_stale {
        Logo::MeterStale
    } else {
        Logo::Mode(mode)
    }
}

/// The size of a current.
pub open spec fn magnitude(amps: int) -> int {
    if amps < 0 {
        -amps
    } else {
        amps
    }
}

/// A current as a share of the highest, in whole percent.
pub open spec fn share(amps: int) -> int {
    if magnitude(amps) >= MAX_AMPS {
        100
    } else {
        magnitude(amps) * 100 / (MAX_AMPS as int)
    }
}

/// The bars: both while a session runs, an empty one otherwise.
pub open spec fn bars(mode: OperationMode, amps: int, soc: u8) -> Seq<LedCommand> {
    if mode is Idle || mode is Quit {
        seq![LedCommand::SocBar(0)]
    } else {
        seq![LedCommand::EnergyBar(share(amps) as u8, amps < 0), LedCommand::SocBar(soc)]
    }
}

impl Panel {
    /// A panel that shows nothing.
    pub fn new() -> (r: Self)
        ensures
            r.last_logo == Logo::Off,
    {
        Panel { last_logo: Logo::Off }
    }

    /// Shows the error logo.
    pub fn show_error(&mut self) -> (command: LedCommand)
        ensures
            final(self).last_logo == Logo::Error,
            command == LedCommand::Logo(Logo::Error),
    {
        self.last_logo = Logo::Error;
        LedCommand::Logo(Logo::Error)
    }

    /// The commands that bring the panel up to date. The logo is sent only
    /// where it changes.
    pub fn update_panel_leds(
        &mut self,
        fault: bool,
        meter_stale: bool,
        mode: OperationMode,
        amps: i16,
        soc: u8,
    ) -> (commands: Vec<LedCommand>)
        requires
            amps > i16::MIN,
        ensures
            final(self).last_logo == logo_of(fault, meter_stale, mode),
            commands@ == (if final(self).last_logo == old(self).last_logo {
                seq![]
            } else {
                seq![LedCommand::Logo(final(self).last_logo)]
            }) + bars(mode, amps as int, soc),
    {
        let mut commands: Vec<LedCommand> = Vec::new();
        let logo = if fault {
            Logo::Error
        } else if meter_stale {
            Logo::MeterStale
        } else {
            Logo::Mode(mode)
        };
        if logo != self.last_logo {
            commands.push(LedCommand::Logo(logo));
            self.last_logo = logo;
        }
        if mode.is_idle() || mode.is_quit() {
            commands.push(LedCommand::SocBar(0));
        } else {
            let size: u32 = (if amps < 0 {
                -amps
            } else {
                amps
            }) as u32;
            let capped: u32 = if size < MAX_AMPS as u32 {
                size
            } else {
                MAX_AMPS as u32
            };
            let percent: u32 = capped * 100 / (MAX_AMPS as u32);
            commands.push(LedCommand::EnergyBar(percent as u8, amps < 0));
            commands.push(LedCommand::SocBar(soc));
        }
        commands
    }
}

/// The energy bar is never above a hundred percent, and is full exactly from
/// the highest current on.
pub proof fn law_energy_bar_is_a_percentage(amps: int)
    ensures
        0 <= share(amps) <= 100,
        share(amps) == 100 <==> magnitude(amps) >= MAX_AMPS,
{
}

/// The energy bar shows the share of sixteen amps that flows, rounded down to
/// whole percent, whichever way it flows.
pub proof fn law_energy_bar_shows_the_current(amps: int)
    ensures
        amps >= 16 || amps <= -16 ==> share(amps) == 100,
        0 <= amps < 16 ==> share(amps) * 16 <= 100 * amps < (share(amps) + 1) * 16,
        share(-amps) == share(amps),
{
}

/// The logo shows a fault before anything else, a stale meter before the mode,
/// and the mode where all is well. It is sent exactly where it has changed, and
/// only once.
pub proof fn law_logo_shows_the_worst(
    panel: &mut Panel,
    fault: bool,
    meter_stale: bool,
    mode: OperationMode,
    amps: i16,
    soc: u8,
    list: Vec<LedCommand>,
)
    requires
        amps > i16::MIN,
        call_ensures(Panel::update_panel_leds, (panel, fault, meter_stale, mode, amps, soc), list),
    ensures
        ({
            let last = old(panel).last_logo;
            let logo = final(panel).last_logo;
            let commands = list@;
            &&& logo == Logo::Error <==> fault
            &&& logo == Logo::MeterStale <==> !fault && meter_stale
            &&& !fault && !meter_stale ==> logo == Logo::Mode(mode)
            &&& logo != last ==> commands.len() > 0 && commands[0] == LedCommand::Logo(logo)
            &&& logo == last ==> forall|i: int|
                0 <= i < commands.len() ==> !(#[trigger] commands[i] is Logo)
            &&& forall|i: int| 1 <= i < commands.len() ==> !(#[trigger] commands[i] is Logo)
        }),
{
}

/// The bars come last: at rest the state of charge is blank and the energy bar
/// is left alone, and in every other mode both are shown, the energy bar
/// backwards while the vehicle discharges.
pub proof fn law_bars_show_the_session(
    panel: &mut Panel,
    fault: bool,
    meter_stale: bool,
    mode: OperationMode,
    amps: i16,
    soc: u8,
    list: Vec<LedCommand>,
)
    requires
        amps > i16::MIN,
        call_ensures(Panel::update_panel_leds, (panel, fault, meter_stale, mode, amps, soc), list),
    ensures
        ({
            let commands = list@;
            let n = commands.len() as int;
            let rest = mode == OperationMode::Idle || mode == OperationMode::Quit;
            &&& rest ==> commands.last() == LedCommand::SocBar(0) && forall|i: int|
                0 <= i < n ==> !(#[trigger] commands[i] is EnergyBar)
            &&& !rest ==> n >= 2 && commands[n - 1] == LedCommand::SocBar(soc) && (commands[n
                - 2] matches LedCommand::EnergyBar(percent, discharges) && percent == share(amps as int)
                && (discharges <==> amps < 0))
        }),
{
}

/// A new panel shows nothing, so that its first update always brings a logo.
pub proof fn law_panels_start_dark(panel: Panel, fault: bool, stale: bool, mode: OperationMode)
    requires
        call_ensures(Panel::new, (), panel),
    ensures
        panel.last_logo == Logo::Off,
        logo_of(fault, stale, mode) != panel.last_logo,
{
}

/// A panel that is made to show an error shows it, and knows that it does, so
/// that an update during a fault does not send the logo again.
pub proof fn law_errors_are_shown_once(panel: &mut Panel, command: LedCommand)
    requires
        call_ensures(Panel::show_error, (panel,), command),
    ensures
        command == LedCommand::Logo(Logo::Error),
        forall|stale: bool, mode: OperationMode| #[trigger]
            logo_of(true, stale, mode) == final(panel).last_logo,
{
}

} // verus!
