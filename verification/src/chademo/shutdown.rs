//! The end of a session: the contactors are opened once the vehicle has
//! released the K line, and the plug is unlocked after that. Where the lines
//! of the contactors cannot be driven the plug is unlocked all the same, and
//! the next round tries them again.
use vstd::prelude::*;

use crate::chademo::ev_connect::{STATION_IDLE, STATION_OPEN};

verus! {

/// What the end of a session carries from round to round.
#[derive(Debug, Clone, Copy, PartialEq, Eq, Structural)]
pub struct Shutdown {
    /// The contactors have not been opened yet
    pub contactors: bool,
}

/// What the K line leads to.
#[derive(Debug, Clone, Copy, PartialEq, Eq, Structural)]
pub enum Release {
    /// The vehicle still holds the line: next round
    Wait,
    /// Open the contactors
    Open,
    /// Release the plug
    Unlock,
}

/// What becomes of the plug.
#[derive(Debug, Clone, Copy, PartialEq, Eq, Structural)]
pub enum Plug {
    /// It is free: the session is over
    Free,
    /// Unlock it, after reporting this station status where there is one
    Unlock { station: Option<u8> },
}

/// What the K line leads to, by whether it reads low.
pub open spec fn release_of(contactors: bool, held: bool) -> Release {
    if held {
        Release::Wait
    } else if contactors {
        Release::Open
    } else {
        Release::Unlock
    }
}

impl Shutdown {
    pub fn new() -> (r: Self)
        ensures
            r.contactors,
    {
        Shutdown { contactors: true }
    }

    /// The round begins with an exchange with the vehicle. Whether the round
    /// goes on: it does not where the exchange failed with open contactors.
    pub fn exchanged(&self, ok: bool) -> (go_on: bool)
        ensures
            go_on == (ok || self.contactors),
    {
        ok || self.contactors
    }

    /// What to do, given that the K line reads low (`held`) or does not.
    pub fn released(&self, held: bool) -> (r: Release)
        ensures
            r == release_of(self.contactors, held),
    {
        if held {
            Release::Wait
        } else if self.contactors {
            Release::Open
        } else {
            Release::Unlock
        }
    }

    /// The lines of both contactors have been driven low, or have not. The
    /// station status to report; the round ends where there is one, and goes
    /// on with the plug where there is none.
    pub fn opened(&mut self, ok: bool) -> (station: Option<u8>)
        ensures
            final(self).contactors == (old(self).contactors && !ok),
            station == (if ok {
                Some(STATION_OPEN)
            } else {
                None
            }),
    {
        if ok {
            self.contactors = false;
            Some(STATION_OPEN)
        } else {
            None
        }
    }

    /// What to do with the plug, given that it is reported as locked and that
    /// the output voltage is below ten volts.
    pub fn unlock(&self, locked: bool, volts_low: bool) -> (r: Plug)
        ensures
            r == (if !locked {
                Plug::Free
            } else if volts_low {
                Plug::Unlock { station: Some(STATION_IDLE) }
            } else {
                Plug::Unlock { station: None }
            }),
    {
        if !locked {
            Plug::Free
        } else if volts_low {
            Plug::Unlock { station: Some(STATION_IDLE) }
        } else {
            Plug::Unlock { station: None }
        }
    }
}

/// While the vehicle holds the K line nothing is opened and nothing unlocked;
/// once it lets go, the contactors come first and the plug after them.
pub proof fn law_contactors_open_before_the_plug(contactors: bool, held: bool)
    ensures
        held <==> release_of(contactors, held) == Release::Wait,
        release_of(contactors, held) == Release::Open <==> contactors && !held,
        release_of(contactors, held) == Release::Unlock <==> !contactors && !held,
{
}

/// What the end of a session does next.
#[derive(Debug, Clone, Copy, PartialEq, Eq, Structural)]
pub enum Stage {
    /// Exchange frames with the vehicle; a round starts here
    Exchange,
    /// Read the K line
    KLine,
    /// Drive the lines of the contactors low
    Open,
    /// Look at the plug
    Plug,
    /// Nothing: the vehicle is released
    Over,
}

/// What has come of it.
#[derive(Debug, Clone, Copy, PartialEq, Eq, Structural)]
pub enum Event {
    /// The exchange has succeeded, or has not
    Exchanged(bool),
    /// The vehicle holds the K line, or does not
    Held(bool),
    /// Both lines of the contactors have been driven low, or have not
    Opened(bool),
    /// The plug is reported as locked, and the output is below ten volts
    Seen { locked: bool, volts_low: bool },
}

/// What follows: where the end of the session stands, the station status to
/// report first, if any, and whether the plug is to be unlocked after that.
#[derive(Debug, Clone, Copy, PartialEq, Eq, Structural)]
pub struct Round {
    pub state: Shutdown,
    pub stage: Stage,
    pub station: Option<u8>,
    pub unlock: bool,
}

/// A stage without anything to be reported or unlocked before it.
pub open spec fn goes_to(contactors: bool, stage: Stage) -> Round {
    Round { state: Shutdown { contactors }, stage, station: None, unlock: false }
}

/// What follows an event in a stage; nothing where the stage does not wait for
/// such an event.
pub open spec fn round_after(contactors: bool, stage: Stage, event: Event) -> Option<Round> {
    match (stage, event) {
        (Stage::Exchange, Event::Exchanged(ok)) => Some(
            goes_to(
                contactors,
                if ok || contactors {
                    Stage::KLine
                } else {
                    Stage::Over
                },
            ),
        ),
        (Stage::KLine, Event::Held(held)) => Some(
            goes_to(
                contactors,
                match release_of(contactors, held) {
                    Release::Wait => Stage::Exchange,
                    Release::Open => Stage::Open,
                    Release::Unlock => Stage::Plug,
                },
            ),
        ),
        (Stage::Open, Event::Opened(ok)) => Some(
            if ok {
                Round { station: Some(STATION_OPEN), ..goes_to(false, Stage::Exchange) }
            } else {
                goes_to(contactors, Stage::Plug)
            },
        ),
        (Stage::Plug, Event::Seen { locked, volts_low }) => Some(
            if !locked {
                goes_to(contactors, Stage::Over)
            } else {
                Round {
                    station: if volts_low {
                        Some(STATION_IDLE)
                    } else {
                        None
                    },
                    unlock: true,
                    ..goes_to(contactors, Stage::Exchange)
                }
            },
        ),
        _ => None,
    }
}

/// One step of the end of a session.
pub fn round(state: Shutdown, stage: Stage, event: Event) -> (r: Option<Round>)
    ensures
        r == round_after(state.contactors, stage, event),
{
    let mut state = state;
    match (stage, event) {
        (Stage::Exchange, Event::Exchanged(ok)) => {
            let stage = if state.exchanged(ok) {
                Stage::KLine
            } else {
                Stage::Over
            };
            Some(Round { state, stage, station: None, unlock: false })
        },
        (Stage::KLine, Event::Held(held)) => {
            let stage = match state.released(held) {
                Release::Wait => Stage::Exchange,
                Release::Open => Stage::Open,
                Release::Unlock => Stage::Plug,
            };
            Some(Round { state, stage, station: None, unlock: false })
        },
        (Stage::Open, Event::Opened(ok)) => {
            let station = state.opened(ok);
            let stage = if ok {
                Stage::Exchange
            } else {
                Stage::Plug
            };
            Some(Round { state, stage, station, unlock: false })
        },
        (Stage::Plug, Event::Seen { locked, volts_low }) => {
            match state.unlock(locked, volts_low) {
                Plug::Free => Some(
                    Round { state, stage: Stage::Over, station: None, unlock: false },
                ),
                Plug::Unlock { station } => Some(
                    Round { state, stage: Stage::Exchange, station, unlock: true },
                ),
            }
        },
        _ => None,
    }
}

/// Contactors that have been opened stay open to the end.
pub proof fn law_contactors_stay_open(stage: Stage, event: Event)
    ensures
        round_after(false, stage, event) matches Some(next) ==> !next.state.contactors,
{
}

/// The end of a session is over in two ways only: the plug is found free, or
/// an exchange fails once the contactors are open.
pub proof fn law_shutdown_ends_released(contactors: bool, stage: Stage, event: Event)
    requires
        round_after(contactors, stage, event) matches Some(next) && next.stage == Stage::Over,
    ensures
        event == Event::Exchanged(false) && !contactors || (event matches Event::Seen {
            locked,
            ..
        } && !locked),
{
}

/// Within a round the contactors come before the plug: the plug is looked at
/// straight after the K line only where they are open, and otherwise only
/// after an attempt to open them that failed. An attempt that succeeds ends
/// the round.
pub proof fn law_round_keeps_its_order(contactors: bool, stage: Stage, event: Event)
    requires
        round_after(contactors, stage, event) is Some,
    ensures
        ({
            let next = round_after(contactors, stage, event)->0;
            &&& next.stage == Stage::Plug ==> (event == Event::Held(false) && !contactors) || event
                == Event::Opened(false)
            &&& next.stage == Stage::Open ==> event == Event::Held(false) && contactors
            &&& next.stage == Stage::KLine ==> stage == Stage::Exchange
            &&& event == Event::Opened(true) ==> next.stage == Stage::Exchange
                && !next.state.contactors
            &&& next.unlock ==> stage == Stage::Plug
        }),
{
}

/// Each stage waits for its own event, and the end of a session goes on from
/// one to the next: the exchange is followed by the K line, that by the
/// contactors or, once they are open, by the plug, and a new round begins as
/// long as the vehicle holds on or the plug is locked.
pub proof fn law_rounds_go_on_until_released(
    contactors: bool,
    stage: Stage,
    event: Event,
    r: Option<Round>,
)
    requires
        call_ensures(round, (Shutdown { contactors }, stage, event), r),
    ensures
        r is Some <==> {
            ||| stage == Stage::Exchange && event is Exchanged
            ||| stage == Stage::KLine && event is Held
            ||| stage == Stage::Open && event is Opened
            ||| stage == Stage::Plug && event is Seen
        },
        r matches Some(next) ==> {
            &&& event == Event::Exchanged(true) ==> next.stage == Stage::KLine
            &&& event == Event::Exchanged(false) && contactors ==> next.stage == Stage::KLine
            &&& event == Event::Exchanged(false) && !contactors ==> next.stage == Stage::Over
            &&& event == Event::Held(true) ==> next.stage == Stage::Exchange
            &&& event == Event::Held(false) && contactors ==> next.stage == Stage::Open
            &&& event == Event::Held(false) && !contactors ==> next.stage == Stage::Plug
            &&& event == Event::Opened(true) ==> next.stage == Stage::Exchange
            &&& event == Event::Opened(false) ==> next.stage == Stage::Plug
            &&& event matches Event::Seen { locked, volts_low } ==> {
                &&& locked ==> next.stage == Stage::Exchange
                &&& !locked ==> next.stage == Stage::Over
            }
        },
{
}

/// The vehicle is told at once that the contactors are open, and that the
/// charger is idle when the plug is about to be unlocked without voltage on
/// it; nothing else is reported. A locked plug is always unlocked, and nothing
/// else is. Only a success marks the contactors as open.
pub proof fn law_vehicle_is_told(
    contactors: bool,
    stage: Stage,
    event: Event,
    r: Option<Round>,
)
    requires
        call_ensures(round, (Shutdown { contactors }, stage, event), r),
    ensures
        r matches Some(next) ==> {
            &&& next.station == Some(0x25u8) <==> event == Event::Opened(true)
            &&& next.station == Some(0x20u8) <==> event == (Event::Seen {
                locked: true,
                volts_low: true,
            })
            &&& next.station is Some ==> next.station == Some(0x25u8) || next.station == Some(
                0x20u8,
            )
            &&& next.unlock <==> (event matches Event::Seen { locked, volts_low } && locked)
            &&& event == Event::Opened(true) ==> !next.state.contactors
            &&& event != Event::Opened(true) ==> next.state.contactors == contactors
        },
{
}

/// A session ends with its contactors still closed. A failed exchange counts
/// only once they are open, and the plug is let go of only where it is not
/// reported as locked.
pub proof fn law_shutdown_starts_with_the_contactors(
    start: Shutdown,
    s: Shutdown,
    ok: bool,
    locked: bool,
    volts_low: bool,
    go_on: bool,
    plug: Plug,
)
    requires
        call_ensures(Shutdown::new, (), start),
        call_ensures(Shutdown::exchanged, (&s, ok), go_on),
        call_ensures(Shutdown::unlock, (&s, locked, volts_low), plug),
    ensures
        start.contactors,
        !go_on <==> !ok && !s.contactors,
        plug == Plug::Free <==> !locked,
        plug matches Plug::Unlock { station } ==> {
            &&& volts_low ==> station == Some(0x20u8)
            &&& !volts_low ==> station is None
        },
{
}

/// The contactors count as open once their lines have been driven low, and the
/// vehicle is told so; where that fails they count as they did, and nothing is
/// said.
pub proof fn law_contactors_open_when_driven(s: &mut Shutdown, ok: bool, station: Option<u8>)
    requires
        call_ensures(Shutdown::opened, (s, ok), station),
    ensures
        ok ==> !final(s).contactors && station == Some(0x25u8),
        !ok ==> final(s).contactors == old(s).contactors && station is None,
{
}

} // verus!
