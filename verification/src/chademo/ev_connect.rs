//! The course of a session, from the request for a mode to the release of the
//! plug. Each function here takes the outcome of what the program has just
//! waited for and says what is to be done next, in order.
use vstd::prelude::*;

use crate::global_state::OperationMode;

verus! {

/// Station status: no charge, plug free.
pub const STATION_IDLE: u8 = 0x20;

/// Station status: charging, plug locked.
pub const STATION_CHARGING: u8 = 0x05;

/// Station status: stopping, plug still locked.
pub const STATION_STOPPING: u8 = 0x24;

/// Station status: contactors open, plug still locked.
pub const STATION_OPEN: u8 = 0x25;

/// The lines that the charger drives.
#[derive(Debug, Clone, Copy, PartialEq, Eq, Structural)]
pub enum Output {
    /// First contactor
    C1,
    /// Second contactor
    C2,
    /// Charge sequence signal 1
    D1,
    /// Charge sequence signal 2
    D2,
    /// Mains supply of the power converter
    PreAc,
    /// Lock of the plug
    PlugLock,
}

/// One thing to be done.
#[derive(Debug, Clone, Copy, PartialEq, Eq, Structural)]
pub enum Action {
    /// End the tasks that serve the power converter
    AbortPre,
    /// Drive a line high (`true`) or low
    Drive(Output, bool),
    /// Report this station status to the vehicle
    Station(u8),
    /// Take this mode
    State(OperationMode),
    /// Bring the panel up to date
    Leds,
    /// Show the error logo on the panel
    ErrorLogo,
    /// Publish the state of the session
    Publish,
    /// Run the fan at its idle speed
    Fan,
    /// Open the CAN bus
    OpenCan,
    /// Close the CAN bus
    CloseCan,
    /// Start a task that serves the power converter
    SpawnPre,
    /// Tell the vehicle not to charge
    ChargeStop,
    /// Tell the vehicle to charge
    ChargeStart,
    /// Lock the plug, and report it as locked
    LockPlug,
    /// Shut the power converter down
    ShutdownPre,
}

/// What the session waits for.
#[derive(Debug, Clone, Copy, PartialEq, Eq, Structural)]
pub enum Phase {
    /// A mode
    AwaitMode,
    /// The power converter to come up
    InitPre,
    /// The K line
    KLine,
    /// Equal voltages on both sides of the contactors
    Precharge,
    /// The end of the charge
    Charge,
    /// The release of the vehicle; why the charge has ended, `None` where it
    /// failed
    Shutdown { reason: Option<OperationMode> },
    /// Nothing: the charger has been told to quit
    Ended,
}

/// What comes next.
#[derive(Debug)]
pub struct Next {
    pub phase: Phase,
    pub actions: Vec<Action>,
}

/// Every output low and the station status that goes with it.
pub open spec fn reset() -> Seq<Action> {
    seq![
        Action::Drive(Output::C2, false),
        Action::Drive(Output::C1, false),
        Action::Drive(Output::D2, false),
        Action::Drive(Output::D1, false),
        Action::Drive(Output::PreAc, false),
        Action::Drive(Output::PlugLock, false),
        Action::Station(STATION_STOPPING),
    ]
}

/// The way into waiting for a mode.
pub open spec fn entered() -> Seq<Action> {
    seq![Action::AbortPre] + reset() + seq![
        Action::State(OperationMode::Idle),
        Action::Leds,
        Action::Publish,
        Action::Fan,
        Action::OpenCan,
    ]
}

/// The way back to waiting for a mode.
pub open spec fn reentered() -> Seq<Action> {
    seq![Action::CloseCan] + entered()
}

/// The way back after a failure.
pub open spec fn failed() -> Seq<Action> {
    seq![Action::ErrorLogo, Action::State(OperationMode::Idle)] + reset() + seq![Action::Publish]
        + reentered()
}

/// A mode is taken up and shown.
pub open spec fn announced(mode: OperationMode) -> Seq<Action> {
    seq![Action::State(mode), Action::Leds, Action::Publish]
}

/// The power converter is started.
pub open spec fn powered() -> Seq<Action> {
    seq![Action::SpawnPre, Action::ChargeStop, Action::Drive(Output::PreAc, true)]
}

/// The modes that start a session.
pub open spec fn starts_session(mode: OperationMode) -> bool {
    mode is V2h || mode is Charge
}

/// What follows a request for a mode. `None` stands for a closed channel: the
/// session then starts in the mode that it has.
pub open spec fn after_mode(received: Option<OperationMode>) -> (Phase, Seq<Action>) {
    match received {
        Some(mode) => if mode is Quit {
            (Phase::Ended, announced(mode))
        } else if starts_session(mode) {
            (Phase::InitPre, announced(mode) + powered())
        } else {
            (Phase::AwaitMode, announced(mode) + reentered())
        },
        None => (Phase::InitPre, powered()),
    }
}

/// What follows a step of the start: on the one hand where it succeeded, on
/// the other where it failed.
pub open spec fn after_step(ok: bool, phase: Phase, actions: Seq<Action>) -> (Phase, Seq<Action>) {
    if ok {
        (phase, actions)
    } else {
        (Phase::AwaitMode, failed())
    }
}

/// The vehicle is told that the charger is there.
pub open spec fn greeted() -> Seq<Action> {
    seq![Action::Station(STATION_IDLE), Action::Drive(Output::D1, true)]
}

/// The plug is locked and the vehicle told to go ahead.
pub open spec fn locked() -> Seq<Action> {
    seq![Action::LockPlug, Action::Drive(Output::D2, true), Action::ChargeStart]
}

/// The charge begins.
pub open spec fn charging() -> Seq<Action> {
    seq![Action::Station(STATION_CHARGING), Action::Leds]
}

/// The charge ends; `None` stands for a failure.
pub open spec fn ending(reason: Option<OperationMode>) -> Seq<Action> {
    (if reason is None {
        seq![Action::ErrorLogo]
    } else {
        seq![]
    }) + seq![Action::Publish, Action::Station(STATION_STOPPING), Action::ShutdownPre]
}

/// What follows the release of the vehicle.
pub open spec fn after_shutdown(reason: Option<OperationMode>) -> (Phase, Seq<Action>) {
    if reason == Some(OperationMode::Quit) {
        (Phase::Ended, seq![Action::Publish])
    } else {
        (Phase::AwaitMode, seq![Action::Publish] + reentered())
    }
}

/// Adds the actions that bring every output low.
pub fn reset_gpio_state(actions: &mut Vec<Action>)
    ensures
        final(actions)@ == old(actions)@ + reset(),
{
    actions.push(Action::Drive(Output::C2, false));
    actions.push(Action::Drive(Output::C1, false));
    actions.push(Action::Drive(Output::D2, false));
    actions.push(Action::Drive(Output::D1, false));
    actions.push(Action::Drive(Output::PreAc, false));
    actions.push(Action::Drive(Output::PlugLock, false));
    actions.push(Action::Station(STATION_STOPPING));
}

fn enter(actions: &mut Vec<Action>)
    ensures
        final(actions)@ == old(actions)@ + entered(),
{
    actions.push(Action::AbortPre);
    reset_gpio_state(actions);
    actions.push(Action::State(OperationMode::Idle));
    actions.push(Action::Leds);
    actions.push(Action::Publish);
    actions.push(Action::Fan);
    actions.push(Action::OpenCan);
}

fn reenter(actions: &mut Vec<Action>)
    ensures
        final(actions)@ == old(actions)@ + reentered(),
{
    actions.push(Action::CloseCan);
    enter(actions);
}

fn announce(actions: &mut Vec<Action>, mode: OperationMode)
    ensures
        final(actions)@ == old(actions)@ + announced(mode),
{
    actions.push(Action::State(mode));
    actions.push(Action::Leds);
    actions.push(Action::Publish);
}

fn power(actions: &mut Vec<Action>)
    ensures
        final(actions)@ == old(actions)@ + powered(),
{
    actions.push(Action::SpawnPre);
    actions.push(Action::ChargeStop);
    actions.push(Action::Drive(Output::PreAc, true));
}

fn fail() -> (next: Next)
    ensures
        next.phase == Phase::AwaitMode,
        next.actions@ == failed(),
{
    let mut actions: Vec<Action> = Vec::new();
    actions.push(Action::ErrorLogo);
    actions.push(Action::State(OperationMode::Idle));
    reset_gpio_state(&mut actions);
    actions.push(Action::Publish);
    reenter(&mut actions);
    Next { phase: Phase::AwaitMode, actions }
}

/// The session as the charger starts.
pub fn begin() -> (next: Next)
    ensures
        next.phase == Phase::AwaitMode,
        next.actions@ == entered(),
{
    let mut actions: Vec<Action> = Vec::new();
    enter(&mut actions);
    Next { phase: Phase::AwaitMode, actions }
}

/// A mode has been asked for.
pub fn on_mode(received: Option<OperationMode>) -> (next: Next)
    ensures
        (next.phase, next.actions@) == after_mode(received),
{
    let mut actions: Vec<Action> = Vec::new();
    if let Some(mode) = received {
        announce(&mut actions, mode);
        if mode.is_quit() {
            return Next { phase: Phase::Ended, actions };
        }
        if !(mode.is_v2h() || mode.is_charge()) {
            reenter(&mut actions);
            return Next { phase: Phase::AwaitMode, actions };
        }
    }
    power(&mut actions);
    Next { phase: Phase::InitPre, actions }
}

/// The power converter has come up, or has not.
pub fn on_pre(ok: bool) -> (next: Next)
    ensures
        (next.phase, next.actions@) == after_step(ok, Phase::KLine, greeted()),
{
    if !ok {
        return fail();
    }
    Next {
        phase: Phase::KLine,
        actions: vec![Action::Station(STATION_IDLE), Action::Drive(Output::D1, true)],
    }
}

/// The K line has been seen, or has not.
pub fn on_k_line(ok: bool) -> (next: Next)
    ensures
        (next.phase, next.actions@) == after_step(ok, Phase::Precharge, locked()),
{
    if !ok {
        return fail();
    }
    Next {
        phase: Phase::Precharge,
        actions: vec![Action::LockPlug, Action::Drive(Output::D2, true), Action::ChargeStart],
    }
}

/// The contactors have been closed, or have not.
pub fn on_precharge(ok: bool) -> (next: Next)
    ensures
        (next.phase, next.actions@) == after_step(ok, Phase::Charge, charging()),
{
    if !ok {
        return fail();
    }
    Next {
        phase: Phase::Charge,
        actions: vec![Action::Station(STATION_CHARGING), Action::Leds],
    }
}

/// The charge has ended, for this reason or in a failure.
pub fn on_charge_end(reason: Option<OperationMode>) -> (next: Next)
    ensures
        next.phase == (Phase::Shutdown { reason }),
        next.actions@ == ending(reason),
{
    let mut actions: Vec<Action> = Vec::new();
    if reason.is_none() {
        actions.push(Action::ErrorLogo);
    }
    actions.push(Action::Publish);
    actions.push(Action::Station(STATION_STOPPING));
    actions.push(Action::ShutdownPre);
    Next { phase: Phase::Shutdown { reason }, actions }
}

/// The vehicle has been released; `reason` is why the charge had ended.
pub fn on_shutdown(reason: Option<OperationMode>) -> (next: Next)
    ensures
        (next.phase, next.actions@) == after_shutdown(reason),
{
    let mut actions: Vec<Action> = Vec::new();
    actions.push(Action::Publish);
    if let Some(mode) = reason {
        if mode.is_quit() {
            return Next { phase: Phase::Ended, actions };
        }
    }
    reenter(&mut actions);
    Next { phase: Phase::AwaitMode, actions }
}

/// What the session has waited for has come about.
#[derive(Debug, Clone, Copy, PartialEq, Eq, Structural)]
pub enum Outcome {
    /// A mode has been asked for, or the channel is closed
    Mode(Option<OperationMode>),
    /// The power converter has come up, or has not
    Pre(bool),
    /// The K line has been seen, or has not
    KLine(bool),
    /// The contactors have been closed, or have not
    Precharge(bool),
    /// The charge has ended, for this reason or in a failure
    ChargeEnd(Option<OperationMode>),
    /// The vehicle has been released
    Released,
}

/// What follows an outcome in a phase; nothing where the phase does not wait
/// for such an outcome.
pub open spec fn followed(phase: Phase, outcome: Outcome) -> Option<(Phase, Seq<Action>)> {
    match (phase, outcome) {
        (Phase::AwaitMode, Outcome::Mode(received)) => Some(after_mode(received)),
        (Phase::InitPre, Outcome::Pre(ok)) => Some(after_step(ok, Phase::KLine, greeted())),
        (Phase::KLine, Outcome::KLine(ok)) => Some(after_step(ok, Phase::Precharge, locked())),
        (Phase::Precharge, Outcome::Precharge(ok)) => Some(
            after_step(ok, Phase::Charge, charging()),
        ),
        (Phase::Charge, Outcome::ChargeEnd(reason)) => Some(
            (Phase::Shutdown { reason }, ending(reason)),
        ),
        (Phase::Shutdown { reason }, Outcome::Released) => Some(after_shutdown(reason)),
        _ => None,
    }
}

/// The next phase and what is to be done on the way into it; nothing where the
/// phase does not wait for such an outcome.
pub fn step(phase: Phase, outcome: Outcome) -> (next: Option<Next>)
    ensures
        next is Some == followed(phase, outcome) is Some,
        next matches Some(n) ==> Some((n.phase, n.actions@)) == followed(phase, outcome),
{
    match (phase, outcome) {
        (Phase::AwaitMode, Outcome::Mode(received)) => Some(on_mode(received)),
        (Phase::InitPre, Outcome::Pre(ok)) => Some(on_pre(ok)),
        (Phase::KLine, Outcome::KLine(ok)) => Some(on_k_line(ok)),
        (Phase::Precharge, Outcome::Precharge(ok)) => Some(on_precharge(ok)),
        (Phase::Charge, Outcome::ChargeEnd(reason)) => Some(on_charge_end(reason)),
        (Phase::Shutdown { reason }, Outcome::Released) => Some(on_shutdown(reason)),
        _ => None,
    }
}

/// The phase that a course of outcomes leads to from the start of the charger,
/// if each of them answers the phase that it comes in.
pub open spec fn reached(outcomes: Seq<Outcome>) -> Option<Phase>
    decreases outcomes.len(),
{
    if outcomes.len() == 0 {
        Some(Phase::AwaitMode)
    } else {
        match reached(outcomes.drop_last()) {
            Some(phase) => match followed(phase, outcomes.last()) {
                Some(next) => Some(next.0),
                None => None,
            },
            None => None,
        }
    }
}

/// A charge is reached in one way only: a request that starts a session, and
/// then, without anything between, the converter, the K line and the precharge
/// have each succeeded.
pub proof fn law_charge_follows_a_whole_start(outcomes: Seq<Outcome>)
    requires
        reached(outcomes) == Some(Phase::Charge),
    ensures
        outcomes.len() >= 4,
        ({
            let n = outcomes.len() as int;
            &&& outcomes[n - 4] matches Outcome::Mode(received) && (received matches Some(mode)
                ==> starts_session(mode))
            &&& outcomes[n - 3] == Outcome::Pre(true)
            &&& outcomes[n - 2] == Outcome::KLine(true)
            &&& outcomes[n - 1] == Outcome::Precharge(true)
            &&& reached(outcomes.take(n - 4)) == Some(Phase::AwaitMode)
        }),
{
    let a = outcomes.drop_last();
    assert(reached(a) == Some(Phase::Precharge));
    let b = a.drop_last();
    assert(reached(b) == Some(Phase::KLine));
    let c = b.drop_last();
    assert(reached(c) == Some(Phase::InitPre));
    let d = c.drop_last();
    assert(reached(d) == Some(Phase::AwaitMode));
    assert(d =~= outcomes.take(outcomes.len() - 4));
}

/// The lines of the charger and its mode.
pub struct Lines {
    pub c1: bool,
    pub c2: bool,
    pub d1: bool,
    pub d2: bool,
    pub pre_ac: bool,
    pub plug_lock: bool,
    pub mode: OperationMode,
}

impl Lines {
    /// Every line is low.
    pub open spec fn all_low(self) -> bool {
        !self.c1 && !self.c2 && !self.d1 && !self.d2 && !self.pre_ac && !self.plug_lock
    }

    /// The lines after an action.
    pub open spec fn after(self, action: Action) -> Lines {
        match action {
            Action::Drive(Output::C1, high) => Lines { c1: high, ..self },
            Action::Drive(Output::C2, high) => Lines { c2: high, ..self },
            Action::Drive(Output::D1, high) => Lines { d1: high, ..self },
            Action::Drive(Output::D2, high) => Lines { d2: high, ..self },
            Action::Drive(Output::PreAc, high) => Lines { pre_ac: high, ..self },
            Action::Drive(Output::PlugLock, high) => Lines { plug_lock: high, ..self },
            Action::LockPlug => Lines { plug_lock: true, ..self },
            Action::State(mode) => Lines { mode, ..self },
            _ => self,
        }
    }

    /// The lines after a list of actions.
    pub open spec fn after_all(self, actions: Seq<Action>) -> Lines
        decreases actions.len(),
    {
        if actions.len() == 0 {
            self
        } else {
            self.after(actions[0]).after_all(actions.drop_first())
        }
    }
}

proof fn lemma_after_all_append(lines: Lines, a: Seq<Action>, b: Seq<Action>)
    ensures
        lines.after_all(a + b) == lines.after_all(a).after_all(b),
    decreases a.len(),
{
    if a.len() == 0 {
        assert(a + b =~= b);
    } else {
        assert((a + b).drop_first() =~= a.drop_first() + b);
        lemma_after_all_append(lines.after(a[0]), a.drop_first(), b);
    }
}

proof fn lemma_reset(lines: Lines)
    ensures
        lines.after_all(reset()) == (Lines {
            c1: false,
            c2: false,
            d1: false,
            d2: false,
            pre_ac: false,
            plug_lock: false,
            mode: lines.mode,
        }),
{
    let first = seq![
        Action::Drive(Output::C2, false),
        Action::Drive(Output::C1, false),
        Action::Drive(Output::D2, false),
    ];
    let second = seq![
        Action::Drive(Output::D1, false),
        Action::Drive(Output::PreAc, false),
        Action::Drive(Output::PlugLock, false),
    ];
    let status = seq![Action::Station(STATION_STOPPING)];
    assert(reset() =~= first + second + status);
    lemma_after_all_append(lines, first + second, status);
    lemma_after_all_append(lines, first, second);
    lemma_three(lines, first);
    lemma_three(lines.after_all(first), second);
    lemma_one(lines.after_all(first + second), status[0]);
}

proof fn lemma_one(lines: Lines, action: Action)
    ensures
        lines.after_all(seq![action]) == lines.after(action),
{
    reveal_with_fuel(Lines::after_all, 2);
}

proof fn lemma_three(lines: Lines, actions: Seq<Action>)
    requires
        actions.len() == 3,
    ensures
        lines.after_all(actions) == lines.after(actions[0]).after(actions[1]).after(actions[2]),
{
    reveal_with_fuel(Lines::after_all, 4);
}

proof fn lemma_idle(lines: Lines)
    ensures
        lines.after_all(
            seq![
                Action::State(OperationMode::Idle),
                Action::Leds,
                Action::Publish,
                Action::Fan,
                Action::OpenCan,
            ],
        ) == (Lines { mode: OperationMode::Idle, ..lines }),
{
    reveal_with_fuel(Lines::after_all, 6);
}

#[verifier::spinoff_prover]
proof fn lemma_entered(lines: Lines)
    ensures
        lines.after_all(entered()).all_low(),
        lines.after_all(entered()).mode == OperationMode::Idle,
        lines.after_all(reentered()) == lines.after_all(entered()),
{
    let head = seq![Action::AbortPre];
    let tail = seq![
        Action::State(OperationMode::Idle),
        Action::Leds,
        Action::Publish,
        Action::Fan,
        Action::OpenCan,
    ];
    lemma_after_all_append(lines, head + reset(), tail);
    lemma_after_all_append(lines, head, reset());
    lemma_after_all_append(lines, seq![Action::CloseCan], entered());
    lemma_one(lines, Action::AbortPre);
    lemma_one(lines, Action::CloseCan);
    lemma_reset(lines);
    lemma_idle(lines.after_all(head + reset()));
}

/// Wherever the start of a session fails, and wherever a mode is asked for
/// that starts none, the session waits for a mode again with every line low
/// and the charger idle, whatever the lines were before.
pub proof fn law_failure_leaves_every_line_low(
    lines: Lines,
    received: OperationMode,
    phase: Phase,
    actions: Seq<Action>,
)
    ensures
        ({
            let (next, done) = after_step(false, phase, actions);
            next == Phase::AwaitMode && lines.after_all(done).all_low() && lines.after_all(
                done,
            ).mode is Idle
        }),
        !starts_session(received) && !(received is Quit) ==> ({
            let (next, done) = after_mode(Some(received));
            next == Phase::AwaitMode && lines.after_all(done).all_low() && lines.after_all(
                done,
            ).mode is Idle
        }),
{
    let head = seq![Action::ErrorLogo, Action::State(OperationMode::Idle)] + reset()
        + seq![Action::Publish];
    lemma_after_all_append(lines, head, reentered());
    lemma_entered(lines.after_all(head));
    lemma_after_all_append(lines, announced(received), reentered());
    lemma_entered(lines.after_all(announced(received)));
}

/// After a session the charger waits for a mode with every line low, unless
/// it has been told to quit.
pub proof fn law_session_ends_with_every_line_low(lines: Lines, reason: Option<OperationMode>)
    requires
        reason != Some(OperationMode::Quit),
    ensures
        after_shutdown(reason).0 == Phase::AwaitMode,
        lines.after_all(after_shutdown(reason).1).all_low(),
        lines.after_all(after_shutdown(reason).1).mode is Idle,
{
    lemma_after_all_append(lines, seq![Action::Publish], reentered());
    lemma_entered(lines.after_all(seq![Action::Publish]));
}

/// Whatever leads back to waiting for a mode brings every line low and the
/// charger to idle.
pub proof fn law_waiting_means_every_line_low(lines: Lines, phase: Phase, outcome: Outcome)
    requires
        followed(phase, outcome) matches Some(next) && next.0 == Phase::AwaitMode,
    ensures
        lines.after_all((followed(phase, outcome)->0).1).all_low(),
        lines.after_all((followed(phase, outcome)->0).1).mode is Idle,
{
    match outcome {
        Outcome::Mode(Some(mode)) => law_failure_leaves_every_line_low(
            lines,
            mode,
            phase,
            seq![],
        ),
        _ => law_failure_leaves_every_line_low(lines, OperationMode::Idle, phase, seq![]),
    }
    if let Phase::Shutdown { reason } = phase {
        law_session_ends_with_every_line_low(lines, reason);
    }
}

/// From rest, the start of a session raises the lines in order: the converter
/// first, then D1, then the lock of the plug and D2. The contactors stay open
/// throughout: only the precharge closes them.
pub proof fn law_start_raises_the_lines_in_order(lines: Lines, mode: OperationMode)
    requires
        lines.all_low(),
        starts_session(mode),
    ensures
        ({
            let powered = lines.after_all(after_mode(Some(mode)).1);
            let greeted = powered.after_all(greeted());
            let locked = greeted.after_all(locked());
            &&& powered == (Lines { pre_ac: true, mode, ..lines })
            &&& greeted == (Lines { d1: true, ..powered })
            &&& locked == (Lines { plug_lock: true, d2: true, ..greeted })
            &&& !locked.c1 && !locked.c2
        }),
{
    lemma_after_all_append(lines, announced(mode), powered());
    reveal_with_fuel(Lines::after_all, 4);
}

/// A request to quit ends the session at once, without a start.
pub proof fn law_quit_starts_nothing(lines: Lines)
    ensures
        after_mode(Some(OperationMode::Quit)).0 == Phase::Ended,
        lines.after_all(after_mode(Some(OperationMode::Quit)).1) == (Lines {
            mode: OperationMode::Quit,
            ..lines
        }),
{
    reveal_with_fuel(Lines::after_all, 4);
}

/// Each phase waits for its own outcome, and a success leads on: a mode to the
/// converter, that to the K line, to the precharge and to the charge, and the
/// end of the charge to the release of the vehicle. Every failure of the start
/// leads back to waiting for a mode, and a request to quit, or a charge that
/// ended in one, to the end.
pub proof fn law_phases_follow_each_other(phase: Phase, outcome: Outcome)
    ensures
        followed(phase, outcome) is Some <==> {
            ||| phase == Phase::AwaitMode && outcome is Mode
            ||| phase == Phase::InitPre && outcome is Pre
            ||| phase == Phase::KLine && outcome is KLine
            ||| phase == Phase::Precharge && outcome is Precharge
            ||| phase == Phase::Charge && outcome is ChargeEnd
            ||| phase is Shutdown && outcome is Released
        },
        followed(phase, outcome) matches Some(next) ==> {
            &&& outcome == Outcome::Mode(Some(OperationMode::V2h)) ==> next.0 == Phase::InitPre
            &&& outcome == Outcome::Mode(Some(OperationMode::Charge)) ==> next.0 == Phase::InitPre
            &&& outcome == Outcome::Mode(None) ==> next.0 == Phase::InitPre
            &&& outcome == Outcome::Mode(Some(OperationMode::Quit)) ==> next.0 == Phase::Ended
            &&& outcome == Outcome::Mode(Some(OperationMode::Idle)) ==> next.0 == Phase::AwaitMode
            &&& outcome == Outcome::Mode(Some(OperationMode::Discharge)) ==> next.0
                == Phase::AwaitMode
            &&& outcome == Outcome::Mode(Some(OperationMode::Uninitalised)) ==> next.0
                == Phase::AwaitMode
            &&& outcome == Outcome::Pre(true) ==> next.0 == Phase::KLine
            &&& outcome == Outcome::KLine(true) ==> next.0 == Phase::Precharge
            &&& outcome == Outcome::Precharge(true) ==> next.0 == Phase::Charge
            &&& outcome == Outcome::Pre(false) || outcome == Outcome::KLine(false) || outcome
                == Outcome::Precharge(false) ==> next.0 == Phase::AwaitMode
            &&& outcome matches Outcome::ChargeEnd(why) ==> next.0 == (Phase::Shutdown {
                reason: why,
            })
            &&& outcome is Released ==> (next.0 == Phase::Ended <==> phase == (Phase::Shutdown {
                reason: Some(OperationMode::Quit),
            })) && (next.0 == Phase::Ended || next.0 == Phase::AwaitMode)
        },
{
}

/// What the actions bring about beside the lines.
pub struct Bench {
    /// The station status that was last reported
    pub station: u8,
    /// How often the CAN bus has been opened and not closed
    pub can: int,
    /// Tasks serve the power converter
    pub served: bool,
    /// The power converter has been shut down
    pub shut_down: bool,
    /// The vehicle has been told to charge
    pub charge: bool,
    pub mode: OperationMode,
    /// The mode that was last published
    pub published: OperationMode,
    /// The mode that the panel shows, where it shows no error
    pub panel: OperationMode,
    pub error: bool,
    /// The fan runs at its idle speed
    pub fan_idle: bool,
}

impl Bench {
    /// What an action brings about.
    pub open spec fn after(self, action: Action) -> Bench {
        match action {
            Action::AbortPre => Bench { served: false, ..self },
            Action::SpawnPre => Bench { served: true, shut_down: false, ..self },
            Action::ShutdownPre => Bench { shut_down: true, ..self },
            Action::Station(station) => Bench { station, ..self },
            Action::State(mode) => Bench { mode, ..self },
            Action::Leds => Bench { panel: self.mode, error: false, ..self },
            Action::ErrorLogo => Bench { error: true, ..self },
            Action::Publish => Bench { published: self.mode, ..self },
            Action::Fan => Bench { fan_idle: true, ..self },
            Action::OpenCan => Bench { can: self.can + 1, ..self },
            Action::CloseCan => Bench { can: self.can - 1, ..self },
            Action::ChargeStart => Bench { charge: true, ..self },
            Action::ChargeStop => Bench { charge: false, ..self },
            Action::Drive(_, _) => self,
            Action::LockPlug => self,
        }
    }

    /// What a list of actions brings about.
    pub open spec fn after_all(self, actions: Seq<Action>) -> Bench
        decreases actions.len(),
    {
        if actions.len() == 0 {
            self
        } else {
            self.after(actions[0]).after_all(actions.drop_first())
        }
    }
}

proof fn lemma_bench_append(bench: Bench, a: Seq<Action>, b: Seq<Action>)
    ensures
        bench.after_all(a + b) == bench.after_all(a).after_all(b),
    decreases a.len(),
{
    if a.len() == 0 {
        assert(a + b =~= b);
    } else {
        assert((a + b).drop_first() =~= a.drop_first() + b);
        lemma_bench_append(bench.after(a[0]), a.drop_first(), b);
    }
}

proof fn lemma_bench_reset(bench: Bench)
    ensures
        bench.after_all(reset()) == (Bench { station: 0x24, ..bench }),
{
    reveal_with_fuel(Bench::after_all, 8);
}

#[verifier::spinoff_prover]
proof fn lemma_bench_entered(bench: Bench)
    ensures
        bench.after_all(entered()) == (Bench {
            served: false,
            station: 0x24,
            mode: OperationMode::Idle,
            panel: OperationMode::Idle,
            error: false,
            published: OperationMode::Idle,
            fan_idle: true,
            can: bench.can + 1,
            ..bench
        }),
        bench.after_all(reentered()) == (Bench {
            served: false,
            station: 0x24,
            mode: OperationMode::Idle,
            panel: OperationMode::Idle,
            error: false,
            published: OperationMode::Idle,
            fan_idle: true,
            ..bench
        }),
{
    let head = seq![Action::AbortPre];
    let tail = seq![
        Action::State(OperationMode::Idle),
        Action::Leds,
        Action::Publish,
        Action::Fan,
        Action::OpenCan,
    ];
    lemma_bench_append(bench, head + reset(), tail);
    lemma_bench_append(bench, head, reset());
    lemma_bench_append(bench, seq![Action::CloseCan], entered());
    let closed = Bench { can: bench.can - 1, ..bench };
    lemma_bench_append(closed, head + reset(), tail);
    lemma_bench_append(closed, head, reset());
    reveal_with_fuel(Bench::after_all, 6);
    lemma_bench_reset(bench.after_all(head));
    lemma_bench_reset(closed.after_all(head));
}

/// Whatever leads back to waiting for a mode reports the charger as stopping,
/// ends the tasks of the converter, publishes the idle mode and shows it, slows
/// the fan down, and closes the CAN bus once before it opens it again.
pub proof fn law_waiting_brings_the_charger_to_rest(bench: Bench, phase: Phase, outcome: Outcome)
    requires
        followed(phase, outcome) matches Some(next) && next.0 == Phase::AwaitMode,
    ensures
        ({
            let b = bench.after_all((followed(phase, outcome)->0).1);
            &&& b.station == 0x24
            &&& b.can == bench.can
            &&& !b.served
            &&& b.mode == OperationMode::Idle
            &&& b.published == OperationMode::Idle
            &&& b.panel == OperationMode::Idle && !b.error
            &&& b.fan_idle
        }),
{
    let actions = (followed(phase, outcome)->0).1;
    let last = reentered();
    let first = actions.take(actions.len() - last.len());
    assert(actions =~= first + last);
    lemma_bench_append(bench, first, last);
    lemma_bench_entered(bench.after_all(first));
    lemma_bench_only_waiting_opens(bench, phase, outcome);
}

proof fn lemma_bench_only_waiting_opens(bench: Bench, phase: Phase, outcome: Outcome)
    requires
        followed(phase, outcome) matches Some(next) && next.0 == Phase::AwaitMode,
    ensures
        ({
            let actions = (followed(phase, outcome)->0).1;
            bench.after_all(actions.take(actions.len() - reentered().len())).can == bench.can
        }),
{
    let actions = (followed(phase, outcome)->0).1;
    let first = actions.take(actions.len() - reentered().len());
    if let Outcome::Mode(Some(mode)) = outcome {
        assert(first =~= announced(mode));
        reveal_with_fuel(Bench::after_all, 4);
    } else if let Outcome::Released = outcome {
        assert(first =~= seq![Action::Publish]);
        reveal_with_fuel(Bench::after_all, 2);
    } else {
        let head = seq![Action::ErrorLogo, Action::State(OperationMode::Idle)];
        assert(first =~= head + reset() + seq![Action::Publish]);
        lemma_bench_append(bench, head + reset(), seq![Action::Publish]);
        lemma_bench_append(bench, head, reset());
        reveal_with_fuel(Bench::after_all, 3);
        lemma_bench_reset(bench.after_all(head));
    }
}

/// The charger starts at rest, with the CAN bus open.
pub proof fn law_charger_starts_at_rest(bench: Bench, next: Next)
    requires
        call_ensures(begin, (), next),
    ensures
        next.phase == Phase::AwaitMode,
        ({
            let b = bench.after_all(next.actions@);
            &&& b.station == 0x24 && b.can == bench.can + 1 && !b.served && b.fan_idle
            &&& b.mode == OperationMode::Idle && b.published == OperationMode::Idle && b.panel
                == OperationMode::Idle && !b.error
        }),
{
    lemma_bench_entered(bench);
}

/// A mode that is asked for is taken up, shown and published before anything
/// else is done.
pub proof fn law_modes_are_announced(bench: Bench, mode: OperationMode)
    ensures
        ({
            let actions = (followed(Phase::AwaitMode, Outcome::Mode(Some(mode)))->0).1;
            let b = bench.after_all(actions.take(3));
            &&& actions.len() >= 3
            &&& b == (Bench { mode, published: mode, panel: mode, error: false, ..bench })
        }),
{
    let actions = (followed(Phase::AwaitMode, Outcome::Mode(Some(mode)))->0).1;
    assert(actions.take(3) =~= announced(mode));
    reveal_with_fuel(Bench::after_all, 4);
}

/// A session that starts has its converter served, and the vehicle does not
/// charge yet. Without a request it keeps the mode that it has.
pub proof fn law_start_serves_the_converter(bench: Bench, received: Option<OperationMode>)
    requires
        received is None || received == Some(OperationMode::V2h) || received == Some(
            OperationMode::Charge,
        ),
    ensures
        ({
            let b = bench.after_all((followed(Phase::AwaitMode, Outcome::Mode(received))->0).1);
            &&& b.served && !b.charge && !b.shut_down
            &&& b.can == bench.can && b.station == bench.station
            &&& received is None ==> b.mode == bench.mode && b.published == bench.published
            &&& received matches Some(mode) ==> b.mode == mode && b.published == mode && b.panel
                == mode
        }),
{
    if let Some(mode) = received {
        lemma_bench_append(bench, announced(mode), powered());
    }
    reveal_with_fuel(Bench::after_all, 4);
}

/// As the start goes on the vehicle hears of it: that the charger is idle once
/// the converter is up, to charge once the K line is seen, and that it charges
/// once the contactors are closed, which the panel shows.
pub proof fn law_vehicle_hears_of_the_start(bench: Bench)
    ensures
        bench.after_all((followed(Phase::InitPre, Outcome::Pre(true))->0).1) == (Bench {
            station: 0x20,
            ..bench
        }),
        bench.after_all((followed(Phase::KLine, Outcome::KLine(true))->0).1) == (Bench {
            charge: true,
            ..bench
        }),
        bench.after_all((followed(Phase::Precharge, Outcome::Precharge(true))->0).1) == (Bench {
            station: 0x05,
            panel: bench.mode,
            error: false,
            ..bench
        }),
{
    reveal_with_fuel(Bench::after_all, 4);
}

/// However a charge ends, the end is published, the vehicle hears of it and the
/// converter is shut down; the panel shows an error exactly where the charge
/// has failed.
pub proof fn law_end_of_a_charge(bench: Bench, reason: Option<OperationMode>)
    ensures
        bench.after_all((followed(Phase::Charge, Outcome::ChargeEnd(reason))->0).1) == (Bench {
            published: bench.mode,
            station: 0x24,
            shut_down: true,
            error: reason is None || bench.error,
            ..bench
        }),
{
    let tail = seq![Action::Publish, Action::Station(STATION_STOPPING), Action::ShutdownPre];
    lemma_bench_append(
        bench,
        if reason is None {
            seq![Action::ErrorLogo]
        } else {
            seq![]
        },
        tail,
    );
    reveal_with_fuel(Bench::after_all, 4);
}

/// Once the vehicle is released the state is published, whatever follows, and
/// a charger that quits does nothing more.
pub proof fn law_release_is_published(bench: Bench, reason: Option<OperationMode>)
    ensures
        ({
            let actions = (followed(Phase::Shutdown { reason }, Outcome::Released)->0).1;
            &&& actions.len() >= 1 && actions[0] == Action::Publish
            &&& reason == Some(OperationMode::Quit) ==> actions.len() == 1
        }),
{
}

/// A failed start shows the error before it goes back, with the lines already
/// low: at no point after the error logo is a line raised.
pub proof fn law_failures_are_shown(phase: Phase, outcome: Outcome)
    requires
        outcome == Outcome::Pre(false) || outcome == Outcome::KLine(false) || outcome
            == Outcome::Precharge(false),
        followed(phase, outcome) is Some,
    ensures
        ({
            let actions = (followed(phase, outcome)->0).1;
            &&& actions.len() > 0 && actions[0] == Action::ErrorLogo
            &&& forall|i: int|
                0 <= i < actions.len() ==> !(#[trigger] actions[i] matches Action::Drive(_, high)
                    && high) && actions[i] != Action::LockPlug
        }),
{
}

/// The plug is locked before the vehicle is told to go ahead: at no point is D2
/// high with the plug unlocked.
pub proof fn law_plug_is_locked_before_d2(lines: Lines, k: int)
    requires
        !lines.d2,
        0 <= k <= (followed(Phase::KLine, Outcome::KLine(true))->0).1.len(),
    ensures
        ({
            let actions = (followed(Phase::KLine, Outcome::KLine(true))->0).1;
            let l = lines.after_all(actions.take(k));
            l.d2 ==> l.plug_lock
        }),
{
    reveal_with_fuel(Lines::after_all, 4);
}

/// On the way to rest the plug is let go of last: as long as any other line is
/// high, its lock is as it was.
pub proof fn law_plug_is_let_go_of_last(lines: Lines, k: int)
    requires
        0 <= k <= reset().len(),
    ensures
        ({
            let l = lines.after_all(reset().take(k));
            l.plug_lock == lines.plug_lock || !(l.c1 || l.c2 || l.d1 || l.d2 || l.pre_ac)
        }),
{
    reveal_with_fuel(Lines::after_all, 8);
}

/// What the session does next is what follows the outcome in its phase; an
/// outcome that the phase does not wait for leads nowhere.
pub proof fn law_steps_follow_the_outcome(phase: Phase, outcome: Outcome, next: Option<Next>)
    requires
        call_ensures(step, (phase, outcome), next),
    ensures
        next is Some <==> followed(phase, outcome) is Some,
        next matches Some(n) ==> n.phase == (followed(phase, outcome)->0).0 && n.actions@ == (
        followed(phase, outcome)->0).1,
{
}

/// Bringing the outputs low adds to what is to be done, and takes nothing of it
/// away.
pub proof fn law_reset_comes_on_top(actions: &mut Vec<Action>, i: int)
    requires
        call_ensures(reset_gpio_state, (actions,), ()),
        0 <= i < old(actions)@.len(),
    ensures
        final(actions)@[i] == old(actions)@[i],
        final(actions)@ == old(actions)@ + reset(),
{
}

} // verus!
