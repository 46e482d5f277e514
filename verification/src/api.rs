//! What the web socket answers.
use vstd::prelude::*;

use crate::data_io::commands::{dispatch, level_named, Cmd, Dispatch, Level, Parameters};
use crate::data_io::operator_settings::{patched, validated, OperatorSettings};
use crate::global_state::OperationMode;
use crate::scheduler::Events;
use crate::text::{decode_lossy, utf8_lossy};

verus! {

/// What arrives on a web socket.
#[derive(Debug)]
pub enum Frame {
    Text(String),
    Binary(Vec<u8>),
    Close,
    /// A ping, a pong or a raw frame
    Other,
    /// The connection failed
    Failed,
}

/// What a frame comes to.
#[derive(Debug)]
pub enum Incoming {
    /// A command to be read
    Command(String),
    /// Nothing
    Ignore,
    /// The end of the connection
    End,
}

/// What a frame comes to: text as it is, bytes as the text that they are.
pub fn accept_frame(frame: Frame) -> (r: Incoming)
    ensures
        match frame {
            Frame::Text(text) => r matches Incoming::Command(t) && t@ == text@,
            Frame::Binary(bytes) => r matches Incoming::Command(t) && t@ == utf8_lossy(bytes@),
            Frame::Other => r is Ignore,
            Frame::Close | Frame::Failed => r is End,
        },
{
    match frame {
        Frame::Text(text) => Incoming::Command(text),
        Frame::Binary(bytes) => Incoming::Command(decode_lossy(&bytes)),
        Frame::Other => Incoming::Ignore,
        Frame::Close => Incoming::End,
        Frame::Failed => Incoming::End,
    }
}

/// What is to be done before an answer.
#[derive(Debug)]
pub enum Effect {
    Nothing,
    /// Ask for this mode
    Mode(OperationMode),
    /// Take over and store these settings
    Settings(OperatorSettings),
    /// Log this much from now on
    Level(Level),
    /// Hand this schedule to the scheduler
    Events(Events),
    /// Forward the log to this client, or not
    Logging(bool),
    /// Look up the mode
    FetchMode,
    /// Look up the schedule
    FetchEvents,
    /// Look up records
    FetchRecords(Parameters),
}

/// An answer.
#[derive(Debug, Clone, Copy, PartialEq, Eq, Structural)]
pub enum Reply {
    /// It has been done (`true`), or has not
    Ack(bool),
    /// This mode
    Mode(OperationMode),
    /// What has been looked up
    Fetched,
}

/// What a command comes to: something to be done, the answer to it, and
/// whether that answer takes for granted that it was done.
#[derive(Debug)]
pub struct Plan {
    pub effect: Effect,
    pub reply: Reply,
    pub only_if_done: bool,
}

/// What a command comes to under the given settings; `None` stands for a text
/// that is no command.
pub open spec fn planned(cmd: Option<Cmd>, current: OperatorSettings) -> Plan {
    match cmd {
        Some(Cmd::SetMode(mode)) => Plan {
            effect: Effect::Mode(mode),
            reply: Reply::Mode(mode),
            only_if_done: false,
        },
        Some(Cmd::GetMode) => Plan {
            effect: Effect::FetchMode,
            reply: Reply::Fetched,
            only_if_done: false,
        },
        Some(Cmd::SetEvents(events)) => Plan {
            effect: Effect::Events(events),
            reply: Reply::Ack(true),
            only_if_done: true,
        },
        Some(Cmd::GetEvents) => Plan {
            effect: Effect::FetchEvents,
            reply: Reply::Fetched,
            only_if_done: true,
        },
        Some(Cmd::SetSettings(settings)) => Plan {
            effect: Effect::Settings(validated(settings)),
            reply: Reply::Ack(true),
            only_if_done: false,
        },
        Some(Cmd::SetSetting(change)) => Plan {
            effect: Effect::Settings(validated(patched(current, change))),
            reply: Reply::Ack(true),
            only_if_done: false,
        },
        Some(Cmd::StartLogs) => Plan {
            effect: Effect::Logging(true),
            reply: Reply::Ack(true),
            only_if_done: false,
        },
        Some(Cmd::StopLogs) => Plan {
            effect: Effect::Logging(false),
            reply: Reply::Ack(true),
            only_if_done: false,
        },
        Some(Cmd::GetRecords(parameters)) => Plan {
            effect: Effect::FetchRecords(parameters),
            reply: Reply::Fetched,
            only_if_done: true,
        },
        Some(Cmd::SetLogLevel(name)) => match level_named(name@) {
            Some(level) => Plan {
                effect: Effect::Level(level),
                reply: Reply::Ack(true),
                only_if_done: false,
            },
            None => refused(),
        },
        None => refused(),
    }
}

/// What is not understood is refused, and nothing is done.
pub open spec fn refused() -> Plan {
    Plan { effect: Effect::Nothing, reply: Reply::Ack(false), only_if_done: false }
}

fn answer(effect: Effect, reply: Reply, only_if_done: bool) -> (plan: Plan)
    ensures
        plan == (Plan { effect, reply, only_if_done }),
{
    Plan { effect, reply, only_if_done }
}

/// Decides what a command comes to. Changes go the way of every command;
/// queries are answered here.
pub fn process_ws_message(cmd: Option<Cmd>, current: &OperatorSettings) -> (plan: Plan)
    ensures
        plan == planned(cmd, *current),
{
    let cmd = match cmd {
        Some(cmd) => cmd,
        None => {
            return answer(Effect::Nothing, Reply::Ack(false), false);
        },
    };
    match dispatch(cmd, current) {
        Dispatch::Mode(mode) => answer(Effect::Mode(mode), Reply::Mode(mode), false),
        Dispatch::Settings(settings) => answer(Effect::Settings(settings), Reply::Ack(true), false),
        Dispatch::Level(level) => answer(Effect::Level(level), Reply::Ack(true), false),
        Dispatch::Unhandled(query) => match query {
            Cmd::GetMode => answer(Effect::FetchMode, Reply::Fetched, false),
            Cmd::SetEvents(events) => answer(Effect::Events(events), Reply::Ack(true), true),
            Cmd::GetEvents => answer(Effect::FetchEvents, Reply::Fetched, true),
            Cmd::StartLogs => answer(Effect::Logging(true), Reply::Ack(true), false),
            Cmd::StopLogs => answer(Effect::Logging(false), Reply::Ack(true), false),
            Cmd::GetRecords(parameters) => answer(
                Effect::FetchRecords(parameters),
                Reply::Fetched,
                true,
            ),
            _ => answer(Effect::Nothing, Reply::Ack(false), false),
        },
    }
}

/// The answer once it is known whether what was to be done has been done.
pub fn settle(reply: Reply, only_if_done: bool, done: bool) -> (r: Reply)
    ensures
        r == (if only_if_done && !done {
            Reply::Ack(false)
        } else {
            reply
        }),
{
    if only_if_done && !done {
        Reply::Ack(false)
    } else {
        reply
    }
}

/// The text of an acknowledgement.
pub open spec fn ack_text(ok: bool) -> Seq<char> {
    if ok {
        "{\"ack\":\"ok\"}"@
    } else {
        "{\"ack\":\"err\"}"@
    }
}

/// Writes an acknowledgement.
pub fn ack(ok: bool) -> (text: String)
    ensures
        text@ == ack_text(ok),
{
    if ok {
        "{\"ack\":\"ok\"}".to_owned()
    } else {
        "{\"ack\":\"err\"}".to_owned()
    }
}

/// What is no command has no effect and is answered with a refusal, and
/// nothing else is refused at once but an unknown log level.
pub proof fn law_only_nonsense_is_refused(cmd: Option<Cmd>, current: OperatorSettings)
    ensures
        planned(cmd, current).reply == Reply::Ack(false) <==> planned(
            cmd,
            current,
        ).effect is Nothing,
        planned(cmd, current).effect is Nothing <==> cmd is None || (cmd matches Some(
            Cmd::SetLogLevel(name),
        ) && level_named(name@) is None),
{
}

/// A change on the web socket does what the same command does elsewhere: the
/// mode is asked for and named in the answer, the settings are taken over and
/// the level set, and both are acknowledged at once.
pub proof fn law_changes_go_the_way_of_every_command(
    cmd: Cmd,
    current: OperatorSettings,
    plan: Plan,
    d: Dispatch,
)
    requires
        call_ensures(process_ws_message, (Some(cmd), &current), plan),
        call_ensures(dispatch, (cmd, &current), d),
    ensures
        ({
            &&& d matches Dispatch::Mode(mode) ==> plan.effect == Effect::Mode(mode) && plan.reply
                == Reply::Mode(mode) && !plan.only_if_done
            &&& d matches Dispatch::Settings(settings) ==> plan.effect == Effect::Settings(settings)
                && plan.reply == Reply::Ack(true) && !plan.only_if_done
            &&& d matches Dispatch::Level(level) ==> plan.effect == Effect::Level(level)
                && plan.reply == Reply::Ack(true) && !plan.only_if_done
            &&& d is Unhandled ==> !(plan.effect is Mode) && !(plan.effect is Settings)
                && !(plan.effect is Level)
        }),
{
}

/// What is asked for is looked up and answered with what was found: the mode
/// is always known, while the schedule and the records may fail to come, and so
/// may a schedule be refused by the scheduler. Switching the log on or off
/// always succeeds.
pub proof fn law_queries_are_answered(cmd: Cmd, current: OperatorSettings, plan: Plan)
    requires
        call_ensures(process_ws_message, (Some(cmd), &current), plan),
    ensures
        ({
            &&& cmd is GetMode <==> plan.effect is FetchMode
            &&& cmd is GetEvents <==> plan.effect is FetchEvents
            &&& cmd is GetRecords <==> plan.effect is FetchRecords
            &&& plan.effect is FetchMode || plan.effect is FetchEvents
                || plan.effect is FetchRecords <==> plan.reply is Fetched
            &&& cmd matches Cmd::GetRecords(parameters) ==> plan.effect == Effect::FetchRecords(
                parameters,
            )
            &&& cmd matches Cmd::SetEvents(events) ==> plan.effect == Effect::Events(events)
                && plan.reply == Reply::Ack(true)
            &&& cmd is StartLogs <==> plan.effect == Effect::Logging(true)
            &&& cmd is StopLogs <==> plan.effect == Effect::Logging(false)
            &&& plan.effect is Logging ==> plan.reply == Reply::Ack(true)
            &&& plan.only_if_done <==> cmd is SetEvents || cmd is GetEvents || cmd is GetRecords
        }),
{
}

/// Queries do not depend on the settings.
pub proof fn law_only_single_changes_look_at_the_settings(
    cmd: Cmd,
    one: OperatorSettings,
    other: OperatorSettings,
)
    requires
        !(cmd is SetSetting),
    ensures
        planned(Some(cmd), one) == planned(Some(cmd), other),
{
}

/// An answer that takes something for granted becomes a refusal where that was
/// not done, and no other answer changes.
pub proof fn law_failures_are_refusals(reply: Reply, only_if_done: bool, done: bool, r: Reply)
    requires
        call_ensures(settle, (reply, only_if_done, done), r),
    ensures
        done || !only_if_done ==> r == reply,
        only_if_done && !done ==> r == Reply::Ack(false),
{
}

/// Text and bytes both carry commands, and the bytes of a text carry the same
/// command as the text. Only the end of the connection ends it.
pub proof fn law_frames_carry_commands(
    text: String,
    bytes: Vec<u8>,
    by_text: Incoming,
    by_bytes: Incoming,
)
    requires
        call_ensures(accept_frame, (Frame::Text(text),), by_text),
        call_ensures(accept_frame, (Frame::Binary(bytes),), by_bytes),
    ensures
        by_text matches Incoming::Command(t) && t@ == text@,
        by_bytes is Command,
        utf8_lossy(bytes@) == text@ ==> by_bytes->0@ == by_text->0@,
{
}

/// A connection ends when it is closed or fails, and at no other frame.
pub proof fn law_connections_end_when_closed(frame: Frame, r: Incoming)
    requires
        call_ensures(accept_frame, (frame,), r),
    ensures
        r is End <==> frame is Close || frame is Failed,
        r is Ignore <==> frame is Other,
        r is Command <==> frame is Text || frame is Binary,
{
}

/// What is no command has no effect, whatever the settings are, and is refused.
pub proof fn law_nonsense_is_refused(current: OperatorSettings, plan: Plan)
    requires
        call_ensures(process_ws_message, (None::<Cmd>, &current), plan),
    ensures
        plan.effect is Nothing,
        plan.reply == Reply::Ack(false),
{
}

} // verus!
