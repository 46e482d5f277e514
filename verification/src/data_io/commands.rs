//! Commands to the charger, whichever way they come.
use vstd::prelude::*;

use crate::data_io::operator_settings::{law_validated_within_bounds, law_validation_settles, patch, patched, update, validated, within_bounds, OperatorSettings, SettingPatch};
use crate::global_state::OperationMode;
use crate::scheduler::Events;
use crate::text::{is_word, matches_word};

verus! {

/// What records are asked for, as the text that the data base takes.
#[derive(Debug)]
pub struct Parameters {
    pub json: String,
}

/// A command.
#[derive(Debug)]
pub enum Cmd {
    SetMode(OperationMode),
    SetSettings(OperatorSettings),
    SetSetting(SettingPatch),
    SetEvents(Events),
    GetMode,
    GetEvents,
    GetRecords(Parameters),
    StartLogs,
    StopLogs,
    SetLogLevel(String),
}

impl Default for Cmd {
    fn default() -> (cmd: Self)
        ensures
            cmd == Cmd::GetMode,
    {
        Cmd::GetMode
    }
}

/// A command as it is sent.
#[derive(Debug)]
pub struct Instruction {
    pub cmd: Cmd,
}

impl Default for Instruction {
    fn default() -> (instruction: Self)
        ensures
            instruction.cmd == Cmd::GetMode,
    {
        Instruction { cmd: Cmd::GetMode }
    }
}

/// How much is logged.
#[derive(Debug, Clone, Copy, PartialEq, Eq, Structural)]
pub enum Level {
    Off,
    Error,
    Warn,
    Info,
    Debug,
    Trace,
}

/// The level that a name stands for, in any case.
pub open spec fn level_named(name: Seq<char>) -> Option<Level> {
    if is_word(name, "trace"@) {
        Some(Level::Trace)
    } else if is_word(name, "debug"@) {
        Some(Level::Debug)
    } else if is_word(name, "info"@) {
        Some(Level::Info)
    } else if is_word(name, "warn"@) {
        Some(Level::Warn)
    } else if is_word(name, "error"@) {
        Some(Level::Error)
    } else if is_word(name, "off"@) {
        Some(Level::Off)
    } else {
        None
    }
}

/// Reads the name of a level.
pub fn read_level(name: &str) -> (level: Option<Level>)
    ensures
        level == level_named(name@),
{
    if matches_word(name, "trace") {
        Some(Level::Trace)
    } else if matches_word(name, "debug") {
        Some(Level::Debug)
    } else if matches_word(name, "info") {
        Some(Level::Info)
    } else if matches_word(name, "warn") {
        Some(Level::Warn)
    } else if matches_word(name, "error") {
        Some(Level::Error)
    } else if matches_word(name, "off") {
        Some(Level::Off)
    } else {
        None
    }
}

/// What a command comes to.
#[derive(Debug)]
pub enum Dispatch {
    /// Ask for this mode
    Mode(OperationMode),
    /// These are the settings from now on, to be stored
    Settings(OperatorSettings),
    /// Log this much from now on
    Level(Level),
    /// Not a change, or one that is not understood: left to the caller
    Unhandled(Cmd),
}

/// What a command comes to under the given settings.
pub open spec fn dispatched(cmd: Cmd, current: OperatorSettings) -> Dispatch {
    match cmd {
        Cmd::SetMode(mode) => Dispatch::Mode(mode),
        Cmd::SetSettings(settings) => Dispatch::Settings(validated(settings)),
        Cmd::SetSetting(change) => Dispatch::Settings(validated(patched(current, change))),
        Cmd::SetLogLevel(name) => match level_named(name@) {
            Some(level) => Dispatch::Level(level),
            None => Dispatch::Unhandled(cmd),
        },
        _ => Dispatch::Unhandled(cmd),
    }
}

/// Carries out a command that changes something. A query, or a command that
/// only makes sense on the web socket, comes back to the caller.
pub fn dispatch(cmd: Cmd, current: &OperatorSettings) -> (r: Dispatch)
    ensures
        r == dispatched(cmd, *current),
{
    match cmd {
        Cmd::SetMode(mode) => Dispatch::Mode(mode),
        Cmd::SetSettings(settings) => Dispatch::Settings(update(settings)),
        Cmd::SetSetting(change) => Dispatch::Settings(patch(current, change)),
        Cmd::SetLogLevel(name) => {
            match read_level(&name) {
                Some(level) => Dispatch::Level(level),
                None => Dispatch::Unhandled(Cmd::SetLogLevel(name)),
            }
        },
        other => Dispatch::Unhandled(other),
    }
}

/// A command that asks for something, or only makes sense on the web socket.
pub open spec fn is_query(cmd: Cmd) -> bool {
    cmd is SetEvents || cmd is GetMode || cmd is GetEvents || cmd is GetRecords || cmd is StartLogs
        || cmd is StopLogs
}

/// Exactly the queries and the unknown log levels are left to the caller, and
/// they come back as they were.
pub proof fn law_changes_are_handled(cmd: Cmd, current: OperatorSettings)
    ensures
        dispatched(cmd, current) is Unhandled <==> is_query(cmd) || (cmd matches Cmd::SetLogLevel(
            name,
        ) && level_named(name@) is None),
        dispatched(cmd, current) matches Dispatch::Unhandled(back) ==> back == cmd,
{
}

/// Whatever is sent, the settings that a command leads to lie within their
/// bounds.
pub proof fn law_commands_keep_settings_within_bounds(cmd: Cmd, current: OperatorSettings)
    ensures
        dispatched(cmd, current) matches Dispatch::Settings(settings) ==> within_bounds(settings),
{
    match cmd {
        Cmd::SetSettings(settings) => law_validated_within_bounds(settings),
        Cmd::SetSetting(change) => law_validated_within_bounds(patched(current, change)),
        _ => {},
    }
}

/// A command for a mode asks for that mode, and nothing else asks for one.
pub proof fn law_mode_commands_ask_for_their_mode(cmd: Cmd, current: OperatorSettings)
    ensures
        cmd matches Cmd::SetMode(mode) ==> dispatched(cmd, current) == Dispatch::Mode(mode),
        dispatched(cmd, current) matches Dispatch::Mode(mode) ==> cmd == Cmd::SetMode(mode),
{
}

/// A command with whole settings replaces the settings, and does not look at
/// those before; one with a single change starts from those before, and both
/// end up within the bounds. Nothing else touches the settings.
pub proof fn law_settings_commands_replace_or_change(
    cmd: Cmd,
    current: OperatorSettings,
    other: OperatorSettings,
)
    ensures
        dispatched(cmd, current) is Settings <==> cmd is SetSettings || cmd is SetSetting,
        cmd is SetSettings ==> dispatched(cmd, current) == dispatched(cmd, other),
        cmd matches Cmd::SetSettings(whole) ==> {
            &&& within_bounds(whole) ==> dispatched(cmd, current) == Dispatch::Settings(whole)
            &&& dispatched(cmd, current) matches Dispatch::Settings(n) && within_bounds(n)
        },
        cmd matches Cmd::SetSetting(change) ==> {
            &&& dispatched(cmd, current) == dispatched(
                Cmd::SetSettings(patched(current, change)),
                other,
            )
            &&& dispatched(cmd, current) matches Dispatch::Settings(n) && within_bounds(n)
        },
{
    law_commands_keep_settings_within_bounds(cmd, current);
    if let Cmd::SetSettings(whole) = cmd {
        law_validation_settles(whole);
    }
}

/// A log level goes by its name, in any case, and each name means another
/// level.
pub proof fn law_levels_go_by_their_names(name: Seq<char>)
    ensures
        level_named(name) == Some(Level::Trace) <==> is_word(name, "trace"@),
        level_named(name) == Some(Level::Debug) <==> is_word(name, "debug"@),
        level_named(name) == Some(Level::Info) <==> is_word(name, "info"@),
        level_named(name) == Some(Level::Warn) <==> is_word(name, "warn"@),
        level_named(name) == Some(Level::Error) <==> is_word(name, "error"@),
        level_named(name) == Some(Level::Off) <==> is_word(name, "off"@),
{
    reveal_strlit("trace");
    reveal_strlit("debug");
    reveal_strlit("info");
    reveal_strlit("warn");
    reveal_strlit("error");
    reveal_strlit("off");
    assert("trace"@[0] == 't' && "debug"@[0] == 'd' && "info"@[0] == 'i' && "warn"@[0] == 'w'
        && "error"@[0] == 'e' && "off"@[0] == 'o');
}

/// A command for a log level sets the level that its name stands for.
pub proof fn law_level_commands_set_their_level(name: String, current: OperatorSettings)
    ensures
        level_named(name@) matches Some(level) ==> dispatched(Cmd::SetLogLevel(name), current)
            == Dispatch::Level(level),
        forall|cmd: Cmd| #[trigger]
            dispatched(cmd, current) is Level ==> cmd is SetLogLevel,
{
}

/// The command that stands for none changes nothing.
pub proof fn law_default_command_changes_nothing(cmd: Cmd, current: OperatorSettings)
    requires
        call_ensures(Cmd::default, (), cmd),
    ensures
        dispatched(cmd, current) == Dispatch::Unhandled(cmd),
        cmd is GetMode,
{
}

/// A mode that is sent is asked for, a change is made as a patch, and whole
/// settings replace those before, both brought within the bounds.
pub proof fn law_dispatch_asks_for_what_was_sent(
    mode: OperationMode,
    change: SettingPatch,
    whole: OperatorSettings,
    current: OperatorSettings,
    by_mode: Dispatch,
    by_change: Dispatch,
    by_whole: Dispatch,
    changed: OperatorSettings,
    replaced: OperatorSettings,
)
    requires
        call_ensures(dispatch, (Cmd::SetMode(mode), &current), by_mode),
        call_ensures(dispatch, (Cmd::SetSetting(change), &current), by_change),
        call_ensures(dispatch, (Cmd::SetSettings(whole), &current), by_whole),
        call_ensures(patch, (&current, change), changed),
        call_ensures(update, (whole,), replaced),
    ensures
        by_mode == Dispatch::Mode(mode),
        by_change == Dispatch::Settings(changed) && within_bounds(changed),
        by_whole == Dispatch::Settings(replaced) && within_bounds(replaced),
{
    law_validated_within_bounds(patched(current, change));
    law_validated_within_bounds(whole);
}

} // verus!
