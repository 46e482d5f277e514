//! Which log records are kept.
use std::collections::VecDeque;
use vstd::prelude::*;

use crate::data_io::commands::Level;

verus! {

/// Entries that are kept at most.
pub const BUFFER_CAP: usize = 500;

/// A log record as it is shown.
#[derive(Debug, Clone)]
pub struct LogEntry {
    /// Time of day, to the millisecond
    pub ts: String,
    pub level: String,
    pub target: String,
    pub message: String,
}

/// How much a level lets through.
pub open spec fn rank(level: Level) -> int {
    match level {
        Level::Off => 0,
        Level::Error => 1,
        Level::Warn => 2,
        Level::Info => 3,
        Level::Debug => 4,
        Level::Trace => 5,
    }
}

fn rank_of(level: Level) -> (r: u8)
    ensures
        r == rank(level),
{
    match level {
        Level::Off => 0,
        Level::Error => 1,
        Level::Warn => 2,
        Level::Info => 3,
        Level::Debug => 4,
        Level::Trace => 5,
    }
}

/// Whether a record of the given level passes a filter.
pub fn enabled(record: Level, filter: Level) -> (r: bool)
    ensures
        r == (rank(record) <= rank(filter)),
{
    rank_of(record) <= rank_of(filter)
}

/// The latest entries after one more.
pub open spec fn kept(entries: Seq<LogEntry>, entry: LogEntry) -> Seq<LogEntry> {
    if entries.len() >= BUFFER_CAP {
        entries.drop_first().push(entry)
    } else {
        entries.push(entry)
    }
}

/// Keeps an entry, and lets the oldest go where there are too many.
pub fn keep(entries: &mut VecDeque<LogEntry>, entry: LogEntry)
    ensures
        final(entries)@ == kept(old(entries)@, entry),
{
    if entries.len() >= BUFFER_CAP {
        entries.pop_front();
    }
    entries.push_back(entry);
}

/// There are never more entries than are kept at most, and the latest is
/// always among them.
pub proof fn law_buffer_is_bounded(entries: Seq<LogEntry>, entry: LogEntry)
    requires
        entries.len() <= BUFFER_CAP,
    ensures
        kept(entries, entry).len() <= BUFFER_CAP,
        kept(entries, entry).last() == entry,
{
}

/// The entries stay in the order in which they came, and none is lost before
/// there are five hundred newer ones: with room left the new entry joins the
/// others, and with none left the oldest alone makes room.
pub proof fn law_buffer_holds_the_latest(list: &mut VecDeque<LogEntry>, entry: LogEntry)
    requires
        call_ensures(keep, (list, entry), ()),
    ensures
        old(list)@.len() < 500 ==> final(list)@.len() == old(list)@.len() + 1,
        old(list)@.len() < 500 ==> forall|i: int|
            0 <= i < old(list)@.len() ==> final(list)@[i] == #[trigger] old(list)@[i],
        old(list)@.len() >= 500 ==> final(list)@.len() == old(list)@.len(),
        old(list)@.len() >= 500 ==> forall|i: int|
            1 <= i < old(list)@.len() ==> final(list)@[i - 1] == #[trigger] old(list)@[i],
        final(list)@.last() == entry,
{
}

/// A filter lets through what is at least as grave as it says: errors pass
/// every filter but the closed one, traces only the widest, and what passes a
/// filter passes every filter that lets more through.
pub proof fn law_filters_are_ordered(record: Level, filter: Level, passes: bool)
    requires
        call_ensures(enabled, (record, filter), passes),
    ensures
        record == Level::Error ==> (passes <==> filter != Level::Off),
        record == Level::Warn ==> (passes <==> filter != Level::Off && filter != Level::Error),
        record == Level::Info ==> (passes <==> filter == Level::Info || filter == Level::Debug
            || filter == Level::Trace),
        record == Level::Debug ==> (passes <==> filter == Level::Debug || filter == Level::Trace),
        record == Level::Trace ==> (passes <==> filter == Level::Trace),
        filter == Level::Trace ==> passes,
        record == filter ==> passes,
{
}

} // verus!
