//! The daily schedule: which mode the charger is asked for at which time.
use chrono::Timelike;
use vstd::prelude::*;
use vstd::std_specs::convert::FromSpecImpl;

use crate::global_state::OperationMode;

verus! {

/// Nanoseconds of a second.
pub const SECOND: u64 = 1_000_000_000;

/// Seconds of a day.
pub const DAY: u64 = 86_400;

/// What is scheduled.
#[derive(Debug, Clone, Copy, PartialEq, Eq, Structural)]
pub enum Action {
    Charge,
    Discharge,
    Sleep,
    V2h,
    Eco,
}

/// A time of day. In a leap second the nanoseconds go on beyond a second.
#[derive(Debug, Clone, Copy, PartialEq, Eq, Structural)]
pub struct TimeOfDay {
    /// Seconds since midnight
    pub secs: u32,
    /// Nanoseconds of the second
    pub nanos: u32,
}

impl TimeOfDay {
    /// The seconds lie within a day, and only the last second of a minute is
    /// long.
    pub open spec fn valid(self) -> bool {
        &&& self.secs < DAY
        &&& self.nanos < 2 * SECOND
        &&& self.nanos >= SECOND ==> self.secs % 60 == 59
    }

    /// Not later than `other`.
    pub open spec fn up_to(self, other: TimeOfDay) -> bool {
        self.secs < other.secs || (self.secs == other.secs && self.nanos <= other.nanos)
    }

    /// Nanoseconds from midnight, a leap second counted in.
    pub open spec fn since_midnight(self) -> int {
        self.secs * SECOND + self.nanos
    }

    /// Nanoseconds from `earlier`, a leap second in which that lies counted in.
    pub open spec fn since(self, earlier: TimeOfDay) -> int {
        self.since_midnight() - earlier.since_midnight() + (if self.secs > earlier.secs
            && earlier.nanos >= SECOND {
            SECOND as int
        } else {
            0
        })
    }
}

/// Whether `a` is not later than `b`.
pub fn not_later(a: TimeOfDay, b: TimeOfDay) -> (r: bool)
    ensures
        r == a.up_to(b),
{
    a.secs < b.secs || (a.secs == b.secs && a.nanos <= b.nanos)
}

/// `NaiveTime::from_num_seconds_from_midnight_opt`: the time of day that lies
/// that far from midnight, if there is one. It holds what it was made from.
#[verifier::external_body]
fn time_from_midnight(secs: u32, nanos: u32) -> (time: Option<TimeOfDay>)
    ensures
        time is Some == (TimeOfDay { secs, nanos }).valid(),
        time is Some ==> time->0 == (TimeOfDay { secs, nanos }),
{
    let time = chrono::NaiveTime::from_num_seconds_from_midnight_opt(secs, nanos)?;
    Some(TimeOfDay { secs: time.num_seconds_from_midnight(), nanos: time.nanosecond() })
}

/// The difference of two `NaiveTime`s in whole seconds, as
/// `TimeDelta::num_seconds` gives it. Stated where the first is not the
/// earlier one.
#[verifier::external_body]
fn seconds_since(time: TimeOfDay, earlier: TimeOfDay) -> (secs: i64)
    requires
        time.valid(),
        earlier.valid(),
    ensures
        earlier.up_to(time) ==> secs == time.since(earlier) / (SECOND as int),
{
    let time = chrono::NaiveTime::from_num_seconds_from_midnight_opt(time.secs, time.nanos);
    let earlier = chrono::NaiveTime::from_num_seconds_from_midnight_opt(earlier.secs, earlier.nanos);
    (time.unwrap() - earlier.unwrap()).num_seconds()
}

/// An action at a time of day.
#[derive(Debug, Clone, Copy, PartialEq, Eq, Structural)]
pub struct Event {
    pub time: TimeOfDay,
    pub action: Action,
}

/// The mode that an action asks for. That an eco charge takes surplus power
/// only is no part of the mode.
pub open spec fn mode_of(action: Action) -> OperationMode {
    match action {
        Action::Charge | Action::Discharge | Action::Eco => OperationMode::Charge,
        Action::Sleep => OperationMode::Idle,
        Action::V2h => OperationMode::V2h,
    }
}

impl From<Event> for OperationMode {
    fn from(event: Event) -> (mode: OperationMode) {
        match event.action {
            Action::Charge => OperationMode::Charge,
            Action::Discharge => OperationMode::Charge,
            Action::Sleep => OperationMode::Idle,
            Action::V2h => OperationMode::V2h,
            Action::Eco => OperationMode::Charge,
        }
    }
}

impl FromSpecImpl<Event> for OperationMode {
    open spec fn obeys_from_spec() -> bool {
        true
    }

    open spec fn from_spec(event: Event) -> OperationMode {
        mode_of(event.action)
    }
}

/// A pause at a number of seconds from midnight.
pub open spec fn pause_at(secs: int) -> Event {
    Event { time: TimeOfDay { secs: secs as u32, nanos: 0 }, action: Action::Sleep }
}

impl Event {
    /// A pause at a time of day.
    pub fn new(hh: u32, mm: u32, ss: u32) -> (event: Self)
        requires
            hh * 3600 + mm * 60 + ss < DAY,
        ensures
            event == pause_at(hh * 3600 + mm * 60 + ss),
            event.time.valid(),
    {
        let secs: u32 = hh * 3600 + mm * 60 + ss;
        let time = time_from_midnight(secs, 0);
        Event { time: time.unwrap(), action: Action::Sleep }
    }

    /// Whether the charge that the event asks for takes surplus power only.
    pub fn eco(&self) -> (r: bool)
        ensures
            r == (self.action is Eco),
    {
        matches!(self.action, Action::Eco)
    }
}

/// A schedule.
#[derive(Debug)]
pub struct Events(pub Vec<Event>);

/// Every event has a time that there is.
pub open spec fn valid_events(events: Seq<Event>) -> bool {
    forall|i: int| 0 <= i < events.len() ==> (#[trigger] events[i]).time.valid()
}

/// The schedule of a charger that was never given one.
pub open spec fn first_schedule() -> Seq<Event> {
    seq![pause_at(3723), pause_at(7383)]
}

impl Default for Events {
    fn default() -> (events: Self)
        ensures
            events.0@ == first_schedule(),
            valid_events(events.0@),
    {
        gen_config()
    }
}

/// A schedule to start from.
pub fn gen_config() -> (events: Events)
    ensures
        events.0@ == first_schedule(),
        valid_events(events.0@),
{
    let mut events: Vec<Event> = Vec::new();
    events.push(Event::new(1, 2, 3));
    events.push(Event::new(2, 3, 3));
    Events(events)
}

impl Clone for Events {
    fn clone(&self) -> (copy: Self)
        ensures
            copy.0@ == self.0@,
    {
        let mut list: Vec<Event> = Vec::new();
        let mut i: usize = 0;
        while i < self.0.len()
            invariant
                i <= self.0.len(),
                list@ == self.0@.take(i as int),
            decreases self.0.len() - i,
        {
            list.push(self.0[i]);
            i = i + 1;
        }
        assert(self.0@.take(i as int) =~= self.0@);
        Events(list)
    }
}

/// In order: earlier ones first, or later ones first.
pub open spec fn ordered(a: TimeOfDay, b: TimeOfDay, earliest_first: bool) -> bool {
    if earliest_first {
        a.up_to(b)
    } else {
        b.up_to(a)
    }
}

fn comes_first(a: TimeOfDay, b: TimeOfDay, earliest_first: bool) -> (r: bool)
    ensures
        r == ordered(a, b, earliest_first),
{
    if earliest_first {
        not_later(a, b)
    } else {
        not_later(b, a)
    }
}

/// The events at a time, in their order.
pub open spec fn at_time(events: Seq<Event>, time: TimeOfDay) -> Seq<Event> {
    events.filter(|e: Event| e.time == time)
}

/// `after` holds the events of `before` in order of time; those at the same
/// time keep their order.
pub open spec fn in_order(before: Seq<Event>, after: Seq<Event>, earliest_first: bool) -> bool {
    &&& forall|i: int, j: int|
        0 <= i < j < after.len() ==> ordered(
            #[trigger] after[i].time,
            #[trigger] after[j].time,
            earliest_first,
        )
    &&& forall|time: TimeOfDay| #[trigger] at_time(after, time) == at_time(before, time)
    &&& after.to_multiset() == before.to_multiset()
}

proof fn lemma_insert(events: Seq<Event>, place: int, event: Event, time: TimeOfDay)
    requires
        0 <= place <= events.len(),
        forall|i: int| place <= i < events.len() ==> (#[trigger] events[i]).time != event.time,
    ensures
        at_time(events.insert(place, event), time) == at_time(events.push(event), time),
        events.insert(place, event).to_multiset() == events.push(event).to_multiset(),
{
    let pred = |e: Event| e.time == time;
    let head = events.take(place);
    let tail = events.skip(place);
    let one = seq![event];
    assert(events.insert(place, event) =~= head + one + tail);
    assert(events.push(event) =~= head + tail + one);
    Seq::filter_distributes_over_add(head + one, tail, pred);
    Seq::filter_distributes_over_add(head, one, pred);
    Seq::filter_distributes_over_add(head + tail, one, pred);
    Seq::filter_distributes_over_add(head, tail, pred);
    if event.time == time {
        lemma_none_at(tail, time);
        assert(head.filter(pred) + one.filter(pred) + seq![] =~= head.filter(pred) + seq![]
            + one.filter(pred));
    } else {
        lemma_none_at(one, time);
        assert(head.filter(pred) + seq![] + tail.filter(pred) =~= head.filter(pred) + tail.filter(
            pred,
        ) + seq![]);
    }
    broadcast use vstd::seq_lib::group_to_multiset_ensures;

    assert(events.insert(place, event).to_multiset() =~= events.push(event).to_multiset());
}

proof fn lemma_none_at(events: Seq<Event>, time: TimeOfDay)
    requires
        forall|i: int| 0 <= i < events.len() ==> (#[trigger] events[i]).time != time,
    ensures
        at_time(events, time) == Seq::<Event>::empty(),
    decreases events.len(),
{
    reveal(Seq::filter);
    if events.len() > 0 {
        assert forall|i: int| 0 <= i < events.drop_last().len() implies (
        #[trigger] events.drop_last()[i]).time != time by {
            assert(events.drop_last()[i] == events[i]);
        }
        lemma_none_at(events.drop_last(), time);
    }
}

/// Sorts events by time, earliest first or latest first. Those at the same
/// time keep their order.
pub fn sort_events(events: &Vec<Event>, earliest_first: bool) -> (sorted: Vec<Event>)
    ensures
        in_order(events@, sorted@, earliest_first),
{
    let mut sorted: Vec<Event> = Vec::new();
    let mut i: usize = 0;
    assert(events@.take(0) =~= Seq::<Event>::empty());
    while i < events.len()
        invariant
            i <= events.len(),
            sorted.len() == i,
            in_order(events@.take(i as int), sorted@, earliest_first),
        decreases events.len() - i,
    {
        let event = events[i];
        let mut place: usize = sorted.len();
        while place > 0 && !comes_first(sorted[place - 1].time, event.time, earliest_first)
            invariant
                place <= sorted.len(),
                forall|k: int|
                    place <= k < sorted.len() ==> !ordered(
                        (#[trigger] sorted@[k]).time,
                        event.time,
                        earliest_first,
                    ),
            decreases place,
        {
            place = place - 1;
        }
        let ghost before = sorted@;
        let ghost taken = events@.take(i as int);
        sorted.insert(place, event);
        proof {
            assert(events@.take(i + 1) =~= taken.push(event));
            assert forall|time: TimeOfDay| #[trigger]
                at_time(sorted@, time) == at_time(events@.take(i + 1), time) by {
                lemma_insert(before, place as int, event, time);
                assert(at_time(before, time) == at_time(taken, time));
                let pred = |e: Event| e.time == time;
                assert(before.push(event) =~= before + seq![event]);
                assert(taken.push(event) =~= taken + seq![event]);
                Seq::filter_distributes_over_add(before, seq![event], pred);
                Seq::filter_distributes_over_add(taken, seq![event], pred);
            }
            lemma_insert(before, place as int, event, event.time);
            broadcast use vstd::seq_lib::group_to_multiset_ensures;

            assert(sorted@.to_multiset() =~= events@.take(i + 1).to_multiset());
        }
        i = i + 1;
    }
    assert(events@.take(i as int) =~= events@);
    sorted
}

impl Events {
    /// The schedule that was found at the start, ready to be worked off from
    /// its end: the earliest event is last.
    pub fn for_start(&self) -> (r: Events)
        ensures
            in_order(self.0@, r.0@, false),
    {
        Events(sort_events(&self.0, false))
    }

    /// A schedule that was sent, as it is stored and worked off: the earliest
    /// event is first.
    pub fn for_store(&self) -> (r: Events)
        ensures
            in_order(self.0@, r.0@, true),
    {
        Events(sort_events(&self.0, true))
    }
}

/// What working off a schedule comes to.
#[derive(Debug, Clone, Copy, PartialEq, Eq, Structural)]
pub enum Step {
    /// No event is left today
    Done,
    /// The event is over already
    Skip(Event),
    /// Wait that many seconds, and then ask for the mode; a charge with `eco`
    /// takes surplus power only
    Wait { seconds: u64, mode: OperationMode, eco: bool },
}

/// Takes the last event of what is left of today's schedule, at the time
/// `now`.
pub fn process_events(todays: &mut Vec<Event>, now: TimeOfDay) -> (step: Step)
    requires
        now.valid(),
        valid_events(old(todays)@),
    ensures
        valid_events(final(todays)@),
        old(todays)@.len() == 0 ==> final(todays)@ == old(todays)@ && step == Step::Done,
        old(todays)@.len() > 0 ==> {
            let event = old(todays)@.last();
            &&& final(todays)@ == old(todays)@.drop_last()
            &&& step == (if now.up_to(event.time) {
                Step::Wait {
                    seconds: (event.time.since(now) / (SECOND as int)) as u64,
                    mode: mode_of(event.action),
                    eco: event.action is Eco,
                }
            } else {
                Step::Skip(event)
            })
        },
{
    match todays.pop() {
        Some(event) => {
            assert(event == old(todays)@.last());
            if not_later(now, event.time) {
                let seconds: i64 = seconds_since(event.time, now);
                Step::Wait {
                    seconds: seconds as u64,
                    mode: OperationMode::from(event),
                    eco: event.eco(),
                }
            } else {
                Step::Skip(event)
            }
        },
        None => Step::Done,
    }
}

/// How long it is to midnight, in seconds and nanoseconds. The last leap
/// second of a day lies beyond its midnight, and is left out.
pub fn until_midnight(now: TimeOfDay) -> (wait: (u64, u32))
    requires
        now.since_midnight() <= DAY * SECOND,
    ensures
        wait.0 * SECOND + wait.1 == DAY * SECOND - now.since_midnight(),
        wait.1 < SECOND,
{
    let left: u64 = DAY * SECOND - (now.secs as u64 * SECOND + now.nanos as u64);
    let secs: u64 = left / SECOND;
    let nanos: u64 = left % SECOND;
    (secs, nanos as u32)
}

/// Worked off from its end, the schedule of the start gives the earliest event
/// that is left and one that was sent the latest, however many have been taken
/// already.
pub proof fn law_end_of_the_schedule(before: Seq<Event>, after: Seq<Event>, left: int, i: int)
    requires
        0 <= i < left <= after.len(),
    ensures
        in_order(before, after, false) ==> after.take(left).last().time.up_to(
            after.take(left)[i].time,
        ),
        in_order(before, after, true) ==> after.take(left)[i].time.up_to(
            after.take(left).last().time,
        ),
{
    assert(after.take(left).last() == after[left - 1]);
    if i < left - 1 {
        assert(in_order(before, after, false) ==> ordered(
            after[i].time,
            after[left - 1].time,
            false,
        ));
        assert(in_order(before, after, true) ==> ordered(
            after[i].time,
            after[left - 1].time,
            true,
        ));
    }
}

/// Sorting neither adds nor drops an event, and keeps times valid.
pub proof fn law_sorting_keeps_the_events(
    before: Seq<Event>,
    after: Seq<Event>,
    earliest_first: bool,
)
    requires
        in_order(before, after, earliest_first),
        valid_events(before),
    ensures
        after.len() == before.len(),
        valid_events(after),
        forall|event: Event| #[trigger] after.contains(event) <==> before.contains(event),
{
    broadcast use vstd::seq_lib::group_to_multiset_ensures;

    assert(after.to_multiset().len() == after.len());
    assert(before.to_multiset().len() == before.len());
    assert forall|i: int| 0 <= i < after.len() implies (#[trigger] after[i]).time.valid() by {
        assert(after.contains(after[i]));
        assert(before.to_multiset().count(after[i]) > 0);
        assert(before.contains(after[i]));
    }
    assert forall|event: Event| #[trigger] after.contains(event) <==> before.contains(event) by {
        assert(after.contains(event) <==> after.to_multiset().count(event) > 0);
        assert(before.contains(event) <==> before.to_multiset().count(event) > 0);
    }
}

/// A wait for an event of today is never longer than a day.
pub proof fn law_no_wait_is_longer_than_a_day(event: TimeOfDay, now: TimeOfDay)
    requires
        now.valid(),
        event.valid(),
        now.up_to(event),
    ensures
        0 <= event.since(now) / (SECOND as int) <= DAY,
{
}

/// Times of day are ordered: any two can be compared, and one comes strictly
/// before the other where its second does, or the second is the same and its
/// nanoseconds are fewer.
pub proof fn law_times_are_ordered(a: TimeOfDay, b: TimeOfDay, c: TimeOfDay)
    ensures
        a.up_to(b) || b.up_to(a),
        a.up_to(b) && b.up_to(a) ==> a == b,
        a.up_to(b) && b.up_to(c) ==> a.up_to(c),
        a.secs < b.secs ==> !b.up_to(a),
        a.secs == b.secs && a.nanos < b.nanos ==> !b.up_to(a),
{
}

/// The seconds of a time of day lie within the day. Its nanoseconds lie within
/// a second, but for the last second of a minute, which may be twice as long.
pub proof fn law_times_lie_within_a_day(t: TimeOfDay)
    ensures
        t.secs >= 86_400 ==> !t.valid(),
        t.nanos >= 2_000_000_000 ==> !t.valid(),
        t.secs < 86_400 && t.nanos < 1_000_000_000 ==> t.valid(),
        t.secs < 86_400 && 1_000_000_000 <= t.nanos < 2_000_000_000 ==> (t.valid() <==> t.secs % 60
            == 59),
{
}

/// Events are taken one by one from the end, none twice and none left out, and
/// nothing is left to be done exactly when none is left.
pub proof fn law_events_are_taken_one_by_one(
    todays: &mut Vec<Event>,
    now: TimeOfDay,
    step: Step,
)
    requires
        call_ensures(process_events, (todays, now), step),
    ensures
        step is Done <==> old(todays)@.len() == 0,
        old(todays)@.len() == 0 ==> final(todays)@.len() == 0,
        old(todays)@.len() > 0 ==> final(todays)@.push(old(todays)@.last()) == old(todays)@,
        step matches Step::Skip(event) ==> old(todays)@.last() == event,
{
    if old(todays)@.len() > 0 {
        assert(old(todays)@.drop_last().push(old(todays)@.last()) =~= old(todays)@);
    }
}

/// An event is passed over where its time has gone by, and waited for
/// otherwise.
pub proof fn law_past_events_are_passed_over(
    todays: &mut Vec<Event>,
    now: TimeOfDay,
    step: Step,
)
    requires
        call_ensures(process_events, (todays, now), step),
        old(todays)@.len() > 0,
    ensures
        ({
            let at = old(todays)@.last().time;
            let gone = at.secs < now.secs || (at.secs == now.secs && at.nanos < now.nanos);
            &&& step is Skip <==> gone
            &&& step is Wait <==> !gone
        }),
{
}

/// A wait ends in the second in which its event lies: it is the time to the
/// event in whole seconds. Outside a leap second that is the difference of the
/// two times of day; from within one, the leap second counts as well.
pub proof fn law_waits_end_at_their_event(
    todays: &mut Vec<Event>,
    now: TimeOfDay,
    step: Step,
)
    requires
        call_ensures(process_events, (todays, now), step),
        old(todays)@.len() > 0,
        now.valid(),
        old(todays)@.last().time.valid(),
    ensures
        ({
            let at = old(todays)@.last().time;
            let apart = (at.secs - now.secs) * 1_000_000_000 + at.nanos - now.nanos;
            step matches Step::Wait { seconds, mode, eco } ==> {
                &&& now.nanos < 1_000_000_000 || at.secs == now.secs ==> seconds * 1_000_000_000
                    <= apart < (seconds + 1) * 1_000_000_000
                &&& now.nanos >= 1_000_000_000 && at.secs > now.secs ==> seconds * 1_000_000_000
                    <= apart + 1_000_000_000 < (seconds + 1) * 1_000_000_000
            }
        }),
{
    if now.up_to(old(todays)@.last().time) {
        law_no_wait_is_longer_than_a_day(old(todays)@.last().time, now);
    }
}

/// Each action asks for its mode once it is due: a pause for rest, load matching
/// for itself, and all others for a charge. Of the charges exactly the eco
/// charge takes surplus power only.
pub proof fn law_actions_ask_for_their_modes(
    todays: &mut Vec<Event>,
    now: TimeOfDay,
    step: Step,
)
    requires
        call_ensures(process_events, (todays, now), step),
        old(todays)@.len() > 0,
    ensures
        step matches Step::Wait { seconds, mode, eco } ==> {
            let action = old(todays)@.last().action;
            &&& mode == OperationMode::Idle <==> action == Action::Sleep
            &&& mode == OperationMode::V2h <==> action == Action::V2h
            &&& mode == OperationMode::Charge <==> action == Action::Charge || action
                == Action::Discharge || action == Action::Eco
            &&& eco <==> action == Action::Eco
        },
{
}

/// Sorted, the events stand in order of time, and those at the same time stay
/// as they were.
pub proof fn law_schedules_are_sorted(
    before: Events,
    started: Events,
    stored: Events,
    i: int,
    j: int,
    time: TimeOfDay,
)
    requires
        call_ensures(Events::for_start, (&before,), started),
        call_ensures(Events::for_store, (&before,), stored),
        0 <= i < j < before.0@.len(),
    ensures
        started.0@.len() == before.0@.len() && stored.0@.len() == before.0@.len(),
        started.0@[j].time.secs < started.0@[i].time.secs || (started.0@[j].time.secs
            == started.0@[i].time.secs && started.0@[j].time.nanos <= started.0@[i].time.nanos),
        stored.0@[i].time.secs < stored.0@[j].time.secs || (stored.0@[i].time.secs
            == stored.0@[j].time.secs && stored.0@[i].time.nanos <= stored.0@[j].time.nanos),
        started.0@.filter(|e: Event| e.time == time) == before.0@.filter(|e: Event| e.time == time),
        stored.0@.filter(|e: Event| e.time == time) == before.0@.filter(|e: Event| e.time == time),
{
    broadcast use vstd::seq_lib::group_to_multiset_ensures;

    assert(started.0@.to_multiset().len() == before.0@.to_multiset().len());
    assert(stored.0@.to_multiset().len() == before.0@.to_multiset().len());
    assert(ordered(started.0@[i].time, started.0@[j].time, false));
    assert(ordered(stored.0@[i].time, stored.0@[j].time, true));
    assert(at_time(started.0@, time) == at_time(before.0@, time));
    assert(at_time(stored.0@, time) == at_time(before.0@, time));
}

/// After the wait for midnight the day is over, to the nanosecond.
pub proof fn law_day_ends_at_midnight(now: TimeOfDay, wait: (u64, u32))
    requires
        call_ensures(until_midnight, (now,), wait),
    ensures
        (now.secs + wait.0) * 1_000_000_000 + now.nanos + wait.1 == 86_400 * 1_000_000_000,
        wait.1 < 1_000_000_000,
{
}

/// A new event is a pause at the hour, minute and second that it is given.
pub proof fn law_new_events_are_pauses(hh: u32, mm: u32, ss: u32, event: Event)
    requires
        hh < 24 && mm < 60 && ss < 60,
        call_ensures(Event::new, (hh, mm, ss), event),
    ensures
        event.action == Action::Sleep,
        event.time.secs / 3600 == hh,
        event.time.secs / 60 % 60 == mm,
        event.time.secs % 60 == ss,
        event.time.nanos == 0,
{
    let secs: int = hh * 3600 + mm * 60 + ss;
    assert(secs / 60 == hh * 60 + mm);
}

/// A charger that was never given a schedule pauses twice at night, at two
/// minutes past one and at three minutes past two.
pub proof fn law_first_schedule_pauses_at_night(events: Events)
    requires
        call_ensures(gen_config, (), events),
    ensures
        events.0@.len() == 2,
        events.0@[0].time.secs == (1 * 60 + 2) * 60 + 3 && events.0@[0].time.nanos == 0,
        events.0@[1].time.secs == (2 * 60 + 3) * 60 + 3 && events.0@[1].time.nanos == 0,
        events.0@[0].action == Action::Sleep && events.0@[1].action == Action::Sleep,
{
}

} // verus!
