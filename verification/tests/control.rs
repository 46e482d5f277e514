use indra_beaglebone::api::{
    accept_frame, ack, process_ws_message, settle, Effect, Frame, Incoming, Reply,
};
use indra_beaglebone::data_io::commands::{
    dispatch, read_level, Cmd, Dispatch, Instruction, Level, Parameters,
};
use indra_beaglebone::data_io::keyboard::scan_kb;
use indra_beaglebone::data_io::operator_settings::{OperatorSettings, SettingPatch};
use indra_beaglebone::data_io::status::{estop_holds, snapshot, Readings};
use indra_beaglebone::global_state::OperationMode;
use indra_beaglebone::logger::{enabled, keep, LogEntry, BUFFER_CAP};
use indra_beaglebone::scheduler::{
    gen_config, not_later, process_events, sort_events, until_midnight, Action, Event, Events, Step,
    TimeOfDay,
};
use std::collections::VecDeque;

fn at(secs: u32, action: Action) -> Event {
    Event { time: TimeOfDay { secs, nanos: 0 }, action }
}

#[test]
fn modes_follow_the_buttons() {
    let boost = |m: OperationMode| {
        let mut m = m;
        m.boost();
        m
    };
    let onoff = |m: OperationMode| {
        let mut m = m;
        m.onoff();
        m
    };
    assert_eq!(OperationMode::default(), OperationMode::Idle);
    assert_eq!(boost(OperationMode::Idle), OperationMode::Charge);
    assert_eq!(boost(OperationMode::V2h), OperationMode::Charge);
    assert_eq!(boost(OperationMode::Discharge), OperationMode::Charge);
    assert_eq!(boost(OperationMode::Charge), OperationMode::V2h);
    assert_eq!(boost(OperationMode::Uninitalised), OperationMode::Idle);
    assert_eq!(boost(OperationMode::Quit), OperationMode::Quit);
    assert_eq!(onoff(OperationMode::Idle), OperationMode::V2h);
    assert_eq!(onoff(OperationMode::V2h), OperationMode::Idle);
    assert_eq!(onoff(OperationMode::Charge), OperationMode::Idle);
    assert_eq!(onoff(OperationMode::Discharge), OperationMode::Idle);
    assert_eq!(onoff(OperationMode::Uninitalised), OperationMode::Idle);
    assert_eq!(onoff(OperationMode::Quit), OperationMode::Quit);
    let mut m = OperationMode::Charge;
    m.idle();
    assert!(m.is_idle() && m.is_inactive());
    assert!(OperationMode::Quit.is_quit() && OperationMode::Quit.is_inactive());
    assert!(OperationMode::Uninitalised.is_uninitalised());
    assert!(OperationMode::Uninitalised.is_inactive());
    assert!(OperationMode::V2h.is_v2h() && !OperationMode::V2h.is_inactive());
    assert!(OperationMode::Charge.is_charge() && OperationMode::Discharge.is_discharge());
}

#[test]
fn events_are_made_of_a_time() {
    assert_eq!(Event::new(1, 2, 3), at(3723, Action::Sleep));
    assert_eq!(Event::new(23, 59, 59), at(86399, Action::Sleep));
    assert_eq!(Event::new(0, 0, 0), at(0, Action::Sleep));
    assert_eq!(gen_config().0, vec![Event::new(1, 2, 3), Event::new(2, 3, 3)]);
    assert_eq!(Events::default().0, gen_config().0);
}

#[test]
fn actions_ask_for_modes() {
    for (action, mode) in [
        (Action::Charge, OperationMode::Charge),
        (Action::Discharge, OperationMode::Charge),
        (Action::Sleep, OperationMode::Idle),
        (Action::V2h, OperationMode::V2h),
        (Action::Eco, OperationMode::Charge),
    ] {
        assert_eq!(OperationMode::from(at(0, action)), mode);
    }
}

#[test]
fn schedules_are_sorted() {
    let events = vec![
        at(300, Action::Charge),
        at(100, Action::Sleep),
        at(300, Action::V2h),
        at(200, Action::Eco),
        at(100, Action::Discharge),
    ];
    let mut expected = events.clone();
    expected.sort_by(|a, b| (a.time.secs, a.time.nanos).cmp(&(b.time.secs, b.time.nanos)));
    assert_eq!(sort_events(&events, true), expected);
    assert_eq!(Events(events.clone()).for_store().0, expected);
    let mut expected = events.clone();
    expected.sort_by(|a, b| (b.time.secs, b.time.nanos).cmp(&(a.time.secs, a.time.nanos)));
    assert_eq!(sort_events(&events, false), expected);
    assert_eq!(Events(events.clone()).for_start().0, expected);
    assert!(sort_events(&vec![], true).is_empty());
    assert_eq!(Events(events.clone()).clone().0, events);
}

#[test]
fn times_are_ordered_to_the_nanosecond() {
    let a = TimeOfDay { secs: 10, nanos: 5 };
    let b = TimeOfDay { secs: 10, nanos: 6 };
    let c = TimeOfDay { secs: 11, nanos: 0 };
    assert!(not_later(a, b) && not_later(b, c) && not_later(a, a));
    assert!(!not_later(b, a) && !not_later(c, b));
}

#[test]
fn events_are_waited_for() {
    let mut todays = Events(vec![at(7200, Action::V2h), at(3600, Action::Sleep)]).for_start().0;
    let now = TimeOfDay { secs: 3599, nanos: 1 };
    assert_eq!(
        process_events(&mut todays, now),
        Step::Wait { seconds: 0, mode: OperationMode::Idle, eco: false }
    );
    let now = TimeOfDay { secs: 3600, nanos: 0 };
    assert_eq!(
        process_events(&mut todays, now),
        Step::Wait { seconds: 3600, mode: OperationMode::V2h, eco: false }
    );
    assert_eq!(process_events(&mut todays, now), Step::Done);
    assert!(todays.is_empty());
}

#[test]
fn sent_events_are_worked_off_from_the_latest() {
    let sent = Events(vec![at(200, Action::V2h), at(300, Action::Sleep), at(100, Action::Charge)]);
    let mut todays = sent.for_store().0;
    let times: Vec<u32> = todays.iter().map(|e| e.time.secs).collect();
    assert_eq!(times, vec![100, 200, 300]);
    let now = TimeOfDay { secs: 50, nanos: 0 };
    assert_eq!(
        process_events(&mut todays, now),
        Step::Wait { seconds: 250, mode: OperationMode::Idle, eco: false }
    );
    let then = TimeOfDay { secs: 300, nanos: 0 };
    assert_eq!(process_events(&mut todays, then), Step::Skip(at(200, Action::V2h)));
    assert_eq!(process_events(&mut todays, then), Step::Skip(at(100, Action::Charge)));
    assert_eq!(process_events(&mut todays, then), Step::Done);
}

#[test]
fn eco_events_ask_for_surplus_power() {
    let now = TimeOfDay { secs: 0, nanos: 0 };
    for (action, wanted) in [
        (Action::Eco, true),
        (Action::Charge, false),
        (Action::Discharge, false),
        (Action::Sleep, false),
        (Action::V2h, false),
    ] {
        assert_eq!(at(10, action).eco(), wanted);
        match process_events(&mut vec![at(10, action)], now) {
            Step::Wait { seconds: 10, eco, .. } => assert_eq!(eco, wanted),
            other => panic!("{:?}", other),
        }
    }
}

#[test]
fn past_events_are_skipped() {
    let mut todays = vec![at(100, Action::Charge), at(50, Action::Charge)];
    let now = TimeOfDay { secs: 50, nanos: 1 };
    assert_eq!(process_events(&mut todays, now), Step::Skip(at(50, Action::Charge)));
    let on_time = TimeOfDay { secs: 100, nanos: 0 };
    assert_eq!(
        process_events(&mut todays, on_time),
        Step::Wait { seconds: 0, mode: OperationMode::Charge, eco: false }
    );
}

#[test]
fn waits_count_leap_seconds() {
    let now = TimeOfDay { secs: 59, nanos: 1_500_000_000 };
    let mut todays = vec![at(61, Action::V2h)];
    let since = |secs: u32, nanos: u32| {
        chrono::NaiveTime::from_num_seconds_from_midnight_opt(secs, nanos).unwrap()
    };
    let expected = (since(61, 0) - since(59, 1_500_000_000)).num_seconds() as u64;
    assert_eq!(expected, 1);
    assert_eq!(
        process_events(&mut todays, now),
        Step::Wait { seconds: expected, mode: OperationMode::V2h, eco: false }
    );
}

#[test]
fn midnight_is_never_far() {
    assert_eq!(until_midnight(TimeOfDay { secs: 0, nanos: 0 }), (86400, 0));
    assert_eq!(until_midnight(TimeOfDay { secs: 86399, nanos: 999_999_999 }), (0, 1));
    assert_eq!(until_midnight(TimeOfDay { secs: 3600, nanos: 500_000_000 }), (82799, 500_000_000));
}

#[test]
fn keys_ask_for_modes() {
    let press = |key: char| scan_kb(key as u8).map(|p| (p.disable_pre, p.mode));
    assert_eq!(press('s'), Some((true, OperationMode::Idle)));
    assert_eq!(press('d'), Some((false, OperationMode::V2h)));
    assert_eq!(press('c'), Some((false, OperationMode::Charge)));
    assert_eq!(press('q'), Some((true, OperationMode::Quit)));
    assert_eq!((0..=255u8).filter(|k| scan_kb(*k).is_some()).count(), 4);
}

#[test]
fn unreadable_lines_are_shown_as_such() {
    let r = Readings {
        k: Some(0),
        d1: Some(1),
        d2: None,
        pluglock: Some(1),
        estop: Some(1),
        on_off: None,
        boost: Some(1),
        c1: Some(0),
        c2: None,
        pre_ac: Some(1),
        master: Some(1),
        pca_reset: Some(0),
    };
    let s = snapshot(&r);
    assert_eq!(s.chademo_connector.k_line, 0);
    assert_eq!(s.chademo_connector.d1_ev_contactor, 1);
    assert_eq!(s.chademo_connector.d2_ev_contactor, 255);
    assert_eq!(s.chademo_connector.plug_lock, 1);
    assert_eq!((s.evse_io.estop, s.evse_io.on_off_button, s.evse_io.boost_button), (1, 255, 1));
    assert_eq!((s.evse_io.c1_contactor, s.evse_io.c2_contactor, s.evse_io.pre_ac), (0, 255, 1));
    assert_eq!((s.evse_io.master_contactor, s.evse_io.pca_reset), (1, 0));
}

#[test]
fn emergency_stop_holds_the_start_up() {
    assert!(estop_holds(false, Some(0)));
    assert!(!estop_holds(false, Some(1)) && !estop_holds(false, None));
    assert!(estop_holds(true, Some(0)) && estop_holds(true, None));
    assert!(!estop_holds(true, Some(1)));
}

fn entry(n: usize) -> LogEntry {
    LogEntry {
        ts: String::new(),
        level: String::new(),
        target: String::new(),
        message: format!("{}", n),
    }
}

#[test]
fn log_keeps_the_latest_entries() {
    let mut buffer: VecDeque<LogEntry> = VecDeque::new();
    for n in 0..BUFFER_CAP + 3 {
        keep(&mut buffer, entry(n));
    }
    assert_eq!(buffer.len(), BUFFER_CAP);
    assert_eq!(buffer[0].message, "3");
    assert_eq!(buffer[BUFFER_CAP - 1].message, "502");
}

#[test]
fn log_levels_filter() {
    assert!(enabled(Level::Error, Level::Error));
    assert!(enabled(Level::Warn, Level::Trace));
    assert!(!enabled(Level::Debug, Level::Info));
    assert!(!enabled(Level::Error, Level::Off));
}

#[test]
fn levels_are_named() {
    for (name, level) in [
        ("trace", Some(Level::Trace)),
        ("Debug", Some(Level::Debug)),
        ("INFO", Some(Level::Info)),
        ("warn", Some(Level::Warn)),
        ("eRRor", Some(Level::Error)),
        ("off", Some(Level::Off)),
        ("loud", None),
        ("", None),
        ("warn ", None),
    ] {
        assert_eq!(read_level(name), level);
    }
}

#[test]
fn changes_are_dispatched() {
    let current = OperatorSettings::default();
    assert!(matches!(Cmd::default(), Cmd::GetMode));
    assert!(matches!(Instruction::default().cmd, Cmd::GetMode));
    assert!(matches!(
        dispatch(Cmd::SetMode(OperationMode::Charge), &current),
        Dispatch::Mode(OperationMode::Charge)
    ));
    let mut new = OperatorSettings::default();
    new.charge_amps = 99;
    match dispatch(Cmd::SetSettings(new), &current) {
        Dispatch::Settings(s) => assert_eq!(s.charge_amps, 16),
        _ => panic!("not handled"),
    }
    let mut p = SettingPatch::default();
    p.v2h_soc_max = Some(70);
    match dispatch(Cmd::SetSetting(p), &current) {
        Dispatch::Settings(s) => {
            assert_eq!((s.v2h_soc_max, s.v2h_soc_max_boost, s.charge_amps), (70, 70, 16))
        }
        _ => panic!("not handled"),
    }
    assert!(matches!(
        dispatch(Cmd::SetLogLevel("Info".to_string()), &current),
        Dispatch::Level(Level::Info)
    ));
}

#[test]
fn queries_are_left_to_the_caller() {
    let current = OperatorSettings::default();
    for cmd in [
        Cmd::GetMode,
        Cmd::GetEvents,
        Cmd::StartLogs,
        Cmd::StopLogs,
        Cmd::SetEvents(Events::default()),
        Cmd::GetRecords(Parameters { json: "{}".to_string() }),
        Cmd::SetLogLevel("loud".to_string()),
    ] {
        let name = format!("{:?}", cmd);
        match dispatch(cmd, &current) {
            Dispatch::Unhandled(back) => assert_eq!(format!("{:?}", back), name),
            _ => panic!("handled"),
        }
    }
}

#[test]
fn web_socket_answers_commands() {
    let current = OperatorSettings::default();
    let plan = process_ws_message(Some(Cmd::SetMode(OperationMode::V2h)), &current);
    assert!(matches!(plan.effect, Effect::Mode(OperationMode::V2h)));
    assert_eq!((plan.reply, plan.only_if_done), (Reply::Mode(OperationMode::V2h), false));
    let plan = process_ws_message(Some(Cmd::GetMode), &current);
    assert!(matches!(plan.effect, Effect::FetchMode));
    assert_eq!((plan.reply, plan.only_if_done), (Reply::Fetched, false));
    let plan = process_ws_message(Some(Cmd::SetEvents(Events::default())), &current);
    assert!(matches!(plan.effect, Effect::Events(ref e) if e.0.len() == 2));
    assert_eq!((plan.reply, plan.only_if_done), (Reply::Ack(true), true));
    let plan = process_ws_message(Some(Cmd::GetEvents), &current);
    assert!(matches!(plan.effect, Effect::FetchEvents));
    assert_eq!((plan.reply, plan.only_if_done), (Reply::Fetched, true));
    let plan = process_ws_message(Some(Cmd::SetSettings(OperatorSettings::default())), &current);
    assert!(matches!(plan.effect, Effect::Settings(_)));
    assert_eq!((plan.reply, plan.only_if_done), (Reply::Ack(true), false));
    let plan = process_ws_message(Some(Cmd::SetSetting(SettingPatch::default())), &current);
    assert!(matches!(plan.effect, Effect::Settings(_)));
    assert_eq!(plan.reply, Reply::Ack(true));
    let plan = process_ws_message(Some(Cmd::StartLogs), &current);
    assert!(matches!(plan.effect, Effect::Logging(true)));
    let plan = process_ws_message(Some(Cmd::StopLogs), &current);
    assert!(matches!(plan.effect, Effect::Logging(false)));
    assert_eq!(plan.reply, Reply::Ack(true));
    let parameters = Parameters { json: "{\"a\":1}".to_string() };
    let plan = process_ws_message(Some(Cmd::GetRecords(parameters)), &current);
    assert!(matches!(plan.effect, Effect::FetchRecords(ref p) if p.json == "{\"a\":1}"));
    assert_eq!((plan.reply, plan.only_if_done), (Reply::Fetched, true));
    let plan = process_ws_message(Some(Cmd::SetLogLevel("warn".to_string())), &current);
    assert!(matches!(plan.effect, Effect::Level(Level::Warn)));
}

#[test]
fn web_socket_refuses_nonsense() {
    let current = OperatorSettings::default();
    for cmd in [None, Some(Cmd::SetLogLevel("loud".to_string()))] {
        let plan = process_ws_message(cmd, &current);
        assert!(matches!(plan.effect, Effect::Nothing));
        assert_eq!(plan.reply, Reply::Ack(false));
    }
    assert_eq!(ack(true), r#"{"ack":"ok"}"#);
    assert_eq!(ack(false), r#"{"ack":"err"}"#);
    assert_eq!(settle(Reply::Fetched, true, false), Reply::Ack(false));
    assert_eq!(settle(Reply::Fetched, true, true), Reply::Fetched);
    assert_eq!(settle(Reply::Ack(true), false, false), Reply::Ack(true));
}

#[test]
fn frames_become_commands() {
    match accept_frame(Frame::Text("abc".to_string())) {
        Incoming::Command(t) => assert_eq!(t, "abc"),
        _ => panic!("no command"),
    }
    match accept_frame(Frame::Binary(vec![0x61, 0xff, 0x62])) {
        Incoming::Command(t) => assert_eq!(t, "a\u{fffd}b"),
        _ => panic!("no command"),
    }
    assert!(matches!(accept_frame(Frame::Other), Incoming::Ignore));
    assert!(matches!(accept_frame(Frame::Close), Incoming::End));
    assert!(matches!(accept_frame(Frame::Failed), Incoming::End));
}
