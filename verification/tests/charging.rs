use indra_beaglebone::chademo::charge_mode::{
    plan_mode, plan_v2h, ChargeLoop, Regulation, Setpoint, Tick, STEP_TICKS,
};
use indra_beaglebone::chademo::ev_connect::{
    begin, on_charge_end, on_k_line, on_mode, on_pre, on_precharge, on_shutdown, step, Action,
    Outcome, Output, Phase, STATION_CHARGING, STATION_IDLE, STATION_OPEN, STATION_STOPPING,
};
use indra_beaglebone::chademo::panel_leds::{LedCommand, Logo, Panel};
use indra_beaglebone::chademo::shutdown::{round, Event, Plug, Release, Shutdown, Stage};
use indra_beaglebone::chademo::start_up::{init_pre, k_line, settle_pre, Poll, Precharge, EXCHANGES};
use indra_beaglebone::data_io::operator_settings::OperatorSettings;
use indra_beaglebone::data_io::supervisor::SupervisoryState;
use indra_beaglebone::global_state::OperationMode;

fn settings() -> OperatorSettings {
    OperatorSettings::default()
}

fn quiet() -> SupervisoryState {
    SupervisoryState::default()
}

fn follow(lower: i16, upper: i16, export_w: u32, reclamp: bool) -> Setpoint {
    Setpoint::Follow(Regulation { lower, upper, export_w, reclamp })
}

#[test]
fn load_matching_runs_in_both_directions() {
    let s = settings();
    assert_eq!(plan_v2h(&quiet(), &s, 60, false), follow(-16, 16, 0, true));
}

#[test]
fn load_matching_does_not_discharge_an_empty_battery() {
    let s = settings();
    assert_eq!(plan_v2h(&quiet(), &s, 31, false), follow(0, 16, 0, true));
    assert_eq!(plan_v2h(&quiet(), &s, 32, false), follow(-16, 16, 0, true));
}

#[test]
fn load_matching_does_not_charge_a_full_battery() {
    let s = settings();
    assert_eq!(plan_v2h(&quiet(), &s, 90, false), follow(-16, 0, 0, true));
    assert_eq!(plan_v2h(&quiet(), &s, 89, false), follow(-16, 16, 0, true));
}

#[test]
fn load_matching_without_self_use_never_discharges() {
    let mut s = settings();
    s.self_use = false;
    assert_eq!(plan_v2h(&quiet(), &s, 60, false), follow(0, 16, 0, true));
}

#[test]
fn surplus_goes_to_the_grid() {
    let mut s = settings();
    s.export_excess_solar = true;
    assert_eq!(plan_v2h(&quiet(), &s, 60, false), follow(-16, 0, 0, true));
    let s = settings();
    let mut sup = quiet();
    sup.smart_export_excess_solar_active = true;
    assert_eq!(plan_v2h(&sup, &s, 60, false), follow(-16, 0, 0, true));
}

#[test]
fn current_never_exceeds_the_charger() {
    let mut s = settings();
    s.v2h_max_amps = 200;
    s.charge_amps = 99;
    assert_eq!(plan_v2h(&quiet(), &s, 60, false), follow(-16, 16, 0, true));
    assert_eq!(
        plan_mode(OperationMode::Charge, &quiet(), &s, 60, false),
        Some(Setpoint::Charge { amps: 16 })
    );
    assert_eq!(
        plan_mode(OperationMode::Discharge, &quiet(), &s, 60, false),
        Some(Setpoint::Discharge { amps: 16 })
    );
}

#[test]
fn ready_to_drive_charges_to_its_target() {
    let s = settings();
    let mut sup = quiet();
    sup.ready_to_drive_active = true;
    sup.smart_export_active = true;
    assert_eq!(plan_v2h(&sup, &s, 89, false), Setpoint::Charge { amps: 16 });
    assert_eq!(plan_v2h(&sup, &s, 90, false), Setpoint::Zero);
}

#[test]
fn off_peak_charging_takes_the_lower_current() {
    let mut s = settings();
    s.charge_amps = 10;
    s.v2h_max_amps = 6;
    let mut sup = quiet();
    sup.off_peak_charging_active = true;
    assert_eq!(plan_v2h(&sup, &s, 50, false), Setpoint::Charge { amps: 6 });
}

#[test]
fn off_peak_charging_restarts_below_the_deadband() {
    let s = settings();
    let mut sup = quiet();
    sup.off_peak_charging_active = true;
    assert_eq!(plan_v2h(&sup, &s, 90, false), Setpoint::Zero);
    assert_eq!(plan_v2h(&sup, &s, 89, true), Setpoint::Zero);
    assert_eq!(plan_v2h(&sup, &s, 89, false), Setpoint::Charge { amps: 16 });
    assert_eq!(plan_v2h(&sup, &s, 88, true), Setpoint::Charge { amps: 16 });
}

#[test]
fn off_peak_deadband_of_a_zero_limit() {
    let mut s = settings();
    s.charge_soc_limit = 0;
    let mut sup = quiet();
    sup.off_peak_charging_active = true;
    assert_eq!(plan_v2h(&sup, &s, 0, true), Setpoint::Zero);
}

#[test]
fn smart_export_holds_the_meter_at_the_limit() {
    let s = settings();
    let mut sup = quiet();
    sup.smart_export_active = true;
    assert_eq!(plan_v2h(&sup, &s, 60, false), follow(-16, 0, 2500, false));
    assert_eq!(plan_v2h(&sup, &s, 31, false), Setpoint::ZeroAndForget);
}

#[test]
fn smart_charge_stops_at_the_limit() {
    let mut s = settings();
    s.charge_amps = 7;
    let mut sup = quiet();
    sup.smart_charge_active = true;
    assert_eq!(plan_v2h(&sup, &s, 89, true), Setpoint::Charge { amps: 7 });
    assert_eq!(plan_v2h(&sup, &s, 90, true), Setpoint::Zero);
}

#[test]
fn drain_protection_holds_at_zero() {
    let s = settings();
    let mut sup = quiet();
    sup.ev_drain_protection_active = true;
    assert_eq!(plan_v2h(&sup, &s, 60, false), Setpoint::Zero);
}

#[test]
fn requests_alone_change_nothing() {
    let s = settings();
    let mut sup = quiet();
    sup.smart_charge_request = true;
    sup.smart_export_request = true;
    sup.ready_to_drive_request = true;
    sup.off_peak_charging_request = true;
    sup.ev_drain_protection_request = true;
    assert_eq!(plan_v2h(&sup, &s, 60, false), plan_v2h(&quiet(), &s, 60, false));
}

#[test]
fn eco_charge_follows_the_surplus() {
    let mut s = settings();
    s.charge_eco = true;
    s.charge_amps = 9;
    assert_eq!(
        plan_mode(OperationMode::Charge, &quiet(), &s, 60, false),
        Some(follow(0, 9, 0, true))
    );
}

#[test]
fn charge_and_discharge_stop_at_their_limits() {
    let s = settings();
    assert_eq!(plan_mode(OperationMode::Charge, &quiet(), &s, 90, false), None);
    assert_eq!(plan_mode(OperationMode::Discharge, &quiet(), &s, 31, false), None);
    let mut s = settings();
    s.v2h_soc_min = 20;
    assert_eq!(plan_mode(OperationMode::Discharge, &quiet(), &s, 31, false), None);
    s.v2h_soc_min = 50;
    assert_eq!(plan_mode(OperationMode::Discharge, &quiet(), &s, 50, false), None);
}

#[test]
fn loop_exits_when_the_vehicle_stops() {
    let s = settings();
    for (mode, exit) in [
        (OperationMode::V2h, OperationMode::Idle),
        (OperationMode::Charge, OperationMode::Idle),
        (OperationMode::Quit, OperationMode::Quit),
    ] {
        let mut l = ChargeLoop::new(mode, 50);
        let tick = l.tick(false, Some(OperationMode::Charge), &quiet(), &s, 50, true);
        assert_eq!(tick, Tick::Exit(exit));
        assert_eq!(l.mode, mode);
        assert_eq!(l.inner_tick, 0);
    }
}

#[test]
fn loop_asks_the_vehicle_to_stop() {
    let s = settings();
    for mode in [OperationMode::Idle, OperationMode::Quit] {
        let mut l = ChargeLoop::new(OperationMode::V2h, 50);
        assert_eq!(l.tick(true, Some(mode), &quiet(), &s, 50, false), Tick::Stop);
        assert_eq!(l.mode, mode);
    }
    let mut l = ChargeLoop::new(OperationMode::Charge, 90);
    assert_eq!(l.tick(true, None, &quiet(), &s, 90, false), Tick::Stop);
    let mut l = ChargeLoop::new(OperationMode::Uninitalised, 50);
    assert_eq!(l.tick(true, None, &quiet(), &s, 50, false), Tick::Pass);
}

#[test]
fn controller_steps_once_a_second() {
    let s = settings();
    let mut l = ChargeLoop::new(OperationMode::V2h, 50);
    let mut steps: Vec<u32> = Vec::new();
    for n in 1..=3 * STEP_TICKS {
        if let Tick::Run { step: true, .. } = l.tick(true, None, &quiet(), &s, 50, false) {
            steps.push(n);
        }
    }
    assert_eq!(steps, vec![10, 20, 30]);
}

#[test]
fn loop_notices_a_new_state_of_charge() {
    let s = settings();
    let mut l = ChargeLoop::new(OperationMode::V2h, 50);
    let new_soc = |t: Tick| matches!(t, Tick::Run { new_soc: true, .. });
    assert!(!new_soc(l.tick(true, None, &quiet(), &s, 50, false)));
    assert!(new_soc(l.tick(true, None, &quiet(), &s, 51, false)));
    assert!(!new_soc(l.tick(true, None, &quiet(), &s, 51, false)));
}

fn lows() -> Vec<Action> {
    vec![
        Action::Drive(Output::C2, false),
        Action::Drive(Output::C1, false),
        Action::Drive(Output::D2, false),
        Action::Drive(Output::D1, false),
        Action::Drive(Output::PreAc, false),
        Action::Drive(Output::PlugLock, false),
        Action::Station(STATION_STOPPING),
    ]
}

fn entry() -> Vec<Action> {
    let mut a = vec![Action::AbortPre];
    a.extend(lows());
    a.extend([
        Action::State(OperationMode::Idle),
        Action::Leds,
        Action::Publish,
        Action::Fan,
        Action::OpenCan,
    ]);
    a
}

#[test]
fn session_begins_with_every_line_low() {
    let next = begin();
    assert_eq!(next.phase, Phase::AwaitMode);
    assert_eq!(next.actions, entry());
}

#[test]
fn load_matching_and_charge_start_a_session() {
    for mode in [OperationMode::V2h, OperationMode::Charge] {
        let next = on_mode(Some(mode));
        assert_eq!(next.phase, Phase::InitPre);
        assert_eq!(
            next.actions,
            vec![
                Action::State(mode),
                Action::Leds,
                Action::Publish,
                Action::SpawnPre,
                Action::ChargeStop,
                Action::Drive(Output::PreAc, true),
            ]
        );
    }
}

#[test]
fn other_modes_start_none() {
    for mode in [OperationMode::Idle, OperationMode::Discharge, OperationMode::Uninitalised] {
        let next = on_mode(Some(mode));
        assert_eq!(next.phase, Phase::AwaitMode);
        let mut expected =
            vec![Action::State(mode), Action::Leds, Action::Publish, Action::CloseCan];
        expected.extend(entry());
        assert_eq!(next.actions, expected);
    }
}

#[test]
fn quit_ends_the_session() {
    let next = on_mode(Some(OperationMode::Quit));
    assert_eq!(next.phase, Phase::Ended);
    assert_eq!(
        next.actions,
        vec![Action::State(OperationMode::Quit), Action::Leds, Action::Publish]
    );
}

#[test]
fn closed_channel_starts_with_the_mode_at_hand() {
    let next = on_mode(None);
    assert_eq!(next.phase, Phase::InitPre);
    assert_eq!(
        next.actions,
        vec![Action::SpawnPre, Action::ChargeStop, Action::Drive(Output::PreAc, true)]
    );
}

#[test]
fn start_raises_the_lines_in_order() {
    let next = on_pre(true);
    assert_eq!(next.phase, Phase::KLine);
    assert_eq!(
        next.actions,
        vec![Action::Station(STATION_IDLE), Action::Drive(Output::D1, true)]
    );
    let next = on_k_line(true);
    assert_eq!(next.phase, Phase::Precharge);
    assert_eq!(
        next.actions,
        vec![Action::LockPlug, Action::Drive(Output::D2, true), Action::ChargeStart]
    );
    let next = on_precharge(true);
    assert_eq!(next.phase, Phase::Charge);
    assert_eq!(next.actions, vec![Action::Station(STATION_CHARGING), Action::Leds]);
}

#[test]
fn failed_start_brings_every_line_low() {
    let mut expected = vec![Action::ErrorLogo, Action::State(OperationMode::Idle)];
    expected.extend(lows());
    expected.extend([Action::Publish, Action::CloseCan]);
    expected.extend(entry());
    for next in [on_pre(false), on_k_line(false), on_precharge(false)] {
        assert_eq!(next.phase, Phase::AwaitMode);
        assert_eq!(next.actions, expected);
    }
}

#[test]
fn charge_end_shuts_the_converter_down() {
    let next = on_charge_end(Some(OperationMode::Idle));
    assert_eq!(next.phase, Phase::Shutdown { reason: Some(OperationMode::Idle) });
    assert_eq!(
        next.actions,
        vec![Action::Publish, Action::Station(STATION_STOPPING), Action::ShutdownPre]
    );
    let next = on_charge_end(None);
    assert_eq!(next.actions[0], Action::ErrorLogo);
    assert_eq!(next.actions.len(), 4);
}

#[test]
fn session_returns_to_waiting_unless_told_to_quit() {
    let next = on_shutdown(Some(OperationMode::Quit));
    assert_eq!(next.phase, Phase::Ended);
    assert_eq!(next.actions, vec![Action::Publish]);
    for reason in [Some(OperationMode::Idle), None] {
        let next = on_shutdown(reason);
        assert_eq!(next.phase, Phase::AwaitMode);
        let mut expected = vec![Action::Publish, Action::CloseCan];
        expected.extend(entry());
        assert_eq!(next.actions, expected);
    }
}

#[test]
fn converter_has_twenty_one_seconds_to_come_online() {
    let mut polls: u32 = 0;
    while init_pre(polls, false) == Poll::Again {
        polls += 1;
    }
    assert_eq!(polls, 21);
    assert_eq!(init_pre(21, false), Poll::TimedOut);
    assert_eq!(init_pre(21, true), Poll::Ready);
}

#[test]
fn converter_settles_at_its_first_setpoints() {
    assert_eq!(settle_pre(0, 370, 1, true), Poll::Ready);
    assert_eq!(settle_pre(0, 370, 1, false), Poll::Again);
    assert_eq!(settle_pre(0, 369, 1, true), Poll::Again);
    assert_eq!(settle_pre(5, 370, 0, true), Poll::Again);
    assert_eq!(settle_pre(6, 370, 0, true), Poll::TimedOut);
}

#[test]
fn k_line_is_waited_for_a_hundred_times() {
    let mut left: u8 = EXCHANGES;
    let mut rounds: u32 = 1;
    while k_line(&mut left, false) == Poll::Again {
        rounds += 1;
    }
    assert_eq!(rounds, 100);
    assert_eq!(left, 0);
    let mut left: u8 = 1;
    assert_eq!(k_line(&mut left, true), Poll::Ready);
    assert_eq!(left, 1);
}

#[test]
fn precharge_needs_a_plausible_state_of_charge() {
    let mut p = Precharge::new();
    let step = p.exchange(9, true, true, true);
    assert!(!step.set_volts && !step.report_volts);
    assert_eq!(step.poll, Poll::Again);
    let step = p.exchange(101, true, true, true);
    assert!(!step.set_volts && !step.report_volts);
    let step = p.exchange(10, true, true, false);
    assert!(step.set_volts && step.report_volts);
    assert_eq!(step.poll, Poll::Again);
    let step = p.exchange(10, true, true, true);
    assert!(!step.set_volts && step.report_volts);
    assert_eq!(step.poll, Poll::Ready);
}

#[test]
fn precharge_closes_only_when_all_agree() {
    for (closed, equal, ready) in [(false, true, true), (true, false, true), (true, true, false)] {
        let mut p = Precharge::new();
        assert_eq!(p.exchange(50, closed, equal, ready).poll, Poll::Again);
    }
}

#[test]
fn precharge_gives_up_after_a_hundred_exchanges() {
    let mut p = Precharge::new();
    let mut rounds: u32 = 1;
    while p.exchange(50, false, false, false).poll == Poll::Again {
        rounds += 1;
    }
    assert_eq!(rounds, 100);
}

#[test]
fn shutdown_opens_the_contactors_before_the_plug() {
    let mut s = Shutdown::new();
    assert!(s.exchanged(false));
    assert_eq!(s.released(true), Release::Wait);
    assert_eq!(s.released(false), Release::Open);
    assert_eq!(s.opened(false), None);
    assert_eq!(s.released(false), Release::Open);
    assert_eq!(s.opened(true), Some(STATION_OPEN));
    assert_eq!(s.released(false), Release::Unlock);
    assert_eq!(s.released(true), Release::Wait);
    assert!(!s.exchanged(false));
    assert!(s.exchanged(true));
}

#[test]
fn shutdown_frees_the_plug() {
    let s = Shutdown::new();
    assert_eq!(s.unlock(false, true), Plug::Free);
    assert_eq!(s.unlock(true, false), Plug::Unlock { station: None });
    assert_eq!(s.unlock(true, true), Plug::Unlock { station: Some(STATION_IDLE) });
}

#[test]
fn session_steps_answer_their_phase() {
    let mut phase = begin().phase;
    for (outcome, expected) in [
        (Outcome::Mode(Some(OperationMode::Idle)), Phase::AwaitMode),
        (Outcome::Mode(Some(OperationMode::V2h)), Phase::InitPre),
        (Outcome::Pre(false), Phase::AwaitMode),
        (Outcome::Mode(Some(OperationMode::Charge)), Phase::InitPre),
        (Outcome::Pre(true), Phase::KLine),
        (Outcome::KLine(true), Phase::Precharge),
        (Outcome::Precharge(true), Phase::Charge),
        (Outcome::ChargeEnd(None), Phase::Shutdown { reason: None }),
        (Outcome::Released, Phase::AwaitMode),
        (Outcome::Mode(None), Phase::InitPre),
        (Outcome::Pre(true), Phase::KLine),
        (Outcome::KLine(true), Phase::Precharge),
        (Outcome::Precharge(true), Phase::Charge),
        (
            Outcome::ChargeEnd(Some(OperationMode::Quit)),
            Phase::Shutdown { reason: Some(OperationMode::Quit) },
        ),
        (Outcome::Released, Phase::Ended),
    ] {
        phase = step(phase, outcome).unwrap().phase;
        assert_eq!(phase, expected);
    }
    assert!(step(Phase::Ended, Outcome::Released).is_none());
    assert!(step(Phase::AwaitMode, Outcome::Precharge(true)).is_none());
    assert!(step(Phase::InitPre, Outcome::KLine(true)).is_none());
    assert_eq!(step(Phase::KLine, Outcome::KLine(true)).unwrap().actions, on_k_line(true).actions);
}

#[test]
fn shutdown_rounds_keep_their_order() {
    let mut state = Shutdown::new();
    let mut stage = Stage::Exchange;
    for (event, expected, station, unlock) in [
        (Event::Exchanged(false), Stage::KLine, None, false),
        (Event::Held(true), Stage::Exchange, None, false),
        (Event::Exchanged(true), Stage::KLine, None, false),
        (Event::Held(false), Stage::Open, None, false),
        (Event::Opened(false), Stage::Plug, None, false),
        (Event::Seen { locked: true, volts_low: false }, Stage::Exchange, None, true),
        (Event::Exchanged(true), Stage::KLine, None, false),
        (Event::Held(false), Stage::Open, None, false),
        (Event::Opened(true), Stage::Exchange, Some(STATION_OPEN), false),
        (Event::Exchanged(true), Stage::KLine, None, false),
        (Event::Held(false), Stage::Plug, None, false),
        (Event::Seen { locked: true, volts_low: true }, Stage::Exchange, Some(STATION_IDLE), true),
        (Event::Exchanged(true), Stage::KLine, None, false),
        (Event::Held(false), Stage::Plug, None, false),
        (Event::Seen { locked: false, volts_low: true }, Stage::Over, None, false),
    ] {
        let next = round(state, stage, event).unwrap();
        assert_eq!((next.stage, next.station, next.unlock), (expected, station, unlock));
        state = next.state;
        stage = next.stage;
    }
    assert!(!state.contactors);
    let over = round(state, Stage::Exchange, Event::Exchanged(false)).unwrap();
    assert_eq!(over.stage, Stage::Over);
    assert!(round(state, Stage::Over, Event::Exchanged(true)).is_none());
    assert!(round(state, Stage::KLine, Event::Opened(true)).is_none());
}

#[test]
fn station_status_bits() {
    // bit 0: the station charges; bit 2: the plug is locked
    assert_eq!(STATION_IDLE & 0x05, 0x00);
    assert_eq!(STATION_STOPPING & 0x05, 0x04);
    assert_eq!(STATION_CHARGING & 0x05, 0x05);
    assert_eq!(STATION_OPEN & 0x05, 0x05);
}

#[test]
fn panel_sends_a_logo_once() {
    let mut p = Panel::new();
    let v2h = OperationMode::V2h;
    assert_eq!(
        p.update_panel_leds(false, false, v2h, -8, 55),
        vec![
            LedCommand::Logo(Logo::Mode(v2h)),
            LedCommand::EnergyBar(50, true),
            LedCommand::SocBar(55),
        ]
    );
    assert_eq!(
        p.update_panel_leds(false, false, v2h, 40, 55),
        vec![LedCommand::EnergyBar(100, false), LedCommand::SocBar(55)]
    );
    assert_eq!(
        p.update_panel_leds(false, false, v2h, 1, 55)[0],
        LedCommand::EnergyBar(6, false)
    );
}

#[test]
fn panel_shows_the_most_urgent_thing() {
    let mut p = Panel::new();
    let idle = OperationMode::Idle;
    assert_eq!(
        p.update_panel_leds(true, true, idle, 0, 70),
        vec![LedCommand::Logo(Logo::Error), LedCommand::SocBar(0)]
    );
    assert_eq!(
        p.update_panel_leds(false, true, idle, 0, 70),
        vec![LedCommand::Logo(Logo::MeterStale), LedCommand::SocBar(0)]
    );
    assert_eq!(
        p.update_panel_leds(false, false, OperationMode::Quit, 0, 70),
        vec![LedCommand::Logo(Logo::Mode(OperationMode::Quit)), LedCommand::SocBar(0)]
    );
    assert_eq!(p.show_error(), LedCommand::Logo(Logo::Error));
    assert_eq!(p.last_logo, Logo::Error);
}
