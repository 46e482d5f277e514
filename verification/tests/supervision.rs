use indra_beaglebone::charge_time::charge_minutes;
use indra_beaglebone::clock::{can_parse_hhmm, parse_hhmm, within_daily_window, write_hhmm};
use indra_beaglebone::data_io::operator_settings::{
    default_rtd_start_time, default_smart_export_soc_min, default_v2h_soc_max_boost, load, patch,
    update, OperatorSettings, SettingPatch,
};
use indra_beaglebone::data_io::staleness::{is_outdated, is_stale};
use indra_beaglebone::data_io::supervisor::{
    can_count_end_time, can_supervise, evaluate_ev_drain_protection, evaluate_off_peak_charging,
    evaluate_ready_to_drive, evaluate_smart_charge, evaluate_smart_export,
    evaluate_smart_export_excess_solar, supervise, Moment, SupervisoryState,
};
use indra_beaglebone::global_state::OperationMode;
use std::time::Instant;

const V2H: OperationMode = OperationMode::V2h;

fn all_on() -> OperatorSettings {
    let mut s = OperatorSettings::default();
    s.ev_drain_protection = true;
    s.ready_to_drive = true;
    s.ready_to_drive_days = [true; 7];
    s.smart_export = true;
    s.smart_export_excess_solar = true;
    s
}

fn all_requested() -> SupervisoryState {
    let mut sup = SupervisoryState::default();
    sup.smart_charge_request = true;
    sup.ev_drain_protection_request = true;
    sup.smart_export_request = true;
    sup.smart_export_excess_solar_request = true;
    sup
}

#[test]
fn charge_minutes_agree_with_single_precision() {
    for amps in 0..=255u8 {
        for target in 0..=255u8 {
            for soc in (0..=255u8).step_by(3) {
                let rate = (amps as f32 * 400.0) / 1000.0;
                let kwh = ((target as f32 - soc as f32).max(0.0) / 100.0) * 62.0;
                let hours = if rate > 0.1 { kwh / rate } else { 0.0 };
                let expected = (hours * 60.0).ceil() as u32;
                assert_eq!(charge_minutes(target, soc, amps), expected);
            }
        }
    }
}

#[test]
fn charge_minutes_of_a_full_charge() {
    // 59 % of 62 kWh at 6.4 kW
    assert_eq!(charge_minutes(90, 31, 16), 343);
    assert_eq!(charge_minutes(50, 50, 16), 0);
    assert_eq!(charge_minutes(90, 31, 0), 0);
}

#[test]
fn times_of_day_are_read_and_written() {
    assert_eq!(parse_hhmm("23:30"), Some(1410));
    assert_eq!(parse_hhmm("5:7"), Some(307));
    assert_eq!(parse_hhmm("+5:07"), Some(307));
    assert_eq!(parse_hhmm("--:--"), None);
    assert_eq!(parse_hhmm("12"), None);
    assert_eq!(parse_hhmm("1:2:3"), None);
    assert_eq!(parse_hhmm(" 1:02"), None);
    assert_eq!(parse_hhmm(""), None);
    assert_eq!(parse_hhmm("99:99"), Some(6039));
    assert!(can_parse_hhmm("71582788:15"));
    assert!(!can_parse_hhmm("71582788:16"));
    assert_eq!(write_hhmm(307), "05:07");
    assert_eq!(write_hhmm(0), "00:00");
    for minute in 0..1440u32 {
        assert_eq!(parse_hhmm(&write_hhmm(minute)), Some(minute));
    }
}

#[test]
fn daily_windows_may_cross_midnight() {
    assert!(within_daily_window(1410, 330, 1410));
    assert!(within_daily_window(1410, 330, 0));
    assert!(!within_daily_window(1410, 330, 330));
    assert!(within_daily_window(60, 120, 60));
    assert!(!within_daily_window(60, 120, 120));
    assert!(!within_daily_window(60, 60, 60));
    for now in 0..1440u32 {
        assert_eq!(within_daily_window(300, 900, now), !within_daily_window(900, 300, now));
    }
}

#[test]
fn smart_charge_needs_all_its_conditions() {
    let s = all_on();
    let active = |sup: SupervisoryState, s: &OperatorSettings, mode, soc| {
        let mut sup = sup;
        evaluate_smart_charge(&mut sup, s, mode, soc);
        sup.smart_charge_active
    };
    let mut asked = SupervisoryState::default();
    asked.smart_charge_request = true;
    assert!(active(asked, &s, V2H, 50));
    assert!(active(asked, &s, V2H, 89));
    assert!(!active(asked, &s, V2H, 90));
    assert!(!active(asked, &s, OperationMode::Charge, 50));
    assert!(!active(SupervisoryState::default(), &s, V2H, 50));
    let mut off = all_on();
    off.smart_charge = false;
    assert!(!active(asked, &off, V2H, 50));
    for block in 0..4 {
        let mut sup = asked;
        sup.smart_charge_active = true;
        match block {
            0 => sup.ready_to_drive_active = true,
            1 => sup.off_peak_charging_active = true,
            2 => sup.smart_export_active = true,
            _ => sup.smart_export_excess_solar_active = true,
        }
        assert!(!active(sup, &s, V2H, 50));
    }
}

#[test]
fn exports_yield_to_the_clock_driven_features() {
    let s = all_on();
    let mut sup = all_requested();
    evaluate_smart_export(&mut sup, &s, V2H);
    evaluate_smart_export_excess_solar(&mut sup, &s, V2H);
    assert!(sup.smart_export_active && sup.smart_export_excess_solar_active);
    sup.off_peak_charging_active = true;
    evaluate_smart_export(&mut sup, &s, V2H);
    evaluate_smart_export_excess_solar(&mut sup, &s, V2H);
    assert!(!sup.smart_export_active && !sup.smart_export_excess_solar_active);
    let mut sup = all_requested();
    evaluate_smart_export(&mut sup, &OperatorSettings::default(), V2H);
    evaluate_smart_export_excess_solar(&mut sup, &s, OperationMode::Idle);
    assert!(!sup.smart_export_active && !sup.smart_export_excess_solar_active);
}

#[test]
fn drain_protection_yields_to_export_and_charge() {
    let s = all_on();
    let mut sup = all_requested();
    evaluate_ev_drain_protection(&mut sup, &s, V2H);
    assert!(sup.ev_drain_protection_active);
    sup.smart_charge_active = true;
    evaluate_ev_drain_protection(&mut sup, &s, V2H);
    assert!(!sup.ev_drain_protection_active);
    let mut sup = all_requested();
    sup.off_peak_charging_active = true;
    evaluate_ev_drain_protection(&mut sup, &s, V2H);
    assert!(sup.ev_drain_protection_active);
}

#[test]
fn off_peak_window_sets_request_and_flag() {
    let s = all_on();
    let mut sup = SupervisoryState::default();
    evaluate_off_peak_charging(&mut sup, &s, V2H, 1410);
    assert!(sup.off_peak_charging_request && sup.off_peak_charging_active);
    evaluate_off_peak_charging(&mut sup, &s, OperationMode::Charge, 1410);
    assert!(sup.off_peak_charging_request && !sup.off_peak_charging_active);
    evaluate_off_peak_charging(&mut sup, &s, V2H, 330);
    assert!(!sup.off_peak_charging_request && !sup.off_peak_charging_active);
}

#[test]
fn off_peak_window_that_makes_no_sense_is_off() {
    let mut s = all_on();
    s.off_peak_end = "late".to_string();
    let mut sup = SupervisoryState::default();
    sup.off_peak_charging_request = true;
    sup.off_peak_charging_active = true;
    evaluate_off_peak_charging(&mut sup, &s, V2H, 1410);
    assert!(!sup.off_peak_charging_request && !sup.off_peak_charging_active);
}

#[test]
fn ready_to_drive_works_back_from_the_end_time() {
    let mut s = all_on();
    let mut sup = SupervisoryState::default();
    // 343 minutes before 08:00
    evaluate_ready_to_drive(&mut sup, &mut s, V2H, 31, Moment { minute: 137, weekday: 0 });
    assert_eq!(s.ready_to_drive_start_time, "02:17");
    assert!(sup.ready_to_drive_request && sup.ready_to_drive_active);
    evaluate_ready_to_drive(&mut sup, &mut s, V2H, 31, Moment { minute: 136, weekday: 0 });
    assert!(!sup.ready_to_drive_request && !sup.ready_to_drive_active);
    evaluate_ready_to_drive(&mut sup, &mut s, V2H, 90, Moment { minute: 599, weekday: 0 });
    assert_eq!(s.ready_to_drive_start_time, "08:00");
    assert!(sup.ready_to_drive_active);
    evaluate_ready_to_drive(&mut sup, &mut s, V2H, 90, Moment { minute: 600, weekday: 0 });
    assert!(!sup.ready_to_drive_active);
}

#[test]
fn ready_to_drive_before_midnight_looks_at_tomorrow() {
    let mut s = all_on();
    s.ready_to_drive_end_time = "01:00".to_string();
    s.ready_to_drive_days = [false, true, false, false, false, false, false];
    let mut sup = SupervisoryState::default();
    // 343 minutes before 01:00 is 19:17 of the day before
    evaluate_ready_to_drive(&mut sup, &mut s, V2H, 31, Moment { minute: 1157, weekday: 0 });
    assert_eq!(s.ready_to_drive_start_time, "19:17");
    assert!(sup.ready_to_drive_active);
    evaluate_ready_to_drive(&mut sup, &mut s, V2H, 31, Moment { minute: 1157, weekday: 1 });
    assert!(!sup.ready_to_drive_active);
    evaluate_ready_to_drive(&mut sup, &mut s, V2H, 31, Moment { minute: 10, weekday: 1 });
    assert!(sup.ready_to_drive_active);
    evaluate_ready_to_drive(&mut sup, &mut s, V2H, 31, Moment { minute: 10, weekday: 2 });
    assert!(!sup.ready_to_drive_active);
}

#[test]
fn ready_to_drive_without_an_end_time_is_off() {
    let mut s = all_on();
    s.ready_to_drive_end_time = "soon".to_string();
    let mut sup = SupervisoryState::default();
    sup.ready_to_drive_active = true;
    assert!(can_count_end_time(&s, 50));
    evaluate_ready_to_drive(&mut sup, &mut s, V2H, 50, Moment { minute: 137, weekday: 0 });
    assert_eq!(s.ready_to_drive_start_time, "--:--");
    assert!(!sup.ready_to_drive_request && !sup.ready_to_drive_active);
}

#[test]
fn end_times_that_cannot_be_counted_are_found() {
    let mut s = all_on();
    s.ready_to_drive_end_time = "71582788:16".to_string();
    assert!(!can_count_end_time(&s, 50));
    assert!(!can_supervise(&s, V2H, 50, Moment { minute: 0, weekday: 0 }));
    assert!(!can_supervise(&all_on(), V2H, 50, Moment { minute: 0, weekday: 7 }));
    assert!(can_supervise(&all_on(), V2H, 50, Moment { minute: 0, weekday: 6 }));
}

#[test]
fn supervision_follows_the_priorities() {
    let mut s = all_on();
    let mut sup = all_requested();
    supervise(&mut sup, &mut s, V2H, 31, Moment { minute: 300, weekday: 3 });
    assert!(sup.ready_to_drive_active);
    assert!(!sup.off_peak_charging_active && !sup.smart_export_active);
    assert!(!sup.smart_charge_active && !sup.ev_drain_protection_active);
    supervise(&mut sup, &mut s, V2H, 90, Moment { minute: 100, weekday: 3 });
    assert!(!sup.ready_to_drive_active && sup.off_peak_charging_active);
    assert!(!sup.smart_export_active && !sup.smart_charge_active);
    supervise(&mut sup, &mut s, V2H, 60, Moment { minute: 720, weekday: 3 });
    assert!(sup.smart_export_active && sup.smart_export_excess_solar_active);
    assert!(!sup.smart_charge_active && !sup.ev_drain_protection_active);
    sup.smart_export_request = false;
    sup.smart_export_excess_solar_request = false;
    supervise(&mut sup, &mut s, V2H, 60, Moment { minute: 720, weekday: 3 });
    assert!(sup.smart_charge_active && !sup.ev_drain_protection_active);
    supervise(&mut sup, &mut s, V2H, 95, Moment { minute: 720, weekday: 3 });
    assert!(!sup.smart_charge_active && sup.ev_drain_protection_active);
}

#[test]
fn nothing_acts_outside_load_matching() {
    let mut s = all_on();
    for mode in [OperationMode::Idle, OperationMode::Charge, OperationMode::Discharge] {
        let mut sup = all_requested();
        supervise(&mut sup, &mut s, mode, 31, Moment { minute: 300, weekday: 3 });
        assert!(!sup.ready_to_drive_active && !sup.off_peak_charging_active);
        assert!(!sup.smart_export_active && !sup.smart_export_excess_solar_active);
        assert!(!sup.smart_charge_active && !sup.ev_drain_protection_active);
        assert!(sup.ready_to_drive_request);
    }
}

#[test]
fn requests_note_when_they_were_heard() {
    let mut sup = SupervisoryState::default();
    sup.update_smart_charge_request(true, false);
    let heard = sup.smart_charge_request_update;
    assert!(sup.smart_charge_request && heard.is_some());
    sup.update_smart_charge_request(false, true);
    assert!(!sup.smart_charge_request);
    assert_eq!(sup.smart_charge_request_update, heard);
    sup.update_ev_drain_protection_request(true, false);
    sup.update_smart_export_request(true, false);
    sup.update_smart_export_excess_solar_request(true, false);
    assert!(sup.ev_drain_protection_request_update.is_some());
    assert!(sup.smart_export_request_update.is_some());
    assert!(sup.smart_export_excess_solar_request_update.is_some());
}

#[test]
fn staleness_is_a_matter_of_age() {
    assert!(!is_outdated(None, 0));
    assert!(!is_outdated(Some(120), 120));
    assert!(is_outdated(Some(121), 120));
    assert!(!is_stale(None, 0));
    assert!(!is_stale(Some(Instant::now()), 3600));
}

#[test]
fn settings_start_from_their_defaults() {
    let s = OperatorSettings::default();
    assert_eq!((s.v2h_soc_min, s.v2h_soc_max, s.v2h_soc_max_boost), (31, 90, 80));
    assert_eq!((s.v2h_max_amps, s.charge_amps, s.charge_soc_limit), (16, 16, 90));
    assert!(s.self_use && s.off_peak_charging && s.smart_charge);
    assert!(!s.smart_export && !s.charge_eco && !s.ready_to_drive);
    assert_eq!((s.off_peak_start.as_str(), s.off_peak_end.as_str()), ("23:30", "05:30"));
    assert_eq!(s.ready_to_drive_end_time, "08:00");
    assert_eq!(s.smart_export_limit_w, 2500);
    assert_eq!(default_rtd_start_time(), "--:--");
    assert_eq!(default_v2h_soc_max_boost(), 80);
    assert_eq!(default_smart_export_soc_min(), 31);
}

#[test]
fn settings_are_brought_within_bounds() {
    let mut s = OperatorSettings::default();
    s.v2h_soc_min = 0;
    s.v2h_soc_max = 255;
    s.v2h_soc_max_boost = 5;
    s.smart_export_soc_min = 5;
    s.charge_soc_limit = 10;
    s.ready_to_drive_soc = 120;
    s.v2h_max_amps = 99;
    s.charge_amps = 17;
    s.validate_and_clamp();
    assert_eq!((s.v2h_soc_min, s.v2h_soc_max, s.v2h_soc_max_boost), (31, 100, 31));
    assert_eq!((s.smart_export_soc_min, s.charge_soc_limit), (31, 31));
    assert_eq!((s.ready_to_drive_soc, s.v2h_max_amps, s.charge_amps), (100, 16, 16));
}

#[test]
fn floor_is_pulled_below_the_ceiling() {
    let mut s = OperatorSettings::default();
    s.v2h_soc_min = 80;
    s.v2h_soc_max = 60;
    s.validate_and_clamp();
    assert_eq!((s.v2h_soc_min, s.v2h_soc_max), (55, 60));
    s.v2h_soc_min = 90;
    s.v2h_soc_max = 33;
    s.validate_and_clamp();
    assert_eq!((s.v2h_soc_min, s.v2h_soc_max), (31, 33));
}

#[test]
fn stored_settings_are_validated_on_load() {
    let mut stored = OperatorSettings::default();
    stored.charge_amps = 200;
    let (s, save) = load(Some(stored));
    assert_eq!((s.charge_amps, save), (16, false));
    let (s, save) = load(None);
    assert_eq!((s.charge_amps, save), (16, true));
}

#[test]
fn updates_are_validated() {
    let mut new = OperatorSettings::default();
    new.v2h_max_amps = 40;
    assert_eq!(update(new).v2h_max_amps, 16);
}

#[test]
fn patches_change_only_what_they_name() {
    let mut current = OperatorSettings::default();
    current.off_peak_start = "22:00".to_string();
    let mut p = SettingPatch::default();
    p.charge_amps = Some(40);
    p.ready_to_drive_end_time = Some("06:15".to_string());
    let s = patch(&current, p);
    assert_eq!(s.charge_amps, 16);
    assert_eq!(s.ready_to_drive_end_time, "06:15");
    assert_eq!(s.off_peak_start, "22:00");
    assert_eq!(s.v2h_soc_max, 90);
    let same = patch(&current, SettingPatch::default());
    assert_eq!(same.off_peak_start, "22:00");
    assert_eq!(same.charge_amps, current.charge_amps);
}

#[test]
fn patches_move_absent_settings_only_on_a_clash() {
    let current = OperatorSettings::default();
    // 31..90, boost 80, export floor 31
    let mut p = SettingPatch::default();
    p.v2h_soc_max = Some(85);
    let s = patch(&current, p);
    assert_eq!((s.v2h_soc_min, s.v2h_soc_max_boost, s.smart_export_soc_min), (31, 80, 31));
    let mut p = SettingPatch::default();
    p.v2h_soc_max = Some(60);
    let s = patch(&current, p.clone());
    assert_eq!((s.v2h_soc_min, s.v2h_soc_max_boost, s.smart_export_soc_min), (31, 60, 31));
    assert_eq!((s.charge_soc_limit, s.ready_to_drive_soc, s.v2h_max_amps), (90, 90, 16));
    let mut floor = SettingPatch::default();
    floor.v2h_soc_min = Some(70);
    let s = patch(&current, floor);
    assert_eq!((s.v2h_soc_max, s.v2h_soc_max_boost, s.smart_export_soc_min), (90, 80, 70));
    let s = patch(&s, p);
    assert_eq!((s.v2h_soc_min, s.v2h_soc_max, s.smart_export_soc_min), (55, 60, 60));
}

#[test]
fn requests_note_the_present() {
    let before = Instant::now();
    let mut sup = SupervisoryState::default();
    sup.update_smart_export_request(true, false);
    let noted = sup.smart_export_request_update.unwrap();
    assert!(before <= noted && noted <= Instant::now());
}
