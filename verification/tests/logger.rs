use moon_shadow_photo::clock::TimeOfDay;
use moon_shadow_photo::logger::adjust::{adjust, adjust_in_range};
use moon_shadow_photo::logger::config::{
    default_flash, default_framesize, default_gain_ceiling, default_quality, default_stack_secs,
    default_utc_offset, parse_hhmm, Config, HhmmError, NumberError,
};
use moon_shadow_photo::logger::keys::{handle_key, key_in_range, Key, KeyAction};
use moon_shadow_photo::logger::publisher::{
    camera_commands, camera_log, manual_log, CapturePlan, Publisher,
};
use moon_shadow_photo::logger::server::{listen_addr, on_bind, on_stopped};
use moon_shadow_photo::logger::state::{AppState, MqttSignal};
use moon_shadow_photo::logger::storage::{count_jpgs, DirCheck, DirFault};
use moon_shadow_photo::logger::tui::TuiApp;
use moon_shadow_photo::logger::upload::{
    begin_upload, clean_timestamp, finish_upload, mkdir_failed, write_failed,
};
use moon_shadow_photo::logger::view::{
    camera_title, draw, draw_camera, draw_header, draw_schedule, draw_status, footer_text,
    framesize_label, gain_ceiling_label, hl, recent_activity, tab_titles, val_style, Color, Content,
    TextStyle,
};

const SEC: u128 = 1_000_000_000;

fn config() -> Config {
    Config {
        broker: "broker".to_string(),
        port: 1883,
        mqtt_user: "".to_string(),
        mqtt_pass: "hush".to_string(),
        client_id: "logger".to_string(),
        sensor_id: "moon-shadow".to_string(),
        interval: 60,
        start_time: "20:00".to_string(),
        stop_time: "06:00".to_string(),
        exposure: -1,
        gain: -1,
        quality: default_quality(),
        gain_ceiling: default_gain_ceiling(),
        flash: default_flash(),
        utc_offset_hours: default_utc_offset(),
        stack_secs: default_stack_secs(),
        framesize: default_framesize(),
        log_dir: "/var/photos".to_string(),
        http_port: 8765,
    }
}

fn state() -> AppState {
    let start = TimeOfDay::from_hm(20, 0).unwrap();
    let stop = TimeOfDay::from_hm(6, 0).unwrap();
    AppState::new(&config(), start, stop, 4)
}

fn at(tab: usize, field: usize) -> TuiApp {
    let mut app = TuiApp::new();
    app.tab = tab;
    app.selected[tab.min(1)] = field;
    app
}

#[test]
fn defaults_of_the_configuration() {
    assert_eq!(default_quality(), 10);
    assert_eq!(default_gain_ceiling(), 0);
    assert!(default_flash());
    assert_eq!(default_utc_offset(), 0);
    assert_eq!(default_stack_secs(), 0);
    assert_eq!(default_framesize(), 9);
}

#[test]
fn credentials_need_a_user() {
    let mut cfg = config();
    assert!(cfg.credentials().is_none());
    cfg.mqtt_user = "me".to_string();
    assert_eq!(cfg.credentials(), Some(("me", "hush")));
}

#[test]
fn hhmm_is_read() {
    assert_eq!(parse_hhmm("20:00").unwrap(), (20, 0));
    assert_eq!(parse_hhmm("6:5").unwrap(), (6, 5));
    assert_eq!(parse_hhmm("+7:+08").unwrap(), (7, 8));
    assert_eq!(parse_hhmm("99:4294967295").unwrap(), (99, u32::MAX));
    assert_eq!(parse_hhmm("000000000012:0").unwrap(), (12, 0));
}

#[test]
fn hhmm_without_a_colon() {
    let e = parse_hhmm("2000").unwrap_err();
    assert!(matches!(&e, HhmmError::NotHhmm(s) if s == "2000"));
    assert_eq!(e.message(), "expected HH:MM, got: 2000");
    assert!(matches!(parse_hhmm(""), Err(HhmmError::NotHhmm(_))));
}

#[test]
fn hhmm_with_bad_numbers() {
    assert!(matches!(parse_hhmm(":30"), Err(HhmmError::Hour(NumberError::Empty))));
    assert!(matches!(parse_hhmm("12:"), Err(HhmmError::Minute(NumberError::Empty))));
    assert!(matches!(parse_hhmm("x:30"), Err(HhmmError::Hour(NumberError::InvalidDigit))));
    assert!(matches!(parse_hhmm("-1:30"), Err(HhmmError::Hour(NumberError::InvalidDigit))));
    assert!(matches!(parse_hhmm("+:30"), Err(HhmmError::Hour(NumberError::InvalidDigit))));
    assert!(matches!(parse_hhmm("12:30:00"), Err(HhmmError::Minute(NumberError::InvalidDigit))));
    assert!(matches!(parse_hhmm("12: 3"), Err(HhmmError::Minute(NumberError::InvalidDigit))));
    assert!(matches!(
        parse_hhmm("4294967296:0"),
        Err(HhmmError::Hour(NumberError::PosOverflow))
    ));
    assert!(matches!(
        parse_hhmm("99999999999x:0"),
        Err(HhmmError::Hour(NumberError::PosOverflow))
    ));
}

#[test]
fn numbers_fail_as_in_the_standard_library() {
    for s in ["", "+", "-", "5", "+5", "-5", "4294967295", "4294967296", "1a", "a1", "٣", "99999999999x"] {
        let ours = parse_hhmm(&format!("{s}:0"));
        match s.parse::<u32>() {
            Ok(n) => assert_eq!(ours.unwrap(), (n, 0)),
            Err(e) => assert_eq!(ours.unwrap_err().message(), e.to_string()),
        }
    }
}

#[test]
fn times_written_as_hhmm_read_back() {
    for secs in [0u32, 59, 60, 3599, 3600, 45296, 86399] {
        let t = TimeOfDay::from_secs(secs).unwrap();
        assert_eq!(parse_hhmm(&t.hhmm()).unwrap(), (secs / 3600, secs / 60 % 60));
    }
}

#[test]
fn state_at_the_start() {
    let s = state();
    assert_eq!(s.interval_secs, 60);
    assert_eq!(s.window_start_local.secs(), 72000);
    assert_eq!(s.window_stop_local.secs(), 21600);
    assert_eq!((s.exposure, s.gain, s.stack_secs), (-1, -1, 0));
    assert_eq!((s.quality, s.gain_ceiling, s.framesize), (10, 0, 9));
    assert!(!s.mqtt_connected);
    assert_eq!(s.last_capture_at, None);
    assert_eq!(s.last_capture_sz, 0);
    assert_eq!(s.files_today, 4);
    assert_eq!(s.next_capture_at, None);
    assert!(s.log_lines.is_empty());
    assert_eq!(s.log_dir, "/var/photos");
}

#[test]
fn log_keeps_the_newest_lines() {
    let mut s = state();
    for i in 0..30 {
        s.push_log(format!("line {i}"));
    }
    assert_eq!(s.log_lines.len(), 30);
    assert_eq!(s.log_lines[0], "line 0");
    for i in 30..45 {
        s.push_log(format!("line {i}"));
    }
    assert_eq!(s.log_lines.len(), 30);
    assert_eq!(s.log_lines[0], "line 15");
    assert_eq!(s.log_lines[29], "line 44");
}

#[test]
fn connection_is_tracked() {
    let mut s = state();
    assert_eq!(s.on_mqtt(MqttSignal::ConnAck), None);
    assert!(s.mqtt_connected);
    assert_eq!(s.on_mqtt(MqttSignal::Other), None);
    assert!(s.mqtt_connected);
    assert_eq!(s.on_mqtt(MqttSignal::Error), Some(2));
    assert!(!s.mqtt_connected);
    s.on_mqtt(MqttSignal::ConnAck);
    assert_eq!(s.on_mqtt(MqttSignal::Disconnect), None);
    assert!(!s.mqtt_connected);
}

#[test]
fn tabs_go_round() {
    let mut app = TuiApp::new();
    assert_eq!((app.tab, app.selected, app.camera_dirty), (0, [0, 0], false));
    app.next_tab();
    assert_eq!(app.tab, 1);
    app.next_tab();
    app.next_tab();
    assert_eq!(app.tab, 0);
    app.prev_tab();
    assert_eq!(app.tab, 2);
    app.next_tab();
    assert_eq!(app.tab, 0);
}

#[test]
fn selection_stays_within_the_fields() {
    let mut app = TuiApp::new();
    assert_eq!(app.tab_field_count(), 4);
    app.move_up();
    assert_eq!(app.sel(), 0);
    for _ in 0..9 {
        app.move_down();
    }
    assert_eq!(app.sel(), 3);
    app.next_tab();
    assert_eq!(app.tab_field_count(), 6);
    assert_eq!(app.sel(), 0);
    for _ in 0..9 {
        app.move_down();
    }
    assert_eq!(app.sel(), 5);
    assert_eq!(app.selected, [3, 5]);
}

#[test]
fn status_tab_moves_the_camera_selection_up_alone() {
    let mut app = at(1, 3);
    app.next_tab();
    assert_eq!(app.tab_field_count(), 0);
    assert_eq!(app.sel(), 3);
    app.move_down();
    assert_eq!(app.sel(), 3);
    app.move_up();
    assert_eq!(app.selected, [0, 2]);
}

#[test]
fn interval_is_adjusted_in_fives() {
    let mut s = state();
    let app = at(0, 0);
    assert_eq!(adjust(&mut s, &app, 1), None);
    assert_eq!(s.interval_secs, 65);
    adjust(&mut s, &app, -1);
    assert_eq!(s.interval_secs, 60);
    s.interval_secs = 5;
    adjust(&mut s, &app, -1);
    assert_eq!(s.interval_secs, 5);
    s.interval_secs = 3598;
    adjust(&mut s, &app, 1);
    assert_eq!(s.interval_secs, 3600);
    s.interval_secs = u64::MAX;
    adjust(&mut s, &app, 1);
    assert_eq!(s.interval_secs, 5);
    s.interval_secs = 100;
    adjust(&mut s, &app, 4);
    assert_eq!(s.interval_secs, 120);
}

#[test]
fn window_is_adjusted_in_five_minutes() {
    let mut s = state();
    assert_eq!(adjust(&mut s, &at(0, 1), 1), None);
    assert_eq!(s.window_start_local.hhmm(), "20:05");
    assert_eq!(adjust(&mut s, &at(0, 2), -1), None);
    assert_eq!(s.window_stop_local.hhmm(), "05:55");
}

#[test]
fn utc_offset_is_adjusted_within_its_limits() {
    let mut s = state();
    assert_eq!(adjust(&mut s, &at(0, 3), -1), None);
    assert_eq!(s.utc_offset_hours, -1);
    s.utc_offset_hours = 14;
    adjust(&mut s, &at(0, 3), 1);
    assert_eq!(s.utc_offset_hours, 14);
    s.utc_offset_hours = -12;
    adjust(&mut s, &at(0, 3), -1);
    assert_eq!(s.utc_offset_hours, -12);
    s.utc_offset_hours = 100;
    adjust(&mut s, &at(0, 3), -1);
    assert_eq!(s.utc_offset_hours, 14);
}

#[test]
fn exposure_goes_from_automatic_to_manual() {
    let mut s = state();
    let app = at(1, 0);
    assert_eq!(adjust(&mut s, &app, 1), None);
    assert_eq!(s.exposure, 0);
    adjust(&mut s, &app, 1);
    assert_eq!(s.exposure, 50);
    s.exposure = 1180;
    adjust(&mut s, &app, 1);
    assert_eq!(s.exposure, 1200);
    s.exposure = 30;
    adjust(&mut s, &app, -1);
    assert_eq!(s.exposure, 0);
    adjust(&mut s, &app, -1);
    assert_eq!(s.exposure, -1);
    adjust(&mut s, &app, -1);
    assert_eq!(s.exposure, -1);
}

#[test]
fn gain_goes_from_automatic_to_manual() {
    let mut s = state();
    let app = at(1, 1);
    assert_eq!(adjust(&mut s, &app, 1), None);
    assert_eq!(s.gain, 0);
    s.gain = 30;
    adjust(&mut s, &app, 1);
    assert_eq!(s.gain, 30);
    adjust(&mut s, &app, -1);
    assert_eq!(s.gain, 29);
    s.gain = 0;
    adjust(&mut s, &app, -1);
    assert_eq!(s.gain, -1);
}

#[test]
fn full_steps_are_undone() {
    for (tab, fields) in [(0, 4), (1, 6)] {
        for field in 0..fields {
            let mut s = state();
            (s.exposure, s.gain, s.quality, s.gain_ceiling) = (300, 0, 20, 3);
            (s.stack_secs, s.framesize, s.utc_offset_hours, s.interval_secs) = (4, 7, 2, 60);
            let before = format!("{:?}", s);
            for delta in [1, -1, -1, 1] {
                adjust(&mut s, &at(tab, field), delta);
            }
            assert_eq!(format!("{:?}", s), before);
        }
    }
}

#[test]
fn camera_values_come_with_commands() {
    let mut s = state();
    assert_eq!(
        adjust(&mut s, &at(1, 2), 1).as_deref(),
        Some(r#"{"cmd":"SetQuality","value":11}"#)
    );
    assert_eq!(
        adjust(&mut s, &at(1, 3), 1).as_deref(),
        Some(r#"{"cmd":"SetGainCeiling","value":1}"#)
    );
    assert_eq!(
        adjust(&mut s, &at(1, 5), -1).as_deref(),
        Some(r#"{"cmd":"SetFramesize","value":8}"#)
    );
    assert_eq!(adjust(&mut s, &at(1, 4), 1), None);
    assert_eq!((s.quality, s.gain_ceiling, s.framesize, s.stack_secs), (11, 1, 8, 1));
}

#[test]
fn camera_values_stay_within_their_limits() {
    let mut s = state();
    s.quality = 63;
    adjust(&mut s, &at(1, 2), 1);
    assert_eq!(s.quality, 63);
    s.quality = 1;
    adjust(&mut s, &at(1, 2), -1);
    assert_eq!(s.quality, 1);
    s.gain_ceiling = 6;
    adjust(&mut s, &at(1, 3), 1);
    assert_eq!(s.gain_ceiling, 6);
    s.stack_secs = 10;
    adjust(&mut s, &at(1, 4), 1);
    assert_eq!(s.stack_secs, 10);
    adjust(&mut s, &at(1, 4), -20);
    assert_eq!(s.stack_secs, 0);
    s.framesize = 200;
    adjust(&mut s, &at(1, 5), -1);
    assert_eq!(s.framesize, 13);
}

#[test]
fn status_tab_adjusts_nothing() {
    let mut s = state();
    let mut app = at(1, 2);
    app.tab = 2;
    assert_eq!(adjust(&mut s, &app, 1), None);
    assert_eq!(s.quality, 10);
}

#[test]
fn adjustments_beyond_the_machine_are_told() {
    let mut s = state();
    assert!(adjust_in_range(&s, &at(0, 0), 1));
    s.interval_secs = i64::MAX as u64;
    assert!(!adjust_in_range(&s, &at(0, 0), 1));
    assert!(adjust_in_range(&s, &at(0, 0), -1));
    assert!(!adjust_in_range(&s, &at(0, 1), i64::MAX));
    assert!(!adjust_in_range(&s, &at(0, 2), i64::MIN));
    s.utc_offset_hours = i32::MAX;
    assert!(!adjust_in_range(&s, &at(0, 3), 1));
    s.exposure = i32::MAX;
    s.gain = i32::MAX;
    assert!(!adjust_in_range(&s, &at(1, 0), 1));
    assert!(!adjust_in_range(&s, &at(1, 1), 1));
    assert!(adjust_in_range(&s, &at(1, 0), -1));
    assert!(!adjust_in_range(&s, &at(1, 2), i64::MAX));
}

#[test]
fn keys_navigate() {
    let mut s = state();
    let mut app = TuiApp::new();
    assert!(matches!(handle_key(&mut app, &mut s, Key::Tab, true), KeyAction::Stay));
    assert_eq!(app.tab, 1);
    handle_key(&mut app, &mut s, Key::Down, true);
    assert_eq!(app.sel(), 1);
    handle_key(&mut app, &mut s, Key::Up, true);
    assert_eq!(app.sel(), 0);
    handle_key(&mut app, &mut s, Key::BackTab, true);
    assert_eq!(app.tab, 0);
    handle_key(&mut app, &mut s, Key::Tab, false);
    assert_eq!(app.tab, 0);
    assert!(matches!(handle_key(&mut app, &mut s, Key::Char('q'), true), KeyAction::Quit));
    assert!(matches!(handle_key(&mut app, &mut s, Key::Esc, true), KeyAction::Quit));
    assert!(matches!(handle_key(&mut app, &mut s, Key::Other, true), KeyAction::Stay));
    assert!(matches!(handle_key(&mut app, &mut s, Key::Char('x'), true), KeyAction::Stay));
}

#[test]
fn keys_adjust_and_send() {
    let mut s = state();
    let mut app = at(1, 2);
    assert!(matches!(handle_key(&mut app, &mut s, Key::Right, true), KeyAction::Stay));
    assert_eq!(s.quality, 11);
    assert!(app.camera_dirty);
    handle_key(&mut app, &mut s, Key::Char('-'), true);
    assert_eq!(s.quality, 10);
    assert!(app.camera_dirty);
    let sent = handle_key(&mut app, &mut s, Key::Char('S'), true);
    assert!(matches!(sent, KeyAction::SendCamera { quality: 10, gain_ceiling: 0, framesize: 9 }));
    assert!(!app.camera_dirty);
    app.selected = [0, 4];
    handle_key(&mut app, &mut s, Key::Char('+'), true);
    assert_eq!(s.stack_secs, 1);
    assert!(!app.camera_dirty);
    app.tab = 0;
    assert!(matches!(handle_key(&mut app, &mut s, Key::Char('s'), true), KeyAction::Stay));
    assert!(matches!(handle_key(&mut app, &mut s, Key::Left, true), KeyAction::Stay));
    assert_eq!(s.interval_secs, 55);
    let capture = handle_key(&mut app, &mut s, Key::Char('c'), true);
    assert!(matches!(capture, KeyAction::Capture { exposure: -1, gain: -1, stack_secs: 1 }));
}

#[test]
fn keys_beyond_the_machine_are_told() {
    let mut s = state();
    s.gain = i32::MAX;
    let app = at(1, 1);
    assert!(!key_in_range(&app, &s, Key::Right));
    assert!(!key_in_range(&app, &s, Key::Char('+')));
    assert!(key_in_range(&app, &s, Key::Left));
    assert!(key_in_range(&app, &s, Key::Tab));
    assert!(key_in_range(&at(1, 0), &s, Key::Right));
}

#[test]
fn requests_are_planned() {
    let mut s = state();
    let p = Publisher { last_sent: 100 * SEC };
    let plan = p.plan(&mut s, true, 120 * SEC);
    assert_eq!(s.next_capture_at, Some(160 * SEC));
    assert_eq!(
        plan,
        CapturePlan { interval: 60, in_window: true, exposure: -1, gain: -1, stack_secs: 0 }
    );
    assert!(!p.due(&plan, 160 * SEC - 1));
    assert!(p.due(&plan, 160 * SEC));
    p.plan(&mut s, true, 170 * SEC);
    assert_eq!(s.next_capture_at, Some(170 * SEC));
    let outside = p.plan(&mut s, false, 170 * SEC);
    assert_eq!(s.next_capture_at, None);
    assert!(!p.due(&outside, 1000 * SEC));
    assert!(!p.due(&plan, 0));
}

#[test]
fn first_request_goes_out_at_once() {
    let mut s = state();
    let p = Publisher::new(9999 * SEC);
    assert_eq!(p.last_sent, 0);
    let plan = p.plan(&mut s, true, 9999 * SEC);
    assert!(p.due(&plan, 9999 * SEC));
    assert_eq!(Publisher::new(5 * SEC).last_sent, 5 * SEC);
}

#[test]
fn accepted_requests_are_logged() {
    let mut s = state();
    let mut p = Publisher::new(0);
    let plan = CapturePlan { interval: 5, in_window: true, exposure: 50, gain: -1, stack_secs: 2 };
    p.on_published(&mut s, &plan, true, 1_700_000_000, 7 * SEC);
    assert_eq!(p.last_sent, 7 * SEC);
    assert_eq!(s.log_lines, vec!["22:13:20 UTC → senddata exp=50 gain=-1 stack=2s"]);
    p.on_published(&mut s, &plan, false, 1_700_000_000, 9 * SEC);
    assert_eq!(p.last_sent, 9 * SEC);
    assert_eq!(s.log_lines.len(), 1);
}

#[test]
fn lines_of_requests_by_hand() {
    assert_eq!(
        manual_log(1_700_000_000, -1, 3, 0),
        "22:13:20 UTC → MANUAL exp=-1 gain=3 stack=0s"
    );
    assert_eq!(
        camera_log(1_700_000_000, 10, 2, 9),
        "22:13:20 UTC → camera cmd sent: Q=10 GC=2 FS=9"
    );
    assert_eq!(
        camera_commands(10, 2, 9),
        vec![
            r#"{"cmd":"SetQuality","value":10}"#,
            r#"{"cmd":"SetGainCeiling","value":2}"#,
            r#"{"cmd":"SetFramesize","value":9}"#,
        ]
    );
}

#[test]
fn server_lines() {
    let mut s = state();
    assert_eq!(listen_addr(8765), "0.0.0.0:8765");
    assert!(on_bind(&mut s, "0.0.0.0:8765", None));
    assert!(!on_bind(&mut s, "0.0.0.0:80", Some("denied")));
    on_stopped(&mut s, "broken");
    assert_eq!(
        s.log_lines,
        vec![
            "HTTP listening on 0.0.0.0:8765",
            "⚠ HTTP bind 0.0.0.0:80 failed: denied  (old process still running?)",
            "⚠ HTTP server stopped: broken",
        ]
    );
}

#[test]
fn photos_are_counted() {
    let names: Vec<String> = ["a.jpg", ".jpg", "b.JPG", "c.jpg.tmp", "d.e.jpg", "..jpg", "jpg", "x.jpeg"]
        .iter()
        .map(|n| n.to_string())
        .collect();
    assert_eq!(count_jpgs(&names), 3);
    let by_path = names
        .iter()
        .filter(|n| std::path::Path::new(n).extension().map(|x| x == "jpg").unwrap_or(false))
        .count();
    assert_eq!(by_path, 3);
    assert_eq!(count_jpgs(&Vec::new()), 0);
}

#[test]
fn directory_check_passes_and_fails() {
    let good = DirCheck::Exists.next(true).next(true).next(true).next(false);
    assert_eq!(good, DirCheck::Passed);
    let made = DirCheck::Exists.next(false);
    assert_eq!(made, DirCheck::Create);
    assert_eq!(made.next(true), DirCheck::IsDir);
    assert_eq!(made.next(false), DirCheck::Failed(DirFault::CannotCreate));
    assert_eq!(DirCheck::IsDir.next(false), DirCheck::Failed(DirFault::NotADirectory));
    assert_eq!(DirCheck::Write.next(false), DirCheck::Failed(DirFault::NotWritable));
    assert_eq!(DirFault::CannotCreate.message("/x"), "Cannot create log_dir: /x");
    assert_eq!(DirFault::NotADirectory.message("/x"), "log_dir is not a directory: /x");
    assert_eq!(DirFault::NotWritable.message("/x"), "log_dir not writable: /x");
}

#[test]
fn uploads_without_jpeg_magic_are_refused() {
    let mut s = state();
    assert_eq!(begin_upload(&mut s, &[], None, 0).unwrap_err(), 400);
    assert_eq!(begin_upload(&mut s, &[0xFF], None, 0).unwrap_err(), 400);
    assert_eq!(begin_upload(&mut s, &[0x0A, 0xD8, 1], Some("t"), 0).unwrap_err(), 400);
    assert_eq!(
        s.log_lines,
        vec![
            "⚠ upload rejected: bad JPEG magic (0 B, first bytes: 00 00)",
            "⚠ upload rejected: bad JPEG magic (1 B, first bytes: FF 00)",
            "⚠ upload rejected: bad JPEG magic (3 B, first bytes: 0A D8)",
        ]
    );
    assert_eq!(s.files_today, 4);
}

#[test]
fn uploads_are_filed_by_stamp_and_count() {
    let mut s = state();
    let body = [0xFF, 0xD8, 0xFF, 0xD9];
    let plan = begin_upload(&mut s, &body, Some("20231114T221320Z"), 1_700_000_000).unwrap();
    assert_eq!(plan.dir, "2023-11-14");
    assert_eq!(plan.filename, "20231114T221320_004.jpg");
    assert_eq!(plan.timestamp, "20231114T221320Z");
    assert!(s.log_lines.is_empty());
    assert_eq!(finish_upload(&mut s, &plan, &body, 1_700_000_001), 200);
    assert_eq!(s.files_today, 5);
    assert_eq!(s.last_capture_at, Some(1_700_000_001));
    assert_eq!(s.last_capture_sz, 4);
    assert_eq!(s.log_lines, vec!["20231114T221320Z saved 20231114T221320_004.jpg  (4 B)"]);
    assert_eq!(count_jpgs(&vec![plan.filename]), 1);
}

#[test]
fn truncated_uploads_are_kept_with_a_warning() {
    let mut s = state();
    s.files_today = 1234;
    let plan = begin_upload(&mut s, &[0xFF, 0xD8, 0xD9], None, 0).unwrap();
    assert_eq!(plan.filename, "unknown_1234.jpg");
    assert_eq!(finish_upload(&mut s, &plan, &[0xFF, 0xD8, 0xD9], 0), 200);
    assert_eq!(
        s.log_lines,
        vec!["unknown ⚠ unknown_1234.jpg (3 B) — truncated JPEG (FB-OVF on device, reduce gain or raise quality#)"]
    );
}

#[test]
fn failed_uploads_are_logged() {
    let mut s = state();
    assert_eq!(mkdir_failed(&mut s, "/x/2023-11-14", "denied"), 500);
    assert_eq!(write_failed(&mut s, "/x/a.jpg", "full"), 500);
    assert_eq!(
        s.log_lines,
        vec!["⚠ upload: mkdir /x/2023-11-14 failed: denied", "⚠ upload: write /x/a.jpg failed: full"]
    );
}

#[test]
fn stamps_are_cleaned_for_file_names() {
    assert_eq!(clean_timestamp("../../etc/passwd"), "etcpasswd");
    assert_eq!(clean_timestamp("2023-11-14T22:13:20Z"), "20231114T221320");
    assert_eq!(clean_timestamp("é_→"), "");
    assert_eq!(clean_timestamp("abcdefghijklmnopqrst"), "abcdefghijklmno");
}

#[test]
fn different_counts_give_different_names() {
    let mut s = state();
    let body = [0xFF, 0xD8];
    let a = begin_upload(&mut s, &body, Some("x_1"), 0).unwrap().filename;
    s.files_today = 1004;
    let b = begin_upload(&mut s, &body, Some("x"), 0).unwrap().filename;
    assert_eq!(a, "x1_004.jpg");
    assert_eq!(b, "x_1004.jpg");
}

fn style(fg: Option<Color>, bg: Option<Color>, bold: bool) -> TextStyle {
    TextStyle { fg, bg, bold }
}

#[test]
fn styles_of_fields() {
    assert_eq!(hl(true), style(Some(Color::Black), Some(Color::Yellow), true));
    assert_eq!(hl(false), style(None, None, false));
    assert_eq!(val_style(true), style(Some(Color::Black), Some(Color::Cyan), true));
    assert_eq!(val_style(false), style(Some(Color::Cyan), None, false));
}

#[test]
fn schedule_rows() {
    let mut s = state();
    s.utc_offset_hours = -7;
    s.next_capture_at = Some(12 * SEC + 1);
    let rows = draw_schedule(&at(0, 1), &s, true, 2 * SEC);
    let texts: Vec<(&str, &str, &str)> = rows
        .iter()
        .map(|r| (r.label.text.as_str(), r.value.text.as_str(), r.note.text.as_str()))
        .collect();
    assert_eq!(
        texts,
        vec![
            ("  Interval", "    60 s", ""),
            ("  Window start", "20:00", "local  (±5 min)"),
            ("  Window stop", "06:00", "local  (±5 min)"),
            ("  UTC offset", "   -7h", "hours"),
            ("", "", ""),
            ("  Status", "● ACTIVE — next capture in 10s", ""),
        ]
    );
    assert_eq!(rows[0].label.style, hl(false));
    assert_eq!(rows[1].label.style, hl(true));
    assert_eq!(rows[1].value.style, val_style(true));
    assert_eq!(rows[5].value.style, style(Some(Color::Green), None, false));
}

#[test]
fn schedule_outside_the_window_and_too_short() {
    let mut s = state();
    s.interval_secs = 5;
    s.stack_secs = 5;
    let rows = draw_schedule(&at(0, 0), &s, false, 0);
    assert_eq!(rows[0].note.text, "⚠ must be > stack_secs");
    assert_eq!(rows[0].value.style, style(Some(Color::Black), Some(Color::Red), true));
    assert_eq!(rows[5].value.text, "○ outside window");
    assert_eq!(rows[5].value.style, style(Some(Color::DarkGray), None, false));
    let other = draw_schedule(&at(0, 3), &s, true, 0);
    assert_eq!(other[0].value.style, style(Some(Color::Red), None, true));
    assert_eq!(other[5].value.text, "● ACTIVE — next capture in 0s");
    assert_eq!(other[3].value.text, "   +0h");
}

#[test]
fn camera_rows() {
    let mut s = state();
    let rows = draw_camera(&at(1, 2), &s);
    let texts: Vec<(&str, &str, &str)> = rows
        .iter()
        .map(|r| (r.label.text.as_str(), r.value.text.as_str(), r.note.text.as_str()))
        .collect();
    assert_eq!(
        texts,
        vec![
            ("  Exposure", "   -1", "auto AEC"),
            ("  Gain", "   -1", "auto AGC"),
            ("  Quality", "   10", "1-63, lower = better"),
            ("  Gain ceiling", "    0", "2×  (0-6)"),
            ("  Stack secs", "    0", "single frame  (0-10s)"),
            ("  Framesize", "    9", "800×600 SVGA  (0-13)"),
        ]
    );
    assert_eq!(rows[2].label.style, hl(true));
    s.exposure = 300;
    s.gain = 12;
    s.stack_secs = 10;
    s.framesize = 13;
    s.interval_secs = 10;
    let rows = draw_camera(&at(1, 4), &s);
    assert_eq!(rows[0].note.text, "300 lines");
    assert_eq!(rows[1].note.text, "12");
    assert_eq!(rows[4].note.text, "10s effective exposure  — interval must be >10s");
    assert_eq!(rows[4].value.style, style(Some(Color::Black), Some(Color::Red), true));
    assert_eq!(rows[5].note.text, "1600×1200 UXGA  ⚠ UXGA+stack may exhaust PSRAM");
    assert_eq!(rows[5].value.style, style(Some(Color::Red), None, true));
}

#[test]
fn labels_of_values() {
    assert_eq!(gain_ceiling_label(6), "128×");
    assert_eq!(gain_ceiling_label(7), "?");
    assert_eq!(framesize_label(0), "96×96");
    assert_eq!(framesize_label(14), "?");
    assert_eq!(tab_titles(), ["  Schedule  ", "  Camera  ", "  Status  "]);
}

#[test]
fn status_lines() {
    let mut s = state();
    let text = |s: &AppState, i: usize| -> String {
        draw_status(s)[i].iter().map(|c| c.text.clone()).collect()
    };
    assert_eq!(draw_status(&s).len(), 5);
    assert_eq!(text(&s, 0), "");
    assert_eq!(text(&s, 1), "  MQTT          ○ Disconnected");
    assert_eq!(text(&s, 2), "  Last capture  —");
    assert_eq!(text(&s, 3), "  Files today   4");
    assert_eq!(text(&s, 4), "  Log dir       /var/photos");
    s.mqtt_connected = true;
    s.last_capture_at = Some(1_700_000_000);
    s.last_capture_sz = 54321;
    assert_eq!(text(&s, 1), "  MQTT          ● Connected");
    assert_eq!(text(&s, 2), "  Last capture  2023-11-14 22:13:20 UTC  (54321 bytes)");
}

#[test]
fn activity_is_shown_newest_first() {
    let mut s = state();
    for i in 0..25 {
        s.push_log(format!("line {i}"));
    }
    let shown = recent_activity(&s);
    assert_eq!(shown.len(), 20);
    assert_eq!(shown[0], "  line 24");
    assert_eq!(shown[19], "  line 5");
}

#[test]
fn whole_screen() {
    let mut s = state();
    s.utc_offset_hours = 2;
    s.mqtt_connected = true;
    let mut app = at(1, 0);
    app.camera_dirty = true;
    let header = draw_header(&s, "2023-11-15 00:13:20");
    assert_eq!(header[0].text, "  moon_shadow_photo  ");
    assert!(header[0].style.bold);
    assert_eq!(header[1].text, "2023-11-15 00:13:20  UTC+2  ");
    assert_eq!(header[2].text, "● MQTT");
    let screen = draw(&app, &s, "now", false, 0);
    assert_eq!(screen.tab, 1);
    assert!(matches!(screen.content, Content::Table { title: " Camera  ● unsaved ", .. }));
    assert_eq!(
        screen.footer.text,
        "  ↑↓ nav  ←→ adjust  s send to device  c capture now  Tab next  q quit"
    );
    app.tab = 0;
    s.utc_offset_hours = -3;
    s.mqtt_connected = false;
    let screen = draw(&app, &s, "now", false, 0);
    assert_eq!(screen.header[1].text, "now  UTC-3  ");
    assert_eq!(screen.header[2].text, "○ MQTT");
    assert!(matches!(screen.content, Content::Table { title: " Schedule ", .. }));
    assert_eq!(screen.footer.text, footer_text(&app));
    app.tab = 2;
    assert!(matches!(draw(&app, &s, "now", false, 0).content, Content::Status { .. }));
    app.camera_dirty = false;
    assert_eq!(camera_title(&app), " Camera ");
}
