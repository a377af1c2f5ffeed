use moon_shadow_photo::clock::{
    capture_stamp, clock_stamp, date_stamp, datetime_stamp, in_window_at, in_window_local,
    local_time_at, local_time_str, local_to_utc, shift_time, time_of_day, TimeOfDay,
};

fn hm(h: u32, m: u32) -> TimeOfDay {
    TimeOfDay::from_hm(h, m).unwrap()
}

#[test]
fn hours_and_minutes_make_times() {
    assert_eq!(hm(0, 0).secs(), 0);
    assert_eq!(hm(1, 0).secs(), 3600);
    assert_eq!(hm(23, 59).secs(), 86340);
    assert!(TimeOfDay::from_hm(24, 0).is_none());
    assert!(TimeOfDay::from_hm(0, 60).is_none());
    assert!(TimeOfDay::from_hm(u32::MAX, 0).is_none());
}

#[test]
fn seconds_make_times_within_a_day() {
    assert_eq!(TimeOfDay::from_secs(86399).unwrap().secs(), 86399);
    assert!(TimeOfDay::from_secs(86400).is_none());
}

#[test]
fn times_are_written_with_two_digits() {
    assert_eq!(hm(6, 5).hhmm(), "06:05");
    assert_eq!(hm(23, 59).hhmm(), "23:59");
    assert_eq!(TimeOfDay::from_secs(3659).unwrap().hhmm(), "01:00");
}

#[test]
fn shifting_goes_round_the_clock() {
    assert_eq!(shift_time(hm(23, 58), 5), hm(0, 3));
    assert_eq!(shift_time(hm(0, 2), -5), hm(23, 57));
    assert_eq!(shift_time(hm(12, 0), 0), hm(12, 0));
    assert_eq!(shift_time(hm(12, 0), -1_000_000), hm(1, 20));
    assert_eq!(shift_time(shift_time(hm(7, 7), 12345), -12345), hm(7, 7));
    assert_eq!(shift_time(shift_time(hm(7, 7), 700), 800), shift_time(hm(7, 7), 1500));
}

#[test]
fn local_times_become_utc() {
    assert_eq!(local_to_utc(hm(20, 0), -7), hm(3, 0));
    assert_eq!(local_to_utc(hm(1, 30), 2), hm(23, 30));
    assert_eq!(local_to_utc(hm(9, 0), 0), hm(9, 0));
    assert_eq!(local_to_utc(hm(0, 0), i32::MAX), local_to_utc(hm(0, 0), i32::MAX % 24));
}

#[test]
fn window_within_a_day() {
    assert!(!in_window_at(hm(8, 0), hm(18, 0), 0, hm(7, 59)));
    assert!(in_window_at(hm(8, 0), hm(18, 0), 0, hm(8, 0)));
    assert!(in_window_at(hm(8, 0), hm(18, 0), 0, hm(17, 59)));
    assert!(!in_window_at(hm(8, 0), hm(18, 0), 0, hm(18, 0)));
}

#[test]
fn window_over_midnight() {
    assert!(in_window_at(hm(20, 0), hm(6, 0), 0, hm(23, 0)));
    assert!(in_window_at(hm(20, 0), hm(6, 0), 0, hm(5, 59)));
    assert!(!in_window_at(hm(20, 0), hm(6, 0), 0, hm(6, 0)));
    assert!(!in_window_at(hm(20, 0), hm(6, 0), 0, hm(12, 0)));
}

#[test]
fn window_is_meant_in_local_time() {
    // 20:00 to 06:00 at UTC-7 is 03:00 to 13:00 UTC.
    assert!(!in_window_at(hm(20, 0), hm(6, 0), -7, hm(2, 59)));
    assert!(in_window_at(hm(20, 0), hm(6, 0), -7, hm(3, 0)));
    assert!(in_window_at(hm(20, 0), hm(6, 0), -7, hm(12, 59)));
    assert!(!in_window_at(hm(20, 0), hm(6, 0), -7, hm(13, 0)));
}

#[test]
fn empty_window_never_holds() {
    assert!(!in_window_at(hm(9, 0), hm(9, 0), 3, hm(6, 0)));
    assert!(!in_window_local(hm(9, 0), hm(9, 0), 3));
}

#[test]
fn exchanged_window_is_the_complement() {
    for h in 0..24 {
        let a = in_window_at(hm(22, 0), hm(5, 0), 4, hm(h, 30));
        let b = in_window_at(hm(5, 0), hm(22, 0), 4, hm(h, 30));
        assert_ne!(a, b);
    }
}

#[test]
fn window_now_agrees_with_the_clock() {
    // A window and its complement cannot both hold, nor both fail, in the same minute or the next.
    let a = in_window_local(hm(0, 0), hm(12, 0), 0);
    let b = in_window_local(hm(12, 0), hm(0, 0), 0);
    let c = in_window_local(hm(0, 0), hm(12, 0), 0);
    assert!(a != b || b != c);
}

#[test]
fn time_of_day_of_unix_seconds() {
    assert_eq!(time_of_day(0), hm(0, 0));
    assert_eq!(time_of_day(1_700_000_000).secs(), 80000);
    assert_eq!(time_of_day(-1).secs(), 86399);
}

#[test]
fn stamps_of_a_known_second() {
    // 2023-11-14 22:13:20 UTC
    let t = 1_700_000_000;
    assert_eq!(date_stamp(t), "2023-11-14");
    assert_eq!(clock_stamp(t), "22:13:20 UTC");
    assert_eq!(datetime_stamp(t), "2023-11-14 22:13:20 UTC");
    assert_eq!(capture_stamp(t), "20231114T221320Z");
    assert_eq!(local_time_at(t, 0), "2023-11-14 22:13:20");
    assert_eq!(local_time_at(t, 2), "2023-11-15 00:13:20");
    assert_eq!(local_time_at(t, -23), "2023-11-13 23:13:20");
}

#[test]
fn stamps_at_the_ends_of_the_calendar() {
    assert_eq!(date_stamp(-8334601228800), "-262143-01-01");
    assert_eq!(datetime_stamp(8210266876799), "+262142-12-31 23:59:59 UTC");
    assert_eq!(date_stamp(-62167219201), "-0001-12-31");
    assert_eq!(date_stamp(-62167219200), "0000-01-01");
    assert_eq!(date_stamp(253402300800), "+10000-01-01");
    assert_eq!(date_stamp(951782400), "2000-02-29");
    assert_eq!(date_stamp(4107542400), "2100-03-01");
    assert_eq!(clock_stamp(-1), "23:59:59 UTC");
    assert_eq!(capture_stamp(0), "19700101T000000Z");
    assert_eq!(capture_stamp(253402300799), "99991231T235959Z");
}

#[test]
fn local_time_now_has_the_usual_shape() {
    let t = local_time_str(-7).unwrap();
    assert_eq!(t.len(), 19);
    assert_eq!(&t[4..5], "-");
    assert_eq!(&t[10..11], " ");
    assert_eq!(&t[16..17], ":");
}
