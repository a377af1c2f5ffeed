//! Times of day, the daily capture window and time stamps.

use vstd::prelude::*;
use vstd::string::*;

use crate::calendar::{
    date_of, day_number, is_date, law_number_has_one_date, law_year_of_four_digits, Date,
};
use crate::text::{dec, digit, law_dec_reads_back, pad_left};

verus! {

/// Seconds in a day.
pub const DAY_SECS: u32 = 86400;

/// First second since the Unix epoch that has a calendar date.
pub const MIN_UNIX_SECS: i64 = -8334601228800;

/// Last second since the Unix epoch that has a calendar date.
pub const MAX_UNIX_SECS: i64 = 8210266876799;

/// A time of day, to the second.
#[derive(Clone, Copy, Debug, PartialEq, Eq)]
pub struct TimeOfDay {
    secs: u32,
}

impl View for TimeOfDay {
    type V = int;

    /// Seconds since midnight.
    closed spec fn view(&self) -> int {
        self.secs as int
    }
}

impl TimeOfDay {
    #[verifier::type_invariant]
    spec fn inv(self) -> bool {
        self.secs < DAY_SECS
    }

    /// The time `secs` seconds after midnight, if the day has one.
    pub fn from_secs(secs: u32) -> (r: Option<TimeOfDay>)
        ensures
            r is Some <==> secs < DAY_SECS,
            r matches Some(t) ==> t@ == secs,
    {
        if secs < DAY_SECS {
            Some(TimeOfDay { secs })
        } else {
            None
        }
    }

    /// The full minute `hour:min`, if the clock has one.
    pub fn from_hm(hour: u32, min: u32) -> (r: Option<TimeOfDay>)
        ensures
            r is Some <==> hour < 24 && min < 60,
            r matches Some(t) ==> t@ == hour * 3600 + min * 60,
    {
        match secs_of_hms(hour, min, 0) {
            Some(secs) => Some(TimeOfDay { secs }),
            None => None,
        }
    }

    /// Seconds since midnight.
    pub fn secs(&self) -> (r: u32)
        ensures
            r == self@,
            r < DAY_SECS,
    {
        proof {
            use_type_invariant(&*self);
        }
        self.secs
    }
}

/// `chrono::NaiveTime::from_hms_opt`, read back as seconds since midnight: there is a time
/// exactly for an hour below 24 and a minute and second below 60.
#[verifier::external_body]
fn secs_of_hms(hour: u32, min: u32, sec: u32) -> (r: Option<u32>)
    ensures
        r == (if hour < 24 && min < 60 && sec < 60 {
            Some((hour * 3600 + min * 60 + sec) as u32)
        } else {
            None
        }),
{
    chrono::NaiveTime::from_hms_opt(hour, min, sec)
        .map(|t| chrono::Timelike::num_seconds_from_midnight(&t))
}

/// `secs`, taken round the clock into one day.
pub open spec fn wrap_day(secs: int) -> int {
    secs % 86400
}

fn wrap_secs(secs: i64) -> (r: TimeOfDay)
    ensures
        r@ == wrap_day(secs as int),
{
    let day: i64 = 86400;
    let neg: bool = secs < 0;
    let m: i64 = if neg {
        // Keeps the dividend non-negative, where the remainder is the mathematical one.
        let n: i64 = (-(secs + 1)) % day;
        proof {
            assert((secs as int) % 86400 == 86399 - (-(secs as int + 1)) % 86400) by {
                let a = -(secs as int + 1);
                let q = a / 86400;
                assert(a == q * 86400 + a % 86400);
                assert(secs as int == (-q - 1) * 86400 + (86399 - a % 86400));
            }
        }
        day - 1 - n
    } else {
        secs % day
    };
    TimeOfDay { secs: m as u32 }
}

/// `t` moved by `delta_mins` minutes, round the clock. Parts of a minute are kept.
pub fn shift_time(t: TimeOfDay, delta_mins: i64) -> (r: TimeOfDay)
    requires
        i64::MIN <= delta_mins * 60,
        t@ + delta_mins * 60 <= i64::MAX,
    ensures
        r@ == wrap_day(t@ + delta_mins * 60),
{
    let s: u32 = t.secs();
    wrap_secs(s as i64 + delta_mins * 60)
}

/// The UTC time of day at which a clock `utc_offset_hours` ahead of UTC shows `local`.
pub fn local_to_utc(local: TimeOfDay, utc_offset_hours: i32) -> (r: TimeOfDay)
    ensures
        r@ == wrap_day(local@ - utc_offset_hours * 3600),
{
    let s: u32 = local.secs();
    wrap_secs(s as i64 - utc_offset_hours as i64 * 3600)
}

/// Whether the daily window from `start` up to but not including `stop` holds at `now`, all
/// three on one clock. A window that starts after it stops runs over midnight; one that starts
/// when it stops never holds.
pub open spec fn window_holds(start: int, stop: int, now: int) -> bool {
    if start <= stop {
        start <= now < stop
    } else {
        start <= now || now < stop
    }
}

/// The window given in local time, held against a UTC time of day.
pub open spec fn local_window_holds(start: int, stop: int, utc_offset_hours: int, now_utc: int) -> bool {
    window_holds(
        wrap_day(start - utc_offset_hours * 3600),
        wrap_day(stop - utc_offset_hours * 3600),
        now_utc,
    )
}

/// Whether the capture window holds at the UTC time of day `now`.
pub fn in_window_at(
    start_local: TimeOfDay,
    stop_local: TimeOfDay,
    utc_offset_hours: i32,
    now: TimeOfDay,
) -> (r: bool)
    ensures
        r == local_window_holds(start_local@, stop_local@, utc_offset_hours as int, now@),
{
    let start_utc = local_to_utc(start_local, utc_offset_hours).secs();
    let stop_utc = local_to_utc(stop_local, utc_offset_hours).secs();
    let now: u32 = now.secs();
    if start_utc <= stop_utc {
        now >= start_utc && now < stop_utc
    } else {
        now >= start_utc || now < stop_utc
    }
}

/// `chrono::Utc::now`, as whole seconds since the Unix epoch. The clock gives a second that is
/// not before the epoch and has a calendar date; nothing more is said of it.
#[verifier::external_body]
fn utc_now() -> (r: i64)
    ensures
        0 <= r <= MAX_UNIX_SECS,
{
    chrono::Utc::now().timestamp()
}

/// The UTC time of day of a second since the Unix epoch.
pub fn time_of_day(unix_secs: i64) -> (r: TimeOfDay)
    ensures
        r@ == wrap_day(unix_secs as int),
{
    wrap_secs(unix_secs)
}

/// Whether the capture window holds now.
pub fn in_window_local(start_local: TimeOfDay, stop_local: TimeOfDay, utc_offset_hours: i32) -> (r: bool)
    ensures
        exists|now: int|
            0 <= now < DAY_SECS && r == #[trigger] local_window_holds(
                start_local@,
                stop_local@,
                utc_offset_hours as int,
                now,
            ),
        start_local@ == stop_local@ ==> !r,
{
    let now = time_of_day(utc_now());
    in_window_at(start_local, stop_local, utc_offset_hours, now)
}

/// The two decimal digits of a number below 100.
pub open spec fn two_digits(n: int) -> Seq<char> {
    seq![digit((n / 10) as nat), digit((n % 10) as nat)]
}

/// Hour and minute of a second of the day, as `HH:MM`.
pub open spec fn hhmm_text(secs: int) -> Seq<char> {
    two_digits(secs / 3600) + seq![':'] + two_digits(secs / 60 % 60)
}

/// Time of day of a second since the Unix epoch, as `HH:MM:SS`.
pub open spec fn clock_text(unix_secs: int) -> Seq<char> {
    hhmm_text(wrap_day(unix_secs)) + seq![':'] + two_digits(wrap_day(unix_secs) % 60)
}

/// A year: four digits from 0 to 9999, else a sign and at least four digits.
pub open spec fn year_text(year: int) -> Seq<char> {
    if 0 <= year <= 9999 {
        pad_left(dec(year as nat), 4, '0')
    } else if year < 0 {
        seq!['-'] + pad_left(dec((-year) as nat), 4, '0')
    } else {
        seq!['+'] + pad_left(dec(year as nat), 4, '0')
    }
}

/// The date of a second since the Unix epoch.
pub open spec fn utc_date(unix_secs: int) -> Date {
    date_of(unix_secs / 86400)
}

/// The date of a second since the Unix epoch, as `YYYY-MM-DD`.
pub open spec fn date_text(unix_secs: int) -> Seq<char> {
    year_text(utc_date(unix_secs).year) + seq!['-'] + two_digits(utc_date(unix_secs).month)
        + seq!['-'] + two_digits(utc_date(unix_secs).day)
}

/// Date and time of day of a second since the Unix epoch, as `YYYYMMDDThhmmssZ`.
pub open spec fn compact_text(unix_secs: int) -> Seq<char> {
    let secs = wrap_day(unix_secs);
    year_text(utc_date(unix_secs).year) + two_digits(utc_date(unix_secs).month) + two_digits(
        utc_date(unix_secs).day,
    ) + seq!['T'] + two_digits(secs / 3600) + two_digits(secs / 60 % 60) + two_digits(secs % 60)
        + seq!['Z']
}

/// The patterns in which time stamps are written.
pub open spec fn is_stamp_pattern(pattern: Seq<char>) -> bool {
    ||| pattern == "%Y-%m-%d"@
    ||| pattern == "%H:%M:%S UTC"@
    ||| pattern == "%Y-%m-%d %H:%M:%S"@
    ||| pattern == "%Y-%m-%d %H:%M:%S UTC"@
    ||| pattern == "%Y%m%dT%H%M%SZ"@
}

/// Whether a text has the shape `YYYYMMDDThhmmssZ`.
pub open spec fn is_compact_stamp(s: Seq<char>) -> bool {
    &&& s.len() == 16
    &&& s[8] == 'T'
    &&& s[15] == 'Z'
    &&& forall|i: int| 0 <= i < 15 && i != 8 ==> '0' <= #[trigger] s[i] <= '9'
}

/// `chrono::DateTime::format` on the UTC time `secs` seconds after the Unix epoch. The date is
/// that of the Gregorian calendar. Month, day, hour, minute and second are written with two
/// digits each, the year as `year_text` says, and all else in the pattern as it stands there.
#[verifier::external_body]
fn format_utc(secs: i64, pattern: &str) -> (r: String)
    requires
        MIN_UNIX_SECS <= secs <= MAX_UNIX_SECS,
        is_stamp_pattern(pattern@),
    ensures
        pattern@ == "%Y-%m-%d"@ ==> r@ == date_text(secs as int),
        pattern@ == "%H:%M:%S UTC"@ ==> r@ == clock_text(secs as int) + " UTC"@,
        pattern@ == "%Y-%m-%d %H:%M:%S"@ ==> r@ == date_text(secs as int) + " "@ + clock_text(
            secs as int,
        ),
        pattern@ == "%Y-%m-%d %H:%M:%S UTC"@ ==> r@ == date_text(secs as int) + " "@ + clock_text(
            secs as int,
        ) + " UTC"@,
        pattern@ == "%Y%m%dT%H%M%SZ"@ ==> r@ == compact_text(secs as int),
{
    chrono::DateTime::from_timestamp(secs, 0).unwrap().format(pattern).to_string()
}

/// The UTC date of a second since the Unix epoch, as `YYYY-MM-DD`.
pub fn date_stamp(unix_secs: i64) -> (r: String)
    requires
        MIN_UNIX_SECS <= unix_secs <= MAX_UNIX_SECS,
    ensures
        r@ == date_text(unix_secs as int),
{
    format_utc(unix_secs, "%Y-%m-%d")
}

/// The UTC time of day of a second since the Unix epoch, as `HH:MM:SS UTC`.
pub fn clock_stamp(unix_secs: i64) -> (r: String)
    requires
        MIN_UNIX_SECS <= unix_secs <= MAX_UNIX_SECS,
    ensures
        r@ == clock_text(unix_secs as int) + " UTC"@,
{
    format_utc(unix_secs, "%H:%M:%S UTC")
}

/// UTC date and time of day of a second since the Unix epoch.
pub fn datetime_stamp(unix_secs: i64) -> (r: String)
    requires
        MIN_UNIX_SECS <= unix_secs <= MAX_UNIX_SECS,
    ensures
        r@ == date_text(unix_secs as int) + " "@ + clock_text(unix_secs as int) + " UTC"@,
{
    format_utc(unix_secs, "%Y-%m-%d %H:%M:%S UTC")
}

/// The time stamp of a capture, as `YYYYMMDDThhmmssZ`.
pub fn capture_stamp(unix_secs: i64) -> (r: String)
    requires
        MIN_UNIX_SECS <= unix_secs <= MAX_UNIX_SECS,
    ensures
        r@ == compact_text(unix_secs as int),
{
    format_utc(unix_secs, "%Y%m%dT%H%M%SZ")
}

/// Date and time that a clock `utc_offset_hours` ahead of UTC shows, `unix_secs` seconds after
/// the Unix epoch.
pub open spec fn local_text(unix_secs: int, utc_offset_hours: int) -> Seq<char> {
    date_text(unix_secs + utc_offset_hours * 3600) + " "@ + clock_text(
        unix_secs + utc_offset_hours * 3600,
    )
}

/// Local date and time at a second since the Unix epoch.
pub fn local_time_at(unix_secs: i64, utc_offset_hours: i32) -> (r: String)
    requires
        MIN_UNIX_SECS <= unix_secs + utc_offset_hours * 3600 <= MAX_UNIX_SECS,
    ensures
        r@ == local_text(unix_secs as int, utc_offset_hours as int),
{
    format_utc(unix_secs + utc_offset_hours as i64 * 3600, "%Y-%m-%d %H:%M:%S")
}

/// Local date and time now, if the calendar reaches that far.
pub fn local_time_str(utc_offset_hours: i32) -> (r: Option<String>)
    ensures
        exists|now: int|
            0 <= now <= MAX_UNIX_SECS && (match r {
                Some(t) => t@ == #[trigger] local_text(now, utc_offset_hours as int),
                None => !(MIN_UNIX_SECS <= now + utc_offset_hours * 3600 <= MAX_UNIX_SECS),
            }),
{
    let now: i64 = utc_now();
    let local: i64 = now + utc_offset_hours as i64 * 3600;
    proof {
        let _ = local_text(now as int, utc_offset_hours as int);
    }
    if MIN_UNIX_SECS <= local && local <= MAX_UNIX_SECS {
        Some(local_time_at(now, utc_offset_hours))
    } else {
        None
    }
}

/// `chrono::NaiveTime::format` with the pattern `%H:%M`: two digits of the hour, a colon, two
/// digits of the minute.
#[verifier::external_body]
fn format_hhmm(secs: u32) -> (r: String)
    requires
        secs < DAY_SECS,
    ensures
        r@ == hhmm_text(secs as int),
{
    chrono::NaiveTime::from_num_seconds_from_midnight_opt(secs, 0)
        .unwrap()
        .format("%H:%M")
        .to_string()
}

impl TimeOfDay {
    /// Hour and minute, as `HH:MM`.
    pub fn hhmm(&self) -> (r: String)
        ensures
            r@ == hhmm_text(self@),
    {
        format_hhmm(self.secs())
    }
}

/// In the years up to 9999 the time stamp of a capture has the shape `YYYYMMDDThhmmssZ`.
pub proof fn law_capture_stamp_is_compact(unix_secs: int)
    requires
        0 <= unix_secs <= 253402300799,
    ensures
        is_compact_stamp(compact_text(unix_secs)),
{
    let date = utc_date(unix_secs);
    law_year_of_four_digits(unix_secs / 86400);
    law_number_has_one_date(unix_secs / 86400);
    law_dec_reads_back(date.year as nat);
    reveal_with_fuel(dec, 4);
    assert(year_text(date.year).len() == 4);
}

/// A date is written as the calendar has it: the text of a second that lies on the given day.
pub proof fn law_date_text_is_of_day(unix_secs: int, date: Date)
    requires
        is_date(date),
        day_number(date) == unix_secs / 86400,
    ensures
        date_text(unix_secs) == year_text(date.year) + seq!['-'] + two_digits(date.month) + seq![
            '-',
        ] + two_digits(date.day),
{
    law_number_has_one_date(unix_secs / 86400);
}

proof fn lemma_wrap_inside(a: int, b: int)
    ensures
        wrap_day(wrap_day(a) + b) == wrap_day(a + b),
        wrap_day(b - wrap_day(a)) == wrap_day(b - a),
{
    let q = a / 86400;
    assert(a == q * 86400 + wrap_day(a));
    vstd::arithmetic::div_mod::lemma_mod_multiples_vanish(q, wrap_day(a) + b, 86400);
    vstd::arithmetic::div_mod::lemma_mod_multiples_vanish(-q, b - wrap_day(a), 86400);
}

/// A window is a stretch of the clock face: it holds at a time exactly if that time lies fewer
/// seconds after the start than the stop does.
proof fn lemma_window_round_the_clock(start: int, stop: int, now: int)
    requires
        0 <= start < DAY_SECS,
        0 <= stop < DAY_SECS,
        0 <= now < DAY_SECS,
    ensures
        window_holds(start, stop, now) <==> wrap_day(now - start) < wrap_day(stop - start),
{
}

/// The window means local time: it holds at a UTC time exactly if the local clock then shows a
/// time between start and stop.
pub proof fn law_window_is_local(start: int, stop: int, utc_offset_hours: int, now_utc: int)
    requires
        0 <= start < DAY_SECS,
        0 <= stop < DAY_SECS,
        0 <= now_utc < DAY_SECS,
    ensures
        local_window_holds(start, stop, utc_offset_hours, now_utc) <==> window_holds(
            start,
            stop,
            wrap_day(now_utc + utc_offset_hours * 3600),
        ),
{
    let k = utc_offset_hours * 3600;
    let a = wrap_day(start - k);
    let b = wrap_day(stop - k);
    let l = wrap_day(now_utc + k);
    lemma_window_round_the_clock(a, b, now_utc);
    lemma_window_round_the_clock(start, stop, l);
    lemma_wrap_inside(start - k, now_utc);
    lemma_wrap_inside(now_utc + k, -start);
    assert(wrap_day(now_utc - a) == wrap_day(l - start));
    lemma_wrap_inside(start - k, b);
    lemma_wrap_inside(stop - k, k - start);
    assert(wrap_day(b - a) == wrap_day(stop - start));
}

/// Exchanging start and stop of a window that is not empty turns it inside out: every time of
/// day lies in exactly one of the two.
pub proof fn law_window_complement(start: int, stop: int, utc_offset_hours: int, now_utc: int)
    requires
        0 <= start < DAY_SECS,
        0 <= stop < DAY_SECS,
        start != stop,
    ensures
        local_window_holds(start, stop, utc_offset_hours, now_utc) != local_window_holds(
            stop,
            start,
            utc_offset_hours,
            now_utc,
        ),
{
    let k = utc_offset_hours * 3600;
    lemma_wrap_inside(start - k, k);
    lemma_wrap_inside(stop - k, k);
    assert(wrap_day(start - k) != wrap_day(stop - k));
}

/// Shifting a time and shifting it back by as many minutes gives the time again.
pub proof fn law_shift_back(t: int, delta_mins: int)
    requires
        0 <= t < DAY_SECS,
    ensures
        wrap_day(wrap_day(t + delta_mins * 60) - delta_mins * 60) == t,
{
    lemma_wrap_inside(t + delta_mins * 60, -(delta_mins * 60));
}

/// Shifts add up.
pub proof fn law_shifts_add(t: int, a: int, b: int)
    ensures
        wrap_day(wrap_day(t + a * 60) + b * 60) == wrap_day(t + (a + b) * 60),
{
    lemma_wrap_inside(t + a * 60, b * 60);
}

/// A local time converted to UTC reads as the local time again on the local clock.
pub proof fn law_local_utc_round_trip(local: int, utc_offset_hours: int)
    requires
        0 <= local < DAY_SECS,
    ensures
        wrap_day(wrap_day(local - utc_offset_hours * 3600) + utc_offset_hours * 3600) == local,
{
    lemma_wrap_inside(local - utc_offset_hours * 3600, utc_offset_hours * 3600);
}

} // verus!
