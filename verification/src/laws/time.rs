//! Laws on times of day, the capture window and time stamps.

use vstd::arithmetic::div_mod::lemma_fundamental_div_mod_converse;
use vstd::prelude::*;
use vstd::string::*;

use crate::calendar::{day_number, is_date, law_number_has_one_date, Date};
use crate::clock::{
    capture_stamp, clock_stamp, date_stamp, datetime_stamp, in_window_at, in_window_local,
    law_window_is_local, local_time_at, local_time_str, local_to_utc, shift_time, time_of_day,
    TimeOfDay,
};

verus! {

/// There is a full minute exactly for an hour below 24 and a minute below 60.
pub proof fn law_from_hm(hour: u32, min: u32, r: Option<TimeOfDay>)
    requires
        call_ensures(TimeOfDay::from_hm, (hour, min), r),
    ensures
        r is Some <==> hour < 24 && min < 60,
        r matches Some(t) ==> t@ / 3600 == hour && t@ % 3600 == min * 60,
{
}

/// Whether two times are a whole number of days apart.
pub open spec fn days_apart(a: int, b: int) -> bool {
    (a - b) % 86400 == 0
}

/// A shifted time is a time of day, so many minutes on, but for whole days.
pub proof fn law_shift_time(t: TimeOfDay, delta_mins: i64, r: TimeOfDay)
    requires
        call_ensures(shift_time, (t, delta_mins), r),
    ensures
        0 <= r@ < 86400,
        days_apart(r@, t@ + delta_mins * 60),
{
}

/// The local clock is the given number of hours ahead of the UTC time that a local time stands
/// for, but for whole days.
pub proof fn law_local_to_utc(local: TimeOfDay, utc_offset_hours: i32, r: TimeOfDay)
    requires
        call_ensures(local_to_utc, (local, utc_offset_hours), r),
    ensures
        0 <= r@ < 86400,
        days_apart(r@ + utc_offset_hours * 3600, local@),
{
}

/// The time of day is what is left of whole days.
pub proof fn law_time_of_day(unix_secs: i64, r: TimeOfDay)
    requires
        call_ensures(time_of_day, (unix_secs,), r),
    ensures
        0 <= r@ < 86400,
        days_apart(r@, unix_secs as int),
{
}

/// The window holds at the times that the local clock shows from the start up to but not
/// including the stop; where the stop is not behind the start it goes on over midnight, and a
/// window that stops where it starts never holds.
pub proof fn law_in_window_at(
    start: TimeOfDay,
    stop: TimeOfDay,
    utc_offset_hours: i32,
    now: TimeOfDay,
    r: bool,
    shown: int,
)
    requires
        call_ensures(in_window_at, (start, stop, utc_offset_hours, now), r),
        0 <= start@ < 86400,
        0 <= stop@ < 86400,
        0 <= now@ < 86400,
        0 <= shown < 86400,
        days_apart(shown, now@ + utc_offset_hours * 3600),
    ensures
        start@ <= stop@ ==> r == (start@ <= shown && shown < stop@),
        start@ > stop@ ==> r == (start@ <= shown || shown < stop@),
{
    law_window_is_local(start@, stop@, utc_offset_hours as int, now@);
    let m = now@ + utc_offset_hours * 3600;
    assert(shown == m % 86400);
}

/// A window that stops where it starts never holds, and the day-long window but one second holds
/// or the clock shows that second.
pub proof fn law_in_window_local(start: TimeOfDay, stop: TimeOfDay, utc_offset_hours: i32, r: bool)
    requires
        call_ensures(in_window_local, (start, stop, utc_offset_hours), r),
        0 <= start@ < 86400,
        0 <= stop@ < 86400,
    ensures
        start@ == stop@ ==> !r,
        exists|shown: int|
            0 <= shown < 86400 && r == (if start@ <= stop@ {
                start@ <= shown && #[trigger] in_order(shown, stop@)
            } else {
                start@ <= shown || in_order(shown, stop@)
            }),
{
    let now = choose|now: int|
        0 <= now < 86400 && r == #[trigger] crate::clock::local_window_holds(
            start@,
            stop@,
            utc_offset_hours as int,
            now,
        );
    law_window_is_local(start@, stop@, utc_offset_hours as int, now);
    let shown = (now + utc_offset_hours * 3600) % 86400;
    assert(in_order(shown, stop@) == (shown < stop@));
}

/// Whether a time comes before another.
pub open spec fn in_order(a: int, b: int) -> bool {
    a < b
}

/// Whether two characters are the two digits of a number.
pub open spec fn are_digits(tens: char, ones: char, n: int) -> bool {
    &&& '0' <= tens <= '9'
    &&& '0' <= ones <= '9'
    &&& (tens as int - 48) * 10 + (ones as int - 48) == n
}

/// A time is written as two digits of the hour, a colon, two digits of the minute.
pub proof fn law_hhmm(t: TimeOfDay, r: String)
    requires
        call_ensures(TimeOfDay::hhmm, (&t,), r),
        0 <= t@ < 86400,
    ensures
        r@.len() == 5,
        are_digits(r@[0], r@[1], t@ / 3600),
        r@[2] == ':',
        are_digits(r@[3], r@[4], t@ / 60 % 60),
{
}

proof fn lemma_parts_of_day(u: int)
    ensures
        0 <= u % 86400 < 86400,
        u % 86400 / 3600 == u / 3600 % 24,
        u % 86400 / 60 % 60 == u / 60 % 60,
        u % 86400 % 60 == u % 60,
{
    let d = u / 86400;
    let w = u % 86400;
    let h = w / 3600;
    let m = w / 60;
    assert(u == d * 86400 + w);
    lemma_fundamental_div_mod_converse(u, 3600, d * 24 + h, w % 3600);
    lemma_fundamental_div_mod_converse(d * 24 + h, 24, d, h);
    lemma_fundamental_div_mod_converse(u, 60, d * 1440 + m, w % 60);
    lemma_fundamental_div_mod_converse(d * 1440 + m, 60, d * 24 + m / 60, m % 60);
}

/// A clock stamp is written as two digits each of hour, minute and second, and the zone.
pub proof fn law_clock_stamp(unix_secs: i64, r: String)
    requires
        call_ensures(clock_stamp, (unix_secs,), r),
    ensures
        r@.len() == 12,
        are_digits(r@[0], r@[1], unix_secs as int / 3600 % 24),
        r@[2] == ':',
        are_digits(r@[3], r@[4], unix_secs as int / 60 % 60),
        r@[5] == ':',
        are_digits(r@[6], r@[7], unix_secs as int % 60),
        r@.skip(8) == " UTC"@,
{
    reveal_strlit(" UTC");
    lemma_parts_of_day(unix_secs as int);
    assert(r@.skip(8) =~= " UTC"@);
}

/// A date stamp of the years from 0 to 9999 is that of the day on which the second lies: four
/// digits of the year, two of the month, two of the day.
pub proof fn law_date_stamp(unix_secs: i64, date: Date, r: String)
    requires
        call_ensures(date_stamp, (unix_secs,), r),
        is_date(date),
        day_number(date) == unix_secs as int / 86400,
        0 <= date.year <= 9999,
    ensures
        r@.len() == 10,
        are_digits(r@[0], r@[1], date.year / 100),
        are_digits(r@[2], r@[3], date.year % 100),
        r@[4] == '-',
        are_digits(r@[5], r@[6], date.month),
        r@[7] == '-',
        are_digits(r@[8], r@[9], date.day),
{
    law_number_has_one_date(unix_secs as int / 86400);
    lemma_four_digits(date.year);
    let y = crate::clock::year_text(date.year);
    assert(r@[0] == y[0] && r@[1] == y[1] && r@[2] == y[2] && r@[3] == y[3]);
}

proof fn lemma_four_digits(year: int)
    requires
        0 <= year <= 9999,
    ensures
        crate::clock::year_text(year).len() == 4,
        are_digits(
            crate::clock::year_text(year)[0],
            crate::clock::year_text(year)[1],
            year / 100,
        ),
        are_digits(
            crate::clock::year_text(year)[2],
            crate::clock::year_text(year)[3],
            year % 100,
        ),
{
    let n = year as nat;
    if n >= 10 {
        assert(crate::text::dec(n) == crate::text::dec(n / 10).push(crate::text::digit(n % 10)));
    }
    if n >= 100 {
        assert(crate::text::dec(n / 10) == crate::text::dec(n / 100).push(
            crate::text::digit(n / 10 % 10),
        ));
    }
    if n >= 1000 {
        assert(crate::text::dec(n / 100) == crate::text::dec(n / 1000).push(
            crate::text::digit(n / 100 % 10),
        ));
        assert(crate::text::dec(n / 1000) == seq![crate::text::digit(n / 1000)]);
    }
}

/// The stamp of date and time is the date stamp and the clock stamp of the same second.
pub proof fn law_datetime_stamp(unix_secs: i64, r: String, date: String, clock: String)
    requires
        call_ensures(datetime_stamp, (unix_secs,), r),
        call_ensures(date_stamp, (unix_secs,), date),
        call_ensures(clock_stamp, (unix_secs,), clock),
    ensures
        r@ == date@ + " "@ + clock@,
{
    assert(r@ =~= date@ + " "@ + clock@);
}

/// The stamp of a capture is the date stamp and the clock stamp of the same second, without what
/// stands between the numbers.
pub proof fn law_capture_stamp(unix_secs: i64, r: String, date: String, clock: String)
    requires
        call_ensures(capture_stamp, (unix_secs,), r),
        call_ensures(date_stamp, (unix_secs,), date),
        call_ensures(clock_stamp, (unix_secs,), clock),
    ensures
        date@.len() >= 6,
        r@ == date@.take(date@.len() - 6) + date@.subrange(date@.len() - 5, date@.len() - 3)
            + date@.skip(date@.len() - 2) + seq!['T'] + clock@.subrange(0, 2) + clock@.subrange(
            3,
            5,
        ) + clock@.subrange(6, 8) + seq!['Z'],
{
    let y = crate::clock::year_text(crate::clock::utc_date(unix_secs as int).year);
    assert(date@.len() == y.len() + 6);
    assert(r@ =~= date@.take(date@.len() - 6) + date@.subrange(date@.len() - 5, date@.len() - 3)
        + date@.skip(date@.len() - 2) + seq!['T'] + clock@.subrange(0, 2) + clock@.subrange(3, 5)
        + clock@.subrange(6, 8) + seq!['Z']);
}

/// Local time is what a clock in UTC shows, so many hours later.
pub proof fn law_local_time_at(
    unix_secs: i64,
    utc_offset_hours: i32,
    r: String,
    later: i64,
    shown: String,
)
    requires
        call_ensures(local_time_at, (unix_secs, utc_offset_hours), r),
        later == unix_secs + utc_offset_hours * 3600,
        call_ensures(datetime_stamp, (later,), shown),
    ensures
        r@ + " UTC"@ == shown@,
{
    assert(r@ + " UTC"@ =~= shown@);
}

/// Local time can be told wherever the clock is not ahead of UTC.
pub proof fn law_local_time_str(utc_offset_hours: i32, r: Option<String>)
    requires
        call_ensures(local_time_str, (utc_offset_hours,), r),
        utc_offset_hours <= 0,
    ensures
        r is Some,
{
}

/// Every second of the day is a time, and is told back.
pub proof fn law_from_secs(secs: u32, r: Option<TimeOfDay>, t: TimeOfDay, told: u32)
    requires
        call_ensures(TimeOfDay::from_secs, (secs,), r),
        call_ensures(TimeOfDay::secs, (&t,), told),
    ensures
        r is Some <==> secs < 86400,
        told < 86400,
        r == Some(t) ==> told == secs,
{
}

} // verus!
