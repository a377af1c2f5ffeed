//! The Gregorian calendar, extended to all years.

use vstd::prelude::*;

verus! {

/// A day of the calendar. The year before the year 1 is the year 0.
pub struct Date {
    pub year: int,
    pub month: int,
    pub day: int,
}

/// Whether a year has 366 days.
pub open spec fn is_leap(year: int) -> bool {
    year % 4 == 0 && (year % 100 != 0 || year % 400 == 0)
}

/// How many days a month has.
pub open spec fn days_in_month(year: int, month: int) -> int {
    if month == 2 {
        if is_leap(year) {
            29
        } else {
            28
        }
    } else if month == 4 || month == 6 || month == 9 || month == 11 {
        30
    } else {
        31
    }
}

/// Whether the calendar has such a day.
pub open spec fn is_date(date: Date) -> bool {
    1 <= date.month <= 12 && 1 <= date.day <= days_in_month(date.year, date.month)
}

/// How many days of a year lie before a month.
pub open spec fn days_before_month(year: int, month: int) -> int
    decreases month,
{
    if month <= 1 {
        0
    } else {
        days_before_month(year, month - 1) + days_in_month(year, month - 1)
    }
}

/// How many days lie between the beginning of the year 1 and that of another: 365 for each year,
/// and one for each leap year.
pub open spec fn days_before_year(year: int) -> int {
    365 * (year - 1) + (year - 1) / 4 - (year - 1) / 100 + (year - 1) / 400
}

/// How many days after the first of January 1970 a day lies.
pub open spec fn day_number(date: Date) -> int {
    days_before_year(date.year) - days_before_year(1970) + days_before_month(
        date.year,
        date.month,
    ) + date.day - 1
}

/// The day that lies so many days after the first of January 1970.
pub open spec fn date_of(number: int) -> Date {
    choose|date: Date| is_date(date) && #[trigger] day_number(date) == number
}

/// Whether a day comes before another.
pub open spec fn is_before(a: Date, b: Date) -> bool {
    a.year < b.year || (a.year == b.year && (a.month < b.month || (a.month == b.month && a.day
        < b.day)))
}

proof fn lemma_multiples_passed(n: int)
    ensures
        n / 4 == (n - 1) / 4 + (if n % 4 == 0 {
            1int
        } else {
            0
        }),
        n / 100 == (n - 1) / 100 + (if n % 100 == 0 {
            1int
        } else {
            0
        }),
        n / 400 == (n - 1) / 400 + (if n % 400 == 0 {
            1int
        } else {
            0
        }),
        n % 400 == 0 ==> n % 100 == 0,
        n % 100 == 0 ==> n % 4 == 0,
{
}

proof fn lemma_months_of_year(year: int)
    ensures
        days_before_month(year, 12) + 31 == (if is_leap(year) {
            366int
        } else {
            365
        }),
{
    let feb = days_in_month(year, 2);
    assert(days_before_month(year, 1) == 0);
    assert(days_before_month(year, 2) == 31);
    assert(days_before_month(year, 3) == 31 + feb);
    assert(days_before_month(year, 4) == 62 + feb);
    assert(days_before_month(year, 5) == 92 + feb);
    assert(days_before_month(year, 6) == 123 + feb);
    assert(days_before_month(year, 7) == 153 + feb);
    assert(days_before_month(year, 8) == 184 + feb);
    assert(days_before_month(year, 9) == 215 + feb);
    assert(days_before_month(year, 10) == 245 + feb);
    assert(days_before_month(year, 11) == 276 + feb);
}

proof fn lemma_year_length(year: int)
    ensures
        days_before_year(year + 1) == days_before_year(year) + (if is_leap(year) {
            366int
        } else {
            365
        }),
        days_before_month(year, 12) + 31 == (if is_leap(year) {
            366int
        } else {
            365
        }),
{
    lemma_multiples_passed(year);
    lemma_months_of_year(year);
}

proof fn lemma_years_ascend(a: int, b: int)
    requires
        a <= b,
    ensures
        days_before_year(a) <= days_before_year(b),
    decreases b - a,
{
    if a < b {
        lemma_years_ascend(a, b - 1);
        lemma_year_length(b - 1);
    }
}

proof fn lemma_months_ascend(year: int, a: int, b: int)
    requires
        1 <= a <= b,
    ensures
        0 <= days_before_month(year, a) <= days_before_month(year, b),
    decreases b,
{
    if a < b {
        lemma_months_ascend(year, a, b - 1);
    } else if a > 1 {
        lemma_months_ascend(year, a - 1, a - 1);
    }
}

/// Days are numbered in the order in which they come.
pub proof fn law_numbers_follow_dates(a: Date, b: Date)
    requires
        is_date(a),
        is_date(b),
        is_before(a, b),
    ensures
        day_number(a) < day_number(b),
{
    if a.year < b.year {
        lemma_years_ascend(a.year + 1, b.year);
        lemma_year_length(a.year);
        lemma_months_ascend(a.year, a.month, 12);
        if a.month < 12 {
            lemma_months_ascend(a.year, a.month + 1, 12);
        }
        lemma_months_ascend(b.year, 1, b.month);
    } else if a.month < b.month {
        lemma_months_ascend(a.year, a.month + 1, b.month);
    }
}

proof fn lemma_day_after(date: Date) -> (r: Date)
    requires
        is_date(date),
    ensures
        is_date(r),
        day_number(r) == day_number(date) + 1,
{
    if date.day < days_in_month(date.year, date.month) {
        Date { day: date.day + 1, ..date }
    } else if date.month < 12 {
        Date { month: date.month + 1, day: 1, ..date }
    } else {
        lemma_year_length(date.year);
        Date { year: date.year + 1, month: 1, day: 1 }
    }
}

proof fn lemma_day_before(date: Date) -> (r: Date)
    requires
        is_date(date),
    ensures
        is_date(r),
        day_number(r) == day_number(date) - 1,
{
    if date.day > 1 {
        Date { day: date.day - 1, ..date }
    } else if date.month > 1 {
        Date { month: date.month - 1, day: days_in_month(date.year, date.month - 1), ..date }
    } else {
        lemma_year_length(date.year - 1);
        Date { year: date.year - 1, month: 12, day: 31 }
    }
}

proof fn lemma_day_exists(number: int) -> (r: Date)
    ensures
        is_date(r),
        day_number(r) == number,
    decreases
            if number < 0 {
                -number
            } else {
                number
            },
{
    if number > 0 {
        let eve = lemma_day_exists(number - 1);
        lemma_day_after(eve)
    } else if number < 0 {
        let next = lemma_day_exists(number + 1);
        lemma_day_before(next)
    } else {
        Date { year: 1970, month: 1, day: 1 }
    }
}

/// Every number belongs to a day of the calendar, and to one only.
pub proof fn law_number_has_one_date(number: int)
    ensures
        is_date(date_of(number)),
        day_number(date_of(number)) == number,
        forall|date: Date|
            is_date(date) && #[trigger] day_number(date) == number ==> date == date_of(number),
{
    let d = lemma_day_exists(number);
    assert(is_date(d) && day_number(d) == number);
    let c = date_of(number);
    assert forall|date: Date| is_date(date) && #[trigger] day_number(date) == number implies date
        == c by {
        if is_before(date, c) {
            law_numbers_follow_dates(date, c);
        } else if is_before(c, date) {
            law_numbers_follow_dates(c, date);
        }
    }
}

/// The days from 1970 to 9999 have years of four digits.
pub proof fn law_year_of_four_digits(number: int)
    requires
        0 <= number <= 2932896,
    ensures
        1970 <= date_of(number).year <= 9999,
{
    law_number_has_one_date(number);
    let d = date_of(number);
    let first = Date { year: 1970, month: 1, day: 1 };
    let last = Date { year: 9999, month: 12, day: 31 };
    lemma_year_length(9999);
    assert(day_number(last) == 2932896);
    assert(day_number(first) == 0) by {
        assert(days_before_month(1970, 1) == 0);
    }
    if d.year < 1970 {
        law_numbers_follow_dates(d, first);
    } else if d.year > 9999 {
        law_numbers_follow_dates(last, d);
    }
}

} // verus!
