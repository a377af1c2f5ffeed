//! Configuration of the logger.

use vstd::prelude::*;
use vstd::string::*;

use crate::clock::{hhmm_text, two_digits, DAY_SECS};
use crate::text::{chars_of, digit};

verus! {

/// Quality where the configuration names none.
pub fn default_quality() -> (r: u8)
    ensures
        r == 10,
{
    10
}

/// Gain ceiling where the configuration names none.
pub fn default_gain_ceiling() -> (r: u8)
    ensures
        r == 0,
{
    0
}

/// The flag `flash` where the configuration does not name it.
pub fn default_flash() -> (r: bool)
    ensures
        r,
{
    true
}

/// UTC offset where the configuration names none.
pub fn default_utc_offset() -> (r: i32)
    ensures
        r == 0,
{
    0
}

/// Stacking duration where the configuration names none: a single frame.
pub fn default_stack_secs() -> (r: u32)
    ensures
        r == 0,
{
    0
}

/// Frame size where the configuration names none: SVGA, 800 by 600.
pub fn default_framesize() -> (r: u8)
    ensures
        r == 9,
{
    9
}

/// What the configuration file says.
#[derive(Clone, Debug)]
pub struct Config {
    pub broker: String,
    pub port: u16,
    pub mqtt_user: String,
    pub mqtt_pass: String,
    pub client_id: String,
    pub sensor_id: String,
    /// Seconds between two captures.
    pub interval: u64,
    /// Local time as `HH:MM`.
    pub start_time: String,
    /// Local time as `HH:MM`.
    pub stop_time: String,
    /// -1 for automatic, else 0 to 1200.
    pub exposure: i32,
    /// -1 for automatic, else 0 to 30.
    pub gain: i32,
    /// 1 to 63, lower is better.
    pub quality: u8,
    /// 0 to 6.
    pub gain_ceiling: u8,
    pub flash: bool,
    /// Hours that local time is ahead of UTC.
    pub utc_offset_hours: i32,
    /// 0 for a single frame, 1 to 10 for the stacking duration.
    pub stack_secs: u32,
    /// 9 is SVGA, 13 is UXGA.
    pub framesize: u8,
    pub log_dir: String,
    pub http_port: u16,
}

impl Config {
    /// User and password to log in with, if a user is named.
    pub fn credentials(&self) -> (r: Option<(&str, &str)>)
        ensures
            (match r {
                Some((user, pass)) => self.mqtt_user@.len() > 0 && user@ == self.mqtt_user@ && pass@
                    == self.mqtt_pass@,
                None => self.mqtt_user@.len() == 0,
            }),
    {
        if self.mqtt_user.as_str().is_empty() {
            None
        } else {
            Some((self.mqtt_user.as_str(), self.mqtt_pass.as_str()))
        }
    }
}

/// Why a text is not an unsigned 32-bit number.
#[derive(Clone, Copy, Debug, PartialEq, Eq, Structural)]
pub enum NumberError {
    /// There is no character.
    Empty,
    /// A character is not a digit, or there is a sign alone.
    InvalidDigit,
    /// The number is too large.
    PosOverflow,
}

/// Whether a character is a decimal digit.
pub open spec fn is_digit(c: char) -> bool {
    '0' <= c <= '9'
}

/// Reads decimal digits behind a part that has the value `high`, up to the first character at
/// which the number fails.
pub open spec fn digits_value(s: Seq<char>, high: nat) -> Result<nat, NumberError>
    decreases s.len(),
{
    if s.len() == 0 {
        Ok(high)
    } else if !is_digit(s[0]) {
        Err(NumberError::InvalidDigit)
    } else {
        let n = high * 10 + (s[0] as nat - 48) as nat;
        if n > u32::MAX {
            Err(NumberError::PosOverflow)
        } else {
            digits_value(s.drop_first(), n)
        }
    }
}

/// The unsigned 32-bit number that a text denotes: decimal digits, with a plus sign in front or
/// without.
pub open spec fn number_value(s: Seq<char>) -> Result<nat, NumberError> {
    if s.len() == 0 {
        Err(NumberError::Empty)
    } else if s.len() > 1 && s[0] == '+' {
        digits_value(s.drop_first(), 0)
    } else {
        digits_value(s, 0)
    }
}

fn read_digits(chars: &Vec<char>, from: usize, to: usize) -> (r: Result<u32, NumberError>)
    requires
        from <= to <= chars.len(),
    ensures
        (match r {
            Ok(n) => digits_value(chars@.subrange(from as int, to as int), 0) == Ok::<
                nat,
                NumberError,
            >(n as nat),
            Err(e) => digits_value(chars@.subrange(from as int, to as int), 0) == Err::<
                nat,
                NumberError,
            >(e),
        }),
{
    let mut n: u32 = 0;
    let mut i: usize = from;
    while i < to
        invariant
            from <= i <= to <= chars.len(),
            digits_value(chars@.subrange(from as int, to as int), 0) == digits_value(
                chars@.subrange(i as int, to as int),
                n as nat,
            ),
        decreases to - i,
    {
        let c: char = chars[i];
        proof {
            assert(chars@.subrange(i as int, to as int)[0] == c);
            assert(chars@.subrange(i as int, to as int).drop_first() =~= chars@.subrange(
                i + 1,
                to as int,
            ));
        }
        if c < '0' || c > '9' {
            return Err(NumberError::InvalidDigit);
        }
        let d: u64 = c as u64 - 48;
        let next: u64 = n as u64 * 10 + d;
        if next > u32::MAX as u64 {
            return Err(NumberError::PosOverflow);
        }
        n = next as u32;
        i = i + 1;
    }
    Ok(n)
}

fn read_number(chars: &Vec<char>, from: usize, to: usize) -> (r: Result<u32, NumberError>)
    requires
        from <= to <= chars.len(),
    ensures
        (match r {
            Ok(n) => number_value(chars@.subrange(from as int, to as int)) == Ok::<nat, NumberError>(
                n as nat,
            ),
            Err(e) => number_value(chars@.subrange(from as int, to as int)) == Err::<
                nat,
                NumberError,
            >(e),
        }),
{
    if from == to {
        return Err(NumberError::Empty);
    }
    if to - from > 1 && chars[from] == '+' {
        proof {
            assert(chars@.subrange(from as int, to as int).drop_first() =~= chars@.subrange(
                from + 1,
                to as int,
            ));
        }
        read_digits(chars, from + 1, to)
    } else {
        read_digits(chars, from, to)
    }
}

/// Why a text is not a time as `HH:MM`.
#[derive(Debug)]
pub enum HhmmError {
    /// There is no colon in the text, which is given.
    NotHhmm(String),
    /// What stands in front of the first colon is not a number.
    Hour(NumberError),
    /// What stands behind the first colon is not a number.
    Minute(NumberError),
}

impl NumberError {
    /// What is said of the error.
    pub open spec fn text(self) -> Seq<char> {
        match self {
            NumberError::Empty => "cannot parse integer from empty string"@,
            NumberError::InvalidDigit => "invalid digit found in string"@,
            NumberError::PosOverflow => "number too large to fit in target type"@,
        }
    }

    /// What is said of the error.
    pub fn message(self) -> (r: &'static str)
        ensures
            r@ == self.text(),
    {
        match self {
            NumberError::Empty => "cannot parse integer from empty string",
            NumberError::InvalidDigit => "invalid digit found in string",
            NumberError::PosOverflow => "number too large to fit in target type",
        }
    }
}

impl HhmmError {
    /// What is said of the error.
    pub open spec fn text(self) -> Seq<char> {
        match self {
            HhmmError::NotHhmm(got) => "expected HH:MM, got: "@ + got@,
            HhmmError::Hour(e) => e.text(),
            HhmmError::Minute(e) => e.text(),
        }
    }

    /// What is said of the error.
    pub fn message(&self) -> (r: String)
        ensures
            r@ == self.text(),
    {
        match self {
            HhmmError::NotHhmm(got) => {
                let mut t = "expected HH:MM, got: ".to_owned();
                t.append(got.as_str());
                t
            },
            HhmmError::Hour(e) => e.message().to_owned(),
            HhmmError::Minute(e) => e.message().to_owned(),
        }
    }
}

/// What stands in front of the first colon.
pub open spec fn hour_part(s: Seq<char>) -> Seq<char> {
    s.take(s.index_of_first(':')->0)
}

/// What stands behind the first colon.
pub open spec fn minute_part(s: Seq<char>) -> Seq<char> {
    s.skip(s.index_of_first(':')->0 + 1)
}

/// Reads `HH:MM` into hour and minute. Both are numbers; that they make a time of day is not
/// asked.
pub fn parse_hhmm(s: &str) -> (r: Result<(u32, u32), HhmmError>)
    ensures
        (match r {
            Ok((h, m)) => s@.contains(':') && number_value(hour_part(s@)) == Ok::<nat, NumberError>(
                h as nat,
            ) && number_value(minute_part(s@)) == Ok::<nat, NumberError>(m as nat),
            Err(HhmmError::NotHhmm(got)) => !s@.contains(':') && got@ == s@,
            Err(HhmmError::Hour(e)) => s@.contains(':') && number_value(hour_part(s@)) == Err::<
                nat,
                NumberError,
            >(e),
            Err(HhmmError::Minute(e)) => s@.contains(':') && number_value(hour_part(s@)) is Ok
                && number_value(minute_part(s@)) == Err::<nat, NumberError>(e),
        }),
{
    let chars = chars_of(s);
    let mut i: usize = 0;
    while i < chars.len() && chars[i] != ':'
        invariant
            chars@ == s@,
            i <= chars.len(),
            forall|j: int| 0 <= j < i ==> s@[j] != ':',
        decreases chars.len() - i,
    {
        i = i + 1;
    }
    if i == chars.len() {
        return Err(HhmmError::NotHhmm(s.to_owned()));
    }
    proof {
        assert(s@[i as int] == ':');
        s@.index_of_first_ensures(':');
        assert(s@.index_of_first(':') == Some(i as int));
        assert(hour_part(s@) =~= chars@.subrange(0, i as int));
        assert(minute_part(s@) =~= chars@.subrange(i + 1, chars.len() as int));
    }
    let h: u32 = match read_number(&chars, 0, i) {
        Ok(h) => h,
        Err(e) => return Err(HhmmError::Hour(e)),
    };
    let m: u32 = match read_number(&chars, i + 1, chars.len()) {
        Ok(m) => m,
        Err(e) => return Err(HhmmError::Minute(e)),
    };
    Ok((h, m))
}

proof fn lemma_two_digits_value(n: int)
    requires
        0 <= n < 100,
    ensures
        number_value(two_digits(n)) == Ok::<nat, NumberError>(n as nat),
{
    let s = two_digits(n);
    let rest = s.drop_first();
    assert(s[0] == digit((n / 10) as nat));
    assert(rest[0] == digit((n % 10) as nat));
    assert(rest.drop_first().len() == 0);
    assert(digits_value(rest.drop_first(), n as nat) == Ok::<nat, NumberError>(n as nat));
    assert(digits_value(rest, (n / 10) as nat) == Ok::<nat, NumberError>(n as nat));
}

/// A time of day written as `HH:MM` reads back as its hour and minute.
pub proof fn law_hhmm_reads_back(secs: int)
    requires
        0 <= secs < DAY_SECS,
    ensures
        hhmm_text(secs).contains(':'),
        number_value(hour_part(hhmm_text(secs))) == Ok::<nat, NumberError>((secs / 3600) as nat),
        number_value(minute_part(hhmm_text(secs))) == Ok::<nat, NumberError>(
            (secs / 60 % 60) as nat,
        ),
{
    let s = hhmm_text(secs);
    assert(s[2] == ':');
    assert(s[0] != ':' && s[1] != ':');
    s.index_of_first_ensures(':');
    assert(s.index_of_first(':') == Some(2int));
    assert(hour_part(s) =~= two_digits(secs / 3600));
    assert(minute_part(s) =~= two_digits(secs / 60 % 60));
    lemma_two_digits_value(secs / 3600);
    lemma_two_digits_value(secs / 60 % 60);
}

} // verus!
