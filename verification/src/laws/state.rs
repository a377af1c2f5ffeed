//! Laws on the state of the logger and its configuration.

use vstd::prelude::*;
use vstd::string::*;

use crate::clock::TimeOfDay;
use crate::logger::config::{
    digits_value, is_digit, number_value, parse_hhmm, Config, HhmmError, NumberError,
};
use crate::logger::state::{logged, AppState, MqttSignal};
use crate::text::digits_number;

verus! {

/// Whether two states are set to the same.
pub open spec fn same_settings(a: AppState, b: AppState) -> bool {
    &&& a.interval_secs == b.interval_secs
    &&& a.window_start_local@ == b.window_start_local@
    &&& a.window_stop_local@ == b.window_stop_local@
    &&& a.utc_offset_hours == b.utc_offset_hours
    &&& a.exposure == b.exposure
    &&& a.gain == b.gain
    &&& a.stack_secs == b.stack_secs
    &&& a.quality == b.quality
    &&& a.gain_ceiling == b.gain_ceiling
    &&& a.framesize == b.framesize
}

/// Whether two states have seen the same captures and files, and go by the same directory.
pub open spec fn same_record(a: AppState, b: AppState) -> bool {
    &&& a.last_capture_at == b.last_capture_at
    &&& a.last_capture_sz == b.last_capture_sz
    &&& a.files_today == b.files_today
    &&& a.log_dir@ == b.log_dir@
}

/// Whether two logs have the same lines.
pub open spec fn same_lines(a: Seq<String>, b: Seq<String>) -> bool {
    a.len() == b.len() && forall|i: int| 0 <= i < a.len() ==> (#[trigger] a[i])@ == b[i]@
}

/// Whether a log has one line more at its end. Of a full one, of 30 lines, the first is gone.
pub open spec fn line_added(before: Seq<String>, after: Seq<String>, line: Seq<char>) -> bool {
    let gone: int = if before.len() < 30 {
        0
    } else {
        1
    };
    &&& after.len() == before.len() + 1 - gone
    &&& after.last()@ == line
    &&& forall|i: int| 0 <= i < after.len() - 1 ==> (#[trigger] after[i])@ == before[i + gone]@
}

/// What the log of a state says of its lines.
pub proof fn law_logged_adds_line(before: AppState, after: AppState, line: Seq<char>)
    requires
        after.log() == logged(before.log(), line),
    ensures
        line_added(before.log_lines@, after.log_lines@, line),
{
    let a = after.log();
    let b = before.log();
    assert(a.len() == after.log_lines@.len());
    assert(b.len() == before.log_lines@.len());
    let gone: int = if b.len() < 30 {
        0
    } else {
        1
    };
    assert(a.last() == line);
    assert(after.log_lines@.last()@ == a[a.len() - 1]);
    assert forall|i: int| 0 <= i < after.log_lines@.len() - 1 implies (
    #[trigger] after.log_lines@[i])@ == before.log_lines@[i + gone]@ by {
        assert(a[i] == after.log_lines@[i]@);
        assert(b[i + gone] == before.log_lines@[i + gone]@);
    }
}

/// Equal logs have the same lines.
pub proof fn law_log_has_lines(before: AppState, after: AppState)
    requires
        after.log() == before.log(),
    ensures
        same_lines(after.log_lines@, before.log_lines@),
{
    assert(after.log().len() == after.log_lines@.len());
    assert(before.log().len() == before.log_lines@.len());
    assert forall|i: int| 0 <= i < after.log_lines@.len() implies (
    #[trigger] after.log_lines@[i])@ == before.log_lines@[i]@ by {
        assert(after.log()[i] == after.log_lines@[i]@);
        assert(before.log()[i] == before.log_lines@[i]@);
    }
}

/// A logger starts set as configured, unconnected, with the files of today and an empty log.
pub proof fn law_new_state(
    cfg: Config,
    start: TimeOfDay,
    stop: TimeOfDay,
    files_today: u32,
    r: AppState,
)
    requires
        call_ensures(AppState::new, (&cfg, start, stop, files_today), r),
    ensures
        r.interval_secs == cfg.interval,
        r.window_start_local@ == start@,
        r.window_stop_local@ == stop@,
        r.utc_offset_hours == cfg.utc_offset_hours,
        r.exposure == cfg.exposure,
        r.gain == cfg.gain,
        r.stack_secs == cfg.stack_secs,
        r.quality == cfg.quality,
        r.gain_ceiling == cfg.gain_ceiling,
        r.framesize == cfg.framesize,
        !r.mqtt_connected,
        r.last_capture_at is None,
        r.last_capture_sz == 0,
        r.files_today == files_today,
        r.next_capture_at is None,
        r.log_lines@.len() == 0,
        r.log_dir@ == cfg.log_dir@,
{
    assert(r.log().len() == r.log_lines@.len());
}

/// Logging adds the line and changes nothing else.
pub proof fn law_push_log(s: &mut AppState, line: String)
    requires
        call_ensures(AppState::push_log, (s, line), ()),
    ensures
        line_added(old(s).log_lines@, final(s).log_lines@, line@),
        same_settings(*final(s), *old(s)),
        same_record(*final(s), *old(s)),
        final(s).mqtt_connected == old(s).mqtt_connected,
        final(s).next_capture_at == old(s).next_capture_at,
{
    law_logged_adds_line(*old(s), *final(s), line@);
}

/// The logger counts as connected from the broker's consent until the connection is closed or
/// fails; after a failure two seconds pass.
pub proof fn law_on_mqtt(s: &mut AppState, signal: MqttSignal, wait: Option<u64>)
    requires
        call_ensures(AppState::on_mqtt, (s, signal), wait),
    ensures
        signal is ConnAck ==> final(s).mqtt_connected,
        signal is Disconnect || signal is Error ==> !final(s).mqtt_connected,
        signal is Other ==> final(s).mqtt_connected == old(s).mqtt_connected,
        signal is Error <==> wait is Some,
        wait matches Some(secs) ==> secs == 2,
        same_settings(*final(s), *old(s)),
        same_record(*final(s), *old(s)),
        same_lines(final(s).log_lines@, old(s).log_lines@),
        final(s).next_capture_at == old(s).next_capture_at,
{
    let t = AppState { mqtt_connected: final(s).mqtt_connected, ..*old(s) };
    assert(t.log() == old(s).log());
    law_log_has_lines(*old(s), *final(s));
}

/// The user and password are those of the configuration, if a user is named.
pub proof fn law_credentials(cfg: Config, r: Option<(&str, &str)>)
    requires
        call_ensures(Config::credentials, (&cfg,), r),
    ensures
        r is Some <==> cfg.mqtt_user@.len() > 0,
        r matches Some(login) ==> login.0@ == cfg.mqtt_user@ && login.1@ == cfg.mqtt_pass@,
{
}

/// What is left of a number without a plus sign in front.
pub open spec fn without_plus(s: Seq<char>) -> Seq<char> {
    if s.len() > 1 && s[0] == '+' {
        s.skip(1)
    } else {
        s
    }
}

/// Whether a text consists of digits, at least one.
pub open spec fn all_digits(s: Seq<char>) -> bool {
    s.len() > 0 && forall|i: int| 0 <= i < s.len() ==> '0' <= #[trigger] s[i] <= '9'
}

/// Whether a text denotes a number of 32 bits.
pub open spec fn denotes_number(s: Seq<char>) -> bool {
    all_digits(without_plus(s)) && digits_number(without_plus(s)) <= 4294967295
}

proof fn lemma_digits_value_last(s: Seq<char>, high: nat)
    requires
        s.len() > 0,
    ensures
        digits_value(s, high) == (match digits_value(s.drop_last(), high) {
            Ok(v) => if !('0' <= s.last() <= '9') {
                Err(NumberError::InvalidDigit)
            } else if v * 10 + (s.last() as int - 48) > 4294967295 {
                Err(NumberError::PosOverflow)
            } else {
                Ok((v * 10 + (s.last() as int - 48)) as nat)
            },
            Err(e) => Err(e),
        }),
    decreases s.len(),
{
    if s.len() == 1 {
        assert(s.drop_last().len() == 0);
        assert(s.drop_first().len() == 0);
        if is_digit(s[0]) {
            let n = high * 10 + (s[0] as nat - 48) as nat;
            if n <= u32::MAX {
                assert(digits_value(s.drop_first(), n) == Ok::<nat, NumberError>(n));
            }
        }
    } else if is_digit(s[0]) {
        let n = high * 10 + (s[0] as nat - 48) as nat;
        if n <= u32::MAX {
            lemma_digits_value_last(s.drop_first(), n);
            assert(s.drop_first().drop_last() =~= s.drop_last().drop_first());
            assert(s.drop_first().last() == s.last());
        }
        assert(s.drop_last()[0] == s[0]);
    } else {
        assert(s.drop_last()[0] == s[0]);
    }
}

proof fn lemma_digits_value(s: Seq<char>)
    ensures
        (match digits_value(s, 0) {
            Ok(v) => v == digits_number(s) && v <= 4294967295 && forall|i: int|
                0 <= i < s.len() ==> '0' <= #[trigger] s[i] <= '9',
            Err(e) => s.len() > 0 && !(all_digits(s) && digits_number(s) <= 4294967295) && (
            all_digits(s) ==> e == NumberError::PosOverflow),
        }),
        all_digits(s) ==> digits_number(s) >= 0,
    decreases s.len(),
{
    if s.len() > 0 {
        let t = s.drop_last();
        lemma_digits_value(t);
        lemma_digits_value_last(s, 0);
        assert(s.last() == s[s.len() - 1]);
        assert forall|i: int| 0 <= i < t.len() implies #[trigger] t[i] == s[i] by {}
        if all_digits(s) {
            assert forall|i: int| 0 <= i < t.len() implies '0' <= #[trigger] t[i] <= '9' by {
                assert(t[i] == s[i]);
            }
            if t.len() == 0 {
                assert(digits_number(t) == 0);
            }
        }
        if digits_value(s, 0) is Ok {
            assert forall|i: int| 0 <= i < s.len() implies '0' <= #[trigger] s[i] <= '9' by {
                if i < t.len() {
                    assert(t[i] == s[i]);
                }
            }
        }
    }
}

proof fn lemma_number_value(s: Seq<char>)
    ensures
        (match number_value(s) {
            Ok(v) => denotes_number(s) && v == digits_number(without_plus(s)),
            Err(e) => !denotes_number(s) && (e == NumberError::Empty <==> s.len() == 0) && (
            all_digits(without_plus(s)) ==> e == NumberError::PosOverflow),
        }),
{
    lemma_digits_value(without_plus(s));
    if s.len() > 1 && s[0] == '+' {
        assert(s.drop_first() =~= s.skip(1));
    }
    lemma_not_empty(without_plus(s), 0);
}

proof fn lemma_not_empty(s: Seq<char>, high: nat)
    ensures
        digits_value(s, high) != Err::<nat, NumberError>(NumberError::Empty),
    decreases s.len(),
{
    if s.len() > 0 && is_digit(s[0]) {
        lemma_not_empty(s.drop_first(), high * 10 + (s[0] as nat - 48) as nat);
    }
}

/// A text without a colon is no time, and is given back with the error.
pub proof fn law_hhmm_needs_colon(s: &str, r: Result<(u32, u32), HhmmError>)
    requires
        call_ensures(parse_hhmm, (s,), r),
    ensures
        (r is Err && r->Err_0 is NotHhmm) <==> (forall|i: int|
            0 <= i < s@.len() ==> #[trigger] s@[i] != ':'),
        r matches Err(HhmmError::NotHhmm(got)) ==> got@ == s@,
{
    if s@.contains(':') {
        let i = choose|i: int| 0 <= i < s@.len() && s@[i] == ':';
        assert(s@[i] == ':');
    } else {
        assert forall|i: int| 0 <= i < s@.len() implies #[trigger] s@[i] != ':' by {}
    }
}

/// Hour and minute are the numbers in front of the first colon and behind it; where one of them
/// is none, the error says which.
pub proof fn law_hhmm_is_read(s: &str, colon: int, r: Result<(u32, u32), HhmmError>)
    requires
        call_ensures(parse_hhmm, (s,), r),
        0 <= colon < s@.len(),
        s@[colon] == ':',
        forall|i: int| 0 <= i < colon ==> #[trigger] s@[i] != ':',
    ensures
        ({
            let hour = s@.take(colon);
            let minute = s@.skip(colon + 1);
            &&& r is Ok <==> denotes_number(hour) && denotes_number(minute)
            &&& r matches Ok(hm) ==> hm.0 == digits_number(without_plus(hour)) && hm.1
                == digits_number(without_plus(minute))
            &&& (r is Err && r->Err_0 is Hour) <==> !denotes_number(hour)
            &&& r matches Err(HhmmError::Hour(e)) ==> (e == NumberError::Empty <==> hour.len() == 0)
            &&& r matches Err(HhmmError::Hour(e)) ==> all_digits(without_plus(hour)) ==> e
                == NumberError::PosOverflow
            &&& r matches Err(HhmmError::Minute(e)) ==> (e == NumberError::Empty <==> minute.len()
                == 0)
            &&& r matches Err(HhmmError::Minute(e)) ==> all_digits(without_plus(minute)) ==> e
                == NumberError::PosOverflow
        }),
{
    assert(s@.contains(':'));
    s@.index_of_first_ensures(':');
    let i = s@.index_of_first(':')->0;
    if i < colon {
        assert(s@[i] != ':');
    } else if colon < i {
        assert(s@[colon] != ':');
    }
    assert(s@.index_of_first(':') == Some(colon));
    lemma_number_value(s@.take(colon));
    lemma_number_value(s@.skip(colon + 1));
}

proof fn lemma_error_stays(s: Seq<char>, k: int)
    requires
        0 <= k <= s.len(),
        digits_value(s.take(k), 0) is Err,
    ensures
        digits_value(s, 0) == digits_value(s.take(k), 0),
    decreases s.len() - k,
{
    if k == s.len() {
        assert(s.take(k) =~= s);
    } else {
        assert(s.take(k + 1).drop_last() =~= s.take(k));
        lemma_digits_value_last(s.take(k + 1), 0);
        lemma_error_stays(s, k + 1);
    }
}

/// Why a part is no number is said of the first character at which it fails: one that is no digit,
/// or one that makes the number too large.
pub proof fn law_number_errors(s: Seq<char>, k: int)
    requires
        0 <= k < without_plus(s).len(),
        forall|i: int| 0 <= i < k ==> '0' <= #[trigger] without_plus(s)[i] <= '9',
        digits_number(without_plus(s).take(k)) <= 4294967295,
    ensures
        !('0' <= without_plus(s)[k] <= '9') ==> number_value(s) == Err::<nat, NumberError>(
            NumberError::InvalidDigit,
        ),
        '0' <= without_plus(s)[k] <= '9' && digits_number(without_plus(s).take(k)) * 10 + (
        without_plus(s)[k] as int - 48) > 4294967295 ==> number_value(s) == Err::<
            nat,
            NumberError,
        >(NumberError::PosOverflow),
{
    let d = without_plus(s);
    if s.len() > 1 && s[0] == '+' {
        assert(s.drop_first() =~= s.skip(1));
    }
    let p = d.take(k);
    assert forall|i: int| 0 <= i < p.len() implies '0' <= #[trigger] p[i] <= '9' by {
        assert(p[i] == d[i]);
    }
    lemma_digits_value(p);
    let q = d.take(k + 1);
    assert(q.drop_last() =~= p);
    assert(q.last() == d[k]);
    lemma_digits_value_last(q, 0);
    if digits_value(q, 0) is Err {
        lemma_error_stays(d, k + 1);
    }
}

/// The same of a time whose hour is no number.
pub proof fn law_hour_errors(s: &str, colon: int, k: int, r: Result<(u32, u32), HhmmError>)
    requires
        call_ensures(parse_hhmm, (s,), r),
        0 <= colon < s@.len(),
        s@[colon] == ':',
        forall|i: int| 0 <= i < colon ==> #[trigger] s@[i] != ':',
        0 <= k < without_plus(s@.take(colon)).len(),
        forall|i: int| 0 <= i < k ==> '0' <= #[trigger] without_plus(s@.take(colon))[i] <= '9',
        digits_number(without_plus(s@.take(colon)).take(k)) <= 4294967295,
        !('0' <= without_plus(s@.take(colon))[k] <= '9'),
    ensures
        r matches Err(HhmmError::Hour(e)) && e == NumberError::InvalidDigit,
{
    law_hhmm_is_read(s, colon, r);
    law_number_errors(s@.take(colon), k);
    assert(s@.contains(':'));
    s@.index_of_first_ensures(':');
    let i = s@.index_of_first(':')->0;
    if i < colon {
        assert(s@[i] != ':');
    } else if colon < i {
        assert(s@[colon] != ':');
    }
}

/// The message of an error says what is wrong; without a colon it quotes the text.
pub proof fn law_hhmm_messages(error: HhmmError, r: String)
    requires
        call_ensures(HhmmError::message, (&error,), r),
    ensures
        error matches HhmmError::NotHhmm(got) ==> r@ == "expected HH:MM, got: "@ + got@,
        error matches HhmmError::Hour(e) ==> r@ == number_message(e),
        error matches HhmmError::Minute(e) ==> r@ == number_message(e),
{
}

/// What is said of a text that is no number.
pub open spec fn number_message(e: NumberError) -> Seq<char> {
    match e {
        NumberError::Empty => "cannot parse integer from empty string"@,
        NumberError::InvalidDigit => "invalid digit found in string"@,
        NumberError::PosOverflow => "number too large to fit in target type"@,
    }
}

/// The message on a number says what is wrong with it.
pub proof fn law_number_messages(error: NumberError, r: &'static str)
    requires
        call_ensures(NumberError::message, (error,), r),
    ensures
        r@ == number_message(error),
{
}

} // verus!
