//! Laws on the directory of the photos and on uploads.

use vstd::prelude::*;
use vstd::string::*;

use super::state::{
    law_log_has_lines, law_logged_adds_line, line_added, same_lines, same_record, same_settings,
};
use super::text::{
    hex_value, is_decimal, is_right_aligned, law_dec_is_decimal, law_pad_left_aligns,
};
use crate::clock::date_stamp;
use crate::logger::state::AppState;
use crate::logger::storage::{count_jpgs, is_jpg, jpg_count, names_view, DirCheck, DirFault};
use crate::logger::upload::{
    alnum_only, begin_upload, clean_timestamp, finish_upload, mkdir_failed,
    reject_line, stored_line, write_failed, UploadPlan,
};
use crate::text::{dec, hex, pad_left};

verus! {

/// Whether a name is that of a photo: something, a dot and `jpg`.
pub open spec fn names_photo(s: Seq<char>) -> bool {
    let n = s.len();
    n > 4 && s[n - 4] == '.' && s[n - 3] == 'j' && s[n - 2] == 'p' && s[n - 1] == 'g'
}

proof fn lemma_is_jpg(s: Seq<char>)
    ensures
        is_jpg(s) <==> names_photo(s),
{
    if s.len() > 4 {
        let t = s.skip(s.len() - 4);
        assert(t[0] == s[s.len() - 4] && t[1] == s[s.len() - 3] && t[2] == s[s.len() - 2] && t[3]
            == s[s.len() - 1]);
        if names_photo(s) {
            assert(t =~= seq!['.', 'j', 'p', 'g']);
        }
    }
}

/// An empty directory holds no photo. One file more is one photo more exactly if its name is that
/// of a photo.
pub proof fn law_count_jpgs(names: Vec<String>, n: u32, more: Vec<String>, m: u32)
    requires
        call_ensures(count_jpgs, (&names,), n),
        call_ensures(count_jpgs, (&more,), m),
        more@.len() == names@.len() + 1,
        more@.len() < 0x1_0000_0000,
        forall|i: int| 0 <= i < names@.len() ==> (#[trigger] more@[i])@ == names@[i]@,
    ensures
        names@.len() == 0 ==> n == 0,
        names_photo(more@.last()@) ==> m == n + 1,
        !names_photo(more@.last()@) ==> m == n,
{
    let a = names_view(names@);
    let b = names_view(more@);
    lemma_is_jpg(more@.last()@);
    lemma_count_bound(b);
    lemma_count_bound(a);
    assert(b.drop_last() =~= a) by {
        assert forall|i: int| 0 <= i < a.len() implies b.drop_last()[i] == a[i] by {
            assert(more@[i]@ == names@[i]@);
        }
    }
    assert(b.last() == more@.last()@);
}

proof fn lemma_count_bound(names: Seq<Seq<char>>)
    ensures
        jpg_count(names) <= names.len(),
    decreases names.len(),
{
    if names.len() > 0 {
        lemma_count_bound(names.drop_last());
    }
}

/// The check of a directory goes on, or ends with the fault, as each step does.
pub proof fn law_dir_check(check: DirCheck, ok: bool, r: DirCheck)
    requires
        call_ensures(DirCheck::next, (check, ok), r),
    ensures
        check is Exists && ok ==> r is IsDir,
        check is Exists && !ok ==> r is Create,
        check is Create && ok ==> r is IsDir,
        check is Create && !ok ==> r == DirCheck::Failed(DirFault::CannotCreate),
        check is IsDir && ok ==> r is Write,
        check is IsDir && !ok ==> r == DirCheck::Failed(DirFault::NotADirectory),
        check is Write && ok ==> r is Remove,
        check is Write && !ok ==> r == DirCheck::Failed(DirFault::NotWritable),
        check is Remove ==> r is Passed,
        check is Passed || check is Failed ==> r == check,
{
}

/// The message on a directory says what is wrong and names it.
pub proof fn law_dir_fault(fault: DirFault, dir: &str, r: String)
    requires
        call_ensures(DirFault::message, (fault, dir), r),
    ensures
        fault is CannotCreate ==> r@ == "Cannot create log_dir: "@ + dir@,
        fault is NotADirectory ==> r@ == "log_dir is not a directory: "@ + dir@,
        fault is NotWritable ==> r@ == "log_dir not writable: "@ + dir@,
{
}

/// Whether a character is an ASCII letter or digit.
pub open spec fn is_plain(c: char) -> bool {
    '0' <= c <= '9' || 'A' <= c <= 'Z' || 'a' <= c <= 'z'
}

/// An empty time stamp leaves nothing for a file name. One character more is kept exactly if it
/// is an ASCII letter or digit and fewer than 15 are kept.
pub proof fn law_clean_timestamp(s: &str, r: String, more: &str, longer: String, c: char)
    requires
        call_ensures(clean_timestamp, (s,), r),
        call_ensures(clean_timestamp, (more,), longer),
        more@ == s@.push(c),
    ensures
        r@.len() <= 15,
        s@.len() == 0 ==> r@.len() == 0,
        is_plain(c) && r@.len() < 15 ==> longer@ == r@.push(c),
        !is_plain(c) || r@.len() == 15 ==> longer@ == r@,
{
    let a = alnum_only(s@);
    assert(more@.drop_last() =~= s@);
    assert(more@.last() == c);
    let b = alnum_only(more@);
    assert(is_plain(c) ==> b == a.push(c));
    assert(!is_plain(c) ==> b == a);
    if is_plain(c) {
        if a.len() < 15 {
            assert(longer@ =~= r@.push(c));
        } else if a.len() == 15 {
            assert(b.take(15) =~= a);
        } else {
            assert(b.take(15) =~= a.take(15));
        }
    }
}

/// An upload is taken exactly if it begins with the bytes FF D8, whatever follows them.
pub proof fn law_upload_is_taken(
    s: &mut AppState,
    body: &[u8],
    timestamp: Option<&str>,
    unix_secs: i64,
    r: Result<UploadPlan, u16>,
)
    requires
        call_ensures(begin_upload, (s, body, timestamp, unix_secs), r),
    ensures
        r is Ok <==> body@.len() >= 2 && body@[0] == 0xFF && body@[1] == 0xD8,
        r matches Err(status) ==> status == 400,
        same_settings(*final(s), *old(s)),
        same_record(*final(s), *old(s)),
        final(s).mqtt_connected == old(s).mqtt_connected,
        final(s).next_capture_at == old(s).next_capture_at,
        r is Ok ==> same_lines(final(s).log_lines@, old(s).log_lines@),
{
    assert(final(s).settings().start == final(s).window_start_local@);
    if r is Ok {
        law_log_has_lines(*old(s), *final(s));
    }
}

/// Whether an upload is taken does not depend on what follows its first two bytes.
pub proof fn law_upload_goes_by_first_bytes(
    s: &mut AppState,
    body: &[u8],
    timestamp: Option<&str>,
    unix_secs: i64,
    r: Result<UploadPlan, u16>,
    s2: &mut AppState,
    longer: &[u8],
    timestamp2: Option<&str>,
    unix_secs2: i64,
    r2: Result<UploadPlan, u16>,
    more: Seq<u8>,
)
    requires
        call_ensures(begin_upload, (s, body, timestamp, unix_secs), r),
        call_ensures(begin_upload, (s2, longer, timestamp2, unix_secs2), r2),
        body@.len() >= 2,
        longer@ == body@ + more,
    ensures
        r is Ok <==> r2 is Ok,
{
    assert(longer@[0] == body@[0] && longer@[1] == body@[1]);
}

/// A photo is filed under the date of its second, by its cleaned time stamp and the number of
/// photos of the day in at least three digits.
pub proof fn law_upload_is_filed(
    s: &mut AppState,
    body: &[u8],
    timestamp: Option<&str>,
    unix_secs: i64,
    r: Result<UploadPlan, u16>,
    date: String,
    given: &str,
    clean: String,
) -> (counter: Seq<char>)
    requires
        call_ensures(begin_upload, (s, body, timestamp, unix_secs), r),
        r is Ok,
        call_ensures(date_stamp, (unix_secs,), date),
        given@ == (match timestamp {
            Some(t) => t@,
            None => "unknown"@,
        }),
        call_ensures(clean_timestamp, (given,), clean),
    ensures
        r->Ok_0.timestamp@ == given@,
        r->Ok_0.dir@ == date@,
        r->Ok_0.filename@ == clean@ + "_"@ + counter + ".jpg"@,
        is_right_aligned(counter, dec(old(s).files_today as nat), 3, '0'),
        is_decimal(dec(old(s).files_today as nat), old(s).files_today as int),
{
    let n = old(s).files_today as nat;
    law_dec_is_decimal(n);
    law_pad_left_aligns(dec(n), 3, '0');
    let counter = pad_left(dec(n), 3, '0');
    assert(r->Ok_0.filename@ =~= clean@ + "_"@ + counter + ".jpg"@);
    counter
}

/// Whether a text is a byte in two hexadecimal digits.
pub open spec fn is_hex_byte(s: Seq<char>, n: int) -> bool {
    &&& s.len() == 2
    &&& hex_value(s[0]) >= 0
    &&& hex_value(s[1]) >= 0
    &&& hex_value(s[0]) * 16 + hex_value(s[1]) == n
}

proof fn lemma_hex_byte(n: nat)
    requires
        n < 256,
    ensures
        is_hex_byte(pad_left(hex(n), 2, '0'), n as int),
{
    if n >= 16 {
        assert(hex(n) == hex(n / 16).push(crate::text::hex_digit(n % 16)));
        assert(hex(n / 16) == seq![crate::text::hex_digit(n / 16)]);
    }
}

/// An upload that is refused is logged with its length and its first two bytes, of two
/// hexadecimal digits each; a byte that is not there counts as 0.
pub proof fn law_upload_is_refused(
    s: &mut AppState,
    body: &[u8],
    timestamp: Option<&str>,
    unix_secs: i64,
    r: Result<UploadPlan, u16>,
) -> (d: (Seq<char>, Seq<char>, Seq<char>))
    requires
        call_ensures(begin_upload, (s, body, timestamp, unix_secs), r),
        r is Err,
    ensures
        is_decimal(d.0, body@.len() as int),
        is_hex_byte(
            d.1,
            if body@.len() > 0 {
                body@[0] as int
            } else {
                0
            },
        ),
        is_hex_byte(
            d.2,
            if body@.len() > 1 {
                body@[1] as int
            } else {
                0
            },
        ),
        line_added(
            old(s).log_lines@,
            final(s).log_lines@,
            "⚠ upload rejected: bad JPEG magic ("@ + d.0 + " B, first bytes: "@ + d.1 + " "@ + d.2
                + ")"@,
        ),
{
    let a: nat = if body@.len() > 0 {
        body@[0] as nat
    } else {
        0
    };
    let b: nat = if body@.len() > 1 {
        body@[1] as nat
    } else {
        0
    };
    law_dec_is_decimal(body@.len());
    lemma_hex_byte(a);
    lemma_hex_byte(b);
    let d = (dec(body@.len()), pad_left(hex(a), 2, '0'), pad_left(hex(b), 2, '0'));
    let line = "⚠ upload rejected: bad JPEG magic ("@ + d.0 + " B, first bytes: "@ + d.1 + " "@
        + d.2 + ")"@;
    assert(reject_line(body@) == line);
    law_logged_adds_line(*old(s), *final(s), line);
    d
}

/// A stored photo is answered with 200, counted, and remembered with its second and size. The log
/// says whether it ends with the bytes FF D9.
pub proof fn law_upload_is_stored(
    s: &mut AppState,
    plan: UploadPlan,
    body: &[u8],
    unix_secs: i64,
    r: u16,
) -> (size: Seq<char>)
    requires
        call_ensures(finish_upload, (s, &plan, body, unix_secs), r),
    ensures
        r == 200,
        final(s).files_today == old(s).files_today + 1,
        final(s).last_capture_at == Some(unix_secs),
        final(s).last_capture_sz == body@.len(),
        is_decimal(size, body@.len() as int),
        ({
            let n = body@.len() as int;
            let whole = n >= 4 && body@[n - 2] == 0xFF && body@[n - 1] == 0xD9;
            &&& whole ==> line_added(
                old(s).log_lines@,
                final(s).log_lines@,
                plan.timestamp@ + " saved "@ + plan.filename@ + "  ("@ + size + " B)"@,
            )
            &&& !whole ==> line_added(
                old(s).log_lines@,
                final(s).log_lines@,
                plan.timestamp@ + " ⚠ "@ + plan.filename@ + " ("@ + size
                    + " B) — truncated JPEG (FB-OVF on device, reduce gain or raise quality#)"@,
            )
        }),
        same_settings(*final(s), *old(s)),
        final(s).log_dir@ == old(s).log_dir@,
        final(s).mqtt_connected == old(s).mqtt_connected,
        final(s).next_capture_at == old(s).next_capture_at,
{
    law_dec_is_decimal(body@.len());
    law_logged_adds_line(
        *old(s),
        *final(s),
        stored_line(plan.timestamp@, plan.filename@, body@),
    );
    assert(final(s).settings().start == final(s).window_start_local@);
    dec(body@.len())
}

/// A directory or file that could not be written is answered with 500 and logged with the reason.
pub proof fn law_upload_fails(
    s: &mut AppState,
    dir: &str,
    error: &str,
    r: u16,
    s2: &mut AppState,
    path: &str,
    error2: &str,
    r2: u16,
)
    requires
        call_ensures(mkdir_failed, (s, dir, error), r),
        call_ensures(write_failed, (s2, path, error2), r2),
    ensures
        r == 500,
        r2 == 500,
        line_added(
            old(s).log_lines@,
            final(s).log_lines@,
            "⚠ upload: mkdir "@ + dir@ + " failed: "@ + error@,
        ),
        line_added(
            old(s2).log_lines@,
            final(s2).log_lines@,
            "⚠ upload: write "@ + path@ + " failed: "@ + error2@,
        ),
        same_settings(*final(s), *old(s)),
        same_record(*final(s), *old(s)),
        same_settings(*final(s2), *old(s2)),
        same_record(*final(s2), *old(s2)),
{
    law_logged_adds_line(*old(s), *final(s), "⚠ upload: mkdir "@ + dir@ + " failed: "@ + error@);
    law_logged_adds_line(
        *old(s2),
        *final(s2),
        "⚠ upload: write "@ + path@ + " failed: "@ + error2@,
    );
    assert(final(s).settings().start == final(s).window_start_local@);
    assert(final(s2).settings().start == final(s2).window_start_local@);
}

} // verus!
