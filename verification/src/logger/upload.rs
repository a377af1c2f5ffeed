//! Photos that a device uploads.

use vstd::prelude::*;
use vstd::string::*;

use super::state::{logged, AppState};
use super::storage::{is_jpg, jpg_count};
use crate::clock::{date_stamp, date_text, is_compact_stamp, MAX_UNIX_SECS, MIN_UNIX_SECS};
use crate::text::{chars_of, dec, digits_number, hex, hex_text, law_dec_reads_back, law_zeros_in_front, pad_left, padded, u64_text};

verus! {

/// HTTP status of an upload that was stored.
pub const OK: u16 = 200;

/// HTTP status of an upload that is no photo.
pub const BAD_REQUEST: u16 = 400;

/// HTTP status of an upload that could not be stored.
pub const INTERNAL_SERVER_ERROR: u16 = 500;

/// How many characters of a time stamp a file name takes.
pub const STAMP_CHARS: usize = 15;

/// Where an upload is to be stored.
#[derive(Debug)]
pub struct UploadPlan {
    /// The time stamp as the device gave it.
    pub timestamp: String,
    /// The directory of the day, inside the log directory.
    pub dir: String,
    pub filename: String,
}

/// Whether the bytes begin as a JPEG image does.
pub open spec fn jpeg_start(body: Seq<u8>) -> bool {
    body.len() >= 2 && body[0] == 0xFF && body[1] == 0xD8
}

/// Whether the bytes end as a JPEG image does.
pub open spec fn jpeg_end(body: Seq<u8>) -> bool {
    body.len() >= 4 && body[body.len() - 2] == 0xFF && body[body.len() - 1] == 0xD9
}

/// The byte at a place, or 0 behind the end.
pub open spec fn byte_or_zero(body: Seq<u8>, i: int) -> u8 {
    if i < body.len() {
        body[i]
    } else {
        0
    }
}

/// The log line of an upload that is no photo.
pub open spec fn reject_line(body: Seq<u8>) -> Seq<char> {
    "⚠ upload rejected: bad JPEG magic ("@ + dec(body.len()) + " B, first bytes: "@ + pad_left(
        hex(byte_or_zero(body, 0) as nat),
        2,
        '0',
    ) + " "@ + pad_left(hex(byte_or_zero(body, 1) as nat), 2, '0') + ")"@
}

fn byte_at(body: &[u8], i: usize) -> (r: u8)
    ensures
        r == byte_or_zero(body@, i as int),
{
    if i < body.len() {
        body[i]
    } else {
        0
    }
}

fn hex_byte(b: u8) -> (r: String)
    ensures
        r@ == pad_left(hex(b as nat), 2, '0'),
{
    padded(hex_text(b as u64).as_str(), 2, '0')
}

fn reject_log(body: &[u8]) -> (r: String)
    ensures
        r@ == reject_line(body@),
{
    let mut t = "⚠ upload rejected: bad JPEG magic (".to_owned();
    t.append(u64_text(body.len() as u64).as_str());
    t.append(" B, first bytes: ");
    t.append(hex_byte(byte_at(body, 0)).as_str());
    t.append(" ");
    t.append(hex_byte(byte_at(body, 1)).as_str());
    t.append(")");
    t
}

/// Whether a character is an ASCII letter or digit.
pub open spec fn is_alnum(c: char) -> bool {
    '0' <= c <= '9' || 'A' <= c <= 'Z' || 'a' <= c <= 'z'
}

/// The ASCII letters and digits of a text, in order.
pub open spec fn alnum_only(s: Seq<char>) -> Seq<char>
    decreases s.len(),
{
    if s.len() == 0 {
        Seq::empty()
    } else if is_alnum(s.last()) {
        alnum_only(s.drop_last()).push(s.last())
    } else {
        alnum_only(s.drop_last())
    }
}

/// At most the first `n` characters.
pub open spec fn at_most(s: Seq<char>, n: int) -> Seq<char> {
    if s.len() > n {
        s.take(n)
    } else {
        s
    }
}

/// The part of a time stamp that goes into a file name: its first ASCII letters and digits.
pub open spec fn clean_stamp(s: Seq<char>) -> Seq<char> {
    at_most(alnum_only(s), STAMP_CHARS as int)
}

proof fn lemma_alnum_grows(s: Seq<char>, i: int, j: int)
    requires
        0 <= i <= j <= s.len(),
    ensures
        alnum_only(s.take(i)).len() <= alnum_only(s.take(j)).len(),
        alnum_only(s.take(j)).take(alnum_only(s.take(i)).len() as int) == alnum_only(s.take(i)),
    decreases j - i,
{
    if i == j {
        assert(alnum_only(s.take(j)).take(alnum_only(s.take(i)).len() as int) =~= alnum_only(
            s.take(i),
        ));
    } else {
        lemma_alnum_grows(s, i, j - 1);
        assert(s.take(j).drop_last() =~= s.take(j - 1));
        let a = alnum_only(s.take(i));
        let b = alnum_only(s.take(j - 1));
        let c = alnum_only(s.take(j));
        assert(c.take(a.len() as int) =~= b.take(a.len() as int));
    }
}

/// The part of a time stamp that goes into a file name.
pub fn clean_timestamp(timestamp: &str) -> (r: String)
    ensures
        r@ == clean_stamp(timestamp@),
{
    let chars = chars_of(timestamp);
    let mut out = String::new();
    let mut kept: usize = 0;
    let mut i: usize = 0;
    while i < chars.len() && kept < STAMP_CHARS
        invariant
            chars@ == timestamp@,
            i <= chars.len(),
            kept == out@.len(),
            kept <= STAMP_CHARS,
            out@ == alnum_only(timestamp@.take(i as int)),
        decreases chars.len() - i,
    {
        let c: char = chars[i];
        proof {
            assert(timestamp@.take(i + 1).drop_last() =~= timestamp@.take(i as int));
        }
        if ('0' <= c && c <= '9') || ('A' <= c && c <= 'Z') || ('a' <= c && c <= 'z') {
            out.push(c);
            kept = kept + 1;
        }
        i = i + 1;
    }
    proof {
        lemma_alnum_grows(timestamp@, i as int, timestamp@.len() as int);
        assert(timestamp@.take(timestamp@.len() as int) =~= timestamp@);
        assert(out@ =~= clean_stamp(timestamp@));
    }
    out
}

/// The name of the file for the photo with the given time stamp, when `n` photos of the day are
/// stored.
pub open spec fn file_name(timestamp: Seq<char>, n: nat) -> Seq<char> {
    clean_stamp(timestamp) + "_"@ + pad_left(dec(n), 3, '0') + ".jpg"@
}

fn filename_for(timestamp: &str, n: u32) -> (r: String)
    ensures
        r@ == file_name(timestamp@, n as nat),
{
    let mut t = clean_timestamp(timestamp);
    t.append("_");
    t.append(padded(u64_text(n as u64).as_str(), 3, '0').as_str());
    t.append(".jpg");
    t
}

/// The time stamp that an upload goes by: that of the device, if it gave a readable one.
pub open spec fn stamp_or_unknown(timestamp: Option<&str>) -> Seq<char> {
    match timestamp {
        Some(t) => t@,
        None => "unknown"@,
    }
}

/// Takes an upload in hand at a second since the Unix epoch. One that is no photo is logged and
/// refused; for a photo the place to store it is returned.
pub fn begin_upload(
    s: &mut AppState,
    body: &[u8],
    timestamp: Option<&str>,
    unix_secs: i64,
) -> (r: Result<UploadPlan, u16>)
    requires
        MIN_UNIX_SECS <= unix_secs <= MAX_UNIX_SECS,
    ensures
        (match r {
            Ok(plan) => {
                &&& jpeg_start(body@)
                &&& plan.timestamp@ == stamp_or_unknown(timestamp)
                &&& plan.dir@ == date_text(unix_secs as int)
                &&& plan.filename@ == file_name(
                    stamp_or_unknown(timestamp),
                    old(s).files_today as nat,
                )
                &&& final(s).log() == old(s).log()
            },
            Err(status) => {
                &&& !jpeg_start(body@)
                &&& status == BAD_REQUEST
                &&& final(s).log() == logged(old(s).log(), reject_line(body@))
            },
        }),
        final(s).settings() == old(s).settings(),
        final(s).same_but_log(*old(s)),
{
    if body.len() < 2 || body[0] != 0xFF || body[1] != 0xD8 {
        s.push_log(reject_log(body));
        return Err(BAD_REQUEST);
    }
    let stamp: &str = match timestamp {
        Some(t) => t,
        None => "unknown",
    };
    Ok(
        UploadPlan {
            timestamp: stamp.to_owned(),
            dir: date_stamp(unix_secs),
            filename: filename_for(stamp, s.files_today),
        },
    )
}

/// Logs that the directory of the day could not be made, and returns the status to answer.
pub fn mkdir_failed(s: &mut AppState, dir: &str, error: &str) -> (status: u16)
    ensures
        status == INTERNAL_SERVER_ERROR,
        final(s).log() == logged(
            old(s).log(),
            "⚠ upload: mkdir "@ + dir@ + " failed: "@ + error@,
        ),
        final(s).settings() == old(s).settings(),
        final(s).same_but_log(*old(s)),
{
    let mut t = "⚠ upload: mkdir ".to_owned();
    t.append(dir);
    t.append(" failed: ");
    t.append(error);
    s.push_log(t);
    INTERNAL_SERVER_ERROR
}

/// Logs that the photo could not be written, and returns the status to answer.
pub fn write_failed(s: &mut AppState, path: &str, error: &str) -> (status: u16)
    ensures
        status == INTERNAL_SERVER_ERROR,
        final(s).log() == logged(
            old(s).log(),
            "⚠ upload: write "@ + path@ + " failed: "@ + error@,
        ),
        final(s).settings() == old(s).settings(),
        final(s).same_but_log(*old(s)),
{
    let mut t = "⚠ upload: write ".to_owned();
    t.append(path);
    t.append(" failed: ");
    t.append(error);
    s.push_log(t);
    INTERNAL_SERVER_ERROR
}

/// The log line of an upload that was stored.
pub open spec fn stored_line(timestamp: Seq<char>, filename: Seq<char>, body: Seq<u8>) -> Seq<char> {
    if jpeg_end(body) {
        timestamp + " saved "@ + filename + "  ("@ + dec(body.len()) + " B)"@
    } else {
        timestamp + " ⚠ "@ + filename + " ("@ + dec(body.len())
            + " B) — truncated JPEG (FB-OVF on device, reduce gain or raise quality#)"@
    }
}

/// Takes note of an upload that was stored at a second since the Unix epoch, and returns the
/// status to answer.
pub fn finish_upload(s: &mut AppState, plan: &UploadPlan, body: &[u8], unix_secs: i64) -> (status:
    u16)
    requires
        old(s).files_today < u32::MAX,
        MIN_UNIX_SECS <= unix_secs <= MAX_UNIX_SECS,
    ensures
        final(s).wf(),
        status == OK,
        final(s).last_capture_at == Some(unix_secs),
        final(s).last_capture_sz == body@.len(),
        final(s).files_today == old(s).files_today + 1,
        final(s).log() == logged(
            old(s).log(),
            stored_line(plan.timestamp@, plan.filename@, body@),
        ),
        final(s).settings() == old(s).settings(),
        final(s).same_but_log(
            (AppState {
                last_capture_at: final(s).last_capture_at,
                last_capture_sz: final(s).last_capture_sz,
                files_today: final(s).files_today,
                ..*old(s)
            }),
        ),
{
    let n: usize = body.len();
    let whole = n >= 4 && body[n - 2] == 0xFF && body[n - 1] == 0xD9;
    s.last_capture_at = Some(unix_secs);
    s.last_capture_sz = n;
    s.files_today = s.files_today + 1;
    let mut t = plan.timestamp.clone();
    if whole {
        t.append(" saved ");
        t.append(plan.filename.as_str());
        t.append("  (");
        t.append(u64_text(n as u64).as_str());
        t.append(" B)");
    } else {
        t.append(" ⚠ ");
        t.append(plan.filename.as_str());
        t.append(" (");
        t.append(u64_text(n as u64).as_str());
        t.append(" B) — truncated JPEG (FB-OVF on device, reduce gain or raise quality#)");
    }
    s.push_log(t);
    OK
}

proof fn lemma_alnum_only(s: Seq<char>)
    ensures
        forall|i: int| 0 <= i < alnum_only(s).len() ==> is_alnum(#[trigger] alnum_only(s)[i]),
    decreases s.len(),
{
    if s.len() > 0 {
        lemma_alnum_only(s.drop_last());
        let before = alnum_only(s.drop_last());
        assert forall|i: int| 0 <= i < alnum_only(s).len() implies is_alnum(
            #[trigger] alnum_only(s)[i],
        ) by {
            if i < before.len() {
                assert(alnum_only(s)[i] == before[i]);
            }
        }
    }
}

proof fn lemma_all_alnum(s: Seq<char>)
    requires
        forall|i: int| 0 <= i < s.len() ==> is_alnum(#[trigger] s[i]),
    ensures
        alnum_only(s) == s,
    decreases s.len(),
{
    if s.len() > 0 {
        assert(forall|i: int|
            0 <= i < s.drop_last().len() ==> s.drop_last()[i] == #[trigger] s[i]);
        lemma_all_alnum(s.drop_last());
        assert(s.drop_last().push(s.last()) =~= s);
    } else {
        assert(alnum_only(s) =~= s);
    }
}

/// The counter in a file name, as digits.
pub open spec fn counter(n: nat) -> Seq<char> {
    pad_left(dec(n), 3, '0')
}

proof fn lemma_counter(n: nat)
    ensures
        counter(n).len() >= 3,
        forall|i: int| 0 <= i < counter(n).len() ==> '0' <= #[trigger] counter(n)[i] <= '9',
        digits_number(counter(n)) == n,
{
    law_dec_reads_back(n);
    if dec(n).len() < 3 {
        law_zeros_in_front((3 - dec(n).len()) as nat, dec(n));
    }
}

proof fn lemma_file_name_parts(timestamp: Seq<char>, n: nat)
    ensures
        file_name(timestamp, n).len() == clean_stamp(timestamp).len() + 1 + counter(n).len() + 4,
        forall|i: int|
            0 <= i < clean_stamp(timestamp).len() ==> {
                &&& #[trigger] file_name(timestamp, n)[i] == clean_stamp(timestamp)[i]
                &&& is_alnum(file_name(timestamp, n)[i])
            },
        file_name(timestamp, n)[clean_stamp(timestamp).len() as int] == '_',
        file_name(timestamp, n).subrange(
            clean_stamp(timestamp).len() as int + 1,
            file_name(timestamp, n).len() - 4,
        ) == counter(n),
        file_name(timestamp, n).skip(file_name(timestamp, n).len() - 4) == ".jpg"@,
{
    reveal_strlit("_");
    reveal_strlit(".jpg");
    lemma_alnum_only(timestamp);
    lemma_counter(n);
    let name = file_name(timestamp, n);
    let c = clean_stamp(timestamp);
    assert(name.subrange(c.len() as int + 1, name.len() - 4) =~= counter(n));
    assert(name.skip(name.len() - 4) =~= ".jpg"@);
}

/// A file name holds letters, digits, one underscore and the extension alone, whatever time
/// stamp came with the upload, so that the file lies in the directory of the day.
pub proof fn law_file_name_is_plain(timestamp: Seq<char>, n: nat)
    ensures
        clean_stamp(timestamp).len() <= STAMP_CHARS,
        forall|i: int|
            0 <= i < file_name(timestamp, n).len() - 4 ==> is_alnum(
                #[trigger] file_name(timestamp, n)[i],
            ) || (i == clean_stamp(timestamp).len() && file_name(timestamp, n)[i] == '_'),
        file_name(timestamp, n).skip(file_name(timestamp, n).len() - 4) == ".jpg"@,
{
    lemma_file_name_parts(timestamp, n);
    lemma_counter(n);
    let name = file_name(timestamp, n);
    let k = clean_stamp(timestamp).len() as int;
    assert forall|i: int| 0 <= i < name.len() - 4 implies is_alnum(#[trigger] name[i]) || (i == k
        && name[i] == '_') by {
        if i > k {
            assert(name[i] == name.subrange(k + 1, name.len() - 4)[i - k - 1]);
        }
    }
}

/// A stored photo is counted among the photos of its directory.
pub proof fn law_stored_photo_is_counted(names: Seq<Seq<char>>, timestamp: Seq<char>, n: nat)
    ensures
        is_jpg(file_name(timestamp, n)),
        jpg_count(names.push(file_name(timestamp, n))) == jpg_count(names) + 1,
{
    lemma_file_name_parts(timestamp, n);
    lemma_counter(n);
    reveal_strlit(".jpg");
    assert(".jpg"@ =~= seq!['.', 'j', 'p', 'g']);
    assert(names.push(file_name(timestamp, n)).drop_last() =~= names);
}

/// Photos that are stored under different counts have different file names, whatever their
/// time stamps.
pub proof fn law_file_names_differ(t1: Seq<char>, n1: nat, t2: Seq<char>, n2: nat)
    requires
        n1 != n2,
    ensures
        file_name(t1, n1) != file_name(t2, n2),
{
    lemma_file_name_parts(t1, n1);
    lemma_file_name_parts(t2, n2);
    lemma_counter(n1);
    lemma_counter(n2);
    if file_name(t1, n1) == file_name(t2, n2) {
        let k1 = clean_stamp(t1).len() as int;
        let k2 = clean_stamp(t2).len() as int;
        let name = file_name(t1, n1);
        if k1 < k2 {
            assert(is_alnum(name[k1]));
        } else if k2 < k1 {
            assert(is_alnum(name[k2]));
        }
        assert(counter(n1) == counter(n2));
    }
}

/// A photo that carries the time stamp of a capture is filed under that time to the second: all
/// of the stamp but its last character.
pub proof fn law_capture_stamp_is_kept(stamp: Seq<char>)
    requires
        is_compact_stamp(stamp),
    ensures
        clean_stamp(stamp) == stamp.take(15),
{
    lemma_all_alnum(stamp);
}

} // verus!
