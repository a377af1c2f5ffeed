//! Laws on the texts of numbers.

use vstd::prelude::*;

use crate::text::{
    chars_of, dec, digits_number, hex, hex_text, i32_text, law_dec_reads_back, padded, same_text,
    signed_text, text_of, u128_text, u64_text,
};

verus! {

/// Whether a text is the decimal notation of a number: digits that denote it, without a zero too
/// many in front.
pub open spec fn is_decimal(s: Seq<char>, n: int) -> bool {
    &&& s.len() > 0
    &&& forall|i: int| 0 <= i < s.len() ==> '0' <= #[trigger] s[i] <= '9'
    &&& digits_number(s) == n
    &&& s.len() > 1 ==> s[0] != '0'
}

/// Whether a text is the decimal notation of an integer: a minus sign stands in front of a
/// negative one alone.
pub open spec fn is_integer(s: Seq<char>, n: int) -> bool {
    if n < 0 {
        s.len() > 0 && s[0] == '-' && is_decimal(s.skip(1), -n)
    } else {
        is_decimal(s, n)
    }
}

proof fn lemma_dec_first(n: nat)
    requires
        n > 0,
    ensures
        dec(n).len() > 0,
        '1' <= dec(n)[0] <= '9',
    decreases n,
{
    if n >= 10 {
        lemma_dec_first(n / 10);
        assert(dec(n)[0] == dec(n / 10)[0]);
    }
}

/// `dec` gives the decimal notation.
pub proof fn law_dec_is_decimal(n: nat)
    ensures
        is_decimal(dec(n), n as int),
{
    law_dec_reads_back(n);
    if n > 0 {
        lemma_dec_first(n);
    } else {
        assert(dec(0).len() == 1);
    }
}

/// Unsigned numbers are written in decimal notation.
pub proof fn law_u64_text(n: u64, r: String)
    requires
        call_ensures(u64_text, (n,), r),
    ensures
        is_decimal(r@, n as int),
{
    law_dec_is_decimal(n as nat);
}

/// Large unsigned numbers are written in decimal notation.
pub proof fn law_u128_text(n: u128, r: String)
    requires
        call_ensures(u128_text, (n,), r),
    ensures
        is_decimal(r@, n as int),
{
    law_dec_is_decimal(n as nat);
}

/// The notation of an integer is that of its distance from 0, behind a minus sign or not.
pub proof fn law_int_dec_is_integer(n: int)
    ensures
        is_integer(crate::text::int_dec(n), n),
{
    if n < 0 {
        law_dec_is_decimal((-n) as nat);
        assert(crate::text::int_dec(n).skip(1) =~= dec((-n) as nat));
    } else {
        law_dec_is_decimal(n as nat);
    }
}

/// Signed numbers are written in decimal notation.
pub proof fn law_i32_text(n: i32, r: String)
    requires
        call_ensures(i32_text, (n,), r),
    ensures
        is_integer(r@, n as int),
{
    law_int_dec_is_integer(n as int);
}

/// A number with its sign has one in either direction, and is written in decimal notation behind
/// it.
pub proof fn law_signed_text(n: i32, r: String)
    requires
        call_ensures(signed_text, (n,), r),
    ensures
        r@.len() > 0,
        r@[0] == (if n < 0 {
            '-'
        } else {
            '+'
        }),
        is_decimal(
            r@.skip(1),
            if n < 0 {
                -(n as int)
            } else {
                n as int
            },
        ),
{
    law_int_dec_is_integer(n as int);
    if n >= 0 {
        law_dec_is_decimal(n as nat);
        assert(r@.skip(1) =~= dec(n as nat));
    }
}

/// Whether `t` is `s`, set to the right in `width` characters or as many as `s` needs.
pub open spec fn is_right_aligned(t: Seq<char>, s: Seq<char>, width: int, fill: char) -> bool {
    &&& t.len() == (if s.len() < width {
        width
    } else {
        s.len() as int
    })
    &&& t.skip(t.len() - s.len()) == s
    &&& forall|i: int| 0 <= i < t.len() - s.len() ==> #[trigger] t[i] == fill
}

/// A padded text holds the text itself, at the right end, and fill in front of it.
pub proof fn law_pad_left_aligns(s: Seq<char>, width: nat, fill: char)
    ensures
        is_right_aligned(crate::text::pad_left(s, width, fill), s, width as int, fill),
{
    let t = crate::text::pad_left(s, width, fill);
    assert(t.skip(t.len() - s.len()) =~= s);
}

/// Padding sets a text to the right.
pub proof fn law_padded(s: &str, width: usize, fill: char, r: String)
    requires
        call_ensures(padded, (s, width, fill), r),
    ensures
        is_right_aligned(r@, s@, width as int, fill),
{
    law_pad_left_aligns(s@, width as nat, fill);
}

/// The value of an upper-case hexadecimal digit, or -1.
pub open spec fn hex_value(c: char) -> int {
    if '0' <= c <= '9' {
        c as int - 48
    } else if 'A' <= c <= 'F' {
        c as int - 55
    } else {
        -1
    }
}

/// The number that hexadecimal digits denote.
pub open spec fn hex_number(s: Seq<char>) -> int
    decreases s.len(),
{
    if s.len() == 0 {
        0
    } else {
        hex_number(s.drop_last()) * 16 + hex_value(s.last())
    }
}

/// Whether a text is the upper-case hexadecimal notation of a number, without a zero too many in
/// front.
pub open spec fn is_hexadecimal(s: Seq<char>, n: int) -> bool {
    &&& s.len() > 0
    &&& forall|i: int| 0 <= i < s.len() ==> hex_value(#[trigger] s[i]) >= 0
    &&& hex_number(s) == n
    &&& s.len() > 1 ==> s[0] != '0'
}

proof fn lemma_hex_first(n: nat)
    requires
        n > 0,
    ensures
        hex(n).len() > 0,
        hex(n)[0] != '0',
    decreases n,
{
    if n >= 16 {
        lemma_hex_first(n / 16);
        assert(hex(n)[0] == hex(n / 16)[0]);
    }
}

proof fn lemma_hex_reads_back(n: nat)
    ensures
        hex(n).len() > 0,
        forall|i: int| 0 <= i < hex(n).len() ==> hex_value(#[trigger] hex(n)[i]) >= 0,
        hex_number(hex(n)) == n,
    decreases n,
{
    if n < 16 {
        assert(hex(n).drop_last() =~= Seq::empty());
        assert(hex_number(hex(n).drop_last()) == 0);
    } else {
        lemma_hex_reads_back(n / 16);
        assert(hex(n).drop_last() =~= hex(n / 16));
        assert forall|i: int| 0 <= i < hex(n).len() implies hex_value(#[trigger] hex(n)[i]) >= 0 by {
            if i < hex(n / 16).len() {
                assert(hex(n)[i] == hex(n / 16)[i]);
            }
        }
    }
}

/// `hex` gives the hexadecimal notation.
pub proof fn law_hex_is_hexadecimal(n: nat)
    ensures
        is_hexadecimal(hex(n), n as int),
{
    lemma_hex_reads_back(n);
    if n > 0 {
        lemma_hex_first(n);
    } else {
        assert(hex(0).len() == 1);
    }
}

/// Numbers are written in hexadecimal notation.
pub proof fn law_hex_text(n: u64, r: String)
    requires
        call_ensures(hex_text, (n,), r),
    ensures
        is_hexadecimal(r@, n as int),
{
    law_hex_is_hexadecimal(n as nat);
}

/// The characters of a text make the text again, and any part of them that part.
pub proof fn law_characters(s: &str, chars: Vec<char>, from: usize, to: usize, r: String)
    requires
        call_ensures(chars_of, (s,), chars),
        call_ensures(text_of, (&chars, from, to), r),
        from <= to <= s@.len(),
    ensures
        r@ == s@.subrange(from as int, to as int),
{
}

/// Texts are the same exactly if they have the same characters in the same places.
pub proof fn law_same_text(a: &str, b: &str, r: bool)
    requires
        call_ensures(same_text, (a, b), r),
    ensures
        r <==> a@.len() == b@.len() && forall|i: int| 0 <= i < a@.len() ==> a@[i] == b@[i],
{
    if a@.len() == b@.len() && forall|i: int| 0 <= i < a@.len() ==> a@[i] == b@[i] {
        assert(a@ =~= b@);
    }
}

} // verus!
