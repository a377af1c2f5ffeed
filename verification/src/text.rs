//! Plain text pieces: decimal and hexadecimal numbers, padding.

use vstd::prelude::*;
use vstd::string::*;

verus! {

/// `String::push` appends one character to the end of the string and changes nothing else.
pub assume_specification[ String::push ](s: &mut String, c: char)
    ensures
        final(s)@ == old(s)@.push(c),
;

/// The character that stands for the decimal digit `d`.
pub open spec fn digit(d: nat) -> char {
    (48 + d) as char
}

/// The decimal digits of `n`, most significant first, without leading zeros.
pub open spec fn dec(n: nat) -> Seq<char>
    decreases n,
{
    if n < 10 {
        seq![digit(n)]
    } else {
        dec(n / 10).push(digit(n % 10))
    }
}

/// Decimal notation of an integer, with a minus sign in front of a negative one.
pub open spec fn int_dec(n: int) -> Seq<char> {
    if n < 0 {
        seq!['-'] + dec((-n) as nat)
    } else {
        dec(n as nat)
    }
}

/// Decimal notation with an explicit sign in either direction.
pub open spec fn signed_dec(n: int) -> Seq<char> {
    if n < 0 {
        int_dec(n)
    } else {
        seq!['+'] + dec(n as nat)
    }
}

/// `s`, filled up on the left with `fill` to at least `width` characters.
pub open spec fn pad_left(s: Seq<char>, width: nat, fill: char) -> Seq<char> {
    if s.len() < width {
        Seq::new((width - s.len()) as nat, |i: int| fill) + s
    } else {
        s
    }
}

/// The character that stands for the hexadecimal digit `d`, in upper case.
pub open spec fn hex_digit(d: nat) -> char {
    if d < 10 {
        (48 + d) as char
    } else {
        (55 + d) as char
    }
}

/// The hexadecimal digits of `n`, most significant first, without leading zeros.
pub open spec fn hex(n: nat) -> Seq<char>
    decreases n,
{
    if n < 16 {
        seq![hex_digit(n)]
    } else {
        hex(n / 16).push(hex_digit(n % 16))
    }
}

fn digit_of(d: u128) -> (c: char)
    requires
        d < 10,
    ensures
        c == digit(d as nat),
{
    match d {
        0 => '0',
        1 => '1',
        2 => '2',
        3 => '3',
        4 => '4',
        5 => '5',
        6 => '6',
        7 => '7',
        8 => '8',
        _ => '9',
    }
}

fn push_dec(out: &mut String, n: u128)
    ensures
        final(out)@ == old(out)@ + dec(n as nat),
    decreases n,
{
    if n >= 10 {
        push_dec(out, n / 10);
    }
    out.push(digit_of(n % 10));
    proof {
        if n < 10 {
            assert(out@ =~= old(out)@ + dec(n as nat));
        } else {
            assert(out@ =~= old(out)@ + dec(n as nat));
        }
    }
}

/// Decimal text of an unsigned number.
pub fn u64_text(n: u64) -> (r: String)
    ensures
        r@ == dec(n as nat),
{
    u128_text(n as u128)
}

/// Decimal text of a large unsigned number.
pub fn u128_text(n: u128) -> (r: String)
    ensures
        r@ == dec(n as nat),
{
    let mut out = String::new();
    push_dec(&mut out, n);
    proof {
        assert(out@ =~= dec(n as nat));
    }
    out
}

/// Decimal text of a signed number.
pub fn i32_text(n: i32) -> (r: String)
    ensures
        r@ == int_dec(n as int),
{
    if n < 0 {
        let mut out = String::new();
        out.push('-');
        push_dec(&mut out, (-(n as i64)) as u128);
        proof {
            assert(out@ =~= int_dec(n as int));
        }
        out
    } else {
        u64_text(n as u64)
    }
}

/// Decimal text of a signed number that always carries its sign.
pub fn signed_text(n: i32) -> (r: String)
    ensures
        r@ == signed_dec(n as int),
{
    if n < 0 {
        i32_text(n)
    } else {
        let mut out = String::new();
        out.push('+');
        push_dec(&mut out, n as u128);
        proof {
            assert(out@ =~= signed_dec(n as int));
        }
        out
    }
}

/// `s`, filled up on the left with `fill` to at least `width` characters.
pub fn padded(s: &str, width: usize, fill: char) -> (r: String)
    ensures
        r@ == pad_left(s@, width as nat, fill),
{
    let len: usize = s.unicode_len();
    let mut out = String::new();
    if len < width {
        let mut left: usize = width - len;
        while left > 0
            invariant
                len == s@.len(),
                len < width,
                left <= width - len,
                out@ == Seq::new((width - len - left) as nat, |i: int| fill),
            decreases left,
        {
            out.push(fill);
            left = left - 1;
            proof {
                assert(out@ =~= Seq::new((width - len - left) as nat, |i: int| fill));
            }
        }
    }
    out.append(s);
    proof {
        assert(out@ =~= pad_left(s@, width as nat, fill));
    }
    out
}

fn hex_digit_of(d: u64) -> (c: char)
    requires
        d < 16,
    ensures
        c == hex_digit(d as nat),
{
    if d < 10 {
        digit_of(d as u128)
    } else if d == 10 {
        'A'
    } else if d == 11 {
        'B'
    } else if d == 12 {
        'C'
    } else if d == 13 {
        'D'
    } else if d == 14 {
        'E'
    } else {
        'F'
    }
}

fn push_hex(out: &mut String, n: u64)
    ensures
        final(out)@ == old(out)@ + hex(n as nat),
    decreases n,
{
    if n >= 16 {
        push_hex(out, n / 16);
    }
    out.push(hex_digit_of(n % 16));
    proof {
        assert(out@ =~= old(out)@ + hex(n as nat));
    }
}

/// Upper-case hexadecimal text of an unsigned number.
pub fn hex_text(n: u64) -> (r: String)
    ensures
        r@ == hex(n as nat),
{
    let mut out = String::new();
    push_hex(&mut out, n);
    proof {
        assert(out@ =~= hex(n as nat));
    }
    out
}

/// The characters of a text.
pub fn chars_of(s: &str) -> (r: Vec<char>)
    ensures
        r@ == s@,
{
    let mut out: Vec<char> = Vec::new();
    for c in it: s.chars()
        invariant
            it.seq() == s@,
            out@ == s@.take(it.index()),
    {
        out.push(c);
        proof {
            assert(s@.take(it.index() + 1) =~= s@.take(it.index()).push(c));
        }
    }
    proof {
        assert(out@ =~= s@);
    }
    out
}

/// The characters from `from` up to but not including `to`, as a text.
pub fn text_of(chars: &Vec<char>, from: usize, to: usize) -> (r: String)
    requires
        from <= to <= chars.len(),
    ensures
        r@ == chars@.subrange(from as int, to as int),
{
    let mut out = String::new();
    let mut i: usize = from;
    while i < to
        invariant
            from <= i <= to <= chars.len(),
            out@ == chars@.subrange(from as int, i as int),
        decreases to - i,
    {
        out.push(chars[i]);
        proof {
            assert(chars@.subrange(from as int, i + 1) =~= chars@.subrange(from as int, i as int).push(
                chars@[i as int],
            ));
        }
        i = i + 1;
    }
    out
}

/// Whether two texts are the same.
pub fn same_text(a: &str, b: &str) -> (r: bool)
    ensures
        r == (a@ == b@),
{
    a.to_owned() == b.to_owned()
}

/// The number that decimal digits denote.
pub open spec fn digits_number(s: Seq<char>) -> int
    decreases s.len(),
{
    if s.len() == 0 {
        0
    } else {
        digits_number(s.drop_last()) * 10 + (s.last() as int - 48)
    }
}

/// Decimal notation consists of digits and denotes the number it was made from.
pub proof fn law_dec_reads_back(n: nat)
    ensures
        dec(n).len() > 0,
        forall|i: int| 0 <= i < dec(n).len() ==> '0' <= #[trigger] dec(n)[i] <= '9',
        digits_number(dec(n)) == n,
    decreases n,
{
    if n < 10 {
        assert(dec(n).drop_last() =~= Seq::empty());
        assert(digits_number(dec(n).drop_last()) == 0);
    } else {
        law_dec_reads_back(n / 10);
        assert(dec(n).drop_last() =~= dec(n / 10));
    }
}

/// Zeros in front change nothing of the number that digits denote.
pub proof fn law_zeros_in_front(zeros: nat, s: Seq<char>)
    ensures
        digits_number(Seq::new(zeros, |i: int| '0') + s) == digits_number(s),
    decreases zeros + s.len(),
{
    let z = Seq::new(zeros, |i: int| '0');
    let t = z + s;
    if s.len() > 0 {
        law_zeros_in_front(zeros, s.drop_last());
        assert(t.drop_last() =~= z + s.drop_last());
        assert(t.last() == s.last());
    } else if zeros > 0 {
        let fewer = (zeros - 1) as nat;
        law_zeros_in_front(fewer, s);
        assert(t.drop_last() =~= Seq::new(fewer, |i: int| '0') + s);
        assert(t.last() == '0');
    } else {
        assert(t =~= s);
    }
}

} // verus!
