//! JSON texts of flat objects.

use vstd::prelude::*;
use vstd::string::*;

use crate::text::{dec, int_dec, law_dec_reads_back};

verus! {

/// The value of one member of an object.
#[derive(Debug)]
pub enum Scalar {
    Text(String),
    Int(i64),
}

/// One member of an object.
#[derive(Debug)]
pub struct Member {
    pub key: String,
    pub value: Scalar,
}

/// What a member says: its key and the JSON text of its value.
pub struct MemberText {
    pub key: Seq<char>,
    pub value: Seq<char>,
}

/// The lower-case hexadecimal digit of a number below 16.
pub open spec fn lower_hex(d: int) -> char {
    if d < 10 {
        (48 + d) as char
    } else {
        (87 + d) as char
    }
}

/// How a character is written inside a JSON string: quotation mark, backslash and the control
/// characters are escaped.
pub open spec fn escaped(c: char) -> Seq<char> {
    if c == '"' || c == '\\' {
        seq!['\\', c]
    } else if c as int == 8 {
        seq!['\\', 'b']
    } else if c as int == 9 {
        seq!['\\', 't']
    } else if c as int == 10 {
        seq!['\\', 'n']
    } else if c as int == 12 {
        seq!['\\', 'f']
    } else if c as int == 13 {
        seq!['\\', 'r']
    } else if (c as int) < 32 {
        seq!['\\', 'u', '0', '0', lower_hex(c as int / 16), lower_hex(c as int % 16)]
    } else {
        seq![c]
    }
}

/// The characters of `s`, each as it is written inside a JSON string.
pub open spec fn escaped_all(s: Seq<char>) -> Seq<char>
    decreases s.len(),
{
    if s.len() == 0 {
        Seq::empty()
    } else {
        escaped_all(s.drop_last()) + escaped(s.last())
    }
}

/// The JSON text of a string.
pub open spec fn string_text(s: Seq<char>) -> Seq<char> {
    seq!['"'] + escaped_all(s) + seq!['"']
}

impl Scalar {
    /// The JSON text of the value.
    pub open spec fn text(self) -> Seq<char> {
        match self {
            Scalar::Text(s) => string_text(s@),
            Scalar::Int(n) => int_dec(n as int),
        }
    }
}

impl View for Member {
    type V = MemberText;

    open spec fn view(&self) -> MemberText {
        MemberText { key: self.key@, value: self.value.text() }
    }
}

/// The members of an object, in order, with a comma between two of them.
pub open spec fn members_text(members: Seq<MemberText>) -> Seq<char>
    decreases members.len(),
{
    if members.len() == 0 {
        Seq::empty()
    } else {
        let last = string_text(members.last().key) + seq![':'] + members.last().value;
        if members.len() == 1 {
            last
        } else {
            members_text(members.drop_last()) + seq![','] + last
        }
    }
}

/// The compact JSON text of an object.
pub open spec fn object_text(members: Seq<MemberText>) -> Seq<char> {
    seq!['{'] + members_text(members) + seq!['}']
}

/// Whether each key sorts before the next by its first character alone.
pub open spec fn keys_ascend(members: Seq<Member>) -> bool {
    &&& forall|i: int| 0 <= i < members.len() ==> (#[trigger] members[i]).key@.len() > 0
    &&& forall|i: int, j: int|
        0 <= i < j < members.len() ==> (#[trigger] members[i]).key@[0] < (
        #[trigger] members[j]).key@[0]
}

/// The text of a `serde_json::Value` object, by its `Display`: compact, the members in the order
/// of their keys, strings escaped, numbers in decimal notation.
#[verifier::external_body]
fn value_text(members: Vec<Member>) -> (r: String)
    requires
        keys_ascend(members@),
    ensures
        r@ == object_text(members@.map_values(|m: Member| m@)),
{
    let mut object = serde_json::Map::new();
    for m in members {
        let value = match m.value {
            Scalar::Text(s) => serde_json::Value::from(s),
            Scalar::Int(n) => serde_json::Value::from(n),
        };
        object.insert(m.key, value);
    }
    serde_json::Value::Object(object).to_string()
}

/// A member with a text value.
pub open spec fn text_member(key: Seq<char>, value: Seq<char>) -> MemberText {
    MemberText { key, value: string_text(value) }
}

/// A member with a number.
pub open spec fn int_member(key: Seq<char>, value: int) -> MemberText {
    MemberText { key, value: int_dec(value) }
}

fn text_value(key: &str, value: &str) -> (r: Member)
    ensures
        r@ == text_member(key@, value@),
        r.key@ == key@,
{
    Member { key: key.to_owned(), value: Scalar::Text(value.to_owned()) }
}

fn int_value(key: &str, value: i64) -> (r: Member)
    ensures
        r@ == int_member(key@, value as int),
        r.key@ == key@,
{
    Member { key: key.to_owned(), value: Scalar::Int(value) }
}

/// The text of a command that sets a camera value.
pub open spec fn command_text(cmd: Seq<char>, value: int) -> Seq<char> {
    object_text(seq![text_member("cmd"@, cmd), int_member("value"@, value)])
}

/// The payload of a command that sets a camera value.
pub fn command_payload(cmd: &str, value: u8) -> (r: String)
    ensures
        r@ == command_text(cmd@, value as int),
{
    let mut members: Vec<Member> = Vec::new();
    members.push(text_value("cmd", cmd));
    members.push(int_value("value", value as i64));
    proof {
        reveal_strlit("cmd");
        reveal_strlit("value");
        assert(members@.map_values(|m: Member| m@) =~= seq![
            text_member("cmd"@, cmd@),
            int_member("value"@, value as int),
        ]);
    }
    value_text(members)
}

/// The text of a capture request.
pub open spec fn capture_text(exposure: int, gain: int, stack_secs: int) -> Seq<char> {
    object_text(
        seq![
            int_member("exposure"@, exposure),
            int_member("gain"@, gain),
            int_member("stack_secs"@, stack_secs),
        ],
    )
}

/// The payload of a capture request.
pub fn capture_payload(exposure: i32, gain: i32, stack_secs: u32) -> (r: String)
    ensures
        r@ == capture_text(exposure as int, gain as int, stack_secs as int),
{
    let mut members: Vec<Member> = Vec::new();
    members.push(int_value("exposure", exposure as i64));
    members.push(int_value("gain", gain as i64));
    members.push(int_value("stack_secs", stack_secs as i64));
    proof {
        reveal_strlit("exposure");
        reveal_strlit("gain");
        reveal_strlit("stack_secs");
        assert(members@.map_values(|m: Member| m@) =~= seq![
            int_member("exposure"@, exposure as int),
            int_member("gain"@, gain as int),
            int_member("stack_secs"@, stack_secs as int),
        ]);
    }
    value_text(members)
}

/// The text in which a device announces itself.
pub open spec fn hello_text(device_id: Seq<char>, framesize: int, quality: int) -> Seq<char> {
    object_text(
        seq![
            text_member("device_id"@, device_id),
            int_member("framesize"@, framesize),
            text_member("msg"@, "booted"@),
            int_member("quality"@, quality),
        ],
    )
}

/// The payload in which a device announces itself.
pub fn hello_payload(device_id: &str, framesize: u8, quality: u8) -> (r: String)
    ensures
        r@ == hello_text(device_id@, framesize as int, quality as int),
{
    let mut members: Vec<Member> = Vec::new();
    members.push(text_value("device_id", device_id));
    members.push(int_value("framesize", framesize as i64));
    members.push(text_value("msg", "booted"));
    members.push(int_value("quality", quality as i64));
    proof {
        reveal_strlit("device_id");
        reveal_strlit("framesize");
        reveal_strlit("msg");
        reveal_strlit("quality");
        assert(members@.map_values(|m: Member| m@) =~= seq![
            text_member("device_id"@, device_id@),
            int_member("framesize"@, framesize as int),
            text_member("msg"@, "booted"@),
            int_member("quality"@, quality as int),
        ]);
    }
    value_text(members)
}

proof fn lemma_split(a: Seq<char>, x: Seq<char>, b: Seq<char>, y: Seq<char>)
    requires
        a + x == b + y,
        a.len() == b.len(),
    ensures
        a == b,
        x == y,
{
    assert(a =~= (a + x).take(a.len() as int));
    assert(b =~= (b + y).take(b.len() as int));
    assert(x =~= (a + x).skip(a.len() as int));
    assert(y =~= (b + y).skip(b.len() as int));
}

/// Characters that are written differently are told apart by what is written.
proof fn lemma_escaped_once(c: char, x: Seq<char>, d: char, y: Seq<char>)
    requires
        escaped(c) + x == escaped(d) + y,
    ensures
        c == d,
        x == y,
{
    let l = escaped(c) + x;
    let r = escaped(d) + y;
    assert(l[0] == escaped(c)[0]);
    assert(r[0] == escaped(d)[0]);
    if escaped(c).len() > 1 && escaped(d).len() > 1 {
        assert(l[1] == escaped(c)[1]);
        assert(r[1] == escaped(d)[1]);
        if escaped(c).len() == 6 && escaped(d).len() == 6 {
            assert(l[4] == escaped(c)[4]);
            assert(r[4] == escaped(d)[4]);
            assert(l[5] == escaped(c)[5]);
            assert(r[5] == escaped(d)[5]);
        }
    }
    assert(c == d);
    lemma_split(escaped(c), x, escaped(d), y);
}

proof fn lemma_escaped_first(s: Seq<char>)
    requires
        s.len() > 0,
    ensures
        escaped_all(s) == escaped(s[0]) + escaped_all(s.drop_first()),
    decreases s.len(),
{
    if s.len() == 1 {
        assert(escaped_all(s.drop_last()) == Seq::<char>::empty());
        assert(escaped_all(s.drop_first()) == Seq::<char>::empty());
        assert(escaped_all(s) =~= escaped(s[0]) + escaped_all(s.drop_first()));
    } else {
        lemma_escaped_first(s.drop_last());
        assert(s.drop_last().drop_first() =~= s.drop_first().drop_last());
        assert(s.drop_last()[0] == s[0]);
        assert(s.drop_first().last() == s.last());
        assert(escaped_all(s.drop_first()) == escaped_all(s.drop_first().drop_last()) + escaped(
            s.last(),
        ));
        assert(escaped_all(s) =~= escaped(s[0]) + escaped_all(s.drop_first()));
    }
}

proof fn lemma_string_body_once(s: Seq<char>, x: Seq<char>, t: Seq<char>, y: Seq<char>)
    requires
        escaped_all(s) + seq!['"'] + x == escaped_all(t) + seq!['"'] + y,
    ensures
        s == t,
        x == y,
    decreases s.len(),
{
    let l = escaped_all(s) + seq!['"'] + x;
    let r = escaped_all(t) + seq!['"'] + y;
    if s.len() > 0 {
        lemma_escaped_first(s);
    }
    if t.len() > 0 {
        lemma_escaped_first(t);
    }
    if s.len() == 0 && t.len() == 0 {
        assert(s =~= t);
        lemma_split(escaped_all(s) + seq!['"'], x, escaped_all(t) + seq!['"'], y);
    } else if s.len() == 0 {
        assert(l[0] == '"');
        assert(r[0] == escaped(t[0])[0]);
    } else if t.len() == 0 {
        assert(r[0] == '"');
        assert(l[0] == escaped(s[0])[0]);
    } else {
        let more_s = escaped_all(s.drop_first()) + seq!['"'] + x;
        let more_t = escaped_all(t.drop_first()) + seq!['"'] + y;
        assert(l =~= escaped(s[0]) + more_s);
        assert(r =~= escaped(t[0]) + more_t);
        lemma_escaped_once(s[0], more_s, t[0], more_t);
        lemma_string_body_once(s.drop_first(), x, t.drop_first(), y);
        assert(s =~= seq![s[0]] + s.drop_first());
        assert(t =~= seq![t[0]] + t.drop_first());
    }
}

/// A string is read back from its text in one way only, whatever follows it.
pub proof fn law_string_is_read_once(s: Seq<char>, x: Seq<char>, t: Seq<char>, y: Seq<char>)
    requires
        string_text(s) + x == string_text(t) + y,
    ensures
        s == t,
        x == y,
{
    let l = escaped_all(s) + seq!['"'] + x;
    let r = escaped_all(t) + seq!['"'] + y;
    assert(string_text(s) + x =~= seq!['"'] + l);
    assert(string_text(t) + y =~= seq!['"'] + r);
    lemma_split(seq!['"'], l, seq!['"'], r);
    lemma_string_body_once(s, x, t, y);
}

/// A character that ends a number: it cannot stand in one.
pub open spec fn ends_number(c: char) -> bool {
    c != '-' && !('0' <= c <= '9')
}

proof fn lemma_number_chars(n: int)
    ensures
        int_dec(n).len() > 0,
        forall|i: int| 0 <= i < int_dec(n).len() ==> !ends_number(#[trigger] int_dec(n)[i]),
{
    if n < 0 {
        law_dec_reads_back((-n) as nat);
        let d = dec((-n) as nat);
        assert forall|i: int| 0 <= i < int_dec(n).len() implies !ends_number(
            #[trigger] int_dec(n)[i],
        ) by {
            if i > 0 {
                assert(int_dec(n)[i] == d[i - 1]);
            }
        }
    } else {
        law_dec_reads_back(n as nat);
    }
}

/// A number is read back from its text in one way only, where a character that ends it follows.
pub proof fn law_number_is_read_once(m: int, x: Seq<char>, n: int, y: Seq<char>)
    requires
        int_dec(m) + x == int_dec(n) + y,
        x.len() > 0,
        ends_number(x[0]),
        y.len() > 0,
        ends_number(y[0]),
    ensures
        m == n,
        x == y,
{
    lemma_number_chars(m);
    lemma_number_chars(n);
    let l = int_dec(m) + x;
    let r = int_dec(n) + y;
    let a = int_dec(m).len() as int;
    let b = int_dec(n).len() as int;
    assert(l[a] == x[0]);
    assert(r[b] == y[0]);
    if a < b {
        assert(r[a] == int_dec(n)[a]);
    } else if b < a {
        assert(l[b] == int_dec(m)[b]);
    }
    lemma_split(int_dec(m), x, int_dec(n), y);
    law_numbers_differ(m, n);
}

/// Different numbers have different texts.
pub proof fn law_numbers_differ(m: int, n: int)
    requires
        int_dec(m) == int_dec(n),
    ensures
        m == n,
{
    lemma_number_chars(m);
    lemma_number_chars(n);
    if m < 0 {
        law_dec_reads_back((-m) as nat);
        assert(int_dec(m)[0] == '-');
        assert(dec((-m) as nat) =~= int_dec(m).skip(1));
    } else {
        law_dec_reads_back(m as nat);
    }
    if n < 0 {
        law_dec_reads_back((-n) as nat);
        assert(int_dec(n)[0] == '-');
        assert(dec((-n) as nat) =~= int_dec(n).skip(1));
    } else {
        law_dec_reads_back(n as nat);
    }
}

/// A member's key in front of its value.
pub open spec fn key_text(key: Seq<char>) -> Seq<char> {
    string_text(key) + seq![':']
}

proof fn lemma_two_members(a: MemberText, b: MemberText)
    ensures
        object_text(seq![a, b]) == seq!['{'] + key_text(a.key) + (a.value + (seq![','] + key_text(
            b.key,
        ) + (b.value + seq!['}']))),
{
    let m = seq![a, b];
    assert(m.drop_last() =~= seq![a]);
    assert(m.last() == b);
    assert(seq![a].last() == a);
    assert(members_text(seq![a]) == string_text(a.key) + seq![':'] + a.value);
    assert(object_text(m) =~= seq!['{'] + key_text(a.key) + (a.value + (seq![','] + key_text(b.key)
        + (b.value + seq!['}']))));
}

/// A command is read back in one way only: the text of a command determines its name and value.
pub proof fn law_command_is_read_once(c1: Seq<char>, v1: int, c2: Seq<char>, v2: int)
    requires
        command_text(c1, v1) == command_text(c2, v2),
    ensures
        c1 == c2,
        v1 == v2,
{
    lemma_two_members(text_member("cmd"@, c1), int_member("value"@, v1));
    lemma_two_members(text_member("cmd"@, c2), int_member("value"@, v2));
    let head = seq!['{'] + key_text("cmd"@);
    let mid = seq![','] + key_text("value"@);
    let end1 = int_dec(v1) + seq!['}'];
    let end2 = int_dec(v2) + seq!['}'];
    lemma_split(head, string_text(c1) + (mid + end1), head, string_text(c2) + (mid + end2));
    law_string_is_read_once(c1, mid + end1, c2, mid + end2);
    lemma_split(mid, end1, mid, end2);
    law_number_is_read_once(v1, seq!['}'], v2, seq!['}']);
}

/// A capture request is read back in one way only: its text determines exposure, gain and
/// stacking duration.
pub proof fn law_capture_is_read_once(e1: int, g1: int, s1: int, e2: int, g2: int, s2: int)
    requires
        capture_text(e1, g1, s1) == capture_text(e2, g2, s2),
    ensures
        e1 == e2,
        g1 == g2,
        s1 == s2,
{
    let head = seq!['{'] + key_text("exposure"@);
    let gain = seq![','] + key_text("gain"@);
    let stack = seq![','] + key_text("stack_secs"@);
    let stack1 = stack + (int_dec(s1) + seq!['}']);
    let stack2 = stack + (int_dec(s2) + seq!['}']);
    let gain1 = gain + (int_dec(g1) + stack1);
    let gain2 = gain + (int_dec(g2) + stack2);
    lemma_three_members(
        int_member("exposure"@, e1),
        int_member("gain"@, g1),
        int_member("stack_secs"@, s1),
    );
    lemma_three_members(
        int_member("exposure"@, e2),
        int_member("gain"@, g2),
        int_member("stack_secs"@, s2),
    );
    lemma_split(head, int_dec(e1) + gain1, head, int_dec(e2) + gain2);
    assert(gain1[0] == ',' && gain2[0] == ',');
    law_number_is_read_once(e1, gain1, e2, gain2);
    lemma_split(gain, int_dec(g1) + stack1, gain, int_dec(g2) + stack2);
    assert(stack1[0] == ',' && stack2[0] == ',');
    law_number_is_read_once(g1, stack1, g2, stack2);
    lemma_split(stack, int_dec(s1) + seq!['}'], stack, int_dec(s2) + seq!['}']);
    law_number_is_read_once(s1, seq!['}'], s2, seq!['}']);
}

proof fn lemma_three_members(a: MemberText, b: MemberText, c: MemberText)
    ensures
        object_text(seq![a, b, c]) == seq!['{'] + key_text(a.key) + (a.value + (seq![','] + key_text(
            b.key,
        ) + (b.value + (seq![','] + key_text(c.key) + (c.value + seq!['}']))))),
{
    let m = seq![a, b, c];
    assert(m.drop_last() =~= seq![a, b]);
    assert(m.last() == c);
    assert(seq![a, b].drop_last() =~= seq![a]);
    assert(seq![a, b].last() == b);
    assert(seq![a].last() == a);
    assert(members_text(seq![a, b]) == members_text(seq![a]) + seq![','] + (string_text(b.key)
        + seq![':'] + b.value));
    assert(object_text(m) =~= seq!['{'] + key_text(a.key) + (a.value + (seq![','] + key_text(b.key)
        + (b.value + (seq![','] + key_text(c.key) + (c.value + seq!['}']))))));
}

} // verus!
