//! Laws on the messages between logger and device.

use vstd::prelude::*;
use vstd::string::*;

use super::text::{is_decimal, is_integer, law_dec_is_decimal, law_int_dec_is_integer};
use crate::json::{
    capture_payload, command_payload, escaped_all, hello_payload, int_member,
    law_capture_is_read_once, law_command_is_read_once, members_text, object_text, string_text,
    text_member, MemberText,
};
use crate::text::int_dec;
use crate::topics::{cmd_topic, hello_topic, senddata_topic, status_topic};

verus! {

proof fn lemma_plain(s: Seq<char>)
    requires
        forall|i: int|
            0 <= i < s.len() ==> #[trigger] s[i] != '"' && s[i] != '\\' && s[i] as int >= 32,
    ensures
        escaped_all(s) == s,
    decreases s.len(),
{
    if s.len() > 0 {
        let t = s.drop_last();
        assert forall|i: int| 0 <= i < t.len() implies #[trigger] t[i] != '"' && t[i] != '\\'
            && t[i] as int >= 32 by {
            assert(t[i] == s[i]);
        }
        lemma_plain(t);
        assert(s.last() == s[s.len() - 1]);
        assert(escaped_all(s) =~= s);
    } else {
        assert(escaped_all(s) =~= s);
    }
}

proof fn lemma_plain_keys()
    ensures
        escaped_all("exposure"@) == "exposure"@,
        escaped_all("gain"@) == "gain"@,
        escaped_all("stack_secs"@) == "stack_secs"@,
        escaped_all("cmd"@) == "cmd"@,
        escaped_all("value"@) == "value"@,
        escaped_all("device_id"@) == "device_id"@,
        escaped_all("framesize"@) == "framesize"@,
        escaped_all("msg"@) == "msg"@,
        escaped_all("booted"@) == "booted"@,
        escaped_all("quality"@) == "quality"@,
{
    reveal_strlit("exposure");
    reveal_strlit("gain");
    reveal_strlit("stack_secs");
    reveal_strlit("cmd");
    reveal_strlit("value");
    reveal_strlit("device_id");
    reveal_strlit("framesize");
    reveal_strlit("msg");
    reveal_strlit("booted");
    reveal_strlit("quality");
    lemma_plain("exposure"@);
    lemma_plain("gain"@);
    lemma_plain("stack_secs"@);
    lemma_plain("cmd"@);
    lemma_plain("value"@);
    lemma_plain("device_id"@);
    lemma_plain("framesize"@);
    lemma_plain("msg"@);
    lemma_plain("booted"@);
    lemma_plain("quality"@);
}

/// Whether a text is a capture request: an object of three numbers, each the decimal notation of
/// what was asked for.
pub open spec fn asks_for(s: Seq<char>, exposure: int, gain: int, stack_secs: int) -> bool {
    exists|e: Seq<char>, g: Seq<char>, t: Seq<char>|
        #![trigger is_integer(e, exposure), is_integer(g, gain), is_integer(t, stack_secs)]
        is_integer(e, exposure) && is_integer(g, gain) && is_integer(t, stack_secs) && s
            == "{\"exposure\":"@ + e + ",\"gain\":"@ + g + ",\"stack_secs\":"@ + t + "}"@
}

/// A capture request asks for what it was made from.
pub proof fn law_capture_payload(exposure: i32, gain: i32, stack_secs: u32, r: String)
    requires
        call_ensures(capture_payload, (exposure, gain, stack_secs), r),
    ensures
        asks_for(r@, exposure as int, gain as int, stack_secs as int),
{
    let e = int_dec(exposure as int);
    let g = int_dec(gain as int);
    let t = int_dec(stack_secs as int);
    law_int_dec_is_integer(exposure as int);
    law_int_dec_is_integer(gain as int);
    law_int_dec_is_integer(stack_secs as int);
    lemma_plain_keys();
    let a = int_member("exposure"@, exposure as int);
    let b = int_member("gain"@, gain as int);
    let c = int_member("stack_secs"@, stack_secs as int);
    assert(seq![a, b, c].drop_last() =~= seq![a, b]);
    assert(seq![a, b].drop_last() =~= seq![a]);
    assert(members_text(seq![a]) == string_text(a.key) + seq![':'] + a.value);
    assert(members_text(seq![a, b]) == members_text(seq![a]) + seq![','] + (string_text(b.key)
        + seq![':'] + b.value));
    reveal_strlit("{\"exposure\":");
    reveal_strlit(",\"gain\":");
    reveal_strlit(",\"stack_secs\":");
    reveal_strlit("}");
    reveal_strlit("exposure");
    reveal_strlit("gain");
    reveal_strlit("stack_secs");
    assert("{\"exposure\":"@ =~= seq!['{', '"'] + "exposure"@ + seq!['"', ':']);
    assert(",\"gain\":"@ =~= seq![',', '"'] + "gain"@ + seq!['"', ':']);
    assert(",\"stack_secs\":"@ =~= seq![',', '"'] + "stack_secs"@ + seq!['"', ':']);
    assert(r@ =~= "{\"exposure\":"@ + e + ",\"gain\":"@ + g + ",\"stack_secs\":"@ + t + "}"@);
}

/// Capture requests are equal exactly where they ask for the same.
pub proof fn law_capture_payloads_differ(
    e1: i32,
    g1: i32,
    s1: u32,
    r1: String,
    e2: i32,
    g2: i32,
    s2: u32,
    r2: String,
)
    requires
        call_ensures(capture_payload, (e1, g1, s1), r1),
        call_ensures(capture_payload, (e2, g2, s2), r2),
    ensures
        r1@ == r2@ <==> e1 == e2 && g1 == g2 && s1 == s2,
{
    if r1@ == r2@ {
        law_capture_is_read_once(
            e1 as int,
            g1 as int,
            s1 as int,
            e2 as int,
            g2 as int,
            s2 as int,
        );
    }
}

/// A command of plain characters is an object of its name and the decimal notation of its value.
pub proof fn law_command_payload(cmd: &str, value: u8, r: String) -> (v: Seq<char>)
    requires
        call_ensures(command_payload, (cmd, value), r),
        forall|i: int|
            0 <= i < cmd@.len() ==> #[trigger] cmd@[i] != '"' && cmd@[i] != '\\' && cmd@[i] as int
                >= 32,
    ensures
        is_decimal(v, value as int),
        r@ == "{\"cmd\":\""@ + cmd@ + "\",\"value\":"@ + v + "}"@,
{
    let v = int_dec(value as int);
    law_dec_is_decimal(value as nat);
    lemma_plain_keys();
    lemma_plain(cmd@);
    let a = text_member("cmd"@, cmd@);
    let b = int_member("value"@, value as int);
    assert(seq![a, b].drop_last() =~= seq![a]);
    assert(members_text(seq![a]) == string_text(a.key) + seq![':'] + a.value);
    reveal_strlit("{\"cmd\":\"");
    reveal_strlit("\",\"value\":");
    reveal_strlit("}");
    reveal_strlit("cmd");
    reveal_strlit("value");
    assert("{\"cmd\":\""@ =~= seq!['{', '"'] + "cmd"@ + seq!['"', ':', '"']);
    assert("\",\"value\":"@ =~= seq!['"', ',', '"'] + "value"@ + seq!['"', ':']);
    assert(r@ =~= "{\"cmd\":\""@ + cmd@ + "\",\"value\":"@ + v + "}"@);
    v
}

/// Commands are equal exactly where name and value are.
pub proof fn law_command_payloads_differ(
    c1: &str,
    v1: u8,
    r1: String,
    c2: &str,
    v2: u8,
    r2: String,
)
    requires
        call_ensures(command_payload, (c1, v1), r1),
        call_ensures(command_payload, (c2, v2), r2),
    ensures
        r1@ == r2@ <==> c1@ == c2@ && v1 == v2,
{
    if r1@ == r2@ {
        law_command_is_read_once(c1@, v1 as int, c2@, v2 as int);
    }
}

/// A device of plain characters announces itself by its name, frame size and quality.
pub proof fn law_hello_payload(id: &str, framesize: u8, quality: u8, r: String) -> (d: (
    Seq<char>,
    Seq<char>,
))
    requires
        call_ensures(hello_payload, (id, framesize, quality), r),
        forall|i: int|
            0 <= i < id@.len() ==> #[trigger] id@[i] != '"' && id@[i] != '\\' && id@[i] as int
                >= 32,
    ensures
        is_decimal(d.0, framesize as int),
        is_decimal(d.1, quality as int),
        r@ == "{\"device_id\":\""@ + id@ + "\",\"framesize\":"@ + d.0
            + ",\"msg\":\"booted\",\"quality\":"@ + d.1 + "}"@,
{
    let f = int_dec(framesize as int);
    let q = int_dec(quality as int);
    law_dec_is_decimal(framesize as nat);
    law_dec_is_decimal(quality as nat);
    lemma_plain_keys();
    lemma_plain(id@);
    let a = text_member("device_id"@, id@);
    let b = int_member("framesize"@, framesize as int);
    let c = text_member("msg"@, "booted"@);
    let d = int_member("quality"@, quality as int);
    lemma_four_members(a, b, c, d);
    let ka = string_text("device_id"@);
    let kb = string_text("framesize"@);
    let kc = string_text("msg"@);
    let kd = string_text("quality"@);
    let booted = string_text("booted"@);
    reveal_strlit("{\"device_id\":\"");
    reveal_strlit("\",\"framesize\":");
    reveal_strlit(",\"msg\":\"booted\",\"quality\":");
    reveal_strlit("}");
    reveal_strlit("device_id");
    reveal_strlit("framesize");
    reveal_strlit("msg");
    reveal_strlit("booted");
    reveal_strlit("quality");
    assert("{\"device_id\":\""@ =~= seq!['{'] + ka + seq![':', '"']);
    assert("\",\"framesize\":"@ =~= seq!['"', ','] + kb + seq![':']);
    assert(",\"msg\":\"booted\",\"quality\":"@ =~= seq![','] + kc + seq![':'] + booted + seq![',']
        + kd + seq![':']);
    assert(string_text(id@) =~= seq!['"'] + id@ + seq!['"']);
    lemma_hello_pieces(ka, id@, kb, f, kc, booted, kd, q);
    (f, q)
}

proof fn lemma_hello_pieces(
    ka: Seq<char>,
    id: Seq<char>,
    kb: Seq<char>,
    f: Seq<char>,
    kc: Seq<char>,
    booted: Seq<char>,
    kd: Seq<char>,
    q: Seq<char>,
)
    ensures
        seq!['{'] + ka + seq![':'] + (seq!['"'] + id + seq!['"']) + seq![','] + kb + seq![':'] + f
            + seq![','] + kc + seq![':'] + booted + seq![','] + kd + seq![':'] + q + seq!['}'] == (
        seq!['{'] + ka + seq![':', '"']) + id + (seq!['"', ','] + kb + seq![':']) + f + (seq![',']
            + kc + seq![':'] + booted + seq![','] + kd + seq![':']) + q + seq!['}'],
{
    let l1 = seq!['{'] + ka + seq![':'] + (seq!['"'] + id + seq!['"']) + seq![','] + kb + seq![':'];
    let r1 = (seq!['{'] + ka + seq![':', '"']) + id + (seq!['"', ','] + kb + seq![':']);
    assert(l1 =~= r1);
    let l2 = l1 + f + seq![','] + kc + seq![':'] + booted + seq![','] + kd + seq![':'];
    let r2 = r1 + f + (seq![','] + kc + seq![':'] + booted + seq![','] + kd + seq![':']);
    assert(l2 =~= r2);
}

proof fn lemma_four_members(a: MemberText, b: MemberText, c: MemberText, d: MemberText)
    ensures
        object_text(seq![a, b, c, d]) == seq!['{'] + string_text(a.key) + seq![':'] + a.value
            + seq![','] + string_text(b.key) + seq![':'] + b.value + seq![','] + string_text(c.key)
            + seq![':'] + c.value + seq![','] + string_text(d.key) + seq![':'] + d.value + seq!['}'],
{
    let (ka, kb, kc, kd) = (
        string_text(a.key),
        string_text(b.key),
        string_text(c.key),
        string_text(d.key),
    );
    assert(seq![a, b, c, d].drop_last() =~= seq![a, b, c]);
    assert(seq![a, b, c].drop_last() =~= seq![a, b]);
    assert(seq![a, b].drop_last() =~= seq![a]);
    let m1 = members_text(seq![a]);
    let m2 = members_text(seq![a, b]);
    let m3 = members_text(seq![a, b, c]);
    let m4 = members_text(seq![a, b, c, d]);
    assert(m1 == ka + seq![':'] + a.value);
    assert(m2 == m1 + seq![','] + (kb + seq![':'] + b.value));
    assert(m3 == m2 + seq![','] + (kc + seq![':'] + c.value));
    assert(m4 == m3 + seq![','] + (kd + seq![':'] + d.value));
    let p1 = seq!['{'] + ka + seq![':'] + a.value;
    let p2 = p1 + seq![','] + kb + seq![':'] + b.value;
    let p3 = p2 + seq![','] + kc + seq![':'] + c.value;
    let p4 = p3 + seq![','] + kd + seq![':'] + d.value;
    assert(seq!['{'] + m1 =~= p1);
    assert(seq!['{'] + m2 =~= seq!['{'] + m1 + seq![','] + kb + seq![':'] + b.value);
    assert(seq!['{'] + m3 =~= seq!['{'] + m2 + seq![','] + kc + seq![':'] + c.value);
    assert(seq!['{'] + m4 =~= seq!['{'] + m3 + seq![','] + kd + seq![':'] + d.value);
}

/// The topics of a device are its name and what follows a slash.
pub proof fn law_topic_names(id: &str, senddata: String, cmd: String, status: String, hello: String)
    requires
        call_ensures(senddata_topic, (id,), senddata),
        call_ensures(cmd_topic, (id,), cmd),
        call_ensures(status_topic, (id,), status),
        call_ensures(hello_topic, (id,), hello),
    ensures
        senddata@ == id@ + "/senddata"@,
        cmd@ == id@ + "/cmd"@,
        status@ == id@ + "/status"@,
        hello@ == id@ + "/hello"@,
{
    reveal_strlit("/");
    reveal_strlit("senddata");
    reveal_strlit("cmd");
    reveal_strlit("status");
    reveal_strlit("hello");
    reveal_strlit("/senddata");
    reveal_strlit("/cmd");
    reveal_strlit("/status");
    reveal_strlit("/hello");
    assert(senddata@ =~= id@ + "/senddata"@);
    assert(cmd@ =~= id@ + "/cmd"@);
    assert(status@ =~= id@ + "/status"@);
    assert(hello@ =~= id@ + "/hello"@);
}

} // verus!
