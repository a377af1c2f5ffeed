//! Laws on capture requests and camera commands.

use vstd::prelude::*;
use vstd::string::*;

use super::state::{
    law_log_has_lines, law_logged_adds_line, line_added, same_lines, same_record, same_settings,
};
use super::text::{is_decimal, is_integer, law_dec_is_decimal, law_int_dec_is_integer};
use crate::clock::clock_stamp;
use crate::json::command_payload;
use crate::logger::publisher::{camera_commands, camera_log, manual_log, CapturePlan, Publisher};
use crate::logger::server::{listen_addr, on_bind, on_stopped};
use crate::logger::state::AppState;
use crate::text::{dec, int_dec};

verus! {

/// At the start the last request is taken to lie 9999 seconds back, where the clock reaches so
/// far, and else at the start.
pub proof fn law_publisher_starts(now: u128, r: Publisher)
    requires
        call_ensures(Publisher::new, (now,), r),
    ensures
        now >= 9999 * 1_000_000_000 ==> r.last_sent == now - 9999 * 1_000_000_000,
        now < 9999 * 1_000_000_000 ==> r.last_sent == now,
{
}

/// A request is due exactly if the window holds and the interval is over.
pub proof fn law_due(p: Publisher, plan: CapturePlan, now: u128, r: bool)
    requires
        call_ensures(Publisher::due, (&p, &plan, now), r),
    ensures
        now >= p.last_sent ==> (r <==> plan.in_window && now - p.last_sent >= plan.interval
            * 1_000_000_000),
        now < p.last_sent ==> (r <==> plan.in_window && plan.interval == 0),
{
    assert(plan.interval > 0 ==> plan.interval * 1_000_000_000 > 0);
}

/// Inside the window the request is announced for the end of the interval, or for now where that
/// has passed; outside none is. The plan holds what the state is set to.
pub proof fn law_plan(
    p: Publisher,
    s: &mut AppState,
    in_window: bool,
    now: u128,
    r: CapturePlan,
)
    requires
        call_ensures(Publisher::plan, (&p, s, in_window, now), r),
        now + old(s).interval_secs * 1_000_000_000 <= u128::MAX,
    ensures
        !in_window ==> final(s).next_capture_at is None,
        in_window && now >= p.last_sent ==> {
            let at = p.last_sent + old(s).interval_secs * 1_000_000_000;
            final(s).next_capture_at matches Some(t) && t == (if at > now {
                at
            } else {
                now as int
            })
        },
        in_window && now < p.last_sent ==> (final(s).next_capture_at matches Some(t) && t == now
            + old(s).interval_secs * 1_000_000_000),
        r.interval == old(s).interval_secs,
        r.in_window == in_window,
        r.exposure == old(s).exposure,
        r.gain == old(s).gain,
        r.stack_secs == old(s).stack_secs,
        same_settings(*final(s), *old(s)),
        same_record(*final(s), *old(s)),
        same_lines(final(s).log_lines@, old(s).log_lines@),
        final(s).mqtt_connected == old(s).mqtt_connected,
{
    let t = AppState { next_capture_at: final(s).next_capture_at, ..*old(s) };
    assert(t.log() == old(s).log());
    law_log_has_lines(*old(s), *final(s));
    assert(final(s).settings().start == final(s).window_start_local@);
}

/// Planned and asked at once, a request is due exactly if it is announced for now.
pub proof fn law_plan_agrees_with_due(
    p: Publisher,
    s: &mut AppState,
    in_window: bool,
    now: u128,
    plan: CapturePlan,
    later: u128,
    r: bool,
)
    requires
        call_ensures(Publisher::plan, (&p, s, in_window, now), plan),
        call_ensures(Publisher::due, (&p, &plan, later), r),
        now + old(s).interval_secs * 1_000_000_000 <= u128::MAX,
        p.last_sent <= now <= later,
    ensures
        r <==> (final(s).next_capture_at matches Some(t) && t <= later),
{
}

/// Whether a line tells of a capture request: the stamp, what kind of request it is, and what was
/// asked for in decimal notation.
pub open spec fn tells_of(
    line: Seq<char>,
    stamp: Seq<char>,
    kind: Seq<char>,
    exposure: int,
    gain: int,
    stack_secs: int,
) -> bool {
    exists|e: Seq<char>, g: Seq<char>, t: Seq<char>|
        #![trigger is_integer(e, exposure), is_integer(g, gain), is_decimal(t, stack_secs)]
        is_integer(e, exposure) && is_integer(g, gain) && is_decimal(t, stack_secs) && line == stamp
            + kind + e + " gain="@ + g + " stack="@ + t + "s"@
}

/// After a request the waiting starts anew. Only one that was accepted is logged, with its second
/// and what it asked for.
pub proof fn law_on_published(
    p: &mut Publisher,
    s: &mut AppState,
    plan: CapturePlan,
    accepted: bool,
    unix_secs: i64,
    now: u128,
    stamp: String,
)
    requires
        call_ensures(Publisher::on_published, (p, s, &plan, accepted, unix_secs, now), ()),
        call_ensures(clock_stamp, (unix_secs,), stamp),
    ensures
        final(p).last_sent == now,
        accepted ==> final(s).log_lines@.len() > 0 && line_added(
            old(s).log_lines@,
            final(s).log_lines@,
            final(s).log_lines@.last()@,
        ) && tells_of(
            final(s).log_lines@.last()@,
            stamp@,
            " → senddata exp="@,
            plan.exposure as int,
            plan.gain as int,
            plan.stack_secs as int,
        ),
        !accepted ==> same_lines(final(s).log_lines@, old(s).log_lines@),
        same_settings(*final(s), *old(s)),
        same_record(*final(s), *old(s)),
        final(s).mqtt_connected == old(s).mqtt_connected,
        final(s).next_capture_at == old(s).next_capture_at,
{
    let e = int_dec(plan.exposure as int);
    let g = int_dec(plan.gain as int);
    let t = dec(plan.stack_secs as nat);
    law_int_dec_is_integer(plan.exposure as int);
    law_int_dec_is_integer(plan.gain as int);
    law_dec_is_decimal(plan.stack_secs as nat);
    if accepted {
        let line = stamp@ + " → senddata exp="@ + e + " gain="@ + g + " stack="@ + t + "s"@;
        assert(crate::logger::publisher::request_line(
            unix_secs as int,
            " → senddata exp="@,
            plan.exposure as int,
            plan.gain as int,
            plan.stack_secs as int,
        ) =~= line);
        law_logged_adds_line(*old(s), *final(s), line);
        assert(is_integer(e, plan.exposure as int));
        assert(is_decimal(t, plan.stack_secs as int));
    } else {
        law_log_has_lines(*old(s), *final(s));
    }
    assert(final(s).settings().start == final(s).window_start_local@);
}

/// Two requests in a row are at least the interval apart, whatever was made of the first.
pub proof fn law_requests_apart(
    p: &mut Publisher,
    s: &mut AppState,
    plan: CapturePlan,
    accepted: bool,
    unix_secs: i64,
    sent: u128,
    next: CapturePlan,
    now: u128,
    r: bool,
)
    requires
        call_ensures(Publisher::on_published, (p, s, &plan, accepted, unix_secs, sent), ()),
        call_ensures(Publisher::due, (&*final(p), &next, now), r),
        next.in_window,
        now >= sent,
    ensures
        r <==> now - sent >= next.interval * 1_000_000_000,
{
}

/// A request by hand is logged as such.
pub proof fn law_manual_log(
    unix_secs: i64,
    exposure: i32,
    gain: i32,
    stack_secs: u32,
    r: String,
    stamp: String,
)
    requires
        call_ensures(manual_log, (unix_secs, exposure, gain, stack_secs), r),
        call_ensures(clock_stamp, (unix_secs,), stamp),
    ensures
        tells_of(
            r@,
            stamp@,
            " → MANUAL exp="@,
            exposure as int,
            gain as int,
            stack_secs as int,
        ),
{
    let e = int_dec(exposure as int);
    let g = int_dec(gain as int);
    let t = dec(stack_secs as nat);
    law_int_dec_is_integer(exposure as int);
    law_int_dec_is_integer(gain as int);
    law_dec_is_decimal(stack_secs as nat);
    assert(is_integer(e, exposure as int) && is_integer(g, gain as int));
    assert(is_decimal(t, stack_secs as int));
    assert(r@ =~= stamp@ + " → MANUAL exp="@ + e + " gain="@ + g + " stack="@ + t + "s"@);
}

/// All camera values go out as the three commands that set them.
pub proof fn law_camera_commands(
    quality: u8,
    gain_ceiling: u8,
    framesize: u8,
    r: Vec<String>,
    set_quality: String,
    set_ceiling: String,
    set_framesize: String,
)
    requires
        call_ensures(camera_commands, (quality, gain_ceiling, framesize), r),
        call_ensures(command_payload, ("SetQuality", quality), set_quality),
        call_ensures(command_payload, ("SetGainCeiling", gain_ceiling), set_ceiling),
        call_ensures(command_payload, ("SetFramesize", framesize), set_framesize),
    ensures
        r@.len() == 3,
        r@[0]@ == set_quality@,
        r@[1]@ == set_ceiling@,
        r@[2]@ == set_framesize@,
{
}

/// The line that follows the sending of all camera values tells the second and the values.
pub proof fn law_camera_log(
    unix_secs: i64,
    quality: u8,
    gain_ceiling: u8,
    framesize: u8,
    r: String,
    stamp: String,
) -> (d: (Seq<char>, Seq<char>, Seq<char>))
    requires
        call_ensures(camera_log, (unix_secs, quality, gain_ceiling, framesize), r),
        call_ensures(clock_stamp, (unix_secs,), stamp),
    ensures
        is_decimal(d.0, quality as int),
        is_decimal(d.1, gain_ceiling as int),
        is_decimal(d.2, framesize as int),
        r@ == stamp@ + " → camera cmd sent: Q="@ + d.0 + " GC="@ + d.1 + " FS="@ + d.2,
{
    law_dec_is_decimal(quality as nat);
    law_dec_is_decimal(gain_ceiling as nat);
    law_dec_is_decimal(framesize as nat);
    assert(r@ =~= stamp@ + " → camera cmd sent: Q="@ + dec(quality as nat) + " GC="@ + dec(
        gain_ceiling as nat,
    ) + " FS="@ + dec(framesize as nat));
    (dec(quality as nat), dec(gain_ceiling as nat), dec(framesize as nat))
}

/// The server listens on its port, of all addresses.
pub proof fn law_listen_addr(port: u16, r: String)
    requires
        call_ensures(listen_addr, (port,), r),
    ensures
        r@.len() > 8,
        r@.take(8) == "0.0.0.0:"@,
        is_decimal(r@.skip(8), port as int),
{
    reveal_strlit("0.0.0.0:");
    law_dec_is_decimal(port as nat);
    assert(r@.take(8) =~= "0.0.0.0:"@);
    assert(r@.skip(8) =~= dec(port as nat));
}

/// The server serves exactly if it got its address, and the log says which it was.
pub proof fn law_on_bind(s: &mut AppState, addr: &str, error: Option<&str>, r: bool)
    requires
        call_ensures(on_bind, (s, addr, error), r),
    ensures
        r <==> error is None,
        error is None ==> line_added(
            old(s).log_lines@,
            final(s).log_lines@,
            "HTTP listening on "@ + addr@,
        ),
        error matches Some(e) ==> line_added(
            old(s).log_lines@,
            final(s).log_lines@,
            "⚠ HTTP bind "@ + addr@ + " failed: "@ + e@ + "  (old process still running?)"@,
        ),
        same_settings(*final(s), *old(s)),
        same_record(*final(s), *old(s)),
        final(s).mqtt_connected == old(s).mqtt_connected,
        final(s).next_capture_at == old(s).next_capture_at,
{
    match error {
        None => {
            law_logged_adds_line(*old(s), *final(s), "HTTP listening on "@ + addr@);
        },
        Some(e) => {
            law_logged_adds_line(
                *old(s),
                *final(s),
                "⚠ HTTP bind "@ + addr@ + " failed: "@ + e@ + "  (old process still running?)"@,
            );
        },
    }
    assert(final(s).settings().start == final(s).window_start_local@);
}

/// That the server has stopped is logged with the reason.
pub proof fn law_on_stopped(s: &mut AppState, error: &str)
    requires
        call_ensures(on_stopped, (s, error), ()),
    ensures
        line_added(
            old(s).log_lines@,
            final(s).log_lines@,
            "⚠ HTTP server stopped: "@ + error@,
        ),
        same_settings(*final(s), *old(s)),
        same_record(*final(s), *old(s)),
        final(s).mqtt_connected == old(s).mqtt_connected,
        final(s).next_capture_at == old(s).next_capture_at,
{
    law_logged_adds_line(*old(s), *final(s), "⚠ HTTP server stopped: "@ + error@);
    assert(final(s).settings().start == final(s).window_start_local@);
}

} // verus!
