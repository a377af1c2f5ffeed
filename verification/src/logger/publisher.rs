//! Capture requests and camera commands: when they go out, what they say, what the log says
//! of them.

use vstd::prelude::*;
use vstd::string::*;

use super::state::{logged, AppState};
use crate::clock::{clock_stamp, clock_text, MAX_UNIX_SECS, MIN_UNIX_SECS};
use crate::json::{command_payload, command_text};
use crate::text::{dec, i32_text, int_dec, u64_text};

verus! {

/// Nanoseconds in a second.
pub const NANOS: u128 = 1_000_000_000;

/// How far back the last request is taken to lie at the start, in nanoseconds.
pub const HEAD_START: u128 = 9_999_000_000_000;

/// When the last capture request went out, in nanoseconds on a clock that only moves forward.
#[derive(Clone, Copy, Debug, PartialEq, Eq, Structural)]
pub struct Publisher {
    pub last_sent: u128,
}

/// What one look at the state says of the next capture request.
#[derive(Clone, Copy, Debug, PartialEq, Eq, Structural)]
pub struct CapturePlan {
    pub interval: u64,
    pub in_window: bool,
    pub exposure: i32,
    pub gain: i32,
    pub stack_secs: u32,
}

impl Publisher {
    /// Nanoseconds since the last request.
    pub open spec fn elapsed(self, now: u128) -> int {
        if now >= self.last_sent {
            now - self.last_sent
        } else {
            0
        }
    }

    /// Whether a request is due.
    pub open spec fn is_due(self, interval: u64, in_window: bool, now: u128) -> bool {
        in_window && self.elapsed(now) >= interval * NANOS
    }

    /// When the next request goes out, as far as can be told.
    pub open spec fn next_at(self, interval: u64, in_window: bool, now: u128) -> Option<u128> {
        if !in_window {
            None
        } else if self.elapsed(now) < interval * NANOS {
            Some((now + (interval * NANOS - self.elapsed(now))) as u128)
        } else {
            Some(now)
        }
    }

    /// The publisher at the start: the last request lies far back, where the clock reaches that
    /// far.
    pub open spec fn at_start(now: u128) -> Publisher {
        Publisher {
            last_sent: if now >= HEAD_START {
                (now - HEAD_START) as u128
            } else {
                now
            },
        }
    }

    /// Starts with the last request far back, where the clock reaches that far.
    pub fn new(now: u128) -> (r: Publisher)
        ensures
            r == Publisher::at_start(now),
    {
        if now >= HEAD_START {
            Publisher { last_sent: now - HEAD_START }
        } else {
            Publisher { last_sent: now }
        }
    }

    fn since(&self, now: u128) -> (r: u128)
        ensures
            r == self.elapsed(now),
    {
        if now >= self.last_sent {
            now - self.last_sent
        } else {
            0
        }
    }

    /// Notes in the state when the next request goes out, and collects what it would say.
    pub fn plan(&self, s: &mut AppState, in_window: bool, now: u128) -> (r: CapturePlan)
        requires
            now + old(s).interval_secs * NANOS <= u128::MAX,
        ensures
            final(s).next_capture_at == self.next_at(old(s).interval_secs, in_window, now),
            final(s).settings() == old(s).settings(),
            final(s).same_status(
                (AppState { next_capture_at: final(s).next_capture_at, ..*old(s) }),
            ),
            r == (CapturePlan {
                interval: old(s).interval_secs,
                in_window,
                exposure: old(s).exposure,
                gain: old(s).gain,
                stack_secs: old(s).stack_secs,
            }),
    {
        let elapsed: u128 = self.since(now);
        let wait: u128 = s.interval_secs as u128 * NANOS;
        s.next_capture_at =
        if in_window && elapsed < wait {
            Some(now + (wait - elapsed))
        } else if in_window {
            Some(now)
        } else {
            None
        };
        CapturePlan {
            interval: s.interval_secs,
            in_window,
            exposure: s.exposure,
            gain: s.gain,
            stack_secs: s.stack_secs,
        }
    }

    /// Whether the planned request is due.
    pub fn due(&self, plan: &CapturePlan, now: u128) -> (r: bool)
        ensures
            r == self.is_due(plan.interval, plan.in_window, now),
    {
        plan.in_window && self.since(now) >= plan.interval as u128 * NANOS
    }

    /// Takes note that a request was handed to the connection. One that was accepted is logged;
    /// the waiting starts anew either way.
    pub fn on_published(
        &mut self,
        s: &mut AppState,
        plan: &CapturePlan,
        accepted: bool,
        unix_secs: i64,
        now: u128,
    )
        requires
            MIN_UNIX_SECS <= unix_secs <= MAX_UNIX_SECS,
        ensures
            final(self).last_sent == now,
            final(s).log() == (if accepted {
                logged(
                    old(s).log(),
                    request_line(
                        unix_secs as int,
                        " → senddata exp="@,
                        plan.exposure as int,
                        plan.gain as int,
                        plan.stack_secs as int,
                    ),
                )
            } else {
                old(s).log()
            }),
            final(s).settings() == old(s).settings(),
            final(s).same_but_log(*old(s)),
    {
        if accepted {
            s.push_log(
                request_log(unix_secs, " → senddata exp=", plan.exposure, plan.gain, plan.stack_secs),
            );
        }
        self.last_sent = now;
    }
}

/// The log line of a capture request.
pub open spec fn request_line(
    unix_secs: int,
    what: Seq<char>,
    exposure: int,
    gain: int,
    stack_secs: int,
) -> Seq<char> {
    clock_text(unix_secs) + " UTC"@ + what + int_dec(exposure) + " gain="@ + int_dec(gain)
        + " stack="@ + dec(stack_secs as nat) + "s"@
}

fn request_log(unix_secs: i64, what: &str, exposure: i32, gain: i32, stack_secs: u32) -> (r: String)
    requires
        MIN_UNIX_SECS <= unix_secs <= MAX_UNIX_SECS,
    ensures
        r@ == request_line(
            unix_secs as int,
            what@,
            exposure as int,
            gain as int,
            stack_secs as int,
        ),
{
    let mut t = clock_stamp(unix_secs);
    t.append(what);
    t.append(i32_text(exposure).as_str());
    t.append(" gain=");
    t.append(i32_text(gain).as_str());
    t.append(" stack=");
    t.append(u64_text(stack_secs as u64).as_str());
    t.append("s");
    t
}

/// The log line of a capture that was requested by hand.
pub fn manual_log(unix_secs: i64, exposure: i32, gain: i32, stack_secs: u32) -> (r: String)
    requires
        MIN_UNIX_SECS <= unix_secs <= MAX_UNIX_SECS,
    ensures
        r@ == request_line(
            unix_secs as int,
            " → MANUAL exp="@,
            exposure as int,
            gain as int,
            stack_secs as int,
        ),
{
    request_log(unix_secs, " → MANUAL exp=", exposure, gain, stack_secs)
}

/// The commands that bring all camera values to the device, in the order in which they go out.
pub fn camera_commands(quality: u8, gain_ceiling: u8, framesize: u8) -> (r: Vec<String>)
    ensures
        r.len() == 3,
        r[0]@ == command_text("SetQuality"@, quality as int),
        r[1]@ == command_text("SetGainCeiling"@, gain_ceiling as int),
        r[2]@ == command_text("SetFramesize"@, framesize as int),
{
    let mut r: Vec<String> = Vec::new();
    r.push(command_payload("SetQuality", quality));
    r.push(command_payload("SetGainCeiling", gain_ceiling));
    r.push(command_payload("SetFramesize", framesize));
    r
}

/// The log line that follows the sending of all camera values.
pub fn camera_log(unix_secs: i64, quality: u8, gain_ceiling: u8, framesize: u8) -> (r: String)
    requires
        MIN_UNIX_SECS <= unix_secs <= MAX_UNIX_SECS,
    ensures
        r@ == clock_text(unix_secs as int) + " UTC"@ + " → camera cmd sent: Q="@ + dec(
            quality as nat,
        ) + " GC="@ + dec(gain_ceiling as nat) + " FS="@ + dec(framesize as nat),
{
    let mut t = clock_stamp(unix_secs);
    t.append(" → camera cmd sent: Q=");
    t.append(u64_text(quality as u64).as_str());
    t.append(" GC=");
    t.append(u64_text(gain_ceiling as u64).as_str());
    t.append(" FS=");
    t.append(u64_text(framesize as u64).as_str());
    t
}

/// Where the clock reaches back far enough, the first request goes out at once inside the
/// window, for every interval up to the head start.
pub proof fn law_first_request_at_once(start: u128, interval: u64, now: u128)
    requires
        HEAD_START <= start <= now,
        interval * NANOS <= HEAD_START,
    ensures
        Publisher::at_start(start).is_due(interval, true, now),
{
}

/// Two requests are never less than the interval apart: after one went out, none is due until
/// the interval is over.
pub proof fn law_requests_keep_interval(p: Publisher, interval: u64, in_window: bool, now: u128)
    requires
        p.is_due(interval, in_window, now),
        interval > 0,
    ensures
        now - p.last_sent >= interval * NANOS,
{
    assert(interval * NANOS > 0) by (nonlinear_arith)
        requires
            interval > 0,
            NANOS > 0,
    ;
}

/// Outside the window no request is due, and none is announced.
pub proof fn law_no_request_outside_window(p: Publisher, interval: u64, now: u128)
    ensures
        !p.is_due(interval, false, now),
        p.next_at(interval, false, now) is None,
{
}

/// Inside the window the announced time is the time at which a request becomes due.
pub proof fn law_announced_time_is_due(p: Publisher, interval: u64, now: u128, later: u128)
    requires
        now >= p.last_sent,
        later >= now,
        now + interval * NANOS <= u128::MAX,
    ensures
        p.next_at(interval, true, now) matches Some(at) && (p.is_due(interval, true, later)
            <==> later >= at),
{
}

} // verus!
