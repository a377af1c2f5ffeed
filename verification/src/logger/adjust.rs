//! Changing the settings step by step.

use vstd::prelude::*;

use super::state::{AppState, Settings};
use super::tui::TuiApp;
use crate::clock::{shift_time, wrap_day, DAY_SECS};
use crate::json::{command_payload, command_text};

verus! {

/// `n`, or the nearest number from `lo` to `hi`.
pub open spec fn clamp(n: int, lo: int, hi: int) -> int {
    if n < lo {
        lo
    } else if n > hi {
        hi
    } else {
        n
    }
}

fn clamped(n: i64, lo: i64, hi: i64) -> (r: i64)
    requires
        lo <= hi,
    ensures
        r == clamp(n as int, lo as int, hi as int),
        lo <= r <= hi,
{
    if n < lo {
        lo
    } else if n > hi {
        hi
    } else {
        n
    }
}

/// A setting that is automatic below 0, one step up or down: from automatic up to 0, from 0 down
/// to automatic, else by `step` within 0 and `max`.
pub open spec fn auto_step(n: int, up: bool, step: int, max: int) -> int {
    if up {
        if n < 0 {
            0
        } else {
            clamp(n + step, i32::MIN as int, max)
        }
    } else {
        if n <= 0 {
            -1
        } else {
            clamp(n - step, 0, i32::MAX as int)
        }
    }
}

/// The settings after the given field of the given tab was adjusted by `delta` steps.
pub open spec fn adjusted(s: Settings, tab: int, field: int, delta: i64) -> Settings {
    if tab == 0 {
        if field == 0 {
            Settings { interval: clamp((s.interval as i64) + delta * 5, 5, 3600) as u64, ..s }
        } else if field == 1 {
            Settings { start: wrap_day(s.start + delta * 300), ..s }
        } else if field == 2 {
            Settings { stop: wrap_day(s.stop + delta * 300), ..s }
        } else if field == 3 {
            Settings { utc_offset: clamp(s.utc_offset + (delta as i32), -12, 14) as i32, ..s }
        } else {
            s
        }
    } else if tab == 1 {
        if field == 0 {
            Settings { exposure: auto_step(s.exposure as int, delta > 0, 50, 1200) as i32, ..s }
        } else if field == 1 {
            Settings { gain: auto_step(s.gain as int, delta > 0, 1, 30) as i32, ..s }
        } else if field == 2 {
            Settings { quality: clamp(s.quality + delta, 1, 63) as u8, ..s }
        } else if field == 3 {
            Settings { gain_ceiling: clamp(s.gain_ceiling + delta, 0, 6) as u8, ..s }
        } else if field == 4 {
            Settings { stack_secs: clamp(s.stack_secs + delta, 0, 10) as u32, ..s }
        } else if field == 5 {
            Settings { framesize: clamp(s.framesize + delta, 0, 13) as u8, ..s }
        } else {
            s
        }
    } else {
        s
    }
}

/// The command that tells the camera of an adjusted field, for the fields of which it is told.
pub open spec fn adjust_command(s: Settings, tab: int, field: int) -> Option<Seq<char>> {
    if tab == 1 && field == 2 {
        Some(command_text("SetQuality"@, s.quality as int))
    } else if tab == 1 && field == 3 {
        Some(command_text("SetGainCeiling"@, s.gain_ceiling as int))
    } else if tab == 1 && field == 5 {
        Some(command_text("SetFramesize"@, s.framesize as int))
    } else {
        None
    }
}

/// Whether an adjustment stays within the machine's numbers before it is limited.
pub open spec fn adjust_fits(s: Settings, tab: int, field: int, delta: i64) -> bool {
    if tab == 0 {
        if field == 0 {
            &&& i64::MIN <= delta * 5 <= i64::MAX
            &&& i64::MIN <= (s.interval as i64) + delta * 5 <= i64::MAX
        } else if field == 1 {
            i64::MIN <= delta * 300 <= i64::MAX && s.start + delta * 300 <= i64::MAX
        } else if field == 2 {
            i64::MIN <= delta * 300 <= i64::MAX && s.stop + delta * 300 <= i64::MAX
        } else if field == 3 {
            i32::MIN <= s.utc_offset + (delta as i32) <= i32::MAX
        } else {
            true
        }
    } else if tab == 1 {
        if field == 0 {
            delta > 0 ==> s.exposure + 50 <= i32::MAX
        } else if field == 1 {
            delta > 0 ==> s.gain + 1 <= i32::MAX
        } else if field == 2 {
            s.quality + delta <= i64::MAX
        } else if field == 3 {
            s.gain_ceiling + delta <= i64::MAX
        } else if field == 4 {
            s.stack_secs + delta <= i64::MAX
        } else if field == 5 {
            s.framesize + delta <= i64::MAX
        } else {
            true
        }
    } else {
        true
    }
}

/// Whether the selected field can be adjusted by `delta` within the machine's numbers.
pub fn adjust_in_range(s: &AppState, app: &TuiApp, delta: i64) -> (r: bool)
    ensures
        r == adjust_fits(s.settings(), app.tab as int, app.field() as int, delta),
{
    let max: i128 = i64::MAX as i128;
    let min: i128 = i64::MIN as i128;
    let d: i128 = delta as i128;
    let field: usize = app.sel();
    if app.tab == 0 {
        if field == 0 {
            let n: i128 = (s.interval_secs as i64) as i128 + d * 5;
            min <= d * 5 && d * 5 <= max && min <= n && n <= max
        } else if field == 1 {
            min <= d * 300 && d * 300 <= max && s.window_start_local.secs() as i128 + d * 300 <= max
        } else if field == 2 {
            min <= d * 300 && d * 300 <= max && s.window_stop_local.secs() as i128 + d * 300 <= max
        } else if field == 3 {
            let n: i64 = s.utc_offset_hours as i64 + (delta as i32) as i64;
            i32::MIN as i64 <= n && n <= i32::MAX as i64
        } else {
            true
        }
    } else if app.tab == 1 {
        if field == 0 {
            delta <= 0 || s.exposure <= i32::MAX - 50
        } else if field == 1 {
            delta <= 0 || s.gain <= i32::MAX - 1
        } else if field == 2 {
            s.quality as i128 + d <= max
        } else if field == 3 {
            s.gain_ceiling as i128 + d <= max
        } else if field == 4 {
            s.stack_secs as i128 + d <= max
        } else if field == 5 {
            s.framesize as i128 + d <= max
        } else {
            true
        }
    } else {
        true
    }
}

fn auto_stepped(n: i32, up: bool, step: i32, max: i32) -> (r: i32)
    requires
        0 < step <= 50,
        0 <= max,
        up ==> n + step <= i32::MAX,
    ensures
        r == auto_step(n as int, up, step as int, max as int),
{
    if up {
        if n < 0 {
            0
        } else if n + step > max {
            max
        } else {
            n + step
        }
    } else if n <= 0 {
        -1
    } else if n - step < 0 {
        0
    } else {
        n - step
    }
}

/// Adjusts the selected field by `delta` steps, up for a positive and down for a negative one.
/// Returns the command that the camera has to get, if it has to get one.
pub fn adjust(s: &mut AppState, app: &TuiApp, delta: i64) -> (r: Option<String>)
    requires
        adjust_fits(old(s).settings(), app.tab as int, app.field() as int, delta),
    ensures
        final(s).settings() == adjusted(
            old(s).settings(),
            app.tab as int,
            app.field() as int,
            delta,
        ),
        final(s).same_status(*old(s)),
        (match r {
            Some(cmd) => adjust_command(
                final(s).settings(),
                app.tab as int,
                app.field() as int,
            ) == Some(cmd@),
            None => adjust_command(
                final(s).settings(),
                app.tab as int,
                app.field() as int,
            ) is None,
        }),
{
    let field: usize = app.sel();
    if app.tab == 0 {
        if field == 0 {
            s.interval_secs = clamped(s.interval_secs as i64 + delta * 5, 5, 3600) as u64;
        } else if field == 1 {
            s.window_start_local = shift_time(s.window_start_local, delta * 5);
        } else if field == 2 {
            s.window_stop_local = shift_time(s.window_stop_local, delta * 5);
        } else if field == 3 {
            s.utc_offset_hours = clamped((s.utc_offset_hours + delta as i32) as i64, -12, 14) as i32;
        }
        None
    } else if app.tab == 1 {
        if field == 0 {
            s.exposure = auto_stepped(s.exposure, delta > 0, 50, 1200);
            None
        } else if field == 1 {
            s.gain = auto_stepped(s.gain, delta > 0, 1, 30);
            None
        } else if field == 2 {
            s.quality = clamped(s.quality as i64 + delta, 1, 63) as u8;
            Some(command_payload("SetQuality", s.quality))
        } else if field == 3 {
            s.gain_ceiling = clamped(s.gain_ceiling as i64 + delta, 0, 6) as u8;
            Some(command_payload("SetGainCeiling", s.gain_ceiling))
        } else if field == 4 {
            s.stack_secs = clamped(s.stack_secs as i64 + delta, 0, 10) as u32;
            None
        } else if field == 5 {
            s.framesize = clamped(s.framesize as i64 + delta, 0, 13) as u8;
            Some(command_payload("SetFramesize", s.framesize))
        } else {
            None
        }
    } else {
        None
    }
}

/// The limits that the settings are kept in.
pub open spec fn within_limits(s: Settings) -> bool {
    &&& 5 <= s.interval <= 3600
    &&& 0 <= s.start < DAY_SECS
    &&& 0 <= s.stop < DAY_SECS
    &&& -12 <= s.utc_offset <= 14
    &&& -1 <= s.exposure <= 1200
    &&& -1 <= s.gain <= 30
    &&& 1 <= s.quality <= 63
    &&& s.gain_ceiling <= 6
    &&& s.stack_secs <= 10
    &&& s.framesize <= 13
}

/// The limits that one field is kept in.
pub open spec fn field_within_limits(s: Settings, tab: int, field: int) -> bool {
    if tab == 0 {
        &&& field == 0 ==> 5 <= s.interval <= 3600
        &&& field == 1 ==> 0 <= s.start < DAY_SECS
        &&& field == 2 ==> 0 <= s.stop < DAY_SECS
        &&& field == 3 ==> -12 <= s.utc_offset <= 14
    } else if tab == 1 {
        &&& field == 0 ==> -1 <= s.exposure <= 1200
        &&& field == 1 ==> -1 <= s.gain <= 30
        &&& field == 2 ==> 1 <= s.quality <= 63
        &&& field == 3 ==> s.gain_ceiling <= 6
        &&& field == 4 ==> s.stack_secs <= 10
        &&& field == 5 ==> s.framesize <= 13
    } else {
        true
    }
}

/// Settings within their limits stay within them, whatever field is adjusted by however much.
pub proof fn law_adjust_keeps_limits(s: Settings, tab: int, field: int, delta: i64)
    requires
        within_limits(s),
    ensures
        within_limits(adjusted(s, tab, field, delta)),
{
}

/// Within its limits every setting can be stepped up and down.
pub proof fn law_limits_allow_steps(s: Settings, tab: int, field: int)
    requires
        field_within_limits(s, tab, field),
    ensures
        adjust_fits(s, tab, field, 1i64),
        adjust_fits(s, tab, field, -1i64),
{
}

/// Adjusting changes the selected field and no other. Where no field is selected it changes
/// nothing, and the camera gets no command.
pub proof fn law_adjust_changes_selected_field(s: Settings, tab: int, field: int, delta: i64)
    ensures
        ({
            let t = adjusted(s, tab, field, delta);
            t == (if tab == 0 && field == 0 {
                Settings { interval: t.interval, ..s }
            } else if tab == 0 && field == 1 {
                Settings { start: t.start, ..s }
            } else if tab == 0 && field == 2 {
                Settings { stop: t.stop, ..s }
            } else if tab == 0 && field == 3 {
                Settings { utc_offset: t.utc_offset, ..s }
            } else if tab == 1 && field == 0 {
                Settings { exposure: t.exposure, ..s }
            } else if tab == 1 && field == 1 {
                Settings { gain: t.gain, ..s }
            } else if tab == 1 && field == 2 {
                Settings { quality: t.quality, ..s }
            } else if tab == 1 && field == 3 {
                Settings { gain_ceiling: t.gain_ceiling, ..s }
            } else if tab == 1 && field == 4 {
                Settings { stack_secs: t.stack_secs, ..s }
            } else if tab == 1 && field == 5 {
                Settings { framesize: t.framesize, ..s }
            } else {
                s
            })
        }),
        !(tab == 0 && 0 <= field < 4) && !(tab == 1 && 0 <= field < 6) ==> {
            &&& adjusted(s, tab, field, delta) == s
            &&& adjust_command(s, tab, field) is None
        },
{
}

/// Adjusting brings the field into its limits even from outside, for the fields that are
/// limited on both sides.
pub proof fn law_adjust_limits_field(s: Settings, delta: i64)
    ensures
        5 <= adjusted(s, 0, 0, delta).interval <= 3600,
        0 <= adjusted(s, 0, 1, delta).start < DAY_SECS,
        0 <= adjusted(s, 0, 2, delta).stop < DAY_SECS,
        -12 <= adjusted(s, 0, 3, delta).utc_offset <= 14,
        1 <= adjusted(s, 1, 2, delta).quality <= 63,
        adjusted(s, 1, 3, delta).gain_ceiling <= 6,
        adjusted(s, 1, 4, delta).stack_secs <= 10,
        adjusted(s, 1, 5, delta).framesize <= 13,
{
}

/// Whether a step up is a full one, not cut off at the limit.
pub open spec fn full_step_up(s: Settings, tab: int, field: int) -> bool {
    if tab == 0 {
        &&& field == 0 ==> s.interval + 5 <= 3600
        &&& field == 3 ==> s.utc_offset + 1 <= 14
    } else if tab == 1 {
        &&& field == 0 ==> s.exposure + 50 <= 1200
        &&& field == 1 ==> s.gain + 1 <= 30
        &&& field == 2 ==> s.quality + 1 <= 63
        &&& field == 3 ==> s.gain_ceiling + 1 <= 6
        &&& field == 4 ==> s.stack_secs + 1 <= 10
        &&& field == 5 ==> s.framesize + 1 <= 13
    } else {
        true
    }
}

/// A full step up is undone by a step down.
pub proof fn law_step_down_undoes_step_up(s: Settings, tab: int, field: int)
    requires
        field_within_limits(s, tab, field),
        full_step_up(s, tab, field),
    ensures
        adjusted(adjusted(s, tab, field, 1), tab, field, -1i64) == s,
{
}

/// Whether a step down is a full one, not cut off at the limit. From 0 to automatic is a full
/// step.
pub open spec fn full_step_down(s: Settings, tab: int, field: int) -> bool {
    if tab == 0 {
        &&& field == 0 ==> s.interval - 5 >= 5
        &&& field == 3 ==> s.utc_offset - 1 >= -12
    } else if tab == 1 {
        &&& field == 0 ==> s.exposure == 0 || s.exposure - 50 >= 0
        &&& field == 1 ==> s.gain >= 0
        &&& field == 2 ==> s.quality - 1 >= 1
        &&& field == 3 ==> s.gain_ceiling >= 1
        &&& field == 4 ==> s.stack_secs >= 1
        &&& field == 5 ==> s.framesize >= 1
    } else {
        true
    }
}

/// A full step down is undone by a step up.
pub proof fn law_step_up_undoes_step_down(s: Settings, tab: int, field: int)
    requires
        field_within_limits(s, tab, field),
        full_step_down(s, tab, field),
    ensures
        adjusted(adjusted(s, tab, field, -1i64), tab, field, 1) == s,
{
}

/// The camera is told of a change on the camera tab alone.
pub proof fn law_commands_come_from_camera_tab(s: Settings, tab: int, field: int)
    ensures
        adjust_command(s, tab, field) is Some ==> tab == 1,
{
}

} // verus!
