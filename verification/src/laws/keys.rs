//! Laws on navigation, keys and settings.

use vstd::prelude::*;
use vstd::string::*;

use super::state::{law_log_has_lines, same_lines, same_record, same_settings};
use super::time::days_apart;
use crate::json::command_payload;
use crate::logger::adjust::{adjust, adjust_in_range};
use crate::logger::keys::{handle_key, key_in_range, Key, KeyAction};
use crate::logger::state::AppState;
use crate::logger::tui::TuiApp;

verus! {

/// The selected field: on the first tab the first selection counts, on the others the second.
pub open spec fn selection(app: TuiApp) -> int {
    if app.tab == 0 {
        app.selected@[0] as int
    } else {
        app.selected@[1] as int
    }
}

/// The user interface starts on the first field of the first tab, with nothing to send.
pub proof fn law_new_app(r: TuiApp)
    requires
        call_ensures(TuiApp::new, (), r),
    ensures
        r.tab == 0,
        r.selected@[0] == 0,
        r.selected@[1] == 0,
        !r.camera_dirty,
{
}

/// The schedule has four fields, the camera six, the status none.
pub proof fn law_tab_field_count(app: TuiApp, r: usize)
    requires
        call_ensures(TuiApp::tab_field_count, (&app,), r),
    ensures
        app.tab == 0 ==> r == 4,
        app.tab == 1 ==> r == 6,
        app.tab >= 2 ==> r == 0,
{
}

/// The selected field is that of the current tab.
pub proof fn law_sel(app: TuiApp, r: usize)
    requires
        call_ensures(TuiApp::sel, (&app,), r),
    ensures
        r == selection(app),
{
}

/// Going to the next tab and to the previous one, round the three tabs.
pub proof fn law_change_tab(next: &mut TuiApp, prev: &mut TuiApp)
    requires
        call_ensures(TuiApp::next_tab, (next,), ()),
        call_ensures(TuiApp::prev_tab, (prev,), ()),
    ensures
        old(next).tab < 2 ==> final(next).tab == old(next).tab + 1,
        old(next).tab == 2 ==> final(next).tab == 0,
        0 < old(prev).tab <= 2 ==> final(prev).tab == old(prev).tab - 1,
        old(prev).tab == 0 ==> final(prev).tab == 2,
        final(next).selected@ == old(next).selected@,
        final(prev).selected@ == old(prev).selected@,
        final(next).camera_dirty == old(next).camera_dirty,
        final(prev).camera_dirty == old(prev).camera_dirty,
{
}

/// Moving up selects the field above, and the first field stays; the other selection stays.
pub proof fn law_move_up(app: &mut TuiApp)
    requires
        call_ensures(TuiApp::move_up, (app,), ()),
    ensures
        final(app).tab == old(app).tab,
        final(app).camera_dirty == old(app).camera_dirty,
        selection(*old(app)) > 0 ==> selection(*final(app)) == selection(*old(app)) - 1,
        selection(*old(app)) == 0 ==> selection(*final(app)) == 0,
        old(app).tab == 0 ==> final(app).selected@[1] == old(app).selected@[1],
        old(app).tab != 0 ==> final(app).selected@[0] == old(app).selected@[0],
{
}

/// Moving down selects the field below, and the last field of the tab stays; the other selection
/// stays.
pub proof fn law_move_down(app: &mut TuiApp)
    requires
        call_ensures(TuiApp::move_down, (app,), ()),
    ensures
        final(app).tab == old(app).tab,
        final(app).camera_dirty == old(app).camera_dirty,
        selection(*final(app)) == selection(*old(app)) + (if old(app).tab == 0 && selection(
            *old(app),
        ) < 3 || old(app).tab == 1 && selection(*old(app)) < 5 {
            1int
        } else {
            0
        }),
        old(app).tab == 0 ==> final(app).selected@[1] == old(app).selected@[1],
        old(app).tab != 0 ==> final(app).selected@[0] == old(app).selected@[0],
{
}

/// Whether `r` is `n`, or where `n` is outside the limits the limit that is nearer.
pub open spec fn is_limited(r: int, n: int, lo: int, hi: int) -> bool {
    &&& lo <= r <= hi
    &&& lo <= n <= hi ==> r == n
    &&& n < lo ==> r == lo
    &&& n > hi ==> r == hi
}

/// The interval goes up and down by five seconds, from 5 to 3600; start and stop of the window by
/// five minutes, round the clock; the offset from UTC by an hour, from -12 to 14. The camera is
/// not told.
pub proof fn law_adjust_schedule(s: &mut AppState, app: &TuiApp, delta: i64, r: Option<String>)
    requires
        call_ensures(adjust, (s, app, delta), r),
        app.tab == 0,
        old(s).interval_secs <= i64::MAX,
        i32::MIN <= delta <= i32::MAX,
    ensures
        r is None,
        app.selected@[0] == 0 ==> is_limited(
            final(s).interval_secs as int,
            old(s).interval_secs + delta * 5,
            5,
            3600,
        ),
        app.selected@[0] != 0 ==> final(s).interval_secs == old(s).interval_secs,
        app.selected@[0] == 1 ==> 0 <= final(s).window_start_local@ < 86400 && days_apart(
            final(s).window_start_local@,
            old(s).window_start_local@ + delta * 300,
        ),
        app.selected@[0] != 1 ==> final(s).window_start_local@ == old(s).window_start_local@,
        app.selected@[0] == 2 ==> 0 <= final(s).window_stop_local@ < 86400 && days_apart(
            final(s).window_stop_local@,
            old(s).window_stop_local@ + delta * 300,
        ),
        app.selected@[0] != 2 ==> final(s).window_stop_local@ == old(s).window_stop_local@,
        app.selected@[0] == 3 ==> is_limited(
            final(s).utc_offset_hours as int,
            old(s).utc_offset_hours + delta,
            -12,
            14,
        ),
        app.selected@[0] != 3 ==> final(s).utc_offset_hours == old(s).utc_offset_hours,
        final(s).exposure == old(s).exposure,
        final(s).gain == old(s).gain,
        final(s).quality == old(s).quality,
        final(s).gain_ceiling == old(s).gain_ceiling,
        final(s).stack_secs == old(s).stack_secs,
        final(s).framesize == old(s).framesize,
{
    reveal(crate::logger::adjust::adjusted);
    let before = old(s).settings();
    let after = final(s).settings();
    assert(after.interval == final(s).interval_secs);
    assert(after.utc_offset == final(s).utc_offset_hours);
}

/// Exposure goes from automatic to 0 and on by 50 to 1200, and back; gain from automatic to 0 and
/// on by 1 to 30, and back. Both go by the direction alone, and the camera is not told.
pub proof fn law_adjust_exposure_and_gain(
    s: &mut AppState,
    app: &TuiApp,
    delta: i64,
    r: Option<String>,
)
    requires
        call_ensures(adjust, (s, app, delta), r),
        app.tab == 1,
        app.selected@[1] < 2,
    ensures
        r is None,
        app.selected@[1] == 0 ==> {
            &&& delta > 0 && old(s).exposure < 0 ==> final(s).exposure == 0
            &&& delta > 0 && 0 <= old(s).exposure <= 1150 ==> final(s).exposure == old(s).exposure
                + 50
            &&& delta > 0 && old(s).exposure > 1150 ==> final(s).exposure == 1200
            &&& delta <= 0 && old(s).exposure <= 0 ==> final(s).exposure == -1
            &&& delta <= 0 && 0 < old(s).exposure <= 50 ==> final(s).exposure == 0
            &&& delta <= 0 && old(s).exposure > 50 ==> final(s).exposure == old(s).exposure - 50
            &&& final(s).gain == old(s).gain
        },
        app.selected@[1] == 1 ==> {
            &&& delta > 0 && old(s).gain < 0 ==> final(s).gain == 0
            &&& delta > 0 && 0 <= old(s).gain < 30 ==> final(s).gain == old(s).gain + 1
            &&& delta > 0 && old(s).gain >= 30 ==> final(s).gain == 30
            &&& delta <= 0 && old(s).gain <= 0 ==> final(s).gain == -1
            &&& delta <= 0 && old(s).gain > 0 ==> final(s).gain == old(s).gain - 1
            &&& final(s).exposure == old(s).exposure
        },
        final(s).quality == old(s).quality,
        final(s).gain_ceiling == old(s).gain_ceiling,
        final(s).stack_secs == old(s).stack_secs,
        final(s).framesize == old(s).framesize,
        final(s).interval_secs == old(s).interval_secs,
        final(s).window_start_local@ == old(s).window_start_local@,
        final(s).window_stop_local@ == old(s).window_stop_local@,
        final(s).utc_offset_hours == old(s).utc_offset_hours,
{
    let after = final(s).settings();
    assert(after.exposure == final(s).exposure && after.gain == final(s).gain);
}

/// Quality goes by 1 from 1 to 63, gain ceiling from 0 to 6, stacking from 0 to 10 seconds, frame
/// size from 0 to 13. All but the stacking come with the command that sets the new value.
pub proof fn law_adjust_camera(
    s: &mut AppState,
    app: &TuiApp,
    delta: i64,
    r: Option<String>,
    quality: String,
    ceiling: String,
    framesize: String,
)
    requires
        call_ensures(adjust, (s, app, delta), r),
        app.tab == 1,
        app.selected@[1] >= 2,
        call_ensures(command_payload, ("SetQuality", final(s).quality), quality),
        call_ensures(command_payload, ("SetGainCeiling", final(s).gain_ceiling), ceiling),
        call_ensures(command_payload, ("SetFramesize", final(s).framesize), framesize),
    ensures
        app.selected@[1] == 2 ==> is_limited(
            final(s).quality as int,
            old(s).quality + delta,
            1,
            63,
        ) && (r matches Some(c) && c@ == quality@),
        app.selected@[1] != 2 ==> final(s).quality == old(s).quality,
        app.selected@[1] == 3 ==> is_limited(
            final(s).gain_ceiling as int,
            old(s).gain_ceiling + delta,
            0,
            6,
        ) && (r matches Some(c) && c@ == ceiling@),
        app.selected@[1] != 3 ==> final(s).gain_ceiling == old(s).gain_ceiling,
        app.selected@[1] == 4 ==> is_limited(
            final(s).stack_secs as int,
            old(s).stack_secs + delta,
            0,
            10,
        ) && r is None,
        app.selected@[1] != 4 ==> final(s).stack_secs == old(s).stack_secs,
        app.selected@[1] == 5 ==> is_limited(
            final(s).framesize as int,
            old(s).framesize + delta,
            0,
            13,
        ) && (r matches Some(c) && c@ == framesize@),
        app.selected@[1] != 5 ==> final(s).framesize == old(s).framesize,
        app.selected@[1] > 5 ==> r is None,
        final(s).exposure == old(s).exposure,
        final(s).gain == old(s).gain,
        final(s).interval_secs == old(s).interval_secs,
        final(s).window_start_local@ == old(s).window_start_local@,
        final(s).window_stop_local@ == old(s).window_stop_local@,
        final(s).utc_offset_hours == old(s).utc_offset_hours,
{
    let after = final(s).settings();
    assert(after.quality == final(s).quality && after.stack_secs == final(s).stack_secs);
}

/// Adjusting touches nothing but settings, and on the status tab and beyond not even these.
pub proof fn law_adjust_keeps_record(s: &mut AppState, app: &TuiApp, delta: i64, r: Option<String>)
    requires
        call_ensures(adjust, (s, app, delta), r),
    ensures
        same_record(*final(s), *old(s)),
        same_lines(final(s).log_lines@, old(s).log_lines@),
        final(s).mqtt_connected == old(s).mqtt_connected,
        final(s).next_capture_at == old(s).next_capture_at,
        app.tab >= 2 || (app.tab == 0 && app.selected@[0] >= 4) || (app.tab == 1
            && app.selected@[1] >= 6) ==> same_settings(*final(s), *old(s)) && r is None,
{
    law_log_has_lines(*old(s), *final(s));
    assert(final(s).settings().start == final(s).window_start_local@);
}

/// A setting can be stepped in either direction unless that leaves the numbers of the machine.
pub proof fn law_adjust_in_range(s: AppState, app: TuiApp, delta: i64, r: bool)
    requires
        call_ensures(adjust_in_range, (&s, &app, delta), r),
        delta == 1 || delta == -1,
        0 <= s.window_start_local@ < 86400,
        0 <= s.window_stop_local@ < 86400,
        s.interval_secs <= i64::MAX,
    ensures
        !r ==> {
            ||| app.tab == 0 && app.selected@[0] == 0 && s.interval_secs + delta * 5 > i64::MAX
            ||| app.tab == 0 && app.selected@[0] == 3 && !(i32::MIN <= s.utc_offset_hours + delta
                <= i32::MAX)
            ||| app.tab == 1 && app.selected@[1] == 0 && delta > 0 && s.exposure + 50 > i32::MAX
            ||| app.tab == 1 && app.selected@[1] == 1 && delta > 0 && s.gain + 1 > i32::MAX
        },
{
}

/// A key can be handled exactly if the step that it asks for can be made.
pub proof fn law_key_in_range(app: TuiApp, s: AppState, key: Key, r: bool, up: bool, down: bool)
    requires
        call_ensures(key_in_range, (&app, &s, key), r),
        call_ensures(adjust_in_range, (&s, &app, 1i64), up),
        call_ensures(adjust_in_range, (&s, &app, -1i64), down),
    ensures
        key is Right || key == Key::Char('+') ==> r == up,
        key is Left || key == Key::Char('-') ==> r == down,
        !steps(key) ==> r,
{
}

/// Letting a key go does nothing.
pub proof fn law_released_key(app: &mut TuiApp, s: &mut AppState, key: Key, r: KeyAction)
    requires
        call_ensures(handle_key, (app, s, key, false), r),
    ensures
        r is Stay,
        *final(app) == *old(app),
        same_settings(*final(s), *old(s)),
{
    assert(final(s).settings().start == final(s).window_start_local@);
}

/// No key touches anything but settings.
pub proof fn law_keys_keep_record(
    app: &mut TuiApp,
    s: &mut AppState,
    key: Key,
    pressed: bool,
    r: KeyAction,
)
    requires
        call_ensures(handle_key, (app, s, key, pressed), r),
    ensures
        same_record(*final(s), *old(s)),
        same_lines(final(s).log_lines@, old(s).log_lines@),
        final(s).mqtt_connected == old(s).mqtt_connected,
        final(s).next_capture_at == old(s).next_capture_at,
{
    law_log_has_lines(*old(s), *final(s));
}

/// Whether a key changes settings.
pub open spec fn steps(key: Key) -> bool {
    key is Left || key is Right || key == Key::Char('-') || key == Key::Char('+')
}

/// `q` and escape leave the user interface, and no other key does; neither changes anything.
pub proof fn law_quit_keys(app: &mut TuiApp, s: &mut AppState, key: Key, r: KeyAction)
    requires
        call_ensures(handle_key, (app, s, key, true), r),
    ensures
        r is Quit <==> key is Esc || key == Key::Char('q'),
        r is Quit ==> final(app).tab == old(app).tab && final(app).selected@ == old(app).selected@
            && final(app).camera_dirty == old(app).camera_dirty && same_settings(
            *final(s),
            *old(s),
        ),
{
    assert(final(s).settings().start == final(s).window_start_local@);
}

/// Tab, its reverse and the arrows up and down move as the user interface does, and nothing else
/// moves it.
pub proof fn law_moving_keys(
    app: &mut TuiApp,
    s: &mut AppState,
    key: Key,
    r: KeyAction,
    moved: &mut TuiApp,
)
    requires
        call_ensures(handle_key, (app, s, key, true), r),
        *old(moved) == *old(app),
        key is Tab ==> call_ensures(TuiApp::next_tab, (moved,), ()),
        key is BackTab ==> call_ensures(TuiApp::prev_tab, (moved,), ()),
        key is Up ==> call_ensures(TuiApp::move_up, (moved,), ()),
        key is Down ==> call_ensures(TuiApp::move_down, (moved,), ()),
        !(key is Tab || key is BackTab || key is Up || key is Down) ==> *final(moved) == *old(
            moved,
        ),
    ensures
        final(app).tab == final(moved).tab,
        final(app).selected@ == final(moved).selected@,
        key is Tab || key is BackTab || key is Up || key is Down ==> r is Stay && same_settings(
            *final(s),
            *old(s),
        ) && final(app).camera_dirty == old(app).camera_dirty,
{
    assert(final(s).settings().start == final(s).window_start_local@);
    assert(final(app).selected@ =~= final(moved).selected@);
}

/// Left and minus adjust the selected field down, right and plus up. On the camera tab a change of
/// which the camera has to be told is marked as not sent.
pub proof fn law_stepping_keys(
    app: &mut TuiApp,
    s: &mut AppState,
    key: Key,
    r: KeyAction,
    adjusted: &mut AppState,
    command: Option<String>,
)
    requires
        call_ensures(handle_key, (app, s, key, true), r),
        steps(key),
        *old(adjusted) == *old(s),
        key is Left || key == Key::Char('-') ==> call_ensures(
            adjust,
            (adjusted, &*old(app), -1i64),
            command,
        ),
        key is Right || key == Key::Char('+') ==> call_ensures(
            adjust,
            (adjusted, &*old(app), 1i64),
            command,
        ),
    ensures
        same_settings(*final(s), *final(adjusted)),
        old(app).tab == 1 ==> final(app).camera_dirty == (old(app).camera_dirty || command is Some),
        old(app).tab != 1 ==> final(app).camera_dirty == old(app).camera_dirty,
        r is Stay,
{
    assert(final(s).settings().start == final(s).window_start_local@);
    assert(final(adjusted).settings().start == final(adjusted).window_start_local@);
    assert(final(s).settings() == final(adjusted).settings());
}

/// Only the stepping keys change settings.
pub proof fn law_other_keys_keep_settings(app: &mut TuiApp, s: &mut AppState, key: Key, r: KeyAction)
    requires
        call_ensures(handle_key, (app, s, key, true), r),
        !steps(key),
    ensures
        same_settings(*final(s), *old(s)),
        !(r is Command),
{
    assert(final(s).settings().start == final(s).window_start_local@);
}

/// `s` sends the camera values as they are set, on the camera tab alone, and nothing is left to
/// send.
pub proof fn law_send_key(app: &mut TuiApp, s: &mut AppState, key: Key, r: KeyAction)
    requires
        call_ensures(handle_key, (app, s, key, true), r),
    ensures
        r is SendCamera <==> (key == Key::Char('s') || key == Key::Char('S')) && old(app).tab == 1,
        r matches KeyAction::SendCamera { quality, gain_ceiling, framesize } ==> {
            &&& quality == old(s).quality
            &&& gain_ceiling == old(s).gain_ceiling
            &&& framesize == old(s).framesize
            &&& !final(app).camera_dirty
        },
        !(r is SendCamera) && old(app).camera_dirty ==> final(app).camera_dirty,
        final(app).camera_dirty && !old(app).camera_dirty ==> steps(key) && old(app).tab == 1,
{
}

/// `c` requests a capture as it is set, on every tab, and no other key does.
pub proof fn law_capture_key(app: &mut TuiApp, s: &mut AppState, key: Key, r: KeyAction)
    requires
        call_ensures(handle_key, (app, s, key, true), r),
    ensures
        r is Capture <==> key == Key::Char('c') || key == Key::Char('C'),
        r matches KeyAction::Capture { exposure, gain, stack_secs } ==> {
            &&& exposure == old(s).exposure
            &&& gain == old(s).gain
            &&& stack_secs == old(s).stack_secs
        },
{
}

} // verus!
