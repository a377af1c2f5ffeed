//! Laws on what the user interface shows.

use vstd::prelude::*;
use vstd::string::*;

use super::keys::selection;
use super::text::{
    is_decimal, is_integer, is_right_aligned, law_dec_is_decimal, law_int_dec_is_integer,
    law_pad_left_aligns,
};
use crate::clock::{datetime_stamp, TimeOfDay};
use crate::logger::state::AppState;
use crate::logger::tui::TuiApp;
use crate::logger::view::{
    camera_title, camera_view, cells_view, draw, draw_camera, draw_header, draw_schedule,
    draw_status, footer_text, framesize_label, gain_ceiling_label, header_view, hl, lines_view,
    recent_activity, rows_view, schedule_view, status_view, tab_titles, val_style, Color, Content,
    Screen, TableRow, TextCell, TextStyle,
};
use crate::text::{dec, int_dec, pad_left, signed_dec, signed_text};

verus! {

/// Whether a style has this colour, this background, and is bold or not.
pub open spec fn looks(s: TextStyle, fg: Option<Color>, bg: Option<Color>, bold: bool) -> bool {
    s.fg == fg && s.bg == bg && s.bold == bold
}

/// Whether a name of a field is marked as selected, in black on yellow, or not at all.
pub open spec fn is_marked(s: TextStyle, selected: bool) -> bool {
    if selected {
        looks(s, Some(Color::Black), Some(Color::Yellow), true)
    } else {
        looks(s, None, None, false)
    }
}

/// Whether a value is marked: in black on cyan where it is selected and else in cyan; red stands
/// in place of cyan, and bold, where it is warned of.
pub open spec fn is_valued(s: TextStyle, selected: bool, warned: bool) -> bool {
    if selected && warned {
        looks(s, Some(Color::Black), Some(Color::Red), true)
    } else if selected {
        looks(s, Some(Color::Black), Some(Color::Cyan), true)
    } else if warned {
        looks(s, Some(Color::Red), None, true)
    } else {
        looks(s, Some(Color::Cyan), None, false)
    }
}

/// Names and values are marked where they are selected.
pub proof fn law_styles(selected: bool, name: TextStyle, value: TextStyle)
    requires
        call_ensures(hl, (selected,), name),
        call_ensures(val_style, (selected,), value),
    ensures
        is_marked(name, selected),
        is_valued(value, selected, false),
{
}

proof fn lemma_rows(rows: Seq<TableRow>, i: int)
    requires
        0 <= i < rows.len(),
    ensures
        rows_view(rows).len() == rows.len(),
        rows_view(rows)[i] == rows[i]@,
{
}

/// Whether stacking takes at least as long as the interval.
pub open spec fn crowded(s: AppState) -> bool {
    s.stack_secs > 0 && s.interval_secs <= s.stack_secs
}

/// Whether a row has this name, is marked where it is selected, and is warned of or not.
pub open spec fn is_field(
    row: TableRow,
    name: Seq<char>,
    selected: bool,
    warned: bool,
    note: Seq<char>,
) -> bool {
    &&& row.label.text@ == name
    &&& is_marked(row.label.style, selected)
    &&& is_valued(row.value.style, selected, warned)
    &&& row.note.text@ == note
    &&& looks(row.note.style, None, None, false)
}

/// The schedule shows its four fields by name, the selected one marked, the interval with a
/// warning where stacking takes at least as long, and behind an empty row the status.
pub proof fn law_schedule_fields(
    app: TuiApp,
    s: AppState,
    in_window: bool,
    now: u128,
    r: Vec<TableRow>,
)
    requires
        call_ensures(draw_schedule, (&app, &s, in_window, now), r),
    ensures
        r@.len() == 6,
        is_field(
            r@[0],
            "  Interval"@,
            app.tab == 0 && selection(app) == 0,
            crowded(s),
            if crowded(s) {
                "⚠ must be > stack_secs"@
            } else {
                ""@
            },
        ),
        is_field(
            r@[1],
            "  Window start"@,
            app.tab == 0 && selection(app) == 1,
            false,
            "local  (±5 min)"@,
        ),
        is_field(
            r@[2],
            "  Window stop"@,
            app.tab == 0 && selection(app) == 2,
            false,
            "local  (±5 min)"@,
        ),
        is_field(r@[3], "  UTC offset"@, app.tab == 0 && selection(app) == 3, false, "hours"@),
        r@[4].label.text@ == ""@ && r@[4].value.text@ == ""@ && r@[4].note.text@ == ""@,
        is_marked(r@[4].label.style, false),
        looks(r@[4].value.style, None, None, false),
        looks(r@[4].note.style, None, None, false),
        r@[5].label.text@ == "  Status"@,
        is_marked(r@[5].label.style, false),
        r@[5].note.text@ == ""@,
        looks(
            r@[5].value.style,
            Some(
                if in_window {
                    Color::Green
                } else {
                    Color::DarkGray
                },
            ),
            None,
            false,
        ),
{
    let v = schedule_view(app, s, in_window, now);
    assert(rows_view(r@).len() == r@.len());
    lemma_rows(r@, 0);
    lemma_rows(r@, 1);
    lemma_rows(r@, 2);
    lemma_rows(r@, 3);
    lemma_rows(r@, 4);
    lemma_rows(r@, 5);
    assert(v[0] == r@[0]@ && v[1] == r@[1]@ && v[2] == r@[2]@ && v[3] == r@[3]@ && v[4] == r@[4]@
        && v[5] == r@[5]@);
}

/// The schedule shows the interval in seconds, start and stop as they are written as times, the
/// offset with its sign, and inside the window the whole seconds until the next capture.
pub proof fn law_schedule_values(
    app: TuiApp,
    s: AppState,
    in_window: bool,
    now: u128,
    r: Vec<TableRow>,
    start: String,
    stop: String,
    offset: String,
) -> (d: (Seq<char>, Seq<char>, Seq<char>, Seq<char>))
    requires
        call_ensures(draw_schedule, (&app, &s, in_window, now), r),
        call_ensures(TimeOfDay::hhmm, (&s.window_start_local,), start),
        call_ensures(TimeOfDay::hhmm, (&s.window_stop_local,), stop),
        call_ensures(signed_text, (s.utc_offset_hours,), offset),
    ensures
        r@.len() == 6,
        is_decimal(d.0, s.interval_secs as int),
        is_right_aligned(d.1, d.0, 6, ' '),
        r@[0].value.text@ == d.1 + " s"@,
        r@[1].value.text@ == start@,
        r@[2].value.text@ == stop@,
        is_right_aligned(d.2, offset@, 5, ' '),
        r@[3].value.text@ == d.2 + "h"@,
        !in_window ==> r@[5].value.text@ == "○ outside window"@,
        in_window ==> r@[5].value.text@ == "● ACTIVE — next capture in "@ + d.3 + "s"@,
        is_decimal(
            d.3,
            match s.next_capture_at {
                Some(at) => if at > now {
                    (at - now) / 1_000_000_000
                } else {
                    0
                },
                None => 0,
            },
        ),
{
    let v = schedule_view(app, s, in_window, now);
    assert(rows_view(r@).len() == r@.len());
    lemma_rows(r@, 0);
    lemma_rows(r@, 1);
    lemma_rows(r@, 2);
    lemma_rows(r@, 3);
    lemma_rows(r@, 5);
    assert(v[0] == r@[0]@ && v[1] == r@[1]@ && v[2] == r@[2]@ && v[3] == r@[3]@ && v[5] == r@[5]@);
    let n = dec(s.interval_secs as nat);
    let c = crate::logger::view::countdown(s.next_capture_at, now);
    law_dec_is_decimal(s.interval_secs as nat);
    law_dec_is_decimal(c);
    law_pad_left_aligns(n, 6, ' ');
    law_pad_left_aligns(signed_dec(s.utc_offset_hours as int), 5, ' ');
    (n, pad_left(n, 6, ' '), pad_left(signed_dec(s.utc_offset_hours as int), 5, ' '), dec(c))
}

/// The camera tab shows its six fields by name, the selected one marked, the stacking with a
/// warning where the interval is too short for it, and the frame size where stacking it may
/// exhaust the memory.
pub proof fn law_camera_fields(app: TuiApp, s: AppState, r: Vec<TableRow>, size: &str, ceiling: &str)
    requires
        call_ensures(draw_camera, (&app, &s), r),
        call_ensures(framesize_label, (s.framesize,), size),
        call_ensures(gain_ceiling_label, (s.gain_ceiling,), ceiling),
    ensures
        r@.len() == 6,
        is_field(
            r@[2],
            "  Quality"@,
            app.tab == 1 && selection(app) == 2,
            false,
            "1-63, lower = better"@,
        ),
        is_field(
            r@[3],
            "  Gain ceiling"@,
            app.tab == 1 && selection(app) == 3,
            false,
            ceiling@ + "  (0-6)"@,
        ),
        is_field(
            r@[5],
            "  Framesize"@,
            app.tab == 1 && selection(app) == 5,
            s.stack_secs > 0 && s.framesize >= 13,
            if s.stack_secs > 0 && s.framesize >= 13 {
                size@ + "  ⚠ UXGA+stack may exhaust PSRAM"@
            } else {
                size@ + "  (0-13)"@
            },
        ),
        is_field(
            r@[0],
            "  Exposure"@,
            app.tab == 1 && selection(app) == 0,
            false,
            r@[0].note.text@,
        ),
        is_field(r@[1], "  Gain"@, app.tab == 1 && selection(app) == 1, false, r@[1].note.text@),
        is_field(
            r@[4],
            "  Stack secs"@,
            app.tab == 1 && selection(app) == 4,
            crowded(s),
            r@[4].note.text@,
        ),
        s.exposure < 0 ==> r@[0].note.text@ == "auto AEC"@,
        s.gain < 0 ==> r@[1].note.text@ == "auto AGC"@,
        s.stack_secs == 0 ==> r@[4].note.text@ == "single frame  (0-10s)"@,
{
    let v = camera_view(app, s);
    assert(rows_view(r@).len() == r@.len());
    lemma_rows(r@, 0);
    lemma_rows(r@, 1);
    lemma_rows(r@, 2);
    lemma_rows(r@, 3);
    lemma_rows(r@, 4);
    lemma_rows(r@, 5);
    assert(v[0] == r@[0]@ && v[1] == r@[1]@ && v[2] == r@[2]@ && v[3] == r@[3]@ && v[4] == r@[4]@
        && v[5] == r@[5]@);
}

/// The camera tab shows each setting as a number, and names a manual exposure or gain and the
/// stacking again in the note.
pub proof fn law_camera_values(app: TuiApp, s: AppState, r: Vec<TableRow>) -> (d: (
    Seq<char>,
    Seq<char>,
    Seq<char>,
    Seq<char>,
    Seq<char>,
    Seq<char>,
))
    requires
        call_ensures(draw_camera, (&app, &s), r),
    ensures
        r@.len() == 6,
        is_integer(d.0, s.exposure as int) && is_right_aligned(r@[0].value.text@, d.0, 5, ' '),
        is_integer(d.1, s.gain as int) && is_right_aligned(r@[1].value.text@, d.1, 5, ' '),
        is_decimal(d.2, s.quality as int) && is_right_aligned(r@[2].value.text@, d.2, 5, ' '),
        is_decimal(d.3, s.gain_ceiling as int) && is_right_aligned(r@[3].value.text@, d.3, 5, ' '),
        is_decimal(d.4, s.stack_secs as int) && is_right_aligned(r@[4].value.text@, d.4, 5, ' '),
        is_decimal(d.5, s.framesize as int) && is_right_aligned(r@[5].value.text@, d.5, 5, ' '),
        s.exposure >= 0 ==> r@[0].note.text@ == d.0 + " lines"@,
        s.gain >= 0 ==> r@[1].note.text@ == d.1,
        s.stack_secs > 0 ==> r@[4].note.text@ == d.4 + "s effective exposure  — interval must be >"@
            + d.4 + "s"@,
{
    let v = camera_view(app, s);
    assert(rows_view(r@).len() == r@.len());
    lemma_rows(r@, 0);
    lemma_rows(r@, 1);
    lemma_rows(r@, 2);
    lemma_rows(r@, 3);
    lemma_rows(r@, 4);
    lemma_rows(r@, 5);
    assert(v[0] == r@[0]@ && v[1] == r@[1]@ && v[2] == r@[2]@ && v[3] == r@[3]@ && v[4] == r@[4]@
        && v[5] == r@[5]@);
    let d = (
        int_dec(s.exposure as int),
        int_dec(s.gain as int),
        dec(s.quality as nat),
        dec(s.gain_ceiling as nat),
        dec(s.stack_secs as nat),
        dec(s.framesize as nat),
    );
    law_int_dec_is_integer(s.exposure as int);
    law_int_dec_is_integer(s.gain as int);
    law_dec_is_decimal(s.quality as nat);
    law_dec_is_decimal(s.gain_ceiling as nat);
    law_dec_is_decimal(s.stack_secs as nat);
    law_dec_is_decimal(s.framesize as nat);
    law_pad_left_aligns(d.0, 5, ' ');
    law_pad_left_aligns(d.1, 5, ' ');
    law_pad_left_aligns(d.2, 5, ' ');
    law_pad_left_aligns(d.3, 5, ' ');
    law_pad_left_aligns(d.4, 5, ' ');
    law_pad_left_aligns(d.5, 5, ' ');
    d
}

/// Two to a power: the largest gain of each gain ceiling.
pub open spec fn doubled(n: int) -> int
    decreases n,
{
    if n <= 0 {
        1
    } else {
        2 * doubled(n - 1)
    }
}

/// A gain ceiling from 0 to 6 stands for twice the gain of the one below, from 2 on; others for
/// nothing known.
pub proof fn law_gain_ceiling_label(n: u8, r: &str)
    requires
        call_ensures(gain_ceiling_label, (n,), r),
    ensures
        n <= 6 ==> r@.len() > 1 && r@.last() == '×' && is_decimal(
            r@.drop_last(),
            doubled(n + 1),
        ),
        n > 6 ==> r@ == "?"@,
{
    reveal_strlit("2×");
    reveal_strlit("4×");
    reveal_strlit("8×");
    reveal_strlit("16×");
    reveal_strlit("32×");
    reveal_strlit("64×");
    reveal_strlit("128×");
    reveal_with_fuel(doubled, 9);
    if n <= 6 {
        let t = r@.drop_last();
        law_dec_is_decimal(doubled(n + 1) as nat);
        reveal_with_fuel(dec, 4);
        assert(t =~= dec(doubled(n + 1) as nat));
    }
}

/// The frame sizes and the resolutions that they stand for.
pub proof fn law_framesize_label(n: u8, r: &str)
    requires
        call_ensures(framesize_label, (n,), r),
    ensures
        n == 0 ==> r@ == "96×96"@,
        n == 1 ==> r@ == "160×120 QQVGA"@,
        n == 2 ==> r@ == "176×144 QCIF"@,
        n == 3 ==> r@ == "240×176 HQVGA"@,
        n == 4 ==> r@ == "240×240"@,
        n == 5 ==> r@ == "320×240 QVGA"@,
        n == 6 ==> r@ == "400×296 CIF"@,
        n == 7 ==> r@ == "480×320 HVGA"@,
        n == 8 ==> r@ == "640×480 VGA"@,
        n == 9 ==> r@ == "800×600 SVGA"@,
        n == 10 ==> r@ == "1024×768 XGA"@,
        n == 11 ==> r@ == "1280×720 HD"@,
        n == 12 ==> r@ == "1280×1024 SXGA"@,
        n == 13 ==> r@ == "1600×1200 UXGA"@,
        n > 13 ==> r@ == "?"@,
{
}

proof fn lemma_cells(cells: Seq<TextCell>, i: int)
    requires
        0 <= i < cells.len(),
    ensures
        cells_view(cells).len() == cells.len(),
        cells_view(cells)[i] == cells[i]@,
{
}

/// The header names the program, the local time and the offset, and whether the logger is
/// connected, in green or red.
pub proof fn law_header(s: AppState, local_time: &str, r: Vec<TextCell>) -> (offset: Seq<char>)
    requires
        call_ensures(draw_header, (&s, local_time), r),
    ensures
        r@.len() == 3,
        r@[0].text@ == "  moon_shadow_photo  "@,
        looks(r@[0].style, None, None, true),
        is_integer(offset, s.utc_offset_hours as int),
        r@[1].text@ == local_time@ + "  "@ + (if s.utc_offset_hours >= 0 {
            "UTC+"@
        } else {
            "UTC"@
        } + offset) + "  "@,
        looks(r@[1].style, None, None, false),
        s.mqtt_connected ==> r@[2].text@ == "● MQTT"@ && looks(
            r@[2].style,
            Some(Color::Green),
            None,
            false,
        ),
        !s.mqtt_connected ==> r@[2].text@ == "○ MQTT"@ && looks(
            r@[2].style,
            Some(Color::Red),
            None,
            false,
        ),
{
    let v = header_view(s, local_time@);
    assert(cells_view(r@).len() == r@.len());
    lemma_cells(r@, 0);
    lemma_cells(r@, 1);
    lemma_cells(r@, 2);
    assert(v[0] == r@[0]@ && v[1] == r@[1]@ && v[2] == r@[2]@);
    law_int_dec_is_integer(s.utc_offset_hours as int);
    int_dec(s.utc_offset_hours as int)
}

/// The status tab tells whether the logger is connected, when the last capture came and of what
/// size, how many files there are today, and the directory.
pub proof fn law_status(s: AppState, r: Vec<Vec<TextCell>>) -> (d: (Seq<char>, Seq<char>))
    requires
        call_ensures(draw_status, (&s,), r),
    ensures
        r@.len() == 5,
        forall|i: int| 0 <= i < 5 && i != 1 ==> (#[trigger] r@[i])@.len() == 1,
        forall|i: int| 0 <= i < 5 ==> looks((#[trigger] r@[i])@[0].style, None, None, false),
        r@[0]@[0].text@ == ""@,
        r@[1]@.len() == 2,
        r@[1]@[0].text@ == "  MQTT          "@,
        s.mqtt_connected ==> r@[1]@[1].text@ == "● Connected"@ && looks(
            r@[1]@[1].style,
            Some(Color::Green),
            None,
            false,
        ),
        !s.mqtt_connected ==> r@[1]@[1].text@ == "○ Disconnected"@ && looks(
            r@[1]@[1].style,
            Some(Color::Red),
            None,
            false,
        ),
        s.last_capture_at is None ==> r@[2]@[0].text@ == "  Last capture  "@ + "—"@,
        is_decimal(d.0, s.last_capture_sz as int),
        s.last_capture_at matches Some(t) ==> forall|stamp: String| #[trigger]
            call_ensures(datetime_stamp, (t,), stamp) ==> r@[2]@[0].text@ == "  Last capture  "@ + (
            stamp@ + "  ("@ + d.0 + " bytes)"@),
        is_decimal(d.1, s.files_today as int),
        r@[3]@[0].text@ == "  Files today   "@ + d.1,
        r@[4]@[0].text@ == "  Log dir       "@ + s.log_dir@,
{
    let v = status_view(s);
    let w = lines_view(r@);
    assert(w.len() == r@.len());
    assert forall|i: int| 0 <= i < 5 implies cells_view((#[trigger] r@[i])@) == v[i] by {
        assert(w[i] == cells_view(r@[i]@));
    }
    assert(cells_view(r@[0]@).len() == r@[0]@.len());
    assert(cells_view(r@[1]@).len() == r@[1]@.len());
    assert(cells_view(r@[2]@).len() == r@[2]@.len());
    assert(cells_view(r@[3]@).len() == r@[3]@.len());
    assert(cells_view(r@[4]@).len() == r@[4]@.len());
    lemma_cells(r@[0]@, 0);
    lemma_cells(r@[1]@, 0);
    lemma_cells(r@[1]@, 1);
    lemma_cells(r@[2]@, 0);
    lemma_cells(r@[3]@, 0);
    lemma_cells(r@[4]@, 0);
    assert forall|i: int| 0 <= i < 5 implies looks(
        (#[trigger] r@[i])@[0].style,
        None,
        None,
        false,
    ) by {
        if i == 0 || i == 1 {
        } else if i == 2 || i == 3 {
        } else {
            assert(i == 4);
        }
    }
    law_dec_is_decimal(s.last_capture_sz as nat);
    law_dec_is_decimal(s.files_today as nat);
    (dec(s.last_capture_sz as nat), dec(s.files_today as nat))
}

/// The newest lines of the log are shown first, twenty at most, set off by two spaces.
pub proof fn law_recent_activity(s: AppState, r: Vec<String>, i: int)
    requires
        call_ensures(recent_activity, (&s,), r),
    ensures
        s.log_lines@.len() >= 20 ==> r@.len() == 20,
        s.log_lines@.len() < 20 ==> r@.len() == s.log_lines@.len(),
        0 <= i < r@.len() ==> r@[i]@ == "  "@ + s.log_lines@[s.log_lines@.len() - 1 - i]@,
{
    assert(s.log().len() == s.log_lines@.len());
    if 0 <= i < r@.len() {
        assert(r[i]@ == "  "@ + s.log()[s.log().len() - 1 - i]);
        assert(s.log()[s.log().len() - 1 - i] == s.log_lines@[s.log_lines@.len() - 1 - i]@);
    }
}

/// The title of the camera tab says whether something is not sent; the footer names the sending
/// key on that tab alone.
pub proof fn law_title_and_footer(app: TuiApp, title: &str, footer: &str)
    requires
        call_ensures(camera_title, (&app,), title),
        call_ensures(footer_text, (&app,), footer),
    ensures
        app.camera_dirty ==> title@ == " Camera  ● unsaved "@,
        !app.camera_dirty ==> title@ == " Camera "@,
        app.tab == 1 ==> footer@
            == "  ↑↓ nav  ←→ adjust  s send to device  c capture now  Tab next  q quit"@,
        app.tab != 1 ==> footer@ == "  ↑↓ nav  ←→ adjust  c capture now  Tab next  q quit"@,
{
}

/// There are a tab for the schedule, one for the camera and one for the status.
pub proof fn law_tab_titles(r: [&'static str; 3])
    requires
        call_ensures(tab_titles, (), r),
    ensures
        r@[0]@ == "  Schedule  "@,
        r@[1]@ == "  Camera  "@,
        r@[2]@ == "  Status  "@,
{
}

/// The screen shows the header, the tab that is gone to with what belongs to it, and the footer.
pub proof fn law_draw(
    app: TuiApp,
    s: AppState,
    local_time: &str,
    in_window: bool,
    now: u128,
    r: Screen,
    header: Vec<TextCell>,
    schedule: Vec<TableRow>,
    camera: Vec<TableRow>,
    status: Vec<Vec<TextCell>>,
    activity: Vec<String>,
    title: &str,
    footer: &str,
)
    requires
        call_ensures(draw, (&app, &s, local_time, in_window, now), r),
        call_ensures(draw_header, (&s, local_time), header),
        call_ensures(draw_schedule, (&app, &s, in_window, now), schedule),
        call_ensures(draw_camera, (&app, &s), camera),
        call_ensures(draw_status, (&s,), status),
        call_ensures(recent_activity, (&s,), activity),
        call_ensures(camera_title, (&app,), title),
        call_ensures(footer_text, (&app,), footer),
    ensures
        r.tab == app.tab,
        cells_view(r.header@) == cells_view(header@),
        app.tab == 0 ==> (r.content matches Content::Table { title: t, rows } && t@
            == " Schedule "@ && rows_view(rows@) == rows_view(schedule@)),
        app.tab == 1 ==> (r.content matches Content::Table { title: t, rows } && t@ == title@
            && rows_view(rows@) == rows_view(camera@)),
        app.tab >= 2 ==> (r.content matches Content::Status { info, activity: lines } && lines_view(
            info@,
        ) == lines_view(status@) && lines@.len() == activity@.len() && forall|i: int|
            0 <= i < lines@.len() ==> (#[trigger] lines@[i])@ == activity@[i]@),
        r.footer.text@ == footer@,
        looks(r.footer.style, Some(Color::DarkGray), None, false),
{
    if app.tab >= 2 {
        let lines = r.content->activity@;
        assert forall|i: int| 0 <= i < lines.len() implies (#[trigger] lines[i])@ == activity@[i]@ by {
            assert(r.content->activity[i]@ == "  "@ + s.log()[s.log().len() - 1 - i]);
            assert(activity[i]@ == "  "@ + s.log()[s.log().len() - 1 - i]);
        }
    }
}

} // verus!
