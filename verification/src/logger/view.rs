//! What the user interface shows.

use vstd::prelude::*;
use vstd::string::*;

use super::publisher::NANOS;
use super::state::AppState;
use super::tui::TuiApp;
use crate::clock::{clock_text, date_text, datetime_stamp, hhmm_text};
use crate::text::{dec, i32_text, int_dec, pad_left, padded, signed_dec, signed_text, u128_text, u64_text};

verus! {

/// A colour.
#[derive(Clone, Copy, Debug, PartialEq, Eq, Structural)]
pub enum Color {
    Black,
    Yellow,
    Cyan,
    Green,
    Red,
    DarkGray,
}

/// How a text is shown.
#[derive(Clone, Copy, Debug, PartialEq, Eq, Structural)]
pub struct TextStyle {
    pub fg: Option<Color>,
    pub bg: Option<Color>,
    pub bold: bool,
}

/// A text and how it is shown.
#[derive(Debug)]
pub struct TextCell {
    pub text: String,
    pub style: TextStyle,
}

/// What a cell shows.
pub struct CellView {
    pub text: Seq<char>,
    pub style: TextStyle,
}

impl View for TextCell {
    type V = CellView;

    open spec fn view(&self) -> CellView {
        CellView { text: self.text@, style: self.style }
    }
}

/// A row of a table: the name of a field, its value, and a note on it.
#[derive(Debug)]
pub struct TableRow {
    pub label: TextCell,
    pub value: TextCell,
    pub note: TextCell,
}

/// What a row shows.
pub struct RowView {
    pub label: CellView,
    pub value: CellView,
    pub note: CellView,
}

impl View for TableRow {
    type V = RowView;

    open spec fn view(&self) -> RowView {
        RowView { label: self.label@, value: self.value@, note: self.note@ }
    }
}

/// What a sequence of rows shows.
pub open spec fn rows_view(rows: Seq<TableRow>) -> Seq<RowView> {
    rows.map_values(|r: TableRow| r@)
}

/// What a sequence of cells shows.
pub open spec fn cells_view(cells: Seq<TextCell>) -> Seq<CellView> {
    cells.map_values(|c: TextCell| c@)
}

/// No style of its own.
pub open spec fn plain() -> TextStyle {
    TextStyle { fg: None, bg: None, bold: false }
}

/// A colour and nothing else.
pub open spec fn colored(c: Color) -> TextStyle {
    TextStyle { fg: Some(c), bg: None, bold: false }
}

/// The style of the name of a field.
pub open spec fn label_style(selected: bool) -> TextStyle {
    if selected {
        TextStyle { fg: Some(Color::Black), bg: Some(Color::Yellow), bold: true }
    } else {
        plain()
    }
}

/// The style of the value of a field.
pub open spec fn value_style(selected: bool) -> TextStyle {
    if selected {
        TextStyle { fg: Some(Color::Black), bg: Some(Color::Cyan), bold: true }
    } else {
        colored(Color::Cyan)
    }
}

/// The style of a value, in red where it is warned of.
pub open spec fn checked_style(selected: bool, warn: bool) -> TextStyle {
    if !warn {
        value_style(selected)
    } else if selected {
        TextStyle { fg: Some(Color::Black), bg: Some(Color::Red), bold: true }
    } else {
        TextStyle { fg: Some(Color::Red), bg: None, bold: true }
    }
}

fn no_style() -> (r: TextStyle)
    ensures
        r == plain(),
{
    TextStyle { fg: None, bg: None, bold: false }
}

fn in_color(c: Color) -> (r: TextStyle)
    ensures
        r == colored(c),
{
    TextStyle { fg: Some(c), bg: None, bold: false }
}

/// The style of the name of a field.
pub fn hl(selected: bool) -> (r: TextStyle)
    ensures
        r == label_style(selected),
{
    if selected {
        TextStyle { fg: Some(Color::Black), bg: Some(Color::Yellow), bold: true }
    } else {
        no_style()
    }
}

/// The style of the value of a field.
pub fn val_style(selected: bool) -> (r: TextStyle)
    ensures
        r == value_style(selected),
{
    if selected {
        TextStyle { fg: Some(Color::Black), bg: Some(Color::Cyan), bold: true }
    } else {
        in_color(Color::Cyan)
    }
}

fn warn_style(selected: bool, warn: bool) -> (r: TextStyle)
    ensures
        r == checked_style(selected, warn),
{
    if !warn {
        val_style(selected)
    } else if selected {
        TextStyle { fg: Some(Color::Black), bg: Some(Color::Red), bold: true }
    } else {
        TextStyle { fg: Some(Color::Red), bg: None, bold: true }
    }
}

/// The row of a field that can be selected.
pub open spec fn field_row(
    label: Seq<char>,
    selected: bool,
    value: Seq<char>,
    style: TextStyle,
    note: Seq<char>,
) -> RowView {
    RowView {
        label: CellView { text: label, style: label_style(selected) },
        value: CellView { text: value, style },
        note: CellView { text: note, style: plain() },
    }
}

fn row(label: &str, selected: bool, value: String, style: TextStyle, note: String) -> (r: TableRow)
    ensures
        r@ == field_row(label@, selected, value@, style, note@),
{
    TableRow {
        label: TextCell { text: label.to_owned(), style: hl(selected) },
        value: TextCell { text: value, style },
        note: TextCell { text: note, style: no_style() },
    }
}

/// Whether a field is the selected one of the given tab.
pub open spec fn is_selected(app: TuiApp, tab: int, field: int) -> bool {
    app.field() == field && app.tab == tab
}

fn selected(app: &TuiApp, tab: usize, field: usize) -> (r: bool)
    ensures
        r == is_selected(*app, tab as int, field as int),
{
    app.sel() == field && app.tab == tab
}

/// Whether stacking would take at least as long as the interval leaves.
pub open spec fn interval_too_short(s: AppState) -> bool {
    s.stack_secs > 0 && s.interval_secs <= s.stack_secs
}

fn too_short(s: &AppState) -> (r: bool)
    ensures
        r == interval_too_short(*s),
{
    s.stack_secs > 0 && s.interval_secs <= s.stack_secs as u64
}

/// Whole seconds until the next capture.
pub open spec fn countdown(next: Option<u128>, now: u128) -> nat {
    match next {
        Some(at) => if at > now {
            ((at - now) / NANOS as int) as nat
        } else {
            0
        },
        None => 0,
    }
}

/// What the schedule says of the window.
pub open spec fn window_status(s: AppState, in_window: bool, now: u128) -> Seq<char> {
    if in_window {
        "● ACTIVE — next capture in "@ + dec(countdown(s.next_capture_at, now)) + "s"@
    } else {
        "○ outside window"@
    }
}

/// The rows of the schedule tab.
pub open spec fn schedule_view(app: TuiApp, s: AppState, in_window: bool, now: u128) -> Seq<RowView> {
    seq![
        field_row(
            "  Interval"@,
            is_selected(app, 0, 0),
            pad_left(dec(s.interval_secs as nat), 6, ' ') + " s"@,
            checked_style(is_selected(app, 0, 0), interval_too_short(s)),
            if interval_too_short(s) {
                "⚠ must be > stack_secs"@
            } else {
                ""@
            },
        ),
        field_row(
            "  Window start"@,
            is_selected(app, 0, 1),
            hhmm_text(s.window_start_local@),
            value_style(is_selected(app, 0, 1)),
            "local  (±5 min)"@,
        ),
        field_row(
            "  Window stop"@,
            is_selected(app, 0, 2),
            hhmm_text(s.window_stop_local@),
            value_style(is_selected(app, 0, 2)),
            "local  (±5 min)"@,
        ),
        field_row(
            "  UTC offset"@,
            is_selected(app, 0, 3),
            pad_left(signed_dec(s.utc_offset_hours as int), 5, ' ') + "h"@,
            value_style(is_selected(app, 0, 3)),
            "hours"@,
        ),
        field_row(""@, false, ""@, plain(), ""@),
        field_row(
            "  Status"@,
            false,
            window_status(s, in_window, now),
            colored(
                if in_window {
                    Color::Green
                } else {
                    Color::DarkGray
                },
            ),
            ""@,
        ),
    ]
}

fn seconds_left(next: Option<u128>, now: u128) -> (r: u128)
    ensures
        r == countdown(next, now),
{
    match next {
        Some(at) => if at > now {
            (at - now) / NANOS
        } else {
            0
        },
        None => 0,
    }
}

/// The rows of the schedule tab, at the nanosecond `now` of the publisher's clock.
pub fn draw_schedule(app: &TuiApp, s: &AppState, in_window: bool, now: u128) -> (r: Vec<TableRow>)
    ensures
        rows_view(r@) == schedule_view(*app, *s, in_window, now),
{
    let status: String = if in_window {
        let mut t = "● ACTIVE — next capture in ".to_owned();
        t.append(u128_text(seconds_left(s.next_capture_at, now)).as_str());
        t.append("s");
        t
    } else {
        "○ outside window".to_owned()
    };
    let color = if in_window {
        Color::Green
    } else {
        Color::DarkGray
    };
    let short = too_short(s);
    let mut rows: Vec<TableRow> = Vec::new();

    let sel0 = selected(app, 0, 0);
    let mut interval = padded(u64_text(s.interval_secs).as_str(), 6, ' ');
    interval.append(" s");
    let note = if short {
        "⚠ must be > stack_secs".to_owned()
    } else {
        "".to_owned()
    };
    rows.push(row("  Interval", sel0, interval, warn_style(sel0, short), note));

    let sel1 = selected(app, 0, 1);
    rows.push(
        row(
            "  Window start",
            sel1,
            s.window_start_local.hhmm(),
            val_style(sel1),
            "local  (±5 min)".to_owned(),
        ),
    );

    let sel2 = selected(app, 0, 2);
    rows.push(
        row(
            "  Window stop",
            sel2,
            s.window_stop_local.hhmm(),
            val_style(sel2),
            "local  (±5 min)".to_owned(),
        ),
    );

    let sel3 = selected(app, 0, 3);
    let mut offset = padded(signed_text(s.utc_offset_hours).as_str(), 5, ' ');
    offset.append("h");
    rows.push(row("  UTC offset", sel3, offset, val_style(sel3), "hours".to_owned()));

    rows.push(row("", false, "".to_owned(), no_style(), "".to_owned()));
    rows.push(row("  Status", false, status, in_color(color), "".to_owned()));
    proof {
        assert(rows_view(rows@) =~= schedule_view(*app, *s, in_window, now));
    }
    rows
}

/// The largest automatic gain that a gain ceiling stands for.
pub open spec fn gain_ceiling_text(n: u8) -> Seq<char> {
    if n == 0 {
        "2×"@
    } else if n == 1 {
        "4×"@
    } else if n == 2 {
        "8×"@
    } else if n == 3 {
        "16×"@
    } else if n == 4 {
        "32×"@
    } else if n == 5 {
        "64×"@
    } else if n == 6 {
        "128×"@
    } else {
        "?"@
    }
}

/// The largest automatic gain that a gain ceiling stands for.
pub fn gain_ceiling_label(n: u8) -> (r: &'static str)
    ensures
        r@ == gain_ceiling_text(n),
{
    match n {
        0 => "2×",
        1 => "4×",
        2 => "8×",
        3 => "16×",
        4 => "32×",
        5 => "64×",
        6 => "128×",
        _ => "?",
    }
}

/// The resolution that a frame size stands for.
pub open spec fn framesize_text(n: u8) -> Seq<char> {
    if n == 0 {
        "96×96"@
    } else if n == 1 {
        "160×120 QQVGA"@
    } else if n == 2 {
        "176×144 QCIF"@
    } else if n == 3 {
        "240×176 HQVGA"@
    } else if n == 4 {
        "240×240"@
    } else if n == 5 {
        "320×240 QVGA"@
    } else if n == 6 {
        "400×296 CIF"@
    } else if n == 7 {
        "480×320 HVGA"@
    } else if n == 8 {
        "640×480 VGA"@
    } else if n == 9 {
        "800×600 SVGA"@
    } else if n == 10 {
        "1024×768 XGA"@
    } else if n == 11 {
        "1280×720 HD"@
    } else if n == 12 {
        "1280×1024 SXGA"@
    } else if n == 13 {
        "1600×1200 UXGA"@
    } else {
        "?"@
    }
}

/// The resolution that a frame size stands for.
pub fn framesize_label(n: u8) -> (r: &'static str)
    ensures
        r@ == framesize_text(n),
{
    match n {
        0 => "96×96",
        1 => "160×120 QQVGA",
        2 => "176×144 QCIF",
        3 => "240×176 HQVGA",
        4 => "240×240",
        5 => "320×240 QVGA",
        6 => "400×296 CIF",
        7 => "480×320 HVGA",
        8 => "640×480 VGA",
        9 => "800×600 SVGA",
        10 => "1024×768 XGA",
        11 => "1280×720 HD",
        12 => "1280×1024 SXGA",
        13 => "1600×1200 UXGA",
        _ => "?",
    }
}

/// Whether stacking frames of this size may exhaust the memory of the device.
pub open spec fn stack_too_large(s: AppState) -> bool {
    s.stack_secs > 0 && s.framesize >= 13
}

/// The note on the stacking duration.
pub open spec fn stack_note(stack_secs: u32) -> Seq<char> {
    if stack_secs == 0 {
        "single frame  (0-10s)"@
    } else {
        dec(stack_secs as nat) + "s effective exposure  — interval must be >"@ + dec(
            stack_secs as nat,
        ) + "s"@
    }
}

/// The note on the frame size.
pub open spec fn framesize_note(s: AppState) -> Seq<char> {
    framesize_text(s.framesize) + (if stack_too_large(s) {
        "  ⚠ UXGA+stack may exhaust PSRAM"@
    } else {
        "  (0-13)"@
    })
}

/// The rows of the camera tab.
pub open spec fn camera_view(app: TuiApp, s: AppState) -> Seq<RowView> {
    seq![
        field_row(
            "  Exposure"@,
            is_selected(app, 1, 0),
            pad_left(int_dec(s.exposure as int), 5, ' '),
            value_style(is_selected(app, 1, 0)),
            if s.exposure < 0 {
                "auto AEC"@
            } else {
                int_dec(s.exposure as int) + " lines"@
            },
        ),
        field_row(
            "  Gain"@,
            is_selected(app, 1, 1),
            pad_left(int_dec(s.gain as int), 5, ' '),
            value_style(is_selected(app, 1, 1)),
            if s.gain < 0 {
                "auto AGC"@
            } else {
                int_dec(s.gain as int)
            },
        ),
        field_row(
            "  Quality"@,
            is_selected(app, 1, 2),
            pad_left(dec(s.quality as nat), 5, ' '),
            value_style(is_selected(app, 1, 2)),
            "1-63, lower = better"@,
        ),
        field_row(
            "  Gain ceiling"@,
            is_selected(app, 1, 3),
            pad_left(dec(s.gain_ceiling as nat), 5, ' '),
            value_style(is_selected(app, 1, 3)),
            gain_ceiling_text(s.gain_ceiling) + "  (0-6)"@,
        ),
        field_row(
            "  Stack secs"@,
            is_selected(app, 1, 4),
            pad_left(dec(s.stack_secs as nat), 5, ' '),
            checked_style(is_selected(app, 1, 4), interval_too_short(s)),
            stack_note(s.stack_secs),
        ),
        field_row(
            "  Framesize"@,
            is_selected(app, 1, 5),
            pad_left(dec(s.framesize as nat), 5, ' '),
            checked_style(is_selected(app, 1, 5), stack_too_large(s)),
            framesize_note(s),
        ),
    ]
}

fn number_cell(n: u64) -> (r: String)
    ensures
        r@ == pad_left(dec(n as nat), 5, ' '),
{
    padded(u64_text(n).as_str(), 5, ' ')
}

/// The rows of the camera tab.
pub fn draw_camera(app: &TuiApp, s: &AppState) -> (r: Vec<TableRow>)
    ensures
        rows_view(r@) == camera_view(*app, *s),
{
    let mut rows: Vec<TableRow> = Vec::new();

    let sel0 = selected(app, 1, 0);
    let exposure_note = if s.exposure < 0 {
        "auto AEC".to_owned()
    } else {
        let mut t = i32_text(s.exposure);
        t.append(" lines");
        t
    };
    let exposure = padded(i32_text(s.exposure).as_str(), 5, ' ');
    rows.push(row("  Exposure", sel0, exposure, val_style(sel0), exposure_note));

    let sel1 = selected(app, 1, 1);
    let gain_note = if s.gain < 0 {
        "auto AGC".to_owned()
    } else {
        i32_text(s.gain)
    };
    let gain = padded(i32_text(s.gain).as_str(), 5, ' ');
    rows.push(row("  Gain", sel1, gain, val_style(sel1), gain_note));

    let sel2 = selected(app, 1, 2);
    rows.push(
        row(
            "  Quality",
            sel2,
            number_cell(s.quality as u64),
            val_style(sel2),
            "1-63, lower = better".to_owned(),
        ),
    );

    let sel3 = selected(app, 1, 3);
    let mut ceiling_note = gain_ceiling_label(s.gain_ceiling).to_owned();
    ceiling_note.append("  (0-6)");
    rows.push(
        row(
            "  Gain ceiling",
            sel3,
            number_cell(s.gain_ceiling as u64),
            val_style(sel3),
            ceiling_note,
        ),
    );

    let sel4 = selected(app, 1, 4);
    let stack = if s.stack_secs == 0 {
        "single frame  (0-10s)".to_owned()
    } else {
        let mut t = u64_text(s.stack_secs as u64);
        t.append("s effective exposure  — interval must be >");
        t.append(u64_text(s.stack_secs as u64).as_str());
        t.append("s");
        t
    };
    rows.push(
        row(
            "  Stack secs",
            sel4,
            number_cell(s.stack_secs as u64),
            warn_style(sel4, too_short(s)),
            stack,
        ),
    );

    let sel5 = selected(app, 1, 5);
    let large = s.stack_secs > 0 && s.framesize >= 13;
    let mut size_note = framesize_label(s.framesize).to_owned();
    if large {
        size_note.append("  ⚠ UXGA+stack may exhaust PSRAM");
    } else {
        size_note.append("  (0-13)");
    }
    rows.push(
        row(
            "  Framesize",
            sel5,
            number_cell(s.framesize as u64),
            warn_style(sel5, large),
            size_note,
        ),
    );
    proof {
        assert(rows_view(rows@) =~= camera_view(*app, *s));
    }
    rows
}

/// The title of the camera tab.
pub fn camera_title(app: &TuiApp) -> (r: &'static str)
    ensures
        r@ == (if app.camera_dirty {
            " Camera  ● unsaved "@
        } else {
            " Camera "@
        }),
{
    if app.camera_dirty {
        " Camera  ● unsaved "
    } else {
        " Camera "
    }
}

fn cell(text: String, style: TextStyle) -> (r: TextCell)
    ensures
        r@ == (CellView { text: text@, style }),
{
    TextCell { text, style }
}

/// What the status tab says of the last capture.
pub open spec fn last_capture_text(s: AppState) -> Seq<char> {
    match s.last_capture_at {
        Some(t) => date_text(t as int) + " "@ + clock_text(t as int) + " UTC"@ + "  ("@ + dec(
            s.last_capture_sz as nat,
        ) + " bytes)"@,
        None => "—"@,
    }
}

/// The lines of the status tab, each a sequence of cells.
pub open spec fn status_view(s: AppState) -> Seq<Seq<CellView>> {
    seq![
        seq![CellView { text: ""@, style: plain() }],
        seq![
            CellView { text: "  MQTT          "@, style: plain() },
            CellView {
                text: if s.mqtt_connected {
                    "● Connected"@
                } else {
                    "○ Disconnected"@
                },
                style: colored(
                    if s.mqtt_connected {
                        Color::Green
                    } else {
                        Color::Red
                    },
                ),
            },
        ],
        seq![CellView { text: "  Last capture  "@ + last_capture_text(s), style: plain() }],
        seq![CellView { text: "  Files today   "@ + dec(s.files_today as nat), style: plain() }],
        seq![CellView { text: "  Log dir       "@ + s.log_dir@, style: plain() }],
    ]
}

/// What a sequence of lines shows.
pub open spec fn lines_view(lines: Seq<Vec<TextCell>>) -> Seq<Seq<CellView>> {
    lines.map_values(|l: Vec<TextCell>| cells_view(l@))
}

fn one_cell(text: String) -> (r: Vec<TextCell>)
    ensures
        cells_view(r@) == seq![CellView { text: text@, style: plain() }],
{
    let mut r: Vec<TextCell> = Vec::new();
    r.push(cell(text, no_style()));
    proof {
        assert(cells_view(r@) =~= seq![CellView { text: text@, style: plain() }]);
    }
    r
}

fn last_capture(s: &AppState) -> (r: String)
    requires
        s.wf(),
    ensures
        r@ == last_capture_text(*s),
{
    match s.last_capture_at {
        Some(at) => {
            let mut t = datetime_stamp(at);
            t.append("  (");
            t.append(u64_text(s.last_capture_sz as u64).as_str());
            t.append(" bytes)");
            t
        },
        None => "—".to_owned(),
    }
}

/// The lines of the status tab.
pub fn draw_status(s: &AppState) -> (r: Vec<Vec<TextCell>>)
    requires
        s.wf(),
    ensures
        lines_view(r@) == status_view(*s),
{
    let mut mqtt: Vec<TextCell> = Vec::new();
    mqtt.push(cell("  MQTT          ".to_owned(), no_style()));
    if s.mqtt_connected {
        mqtt.push(cell("● Connected".to_owned(), in_color(Color::Green)));
    } else {
        mqtt.push(cell("○ Disconnected".to_owned(), in_color(Color::Red)));
    }
    let mut last = "  Last capture  ".to_owned();
    last.append(last_capture(s).as_str());
    let mut files = "  Files today   ".to_owned();
    files.append(u64_text(s.files_today as u64).as_str());
    let mut dir = "  Log dir       ".to_owned();
    dir.append(s.log_dir.as_str());

    let mut lines: Vec<Vec<TextCell>> = Vec::new();
    lines.push(one_cell("".to_owned()));
    proof {
        assert(cells_view(mqtt@) =~= status_view(*s)[1]);
    }
    lines.push(mqtt);
    lines.push(one_cell(last));
    lines.push(one_cell(files));
    lines.push(one_cell(dir));
    proof {
        assert(lines_view(lines@) =~= status_view(*s));
    }
    lines
}

/// How many lines of the activity log are shown.
pub const SHOWN_LINES: usize = 20;

/// The newest lines of the activity log, newest first, set off from the border.
pub fn recent_activity(s: &AppState) -> (r: Vec<String>)
    ensures
        r.len() == (if s.log().len() < SHOWN_LINES {
            s.log().len()
        } else {
            SHOWN_LINES as nat
        }),
        forall|i: int|
            0 <= i < r.len() ==> (#[trigger] r[i])@ == "  "@ + s.log()[s.log().len() - 1 - i],
{
    let n: usize = s.log_lines.len();
    let shown: usize = if n < SHOWN_LINES {
        n
    } else {
        SHOWN_LINES
    };
    let mut out: Vec<String> = Vec::new();
    let mut i: usize = 0;
    while i < shown
        invariant
            n == s.log_lines.len(),
            n == s.log().len(),
            i <= shown <= n,
            out.len() == i,
            forall|j: int|
                0 <= j < out.len() ==> (#[trigger] out[j])@ == "  "@ + s.log()[s.log().len() - 1
                    - j],
        decreases shown - i,
    {
        let mut t = "  ".to_owned();
        t.append(s.log_lines[n - 1 - i].as_str());
        out.push(t);
        i = i + 1;
    }
    out
}

/// The name of an offset from UTC.
pub open spec fn offset_text(utc_offset_hours: int) -> Seq<char> {
    if utc_offset_hours >= 0 {
        "UTC+"@ + int_dec(utc_offset_hours)
    } else {
        "UTC"@ + int_dec(utc_offset_hours)
    }
}

/// The cells of the header, with the local date and time given.
pub open spec fn header_view(s: AppState, local_time: Seq<char>) -> Seq<CellView> {
    seq![
        CellView {
            text: "  moon_shadow_photo  "@,
            style: TextStyle { fg: None, bg: None, bold: true },
        },
        CellView {
            text: local_time + "  "@ + offset_text(s.utc_offset_hours as int) + "  "@,
            style: plain(),
        },
        CellView {
            text: if s.mqtt_connected {
                "● MQTT"@
            } else {
                "○ MQTT"@
            },
            style: colored(
                if s.mqtt_connected {
                    Color::Green
                } else {
                    Color::Red
                },
            ),
        },
    ]
}

/// The cells of the header.
pub fn draw_header(s: &AppState, local_time: &str) -> (r: Vec<TextCell>)
    ensures
        cells_view(r@) == header_view(*s, local_time@),
{
    let mut offset = if s.utc_offset_hours >= 0 {
        "UTC+".to_owned()
    } else {
        "UTC".to_owned()
    };
    offset.append(i32_text(s.utc_offset_hours).as_str());
    let mut time = local_time.to_owned();
    time.append("  ");
    time.append(offset.as_str());
    time.append("  ");

    let mut cells: Vec<TextCell> = Vec::new();
    cells.push(
        cell("  moon_shadow_photo  ".to_owned(), TextStyle { fg: None, bg: None, bold: true }),
    );
    cells.push(cell(time, no_style()));
    if s.mqtt_connected {
        cells.push(cell("● MQTT".to_owned(), in_color(Color::Green)));
    } else {
        cells.push(cell("○ MQTT".to_owned(), in_color(Color::Red)));
    }
    proof {
        assert(cells_view(cells@) =~= header_view(*s, local_time@));
    }
    cells
}

/// The keys that the footer names.
pub fn footer_text(app: &TuiApp) -> (r: &'static str)
    ensures
        r@ == (if app.tab == 1 {
            "  ↑↓ nav  ←→ adjust  s send to device  c capture now  Tab next  q quit"@
        } else {
            "  ↑↓ nav  ←→ adjust  c capture now  Tab next  q quit"@
        }),
{
    if app.tab == 1 {
        "  ↑↓ nav  ←→ adjust  s send to device  c capture now  Tab next  q quit"
    } else {
        "  ↑↓ nav  ←→ adjust  c capture now  Tab next  q quit"
    }
}

/// What a tab holds.
#[derive(Debug)]
pub enum Content {
    /// A table with its title.
    Table { title: &'static str, rows: Vec<TableRow> },
    /// The state of the logger and its latest activity.
    Status { info: Vec<Vec<TextCell>>, activity: Vec<String> },
}

/// All that the user interface shows.
#[derive(Debug)]
pub struct Screen {
    pub header: Vec<TextCell>,
    /// The tab that is marked in the tab bar.
    pub tab: usize,
    pub content: Content,
    pub footer: TextCell,
}

/// What the user interface shows, with the local date and time given, at the nanosecond `now`
/// of the publisher's clock.
pub fn draw(app: &TuiApp, s: &AppState, local_time: &str, in_window: bool, now: u128) -> (r: Screen)
    requires
        s.wf(),
    ensures
        cells_view(r.header@) == header_view(*s, local_time@),
        r.tab == app.tab,
        (match r.content {
            Content::Table { title, rows } => {
                ||| app.tab == 0 && title@ == " Schedule "@ && rows_view(rows@) == schedule_view(
                    *app,
                    *s,
                    in_window,
                    now,
                )
                ||| app.tab == 1 && title@ == (if app.camera_dirty {
                    " Camera  ● unsaved "@
                } else {
                    " Camera "@
                }) && rows_view(rows@) == camera_view(*app, *s)
            },
            Content::Status { info, activity } => {
                &&& app.tab != 0 && app.tab != 1
                &&& lines_view(info@) == status_view(*s)
                &&& activity.len() == (if s.log().len() < SHOWN_LINES {
                    s.log().len()
                } else {
                    SHOWN_LINES as nat
                })
                &&& forall|i: int|
                    0 <= i < activity.len() ==> (#[trigger] activity[i])@ == "  "@
                        + s.log()[s.log().len() - 1 - i]
            },
        }),
        r.footer.text@ == (if app.tab == 1 {
            "  ↑↓ nav  ←→ adjust  s send to device  c capture now  Tab next  q quit"@
        } else {
            "  ↑↓ nav  ←→ adjust  c capture now  Tab next  q quit"@
        }),
        r.footer.style == colored(Color::DarkGray),
{
    let content = if app.tab == 0 {
        Content::Table { title: " Schedule ", rows: draw_schedule(app, s, in_window, now) }
    } else if app.tab == 1 {
        Content::Table { title: camera_title(app), rows: draw_camera(app, s) }
    } else {
        Content::Status { info: draw_status(s), activity: recent_activity(s) }
    };
    Screen {
        header: draw_header(s, local_time),
        tab: app.tab,
        content,
        footer: cell(footer_text(app).to_owned(), in_color(Color::DarkGray)),
    }
}

/// The names of the tabs.
pub fn tab_titles() -> (r: [&'static str; 3])
    ensures
        r[0]@ == "  Schedule  "@,
        r[1]@ == "  Camera  "@,
        r[2]@ == "  Status  "@,
{
    ["  Schedule  ", "  Camera  ", "  Status  "]
}

/// The schedule and the camera tab mark the selected field and no other.
pub proof fn law_one_field_is_marked(app: TuiApp, s: AppState, in_window: bool, now: u128, i: int)
    ensures
        app.tab == 0 && 0 <= i < 4 ==> schedule_view(app, s, in_window, now)[i].label.style
            == label_style(i == app.field()),
        app.tab == 1 && 0 <= i < 6 ==> camera_view(app, s)[i].label.style == label_style(
            i == app.field(),
        ),
{
}

} // verus!
