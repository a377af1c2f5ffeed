//! What the keys do.

use vstd::prelude::*;

use super::adjust::{adjust, adjust_command, adjust_fits, adjust_in_range, adjusted};
use super::state::{AppState, Settings};
use super::tui::{field_count, tab_after, tab_before, TuiApp};

verus! {

/// A key.
#[derive(Clone, Copy, Debug, PartialEq, Eq, Structural)]
pub enum Key {
    Char(char),
    Esc,
    Tab,
    BackTab,
    Up,
    Down,
    Left,
    Right,
    Other,
}

/// What is left to do after a key.
#[derive(Debug)]
pub enum KeyAction {
    /// Nothing.
    Stay,
    /// Leave the user interface.
    Quit,
    /// Publish a command for the camera.
    Command(String),
    /// Publish all camera values.
    SendCamera { quality: u8, gain_ceiling: u8, framesize: u8 },
    /// Publish a capture request.
    Capture { exposure: i32, gain: i32, stack_secs: u32 },
}

/// The direction in which a key adjusts, if it does.
pub open spec fn adjust_key(key: Key) -> Option<i64> {
    match key {
        Key::Left => Some(-1i64),
        Key::Right => Some(1i64),
        Key::Char(c) => if c == '-' {
            Some(-1i64)
        } else if c == '+' {
            Some(1i64)
        } else {
            None
        },
        _ => None,
    }
}

/// Whether a key leaves the user interface.
pub open spec fn quit_key(key: Key) -> bool {
    key == Key::Esc || key == Key::Char('q')
}

/// Whether a key sends the camera values, on the camera tab.
pub open spec fn send_key(key: Key) -> bool {
    key == Key::Char('s') || key == Key::Char('S')
}

/// Whether a key requests a capture.
pub open spec fn capture_key(key: Key) -> bool {
    key == Key::Char('c') || key == Key::Char('C')
}

/// The user interface after a key was pressed: `cmd` says whether the key changed something of
/// which the camera has to be told.
pub open spec fn after_key(app: TuiApp, key: Key, cmd: bool, after: TuiApp) -> bool {
    &&& after.tab == (if key == Key::Tab {
        tab_after(app.tab as int)
    } else if key == Key::BackTab {
        tab_before(app.tab as int)
    } else {
        app.tab as int
    })
    &&& after.selected@ == (if key == Key::Up && app.field() > 0 {
        app.selected@.update(app.slot(), (app.field() - 1) as usize)
    } else if key == Key::Down && app.field() + 1 < field_count(app.tab as int) {
        app.selected@.update(app.slot(), (app.field() + 1) as usize)
    } else {
        app.selected@
    })
    &&& after.camera_dirty == (if adjust_key(key) is Some && app.tab == 1 && cmd {
        true
    } else if send_key(key) && app.tab == 1 {
        false
    } else {
        app.camera_dirty
    })
}

/// The settings after a key was pressed.
pub open spec fn settings_after_key(s: Settings, app: TuiApp, key: Key) -> Settings {
    match adjust_key(key) {
        Some(delta) => adjusted(s, app.tab as int, app.field() as int, delta),
        None => s,
    }
}

fn adjust_direction(key: Key) -> (r: Option<i64>)
    ensures
        r == adjust_key(key),
{
    match key {
        Key::Left => Some(-1),
        Key::Right => Some(1),
        Key::Char(c) => if c == '-' {
            Some(-1)
        } else if c == '+' {
            Some(1)
        } else {
            None
        },
        _ => None,
    }
}

/// Whether what a key adjusts can be adjusted within the machine's numbers.
pub fn key_in_range(app: &TuiApp, s: &AppState, key: Key) -> (r: bool)
    ensures
        r == (match adjust_key(key) {
            Some(delta) => adjust_fits(s.settings(), app.tab as int, app.field() as int, delta),
            None => true,
        }),
{
    match adjust_direction(key) {
        Some(delta) => adjust_in_range(s, app, delta),
        None => true,
    }
}

/// Handles a key event. Only the pressing of a key counts.
pub fn handle_key(app: &mut TuiApp, s: &mut AppState, key: Key, pressed: bool) -> (r: KeyAction)
    requires
        pressed && key == Key::Tab ==> old(app).tab + 1 <= usize::MAX,
        pressed && key == Key::BackTab ==> old(app).tab + 2 <= usize::MAX,
        pressed && key == Key::Down ==> old(app).field() + 1 <= usize::MAX,
        pressed && adjust_key(key) is Some ==> adjust_fits(
            old(s).settings(),
            old(app).tab as int,
            old(app).field() as int,
            adjust_key(key)->0,
        ),
    ensures
        old(app).wf() ==> final(app).wf(),
        final(s).same_status(*old(s)),
        !pressed ==> r is Stay && *final(app) == *old(app) && final(s).settings() == old(
            s,
        ).settings(),
        pressed ==> {
            let cmd = adjust_command(
                final(s).settings(),
                old(app).tab as int,
                old(app).field() as int,
            );
            &&& final(s).settings() == settings_after_key(old(s).settings(), *old(app), key)
            &&& after_key(*old(app), key, cmd is Some, *final(app))
            &&& r is Quit <==> quit_key(key)
            &&& (match r {
                KeyAction::Command(text) => adjust_key(key) is Some && old(app).tab != 1 && cmd
                    == Some(text@),
                _ => adjust_key(key) is Some ==> old(app).tab == 1 || cmd is None,
            })
            &&& (match r {
                KeyAction::SendCamera { quality, gain_ceiling, framesize } => {
                    &&& send_key(key) && old(app).tab == 1
                    &&& quality == old(s).quality
                    &&& gain_ceiling == old(s).gain_ceiling
                    &&& framesize == old(s).framesize
                },
                _ => !(send_key(key) && old(app).tab == 1),
            })
            &&& (match r {
                KeyAction::Capture { exposure, gain, stack_secs } => {
                    &&& capture_key(key)
                    &&& exposure == old(s).exposure
                    &&& gain == old(s).gain
                    &&& stack_secs == old(s).stack_secs
                },
                _ => !capture_key(key),
            })
        },
{
    if !pressed {
        return KeyAction::Stay;
    }
    if let Some(delta) = adjust_direction(key) {
        let cmd = adjust(s, app, delta);
        if app.tab == 1 {
            if cmd.is_some() {
                app.camera_dirty = true;
            }
            return KeyAction::Stay;
        }
        return match cmd {
            Some(text) => KeyAction::Command(text),
            None => KeyAction::Stay,
        };
    }
    match key {
        Key::Esc => KeyAction::Quit,
        Key::Tab => {
            app.next_tab();
            KeyAction::Stay
        },
        Key::BackTab => {
            app.prev_tab();
            KeyAction::Stay
        },
        Key::Up => {
            app.move_up();
            proof {
                assert(app.selected@ =~= (if old(app).field() > 0 {
                    old(app).selected@.update(old(app).slot(), (old(app).field() - 1) as usize)
                } else {
                    old(app).selected@
                }));
            }
            KeyAction::Stay
        },
        Key::Down => {
            app.move_down();
            proof {
                assert(app.selected@ =~= (if old(app).field() + 1 < field_count(
                    old(app).tab as int,
                ) {
                    old(app).selected@.update(old(app).slot(), (old(app).field() + 1) as usize)
                } else {
                    old(app).selected@
                }));
            }
            KeyAction::Stay
        },
        Key::Char(c) => {
            if c == 'q' {
                KeyAction::Quit
            } else if (c == 's' || c == 'S') && app.tab == 1 {
                app.camera_dirty = false;
                KeyAction::SendCamera {
                    quality: s.quality,
                    gain_ceiling: s.gain_ceiling,
                    framesize: s.framesize,
                }
            } else if c == 'c' || c == 'C' {
                KeyAction::Capture {
                    exposure: s.exposure,
                    gain: s.gain,
                    stack_secs: s.stack_secs,
                }
            } else {
                KeyAction::Stay
            }
        },
        _ => KeyAction::Stay,
    }
}

} // verus!
