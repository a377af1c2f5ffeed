//! State that the parts of the logger share.

use vstd::prelude::*;
use vstd::string::*;

use super::config::Config;
use crate::clock::{TimeOfDay, MAX_UNIX_SECS, MIN_UNIX_SECS};

verus! {

/// How many lines the activity log keeps.
pub const LOG_LINES: usize = 30;

/// What the logger is set to and what it has seen.
#[derive(Debug)]
pub struct AppState {
    /// Seconds between two captures.
    pub interval_secs: u64,
    pub window_start_local: TimeOfDay,
    pub window_stop_local: TimeOfDay,
    pub utc_offset_hours: i32,
    /// -1 for automatic, else 0 to 1200.
    pub exposure: i32,
    /// -1 for automatic, else 0 to 30.
    pub gain: i32,
    /// 0 for a single frame, 1 to 10 for the stacking duration in seconds.
    pub stack_secs: u32,
    pub quality: u8,
    pub gain_ceiling: u8,
    pub framesize: u8,
    pub mqtt_connected: bool,
    /// Seconds since the Unix epoch.
    pub last_capture_at: Option<i64>,
    /// Size of the last capture in bytes.
    pub last_capture_sz: usize,
    pub files_today: u32,
    /// Nanoseconds on the clock that the publisher runs by.
    pub next_capture_at: Option<u128>,
    /// Oldest first.
    pub log_lines: Vec<String>,
    pub log_dir: String,
}

/// The settings that the keys change, as numbers; times in seconds since midnight.
pub struct Settings {
    pub interval: u64,
    pub start: int,
    pub stop: int,
    pub utc_offset: i32,
    pub exposure: i32,
    pub gain: i32,
    pub stack_secs: u32,
    pub quality: u8,
    pub gain_ceiling: u8,
    pub framesize: u8,
}

/// The lines of a log, as character sequences.
pub open spec fn lines(log: Seq<String>) -> Seq<Seq<char>> {
    log.map_values(|l: String| l@)
}

/// A log with one line more: behind the others, and in place of the first where there were
/// as many as it keeps.
pub open spec fn logged(log: Seq<Seq<char>>, line: Seq<char>) -> Seq<Seq<char>> {
    if log.len() + 1 > LOG_LINES {
        log.push(line).drop_first()
    } else {
        log.push(line)
    }
}

impl AppState {
    /// The settings.
    pub open spec fn settings(self) -> Settings {
        Settings {
            interval: self.interval_secs,
            start: self.window_start_local@,
            stop: self.window_stop_local@,
            utc_offset: self.utc_offset_hours,
            exposure: self.exposure,
            gain: self.gain,
            stack_secs: self.stack_secs,
            quality: self.quality,
            gain_ceiling: self.gain_ceiling,
            framesize: self.framesize,
        }
    }

    /// The last capture has a calendar date.
    pub open spec fn wf(self) -> bool {
        self.last_capture_at matches Some(t) ==> MIN_UNIX_SECS <= t <= MAX_UNIX_SECS
    }

    /// The lines of the activity log, oldest first.
    pub open spec fn log(self) -> Seq<Seq<char>> {
        lines(self.log_lines@)
    }

    /// Whether `other` differs in its settings at most.
    pub open spec fn same_status(self, other: AppState) -> bool {
        &&& self.same_but_log(other)
        &&& self.log() == other.log()
    }

    /// Whether `other` differs in its settings and its log at most.
    pub open spec fn same_but_log(self, other: AppState) -> bool {
        &&& self.mqtt_connected == other.mqtt_connected
        &&& self.last_capture_at == other.last_capture_at
        &&& self.last_capture_sz == other.last_capture_sz
        &&& self.files_today == other.files_today
        &&& self.next_capture_at == other.next_capture_at
        &&& self.log_dir@ == other.log_dir@
    }

    /// The state at the start: set as configured, nothing seen yet but the files of today.
    pub fn new(
        cfg: &Config,
        window_start_local: TimeOfDay,
        window_stop_local: TimeOfDay,
        files_today: u32,
    ) -> (r: AppState)
        ensures
            r.wf(),
            r.settings() == (Settings {
                interval: cfg.interval,
                start: window_start_local@,
                stop: window_stop_local@,
                utc_offset: cfg.utc_offset_hours,
                exposure: cfg.exposure,
                gain: cfg.gain,
                stack_secs: cfg.stack_secs,
                quality: cfg.quality,
                gain_ceiling: cfg.gain_ceiling,
                framesize: cfg.framesize,
            }),
            !r.mqtt_connected,
            r.last_capture_at is None,
            r.last_capture_sz == 0,
            r.files_today == files_today,
            r.next_capture_at is None,
            r.log().len() == 0,
            r.log_dir@ == cfg.log_dir@,
    {
        AppState {
            interval_secs: cfg.interval,
            window_start_local,
            window_stop_local,
            utc_offset_hours: cfg.utc_offset_hours,
            exposure: cfg.exposure,
            gain: cfg.gain,
            stack_secs: cfg.stack_secs,
            quality: cfg.quality,
            gain_ceiling: cfg.gain_ceiling,
            framesize: cfg.framesize,
            mqtt_connected: false,
            last_capture_at: None,
            last_capture_sz: 0,
            files_today,
            next_capture_at: None,
            log_lines: Vec::new(),
            log_dir: cfg.log_dir.clone(),
        }
    }

    /// Adds a line to the activity log and drops the oldest of too many.
    pub fn push_log(&mut self, line: String)
        ensures
            final(self).log() == logged(old(self).log(), line@),
            final(self).settings() == old(self).settings(),
            final(self).same_but_log(*old(self)),
    {
        let ghost before = self.log_lines@;
        self.log_lines.push(line);
        if self.log_lines.len() > LOG_LINES {
            self.log_lines.remove(0);
            proof {
                assert(lines(self.log_lines@) =~= lines(before).push(line@).drop_first());
            }
        } else {
            proof {
                assert(lines(self.log_lines@) =~= lines(before).push(line@));
            }
        }
    }

    /// Takes note of what the MQTT connection reports. Returns the seconds to wait before
    /// polling it again, if there are any.
    pub fn on_mqtt(&mut self, signal: MqttSignal) -> (wait: Option<u64>)
        ensures
            final(self).mqtt_connected == (match signal {
                MqttSignal::ConnAck => true,
                MqttSignal::Disconnect | MqttSignal::Error => false,
                MqttSignal::Other => old(self).mqtt_connected,
            }),
            wait == (if signal is Error {
                Some(2u64)
            } else {
                None
            }),
            final(self).settings() == old(self).settings(),
            final(self).same_status(
                (AppState { mqtt_connected: final(self).mqtt_connected, ..*old(self) }),
            ),
    {
        match signal {
            MqttSignal::ConnAck => {
                self.mqtt_connected = true;
                None
            },
            MqttSignal::Error => {
                self.mqtt_connected = false;
                Some(2)
            },
            MqttSignal::Disconnect => {
                self.mqtt_connected = false;
                None
            },
            MqttSignal::Other => None,
        }
    }
}

/// What the MQTT connection reports.
#[derive(Clone, Copy, Debug, PartialEq, Eq, Structural)]
pub enum MqttSignal {
    /// The broker has accepted the connection.
    ConnAck,
    /// The broker has closed the connection.
    Disconnect,
    /// The connection has failed.
    Error,
    /// Anything else.
    Other,
}

/// The activity log never outgrows what it keeps, and its newest line is the one added last.
pub proof fn law_log_bounded(log: Seq<Seq<char>>, line: Seq<char>)
    requires
        log.len() <= LOG_LINES,
    ensures
        logged(log, line).len() <= LOG_LINES,
        logged(log, line).last() == line,
{
}

/// What a log holds after any number of lines were added.
pub open spec fn logged_all(log: Seq<Seq<char>>, added: Seq<Seq<char>>) -> Seq<Seq<char>>
    decreases added.len(),
{
    if added.len() == 0 {
        log
    } else {
        logged(logged_all(log, added.drop_last()), added.last())
    }
}

/// Starting empty, the log holds the newest lines that were added, as many as it keeps, in the
/// order in which they came.
pub proof fn law_log_keeps_newest(added: Seq<Seq<char>>)
    ensures
        logged_all(Seq::empty(), added) == (if added.len() <= LOG_LINES {
            added
        } else {
            added.skip(added.len() - LOG_LINES)
        }),
    decreases added.len(),
{
    if added.len() == 0 {
        assert(logged_all(Seq::empty(), added) =~= added);
    } else {
        law_log_keeps_newest(added.drop_last());
        let prev = logged_all(Seq::empty(), added.drop_last());
        assert(added =~= added.drop_last().push(added.last()));
        if added.len() <= LOG_LINES {
            assert(logged(prev, added.last()) =~= added);
        } else if added.len() == LOG_LINES + 1 {
            assert(logged(prev, added.last()) =~= added.skip(1));
        } else {
            assert(logged(prev, added.last()) =~= added.skip(added.len() - LOG_LINES));
        }
    }
}

} // verus!
