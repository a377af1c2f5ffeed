//! Messages between the logger and the device.

use vstd::prelude::*;
use vstd::string::*;

use super::config::Config;
use crate::text::same_text;

verus! {

/// A request to capture with the given camera settings.
#[derive(Clone, Copy, Debug, PartialEq, Eq, Structural)]
pub struct SendDataCmd {
    /// Lines of manual exposure from 0 to 1200, or -1 for automatic exposure.
    pub exposure: i32,
    /// Manual gain from 0 to 30, or -1 for automatic gain.
    pub gain: i32,
    /// Seconds to stack frames for, or 0 for a single frame.
    pub stack_secs: u32,
}

/// A command that sets a camera value.
#[derive(Debug)]
pub struct ConfigCmd {
    /// `SetFramesize`, `SetQuality` or `SetGainCeiling`.
    pub cmd: String,
    /// The value, if the command carries an unsigned integer.
    pub value: Option<u64>,
}

/// What a device reports of itself.
#[derive(Clone, Copy, Debug)]
pub struct StatusMessage<'a> {
    pub status: &'a str,
    pub framesize: u8,
    pub quality: u8,
    pub gain_ceiling: u8,
    pub upload_host: &'a str,
}

/// The report of a device that has the given configuration.
pub fn status_message<'a>(status: &'a str, cfg: &'a Config) -> (r: StatusMessage<'a>)
    ensures
        r.status@ == status@,
        r.framesize == cfg.framesize,
        r.quality == cfg.jpeg_quality,
        r.gain_ceiling == cfg.gain_ceiling,
        r.upload_host@ == cfg.upload_host@,
{
    StatusMessage {
        status,
        framesize: cfg.framesize,
        quality: cfg.jpeg_quality,
        gain_ceiling: cfg.gain_ceiling,
        upload_host: cfg.upload_host.as_str(),
    }
}

/// What a command asks for.
#[derive(Clone, Copy, Debug, PartialEq, Eq, Structural)]
pub enum CmdEffect {
    /// A frame size that counts from the next start of the camera on.
    Framesize(u64),
    /// A quality that counts from the next start of the camera on.
    Quality(u64),
    /// A gain ceiling to set at once, and the value it was given as.
    GainCeiling { ceiling: u8, value: u64 },
    /// A known command without a usable value.
    NoValue,
    /// A command that is not known.
    Unknown,
}

/// What a command asks for.
pub open spec fn cmd_effect(cmd: Seq<char>, value: Option<u64>) -> CmdEffect {
    if cmd == "SetFramesize"@ {
        match value {
            Some(v) => CmdEffect::Framesize(v),
            None => CmdEffect::NoValue,
        }
    } else if cmd == "SetQuality"@ {
        match value {
            Some(v) => CmdEffect::Quality(v),
            None => CmdEffect::NoValue,
        }
    } else if cmd == "SetGainCeiling"@ {
        match value {
            Some(v) => CmdEffect::GainCeiling { ceiling: (v % 256) as u8, value: v },
            None => CmdEffect::NoValue,
        }
    } else {
        CmdEffect::Unknown
    }
}

/// Decides what a command asks for. A gain ceiling is taken by its lowest eight bits.
pub fn handle_config_cmd(cmd: &ConfigCmd) -> (r: CmdEffect)
    ensures
        r == cmd_effect(cmd.cmd@, cmd.value),
{
    if same_text(cmd.cmd.as_str(), "SetFramesize") {
        match cmd.value {
            Some(v) => CmdEffect::Framesize(v),
            None => CmdEffect::NoValue,
        }
    } else if same_text(cmd.cmd.as_str(), "SetQuality") {
        match cmd.value {
            Some(v) => CmdEffect::Quality(v),
            None => CmdEffect::NoValue,
        }
    } else if same_text(cmd.cmd.as_str(), "SetGainCeiling") {
        match cmd.value {
            Some(v) => CmdEffect::GainCeiling { ceiling: (v % 256) as u8, value: v },
            None => CmdEffect::NoValue,
        }
    } else {
        CmdEffect::Unknown
    }
}

/// The configuration in memory after a command. Numbers are taken by their lowest eight bits.
pub open spec fn with_effect(cfg: Config, effect: CmdEffect) -> Config {
    match effect {
        CmdEffect::Framesize(v) => Config { framesize: (v % 256) as u8, ..cfg },
        CmdEffect::Quality(v) => Config { jpeg_quality: (v % 256) as u8, ..cfg },
        CmdEffect::GainCeiling { ceiling, .. } => Config { gain_ceiling: ceiling, ..cfg },
        CmdEffect::NoValue => cfg,
        CmdEffect::Unknown => cfg,
    }
}

/// Updates the configuration in memory as a command asks. What is kept in flash stays.
pub fn apply_effect(cfg: &mut Config, effect: CmdEffect)
    ensures
        *final(cfg) == with_effect(*old(cfg), effect),
{
    match effect {
        CmdEffect::Framesize(v) => {
            cfg.framesize = (v % 256) as u8;
        },
        CmdEffect::Quality(v) => {
            cfg.jpeg_quality = (v % 256) as u8;
        },
        CmdEffect::GainCeiling { ceiling, .. } => {
            cfg.gain_ceiling = ceiling;
        },
        CmdEffect::NoValue => {},
        CmdEffect::Unknown => {},
    }
}

/// The commands have three different names.
pub proof fn law_command_names_differ()
    ensures
        "SetQuality"@ != "SetFramesize"@,
        "SetQuality"@ != "SetGainCeiling"@,
        "SetFramesize"@ != "SetGainCeiling"@,
{
    reveal_strlit("SetQuality");
    reveal_strlit("SetFramesize");
    reveal_strlit("SetGainCeiling");
    assert("SetQuality"@.len() == 10);
    assert("SetFramesize"@.len() == 12);
    assert("SetGainCeiling"@.len() == 14);
}

/// The device knows the commands that the logger sends, and takes a gain ceiling as it was
/// sent.
pub proof fn law_logger_commands_are_known(value: u8)
    ensures
        cmd_effect("SetQuality"@, Some(value as u64)) == CmdEffect::Quality(value as u64),
        cmd_effect("SetFramesize"@, Some(value as u64)) == CmdEffect::Framesize(value as u64),
        cmd_effect("SetGainCeiling"@, Some(value as u64)) == (CmdEffect::GainCeiling {
            ceiling: value,
            value: value as u64,
        }),
{
    law_command_names_differ();
}

} // verus!
