//! The OV2640 camera of an AI-Thinker ESP32-CAM board.

use vstd::prelude::*;
use vstd::string::*;

use crate::text::{dec, hex, hex_text, u64_text};

verus! {

pub const PIN_PWDN: i32 = 32;

pub const PIN_RESET: i32 = -1;

pub const PIN_XCLK: i32 = 0;

pub const PIN_SIOD: i32 = 26;

pub const PIN_SIOC: i32 = 27;

pub const PIN_D7: i32 = 35;

pub const PIN_D6: i32 = 34;

pub const PIN_D5: i32 = 39;

pub const PIN_D4: i32 = 36;

pub const PIN_D3: i32 = 21;

pub const PIN_D2: i32 = 19;

pub const PIN_D1: i32 = 18;

pub const PIN_D0: i32 = 5;

pub const PIN_VSYNC: i32 = 25;

pub const PIN_HREF: i32 = 23;

pub const PIN_PCLK: i32 = 22;

/// Pixel format of one byte of brightness per pixel.
pub const PIXFORMAT_GRAYSCALE: u32 = 3;

/// Pixel format of a JPEG image.
pub const PIXFORMAT_JPEG: u32 = 4;

/// Frame buffers lie in external memory.
pub const CAMERA_FB_IN_PSRAM: u32 = 0;

/// Buffers are filled when they are empty.
pub const CAMERA_GRAB_WHEN_EMPTY: u32 = 0;

/// Buffers are filled again and again, so that the newest frame is at hand.
pub const CAMERA_GRAB_LATEST: u32 = 1;

/// The LED timer that generates the clock of the camera.
pub const LEDC_TIMER_0: u32 = 0;

/// The LED channel that generates the clock of the camera.
pub const LEDC_CHANNEL_0: u32 = 0;

/// The return code of a driver call that went well.
pub const ESP_OK: i32 = 0;

/// How the camera driver is set up.
#[derive(Clone, Copy, Debug, PartialEq, Eq, Structural)]
pub struct CameraConfig {
    pub pin_pwdn: i32,
    pub pin_reset: i32,
    pub pin_xclk: i32,
    pub pin_sccb_sda: i32,
    pub pin_sccb_scl: i32,
    pub pin_d7: i32,
    pub pin_d6: i32,
    pub pin_d5: i32,
    pub pin_d4: i32,
    pub pin_d3: i32,
    pub pin_d2: i32,
    pub pin_d1: i32,
    pub pin_d0: i32,
    pub pin_vsync: i32,
    pub pin_href: i32,
    pub pin_pclk: i32,
    pub xclk_freq_hz: i32,
    pub ledc_timer: u32,
    pub ledc_channel: u32,
    pub pixel_format: u32,
    pub frame_size: u32,
    pub jpeg_quality: i32,
    pub fb_count: usize,
    pub fb_location: u32,
    pub grab_mode: u32,
    pub sccb_i2c_port: i32,
}

/// A frame that the camera took.
#[derive(Debug)]
pub struct CameraFb {
    pub buf: Vec<u8>,
    pub width: usize,
    pub height: usize,
    pub format: u32,
    pub timestamp: [i32; 2],
}

/// Which sensor it is.
#[derive(Clone, Copy, Debug, PartialEq, Eq, Structural)]
pub struct SensorId {
    pub midh: u8,
    pub midl: u8,
    pub pid: u16,
    pub ver: u8,
}

/// What the sensor is set to.
#[derive(Clone, Copy, Debug, PartialEq, Eq, Structural)]
pub struct CameraStatus {
    pub framesize: u32,
    pub scale: u8,
    pub binning: u8,
    pub quality: u8,
    pub brightness: i8,
    pub contrast: i8,
    pub saturation: i8,
    pub sharpness: i8,
    pub denoise: u8,
    pub special_effect: u8,
    pub wb_mode: u8,
    pub awb: u8,
    pub awb_gain: u8,
    pub aec: u8,
    pub aec2: u8,
    pub ae_level: i8,
    pub aec_value: u16,
    pub agc: u8,
    pub agc_gain: u8,
    pub gainceiling: u8,
    pub bpc: u8,
    pub wpc: u8,
    pub raw_gma: u8,
    pub lenc: u8,
    pub hmirror: u8,
    pub vflip: u8,
    pub dcw: u8,
    pub colorbar: u8,
}

/// The sensor, and which of its settings the driver can change.
#[derive(Clone, Copy, Debug, PartialEq, Eq, Structural)]
pub struct SensorT {
    pub id: SensorId,
    pub slv_addr: u8,
    pub pixformat: u32,
    pub status: CameraStatus,
    pub xclk_freq_hz: i32,
    pub init_status: bool,
    pub reset: bool,
    pub set_pixformat: bool,
    pub set_framesize: bool,
    pub set_contrast: bool,
    pub set_brightness: bool,
    pub set_saturation: bool,
    pub set_sharpness: bool,
    pub set_denoise: bool,
    pub set_gainceiling: bool,
    pub set_quality: bool,
    pub set_colorbar: bool,
    pub set_whitebal: bool,
    pub set_gain_ctrl: bool,
    pub set_exposure_ctrl: bool,
    pub set_hmirror: bool,
    pub set_vflip: bool,
    pub set_aec2: bool,
    pub set_awb_gain: bool,
    pub set_agc_gain: bool,
    pub set_aec_value: bool,
}

/// The set-up with the given image parameters, on the pins of the board.
pub open spec fn board_config(
    framesize: u8,
    quality: u8,
    pixel_format: u32,
    fb_count: usize,
    grab_mode: u32,
) -> CameraConfig {
    CameraConfig {
        pin_pwdn: PIN_PWDN,
        pin_reset: PIN_RESET,
        pin_xclk: PIN_XCLK,
        pin_sccb_sda: PIN_SIOD,
        pin_sccb_scl: PIN_SIOC,
        pin_d7: PIN_D7,
        pin_d6: PIN_D6,
        pin_d5: PIN_D5,
        pin_d4: PIN_D4,
        pin_d3: PIN_D3,
        pin_d2: PIN_D2,
        pin_d1: PIN_D1,
        pin_d0: PIN_D0,
        pin_vsync: PIN_VSYNC,
        pin_href: PIN_HREF,
        pin_pclk: PIN_PCLK,
        xclk_freq_hz: 20_000_000,
        ledc_timer: LEDC_TIMER_0,
        ledc_channel: LEDC_CHANNEL_0,
        pixel_format,
        frame_size: framesize as u32,
        jpeg_quality: quality as i32,
        fb_count,
        fb_location: CAMERA_FB_IN_PSRAM,
        grab_mode,
        sccb_i2c_port: -1i32,
    }
}

/// The set-up for taking JPEG images.
pub open spec fn jpeg_mode(framesize: u8, quality: u8) -> CameraConfig {
    board_config(framesize, quality, PIXFORMAT_JPEG, 2, CAMERA_GRAB_LATEST)
}

/// The set-up for taking frames to stack.
pub open spec fn grayscale_mode(framesize: u8, quality: u8) -> CameraConfig {
    board_config(framesize, quality, PIXFORMAT_GRAYSCALE, 1, CAMERA_GRAB_WHEN_EMPTY)
}

/// The set-up with the given image parameters, on the pins of the board.
pub fn make_config(
    framesize: u8,
    quality: u8,
    pixel_format: u32,
    fb_count: usize,
    grab_mode: u32,
) -> (r: CameraConfig)
    ensures
        r == board_config(framesize, quality, pixel_format, fb_count, grab_mode),
{
    CameraConfig {
        pin_pwdn: PIN_PWDN,
        pin_reset: PIN_RESET,
        pin_xclk: PIN_XCLK,
        pin_sccb_sda: PIN_SIOD,
        pin_sccb_scl: PIN_SIOC,
        pin_d7: PIN_D7,
        pin_d6: PIN_D6,
        pin_d5: PIN_D5,
        pin_d4: PIN_D4,
        pin_d3: PIN_D3,
        pin_d2: PIN_D2,
        pin_d1: PIN_D1,
        pin_d0: PIN_D0,
        pin_vsync: PIN_VSYNC,
        pin_href: PIN_HREF,
        pin_pclk: PIN_PCLK,
        xclk_freq_hz: 20_000_000,
        ledc_timer: LEDC_TIMER_0,
        ledc_channel: LEDC_CHANNEL_0,
        pixel_format,
        frame_size: framesize as u32,
        jpeg_quality: quality as i32,
        fb_count,
        fb_location: CAMERA_FB_IN_PSRAM,
        grab_mode,
        sccb_i2c_port: -1,
    }
}

/// The set-up for taking JPEG images: two buffers in turn, of which the newest frame is kept.
pub fn jpeg_config(framesize: u8, quality: u8) -> (r: CameraConfig)
    ensures
        r == jpeg_mode(framesize, quality),
{
    make_config(framesize, quality, PIXFORMAT_JPEG, 2, CAMERA_GRAB_LATEST)
}

/// The set-up for taking frames to stack: one buffer, one byte per pixel.
pub fn grayscale_config(framesize: u8, quality: u8) -> (r: CameraConfig)
    ensures
        r == grayscale_mode(framesize, quality),
{
    make_config(framesize, quality, PIXFORMAT_GRAYSCALE, 1, CAMERA_GRAB_WHEN_EMPTY)
}

/// Why there is no image.
#[derive(Clone, Copy, Debug, PartialEq, Eq, Structural)]
pub enum CameraError {
    /// Starting the camera failed with a code.
    InitFailed(i32),
    /// The camera gave no frame.
    NoFrame,
    /// Starting the camera for stacking failed with a code.
    GrayscaleFailed(i32),
    /// The camera gave no frame to stack.
    NoFirstFrame,
    /// There is no memory of that many bytes.
    AllocFailed(usize),
    /// The camera gave no frame in place of the one with that number.
    NoStackFrame(u32),
    /// The stacked image could not be encoded.
    EncodingFailed,
}

impl CameraError {
    /// What is said of the error.
    pub open spec fn text(self) -> Seq<char> {
        match self {
            CameraError::InitFailed(e) => "esp_camera_init failed: 0x"@ + hex((e as u32) as nat),
            CameraError::NoFrame => "esp_camera_fb_get returned null"@,
            CameraError::GrayscaleFailed(e) => "grayscale reinit failed: 0x"@ + hex(
                (e as u32) as nat,
            ),
            CameraError::NoFirstFrame => "first grayscale frame null"@,
            CameraError::AllocFailed(n) => "PSRAM alloc failed ("@ + dec(n as nat) + " B)"@,
            CameraError::NoStackFrame(i) => "frame "@ + dec(i as nat) + " null during stack"@,
            CameraError::EncodingFailed => "fmt2jpg encoding failed"@,
        }
    }

    /// What is said of the error.
    pub fn message(self) -> (r: String)
        ensures
            r@ == self.text(),
    {
        match self {
            CameraError::InitFailed(e) => {
                let mut t = "esp_camera_init failed: 0x".to_owned();
                t.append(hex_text((e as u32) as u64).as_str());
                t
            },
            CameraError::NoFrame => "esp_camera_fb_get returned null".to_owned(),
            CameraError::GrayscaleFailed(e) => {
                let mut t = "grayscale reinit failed: 0x".to_owned();
                t.append(hex_text((e as u32) as u64).as_str());
                t
            },
            CameraError::NoFirstFrame => "first grayscale frame null".to_owned(),
            CameraError::AllocFailed(n) => {
                let mut t = "PSRAM alloc failed (".to_owned();
                t.append(u64_text(n as u64).as_str());
                t.append(" B)");
                t
            },
            CameraError::NoStackFrame(i) => {
                let mut t = "frame ".to_owned();
                t.append(u64_text(i as u64).as_str());
                t.append(" null during stack");
                t
            },
            CameraError::EncodingFailed => "fmt2jpg encoding failed".to_owned(),
        }
    }
}

/// The set-up in which the camera is started first.
pub fn init(framesize: u8, quality: u8) -> (r: CameraConfig)
    ensures
        r == jpeg_mode(framesize, quality),
{
    jpeg_config(framesize, quality)
}

/// Judges the return code of starting the camera.
pub fn init_result(ret: i32) -> (r: Result<(), CameraError>)
    ensures
        r == (if ret == ESP_OK {
            Ok::<(), CameraError>(())
        } else {
            Err(CameraError::InitFailed(ret))
        }),
{
    if ret == ESP_OK {
        Ok(())
    } else {
        Err(CameraError::InitFailed(ret))
    }
}

/// A step on the way from one set-up of the camera to another.
#[derive(Clone, Copy, Debug, PartialEq, Eq, Structural)]
pub enum CameraStep {
    /// Stop the driver.
    Deinit,
    /// Hold the power-down pin of the sensor high, so that the sensor resets.
    HoldPowerDown,
    /// Wait for that many milliseconds.
    Sleep(u64),
    /// Start the driver.
    Init(CameraConfig),
}

/// A full restart: stop, power down, wait, start.
pub open spec fn restart_steps(wait_ms: u64, config: CameraConfig) -> Seq<CameraStep> {
    seq![
        CameraStep::Deinit,
        CameraStep::HoldPowerDown,
        CameraStep::Sleep(wait_ms),
        CameraStep::Init(config),
    ]
}

/// The steps of a full restart.
pub fn restart(wait_ms: u64, config: CameraConfig) -> (r: Vec<CameraStep>)
    ensures
        r@ == restart_steps(wait_ms, config),
{
    let mut r: Vec<CameraStep> = Vec::new();
    r.push(CameraStep::Deinit);
    r.push(CameraStep::HoldPowerDown);
    r.push(CameraStep::Sleep(wait_ms));
    r.push(CameraStep::Init(config));
    proof {
        assert(r@ =~= restart_steps(wait_ms, config));
    }
    r
}

/// The steps that bring a stuck camera back to taking JPEG images.
pub fn recover(framesize: u8, quality: u8) -> (r: Vec<CameraStep>)
    ensures
        r@ == restart_steps(1500, jpeg_mode(framesize, quality)),
{
    restart(1500, jpeg_config(framesize, quality))
}

/// The image in a frame, if the camera gave one.
pub fn capture_jpeg(fb: Option<CameraFb>) -> (r: Result<Vec<u8>, CameraError>)
    ensures
        (match r {
            Ok(jpeg) => fb matches Some(fb) && jpeg@ == fb.buf@,
            Err(e) => fb is None && e == CameraError::NoFrame,
        }),
{
    match fb {
        Some(fb) => Ok(fb.buf),
        None => Err(CameraError::NoFrame),
    }
}

/// A setting of the sensor to change, and its value.
#[derive(Clone, Copy, Debug, PartialEq, Eq, Structural)]
pub enum SensorCall {
    ExposureCtrl(i32),
    AecValue(i32),
    GainCtrl(i32),
    AgcGain(i32),
    GainCeiling(u32),
}

/// Whether the driver can make a change.
pub open spec fn can_call(sensor: SensorT, call: SensorCall) -> bool {
    match call {
        SensorCall::ExposureCtrl(_) => sensor.set_exposure_ctrl,
        SensorCall::AecValue(_) => sensor.set_aec_value,
        SensorCall::GainCtrl(_) => sensor.set_gain_ctrl,
        SensorCall::AgcGain(_) => sensor.set_agc_gain,
        SensorCall::GainCeiling(_) => sensor.set_gainceiling,
    }
}

/// The changes that bring exposure and gain to the sensor: a number of 0 or more is set by hand,
/// anything below is left to the sensor.
pub open spec fn sensor_calls(exposure: i32, gain: i32) -> Seq<SensorCall> {
    (if exposure >= 0 {
        seq![SensorCall::ExposureCtrl(0), SensorCall::AecValue(exposure)]
    } else {
        seq![SensorCall::ExposureCtrl(1)]
    }) + (if gain >= 0 {
        seq![SensorCall::GainCtrl(0), SensorCall::AgcGain(gain)]
    } else {
        seq![SensorCall::GainCtrl(1)]
    })
}

/// Those of the changes that the driver can make, in order.
pub open spec fn possible(sensor: SensorT, calls: Seq<SensorCall>) -> Seq<SensorCall>
    decreases calls.len(),
{
    if calls.len() == 0 {
        Seq::empty()
    } else if can_call(sensor, calls.last()) {
        possible(sensor, calls.drop_last()).push(calls.last())
    } else {
        possible(sensor, calls.drop_last())
    }
}

fn is_possible(sensor: &SensorT, call: SensorCall) -> (r: bool)
    ensures
        r == can_call(*sensor, call),
{
    match call {
        SensorCall::ExposureCtrl(_) => sensor.set_exposure_ctrl,
        SensorCall::AecValue(_) => sensor.set_aec_value,
        SensorCall::GainCtrl(_) => sensor.set_gain_ctrl,
        SensorCall::AgcGain(_) => sensor.set_agc_gain,
        SensorCall::GainCeiling(_) => sensor.set_gainceiling,
    }
}

fn keep_possible(sensor: &SensorT, calls: &Vec<SensorCall>) -> (r: Vec<SensorCall>)
    ensures
        r@ == possible(*sensor, calls@),
{
    let mut r: Vec<SensorCall> = Vec::new();
    let mut i: usize = 0;
    while i < calls.len()
        invariant
            i <= calls.len(),
            r@ == possible(*sensor, calls@.take(i as int)),
        decreases calls.len() - i,
    {
        proof {
            assert(calls@.take(i + 1).drop_last() =~= calls@.take(i as int));
        }
        if is_possible(sensor, calls[i]) {
            r.push(calls[i]);
        }
        i = i + 1;
    }
    proof {
        assert(calls@.take(i as int) =~= calls@);
    }
    r
}

/// The changes to make for a capture with the given exposure and gain; none without a sensor.
pub fn apply_sensor(sensor: Option<&SensorT>, exposure: i32, gain: i32) -> (r: Vec<SensorCall>)
    ensures
        r@ == (match sensor {
            Some(s) => possible(*s, sensor_calls(exposure, gain)),
            None => Seq::empty(),
        }),
{
    let sensor: &SensorT = match sensor {
        Some(s) => s,
        None => return Vec::new(),
    };
    let mut calls: Vec<SensorCall> = Vec::new();
    if exposure >= 0 {
        calls.push(SensorCall::ExposureCtrl(0));
        calls.push(SensorCall::AecValue(exposure));
    } else {
        calls.push(SensorCall::ExposureCtrl(1));
    }
    if gain >= 0 {
        calls.push(SensorCall::GainCtrl(0));
        calls.push(SensorCall::AgcGain(gain));
    } else {
        calls.push(SensorCall::GainCtrl(1));
    }
    proof {
        assert(calls@ =~= sensor_calls(exposure, gain));
    }
    keep_possible(sensor, &calls)
}

/// The change that sets the largest automatic gain, if the driver can make it.
pub fn set_gain_ceiling(sensor: Option<&SensorT>, ceiling: u8) -> (r: Option<SensorCall>)
    ensures
        r == (match sensor {
            Some(s) => if s.set_gainceiling {
                Some(SensorCall::GainCeiling(ceiling as u32))
            } else {
                None
            },
            None => None,
        }),
{
    match sensor {
        Some(s) => if s.set_gainceiling {
            Some(SensorCall::GainCeiling(ceiling as u32))
        } else {
            None
        },
        None => None,
    }
}

/// A driver that can change exposure and gain makes every change that a capture asks for.
pub proof fn law_settings_reach_sensor(sensor: SensorT, exposure: i32, gain: i32)
    requires
        sensor.set_exposure_ctrl,
        sensor.set_aec_value,
        sensor.set_gain_ctrl,
        sensor.set_agc_gain,
    ensures
        possible(sensor, sensor_calls(exposure, gain)) == sensor_calls(exposure, gain),
{
    lemma_all_possible(sensor, sensor_calls(exposure, gain));
}

proof fn lemma_all_possible(sensor: SensorT, calls: Seq<SensorCall>)
    requires
        forall|i: int| 0 <= i < calls.len() ==> can_call(sensor, #[trigger] calls[i]),
    ensures
        possible(sensor, calls) == calls,
    decreases calls.len(),
{
    if calls.len() > 0 {
        assert(forall|i: int|
            0 <= i < calls.drop_last().len() ==> calls.drop_last()[i] == #[trigger] calls[i]);
        lemma_all_possible(sensor, calls.drop_last());
        assert(calls.drop_last().push(calls.last()) =~= calls);
    } else {
        assert(possible(sensor, calls) =~= calls);
    }
}

} // verus!
