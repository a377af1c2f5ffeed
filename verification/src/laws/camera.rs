//! Laws on the camera.

use vstd::prelude::*;
use vstd::string::*;

use super::text::{is_decimal, is_hexadecimal, law_dec_is_decimal, law_hex_is_hexadecimal};
use crate::firmware::camera::{
    apply_sensor, capture_jpeg, grayscale_config, init, init_result, jpeg_config, make_config,
    possible, recover, restart, sensor_calls, set_gain_ceiling, CameraConfig, CameraError,
    CameraFb, CameraStep, SensorCall, SensorT,
};
use crate::text::{dec, hex};

verus! {

/// Whether a set-up is for the pins of the board.
pub open spec fn on_board(c: CameraConfig) -> bool {
    &&& c.pin_pwdn == 32
    &&& c.pin_reset == -1
    &&& c.pin_xclk == 0
    &&& c.pin_sccb_sda == 26
    &&& c.pin_sccb_scl == 27
    &&& c.pin_d7 == 35
    &&& c.pin_d6 == 34
    &&& c.pin_d5 == 39
    &&& c.pin_d4 == 36
    &&& c.pin_d3 == 21
    &&& c.pin_d2 == 19
    &&& c.pin_d1 == 18
    &&& c.pin_d0 == 5
    &&& c.pin_vsync == 25
    &&& c.pin_href == 23
    &&& c.pin_pclk == 22
    &&& c.xclk_freq_hz == 20_000_000
    &&& c.ledc_timer == 0
    &&& c.ledc_channel == 0
    &&& c.fb_location == 0
    &&& c.sccb_i2c_port == -1
}

/// Whether a set-up is for JPEG images: two buffers, of which the newest is kept.
pub open spec fn takes_jpeg(c: CameraConfig, framesize: u8, quality: u8) -> bool {
    &&& on_board(c)
    &&& c.pixel_format == 4
    &&& c.fb_count == 2
    &&& c.grab_mode == 1
    &&& c.frame_size == framesize
    &&& c.jpeg_quality == quality
}

/// Whether a set-up is for stacking: one buffer of one byte per pixel, filled when it is empty.
pub open spec fn takes_gray(c: CameraConfig, framesize: u8, quality: u8) -> bool {
    &&& on_board(c)
    &&& c.pixel_format == 3
    &&& c.fb_count == 1
    &&& c.grab_mode == 0
    &&& c.frame_size == framesize
    &&& c.jpeg_quality == quality
}

/// A set-up is for the board and carries what it was made from.
pub proof fn law_make_config(
    framesize: u8,
    quality: u8,
    pixel_format: u32,
    fb_count: usize,
    grab_mode: u32,
    r: CameraConfig,
)
    requires
        call_ensures(make_config, (framesize, quality, pixel_format, fb_count, grab_mode), r),
    ensures
        on_board(r),
        r.frame_size == framesize,
        r.jpeg_quality == quality,
        r.pixel_format == pixel_format,
        r.fb_count == fb_count,
        r.grab_mode == grab_mode,
{
}

/// The camera starts for JPEG images, and the other set-up is for stacking.
pub proof fn law_configs(framesize: u8, quality: u8, jpeg: CameraConfig, first: CameraConfig, gray: CameraConfig)
    requires
        call_ensures(jpeg_config, (framesize, quality), jpeg),
        call_ensures(init, (framesize, quality), first),
        call_ensures(grayscale_config, (framesize, quality), gray),
    ensures
        takes_jpeg(jpeg, framesize, quality),
        takes_jpeg(first, framesize, quality),
        takes_gray(gray, framesize, quality),
{
}

/// Whether steps stop the driver, power the sensor down, wait, and start the driver.
pub open spec fn is_restart(steps: Seq<CameraStep>, wait_ms: u64, config: CameraConfig) -> bool {
    &&& steps.len() == 4
    &&& steps[0] is Deinit
    &&& steps[1] is HoldPowerDown
    &&& steps[2] == CameraStep::Sleep(wait_ms)
    &&& steps[3] == CameraStep::Init(config)
}

/// A restart powers the sensor down for the given time and starts with the given set-up.
pub proof fn law_restart(wait_ms: u64, config: CameraConfig, r: Vec<CameraStep>)
    requires
        call_ensures(restart, (wait_ms, config), r),
    ensures
        is_restart(r@, wait_ms, config),
{
}

/// A stuck camera is powered down for a second and a half and started for JPEG images.
pub proof fn law_recover(framesize: u8, quality: u8, r: Vec<CameraStep>)
    requires
        call_ensures(recover, (framesize, quality), r),
    ensures
        r@.len() == 4,
        r@[3] matches CameraStep::Init(config) && takes_jpeg(config, framesize, quality)
            && is_restart(r@, 1500, config),
{
}

/// A start went well exactly if its code is 0; else the error carries the code.
pub proof fn law_init_result(ret: i32, r: Result<(), CameraError>)
    requires
        call_ensures(init_result, (ret,), r),
    ensures
        r is Ok <==> ret == 0,
        r matches Err(e) ==> e == CameraError::InitFailed(ret),
{
}

/// The image is all bytes of the frame, and there is one exactly if there is a frame.
pub proof fn law_capture_jpeg(fb: Option<CameraFb>, r: Result<Vec<u8>, CameraError>)
    requires
        call_ensures(capture_jpeg, (fb,), r),
    ensures
        r is Ok <==> fb is Some,
        r matches Ok(jpeg) ==> jpeg@ == fb->0.buf@,
        r matches Err(e) ==> e is NoFrame,
{
}

proof fn lemma_possible_push(sensor: SensorT, calls: Seq<SensorCall>, c: SensorCall)
    ensures
        possible(sensor, calls.push(c)) == (if crate::firmware::camera::can_call(sensor, c) {
            possible(sensor, calls).push(c)
        } else {
            possible(sensor, calls)
        }),
{
    assert(calls.push(c).drop_last() =~= calls);
    assert(calls.push(c).last() == c);
}

/// The place of a change among the changes of a capture.
pub open spec fn place(c: SensorCall) -> int {
    match c {
        SensorCall::ExposureCtrl(_) => 0,
        SensorCall::AecValue(_) => 1,
        SensorCall::GainCtrl(_) => 2,
        SensorCall::AgcGain(_) => 3,
        SensorCall::GainCeiling(_) => 4,
    }
}

/// Each of exposure and gain goes to the sensor for itself: from 0 on the automatic control is
/// switched off and the value is set, below 0 the automatic control is switched on. What the
/// driver cannot change is left out, and the rest comes in order, once each.
pub proof fn law_apply_sensor(sensor: SensorT, exposure: i32, gain: i32, r: Vec<SensorCall>)
    requires
        call_ensures(apply_sensor, (Some(&sensor), exposure, gain), r),
    ensures
        forall|v: i32| #[trigger]
            r@.contains(SensorCall::ExposureCtrl(v)) <==> sensor.set_exposure_ctrl && v == (
            if exposure >= 0 {
                0i32
            } else {
                1i32
            }),
        forall|v: i32| #[trigger]
            r@.contains(SensorCall::AecValue(v)) <==> sensor.set_aec_value && exposure >= 0 && v
                == exposure,
        forall|v: i32| #[trigger]
            r@.contains(SensorCall::GainCtrl(v)) <==> sensor.set_gain_ctrl && v == (if gain >= 0 {
                0i32
            } else {
                1i32
            }),
        forall|v: i32| #[trigger]
            r@.contains(SensorCall::AgcGain(v)) <==> sensor.set_agc_gain && gain >= 0 && v == gain,
        forall|v: u32| !(#[trigger] r@.contains(SensorCall::GainCeiling(v))),
        forall|i: int, j: int|
            0 <= i < j < r@.len() ==> place(#[trigger] r@[i]) < place(#[trigger] r@[j]),
{
    let (e, ev) = (
        SensorCall::ExposureCtrl(
            if exposure >= 0 {
                0i32
            } else {
                1i32
            },
        ),
        SensorCall::AecValue(exposure),
    );
    let (g, gv) = (
        SensorCall::GainCtrl(
            if gain >= 0 {
                0i32
            } else {
                1i32
            },
        ),
        SensorCall::AgcGain(gain),
    );
    let none = Seq::<SensorCall>::empty();
    let c1 = none.push(e);
    let c2 = if exposure >= 0 {
        c1.push(ev)
    } else {
        c1
    };
    let c3 = c2.push(g);
    let c4 = if gain >= 0 {
        c3.push(gv)
    } else {
        c3
    };
    assert(sensor_calls(exposure, gain) =~= c4);
    assert(possible(sensor, none) =~= none);
    lemma_possible_push(sensor, none, e);
    lemma_possible_push(sensor, c1, ev);
    lemma_possible_push(sensor, c2, g);
    lemma_possible_push(sensor, c3, gv);
    let k1: Seq<SensorCall> = if sensor.set_exposure_ctrl {
        seq![e]
    } else {
        none
    };
    let k2: Seq<SensorCall> = if exposure >= 0 && sensor.set_aec_value {
        seq![ev]
    } else {
        none
    };
    let k3: Seq<SensorCall> = if sensor.set_gain_ctrl {
        seq![g]
    } else {
        none
    };
    let k4: Seq<SensorCall> = if gain >= 0 && sensor.set_agc_gain {
        seq![gv]
    } else {
        none
    };
    assert(possible(sensor, c1) =~= k1);
    assert(possible(sensor, c2) =~= k1 + k2);
    assert(possible(sensor, c3) =~= k1 + k2 + k3);
    assert(possible(sensor, c4) =~= k1 + k2 + k3 + k4);
    let all = k1 + k2 + k3 + k4;
    assert(r@ == all);
    if sensor.set_exposure_ctrl {
        assert(all[0] == e);
    }
    if exposure >= 0 && sensor.set_aec_value {
        assert(all[k1.len() as int] == ev);
    }
    if sensor.set_gain_ctrl {
        assert(all[(k1.len() + k2.len()) as int] == g);
    }
    if gain >= 0 && sensor.set_agc_gain {
        assert(all[(k1.len() + k2.len() + k3.len()) as int] == gv);
    }
}

/// Without a sensor nothing is changed.
pub proof fn law_apply_no_sensor(exposure: i32, gain: i32, r: Vec<SensorCall>)
    requires
        call_ensures(apply_sensor, (None, exposure, gain), r),
    ensures
        r@.len() == 0,
{
}

/// The changes for the gain are the same for all exposures, and those for the exposure the same
/// for all gains.
pub proof fn law_exposure_and_gain_are_independent(
    sensor: SensorT,
    e1: i32,
    g1: i32,
    r1: Vec<SensorCall>,
    e2: i32,
    g2: i32,
    r2: Vec<SensorCall>,
)
    requires
        call_ensures(apply_sensor, (Some(&sensor), e1, g1), r1),
        call_ensures(apply_sensor, (Some(&sensor), e2, g2), r2),
    ensures
        g1 == g2 ==> forall|c: SensorCall|
            c is GainCtrl || c is AgcGain ==> (#[trigger] r1@.contains(c) <==> r2@.contains(c)),
        e1 == e2 ==> forall|c: SensorCall|
            c is ExposureCtrl || c is AecValue ==> (#[trigger] r1@.contains(c) <==> r2@.contains(c)),
{
    law_apply_sensor(sensor, e1, g1, r1);
    law_apply_sensor(sensor, e2, g2, r2);
    assert forall|c: SensorCall| g1 == g2 && (c is GainCtrl || c is AgcGain) implies (
    #[trigger] r1@.contains(c) <==> r2@.contains(c)) by {
        match c {
            SensorCall::GainCtrl(v) => {
                assert(r1@.contains(SensorCall::GainCtrl(v)) <==> r2@.contains(
                    SensorCall::GainCtrl(v),
                ));
            },
            SensorCall::AgcGain(v) => {
                assert(r1@.contains(SensorCall::AgcGain(v)) <==> r2@.contains(
                    SensorCall::AgcGain(v),
                ));
            },
            _ => {},
        }
    }
    assert forall|c: SensorCall| e1 == e2 && (c is ExposureCtrl || c is AecValue) implies (
    #[trigger] r1@.contains(c) <==> r2@.contains(c)) by {
        match c {
            SensorCall::ExposureCtrl(v) => {
                assert(r1@.contains(SensorCall::ExposureCtrl(v)) <==> r2@.contains(
                    SensorCall::ExposureCtrl(v),
                ));
            },
            SensorCall::AecValue(v) => {
                assert(r1@.contains(SensorCall::AecValue(v)) <==> r2@.contains(
                    SensorCall::AecValue(v),
                ));
            },
            _ => {},
        }
    }
}

/// The gain ceiling goes to the sensor as it is, if there is one whose driver can change it.
pub proof fn law_set_gain_ceiling(sensor: Option<&SensorT>, ceiling: u8, r: Option<SensorCall>)
    requires
        call_ensures(set_gain_ceiling, (sensor, ceiling), r),
    ensures
        r is Some <==> (sensor is Some && sensor->0.set_gainceiling),
        r matches Some(c) ==> (c matches SensorCall::GainCeiling(v) && v == ceiling),
{
}

/// What is said of an error names its code, size or number.
pub proof fn law_camera_messages(error: CameraError, r: String) -> (n: Seq<char>)
    requires
        call_ensures(CameraError::message, (error,), r),
    ensures
        error matches CameraError::InitFailed(e) ==> is_hexadecimal(n, code_number(e)) && r@
            == "esp_camera_init failed: 0x"@ + n,
        error matches CameraError::GrayscaleFailed(e) ==> is_hexadecimal(n, code_number(e)) && r@
            == "grayscale reinit failed: 0x"@ + n,
        error matches CameraError::AllocFailed(b) ==> is_decimal(n, b as int) && r@
            == "PSRAM alloc failed ("@ + n + " B)"@,
        error matches CameraError::NoStackFrame(i) ==> is_decimal(n, i as int) && r@ == "frame "@
            + n + " null during stack"@,
        error is NoFrame ==> r@ == "esp_camera_fb_get returned null"@,
        error is NoFirstFrame ==> r@ == "first grayscale frame null"@,
        error is EncodingFailed ==> r@ == "fmt2jpg encoding failed"@,
{
    match error {
        CameraError::InitFailed(e) => {
            lemma_code(e);
            law_hex_is_hexadecimal((e as u32) as nat);
            hex((e as u32) as nat)
        },
        CameraError::GrayscaleFailed(e) => {
            lemma_code(e);
            law_hex_is_hexadecimal((e as u32) as nat);
            hex((e as u32) as nat)
        },
        CameraError::AllocFailed(b) => {
            law_dec_is_decimal(b as nat);
            dec(b as nat)
        },
        CameraError::NoStackFrame(i) => {
            law_dec_is_decimal(i as nat);
            dec(i as nat)
        },
        _ => Seq::empty(),
    }
}

/// An error code as an unsigned number of 32 bits.
pub open spec fn code_number(e: i32) -> int {
    if e < 0 {
        e + 0x1_0000_0000
    } else {
        e as int
    }
}

/// A code is written by its two's complement.
pub proof fn lemma_code(e: i32)
    ensures
        e as u32 == code_number(e),
{
    assert(e >= 0 ==> e as u32 == e) by (bit_vector);
    assert(e < 0 ==> e as u32 == e + 0x1_0000_0000) by (bit_vector);
}

} // verus!
