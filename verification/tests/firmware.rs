use moon_shadow_photo::firmware::camera::{
    apply_sensor, capture_jpeg, grayscale_config, init, init_result, jpeg_config, make_config, recover,
    set_gain_ceiling, CameraError, CameraFb, CameraStatus, CameraStep, SensorCall, SensorId, SensorT,
};
use moon_shadow_photo::firmware::config::{
    default_flash, erase_result, load, save, write_result, Config, FlashRead, SaveError,
};
use moon_shadow_photo::firmware::led::{flash_led, LedStep};
use moon_shadow_photo::firmware::session::{
    after_capture, begin_stack, broker_url, capture_steps, login, CaptureStep, FollowUp, Route,
    Session, SessionAction, SessionEvent, SessionStep,
};
use moon_shadow_photo::firmware::stack::{
    accumulate, capture_stacked_jpeg, clear, normalise, StackAction, StackPhase, StackRun,
};
use moon_shadow_photo::firmware::types::{
    apply_effect, handle_config_cmd, status_message, CmdEffect, ConfigCmd, SendDataCmd,
};
use moon_shadow_photo::firmware::upload::{http_post_jpeg, status_line, upload_addr};
use moon_shadow_photo::logger::upload::clean_timestamp;
use moon_shadow_photo::topics::{cmd_topic, hello_topic, senddata_topic, status_topic};

fn config() -> Config {
    let mut cfg = Config::default();
    cfg.device_id = "moon-shadow".to_string();
    cfg.mqtt_host = "10.0.0.2".to_string();
    cfg.upload_host = "10.0.0.3".to_string();
    cfg
}

fn sensor(all: bool) -> SensorT {
    SensorT {
        id: SensorId { midh: 0, midl: 0, pid: 0x26, ver: 0 },
        slv_addr: 0x30,
        pixformat: 4,
        status: CameraStatus {
            framesize: 9,
            scale: 0,
            binning: 0,
            quality: 10,
            brightness: 0,
            contrast: 0,
            saturation: 0,
            sharpness: 0,
            denoise: 0,
            special_effect: 0,
            wb_mode: 0,
            awb: 1,
            awb_gain: 1,
            aec: 1,
            aec2: 0,
            ae_level: 0,
            aec_value: 0,
            agc: 1,
            agc_gain: 0,
            gainceiling: 0,
            bpc: 0,
            wpc: 0,
            raw_gma: 0,
            lenc: 0,
            hmirror: 0,
            vflip: 0,
            dcw: 0,
            colorbar: 0,
        },
        xclk_freq_hz: 20_000_000,
        init_status: all,
        reset: all,
        set_pixformat: all,
        set_framesize: all,
        set_contrast: all,
        set_brightness: all,
        set_saturation: all,
        set_sharpness: all,
        set_denoise: all,
        set_gainceiling: all,
        set_quality: all,
        set_colorbar: all,
        set_whitebal: all,
        set_gain_ctrl: all,
        set_exposure_ctrl: all,
        set_hmirror: all,
        set_vflip: all,
        set_aec2: all,
        set_awb_gain: all,
        set_agc_gain: all,
        set_aec_value: all,
    }
}

#[test]
fn default_configuration() {
    let cfg = Config::default();
    assert_eq!((cfg.mqtt_port, cfg.upload_port), (1883, 8765));
    assert_eq!((cfg.framesize, cfg.jpeg_quality, cfg.gain_ceiling), (6, 10, 0));
    assert!(cfg.flash && default_flash());
    assert!(cfg.wifi_ssid.is_empty() && cfg.device_id.is_empty());
}

fn sector(image: &[u8]) -> [u8; 520] {
    let mut flash = [0xFFu8; 4096];
    flash[..image.len()].copy_from_slice(image);
    let mut buf = [0u8; 520];
    buf.copy_from_slice(&flash[..520]);
    buf
}

#[test]
fn saved_configuration_is_loaded() {
    for n in [1usize, 2, 3, 4, 5, 255, 256, 257, 511, 512] {
        let json: Vec<u8> = (0..n).map(|i| (i * 7) as u8).collect();
        let image = save(&json, true).unwrap();
        assert_eq!(image.len() % 4, 0);
        assert!(image.len() >= n + 8 && image.len() < n + 12);
        assert_eq!(load(FlashRead::Data(&sector(&image))).unwrap(), json);
    }
}

#[test]
fn image_of_a_configuration() {
    let image = save(b"{}x", true).unwrap();
    assert_eq!(image, vec![0xFA, 0x12, 0xC3, 0x7A, 3, 0, 0, 0, b'{', b'}', b'x', 0xFF]);
    let long = save(&[b'a'; 300], true).unwrap();
    assert_eq!(&long[4..8], &[0x2C, 1, 0, 0]);
    assert_eq!(long.len(), 308);
}

#[test]
fn configurations_that_are_not_kept() {
    assert_eq!(save(&[0; 513], true).unwrap_err(), SaveError::TooLarge);
    assert_eq!(save(&[0; 513], false).unwrap_err(), SaveError::TooLarge);
    assert_eq!(save(b"{}", false).unwrap_err(), SaveError::NoPartition);
    assert_eq!(erase_result(0), Ok(()));
    assert_eq!(erase_result(0x105), Err(SaveError::EraseFailed(0x105)));
    assert_eq!(write_result(0), Ok(()));
    assert_eq!(write_result(-1), Err(SaveError::WriteFailed(-1)));
    assert_eq!(SaveError::TooLarge.message(), "config JSON too large");
    assert_eq!(SaveError::NoPartition.message(), "config partition not found");
    assert_eq!(SaveError::EraseFailed(0x105).message(), "partition erase failed: 0x105");
    assert_eq!(SaveError::WriteFailed(-1).message(), "partition write failed: 0xFFFFFFFF");
}

#[test]
fn configurations_that_are_not_there() {
    assert!(load(FlashRead::NoPartition).is_none());
    assert!(load(FlashRead::Failed(0x102)).is_none());
    assert!(load(FlashRead::Data(&[0xFF; 520])).is_none());
    assert!(load(FlashRead::Data(&sector(&save(b"", true).unwrap()))).is_none());
    let mut long = sector(&save(b"{}", true).unwrap());
    long[4] = 1;
    long[5] = 2;
    assert!(load(FlashRead::Data(&long)).is_none());
    long[5] = 0;
    long[7] = 1;
    assert!(load(FlashRead::Data(&long)).is_none());
    let mut marked = sector(&save(b"{}", true).unwrap());
    marked[3] = 0;
    assert!(load(FlashRead::Data(&marked)).is_none());
}

#[test]
fn camera_set_ups() {
    let jpeg = jpeg_config(9, 12);
    assert_eq!((jpeg.pixel_format, jpeg.fb_count, jpeg.grab_mode), (4, 2, 1));
    assert_eq!((jpeg.frame_size, jpeg.jpeg_quality), (9, 12));
    assert_eq!((jpeg.pin_pwdn, jpeg.pin_reset, jpeg.pin_xclk), (32, -1, 0));
    assert_eq!((jpeg.pin_sccb_sda, jpeg.pin_sccb_scl, jpeg.sccb_i2c_port), (26, 27, -1));
    assert_eq!((jpeg.pin_d7, jpeg.pin_d6, jpeg.pin_d5, jpeg.pin_d4), (35, 34, 39, 36));
    assert_eq!((jpeg.pin_d3, jpeg.pin_d2, jpeg.pin_d1, jpeg.pin_d0), (21, 19, 18, 5));
    assert_eq!((jpeg.pin_vsync, jpeg.pin_href, jpeg.pin_pclk), (25, 23, 22));
    assert_eq!((jpeg.xclk_freq_hz, jpeg.ledc_timer, jpeg.ledc_channel), (20_000_000, 0, 0));
    assert_eq!(jpeg.fb_location, 0);
    assert_eq!(jpeg, make_config(9, 12, 4, 2, 1));
    assert_eq!(grayscale_config(9, 12), make_config(9, 12, 3, 1, 0));
}

#[test]
fn recovery_restarts_in_jpeg_mode() {
    assert_eq!(
        recover(9, 12),
        vec![
            CameraStep::Deinit,
            CameraStep::HoldPowerDown,
            CameraStep::Sleep(1500),
            CameraStep::Init(jpeg_config(9, 12)),
        ]
    );
}

#[test]
fn single_frames() {
    let fb = CameraFb { buf: vec![0xFF, 0xD8], width: 1, height: 1, format: 4, timestamp: [0, 0] };
    assert_eq!(capture_jpeg(Some(fb)).unwrap(), vec![0xFF, 0xD8]);
    assert_eq!(capture_jpeg(None).unwrap_err(), CameraError::NoFrame);
    assert_eq!(init(9, 12), jpeg_config(9, 12));
    assert_eq!(init_result(0), Ok(()));
    assert_eq!(init_result(0x106), Err(CameraError::InitFailed(0x106)));
}

#[test]
fn messages_of_camera_errors() {
    assert_eq!(CameraError::InitFailed(0x106).message(), "esp_camera_init failed: 0x106");
    assert_eq!(CameraError::InitFailed(-1).message(), "esp_camera_init failed: 0xFFFFFFFF");
    assert_eq!(CameraError::NoFrame.message(), "esp_camera_fb_get returned null");
    assert_eq!(CameraError::GrayscaleFailed(0x20).message(), "grayscale reinit failed: 0x20");
    assert_eq!(CameraError::NoFirstFrame.message(), "first grayscale frame null");
    assert_eq!(CameraError::AllocFailed(1920000).message(), "PSRAM alloc failed (1920000 B)");
    assert_eq!(CameraError::NoStackFrame(3).message(), "frame 3 null during stack");
    assert_eq!(CameraError::EncodingFailed.message(), "fmt2jpg encoding failed");
}

#[test]
fn exposure_and_gain_reach_the_sensor() {
    let s = sensor(true);
    assert_eq!(
        apply_sensor(Some(&s), 300, 5),
        vec![
            SensorCall::ExposureCtrl(0),
            SensorCall::AecValue(300),
            SensorCall::GainCtrl(0),
            SensorCall::AgcGain(5),
        ]
    );
    assert_eq!(
        apply_sensor(Some(&s), -1, -1),
        vec![SensorCall::ExposureCtrl(1), SensorCall::GainCtrl(1)]
    );
    assert_eq!(
        apply_sensor(Some(&s), 0, -1),
        vec![SensorCall::ExposureCtrl(0), SensorCall::AecValue(0), SensorCall::GainCtrl(1)]
    );
    assert!(apply_sensor(None, 300, 5).is_empty());
    assert!(apply_sensor(Some(&sensor(false)), 300, 5).is_empty());
    let mut partial = sensor(true);
    partial.set_aec_value = false;
    partial.set_gain_ctrl = false;
    assert_eq!(
        apply_sensor(Some(&partial), 300, 5),
        vec![SensorCall::ExposureCtrl(0), SensorCall::AgcGain(5)]
    );
}

#[test]
fn gain_ceiling_reaches_the_sensor() {
    assert_eq!(set_gain_ceiling(Some(&sensor(true)), 6), Some(SensorCall::GainCeiling(6)));
    assert_eq!(set_gain_ceiling(Some(&sensor(false)), 6), None);
    assert_eq!(set_gain_ceiling(None, 6), None);
}

#[test]
fn sums_of_frames() {
    let mut sums = [9u32, 9, 9];
    clear(&mut sums);
    assert_eq!(sums, [0, 0, 0]);
    accumulate(&mut sums, &[10, 20, 30, 40]);
    accumulate(&mut sums, &[11, 21]);
    assert_eq!(sums, [21, 41, 30]);
    assert_eq!(normalise(&sums, 2), vec![10, 20, 15]);
    let mut full = [u32::MAX - 1];
    accumulate(&mut full, &[255]);
    assert_eq!(full, [u32::MAX]);
    assert_eq!(normalise(&full, 1), vec![255]);
}

/// Goes through the frames that are thrown away; one of two is missing.
fn drained(run: StackRun) -> StackRun {
    let mut run = run.on_applied().0;
    for i in 0..8 {
        assert!(matches!(run.phase, StackPhase::Draining { left, held: false } if left == 8 - i));
        run = if i % 2 == 0 {
            run.on_frame(&mut [], 2, 1, &[9, 9]).0.on_given_back(&[]).0
        } else {
            run.on_missing().0
        };
    }
    run
}

fn until_sums(n: u32, sums: &mut [u32]) -> (StackRun, StackAction) {
    let (run, _) = capture_stacked_jpeg(n, 9, 12, 300, -1);
    let (run, _) = run.on_init(0);
    let (run, _) = drained(run).on_frame(&mut [], 2, 1, &vec![5; sums.len()]);
    let (run, _) = run.on_given_back(&[]);
    run.on_allocated(sums)
}

fn init_of(action: &StackAction) -> CameraStep {
    match action {
        StackAction::Reconfigure(steps) => *steps.last().unwrap(),
        _ => panic!("no restart"),
    }
}

#[test]
fn stacked_capture_averages_its_frames() {
    let (run, action) = capture_stacked_jpeg(3, 9, 12, 300, -1);
    assert_eq!(init_of(&action), CameraStep::Init(grayscale_config(9, 12)));
    let (run, action) = run.on_init(0);
    assert!(matches!(action, StackAction::ApplySensor { exposure: 300, gain: -1 }));
    let run = drained(run);
    assert!(matches!(run.phase, StackPhase::Sizing));
    let (run, action) = run.on_frame(&mut [], 2, 1, &[1, 2]);
    assert!(matches!(action, StackAction::GiveBack));
    let (run, action) = run.on_given_back(&[]);
    assert!(matches!(action, StackAction::Allocate { bytes: 8 }));
    let mut sums = [7u32, 7];
    let (mut run, action) = run.on_allocated(&mut sums);
    assert!(matches!(action, StackAction::Grab));
    let mut asked = Vec::new();
    for pixels in [[10, 250], [20, 250], [31, 250]] {
        let (held, action) = run.on_frame(&mut sums, 2, 1, &pixels);
        assert!(matches!(action, StackAction::GiveBack));
        let (next, action) = held.on_given_back(&sums);
        asked.push(action);
        run = next;
    }
    assert!(matches!(asked[..], [StackAction::Grab, StackAction::Grab, StackAction::Free]));
    let (run, action) = run.on_freed();
    match action {
        StackAction::Encode { gray, width, height, quality } => {
            assert_eq!(gray, vec![20, 250]);
            assert_eq!((width, height, quality), (2, 1, 12));
        }
        _ => panic!("not encoded"),
    }
    let (run, action) = run.on_encoded(Some(vec![0xFF, 0xD8]));
    assert_eq!(init_of(&action), CameraStep::Init(jpeg_config(9, 12)));
    let (run, action) = run.on_init(0x105);
    assert!(matches!(run.phase, StackPhase::Over { restored: true }));
    assert!(matches!(action, StackAction::Finish(Ok(jpeg)) if jpeg == vec![0xFF, 0xD8]));
}

#[test]
fn stacking_equal_frames_gives_the_frame() {
    let frame = [0u8, 1, 127, 255];
    let mut sums = [0u32; 4];
    for _ in 0..100 {
        accumulate(&mut sums, &frame);
    }
    assert_eq!(normalise(&sums, 100), frame.to_vec());
}

#[test]
fn stacked_capture_without_grayscale_mode() {
    let (run, _) = capture_stacked_jpeg(3, 9, 12, 300, -1);
    let (run, action) = run.on_init(0x20);
    match &action {
        StackAction::Reconfigure(steps) => assert_eq!(
            *steps,
            vec![
                CameraStep::Deinit,
                CameraStep::HoldPowerDown,
                CameraStep::Sleep(1000),
                CameraStep::Init(jpeg_config(9, 12)),
            ]
        ),
        _ => panic!("no restart"),
    }
    let (run, action) = run.on_init(7);
    assert!(matches!(run.phase, StackPhase::Over { restored: true }));
    assert!(matches!(action, StackAction::Finish(Err(CameraError::GrayscaleFailed(0x20)))));
}

#[test]
fn stacked_capture_that_misses_something() {
    let (run, _) = capture_stacked_jpeg(3, 9, 12, 300, -1);
    let (run, action) = drained(run.on_init(0).0).on_missing();
    assert!(matches!(run.phase, StackPhase::Over { restored: false }));
    assert!(matches!(action, StackAction::Finish(Err(CameraError::NoFirstFrame))));

    let (run, _) = capture_stacked_jpeg(3, 9, 12, 300, -1);
    let (run, _) = drained(run.on_init(0).0).on_frame(&mut [], 800, 600, &vec![0; 480000]);
    let (run, _) = run.on_given_back(&[]);
    let (_, action) = run.on_missing();
    assert!(matches!(action, StackAction::Finish(Err(CameraError::AllocFailed(1920000)))));

    let mut sums = [0u32; 2];
    let (run, _) = until_sums(3, &mut sums);
    let (run, _) = run.on_frame(&mut sums, 2, 1, &[1, 1]);
    let (run, _) = run.on_given_back(&sums);
    let (run, action) = run.on_missing();
    assert!(matches!(action, StackAction::Free));
    let (run, action) = run.on_freed();
    assert!(matches!(run.phase, StackPhase::Over { restored: false }));
    assert!(matches!(action, StackAction::Finish(Err(CameraError::NoStackFrame(1)))));
}

#[test]
fn stacked_capture_that_cannot_be_encoded() {
    for jpeg in [None, Some(Vec::new())] {
        let mut sums = [0u32; 2];
        let (run, _) = until_sums(1, &mut sums);
        let (run, _) = run.on_frame(&mut sums, 2, 1, &[1, 1]);
        let (run, _) = run.on_given_back(&sums);
        let (run, action) = run.on_freed();
        assert!(matches!(action, StackAction::Encode { .. }));
        let (run, action) = run.on_encoded(jpeg);
        match &action {
            StackAction::Reconfigure(steps) => assert_eq!(
                *steps,
                vec![CameraStep::Deinit, CameraStep::Init(jpeg_config(9, 12))]
            ),
            _ => panic!("no restart"),
        }
        let (run, action) = run.on_init(0);
        assert!(matches!(run.phase, StackPhase::Over { restored: true }));
        assert!(matches!(action, StackAction::Finish(Err(CameraError::EncodingFailed))));
    }
}

#[test]
fn frames_and_memory_are_given_back_however_it_ends() {
    // The number of frames that come before one is missing; the last number is out of reach.
    for come in 0..14 {
        let (mut run, mut action) = capture_stacked_jpeg(3, 9, 12, 300, -1);
        let (mut taken, mut returned, mut got, mut freed, mut left) = (0, 0, 0, 0, come);
        let mut sums: Vec<u32> = Vec::new();
        let result = loop {
            (run, action) = match action {
                StackAction::Reconfigure(_) => run.on_init(0),
                StackAction::ApplySensor { .. } => run.on_applied(),
                StackAction::Grab if left == 0 => run.on_missing(),
                StackAction::Grab => {
                    left -= 1;
                    taken += 1;
                    run.on_frame(&mut sums, 2, 1, &[4, 6])
                }
                StackAction::GiveBack => {
                    returned += 1;
                    run.on_given_back(&sums)
                }
                StackAction::Allocate { bytes } => {
                    got += 1;
                    sums = vec![1; bytes / 4];
                    run.on_allocated(&mut sums)
                }
                StackAction::Free => {
                    freed += 1;
                    run.on_freed()
                }
                StackAction::Encode { gray, .. } => run.on_encoded(Some(gray)),
                StackAction::Finish(result) => break result,
            };
        };
        assert_eq!(taken, returned);
        assert_eq!(got, freed);
        assert!(got <= 1);
        if come >= 12 {
            assert_eq!(result, Ok(vec![4, 6]));
        } else {
            assert!(result.is_err());
        }
    }
}

#[test]
fn led_flashes() {
    assert!(flash_led(0, 1, 2).is_empty());
    assert_eq!(
        flash_led(2, 200, 80),
        vec![
            LedStep::High,
            LedStep::Sleep(200),
            LedStep::Low,
            LedStep::Sleep(80),
            LedStep::High,
            LedStep::Sleep(200),
            LedStep::Low,
            LedStep::Sleep(80),
        ]
    );
}

#[test]
fn session_sets_out() {
    let cfg = config();
    let session = Session::new(&cfg, 5);
    assert_eq!(broker_url(&cfg), "mqtt://10.0.0.2:1883");
    assert_eq!(login(""), None);
    assert_eq!(login("me"), Some("me"));
    let first = session.on_connected(&cfg, false);
    assert_eq!(first.len(), 7);
    assert!(matches!(&first[0], SessionAction::InitCamera(c) if *c == jpeg_config(6, 10)));
    assert!(matches!(first[1], SessionAction::CameraReady));
    let again = session.on_connected(&cfg, true);
    assert_eq!(again.len(), 5);
    assert!(matches!(&again[0], SessionAction::Subscribe(t) if t == "moon-shadow/senddata"));
    assert!(matches!(&again[1], SessionAction::Subscribe(t) if t == "moon-shadow/cmd"));
    match &again[2] {
        SessionAction::Publish { topic, retain, payload } => {
            assert_eq!(topic, "moon-shadow/hello");
            assert!(*retain);
            assert_eq!(
                payload,
                r#"{"device_id":"moon-shadow","framesize":6,"msg":"booted","quality":10}"#
            );
        }
        _ => panic!("no hello"),
    }
    assert!(matches!(again[3], SessionAction::Report("online")));
    assert!(matches!(again[4], SessionAction::Flash { count: 3, on_ms: 200, gap_ms: 200 }));
}

#[test]
fn session_routes_messages() {
    let cfg = config();
    let session = Session::new(&cfg, 0);
    assert_eq!(session.route(&cfg, &senddata_topic("moon-shadow")), Route::SendData);
    assert_eq!(session.route(&cfg, &cmd_topic("moon-shadow")), Route::Command);
    assert_eq!(session.route(&cfg, &status_topic("moon-shadow")), Route::Ignore);
    assert_eq!(session.route(&cfg, &hello_topic("moon-shadow")), Route::Ignore);
    assert_eq!(session.route(&cfg, "other/cmd"), Route::Ignore);
    assert!(SessionEvent::Fatal.is_fatal());
    assert!(!SessionEvent::Connected.is_fatal());
    assert!(!SessionEvent::Disconnected.is_fatal());
    let received = SessionEvent::Received { topic: "t".to_string(), data: vec![1] };
    assert!(!received.is_fatal());
}

#[test]
fn session_reports_every_minute() {
    let cfg = config();
    let mut session = Session::new(&cfg, 1_000_000_000);
    assert!(!session.report_due(60_999_999_999));
    assert!(session.report_due(61_000_000_000));
    session.reported(61_000_000_000);
    assert!(!session.report_due(62_000_000_000));
    assert!(!session.report_due(0));
    assert_eq!(session.cmd_topic, "moon-shadow/cmd");
}

#[test]
fn session_decides_on_events() {
    let cfg = config();
    let session = Session::new(&cfg, 0);
    let received = |topic: &str| SessionEvent::Received { topic: topic.to_string(), data: vec![7] };
    let connected = session.on_event(&cfg, SessionEvent::Connected, true);
    assert!(matches!(connected, SessionStep::Act(actions) if actions.len() == 5));
    let first = session.on_event(&cfg, SessionEvent::Connected, false);
    assert!(matches!(first, SessionStep::Act(actions) if actions.len() == 7));
    let capture = session.on_event(&cfg, received("moon-shadow/senddata"), true);
    assert!(matches!(capture, SessionStep::Capture(data) if data == vec![7]));
    let command = session.on_event(&cfg, received("moon-shadow/cmd"), true);
    assert!(matches!(command, SessionStep::Command(data) if data == vec![7]));
    let other = session.on_event(&cfg, received("moon-shadow/status"), true);
    assert!(matches!(other, SessionStep::Wait));
    let lost = session.on_event(&cfg, SessionEvent::Disconnected, true);
    assert!(matches!(lost, SessionStep::Wait));
    assert!(matches!(session.on_event(&cfg, SessionEvent::Fatal, true), SessionStep::End));
}

#[test]
fn captures_single_or_stacked() {
    let mut cfg = config();
    cfg.flash = false;
    let single = SendDataCmd { exposure: -1, gain: 3, stack_secs: 0 };
    assert_eq!(
        capture_steps(&cfg, &single),
        vec![
            CaptureStep::ApplySensor { exposure: -1, gain: 3 },
            CaptureStep::Sleep(150),
            CaptureStep::Single,
        ]
    );
    let stacked = SendDataCmd { exposure: 1, gain: -1, stack_secs: 4 };
    assert_eq!(
        capture_steps(&cfg, &stacked),
        vec![
            CaptureStep::ApplySensor { exposure: 1, gain: -1 },
            CaptureStep::Sleep(150),
            CaptureStep::Stack { samples: 3, secs: 4 },
        ]
    );
}

#[test]
fn led_fires_with_flash_alone() {
    let mut cfg = config();
    cfg.flash = true;
    let stack = CaptureStep::Stack { samples: 3, secs: 4 };
    for (stack_secs, last) in [(0, CaptureStep::Single), (4, stack)] {
        let cmd = SendDataCmd { exposure: 1, gain: -1, stack_secs };
        assert_eq!(
            capture_steps(&cfg, &cmd),
            vec![
                CaptureStep::ApplySensor { exposure: 1, gain: -1 },
                CaptureStep::LedOn,
                CaptureStep::Sleep(150),
                last,
            ]
        );
    }
    cfg.flash = false;
    let cmd = SendDataCmd { exposure: 1, gain: -1, stack_secs: 0 };
    assert!(!capture_steps(&cfg, &cmd).contains(&CaptureStep::LedOn));
}

#[test]
fn commands_count_from_the_next_start_on() {
    let mut cfg = config();
    apply_effect(&mut cfg, handle_config_cmd(&command("SetQuality", Some(20))));
    apply_effect(&mut cfg, handle_config_cmd(&command("SetFramesize", Some(265))));
    apply_effect(&mut cfg, handle_config_cmd(&command("SetGainCeiling", Some(4))));
    apply_effect(&mut cfg, handle_config_cmd(&command("SetQuality", None)));
    apply_effect(&mut cfg, handle_config_cmd(&command("Reboot", Some(1))));
    assert_eq!((cfg.framesize, cfg.jpeg_quality, cfg.gain_ceiling), (9, 20, 4));
    assert_eq!(cfg.device_id, "moon-shadow");
    let cmd = SendDataCmd { exposure: 1, gain: 1, stack_secs: 1 };
    let (_, action) = begin_stack(&cfg, &cmd, 2);
    assert_eq!(init_of(&action), CameraStep::Init(grayscale_config(9, 20)));
    match &after_capture(&cfg, Err(CameraError::NoFrame))[1] {
        FollowUp::Recover { steps, .. } => {
            assert_eq!(steps.last(), Some(&CameraStep::Init(jpeg_config(9, 20))));
        }
        _ => panic!("nothing to upload"),
    }
}

#[test]
fn at_least_one_frame_is_stacked() {
    let cfg = config();
    let cmd = SendDataCmd { exposure: 300, gain: 5, stack_secs: 2 };
    let (run, action) = begin_stack(&cfg, &cmd, 0);
    assert_eq!(run.n_frames, 1);
    assert_eq!((run.framesize, run.quality, run.exposure, run.gain), (6, 10, 300, 5));
    match action {
        StackAction::Reconfigure(steps) => {
            assert_eq!(steps.last(), Some(&CameraStep::Init(grayscale_config(6, 10))));
        }
        _ => panic!("the camera is not started for stacking"),
    }
    assert_eq!(begin_stack(&cfg, &cmd, 25).0.n_frames, 25);
}

#[test]
fn after_a_capture() {
    let cfg = config();
    let sent = after_capture(&cfg, Ok(vec![1, 2]));
    assert_eq!(sent.len(), 2);
    assert!(matches!(sent[0], FollowUp::LedOff));
    assert!(matches!(&sent[1], FollowUp::Upload(jpeg) if *jpeg == vec![1, 2]));
    let failed = after_capture(&cfg, Err(CameraError::NoFrame));
    assert_eq!(failed.len(), 2);
    assert!(matches!(failed[0], FollowUp::LedOff));
    match &failed[1] {
        FollowUp::Recover { error, steps } => {
            assert_eq!(*error, CameraError::NoFrame);
            assert_eq!(*steps, recover(6, 10));
        }
        _ => panic!("nothing to upload"),
    }
}

fn command(cmd: &str, value: Option<u64>) -> ConfigCmd {
    ConfigCmd { cmd: cmd.to_string(), value }
}

#[test]
fn commands_of_the_logger() {
    assert_eq!(handle_config_cmd(&command("SetFramesize", Some(9))), CmdEffect::Framesize(9));
    assert_eq!(handle_config_cmd(&command("SetQuality", Some(63))), CmdEffect::Quality(63));
    assert_eq!(
        handle_config_cmd(&command("SetGainCeiling", Some(6))),
        CmdEffect::GainCeiling { ceiling: 6, value: 6 }
    );
    assert_eq!(
        handle_config_cmd(&command("SetGainCeiling", Some(259))),
        CmdEffect::GainCeiling { ceiling: 3, value: 259 }
    );
    assert_eq!(handle_config_cmd(&command("SetGainCeiling", None)), CmdEffect::NoValue);
    assert_eq!(handle_config_cmd(&command("SetQuality", None)), CmdEffect::NoValue);
    assert_eq!(handle_config_cmd(&command("SetFramesize", None)), CmdEffect::NoValue);
    assert_eq!(handle_config_cmd(&command("setquality", Some(1))), CmdEffect::Unknown);
}

#[test]
fn status_of_the_device() {
    let cfg = config();
    let m = status_message("alive", &cfg);
    assert_eq!((m.status, m.upload_host), ("alive", "10.0.0.3"));
    assert_eq!((m.framesize, m.quality, m.gain_ceiling), (6, 10, 0));
}

#[test]
fn upload_requests() {
    let cfg = config();
    assert_eq!(upload_addr(&cfg), "10.0.0.3:8765");
    assert_eq!(
        http_post_jpeg(&cfg, &[1, 2, 3], "20231114T221320Z"),
        "POST /upload HTTP/1.1\r\n\
         Host: 10.0.0.3:8765\r\n\
         Content-Type: image/jpeg\r\n\
         X-Timestamp: 20231114T221320Z\r\n\
         Content-Length: 3\r\n\
         Connection: close\r\n\
         \r\n"
    );
    assert_eq!(clean_timestamp("20231114T221320Z"), "20231114T221320");
}

#[test]
fn status_lines_of_responses() {
    for s in ["HTTP/1.1 200 OK\r\nfoo: bar\r\n", "one\ntwo", "", "\nx", "\r\n", "alone\r", "a\rb\n"] {
        assert_eq!(status_line(s), s.lines().next().unwrap_or(""));
    }
}
