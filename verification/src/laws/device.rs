//! Laws on the configuration, the sessions and the uploads of the device.

use vstd::prelude::*;
use vstd::string::*;

use super::camera::{code_number, is_restart, lemma_code, takes_gray, takes_jpeg};
use super::text::{is_decimal, is_hexadecimal, law_dec_is_decimal, law_hex_is_hexadecimal};
use crate::firmware::camera::{CameraError, CameraStep};
use crate::firmware::config::{
    erase_result, load, magic, save, write_result, Config, FlashRead, SaveError,
};
use crate::firmware::led::{flash_led, flashes, LedStep};
use crate::firmware::session::{
    actions_view, after_capture, begin_stack, broker_url, capture_steps, connect_actions, login,
    CaptureStep, FollowUp, Route, Session, SessionAction, SessionEvent, SessionStep,
};
use crate::firmware::stack::{StackAction, StackRun};
use crate::firmware::types::{
    apply_effect, handle_config_cmd, law_command_names_differ, status_message, CmdEffect,
    ConfigCmd, SendDataCmd, StatusMessage,
};
use crate::firmware::upload::{http_post_jpeg, status_line, upload_addr};
use crate::json::hello_payload;
use crate::text::{dec, hex};
use crate::topics::{cmd_topic, hello_topic, senddata_topic, status_topic};

verus! {

/// There is a JSON text in flash exactly behind the bytes FA 12 C3 7A and a length from 1 to 512
/// in four bytes, the lowest first; it is the bytes that follow, as many as the length says.
pub proof fn law_load(buf: &[u8; 520], r: Option<Vec<u8>>)
    requires
        call_ensures(load, (FlashRead::Data(buf),), r),
    ensures
        ({
            let len = buf@[4] + 256 * buf@[5] + 65536 * buf@[6] + 16777216 * buf@[7];
            &&& r is Some <==> buf@[0] == 0xFA && buf@[1] == 0x12 && buf@[2] == 0xC3 && buf@[3]
                == 0x7A && 1 <= len <= 512
            &&& r matches Some(json) ==> json@.len() == len && forall|i: int|
                0 <= i < len ==> #[trigger] json@[i] == buf@[8 + i]
        }),
{
    let head = buf@.take(4);
    assert(head[0] == buf@[0] && head[1] == buf@[1] && head[2] == buf@[2] && head[3] == buf@[3]);
    let b = buf@.subrange(4, 8);
    assert(b[0] == buf@[4] && b[1] == buf@[5] && b[2] == buf@[6] && b[3] == buf@[7]);
    assert(magic()[0] == 0xFA && magic()[1] == 0x12 && magic()[2] == 0xC3 && magic()[3] == 0x7A);
    if buf@[0] == 0xFA && buf@[1] == 0x12 && buf@[2] == 0xC3 && buf@[3] == 0x7A {
        assert(head =~= magic());
    }
}

/// What cannot be read holds no configuration.
pub proof fn law_load_fails(code: i32, r1: Option<Vec<u8>>, r2: Option<Vec<u8>>)
    requires
        call_ensures(load, (FlashRead::NoPartition,), r1),
        call_ensures(load, (FlashRead::Failed(code),), r2),
    ensures
        r1 is None,
        r2 is None,
{
}

/// A JSON text of up to 512 bytes is kept, behind the mark and its length; zero to three bytes of
/// FF round the whole up to a multiple of four.
pub proof fn law_save(json: &[u8], found: bool, r: Result<Vec<u8>, SaveError>)
    requires
        call_ensures(save, (json, found), r),
    ensures
        r is Ok <==> json@.len() <= 512 && found,
        r matches Err(e) ==> e == (if json@.len() > 512 {
            SaveError::TooLarge
        } else {
            SaveError::NoPartition
        }),
        r matches Ok(out) ==> {
            let n = json@.len() as int;
            &&& out@.len() % 4 == 0
            &&& n + 8 <= out@.len() < n + 12
            &&& out@[0] == 0xFA && out@[1] == 0x12 && out@[2] == 0xC3 && out@[3] == 0x7A
            &&& out@[4] + 256 * out@[5] + 65536 * out@[6] + 16777216 * out@[7] == n
            &&& forall|i: int| 0 <= i < n ==> #[trigger] out@[8 + i] == json@[i]
            &&& forall|i: int| n + 8 <= i < out@.len() ==> #[trigger] out@[i] == 0xFF
        },
{
    if r is Ok {
        let n = json@.len() as int;
        let out = r->Ok_0@;
        let head = magic() + crate::firmware::config::le_bytes(n);
        assert(head.len() == 8);
        assert forall|i: int| 0 <= i < n implies #[trigger] out[8 + i] == json@[i] by {
            assert((head + json@)[8 + i] == json@[i]);
        }
        assert(out[0] == magic()[0] && out[1] == magic()[1] && out[2] == magic()[2] && out[3]
            == magic()[3]);
    }
}

/// What is saved and then read back is the JSON text that was saved.
pub proof fn law_save_then_load(
    json: &[u8],
    bytes: Vec<u8>,
    buf: &[u8; 520],
    r: Option<Vec<u8>>,
)
    requires
        call_ensures(save, (json, true), Ok(bytes)),
        json@.len() > 0,
        call_ensures(load, (FlashRead::Data(buf),), r),
        forall|i: int| 0 <= i < bytes@.len() && i < 520 ==> #[trigger] buf@[i] == bytes@[i],
    ensures
        r matches Some(back) && back@ == json@,
{
    law_save(json, true, Ok(bytes));
    law_load(buf, r);
    let n = json@.len() as int;
    assert(buf@[0] == bytes@[0] && buf@[1] == bytes@[1] && buf@[2] == bytes@[2] && buf@[3]
        == bytes@[3]);
    assert(buf@[4] == bytes@[4] && buf@[5] == bytes@[5] && buf@[6] == bytes@[6] && buf@[7]
        == bytes@[7]);
    let back = r->0@;
    assert forall|i: int| 0 <= i < n implies back[i] == json@[i] by {
        assert(back[i] == buf@[8 + i]);
        assert(buf@[8 + i] == bytes@[8 + i]);
    }
    assert(back =~= json@);
}

/// Erasing and writing went well exactly if the code is 0; else the error carries the code.
pub proof fn law_flash_results(e: i32, r: Result<(), SaveError>, w: i32, q: Result<(), SaveError>)
    requires
        call_ensures(erase_result, (e,), r),
        call_ensures(write_result, (w,), q),
    ensures
        r is Ok <==> e == 0,
        r matches Err(x) ==> x == SaveError::EraseFailed(e),
        q is Ok <==> w == 0,
        q matches Err(x) ==> x == SaveError::WriteFailed(w),
{
}

/// What is said of an error in saving names its code.
pub proof fn law_save_messages(error: SaveError, r: String) -> (n: Seq<char>)
    requires
        call_ensures(SaveError::message, (error,), r),
    ensures
        error is TooLarge ==> r@ == "config JSON too large"@,
        error is NoPartition ==> r@ == "config partition not found"@,
        error matches SaveError::EraseFailed(e) ==> is_hexadecimal(n, code_number(e)) && r@
            == "partition erase failed: 0x"@ + n,
        error matches SaveError::WriteFailed(e) ==> is_hexadecimal(n, code_number(e)) && r@
            == "partition write failed: 0x"@ + n,
{
    match error {
        SaveError::EraseFailed(e) => {
            lemma_code(e);
            law_hex_is_hexadecimal((e as u32) as nat);
            hex((e as u32) as nat)
        },
        SaveError::WriteFailed(e) => {
            lemma_code(e);
            law_hex_is_hexadecimal((e as u32) as nat);
            hex((e as u32) as nat)
        },
        _ => Seq::empty(),
    }
}

/// The LED goes on and off as often as it is to flash, and stays so for the given times.
pub proof fn law_flash_led(count: u8, on_ms: u64, gap_ms: u64, r: Vec<LedStep>, i: int)
    requires
        call_ensures(flash_led, (count, on_ms, gap_ms), r),
    ensures
        r@.len() == 4 * count,
        0 <= i < count ==> r@[4 * i] is High && r@[4 * i + 1] == LedStep::Sleep(on_ms) && r@[4 * i
            + 2] is Low && r@[4 * i + 3] == LedStep::Sleep(gap_ms),
{
    lemma_flashes(count as nat, on_ms, gap_ms, i);
}

proof fn lemma_flashes(count: nat, on_ms: u64, gap_ms: u64, i: int)
    ensures
        flashes(count, on_ms, gap_ms).len() == 4 * count,
        0 <= i < count ==> {
            let r = flashes(count, on_ms, gap_ms);
            r[4 * i] is High && r[4 * i + 1] == LedStep::Sleep(on_ms) && r[4 * i + 2] is Low && r[4
                * i + 3] == LedStep::Sleep(gap_ms)
        },
    decreases count,
{
    if count > 0 {
        lemma_flashes((count - 1) as nat, on_ms, gap_ms, i);
    }
}

/// The broker is reached by MQTT at its host and port.
pub proof fn law_broker_url(cfg: Config, r: String)
    requires
        call_ensures(broker_url, (&cfg,), r),
    ensures
        ({
            let k = 7 + cfg.mqtt_host@.len() as int;
            &&& r@.len() > k + 1
            &&& r@.take(7) == "mqtt://"@
            &&& r@.subrange(7, k) == cfg.mqtt_host@
            &&& r@[k] == ':'
            &&& is_decimal(r@.skip(k + 1), cfg.mqtt_port as int)
        }),
{
    reveal_strlit("mqtt://");
    reveal_strlit(":");
    law_dec_is_decimal(cfg.mqtt_port as nat);
    let k = 7 + cfg.mqtt_host@.len() as int;
    assert(r@.take(7) =~= "mqtt://"@);
    assert(r@.subrange(7, k) =~= cfg.mqtt_host@);
    assert(r@.skip(k + 1) =~= dec(cfg.mqtt_port as nat));
}

/// A user or password counts if it is not empty, and then as it is.
pub proof fn law_login(text: &str, r: Option<&str>)
    requires
        call_ensures(login, (text,), r),
    ensures
        r is Some <==> text@.len() > 0,
        r matches Some(t) ==> t@ == text@,
{
}

/// A session goes by the topics of the device.
pub proof fn law_new_session(
    cfg: Config,
    now: u128,
    r: Session,
    id: &str,
    senddata: String,
    cmd: String,
    status: String,
    hello: String,
)
    requires
        call_ensures(Session::new, (&cfg, now), r),
        id@ == cfg.device_id@,
        call_ensures(senddata_topic, (id,), senddata),
        call_ensures(cmd_topic, (id,), cmd),
        call_ensures(status_topic, (id,), status),
        call_ensures(hello_topic, (id,), hello),
    ensures
        r.last_status == now,
        r.senddata_topic@ == senddata@,
        r.cmd_topic@ == cmd@,
        r.status_topic@ == status@,
        r.hello_topic@ == hello@,
{
}

/// On connecting, the camera is started where it was not, the device subscribes to its two
/// topics, announces itself for good, reports that it is online, and flashes three times.
pub proof fn law_on_connected(
    session: Session,
    cfg: Config,
    cam_ready: bool,
    r: Vec<SessionAction>,
    id: &str,
    hello: String,
)
    requires
        call_ensures(Session::on_connected, (&session, &cfg, cam_ready), r),
        session.wf(cfg),
        id@ == cfg.device_id@,
        call_ensures(hello_payload, (id, cfg.framesize, cfg.jpeg_quality), hello),
    ensures
        ({
            let k: int = if cam_ready {
                0
            } else {
                2
            };
            &&& r@.len() == k + 5
            &&& !cam_ready ==> (r@[0] matches SessionAction::InitCamera(config) && takes_jpeg(
                config,
                cfg.framesize,
                cfg.jpeg_quality,
            ))
            &&& !cam_ready ==> r@[1] is CameraReady
            &&& (r@[k] matches SessionAction::Subscribe(t) && t@ == session.senddata_topic@)
            &&& (r@[k + 1] matches SessionAction::Subscribe(t) && t@ == session.cmd_topic@)
            &&& (r@[k + 2] matches SessionAction::Publish { topic, retain, payload } && topic@
                == session.hello_topic@ && retain && payload@ == hello@)
            &&& (r@[k + 3] matches SessionAction::Report(s) && s@ == "online"@)
            &&& r@[k + 4] == (SessionAction::Flash { count: 3, on_ms: 200, gap_ms: 200 })
        }),
{
    let k: int = if cam_ready {
        0
    } else {
        2
    };
    let v = actions_view(r@);
    let c = connect_actions(cfg, cam_ready);
    assert(v.len() == r@.len());
    assert(c.len() == k + 5);
    assert forall|i: int| 0 <= i < r@.len() implies (#[trigger] r@[i])@ == c[i] by {
        assert(v[i] == r@[i]@);
    }
    assert(r@[k]@ == c[k] && r@[k + 1]@ == c[k + 1] && r@[k + 2]@ == c[k + 2] && r@[k + 3]@ == c[k
        + 3] && r@[k + 4]@ == c[k + 4]);
    if !cam_ready {
        assert(r@[0]@ == c[0] && r@[1]@ == c[1]);
    }
}

/// A message goes by its topic: requests on the one, commands on the other, nothing else counts.
pub proof fn law_route(session: Session, cfg: Config, t: &str, r: Route)
    requires
        call_ensures(Session::route, (&session, &cfg, t), r),
        session.wf(cfg),
    ensures
        r is SendData <==> t@ == session.senddata_topic@,
        r is Command <==> t@ == session.cmd_topic@,
        r is Ignore <==> t@ != session.senddata_topic@ && t@ != session.cmd_topic@,
{
    crate::topics::law_topics_differ(cfg.device_id@);
}

/// An event leads to what it is for, and a message is handed on as it came.
pub proof fn law_on_event(
    session: Session,
    cfg: Config,
    event: SessionEvent,
    cam_ready: bool,
    r: SessionStep,
)
    requires
        call_ensures(Session::on_event, (&session, &cfg, event, cam_ready), r),
        session.wf(cfg),
    ensures
        event is Connected <==> r is Act,
        event is Fatal <==> r is End,
        event is Disconnected ==> r is Wait,
        event matches SessionEvent::Received { topic, data } ==> {
            &&& r is Capture <==> topic@ == session.senddata_topic@
            &&& r is Command <==> topic@ == session.cmd_topic@
            &&& r matches SessionStep::Capture(d) ==> d@ == data@
            &&& r matches SessionStep::Command(d) ==> d@ == data@
        },
        !(event is Received) ==> !(r is Capture) && !(r is Command),
{
    crate::topics::law_topics_differ(cfg.device_id@);
}

/// What is done on connecting is what an event of connecting leads to.
pub proof fn law_connecting_acts(
    session: Session,
    cfg: Config,
    cam_ready: bool,
    r: SessionStep,
    actions: Vec<SessionAction>,
)
    requires
        call_ensures(Session::on_event, (&session, &cfg, SessionEvent::Connected, cam_ready), r),
        call_ensures(Session::on_connected, (&session, &cfg, cam_ready), actions),
    ensures
        r matches SessionStep::Act(a) && a@.len() == actions@.len() && forall|i: int|
            0 <= i < a@.len() ==> (#[trigger] a@[i])@ == actions@[i]@,
{
    let a = r->Act_0@;
    assert(actions_view(a).len() == a.len());
    assert(actions_view(actions@).len() == actions@.len());
    assert forall|i: int| 0 <= i < a.len() implies (#[trigger] a[i])@ == actions@[i]@ by {
        assert(actions_view(a)[i] == a[i]@);
        assert(actions_view(actions@)[i] == actions@[i]@);
    }
}

/// A report is due a minute after the last, and the minute starts anew with it.
pub proof fn law_reports(session: &mut Session, at: u128, now: u128, due: bool)
    requires
        call_ensures(Session::reported, (session, at), ()),
        call_ensures(Session::report_due, (&*final(session), now), due),
    ensures
        final(session).last_status == at,
        due <==> now >= at + 60_000_000_000,
        final(session).senddata_topic@ == old(session).senddata_topic@,
        final(session).cmd_topic@ == old(session).cmd_topic@,
        final(session).status_topic@ == old(session).status_topic@,
        final(session).hello_topic@ == old(session).hello_topic@,
{
}

/// Nothing follows a fatal event, and no other is fatal.
pub proof fn law_is_fatal(event: SessionEvent, r: bool)
    requires
        call_ensures(SessionEvent::is_fatal, (&event,), r),
    ensures
        r <==> event is Fatal,
{
}

/// A capture brings exposure and gain to the sensor first, waits 150 milliseconds, and takes a
/// single frame or stacks for the time that was asked for, last. In between, before the waiting,
/// the LED goes on where the device is to flash.
pub proof fn law_capture_steps(cfg: Config, cmd: SendDataCmd, r: Vec<CaptureStep>)
    requires
        call_ensures(capture_steps, (&cfg, &cmd), r),
    ensures
        r@.len() == (if cfg.flash {
            4int
        } else {
            3
        }),
        r@[0] == (CaptureStep::ApplySensor { exposure: cmd.exposure, gain: cmd.gain }),
        cfg.flash ==> r@[1] is LedOn,
        r@[r@.len() - 2] == CaptureStep::Sleep(150),
        cmd.stack_secs == 0 ==> r@.last() is Single,
        cmd.stack_secs > 0 ==> r@.last() == (CaptureStep::Stack {
            samples: 3,
            secs: cmd.stack_secs,
        }),
{
}

/// As many frames are stacked as come, one at least, with the settings of the device and of the
/// request; the camera is powered down for a second and started for stacking.
pub proof fn law_begin_stack(
    cfg: Config,
    cmd: SendDataCmd,
    estimate: u32,
    r: (StackRun, StackAction),
)
    requires
        call_ensures(begin_stack, (&cfg, &cmd, estimate), r),
    ensures
        estimate > 0 ==> r.0.n_frames == estimate,
        estimate == 0 ==> r.0.n_frames == 1,
        r.0.framesize == cfg.framesize,
        r.0.quality == cfg.jpeg_quality,
        r.0.exposure == cmd.exposure,
        r.0.gain == cmd.gain,
        r.0.phase is Switching,
        r.1 matches StackAction::Reconfigure(steps) && steps@.len() == 4 && (steps@[3] matches
            CameraStep::Init(config) && takes_gray(config, cfg.framesize, cfg.jpeg_quality)
            && is_restart(steps@, 1000, config)),
{
}

/// After a capture the LED goes off first. A photo is uploaded as it is; without one the camera is
/// powered down for a second and a half and started for JPEG images, for the reason given.
pub proof fn law_after_capture(
    cfg: Config,
    captured: Result<Vec<u8>, CameraError>,
    r: Vec<FollowUp>,
)
    requires
        call_ensures(after_capture, (&cfg, captured), r),
    ensures
        r@.len() == 2,
        r@[0] is LedOff,
        captured matches Ok(photo) ==> (r@[1] matches FollowUp::Upload(jpeg) && jpeg@ == photo@),
        captured matches Err(e) ==> (r@[1] matches FollowUp::Recover { error, steps } && error == e
            && steps@.len() == 4 && (steps@[3] matches CameraStep::Init(config) && takes_jpeg(
            config,
            cfg.framesize,
            cfg.jpeg_quality,
        ) && is_restart(steps@, 1500, config))),
{
}

/// A report tells the settings of the device.
pub proof fn law_status_message(status: &str, cfg: Config, r: StatusMessage)
    requires
        call_ensures(status_message, (status, &cfg), r),
    ensures
        r.status@ == status@,
        r.framesize == cfg.framesize,
        r.quality == cfg.jpeg_quality,
        r.gain_ceiling == cfg.gain_ceiling,
        r.upload_host@ == cfg.upload_host@,
{
}

/// A command asks for what its name says, with its value; three names are known. A gain ceiling is
/// its value but for multiples of 256.
pub proof fn law_handle_config_cmd(cmd: ConfigCmd, r: CmdEffect)
    requires
        call_ensures(handle_config_cmd, (&cmd,), r),
    ensures
        r is Unknown <==> cmd.cmd@ != "SetFramesize"@ && cmd.cmd@ != "SetQuality"@ && cmd.cmd@
            != "SetGainCeiling"@,
        r is NoValue <==> !(r is Unknown) && cmd.value is None,
        r is Framesize <==> cmd.cmd@ == "SetFramesize"@ && cmd.value is Some,
        r is Quality <==> cmd.cmd@ == "SetQuality"@ && cmd.value is Some,
        r is GainCeiling <==> cmd.cmd@ == "SetGainCeiling"@ && cmd.value is Some,
        r matches CmdEffect::Framesize(v) ==> cmd.value == Some(v),
        r matches CmdEffect::Quality(v) ==> cmd.value == Some(v),
        r matches CmdEffect::GainCeiling { ceiling, value } ==> cmd.value == Some(value) && (value
            - ceiling) % 256 == 0,
{
    law_command_names_differ();
}

/// A command changes the setting that it is for, to its value but for multiples of 256, and
/// nothing else.
pub proof fn law_apply_effect(cfg: &mut Config, effect: CmdEffect)
    requires
        call_ensures(apply_effect, (cfg, effect), ()),
    ensures
        effect matches CmdEffect::Framesize(v) ==> (v - final(cfg).framesize) % 256 == 0,
        !(effect is Framesize) ==> final(cfg).framesize == old(cfg).framesize,
        effect matches CmdEffect::Quality(v) ==> (v - final(cfg).jpeg_quality) % 256 == 0,
        !(effect is Quality) ==> final(cfg).jpeg_quality == old(cfg).jpeg_quality,
        effect matches CmdEffect::GainCeiling { ceiling, .. } ==> final(cfg).gain_ceiling == ceiling,
        !(effect is GainCeiling) ==> final(cfg).gain_ceiling == old(cfg).gain_ceiling,
        final(cfg).wifi_ssid@ == old(cfg).wifi_ssid@,
        final(cfg).wifi_pass@ == old(cfg).wifi_pass@,
        final(cfg).mqtt_host@ == old(cfg).mqtt_host@,
        final(cfg).mqtt_port == old(cfg).mqtt_port,
        final(cfg).mqtt_user@ == old(cfg).mqtt_user@,
        final(cfg).mqtt_pass@ == old(cfg).mqtt_pass@,
        final(cfg).device_id@ == old(cfg).device_id@,
        final(cfg).flash == old(cfg).flash,
        final(cfg).upload_host@ == old(cfg).upload_host@,
        final(cfg).upload_port == old(cfg).upload_port,
{
}

/// Photos are uploaded to the host and port of the configuration.
pub proof fn law_upload_addr(cfg: Config, r: String)
    requires
        call_ensures(upload_addr, (&cfg,), r),
    ensures
        ({
            let k = cfg.upload_host@.len() as int;
            &&& r@.len() > k + 1
            &&& r@.take(k) == cfg.upload_host@
            &&& r@[k] == ':'
            &&& is_decimal(r@.skip(k + 1), cfg.upload_port as int)
        }),
{
    reveal_strlit(":");
    law_dec_is_decimal(cfg.upload_port as nat);
    let k = cfg.upload_host@.len() as int;
    assert(r@.take(k) =~= cfg.upload_host@);
    assert(r@.skip(k + 1) =~= dec(cfg.upload_port as nat));
}

/// The head of an upload names the host, the time stamp, and as the length the number of bytes of
/// the photo, in decimal notation.
pub proof fn law_http_post_jpeg(
    cfg: Config,
    jpeg: &[u8],
    timestamp: &str,
    r: String,
    addr: String,
) -> (len: Seq<char>)
    requires
        call_ensures(http_post_jpeg, (&cfg, jpeg, timestamp), r),
        call_ensures(upload_addr, (&cfg,), addr),
    ensures
        is_decimal(len, jpeg@.len() as int),
        r@ == "POST /upload HTTP/1.1\r\nHost: "@ + addr@
            + "\r\nContent-Type: image/jpeg\r\nX-Timestamp: "@ + timestamp@
            + "\r\nContent-Length: "@ + len + "\r\nConnection: close\r\n\r\n"@,
{
    law_dec_is_decimal(jpeg@.len());
    assert(r@ =~= "POST /upload HTTP/1.1\r\nHost: "@ + addr@
        + "\r\nContent-Type: image/jpeg\r\nX-Timestamp: "@ + timestamp@
        + "\r\nContent-Length: "@ + dec(jpeg@.len()) + "\r\nConnection: close\r\n\r\n"@);
    dec(jpeg@.len())
}

/// Heads for photos of different lengths differ.
pub proof fn law_heads_differ(
    cfg: Config,
    timestamp: &str,
    jpeg1: &[u8],
    r1: String,
    jpeg2: &[u8],
    r2: String,
)
    requires
        call_ensures(http_post_jpeg, (&cfg, jpeg1, timestamp), r1),
        call_ensures(http_post_jpeg, (&cfg, jpeg2, timestamp), r2),
        jpeg1@.len() != jpeg2@.len(),
    ensures
        r1@ != r2@,
{
    if r1@ == r2@ {
        let a = crate::firmware::upload::upload_addr_text(cfg);
        let head = "POST /upload HTTP/1.1\r\nHost: "@ + a
            + "\r\nContent-Type: image/jpeg\r\nX-Timestamp: "@ + timestamp@
            + "\r\nContent-Length: "@;
        let tail = "\r\nConnection: close\r\n\r\n"@;
        let d1 = dec(jpeg1@.len());
        let d2 = dec(jpeg2@.len());
        assert(r1@ =~= head + d1 + tail);
        assert(r2@ =~= head + d2 + tail);
        assert(d1.len() == d2.len());
        assert(d1 =~= r1@.subrange(head.len() as int, (head.len() + d1.len()) as int));
        assert(d2 =~= r2@.subrange(head.len() as int, (head.len() + d2.len()) as int));
        law_dec_is_decimal(jpeg1@.len());
        law_dec_is_decimal(jpeg2@.len());
    }
}

/// The status line is the response up to its first line feed, without a carriage return in front
/// of it, or all of a response without one.
pub proof fn law_status_line(response: &str, r: String, end: int)
    requires
        call_ensures(status_line, (response,), r),
        0 <= end <= response@.len(),
        forall|i: int| 0 <= i < end ==> #[trigger] response@[i] != '\n',
        end < response@.len() ==> response@[end] == '\n',
    ensures
        r@ == (if 0 < end < response@.len() && response@[end - 1] == '\r' {
            response@.take(end - 1)
        } else {
            response@.take(end)
        }),
{
    let s = response@;
    if end == s.len() {
        assert(!s.contains('\n'));
        assert(s.take(end) =~= s);
    } else {
        assert(s.contains('\n'));
        s.index_of_first_ensures('\n');
        let i = s.index_of_first('\n')->0;
        if i < end {
            assert(s[i] != '\n');
        }
    }
}

} // verus!
