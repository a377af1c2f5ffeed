//! A session of the device with the MQTT broker.

use vstd::prelude::*;
use vstd::string::*;

use super::camera::{
    grayscale_mode, init, jpeg_mode, recover, restart_steps, CameraConfig, CameraError, CameraStep,
};
use super::config::Config;
use super::stack::{
    capture_stacked_jpeg, StackAction, StackAnswer, StackPhase, StackRun, SWITCH_MS,
};
use super::types::{cmd_effect, law_command_names_differ, with_effect, SendDataCmd};
use crate::json::{hello_payload, hello_text};
use crate::text::{dec, same_text, u64_text};
use crate::topics::{cmd_topic, hello_topic, law_topics_differ, senddata_topic, status_topic, topic};

verus! {

/// Nanoseconds between two reports that the device is alive.
pub const STATUS_NANOS: u128 = 60_000_000_000;

/// Milliseconds that exposure and gain are given to take effect.
pub const SETTLE_MS: u64 = 150;

/// How many frames are taken to measure the frame rate.
pub const FPS_SAMPLES: u32 = 3;

/// A session: its topics, and when the device last reported, in nanoseconds on a clock that only
/// moves forward.
#[derive(Debug)]
pub struct Session {
    pub senddata_topic: String,
    pub cmd_topic: String,
    pub status_topic: String,
    pub hello_topic: String,
    pub last_status: u128,
}

/// What the connection reports.
#[derive(Debug)]
pub enum SessionEvent {
    Connected,
    Received { topic: String, data: Vec<u8> },
    Disconnected,
    Fatal,
}

/// Something to do, in order, until it fails.
#[derive(Debug)]
pub enum SessionAction {
    /// Start the camera.
    InitCamera(CameraConfig),
    /// Remember that the camera is started.
    CameraReady,
    Subscribe(String),
    Publish { topic: String, retain: bool, payload: String },
    /// Report the status.
    Report(&'static str),
    /// Flash the LED.
    Flash { count: u8, on_ms: u64, gap_ms: u64 },
}

/// What is to be done, in terms of character sequences.
pub enum ActionView {
    InitCamera(CameraConfig),
    CameraReady,
    Subscribe(Seq<char>),
    Publish { topic: Seq<char>, retain: bool, payload: Seq<char> },
    Report(Seq<char>),
    Flash { count: u8, on_ms: u64, gap_ms: u64 },
}

impl View for SessionAction {
    type V = ActionView;

    open spec fn view(&self) -> ActionView {
        match *self {
            SessionAction::InitCamera(c) => ActionView::InitCamera(c),
            SessionAction::CameraReady => ActionView::CameraReady,
            SessionAction::Subscribe(t) => ActionView::Subscribe(t@),
            SessionAction::Publish { topic, retain, payload } => ActionView::Publish {
                topic: topic@,
                retain,
                payload: payload@,
            },
            SessionAction::Report(s) => ActionView::Report(s@),
            SessionAction::Flash { count, on_ms, gap_ms } => ActionView::Flash {
                count,
                on_ms,
                gap_ms,
            },
        }
    }
}

/// What a sequence of actions does.
pub open spec fn actions_view(actions: Seq<SessionAction>) -> Seq<ActionView> {
    actions.map_values(|a: SessionAction| a@)
}

/// What is done on connecting, with the camera started before or not.
pub open spec fn connect_actions(cfg: Config, cam_ready: bool) -> Seq<ActionView> {
    (if cam_ready {
        Seq::empty()
    } else {
        seq![
            ActionView::InitCamera(jpeg_mode(cfg.framesize, cfg.jpeg_quality)),
            ActionView::CameraReady,
        ]
    }) + seq![
        ActionView::Subscribe(topic(cfg.device_id@, "senddata"@)),
        ActionView::Subscribe(topic(cfg.device_id@, "cmd"@)),
        ActionView::Publish {
            topic: topic(cfg.device_id@, "hello"@),
            retain: true,
            payload: hello_text(cfg.device_id@, cfg.framesize as int, cfg.jpeg_quality as int),
        },
        ActionView::Report("online"@),
        ActionView::Flash { count: 3, on_ms: 200, gap_ms: 200 },
    ]
}

/// What a message is for.
#[derive(Clone, Copy, Debug, PartialEq, Eq, Structural)]
pub enum Route {
    /// It requests a capture.
    SendData,
    /// It is a command.
    Command,
    /// It is for nobody here.
    Ignore,
}

/// What a message on a topic is for.
pub open spec fn route_of(device_id: Seq<char>, t: Seq<char>) -> Route {
    if t == topic(device_id, "senddata"@) {
        Route::SendData
    } else if t == topic(device_id, "cmd"@) {
        Route::Command
    } else {
        Route::Ignore
    }
}

/// What an event asks for.
#[derive(Debug)]
pub enum SessionStep {
    /// Go through the actions.
    Act(Vec<SessionAction>),
    /// Capture as the message says.
    Capture(Vec<u8>),
    /// Do what the message says.
    Command(Vec<u8>),
    /// Wait for the next event.
    Wait,
    /// Give the connection up.
    End,
}

/// The address of the broker.
pub fn broker_url(cfg: &Config) -> (r: String)
    ensures
        r@ == "mqtt://"@ + cfg.mqtt_host@ + ":"@ + dec(cfg.mqtt_port as nat),
{
    let mut t = "mqtt://".to_owned();
    t.append(cfg.mqtt_host.as_str());
    t.append(":");
    t.append(u64_text(cfg.mqtt_port as u64).as_str());
    t
}

/// A user name or password, if it is not empty.
pub fn login<'a>(text: &'a str) -> (r: Option<&'a str>)
    ensures
        (match r {
            Some(t) => text@.len() > 0 && t@ == text@,
            None => text@.len() == 0,
        }),
{
    if text.is_empty() {
        None
    } else {
        Some(text)
    }
}

impl Session {
    /// The topics are those of the device.
    pub open spec fn wf(self, cfg: Config) -> bool {
        &&& self.senddata_topic@ == topic(cfg.device_id@, "senddata"@)
        &&& self.cmd_topic@ == topic(cfg.device_id@, "cmd"@)
        &&& self.status_topic@ == topic(cfg.device_id@, "status"@)
        &&& self.hello_topic@ == topic(cfg.device_id@, "hello"@)
    }

    /// A session that begins at the nanosecond `now`.
    pub fn new(cfg: &Config, now: u128) -> (r: Session)
        ensures
            r.wf(*cfg),
            r.last_status == now,
    {
        Session {
            senddata_topic: senddata_topic(cfg.device_id.as_str()),
            cmd_topic: cmd_topic(cfg.device_id.as_str()),
            status_topic: status_topic(cfg.device_id.as_str()),
            hello_topic: hello_topic(cfg.device_id.as_str()),
            last_status: now,
        }
    }

    /// What to do on connecting. The camera is started by the first connection that gets that
    /// far.
    pub fn on_connected(&self, cfg: &Config, cam_ready: bool) -> (r: Vec<SessionAction>)
        requires
            self.wf(*cfg),
        ensures
            actions_view(r@) == connect_actions(*cfg, cam_ready),
    {
        let mut r: Vec<SessionAction> = Vec::new();
        if !cam_ready {
            r.push(SessionAction::InitCamera(init(cfg.framesize, cfg.jpeg_quality)));
            r.push(SessionAction::CameraReady);
        }
        r.push(SessionAction::Subscribe(self.senddata_topic.clone()));
        r.push(SessionAction::Subscribe(self.cmd_topic.clone()));
        r.push(
            SessionAction::Publish {
                topic: self.hello_topic.clone(),
                retain: true,
                payload: hello_payload(cfg.device_id.as_str(), cfg.framesize, cfg.jpeg_quality),
            },
        );
        r.push(SessionAction::Report("online"));
        r.push(SessionAction::Flash { count: 3, on_ms: 200, gap_ms: 200 });
        proof {
            assert(actions_view(r@) =~= connect_actions(*cfg, cam_ready));
        }
        r
    }

    /// What a message on a topic is for.
    pub fn route(&self, cfg: &Config, t: &str) -> (r: Route)
        requires
            self.wf(*cfg),
        ensures
            r == route_of(cfg.device_id@, t@),
    {
        if same_text(t, self.senddata_topic.as_str()) {
            Route::SendData
        } else if same_text(t, self.cmd_topic.as_str()) {
            Route::Command
        } else {
            Route::Ignore
        }
    }

    /// What an event asks for: a message goes by its topic, and a lost connection is waited for
    /// unless it is lost for good.
    pub fn on_event(&self, cfg: &Config, event: SessionEvent, cam_ready: bool) -> (r: SessionStep)
        requires
            self.wf(*cfg),
        ensures
            (match event {
                SessionEvent::Connected => r matches SessionStep::Act(actions) && actions_view(
                    actions@,
                ) == connect_actions(*cfg, cam_ready),
                SessionEvent::Received { topic, data } => match route_of(cfg.device_id@, topic@) {
                    Route::SendData => r == SessionStep::Capture(data),
                    Route::Command => r == SessionStep::Command(data),
                    Route::Ignore => r is Wait,
                },
                SessionEvent::Disconnected => r is Wait,
                SessionEvent::Fatal => r is End,
            }),
    {
        match event {
            SessionEvent::Connected => SessionStep::Act(self.on_connected(cfg, cam_ready)),
            SessionEvent::Received { topic, data } => match self.route(cfg, topic.as_str()) {
                Route::SendData => SessionStep::Capture(data),
                Route::Command => SessionStep::Command(data),
                Route::Ignore => SessionStep::Wait,
            },
            SessionEvent::Disconnected => SessionStep::Wait,
            SessionEvent::Fatal => SessionStep::End,
        }
    }

    /// Whether the device has to report that it is alive.
    pub open spec fn is_report_due(self, now: u128) -> bool {
        now >= self.last_status && now - self.last_status >= STATUS_NANOS
    }

    /// Whether the device has to report that it is alive.
    pub fn report_due(&self, now: u128) -> (r: bool)
        ensures
            r == self.is_report_due(now),
    {
        now >= self.last_status && now - self.last_status >= STATUS_NANOS
    }

    /// Takes note of a report at the nanosecond `now`.
    pub fn reported(&mut self, now: u128)
        ensures
            *final(self) == (Session { last_status: now, ..*old(self) }),
    {
        self.last_status = now;
    }
}

impl SessionEvent {
    /// Whether nothing comes from the connection any more.
    pub fn is_fatal(&self) -> (r: bool)
        ensures
            r == (self is Fatal),
    {
        match self {
            SessionEvent::Fatal => true,
            _ => false,
        }
    }
}

/// A step of a capture.
#[derive(Clone, Copy, Debug, PartialEq, Eq, Structural)]
pub enum CaptureStep {
    /// Bring exposure and gain to the sensor.
    ApplySensor { exposure: i32, gain: i32 },
    /// Switch the LED on.
    LedOn,
    /// Wait for that many milliseconds.
    Sleep(u64),
    /// Take a single frame.
    Single,
    /// Measure the frame rate over some frames, and stack as many as come in that many seconds.
    Stack { samples: u32, secs: u32 },
}

/// The steps of a capture. Where the device is to flash, the LED goes on before exposure and gain
/// are given time to take effect.
pub open spec fn steps_of_capture(cfg: Config, cmd: SendDataCmd) -> Seq<CaptureStep> {
    seq![CaptureStep::ApplySensor { exposure: cmd.exposure, gain: cmd.gain }] + (if cfg.flash {
        seq![CaptureStep::LedOn]
    } else {
        Seq::empty()
    }) + seq![
        CaptureStep::Sleep(SETTLE_MS),
        if cmd.stack_secs > 0 {
            CaptureStep::Stack { samples: FPS_SAMPLES, secs: cmd.stack_secs }
        } else {
            CaptureStep::Single
        },
    ]
}

/// The steps of a capture. The frame rate is measured at the exposure of the capture.
pub fn capture_steps(cfg: &Config, cmd: &SendDataCmd) -> (r: Vec<CaptureStep>)
    ensures
        r@ == steps_of_capture(*cfg, *cmd),
{
    let mut r: Vec<CaptureStep> = Vec::new();
    r.push(CaptureStep::ApplySensor { exposure: cmd.exposure, gain: cmd.gain });
    if cfg.flash {
        r.push(CaptureStep::LedOn);
    }
    r.push(CaptureStep::Sleep(SETTLE_MS));
    if cmd.stack_secs > 0 {
        r.push(CaptureStep::Stack { samples: FPS_SAMPLES, secs: cmd.stack_secs });
    } else {
        r.push(CaptureStep::Single);
    }
    proof {
        assert(r@ =~= steps_of_capture(*cfg, *cmd));
    }
    r
}

/// The LED fires for a capture exactly if the device is to flash: it is switched on before the
/// frames are taken, or not at all.
pub proof fn law_led_fires_with_flash_alone(cfg: Config, cmd: SendDataCmd)
    ensures
        cfg.flash ==> exists|i: int, j: int|
            0 <= i < j < steps_of_capture(cfg, cmd).len() && (#[trigger] steps_of_capture(
                cfg,
                cmd,
            )[i]) is LedOn && ((#[trigger] steps_of_capture(cfg, cmd)[j]) is Single
                || steps_of_capture(cfg, cmd)[j] is Stack),
        !cfg.flash ==> forall|i: int|
            0 <= i < steps_of_capture(cfg, cmd).len() ==> !(
            (#[trigger] steps_of_capture(cfg, cmd)[i]) is LedOn),
{
    let steps = steps_of_capture(cfg, cmd);
    if cfg.flash {
        assert(steps[1] is LedOn);
        assert(steps[3] is Single || steps[3] is Stack);
    }
}

/// How many frames are stacked where the frame rate gives so many: at least one.
pub open spec fn stack_size(estimate: u32) -> u32 {
    if estimate == 0 {
        1
    } else {
        estimate
    }
}

/// The steps that start the camera for stacking.
pub open spec fn stack_start(cfg: Config) -> Seq<CameraStep> {
    restart_steps(SWITCH_MS, grayscale_mode(cfg.framesize, cfg.jpeg_quality))
}

/// Starts to stack as many frames as the frame rate gives, at least one.
pub fn begin_stack(cfg: &Config, cmd: &SendDataCmd, estimate: u32) -> (r: (StackRun, StackAction))
    ensures
        r.0.wf(),
        r.0 == (StackRun {
            n_frames: stack_size(estimate),
            framesize: cfg.framesize,
            quality: cfg.jpeg_quality,
            exposure: cmd.exposure,
            gain: cmd.gain,
            phase: StackPhase::Switching,
        }),
        r.1 matches StackAction::Reconfigure(steps) && steps@ == stack_start(*cfg),
{
    let n_frames: u32 = if estimate == 0 {
        1
    } else {
        estimate
    };
    capture_stacked_jpeg(n_frames, cfg.framesize, cfg.jpeg_quality, cmd.exposure, cmd.gain)
}

/// Something that follows a capture.
#[derive(Debug)]
pub enum FollowUp {
    /// Switch the LED off.
    LedOff,
    /// Upload the photo.
    Upload(Vec<u8>),
    /// Bring the camera back, for the reason given.
    Recover { error: CameraError, steps: Vec<CameraStep> },
}

/// The steps that follow a capture without a photo.
pub open spec fn recovery(cfg: Config, captured: Result<Vec<u8>, CameraError>) -> Option<
    Seq<CameraStep>,
> {
    match captured {
        Ok(_) => None,
        Err(_) => Some(restart_steps(1500, jpeg_mode(cfg.framesize, cfg.jpeg_quality))),
    }
}

/// What follows a capture, in order: the LED goes off at once; a photo is uploaded, and without
/// one the camera is started anew.
pub fn after_capture(cfg: &Config, captured: Result<Vec<u8>, CameraError>) -> (r: Vec<FollowUp>)
    ensures
        r.len() == 2,
        r[0] is LedOff,
        (match captured {
            Ok(jpeg) => r[1] == FollowUp::Upload(jpeg),
            Err(e) => r[1] matches FollowUp::Recover { error, steps } && error == e && recovery(
                *cfg,
                captured,
            ) == Some(steps@),
        }),
{
    let mut r: Vec<FollowUp> = Vec::new();
    r.push(FollowUp::LedOff);
    match captured {
        Ok(jpeg) => {
            r.push(FollowUp::Upload(jpeg));
        },
        Err(error) => {
            let steps = recover(cfg.framesize, cfg.jpeg_quality);
            r.push(FollowUp::Recover { error, steps });
        },
    }
    r
}

/// The device takes the messages that the logger sends to it for what they are, and its own
/// for nothing.
pub proof fn law_topics_are_routed(device_id: Seq<char>)
    ensures
        route_of(device_id, topic(device_id, "senddata"@)) == Route::SendData,
        route_of(device_id, topic(device_id, "cmd"@)) == Route::Command,
        route_of(device_id, topic(device_id, "status"@)) == Route::Ignore,
        route_of(device_id, topic(device_id, "hello"@)) == Route::Ignore,
{
    law_topics_differ(device_id);
}

/// However a stacked capture ends, the camera is started for JPEG images last: by the capture
/// itself, where it has an image to return, or by the recovery that follows one without.
pub proof fn law_camera_ends_in_jpeg_mode(
    cfg: Config,
    run: StackRun,
    answer: StackAnswer,
    after: StackRun,
    result: Result<Vec<u8>, CameraError>,
)
    requires
        run.follows(answer, after, StackAction::Finish(result)),
    ensures
        result is Ok ==> after.in_jpeg_mode(),
        recovery(cfg, result) matches Some(steps) ==> steps.last() == CameraStep::Init(
            jpeg_mode(cfg.framesize, cfg.jpeg_quality),
        ),
        after.in_jpeg_mode() || recovery(cfg, result) is Some,
{
}

/// A frame size or quality that a command sets is the one that every later start of the camera
/// uses: the first one, the one for stacking, and the one that brings a stuck camera back. The
/// topics of the session stay as they are.
pub proof fn law_commands_reach_next_start(
    session: Session,
    cfg: Config,
    cmd: Seq<char>,
    value: u64,
    error: CameraError,
)
    requires
        session.wf(cfg),
    ensures
        ({
            let after = with_effect(cfg, cmd_effect(cmd, Some(value)));
            let framesize = if cmd == "SetFramesize"@ {
                (value % 256) as u8
            } else {
                cfg.framesize
            };
            let quality = if cmd == "SetQuality"@ {
                (value % 256) as u8
            } else {
                cfg.jpeg_quality
            };
            &&& session.wf(after)
            &&& connect_actions(after, false)[0] == ActionView::InitCamera(
                jpeg_mode(framesize, quality),
            )
            &&& stack_start(after).last() == CameraStep::Init(grayscale_mode(framesize, quality))
            &&& recovery(after, Err(error)) matches Some(steps) && steps.last()
                == CameraStep::Init(jpeg_mode(framesize, quality))
        }),
{
    law_command_names_differ();
}

/// A camera that is started is not started again by another connection, and one that is not is
/// started before anything else.
pub proof fn law_camera_is_started_once(cfg: Config)
    ensures
        forall|i: int|
            0 <= i < connect_actions(cfg, true).len() ==> !(
            (#[trigger] connect_actions(cfg, true)[i]) is InitCamera),
        connect_actions(cfg, false)[0] == ActionView::InitCamera(
            jpeg_mode(cfg.framesize, cfg.jpeg_quality),
        ),
        connect_actions(cfg, false)[1] is CameraReady,
        connect_actions(cfg, false).skip(2) == connect_actions(cfg, true),
{
    assert(connect_actions(cfg, false).skip(2) =~= connect_actions(cfg, true));
}

} // verus!
