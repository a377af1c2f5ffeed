//! Stacking: averaging many frames into one image.

use vstd::prelude::*;

use super::camera::{
    grayscale_config, grayscale_mode, jpeg_config, jpeg_mode, restart, restart_steps, CameraError,
    CameraStep, ESP_OK,
};

verus! {

/// Frames that are thrown away until exposure and gain have taken effect.
pub const DRAIN_FRAMES: u32 = 8;

/// Milliseconds that the sensor is held in power-down between two set-ups.
pub const SWITCH_MS: u64 = 1000;

/// `a + b`, or the largest number that fits.
pub open spec fn sum_or_max(a: u32, b: u8) -> u32 {
    if a + b > u32::MAX {
        u32::MAX
    } else {
        (a + b) as u32
    }
}

/// The sums after one frame more: each pixel is added to its sum. Sums without a pixel, and
/// pixels without a sum, are left out.
pub open spec fn accumulated(sums: Seq<u32>, pixels: Seq<u8>) -> Seq<u32> {
    Seq::new(
        sums.len(),
        |j: int|
            if j < pixels.len() {
                sum_or_max(sums[j], pixels[j])
            } else {
                sums[j]
            },
    )
}

/// Adds the pixels of a frame to the sums.
pub fn accumulate(sums: &mut [u32], pixels: &[u8])
    ensures
        final(sums)@ == accumulated(old(sums)@, pixels@),
{
    let ghost before = sums@;
    let count: usize = if pixels.len() < sums.len() {
        pixels.len()
    } else {
        sums.len()
    };
    let mut j: usize = 0;
    while j < count
        invariant
            j <= count <= sums@.len(),
            count <= pixels@.len(),
            count == pixels@.len() || count == sums@.len(),
            sums@.len() == before.len(),
            forall|i: int| 0 <= i < j ==> sums@[i] == sum_or_max(before[i], pixels@[i]),
            forall|i: int| j <= i < before.len() ==> sums@[i] == before[i],
        decreases count - j,
    {
        let s: u64 = sums[j] as u64 + pixels[j] as u64;
        sums[j] = if s > u32::MAX as u64 {
            u32::MAX
        } else {
            s as u32
        };
        j = j + 1;
    }
    proof {
        assert(sums@ =~= accumulated(before, pixels@));
    }
}

/// Sets all sums to 0.
pub fn clear(sums: &mut [u32])
    ensures
        final(sums)@ == Seq::new(old(sums)@.len(), |j: int| 0u32),
{
    let n: usize = sums.len();
    let mut j: usize = 0;
    while j < n
        invariant
            j <= n,
            n == sums@.len(),
            n == old(sums)@.len(),
            forall|i: int| 0 <= i < j ==> sums@[i] == 0,
        decreases n - j,
    {
        sums[j] = 0;
        j = j + 1;
    }
    proof {
        assert(sums@ =~= Seq::new(old(sums)@.len(), |j: int| 0u32));
    }
}

/// The brightness that a sum over `n` frames stands for.
pub open spec fn mean_pixel(sum: u32, n: u32) -> u8 {
    if sum / n > 255 {
        255
    } else {
        (sum / n) as u8
    }
}

/// The image that the sums over `n` frames stand for.
pub open spec fn normalised(sums: Seq<u32>, n: u32) -> Seq<u8> {
    Seq::new(sums.len(), |j: int| mean_pixel(sums[j], n))
}

/// The image that the sums over `n` frames stand for.
pub fn normalise(sums: &[u32], n: u32) -> (r: Vec<u8>)
    requires
        n > 0,
    ensures
        r@ == normalised(sums@, n),
{
    let mut r: Vec<u8> = Vec::new();
    let mut j: usize = 0;
    while j < sums.len()
        invariant
            n > 0,
            j <= sums@.len(),
            r@ == normalised(sums@, n).take(j as int),
        decreases sums@.len() - j,
    {
        let m: u32 = sums[j] / n;
        r.push(
            if m > 255 {
                255
            } else {
                m as u8
            },
        );
        proof {
            assert(normalised(sums@, n).take(j + 1) =~= normalised(sums@, n).take(j as int).push(
                mean_pixel(sums@[j as int], n),
            ));
        }
        j = j + 1;
    }
    proof {
        assert(r@ =~= normalised(sums@, n));
    }
    r
}

/// How the adding up of frames ended.
#[derive(Debug)]
pub enum StackEnd {
    /// All frames came, and this is their image.
    Image { gray: Vec<u8>, width: usize, height: usize },
    /// It failed.
    Failed(CameraError),
}

/// Where a stacked capture stands.
#[derive(Debug)]
pub enum StackPhase {
    /// The camera is being started for stacking.
    Switching,
    /// That failed with a code; the camera is being started for JPEG images again.
    Undoing(i32),
    /// Exposure and gain are being brought to the sensor.
    Applying,
    /// Frames are being thrown away, so many still; one may be held.
    Draining { left: u32, held: bool },
    /// The first frame is being taken, to learn its size.
    Sizing,
    /// That frame is held.
    Sized { width: usize, height: usize, px_len: usize },
    /// Memory for the sums is being looked for.
    Allocating { width: usize, height: usize, px_len: usize },
    /// Frames are being added up; so many were.
    Adding { width: usize, height: usize, taken: u32 },
    /// The last of so many frames that were added up is held.
    Added { width: usize, height: usize, taken: u32 },
    /// The memory for the sums is being freed.
    Freeing(StackEnd),
    /// The image is being encoded.
    Encoding,
    /// That failed; the camera is being started for JPEG images again.
    GivingUp,
    /// The image is there; the camera is being started for JPEG images again.
    Restoring(Vec<u8>),
    /// It is over.
    Over { restored: bool },
}

/// A stacked capture under way.
#[derive(Debug)]
pub struct StackRun {
    pub n_frames: u32,
    pub framesize: u8,
    pub quality: u8,
    pub exposure: i32,
    pub gain: i32,
    pub phase: StackPhase,
}

/// What a stacked capture asks for.
#[derive(Debug)]
pub enum StackAction {
    /// Go through the steps; the answer is the code of the start.
    Reconfigure(Vec<CameraStep>),
    /// Bring exposure and gain to the sensor.
    ApplySensor { exposure: i32, gain: i32 },
    /// Take a frame.
    Grab,
    /// Give the frame back to the driver.
    GiveBack,
    /// Find memory for the sums.
    Allocate { bytes: usize },
    /// Free the memory for the sums.
    Free,
    /// Encode the image.
    Encode { gray: Vec<u8>, width: u16, height: u16, quality: u8 },
    /// Return the image, or why there is none.
    Finish(Result<Vec<u8>, CameraError>),
}

/// What came of the action that was asked for.
pub enum StackAnswer {
    /// The camera was started, with that return code.
    Started(i32),
    /// Exposure and gain were brought to the sensor.
    Applied,
    /// A frame came.
    Frame { width: usize, height: usize, pixels: Seq<u8> },
    /// A frame, or the memory for the sums, was not to be had.
    Missing,
    /// The frame was given back.
    GivenBack,
    /// There is memory for the sums.
    Memory,
    /// The memory for the sums was freed.
    Freed,
    /// The image was encoded, or could not be.
    Encoded(Option<Seq<u8>>),
}

impl StackRun {
    /// Whether the two captures have the same parameters.
    pub open spec fn same_params(self, other: StackRun) -> bool {
        &&& self.n_frames == other.n_frames
        &&& self.framesize == other.framesize
        &&& self.quality == other.quality
        &&& self.exposure == other.exposure
        &&& self.gain == other.gain
    }

    /// The number of frames is not 0, the counts stay within their bounds, and the size of the
    /// sums is a number of the machine.
    pub open spec fn wf(self) -> bool {
        &&& self.n_frames > 0
        &&& (match self.phase {
            StackPhase::Draining { left, .. } => left > 0,
            StackPhase::Sized { px_len, .. } => px_len * 4 <= usize::MAX,
            StackPhase::Allocating { px_len, .. } => px_len * 4 <= usize::MAX,
            StackPhase::Adding { taken, .. } => taken < self.n_frames,
            StackPhase::Added { taken, .. } => taken <= self.n_frames,
            _ => true,
        })
    }

    /// How many frames the capture has taken and not given back.
    pub open spec fn frames_held(self) -> int {
        match self.phase {
            StackPhase::Draining { held, .. } => if held {
                1
            } else {
                0
            },
            StackPhase::Sized { .. } => 1,
            StackPhase::Added { .. } => 1,
            _ => 0,
        }
    }

    /// How often the capture has got memory for the sums and not freed it.
    pub open spec fn sums_held(self) -> int {
        match self.phase {
            StackPhase::Adding { .. } => 1,
            StackPhase::Added { .. } => 1,
            StackPhase::Freeing(_) => 1,
            _ => 0,
        }
    }

    /// Whether the camera was last started for JPEG images, rather than for stacking.
    pub open spec fn in_jpeg_mode(self) -> bool {
        match self.phase {
            StackPhase::Undoing(_) => true,
            StackPhase::GivingUp => true,
            StackPhase::Restoring(_) => true,
            StackPhase::Over { restored } => restored,
            _ => false,
        }
    }

    /// Whether an action starts the camera as the capture then takes it to be: every start is for
    /// the mode that the capture is in, and without a start the mode stays. An image is returned
    /// in JPEG mode alone.
    pub open spec fn keeps_track(self, after: StackRun, action: StackAction) -> bool {
        match action {
            StackAction::Reconfigure(steps) => {
                &&& steps.len() > 0
                &&& steps@.last() == CameraStep::Init(
                    if after.in_jpeg_mode() {
                        jpeg_mode(self.framesize, self.quality)
                    } else {
                        grayscale_mode(self.framesize, self.quality)
                    },
                )
            },
            StackAction::Finish(result) => {
                &&& after.in_jpeg_mode() == self.in_jpeg_mode()
                &&& after.phase is Over
                &&& result is Ok ==> after.in_jpeg_mode()
            },
            _ => after.in_jpeg_mode() == self.in_jpeg_mode(),
        }
    }

    /// Whether the capture goes on throwing frames away, or to the first frame that counts, where
    /// one of `left` frames is done with.
    pub open spec fn one_drained(left: u32, after: StackRun, action: StackAction) -> bool {
        &&& action is Grab
        &&& after.phase == (if left > 1 {
            StackPhase::Draining { left: (left - 1) as u32, held: false }
        } else {
            StackPhase::Sizing
        })
    }

    /// Whether the capture is over, for a reason, with the camera left set up for stacking or
    /// not.
    pub open spec fn failed(
        error: CameraError,
        restored: bool,
        after: StackRun,
        action: StackAction,
    ) -> bool {
        &&& after.phase == (StackPhase::Over { restored })
        &&& action == StackAction::Finish(Err(error))
    }

    /// Where the capture stands after an answer, and what it asks for next.
    pub open spec fn follows(self, answer: StackAnswer, after: StackRun, action: StackAction) -> bool {
        &&& after.same_params(self)
        &&& match (self.phase, answer) {
            (StackPhase::Switching, StackAnswer::Started(ret)) => if ret == ESP_OK {
                &&& after.phase is Applying
                &&& action == (StackAction::ApplySensor {
                    exposure: self.exposure,
                    gain: self.gain,
                })
            } else {
                &&& after.phase == StackPhase::Undoing(ret)
                &&& action matches StackAction::Reconfigure(steps)
                &&& steps@ == restart_steps(SWITCH_MS, jpeg_mode(self.framesize, self.quality))
            },
            (StackPhase::Undoing(code), StackAnswer::Started(_)) => StackRun::failed(
                CameraError::GrayscaleFailed(code),
                true,
                after,
                action,
            ),
            (StackPhase::Applying, StackAnswer::Applied) => {
                &&& after.phase == (StackPhase::Draining { left: DRAIN_FRAMES, held: false })
                &&& action is Grab
            },
            (StackPhase::Draining { left, held }, StackAnswer::Frame { .. }) => {
                &&& !held
                &&& after.phase == (StackPhase::Draining { left, held: true })
                &&& action is GiveBack
            },
            (StackPhase::Draining { left, held }, StackAnswer::Missing) => !held
                && StackRun::one_drained(left, after, action),
            (StackPhase::Draining { left, held }, StackAnswer::GivenBack) => held
                && StackRun::one_drained(left, after, action),
            (StackPhase::Sizing, StackAnswer::Frame { width, height, pixels }) => {
                &&& after.phase == (StackPhase::Sized {
                    width,
                    height,
                    px_len: pixels.len() as usize,
                })
                &&& action is GiveBack
            },
            (StackPhase::Sizing, StackAnswer::Missing) => StackRun::failed(
                CameraError::NoFirstFrame,
                false,
                after,
                action,
            ),
            (StackPhase::Sized { width, height, px_len }, StackAnswer::GivenBack) => {
                &&& after.phase == (StackPhase::Allocating { width, height, px_len })
                &&& action == (StackAction::Allocate { bytes: (px_len * 4) as usize })
            },
            (StackPhase::Allocating { width, height, .. }, StackAnswer::Memory) => {
                &&& after.phase == (StackPhase::Adding { width, height, taken: 0 })
                &&& action is Grab
            },
            (StackPhase::Allocating { px_len, .. }, StackAnswer::Missing) => StackRun::failed(
                CameraError::AllocFailed((px_len * 4) as usize),
                false,
                after,
                action,
            ),
            (StackPhase::Adding { width, height, taken }, StackAnswer::Frame { .. }) => {
                &&& after.phase == (StackPhase::Added { width, height, taken: (taken + 1) as u32 })
                &&& action is GiveBack
            },
            (StackPhase::Adding { taken, .. }, StackAnswer::Missing) => {
                &&& after.phase == StackPhase::Freeing(
                    StackEnd::Failed(CameraError::NoStackFrame(taken)),
                )
                &&& action is Free
            },
            (StackPhase::Added { width, height, taken }, StackAnswer::GivenBack) => if taken
                < self.n_frames {
                &&& after.phase == (StackPhase::Adding { width, height, taken })
                &&& action is Grab
            } else {
                &&& after.phase matches StackPhase::Freeing(
                    StackEnd::Image { gray, width: w, height: h },
                )
                &&& w == width
                &&& h == height
                &&& action is Free
            },
            (
                StackPhase::Freeing(StackEnd::Image { gray, width, height }),
                StackAnswer::Freed,
            ) => {
                &&& after.phase is Encoding
                &&& action == (StackAction::Encode {
                    gray,
                    width: width as u16,
                    height: height as u16,
                    quality: self.quality,
                })
            },
            (StackPhase::Freeing(StackEnd::Failed(error)), StackAnswer::Freed) => StackRun::failed(
                error,
                false,
                after,
                action,
            ),
            (StackPhase::Encoding, StackAnswer::Encoded(encoded)) => if encoded matches Some(jpeg)
                && jpeg.len() > 0 {
                &&& after.phase matches StackPhase::Restoring(kept)
                &&& encoded == Some(kept@)
                &&& action matches StackAction::Reconfigure(steps)
                &&& steps@ == restart_steps(SWITCH_MS, jpeg_mode(self.framesize, self.quality))
            } else {
                &&& after.phase is GivingUp
                &&& action matches StackAction::Reconfigure(steps)
                &&& steps@ == seq![
                    CameraStep::Deinit,
                    CameraStep::Init(jpeg_mode(self.framesize, self.quality)),
                ]
            },
            (StackPhase::GivingUp, StackAnswer::Started(_)) => StackRun::failed(
                CameraError::EncodingFailed,
                true,
                after,
                action,
            ),
            (StackPhase::Restoring(jpeg), StackAnswer::Started(_)) => {
                &&& after.phase == (StackPhase::Over { restored: true })
                &&& action == StackAction::Finish(Ok(jpeg))
            },
            _ => false,
        }
    }

    /// What becomes of the sums: they start from 0, a frame that counts is added to them, and the
    /// image is made of them.
    pub open spec fn sums_follow(
        self,
        sums: Seq<u32>,
        answer: StackAnswer,
        after: StackRun,
        new_sums: Seq<u32>,
    ) -> bool {
        match (self.phase, answer) {
            (StackPhase::Allocating { px_len, .. }, StackAnswer::Memory) => new_sums == Seq::new(
                px_len as nat,
                |j: int| 0u32,
            ),
            (StackPhase::Adding { .. }, StackAnswer::Frame { pixels, .. }) => new_sums
                == accumulated(sums, pixels),
            (StackPhase::Added { .. }, StackAnswer::GivenBack) => {
                &&& new_sums == sums
                &&& after.phase matches StackPhase::Freeing(StackEnd::Image { gray, .. })
                    ==> gray@ == normalised(sums, self.n_frames)
            },
            _ => new_sums == sums,
        }
    }

    fn with_phase(self, phase: StackPhase) -> (r: StackRun)
        ensures
            r.same_params(self),
            r.phase == phase,
    {
        StackRun {
            n_frames: self.n_frames,
            framesize: self.framesize,
            quality: self.quality,
            exposure: self.exposure,
            gain: self.gain,
            phase,
        }
    }

    /// The camera was started, with that return code.
    pub fn on_init(self, ret: i32) -> (r: (StackRun, StackAction))
        requires
            self.wf(),
            self.phase is Switching || self.phase is Undoing || self.phase is GivingUp
                || self.phase is Restoring,
        ensures
            r.0.wf(),
            self.follows(StackAnswer::Started(ret), r.0, r.1),
    {
        let StackRun { n_frames, framesize, quality, exposure, gain, phase } = self;
        let (phase, action) = match phase {
            StackPhase::Switching => if ret == ESP_OK {
                (StackPhase::Applying, StackAction::ApplySensor { exposure, gain })
            } else {
                (
                    StackPhase::Undoing(ret),
                    StackAction::Reconfigure(restart(SWITCH_MS, jpeg_config(framesize, quality))),
                )
            },
            StackPhase::Undoing(code) => (
                StackPhase::Over { restored: true },
                StackAction::Finish(Err(CameraError::GrayscaleFailed(code))),
            ),
            StackPhase::Restoring(jpeg) => (
                StackPhase::Over { restored: true },
                StackAction::Finish(Ok(jpeg)),
            ),
            _ => (
                StackPhase::Over { restored: true },
                StackAction::Finish(Err(CameraError::EncodingFailed)),
            ),
        };
        (StackRun { n_frames, framesize, quality, exposure, gain, phase }, action)
    }

    /// Exposure and gain were brought to the sensor.
    pub fn on_applied(self) -> (r: (StackRun, StackAction))
        requires
            self.wf(),
            self.phase is Applying,
        ensures
            r.0.wf(),
            self.follows(StackAnswer::Applied, r.0, r.1),
    {
        (
            self.with_phase(StackPhase::Draining { left: DRAIN_FRAMES, held: false }),
            StackAction::Grab,
        )
    }

    fn drained(self, left: u32) -> (r: (StackRun, StackAction))
        requires
            self.n_frames > 0,
            left > 0,
        ensures
            r.0.wf(),
            r.0.same_params(self),
            StackRun::one_drained(left, r.0, r.1),
    {
        let phase = if left > 1 {
            StackPhase::Draining { left: left - 1, held: false }
        } else {
            StackPhase::Sizing
        };
        (self.with_phase(phase), StackAction::Grab)
    }

    /// A frame came, and is held until it is given back. It is thrown away, or measured, or added
    /// to the sums, as the capture stands. The sums are left alone in the first two cases.
    pub fn on_frame(self, sums: &mut [u32], width: usize, height: usize, pixels: &[u8]) -> (r: (
        StackRun,
        StackAction,
    ))
        requires
            self.wf(),
            (self.phase matches StackPhase::Draining { held, .. } && !held) || self.phase is Sizing
                || self.phase is Adding,
            self.phase is Sizing ==> pixels@.len() * 4 <= usize::MAX,
        ensures
            r.0.wf(),
            self.follows(StackAnswer::Frame { width, height, pixels: pixels@ }, r.0, r.1),
            self.sums_follow(
                old(sums)@,
                StackAnswer::Frame { width, height, pixels: pixels@ },
                r.0,
                final(sums)@,
            ),
    {
        let phase = match self.phase {
            StackPhase::Draining { left, .. } => StackPhase::Draining { left, held: true },
            StackPhase::Adding { width, height, taken } => {
                accumulate(sums, pixels);
                StackPhase::Added { width, height, taken: taken + 1 }
            },
            _ => StackPhase::Sized { width, height, px_len: pixels.len() },
        };
        (self.with_phase(phase), StackAction::GiveBack)
    }

    /// The frame was given back. After the last frame that counts, the image is made of the sums;
    /// before, the sums are not looked at.
    pub fn on_given_back(self, sums: &[u32]) -> (r: (StackRun, StackAction))
        requires
            self.wf(),
            (self.phase matches StackPhase::Draining { held, .. } && held) || self.phase is Sized
                || self.phase is Added,
        ensures
            r.0.wf(),
            self.follows(StackAnswer::GivenBack, r.0, r.1),
            self.sums_follow(sums@, StackAnswer::GivenBack, r.0, sums@),
    {
        match self.phase {
            StackPhase::Draining { left, .. } => self.drained(left),
            StackPhase::Sized { width, height, px_len } => (
                self.with_phase(StackPhase::Allocating { width, height, px_len }),
                StackAction::Allocate { bytes: px_len * 4 },
            ),
            StackPhase::Added { width, height, taken } => if taken < self.n_frames {
                (
                    self.with_phase(StackPhase::Adding { width, height, taken }),
                    StackAction::Grab,
                )
            } else {
                let gray = normalise(sums, self.n_frames);
                (
                    self.with_phase(
                        StackPhase::Freeing(StackEnd::Image { gray, width, height }),
                    ),
                    StackAction::Free,
                )
            },
            _ => (self, StackAction::GiveBack),
        }
    }

    /// There is memory for the sums, one for each pixel.
    pub fn on_allocated(self, sums: &mut [u32]) -> (r: (StackRun, StackAction))
        requires
            self.wf(),
            self.phase matches StackPhase::Allocating { px_len, .. } && old(sums)@.len() == px_len,
        ensures
            r.0.wf(),
            self.follows(StackAnswer::Memory, r.0, r.1),
            self.sums_follow(old(sums)@, StackAnswer::Memory, r.0, final(sums)@),
    {
        clear(sums);
        let (width, height) = match self.phase {
            StackPhase::Allocating { width, height, .. } => (width, height),
            _ => (0, 0),
        };
        (self.with_phase(StackPhase::Adding { width, height, taken: 0 }), StackAction::Grab)
    }

    /// A frame, or the memory for the sums, was not to be had. While frames are thrown away that
    /// is as good as a frame; later it ends the capture, and the camera stays set up for
    /// stacking.
    pub fn on_missing(self) -> (r: (StackRun, StackAction))
        requires
            self.wf(),
            (self.phase matches StackPhase::Draining { held, .. } && !held) || self.phase is Sizing
                || self.phase is Allocating || self.phase is Adding,
        ensures
            r.0.wf(),
            self.follows(StackAnswer::Missing, r.0, r.1),
    {
        match self.phase {
            StackPhase::Draining { left, .. } => self.drained(left),
            StackPhase::Allocating { px_len, .. } => (
                self.with_phase(StackPhase::Over { restored: false }),
                StackAction::Finish(Err(CameraError::AllocFailed(px_len * 4))),
            ),
            StackPhase::Adding { taken, .. } => (
                self.with_phase(
                    StackPhase::Freeing(StackEnd::Failed(CameraError::NoStackFrame(taken))),
                ),
                StackAction::Free,
            ),
            _ => (
                self.with_phase(StackPhase::Over { restored: false }),
                StackAction::Finish(Err(CameraError::NoFirstFrame)),
            ),
        }
    }

    /// The memory for the sums was freed.
    pub fn on_freed(self) -> (r: (StackRun, StackAction))
        requires
            self.wf(),
            self.phase is Freeing,
        ensures
            r.0.wf(),
            self.follows(StackAnswer::Freed, r.0, r.1),
    {
        let StackRun { n_frames, framesize, quality, exposure, gain, phase } = self;
        let (phase, action) = match phase {
            StackPhase::Freeing(StackEnd::Image { gray, width, height }) => (
                StackPhase::Encoding,
                StackAction::Encode { gray, width: width as u16, height: height as u16, quality },
            ),
            StackPhase::Freeing(StackEnd::Failed(error)) => (
                StackPhase::Over { restored: false },
                StackAction::Finish(Err(error)),
            ),
            phase => (phase, StackAction::Free),
        };
        (StackRun { n_frames, framesize, quality, exposure, gain, phase }, action)
    }

    /// The image was encoded, or could not be. An encoding without a byte counts as none.
    pub fn on_encoded(self, jpeg: Option<Vec<u8>>) -> (r: (StackRun, StackAction))
        requires
            self.wf(),
            self.phase is Encoding,
        ensures
            r.0.wf(),
            self.follows(
                StackAnswer::Encoded(
                    match jpeg {
                        Some(jpeg) => Some(jpeg@),
                        None => None,
                    },
                ),
                r.0,
                r.1,
            ),
    {
        let config = jpeg_config(self.framesize, self.quality);
        if let Some(jpeg) = jpeg {
            if jpeg.len() > 0 {
                return (
                    self.with_phase(StackPhase::Restoring(jpeg)),
                    StackAction::Reconfigure(restart(SWITCH_MS, config)),
                );
            }
        }
        let mut steps: Vec<CameraStep> = Vec::new();
        steps.push(CameraStep::Deinit);
        steps.push(CameraStep::Init(config));
        proof {
            assert(steps@ =~= seq![CameraStep::Deinit, CameraStep::Init(config)]);
        }
        (self.with_phase(StackPhase::GivingUp), StackAction::Reconfigure(steps))
    }
}

/// Starts a capture that stacks `n_frames` frames: the camera is started anew, for frames of one
/// byte per pixel.
pub fn capture_stacked_jpeg(
    n_frames: u32,
    framesize: u8,
    quality: u8,
    exposure: i32,
    gain: i32,
) -> (r: (StackRun, StackAction))
    requires
        n_frames > 0,
    ensures
        r.0.wf(),
        r.0 == (StackRun {
            n_frames,
            framesize,
            quality,
            exposure,
            gain,
            phase: StackPhase::Switching,
        }),
        r.1 matches StackAction::Reconfigure(steps) && steps@ == restart_steps(
            SWITCH_MS,
            grayscale_mode(framesize, quality),
        ),
{
    (
        StackRun { n_frames, framesize, quality, exposure, gain, phase: StackPhase::Switching },
        StackAction::Reconfigure(restart(SWITCH_MS, grayscale_config(framesize, quality))),
    )
}

/// The sums over a sequence of frames, from 0 on.
pub open spec fn sums_over(frames: Seq<Seq<u8>>, px_len: nat) -> Seq<u32>
    decreases frames.len(),
{
    if frames.len() == 0 {
        Seq::new(px_len, |j: int| 0u32)
    } else {
        accumulated(sums_over(frames.drop_last(), px_len), frames.last())
    }
}

/// The sum of a pixel over a sequence of frames; a frame without the pixel adds nothing.
pub open spec fn pixel_sum(frames: Seq<Seq<u8>>, j: int) -> int
    decreases frames.len(),
{
    if frames.len() == 0 {
        0
    } else {
        pixel_sum(frames.drop_last(), j) + (if j < frames.last().len() {
            frames.last()[j] as int
        } else {
            0
        })
    }
}

proof fn lemma_sums(frames: Seq<Seq<u8>>, px_len: nat, j: int)
    requires
        0 <= j < px_len,
    ensures
        sums_over(frames, px_len).len() == px_len,
        0 <= pixel_sum(frames, j) <= 255 * frames.len(),
        sums_over(frames, px_len)[j] == (if pixel_sum(frames, j) > u32::MAX {
            u32::MAX as int
        } else {
            pixel_sum(frames, j)
        }),
    decreases frames.len(),
{
    if frames.len() > 0 {
        lemma_sums(frames.drop_last(), px_len, j);
    }
}

/// A stacked image has the mean brightness of its frames in every pixel, rounded down, as long
/// as the sum fits in 32 bits.
pub proof fn law_stack_is_mean(frames: Seq<Seq<u8>>, px_len: nat, j: int)
    requires
        0 < frames.len() <= u32::MAX,
        0 <= j < px_len,
        pixel_sum(frames, j) <= u32::MAX,
    ensures
        normalised(sums_over(frames, px_len), frames.len() as u32).len() == px_len,
        normalised(sums_over(frames, px_len), frames.len() as u32)[j] == pixel_sum(frames, j)
            / frames.len() as int,
{
    lemma_sums(frames, px_len, j);
    let n = frames.len() as int;
    let sum = pixel_sum(frames, j);
    assert(sum / n <= 255) by (nonlinear_arith)
        requires
            0 <= sum <= 255 * n,
            n > 0,
    ;
}

proof fn lemma_same_frames(frame: Seq<u8>, n: nat, j: int)
    requires
        0 <= j < frame.len(),
    ensures
        pixel_sum(Seq::new(n, |i: int| frame), j) == n * frame[j],
    decreases n,
{
    let frames = Seq::new(n, |i: int| frame);
    if n > 0 {
        let fewer = (n - 1) as nat;
        lemma_same_frames(frame, fewer, j);
        assert(frames.drop_last() =~= Seq::new(fewer, |i: int| frame));
        assert(n * frame[j] == fewer * frame[j] + frame[j]) by (nonlinear_arith)
            requires
                n == fewer + 1,
        ;
    } else {
        assert(n * frame[j] == 0) by (nonlinear_arith)
            requires
                n == 0,
        ;
    }
}

/// Stacking frames that are all alike gives that frame, up to the number of frames at which the
/// sums could run over.
pub proof fn law_stack_of_equal_frames(frame: Seq<u8>, n: u32)
    requires
        0 < n,
        n * 255 <= u32::MAX,
    ensures
        normalised(sums_over(Seq::new(n as nat, |i: int| frame), frame.len()), n) == frame,
{
    let frames = Seq::new(n as nat, |i: int| frame);
    let image = normalised(sums_over(frames, frame.len()), n);
    assert(image.len() == frame.len()) by {
        if frame.len() > 0 {
            lemma_sums(frames, frame.len(), 0);
        } else {
            assert(sums_over(frames, frame.len()).len() == 0) by {
                lemma_sums_len(frames, frame.len());
            }
        }
    }
    assert forall|j: int| 0 <= j < frame.len() implies image[j] == frame[j] by {
        lemma_same_frames(frame, n as nat, j);
        assert(n * frame[j] <= n * 255) by (nonlinear_arith)
            requires
                frame[j] <= 255,
                n > 0,
        ;
        law_stack_is_mean(frames, frame.len(), j);
        assert((n * frame[j]) / (n as int) == frame[j]) by (nonlinear_arith)
            requires
                n > 0,
        ;
    }
    assert(image =~= frame);
}

proof fn lemma_sums_len(frames: Seq<Seq<u8>>, px_len: nat)
    ensures
        sums_over(frames, px_len).len() == px_len,
    decreases frames.len(),
{
    if frames.len() > 0 {
        lemma_sums_len(frames.drop_last(), px_len);
    }
}

/// The course of a stacked capture: where it stands and what the sums are before each answer and
/// after the last, the answers, and what it asks for after each.
pub struct StackTrace {
    pub runs: Seq<StackRun>,
    pub sums: Seq<Seq<u32>>,
    pub answers: Seq<StackAnswer>,
    pub actions: Seq<StackAction>,
}

impl StackTrace {
    /// Whether the step behind the answer `i` is as it has to be.
    pub open spec fn step_follows(self, i: int) -> bool {
        &&& self.runs[i].follows(self.answers[i], self.runs[i + 1], self.actions[i])
        &&& self.runs[i].sums_follow(
            self.sums[i],
            self.answers[i],
            self.runs[i + 1],
            self.sums[i + 1],
        )
    }

    /// Whether a capture can take this course from its start.
    pub open spec fn is_course(self) -> bool {
        &&& self.runs.len() == self.answers.len() + 1
        &&& self.sums.len() == self.answers.len() + 1
        &&& self.actions.len() == self.answers.len()
        &&& self.runs[0].phase is Switching
        &&& self.runs[0].n_frames > 0
        &&& forall|i: int| 0 <= i < self.answers.len() ==> #[trigger] self.step_follows(i)
    }

    /// The frames that were added up in the first `k` answers.
    pub open spec fn added(self, k: int) -> Seq<Seq<u8>>
        decreases k,
    {
        if k <= 0 {
            Seq::empty()
        } else if self.runs[k - 1].phase is Adding && self.answers[k - 1] is Frame {
            self.added(k - 1).push(self.answers[k - 1]->pixels)
        } else {
            self.added(k - 1)
        }
    }

    /// Whether nothing was missing in the first `k` answers but frames to throw away.
    pub open spec fn nothing_missing(self, k: int) -> bool {
        forall|i: int|
            0 <= i < k && (#[trigger] self.answers[i]) is Missing ==> self.runs[i].phase is Draining
    }
}

/// What was got and what was given back.
pub struct Ledger {
    pub frames: int,
    pub given_back: int,
    pub memories: int,
    pub freed: int,
}

/// What was got and what was given back in a sequence of answers.
pub open spec fn ledger(answers: Seq<StackAnswer>) -> Ledger
    decreases answers.len(),
{
    if answers.len() == 0 {
        Ledger { frames: 0, given_back: 0, memories: 0, freed: 0 }
    } else {
        let before = ledger(answers.drop_last());
        match answers.last() {
            StackAnswer::Frame { .. } => Ledger { frames: before.frames + 1, ..before },
            StackAnswer::GivenBack => Ledger { given_back: before.given_back + 1, ..before },
            StackAnswer::Memory => Ledger { memories: before.memories + 1, ..before },
            StackAnswer::Freed => Ledger { freed: before.freed + 1, ..before },
            _ => before,
        }
    }
}

/// Whether the capture has not come to look for memory yet.
pub open spec fn before_memory(phase: StackPhase) -> bool {
    match phase {
        StackPhase::Switching => true,
        StackPhase::Applying => true,
        StackPhase::Draining { .. } => true,
        StackPhase::Sizing => true,
        StackPhase::Sized { .. } => true,
        StackPhase::Allocating { .. } => true,
        _ => false,
    }
}

proof fn lemma_ledger(t: StackTrace, k: int)
    requires
        t.is_course(),
        0 <= k <= t.answers.len(),
    ensures
        ({
            let l = ledger(t.answers.take(k));
            &&& l.frames - l.given_back == t.runs[k].frames_held()
            &&& l.memories - l.freed == t.runs[k].sums_held()
            &&& l.memories <= 1
            &&& before_memory(t.runs[k].phase) ==> l.memories == 0
        }),
    decreases k,
{
    if k > 0 {
        lemma_ledger(t, k - 1);
        assert(t.step_follows(k - 1));
        assert(t.answers.take(k).drop_last() =~= t.answers.take(k - 1));
        assert(t.answers.take(k).last() == t.answers[k - 1]);
    } else {
        assert(t.answers.take(0).len() == 0);
    }
}

/// However a stacked capture ends, every frame that it took was given back, once each, and the
/// memory for the sums, if it got any, was freed exactly once.
pub proof fn law_everything_is_given_back(t: StackTrace)
    requires
        t.is_course(),
        t.actions.len() > 0,
        t.actions.last() is Finish,
    ensures
        ledger(t.answers).frames == ledger(t.answers).given_back,
        ledger(t.answers).memories == ledger(t.answers).freed,
        ledger(t.answers).memories <= 1,
{
    let n = t.answers.len() as int;
    lemma_ledger(t, n);
    assert(t.step_follows(n - 1));
    assert(t.answers.take(n) =~= t.answers);
}

/// A stacked capture asks to take a frame while it holds none, to give one back while it holds
/// one, for memory while it has none, and to free memory while it has some. It holds neither
/// while the camera is started or an image is encoded, nor at the end.
pub proof fn law_actions_fit_what_is_held(
    run: StackRun,
    answer: StackAnswer,
    after: StackRun,
    action: StackAction,
)
    requires
        run.follows(answer, after, action),
    ensures
        action is Grab ==> after.frames_held() == 0,
        action is GiveBack ==> after.frames_held() == 1,
        action is Allocate ==> after.frames_held() == 0 && after.sums_held() == 0,
        action is Free ==> after.frames_held() == 0 && after.sums_held() == 1,
        action is Reconfigure || action is Encode || action is Finish ==> after.frames_held() == 0
            && after.sums_held() == 0,
{
}

/// Every start of the camera is for the mode that the capture takes it to be in, and an image is
/// returned in JPEG mode alone.
pub proof fn law_mode_is_tracked(
    run: StackRun,
    answer: StackAnswer,
    after: StackRun,
    action: StackAction,
)
    requires
        run.follows(answer, after, action),
    ensures
        run.keeps_track(after, action),
{
}

proof fn lemma_frames_so_far(t: StackTrace, k: int)
    requires
        t.is_course(),
        0 <= k <= t.answers.len(),
    ensures
        t.runs[k].n_frames == t.runs[0].n_frames,
        (match t.runs[k].phase {
            StackPhase::Adding { taken, .. } => {
                &&& t.added(k).len() == taken < t.runs[k].n_frames
                &&& t.sums[k] == sums_over(t.added(k), t.sums[k].len())
                &&& t.nothing_missing(k)
            },
            StackPhase::Added { taken, .. } => {
                &&& t.added(k).len() == taken <= t.runs[k].n_frames
                &&& t.sums[k] == sums_over(t.added(k), t.sums[k].len())
                &&& t.nothing_missing(k)
            },
            StackPhase::Freeing(StackEnd::Image { gray, .. }) => {
                &&& t.added(k).len() == t.runs[k].n_frames
                &&& gray@ == normalised(sums_over(t.added(k), gray@.len()), t.runs[k].n_frames)
                &&& t.nothing_missing(k)
            },
            StackPhase::Freeing(StackEnd::Failed(_)) => true,
            StackPhase::Encoding | StackPhase::GivingUp | StackPhase::Restoring(_) => {
                &&& t.added(k).len() == t.runs[k].n_frames
                &&& t.nothing_missing(k)
            },
            StackPhase::Undoing(_) | StackPhase::Over { .. } => true,
            _ => t.added(k).len() == 0 && t.nothing_missing(k),
        }),
    decreases k,
{
    if k > 0 {
        let i = k - 1;
        lemma_frames_so_far(t, i);
        assert(t.step_follows(i));
        if t.nothing_missing(i) && !(t.answers[i] is Missing && !(t.runs[i].phase is Draining)) {
            assert(t.nothing_missing(k));
        }
        if t.runs[i].phase is Adding && t.answers[i] is Frame {
            law_sums_continue(t.added(i), t.sums[i].len(), t.answers[i]->pixels);
        }
    }
}

/// An image is encoded only after as many frames as were asked for were added up, none of them
/// missing, and it is the image that the sums over exactly these frames stand for.
pub proof fn law_image_is_stack_of_frames(t: StackTrace, k: int)
    requires
        t.is_course(),
        0 <= k < t.answers.len(),
        t.actions[k] is Encode,
    ensures
        t.nothing_missing(k),
        t.added(k).len() == t.runs[0].n_frames,
        t.actions[k]->gray@ == normalised(
            sums_over(t.added(k), t.actions[k]->gray@.len()),
            t.runs[0].n_frames,
        ),
{
    lemma_frames_so_far(t, k);
    assert(t.step_follows(k));
}

/// An image is returned only where all frames that were asked for came: a missing frame, but one
/// to throw away, or missing memory ends in an error.
pub proof fn law_no_image_of_fewer_frames(t: StackTrace)
    requires
        t.is_course(),
        t.actions.len() > 0,
        t.actions.last() matches StackAction::Finish(result) && result is Ok,
    ensures
        t.nothing_missing(t.answers.len() as int),
        t.added(t.answers.len() as int).len() == t.runs[0].n_frames,
{
    let last = t.answers.len() - 1;
    lemma_frames_so_far(t, last);
    assert(t.step_follows(last));
}

/// Taking a frame more continues the sums over the frames before.
pub proof fn law_sums_continue(frames: Seq<Seq<u8>>, px_len: nat, frame: Seq<u8>)
    ensures
        accumulated(sums_over(frames, px_len), frame) == sums_over(frames.push(frame), px_len),
{
    assert(frames.push(frame).drop_last() =~= frames);
}

} // verus!
