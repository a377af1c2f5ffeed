//! Laws on stacked captures.

use vstd::prelude::*;

use super::camera::{is_restart, takes_gray, takes_jpeg};
use crate::firmware::camera::{CameraError, CameraStep};
use crate::firmware::stack::{
    accumulate, capture_stacked_jpeg, clear, normalise, StackAction, StackAnswer, StackEnd,
    StackPhase, StackRun, StackTrace,
};

verus! {

/// Each pixel is added to its sum, up to the largest number of 32 bits; sums without a pixel stay.
pub proof fn law_accumulate(sums: &mut [u32], pixels: &[u8], j: int)
    requires
        call_ensures(accumulate, (sums, pixels), ()),
    ensures
        final(sums)@.len() == old(sums)@.len(),
        0 <= j < old(sums)@.len() && j < pixels@.len() ==> final(sums)@[j] == (if old(sums)@[j]
            + pixels@[j] <= 4294967295 {
            old(sums)@[j] + pixels@[j]
        } else {
            4294967295
        }),
        0 <= j < old(sums)@.len() && j >= pixels@.len() ==> final(sums)@[j] == old(sums)@[j],
{
}

/// Cleared sums are 0.
pub proof fn law_clear(sums: &mut [u32], j: int)
    requires
        call_ensures(clear, (sums,), ()),
    ensures
        final(sums)@.len() == old(sums)@.len(),
        0 <= j < old(sums)@.len() ==> final(sums)@[j] == 0,
{
}

/// The brightness of a pixel is the largest from 0 to 255 of which the sum holds as many as there
/// are frames.
pub proof fn law_normalise(sums: &[u32], n: u32, r: Vec<u8>, j: int)
    requires
        call_ensures(normalise, (sums, n), r),
        n > 0,
    ensures
        r@.len() == sums@.len(),
        0 <= j < sums@.len() ==> r@[j] * n <= sums@[j] && (sums@[j] < (r@[j] + 1) * n || r@[j]
            == 255),
{
    if 0 <= j < sums@.len() {
        let s = sums@[j] as int;
        let m = n as int;
        let q = s / m;
        assert(q * m <= s < (q + 1) * m) by (nonlinear_arith)
            requires
                q == s / m,
                m > 0,
                s >= 0,
        ;
        assert(q > 255 ==> 255 * m <= s) by (nonlinear_arith)
            requires
                q * m <= s,
                m > 0,
        ;
        assert(q >= 0) by (nonlinear_arith)
            requires
                q == s / m,
                m > 0,
                s >= 0,
        ;
    }
}

/// A stacked capture starts with what was asked for: the camera is powered down for a second and
/// started for stacking.
pub proof fn law_stacking_starts(
    n_frames: u32,
    framesize: u8,
    quality: u8,
    exposure: i32,
    gain: i32,
    r: (StackRun, StackAction),
)
    requires
        call_ensures(capture_stacked_jpeg, (n_frames, framesize, quality, exposure, gain), r),
    ensures
        r.0.n_frames == n_frames,
        r.0.framesize == framesize,
        r.0.quality == quality,
        r.0.exposure == exposure,
        r.0.gain == gain,
        r.0.phase is Switching,
        r.1 matches StackAction::Reconfigure(steps) && steps@.len() == 4 && (steps@[3] matches
            CameraStep::Init(config) && takes_gray(config, framesize, quality) && is_restart(
            steps@,
            1000,
            config,
        )),
{
}

/// Whether two captures are of the same frames, sizes and settings.
pub open spec fn same_request(a: StackRun, b: StackRun) -> bool {
    &&& a.n_frames == b.n_frames
    &&& a.framesize == b.framesize
    &&& a.quality == b.quality
    &&& a.exposure == b.exposure
    &&& a.gain == b.gain
}

/// Whether an action powers the camera down for a second and starts it for JPEG images.
pub open spec fn restarts_for_jpeg(action: StackAction, run: StackRun) -> bool {
    action matches StackAction::Reconfigure(steps) && steps@.len() == 4 && (steps@[3] matches
        CameraStep::Init(config) && takes_jpeg(config, run.framesize, run.quality) && is_restart(
        steps@,
        1000,
        config,
    ))
}

/// After a start that went well exposure and gain are brought to the sensor as they were asked
/// for; after one that failed the camera is started for JPEG images again, and the code is the
/// reason in the end. Later starts, whatever their code, end the capture: with the image, or
/// without.
pub proof fn law_stack_on_init(run: StackRun, ret: i32, r: (StackRun, StackAction))
    requires
        call_ensures(StackRun::on_init, (run, ret), r),
    ensures
        same_request(r.0, run),
        run.phase is Switching && ret == 0 ==> r.0.phase is Applying && r.1 == (
        StackAction::ApplySensor { exposure: run.exposure, gain: run.gain }),
        run.phase is Switching && ret != 0 ==> r.0.phase == StackPhase::Undoing(ret)
            && restarts_for_jpeg(r.1, run),
        run.phase matches StackPhase::Undoing(code) ==> r.0.phase is Over && r.1
            == StackAction::Finish(Err(CameraError::GrayscaleFailed(code))),
        run.phase is GivingUp ==> r.0.phase is Over && r.1 == StackAction::Finish(
            Err(CameraError::EncodingFailed),
        ),
        run.phase matches StackPhase::Restoring(jpeg) ==> r.0.phase is Over && (
        r.1 matches StackAction::Finish(result) && (result matches Ok(image) && image@ == jpeg@)),
{
}

/// With exposure and gain at the sensor, eight frames are to be thrown away.
pub proof fn law_stack_on_applied(run: StackRun, r: (StackRun, StackAction))
    requires
        call_ensures(StackRun::on_applied, (run,), r),
        run.phase is Applying,
    ensures
        same_request(r.0, run),
        r.0.phase == (StackPhase::Draining { left: 8, held: false }),
        r.1 is Grab,
{
}

/// A frame is given back at once. One to throw away counts for nothing, the first after these
/// gives the size, and a later one is added to the sums and counted.
pub proof fn law_stack_on_frame(
    run: StackRun,
    sums: &mut [u32],
    width: usize,
    height: usize,
    pixels: &[u8],
    r: (StackRun, StackAction),
    added: &mut [u32],
)
    requires
        call_ensures(StackRun::on_frame, (run, sums, width, height, pixels), r),
        run.wf(),
        run.phase is Draining || run.phase is Sizing || run.phase is Adding,
        run.phase is Sizing ==> pixels@.len() * 4 <= usize::MAX,
        old(added)@ == old(sums)@,
        call_ensures(accumulate, (added, pixels), ()),
    ensures
        same_request(r.0, run),
        r.1 is GiveBack,
        run.phase matches StackPhase::Draining { left, .. } ==> r.0.phase == (
        StackPhase::Draining { left, held: true }),
        run.phase is Sizing ==> r.0.phase == (StackPhase::Sized {
            width,
            height,
            px_len: pixels@.len() as usize,
        }),
        run.phase matches StackPhase::Adding { width: w, height: h, taken } ==> r.0.phase == (
        StackPhase::Added { width: w, height: h, taken: (taken + 1) as u32 }) && final(sums)@
            == final(added)@,
        !(run.phase is Adding) ==> final(sums)@ == old(sums)@,
{
}

/// With a frame given back the capture goes on: to the next one to throw away, or the first that
/// counts; to memory of four bytes for each pixel; to the next frame, or after the last to the
/// image of the sums.
pub proof fn law_stack_on_given_back(
    run: StackRun,
    sums: &[u32],
    r: (StackRun, StackAction),
    image: Vec<u8>,
)
    requires
        call_ensures(StackRun::on_given_back, (run, sums), r),
        run.wf(),
        run.phase is Draining || run.phase is Sized || run.phase is Added,
        call_ensures(normalise, (sums, run.n_frames), image),
    ensures
        same_request(r.0, run),
        run.phase matches StackPhase::Draining { left, .. } ==> r.1 is Grab && (left > 1
            ==> r.0.phase == (StackPhase::Draining { left: (left - 1) as u32, held: false })) && (
        left == 1 ==> r.0.phase is Sizing),
        run.phase matches StackPhase::Sized { width, height, px_len } ==> r.0.phase == (
        StackPhase::Allocating { width, height, px_len }) && (
        r.1 matches StackAction::Allocate { bytes } && bytes == px_len * 4),
        run.phase matches StackPhase::Added { width, height, taken } ==> {
            &&& taken < run.n_frames ==> r.1 is Grab && r.0.phase == (StackPhase::Adding {
                width,
                height,
                taken,
            })
            &&& taken == run.n_frames ==> r.1 is Free && (r.0.phase matches StackPhase::Freeing(
                StackEnd::Image { gray, width: w, height: h },
            ) && gray@ == image@ && w == width && h == height)
        },
{
}

/// With memory, the sums start from 0 and the frames that count from none.
pub proof fn law_stack_on_allocated(
    run: StackRun,
    sums: &mut [u32],
    r: (StackRun, StackAction),
    j: int,
)
    requires
        call_ensures(StackRun::on_allocated, (run, sums), r),
        run.phase matches StackPhase::Allocating { px_len, .. } && old(sums)@.len() == px_len,
    ensures
        same_request(r.0, run),
        run.phase matches StackPhase::Allocating { width, height, .. } ==> r.0.phase == (
        StackPhase::Adding { width, height, taken: 0 }),
        r.1 is Grab,
        final(sums)@.len() == old(sums)@.len(),
        0 <= j < final(sums)@.len() ==> final(sums)@[j] == 0,
{
}

/// What is missing ends the capture with an error that says what it was, but for a frame to throw
/// away. With memory in hand, that is freed first.
pub proof fn law_stack_on_missing(run: StackRun, r: (StackRun, StackAction))
    requires
        call_ensures(StackRun::on_missing, (run,), r),
        run.wf(),
    ensures
        same_request(r.0, run),
        run.phase matches StackPhase::Draining { left, .. } ==> r.1 is Grab && (left > 1
            ==> r.0.phase == (StackPhase::Draining { left: (left - 1) as u32, held: false })) && (
        left == 1 ==> r.0.phase is Sizing),
        run.phase is Sizing ==> r.0.phase is Over && r.1 == StackAction::Finish(
            Err(CameraError::NoFirstFrame),
        ),
        run.phase matches StackPhase::Allocating { px_len, .. } ==> r.0.phase is Over && (
        r.1 matches StackAction::Finish(result) && (result matches Err(e) && (
        e matches CameraError::AllocFailed(bytes) && bytes == px_len * 4))),
        run.phase matches StackPhase::Adding { taken, .. } ==> r.1 is Free && r.0.phase
            == StackPhase::Freeing(StackEnd::Failed(CameraError::NoStackFrame(taken))),
{
}

/// With the memory freed, the image is encoded with its size and quality, or the capture ends with
/// its error.
pub proof fn law_stack_on_freed(run: StackRun, r: (StackRun, StackAction))
    requires
        call_ensures(StackRun::on_freed, (run,), r),
    ensures
        same_request(r.0, run),
        run.phase matches StackPhase::Freeing(StackEnd::Image { gray, width, height }) ==> (
        r.1 matches StackAction::Encode { gray: g, width: w, height: h, quality } && g@ == gray@
            && quality == run.quality && (width - w) % 65536 == 0 && (height - h) % 65536 == 0
            && r.0.phase is Encoding),
        run.phase matches StackPhase::Freeing(StackEnd::Failed(e)) ==> r.0.phase is Over && r.1
            == StackAction::Finish(Err(e)),
{
    if run.phase is Freeing {
        match run.phase->Freeing_0 {
            StackEnd::Image { gray, width, height } => {
                assert(width as u16 == width % 65536) by (bit_vector);
                assert(height as u16 == height % 65536) by (bit_vector);
            },
            _ => {},
        }
    }
}

/// An encoded image of a byte at least is kept while the camera is powered down for a second and
/// started for JPEG images; without one the camera is started for them too.
pub proof fn law_stack_on_encoded(
    run: StackRun,
    jpeg: Option<Vec<u8>>,
    r: (StackRun, StackAction),
)
    requires
        call_ensures(StackRun::on_encoded, (run, jpeg), r),
        run.phase is Encoding,
    ensures
        same_request(r.0, run),
        (jpeg is Some && jpeg->0@.len() > 0) <==> r.0.phase is Restoring,
        r.0.phase matches StackPhase::Restoring(kept) ==> kept@ == jpeg->0@ && restarts_for_jpeg(
            r.1,
            run,
        ),
        !(r.0.phase is Restoring) ==> r.0.phase is GivingUp && (
        r.1 matches StackAction::Reconfigure(steps) && steps@.len() == 2 && steps@[0] is Deinit && (
        steps@[1] matches CameraStep::Init(config) && takes_jpeg(
            config,
            run.framesize,
            run.quality,
        ))),
{
}

proof fn lemma_request_stays(t: StackTrace, k: int)
    requires
        t.is_course(),
        0 <= k <= t.answers.len(),
    ensures
        same_request(t.runs[k], t.runs[0]),
    decreases k,
{
    if k > 0 {
        lemma_request_stays(t, k - 1);
        assert(t.step_follows(k - 1));
    }
}

/// Whether exposure and gain were brought to the sensor in the first `k` actions.
pub open spec fn applied(t: StackTrace, k: int) -> bool {
    exists|j: int| 0 <= j < k && (#[trigger] t.actions[j]) is ApplySensor
}

proof fn lemma_applied(t: StackTrace, k: int)
    requires
        t.is_course(),
        0 <= k <= t.answers.len(),
    ensures
        applied(t, k) || t.runs[k].phase is Switching || t.runs[k].phase is Undoing
            || t.runs[k].phase is Over,
        k > 0 ==> (t.actions[k - 1] is Grab ==> applied(t, k - 1)),
    decreases k,
{
    if k > 0 {
        lemma_applied(t, k - 1);
        assert(t.step_follows(k - 1));
        if applied(t, k - 1) {
            let j = choose|j: int| 0 <= j < k - 1 && (#[trigger] t.actions[j]) is ApplySensor;
            assert(t.actions[j] is ApplySensor);
            assert(applied(t, k));
        } else if t.actions[k - 1] is ApplySensor {
            assert(applied(t, k));
        }
    }
}

/// Whatever the course of a stacked capture, exposure and gain go to the sensor as they were asked
/// for, before any frame is taken.
pub proof fn law_stacked_frames_have_settings(t: StackTrace, k: int)
    requires
        t.is_course(),
        0 <= k < t.answers.len(),
    ensures
        t.actions[k] matches StackAction::ApplySensor { exposure, gain } ==> exposure
            == t.runs[0].exposure && gain == t.runs[0].gain,
        t.actions[k] is Grab ==> exists|j: int|
            0 <= j < k && (#[trigger] t.actions[j]) is ApplySensor,
        t.answers[k] is Frame ==> exists|j: int|
            0 <= j < k && (#[trigger] t.actions[j]) is ApplySensor,
{
    lemma_request_stays(t, k);
    lemma_applied(t, k + 1);
    lemma_applied(t, k);
    assert(t.step_follows(k));
}

/// How many frames were thrown away, or missed instead, in the first `k` answers.
pub open spec fn thrown_away(t: StackTrace, k: int) -> int
    decreases k,
{
    if k <= 0 {
        0
    } else {
        thrown_away(t, k - 1) + (if t.runs[k - 1].phase is Draining && (t.answers[k - 1] is Frame
            || t.answers[k - 1] is Missing) {
            1int
        } else {
            0
        })
    }
}

proof fn lemma_thrown_away(t: StackTrace, k: int)
    requires
        t.is_course(),
        0 <= k <= t.answers.len(),
    ensures
        (match t.runs[k].phase {
            StackPhase::Switching | StackPhase::Undoing(_) | StackPhase::Applying => thrown_away(
                t,
                k,
            ) == 0,
            StackPhase::Draining { left, held } => left > 0 && thrown_away(t, k) == 8 - left + (
            if held {
                1int
            } else {
                0
            }),
            StackPhase::Over { .. } => true,
            _ => thrown_away(t, k) == 8,
        }),
    decreases k,
{
    if k > 0 {
        lemma_thrown_away(t, k - 1);
        assert(t.step_follows(k - 1));
    }
}

/// No frame counts before eight were thrown away.
pub proof fn law_eight_frames_are_thrown_away(t: StackTrace, k: int)
    requires
        t.is_course(),
        0 <= k < t.answers.len(),
        t.answers[k] is Frame,
        !(t.runs[k].phase is Draining),
    ensures
        thrown_away(t, k) == 8,
{
    lemma_thrown_away(t, k);
    assert(t.step_follows(k));
}

/// The image that is returned is the one that came from the encoder.
pub proof fn law_returned_image_was_encoded(t: StackTrace)
    requires
        t.is_course(),
        t.answers.len() > 0,
        t.actions.last() matches StackAction::Finish(result) && result is Ok,
    ensures
        exists|i: int|
            0 <= i < t.answers.len() && #[trigger] t.answers[i] == StackAnswer::Encoded(
                Some(t.actions.last()->Finish_0->Ok_0@),
            ),
{
    let n = t.answers.len() as int;
    lemma_kept(t, n - 1);
    assert(t.step_follows(n - 1));
}

proof fn lemma_kept(t: StackTrace, k: int)
    requires
        t.is_course(),
        0 <= k <= t.answers.len(),
    ensures
        t.runs[k].phase matches StackPhase::Restoring(jpeg) ==> exists|i: int|
            0 <= i < k && #[trigger] t.answers[i] == StackAnswer::Encoded(Some(jpeg@)),
    decreases k,
{
    if k > 0 {
        lemma_kept(t, k - 1);
        assert(t.step_follows(k - 1));
        if t.runs[k].phase is Restoring {
            assert(t.answers[k - 1] == StackAnswer::Encoded(
                Some(t.runs[k].phase->Restoring_0@),
            ));
        }
    }
}

} // verus!
