//! Frame router: validates capture samples and decides, per sample,
//! whether it may be appended to the container writer.
//!
//! The router sits between the capture stream and the writer. It
//! drops samples while paused, rejects invalid or status frames,
//! enforces strictly increasing presentation timestamps by rational
//! comparison, starts the writer session on the first accepted
//! sample, and keeps the frame / dropped / skipped counters.

use vstd::prelude::*;

verus! {

/// A presentation timestamp is the rational `value / timescale`.
/// Both parts must be positive for a video sample to be accepted.
pub open spec fn pts_positive(value: int, timescale: int) -> bool {
    value > 0 && timescale > 0
}

/// `a` is strictly before `b` in rational order, by cross
/// multiplication (both timescales positive).
pub open spec fn pts_before(a_value: int, a_scale: int, b_value: int, b_scale: int) -> bool {
    a_value * b_scale < b_value * a_scale
}

/// Rational order is transitive when all timescales are positive.
pub proof fn lemma_pts_before_transitive(
    av: int, ascale: int, bv: int, bscale: int, cv: int, cscale: int,
)
    requires
        ascale > 0,
        bscale > 0,
        cscale > 0,
        pts_before(av, ascale, bv, bscale),
        pts_before(bv, bscale, cv, cscale),
    ensures
        pts_before(av, ascale, cv, cscale),
{
    assert(av * cscale < cv * ascale) by (nonlinear_arith)
        requires
            ascale > 0,
            bscale > 0,
            cscale > 0,
            av * bscale < bv * ascale,
            bv * cscale < cv * bscale,
    ;
}

/// Metadata of one capture sample, as the delivery hook reads it off
/// the sample buffer. The pixel data itself never enters this crate.
pub struct SampleInfo {
    /// The buffer's validity flag.
    pub valid: bool,
    /// The buffer's data-ready flag.
    pub data_ready: bool,
    /// Whether an image surface is attached. A valid, ready buffer
    /// without one is a status frame and must never reach the writer.
    pub has_image: bool,
    /// Presentation timestamp numerator.
    pub pts_value: i64,
    /// Presentation timestamp timescale.
    pub pts_timescale: i32,
}

impl SampleInfo {
    /// The sample's timestamp is usable: positive value and timescale.
    pub open spec fn pts_ok(self) -> bool {
        pts_positive(self.pts_value as int, self.pts_timescale as int)
    }
}

/// What the router decided for one video sample.
#[derive(PartialEq, Eq, Structural, Clone, Copy, Debug)]
pub enum VideoVerdict {
    /// Recording is paused: silent drop, nothing counted.
    DroppedPaused,
    /// The buffer was invalid or its data not ready: counted drop.
    DroppedInvalid,
    /// Status frame (no image surface): silent drop.
    DroppedStatusFrame,
    /// Non-positive timestamp value or timescale: counted drop.
    DroppedBadTimestamp,
    /// Timestamp not strictly after the last appended one: counted
    /// drop, and the skip counter is incremented.
    DroppedNonMonotonic,
    /// The sample passed every check: the caller must append it and
    /// report the outcome. When `start_session` is set, the caller
    /// must first anchor the writer session at this sample's
    /// timestamp.
    Append { start_session: bool },
}

/// What the router decided for one audio or microphone sample.
#[derive(PartialEq, Eq, Structural, Clone, Copy, Debug)]
pub enum AudioVerdict {
    /// Recording is paused: silent drop.
    DroppedPaused,
    /// No writer input exists for this stream: silent drop.
    NoInput,
    /// The buffer was invalid or its data not ready: silent drop.
    DroppedInvalid,
    /// Append to the audio input if it is ready. When
    /// `start_session` is set, the caller must first anchor the
    /// writer session at this sample's timestamp.
    Append { start_session: bool },
}

/// Per-session routing state. One per recording; the capture stream's
/// serial delivery queue guarantees that calls do not overlap.
pub struct StreamOutput {
    session_started: bool,
    error_logged: bool,
    frame_count: u64,
    dropped_count: u64,
    pts_skip_count: u64,
    /// Timestamp of the last appended video sample; `-1` before the
    /// first append.
    last_pts_value: i64,
    /// Timescale of the last appended video sample; `0` before the
    /// first append.
    last_pts_timescale: i64,
    /// Timestamp at which the writer session was anchored; valid
    /// only once `session_started`.
    session_start_value: i64,
    session_start_timescale: i64,
    /// All video timestamps appended so far, oldest first.
    appended: Ghost<Seq<(int, int)>>,
}

impl StreamOutput {
    /// The ghost history of appended video timestamps.
    pub closed spec fn appended_pts(self) -> Seq<(int, int)> {
        self.appended@
    }

    pub closed spec fn spec_session_started(self) -> bool {
        self.session_started
    }

    pub closed spec fn spec_error_logged(self) -> bool {
        self.error_logged
    }

    pub closed spec fn spec_frame_count(self) -> u64 {
        self.frame_count
    }

    pub closed spec fn spec_dropped_count(self) -> u64 {
        self.dropped_count
    }

    pub closed spec fn spec_pts_skip_count(self) -> u64 {
        self.pts_skip_count
    }

    pub closed spec fn spec_last_pts(self) -> (int, int) {
        (self.last_pts_value as int, self.last_pts_timescale as int)
    }

    /// The timestamp the writer session was anchored at.
    pub closed spec fn session_start_pts(self) -> (int, int) {
        (self.session_start_value as int, self.session_start_timescale as int)
    }

    /// A video sample beats the last appended timestamp (or no video
    /// sample has been appended yet).
    pub open spec fn beats_last(self, s: SampleInfo) -> bool {
        self.appended_pts().len() == 0 || pts_before(
            self.spec_last_pts().0,
            self.spec_last_pts().1,
            s.pts_value as int,
            s.pts_timescale as int,
        )
    }

    /// A video sample passes every check of the router.
    pub open spec fn video_accepts(self, s: SampleInfo) -> bool {
        s.valid && s.data_ready && s.has_image && s.pts_ok() && self.beats_last(s)
    }

    /// Well-formedness: the counters and the ghost history agree, and
    /// the history is strictly increasing in rational order.
    pub closed spec fn wf(self) -> bool {
        let h = self.appended@;
        &&& (h.len() > 0 <==> self.last_pts_value >= 0)
        &&& (h.len() > 0 ==> h.last() == (
            self.last_pts_value as int,
            self.last_pts_timescale as int,
        ))
        &&& (h.len() > 0 ==> self.session_started)
        &&& (forall|i: int| 0 <= i < h.len() ==> pts_positive(#[trigger] h[i].0, h[i].1))
        &&& (forall|i: int|
            0 <= i < h.len() - 1 ==> pts_before(
                #[trigger] h[i].0,
                h[i].1,
                h[i + 1].0,
                h[i + 1].1,
            ))
        &&& self.frame_count == h.len()
    }

    /// A fresh router: no session, zeroed counters, empty history.
    pub fn new() -> (r: StreamOutput)
        ensures
            r.wf(),
            !r.spec_session_started(),
            !r.spec_error_logged(),
            r.spec_frame_count() == 0,
            r.spec_dropped_count() == 0,
            r.spec_pts_skip_count() == 0,
            r.appended_pts().len() == 0,
    {
        StreamOutput {
            session_started: false,
            error_logged: false,
            frame_count: 0,
            dropped_count: 0,
            pts_skip_count: 0,
            last_pts_value: -1,
            last_pts_timescale: 0,
            session_start_value: 0,
            session_start_timescale: 0,
            appended: Ghost(Seq::empty()),
        }
    }

    /// Number of video samples appended so far.
    pub fn frame_count(&self) -> (r: u64)
        ensures
            r == self.spec_frame_count(),
    {
        self.frame_count
    }

    /// Number of video samples dropped with a counted reason.
    pub fn dropped_count(&self) -> (r: u64)
        ensures
            r == self.spec_dropped_count(),
    {
        self.dropped_count
    }

    /// Number of video samples skipped for a non-monotonic timestamp.
    pub fn pts_skip_count(&self) -> (r: u64)
        ensures
            r == self.spec_pts_skip_count(),
    {
        self.pts_skip_count
    }

    /// Whether the writer session has been anchored.
    pub fn session_started(&self) -> (r: bool)
        ensures
            r == self.spec_session_started(),
    {
        self.session_started
    }

    /// The timestamp the writer session was anchored at, once started.
    pub fn session_start(&self) -> (r: (i64, i64))
        ensures
            (r.0 as int, r.1 as int) == self.session_start_pts(),
    {
        (self.session_start_value, self.session_start_timescale)
    }

    /// Full relation between the state before and after `route_video`.
    pub open spec fn route_video_rel(
        pre: StreamOutput,
        paused: bool,
        s: SampleInfo,
        post: StreamOutput,
        v: VideoVerdict,
    ) -> bool {
        &&& post.appended_pts() == pre.appended_pts()
        &&& post.spec_frame_count() == pre.spec_frame_count()
        &&& post.spec_error_logged() == pre.spec_error_logged()
        &&& post.spec_last_pts() == pre.spec_last_pts()
        &&& (v matches VideoVerdict::Append { start_session } ==> {
            &&& !paused && pre.video_accepts(s)
            &&& start_session == !pre.spec_session_started()
            &&& post.spec_session_started()
            &&& (start_session ==> post.session_start_pts() == (
                s.pts_value as int,
                s.pts_timescale as int,
            ))
            &&& (!start_session ==> post.session_start_pts() == pre.session_start_pts())
            &&& post.spec_dropped_count() == pre.spec_dropped_count()
            &&& post.spec_pts_skip_count() == pre.spec_pts_skip_count()
        })
        &&& (!(v matches VideoVerdict::Append { .. }) ==> {
            &&& post.spec_session_started() == pre.spec_session_started()
            &&& post.session_start_pts() == pre.session_start_pts()
        })
        &&& (v == VideoVerdict::DroppedPaused <==> paused)
        &&& (v == VideoVerdict::DroppedPaused ==> post.spec_dropped_count()
            == pre.spec_dropped_count() && post.spec_pts_skip_count() == pre.spec_pts_skip_count())
        &&& (v == VideoVerdict::DroppedInvalid <==> !paused && !(s.valid && s.data_ready))
        &&& (v == VideoVerdict::DroppedInvalid ==> post.spec_dropped_count()
            == pre.spec_dropped_count() + 1 && post.spec_pts_skip_count()
            == pre.spec_pts_skip_count())
        &&& (v == VideoVerdict::DroppedStatusFrame <==> !paused && s.valid && s.data_ready
            && !s.has_image)
        &&& (v == VideoVerdict::DroppedStatusFrame ==> post.spec_dropped_count()
            == pre.spec_dropped_count() && post.spec_pts_skip_count() == pre.spec_pts_skip_count())
        &&& (v == VideoVerdict::DroppedBadTimestamp <==> !paused && s.valid && s.data_ready
            && s.has_image && !s.pts_ok())
        &&& (v == VideoVerdict::DroppedBadTimestamp ==> post.spec_dropped_count()
            == pre.spec_dropped_count() + 1 && post.spec_pts_skip_count()
            == pre.spec_pts_skip_count())
        &&& (v == VideoVerdict::DroppedNonMonotonic <==> !paused && s.valid && s.data_ready
            && s.has_image && s.pts_ok() && !pre.beats_last(s))
        &&& (v == VideoVerdict::DroppedNonMonotonic ==> post.spec_dropped_count()
            == pre.spec_dropped_count() + 1 && post.spec_pts_skip_count()
            == pre.spec_pts_skip_count() + 1)
    }

    /// Route one video sample. Returns the verdict; when it is
    /// `Append`, the caller must attempt the append and report the
    /// outcome through [`Self::append_outcome`].
    pub fn route_video(&mut self, paused: bool, s: &SampleInfo) -> (v: VideoVerdict)
        requires
            old(self).wf(),
            old(self).spec_dropped_count() < u64::MAX,
            old(self).spec_pts_skip_count() < u64::MAX,
        ensures
            final(self).wf(),
            StreamOutput::route_video_rel(*old(self), paused, *s, *final(self), v),
    {
        if paused {
            return VideoVerdict::DroppedPaused;
        }
        if !(s.valid && s.data_ready) {
            self.dropped_count = self.dropped_count + 1;
            return VideoVerdict::DroppedInvalid;
        }
        if !s.has_image {
            return VideoVerdict::DroppedStatusFrame;
        }
        if s.pts_value <= 0 || s.pts_timescale <= 0 {
            self.dropped_count = self.dropped_count + 1;
            return VideoVerdict::DroppedBadTimestamp;
        }
        if self.last_pts_value >= 0 {
            // Strict rational comparison by cross multiplication in a
            // wider type, as the timestamps would overflow i64.
            proof {
                lemma_i64_mul_fits_i128(s.pts_value as int, self.last_pts_timescale as int);
                lemma_i64_mul_fits_i128(self.last_pts_value as int, s.pts_timescale as int);
            }
            let lhs: i128 = (s.pts_value as i128) * (self.last_pts_timescale as i128);
            let rhs: i128 = (self.last_pts_value as i128) * (s.pts_timescale as i128);
            if lhs <= rhs {
                self.pts_skip_count = self.pts_skip_count + 1;
                self.dropped_count = self.dropped_count + 1;
                return VideoVerdict::DroppedNonMonotonic;
            }
        }
        let start_session = !self.session_started;
        if start_session {
            self.session_started = true;
            self.session_start_value = s.pts_value;
            self.session_start_timescale = s.pts_timescale as i64;
        }
        VideoVerdict::Append { start_session }
    }

    /// Full relation between the state before and after
    /// [`Self::append_outcome`].
    pub open spec fn append_outcome_rel(
        pre: StreamOutput,
        s: SampleInfo,
        input_ready: bool,
        append_ok: bool,
        post: StreamOutput,
    ) -> bool {
        &&& post.spec_session_started() == pre.spec_session_started()
        &&& post.session_start_pts() == pre.session_start_pts()
        &&& post.spec_pts_skip_count() == pre.spec_pts_skip_count()
        &&& (input_ready && append_ok ==> {
            &&& post.appended_pts() == pre.appended_pts().push(
                (s.pts_value as int, s.pts_timescale as int),
            )
            &&& post.spec_frame_count() == pre.spec_frame_count() + 1
            &&& post.spec_dropped_count() == pre.spec_dropped_count()
            &&& post.spec_last_pts() == (s.pts_value as int, s.pts_timescale as int)
            &&& post.spec_error_logged() == pre.spec_error_logged()
        })
        &&& (input_ready && !append_ok ==> {
            // The writer failed: count the drop and log the full
            // error once; later failures stay silent.
            &&& post.appended_pts() == pre.appended_pts()
            &&& post.spec_frame_count() == pre.spec_frame_count()
            &&& post.spec_dropped_count() == pre.spec_dropped_count() + 1
            &&& post.spec_last_pts() == pre.spec_last_pts()
            &&& post.spec_error_logged()
        })
        &&& (!input_ready ==> {
            &&& post.appended_pts() == pre.appended_pts()
            &&& post.spec_frame_count() == pre.spec_frame_count()
            &&& post.spec_dropped_count() == pre.spec_dropped_count() + 1
            &&& post.spec_last_pts() == pre.spec_last_pts()
            &&& post.spec_error_logged() == pre.spec_error_logged()
        })
    }

    /// Record the writer's response to an append that
    /// [`Self::route_video`] requested: `input_ready` is whether the
    /// video input accepted more data, `append_ok` whether the append
    /// succeeded.
    pub fn append_outcome(
        &mut self,
        s: &SampleInfo,
        input_ready: bool,
        append_ok: bool,
    ) -> (log_error: bool)
        requires
            old(self).wf(),
            old(self).spec_session_started(),
            old(self).video_accepts(*s),
            old(self).spec_frame_count() < u64::MAX,
            old(self).spec_dropped_count() < u64::MAX,
        ensures
            final(self).wf(),
            StreamOutput::append_outcome_rel(*old(self), *s, input_ready, append_ok, *final(self)),
            // The full writer error is logged exactly on the first failure.
            log_error == (input_ready && !append_ok && !old(self).spec_error_logged()),
    {
        if input_ready {
            if append_ok {
                self.last_pts_value = s.pts_value;
                self.last_pts_timescale = s.pts_timescale as i64;
                self.frame_count = self.frame_count + 1;
                proof {
                    self.appended@ = self.appended@.push(
                        (s.pts_value as int, s.pts_timescale as int),
                    );
                }
                false
            } else {
                self.dropped_count = self.dropped_count + 1;
                let first_failure = !self.error_logged;
                self.error_logged = true;
                first_failure
            }
        } else {
            self.dropped_count = self.dropped_count + 1;
            false
        }
    }

    /// Full relation between the state before and after `route_audio`.
    pub open spec fn route_audio_rel(
        pre: StreamOutput,
        paused: bool,
        has_input: bool,
        s: SampleInfo,
        post: StreamOutput,
        v: AudioVerdict,
    ) -> bool {
        &&& post.appended_pts() == pre.appended_pts()
        &&& post.spec_frame_count() == pre.spec_frame_count()
        &&& post.spec_dropped_count() == pre.spec_dropped_count()
        &&& post.spec_pts_skip_count() == pre.spec_pts_skip_count()
        &&& post.spec_error_logged() == pre.spec_error_logged()
        &&& post.spec_last_pts() == pre.spec_last_pts()
        &&& (v == AudioVerdict::DroppedPaused <==> paused)
        &&& (v == AudioVerdict::NoInput <==> !paused && !has_input)
        &&& (v == AudioVerdict::DroppedInvalid <==> !paused && has_input && !(s.valid
            && s.data_ready))
        &&& (v matches AudioVerdict::Append { start_session } ==> {
            &&& !paused && has_input && s.valid && s.data_ready
            &&& start_session == !pre.spec_session_started()
            &&& post.spec_session_started()
            &&& (start_session ==> post.session_start_pts() == (
                s.pts_value as int,
                s.pts_timescale as int,
            ))
            &&& (!start_session ==> post.session_start_pts() == pre.session_start_pts())
        })
        &&& (!(v matches AudioVerdict::Append { .. }) ==> {
            &&& post.spec_session_started() == pre.spec_session_started()
            &&& post.session_start_pts() == pre.session_start_pts()
        })
        &&& (!paused && has_input && s.valid && s.data_ready ==> v matches AudioVerdict::Append {
            ..
        })
    }

    /// Route one audio or microphone sample to the matching writer
    /// input. Audio appends are best-effort: the caller appends only
    /// if the input is ready, and no counter tracks the outcome.
    pub fn route_audio(
        &mut self,
        paused: bool,
        has_input: bool,
        s: &SampleInfo,
    ) -> (v: AudioVerdict)
        requires
            old(self).wf(),
        ensures
            final(self).wf(),
            StreamOutput::route_audio_rel(*old(self), paused, has_input, *s, *final(self), v),
    {
        if paused {
            return AudioVerdict::DroppedPaused;
        }
        if !has_input {
            return AudioVerdict::NoInput;
        }
        if !(s.valid && s.data_ready) {
            return AudioVerdict::DroppedInvalid;
        }
        let start_session = !self.session_started;
        if start_session {
            self.session_started = true;
            self.session_start_value = s.pts_value;
            self.session_start_timescale = s.pts_timescale as i64;
        }
        AudioVerdict::Append { start_session }
    }

    /// The progress line `"Frames: N | Dropped: D"` is printed after
    /// every sixtieth successful frame.
    pub fn should_log_progress(&self) -> (r: bool)
        ensures
            r == (self.spec_frame_count() % 60 == 0 && self.spec_frame_count() > 0),
    {
        self.frame_count % 60 == 0 && self.frame_count > 0
    }

    /// Non-monotonic skips are logged with decay: the first five, then
    /// every hundredth. `skip_n` is the skip counter before the
    /// increment.
    pub fn should_log_skip(skip_n: u64) -> (r: bool)
        ensures
            r == (skip_n < 5 || skip_n % 100 == 0),
    {
        skip_n < 5 || skip_n % 100 == 0
    }
}

/// The product of two `i64` values fits in `i128`.
proof fn lemma_i64_mul_fits_i128(a: int, b: int)
    requires
        i64::MIN <= a <= i64::MAX,
        i64::MIN <= b <= i64::MAX,
    ensures
        i128::MIN <= a * b <= i128::MAX,
{
    assert(i128::MIN <= a * b <= i128::MAX) by (nonlinear_arith)
        requires
            -0x8000_0000_0000_0000 <= a <= 0x7fff_ffff_ffff_ffff,
            -0x8000_0000_0000_0000 <= b <= 0x7fff_ffff_ffff_ffff,
    ;
}

/// Every appended video timestamp strictly beats every earlier one:
/// the appended sequence is strictly increasing in rational order.
pub proof fn lemma_appended_strictly_increasing(s: StreamOutput, i: int, j: int)
    requires
        s.wf(),
        0 <= i < j < s.appended_pts().len(),
    ensures
        pts_before(
            s.appended_pts()[i].0,
            s.appended_pts()[i].1,
            s.appended_pts()[j].0,
            s.appended_pts()[j].1,
        ),
    decreases j - i,
{
    let h = s.appended_pts();
    if j == i + 1 {
    } else {
        lemma_appended_strictly_increasing(s, i, j - 1);
        lemma_pts_before_transitive(
            h[i].0,
            h[i].1,
            h[j - 1].0,
            h[j - 1].1,
            h[j].0,
            h[j].1,
        );
    }
}

/// Every appended video sample passed validation: its timestamp is
/// positive and strictly after its predecessor's.
pub proof fn lemma_appended_samples_validated(s: StreamOutput, i: int)
    requires
        s.wf(),
        0 <= i < s.appended_pts().len(),
    ensures
        pts_positive(s.appended_pts()[i].0, s.appended_pts()[i].1),
        i > 0 ==> pts_before(
            s.appended_pts()[i - 1].0,
            s.appended_pts()[i - 1].1,
            s.appended_pts()[i].0,
            s.appended_pts()[i].1,
        ),
{
}

/// The writer session is anchored at the timestamp of the first
/// appended sample: when a sample both starts the session and is
/// appended successfully, the anchor equals the head of the history.
pub proof fn lemma_session_anchor_is_first_append(
    pre: StreamOutput,
    paused: bool,
    s: SampleInfo,
    mid: StreamOutput,
    v: VideoVerdict,
    post: StreamOutput,
)
    requires
        pre.wf(),
        !pre.spec_session_started(),
        StreamOutput::route_video_rel(pre, paused, s, mid, v),
        v matches VideoVerdict::Append { .. },
        StreamOutput::append_outcome_rel(mid, s, true, true, post),
    ensures
        post.appended_pts().len() == 1,
        post.session_start_pts() == post.appended_pts()[0],
{
    assert(pre.appended_pts().len() == 0);
}

/// While paused, nothing changes: the sample is dropped silently and
/// the frame count stays constant.
pub proof fn lemma_paused_is_silent(
    pre: StreamOutput,
    s: SampleInfo,
    post: StreamOutput,
    v: VideoVerdict,
)
    requires
        StreamOutput::route_video_rel(pre, true, s, post, v),
    ensures
        v == VideoVerdict::DroppedPaused,
        post.spec_frame_count() == pre.spec_frame_count(),
        post.spec_dropped_count() == pre.spec_dropped_count(),
        post.appended_pts() == pre.appended_pts(),
{
}

/// A status frame (valid and ready, but no image surface) is dropped
/// silently: no counter moves and the history is unchanged.
pub proof fn lemma_status_frame_dropped_silently(
    pre: StreamOutput,
    s: SampleInfo,
    post: StreamOutput,
    v: VideoVerdict,
)
    requires
        s.valid,
        s.data_ready,
        !s.has_image,
        StreamOutput::route_video_rel(pre, false, s, post, v),
    ensures
        v == VideoVerdict::DroppedStatusFrame,
        post.spec_frame_count() == pre.spec_frame_count(),
        post.spec_dropped_count() == pre.spec_dropped_count(),
        post.spec_pts_skip_count() == pre.spec_pts_skip_count(),
        post.appended_pts() == pre.appended_pts(),
{
}

} // verus!
