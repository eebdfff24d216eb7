//! Recording life cycle: idle, recording, paused.
//!
//! The coordinator owns one session at a time and tracks the
//! pause-adjusted wall-clock duration. Callers hand in the current
//! time in milliseconds; the reported duration is the elapsed wall
//! time minus everything spent paused.

use vstd::prelude::*;

use crate::settings::RecordingQuality;

verus! {

/// Caller-visible state errors. These are returned, never logged as
/// warnings.
#[derive(Clone, Copy, Debug, PartialEq, Eq, Structural)]
pub enum RecorderError {
    /// `start` while a recording is in progress.
    AlreadyRecording,
    /// `stop`, `pause` or `resume` with no recording in progress.
    NotRecording,
    /// `pause` while already paused.
    AlreadyPaused,
    /// `resume` while not paused.
    NotPaused,
}

impl RecorderError {
    /// A human-readable message for the error.
    pub fn message(&self) -> (r: &'static str)
        ensures
            self is AlreadyRecording ==> r@ == "Recording already in progress"@,
            self is NotRecording ==> r@ == "No recording in progress"@,
            self is AlreadyPaused ==> r@ == "Recording is already paused"@,
            self is NotPaused ==> r@ == "Recording is not paused"@,
    {
        match self {
            RecorderError::AlreadyRecording => "Recording already in progress",
            RecorderError::NotRecording => "No recording in progress",
            RecorderError::AlreadyPaused => "Recording is already paused",
            RecorderError::NotPaused => "Recording is not paused",
        }
    }
}

/// Output container format.
#[derive(Clone, Copy, Debug, PartialEq, Eq, Structural)]
pub enum OutputFormat {
    /// An MP4 file, kept as recorded.
    Video,
    /// Recorded as MP4, then handed to an external transcoder.
    Gif,
}

impl OutputFormat {
    /// Maximum recording duration in milliseconds; zero means
    /// unlimited. The animated-image format carries a 30-second cap.
    pub fn max_duration_ms(&self) -> (r: u64)
        ensures
            self is Video ==> r == 0,
            self is Gif ==> r == 30_000,
    {
        match self {
            OutputFormat::Video => 0,
            OutputFormat::Gif => 30_000,
        }
    }
}

/// Status report handed to the user interface.
#[derive(Debug)]
pub struct RecorderStatus {
    pub is_recording: bool,
    pub is_paused: bool,
    /// Pause-adjusted duration of the current recording, in
    /// milliseconds; zero when idle.
    pub duration_ms: u64,
    pub output_path: Option<String>,
    pub quality: RecordingQuality,
}

/// Result of stopping a recording.
#[derive(Debug)]
pub struct StopInfo {
    pub output_path: String,
    /// Pause-adjusted duration of the whole session in milliseconds.
    pub duration_ms: u64,
    pub output_format: OutputFormat,
}

/// The session coordinator's state machine. All times are
/// milliseconds on one monotonic clock, supplied by the caller and
/// never decreasing between calls.
pub struct Recorder {
    recording: bool,
    paused: bool,
    start_ms: u64,
    pause_accumulated_ms: u64,
    pause_start_ms: u64,
    /// Largest time value seen so far; the clock witness.
    seen_ms: u64,
    output_path: Option<String>,
    quality: RecordingQuality,
    output_format: OutputFormat,
    /// Whether the writer accepted the system-audio track.
    audio_track: bool,
    /// Whether the writer accepted the microphone track.
    mic_track: bool,
}

impl Recorder {
    pub closed spec fn is_recording(self) -> bool {
        self.recording
    }

    pub closed spec fn is_paused(self) -> bool {
        self.paused
    }

    pub closed spec fn spec_start_ms(self) -> u64 {
        self.start_ms
    }

    pub closed spec fn spec_pause_accumulated_ms(self) -> u64 {
        self.pause_accumulated_ms
    }

    pub closed spec fn spec_pause_start_ms(self) -> u64 {
        self.pause_start_ms
    }

    pub closed spec fn spec_seen_ms(self) -> u64 {
        self.seen_ms
    }

    pub closed spec fn spec_output_path(self) -> Option<String> {
        self.output_path
    }

    pub closed spec fn spec_quality(self) -> RecordingQuality {
        self.quality
    }

    pub closed spec fn spec_output_format(self) -> OutputFormat {
        self.output_format
    }

    pub closed spec fn has_audio_track(self) -> bool {
        self.audio_track
    }

    pub closed spec fn has_mic_track(self) -> bool {
        self.mic_track
    }

    /// Well-formedness: the stored instants are ordered, and the
    /// accumulated pause time never exceeds the elapsed time.
    pub open spec fn wf(self) -> bool {
        &&& (self.is_paused() ==> self.is_recording())
        &&& (self.is_recording() ==> {
            &&& self.spec_start_ms() <= self.spec_seen_ms()
            &&& (self.is_paused() ==> self.spec_start_ms() <= self.spec_pause_start_ms()
                <= self.spec_seen_ms())
            &&& (self.is_paused() ==> self.spec_pause_accumulated_ms()
                <= self.spec_pause_start_ms() - self.spec_start_ms())
            &&& (!self.is_paused() ==> self.spec_pause_accumulated_ms() <= self.spec_seen_ms()
                - self.spec_start_ms())
            &&& self.spec_output_path() is Some
        })
    }

    /// Pause-adjusted duration at time `now`: wall-clock elapsed time
    /// minus completed pauses, minus the current pause if one is
    /// running. Zero when idle.
    pub open spec fn spec_duration_ms(self, now: int) -> int {
        if !self.is_recording() {
            0
        } else if self.is_paused() {
            self.spec_pause_start_ms() - self.spec_start_ms() - self.spec_pause_accumulated_ms()
        } else {
            now - self.spec_start_ms() - self.spec_pause_accumulated_ms()
        }
    }

    /// A fresh, idle coordinator.
    pub fn new() -> (r: Recorder)
        ensures
            r.wf(),
            !r.is_recording(),
            !r.is_paused(),
            r.spec_seen_ms() == 0,
            r.spec_quality() == RecordingQuality::Standard,
            r.spec_output_format() == OutputFormat::Video,
            r.spec_output_path() is None,
    {
        Recorder {
            recording: false,
            paused: false,
            start_ms: 0,
            pause_accumulated_ms: 0,
            pause_start_ms: 0,
            seen_ms: 0,
            output_path: None,
            quality: RecordingQuality::Standard,
            output_format: OutputFormat::Video,
            audio_track: false,
            mic_track: false,
        }
    }

    /// Begin a session. `audio_track` and `mic_track` report whether
    /// the writer accepted the respective input at attach time: a
    /// refused track is dropped and the session proceeds without it,
    /// with no error to the caller.
    pub fn start(
        &mut self,
        now_ms: u64,
        output_path: String,
        quality: RecordingQuality,
        output_format: OutputFormat,
        audio_track: bool,
        mic_track: bool,
    ) -> (r: Result<(), RecorderError>)
        requires
            old(self).wf(),
            now_ms >= old(self).spec_seen_ms(),
        ensures
            final(self).wf(),
            // Starting while recording is refused and changes nothing.
            old(self).is_recording() ==> r == Result::<(), RecorderError>::Err(
                RecorderError::AlreadyRecording,
            ) && *final(self) == *old(self),
            !old(self).is_recording() ==> {
                &&& r is Ok
                &&& final(self).is_recording()
                &&& !final(self).is_paused()
                &&& final(self).spec_start_ms() == now_ms
                &&& final(self).spec_seen_ms() == now_ms
                &&& final(self).spec_pause_accumulated_ms() == 0
                &&& final(self).spec_pause_start_ms() == 0
                &&& final(self).spec_output_path() == Some(output_path)
                &&& final(self).spec_quality() == quality
                &&& final(self).spec_output_format() == output_format
                &&& final(self).has_audio_track() == audio_track
                &&& final(self).has_mic_track() == mic_track
                &&& final(self).spec_duration_ms(now_ms as int) == 0
            },
    {
        if self.recording {
            return Err(RecorderError::AlreadyRecording);
        }
        self.recording = true;
        self.paused = false;
        self.start_ms = now_ms;
        self.pause_accumulated_ms = 0;
        self.pause_start_ms = 0;
        self.seen_ms = now_ms;
        self.output_path = Some(output_path);
        self.quality = quality;
        self.output_format = output_format;
        self.audio_track = audio_track;
        self.mic_track = mic_track;
        Ok(())
    }

    /// Pause the session: frames are dropped from here on and the
    /// clock stops counting.
    pub fn pause(&mut self, now_ms: u64) -> (r: Result<(), RecorderError>)
        requires
            old(self).wf(),
            now_ms >= old(self).spec_seen_ms(),
        ensures
            final(self).wf(),
            !old(self).is_recording() ==> r == Result::<(), RecorderError>::Err(
                RecorderError::NotRecording,
            ) && *final(self) == *old(self),
            old(self).is_recording() && old(self).is_paused() ==> r == Result::<
                (),
                RecorderError,
            >::Err(RecorderError::AlreadyPaused) && *final(self) == *old(self),
            old(self).is_recording() && !old(self).is_paused() ==> {
                &&& r is Ok
                &&& final(self).is_recording()
                &&& final(self).is_paused()
                &&& final(self).spec_pause_start_ms() == now_ms
                &&& final(self).spec_seen_ms() == now_ms
                &&& final(self).spec_pause_accumulated_ms() == old(
                    self,
                ).spec_pause_accumulated_ms()
                &&& final(self).spec_start_ms() == old(self).spec_start_ms()
                &&& final(self).spec_output_path() == old(self).spec_output_path()
                &&& final(self).spec_quality() == old(self).spec_quality()
                &&& final(self).spec_output_format() == old(self).spec_output_format()
                &&& final(self).has_audio_track() == old(self).has_audio_track()
                &&& final(self).has_mic_track() == old(self).has_mic_track()
                &&& final(self).spec_duration_ms(now_ms as int) == old(self).spec_duration_ms(
                    now_ms as int,
                )
            },
    {
        if !self.recording {
            return Err(RecorderError::NotRecording);
        }
        if self.paused {
            return Err(RecorderError::AlreadyPaused);
        }
        self.paused = true;
        self.pause_start_ms = now_ms;
        self.seen_ms = now_ms;
        Ok(())
    }

    /// Resume a paused session: the time spent paused is added to the
    /// accumulated pause duration, which strictly grows whenever the
    /// pause lasted a positive time.
    pub fn resume(&mut self, now_ms: u64) -> (r: Result<(), RecorderError>)
        requires
            old(self).wf(),
            now_ms >= old(self).spec_seen_ms(),
        ensures
            final(self).wf(),
            !old(self).is_recording() ==> r == Result::<(), RecorderError>::Err(
                RecorderError::NotRecording,
            ) && *final(self) == *old(self),
            old(self).is_recording() && !old(self).is_paused() ==> r == Result::<
                (),
                RecorderError,
            >::Err(RecorderError::NotPaused) && *final(self) == *old(self),
            old(self).is_recording() && old(self).is_paused() ==> {
                &&& r is Ok
                &&& final(self).is_recording()
                &&& !final(self).is_paused()
                &&& final(self).spec_pause_accumulated_ms() == old(
                    self,
                ).spec_pause_accumulated_ms() + (now_ms - old(self).spec_pause_start_ms())
                &&& final(self).spec_start_ms() == old(self).spec_start_ms()
                &&& final(self).spec_seen_ms() == now_ms
                &&& final(self).spec_pause_start_ms() == 0
                &&& final(self).spec_output_path() == old(self).spec_output_path()
                &&& final(self).spec_quality() == old(self).spec_quality()
                &&& final(self).spec_output_format() == old(self).spec_output_format()
                &&& final(self).has_audio_track() == old(self).has_audio_track()
                &&& final(self).has_mic_track() == old(self).has_mic_track()
            },
    {
        if !self.recording {
            return Err(RecorderError::NotRecording);
        }
        if !self.paused {
            return Err(RecorderError::NotPaused);
        }
        self.pause_accumulated_ms = self.pause_accumulated_ms + (now_ms - self.pause_start_ms);
        self.paused = false;
        self.pause_start_ms = 0;
        self.seen_ms = now_ms;
        Ok(())
    }

    /// End the session. The reported duration is the wall-clock span
    /// from start to stop minus all accumulated pause time.
    pub fn stop(&mut self, now_ms: u64) -> (r: Result<StopInfo, RecorderError>)
        requires
            old(self).wf(),
            now_ms >= old(self).spec_seen_ms(),
        ensures
            final(self).wf(),
            !old(self).is_recording() ==> r == Result::<StopInfo, RecorderError>::Err(
                RecorderError::NotRecording,
            ) && *final(self) == *old(self),
            old(self).is_recording() ==> {
                &&& r is Ok
                &&& r->Ok_0.duration_ms == old(self).spec_duration_ms(now_ms as int)
                &&& Some(r->Ok_0.output_path) == old(self).spec_output_path()
                &&& r->Ok_0.output_format == old(self).spec_output_format()
                // The coordinator returns to its idle defaults.
                &&& !final(self).is_recording()
                &&& !final(self).is_paused()
                &&& final(self).spec_start_ms() == 0
                &&& final(self).spec_pause_accumulated_ms() == 0
                &&& final(self).spec_pause_start_ms() == 0
                &&& final(self).spec_seen_ms() == now_ms
                &&& final(self).spec_output_path() is None
                &&& final(self).spec_quality() == RecordingQuality::Standard
                &&& final(self).spec_output_format() == OutputFormat::Video
                &&& !final(self).has_audio_track()
                &&& !final(self).has_mic_track()
            },
    {
        if !self.recording {
            return Err(RecorderError::NotRecording);
        }
        let duration_ms: u64 = if self.paused {
            self.pause_start_ms - self.start_ms - self.pause_accumulated_ms
        } else {
            now_ms - self.start_ms - self.pause_accumulated_ms
        };
        let path = match self.output_path.take() {
            Some(p) => p,
            None => String::new(),
        };
        let format = self.output_format;
        self.recording = false;
        self.paused = false;
        self.start_ms = 0;
        self.pause_accumulated_ms = 0;
        self.pause_start_ms = 0;
        self.seen_ms = now_ms;
        self.quality = RecordingQuality::Standard;
        self.output_format = OutputFormat::Video;
        self.audio_track = false;
        self.mic_track = false;
        Ok(StopInfo { output_path: path, duration_ms, output_format: format })
    }

    /// Status query: recording and pause flags and the pause-adjusted
    /// duration so far.
    pub fn status(&self, now_ms: u64) -> (r: RecorderStatus)
        requires
            self.wf(),
            now_ms >= self.spec_seen_ms(),
        ensures
            r.is_recording == self.is_recording(),
            r.is_paused == self.is_paused(),
            r.duration_ms == self.spec_duration_ms(now_ms as int),
            r.output_path == self.spec_output_path(),
            r.quality == self.spec_quality(),
    {
        let duration_ms: u64 = if !self.recording {
            0
        } else if self.paused {
            self.pause_start_ms - self.start_ms - self.pause_accumulated_ms
        } else {
            now_ms - self.start_ms - self.pause_accumulated_ms
        };
        RecorderStatus {
            is_recording: self.recording,
            is_paused: self.paused,
            duration_ms,
            output_path: clone_path(&self.output_path),
            quality: self.quality,
        }
    }
}

/// Clone an optional path, preserving its characters.
fn clone_path(p: &Option<String>) -> (r: Option<String>)
    ensures
        r == *p,
{
    match p {
        Some(s) => Some(s.clone()),
        None => None,
    }
}

/// Pausing at `t1` and resuming at `t2` returns to the unpaused
/// steady state: the accumulated pause time has grown by exactly
/// `t2 - t1`, and the reported duration stands where it stood when
/// the pause began. `r0` is the state before the pause, `r1` after
/// it, `r2` after the resume; the premises are the contracts of
/// `pause` and `resume`.
pub proof fn lemma_pause_resume_accounting(
    r0: Recorder,
    r1: Recorder,
    r2: Recorder,
    t1: int,
    t2: int,
)
    requires
        r0.wf(),
        r0.is_recording(),
        !r0.is_paused(),
        r1.is_recording(),
        r1.is_paused(),
        r1.spec_pause_start_ms() == t1,
        r1.spec_pause_accumulated_ms() == r0.spec_pause_accumulated_ms(),
        r1.spec_start_ms() == r0.spec_start_ms(),
        r2.is_recording(),
        !r2.is_paused(),
        r2.spec_pause_accumulated_ms() == r1.spec_pause_accumulated_ms() + (t2 - t1),
        r2.spec_start_ms() == r1.spec_start_ms(),
    ensures
        r2.spec_pause_accumulated_ms() == r0.spec_pause_accumulated_ms() + (t2 - t1),
        r2.spec_duration_ms(t2) == r0.spec_duration_ms(t1),
{
}

/// The reported duration never decreases between two status reads
/// while recording continues unpaused, and stands still while paused.
pub proof fn lemma_duration_monotonic(r: Recorder, t1: int, t2: int)
    requires
        r.wf(),
        r.is_recording(),
        t1 <= t2,
    ensures
        !r.is_paused() ==> r.spec_duration_ms(t1) <= r.spec_duration_ms(t2),
        r.is_paused() ==> r.spec_duration_ms(t1) == r.spec_duration_ms(t2),
{
}

} // verus!
