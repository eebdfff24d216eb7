//! Writer finalization logic.
//!
//! The container writer is owned by the platform layer; finishing it
//! is asynchronous, with a completion signal that is not fully
//! reliable. Finalize therefore waits with a hybrid strategy: block
//! on the signal, poll the writer's status as fallback, and give up
//! after a hard deadline. The decisions of that wait live here.

use vstd::prelude::*;

verus! {

/// The writer's reported state.
#[derive(Clone, Copy, Debug, PartialEq, Eq, Structural)]
pub enum WriterStatus {
    Unknown,
    Writing,
    /// The container atom has been written; the file is playable.
    Completed,
    Failed,
    Cancelled,
}

/// Decode the writer's raw status value. Unrecognized values map to
/// `Unknown`.
pub fn writer_status_from_raw(raw: i64) -> (r: WriterStatus)
    ensures
        raw == 1 ==> r == WriterStatus::Writing,
        raw == 2 ==> r == WriterStatus::Completed,
        raw == 3 ==> r == WriterStatus::Failed,
        raw == 4 ==> r == WriterStatus::Cancelled,
        raw != 1 && raw != 2 && raw != 3 && raw != 4 ==> r == WriterStatus::Unknown,
{
    match raw {
        1 => WriterStatus::Writing,
        2 => WriterStatus::Completed,
        3 => WriterStatus::Failed,
        4 => WriterStatus::Cancelled,
        _ => WriterStatus::Unknown,
    }
}

/// The attach-then-start protocol of the container writer.
///
/// Inputs can only be attached before the writer transitions to the
/// writing state; the coordinator therefore declares the video input
/// and the optional audio and microphone inputs first, and starts
/// writing only then. Attaching audio is best-effort: a refused
/// input leaves the session without that track and is no error.
pub struct WriterSetup {
    audio_attached: bool,
    mic_attached: bool,
    started: bool,
}

impl WriterSetup {
    pub closed spec fn spec_audio_attached(self) -> bool {
        self.audio_attached
    }

    pub closed spec fn spec_mic_attached(self) -> bool {
        self.mic_attached
    }

    pub closed spec fn spec_started(self) -> bool {
        self.started
    }

    /// A writer with its video input attached, not yet writing.
    pub fn new() -> (r: WriterSetup)
        ensures
            !r.spec_started(),
            !r.spec_audio_attached(),
            !r.spec_mic_attached(),
    {
        WriterSetup { audio_attached: false, mic_attached: false, started: false }
    }

    /// Record the writer's answer to attaching the system-audio
    /// input. Only possible before writing starts.
    pub fn attach_audio(&mut self, accepted: bool)
        requires
            !old(self).spec_started(),
        ensures
            final(self).spec_audio_attached() == accepted,
            final(self).spec_mic_attached() == old(self).spec_mic_attached(),
            !final(self).spec_started(),
    {
        self.audio_attached = accepted;
    }

    /// Record the writer's answer to attaching the microphone input.
    /// Only possible before writing starts.
    pub fn attach_microphone(&mut self, accepted: bool)
        requires
            !old(self).spec_started(),
        ensures
            final(self).spec_mic_attached() == accepted,
            final(self).spec_audio_attached() == old(self).spec_audio_attached(),
            !final(self).spec_started(),
    {
        self.mic_attached = accepted;
    }

    /// Transition to the writing state. After this, no input can be
    /// attached: every method that attaches one requires the writer
    /// not to have started.
    pub fn start_writing(&mut self)
        requires
            !old(self).spec_started(),
        ensures
            final(self).spec_started(),
            final(self).spec_audio_attached() == old(self).spec_audio_attached(),
            final(self).spec_mic_attached() == old(self).spec_mic_attached(),
    {
        self.started = true;
    }
}

/// What to do when finalize is called, given the writer's state.
#[derive(Clone, Copy, Debug, PartialEq, Eq, Structural)]
pub enum FinalizeStart {
    /// Mark the inputs finished and wait for completion.
    Proceed,
    /// The writer already failed: log its error and return; the file
    /// is likely unplayable.
    AlreadyFailed,
    /// The writer never reached the writing state: nothing to finish.
    NotWriting,
}

/// Decide whether finalization can proceed. Only a writer in the
/// writing state can be finished.
pub fn finalize_start(status: WriterStatus) -> (r: FinalizeStart)
    ensures
        status == WriterStatus::Failed ==> r == FinalizeStart::AlreadyFailed,
        status == WriterStatus::Writing ==> r == FinalizeStart::Proceed,
        status != WriterStatus::Failed && status != WriterStatus::Writing
            ==> r == FinalizeStart::NotWriting,
{
    match status {
        WriterStatus::Failed => FinalizeStart::AlreadyFailed,
        WriterStatus::Writing => FinalizeStart::Proceed,
        _ => FinalizeStart::NotWriting,
    }
}

/// How long the hybrid wait polls the writer's status between checks
/// of the completion signal, in milliseconds.
pub const FINALIZE_POLL_INTERVAL_MS: u64 = 500;

/// Hard deadline for the hybrid wait, in milliseconds.
pub const FINALIZE_DEADLINE_MS: u64 = 15_000;

/// One round of the hybrid finalize wait: stop waiting on the first
/// of (completion signal fired, writer left the writing state,
/// deadline passed); otherwise poll again.
pub fn finalize_wait_done(signal_fired: bool, status: WriterStatus, elapsed_ms: u64) -> (r: bool)
    ensures
        r == (signal_fired || status != WriterStatus::Writing || elapsed_ms
            >= FINALIZE_DEADLINE_MS),
{
    signal_fired || !matches!(status, WriterStatus::Writing) || elapsed_ms >= FINALIZE_DEADLINE_MS
}

/// The output file counts as written only when the writer reports
/// completion; any other final status leaves the container atom in
/// doubt.
pub fn finalize_succeeded(status: WriterStatus) -> (r: bool)
    ensures
        r == (status == WriterStatus::Completed),
{
    matches!(status, WriterStatus::Completed)
}

} // verus!
