//! Capture stream configuration.
//!
//! The OS capture stream is configured with a full property set, and
//! a reconfiguration replaces all of it: unspecified fields fall back
//! to defaults. Every builder here therefore fills in every field
//! the recording depends on, audio included.

use vstd::prelude::*;

use crate::geometry::round_up_even;
use crate::png::be_u32;
use crate::settings::RecordingQuality;
use crate::zoom::{should_skip_update, spec_viewport_len, viewport_rect, Rect};

verus! {

/// Four-character code, packed big endian.
pub fn fourcc(a: u8, b: u8, c: u8, d: u8) -> (r: u32)
    ensures
        r == be_u32(a as int, b as int, c as int, d as int),
{
    (a as u32) * 0x1000000 + (b as u32) * 0x10000 + (c as u32) * 0x100 + (d as u32)
}

/// The biplanar 4:2:0 video format (four-character code `420v`): the
/// native input of the hardware encoder, so frames need no CPU-side
/// colour conversion.
pub open spec fn spec_nv12_fourcc() -> int {
    be_u32(0x34, 0x32, 0x30, 0x76)
}

/// Everything the capture stream is configured with.
pub struct CaptureConfig {
    /// Output width in pixels; always even.
    pub width: usize,
    /// Output height in pixels; always even.
    pub height: usize,
    /// Frames per second (the stream takes the interval `1/fps`).
    pub fps: u32,
    /// Pixel format four-character code.
    pub pixel_format: u32,
    /// Bounded frame queue depth.
    pub queue_depth: u32,
    /// Whether the cursor is drawn into the capture.
    pub shows_cursor: bool,
    /// Sub-rectangle of the display to capture, in milli-points;
    /// `None` captures the whole display.
    pub source_rect: Option<Rect>,
    /// Where the source is placed in the output, in pixels; set
    /// whenever a source rectangle is.
    pub dest_rect: Option<(usize, usize)>,
    /// Scale the source to fill the destination.
    pub scales_to_fit: bool,
    /// Capture system audio.
    pub captures_audio: bool,
    /// Leave this process's own audio out of the capture.
    pub excludes_current_process_audio: bool,
    /// Audio sample rate; meaningful when any audio is captured.
    pub sample_rate: u32,
    /// Audio channel count; meaningful when any audio is captured.
    pub channel_count: u32,
    /// Capture the microphone.
    pub captures_microphone: bool,
}

impl CaptureConfig {
    /// The audio properties a recording with audio depends on are
    /// all present: a configuration that omits them would silence
    /// the audio track on the next reconfiguration.
    pub open spec fn audio_complete(self) -> bool {
        (self.captures_audio || self.captures_microphone) ==> (self.sample_rate == 48000
            && self.channel_count == 2)
    }

    /// The initial stream configuration for a recording.
    pub fn initial(
        width: usize,
        height: usize,
        quality: RecordingQuality,
        source_rect: Option<Rect>,
        capture_system_audio: bool,
        capture_microphone: bool,
    ) -> (r: CaptureConfig)
        requires
            width < usize::MAX,
            height < usize::MAX,
        ensures
            r.width % 2 == 0 && r.height % 2 == 0,
            width <= r.width <= width + 1,
            height <= r.height <= height + 1,
            r.fps == (if quality is Standard { 30int } else { 60int }),
            r.pixel_format == spec_nv12_fourcc(),
            r.queue_depth == 3,
            r.shows_cursor,
            r.source_rect == source_rect,
            source_rect is Some ==> r.dest_rect == Some((r.width, r.height)),
            source_rect is None ==> r.dest_rect is None,
            r.captures_audio == capture_system_audio,
            r.excludes_current_process_audio == capture_system_audio,
            r.captures_microphone == capture_microphone,
            r.audio_complete(),
    {
        let w = round_up_even(width);
        let h = round_up_even(height);
        let dest = if source_rect.is_some() {
            Some((w, h))
        } else {
            None
        };
        CaptureConfig {
            width: w,
            height: h,
            fps: quality.fps(),
            pixel_format: fourcc(0x34, 0x32, 0x30, 0x76),
            queue_depth: 3,
            shows_cursor: true,
            source_rect,
            dest_rect: dest,
            scales_to_fit: false,
            captures_audio: capture_system_audio,
            excludes_current_process_audio: capture_system_audio,
            sample_rate: 48000,
            channel_count: 2,
            captures_microphone: capture_microphone,
        }
    }

    /// A reconfiguration pushed by the zoom loop: the new viewport as
    /// source rectangle, the full output as destination, and every
    /// audio property stated again, since a reconfiguration resets
    /// unspecified fields to their defaults.
    pub fn zoom_update(
        output_width: usize,
        output_height: usize,
        viewport: Rect,
        capture_system_audio: bool,
        capture_microphone: bool,
    ) -> (r: CaptureConfig)
        ensures
            r.width == output_width,
            r.height == output_height,
            r.source_rect == Some(viewport),
            r.dest_rect == Some((output_width, output_height)),
            r.scales_to_fit,
            r.captures_audio == capture_system_audio,
            r.excludes_current_process_audio == capture_system_audio,
            r.captures_microphone == capture_microphone,
            r.audio_complete(),
    {
        CaptureConfig {
            width: output_width,
            height: output_height,
            fps: 0,
            pixel_format: 0,
            queue_depth: 0,
            shows_cursor: true,
            source_rect: Some(viewport),
            dest_rect: Some((output_width, output_height)),
            scales_to_fit: true,
            captures_audio: capture_system_audio,
            excludes_current_process_audio: capture_system_audio,
            sample_rate: 48000,
            channel_count: 2,
            captures_microphone: capture_microphone,
        }
    }
}

/// One zoom tick's reconfiguration decision: `None` inside the
/// deadband (zoom settled at 1x, nothing visibly changes), otherwise
/// the full replacement configuration for the viewport centred as
/// close to the pan position as the region allows. The viewport
/// always lies inside the recording region, and the audio
/// properties are stated again in every update.
pub fn zoom_reconfiguration(
    region: &Rect,
    zoom_milli: i64,
    pan_x: i64,
    pan_y: i64,
    springs_settled: bool,
    update_count: u64,
    output_width: usize,
    output_height: usize,
    capture_system_audio: bool,
    capture_microphone: bool,
) -> (r: Option<CaptureConfig>)
    requires
        crate::zoom::region_wf(*region),
        1000 <= zoom_milli <= 100_000,
        -9_223_372_036_854_000_000 <= pan_x <= 9_223_372_036_854_000_000,
        -9_223_372_036_854_000_000 <= pan_y <= 9_223_372_036_854_000_000,
    ensures
        r is None <==> ((-5 < zoom_milli - 1000 < 5) && springs_settled && update_count > 1),
        r matches Some(c) ==> {
            &&& c.source_rect matches Some(v) && region.contains(v) && v.w == spec_viewport_len(
                region.w as int,
                zoom_milli as int,
            ) && v.h == spec_viewport_len(region.h as int, zoom_milli as int) && v.x
                == crate::zoom::spec_clamp(
                pan_x as int,
                region.x + v.w / 2,
                region.x + region.w - (v.w - v.w / 2),
            ) - v.w / 2 && v.y == crate::zoom::spec_clamp(
                pan_y as int,
                region.y + v.h / 2,
                region.y + region.h - (v.h - v.h / 2),
            ) - v.h / 2
            &&& c.width == output_width && c.height == output_height
            &&& c.dest_rect == Some((output_width, output_height))
            &&& c.scales_to_fit
            &&& c.captures_audio == capture_system_audio
            &&& c.captures_microphone == capture_microphone
            &&& c.audio_complete()
        },
{
    if should_skip_update(zoom_milli, springs_settled, update_count) {
        return None;
    }
    let viewport = viewport_rect(region, zoom_milli, pan_x, pan_y);
    Some(
        CaptureConfig::zoom_update(
            output_width,
            output_height,
            viewport,
            capture_system_audio,
            capture_microphone,
        ),
    )
}

} // verus!
