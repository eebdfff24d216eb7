//! Quality presets and hardware encoder settings.
//!
//! Both presets record at native resolution; they differ in frame
//! rate, in the encoder's quality hint, and in the variable-bitrate
//! ceiling, which depends on the pixel count of the output.

use vstd::prelude::*;

verus! {

/// Recording quality presets.
#[derive(Clone, Copy, Debug, PartialEq, Eq, Structural)]
pub enum RecordingQuality {
    /// 30 fps. Sharp text, smooth enough for most content.
    Standard,
    /// 60 fps. Smooth scrolling and animations.
    High,
}

impl Default for RecordingQuality {
    /// The default preset is `Standard`.
    fn default() -> (r: Self)
        ensures
            r == RecordingQuality::Standard,
    {
        RecordingQuality::Standard
    }
}

impl RecordingQuality {
    /// Capture frame rate of the preset.
    pub fn fps(&self) -> (r: u32)
        ensures
            r == (if self is Standard { 30u32 } else { 60u32 }),
    {
        match self {
            RecordingQuality::Standard => 30,
            RecordingQuality::High => 60,
        }
    }

    /// Encoder quality hint in hundredths (the encoder takes a value
    /// in `[0, 1]`): 0.72 for `Standard`, 0.85 for `High`.
    pub fn quality_hint_hundredths(&self) -> (r: u32)
        ensures
            r == (if self is Standard { 72u32 } else { 85u32 }),
    {
        match self {
            RecordingQuality::Standard => 72,
            RecordingQuality::High => 85,
        }
    }

    /// Name of the preset, as reported in status queries.
    pub fn label(&self) -> (r: &'static str)
        ensures
            self is Standard ==> r@ == "Standard"@,
            self is High ==> r@ == "High"@,
    {
        match self {
            RecordingQuality::Standard => "Standard",
            RecordingQuality::High => "High",
        }
    }
}

/// The bitrate ceiling table (bits per second) for the hardware HEVC
/// encoder, by pixel count and preset.
pub open spec fn spec_bitrate(pixels: int, quality: RecordingQuality) -> int {
    if quality is Standard {
        if pixels >= 3840 * 2160 {
            8_000_000
        } else if pixels >= 2560 * 1440 {
            6_000_000
        } else if pixels >= 1920 * 1080 {
            4_000_000
        } else {
            3_000_000
        }
    } else {
        if pixels >= 3840 * 2160 {
            12_000_000
        } else if pixels >= 2560 * 1440 {
            10_000_000
        } else if pixels >= 1920 * 1080 {
            7_000_000
        } else {
            5_000_000
        }
    }
}

/// Variable-bitrate ceiling (bits per second) for the given output
/// resolution and preset. The ceiling only binds during high-motion
/// scenes; quality-targeted VBR stays well below it on static screen
/// content.
pub fn compute_bitrate(width: usize, height: usize, quality: RecordingQuality) -> (r: i64)
    requires
        width <= 65536,
        height <= 65536,
    ensures
        r == spec_bitrate(width * height, quality),
{
    proof {
        assert((width as int) * (height as int) <= 65536 * 65536) by (nonlinear_arith)
            requires
                width <= 65536,
                height <= 65536,
        ;
    }
    let pixels: u64 = (width as u64) * (height as u64);
    match quality {
        RecordingQuality::Standard => {
            if pixels >= 3840 * 2160 {
                8_000_000
            } else if pixels >= 2560 * 1440 {
                6_000_000
            } else if pixels >= 1920 * 1080 {
                4_000_000
            } else {
                3_000_000
            }
        },
        RecordingQuality::High => {
            if pixels >= 3840 * 2160 {
                12_000_000
            } else if pixels >= 2560 * 1440 {
                10_000_000
            } else if pixels >= 1920 * 1080 {
                7_000_000
            } else {
                5_000_000
            }
        },
    }
}

/// AAC audio track settings: 48 kHz, stereo, 128 kbps.
pub struct AudioSettings {
    pub sample_rate: u32,
    pub channels: u32,
    pub bitrate: u32,
}

impl AudioSettings {
    /// The fixed AAC configuration used for every audio track.
    pub fn new() -> (r: AudioSettings)
        ensures
            r.sample_rate == 48000,
            r.channels == 2,
            r.bitrate == 128_000,
    {
        AudioSettings { sample_rate: 48000, channels: 2, bitrate: 128_000 }
    }
}

/// Everything the hardware video encoder is configured with. The
/// platform layer translates this one-to-one into the writer input's
/// settings dictionary.
pub struct VideoSettings {
    /// Output width in pixels; always even.
    pub width: usize,
    /// Output height in pixels; always even.
    pub height: usize,
    /// Expected source frame rate.
    pub fps: u32,
    /// Bitrate ceiling in bits per second.
    pub bitrate: i64,
    /// Encoder quality hint in hundredths.
    pub quality_hint_hundredths: u32,
    /// Maximum keyframe interval in seconds (by duration).
    pub max_keyframe_interval_secs: u32,
    /// B-frame reordering, for better screen-content compression.
    pub allow_frame_reordering: bool,
    /// Prefer encoding quality over speed.
    pub prioritize_quality: bool,
    /// BT.709 colour primaries, transfer and matrix tagging.
    pub bt709_tagging: bool,
}

impl VideoSettings {
    /// Build the encoder configuration for an output of the given
    /// dimensions. Odd dimensions are rounded up: the codec requires
    /// even numbers.
    pub fn new(width: usize, height: usize, quality: RecordingQuality) -> (r: VideoSettings)
        requires
            width <= 65535,
            height <= 65535,
        ensures
            r.width % 2 == 0,
            r.height % 2 == 0,
            r.width == width || r.width == width + 1,
            r.height == height || r.height == height + 1,
            r.fps == (if quality is Standard { 30int } else { 60int }),
            r.bitrate == spec_bitrate(width * height, quality),
            r.quality_hint_hundredths == (if quality is Standard { 72int } else { 85int }),
            r.max_keyframe_interval_secs == 4,
            r.allow_frame_reordering,
            r.prioritize_quality,
            r.bt709_tagging,
    {
        let w = crate::geometry::round_up_even(width);
        let h = crate::geometry::round_up_even(height);
        VideoSettings {
            width: w,
            height: h,
            fps: quality.fps(),
            bitrate: compute_bitrate(width, height, quality),
            quality_hint_hundredths: quality.quality_hint_hundredths(),
            max_keyframe_interval_secs: 4,
            allow_frame_reordering: true,
            prioritize_quality: true,
            bt709_tagging: true,
        }
    }
}

} // verus!
