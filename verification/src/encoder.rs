//! Encoder auto-detection and bitrate selection for the in-process
//! media pipeline.
//!
//! The pipeline prefers hardware HEVC, then hardware H.264, then
//! software H.264. Hardware HEVC gets its bitrate scaled down, as it
//! reaches the same visual quality at a lower rate.

use vstd::prelude::*;

use crate::settings::RecordingQuality;

verus! {

/// One video encoder the pipeline can be built on.
#[derive(Clone, Copy, Debug)]
pub struct EncoderInfo {
    /// Element name of the encoder in the media framework.
    pub name: &'static str,
    /// Whether this encoder produces HEVC.
    pub is_hevc: bool,
    /// Whether this is a hardware encoder.
    pub is_hardware: bool,
}

/// Number of encoder candidates, in priority order.
pub const ENCODER_CANDIDATES: usize = 5;

/// The candidate table, best first: hardware HEVC on two drivers,
/// hardware H.264 on two drivers, then the software fallback.
pub fn encoder_candidate(i: usize) -> (r: EncoderInfo)
    requires
        i < ENCODER_CANDIDATES,
    ensures
        r.is_hevc == (i == 0 || i == 1),
        r.is_hardware == (i != 4),
        i == 0 ==> r.name@ == "vaapih265enc"@,
        i == 1 ==> r.name@ == "nvh265enc"@,
        i == 2 ==> r.name@ == "vaapih264enc"@,
        i == 3 ==> r.name@ == "nvh264enc"@,
        i == 4 ==> r.name@ == "x264enc"@,
{
    if i == 0 {
        EncoderInfo { name: "vaapih265enc", is_hevc: true, is_hardware: true }
    } else if i == 1 {
        EncoderInfo { name: "nvh265enc", is_hevc: true, is_hardware: true }
    } else if i == 2 {
        EncoderInfo { name: "vaapih264enc", is_hevc: false, is_hardware: true }
    } else if i == 3 {
        EncoderInfo { name: "nvh264enc", is_hevc: false, is_hardware: true }
    } else {
        EncoderInfo { name: "x264enc", is_hevc: false, is_hardware: false }
    }
}

/// Pick the best available encoder: the first candidate that the
/// framework reports as present, or the software fallback when none
/// is. `available[i]` says whether candidate `i` is installed.
pub fn select_encoder(available: &[bool]) -> (r: usize)
    requires
        available@.len() == ENCODER_CANDIDATES,
    ensures
        r < ENCODER_CANDIDATES,
        forall|j: int| 0 <= j < r ==> !available@[j],
        r < ENCODER_CANDIDATES - 1 ==> available@[r as int],
{
    let mut i: usize = 0;
    while i < ENCODER_CANDIDATES - 1
        invariant
            available@.len() == ENCODER_CANDIDATES,
            0 <= i <= ENCODER_CANDIDATES - 1,
            forall|j: int| 0 <= j < i ==> !available@[j],
        decreases ENCODER_CANDIDATES - i,
    {
        if available[i] {
            return i;
        }
        i = i + 1;
    }
    ENCODER_CANDIDATES - 1
}

/// Base bitrate table (kbps) for software H.264, by pixel count and
/// preset.
pub open spec fn spec_base_bitrate_kbps(pixels: int, quality: RecordingQuality) -> int {
    if quality is Standard {
        if pixels >= 3840 * 2160 {
            16_000
        } else if pixels >= 2560 * 1440 {
            10_000
        } else if pixels >= 1920 * 1080 {
            8_000
        } else {
            5_000
        }
    } else {
        if pixels >= 3840 * 2160 {
            24_000
        } else if pixels >= 2560 * 1440 {
            16_000
        } else if pixels >= 1920 * 1080 {
            12_000
        } else {
            8_000
        }
    }
}

/// Pipeline bitrate in kbps: the base table, scaled down to 65
/// percent when the selected encoder is HEVC, which reaches the same
/// visual quality at a lower rate.
pub fn compute_bitrate(
    width: u32,
    height: u32,
    quality: &RecordingQuality,
    encoder: &EncoderInfo,
) -> (r: i32)
    requires
        width <= 65536,
        height <= 65536,
    ensures
        !encoder.is_hevc ==> r == spec_base_bitrate_kbps((width * height) as int, *quality),
        encoder.is_hevc ==> r == spec_base_bitrate_kbps((width * height) as int, *quality) * 65
            / 100,
{
    proof {
        assert((width as int) * (height as int) <= 65536 * 65536) by (nonlinear_arith)
            requires
                width <= 65536,
                height <= 65536,
        ;
    }
    let pixels: u64 = (width as u64) * (height as u64);
    let base: i32 = match quality {
        RecordingQuality::Standard => {
            if pixels >= 3840 * 2160 {
                16_000
            } else if pixels >= 2560 * 1440 {
                10_000
            } else if pixels >= 1920 * 1080 {
                8_000
            } else {
                5_000
            }
        },
        RecordingQuality::High => {
            if pixels >= 3840 * 2160 {
                24_000
            } else if pixels >= 2560 * 1440 {
                16_000
            } else if pixels >= 1920 * 1080 {
                12_000
            } else {
                8_000
            }
        },
    };
    if encoder.is_hevc {
        base * 65 / 100
    } else {
        base
    }
}

} // verus!
