use zureshot::capture::CaptureConfig;
use zureshot::encoder::{compute_bitrate, encoder_candidate, select_encoder, ENCODER_CANDIDATES};
use zureshot::geometry::{
    crop_margins, exclusion_indices, round_up_even, scaled_even_dimensions,
};
use zureshot::settings::compute_bitrate as hevc_bitrate;
use zureshot::settings::{AudioSettings, RecordingQuality, VideoSettings};
use zureshot::writer::{
    finalize_start, finalize_succeeded, finalize_wait_done, writer_status_from_raw,
    FinalizeStart, WriterSetup, WriterStatus, FINALIZE_DEADLINE_MS,
};
use zureshot::zoom::Rect;

#[test]
fn dimensions_rounded_up_to_even() {
    assert_eq!(round_up_even(4), 4);
    assert_eq!(round_up_even(5), 6);
    assert_eq!(round_up_even(0), 0);
    assert_eq!(round_up_even(1279), 1280);
}

#[test]
fn region_scaled_to_physical_pixels() {
    // A 400x300-point region on a 2x display: 800x600 pixels.
    assert_eq!(scaled_even_dimensions(400, 300, 200), (800, 600));
    // Odd pixel counts are rounded up.
    assert_eq!(scaled_even_dimensions(401, 301, 100), (402, 302));
    // 1.5x scale.
    assert_eq!(scaled_even_dimensions(401, 300, 150), (602, 450));
}

#[test]
fn hevc_bitrate_ceilings() {
    let s = RecordingQuality::Standard;
    let h = RecordingQuality::High;
    assert_eq!(hevc_bitrate(3840, 2160, s), 8_000_000);
    assert_eq!(hevc_bitrate(2880, 1800, s), 6_000_000);
    assert_eq!(hevc_bitrate(1920, 1080, s), 4_000_000);
    assert_eq!(hevc_bitrate(800, 600, s), 3_000_000);
    assert_eq!(hevc_bitrate(3840, 2160, h), 12_000_000);
    assert_eq!(hevc_bitrate(2880, 1800, h), 10_000_000);
    assert_eq!(hevc_bitrate(1920, 1080, h), 7_000_000);
    assert_eq!(hevc_bitrate(800, 600, h), 5_000_000);
}

#[test]
fn quality_presets() {
    assert_eq!(RecordingQuality::Standard.fps(), 30);
    assert_eq!(RecordingQuality::High.fps(), 60);
    assert_eq!(RecordingQuality::Standard.quality_hint_hundredths(), 72);
    assert_eq!(RecordingQuality::High.quality_hint_hundredths(), 85);
    assert_eq!(RecordingQuality::Standard.label(), "Standard");
    assert_eq!(RecordingQuality::High.label(), "High");
    assert_eq!(RecordingQuality::default(), RecordingQuality::Standard);
}

#[test]
fn video_settings_assembled() {
    let v = VideoSettings::new(1279, 719, RecordingQuality::High);
    assert_eq!((v.width, v.height), (1280, 720));
    assert_eq!(v.fps, 60);
    assert_eq!(v.bitrate, 5_000_000);
    assert_eq!(v.quality_hint_hundredths, 85);
    assert_eq!(v.max_keyframe_interval_secs, 4);
    assert!(v.allow_frame_reordering);
    assert!(v.prioritize_quality);
    assert!(v.bt709_tagging);
}

#[test]
fn audio_settings_fixed() {
    let a = AudioSettings::new();
    assert_eq!(a.sample_rate, 48000);
    assert_eq!(a.channels, 2);
    assert_eq!(a.bitrate, 128_000);
}

#[test]
fn encoder_priority_order() {
    // Hardware HEVC first, software H.264 as last resort.
    let all = vec![true; ENCODER_CANDIDATES];
    assert_eq!(select_encoder(&all), 0);
    let only_nv264 = vec![false, false, false, true, false];
    assert_eq!(select_encoder(&only_nv264), 3);
    let none = vec![false; ENCODER_CANDIDATES];
    assert_eq!(select_encoder(&none), ENCODER_CANDIDATES - 1);
    assert_eq!(encoder_candidate(ENCODER_CANDIDATES - 1).name, "x264enc");
    assert!(encoder_candidate(0).is_hevc && encoder_candidate(0).is_hardware);
    assert!(!encoder_candidate(4).is_hardware);
}

#[test]
fn pipeline_bitrate_scaled_for_hevc() {
    let hevc = encoder_candidate(0);
    let x264 = encoder_candidate(4);
    let s = RecordingQuality::Standard;
    assert_eq!(compute_bitrate(1920, 1080, &s, &x264), 8_000);
    assert_eq!(compute_bitrate(1920, 1080, &s, &hevc), 5_200);
    assert_eq!(compute_bitrate(3840, 2160, &RecordingQuality::High, &hevc), 15_600);
    assert_eq!(compute_bitrate(640, 480, &s, &x264), 5_000);
}

#[test]
fn crop_margins_add_back_up() {
    let m = crop_margins(1920, 1080, 100, 50, 800, 600).unwrap();
    assert_eq!(m, (50, 100, 1020, 430));
    assert_eq!(m.1 + 800 + m.2, 1920);
    assert_eq!(m.0 + 600 + m.3, 1080);
}

#[test]
fn crop_outside_frame_refused() {
    assert!(crop_margins(1920, 1080, -1, 0, 100, 100).is_none());
    assert!(crop_margins(1920, 1080, 1900, 0, 100, 100).is_none());
    assert!(crop_margins(1920, 1080, 0, 1000, 100, 100).is_none());
}

#[test]
fn own_windows_excluded_by_pid() {
    let pids = vec![100, 42, 7, 42, 9];
    let idx = exclusion_indices(&pids, 42);
    assert_eq!(idx, vec![1, 3]);
    assert_eq!(exclusion_indices(&pids, 1), Vec::<usize>::new());
}

#[test]
fn writer_status_decoding() {
    assert_eq!(writer_status_from_raw(0), WriterStatus::Unknown);
    assert_eq!(writer_status_from_raw(1), WriterStatus::Writing);
    assert_eq!(writer_status_from_raw(2), WriterStatus::Completed);
    assert_eq!(writer_status_from_raw(3), WriterStatus::Failed);
    assert_eq!(writer_status_from_raw(4), WriterStatus::Cancelled);
    assert_eq!(writer_status_from_raw(-1), WriterStatus::Unknown);
}

#[test]
fn finalize_only_from_writing_state() {
    assert_eq!(finalize_start(WriterStatus::Writing), FinalizeStart::Proceed);
    assert_eq!(finalize_start(WriterStatus::Failed), FinalizeStart::AlreadyFailed);
    assert_eq!(finalize_start(WriterStatus::Unknown), FinalizeStart::NotWriting);
    assert_eq!(finalize_start(WriterStatus::Completed), FinalizeStart::NotWriting);
}

#[test]
fn hybrid_wait_exit_conditions() {
    // Keep polling while nothing has happened inside the deadline.
    assert!(!finalize_wait_done(false, WriterStatus::Writing, 500));
    // Any of the three conditions ends the wait.
    assert!(finalize_wait_done(true, WriterStatus::Writing, 500));
    assert!(finalize_wait_done(false, WriterStatus::Completed, 500));
    assert!(finalize_wait_done(false, WriterStatus::Writing, FINALIZE_DEADLINE_MS));
}

#[test]
fn completion_is_the_only_success() {
    assert!(finalize_succeeded(WriterStatus::Completed));
    assert!(!finalize_succeeded(WriterStatus::Writing));
    assert!(!finalize_succeeded(WriterStatus::Failed));
    assert!(!finalize_succeeded(WriterStatus::Cancelled));
}

#[test]
fn capture_config_initial() {
    let c = CaptureConfig::initial(801, 600, RecordingQuality::Standard, None, false, false);
    assert_eq!((c.width, c.height), (802, 600));
    assert_eq!(c.fps, 30);
    assert_eq!(c.pixel_format, u32::from_be_bytes(*b"420v"));
    assert_eq!(c.queue_depth, 3);
    assert!(c.shows_cursor);
    assert!(c.source_rect.is_none());
    assert!(c.dest_rect.is_none());
    assert!(!c.captures_audio);
}

#[test]
fn capture_config_with_region_and_audio() {
    let rect = Rect { x: 100_000, y: 100_000, w: 400_000, h: 300_000 };
    let c = CaptureConfig::initial(800, 600, RecordingQuality::High, Some(rect), true, true);
    assert_eq!(c.source_rect, Some(rect));
    assert_eq!(c.dest_rect, Some((800, 600)));
    assert!(c.captures_audio);
    assert!(c.excludes_current_process_audio);
    assert!(c.captures_microphone);
    assert_eq!(c.sample_rate, 48000);
    assert_eq!(c.channel_count, 2);
}

#[test]
fn zoom_update_respecifies_audio() {
    // A reconfiguration resets unspecified properties, so the zoom
    // update must state the audio settings again every time.
    let viewport = Rect { x: 150_000, y: 120_000, w: 200_000, h: 150_000 };
    let c = CaptureConfig::zoom_update(800, 600, viewport, true, false);
    assert_eq!(c.source_rect, Some(viewport));
    assert_eq!(c.dest_rect, Some((800, 600)));
    assert!(c.scales_to_fit);
    assert!(c.captures_audio);
    assert_eq!(c.sample_rate, 48000);
    assert_eq!(c.channel_count, 2);
    assert!(!c.captures_microphone);
}

#[test]
fn writer_inputs_attach_before_start() {
    let mut w = WriterSetup::new();
    // The writer accepts audio but refuses the microphone: the
    // session keeps the one track and proceeds.
    w.attach_audio(true);
    w.attach_microphone(false);
    w.start_writing();
}
