use zureshot::router::{AudioVerdict, SampleInfo, StreamOutput, VideoVerdict};

fn video_sample(pts_value: i64, pts_timescale: i32) -> SampleInfo {
    SampleInfo { valid: true, data_ready: true, has_image: true, pts_value, pts_timescale }
}

#[test]
fn first_sample_starts_session_at_its_pts() {
    let mut so = StreamOutput::new();
    assert!(!so.session_started());
    let v = so.route_video(false, &video_sample(1, 60));
    assert_eq!(v, VideoVerdict::Append { start_session: true });
    assert!(so.session_started());
    assert_eq!(so.session_start(), (1, 60));
    let logged = so.append_outcome(&video_sample(1, 60), true, true);
    assert!(!logged);
    assert_eq!(so.frame_count(), 1);
    assert_eq!(so.dropped_count(), 0);
}

#[test]
fn duplicate_pts_is_skipped_then_next_appends() {
    let mut so = StreamOutput::new();
    let s1 = video_sample(1, 60);
    assert_eq!(so.route_video(false, &s1), VideoVerdict::Append { start_session: true });
    so.append_outcome(&s1, true, true);

    // Same timestamp again: dropped, skip counted once.
    let s2 = video_sample(1, 60);
    assert_eq!(so.route_video(false, &s2), VideoVerdict::DroppedNonMonotonic);
    assert_eq!(so.pts_skip_count(), 1);
    assert_eq!(so.dropped_count(), 1);
    assert_eq!(so.frame_count(), 1);

    // Strictly later timestamp: appended.
    let s3 = video_sample(2, 60);
    assert_eq!(so.route_video(false, &s3), VideoVerdict::Append { start_session: false });
    so.append_outcome(&s3, true, true);
    assert_eq!(so.frame_count(), 2);
    assert_eq!(so.pts_skip_count(), 1);
}

#[test]
fn rational_comparison_crosses_timescales() {
    let mut so = StreamOutput::new();
    let s1 = video_sample(1, 30);
    so.route_video(false, &s1);
    so.append_outcome(&s1, true, true);

    // 3/90 equals 1/30: not strictly greater, dropped.
    let equal = video_sample(3, 90);
    assert_eq!(so.route_video(false, &equal), VideoVerdict::DroppedNonMonotonic);

    // 4/90 is strictly after 1/30.
    let later = video_sample(4, 90);
    assert_eq!(so.route_video(false, &later), VideoVerdict::Append { start_session: false });
}

#[test]
fn status_frame_dropped_silently() {
    let mut so = StreamOutput::new();
    let status_frame = SampleInfo {
        valid: true,
        data_ready: true,
        has_image: false,
        pts_value: 1,
        pts_timescale: 60,
    };
    let v = so.route_video(false, &status_frame);
    assert_eq!(v, VideoVerdict::DroppedStatusFrame);
    assert_eq!(so.frame_count(), 0);
    assert_eq!(so.dropped_count(), 0);
    assert_eq!(so.pts_skip_count(), 0);
    assert!(!so.session_started());
}

#[test]
fn paused_drops_every_sample_silently() {
    let mut so = StreamOutput::new();
    let v = so.route_video(true, &video_sample(1, 60));
    assert_eq!(v, VideoVerdict::DroppedPaused);
    assert_eq!(so.frame_count(), 0);
    assert_eq!(so.dropped_count(), 0);
    assert!(!so.session_started());
}

#[test]
fn invalid_sample_counts_as_dropped() {
    let mut so = StreamOutput::new();
    let invalid = SampleInfo {
        valid: false,
        data_ready: true,
        has_image: true,
        pts_value: 1,
        pts_timescale: 60,
    };
    assert_eq!(so.route_video(false, &invalid), VideoVerdict::DroppedInvalid);
    assert_eq!(so.dropped_count(), 1);
}

#[test]
fn non_positive_timestamp_rejected() {
    let mut so = StreamOutput::new();
    assert_eq!(
        so.route_video(false, &video_sample(0, 60)),
        VideoVerdict::DroppedBadTimestamp
    );
    assert_eq!(
        so.route_video(false, &video_sample(5, 0)),
        VideoVerdict::DroppedBadTimestamp
    );
    assert_eq!(so.dropped_count(), 2);
}

#[test]
fn writer_failure_logged_once_then_silent() {
    let mut so = StreamOutput::new();
    let s1 = video_sample(1, 60);
    so.route_video(false, &s1);
    let first = so.append_outcome(&s1, true, false);
    assert!(first);
    assert_eq!(so.dropped_count(), 1);
    assert_eq!(so.frame_count(), 0);

    let s2 = video_sample(2, 60);
    so.route_video(false, &s2);
    let second = so.append_outcome(&s2, true, false);
    assert!(!second);
    assert_eq!(so.dropped_count(), 2);
}

#[test]
fn input_not_ready_drops_without_logging() {
    let mut so = StreamOutput::new();
    let s1 = video_sample(1, 60);
    so.route_video(false, &s1);
    let logged = so.append_outcome(&s1, false, false);
    assert!(!logged);
    assert_eq!(so.dropped_count(), 1);
    assert_eq!(so.frame_count(), 0);
}

#[test]
fn audio_without_input_is_ignored() {
    let mut so = StreamOutput::new();
    let s = SampleInfo {
        valid: true,
        data_ready: true,
        has_image: false,
        pts_value: 7,
        pts_timescale: 48000,
    };
    assert_eq!(so.route_audio(false, false, &s), AudioVerdict::NoInput);
    assert!(!so.session_started());
}

#[test]
fn audio_first_arrival_anchors_session() {
    let mut so = StreamOutput::new();
    let s = SampleInfo {
        valid: true,
        data_ready: true,
        has_image: false,
        pts_value: 7,
        pts_timescale: 48000,
    };
    assert_eq!(so.route_audio(false, true, &s), AudioVerdict::Append { start_session: true });
    assert!(so.session_started());
    assert_eq!(so.session_start(), (7, 48000));

    // Video arriving later does not re-anchor.
    let v = so.route_video(false, &video_sample(9, 60));
    assert_eq!(v, VideoVerdict::Append { start_session: false });
    assert_eq!(so.session_start(), (7, 48000));
}

#[test]
fn audio_while_paused_dropped() {
    let mut so = StreamOutput::new();
    let s = SampleInfo {
        valid: true,
        data_ready: true,
        has_image: false,
        pts_value: 7,
        pts_timescale: 48000,
    };
    assert_eq!(so.route_audio(true, true, &s), AudioVerdict::DroppedPaused);
}

#[test]
fn progress_logged_every_sixty_frames() {
    let mut so = StreamOutput::new();
    for n in 1..=60i64 {
        let s = video_sample(n, 30);
        assert_eq!(
            so.route_video(false, &s),
            VideoVerdict::Append { start_session: n == 1 }
        );
        so.append_outcome(&s, true, true);
        if n < 60 {
            assert!(!so.should_log_progress());
        }
    }
    assert_eq!(so.frame_count(), 60);
    assert!(so.should_log_progress());
}

#[test]
fn skip_logging_decays() {
    assert!(StreamOutput::should_log_skip(0));
    assert!(StreamOutput::should_log_skip(4));
    assert!(!StreamOutput::should_log_skip(5));
    assert!(!StreamOutput::should_log_skip(99));
    assert!(StreamOutput::should_log_skip(100));
    assert!(StreamOutput::should_log_skip(200));
}

#[test]
fn ninety_frames_at_thirty_fps() {
    // A three-second session: 90 valid frames, none dropped.
    let mut so = StreamOutput::new();
    for n in 1..=90i64 {
        let s = video_sample(n, 30);
        match so.route_video(false, &s) {
            VideoVerdict::Append { .. } => {
                so.append_outcome(&s, true, true);
            }
            other => panic!("frame {} unexpectedly {:?}", n, other),
        }
    }
    assert_eq!(so.frame_count(), 90);
    assert_eq!(so.dropped_count(), 0);
    assert_eq!(so.pts_skip_count(), 0);
}

#[test]
fn invalid_audio_sample_dropped() {
    let mut so = StreamOutput::new();
    let s = SampleInfo {
        valid: true,
        data_ready: false,
        has_image: false,
        pts_value: 7,
        pts_timescale: 48000,
    };
    assert_eq!(so.route_audio(false, true, &s), AudioVerdict::DroppedInvalid);
    assert!(!so.session_started());
}
