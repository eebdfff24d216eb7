use zureshot::zoom::{
    clamp_zoom_milli, effective_zoom_ratio, is_zoomed_in, pan_follows_cursor,
    pan_target_blended, pan_target_zoomed, pan_targets, should_skip_update, viewport_rect,
    viewport_size, MotionTracker, Rect, ZoomConfig,
};
use zureshot::capture::zoom_reconfiguration;

fn region() -> Rect {
    // A 400x300-point region at (100, 100), in milli-points.
    Rect { x: 100_000, y: 100_000, w: 400_000, h: 300_000 }
}

#[test]
fn default_config_values() {
    let cfg = ZoomConfig::default();
    assert_eq!(cfg.max_zoom_milli, 2000);
    assert_eq!(cfg.idle_delay_ms, 1000);
    assert_eq!(cfg.move_delay_ms, 400);
    assert_eq!(cfg.move_threshold_mp, 3000);
    assert_eq!(cfg.update_rate, 60);
}

#[test]
fn stationary_cursor_never_zooms() {
    // A cursor sitting at the region centre: the target stays 1x on
    // every tick and the deadband suppresses reconfigurations.
    let cfg = ZoomConfig::default();
    let mut motion = MotionTracker::new(300_000, 250_000, &cfg);
    for _ in 0..120 {
        motion.tick(300_000, 250_000, 16, false, &cfg);
        assert_eq!(motion.target_zoom_milli(&cfg), 1000);
    }
    assert!(should_skip_update(1000, true, 2));
}

#[test]
fn sustained_movement_triggers_full_zoom() {
    let cfg = ZoomConfig::default();
    let mut motion = MotionTracker::new(0, 0, &cfg);
    let mut x: i64 = 0;
    // 5 points of movement per 16 ms tick for half a second.
    for _ in 0..31 {
        x += 5000;
        motion.tick(x, 0, 16, false, &cfg);
    }
    assert_eq!(motion.target_zoom_milli(&cfg), cfg.max_zoom_milli);
}

#[test]
fn brief_movement_does_not_zoom() {
    let cfg = ZoomConfig::default();
    let mut motion = MotionTracker::new(0, 0, &cfg);
    // Only five ticks of movement: well under the 400 ms move delay.
    let mut x: i64 = 0;
    for _ in 0..5 {
        x += 5000;
        motion.tick(x, 0, 16, false, &cfg);
    }
    assert_eq!(motion.target_zoom_milli(&cfg), 1000);
}

#[test]
fn micro_movement_keeps_zoom_alive() {
    let cfg = ZoomConfig::default();
    let mut motion = MotionTracker::new(0, 0, &cfg);
    // Reach full zoom first.
    let mut x: i64 = 0;
    for _ in 0..31 {
        x += 5000;
        motion.tick(x, 0, 16, false, &cfg);
    }
    // Then hover with one-point jitter, below the big threshold but
    // above the half-point keep-alive threshold, while zoomed in.
    for i in 0..60 {
        let jitter = if i % 2 == 0 { 1000 } else { -1000 };
        motion.tick(x + jitter, 0, 16, true, &cfg);
        assert_eq!(motion.target_zoom_milli(&cfg), cfg.max_zoom_milli);
    }
}

#[test]
fn stillness_zooms_back_out() {
    let cfg = ZoomConfig::default();
    let mut motion = MotionTracker::new(0, 0, &cfg);
    let mut x: i64 = 0;
    for _ in 0..31 {
        x += 5000;
        motion.tick(x, 0, 16, false, &cfg);
    }
    assert_eq!(motion.target_zoom_milli(&cfg), cfg.max_zoom_milli);
    // A full second of true stillness.
    for _ in 0..70 {
        motion.tick(x, 0, 16, true, &cfg);
    }
    assert_eq!(motion.target_zoom_milli(&cfg), 1000);
}

#[test]
fn viewport_at_full_zoom_out_is_the_region() {
    let r = region();
    assert_eq!(viewport_size(&r, 1000), (r.w, r.h));
    let rect = viewport_rect(&r, 1000, 0, 0);
    assert_eq!(rect, r);
}

#[test]
fn viewport_halves_at_double_zoom() {
    let r = region();
    assert_eq!(viewport_size(&r, 2000), (200_000, 150_000));
}

#[test]
fn viewport_stays_inside_region_at_extreme_pan() {
    let r = region();
    for &(px, py) in &[
        (i64::MIN / 4, i64::MIN / 4),
        (0, 0),
        (300_000, 250_000),
        (i64::MAX / 4, i64::MAX / 4),
    ] {
        let rect = viewport_rect(&r, 2000, px, py);
        assert!(r.x <= rect.x);
        assert!(r.y <= rect.y);
        assert!(rect.x + rect.w <= r.x + r.w);
        assert!(rect.y + rect.h <= r.y + r.h);
    }
}

#[test]
fn cursor_kept_inside_ninety_percent_of_viewport() {
    // Wherever the view currently is, the pan target keeps the
    // cursor within 90 percent of the viewport half-extent.
    let viewport_len = 200_000;
    let safe_half = (viewport_len / 2) * 9 / 10;
    for &cursor in &[150_000i64, 300_000, 450_000] {
        for &center in &[100_000i64, 300_000, 500_000] {
            let target = pan_target_zoomed(cursor, center, viewport_len);
            assert!(target >= cursor - safe_half);
            assert!(target <= cursor + safe_half);
        }
    }
}

#[test]
fn small_excursions_barely_move_the_view() {
    // Cursor two points from the centre of a 200-point viewport:
    // the cubic ease-in leaves the view essentially still.
    let center = 300_000;
    let target = pan_target_zoomed(center + 2000, center, 200_000);
    assert!((target - center).abs() <= 10);
}

#[test]
fn blend_endpoints() {
    // Ratio 0 pins the centre; ratio 1000 pins the clamped cursor.
    assert_eq!(pan_target_blended(100_000, 400_000, 350_000, 0), 300_000);
    assert_eq!(pan_target_blended(100_000, 400_000, 350_000, 1000), 350_000);
    // Halfway blends halfway.
    assert_eq!(pan_target_blended(100_000, 400_000, 350_000, 500), 325_000);
}

#[test]
fn zoom_ratio_endpoints() {
    assert_eq!(effective_zoom_ratio(1000, 2000), 0);
    assert_eq!(effective_zoom_ratio(2000, 2000), 1000);
    assert_eq!(effective_zoom_ratio(1500, 2000), 500);
}

#[test]
fn deadband_skips_only_settled_near_one() {
    assert!(should_skip_update(1000, true, 2));
    assert!(should_skip_update(1004, true, 10));
    assert!(!should_skip_update(1005, true, 10));
    assert!(!should_skip_update(1000, false, 10));
    assert!(!should_skip_update(1000, true, 0));
    assert!(!should_skip_update(2000, true, 10));
}

#[test]
fn zoomed_in_threshold() {
    assert!(!is_zoomed_in(1000));
    assert!(!is_zoomed_in(1050));
    assert!(is_zoomed_in(1051));
}

#[test]
fn zoom_spring_position_clamped() {
    let cfg = ZoomConfig::default();
    assert_eq!(clamp_zoom_milli(900, &cfg), 1000);
    assert_eq!(clamp_zoom_milli(1500, &cfg), 1500);
    assert_eq!(clamp_zoom_milli(2500, &cfg), 2000);
}

#[test]
fn pan_mode_selection() {
    // Following needs a visible zoom and a mostly zoomed-in view.
    assert!(pan_follows_cursor(2000, 1000));
    assert!(!pan_follows_cursor(1005, 1000));
    assert!(!pan_follows_cursor(2000, 500));
}

#[test]
fn tick_targets_follow_or_blend() {
    let cfg = ZoomConfig::default();
    let r = region();
    // Fully zoomed in: the two-pass policy keeps the clamped cursor
    // within the 90 percent interior around the target.
    let (px, py) = pan_targets(&r, 2000, true, 300_000, 250_000, 120_000, 110_000, &cfg);
    assert!(px >= 300_000 - 90_000 && px <= 300_000 + 90_000);
    assert!(py >= 250_000 - 67_500 && py <= 250_000 + 67_500);
    // Zoomed all the way out: the target is the region centre.
    let (cx, cy) = pan_targets(&r, 1000, false, 450_000, 350_000, 300_000, 250_000, &cfg);
    assert_eq!((cx, cy), (300_000, 250_000));
}

#[test]
fn tick_reconfiguration_deadband_and_viewport() {
    let r = region();
    // Settled at 1x after the first update: no reconfiguration.
    assert!(zoom_reconfiguration(&r, 1000, 0, 0, true, 5, 800, 600, false, false).is_none());
    // Zoomed in: a full configuration whose viewport sits inside the
    // region with the audio settings stated again.
    let c = zoom_reconfiguration(&r, 2000, 300_000, 250_000, false, 5, 800, 600, true, false)
        .expect("zoomed tick must reconfigure");
    let v = c.source_rect.expect("viewport set");
    assert_eq!((v.w, v.h), (200_000, 150_000));
    assert!(v.x >= r.x && v.y >= r.y);
    assert!(v.x + v.w <= r.x + r.w && v.y + v.h <= r.y + r.h);
    assert_eq!(c.dest_rect, Some((800, 600)));
    assert!(c.scales_to_fit && c.captures_audio && !c.captures_microphone);
    assert_eq!((c.sample_rate, c.channel_count), (48000, 2));
}

#[test]
fn soft_pan_eases_by_the_cubic() {
    // Cursor half a viewport half-extent from the centre: the cube
    // of the normalized offset is an eighth, so the view moves an
    // eighth of the offset.
    assert_eq!(pan_target_zoomed(300_000, 250_000, 200_000), 256_250);
    // A fully deflected cursor pulls the target all the way to it.
    assert_eq!(pan_target_zoomed(450_000, 100_000, 200_000), 450_000);
    // A cursor at the centre leaves the view exactly still.
    assert_eq!(pan_target_zoomed(300_000, 300_000, 200_000), 300_000);
}

#[test]
fn viewport_origin_follows_the_pan() {
    let r = region();
    // A pan left and above the reachable band clamps to the region's
    // top-left corner.
    let corner = viewport_rect(&r, 2000, 150_000, 120_000);
    assert_eq!((corner.x, corner.y), (100_000, 100_000));
    // A centred pan centres the viewport.
    let centred = viewport_rect(&r, 2000, 300_000, 250_000);
    assert_eq!((centred.x, centred.y), (200_000, 175_000));
    // An in-band pan lands exactly there.
    let inband = viewport_rect(&r, 2000, 250_000, 200_000);
    assert_eq!((inband.x, inband.y), (150_000, 125_000));
}
