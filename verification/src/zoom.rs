//! Auto-zoom viewport control.
//!
//! During recording, a background loop follows the cursor: sustained
//! movement zooms the capture viewport in, stillness zooms it back
//! out, and the viewport pans so the cursor stays well inside it.
//! Spring integration smooths the motion; this module holds the
//! decisions the loop makes each tick and the viewport geometry.
//!
//! Coordinates are logical points in thousandths (milli-points), and
//! zoom levels are in thousandths (`1000` is no zoom). The loop
//! converts its spring positions to these units each tick.

use vstd::prelude::*;

verus! {

/// A rectangle in milli-points, top-left origin.
#[derive(Clone, Copy, Debug, PartialEq, Eq, Structural)]
pub struct Rect {
    pub x: i64,
    pub y: i64,
    pub w: i64,
    pub h: i64,
}

impl Rect {
    pub open spec fn wf(self) -> bool {
        self.w >= 0 && self.h >= 0
    }

    /// `other` lies entirely inside `self`.
    pub open spec fn contains(self, other: Rect) -> bool {
        &&& self.x <= other.x
        &&& self.y <= other.y
        &&& other.x + other.w <= self.x + self.w
        &&& other.y + other.h <= self.y + self.h
    }
}

/// Tuning of the auto-zoom behaviour. Spring stiffness and damping
/// live with the spring integrator in the surrounding loop; here are
/// the values its decisions depend on.
pub struct ZoomConfig {
    /// Maximum zoom level in thousandths.
    pub max_zoom_milli: i64,
    /// Stillness needed before zooming back out, in milliseconds.
    pub idle_delay_ms: u64,
    /// Sustained movement needed before zooming in, in milliseconds.
    pub move_delay_ms: u64,
    /// Movement per tick that counts as "moving", in milli-points.
    pub move_threshold_mp: i64,
    /// Viewport updates per second.
    pub update_rate: u32,
}

impl ZoomConfig {
    pub open spec fn wf(self) -> bool {
        &&& 1000 < self.max_zoom_milli <= 100_000
        &&& 150 < self.idle_delay_ms <= 3_600_000
        &&& 0 < self.move_delay_ms <= 3_600_000
        &&& 0 < self.move_threshold_mp <= 1_000_000
        &&& 0 < self.update_rate <= 1000
    }
}

impl Default for ZoomConfig {
    /// Defaults: 2x maximum zoom, 1 s idle before zooming out,
    /// 0.4 s of sustained movement before zooming in, a 3-point
    /// movement threshold, and 60 updates per second.
    fn default() -> (r: Self)
        ensures
            r.max_zoom_milli == 2000,
            r.idle_delay_ms == 1000,
            r.move_delay_ms == 400,
            r.move_threshold_mp == 3000,
            r.update_rate == 60,
            r.wf(),
    {
        ZoomConfig {
            max_zoom_milli: 2000,
            idle_delay_ms: 1000,
            move_delay_ms: 400,
            move_threshold_mp: 3000,
            update_rate: 60,
        }
    }
}

/// Squared distance between consecutive cursor positions.
pub open spec fn dist2(dx: int, dy: int) -> int {
    dx * dx + dy * dy
}

/// Movement per tick exceeds a threshold, compared on squares so no
/// square root is needed.
pub open spec fn moved_more_than(dx: int, dy: int, threshold: int) -> bool {
    dist2(dx, dy) > threshold * threshold
}

/// Movement and idle bookkeeping between ticks.
pub struct MotionTracker {
    /// How long the cursor has been moving, capped at the
    /// configuration's move delay (only the comparison against that
    /// delay is ever needed).
    move_time_ms: u64,
    /// How long the cursor has been still, capped at the
    /// configuration's idle delay.
    idle_time_ms: u64,
    prev_x_mp: i64,
    prev_y_mp: i64,
}

impl MotionTracker {
    pub closed spec fn spec_move_time_ms(self) -> u64 {
        self.move_time_ms
    }

    pub closed spec fn spec_idle_time_ms(self) -> u64 {
        self.idle_time_ms
    }

    pub closed spec fn spec_prev_pos(self) -> (int, int) {
        (self.prev_x_mp as int, self.prev_y_mp as int)
    }

    pub open spec fn wf(self, cfg: ZoomConfig) -> bool {
        &&& self.spec_move_time_ms() <= cfg.move_delay_ms
        &&& self.spec_idle_time_ms() <= cfg.idle_delay_ms
        &&& -100_000_000 <= self.spec_prev_pos().0 <= 100_000_000
        &&& -100_000_000 <= self.spec_prev_pos().1 <= 100_000_000
    }

    /// Start tracking from the cursor's initial position: idle, so
    /// the session begins zoomed out.
    pub fn new(x_mp: i64, y_mp: i64, cfg: &ZoomConfig) -> (r: MotionTracker)
        requires
            cfg.wf(),
            -100_000_000 <= x_mp <= 100_000_000,
            -100_000_000 <= y_mp <= 100_000_000,
        ensures
            r.wf(*cfg),
            r.spec_move_time_ms() == 0,
            r.spec_idle_time_ms() == cfg.idle_delay_ms,
            r.spec_prev_pos() == (x_mp as int, y_mp as int),
    {
        MotionTracker {
            move_time_ms: 0,
            idle_time_ms: cfg.idle_delay_ms,
            prev_x_mp: x_mp,
            prev_y_mp: y_mp,
        }
    }

    /// Full relation between the state before and after `tick`.
    ///
    /// Two thresholds apply: a large movement is needed to trigger a
    /// zoom (and accumulate move time), but once zoomed in, a tiny
    /// half-point movement is enough to stay zoomed. Move time resets
    /// only after 150 ms of true stillness.
    pub open spec fn tick_rel(
        pre: MotionTracker,
        x: int,
        y: int,
        dt: int,
        zoomed_in: bool,
        cfg: ZoomConfig,
        post: MotionTracker,
    ) -> bool {
        let dx = x - pre.spec_prev_pos().0;
        let dy = y - pre.spec_prev_pos().1;
        let active = if zoomed_in {
            500
        } else {
            cfg.move_threshold_mp as int
        };
        &&& post.spec_prev_pos() == (x, y)
        &&& (moved_more_than(dx, dy, active) ==> {
            &&& post.spec_idle_time_ms() == 0
            &&& (moved_more_than(dx, dy, cfg.move_threshold_mp as int)
                ==> post.spec_move_time_ms() == min_u64(
                (pre.spec_move_time_ms() + dt) as u64,
                cfg.move_delay_ms,
            ))
            &&& (!moved_more_than(dx, dy, cfg.move_threshold_mp as int)
                ==> post.spec_move_time_ms() == pre.spec_move_time_ms())
        })
        &&& (!moved_more_than(dx, dy, active) ==> {
            &&& post.spec_idle_time_ms() == min_u64(
                (pre.spec_idle_time_ms() + dt) as u64,
                cfg.idle_delay_ms,
            )
            &&& (post.spec_idle_time_ms() > 150 ==> post.spec_move_time_ms() == 0)
            &&& (post.spec_idle_time_ms() <= 150 ==> post.spec_move_time_ms()
                == pre.spec_move_time_ms())
        })
    }

    /// Advance one tick with the cursor at `(x_mp, y_mp)`.
    /// `zoomed_in` reports whether the current zoom level exceeds
    /// 1.05x, which lowers the movement threshold to half a point.
    pub fn tick(
        &mut self,
        x_mp: i64,
        y_mp: i64,
        dt_ms: u64,
        zoomed_in: bool,
        cfg: &ZoomConfig,
    )
        requires
            old(self).wf(*cfg),
            cfg.wf(),
            -100_000_000 <= x_mp <= 100_000_000,
            -100_000_000 <= y_mp <= 100_000_000,
            0 < dt_ms <= 1000,
        ensures
            final(self).wf(*cfg),
            MotionTracker::tick_rel(
                *old(self),
                x_mp as int,
                y_mp as int,
                dt_ms as int,
                zoomed_in,
                *cfg,
                *final(self),
            ),
    {
        let dx: i64 = x_mp - self.prev_x_mp;
        let dy: i64 = y_mp - self.prev_y_mp;
        proof {
            assert(0 <= dx * dx <= 40_000_000_000_000_000i64 && 0 <= dy * dy
                <= 40_000_000_000_000_000i64) by (nonlinear_arith)
                requires
                    -200_000_000 <= dx <= 200_000_000,
                    -200_000_000 <= dy <= 200_000_000,
            ;
        }
        let moved2: i64 = dx * dx + dy * dy;
        self.prev_x_mp = x_mp;
        self.prev_y_mp = y_mp;
        let active: i64 = if zoomed_in {
            500
        } else {
            cfg.move_threshold_mp
        };
        proof {
            assert(0 <= active * active <= 1_000_000_000_000i64 && 0 <= cfg.move_threshold_mp
                * cfg.move_threshold_mp <= 1_000_000_000_000i64) by (nonlinear_arith)
                requires
                    0 < active <= 1_000_000,
                    0 < cfg.move_threshold_mp <= 1_000_000,
            ;
        }
        if moved2 > active * active {
            if moved2 > cfg.move_threshold_mp * cfg.move_threshold_mp {
                self.move_time_ms = cap_add(self.move_time_ms, dt_ms, cfg.move_delay_ms);
            }
            self.idle_time_ms = 0;
        } else {
            self.idle_time_ms = cap_add(self.idle_time_ms, dt_ms, cfg.idle_delay_ms);
            if self.idle_time_ms > 150 {
                self.move_time_ms = 0;
            }
        }
    }

    /// The zoom target this tick: full zoom exactly when movement has
    /// been sustained long enough and the cursor has not gone idle.
    pub fn target_zoom_milli(&self, cfg: &ZoomConfig) -> (r: i64)
        requires
            self.wf(*cfg),
            cfg.wf(),
        ensures
            r == (if self.spec_move_time_ms() >= cfg.move_delay_ms && self.spec_idle_time_ms()
                < cfg.idle_delay_ms {
                cfg.max_zoom_milli as int
            } else {
                1000int
            }),
    {
        if self.move_time_ms >= cfg.move_delay_ms && self.idle_time_ms < cfg.idle_delay_ms {
            cfg.max_zoom_milli
        } else {
            1000
        }
    }
}

pub open spec fn min_u64(a: u64, b: u64) -> u64 {
    if a <= b {
        a
    } else {
        b
    }
}

/// `min(a + b, cap)` without overflow.
fn cap_add(a: u64, b: u64, cap: u64) -> (r: u64)
    requires
        a <= cap,
        b <= 3_600_000,
        cap <= u64::MAX - 3_600_000,
    ensures
        r == min_u64((a + b) as u64, cap),
{
    if a + b <= cap {
        a + b
    } else {
        cap
    }
}

/// Clamp `v` into `[lo, hi]`.
pub open spec fn spec_clamp(v: int, lo: int, hi: int) -> int {
    if v < lo {
        lo
    } else if v > hi {
        hi
    } else {
        v
    }
}

fn clamp_i64(v: i64, lo: i64, hi: i64) -> (r: i64)
    requires
        lo <= hi,
    ensures
        r == spec_clamp(v as int, lo as int, hi as int),
        lo <= r <= hi,
{
    if v < lo {
        lo
    } else if v > hi {
        hi
    } else {
        v
    }
}

/// A recording region is a rectangle of bounded, positive size with
/// bounded coordinates.
pub open spec fn region_wf(region: Rect) -> bool {
    &&& -100_000_000 <= region.x <= 100_000_000
    &&& -100_000_000 <= region.y <= 100_000_000
    &&& 1000 <= region.w <= 100_000_000
    &&& 1000 <= region.h <= 100_000_000
}

/// Viewport edge length at a zoom level: the region edge divided by
/// the zoom factor (thousandths, truncating).
pub open spec fn spec_viewport_len(region_len: int, zoom_milli: int) -> int {
    region_len * 1000 / zoom_milli
}

/// Viewport size at the current zoom level. At 1x this is the whole
/// region; at higher zoom it shrinks proportionally, never below a
/// thousandth of the region nor above the region itself.
pub fn viewport_size(region: &Rect, zoom_milli: i64) -> (r: (i64, i64))
    requires
        region_wf(*region),
        1000 <= zoom_milli <= 100_000,
    ensures
        r.0 == spec_viewport_len(region.w as int, zoom_milli as int),
        r.1 == spec_viewport_len(region.h as int, zoom_milli as int),
        0 < r.0 <= region.w,
        0 < r.1 <= region.h,
        zoom_milli == 1000 ==> r.0 == region.w && r.1 == region.h,
{
    proof {
        lemma_viewport_len_bounds(region.w as int, zoom_milli as int);
        lemma_viewport_len_bounds(region.h as int, zoom_milli as int);
    }
    let vw: i64 = region.w * 1000 / zoom_milli;
    let vh: i64 = region.h * 1000 / zoom_milli;
    (vw, vh)
}

proof fn lemma_viewport_len_bounds(len: int, zoom: int)
    requires
        1000 <= len <= 100_000_000,
        1000 <= zoom <= 100_000,
    ensures
        0 < spec_viewport_len(len, zoom) <= len,
        zoom == 1000 ==> spec_viewport_len(len, zoom) == len,
{
    assert(len * 1000 / zoom <= len && len * 1000 / zoom >= 1) by (nonlinear_arith)
        requires
            1000 <= len,
            1000 <= zoom <= 100_000,
            len <= 100_000_000,
    ;
    assert(len * 1000 / 1000 == len) by (nonlinear_arith);
}

/// Clamp the cursor so a viewport of the given size centred on the
/// result stays inside the region on that axis.
pub fn clamp_center(cursor: i64, region_lo: i64, region_len: i64, viewport_len: i64) -> (r: i64)
    requires
        -100_000_000 <= region_lo <= 100_000_000,
        0 < region_len <= 100_000_000,
        0 < viewport_len <= region_len,
        -9_223_372_036_854_000_000 <= cursor <= 9_223_372_036_854_000_000,
    ensures
        r == spec_clamp(
            cursor as int,
            region_lo + viewport_len / 2,
            region_lo + region_len - (viewport_len - viewport_len / 2),
        ),
        region_lo <= r - viewport_len / 2,
        r + (viewport_len - viewport_len / 2) <= region_lo + region_len,
{
    let half_lo: i64 = viewport_len / 2;
    let half_hi: i64 = viewport_len - half_lo;
    clamp_i64(cursor, region_lo + half_lo, region_lo + region_len - half_hi)
}

/// The view counts as zoomed in above 1.05x: from there, the lower
/// half-point movement threshold keeps the zoom alive.
pub fn is_zoomed_in(zoom_milli: i64) -> (r: bool)
    ensures
        r == (zoom_milli > 1050),
{
    zoom_milli > 1050
}

/// Clamp the zoom spring's position into the valid zoom range.
pub fn clamp_zoom_milli(zoom_milli: i64, cfg: &ZoomConfig) -> (r: i64)
    requires
        cfg.wf(),
    ensures
        r == spec_clamp(zoom_milli as int, 1000, cfg.max_zoom_milli as int),
        1000 <= r <= 100_000,
{
    clamp_i64(zoom_milli, 1000, cfg.max_zoom_milli)
}

/// Whether the pan target follows the cursor directly (the two-pass
/// policy) or blends back toward the region centre: the cursor is
/// followed only while visibly zoomed in and not on the way out.
pub fn pan_follows_cursor(zoom_milli: i64, ratio_milli: i64) -> (r: bool)
    ensures
        r == (zoom_milli > 1010 && ratio_milli > 500),
{
    zoom_milli > 1010 && ratio_milli > 500
}

/// How far the view has zoomed in, in thousandths of the way from 1x
/// to full zoom; used to blend the pan back to the region centre
/// while zooming out.
pub fn effective_zoom_ratio(zoom_milli: i64, max_zoom_milli: i64) -> (r: i64)
    requires
        1000 <= zoom_milli <= 100_000,
        1000 < max_zoom_milli <= 100_000,
    ensures
        r == spec_clamp(
            (zoom_milli - 1000) * 1000 / (max_zoom_milli - 1000),
            0,
            1000,
        ),
        0 <= r <= 1000,
        zoom_milli == 1000 ==> r == 0,
        zoom_milli >= max_zoom_milli ==> r == 1000,
{
    proof {
        assert((zoom_milli - 1000) * 1000 / (max_zoom_milli - 1000) >= 0) by (nonlinear_arith)
            requires
                1000 <= zoom_milli,
                1000 < max_zoom_milli,
        ;
        if zoom_milli >= max_zoom_milli {
            assert((zoom_milli - 1000) * 1000 / (max_zoom_milli - 1000) >= 1000)
                by (nonlinear_arith)
                requires
                    1000 < max_zoom_milli <= zoom_milli,
            ;
        }
    }
    let num: i64 = (zoom_milli - 1000) * 1000;
    clamp_i64(num / (max_zoom_milli - 1000), 0, 1000)
}

/// The first pass of the pan policy: the soft target. The offset of
/// the cursor from the current centre is scaled by the cube of its
/// normalized magnitude (thousandths of the viewport half-extent),
/// truncating toward zero; a half-extent of a tenth of a point or
/// less eases not at all.
pub open spec fn spec_soft_pan(cursor: int, current_center: int, viewport_len: int) -> int {
    let half = viewport_len / 2;
    let dx = cursor - current_center;
    let mag = if dx >= 0 {
        dx
    } else {
        -dx
    };
    let nx = if half > 100 {
        spec_clamp(mag * 1000 / half, 0, 1000)
    } else {
        0
    };
    let strength = nx * nx * nx / 1_000_000;
    let step = mag * strength / 1000;
    if dx >= 0 {
        current_center + step
    } else {
        current_center - step
    }
}

/// Pan target for one axis while zoomed in, in two passes.
///
/// Pass one eases the viewport centre toward the cursor: the offset
/// is scaled by the cube of the normalized distance from the centre,
/// so small excursions barely move the view and deliberate motion is
/// followed smoothly.
///
/// Pass two is the hard guarantee: the result is clamped so the
/// cursor sits within ninety percent of the viewport half-extent of
/// the returned centre. The cursor never touches the viewport edge.
pub fn pan_target_zoomed(cursor: i64, current_center: i64, viewport_len: i64) -> (r: i64)
    requires
        -200_000_000 <= cursor <= 200_000_000,
        -200_000_000 <= current_center <= 200_000_000,
        0 < viewport_len <= 100_000_000,
    ensures
        r == spec_clamp(
            spec_soft_pan(cursor as int, current_center as int, viewport_len as int),
            cursor - (viewport_len / 2) * 9 / 10,
            cursor + (viewport_len / 2) * 9 / 10,
        ),
        cursor - (viewport_len / 2) * 9 / 10 <= r <= cursor + (viewport_len / 2) * 9 / 10,
{
    let half: i64 = viewport_len / 2;
    let dx: i64 = cursor - current_center;
    let nx: i64 = if half > 100 {
        let mag: i64 = if dx >= 0 {
            dx
        } else {
            -dx
        };
        proof {
            assert(mag * 1000 <= 400_000_000_000i64) by (nonlinear_arith)
                requires
                    0 <= mag <= 400_000_000,
            ;
        }
        clamp_i64(mag * 1000 / half, 0, 1000)
    } else {
        0
    };
    // Cubic ease-in: nx is in [0, 1000], so nx^3 fits comfortably.
    proof {
        assert(0 <= nx * nx <= 1_000_000i64 && 0 <= nx * nx * nx <= 1_000_000_000i64 && nx * nx
            * nx / 1_000_000 <= 1000) by (nonlinear_arith)
            requires
                0 <= nx <= 1000,
        ;
    }
    let strength: i64 = nx * nx * nx / 1_000_000;
    let dx_mag: i64 = if dx >= 0 {
        dx
    } else {
        -dx
    };
    proof {
        assert(0 <= dx_mag * strength <= 400_000_000_000i64) by (nonlinear_arith)
            requires
                0 <= dx_mag <= 400_000_000,
                0 <= strength <= 1000,
        ;
    }
    let step: i64 = dx_mag * strength / 1000;
    let soft: i64 = if dx >= 0 {
        current_center + step
    } else {
        current_center - step
    };
    let safe_half: i64 = half * 9 / 10;
    proof {
        assert(half * 9 / 10 >= 0 && half * 9 / 10 <= half) by (nonlinear_arith)
            requires
                0 <= half <= 50_000_000,
        ;
        assert(soft == spec_soft_pan(cursor as int, current_center as int, viewport_len as int));
    }
    clamp_i64(soft, cursor - safe_half, cursor + safe_half)
}

/// Move from `center` toward `center + delta` by `ratio` thousandths,
/// truncating the scaled offset toward zero.
pub open spec fn spec_blend(center: int, delta: int, ratio: int) -> int {
    if delta >= 0 {
        center + delta * ratio / 1000
    } else {
        center - (-delta) * ratio / 1000
    }
}

/// Pan target for one axis while zoomed out or zooming out: blend
/// linearly between the region centre and the clamped cursor by how
/// far the zoom has progressed.
pub fn pan_target_blended(
    region_lo: i64,
    region_len: i64,
    clamped_cursor: i64,
    ratio_milli: i64,
) -> (r: i64)
    requires
        -100_000_000 <= region_lo <= 100_000_000,
        0 < region_len <= 100_000_000,
        region_lo <= clamped_cursor <= region_lo + region_len,
        0 <= ratio_milli <= 1000,
    ensures
        r == spec_blend(
            region_lo + region_len / 2,
            clamped_cursor - (region_lo + region_len / 2),
            ratio_milli as int,
        ),
        ratio_milli == 0 ==> r == region_lo + region_len / 2,
        ratio_milli == 1000 ==> r == clamped_cursor,
{
    let center: i64 = region_lo + region_len / 2;
    let delta: i64 = clamped_cursor - center;
    let mag: i64 = if delta >= 0 {
        delta
    } else {
        -delta
    };
    proof {
        assert(0 <= mag * ratio_milli <= 200_000_000_000i64) by (nonlinear_arith)
            requires
                0 <= mag <= 200_000_000,
                0 <= ratio_milli <= 1000,
        ;
        assert(mag * 1000 / 1000 == mag) by (nonlinear_arith);
        assert(mag * 0 == 0) by (nonlinear_arith);
    }
    let step: i64 = mag * ratio_milli / 1000;
    if delta >= 0 {
        center + step
    } else {
        center - step
    }
}

/// Final viewport rectangle for the tick: centred as close to the pan
/// position as the region allows, always entirely inside the region.
pub fn viewport_rect(region: &Rect, zoom_milli: i64, pan_x: i64, pan_y: i64) -> (r: Rect)
    requires
        region_wf(*region),
        1000 <= zoom_milli <= 100_000,
        -9_223_372_036_854_000_000 <= pan_x <= 9_223_372_036_854_000_000,
        -9_223_372_036_854_000_000 <= pan_y <= 9_223_372_036_854_000_000,
    ensures
        r.wf(),
        region.contains(r),
        r.w == spec_viewport_len(region.w as int, zoom_milli as int),
        r.h == spec_viewport_len(region.h as int, zoom_milli as int),
        // The origin follows the pan position: the centre is the pan
        // clamped so the viewport fits the region on that axis.
        r.x == spec_clamp(
            pan_x as int,
            region.x + r.w / 2,
            region.x + region.w - (r.w - r.w / 2),
        ) - r.w / 2,
        r.y == spec_clamp(
            pan_y as int,
            region.y + r.h / 2,
            region.y + region.h - (r.h - r.h / 2),
        ) - r.h / 2,
        zoom_milli == 1000 ==> r == *region,
{
    let (vw, vh) = viewport_size(region, zoom_milli);
    let cx: i64 = clamp_center(pan_x, region.x, region.w, vw);
    let cy: i64 = clamp_center(pan_y, region.y, region.h, vh);
    Rect { x: cx - vw / 2, y: cy - vh / 2, w: vw, h: vh }
}

/// The pan targets a tick hands to the pan springs, for both axes.
///
/// While visibly zoomed in and not zooming out, the two-pass policy
/// applies: cubic ease-in toward the clamped cursor, then the hard
/// clamp that keeps the cursor within ninety percent of the
/// viewport. Otherwise the target blends from the clamped cursor
/// back to the region centre by how far the zoom has progressed.
pub fn pan_targets(
    region: &Rect,
    zoom_milli: i64,
    zooming_in: bool,
    cursor_x: i64,
    cursor_y: i64,
    center_x: i64,
    center_y: i64,
    cfg: &ZoomConfig,
) -> (r: (i64, i64))
    requires
        region_wf(*region),
        cfg.wf(),
        1000 <= zoom_milli <= 100_000,
        -200_000_000 <= cursor_x <= 200_000_000,
        -200_000_000 <= cursor_y <= 200_000_000,
        -200_000_000 <= center_x <= 200_000_000,
        -200_000_000 <= center_y <= 200_000_000,
    ensures
        ({
            let vw = spec_viewport_len(region.w as int, zoom_milli as int);
            let vh = spec_viewport_len(region.h as int, zoom_milli as int);
            let tx = spec_clamp(
                cursor_x as int,
                region.x + vw / 2,
                region.x + region.w - (vw - vw / 2),
            );
            let ty = spec_clamp(
                cursor_y as int,
                region.y + vh / 2,
                region.y + region.h - (vh - vh / 2),
            );
            let ratio = if zooming_in {
                1000int
            } else {
                spec_clamp(
                    (zoom_milli - 1000) * 1000 / (cfg.max_zoom_milli - 1000),
                    0,
                    1000,
                )
            };
            if zoom_milli > 1010 && ratio > 500 {
                // The two-pass policy: soft ease-in, then the hard
                // guarantee that keeps the cursor in view.
                &&& r.0 == spec_clamp(
                    spec_soft_pan(tx, center_x as int, vw),
                    tx - (vw / 2) * 9 / 10,
                    tx + (vw / 2) * 9 / 10,
                )
                &&& r.1 == spec_clamp(
                    spec_soft_pan(ty, center_y as int, vh),
                    ty - (vh / 2) * 9 / 10,
                    ty + (vh / 2) * 9 / 10,
                )
                &&& tx - (vw / 2) * 9 / 10 <= r.0 <= tx + (vw / 2) * 9 / 10
                &&& ty - (vh / 2) * 9 / 10 <= r.1 <= ty + (vh / 2) * 9 / 10
            } else {
                &&& r.0 == spec_blend(region.x + region.w / 2, tx - (region.x + region.w / 2), ratio)
                &&& r.1 == spec_blend(region.y + region.h / 2, ty - (region.y + region.h / 2), ratio)
            }
        }),
{
    let (vw, vh) = viewport_size(region, zoom_milli);
    let tx = clamp_center(cursor_x, region.x, region.w, vw);
    let ty = clamp_center(cursor_y, region.y, region.h, vh);
    let ratio: i64 = if zooming_in {
        1000
    } else {
        effective_zoom_ratio(zoom_milli, cfg.max_zoom_milli)
    };
    if pan_follows_cursor(zoom_milli, ratio) {
        (pan_target_zoomed(tx, center_x, vw), pan_target_zoomed(ty, center_y, vh))
    } else {
        (
            pan_target_blended(region.x, region.w, tx, ratio),
            pan_target_blended(region.y, region.h, ty, ratio),
        )
    }
}

/// Skip pushing a reconfiguration when nothing would visibly change:
/// the zoom is within five thousandths of 1x, the springs have
/// settled below their velocity deadbands, and at least one update
/// has already been pushed.
pub fn should_skip_update(zoom_milli: i64, springs_settled: bool, update_count: u64) -> (r: bool)
    requires
        0 <= zoom_milli <= 200_000,
    ensures
        r == ((-5 < zoom_milli - 1000 < 5) && springs_settled && update_count > 1),
{
    let near_one = zoom_milli > 995 && zoom_milli < 1005;
    near_one && springs_settled && update_count > 1
}

/// At 1x zoom with the pan centred, the viewport is exactly the
/// recording region: restoring the full region on stop is the same
/// as a final tick at zoom 1000.
pub proof fn lemma_full_zoom_out_restores_region(region: Rect)
    requires
        region_wf(region),
    ensures
        spec_viewport_len(region.w as int, 1000) == region.w,
        spec_viewport_len(region.h as int, 1000) == region.h,
{
    lemma_viewport_len_bounds(region.w as int, 1000);
    lemma_viewport_len_bounds(region.h as int, 1000);
}

/// The cursor stays inside ninety percent of the output viewport,
/// per axis, once the pan spring has settled on its target.
///
/// `tx` is the cursor clamped so a viewport centred on it fits the
/// region (what `clamp_center` returns); `pan` is anywhere within
/// the hard guarantee of `pan_target_zoomed`; the final viewport
/// centre is `pan` clamped into the region as `viewport_rect` does.
/// The cursor then sits within ninety percent of the viewport
/// half-extent of that centre: it never touches the viewport edge.
pub proof fn lemma_cursor_visible_on_axis(
    region_lo: int,
    region_len: int,
    viewport_len: int,
    tx: int,
    pan: int,
)
    requires
        0 < viewport_len <= region_len,
        region_lo + viewport_len / 2 <= tx <= region_lo + region_len - (viewport_len
            - viewport_len / 2),
        tx - (viewport_len / 2) * 9 / 10 <= pan <= tx + (viewport_len / 2) * 9 / 10,
    ensures
        ({
            let center = spec_clamp(
                pan,
                region_lo + viewport_len / 2,
                region_lo + region_len - (viewport_len - viewport_len / 2),
            );
            center - (viewport_len / 2) * 9 / 10 <= tx <= center + (viewport_len / 2) * 9 / 10
        }),
{
}

/// The cursor-visibility guarantee at the level of the output
/// rectangle: whenever the pan springs sit on (or anywhere within
/// the hard bounds of) their two-pass targets, the clamped cursor
/// lies within the central ninety percent of the viewport that
/// `viewport_rect` produces, on both axes — a ten percent margin of
/// the half-extent per edge. The spring may lag its target between
/// ticks; this is the settled state the targets steer toward.
pub proof fn lemma_cursor_visible_in_viewport_rect(
    region: Rect,
    zoom_milli: int,
    cursor_x: int,
    cursor_y: int,
    pan_x: int,
    pan_y: int,
    r: Rect,
)
    requires
        region_wf(region),
        1000 <= zoom_milli <= 100_000,
        // The rectangle is the one `viewport_rect` builds for this
        // pan position.
        r.w == spec_viewport_len(region.w as int, zoom_milli),
        r.h == spec_viewport_len(region.h as int, zoom_milli),
        r.x == spec_clamp(pan_x, region.x + r.w / 2, region.x + region.w - (r.w - r.w / 2)) - r.w
            / 2,
        r.y == spec_clamp(pan_y, region.y + r.h / 2, region.y + region.h - (r.h - r.h / 2)) - r.h
            / 2,
        // The pan lies within the hard bounds of the two-pass target
        // for the clamped cursor, as `pan_target_zoomed` ensures.
        ({
            let tx = spec_clamp(
                cursor_x,
                region.x + r.w / 2,
                region.x + region.w - (r.w - r.w / 2),
            );
            tx - (r.w / 2) * 9 / 10 <= pan_x <= tx + (r.w / 2) * 9 / 10
        }),
        ({
            let ty = spec_clamp(
                cursor_y,
                region.y + r.h / 2,
                region.y + region.h - (r.h - r.h / 2),
            );
            ty - (r.h / 2) * 9 / 10 <= pan_y <= ty + (r.h / 2) * 9 / 10
        }),
    ensures
        ({
            let tx = spec_clamp(
                cursor_x,
                region.x + r.w / 2,
                region.x + region.w - (r.w - r.w / 2),
            );
            r.x + (r.w / 2 - (r.w / 2) * 9 / 10) <= tx <= r.x + r.w / 2 + (r.w / 2) * 9 / 10
        }),
        ({
            let ty = spec_clamp(
                cursor_y,
                region.y + r.h / 2,
                region.y + region.h - (r.h - r.h / 2),
            );
            r.y + (r.h / 2 - (r.h / 2) * 9 / 10) <= ty <= r.y + r.h / 2 + (r.h / 2) * 9 / 10
        }),
{
    lemma_viewport_len_bounds(region.w as int, zoom_milli);
    lemma_viewport_len_bounds(region.h as int, zoom_milli);
    let tx = spec_clamp(cursor_x, region.x + r.w / 2, region.x + region.w - (r.w - r.w / 2));
    let ty = spec_clamp(cursor_y, region.y + r.h / 2, region.y + region.h - (r.h - r.h / 2));
    lemma_cursor_visible_on_axis(region.x as int, region.w as int, r.w as int, tx, pan_x);
    lemma_cursor_visible_on_axis(region.y as int, region.h as int, r.h as int, ty, pan_y);
}

} // verus!
