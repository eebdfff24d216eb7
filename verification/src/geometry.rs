//! Output geometry: even pixel dimensions and crop margins.
//!
//! Hardware video encoders require even output dimensions; region
//! sizes given in logical points are scaled to physical pixels and
//! rounded up to even numbers.

use vstd::prelude::*;

verus! {

/// Round a pixel count up to the nearest even number.
pub fn round_up_even(n: usize) -> (r: usize)
    requires
        n < usize::MAX,
    ensures
        r % 2 == 0,
        r == n || r == n + 1,
        r >= n,
{
    if n % 2 != 0 {
        n + 1
    } else {
        n
    }
}

/// A logical length scaled to physical pixels: length times the
/// display scale factor (in hundredths), truncated.
pub open spec fn spec_scaled(len_pts: int, scale_hundredths: int) -> int {
    len_pts * scale_hundredths / 100
}

/// Scale a region size in logical points to physical pixel
/// dimensions, rounded up to even numbers as the encoder requires.
/// The scale factor is given in hundredths (200 on a 2x display).
pub fn scaled_even_dimensions(
    region_w_pts: u32,
    region_h_pts: u32,
    scale_hundredths: u32,
) -> (r: (usize, usize))
    requires
        region_w_pts <= 1_000_000,
        region_h_pts <= 1_000_000,
        0 < scale_hundredths <= 1000,
    ensures
        r.0 % 2 == 0 && r.1 % 2 == 0,
        spec_scaled(region_w_pts as int, scale_hundredths as int) <= r.0 <= spec_scaled(
            region_w_pts as int,
            scale_hundredths as int,
        ) + 1,
        spec_scaled(region_h_pts as int, scale_hundredths as int) <= r.1 <= spec_scaled(
            region_h_pts as int,
            scale_hundredths as int,
        ) + 1,
{
    proof {
        assert(0 <= region_w_pts * scale_hundredths <= 1_000_000_000 && 0 <= region_h_pts
            * scale_hundredths <= 1_000_000_000) by (nonlinear_arith)
            requires
                region_w_pts <= 1_000_000,
                region_h_pts <= 1_000_000,
                0 < scale_hundredths <= 1000,
        ;
    }
    let w: u64 = (region_w_pts as u64) * (scale_hundredths as u64) / 100;
    let h: u64 = (region_h_pts as u64) * (scale_hundredths as u64) / 100;
    (round_up_even(w as usize), round_up_even(h as usize))
}

/// Crop margins for a region inside a source frame: how much to cut
/// from each edge. `Some` exactly when the region lies inside the
/// frame; the four margins then add back up to the frame.
pub fn crop_margins(src_w: u32, src_h: u32, x: i32, y: i32, w: i32, h: i32) -> (r: Option<
    (i32, i32, i32, i32),
>)
    requires
        src_w <= 1_000_000,
        src_h <= 1_000_000,
        -1_000_000 <= x <= 1_000_000,
        -1_000_000 <= y <= 1_000_000,
        0 <= w <= 1_000_000,
        0 <= h <= 1_000_000,
    ensures
        r is Some <==> x >= 0 && y >= 0 && x + w <= src_w && y + h <= src_h,
        r matches Some(m) ==> {
            &&& m == (y, x, (src_w - x - w) as i32, (src_h - y - h) as i32)
            &&& m.1 + w + m.2 == src_w
            &&& m.0 + h + m.3 == src_h
        },
{
    let top: i32 = y;
    let left: i32 = x;
    let right: i32 = (src_w as i32) - x - w;
    let bottom: i32 = (src_h as i32) - y - h;
    if top >= 0 && left >= 0 && right >= 0 && bottom >= 0 {
        Some((top, left, right, bottom))
    } else {
        None
    }
}

/// Indices of the windows that belong to this process, by owner
/// process id: exactly those windows are excluded from capture.
pub fn exclusion_indices(window_pids: &Vec<i32>, our_pid: i32) -> (r: Vec<usize>)
    ensures
        forall|j: int| 0 <= j < r@.len() ==> #[trigger] r@[j] < window_pids@.len(),
        forall|j: int| 0 <= j < r@.len() ==> window_pids@[#[trigger] r@[j] as int] == our_pid,
        forall|i: int|
            0 <= i < window_pids@.len() && window_pids@[i] == our_pid ==> r@.contains(i as usize),
        forall|j: int, k: int| 0 <= j < k < r@.len() ==> #[trigger] r@[j] < #[trigger] r@[k],
{
    let mut out: Vec<usize> = Vec::new();
    let mut i: usize = 0;
    while i < window_pids.len()
        invariant
            0 <= i <= window_pids@.len(),
            forall|j: int| 0 <= j < out@.len() ==> #[trigger] out@[j] < i,
            forall|j: int| 0 <= j < out@.len() ==> window_pids@[#[trigger] out@[j] as int]
                == our_pid,
            forall|k: int|
                0 <= k < i && window_pids@[k] == our_pid ==> out@.contains(k as usize),
            forall|j: int, k: int| 0 <= j < k < out@.len() ==> #[trigger] out@[j]
                < #[trigger] out@[k],
        decreases window_pids@.len() - i,
    {
        let ghost prev = out@;
        let matches_us = window_pids[i] == our_pid;
        if matches_us {
            out.push(i);
        }
        proof {
            assert forall|k: int| 0 <= k < i + 1 && window_pids@[k] == our_pid implies out@
                .contains(k as usize) by {
                if k < i {
                    let idx = choose|idx: int|
                        0 <= idx < prev.len() && prev[idx] == k as usize;
                    assert(out@[idx] == k as usize);
                } else {
                    assert(out@[out@.len() - 1] == i as usize);
                }
            }
        }
        i = i + 1;
    }
    out
}

} // verus!
