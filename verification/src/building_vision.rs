//! Shared pieces of the building detectors: the supported client, the safe
//! click area, the grayscale every template is stored in and the block-mean
//! downsampling of the coarse-to-fine search.
//!
//! The template matcher itself scores in floating point and runs in the
//! application; what it relies on is here.
use vstd::prelude::*;

use crate::frame::{frame_shape, pixel_of, Frame, FrameView, Point};
use crate::play_area::{is_playable_point, playable};

verus! {

/// Client width of the only supported profile.
pub const CLIENT_WIDTH: i32 = 1920;
/// Client height of the only supported profile.
pub const CLIENT_HEIGHT: i32 = 1080;

/// True when `frame` is the supported 1920×1080 client at screen origin
/// `(0, 0)`: detections are frame-local coordinates, only clickable when the
/// client sits at the desktop origin, so a moved window fails closed.
pub fn supported_client(frame: &Frame) -> (yes: bool)
    ensures
        yes == (frame@.width == 1920 && frame@.height == 1080 && frame@.origin == Point {
            x: 0,
            y: 0,
        }),
{
    frame.width() == 1920 && frame.height() == 1080 && frame.origin() == Point::new(0, 0)
}

/// A detection centre may be clicked: it lies in the calibrated play area.
pub fn point_in_viewport(point: Point) -> (yes: bool)
    ensures
        yes == playable(point),
{
    is_playable_point(point)
}

/// Rec.601 luma, the grayscale every profile asset is stored in.
pub open spec fn luma_of(r: u8, g: u8, b: u8) -> int {
    (r * 299 + g * 587 + b * 114) / 1000
}

/// Rec.601 luma of one colour.
pub fn luma(r: u8, g: u8, b: u8) -> (y: u8)
    ensures
        y == luma_of(r, g, b),
{
    let sum: u32 = r as u32 * 299 + g as u32 * 587 + b as u32 * 114;
    assert(sum <= 255000);
    (sum / 1000) as u8
}

/// The luma of pixel `i` of a row-major RGBA8 buffer.
pub open spec fn pixel_luma(rgba: Seq<u8>, i: int) -> u8 {
    luma_of(rgba[4 * i], rgba[4 * i + 1], rgba[4 * i + 2]) as u8
}

/// The grayscale of a frame: one luma byte per pixel, row by row.
pub open spec fn gray_of(v: FrameView) -> Seq<u8> {
    Seq::new(v.width * v.height, |i: int| pixel_luma(v.rgba, i))
}

/// The grayscale byte of pixel `(x, y)` is the luma of that pixel.
pub proof fn lemma_gray_is_pixel_luma(v: FrameView, x: int, y: int)
    requires
        frame_shape(v),
        0 <= x < v.width,
        0 <= y < v.height,
    ensures
        0 <= y * v.width + x < gray_of(v).len(),
        pixel_of(v, x, y) matches Some(c) && gray_of(v)[y * v.width + x] == luma_of(c.r, c.g, c.b),
{
    crate::frame::lemma_pixel_index_in_bounds(v.width as int, v.height as int, x, y);
    assert((y * v.width + x) * 4 == 4 * (y * v.width + x));
}

/// The grayscale of `frame`, one luma byte per pixel, row by row.
pub fn gray_image(frame: &Frame) -> (gray: Vec<u8>)
    ensures
        gray@ == gray_of(frame@),
{
    let rgba = frame.rgba();
    let n: usize = rgba.len() / 4;
    let mut out: Vec<u8> = Vec::with_capacity(n);
    let mut i: usize = 0;
    proof {
        let v = frame@;
        assert(n == v.width * v.height);
    }
    while i < n
        invariant
            rgba@ == frame@.rgba,
            frame_shape(frame@),
            n == frame@.width * frame@.height,
            i <= n,
            out@.len() == i,
            forall|k: int| 0 <= k < i ==> out@[k] == pixel_luma(rgba@, k),
        decreases n - i,
    {
        let y = luma(rgba[4 * i], rgba[4 * i + 1], rgba[4 * i + 2]);
        out.push(y);
        i = i + 1;
    }
    proof {
        assert(out@ =~= gray_of(frame@));
    }
    out
}

/// The sum of the first `n` bytes of row `dy` of the `f` × `f` block
/// `(bx, by)` of a row-major image `w` wide.
pub open spec fn block_row_sum(src: Seq<u8>, w: int, f: int, bx: int, by: int, dy: int, n: int) -> int
    decreases n,
{
    if n <= 0 {
        0
    } else {
        block_row_sum(src, w, f, bx, by, dy, n - 1) + src[(by * f + dy) * w + bx * f + n - 1]
    }
}

/// The sum of the first `rows` rows of the `f` × `f` block `(bx, by)`.
pub open spec fn block_sum(src: Seq<u8>, w: int, f: int, bx: int, by: int, rows: int) -> int
    decreases rows,
{
    if rows <= 0 {
        0
    } else {
        block_sum(src, w, f, bx, by, rows - 1) + block_row_sum(src, w, f, bx, by, rows - 1, f)
    }
}

/// The mean of the `f` × `f` block `(bx, by)`, rounded down.
pub open spec fn block_mean(src: Seq<u8>, w: int, f: int, bx: int, by: int) -> int {
    block_sum(src, w, f, bx, by, f) / (f * f)
}

proof fn lemma_block_row_sum_bound(src: Seq<u8>, w: int, f: int, bx: int, by: int, dy: int, n: int)
    ensures
        0 <= block_row_sum(src, w, f, bx, by, dy, n) <= 255 * (if n > 0 { n } else { 0 }),
    decreases n,
{
    if n > 0 {
        lemma_block_row_sum_bound(src, w, f, bx, by, dy, n - 1);
    }
}

proof fn lemma_block_sum_bound(src: Seq<u8>, w: int, f: int, bx: int, by: int, rows: int)
    requires
        f >= 0,
    ensures
        0 <= block_sum(src, w, f, bx, by, rows) <= 255 * f * (if rows > 0 { rows } else { 0 }),
    decreases rows,
{
    if rows > 0 {
        lemma_block_sum_bound(src, w, f, bx, by, rows - 1);
        lemma_block_row_sum_bound(src, w, f, bx, by, rows - 1, f);
        assert(255 * f * (rows - 1) + 255 * f == 255 * f * rows) by (nonlinear_arith);
    }
}

/// Shrinks an image `w` × `h` by `factor` in each dimension, each output
/// byte the mean (rounded down) of its `factor` × `factor` block; a partial
/// block at the right or bottom edge is dropped.
pub fn downsample(src: &[u8], w: i32, h: i32, factor: i32) -> (r: (Vec<u8>, i32, i32))
    requires
        0 <= w,
        0 <= h,
        1 <= factor <= 4096,
        w * h <= src@.len(),
        w * h <= i32::MAX,
    ensures
        r.1 == w / factor,
        r.2 == h / factor,
        r.0@.len() == r.1 * r.2,
        forall|x: int, y: int|
            0 <= x < r.1 && 0 <= y < r.2 ==> r.0@[y * r.1 + x] == block_mean(
                src@,
                w as int,
                factor as int,
                x,
                y,
            ),
{
    let w2 = w / factor;
    let h2 = h / factor;
    let wu = w as usize;
    let f = factor as usize;
    let w2u = w2 as usize;
    let h2u = h2 as usize;
    assert(w2 * factor <= w && h2 * factor <= h) by (nonlinear_arith)
        requires
            w2 == w / factor,
            h2 == h / factor,
            factor >= 1,
            w >= 0,
            h >= 0,
    ;
    assert(w2u * h2u <= w * h) by (nonlinear_arith)
        requires
            0 <= w2u <= w,
            0 <= h2u <= h,
    ;
    let mut out: Vec<u8> = Vec::new();
    let mut y: usize = 0;
    while y < h2u
        invariant
            0 <= w2u * f <= wu,
            0 <= h2u * f <= h,
            w2u * h2u <= w * h,
            wu == w,
            f == factor,
            1 <= f <= 4096,
            w * h <= src@.len(),
            w * h <= i32::MAX,
            y <= h2u,
            out@.len() == y * w2u,
            forall|xx: int, yy: int|
                0 <= xx < w2u && 0 <= yy < y ==> out@[yy * w2u + xx] == block_mean(
                    src@,
                    w as int,
                    factor as int,
                    xx,
                    yy,
                ),
        decreases h2u - y,
    {
        let mut x: usize = 0;
        while x < w2u
            invariant
                0 <= w2u * f <= wu,
                0 <= h2u * f <= h,
                w2u * h2u <= w * h,
                wu == w,
                f == factor,
                1 <= f <= 4096,
                w * h <= src@.len(),
                w * h <= i32::MAX,
                y < h2u,
                x <= w2u,
                out@.len() == y * w2u + x,
                forall|xx: int, yy: int|
                    0 <= xx < w2u && 0 <= yy < y ==> out@[yy * w2u + xx] == block_mean(
                        src@,
                        w as int,
                        factor as int,
                        xx,
                        yy,
                    ),
                forall|xx: int|
                    0 <= xx < x ==> out@[y * w2u + xx] == block_mean(
                        src@,
                        w as int,
                        factor as int,
                        xx,
                        y as int,
                    ),
            decreases w2u - x,
        {
            let mut sum: u32 = 0;
            let mut dy: usize = 0;
            while dy < f
                invariant
                    0 <= w2u * f <= wu,
                    0 <= h2u * f <= h,
                    wu == w,
                    f == factor,
                    1 <= f <= 4096,
                    w * h <= src@.len(),
                    w * h <= i32::MAX,
                    y < h2u,
                    x < w2u,
                    dy <= f,
                    sum == block_sum(src@, w as int, f as int, x as int, y as int, dy as int),
                decreases f - dy,
            {
                let mut dx: usize = 0;
                proof {
                    lemma_block_sum_bound(src@, w as int, f as int, x as int, y as int, dy as int);
                }
                while dx < f
                    invariant
                        0 <= w2u * f <= wu,
                        0 <= h2u * f <= h,
                        wu == w,
                        f == factor,
                        1 <= f <= 4096,
                        w * h <= src@.len(),
                        w * h <= i32::MAX,
                        y < h2u,
                        x < w2u,
                        dy < f,
                        dx <= f,
                        sum == block_sum(src@, w as int, f as int, x as int, y as int, dy as int)
                            + block_row_sum(src@, w as int, f as int, x as int, y as int, dy as int, dx as int),
                        sum <= 255 * f * dy + 255 * dx,
                    decreases f - dx,
                {
                    assert(y * f + dy < h && x * f + dx < wu && (y * f + dy) * wu + x * f + dx < w * h)
                        by (nonlinear_arith)
                        requires
                            y < h2u,
                            x < w2u,
                            dy < f,
                            dx < f,
                            h2u * f <= h,
                            w2u * f <= wu,
                            wu == w,
                    ;
                    let sy: usize = y * f + dy;
                    let sx: usize = x * f + dx;
                    assert(sy * wu + sx < w * h);
                    assert(255 * f * dy + 255 * dx + 255 <= 255 * 4096 * 4096) by (nonlinear_arith)
                        requires
                            dy < f <= 4096,
                            dx < f,
                    ;
                    let index: usize = sy * wu + sx;
                    sum = sum + src[index] as u32;
                    dx = dx + 1;
                }
                proof {
                    assert(255 * f * dy + 255 * f == 255 * f * (dy + 1)) by (nonlinear_arith);
                }
                dy = dy + 1;
            }
            proof {
                lemma_block_sum_bound(src@, w as int, f as int, x as int, y as int, f as int);
                assert(block_sum(src@, w as int, f as int, x as int, y as int, f as int) / (f * f) <= 255) by (nonlinear_arith)
                    requires
                        0 <= block_sum(src@, w as int, f as int, x as int, y as int, f as int) <= 255 * f * f,
                        f >= 1,
                ;
            }
            assert(1 <= f * f <= 4096 * 4096) by (nonlinear_arith)
                requires
                    1 <= f <= 4096,
            ;
            let area: u32 = (f * f) as u32;
            let mean = (sum / area) as u8;
            let ghost before = out@;
            out.push(mean);
            proof {
                assert(y * w2u + x + 1 <= (y + 1) * w2u) by (nonlinear_arith)
                    requires
                        x < w2u,
                ;
                assert forall|xx: int, yy: int|
                    0 <= xx < w2u && 0 <= yy < y implies out@[yy * w2u + xx] == block_mean(
                        src@,
                        w as int,
                        factor as int,
                        xx,
                        yy,
                    ) by {
                    assert(yy * w2u + xx < y * w2u) by (nonlinear_arith)
                        requires
                            0 <= xx < w2u,
                            0 <= yy < y,
                    ;
                    assert(out@[yy * w2u + xx] == before[yy * w2u + xx]);
                }
                assert forall|xx: int| 0 <= xx < x + 1 implies out@[y * w2u + xx] == block_mean(
                    src@,
                    w as int,
                    factor as int,
                    xx,
                    y as int,
                ) by {
                    if xx < x {
                        assert(out@[y * w2u + xx] == before[y * w2u + xx]);
                    }
                }
            }
            x = x + 1;
        }
        proof {
            assert(y * w2u + w2u == (y + 1) * w2u) by (nonlinear_arith);
        }
        y = y + 1;
    }
    assert(h2u * w2u == w2 * h2) by (nonlinear_arith)
        requires
            w2u == w2,
            h2u == h2,
    ;
    (out, w2, h2)
}

/// `|a - b|`.
pub open spec fn dist(a: int, b: int) -> int {
    if a >= b {
        a - b
    } else {
        b - a
    }
}

/// `a` and `b` lie within `radius` of each other in both axes.
pub open spec fn near(a: Point, b: Point, radius: int) -> bool {
    dist(a.x as int, b.x as int) <= radius && dist(a.y as int, b.y as int) <= radius
}

/// `p` lies near one of the points of `points` at the indices `kept`.
pub open spec fn near_kept(points: Seq<Point>, kept: Seq<int>, p: Point, radius: int) -> bool {
    exists|j: int| 0 <= j < kept.len() && near(points[kept[j]], p, radius)
}

/// The indices of the first `n` of `points` that a greedy pass keeps: in
/// order, each point not near an earlier kept one, until `cap` are kept (the
/// first one is always kept).
pub open spec fn kept_apart(points: Seq<Point>, radius: int, cap: int, n: int) -> Seq<int>
    decreases n,
{
    if n <= 0 {
        seq![]
    } else {
        let prev = kept_apart(points, radius, cap, n - 1);
        if (prev.len() > 0 && prev.len() >= cap) || near_kept(points, prev, points[n - 1], radius) {
            prev
        } else {
            prev.push(n - 1)
        }
    }
}

/// The greedy pass keeps distinct points in their order, no two kept ones
/// near each other, and no more than `cap` (at least one) of them.
pub proof fn lemma_kept_points_are_apart(points: Seq<Point>, radius: int, cap: int, n: int)
    requires
        0 <= n <= points.len(),
    ensures
        ({
            let kept = kept_apart(points, radius, cap, n);
            &&& kept.len() <= if cap >= 1 { cap } else { 1 }
            &&& forall|j: int| 0 <= j < kept.len() ==> 0 <= #[trigger] kept[j] < n
            &&& forall|j: int, k: int| 0 <= j < k < kept.len() ==> kept[j] < kept[k]
            &&& forall|j: int, k: int|
                0 <= j < k < kept.len() ==> !near(points[kept[j]], points[kept[k]], radius)
        }),
    decreases n,
{
    if n > 0 {
        lemma_kept_points_are_apart(points, radius, cap, n - 1);
        let prev = kept_apart(points, radius, cap, n - 1);
        let kept = kept_apart(points, radius, cap, n);
        if !((prev.len() > 0 && prev.len() >= cap) || near_kept(points, prev, points[n - 1], radius)) {
            assert forall|j: int, k: int| 0 <= j < k < kept.len() implies !near(
                points[kept[j]],
                points[kept[k]],
                radius,
            ) by {
                if k == prev.len() {
                    assert(kept[j] == prev[j]);
                    if near(points[prev[j]], points[n - 1], radius) {
                        assert(near_kept(points, prev, points[n - 1], radius));
                    }
                } else {
                    assert(kept[j] == prev[j] && kept[k] == prev[k]);
                }
            }
        }
    }
}

/// Whether `a` and `b` lie within `radius` of each other in both axes.
pub fn is_near(a: Point, b: Point, radius: i32) -> (yes: bool)
    ensures
        yes == near(a, b, radius as int),
{
    let dx: i64 = if a.x >= b.x {
        a.x as i64 - b.x as i64
    } else {
        b.x as i64 - a.x as i64
    };
    let dy: i64 = if a.y >= b.y {
        a.y as i64 - b.y as i64
    } else {
        b.y as i64 - a.y as i64
    };
    dx <= radius as i64 && dy <= radius as i64
}

/// The greedy suppression of the detectors' candidate lists: walking
/// `points` (best first), keeps each point that is not within `radius` in
/// both axes of one already kept, and stops once `cap` are kept. Returns
/// the kept indices, in order.
pub fn keep_apart(points: &[Point], radius: i32, cap: usize) -> (kept: Vec<usize>)
    ensures
        kept@.len() == kept_apart(points@, radius as int, cap as int, points@.len() as int).len(),
        forall|j: int|
            0 <= j < kept@.len() ==> kept@[j] as int == #[trigger] kept_apart(
                points@,
                radius as int,
                cap as int,
                points@.len() as int,
            )[j],
{
    let mut kept: Vec<usize> = Vec::new();
    let mut i: usize = 0;
    while i < points.len()
        invariant
            i <= points@.len(),
            kept@.len() == kept_apart(points@, radius as int, cap as int, i as int).len(),
            forall|j: int|
                0 <= j < kept@.len() ==> kept@[j] as int == #[trigger] kept_apart(
                    points@,
                    radius as int,
                    cap as int,
                    i as int,
                )[j],
        decreases points@.len() - i,
    {
        let ghost prev = kept_apart(points@, radius as int, cap as int, i as int);
        proof {
            lemma_kept_points_are_apart(points@, radius as int, cap as int, i as int);
        }
        let stopped = kept.len() > 0 && kept.len() >= cap;
        if !stopped {
            let p = points[i];
            let mut close = false;
            let mut m: usize = 0;
            while m < kept.len()
                invariant
                    m <= kept@.len(),
                    i < points@.len(),
                    p == points@[i as int],
                    kept@.len() == prev.len(),
                    forall|j: int| 0 <= j < kept@.len() ==> kept@[j] as int == #[trigger] prev[j],
                    forall|j: int| 0 <= j < prev.len() ==> 0 <= #[trigger] prev[j] < i,
                    close <==> exists|j: int| 0 <= j < m && near(points@[prev[j]], p, radius as int),
                decreases kept@.len() - m,
            {
                proof {
                    assert(kept@[m as int] as int == prev[m as int]);
                    assert(0 <= prev[m as int] < i);
                }
                let q = points[kept[m]];
                if is_near(q, p, radius) {
                    close = true;
                }
                proof {
                    if close {
                        if near(points@[prev[m as int]], p, radius as int) {
                            assert(exists|j: int| 0 <= j < m + 1 && near(points@[prev[j]], p, radius as int));
                        }
                    }
                    if exists|j: int| 0 <= j < m + 1 && near(points@[prev[j]], p, radius as int) {
                        let j = choose|j: int| 0 <= j < m + 1 && near(points@[prev[j]], p, radius as int);
                        if j < m {
                        } else {
                            assert(q == points@[prev[m as int]]);
                        }
                    }
                }
                m = m + 1;
            }
            proof {
                assert(close == near_kept(points@, prev, p, radius as int));
            }
            if !close {
                kept.push(i);
            }
        }
        proof {
            let next = kept_apart(points@, radius as int, cap as int, i + 1);
            assert(forall|j: int| 0 <= j < kept@.len() ==> kept@[j] as int == #[trigger] next[j]);
        }
        i = i + 1;
    }
    kept
}

} // verus!
