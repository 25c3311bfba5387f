//! Saved-view (F4) Colony placement: candidates are probes, not inferred free
//! land. Only a fresh, stable green placement overlay authorizes a world
//! click.
use vstd::prelude::*;

use crate::engine::Outcome;
use crate::frame::{screen_pixel, Frame, FrameView, Point, Rect, Rgb};
use crate::play_area::{is_playable_point, playable};
use crate::vision::{detect_placement, placement_of, Placement};
use crate::frame::{preview_green, preview_red};

verus! {

/// What one saved-view search did.
#[derive(Clone, Debug, PartialEq, Eq)]
pub struct VacantColonyReport {
    pub outcome: Outcome,
    pub detected: u8,
    /// Issued world clicks, not proof that a drone arrived or built.
    pub orders: Vec<Point>,
    /// Orders whose drone was positively seen starting to morph; still not a
    /// completed building.
    pub starts: Vec<Point>,
    pub probes: usize,
}

impl VacantColonyReport {
    /// A report for a search that never started.
    pub fn failed(detail: String) -> (r: Self)
        ensures
            r.outcome == (Outcome::Failed { detail }),
            r.detected == 0,
            r.orders@.len() == 0,
            r.starts@.len() == 0,
            r.probes == 0,
    {
        VacantColonyReport {
            outcome: Outcome::Failed { detail },
            detected: 0,
            orders: Vec::new(),
            starts: Vec::new(),
            probes: 0,
        }
    }
}


/// Centre-to-centre distance of two neighbouring 2×2 buildings.
pub const PITCH: i32 = 144;
/// One map tile on screen.
pub const TILE: i32 = 72;
/// How far the game may snap the preview from the probe point.
pub const SNAP: i32 = 72;
/// Half-size of one probe read.
pub const PROBE_HALF: i32 = 240;
/// Within this distance of a skipped point the scene comparison looks away.
pub const SKIP_RADIUS: i32 = 150;

/// Centres the placement checks handle stay well inside `i32`.
pub open spec fn sane_point(p: Point) -> bool {
    -0x1000_0000 <= p.x <= 0x1000_0000 && -0x1000_0000 <= p.y <= 0x1000_0000
}

/// The whole footprint around `center`, plus a small margin, stays in the
/// calibrated world area: every point of its top and bottom edges is
/// playable.
pub open spec fn footprint_safe(center: Point) -> bool {
    forall|x: int| center.x - 84 <= x <= center.x + 84 ==> #[trigger] edges_playable(center, x)
}

/// Column `x` of the footprint's top and bottom edges is playable.
pub open spec fn edges_playable(center: Point, x: int) -> bool {
    playable(Point { x: x as i32, y: (center.y - 84) as i32 }) && playable(
        Point { x: x as i32, y: (center.y + 84) as i32 },
    )
}

/// Whether the footprint around `center` stays in the calibrated world area;
/// HUD and scroll borders are never probed.
pub fn safe_footprint(center: Point) -> (yes: bool)
    requires
        sane_point(center),
    ensures
        yes == footprint_safe(center),
{
    let mut x = center.x - 84;
    while x <= center.x + 84
        invariant
            sane_point(center),
            center.x - 84 <= x <= center.x + 85,
            forall|xx: int| center.x - 84 <= xx < x ==> #[trigger] edges_playable(center, xx),
        decreases center.x + 85 - x,
    {
        if !is_playable_point(Point::new(x, center.y - 84)) || !is_playable_point(
            Point::new(x, center.y + 84),
        ) {
            assert(!edges_playable(center, x as int));
            return false;
        }
        assert(edges_playable(center, x as int));
        x = x + 1;
    }
    true
}

/// Two 2×2 buildings keep at least one pitch apart in one axis.
pub open spec fn apart(a: Point, b: Point, d: int) -> bool {
    (a.x - b.x >= d || b.x - a.x >= d) || (a.y - b.y >= d || b.y - a.y >= d)
}

/// The spacing rule against every reserved centre.
pub open spec fn clear_of(center: Point, reserved: Seq<Point>, d: int) -> bool {
    forall|i: int| 0 <= i < reserved.len() ==> apart(#[trigger] reserved[i], center, d)
}

fn clear_of_all(center: Point, reserved: &[Point], d: i64) -> (yes: bool)
    ensures
        yes == clear_of(center, reserved@, d as int),
{
    let mut i: usize = 0;
    while i < reserved.len()
        invariant
            i <= reserved@.len(),
            forall|j: int| 0 <= j < i ==> apart(#[trigger] reserved@[j], center, d as int),
        decreases reserved@.len() - i,
    {
        let other = reserved[i];
        let dx = other.x as i64 - center.x as i64;
        let dy = other.y as i64 - center.y as i64;
        let far = dx >= d || -dx >= d || dy >= d || -dy >= d;
        if !far {
            return false;
        }
        i = i + 1;
    }
    true
}

/// The authoritative spacing rule, applied to the snapped centre the detector
/// found: at least one pitch from every reserved centre in one axis.
pub fn unreserved(center: Point, reserved: &[Point]) -> (yes: bool)
    ensures
        yes == clear_of(center, reserved@, 144),
{
    clear_of_all(center, reserved, 144)
}

/// The cheap pre-filter of the probe grid: the game may snap a footprint by
/// up to one tile, so only points certainly inside an existing footprint are
/// skipped without a read.
pub fn possibly_free(point: Point, reserved: &[Point]) -> (yes: bool)
    ensures
        yes == clear_of(point, reserved@, 72),
{
    clear_of_all(point, reserved, 72)
}

/// Probe grid point `i`: rows one tile apart from the lowest (`y = 684`)
/// upward, each read left to right from `x = 120`.
pub open spec fn grid_point(i: int) -> Point {
    Point { x: (120 + 72 * (i % 24)) as i32, y: (684 - 72 * (i / 24)) as i32 }
}

/// The safe grid points among the first `k`, in reading order.
pub open spec fn safe_grid(k: int) -> Seq<Point>
    decreases k,
{
    if k <= 0 {
        seq![]
    } else if footprint_safe(grid_point(k - 1)) {
        safe_grid(k - 1).push(grid_point(k - 1))
    } else {
        safe_grid(k - 1)
    }
}

/// The probe points, one tile apart in reading order: from the lower left,
/// left to right, then the next row up; only points whose footprint is safe.
pub fn candidates() -> (points: Vec<Point>)
    ensures
        points@ == safe_grid(216),
{
    let mut points: Vec<Point> = Vec::new();
    let mut i: usize = 0;
    while i < 9 * 24
        invariant
            i <= 9 * 24,
            points@ == safe_grid(i as int),
        decreases 9 * 24 - i,
    {
        let x: i32 = 120 + 72 * (i % 24) as i32;
        let y: i32 = 684 - 72 * (i / 24) as i32;
        let point = Point::new(x, y);
        assert(point == grid_point(i as int));
        if safe_footprint(point) {
            points.push(point);
        }
        i = i + 1;
    }
    points
}

/// The screen rectangle one probe reads: `PROBE_HALF` around the point,
/// clipped to the client.
pub fn probe_rect(point: Point) -> (r: Rect)
    requires
        sane_point(point),
    ensures
        r.x == if point.x - 240 > 0 { point.x - 240 } else { 0 },
        r.y == if point.y - 240 > 0 { point.y - 240 } else { 0 },
        r.w == (if point.x + 240 < 1920 { point.x + 240 } else { 1920 }) - r.x,
        r.h == (if point.y + 240 < 1080 { point.y + 240 } else { 1080 }) - r.y,
{
    let left = if point.x - PROBE_HALF > 0 {
        point.x - PROBE_HALF
    } else {
        0
    };
    let top = if point.y - PROBE_HALF > 0 {
        point.y - PROBE_HALF
    } else {
        0
    };
    let right = if point.x + PROBE_HALF < 1920 {
        point.x + PROBE_HALF
    } else {
        1920
    };
    let bottom = if point.y + PROBE_HALF < 1080 {
        point.y + PROBE_HALF
    } else {
        1080
    };
    Rect::new(left, top, right - left, bottom - top)
}

/// Pause between the two reads that confirm one candidate's preview: the
/// configured gap, kept between 16 and 32 ms.
pub fn preview_settle_ms(gap_ms: u64) -> (ms: u64)
    ensures
        ms == if gap_ms < 16 { 16 } else if gap_ms > 32 { 32 } else { gap_ms },
{
    if gap_ms < 16 {
        16
    } else if gap_ms > 32 {
        32
    } else {
        gap_ms
    }
}

/// Pause between construction-start panel reads: the configured gap, but at
/// least 100 ms.
pub fn construction_poll_ms(gap_ms: u64) -> (ms: u64)
    ensures
        ms == if gap_ms > 100 { gap_ms } else { 100 },
{
    if gap_ms > 100 {
        gap_ms
    } else {
        100
    }
}


/// `p` is within the skip radius of `s` in both axes.
pub open spec fn near(p: Point, s: Point) -> bool {
    -150 < p.x - s.x < 150 && -150 < p.y - s.y < 150
}

/// `p` is near one of the skipped points.
pub open spec fn near_any(p: Point, skipped: Seq<Point>) -> bool {
    exists|i: int| 0 <= i < skipped.len() && near(p, #[trigger] skipped[i])
}

/// A sample the scene comparison looks at: in the play area and away from
/// the skipped points.
pub open spec fn sample_used(p: Point, skipped: Seq<Point>) -> bool {
    playable(p) && !near_any(p, skipped)
}

/// The absolute difference of two channel values.
pub open spec fn channel_diff(a: u8, b: u8) -> int {
    if a >= b {
        a - b
    } else {
        b - a
    }
}

/// Two samples differ by more than ordinary animation.
pub open spec fn sample_changed(a: Rgb, b: Rgb) -> bool {
    channel_diff(a.r, b.r) + channel_diff(a.g, b.g) + channel_diff(a.b, b.b) > 100
}

/// `(missing, total, changed)` after one more sample at `p`: a used sample
/// missing from either frame spoils the comparison.
pub open spec fn tally_sample(
    t: (bool, nat, nat),
    before: FrameView,
    after: FrameView,
    p: Point,
    skipped: Seq<Point>,
) -> (bool, nat, nat) {
    if !sample_used(p, skipped) {
        t
    } else {
        match (screen_pixel(before, p), screen_pixel(after, p)) {
            (Some(a), Some(b)) => (t.0, t.1 + 1, t.2 + if sample_changed(a, b) { 1nat } else { 0nat }),
            _ => (true, t.1, t.2),
        }
    }
}

/// The sample in column `col` of row `row`, every 24 pixels from `after`'s
/// origin.
pub open spec fn view_sample(after: FrameView, col: int, row: int) -> Point {
    Point { x: (after.origin.x + 24 * col) as i32, y: (after.origin.y + 24 * row) as i32 }
}

/// The tally over the first `cols` samples of row `row`, on top of `t`.
pub open spec fn view_row(
    t: (bool, nat, nat),
    before: FrameView,
    after: FrameView,
    skipped: Seq<Point>,
    row: int,
    cols: int,
) -> (bool, nat, nat)
    decreases cols,
{
    if cols <= 0 {
        t
    } else {
        tally_sample(
            view_row(t, before, after, skipped, row, cols - 1),
            before,
            after,
            view_sample(after, cols - 1, row),
            skipped,
        )
    }
}

/// The number of samples along `n` pixels.
pub open spec fn samples_along(n: nat) -> int {
    ((n + 23) / 24) as int
}

/// The tally over the first `rows` rows of samples.
pub open spec fn view_grid(before: FrameView, after: FrameView, skipped: Seq<Point>, rows: int) -> (
    bool,
    nat,
    nat,
)
    decreases rows,
{
    if rows <= 0 {
        (false, 0, 0)
    } else {
        view_row(
            view_grid(before, after, skipped, rows - 1),
            before,
            after,
            skipped,
            rows - 1,
            samples_along(after.width),
        )
    }
}

/// Whether two captures show the same view: they cover the same screen
/// rectangle (or the first is the full client at the origin and holds the
/// second), no used sample is missing, at least 30 samples were compared, and
/// at most 15% of them changed.
pub open spec fn same_view_of(before: FrameView, after: FrameView, skipped: Seq<Point>) -> bool {
    let same_rect = before.width == after.width && before.height == after.height && before.origin
        == after.origin;
    let contains = before.origin == Point { x: 0, y: 0 } && before.width == 1920 && before.height
        == 1080 && after.origin.x >= 0 && after.origin.y >= 0 && after.origin.x + after.width
        <= 1920 && after.origin.y + after.height <= 1080;
    let (missing, total, changed) = view_grid(
        before,
        after,
        skipped,
        samples_along(after.height),
    );
    (same_rect || contains) && !missing && total >= 30 && changed * 100 <= total * 15
}

/// Captures whose coordinates the comparison can add up in `i32`.
pub open spec fn comparable(v: FrameView) -> bool {
    v.width <= 0x7FFF_FFFF && v.height <= 0x7FFF_FFFF && v.origin.x + v.width <= 0x7FFF_FFFF
        && v.origin.y + v.height <= 0x7FFF_FFFF
}

fn near_any_of(p: Point, skipped: &[Point]) -> (yes: bool)
    ensures
        yes == near_any(p, skipped@),
{
    let mut i: usize = 0;
    while i < skipped.len()
        invariant
            i <= skipped@.len(),
            forall|j: int| 0 <= j < i ==> !near(p, #[trigger] skipped@[j]),
        decreases skipped@.len() - i,
    {
        let s = skipped[i];
        let dx = p.x as i64 - s.x as i64;
        let dy = p.y as i64 - s.y as i64;
        if -150 < dx && dx < 150 && -150 < dy && dy < 150 {
            assert(near(p, skipped@[i as int]));
            return true;
        }
        i = i + 1;
    }
    false
}

fn diff(a: u8, b: u8) -> (d: u32)
    ensures
        d == channel_diff(a, b),
{
    if a >= b {
        (a - b) as u32
    } else {
        (b - a) as u32
    }
}

/// Coarse scene-change refusal between two captures of the same area. It
/// tolerates ordinary animation, ignores the pixels near the skipped points
/// (our own preview, freshly ordered buildings) and every sample outside the
/// play area (HUD, minimap, resource bar, scroll edges).
pub fn same_view(before: &Frame, after: &Frame, skipped: &[Point]) -> (same: bool)
    requires
        comparable(before@),
        comparable(after@),
    ensures
        same == same_view_of(before@, after@, skipped@),
{
    let ghost bv = before@;
    let ghost av = after@;
    let bw = before.width();
    let bh = before.height();
    let bo = before.origin();
    let aw = after.width();
    let ah = after.height();
    let origin = after.origin();
    let same_rect = bw == aw && bh == ah && bo == origin;
    let contains = bo == Point::new(0, 0) && bw == 1920 && bh == 1080 && origin.x >= 0 && origin.y
        >= 0 && origin.x + aw as i32 <= 1920 && origin.y + ah as i32 <= 1080;
    if !same_rect && !contains {
        return false;
    }
    let mut missing = false;
    let mut total: u64 = 0;
    let mut changed: u64 = 0;
    let mut row: u32 = 0;
    let mut y: u32 = 0;
    while y < ah
        invariant
            bv == before@,
            av == after@,
            comparable(av),
            aw == av.width,
            ah == av.height,
            origin == av.origin,
            y == 24 * row,
            y <= ah + 23,
            row <= samples_along(ah as nat),
            (y < ah) == (row < samples_along(ah as nat)),
            (missing, total as nat, changed as nat) == view_grid(bv, av, skipped@, row as int),
            total <= row * 0x1_0000_0000,
            changed <= total,
        decreases ah + 23 - y,
    {
        let mut col: u32 = 0;
        let mut x: u32 = 0;
        while x < aw
            invariant
                bv == before@,
                av == after@,
                comparable(av),
                aw == av.width,
                ah == av.height,
                origin == av.origin,
                y < ah,
                y == 24 * row,
                x == 24 * col,
                x <= aw + 23,
                col <= samples_along(aw as nat),
                (x < aw) == (col < samples_along(aw as nat)),
                (missing, total as nat, changed as nat) == view_row(
                    view_grid(bv, av, skipped@, row as int),
                    bv,
                    av,
                    skipped@,
                    row as int,
                    col as int,
                ),
                total <= row * 0x1_0000_0000 + col,
                row <= 0x0800_0000,
                changed <= total,
            decreases aw + 23 - x,
        {
            let xi = x as i32;
            let yi = y as i32;
            assert(xi == 24 * col);
            assert(yi == 24 * row);
            let screen = Point::new(origin.x + xi, origin.y + yi);
            assert(screen == view_sample(av, col as int, row as int));
            if is_playable_point(screen) && !near_any_of(screen, skipped) {
                match (before.pixel_at_screen(screen), after.pixel_at_screen(screen)) {
                    (Some(a), Some(b)) => {
                        total = total + 1;
                        if diff(a.r, b.r) + diff(a.g, b.g) + diff(a.b, b.b) > 100 {
                            changed = changed + 1;
                        }
                    },
                    _ => {
                        missing = true;
                    },
                }
            }
            col = col + 1;
            x = x + 24;
        }
        proof {
            assert((row + 1) * 0x1_0000_0000 == row * 0x1_0000_0000 + 0x1_0000_0000)
                by (nonlinear_arith);
        }
        row = row + 1;
        y = y + 24;
    }
    !missing && total >= 30 && (changed as u128) * 100 <= (total as u128) * 15
}


/// Sample `k` of the freshness check: every third pixel of the 144×144
/// square around `c`, row by row.
pub open spec fn fresh_sample(c: Point, k: int) -> Point {
    Point { x: (c.x - 72 + 3 * (k % 48)) as i32, y: (c.y - 72 + 3 * (k / 48)) as i32 }
}

/// Which quadrant of the square around `c` the point `p` lies in.
pub open spec fn quadrant(c: Point, p: Point) -> int {
    (if p.x >= c.x { 1int } else { 0int }) + 2 * (if p.y >= c.y { 1int } else { 0int })
}

/// `(missing, new red, new green per quadrant)` over the first `k` samples.
pub open spec fn fresh_tally(before: FrameView, after: FrameView, c: Point, k: int) -> (
    bool,
    nat,
    Seq<nat>,
)
    decreases k,
{
    if k <= 0 {
        (false, 0, seq![0nat, 0nat, 0nat, 0nat])
    } else {
        let t = fresh_tally(before, after, c, k - 1);
        let p = fresh_sample(c, k - 1);
        match (screen_pixel(before, p), screen_pixel(after, p)) {
            (Some(old), Some(new)) => (
                t.0,
                t.1 + if preview_red(new) && !preview_red(old) { 1nat } else { 0nat },
                if preview_green(new) && !preview_green(old) {
                    t.2.update(quadrant(c, p), t.2[quadrant(c, p)] + 1)
                } else {
                    t.2
                },
            ),
            _ => (true, t.1, t.2),
        }
    }
}

/// The point where a fresh green preview was found near `point`, if any: a
/// valid preview, snapped by at most one tile, on a safe and unreserved
/// footprint, whose green is new in every quadrant (at least 35 new green
/// samples each) with at most 3 newly red samples, and no sample missing.
/// Static green terrain, partially red previews and off-target snaps are
/// refused.
pub open spec fn fresh_green_of(
    before: FrameView,
    after: FrameView,
    point: Point,
    reserved: Seq<Point>,
) -> Option<Point> {
    match placement_of(after, point, 144) {
        Placement::Valid { center: c } => {
            if c.x - point.x > 72 || point.x - c.x > 72 || c.y - point.y > 72 || point.y - c.y > 72
                || !footprint_safe(c) || !clear_of(c, reserved, 144) {
                None
            } else {
                let t = fresh_tally(before, after, c, 2304);
                if !t.0 && t.1 <= 3 && t.2[0] >= 35 && t.2[1] >= 35 && t.2[2] >= 35 && t.2[3] >= 35 {
                    Some(c)
                } else {
                    None
                }
            }
        },
        _ => None,
    }
}

/// A probe point the freshness check can handle.
pub open spec fn probe_point(p: Point) -> bool {
    -0x0800_0000 <= p.x <= 0x0800_0000 && -0x0800_0000 <= p.y <= 0x0800_0000
}

/// Rejects static green terrain, partially red previews, and off-target or
/// unsafe snapped centres: the colour change must appear in every quadrant of
/// the square.
pub fn fresh_green(before: &Frame, after: &Frame, point: Point, reserved: &[Point]) -> (center:
    Option<Point>)
    requires
        probe_point(point),
    ensures
        center == fresh_green_of(before@, after@, point, reserved@),
{
    let ghost bv = before@;
    let ghost av = after@;
    let c = match detect_placement(after, point, PITCH) {
        Placement::Valid { center } => center,
        _ => {
            return None;
        },
    };
    let dx = c.x as i64 - point.x as i64;
    let dy = c.y as i64 - point.y as i64;
    if dx > 72 || -dx > 72 || dy > 72 || -dy > 72 {
        return None;
    }
    if !safe_footprint(c) || !unreserved(c, reserved) {
        return None;
    }
    let mut missing = false;
    let mut red: u32 = 0;
    let mut green: [u32; 4] = [0, 0, 0, 0];
    let mut k: u32 = 0;
    while k < 2304
        invariant
            bv == before@,
            av == after@,
            sane_point(c),
            k <= 2304,
            missing == fresh_tally(bv, av, c, k as int).0,
            red == fresh_tally(bv, av, c, k as int).1,
            fresh_tally(bv, av, c, k as int).2.len() == 4,
            forall|q: int| 0 <= q < 4 ==> green@[q] == #[trigger] fresh_tally(bv, av, c, k as int).2[q],
            red <= k,
            forall|q: int| 0 <= q < 4 ==> #[trigger] green@[q] <= k,
        decreases 2304 - k,
    {
        let x = c.x - 72 + 3 * (k % 48) as i32;
        let y = c.y - 72 + 3 * (k / 48) as i32;
        let p = Point::new(x, y);
        assert(p == fresh_sample(c, k as int));
        match (before.pixel_at_screen(p), after.pixel_at_screen(p)) {
            (Some(old), Some(new)) => {
                if new.is_preview_red() && !old.is_preview_red() {
                    red = red + 1;
                }
                if new.is_preview_green() && !old.is_preview_green() {
                    let q: usize = (if x >= c.x { 1usize } else { 0usize }) + 2 * (if y >= c.y {
                        1usize
                    } else {
                        0usize
                    });
                    assert(q == quadrant(c, p));
                    green.set(q, green[q] + 1);
                }
            },
            _ => {
                missing = true;
            },
        }
        k = k + 1;
    }
    if !missing && red <= 3 && green[0] >= 35 && green[1] >= 35 && green[2] >= 35 && green[3] >= 35 {
        Some(c)
    } else {
        None
    }
}


/// Sample `k` of the site check: every sixth pixel of the 144×144 square
/// around `c`, row by row.
pub open spec fn site_sample(c: Point, k: int) -> Point {
    Point { x: (c.x - 72 + 6 * (k % 24)) as i32, y: (c.y - 72 + 6 * (k / 24)) as i32 }
}

/// `(missing, changed)` over the first `k` samples of the site check.
pub open spec fn site_tally(before: FrameView, after: FrameView, c: Point, k: int) -> (bool, nat)
    decreases k,
{
    if k <= 0 {
        (false, 0)
    } else {
        let t = site_tally(before, after, c, k - 1);
        let p = site_sample(c, k - 1);
        match (screen_pixel(before, p), screen_pixel(after, p)) {
            (Some(a), Some(b)) => (
                t.0,
                t.1 + if channel_diff(a.r, b.r) + channel_diff(a.g, b.g) + channel_diff(a.b, b.b)
                    > 100 {
                    1nat
                } else {
                    0nat
                },
            ),
            _ => (true, t.1),
        }
    }
}

/// Something appeared at the footprint around `c`: every sample is present
/// in both captures and at least 24 of them changed noticeably. Supporting
/// evidence only, never enough on its own to count a construction start.
pub open spec fn site_changed_of(before: FrameView, after: FrameView, c: Point) -> bool {
    let t = site_tally(before, after, c, 576);
    !t.0 && t.1 >= 24
}

/// Whether something appeared at the footprint around `center` between the
/// two captures.
pub fn site_changed(before: &Frame, after: &Frame, center: Point) -> (changed: bool)
    requires
        sane_point(center),
    ensures
        changed == site_changed_of(before@, after@, center),
{
    let ghost bv = before@;
    let ghost av = after@;
    let mut missing = false;
    let mut changed: u32 = 0;
    let mut k: u32 = 0;
    while k < 576
        invariant
            bv == before@,
            av == after@,
            sane_point(center),
            k <= 576,
            (missing, changed as nat) == site_tally(bv, av, center, k as int),
            changed <= k,
        decreases 576 - k,
    {
        let x = center.x - 72 + 6 * (k % 24) as i32;
        let y = center.y - 72 + 6 * (k / 24) as i32;
        let p = Point::new(x, y);
        assert(p == site_sample(center, k as int));
        match (before.pixel_at_screen(p), after.pixel_at_screen(p)) {
            (Some(a), Some(b)) => {
                if diff(a.r, b.r) + diff(a.g, b.g) + diff(a.b, b.b) > 100 {
                    changed = changed + 1;
                }
            },
            _ => {
                missing = true;
            },
        }
        k = k + 1;
    }
    !missing && changed >= 24
}

} // verus!
