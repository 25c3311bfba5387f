//! Pixel detectors for the 1920×1080 Remastered HUD.
//!
//! Two independent readings live here, both pure:
//!
//! * [`detect_selection`] classifies the bottom selection HUD as a group of
//!   `2..=12` drones, a single selected drone, or "not a valid drone
//!   selection". Wireframe slots are found by the selected-unit frame colour
//!   and every occupied slot is then matched against a small drone-body mask,
//!   so a colony, a tooltip or a mixed selection is never counted as drones.
//! * [`detect_placement`] looks for the green/red placement preview square
//!   near a screen position.
//!
//! Only the 1920×1080 profile is supported: anything else fails closed
//! instead of guessing a scale. Every ratio threshold is compared exactly, in
//! integers (`matched / union >= 3 / 5` is `5 * matched >= 3 * union`).
use vstd::prelude::*;

use crate::frame::{
    body_red, frame_blue, preview_green, preview_red, sampled_dark, screen_pixel, Frame, FrameView,
    Point, Rect, Rgb,
};

verus! {

/// Client width of the only supported profile.
pub const CLIENT_WIDTH: u32 = 1920;
/// Client height of the only supported profile.
pub const CLIENT_HEIGHT: u32 = 1080;
/// Screen footprint of a 2×2 Creep Colony, and the centre-to-centre spacing of
/// a left-to-right row (`64 logical px * 1080 / 480`).
pub const FOOTPRINT: i32 = 144;
/// Screen footprint of a 3×3 Spire (`96 logical px * 1080 / 480`).
pub const SPIRE_FOOTPRINT: i32 = 216;
/// A selection holds at most 12 units.
pub const MAX_DRONES: u8 = 12;
/// Number of wireframe slots in the group panel (6 columns of 2).
pub const SLOT_COUNT: u8 = 12;

/// Screen centre of wireframe slot 0 (column 0, row 0).
const SLOT0_X: i32 = 653;
const SLOT0_Y: i32 = 930;
/// Distance between wireframe columns and between wireframe rows.
const COL_STEP: i32 = 81;
const ROW_STEP: i32 = 83;
/// Half size of one wireframe box, for the occupancy scan.
const SLOT_HALF_X: i32 = 37;
const SLOT_HALF_Y: i32 = 38;
/// A selected-unit frame contributes hundreds of bright blue pixels.
pub const MIN_FRAME_BLUE_PIXELS: u64 = 60;

/// Coarse mask grid: 16×16 cells of 4×4 pixels, centred on the feature.
pub const MASK_SIDE: usize = 16;
const MASK_CELL: i32 = 4;
const MASK_HALF: i32 = 32;

/// Minimum number of red-body cells of a drone wireframe.
pub const DRONE_MIN_CELLS: u32 = 25;
/// Minimum number of red-body cells of the single-unit portrait.
pub const SINGLE_MIN_CELLS: u32 = 40;

/// Screen centre of the large portrait in the single-unit information panel.
const SINGLE_PORTRAIT_X: i32 = 696;
const SINGLE_PORTRAIT_Y: i32 = 950;

/// Smallest search radius around the cursor for a placement preview.
pub const PREVIEW_SEARCH_MIN: i32 = 176;
/// Width of the terrain ring checked directly outside a candidate square.
pub const PREVIEW_RING: i32 = 10;

/// What the selection HUD contains.
#[derive(Clone, Copy, Debug, PartialEq, Eq, Structural)]
pub enum SelectionRead {
    /// A group of `2..=12` drones.
    Drones { count: u8 },
    /// Exactly one drone, shown as the single-unit information panel.
    SingleDrone,
    /// Anything else; the caller must not inject input.
    Rejected(RejectReason),
}

/// Why a selection was refused.
#[derive(Clone, Copy, Debug, PartialEq, Eq, Structural)]
pub enum RejectReason {
    /// The capture is not the supported 1920×1080 client.
    UnsupportedProfile,
    /// The window capture produced a black/empty frame.
    BlankCapture,
    /// No drone wireframes and no drone portrait.
    NoDroneSelection,
    /// An occupied wireframe slot that does not look like a drone.
    OccupiedNonDrone { slot: u8 },
    /// A lone wireframe, which the game does not use for a single unit.
    SingleWireframe,
    /// The information panel portrait is not a drone.
    UncertainSingle,
}

/// English detail of each refusal.
pub open spec fn reject_detail(reason: RejectReason) -> Seq<char> {
    match reason {
        RejectReason::UnsupportedProfile =>
            "only the 1920x1080 Remastered HUD is supported; no input was sent"@,
        RejectReason::BlankCapture => "the game window capture was blank; no input was sent"@,
        RejectReason::NoDroneSelection =>
            "no drone selection was recognized; select 2-12 drones (or one drone) first"@,
        RejectReason::OccupiedNonDrone { .. } =>
            "the selection HUD has slots that are not drones (or a tooltip covers it); refusing to build"@,
        RejectReason::SingleWireframe =>
            "unexpected single wireframe; refusing to guess a drone selection"@,
        RejectReason::UncertainSingle =>
            "the selected single unit is not a drone; refusing to build"@,
    }
}

impl RejectReason {
    /// English detail that is appended to the localized status line.
    pub fn detail(self) -> (text: &'static str)
        ensures
            text@ == reject_detail(self),
    {
        match self {
            RejectReason::UnsupportedProfile =>
                "only the 1920x1080 Remastered HUD is supported; no input was sent",
            RejectReason::BlankCapture => "the game window capture was blank; no input was sent",
            RejectReason::NoDroneSelection =>
                "no drone selection was recognized; select 2-12 drones (or one drone) first",
            RejectReason::OccupiedNonDrone { .. } =>
                "the selection HUD has slots that are not drones (or a tooltip covers it); refusing to build",
            RejectReason::SingleWireframe =>
                "unexpected single wireframe; refusing to guess a drone selection",
            RejectReason::UncertainSingle =>
                "the selected single unit is not a drone; refusing to build",
        }
    }
}

/// What the placement preview looks like near a target.
#[derive(Clone, Copy, Debug, PartialEq, Eq, Structural)]
pub enum Placement {
    /// Green preview: the build order may be issued.
    Valid { center: Point },
    /// Red preview: blocked terrain or an invalid position.
    Invalid { center: Point },
    /// No preview found.
    Absent,
    /// Both colours found; do not click.
    Ambiguous,
}

/// The colour classes the detectors look for.
#[derive(Clone, Copy, Debug, PartialEq, Eq, Structural)]
pub enum Hue {
    FrameBlue,
    BodyRed,
    PreviewGreen,
    PreviewRed,
}

/// Whether colour `c` belongs to class `h`.
pub open spec fn hue_holds(h: Hue, c: Rgb) -> bool {
    match h {
        Hue::FrameBlue => frame_blue(c),
        Hue::BodyRed => body_red(c),
        Hue::PreviewGreen => preview_green(c),
        Hue::PreviewRed => preview_red(c),
    }
}

impl Hue {
    fn holds(self, c: Rgb) -> (yes: bool)
        ensures
            yes == hue_holds(self, c),
    {
        match self {
            Hue::FrameBlue => c.is_frame_blue(),
            Hue::BodyRed => c.is_body_red(),
            Hue::PreviewGreen => c.is_preview_green(),
            Hue::PreviewRed => c.is_preview_red(),
        }
    }
}

/// Screen point `(x, y)` lies in the frame and has colour class `h`.
pub open spec fn hit(v: FrameView, h: Hue, x: int, y: int) -> bool {
    &&& i32::MIN <= x <= i32::MAX
    &&& i32::MIN <= y <= i32::MAX
    &&& match screen_pixel(v, Point { x: x as i32, y: y as i32 }) {
        Some(c) => hue_holds(h, c),
        None => false,
    }
}

/// Reads [`hit`] at one screen point.
fn hit_at(frame: &Frame, h: Hue, x: i32, y: i32) -> (yes: bool)
    ensures
        yes == hit(frame@, h, x as int, y as int),
{
    match frame.pixel_at_screen(Point::new(x, y)) {
        Some(c) => h.holds(c),
        None => false,
    }
}

/// An inclusive rectangle left out of a count (empty when `x0 > x1`).
pub struct Hole {
    pub x0: int,
    pub x1: int,
    pub y0: int,
    pub y1: int,
}

/// Whether `(x, y)` falls in the hole.
pub open spec fn in_hole(hole: Hole, x: int, y: int) -> bool {
    hole.x0 <= x <= hole.x1 && hole.y0 <= y <= hole.y1
}

/// The hole that leaves nothing out.
pub open spec fn no_hole() -> Hole {
    Hole { x0: 1, x1: 0, y0: 1, y1: 0 }
}

/// Number of `h` pixels at `x0 <= x < x1` on row `y`, outside the hole.
pub open spec fn row_hits(v: FrameView, h: Hue, y: int, x0: int, x1: int, hole: Hole) -> nat
    decreases x1 - x0,
{
    if x1 <= x0 {
        0
    } else {
        row_hits(v, h, y, x0, x1 - 1, hole) + if hit(v, h, x1 - 1, y) && !in_hole(hole, x1 - 1, y) {
            1nat
        } else {
            0nat
        }
    }
}

/// Number of `h` pixels in `[x0, x1) × [y0, y1)`, outside the hole.
pub open spec fn box_hits(v: FrameView, h: Hue, x0: int, x1: int, y0: int, y1: int, hole: Hole) -> nat
    decreases y1 - y0,
{
    if y1 <= y0 {
        0
    } else {
        box_hits(v, h, x0, x1, y0, y1 - 1, hole) + row_hits(v, h, y1 - 1, x0, x1, hole)
    }
}

proof fn lemma_row_hits_bound(v: FrameView, h: Hue, y: int, x0: int, x1: int, hole: Hole)
    requires
        x0 <= x1,
    ensures
        row_hits(v, h, y, x0, x1, hole) <= x1 - x0,
    decreases x1 - x0,
{
    if x1 > x0 {
        lemma_row_hits_bound(v, h, y, x0, x1 - 1, hole);
    }
}

/// Counts the `h` pixels of the screen rectangle `[x0, x1) × [y0, y1)` that
/// are not in `[hx0, hx1] × [hy0, hy1]`.
fn count_hits(
    frame: &Frame,
    h: Hue,
    x0: i32,
    x1: i32,
    y0: i32,
    y1: i32,
    hx0: i32,
    hx1: i32,
    hy0: i32,
    hy1: i32,
) -> (n: u64)
    requires
        x0 <= x1,
        y0 <= y1,
    ensures
        n == box_hits(
            frame@,
            h,
            x0 as int,
            x1 as int,
            y0 as int,
            y1 as int,
            Hole { x0: hx0 as int, x1: hx1 as int, y0: hy0 as int, y1: hy1 as int },
        ),
{
    let ghost hole = Hole { x0: hx0 as int, x1: hx1 as int, y0: hy0 as int, y1: hy1 as int };
    let ghost w: int = x1 - x0;
    let mut n: u64 = 0;
    let mut y = y0;
    while y < y1
        invariant
            y0 <= y <= y1,
            x0 <= x1,
            w == x1 - x0,
            hole == (Hole { x0: hx0 as int, x1: hx1 as int, y0: hy0 as int, y1: hy1 as int }),
            n == box_hits(frame@, h, x0 as int, x1 as int, y0 as int, y as int, hole),
            n <= (y - y0) * w,
        decreases y1 - y,
    {
        let mut x = x0;
        let mut row: u64 = 0;
        while x < x1
            invariant
                x0 <= x <= x1,
                y0 <= y < y1,
                hole == (Hole { x0: hx0 as int, x1: hx1 as int, y0: hy0 as int, y1: hy1 as int }),
                row == row_hits(frame@, h, y as int, x0 as int, x as int, hole),
                row <= x - x0,
            decreases x1 - x,
        {
            let inside = hx0 <= x && x <= hx1 && hy0 <= y && y <= hy1;
            if !inside && hit_at(frame, h, x, y) {
                row = row + 1;
            }
            x = x + 1;
        }
        proof {
            assert((y + 1 - y0) * w == (y - y0) * w + w) by (nonlinear_arith);
            assert((y + 1 - y0) * w <= 0xFFFF_FFFF * 0xFFFF_FFFF) by (nonlinear_arith)
                requires
                    0 <= (y + 1 - y0) <= 0xFFFF_FFFF,
                    0 <= w <= 0xFFFF_FFFF,
            ;
        }
        n = n + row;
        y = y + 1;
    }
    n
}

/// Screen centre of wireframe slot `slot`, column-major (top, bottom, next
/// column).
pub open spec fn slot_point(slot: int) -> Point {
    Point { x: (653 + 81 * (slot / 2)) as i32, y: (930 + 83 * (slot % 2)) as i32 }
}

/// Screen centre of a wireframe slot, column-major (top, bottom, next column).
pub fn slot_center(slot: u8) -> (p: Point)
    ensures
        p == slot_point(slot as int),
{
    let column = (slot / 2) as i32;
    let row = (slot % 2) as i32;
    Point::new(SLOT0_X + COL_STEP * column, SLOT0_Y + ROW_STEP * row)
}

/// Number of selected-unit frame pixels in the box of slot `slot`.
pub open spec fn slot_blue(v: FrameView, slot: int) -> nat {
    let c = slot_point(slot);
    box_hits(
        v,
        Hue::FrameBlue,
        c.x - 37,
        c.x + 38,
        c.y - 38,
        c.y + 39,
        no_hole(),
    )
}

/// A selected-unit frame is drawn in slot `slot`.
pub open spec fn slot_occupied(v: FrameView, slot: int) -> bool {
    slot_blue(v, slot) >= 60
}

/// True when a selected-unit frame is drawn in this slot.
fn slot_is_occupied(frame: &Frame, slot: u8) -> (yes: bool)
    requires
        slot < 12,
    ensures
        yes == slot_occupied(frame@, slot as int),
{
    let c = slot_center(slot);
    let blue = count_hits(
        frame,
        Hue::FrameBlue,
        c.x - SLOT_HALF_X,
        c.x + SLOT_HALF_X + 1,
        c.y - SLOT_HALF_Y,
        c.y + SLOT_HALF_Y + 1,
        1,
        0,
        1,
        0,
    );
    blue >= MIN_FRAME_BLUE_PIXELS
}


/// Red-body silhouette of a drone wireframe, on the grid the detector uses.
pub const DRONE_WIREFRAME_MASK: [&'static str; 16] = [
    "...###..........",
    "...####.#.......",
    "..###########...",
    "..############..",
    ".##############.",
    ".###############",
    "########.##.#..#",
    "########.####...",
    "##############..",
    "#####.#####.###.",
    "####.#####..###.",
    "..##.#####...##.",
    "..##..#####..#..",
    ".......#####....",
    "................",
    "................",
];

/// Red-body silhouette of the single-unit information panel portrait.
pub const SINGLE_DRONE_PORTRAIT_MASK: [&'static str; 16] = [
    "################",
    "####....########",
    "###.############",
    "################",
    "############....",
    "######...###...#",
    "#####....#######",
    "######...#######",
    "########.##.####",
    "###########..###",
    "#.##########..##",
    "..###.#####...##",
    ".####..###....##",
    "######........##",
    "#######........#",
    "..########......",
];

/// Every row of the mask has sixteen cells.
pub open spec fn square_mask(mask: [&'static str; 16]) -> bool {
    forall|r: int| 0 <= r < 16 ==> (#[trigger] mask@[r])@.len() == 16
}

/// Both embedded masks are 16×16.
pub proof fn lemma_masks_are_square()
    ensures
        square_mask(DRONE_WIREFRAME_MASK),
        square_mask(SINGLE_DRONE_PORTRAIT_MASK),
{
    reveal_strlit("...###..........");
    reveal_strlit("...####.#.......");
    reveal_strlit("..###########...");
    reveal_strlit("..############..");
    reveal_strlit(".##############.");
    reveal_strlit(".###############");
    reveal_strlit("########.##.#..#");
    reveal_strlit("########.####...");
    reveal_strlit("##############..");
    reveal_strlit("#####.#####.###.");
    reveal_strlit("####.#####..###.");
    reveal_strlit("..##.#####...##.");
    reveal_strlit("..##..#####..#..");
    reveal_strlit(".......#####....");
    reveal_strlit("................");
    reveal_strlit("################");
    reveal_strlit("####....########");
    reveal_strlit("###.############");
    reveal_strlit("############....");
    reveal_strlit("######...###...#");
    reveal_strlit("#####....#######");
    reveal_strlit("######...#######");
    reveal_strlit("########.##.####");
    reveal_strlit("###########..###");
    reveal_strlit("#.##########..##");
    reveal_strlit("..###.#####...##");
    reveal_strlit(".####..###....##");
    reveal_strlit("######........##");
    reveal_strlit("#######........#");
    reveal_strlit("..########......");
}

/// Cell `i` (row-major) of the mask is part of the silhouette.
pub open spec fn mask_at(mask: [&'static str; 16], i: int) -> bool {
    mask@[i / 16]@[i % 16] == '#'
}

/// Cell `(gx, gy)` of the 16×16 grid centred on `c` holds a red-body pixel.
pub open spec fn cell_red(v: FrameView, c: Point, gx: int, gy: int) -> bool {
    let left = c.x - 32 + gx * 4;
    let top = c.y - 32 + gy * 4;
    box_hits(v, Hue::BodyRed, left, left + 4, top, top + 4, no_hole()) > 0
}

/// Running tally `(both, either, red)` over the first `k` cells: cells red in
/// both the mask and the frame, in either of them, and red in the frame.
pub open spec fn tally(v: FrameView, c: Point, mask: [&'static str; 16], k: int) -> (nat, nat, nat)
    decreases k,
{
    if k <= 0 {
        (0, 0, 0)
    } else {
        let (b, e, r) = tally(v, c, mask, k - 1);
        let m = mask_at(mask, k - 1);
        let a = cell_red(v, c, (k - 1) % 16, (k - 1) / 16);
        (
            b + if m && a { 1nat } else { 0nat },
            e + if m || a { 1nat } else { 0nat },
            r + if a { 1nat } else { 0nat },
        )
    }
}

/// The mask agreement `both / either` as a fraction; an empty union agrees
/// completely.
pub open spec fn ratio(t: (nat, nat, nat)) -> (nat, nat) {
    if t.1 == 0 {
        (1, 1)
    } else {
        (t.0, t.1)
    }
}

/// Tally `a` agrees strictly better than tally `b`.
pub open spec fn better(a: (nat, nat, nat), b: (nat, nat, nat)) -> bool {
    ratio(a).0 * ratio(b).1 > ratio(b).0 * ratio(a).1
}

/// The alignment offsets tried, in pixels: -6, -3, 0, 3, 6.
pub open spec fn align_offset(i: int) -> int {
    3 * i - 6
}

/// The tally at alignment `k` (rows of five: `dy` outer, `dx` inner).
pub open spec fn tally_at(v: FrameView, c: Point, mask: [&'static str; 16], k: int) -> (nat, nat, nat) {
    tally(
        v,
        Point { x: (c.x + align_offset(k % 5)) as i32, y: (c.y + align_offset(k / 5)) as i32 },
        mask,
        256,
    )
}

/// The first strictly best tally over the first `k` alignments, starting from
/// no agreement at all.
pub open spec fn best_upto(v: FrameView, c: Point, mask: [&'static str; 16], k: int) -> (
    nat,
    nat,
    nat,
)
    decreases k,
{
    if k <= 0 {
        (0, 1, 0)
    } else {
        let prev = best_upto(v, c, mask, k - 1);
        let cur = tally_at(v, c, mask, k - 1);
        if better(cur, prev) {
            cur
        } else {
            prev
        }
    }
}

/// The best alignment of `mask` around `c`.
pub open spec fn best_match(v: FrameView, c: Point, mask: [&'static str; 16]) -> (nat, nat, nat) {
    best_upto(v, c, mask, 25)
}

/// A tally agrees with the mask by at least 3/5 and has `min_cells` red cells.
pub open spec fn mask_accepts(t: (nat, nat, nat), min_cells: nat) -> bool {
    5 * ratio(t).0 >= 3 * ratio(t).1 && t.2 >= min_cells
}

/// Centres the detectors probe stay far from the ends of `i32`.
pub open spec fn probe_center(c: Point) -> bool {
    -1_000_000 <= c.x <= 1_000_000 && -1_000_000 <= c.y <= 1_000_000
}

/// A grid centre within a few pixels of a probe centre.
pub open spec fn grid_center(c: Point) -> bool {
    -1_000_010 <= c.x <= 1_000_010 && -1_000_010 <= c.y <= 1_000_010
}

/// Reads [`cell_red`].
fn read_cell(frame: &Frame, c: Point, gx: i32, gy: i32) -> (red: bool)
    requires
        grid_center(c),
        0 <= gx < 16,
        0 <= gy < 16,
    ensures
        red == cell_red(frame@, c, gx as int, gy as int),
{
    let left = c.x - MASK_HALF + gx * MASK_CELL;
    let top = c.y - MASK_HALF + gy * MASK_CELL;
    count_hits(frame, Hue::BodyRed, left, left + 4, top, top + 4, 1, 0, 1, 0) > 0
}

/// The full tally of `mask` against the grid centred on `c`.
fn tally_grid(frame: &Frame, c: Point, mask: &[&'static str; 16]) -> (t: (u32, u32, u32))
    requires
        grid_center(c),
        square_mask(*mask),
    ensures
        (t.0 as nat, t.1 as nat, t.2 as nat) == tally(frame@, c, *mask, 256),
{
    let mut both: u32 = 0;
    let mut either: u32 = 0;
    let mut red: u32 = 0;
    let mut i: usize = 0;
    while i < 256
        invariant
            i <= 256,
            grid_center(c),
            square_mask(*mask),
            (both as nat, either as nat, red as nat) == tally(frame@, c, *mask, i as int),
            both <= i,
            either <= i,
            red <= i,
        decreases 256 - i,
    {
        let gx = (i % 16) as i32;
        let gy = (i / 16) as i32;
        let row = mask[i / 16];
        assert(row@.len() == 16);
        let m = row.get_char(i % 16) == '#';
        let a = read_cell(frame, c, gx, gy);
        if m && a {
            both = both + 1;
        }
        if m || a {
            either = either + 1;
        }
        if a {
            red = red + 1;
        }
        i = i + 1;
    }
    (both, either, red)
}

/// Exact comparison of two tallies' agreement, as [`better`] states it.
fn agrees_better(a: (u32, u32, u32), b: (u32, u32, u32)) -> (yes: bool)
    ensures
        yes == better(
            (a.0 as nat, a.1 as nat, a.2 as nat),
            (b.0 as nat, b.1 as nat, b.2 as nat),
        ),
{
    let (an, ad): (u64, u64) = if a.1 == 0 {
        (1, 1)
    } else {
        (a.0 as u64, a.1 as u64)
    };
    let (bn, bd): (u64, u64) = if b.1 == 0 {
        (1, 1)
    } else {
        (b.0 as u64, b.1 as u64)
    };
    proof {
        assert(an * bd <= 0xFFFF_FFFF * 0xFFFF_FFFF) by (nonlinear_arith)
            requires
                an <= 0xFFFF_FFFF,
                bd <= 0xFFFF_FFFF,
        ;
        assert(bn * ad <= 0xFFFF_FFFF * 0xFFFF_FFFF) by (nonlinear_arith)
            requires
                bn <= 0xFFFF_FFFF,
                ad <= 0xFFFF_FFFF,
        ;
    }
    an * bd > bn * ad
}

/// Best tally of `mask` around `c` over the small alignment offsets.
fn best_mask_match(frame: &Frame, c: Point, mask: &[&'static str; 16]) -> (t: (u32, u32, u32))
    requires
        probe_center(c),
        square_mask(*mask),
    ensures
        (t.0 as nat, t.1 as nat, t.2 as nat) == best_match(frame@, c, *mask),
{
    let offsets: [i32; 5] = [-6, -3, 0, 3, 6];
    let mut best: (u32, u32, u32) = (0, 1, 0);
    let mut k: usize = 0;
    while k < 25
        invariant
            k <= 25,
            probe_center(c),
            square_mask(*mask),
            offsets@ == seq![-6i32, -3i32, 0i32, 3i32, 6i32],
            (best.0 as nat, best.1 as nat, best.2 as nat) == best_upto(frame@, c, *mask, k as int),
        decreases 25 - k,
    {
        let dx = offsets[k % 5];
        let dy = offsets[k / 5];
        assert(dx == align_offset((k % 5) as int));
        assert(dy == align_offset((k / 5) as int));
        let cur = tally_grid(frame, Point::new(c.x + dx, c.y + dy), mask);
        if agrees_better(cur, best) {
            best = cur;
        }
        k = k + 1;
    }
    best
}


/// One wireframe slot's raw readout, for diagnostics and tests. The mask
/// agreement is `matched / union` (complete when `union` is 0).
#[derive(Clone, Copy, Debug, PartialEq, Eq, Structural)]
pub struct SlotReadout {
    pub slot: u8,
    pub center: Point,
    pub occupied: bool,
    pub drone: bool,
    pub matched: u32,
    pub union: u32,
    pub cells: u32,
}

/// An occupied slot whose best alignment looks like a drone.
pub open spec fn slot_drone(v: FrameView, s: int) -> bool {
    slot_occupied(v, s) && mask_accepts(best_match(v, slot_point(s), DRONE_WIREFRAME_MASK), 25)
}

/// What [`read_slots`] reports for slot `s`.
pub open spec fn readout(v: FrameView, s: int) -> SlotReadout {
    let occupied = slot_occupied(v, s);
    let t = if occupied {
        best_match(v, slot_point(s), DRONE_WIREFRAME_MASK)
    } else {
        (0nat, 1nat, 0nat)
    };
    SlotReadout {
        slot: s as u8,
        center: slot_point(s),
        occupied,
        drone: occupied && mask_accepts(t, 25),
        matched: t.0 as u32,
        union: t.1 as u32,
        cells: t.2 as u32,
    }
}

/// The mask agreement `both / either` meets `3 / 5` and there are enough red
/// cells.
fn tally_accepts(t: (u32, u32, u32), min_cells: u32) -> (yes: bool)
    ensures
        yes == mask_accepts((t.0 as nat, t.1 as nat, t.2 as nat), min_cells as nat),
{
    let (num, den): (u64, u64) = if t.1 == 0 {
        (1, 1)
    } else {
        (t.0 as u64, t.1 as u64)
    };
    5 * num >= 3 * den && t.2 >= min_cells
}

/// Probes every wireframe slot of the selection HUD.
pub fn read_slots(frame: &Frame) -> (slots: Vec<SlotReadout>)
    ensures
        slots@.len() == 12,
        forall|s: int| 0 <= s < 12 ==> #[trigger] slots@[s] == readout(frame@, s),
{
    proof {
        lemma_masks_are_square();
    }
    let mask = DRONE_WIREFRAME_MASK;
    let mut slots: Vec<SlotReadout> = Vec::new();
    let mut slot: u8 = 0;
    while slot < SLOT_COUNT
        invariant
            slot <= 12,
            mask == DRONE_WIREFRAME_MASK,
            square_mask(mask),
            slots@.len() == slot,
            forall|s: int| 0 <= s < slot ==> #[trigger] slots@[s] == readout(frame@, s),
        decreases 12 - slot,
    {
        let center = slot_center(slot);
        let occupied = slot_is_occupied(frame, slot);
        let t = if occupied {
            best_mask_match(frame, center, &mask)
        } else {
            (0, 1, 0)
        };
        let drone = occupied && tally_accepts(t, DRONE_MIN_CELLS);
        slots.push(
            SlotReadout {
                slot,
                center,
                occupied,
                drone,
                matched: t.0,
                union: t.1,
                cells: t.2,
            },
        );
        slot = slot + 1;
    }
    slots
}

/// Number of occupied slots among the first `k`.
pub open spec fn occupied_count(v: FrameView, k: int) -> nat
    decreases k,
{
    if k <= 0 {
        0
    } else {
        occupied_count(v, k - 1) + if slot_occupied(v, k - 1) { 1nat } else { 0nat }
    }
}

/// The first occupied slot among the first `k`.
pub open spec fn first_occupied(v: FrameView, k: int) -> Option<int>
    decreases k,
{
    if k <= 0 {
        None
    } else {
        match first_occupied(v, k - 1) {
            Some(s) => Some(s),
            None => if slot_occupied(v, k - 1) {
                Some(k - 1)
            } else {
                None
            },
        }
    }
}

/// The first slot among the first `k` that is not a drone.
pub open spec fn first_non_drone(v: FrameView, k: int) -> Option<int>
    decreases k,
{
    if k <= 0 {
        None
    } else {
        match first_non_drone(v, k - 1) {
            Some(s) => Some(s),
            None => if !slot_drone(v, k - 1) {
                Some(k - 1)
            } else {
                None
            },
        }
    }
}

/// The occupied slots are exactly `0..n`, as the game fills a group.
pub open spec fn contiguous(v: FrameView) -> bool {
    forall|s: int| 0 <= s < 12 ==> slot_occupied(v, s) == (s < occupied_count(v, 12))
}

/// The single-unit information panel shows a drone portrait.
pub open spec fn single_drone(v: FrameView) -> bool {
    mask_accepts(
        best_match(v, Point { x: 696, y: 950 }, SINGLE_DRONE_PORTRAIT_MASK),
        40,
    )
}

/// What the selection HUD of `v` reads as.
pub open spec fn selection_of(v: FrameView) -> SelectionRead {
    if v.width != 1920 || v.height != 1080 {
        SelectionRead::Rejected(RejectReason::UnsupportedProfile)
    } else if sampled_dark(v) {
        SelectionRead::Rejected(RejectReason::BlankCapture)
    } else {
        let n = occupied_count(v, 12);
        if contiguous(v) && n >= 2 {
            match first_non_drone(v, n as int) {
                Some(s) => SelectionRead::Rejected(RejectReason::OccupiedNonDrone { slot: s as u8 }),
                None => SelectionRead::Drones { count: n as u8 },
            }
        } else if single_drone(v) {
            SelectionRead::SingleDrone
        } else {
            match first_occupied(v, 12) {
                None => SelectionRead::Rejected(RejectReason::NoDroneSelection),
                Some(s) => if n == 1 && slot_drone(v, s) {
                    SelectionRead::Rejected(RejectReason::SingleWireframe)
                } else {
                    SelectionRead::Rejected(RejectReason::OccupiedNonDrone { slot: s as u8 })
                },
            }
        }
    }
}

/// At most `k` of the first `k` slots are occupied.
proof fn lemma_occupied_count_bound(v: FrameView, k: int)
    ensures
        occupied_count(v, k) <= if k < 0 { 0 } else { k },
    decreases k,
{
    if k > 0 {
        lemma_occupied_count_bound(v, k - 1);
    }
}

/// A group read always counts between two and twelve drones.
pub proof fn lemma_group_read_counts_two_to_twelve(v: FrameView)
    ensures
        selection_of(v) matches SelectionRead::Drones { count } ==> 2 <= count <= 12,
{
    lemma_occupied_count_bound(v, 12);
}

/// The first non-drone slot among the first `k` is one, and every slot
/// before it is a drone; with none, all `k` are drones.
proof fn lemma_first_non_drone_spec(v: FrameView, k: int)
    ensures
        first_non_drone(v, k) matches Some(s) ==> 0 <= s < k && !slot_drone(v, s) && forall|t: int|
            0 <= t < s ==> slot_drone(v, t),
        first_non_drone(v, k) is None ==> forall|t: int| 0 <= t < k ==> slot_drone(v, t),
    decreases k,
{
    if k > 0 {
        lemma_first_non_drone_spec(v, k - 1);
    }
}

/// A group read counts only drones: the capture is the supported client, its
/// occupied slots are exactly the first `count`, and every one of them holds
/// a drone wireframe. A group of two or more that holds anything else is
/// refused at its first slot that is not a drone, every slot before it
/// being one.
pub proof fn lemma_group_read_is_all_drones(v: FrameView)
    ensures
        selection_of(v) matches SelectionRead::Drones { count } ==> {
            &&& v.width == 1920 && v.height == 1080
            &&& 2 <= count <= 12
            &&& forall|s: int| 0 <= s < 12 ==> (slot_occupied(v, s) <==> s < count)
            &&& forall|s: int| 0 <= s < count ==> slot_drone(v, s)
        },
        v.width == 1920 && v.height == 1080 && !sampled_dark(v) && contiguous(v) && occupied_count(
            v,
            12,
        ) >= 2 && (exists|s: int| 0 <= s < occupied_count(v, 12) && !slot_drone(v, s))
            ==> (selection_of(v) matches SelectionRead::Rejected(
            RejectReason::OccupiedNonDrone { slot },
        ) && slot < occupied_count(v, 12) && slot_occupied(v, slot as int) && !slot_drone(
            v,
            slot as int,
        ) && forall|t: int| 0 <= t < slot ==> slot_drone(v, t)),
{
    lemma_occupied_count_bound(v, 12);
    let n = occupied_count(v, 12);
    lemma_first_non_drone_spec(v, n as int);
}

/// True when the single-unit information panel shows a drone portrait.
fn single_portrait_is_drone(frame: &Frame) -> (yes: bool)
    ensures
        yes == single_drone(frame@),
{
    proof {
        lemma_masks_are_square();
    }
    let mask = SINGLE_DRONE_PORTRAIT_MASK;
    let t = best_mask_match(frame, Point::new(SINGLE_PORTRAIT_X, SINGLE_PORTRAIT_Y), &mask);
    tally_accepts(t, SINGLE_MIN_CELLS)
}

proof fn lemma_first_non_drone_stays(v: FrameView, a: int, b: int)
    requires
        a <= b,
        first_non_drone(v, a) is Some,
    ensures
        first_non_drone(v, b) == first_non_drone(v, a),
    decreases b - a,
{
    if b > a {
        lemma_first_non_drone_stays(v, a, b - 1);
    }
}

proof fn lemma_first_occupied_bound(v: FrameView, k: int)
    ensures
        first_occupied(v, k) matches Some(s) ==> 0 <= s < k && slot_occupied(v, s),
    decreases k,
{
    if k > 0 {
        lemma_first_occupied_bound(v, k - 1);
    }
}

/// Reads the selection HUD of a full client frame.
pub fn detect_selection(frame: &Frame) -> (read: SelectionRead)
    ensures
        read == selection_of(frame@),
{
    if frame.width() != CLIENT_WIDTH || frame.height() != CLIENT_HEIGHT {
        return SelectionRead::Rejected(RejectReason::UnsupportedProfile);
    }
    if frame.is_blank() {
        return SelectionRead::Rejected(RejectReason::BlankCapture);
    }
    let slots = read_slots(frame);
    let ghost v = frame@;
    assert forall|s: int| 0 <= s < 12 implies #[trigger] slots@[s].occupied == slot_occupied(v, s)
        && slots@[s].drone == slot_drone(v, s) by {
        assert(slots@[s] == readout(v, s));
    }
    // Count the occupied slots, find the first one, and check that they are
    // exactly a prefix.
    let mut n: u8 = 0;
    let mut first: Option<u8> = None;
    let mut i: usize = 0;
    while i < 12
        invariant
            i <= 12,
            v == frame@,
            slots@.len() == 12,
            forall|s: int| 0 <= s < 12 ==> #[trigger] slots@[s].occupied == slot_occupied(v, s),
            n == occupied_count(v, i as int),
            n <= i,
            match first {
                Some(f) => first_occupied(v, i as int) == Some(f as int),
                None => first_occupied(v, i as int) is None,
            },
        decreases 12 - i,
    {
        if slots[i].occupied {
            if first.is_none() {
                first = Some(i as u8);
            }
            n = n + 1;
        }
        i = i + 1;
    }
    let mut prefix = true;
    let mut j: usize = 0;
    while j < 12
        invariant
            j <= 12,
            v == frame@,
            slots@.len() == 12,
            forall|s: int| 0 <= s < 12 ==> #[trigger] slots@[s].occupied == slot_occupied(v, s),
            n == occupied_count(v, 12),
            prefix == forall|s: int| 0 <= s < j ==> slot_occupied(v, s) == (s < n),
        decreases 12 - j,
    {
        let expected = j < n as usize;
        if slots[j].occupied != expected {
            prefix = false;
        }
        j = j + 1;
    }
    if prefix && n >= 2 {
        let mut k: usize = 0;
        while k < n as usize
            invariant
                k <= n,
                2 <= n <= 12,
                v == frame@,
                slots@.len() == 12,
                forall|s: int| 0 <= s < 12 ==> #[trigger] slots@[s].drone == slot_drone(v, s),
                contiguous(v),
                v.width == 1920,
                v.height == 1080,
                !sampled_dark(v),
                n == occupied_count(v, 12),
                first_non_drone(v, k as int) is None,
            decreases n - k,
        {
            if !slots[k].drone {
                proof {
                    lemma_first_non_drone_stays(v, k + 1, n as int);
                }
                return SelectionRead::Rejected(RejectReason::OccupiedNonDrone { slot: k as u8 });
            }
            k = k + 1;
        }
        return SelectionRead::Drones { count: n };
    }
    if single_portrait_is_drone(frame) {
        return SelectionRead::SingleDrone;
    }
    proof {
        lemma_first_occupied_bound(v, 12);
    }
    match first {
        None => SelectionRead::Rejected(RejectReason::NoDroneSelection),
        Some(s) => {
            if n == 1 && slots[s as usize].drone {
                SelectionRead::Rejected(RejectReason::SingleWireframe)
            } else {
                SelectionRead::Rejected(RejectReason::OccupiedNonDrone { slot: s })
            }
        },
    }
}


/// The bounding box of the coloured pixels a window holds (inclusive).
pub ghost struct OverlayBox {
    pub min_x: int,
    pub min_y: int,
    pub max_x: int,
    pub max_y: int,
}

/// `(x, y)` lies in `win` and has colour class `h`.
pub open spec fn window_hit(v: FrameView, h: Hue, win: Rect, x: int, y: int) -> bool {
    win.x <= x < win.x + win.w && win.y <= y < win.y + win.h && hit(v, h, x, y)
}

/// `b` is the bounding box of the `h` pixels of `win`: it holds all of them
/// and each of its four edges touches one.
pub open spec fn bounds(v: FrameView, h: Hue, win: Rect, b: OverlayBox) -> bool {
    &&& forall|x: int, y: int|
        #[trigger] window_hit(v, h, win, x, y) ==> b.min_x <= x <= b.max_x && b.min_y <= y
            <= b.max_y
    &&& exists|y: int| #[trigger] window_hit(v, h, win, b.min_x, y)
    &&& exists|y: int| #[trigger] window_hit(v, h, win, b.max_x, y)
    &&& exists|x: int| #[trigger] window_hit(v, h, win, x, b.min_y)
    &&& exists|x: int| #[trigger] window_hit(v, h, win, x, b.max_y)
}

/// The bounding box of the `h` pixels of `win`.
pub open spec fn overlay_box(v: FrameView, h: Hue, win: Rect) -> OverlayBox {
    choose|b: OverlayBox| bounds(v, h, win, b)
}

/// Number of `h` pixels in `win`.
pub open spec fn window_count(v: FrameView, h: Hue, win: Rect) -> nat {
    box_hits(v, h, win.x as int, win.x + win.w, win.y as int, win.y + win.h, no_hole())
}

/// Number of `h` pixels in the ten-pixel ring just outside `b`.
pub open spec fn ring_count(v: FrameView, h: Hue, b: OverlayBox) -> nat {
    box_hits(
        v,
        h,
        b.min_x - 10,
        b.max_x + 11,
        b.min_y - 10,
        b.max_y + 11,
        Hole { x0: b.min_x, x1: b.max_x, y0: b.min_y, y1: b.max_y },
    )
}

/// Half of `a`, rounded toward zero.
pub open spec fn half_toward_zero(a: int) -> int {
    if a >= 0 {
        a / 2
    } else {
        -((-a) / 2)
    }
}

/// The preview square `win` holds in colour `h` for a building `fp` pixels
/// wide, and its centre: a box of side `3/4..=5/4` of the footprint, nearly
/// square (sides within a fifth of the longer one), filled to at least 3/10,
/// with at most 3/20 of the surrounding ring in the same colour (a naturally
/// coloured area is no preview).
pub open spec fn overlay(v: FrameView, h: Hue, win: Rect, fp: int) -> Option<Point> {
    let count = window_count(v, h, win);
    let b = overlay_box(v, h, win);
    let w = b.max_x - b.min_x + 1;
    let ht = b.max_y - b.min_y + 1;
    let longer = if w >= ht { w } else { ht };
    let diff = if w >= ht { w - ht } else { ht - w };
    if count == 0 {
        None
    } else if !(fp > 0 && fp * 3 / 4 <= w <= fp * 5 / 4 && fp * 3 / 4 <= ht <= fp * 5 / 4) {
        None
    } else if diff > longer / 5 {
        None
    } else if 10 * count < 3 * (w * ht) {
        None
    } else if 20 * ring_count(v, h, b) > 3 * ((w + 20) * (ht + 20) - w * ht) {
        None
    } else {
        Some(
            Point {
                x: half_toward_zero(b.min_x + b.max_x) as i32,
                y: half_toward_zero(b.min_y + b.max_y) as i32,
            },
        )
    }
}

/// The search radius around a target: at least 176 pixels, and at least the
/// footprint.
pub open spec fn search_radius(fp: int) -> int {
    if fp > 176 {
        fp
    } else {
        176
    }
}

/// The square window searched around `target`.
pub open spec fn search_window(target: Point, fp: int) -> Rect {
    let r = search_radius(fp);
    Rect { x: (target.x - r) as i32, y: (target.y - r) as i32, w: (2 * r) as i32, h: (2 * r) as i32 }
}

/// The inputs [`detect_placement`] computes with `i32` arithmetic: five
/// quarters of the footprint fit, and the search window, widened by the
/// terrain ring, stays within half the `i32` range, so that a box centre (the
/// sum of two coordinates) fits too.
pub open spec fn placement_in_range(target: Point, fp: int) -> bool {
    let r = search_radius(fp);
    &&& fp * 5 <= i32::MAX
    &&& -0x4000_0000 <= target.x - r - 20
    &&& target.x + r + 20 <= 0x3FFF_FFFF
    &&& -0x4000_0000 <= target.y - r - 20
    &&& target.y + r + 20 <= 0x3FFF_FFFF
}

/// What the placement preview near `target` reads as.
pub open spec fn placement_of(v: FrameView, target: Point, fp: int) -> Placement {
    let win = search_window(target, fp);
    match (overlay(v, Hue::PreviewGreen, win, fp), overlay(v, Hue::PreviewRed, win, fp)) {
        (Some(center), None) => Placement::Valid { center },
        (None, Some(center)) => Placement::Invalid { center },
        (Some(_), Some(_)) => Placement::Ambiguous,
        (None, None) => Placement::Absent,
    }
}

/// A preview is read only off a square that stands out from its
/// surroundings: at most 3/20 of the ten-pixel ring just outside the
/// bounding box of its colour has that colour (a naturally coloured area
/// runs on past the box), the box measures 3/4..=5/4 of the footprint on
/// each side and is at least 3/10 filled, and the reported centre is the
/// box's.
pub proof fn lemma_preview_square_stands_out(v: FrameView, target: Point, fp: int)
    ensures
        ({
            let win = search_window(target, fp);
            forall|h: Hue|
                #![trigger overlay(v, h, win, fp)]
                (h == Hue::PreviewGreen && placement_of(v, target, fp) is Valid) || (h
                    == Hue::PreviewRed && placement_of(v, target, fp) is Invalid) ==> {
                    let b = overlay_box(v, h, win);
                    let w = b.max_x - b.min_x + 1;
                    let ht = b.max_y - b.min_y + 1;
                    &&& 20 * ring_count(v, h, b) <= 3 * ((w + 20) * (ht + 20) - w * ht)
                    &&& fp * 3 / 4 <= w <= fp * 5 / 4
                    &&& fp * 3 / 4 <= ht <= fp * 5 / 4
                    &&& 10 * window_count(v, h, win) >= 3 * (w * ht)
                    &&& (placement_of(v, target, fp) matches Placement::Valid { center } ==> center
                        == (Point {
                        x: half_toward_zero(b.min_x + b.max_x) as i32,
                        y: half_toward_zero(b.min_y + b.max_y) as i32,
                    }))
                    &&& (placement_of(v, target, fp) matches Placement::Invalid { center } ==> center
                        == (Point {
                        x: half_toward_zero(b.min_x + b.max_x) as i32,
                        y: half_toward_zero(b.min_y + b.max_y) as i32,
                    }))
                }
        }),
{
    let win = search_window(target, fp);
    assert(overlay(v, Hue::PreviewGreen, win, fp) == overlay(v, Hue::PreviewGreen, win, fp));
    assert(overlay(v, Hue::PreviewRed, win, fp) == overlay(v, Hue::PreviewRed, win, fp));
}

/// The bounding box of a window is unique.
proof fn lemma_bounds_unique(v: FrameView, h: Hue, win: Rect, a: OverlayBox, b: OverlayBox)
    requires
        bounds(v, h, win, a),
        bounds(v, h, win, b),
    ensures
        a == b,
{
    let ya = choose|y: int| window_hit(v, h, win, a.min_x, y);
    let yb = choose|y: int| window_hit(v, h, win, b.min_x, y);
    assert(b.min_x <= a.min_x && a.min_x <= b.min_x);
    let ya2 = choose|y: int| window_hit(v, h, win, a.max_x, y);
    let yb2 = choose|y: int| window_hit(v, h, win, b.max_x, y);
    assert(b.max_x >= a.max_x && a.max_x >= b.max_x);
    let xa = choose|x: int| window_hit(v, h, win, x, a.min_y);
    let xb = choose|x: int| window_hit(v, h, win, x, b.min_y);
    assert(b.min_y <= a.min_y && a.min_y <= b.min_y);
    let xa2 = choose|x: int| window_hit(v, h, win, x, a.max_y);
    let xb2 = choose|x: int| window_hit(v, h, win, x, b.max_y);
    assert(b.max_y >= a.max_y && a.max_y >= b.max_y);
}


/// A window whose coordinates, widened by the ring, stay inside `i32`.
pub open spec fn window_in_range(win: Rect) -> bool {
    &&& 0 <= win.w
    &&& 0 <= win.h
    &&& -0x4000_0000 + 20 <= win.x
    &&& -0x4000_0000 + 20 <= win.y
    &&& win.x + win.w + 20 <= 0x3FFF_FFFF
    &&& win.y + win.h + 20 <= 0x3FFF_FFFF
}

/// The count and bounding box of the `h` pixels of `win`.
fn scan_window(frame: &Frame, win: Rect, h: Hue) -> (r: (u64, i32, i32, i32, i32))
    requires
        window_in_range(win),
    ensures
        r.0 == window_count(frame@, h, win),
        r.0 > 0 ==> bounds(
            frame@,
            h,
            win,
            OverlayBox { min_x: r.1 as int, min_y: r.2 as int, max_x: r.3 as int, max_y: r.4 as int },
        ),
        r.0 == 0 ==> forall|x: int, y: int| !#[trigger] window_hit(frame@, h, win, x, y),
{
    let ghost v = frame@;
    let right = win.right();
    let bottom = win.bottom();
    let mut min_x = i32::MAX;
    let mut min_y = i32::MAX;
    let mut max_x = i32::MIN;
    let mut max_y = i32::MIN;
    let mut count: u64 = 0;
    let ghost mut w1: int = 0;
    let ghost mut w2: int = 0;
    let ghost mut w3: int = 0;
    let ghost mut w4: int = 0;
    let mut y = win.y;
    while y < bottom
        invariant
            v == frame@,
            window_in_range(win),
            right == win.x + win.w,
            bottom == win.y + win.h,
            win.y <= y <= bottom,
            count == box_hits(v, h, win.x as int, right as int, win.y as int, y as int, no_hole()),
            count <= (y - win.y) * win.w,
            count == 0 ==> forall|x: int, yy: int|
                #[trigger] window_hit(v, h, win, x, yy) && yy < y ==> false,
            count > 0 ==> forall|x: int, yy: int|
                #[trigger] window_hit(v, h, win, x, yy) && yy < y ==> min_x <= x <= max_x && min_y
                    <= yy <= max_y,
            count > 0 ==> window_hit(v, h, win, min_x as int, w1) && window_hit(
                v,
                h,
                win,
                max_x as int,
                w2,
            ) && window_hit(v, h, win, w3, min_y as int) && window_hit(v, h, win, w4, max_y as int),
        decreases bottom - y,
    {
        let mut x = win.x;
        let mut row: u64 = 0;
        let ghost before = count;
        while x < right
            invariant
                v == frame@,
                window_in_range(win),
                right == win.x + win.w,
                bottom == win.y + win.h,
                win.y <= y < bottom,
                win.x <= x <= right,
                row == row_hits(v, h, y as int, win.x as int, x as int, no_hole()),
                row <= x - win.x,
                before <= (y - win.y) * win.w,
                count == before + row,
                count == 0 ==> forall|xx: int, yy: int|
                    #[trigger] window_hit(v, h, win, xx, yy) && (yy < y || (yy == y && xx < x))
                        ==> false,
                count > 0 ==> forall|xx: int, yy: int|
                    #[trigger] window_hit(v, h, win, xx, yy) && (yy < y || (yy == y && xx < x))
                        ==> min_x <= xx <= max_x && min_y <= yy <= max_y,
                count > 0 ==> window_hit(v, h, win, min_x as int, w1) && window_hit(
                    v,
                    h,
                    win,
                    max_x as int,
                    w2,
                ) && window_hit(v, h, win, w3, min_y as int) && window_hit(
                    v,
                    h,
                    win,
                    w4,
                    max_y as int,
                ),
            decreases right - x,
        {
            if hit_at(frame, h, x, y) {
                assert(window_hit(v, h, win, x as int, y as int));
                if count == 0 || x < min_x {
                    min_x = x;
                    proof {
                        w1 = y as int;
                    }
                }
                if count == 0 || x > max_x {
                    max_x = x;
                    proof {
                        w2 = y as int;
                    }
                }
                if count == 0 || y < min_y {
                    min_y = y;
                    proof {
                        w3 = x as int;
                    }
                }
                if count == 0 || y > max_y {
                    max_y = y;
                    proof {
                        w4 = x as int;
                    }
                }
                row = row + 1;
                proof {
                    assert((y - win.y) * win.w + (x - win.x) + 1 <= 0xFFFF_FFFF * 0xFFFF_FFFF)
                        by (nonlinear_arith)
                        requires
                            0 <= y - win.y <= 0xFFFF_FFFF,
                            0 <= x - win.x < win.w <= 0xFFFF_FFFF,
                    ;
                }
                count = count + 1;
            }
            x = x + 1;
        }
        proof {
            assert((y + 1 - win.y) * win.w == (y - win.y) * win.w + win.w) by (nonlinear_arith);
        }
        y = y + 1;
    }
    proof {
        if count > 0 {
            let b = OverlayBox {
                min_x: min_x as int,
                min_y: min_y as int,
                max_x: max_x as int,
                max_y: max_y as int,
            };
            assert(window_hit(v, h, win, b.min_x, w1));
            assert(window_hit(v, h, win, b.max_x, w2));
            assert(window_hit(v, h, win, w3, b.min_y));
            assert(window_hit(v, h, win, w4, b.max_y));
            assert forall|x: int, yy: int| #[trigger] window_hit(v, h, win, x, yy) implies b.min_x
                <= x <= b.max_x && b.min_y <= yy <= b.max_y by {
                assert(yy < y);
            }
        } else {
            assert forall|x: int, yy: int| !#[trigger] window_hit(v, h, win, x, yy) by {
                if window_hit(v, h, win, x, yy) {
                    assert(yy < y);
                }
            }
        }
    }
    (count, min_x, min_y, max_x, max_y)
}


/// Finds a preview-sized square of `h` pixels inside `win`, as [`overlay`]
/// states it.
fn overlay_square(frame: &Frame, win: Rect, h: Hue, fp: i32) -> (center: Option<Point>)
    requires
        window_in_range(win),
        fp * 5 <= i32::MAX,
    ensures
        center == overlay(frame@, h, win, fp as int),
{
    let ghost v = frame@;
    let (count, min_x, min_y, max_x, max_y) = scan_window(frame, win, h);
    if count == 0 {
        return None;
    }
    let ghost b = OverlayBox {
        min_x: min_x as int,
        min_y: min_y as int,
        max_x: max_x as int,
        max_y: max_y as int,
    };
    proof {
        let chosen = overlay_box(v, h, win);
        assert(bounds(v, h, win, chosen));
        lemma_bounds_unique(v, h, win, b, chosen);
        let y1 = choose|y: int| window_hit(v, h, win, b.min_x, y);
        let y2 = choose|y: int| window_hit(v, h, win, b.max_x, y);
        let x1 = choose|x: int| window_hit(v, h, win, x, b.min_y);
        let x2 = choose|x: int| window_hit(v, h, win, x, b.max_y);
        assert(win.x <= min_x <= max_x < win.x + win.w);
        assert(win.y <= min_y <= max_y < win.y + win.h);
    }
    if fp <= 0 {
        return None;
    }
    let width = max_x - min_x + 1;
    let height = max_y - min_y + 1;
    let side_min = fp * 3 / 4;
    let side_max = fp * 5 / 4;
    if !(side_min <= width && width <= side_max && side_min <= height && height <= side_max) {
        return None;
    }
    let longer = if width >= height {
        width
    } else {
        height
    };
    let diff = if width >= height {
        width - height
    } else {
        height - width
    };
    if diff > longer / 5 {
        return None;
    }
    proof {
        assert(width * height <= 0xFFFF_FFFF * 0xFFFF_FFFF) by (nonlinear_arith)
            requires
                0 < width <= 0xFFFF_FFFF,
                0 < height <= 0xFFFF_FFFF,
        ;
    }
    let area: u128 = width as u128 * height as u128;
    if 10 * (count as u128) < 3 * area {
        return None;
    }
    let ring = count_hits(
        frame,
        h,
        min_x - PREVIEW_RING,
        max_x + PREVIEW_RING + 1,
        min_y - PREVIEW_RING,
        max_y + PREVIEW_RING + 1,
        min_x,
        max_x,
        min_y,
        max_y,
    );
    proof {
        assert((width + 20) * (height + 20) - width * height == 20 * width + 20 * height + 400)
            by (nonlinear_arith);
        assert((width + 20) * (height + 20) <= 0x1_0000_0014 * 0x1_0000_0014) by (nonlinear_arith)
            requires
                0 < width <= 0xFFFF_FFFF,
                0 < height <= 0xFFFF_FFFF,
        ;
    }
    let ring_area: u128 = (width as u128 + 20) * (height as u128 + 20) - area;
    if 20 * (ring as u128) > 3 * ring_area {
        return None;
    }
    Some(Point::new((min_x + max_x) / 2, (min_y + max_y) / 2))
}

/// Reads the placement preview near `target` (screen coordinates).
///
/// `footprint_px` is the expected building size on screen (144 for a 2×2 Creep
/// Colony, 216 for a 3×3 Spire), so both the search window and the accepted
/// square size scale with the selected building.
pub fn detect_placement(frame: &Frame, target: Point, footprint_px: i32) -> (placement: Placement)
    requires
        placement_in_range(target, footprint_px as int),
    ensures
        placement == placement_of(frame@, target, footprint_px as int),
{
    let search = if footprint_px > PREVIEW_SEARCH_MIN {
        footprint_px
    } else {
        PREVIEW_SEARCH_MIN
    };
    let window = Rect::new(target.x - search, target.y - search, search * 2, search * 2);
    assert(window == search_window(target, footprint_px as int));
    let green = overlay_square(frame, window, Hue::PreviewGreen, footprint_px);
    let red = overlay_square(frame, window, Hue::PreviewRed, footprint_px);
    match (green, red) {
        (Some(center), None) => Placement::Valid { center },
        (None, Some(center)) => Placement::Invalid { center },
        (Some(_), Some(_)) => Placement::Ambiguous,
        (None, None) => Placement::Absent,
    }
}

} // verus!
