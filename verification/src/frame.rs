//! A decoded client-area frame.
//!
//! Coordinates are physical screen pixels; a frame remembers where its own
//! `(0, 0)` sits on screen so that a cursor position can be translated into
//! frame-local coordinates without assuming the client sits at the desktop
//! origin.
use vstd::prelude::*;

verus! {

/// A position in physical screen pixels.
#[derive(Clone, Copy, Debug, PartialEq, Eq, Structural)]
pub struct Point {
    pub x: i32,
    pub y: i32,
}

impl Point {
    pub fn new(x: i32, y: i32) -> (point: Self)
        ensures
            point == (Point { x, y }),
    {
        Point { x, y }
    }

    /// This point translated by `(dx, dy)`.
    pub fn offset(self, dx: i32, dy: i32) -> (point: Self)
        requires
            i32::MIN <= self.x + dx <= i32::MAX,
            i32::MIN <= self.y + dy <= i32::MAX,
        ensures
            point.x == self.x + dx,
            point.y == self.y + dy,
    {
        Point { x: self.x + dx, y: self.y + dy }
    }
}

/// One 8-bit RGB sample.
#[derive(Clone, Copy, Debug, PartialEq, Eq, Structural)]
pub struct Rgb {
    pub r: u8,
    pub g: u8,
    pub b: u8,
}

/// Bright blue of the selected-unit wireframe / tooltip frame.
pub open spec fn frame_blue(c: Rgb) -> bool {
    c.b > 120 && c.b - c.r > 40 && c.b - c.g > 25
}

/// Reddish natural palette of a Zerg unit (the drone body).
pub open spec fn body_red(c: Rgb) -> bool {
    c.r > 90 && c.r - c.b > 30 && c.r - c.g > 15
}

/// Saturated green of a valid placement preview overlay.
pub open spec fn preview_green(c: Rgb) -> bool {
    c.g > 90 && c.g - c.r > 30 && c.g - c.b > 30
}

/// Saturated red of a blocked placement preview overlay.
pub open spec fn preview_red(c: Rgb) -> bool {
    c.r > 90 && c.r - c.g > 40 && c.r - c.b > 40
}

impl Rgb {
    pub fn new(r: u8, g: u8, b: u8) -> (c: Self)
        ensures
            c == (Rgb { r, g, b }),
    {
        Rgb { r, g, b }
    }

    /// Bright blue pixels of the selected-unit wireframe / tooltip frame.
    pub fn is_frame_blue(self) -> (yes: bool)
        ensures
            yes == frame_blue(self),
    {
        let (r, g, b) = (self.r as i32, self.g as i32, self.b as i32);
        b > 120 && b - r > 40 && b - g > 25
    }

    /// Reddish pixels of a Zerg unit's natural palette (the drone body).
    pub fn is_body_red(self) -> (yes: bool)
        ensures
            yes == body_red(self),
    {
        let (r, g, b) = (self.r as i32, self.g as i32, self.b as i32);
        r > 90 && r - b > 30 && r - g > 15
    }

    /// Saturated green of a valid placement preview overlay.
    pub fn is_preview_green(self) -> (yes: bool)
        ensures
            yes == preview_green(self),
    {
        let (r, g, b) = (self.r as i32, self.g as i32, self.b as i32);
        g > 90 && g - r > 30 && g - b > 30
    }

    /// Saturated red of a blocked/invalid placement preview overlay.
    pub fn is_preview_red(self) -> (yes: bool)
        ensures
            yes == preview_red(self),
    {
        let (r, g, b) = (self.r as i32, self.g as i32, self.b as i32);
        r > 90 && r - g > 40 && r - b > 40
    }
}

/// Why an image could not be turned into a [`Frame`].
#[derive(Clone, Debug, PartialEq, Eq)]
pub enum FrameError {
    Io(String),
    Decode(String),
    Unsupported(String),
}

/// What a frame holds: its size, its screen origin and its RGBA8 bytes.
pub ghost struct FrameView {
    pub width: nat,
    pub height: nat,
    pub origin: Point,
    pub rgba: Seq<u8>,
}

/// Byte offset of pixel `(x, y)` in a row-major RGBA8 buffer `width` wide.
pub open spec fn pixel_index(width: nat, x: int, y: int) -> int {
    (y * width + x) * 4
}

/// True when `(x, y)` is a pixel of `v`.
pub open spec fn in_frame(v: FrameView, x: int, y: int) -> bool {
    0 <= x < v.width && 0 <= y < v.height
}

/// The colour of frame-local pixel `(x, y)`, or `None` outside the frame.
pub open spec fn pixel_of(v: FrameView, x: int, y: int) -> Option<Rgb> {
    if in_frame(v, x, y) {
        let i = pixel_index(v.width, x, y);
        Some(Rgb { r: v.rgba[i], g: v.rgba[i + 1], b: v.rgba[i + 2] })
    } else {
        None
    }
}

/// The colour at screen point `p`, or `None` outside the frame.
///
/// Like `i32::checked_sub`, an offset that does not fit in `i32` reads as
/// outside the frame.
pub open spec fn screen_pixel(v: FrameView, p: Point) -> Option<Rgb> {
    let dx = p.x - v.origin.x;
    let dy = p.y - v.origin.y;
    if i32::MIN <= dx <= i32::MAX && i32::MIN <= dy <= i32::MAX {
        pixel_of(v, dx, dy)
    } else {
        None
    }
}

/// The shape every frame has: non-empty, and exactly four bytes per pixel.
pub open spec fn frame_shape(v: FrameView) -> bool {
    &&& 0 < v.width <= u32::MAX
    &&& 0 < v.height <= u32::MAX
    &&& v.rgba.len() == v.width * v.height * 4
    &&& v.rgba.len() <= usize::MAX
}

/// A decoded RGBA8 screenshot of the game's client area.
#[derive(Debug)]
pub struct Frame {
    width: u32,
    height: u32,
    origin: Point,
    rgba: Vec<u8>,
}

impl View for Frame {
    type V = FrameView;

    closed spec fn view(&self) -> FrameView {
        FrameView {
            width: self.width as nat,
            height: self.height as nat,
            origin: self.origin,
            rgba: self.rgba@,
        }
    }
}

/// `(y * w + x) * 4 + 3` stays inside a `w * h * 4` buffer for every pixel.
pub proof fn lemma_pixel_index_in_bounds(w: int, h: int, x: int, y: int)
    requires
        0 <= x < w,
        0 <= y < h,
    ensures
        0 <= (y * w + x) * 4,
        (y * w + x) * 4 + 3 < w * h * 4,
{
    assert(0 <= y * w) by (nonlinear_arith)
        requires
            0 <= y,
            0 <= w,
    ;
    assert(y * w + x < w * h) by (nonlinear_arith)
        requires
            0 <= x < w,
            0 <= y < h,
    ;
}

impl Clone for Frame {
    fn clone(&self) -> (copy: Self)
        ensures
            copy@ == self@,
    {
        proof {
            use_type_invariant(self);
        }
        let rgba = self.rgba.clone();
        proof {
            assert(rgba@ =~= self.rgba@);
        }
        Frame { width: self.width, height: self.height, origin: self.origin, rgba }
    }
}

impl Frame {
    #[verifier::type_invariant]
    spec fn shaped(self) -> bool {
        frame_shape(self@)
    }

    /// Wraps `rgba` (length `width * height * 4`). Returns `None` on an empty
    /// size or a size mismatch instead of panicking on later indexing.
    pub fn new(width: u32, height: u32, origin: Point, rgba: Vec<u8>) -> (frame: Option<Self>)
        ensures
            frame is Some <==> (width > 0 && height > 0 && rgba@.len() == width * height * 4),
            frame matches Some(f) ==> f@ == (FrameView {
                width: width as nat,
                height: height as nat,
                origin,
                rgba: rgba@,
            }),
    {
        if width == 0 || height == 0 {
            return None;
        }
        assert(width as u128 * height as u128 <= u64::MAX) by (nonlinear_arith)
            requires
                width <= u32::MAX,
                height <= u32::MAX,
        ;
        let expected: u128 = width as u128 * height as u128 * 4;
        if rgba.len() as u128 != expected {
            return None;
        }
        Some(Frame { width, height, origin, rgba })
    }

    /// An opaque black frame at the screen origin.
    pub fn blank(width: u32, height: u32) -> (frame: Self)
        requires
            width > 0,
            height > 0,
            width * height * 4 <= usize::MAX,
        ensures
            frame@.width == width,
            frame@.height == height,
            frame@.origin == (Point { x: 0, y: 0 }),
            frame@.rgba.len() == width * height * 4,
            forall|i: int| 0 <= i < frame@.rgba.len() ==> #[trigger] frame@.rgba[i] == 0,
    {
        let n: usize = width as usize * height as usize * 4;
        let mut rgba: Vec<u8> = Vec::with_capacity(n);
        let mut i: usize = 0;
        while i < n
            invariant
                i <= n,
                rgba@.len() == i,
                forall|j: int| 0 <= j < i ==> #[trigger] rgba@[j] == 0,
            decreases n - i,
        {
            rgba.push(0);
            i = i + 1;
        }
        Frame { width, height, origin: Point { x: 0, y: 0 }, rgba }
    }

    pub fn width(&self) -> (w: u32)
        ensures
            w == self@.width,
            frame_shape(self@),
    {
        proof {
            use_type_invariant(self);
        }
        self.width
    }

    pub fn height(&self) -> (h: u32)
        ensures
            h == self@.height,
            frame_shape(self@),
    {
        proof {
            use_type_invariant(self);
        }
        self.height
    }

    /// Screen position of this frame's top-left pixel.
    pub fn origin(&self) -> (p: Point)
        ensures
            p == self@.origin,
            frame_shape(self@),
    {
        proof {
            use_type_invariant(self);
        }
        self.origin
    }

    /// Raw RGBA bytes, row major, top to bottom.
    pub fn rgba(&self) -> (bytes: &[u8])
        ensures
            bytes@ == self@.rgba,
            frame_shape(self@),
    {
        proof {
            use_type_invariant(self);
        }
        self.rgba.as_slice()
    }

    /// Reads one pixel, or `None` outside the frame.
    pub fn pixel(&self, x: i32, y: i32) -> (c: Option<Rgb>)
        ensures
            c == pixel_of(self@, x as int, y as int),
            frame_shape(self@),
    {
        proof {
            use_type_invariant(self);
        }
        if x < 0 || y < 0 || x as i64 >= self.width as i64 || y as i64 >= self.height as i64 {
            return None;
        }
        proof {
            lemma_pixel_index_in_bounds(self.width as int, self.height as int, x as int, y as int);
        }
        let index: usize = (y as usize * self.width as usize + x as usize) * 4;
        Some(Rgb { r: self.rgba[index], g: self.rgba[index + 1], b: self.rgba[index + 2] })
    }

    /// Same as [`Self::pixel`] but for a point in screen coordinates.
    pub fn pixel_at_screen(&self, point: Point) -> (c: Option<Rgb>)
        ensures
            c == screen_pixel(self@, point),
    {
        let dx = point.x as i64 - self.origin.x as i64;
        let dy = point.y as i64 - self.origin.y as i64;
        if dx < i32::MIN as i64 || dx > i32::MAX as i64 || dy < i32::MIN as i64 || dy
            > i32::MAX as i64 {
            return None;
        }
        self.pixel(dx as i32, dy as i32)
    }

    /// Writes one opaque pixel; a point outside the frame is ignored.
    pub fn set_pixel(&mut self, x: i32, y: i32, color: Rgb)
        ensures
            final(self)@.width == old(self)@.width,
            final(self)@.height == old(self)@.height,
            final(self)@.origin == old(self)@.origin,
            final(self)@.rgba.len() == old(self)@.rgba.len(),
            forall|px: int, py: int|
                #![trigger pixel_of(final(self)@, px, py)]
                pixel_of(final(self)@, px, py) == if in_frame(old(self)@, x as int, y as int)
                    && px == x && py == y {
                    Some(color)
                } else {
                    pixel_of(old(self)@, px, py)
                },
    {
        proof {
            use_type_invariant(&*self);
        }
        if x < 0 || y < 0 || x as i64 >= self.width as i64 || y as i64 >= self.height as i64 {
            return ;
        }
        proof {
            lemma_pixel_index_in_bounds(self.width as int, self.height as int, x as int, y as int);
        }
        let ghost before = self@;
        let index: usize = (y as usize * self.width as usize + x as usize) * 4;
        let mut placeholder = Frame {
            width: 1,
            height: 1,
            origin: self.origin,
            rgba: vec![0u8, 0u8, 0u8, 0u8],
        };
        std::mem::swap(self, &mut placeholder);
        let Frame { width, height, origin, rgba: mut bytes } = placeholder;
        bytes.set(index, color.r);
        bytes.set(index + 1, color.g);
        bytes.set(index + 2, color.b);
        bytes.set(index + 3, 255);
        *self = Frame { width, height, origin, rgba: bytes };
        proof {
            let w = before.width as int;
            let h = before.height as int;
            assert forall|px: int, py: int|
                #![trigger pixel_of(self@, px, py)]
                pixel_of(self@, px, py) == if in_frame(before, x as int, y as int) && px == x && py
                    == y {
                    Some(color)
                } else {
                    pixel_of(before, px, py)
                } by {
                if in_frame(before, px, py) {
                    lemma_pixel_index_in_bounds(w, h, px, py);
                    if px != x || py != y {
                        lemma_distinct_pixels(w, h, x as int, y as int, px, py);
                    }
                }
            }
        }
    }
}

/// Two different pixels never share any of their four bytes.
pub proof fn lemma_distinct_pixels(w: int, h: int, x1: int, y1: int, x2: int, y2: int)
    requires
        0 <= x1 < w,
        0 <= y1 < h,
        0 <= x2 < w,
        0 <= y2 < h,
        x1 != x2 || y1 != y2,
    ensures
        (y1 * w + x1) != (y2 * w + x2),
{
    if y1 == y2 {
    } else if y1 < y2 {
        assert(y1 * w + x1 < y2 * w + x2) by (nonlinear_arith)
            requires
                y1 < y2,
                0 <= x1 < w,
                0 <= x2,
        ;
    } else {
        assert(y2 * w + x2 < y1 * w + x1) by (nonlinear_arith)
            requires
                y2 < y1,
                0 <= x2 < w,
                0 <= x1,
        ;
    }
}

/// An axis aligned rectangle in screen coordinates.
#[derive(Clone, Copy, Debug, PartialEq, Eq, Structural)]
pub struct Rect {
    pub x: i32,
    pub y: i32,
    pub w: i32,
    pub h: i32,
}

impl Rect {
    pub fn new(x: i32, y: i32, w: i32, h: i32) -> (rect: Self)
        ensures
            rect == (Rect { x, y, w, h }),
    {
        Rect { x, y, w, h }
    }

    pub fn right(&self) -> (right: i32)
        requires
            i32::MIN <= self.x + self.w <= i32::MAX,
        ensures
            right == self.x + self.w,
    {
        self.x + self.w
    }

    pub fn bottom(&self) -> (bottom: i32)
        requires
            i32::MIN <= self.y + self.h <= i32::MAX,
        ensures
            bottom == self.y + self.h,
    {
        self.y + self.h
    }
}

/// Whether the positive screen rectangle `r` lies completely inside `v`.
pub open spec fn rect_inside(v: FrameView, r: Rect) -> bool {
    let x = r.x - v.origin.x;
    let y = r.y - v.origin.y;
    &&& r.w > 0
    &&& r.h > 0
    &&& x >= 0
    &&& y >= 0
    &&& x + r.w <= v.width
    &&& y + r.h <= v.height
}

/// Pixel `p` (row-major pixel number) is dark: its RGB mean is below 6.
pub open spec fn dark_pixel(v: FrameView, p: int) -> bool {
    (v.rgba[4 * p] + v.rgba[4 * p + 1] + v.rgba[4 * p + 2]) / 3 < 6
}

/// The blank-capture test: every 37th pixel, starting with the first, is dark.
pub open spec fn sampled_dark(v: FrameView) -> bool {
    forall|k: int| 0 <= k && 37 * k < v.width * v.height ==> #[trigger] dark_pixel(v, 37 * k)
}

/// `a * s + b < n * s` whenever `a < n` and `b < s`.
pub proof fn lemma_row_offset(a: int, n: int, b: int, s: int)
    requires
        0 <= a < n,
        0 <= b < s,
    ensures
        0 <= a * s + b < n * s,
{
    assert(0 <= a * s + b < n * s) by (nonlinear_arith)
        requires
            0 <= a < n,
            0 <= b < s,
    ;
}

impl Frame {
    /// Whether a positive screen rectangle fits completely inside this frame.
    /// Widened arithmetic also rejects overflowing rectangles.
    pub fn contains_rect(&self, rect: Rect) -> (inside: bool)
        ensures
            inside == rect_inside(self@, rect),
    {
        let x = rect.x as i64 - self.origin.x as i64;
        let y = rect.y as i64 - self.origin.y as i64;
        rect.w > 0 && rect.h > 0 && x >= 0 && y >= 0 && x + rect.w as i64 <= self.width as i64 && y
            + rect.h as i64 <= self.height as i64
    }

    /// Copies just the requested screen rectangle, preserving its origin and
    /// alpha channel; `None` unless the rectangle lies inside this frame.
    pub fn crop(&self, rect: Rect) -> (cropped: Option<Self>)
        ensures
            cropped is Some <==> rect_inside(self@, rect),
            cropped matches Some(c) ==> {
                &&& c@.width == rect.w
                &&& c@.height == rect.h
                &&& c@.origin == (Point { x: rect.x, y: rect.y })
                &&& forall|r: int, k: int|
                    0 <= r < rect.h && 0 <= k < rect.w * 4 ==> #[trigger] c@.rgba[r * (rect.w * 4)
                        + k] == self@.rgba[(rect.y - self@.origin.y + r) * (self@.width * 4) + (
                    rect.x - self@.origin.x) * 4 + k]
            },
    {
        proof {
            use_type_invariant(self);
        }
        if !self.contains_rect(rect) {
            return None;
        }
        proof {
            assert(self.width * 4 <= self.width * self.height * 4) by (nonlinear_arith)
                requires
                    self.height >= 1,
            ;
        }
        let x: usize = (rect.x as i64 - self.origin.x as i64) as usize;
        let y: usize = (rect.y as i64 - self.origin.y as i64) as usize;
        let h: usize = rect.h as usize;
        let row_bytes: usize = rect.w as usize * 4;
        let stride: usize = self.width as usize * 4;
        let ghost src = self.rgba@;
        let ghost big_w = self.width as int;
        let ghost big_h = self.height as int;
        proof {
            assert(big_h * stride == src.len()) by (nonlinear_arith)
                requires
                    stride == big_w * 4,
                    src.len() == big_w * big_h * 4,
            ;
            assert(h * row_bytes <= big_h * stride) by (nonlinear_arith)
                requires
                    h <= big_h,
                    row_bytes <= stride,
                    0 <= row_bytes,
            ;
        }
        let mut rgba: Vec<u8> = Vec::new();
        let mut row: usize = 0;
        while row < h
            invariant
                row <= h,
                h == rect.h,
                row_bytes == rect.w * 4,
                stride == big_w * 4,
                x + rect.w <= big_w,
                y + rect.h <= big_h,
                src == self.rgba@,
                src.len() == big_w * big_h * 4,
                src.len() <= usize::MAX,
                big_h * stride == src.len(),
                big_h == self.height,
                big_w == self.width,
                rect.w > 0,
                rgba@.len() == row * row_bytes,
                h * row_bytes <= big_h * stride,
                forall|r: int, k: int|
                    0 <= r < row && 0 <= k < row_bytes ==> #[trigger] rgba@[r * row_bytes + k]
                        == src[(y + r) * stride + x * 4 + k],
            decreases h - row,
        {
            proof {
                lemma_row_offset(row as int, h as int, 0, row_bytes as int);
                assert(x * 4 < stride);
                assert(y + row < big_h);
                lemma_row_offset((y + row) as int, big_h, (x * 4) as int, stride as int);
                assert((y + row) * stride + x * 4 < src.len());
                assert((y + row) * stride <= usize::MAX);
            }
            let line: usize = y + row;
            let line_start: usize = line * stride;
            let start: usize = line_start + x * 4;
            let mut k: usize = 0;
            let ghost base = rgba@.len();
            while k < row_bytes
                invariant
                    k <= row_bytes,
                    row < h,
                    h == rect.h,
                    base == row * row_bytes,
                    rgba@.len() == base + k,
                    start == (y + row) * stride + x * 4,
                    x + rect.w <= big_w,
                    y + rect.h <= big_h,
                    stride == big_w * 4,
                    row_bytes == rect.w * 4,
                    src == self.rgba@,
                    src.len() == big_w * big_h * 4,
                    src.len() <= usize::MAX,
                    big_h * stride == src.len(),
                    forall|r: int, kk: int|
                        0 <= r < row && 0 <= kk < row_bytes ==> #[trigger] rgba@[r * row_bytes
                            + kk] == src[(y + r) * stride + x * 4 + kk],
                    forall|kk: int|
                        0 <= kk < k ==> #[trigger] rgba@[base + kk] == src[start + kk],
                decreases row_bytes - k,
            {
                proof {
                    assert(x * 4 + k < stride);
                    assert(y + row < big_h);
                    lemma_row_offset((y + row) as int, big_h, (x * 4 + k) as int, stride as int);
                }
                let byte = self.rgba[start + k];
                let ghost before = rgba@;
                rgba.push(byte);
                proof {
                    assert forall|r: int, kk: int|
                        0 <= r < row && 0 <= kk < row_bytes implies #[trigger] rgba@[r * row_bytes
                        + kk] == src[(y + r) * stride + x * 4 + kk] by {
                        lemma_row_offset(r, row as int, kk, row_bytes as int);
                        assert(before[r * row_bytes + kk] == src[(y + r) * stride + x * 4 + kk]);
                    }
                }
                k = k + 1;
            }
            proof {
                assert((row + 1) * row_bytes == row * row_bytes + row_bytes) by (nonlinear_arith);
                assert forall|r: int, kk: int|
                    0 <= r < row + 1 && 0 <= kk < row_bytes implies #[trigger] rgba@[r * row_bytes
                    + kk] == src[(y + r) * stride + x * 4 + kk] by {
                    if r == row {
                        assert(rgba@[base + kk] == src[start + kk]);
                    }
                }
            }
            row = row + 1;
        }
        proof {
            assert(rgba@.len() == (rect.w as u32) * (rect.h as u32) * 4) by (nonlinear_arith)
                requires
                    rgba@.len() == h * row_bytes,
                    h == rect.h,
                    row_bytes == rect.w * 4,
                    rect.w > 0,
                    rect.h > 0,
            ;
        }
        Frame::new(rect.w as u32, rect.h as u32, Point { x: rect.x, y: rect.y }, rgba)
    }

    /// True when the capture is (almost) completely black, which is what the
    /// OS returns for a minimized or protected window: every 37th pixel has an
    /// RGB mean below 6.
    pub fn is_blank(&self) -> (blank: bool)
        ensures
            blank == sampled_dark(self@),
    {
        proof {
            use_type_invariant(self);
        }
        let pixels: usize = self.width as usize * self.height as usize;
        let mut p: usize = 0;
        let ghost mut k: int = 0;
        while p < pixels
            invariant
                frame_shape(self@),
                pixels == self@.width * self@.height,
                self.rgba@.len() == pixels * 4,
                p == 37 * k,
                k >= 0,
                forall|j: int| 0 <= j < k ==> #[trigger] dark_pixel(self@, 37 * j),
            decreases pixels - p,
        {
            let index = p * 4;
            let sum = self.rgba[index] as u32 + self.rgba[index + 1] as u32 + self.rgba[index
                + 2] as u32;
            if sum / 3 >= 6 {
                assert(!dark_pixel(self@, 37 * k));
                return false;
            }
            if pixels - p <= 37 {
                assert forall|j: int| 0 <= j && 37 * j < pixels implies #[trigger] dark_pixel(
                    self@,
                    37 * j,
                ) by {
                    if j > k {
                        assert(37 * j >= 37 * (k + 1));
                    }
                }
                return true;
            }
            p = p + 37;
            proof {
                k = k + 1;
            }
        }
        true
    }
}

/// Colour layouts an image decoder may hand over.
#[derive(Clone, Copy, Debug, PartialEq, Eq, Structural)]
pub enum ColorKind {
    Grayscale,
    Rgb,
    Indexed,
    GrayscaleAlpha,
    Rgba,
}

/// Bytes per pixel of each layout.
pub open spec fn kind_samples(kind: ColorKind) -> nat {
    match kind {
        ColorKind::Grayscale => 1,
        ColorKind::Rgb => 3,
        ColorKind::Indexed => 1,
        ColorKind::GrayscaleAlpha => 2,
        ColorKind::Rgba => 4,
    }
}

/// Byte `j` of the RGBA8 expansion of a `kind` buffer: grey is copied to all
/// three channels, a missing alpha is opaque.
pub open spec fn expanded_byte(buf: Seq<u8>, kind: ColorKind, j: int) -> u8 {
    let p = j / 4;
    let c = j % 4;
    match kind {
        ColorKind::GrayscaleAlpha => if c < 3 {
            buf[2 * p]
        } else {
            buf[2 * p + 1]
        },
        ColorKind::Rgb => if c < 3 {
            buf[3 * p + c]
        } else {
            255
        },
        _ => if c < 3 {
            buf[p]
        } else {
            255
        },
    }
}

/// Debug spelling of each layout.
pub open spec fn kind_name(kind: ColorKind) -> Seq<char> {
    match kind {
        ColorKind::Grayscale => "Grayscale"@,
        ColorKind::Rgb => "Rgb"@,
        ColorKind::Indexed => "Indexed"@,
        ColorKind::GrayscaleAlpha => "GrayscaleAlpha"@,
        ColorKind::Rgba => "Rgba"@,
    }
}

impl ColorKind {
    /// Bytes per pixel.
    pub fn samples(self) -> (n: usize)
        ensures
            n == kind_samples(self),
    {
        match self {
            ColorKind::Grayscale => 1,
            ColorKind::Rgb => 3,
            ColorKind::Indexed => 1,
            ColorKind::GrayscaleAlpha => 2,
            ColorKind::Rgba => 4,
        }
    }

    /// Debug spelling, as used in error messages.
    pub fn name(self) -> (name: &'static str)
        ensures
            name@ == kind_name(self),
    {
        proof {
            reveal_strlit("Grayscale");
            reveal_strlit("Rgb");
            reveal_strlit("Indexed");
            reveal_strlit("GrayscaleAlpha");
            reveal_strlit("Rgba");
        }
        match self {
            ColorKind::Grayscale => "Grayscale",
            ColorKind::Rgb => "Rgb",
            ColorKind::Indexed => "Indexed",
            ColorKind::GrayscaleAlpha => "GrayscaleAlpha",
            ColorKind::Rgba => "Rgba",
        }
    }
}

/// Pads grey, grey+alpha and RGB pixels to RGBA8; RGBA is copied as is and an
/// indexed (palette) buffer is refused. A trailing partial pixel is dropped.
pub fn expand_to_rgba(buffer: &[u8], kind: ColorKind, line_size: usize) -> (out: Result<
    Vec<u8>,
    FrameError,
>)
    ensures
        kind == ColorKind::Indexed <==> out is Err,
        out matches Err(FrameError::Unsupported(detail)) ==> detail@ == "colour type "@ + kind_name(
            kind,
        ) + " is not supported"@,
        out matches Err(e) ==> e is Unsupported,
        kind == ColorKind::Rgba ==> (out matches Ok(bytes) && bytes@ == buffer@),
        kind != ColorKind::Rgba && kind != ColorKind::Indexed ==> (out matches Ok(bytes)
            && bytes@.len() == (buffer@.len() as int / kind_samples(kind) as int) * 4 && forall|j: int|
            0 <= j < bytes@.len() ==> #[trigger] bytes@[j] == expanded_byte(buffer@, kind, j)),
{
    let samples = kind.samples();
    if samples == 4 {
        let mut copy: Vec<u8> = Vec::new();
        let mut i: usize = 0;
        while i < buffer.len()
            invariant
                i <= buffer@.len(),
                copy@ == buffer@.take(i as int),
            decreases buffer@.len() - i,
        {
            copy.push(buffer[i]);
            proof {
                assert(copy@ =~= buffer@.take(i + 1));
            }
            i = i + 1;
        }
        proof {
            assert(copy@ =~= buffer@);
        }
        return Ok(copy);
    }
    if kind == ColorKind::Indexed {
        let mut detail = String::from_str("colour type ");
        detail.append(kind.name());
        detail.append(" is not supported");
        return Err(FrameError::Unsupported(detail));
    }
    let len = buffer.len();
    let n = len / samples;
    let mut out: Vec<u8> = Vec::new();
    let mut i: usize = 0;
    while i < n
        invariant
            i <= n,
            n == len / samples,
            len == buffer@.len(),
            samples == kind_samples(kind),
            kind != ColorKind::Rgba,
            kind != ColorKind::Indexed,
            out@.len() == 4 * i,
            forall|j: int| 0 <= j < out@.len() ==> #[trigger] out@[j] == expanded_byte(buffer@, kind, j),
        decreases n - i,
    {
        proof {
            assert(samples * i + samples <= samples * n) by (nonlinear_arith)
                requires
                    i < n,
                    samples > 0,
            ;
            assert(samples * n <= len) by (nonlinear_arith)
                requires
                    n == len / samples,
                    samples > 0,
            ;
        }
        let at = samples * i;
        let (r, g, b, a) = match kind {
            ColorKind::GrayscaleAlpha => (buffer[at], buffer[at], buffer[at], buffer[at + 1]),
            ColorKind::Rgb => (buffer[at], buffer[at + 1], buffer[at + 2], 255u8),
            _ => (buffer[at], buffer[at], buffer[at], 255u8),
        };
        let ghost before = out@;
        out.push(r);
        out.push(g);
        out.push(b);
        out.push(a);
        proof {
            assert forall|j: int| 0 <= j < out@.len() implies #[trigger] out@[j] == expanded_byte(
                buffer@,
                kind,
                j,
            ) by {
                if j < 4 * i {
                    assert(out@[j] == before[j]);
                } else {
                    assert(j / 4 == i);
                }
            }
        }
        i = i + 1;
    }
    Ok(out)
}

} // verus!
