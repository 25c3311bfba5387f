//! Spire calibration: where a crown may be clicked, and its template geometry.
use vstd::prelude::*;

use crate::building_vision::{point_in_viewport as playable_center, supported_client};
use crate::frame::{Frame, Point, Rect};
use crate::play_area::playable;

verus! {

/// Conservative search region: keeps the top resource bar and the bottom HUD
/// out of the search.
pub fn safe_viewport() -> (r: Rect)
    ensures
        r == (Rect { x: 24, y: 24, w: 1872, h: 746 }),
{
    Rect { x: 24, y: 24, w: 1872, h: 746 }
}
/// Crown template size in pixels.
pub const TEMPLATE_W: i32 = 96;
/// Crown template size in pixels.
pub const TEMPLATE_H: i32 = 96;
/// Where inside the template the click lands: the crown centre.
pub fn template_click_offset() -> (p: Point)
    ensures
        p == (Point { x: 48, y: 48 }),
{
    Point { x: 48, y: 48 }
}
/// Screen rectangle of the single-unit information-panel portrait.
pub fn portrait_roi() -> (r: Rect)
    ensures
        r == (Rect { x: 636, y: 874, w: 104, h: 140 }),
{
    Rect { x: 636, y: 874, w: 104, h: 140 }
}

/// True when `frame` is the supported 1920×1080 client at `(0, 0)`.
pub fn supported_profile(frame: &Frame) -> (yes: bool)
    ensures
        yes == (frame@.width == 1920 && frame@.height == 1080 && frame@.origin == Point {
            x: 0,
            y: 0,
        }),
{
    supported_client(frame)
}

/// Template rectangle for a detection whose crown centre is `center`.
pub fn template_rect(center: Point) -> (r: Rect)
    requires
        i32::MIN + 48 <= center.x,
        i32::MIN + 48 <= center.y,
    ensures
        r == (Rect { x: (center.x - 48) as i32, y: (center.y - 48) as i32, w: 96, h: 96 }),
{
    Rect::new(
        center.x - 48,
        center.y - 48,
        TEMPLATE_W,
        TEMPLATE_H,
    )
}

/// A crown centre may be clicked: it lies in the calibrated play area.
pub fn point_in_viewport(point: Point) -> (yes: bool)
    ensures
        yes == playable(point),
{
    playable_center(point)
}

} // verus!
