//! Stargate calibration: the template geometry of the lower hull.
use vstd::prelude::*;

use crate::building_vision::supported_client;
use crate::frame::{Frame, Point, Rect};

verus! {

/// Search region: the guarded top edge through the world area above the HUD.
pub fn safe_viewport() -> (r: Rect)
    ensures
        r == (Rect { x: 24, y: 24, w: 1872, h: 746 }),
{
    Rect { x: 24, y: 24, w: 1872, h: 746 }
}
/// Hull template size in pixels.
pub const TEMPLATE_W: i32 = 64;
/// Hull template size in pixels.
pub const TEMPLATE_H: i32 = 64;
/// Where inside the template the click lands: the visible lower-hull centre.
pub fn template_click_offset() -> (p: Point)
    ensures
        p == (Point { x: 32, y: 32 }),
{
    Point { x: 32, y: 32 }
}
/// Screen rectangle of the single-unit information-panel portrait.
pub fn portrait_roi() -> (r: Rect)
    ensures
        r == (Rect { x: 608, y: 874, w: 160, h: 140 }),
{
    Rect { x: 608, y: 874, w: 160, h: 140 }
}

/// True when `frame` is the supported 1920×1080 client at `(0, 0)`.
pub fn supported_profile(frame: &Frame) -> (yes: bool)
    ensures
        yes == (frame@.width == 1920 && frame@.height == 1080 && frame@.origin == Point {
            x: 0,
            y: 0,
        }),
{
    supported_client(frame)
}

/// Template rectangle for a detection whose lower-hull centre is `center`.
pub fn template_rect(center: Point) -> (r: Rect)
    requires
        i32::MIN + 32 <= center.x,
        i32::MIN + 32 <= center.y,
    ensures
        r == (Rect { x: (center.x - 32) as i32, y: (center.y - 32) as i32, w: 64, h: 64 }),
{
    Rect::new(
        center.x - 32,
        center.y - 32,
        TEMPLATE_W,
        TEMPLATE_H,
    )
}

} // verus!
