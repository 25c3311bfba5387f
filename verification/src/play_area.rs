//! Calibrated StarCraft: Remastered 1920x1080 playfield geometry: a
//! conservative piecewise Zerg HUD contour, the top-right resource bar and a
//! screen-edge scroll guard.
use vstd::prelude::*;

use crate::frame::Point;

verus! {

/// Client width of the supported Remastered profile.
pub const CLIENT_WIDTH: i32 = 1920;
/// Client height of the supported Remastered profile.
pub const CLIENT_HEIGHT: i32 = 1080;
/// Screen-edge guard margin (in pixels) that keeps clicks from scrolling the
/// camera.
pub const EDGE_GUARD: i32 = 24;

/// The conservative maximum playable `y` (exclusive) for a given `x`: the
/// minimap horn, the minimap console, a ramp down to the central console, the
/// central corridor, a ramp up to the command card, the command card and the
/// far-right corner.
pub open spec fn skyline(x: int) -> int {
    if x < 120 {
        640
    } else if x < 540 {
        670
    } else if x < 660 {
        670 + (x - 540) * 100 / 120
    } else if x < 1260 {
        770
    } else if x < 1340 {
        770 - (x - 1260) * 60 / 80
    } else if x < 1840 {
        710
    } else {
        700
    }
}

/// A safe, playable cursor clickpoint: inside the horizontal edge guards,
/// below the top guard, clear of the top-right resource bar and strictly
/// above the HUD skyline.
pub open spec fn playable(p: Point) -> bool {
    &&& EDGE_GUARD <= p.x < CLIENT_WIDTH - EDGE_GUARD
    &&& p.y >= EDGE_GUARD
    &&& !(p.x >= 1440 && p.y < 48)
    &&& p.y < skyline(p.x as int)
}

/// Returns the conservative maximum playable `y` (exclusive) for `x`.
pub fn hud_skyline_y(x: i32) -> (y: i32)
    ensures
        y == skyline(x as int),
{
    if x < 120 {
        640
    } else if x < 540 {
        670
    } else if x < 660 {
        670 + (x - 540) * 100 / 120
    } else if x < 1260 {
        770
    } else if x < 1340 {
        770 - (x - 1260) * 60 / 80
    } else if x < 1840 {
        710
    } else {
        700
    }
}

/// Returns true if `point` is a safe, playable cursor clickpoint.
pub fn is_playable_point(point: Point) -> (yes: bool)
    ensures
        yes == playable(point),
{
    if point.x < EDGE_GUARD || point.x >= CLIENT_WIDTH - EDGE_GUARD {
        return false;
    }
    if point.y < EDGE_GUARD {
        return false;
    }
    if point.x >= 1440 && point.y < 48 {
        return false;
    }
    point.y < hud_skyline_y(point.x)
}

} // verus!
