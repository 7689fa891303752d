//! Startup placement of the main window: the top-right corner of the
//! monitor's work area, inset by fixed margins, in physical pixels.

use vstd::prelude::*;

verus! {

/// Usable rectangle of a monitor (the screen minus taskbars and docks),
/// as the host framework reports it: a signed origin and an unsigned size.
#[derive(Clone, Copy, Debug, PartialEq, Eq, Structural)]
pub struct WorkArea {
    pub x: i32,
    pub y: i32,
    pub width: u32,
    pub height: u32,
}

/// Outer pixel size of the window, borders included.
#[derive(Clone, Copy, Debug, PartialEq, Eq, Structural)]
pub struct OuterSize {
    pub width: u32,
    pub height: u32,
}

/// A physical position on the desktop. Wide enough to hold any sum of an
/// `i32` origin and `u32` extents, so the placement arithmetic is exact.
#[derive(Clone, Copy, Debug, PartialEq, Eq, Structural)]
pub struct Position {
    pub x: i64,
    pub y: i64,
}

/// Gap kept between the window's right edge and the work area's right edge.
pub const RIGHT_MARGIN: i64 = 30;

/// Gap kept between the window's top edge and the work area's top edge.
pub const TOP_MARGIN: i64 = 20;

/// Horizontal placement: flush against the right edge of the work area,
/// minus the margin.
pub open spec fn top_right_x(work: WorkArea, size: OuterSize) -> int {
    work.x + work.width - size.width - RIGHT_MARGIN
}

/// Vertical placement: the top of the work area, plus the margin.
pub open spec fn top_right_y(work: WorkArea) -> int {
    work.y + TOP_MARGIN
}

/// Computes the startup position of the window: its right edge
/// `RIGHT_MARGIN` pixels left of the work area's right edge, its top edge
/// `TOP_MARGIN` pixels below the work area's top edge.
pub fn top_right_position(work: &WorkArea, size: &OuterSize) -> (pos: Position)
    ensures
        pos.x == top_right_x(*work, *size),
        pos.y == top_right_y(*work),
{
    let x: i64 = work.x as i64 + work.width as i64 - size.width as i64 - RIGHT_MARGIN;
    let y: i64 = work.y as i64 + TOP_MARGIN;
    Position { x, y }
}

} // verus!
