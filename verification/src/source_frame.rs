//! Persistent on-screen indicator of the current capture source rectangle.
//!
//! After the user selects a region, the captured screen rectangle is also
//! drawn as a thin red outline directly on the desktop at its native
//! virtual-screen coordinates. The frame is click-through in the middle
//! (the inner area answers `HTTRANSPARENT`), draggable by its border (which
//! answers `HTCLIENT`), and the drag math is absolute: each move computes
//! `start_source_top_left + (mouse_now - start_mouse)`, so the host can
//! clamp or move the frame mid-drag without the delta drifting.
use vstd::prelude::*;

use crate::geometry::{at_least_one, Point, Rect};
use crate::hotkey::WM_APP;

verus! {

/// Posted to the host (main) window when the user drags the frame:
/// `WPARAM` = new source `left`, `LPARAM` = new source `top`.
pub const WM_APP_SOURCE_MOVE_TO: u32 = WM_APP + 7;

/// The new source top-left corner carried by a `WM_APP_SOURCE_MOVE_TO`
/// message (each coordinate sign-extended into its parameter).
pub fn move_to_target(wparam: usize, lparam: isize) -> (r: Point)
    ensures
        r.x == wparam as i32,
        r.y == lparam as i32,
{
    Point { x: wparam as i32, y: lparam as i32 }
}

/// The `WPARAM`/`LPARAM` pair that carries a new source top-left corner.
pub fn move_to_params(p: Point) -> (r: (usize, isize))
    ensures
        r.0 == p.x as usize,
        r.1 == p.y as isize,
        move_to_target_spec(r.0, r.1) == p,
{
    let x = p.x;
    let y = p.y;
    let w = x as usize;
    let l = y as isize;
    assert((x as usize) as i32 == x) by (bit_vector);
    assert((y as isize) as i32 == y) by (bit_vector);
    (w, l)
}

/// The point `move_to_target` decodes.
pub open spec fn move_to_target_spec(wparam: usize, lparam: isize) -> Point {
    Point { x: wparam as i32, y: lparam as i32 }
}

/// Visible border thickness in pixels, drawn on the inside edge.
pub const BORDER_PX: i32 = 3;

/// Distance from any edge (in pixels) within which the frame is draggable.
pub const HIT_BORDER_PX: i32 = 6;

/// `MK_LBUTTON` from winuser.h — set in `wparam` while the left button is down.
pub const MK_LBUTTON: u32 = 1;

/// Magenta colour key: pixels painted with it are transparent.
pub const KEY_COLOR: u32 = 0x00FF00FF;

/// Red (`COLORREF` is 0x00BBGGRR) for the border.
pub const BORDER_COLOR: u32 = 0x000000FF;

/// The window bounds `(x, y, width, height)` that make the frame cover
/// `rect` exactly; an empty side becomes one pixel.
pub fn frame_bounds(rect: Rect) -> (r: (i32, i32, i32, i32))
    requires
        rect.width_fits(),
        rect.height_fits(),
    ensures
        r == (
            rect.left,
            rect.top,
            at_least_one(rect.right - rect.left) as i32,
            at_least_one(rect.bottom - rect.top) as i32,
        ),
{
    (rect.left, rect.top, rect.width_or_one(), rect.height_or_one())
}

/// The on-desktop frame covers the selected rectangle pixel for pixel
/// whenever the rectangle is not empty.
pub proof fn lemma_frame_matches_selection(rect: Rect)
    requires
        rect.width_fits(),
        rect.height_fits(),
        rect.right > rect.left,
        rect.bottom > rect.top,
    ensures
        rect.left + at_least_one(rect.right - rect.left) == rect.right,
        rect.top + at_least_one(rect.bottom - rect.top) == rect.bottom,
{
}

/// How the frame answers `WM_NCHITTEST`.
#[derive(Clone, Copy, Debug, PartialEq, Eq, Structural)]
pub enum FrameHit {
    /// Inside the border: clicks fall through to the window below.
    Transparent,
    /// On the border: the frame takes the click (and can be dragged).
    Client,
}

/// Whether the window-relative point `(cx, cy)` of a `w × h` frame lies in
/// its click-through middle: more than `HIT_BORDER_PX` from every edge, on
/// a frame large enough to have a middle.
pub open spec fn in_middle(cx: int, cy: int, w: int, h: int) -> bool {
    let b = HIT_BORDER_PX as int;
    w > 2 * b && h > 2 * b && b <= cx < w - b && b <= cy < h - b
}

/// The hit-test answer for screen point `(mx, my)` over a frame whose window
/// rectangle is `wr`.
pub fn hit_test(mx: i32, my: i32, wr: Rect) -> (r: FrameHit)
    requires
        i32::MIN <= mx - wr.left <= i32::MAX,
        i32::MIN <= my - wr.top <= i32::MAX,
        wr.width_fits(),
        wr.height_fits(),
    ensures
        r == (if in_middle(
            mx - wr.left,
            my - wr.top,
            wr.right - wr.left,
            wr.bottom - wr.top,
        ) {
            FrameHit::Transparent
        } else {
            FrameHit::Client
        }),
{
    let cx = mx - wr.left;
    let cy = my - wr.top;
    let w = wr.right - wr.left;
    let h = wr.bottom - wr.top;
    let b = HIT_BORDER_PX;
    if w > 2 * b && h > 2 * b && cx >= b && cx < w - b && cy >= b && cy < h - b {
        FrameHit::Transparent
    } else {
        FrameHit::Client
    }
}

/// Every point of the frame within `HIT_BORDER_PX` of any of its four
/// edges takes the click (it is not in the click-through middle), and every
/// point at least that far from all four edges of a frame wide and tall
/// enough to have a middle lets the click through.
pub proof fn lemma_border_takes_clicks(mx: int, my: int, wr: Rect)
    ensures
        wr.left <= mx < wr.right && wr.top <= my < wr.bottom && (mx < wr.left + HIT_BORDER_PX
            || mx >= wr.right - HIT_BORDER_PX || my < wr.top + HIT_BORDER_PX || my
            >= wr.bottom - HIT_BORDER_PX) ==> !in_middle(
            mx - wr.left,
            my - wr.top,
            wr.right - wr.left,
            wr.bottom - wr.top,
        ),
        wr.left + HIT_BORDER_PX <= mx < wr.right - HIT_BORDER_PX && wr.top + HIT_BORDER_PX <= my
            < wr.bottom - HIT_BORDER_PX ==> in_middle(
            mx - wr.left,
            my - wr.top,
            wr.right - wr.left,
            wr.bottom - wr.top,
        ),
{
}

/// The hit-test answer does not change when the frame is mirrored: the
/// point reflected left-to-right, or top-to-bottom, inside the frame gets
/// the same answer.
pub proof fn lemma_hit_test_mirror(cx: int, cy: int, w: int, h: int)
    ensures
        in_middle(cx, cy, w, h) == in_middle(w - 1 - cx, cy, w, h),
        in_middle(cx, cy, w, h) == in_middle(cx, h - 1 - cy, w, h),
{
}

/// Where a border drag started.
#[derive(Clone, Copy, Debug, PartialEq, Eq, Structural)]
pub struct DragStart {
    /// The mouse position (screen coordinates) at the press.
    pub mouse: Point,
    /// The frame's top-left corner at the press.
    pub top_left: Point,
}

/// The frame's new top-left corner for the mouse at `now`.
pub open spec fn drag_target(d: DragStart, now: Point) -> Point {
    Point {
        x: (d.top_left.x + (now.x - d.mouse.x)) as i32,
        y: (d.top_left.y + (now.y - d.mouse.y)) as i32,
    }
}

/// Whether the drag arithmetic for the mouse at `now` stays within `i32`.
pub open spec fn drag_in_range(d: DragStart, now: Point) -> bool {
    &&& i32::MIN <= now.x - d.mouse.x <= i32::MAX
    &&& i32::MIN <= now.y - d.mouse.y <= i32::MAX
    &&& i32::MIN <= d.top_left.x + (now.x - d.mouse.x) <= i32::MAX
    &&& i32::MIN <= d.top_left.y + (now.y - d.mouse.y) <= i32::MAX
}

/// The border-drag state of the frame.
#[derive(Clone, Copy, Debug, PartialEq, Eq, Structural)]
pub struct FrameDrag {
    pub active: Option<DragStart>,
}

impl FrameDrag {
    /// No drag in progress.
    pub fn new() -> (r: FrameDrag)
        ensures
            r.active is None,
    {
        FrameDrag { active: None }
    }

    /// Left button down on the border: remember the mouse and the frame.
    pub fn press(&mut self, mouse: Point, top_left: Point)
        ensures
            final(self).active == Some(DragStart { mouse, top_left }),
    {
        self.active = Some(DragStart { mouse, top_left });
    }

    /// Left button up: the drag ends.
    pub fn release(&mut self)
        ensures
            final(self).active is None,
    {
        self.active = None;
    }

    /// Mouse moved to `now` with button state `buttons` (`WPARAM`);
    /// `captured` says whether the frame holds the mouse capture. Returns the
    /// source's new top-left corner when a drag with the left button is in
    /// progress.
    pub fn motion(&self, buttons: usize, captured: bool, now: Point) -> (r: Option<Point>)
        requires
            self.active matches Some(d) ==> drag_in_range(d, now),
        ensures
            r == (if (buttons as u32) & MK_LBUTTON == 0 || !captured {
                None
            } else {
                match self.active {
                    Some(d) => Some(drag_target(d, now)),
                    None => None,
                }
            }),
    {
        if (buttons as u32) & MK_LBUTTON == 0 || !captured {
            return None;
        }
        match self.active {
            Some(d) => {
                let dx = now.x - d.mouse.x;
                let dy = now.y - d.mouse.y;
                Some(Point { x: d.top_left.x + dx, y: d.top_left.y + dy })
            },
            None => None,
        }
    }
}

/// The drag is absolute: the frame follows the mouse by exactly the
/// distance the mouse travelled since the press, and returning the mouse to
/// where it was pressed puts the frame back where it was.
pub proof fn lemma_drag_follows_mouse(d: DragStart, now: Point)
    requires
        drag_in_range(d, now),
    ensures
        drag_target(d, now).x - d.top_left.x == now.x - d.mouse.x,
        drag_target(d, now).y - d.top_left.y == now.y - d.mouse.y,
        drag_target(d, d.mouse) == d.top_left,
{
}

} // verus!
