//! Drag-to-select a screen region on the fullscreen overlay.
//!
//! The overlay window reports mouse positions relative to its own client
//! area (which covers the whole virtual screen); the committed selection is
//! in virtual-screen coordinates. A selection must be more than 8 pixels in
//! each direction to count; Escape cancels.
use vstd::prelude::*;

use crate::geometry::{bands_of, border_bands, BorderBands, Point, Rect};
use crate::hotkey::WM_APP;

verus! {

/// Sent to the application's main window when the user finishes a region
/// selection. `wparam == 1` means a region was committed; `wparam == 0`
/// means cancelled.
pub const WM_APP_REGION_DONE: u32 = WM_APP + 2;

/// Selection-rectangle border thickness in device pixels.
pub const BORDER_THICKNESS: i32 = 4;

/// Timer id for the rainbow hue animation inside the overlay window.
pub const RAINBOW_TIMER_ID: usize = 1;

/// Hue degrees advanced per timer tick (~40 ms) — one full cycle ≈ 9 s.
pub const RAINBOW_STEP: u16 = 4;

/// Alpha value for the overlay window (60 ≈ 24 % opacity).
pub const OVERLAY_ALPHA: u8 = 60;

/// A committed selection must be wider and taller than this many pixels.
pub const MIN_SELECTION: i32 = 8;

/// A 16-bit word read as a signed (two's-complement) number.
pub open spec fn signed_word(w: int) -> int {
    if w >= 0x8000 {
        w - 0x10000
    } else {
        w
    }
}

/// Whether `v` is a value a signed 16-bit word can hold.
pub open spec fn in_word_range(v: int) -> bool {
    -0x8000 <= v <= 0x7FFF
}

/// The signed x (low word) and y (high word) packed in a mouse message's
/// `LPARAM`.
pub fn lo_hi(lp: isize) -> (r: (i32, i32))
    ensures
        r.0 == signed_word(((lp as u32) % 0x10000) as int),
        r.1 == signed_word(((lp as u32) / 0x10000) as int),
        in_word_range(r.0 as int),
        in_word_range(r.1 as int),
{
    let v = lp as u32;
    let lo = (v & 0xFFFF) as i16 as i32;
    let hi = ((v >> 16) & 0xFFFF) as i16 as i32;
    assert(((v & 0xFFFFu32) as i16 as i32) == (if v % 0x10000 >= 0x8000 {
        (v % 0x10000) as int - 0x10000
    } else {
        (v % 0x10000) as int
    })) by (bit_vector);
    assert((((v >> 16u32) & 0xFFFFu32) as i16 as i32) == (if v / 0x10000 >= 0x8000 {
        (v / 0x10000) as int - 0x10000
    } else {
        (v / 0x10000) as int
    })) by (bit_vector);
    (lo, hi)
}

/// The rectangle spanned by two corners, whichever way it was dragged.
pub open spec fn spanned(a: Point, b: Point) -> Rect {
    Rect {
        left: if a.x <= b.x {
            a.x
        } else {
            b.x
        },
        top: if a.y <= b.y {
            a.y
        } else {
            b.y
        },
        right: if a.x >= b.x {
            a.x
        } else {
            b.x
        },
        bottom: if a.y >= b.y {
            a.y
        } else {
            b.y
        },
    }
}

/// The rectangle spanned by two corners does not depend on the drag
/// direction, and is normalized.
pub proof fn lemma_spanned_symmetric(a: Point, b: Point)
    ensures
        spanned(a, b) == spanned(b, a),
        spanned(a, b).is_normalized(),
{
}

/// `r` moved by `(dx, dy)`.
pub open spec fn offset(r: Rect, dx: int, dy: int) -> Rect {
    Rect {
        left: (r.left + dx) as i32,
        top: (r.top + dy) as i32,
        right: (r.right + dx) as i32,
        bottom: (r.bottom + dy) as i32,
    }
}

/// Whether a rectangle is large enough to commit as a selection.
pub open spec fn large_enough(r: Rect) -> bool {
    r.right - r.left > MIN_SELECTION && r.bottom - r.top > MIN_SELECTION
}

/// The next hue of the rainbow border.
pub open spec fn next_hue(hue: int) -> int {
    (hue + RAINBOW_STEP) % 360
}

/// Whether an offset of the virtual screen's origin keeps every overlay
/// coordinate (a signed 16-bit value) within `i32` once added.
pub open spec fn origin_in_range(v: int) -> bool {
    i32::MIN + 0x8000 <= v <= i32::MAX - 0x7FFF
}

/// Per-overlay state of a region selection.
pub struct Selection {
    dragging: bool,
    start: Point,
    current: Point,
    rect: Rect,
    hue: u16,
}

impl Selection {
    /// Points come from `lo_hi`, the stored rectangle is normalized and at
    /// most a word wide, and the hue is a degree below 360.
    #[verifier::type_invariant]
    spec fn wf(self) -> bool {
        &&& in_word_range(self.start.x as int) && in_word_range(self.start.y as int)
        &&& in_word_range(self.current.x as int) && in_word_range(self.current.y as int)
        &&& self.rect.is_normalized()
        &&& self.rect.right - self.rect.left <= 0xFFFF
        &&& self.rect.bottom - self.rect.top <= 0xFFFF
        &&& self.hue < 360
    }

    /// Whether the left button is held down on the overlay.
    pub closed spec fn is_dragging(self) -> bool {
        self.dragging
    }

    /// Where the drag started (overlay coordinates).
    pub closed spec fn start_point(self) -> Point {
        self.start
    }

    /// The latest mouse position of the drag (overlay coordinates).
    pub closed spec fn current_point(self) -> Point {
        self.current
    }

    /// The last committed rectangle (virtual-screen coordinates).
    pub closed spec fn committed(self) -> Rect {
        self.rect
    }

    /// The current border hue in degrees.
    pub closed spec fn hue_degrees(self) -> int {
        self.hue as int
    }

    /// A fresh overlay: nothing dragged yet, hue 0.
    pub fn new() -> (s: Selection)
        ensures
            !s.is_dragging(),
            s.start_point() == (Point { x: 0, y: 0 }),
            s.current_point() == (Point { x: 0, y: 0 }),
            s.committed() == (Rect { left: 0, top: 0, right: 0, bottom: 0 }),
            s.hue_degrees() == 0,
    {
        Selection {
            dragging: false,
            start: Point { x: 0, y: 0 },
            current: Point { x: 0, y: 0 },
            rect: Rect { left: 0, top: 0, right: 0, bottom: 0 },
            hue: 0,
        }
    }

    /// Whether the left button is held down on the overlay.
    pub fn dragging(&self) -> (r: bool)
        ensures
            r == self.is_dragging(),
    {
        self.dragging
    }

    /// Where the drag started (overlay coordinates).
    pub fn start(&self) -> (r: Point)
        ensures
            r == self.start_point(),
    {
        self.start
    }

    /// The latest mouse position of the drag (overlay coordinates).
    pub fn current(&self) -> (r: Point)
        ensures
            r == self.current_point(),
    {
        self.current
    }

    /// The last stored rectangle (virtual-screen coordinates).
    pub fn committed_rect(&self) -> (r: Rect)
        ensures
            r == self.committed(),
    {
        self.rect
    }

    /// The current border hue in degrees (below 360).
    pub fn hue(&self) -> (r: u16)
        ensures
            r as int == self.hue_degrees(),
            r < 360,
    {
        proof {
            use_type_invariant(self);
        }
        self.hue
    }

    /// Left button down at `(x, y)`: a drag starts there.
    pub fn press(&mut self, x: i32, y: i32)
        requires
            in_word_range(x as int),
            in_word_range(y as int),
        ensures
            final(self).is_dragging(),
            final(self).start_point() == (Point { x, y }),
            final(self).current_point() == (Point { x, y }),
            final(self).committed() == old(self).committed(),
            final(self).hue_degrees() == old(self).hue_degrees(),
    {
        proof {
            use_type_invariant(&*self);
        }
        self.dragging = true;
        self.start = Point { x, y };
        self.current = Point { x, y };
    }

    /// Mouse moved to `(x, y)`: it becomes the drag's other corner while
    /// dragging, and is ignored otherwise.
    pub fn motion(&mut self, x: i32, y: i32)
        requires
            in_word_range(x as int),
            in_word_range(y as int),
        ensures
            final(self).is_dragging() == old(self).is_dragging(),
            final(self).start_point() == old(self).start_point(),
            final(self).current_point() == (if old(self).is_dragging() {
                Point { x, y }
            } else {
                old(self).current_point()
            }),
            final(self).committed() == old(self).committed(),
            final(self).hue_degrees() == old(self).hue_degrees(),
    {
        proof {
            use_type_invariant(&*self);
        }
        if self.dragging {
            self.current = Point { x, y };
        }
    }

    /// Left button released at `(x, y)`; `(virt_x, virt_y)` is the virtual
    /// screen's origin. A drag in progress ends, its rectangle (in virtual-
    /// screen coordinates) is stored, and the stored rectangle is returned
    /// when it is more than 8 pixels in each direction.
    pub fn release(&mut self, x: i32, y: i32, virt_x: i32, virt_y: i32) -> (r: Option<Rect>)
        requires
            in_word_range(x as int),
            in_word_range(y as int),
            origin_in_range(virt_x as int),
            origin_in_range(virt_y as int),
        ensures
            !final(self).is_dragging(),
            old(self).is_dragging() ==> final(self).current_point() == (Point { x, y })
                && final(self).committed() == offset(
                spanned(old(self).start_point(), Point { x, y }),
                virt_x as int,
                virt_y as int,
            ),
            !old(self).is_dragging() ==> final(self).current_point() == old(self).current_point()
                && final(self).committed() == old(self).committed(),
            final(self).start_point() == old(self).start_point(),
            final(self).hue_degrees() == old(self).hue_degrees(),
            r == (if large_enough(final(self).committed()) {
                Some(final(self).committed())
            } else {
                None
            }),
    {
        proof {
            use_type_invariant(&*self);
        }
        if self.dragging {
            self.dragging = false;
            self.current = Point { x, y };
            let sx = self.start.x;
            let sy = self.start.y;
            let left = (if sx <= x {
                sx
            } else {
                x
            }) + virt_x;
            let top = (if sy <= y {
                sy
            } else {
                y
            }) + virt_y;
            let right = (if sx >= x {
                sx
            } else {
                x
            }) + virt_x;
            let bottom = (if sy >= y {
                sy
            } else {
                y
            }) + virt_y;
            self.rect = Rect { left, top, right, bottom };
        }
        let valid = self.rect.right - self.rect.left > MIN_SELECTION && self.rect.bottom
            - self.rect.top > MIN_SELECTION;
        if valid {
            Some(self.rect)
        } else {
            None
        }
    }

    /// One tick of the rainbow animation.
    pub fn tick(&mut self)
        ensures
            final(self).hue_degrees() == next_hue(old(self).hue_degrees()),
            final(self).is_dragging() == old(self).is_dragging(),
            final(self).start_point() == old(self).start_point(),
            final(self).current_point() == old(self).current_point(),
            final(self).committed() == old(self).committed(),
    {
        proof {
            use_type_invariant(&*self);
        }
        self.hue = (self.hue + RAINBOW_STEP) % 360;
    }

    /// What the overlay paints besides the dim background: while dragging,
    /// or once a rectangle has been stored, the selection (in overlay
    /// coordinates) and its four border bands.
    pub fn paint_shapes(&self) -> (r: Option<(Rect, BorderBands)>)
        ensures
            r == (if self.is_dragging() || self.committed().right > self.committed().left {
                Some(
                    (
                        spanned(self.start_point(), self.current_point()),
                        bands_of(
                            spanned(self.start_point(), self.current_point()),
                            BORDER_THICKNESS as int,
                        ),
                    ),
                )
            } else {
                None
            }),
    {
        proof {
            use_type_invariant(self);
        }
        if self.dragging || self.rect.right > self.rect.left {
            let a = self.start;
            let b = self.current;
            let sel = Rect {
                left: if a.x <= b.x {
                    a.x
                } else {
                    b.x
                },
                top: if a.y <= b.y {
                    a.y
                } else {
                    b.y
                },
                right: if a.x >= b.x {
                    a.x
                } else {
                    b.x
                },
                bottom: if a.y >= b.y {
                    a.y
                } else {
                    b.y
                },
            };
            Some((sel, border_bands(sel, BORDER_THICKNESS)))
        } else {
            None
        }
    }
}

/// A committed selection is a normalized rectangle more than 8 pixels in
/// each direction, spanned by the drag's two corners shifted to virtual-
/// screen coordinates — whichever way the mouse was dragged.
pub proof fn lemma_committed_selection(a: Point, b: Point, vx: int, vy: int)
    requires
        in_word_range(a.x as int) && in_word_range(a.y as int),
        in_word_range(b.x as int) && in_word_range(b.y as int),
        origin_in_range(vx),
        origin_in_range(vy),
        large_enough(offset(spanned(a, b), vx, vy)),
    ensures
        offset(spanned(a, b), vx, vy) == offset(spanned(b, a), vx, vy),
        offset(spanned(a, b), vx, vy).is_normalized(),
        offset(spanned(a, b), vx, vy).right - offset(spanned(a, b), vx, vy).left > MIN_SELECTION,
        offset(spanned(a, b), vx, vy).bottom - offset(spanned(a, b), vx, vy).top > MIN_SELECTION,
{
}

} // verus!
