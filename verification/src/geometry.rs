//! Screen rectangles and points in virtual-screen pixel coordinates, with
//! the arithmetic the windows share: sizes clamped to one pixel, bounding
//! unions, centres and border bands.
use vstd::prelude::*;

verus! {

/// A point on the virtual screen (Win32 `POINT`).
#[derive(Clone, Copy, Debug, PartialEq, Eq, Structural)]
pub struct Point {
    pub x: i32,
    pub y: i32,
}

/// A rectangle on the virtual screen (Win32 `RECT`): `left`/`top` inclusive,
/// `right`/`bottom` exclusive.
#[derive(Clone, Copy, Debug, PartialEq, Eq, Structural)]
pub struct Rect {
    pub left: i32,
    pub top: i32,
    pub right: i32,
    pub bottom: i32,
}

/// Truncating division by two, as Rust's `/` computes it on signed integers.
pub open spec fn half_toward_zero(x: int) -> int {
    if x >= 0 {
        x / 2
    } else {
        -((-x) / 2)
    }
}

/// `x` if it is at least one, else one.
pub open spec fn at_least_one(x: int) -> int {
    if x >= 1 {
        x
    } else {
        1
    }
}

impl Rect {
    /// The all-zero rectangle (`RECT::default()`).
    pub fn zero() -> (r: Rect)
        ensures
            r == (Rect { left: 0, top: 0, right: 0, bottom: 0 }),
    {
        Rect { left: 0, top: 0, right: 0, bottom: 0 }
    }

    /// `right - left` fits in an `i32`.
    pub open spec fn width_fits(self) -> bool {
        i32::MIN <= self.right - self.left <= i32::MAX
    }

    /// `bottom - top` fits in an `i32`.
    pub open spec fn height_fits(self) -> bool {
        i32::MIN <= self.bottom - self.top <= i32::MAX
    }

    /// `left <= right` and `top <= bottom`.
    pub open spec fn is_normalized(self) -> bool {
        self.left <= self.right && self.top <= self.bottom
    }

    /// Whether `inner` lies inside `self` (edges may touch).
    pub open spec fn encloses(self, inner: Rect) -> bool {
        self.left <= inner.left && inner.right <= self.right && self.top <= inner.top
            && inner.bottom <= self.bottom
    }

    /// `right - left`.
    pub fn width(&self) -> (r: i32)
        requires
            self.width_fits(),
        ensures
            r == self.right - self.left,
    {
        self.right - self.left
    }

    /// `bottom - top`.
    pub fn height(&self) -> (r: i32)
        requires
            self.height_fits(),
        ensures
            r == self.bottom - self.top,
    {
        self.bottom - self.top
    }

    /// `(right - left).max(1)`: the width a window must be created with.
    pub fn width_or_one(&self) -> (r: i32)
        requires
            self.width_fits(),
        ensures
            r == at_least_one(self.right - self.left),
            r >= 1,
    {
        let w = self.right - self.left;
        if w >= 1 {
            w
        } else {
            1
        }
    }

    /// `(bottom - top).max(1)`: the height a window must be created with.
    pub fn height_or_one(&self) -> (r: i32)
        requires
            self.height_fits(),
        ensures
            r == at_least_one(self.bottom - self.top),
            r >= 1,
    {
        let h = self.bottom - self.top;
        if h >= 1 {
            h
        } else {
            1
        }
    }

    /// The same-sized rectangle with its top-left corner at `(left, top)`.
    pub fn moved_to(&self, left: i32, top: i32) -> (r: Rect)
        requires
            self.width_fits(),
            self.height_fits(),
            i32::MIN <= left + (self.right - self.left) <= i32::MAX,
            i32::MIN <= top + (self.bottom - self.top) <= i32::MAX,
        ensures
            r.left == left,
            r.top == top,
            r.right - r.left == self.right - self.left,
            r.bottom - r.top == self.bottom - self.top,
    {
        let w = self.right - self.left;
        let h = self.bottom - self.top;
        Rect { left, top, right: left + w, bottom: top + h }
    }

    /// The centre point, `((left + right) / 2, (top + bottom) / 2)`.
    pub fn center(&self) -> (r: Point)
        requires
            i32::MIN <= self.left + self.right <= i32::MAX,
            i32::MIN <= self.top + self.bottom <= i32::MAX,
        ensures
            r.x == half_toward_zero(self.left + self.right),
            r.y == half_toward_zero(self.top + self.bottom),
    {
        Point { x: (self.left + self.right) / 2, y: (self.top + self.bottom) / 2 }
    }
}

/// The smallest rectangle covering the corners of `a` and `b`.
pub open spec fn bounding_union(a: Rect, b: Rect) -> Rect {
    Rect {
        left: if a.left <= b.left {
            a.left
        } else {
            b.left
        },
        top: if a.top <= b.top {
            a.top
        } else {
            b.top
        },
        right: if a.right >= b.right {
            a.right
        } else {
            b.right
        },
        bottom: if a.bottom >= b.bottom {
            a.bottom
        } else {
            b.bottom
        },
    }
}

/// The screen area to repaint after a window moves from `a` to `b`: the
/// bounding union of both, or nothing when that union is empty.
pub fn repaint_area(a: Rect, b: Rect) -> (r: Option<Rect>)
    ensures
        r == (if bounding_union(a, b).right <= bounding_union(a, b).left || bounding_union(
            a,
            b,
        ).bottom <= bounding_union(a, b).top {
            None
        } else {
            Some(bounding_union(a, b))
        }),
{
    let u = Rect {
        left: if a.left <= b.left {
            a.left
        } else {
            b.left
        },
        top: if a.top <= b.top {
            a.top
        } else {
            b.top
        },
        right: if a.right >= b.right {
            a.right
        } else {
            b.right
        },
        bottom: if a.bottom >= b.bottom {
            a.bottom
        } else {
            b.bottom
        },
    };
    if u.right <= u.left || u.bottom <= u.top {
        None
    } else {
        Some(u)
    }
}

/// The repainted area covers both the old and the new window position, does
/// not depend on which is which, and for a window that stays put it is the
/// window itself.
pub proof fn lemma_bounding_union(a: Rect, b: Rect)
    ensures
        a.is_normalized() && b.is_normalized() ==> bounding_union(a, b).encloses(a)
            && bounding_union(a, b).encloses(b),
        bounding_union(a, b) == bounding_union(b, a),
        bounding_union(a, a) == a,
{
}

/// Four bands of thickness `b` along the inside edges of a rectangle.
#[derive(Clone, Copy, Debug, PartialEq, Eq, Structural)]
pub struct BorderBands {
    pub top: Rect,
    pub bottom: Rect,
    pub left: Rect,
    pub right: Rect,
}

/// The bands `border_bands` computes: each is cut at the opposite edge, so
/// a rectangle thinner than the border is simply filled.
pub open spec fn bands_of(r: Rect, b: int) -> BorderBands {
    BorderBands {
        top: Rect {
            left: r.left,
            top: r.top,
            right: r.right,
            bottom: if r.top + b <= r.bottom {
                (r.top + b) as i32
            } else {
                r.bottom
            },
        },
        bottom: Rect {
            left: r.left,
            top: if r.bottom - b >= r.top {
                (r.bottom - b) as i32
            } else {
                r.top
            },
            right: r.right,
            bottom: r.bottom,
        },
        left: Rect {
            left: r.left,
            top: r.top,
            right: if r.left + b <= r.right {
                (r.left + b) as i32
            } else {
                r.right
            },
            bottom: r.bottom,
        },
        right: Rect {
            left: if r.right - b >= r.left {
                (r.right - b) as i32
            } else {
                r.left
            },
            top: r.top,
            right: r.right,
            bottom: r.bottom,
        },
    }
}

/// The four border bands of thickness `b` inside `r`.
pub fn border_bands(r: Rect, b: i32) -> (bands: BorderBands)
    requires
        b >= 0,
        r.top + b <= i32::MAX,
        r.left + b <= i32::MAX,
        r.bottom - b >= i32::MIN,
        r.right - b >= i32::MIN,
    ensures
        bands == bands_of(r, b as int),
        r.is_normalized() ==> r.encloses(bands.top) && r.encloses(bands.bottom) && r.encloses(
            bands.left,
        ) && r.encloses(bands.right),
{
    let t = r.top + b;
    let bo = r.bottom - b;
    let l = r.left + b;
    let ri = r.right - b;
    BorderBands {
        top: Rect {
            left: r.left,
            top: r.top,
            right: r.right,
            bottom: if t <= r.bottom {
                t
            } else {
                r.bottom
            },
        },
        bottom: Rect {
            left: r.left,
            top: if bo >= r.top {
                bo
            } else {
                r.top
            },
            right: r.right,
            bottom: r.bottom,
        },
        left: Rect {
            left: r.left,
            top: r.top,
            right: if l <= r.right {
                l
            } else {
                r.right
            },
            bottom: r.bottom,
        },
        right: Rect {
            left: if ri >= r.left {
                ri
            } else {
                r.left
            },
            top: r.top,
            right: r.right,
            bottom: r.bottom,
        },
    }
}

} // verus!
