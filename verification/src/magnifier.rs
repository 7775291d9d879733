//! Magnifier: the choice between the classic `WC_MAGNIFIER` control and the
//! GPU path (screen capture + Lanczos upscale), and the integer parts of the
//! mapping from the source rectangle to what is shown.
use vstd::prelude::*;

use crate::geometry::{at_least_one, Rect};
use crate::hotkey::WM_APP;
use crate::region::signed_word;
use crate::text::{chars_of, range_equals, trim, trim_range};

verus! {

/// Posted to the host (main) window so it can toggle borderless fullscreen.
pub const WM_APP_TOGGLE_FULLSCREEN: u32 = WM_APP + 4;

/// Mouse wheel zoom: `WPARAM` unused; `LPARAM` = signed wheel delta (same
/// units as `WM_MOUSEWHEEL`, typically ±120 per notch).
pub const WM_APP_WHEEL_ZOOM: u32 = WM_APP + 6;

/// Parameters shared with the GPU path: the source rectangle and the size
/// of the child window it is shown in.
#[derive(Clone, Copy, Debug, PartialEq, Eq, Structural)]
pub struct RendererParams {
    pub src: Rect,
    pub child_w: i32,
    pub child_h: i32,
}

/// Which magnifier pipeline is active.
#[derive(Clone, Copy, Debug, PartialEq, Eq, Structural)]
pub enum RendererKind {
    Classic,
    Gpu,
}

/// ASCII upper-case letters become lower-case; other characters stay.
pub open spec fn ascii_lower(c: char) -> char {
    if 65 <= c as u32 <= 90 {
        ((c as u32) + 32) as char
    } else {
        c
    }
}

/// `to_ascii_lowercase` on a character sequence.
pub open spec fn ascii_lowercase(s: Seq<char>) -> Seq<char> {
    s.map_values(|c: char| ascii_lower(c))
}

/// The renderer a setting names: surrounding whitespace is ignored and
/// ASCII letters may be in any case.
pub open spec fn renderer_named(s: Seq<char>) -> Option<RendererKind> {
    let t = ascii_lowercase(trim(s));
    if t == "classic"@ || t == "wc"@ || t == "magnification"@ {
        Some(RendererKind::Classic)
    } else if t == "gpu"@ || t == "wgc"@ || t == "lanczos"@ {
        Some(RendererKind::Gpu)
    } else {
        None
    }
}

/// The canonical name of a renderer.
pub open spec fn renderer_name(k: RendererKind) -> Seq<char> {
    match k {
        RendererKind::Classic => "classic"@,
        RendererKind::Gpu => "gpu"@,
    }
}

fn lower_char(c: char) -> (r: char)
    ensures
        r == ascii_lower(c),
{
    let u = c as u32;
    if 65 <= u && u <= 90 {
        let b: u8 = (u + 32) as u8;
        b as char
    } else {
        c
    }
}

impl RendererKind {
    /// Parse a renderer name (`classic`, `wc`, `magnification`, `gpu`, `wgc`
    /// or `lanczos`, in any ASCII case, surrounding whitespace ignored).
    pub fn from_str(s: &str) -> (r: Option<RendererKind>)
        ensures
            r == renderer_named(s@),
    {
        let v = chars_of(s);
        let (a, b) = trim_range(&v, 0, v.len());
        let mut lower: Vec<char> = Vec::new();
        let mut i = a;
        while i < b
            invariant
                a <= i <= b <= v.len(),
                lower@ == ascii_lowercase(v@.subrange(a as int, i as int)),
            decreases b - i,
        {
            lower.push(lower_char(v[i]));
            assert(lower@ =~= ascii_lowercase(v@.subrange(a as int, i + 1)));
            i = i + 1;
        }
        assert(v@.subrange(0, v.len() as int) =~= s@);
        let ghost t = lower@;
        assert(t == ascii_lowercase(trim(s@)));
        let n = lower.len();
        assert(lower@.subrange(0, n as int) =~= t);
        if range_equals(&lower, 0, n, &chars_of("classic")) || range_equals(
            &lower,
            0,
            n,
            &chars_of("wc"),
        ) || range_equals(&lower, 0, n, &chars_of("magnification")) {
            Some(RendererKind::Classic)
        } else if range_equals(&lower, 0, n, &chars_of("gpu")) || range_equals(
            &lower,
            0,
            n,
            &chars_of("wgc"),
        ) || range_equals(&lower, 0, n, &chars_of("lanczos")) {
            Some(RendererKind::Gpu)
        } else {
            None
        }
    }

    /// The canonical name, as stored in the configuration.
    pub fn as_str(self) -> (r: &'static str)
        ensures
            r@ == renderer_name(self),
    {
        match self {
            RendererKind::Classic => "classic",
            RendererKind::Gpu => "gpu",
        }
    }
}

/// Every renderer's canonical name parses back to that renderer.
pub proof fn lemma_renderer_name_round_trip(k: RendererKind)
    ensures
        renderer_named(renderer_name(k)) == Some(k),
{
    reveal_strlit("classic");
    reveal_strlit("wc");
    reveal_strlit("magnification");
    reveal_strlit("gpu");
    reveal_strlit("wgc");
    reveal_strlit("lanczos");
    let n = renderer_name(k);
    assert(trim(n) == n);
    assert(ascii_lowercase(n) =~= n);
}

/// The signed wheel delta carried in the high word of a `WM_MOUSEWHEEL`
/// `WPARAM`, when it is not zero (a zero delta is not forwarded).
pub fn wheel_delta(wparam: usize) -> (r: Option<i32>)
    ensures
        r == (if signed_word(((wparam as u32) / 0x10000) as int) == 0 {
            None
        } else {
            Some(signed_word(((wparam as u32) / 0x10000) as int) as i32)
        }),
{
    let w = wparam as u32;
    let delta = ((w >> 16) as i16) as i32;
    assert(((w >> 16u32) as i16 as i32) == (if w / 0x10000 >= 0x8000 {
        (w / 0x10000) as int - 0x10000
    } else {
        (w / 0x10000) as int
    })) by (bit_vector);
    if delta != 0 {
        Some(delta)
    } else {
        None
    }
}

/// Whether a source rectangle is large enough to capture (more than one
/// pixel in each direction).
pub open spec fn capturable(src: Rect) -> bool {
    src.right - src.left > 1 && src.bottom - src.top > 1
}

/// Whether `src` is large enough to capture.
pub fn capture_source_valid(src: Rect) -> (r: bool)
    requires
        src.width_fits(),
        src.height_fits(),
    ensures
        r == capturable(src),
{
    src.right - src.left > 1 && src.bottom - src.top > 1
}

/// Whether the GPU capture must be rebuilt for a new source: the source is
/// capturable and there is no capture yet, or the capture is of another
/// monitor than the one under the source's centre.
pub fn capture_needs_rebuild(src: Rect, captured_monitor: Option<isize>, target_monitor: isize) -> (r: bool)
    requires
        src.width_fits(),
        src.height_fits(),
    ensures
        r == (capturable(src) && match captured_monitor {
            Some(m) => m != target_monitor,
            None => true,
        }),
{
    if !capture_source_valid(src) {
        return false;
    }
    match captured_monitor {
        Some(m) => m != target_monitor,
        None => true,
    }
}

/// Whether the cached copy of the last captured frame must be reallocated
/// for a frame of `size`: there is none, or it has another size.
pub fn cache_needs_realloc(cached: Option<(i32, i32)>, size: (i32, i32)) -> (r: bool)
    ensures
        r == match cached {
            Some(c) => c != size,
            None => true,
        },
{
    match cached {
        Some(c) => !(c.0 == size.0 && c.1 == size.1),
        None => true,
    }
}

/// The part of a source rectangle that lies on the captured monitor.
#[derive(Clone, Copy, Debug, PartialEq, Eq, Structural)]
pub struct MonitorClip {
    /// The source clipped to the monitor (may be empty).
    pub clipped: Rect,
    /// Width and height of the clipped source, or of the monitor when the
    /// source misses it; at least one.
    pub extent_w: i32,
    pub extent_h: i32,
    /// The monitor's width and height, at least one.
    pub mon_w: i32,
    pub mon_h: i32,
    /// The clipped rectangle relative to the monitor's top-left corner.
    pub rel: Rect,
}

/// `a.max(b)` and `a.min(b)` on integers.
pub open spec fn max_int(a: int, b: int) -> int {
    if a >= b {
        a
    } else {
        b
    }
}

pub open spec fn min_int(a: int, b: int) -> int {
    if a <= b {
        a
    } else {
        b
    }
}

/// The clip of `src` against monitor `mon`.
pub open spec fn monitor_clip(src: Rect, mon: Rect) -> MonitorClip {
    let ix0 = max_int(src.left as int, mon.left as int);
    let iy0 = max_int(src.top as int, mon.top as int);
    let ix1 = min_int(src.right as int, mon.right as int);
    let iy1 = min_int(src.bottom as int, mon.bottom as int);
    let overlaps = ix1 > ix0 && iy1 > iy0;
    MonitorClip {
        clipped: Rect { left: ix0 as i32, top: iy0 as i32, right: ix1 as i32, bottom: iy1 as i32 },
        extent_w: at_least_one(
            if overlaps {
                ix1 - ix0
            } else {
                mon.right - mon.left
            },
        ) as i32,
        extent_h: at_least_one(
            if overlaps {
                iy1 - iy0
            } else {
                mon.bottom - mon.top
            },
        ) as i32,
        mon_w: at_least_one(mon.right - mon.left) as i32,
        mon_h: at_least_one(mon.bottom - mon.top) as i32,
        rel: Rect {
            left: (ix0 - mon.left) as i32,
            top: (iy0 - mon.top) as i32,
            right: (ix1 - mon.left) as i32,
            bottom: (iy1 - mon.top) as i32,
        },
    }
}

/// Whether every difference that the clip computes fits in an `i32`.
pub open spec fn clip_in_range(src: Rect, mon: Rect) -> bool {
    &&& mon.width_fits() && mon.height_fits()
    &&& i32::MIN <= max_int(src.left as int, mon.left as int) - mon.left <= i32::MAX
    &&& i32::MIN <= max_int(src.top as int, mon.top as int) - mon.top <= i32::MAX
    &&& i32::MIN <= min_int(src.right as int, mon.right as int) - mon.left <= i32::MAX
    &&& i32::MIN <= min_int(src.bottom as int, mon.bottom as int) - mon.top <= i32::MAX
}

/// Whether `clip_to_monitor` can clip `src` against `mon` without an
/// `i32` overflow.
pub fn clip_fits(src: Rect, mon: Rect) -> (r: bool)
    ensures
        r == clip_in_range(src, mon),
{
    let ix0: i64 = if src.left >= mon.left {
        src.left as i64
    } else {
        mon.left as i64
    };
    let iy0: i64 = if src.top >= mon.top {
        src.top as i64
    } else {
        mon.top as i64
    };
    let ix1: i64 = if src.right <= mon.right {
        src.right as i64
    } else {
        mon.right as i64
    };
    let iy1: i64 = if src.bottom <= mon.bottom {
        src.bottom as i64
    } else {
        mon.bottom as i64
    };
    let lo: i64 = i32::MIN as i64;
    let hi: i64 = i32::MAX as i64;
    let mw = mon.right as i64 - mon.left as i64;
    let mh = mon.bottom as i64 - mon.top as i64;
    let a = ix0 - mon.left as i64;
    let b = iy0 - mon.top as i64;
    let c = ix1 - mon.left as i64;
    let d = iy1 - mon.top as i64;
    lo <= mw && mw <= hi && lo <= mh && mh <= hi && lo <= a && a <= hi && lo <= b && b <= hi && lo
        <= c && c <= hi && lo <= d && d <= hi
}

/// Clip the source rectangle to the captured monitor (the integer part of
/// the GPU path's shader constants).
pub fn clip_to_monitor(src: Rect, mon: Rect) -> (r: MonitorClip)
    requires
        clip_in_range(src, mon),
    ensures
        r == monitor_clip(src, mon),
        r.clipped.right > r.clipped.left && r.clipped.bottom > r.clipped.top ==> mon.encloses(
            r.clipped,
        ),
        r.rel.left == r.clipped.left - mon.left,
        r.rel.top == r.clipped.top - mon.top,
        r.rel.right == r.clipped.right - mon.left,
        r.rel.bottom == r.clipped.bottom - mon.top,
{
    let ix0 = if src.left >= mon.left {
        src.left
    } else {
        mon.left
    };
    let iy0 = if src.top >= mon.top {
        src.top
    } else {
        mon.top
    };
    let ix1 = if src.right <= mon.right {
        src.right
    } else {
        mon.right
    };
    let iy1 = if src.bottom <= mon.bottom {
        src.bottom
    } else {
        mon.bottom
    };
    let overlaps = ix1 > ix0 && iy1 > iy0;
    let sw = if overlaps {
        ix1 - ix0
    } else {
        mon.right - mon.left
    };
    let sh = if overlaps {
        iy1 - iy0
    } else {
        mon.bottom - mon.top
    };
    MonitorClip {
        clipped: Rect { left: ix0, top: iy0, right: ix1, bottom: iy1 },
        extent_w: if sw >= 1 {
            sw
        } else {
            1
        },
        extent_h: if sh >= 1 {
            sh
        } else {
            1
        },
        mon_w: mon.width_or_one(),
        mon_h: mon.height_or_one(),
        rel: Rect {
            left: ix0 - mon.left,
            top: iy0 - mon.top,
            right: ix1 - mon.left,
            bottom: iy1 - mon.top,
        },
    }
}

/// What the clip gives, for every source and monitor: the clipped rectangle
/// is the overlap of the two; the relative rectangle is the clipped one
/// moved by minus the monitor's top-left corner, so that a non-empty clip
/// lies inside the monitor's own frame `0..width × 0..height` (the texture
/// coordinates of the captured frame); and the monitor size is the
/// monitor's width and height.
pub proof fn lemma_monitor_clip_relative(src: Rect, mon: Rect)
    requires
        clip_in_range(src, mon),
    ensures
        ({
            let c = monitor_clip(src, mon);
            &&& c.clipped.left == max_int(src.left as int, mon.left as int)
            &&& c.clipped.top == max_int(src.top as int, mon.top as int)
            &&& c.clipped.right == min_int(src.right as int, mon.right as int)
            &&& c.clipped.bottom == min_int(src.bottom as int, mon.bottom as int)
            &&& c.rel.left == c.clipped.left - mon.left
            &&& c.rel.top == c.clipped.top - mon.top
            &&& c.rel.right == c.clipped.right - mon.left
            &&& c.rel.bottom == c.clipped.bottom - mon.top
            &&& c.clipped.right > c.clipped.left && c.clipped.bottom > c.clipped.top ==> {
                &&& 0 <= c.rel.left < c.rel.right <= mon.right - mon.left
                &&& 0 <= c.rel.top < c.rel.bottom <= mon.bottom - mon.top
                &&& c.extent_w == c.clipped.right - c.clipped.left
                &&& c.extent_h == c.clipped.bottom - c.clipped.top
                &&& src.left <= c.clipped.left && c.clipped.right <= src.right
                &&& src.top <= c.clipped.top && c.clipped.bottom <= src.bottom
            }
            &&& mon.right > mon.left ==> c.mon_w == mon.right - mon.left
            &&& mon.bottom > mon.top ==> c.mon_h == mon.bottom - mon.top
        }),
{
}

} // verus!
