//! Anchor-relative screen geometry.
//!
//! Toasts stack away from one of nine fixed alignment points of the
//! viewport.  All geometry is in whole pixels on signed 64-bit
//! coordinates; each axis of an anchor carries a sign (`-1`, `0` or `1`)
//! that says which way margins are applied and which way the stack grows.
//! Contracts speak over the mathematical views `Vec2G` and `RectG`, whose
//! coordinates are unbounded integers.

use vstd::prelude::*;
use crate::state::VALUE_UNIT;

verus! {

/// Largest magnitude accepted for margins, paddings, spacings, measured
/// text sizes and viewport coordinates handed to the engine.
pub const GEOM_LIMIT: i64 = 1_000_000;

/// Largest width or height a computed toast box can reach: a handful of
/// `GEOM_LIMIT`-bounded terms plus fixed gaps.
pub const SIZE_LIMIT: i64 = 8_000_000;

/// The running layout cursor is kept within this magnitude, so that a
/// frame over any number of toasts stays free of overflow.
pub const CURSOR_LIMIT: i64 = 1_099_511_627_776;

/// A pair of pixel coordinates; used for points, sizes and margins alike.
#[derive(Clone, Copy, Debug, PartialEq, Eq, Structural)]
pub struct Vec2I {
    pub x: i64,
    pub y: i64,
}

/// Mathematical view of `Vec2I`: the same pair over unbounded integers.
pub ghost struct Vec2G {
    pub x: int,
    pub y: int,
}

impl View for Vec2I {
    type V = Vec2G;

    open spec fn view(&self) -> Vec2G {
        Vec2G { x: self.x as int, y: self.y as int }
    }
}

/// An axis-aligned rectangle between two corners, `min` up-left of `max`.
#[derive(Clone, Copy, Debug, PartialEq, Eq, Structural)]
pub struct RectI {
    pub min: Vec2I,
    pub max: Vec2I,
}

/// Mathematical view of `RectI`.
pub ghost struct RectG {
    pub min: Vec2G,
    pub max: Vec2G,
}

impl View for RectI {
    type V = RectG;

    open spec fn view(&self) -> RectG {
        RectG { min: self.min@, max: self.max@ }
    }
}

/// A rectangle whose corners are ordered on both axes.
pub open spec fn rect_ordered(r: RectG) -> bool {
    r.min.x <= r.max.x && r.min.y <= r.max.y
}

/// Does `r` contain the point `p`, borders included?
pub open spec fn rect_contains(r: RectG, p: Vec2G) -> bool {
    r.min.x <= p.x <= r.max.x && r.min.y <= p.y <= r.max.y
}

impl RectI {
    /// Hit test: is `p` inside the rectangle, borders included?
    pub fn contains(&self, p: Vec2I) -> (b: bool)
        ensures
            b == rect_contains(self@, p@),
    {
        self.min.x <= p.x && p.x <= self.max.x && self.min.y <= p.y && p.y <= self.max.y
    }
}

/// One of the nine standard alignment points of the viewport from which
/// toasts are stacked.
#[derive(Clone, Copy, Debug, PartialEq, Eq, Structural)]
pub enum Anchor {
    TopLeft,
    TopCenter,
    TopRight,
    CenterLeft,
    Center,
    CenterRight,
    BottomLeft,
    BottomCenter,
    BottomRight,
}

/// Horizontal sign of an anchor: `-1` at the left edge, `0` centered,
/// `1` at the right edge.
pub open spec fn sign_x(a: Anchor) -> int {
    match a {
        Anchor::TopLeft | Anchor::CenterLeft | Anchor::BottomLeft => -1,
        Anchor::TopCenter | Anchor::Center | Anchor::BottomCenter => 0,
        Anchor::TopRight | Anchor::CenterRight | Anchor::BottomRight => 1,
    }
}

/// Vertical sign of an anchor: `-1` at the top edge, `0` centered,
/// `1` at the bottom edge.
pub open spec fn sign_y(a: Anchor) -> int {
    match a {
        Anchor::TopLeft | Anchor::TopCenter | Anchor::TopRight => -1,
        Anchor::CenterLeft | Anchor::Center | Anchor::CenterRight => 0,
        Anchor::BottomLeft | Anchor::BottomCenter | Anchor::BottomRight => 1,
    }
}

/// The coordinate an axis sign picks between `lo` and `hi` (the midpoint
/// rounds toward the low coordinate).
pub open spec fn axis_point(sign: int, lo: int, hi: int) -> int
    recommends
        lo <= hi,
{
    if sign < 0 {
        lo
    } else if sign == 0 {
        lo + (hi - lo) / 2
    } else {
        hi
    }
}

/// The anchor's own point inside a rectangle: the matching corner, edge
/// midpoint or center.
pub open spec fn anchor_point(a: Anchor, frame: RectG) -> Vec2G {
    Vec2G {
        x: axis_point(sign_x(a), frame.min.x, frame.max.x),
        y: axis_point(sign_y(a), frame.min.y, frame.max.y),
    }
}

/// Where the layout cursor starts: the anchor's point pulled inward from
/// the viewport edge by the margin on each non-centered axis.
pub open spec fn cursor_origin(a: Anchor, frame: RectG, margin: Vec2G) -> Vec2G {
    let p = anchor_point(a, frame);
    Vec2G { x: p.x - sign_x(a) * margin.x, y: p.y - sign_y(a) * margin.y }
}

/// Low corner of a box of extent `size` hung from `pos` on one axis.
pub open spec fn axis_min(sign: int, pos: int, size: int) -> int
    recommends
        size >= 0,
{
    if sign < 0 {
        pos
    } else if sign == 0 {
        pos - size / 2
    } else {
        pos - size
    }
}

/// The rectangle of a box of size `size` hung from `pos` so that it grows
/// away from the anchor: flush against `pos` on an edge axis, centered on
/// a middle axis.
pub open spec fn placed_rect(a: Anchor, pos: Vec2G, size: Vec2G) -> RectG {
    let min = Vec2G {
        x: axis_min(sign_x(a), pos.x, size.x),
        y: axis_min(sign_y(a), pos.y, size.y),
    };
    RectG { min, max: Vec2G { x: min.x + size.x, y: min.y + size.y } }
}

/// A coordinate clamped to the cursor's working range.
pub open spec fn clamp_cursor(x: int) -> int {
    if x < -(CURSOR_LIMIT as int) {
        -(CURSOR_LIMIT as int)
    } else if x > CURSOR_LIMIT {
        CURSOR_LIMIT as int
    } else {
        x
    }
}

/// The cursor moved by `offset` along the stacking direction (away from
/// the anchored edge), clamped to the cursor's working range.
pub open spec fn advanced_cursor(a: Anchor, pos: Vec2G, offset: int) -> Vec2G {
    Vec2G { x: pos.x, y: clamp_cursor(pos.y + (-sign_y(a)) * offset) }
}

impl Anchor {
    /// Horizontal sign of the anchor, the direction the entrance slide
    /// comes from.
    pub fn side(&self) -> (s: i64)
        ensures
            s == sign_x(*self),
    {
        match self {
            Anchor::TopLeft | Anchor::CenterLeft | Anchor::BottomLeft => -1,
            Anchor::TopCenter | Anchor::Center | Anchor::BottomCenter => 0,
            Anchor::TopRight | Anchor::CenterRight | Anchor::BottomRight => 1,
        }
    }

    /// Vertical sign of the anchor, the axis the stack grows along.
    pub fn vertical_sign(&self) -> (s: i64)
        ensures
            s == sign_y(*self),
    {
        match self {
            Anchor::TopLeft | Anchor::TopCenter | Anchor::TopRight => -1,
            Anchor::CenterLeft | Anchor::Center | Anchor::CenterRight => 0,
            Anchor::BottomLeft | Anchor::BottomCenter | Anchor::BottomRight => 1,
        }
    }

    /// The anchor's point in `frame`, pulled inward by `margin`: where the
    /// first toast of the frame is hung.
    pub fn pos_in_rect_with_margin(&self, frame: &RectI, margin: Vec2I) -> (p: Vec2I)
        requires
            rect_ordered(frame@),
            -GEOM_LIMIT <= frame.min.x <= GEOM_LIMIT,
            -GEOM_LIMIT <= frame.min.y <= GEOM_LIMIT,
            -GEOM_LIMIT <= frame.max.x <= GEOM_LIMIT,
            -GEOM_LIMIT <= frame.max.y <= GEOM_LIMIT,
            -GEOM_LIMIT <= margin.x <= GEOM_LIMIT,
            -GEOM_LIMIT <= margin.y <= GEOM_LIMIT,
        ensures
            p@ == cursor_origin(*self, frame@, margin@),
            -2 * GEOM_LIMIT <= p.x <= 2 * GEOM_LIMIT,
            -2 * GEOM_LIMIT <= p.y <= 2 * GEOM_LIMIT,
    {
        let sx = self.side();
        let sy = self.vertical_sign();
        let ax = if sx < 0 {
            frame.min.x
        } else if sx == 0 {
            frame.min.x + (frame.max.x - frame.min.x) / 2
        } else {
            frame.max.x
        };
        let ay = if sy < 0 {
            frame.min.y
        } else if sy == 0 {
            frame.min.y + (frame.max.y - frame.min.y) / 2
        } else {
            frame.max.y
        };
        Vec2I { x: ax - sx * margin.x, y: ay - sy * margin.y }
    }

    /// The screen rectangle of a box of size `size` hung from `pos`.
    pub fn align_size_to_pos(&self, pos: Vec2I, size: Vec2I) -> (r: RectI)
        requires
            -2 * CURSOR_LIMIT <= pos.x <= 2 * CURSOR_LIMIT,
            -2 * CURSOR_LIMIT <= pos.y <= 2 * CURSOR_LIMIT,
            0 <= size.x <= SIZE_LIMIT,
            0 <= size.y <= SIZE_LIMIT,
        ensures
            r@ == placed_rect(*self, pos@, size@),
            rect_ordered(r@),
            pos.x - size.x <= r.min.x <= pos.x,
            pos.y - size.y <= r.min.y <= pos.y,
            r.max.x == r.min.x + size.x,
            r.max.y == r.min.y + size.y,
    {
        let sx = self.side();
        let sy = self.vertical_sign();
        let min_x = if sx < 0 {
            pos.x
        } else if sx == 0 {
            pos.x - size.x / 2
        } else {
            pos.x - size.x
        };
        let min_y = if sy < 0 {
            pos.y
        } else if sy == 0 {
            pos.y - size.y / 2
        } else {
            pos.y - size.y
        };
        RectI {
            min: Vec2I { x: min_x, y: min_y },
            max: Vec2I { x: min_x + size.x, y: min_y + size.y },
        }
    }

    /// Advance the layout cursor past a toast: move `offset` pixels along
    /// the stacking direction, clamped to the cursor's working range.
    pub fn offset_height(&self, pos: &mut Vec2I, offset: i64)
        requires
            -CURSOR_LIMIT <= old(pos).y <= CURSOR_LIMIT,
            0 <= offset <= 2 * SIZE_LIMIT,
        ensures
            final(pos)@ == advanced_cursor(*self, old(pos)@, offset as int),
            -CURSOR_LIMIT <= final(pos).y <= CURSOR_LIMIT,
            final(pos).x == old(pos).x,
    {
        let sy = self.vertical_sign();
        let step: i64 = if sy < 0 {
            offset
        } else if sy == 0 {
            0
        } else {
            -offset
        };
        let moved: i64 = pos.y + step;
        pos.y = if moved < -CURSOR_LIMIT {
            -CURSOR_LIMIT
        } else if moved > CURSOR_LIMIT {
            CURSOR_LIMIT
        } else {
            moved
        };
    }
}

/// Cube of the remaining entrance distance, on the animation scale.
pub open spec fn cube(r: int) -> int {
    r * r * r
}

/// Horizontal entrance offset of a toast of width `width` at animation
/// progress `value`: the full width scaled by the cube of the remaining
/// progress, so the slide eases in.  Equals `0` when fully shown and
/// `width` when fully hidden.
pub open spec fn slide_offset(width: int, value: int) -> int {
    width * cube(VALUE_UNIT - value) / cube(VALUE_UNIT as int)
}

/// The entrance-slide offset for a toast box, in pixels.
pub fn anim_offset(width: i64, value: u64) -> (o: i64)
    requires
        0 <= width <= SIZE_LIMIT,
        value <= VALUE_UNIT,
    ensures
        o == slide_offset(width as int, value as int),
        0 <= o <= width,
{
    let r: i64 = (VALUE_UNIT - value) as i64;
    proof {
        assert(0 <= r <= 1000);
        assert(0 <= r * r <= 1_000_000) by (nonlinear_arith)
            requires
                0 <= r <= 1000,
        ;
        assert(0 <= r * r * r <= 1_000_000_000) by (nonlinear_arith)
            requires
                0 <= r <= 1000,
        ;
    }
    let r3: i64 = r * r * r;
    proof {
        assert(0 <= width * r3 <= SIZE_LIMIT * 1_000_000_000) by (nonlinear_arith)
            requires
                0 <= width <= SIZE_LIMIT && 0 <= r3 <= 1_000_000_000,
        ;
        assert(width * r3 / 1_000_000_000 <= width) by (nonlinear_arith)
            requires
                0 <= width && 0 <= r3 <= 1_000_000_000,
        ;
    }
    width * r3 / 1_000_000_000
}

} // verus!
