//! Pure layout arithmetic for one toast's box and contents.
//!
//! Everything here is a function of the toast's content and options, the
//! sizes the host measured for its text, and the collection's padding;
//! the collection's frame pass feeds these into the anchor geometry.

use vstd::prelude::*;
use vstd::string::StrSliceExecFns;
use crate::anchor::Anchor;
use crate::anchor::CURSOR_LIMIT;
use crate::anchor::GEOM_LIMIT;
use crate::anchor::RectG;
use crate::anchor::RectI;
use crate::anchor::SIZE_LIMIT;
use crate::anchor::Vec2G;
use crate::anchor::Vec2I;
use crate::anchor::anim_offset;
use crate::anchor::placed_rect;
use crate::anchor::rect_ordered;
use crate::anchor::sign_x;
use crate::anchor::slide_offset;
use crate::level::ToastLevel;
use crate::state::VALUE_UNIT;
use crate::toast::Toast;

verus! {

/// Every coordinate of a placed box and its contents stays within this
/// magnitude: the cursor's working range plus a couple of box extents.
pub const RECT_LIMIT: i64 = 1_099_543_627_776;

/// Fixed gap, in pixels, between the icon slot or the close icon and the
/// caption.
pub const ICON_GAP: i64 = 7;

/// Line counting stops here; the cap is above any measurable caption
/// height, so the quotients computed from a count are unchanged by it.
pub const LINES_CAP: usize = 1_000_001;

/// How many newline characters `s` holds.
pub open spec fn newline_count(s: Seq<char>) -> int
    decreases s.len(),
{
    if s.len() == 0 {
        0
    } else {
        newline_count(s.drop_last()) + (if s.last() == '\n' {
            1int
        } else {
            0int
        })
    }
}

/// How many lines a caption spans: one more than its newlines, capped at
/// `LINES_CAP`.
pub open spec fn line_count_of(s: Seq<char>) -> int {
    if 1 + newline_count(s) > LINES_CAP {
        LINES_CAP as int
    } else {
        1 + newline_count(s)
    }
}

proof fn lemma_newline_count_nonneg(s: Seq<char>)
    ensures
        0 <= newline_count(s) <= s.len(),
    decreases s.len(),
{
    if s.len() > 0 {
        lemma_newline_count_nonneg(s.drop_last());
    }
}

/// How many lines `caption` spans, counted over its characters.
pub fn line_count(caption: &str) -> (n: usize)
    ensures
        n == line_count_of(caption@),
        1 <= n <= LINES_CAP,
{
    let len = caption.unicode_len();
    let mut newlines: usize = 0;
    let mut i: usize = 0;
    while i < len
        invariant
            i <= len,
            len == caption@.len(),
            newlines == (if newline_count(caption@.take(i as int)) > LINES_CAP - 1 {
                (LINES_CAP - 1) as int
            } else {
                newline_count(caption@.take(i as int))
            }),
        decreases len - i,
    {
        let c = caption.get_char(i);
        proof {
            assert(caption@.take(i as int + 1).drop_last() =~= caption@.take(i as int));
            assert(caption@.take(i as int + 1).last() == caption@[i as int]);
            lemma_newline_count_nonneg(caption@.take(i as int));
        }
        if c == '\n' && newlines < LINES_CAP - 1 {
            newlines = newlines + 1;
        }
        i = i + 1;
    }
    proof {
        assert(caption@.take(len as int) =~= caption@);
        lemma_newline_count_nonneg(caption@);
    }
    newlines + 1
}

/// A content width padded by the fixed gap, or nothing at all for an
/// absent content.
pub open spec fn padded(w: int, gap: int) -> int {
    if w == 0 {
        0
    } else {
        w + gap
    }
}

/// The largest of three extents.
pub open spec fn max3(a: int, b: int, c: int) -> int {
    if a >= b && a >= c {
        a
    } else if b >= c {
        b
    } else {
        c
    }
}

/// Width of the icon slot: the caption's height split over its lines,
/// whether or not a level icon is drawn in it.
pub open spec fn icon_slot(caption_h: int, lines: int) -> int
    recommends
        lines >= 1,
{
    caption_h / lines
}

/// The sizes the host measured for one toast's text this frame, plus the
/// vertical position its box is to be hung from (the layout cursor's
/// target, possibly smoothed by the host).
pub struct ToastMeasure {
    /// Width of the caption block, in pixels.
    pub caption_width: i64,
    /// Height of the caption block, in pixels.
    pub caption_height: i64,
    /// Width of the measured level icon, in pixels; ignored for a toast
    /// without a level.
    pub icon_width: i64,
    /// Height of the measured level icon, in pixels; ignored for a toast
    /// without a level.
    pub icon_height: i64,
    /// Width of the measured close icon, in pixels; ignored for a toast
    /// that is not closable.
    pub cross_width: i64,
    /// Height of the measured close icon, in pixels; ignored for a toast
    /// that is not closable.
    pub cross_height: i64,
    /// Vertical position the box is hung from.
    pub pos_y: i64,
}

/// A measurement the engine accepts: sizes within the geometry bounds
/// and a vertical position within the cursor's working range.
pub open spec fn measure_wf(m: ToastMeasure) -> bool {
    &&& 0 <= m.caption_width <= GEOM_LIMIT
    &&& 0 <= m.caption_height <= GEOM_LIMIT
    &&& 0 <= m.icon_width <= GEOM_LIMIT
    &&& 0 <= m.icon_height <= GEOM_LIMIT
    &&& 0 <= m.cross_width <= GEOM_LIMIT
    &&& 0 <= m.cross_height <= GEOM_LIMIT
    &&& -CURSOR_LIMIT <= m.pos_y <= CURSOR_LIMIT
}

/// Width of the close icon as far as layout is concerned: absent unless
/// the toast is closable.
pub open spec fn cross_width_of(t: Toast, m: ToastMeasure) -> int {
    if t.options.closable {
        m.cross_width as int
    } else {
        0
    }
}

/// Height of the close icon as far as layout is concerned.
pub open spec fn cross_height_of(t: Toast, m: ToastMeasure) -> int {
    if t.options.closable {
        m.cross_height as int
    } else {
        0
    }
}

/// Width of the level icon as far as layout is concerned: absent for a
/// toast without a level.
pub open spec fn action_width_of(t: Toast, m: ToastMeasure) -> int {
    if t.options.level is NoLevel {
        0
    } else {
        m.icon_width as int
    }
}

/// Height of the level icon as far as layout is concerned.
pub open spec fn action_height_of(t: Toast, m: ToastMeasure) -> int {
    if t.options.level is NoLevel {
        0
    } else {
        m.icon_height as int
    }
}

/// Width of a toast's box: icon slot, caption and close icon laid out
/// horizontally with their gaps, plus symmetric padding.
pub open spec fn layout_width(t: Toast, m: ToastMeasure, pad_x: int) -> int {
    let slot = icon_slot(m.caption_height as int, line_count_of(t.caption@));
    padded(slot, ICON_GAP as int) + m.caption_width + padded(
        cross_width_of(t, m),
        ICON_GAP as int,
    ) + 2 * pad_x
}

/// Height of a toast's box: the tallest of its contents plus symmetric
/// padding.
pub open spec fn layout_height(t: Toast, m: ToastMeasure, pad_y: int) -> int {
    max3(action_height_of(t, m), m.caption_height as int, cross_height_of(t, m)) + 2 * pad_y
}

/// The screen rectangle of a toast's box this frame: its size hung from
/// the layout cursor, slid horizontally by the entrance animation.
pub open spec fn toast_box(
    a: Anchor,
    cursor: Vec2G,
    t: Toast,
    m: ToastMeasure,
    pad_x: int,
    pad_y: int,
) -> RectG {
    let w = layout_width(t, m, pad_x);
    let h = layout_height(t, m, pad_y);
    let x = cursor.x + slide_offset(w, t.value as int) * sign_x(a);
    placed_rect(a, Vec2G { x, y: m.pos_y as int }, Vec2G { x: w, y: h })
}

/// The close icon's screen rectangle inside a box of size `w` by `h`:
/// flush against the right padding, centered vertically.
pub open spec fn cross_box(rect: RectG, w: int, h: int, cross_w: int, cross_h: int, pad_x: int) -> RectG {
    let min = Vec2G { x: rect.min.x + w - cross_w - pad_x, y: rect.min.y + h / 2 - cross_h / 2 };
    RectG { min, max: Vec2G { x: min.x + cross_w, y: min.y + cross_h } }
}

/// Where the level icon is placed: against the left padding, centered
/// vertically.
pub open spec fn icon_point(rect: RectG, h: int, action_h: int, pad_x: int) -> Vec2G {
    Vec2G { x: rect.min.x + pad_x, y: rect.min.y + h / 2 - action_h / 2 }
}

/// Where the caption is placed: centered in the box, nudged right by
/// half the icon's padded width and left by half the close icon's.
pub open spec fn caption_point(
    rect: RectG,
    w: int,
    h: int,
    caption_w: int,
    caption_h: int,
    action_w: int,
    cross_w: int,
) -> Vec2G {
    let from_icon = padded(action_w, ICON_GAP as int);
    let from_cross = padded(cross_w, ICON_GAP as int);
    Vec2G {
        x: rect.min.x + w / 2 - caption_w / 2 + from_icon / 2 - from_cross / 2,
        y: rect.min.y + h / 2 - caption_h / 2,
    }
}

/// Left edge of the progress bar: the box's right edge pulled back by
/// the spent share of the countdown.
pub open spec fn progress_left_of(rect_right: int, w: int, initial: int, remaining: int) -> int
    recommends
        initial > 0,
        remaining <= initial,
{
    rect_right - w * (initial - remaining) / initial
}

/// The box size of a toast computed from its content and the measured
/// sizes.
pub fn box_size(t: &Toast, m: &ToastMeasure, pad_x: i64, pad_y: i64) -> (s: (i64, i64))
    requires
        measure_wf(*m),
        0 <= pad_x <= GEOM_LIMIT,
        0 <= pad_y <= GEOM_LIMIT,
    ensures
        s.0 == layout_width(*t, *m, pad_x as int),
        s.1 == layout_height(*t, *m, pad_y as int),
        0 <= s.0 <= SIZE_LIMIT,
        0 <= s.1 <= SIZE_LIMIT,
{
    let lines = line_count(t.caption.as_str());
    let lines_i: i64 = lines as i64;
    let slot: i64 = m.caption_height / lines_i;
    proof {
        assert(0 <= slot <= m.caption_height) by (nonlinear_arith)
            requires
                lines_i >= 1 && m.caption_height >= 0 && slot == m.caption_height as int
                    / lines_i as int,
        ;
    }
    let slot_p: i64 = if slot == 0 {
        0
    } else {
        slot + ICON_GAP
    };
    let closable = t.options.closable;
    let has_level = !matches!(t.options.level, ToastLevel::NoLevel);
    let cross_w: i64 = if closable {
        m.cross_width
    } else {
        0
    };
    let cross_h: i64 = if closable {
        m.cross_height
    } else {
        0
    };
    let cross_p: i64 = if cross_w == 0 {
        0
    } else {
        cross_w + ICON_GAP
    };
    let action_h: i64 = if has_level {
        m.icon_height
    } else {
        0
    };
    let w: i64 = slot_p + m.caption_width + cross_p + 2 * pad_x;
    let tallest: i64 = if action_h >= m.caption_height && action_h >= cross_h {
        action_h
    } else if m.caption_height >= cross_h {
        m.caption_height
    } else {
        cross_h
    };
    let h: i64 = tallest + 2 * pad_y;
    (w, h)
}

/// The box of size `w` by `h` placed for this frame: hung from the
/// layout cursor, slid horizontally by the entrance animation, at the
/// vertical position the host asked for.
pub fn place_box(
    a: Anchor,
    cursor: Vec2I,
    t: &Toast,
    m: &ToastMeasure,
    pad_x: i64,
    pad_y: i64,
    w: i64,
    h: i64,
) -> (r: RectI)
    requires
        measure_wf(*m),
        w == layout_width(*t, *m, pad_x as int),
        h == layout_height(*t, *m, pad_y as int),
        0 <= w <= SIZE_LIMIT,
        0 <= h <= SIZE_LIMIT,
        t.value <= VALUE_UNIT,
        -2 * GEOM_LIMIT <= cursor.x <= 2 * GEOM_LIMIT,
    ensures
        r@ == toast_box(a, cursor@, *t, *m, pad_x as int, pad_y as int),
        rect_ordered(r@),
        -RECT_LIMIT <= r.min.x <= RECT_LIMIT,
        -RECT_LIMIT <= r.min.y <= RECT_LIMIT,
        r.max.x == r.min.x + w,
        r.max.y == r.min.y + h,
{
    let off = anim_offset(w, t.value);
    let sx = a.side();
    let px: i64 = if sx < 0 {
        cursor.x - off
    } else if sx == 0 {
        cursor.x
    } else {
        cursor.x + off
    };
    a.align_size_to_pos(Vec2I { x: px, y: m.pos_y }, Vec2I { x: w, y: h })
}

/// The close icon's rectangle inside a placed box.
pub fn close_icon_box(rect: RectI, w: i64, h: i64, cross_w: i64, cross_h: i64, pad_x: i64) -> (cr:
    RectI)
    requires
        -RECT_LIMIT <= rect.min.x <= RECT_LIMIT,
        -RECT_LIMIT <= rect.min.y <= RECT_LIMIT,
        0 <= w <= SIZE_LIMIT,
        0 <= h <= SIZE_LIMIT,
        0 <= cross_w <= GEOM_LIMIT,
        0 <= cross_h <= GEOM_LIMIT,
        0 <= pad_x <= GEOM_LIMIT,
    ensures
        cr@ == cross_box(rect@, w as int, h as int, cross_w as int, cross_h as int, pad_x as int),
{
    let min = Vec2I { x: rect.min.x + w - cross_w - pad_x, y: rect.min.y + h / 2 - cross_h / 2 };
    RectI { min, max: Vec2I { x: min.x + cross_w, y: min.y + cross_h } }
}

/// Where the level icon goes inside a placed box.
pub fn icon_point_in(rect: RectI, h: i64, action_h: i64, pad_x: i64) -> (p: Vec2I)
    requires
        -RECT_LIMIT <= rect.min.x <= RECT_LIMIT,
        -RECT_LIMIT <= rect.min.y <= RECT_LIMIT,
        0 <= h <= SIZE_LIMIT,
        0 <= action_h <= GEOM_LIMIT,
        0 <= pad_x <= GEOM_LIMIT,
    ensures
        p@ == icon_point(rect@, h as int, action_h as int, pad_x as int),
{
    Vec2I { x: rect.min.x + pad_x, y: rect.min.y + h / 2 - action_h / 2 }
}

/// Where the caption goes inside a placed box.
pub fn caption_point_in(
    rect: RectI,
    w: i64,
    h: i64,
    caption_w: i64,
    caption_h: i64,
    action_w: i64,
    cross_w: i64,
) -> (p: Vec2I)
    requires
        -RECT_LIMIT <= rect.min.x <= RECT_LIMIT,
        -RECT_LIMIT <= rect.min.y <= RECT_LIMIT,
        0 <= w <= SIZE_LIMIT,
        0 <= h <= SIZE_LIMIT,
        0 <= caption_w <= GEOM_LIMIT,
        0 <= caption_h <= GEOM_LIMIT,
        0 <= action_w <= GEOM_LIMIT,
        0 <= cross_w <= GEOM_LIMIT,
    ensures
        p@ == caption_point(
            rect@,
            w as int,
            h as int,
            caption_w as int,
            caption_h as int,
            action_w as int,
            cross_w as int,
        ),
{
    let action_p: i64 = if action_w == 0 {
        0
    } else {
        action_w + ICON_GAP
    };
    let cross_p: i64 = if cross_w == 0 {
        0
    } else {
        cross_w + ICON_GAP
    };
    Vec2I {
        x: rect.min.x + w / 2 - caption_w / 2 + action_p / 2 - cross_p / 2,
        y: rect.min.y + h / 2 - caption_h / 2,
    }
}

/// Left edge of the progress bar for a countdown that started at
/// `initial` and has `remaining` left.
pub fn progress_bar_left(rect_right: i64, w: i64, initial: u64, remaining: u64) -> (l: i64)
    requires
        initial > 0,
        remaining <= initial,
        0 <= w <= SIZE_LIMIT,
        -2 * RECT_LIMIT <= rect_right <= 2 * RECT_LIMIT,
    ensures
        l == progress_left_of(rect_right as int, w as int, initial as int, remaining as int),
        rect_right - w <= l <= rect_right,
{
    proof {
        assert((initial - remaining) * (w as int) >= 0) by (nonlinear_arith)
            requires
                remaining <= initial && w >= 0,
        ;
        assert(((initial - remaining) as int) * (w as int)
            < 0x100000000000000000000000000000000) by (nonlinear_arith)
            requires
                initial - remaining < 0x10000000000000000 && 0 <= w <= 8_000_000,
        ;
        assert((w as int) * ((initial - remaining) as int) == ((initial - remaining) as int) * (
        w as int)) by (nonlinear_arith);
        assert((initial - remaining) * (w as int) / initial as int <= w as int)
            by (nonlinear_arith)
            requires
                initial > 0 && remaining >= 0 && remaining <= initial && 0 <= w,
        ;
        assert((initial - remaining) * (w as int) / initial as int >= 0) by (nonlinear_arith)
            requires
                initial > 0 && remaining <= initial && 0 <= w,
        ;
    }
    let spent: u128 = ((initial - remaining) as u128) * (w as u128) / (initial as u128);
    rect_right - (spent as i64)
}

/// One toast's layout for a frame: everything the host needs to paint
/// it and nothing more.
pub struct ToastFrame {
    /// The toast's creation id, a stable animation key.
    pub id: u64,
    /// The toast's level, for colors and the icon glyph.
    pub level: ToastLevel,
    /// The box to fill, shade and stroke.
    pub rect: RectI,
    /// Width of the border stroke: zero while the toast disappears.
    pub border_width: i64,
    /// Left edge of the progress bar, when one is to be drawn.
    pub progress_left: Option<i64>,
    /// Where to place the level icon, when the toast has a level.
    pub icon_pos: Option<Vec2I>,
    /// Where to place the caption.
    pub caption_pos: Vec2I,
    /// The close icon's rectangle, when the toast is closable; its `min`
    /// corner is where the icon is placed.
    pub cross_rect: Option<RectI>,
    /// Was the pointer over the box this frame?
    pub toast_hovered: bool,
    /// Was the pointer over the close icon this frame?
    pub cross_hovered: bool,
}

} // verus!
