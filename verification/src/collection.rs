//! The toast collection and its per-frame engine.

use vstd::prelude::*;
use crate::anchor::Anchor;
use crate::anchor::CURSOR_LIMIT;
use crate::anchor::GEOM_LIMIT;
use crate::anchor::RectI;
use crate::anchor::Vec2I;
use crate::anchor::advanced_cursor;
use crate::anchor::cursor_origin;
use crate::anchor::rect_contains;
use crate::anchor::rect_ordered;
use crate::layout::ToastFrame;
use crate::layout::ToastMeasure;
use crate::layout::action_height_of;
use crate::layout::action_width_of;
use crate::layout::caption_point;
use crate::layout::cross_box;
use crate::layout::cross_height_of;
use crate::layout::cross_width_of;
use crate::layout::layout_height;
use crate::layout::layout_width;
use crate::layout::measure_wf;
use crate::layout::progress_left_of;
use crate::layout::toast_box;
use crate::state::ToastState;
use crate::toast::animation_stepped;
use crate::toast::timer_runs;
use crate::toast::timer_ticked;
use crate::level::ToastLevel;
use crate::options::ToastOptions;
use crate::options::ToastUpdate;
use crate::options::default_options;
use crate::options::options_wf;
use crate::toast::Toast;
use crate::toast::dismissed;
use crate::toast::fresh_toast;
use crate::toast::toast_wf;

verus! {

/// Default animation speed: four full progress units per second, on the
/// scale of thousandths of progress per second.
pub const SPEED_DEFAULT: u64 = 4000;

/// Main notifications collector: the ordered set of live toasts plus the
/// global layout and timing parameters.
///
/// The fields are public so that a host adapter and tests can observe
/// them; they are meant to be written only through the methods here,
/// which keep [`toasts_wf`].
pub struct Toasts {
    /// The attachment point for toasts.
    pub anchor: Anchor,
    /// Option template copied into toasts created through the shortcuts.
    pub default_options: ToastOptions,
    /// The live toasts, in stacking order.
    pub toasts: Vec<Toast>,
    /// Distance from the viewport edge to the first toast, per axis.
    pub margin: Vec2I,
    /// Distance between adjacent toasts.
    pub spacing: i64,
    /// Distance from a toast's box to its contents, per axis.
    pub padding: Vec2I,
    /// Are new toasts inserted at the front instead of appended?
    pub reverse: bool,
    /// Animation speed, in thousandths of full progress per second.
    pub speed: u64,
    /// Single-press guard: has the current pointer press already
    /// dismissed a toast?
    pub held: bool,
    /// Creation id handed to the next toast that joins the collection.
    pub next_id: u64,
}

/// Are the creation ids in `s` pairwise distinct?
pub open spec fn ids_distinct(s: Seq<Toast>) -> bool {
    forall|i: int, j: int|
        0 <= i < j < s.len() ==> (#[trigger] s[i]).id != (#[trigger] s[j]).id
}

/// Well-formedness of the collection: every toast well-formed, every
/// creation id below the next one to hand out and distinct from the
/// others, and the layout parameters within the geometry bounds.
pub open spec fn toasts_wf(c: Toasts) -> bool {
    &&& forall|i: int| 0 <= i < c.toasts@.len() ==> toast_wf(#[trigger] c.toasts@[i])
    &&& forall|i: int| 0 <= i < c.toasts@.len() ==> (#[trigger] c.toasts@[i]).id < c.next_id
    &&& ids_distinct(c.toasts@)
    &&& options_wf(c.default_options)
    &&& 0 <= c.margin.x <= GEOM_LIMIT
    &&& 0 <= c.margin.y <= GEOM_LIMIT
    &&& 0 <= c.spacing <= GEOM_LIMIT
    &&& 0 <= c.padding.x <= GEOM_LIMIT
    &&& 0 <= c.padding.y <= GEOM_LIMIT
    &&& 1 <= c.speed <= 1_000_000
}

impl Toasts {
    /// Creates a new collection: anchored bottom-right, margin and
    /// spacing of eight pixels, padding of ten, default options, default
    /// speed, appending new toasts at the end.
    pub fn new() -> (c: Toasts)
        ensures
            c.anchor == Anchor::BottomRight,
            c.default_options.duration == Some(
                (crate::options::DEFAULT_DURATION_MS, crate::options::DEFAULT_DURATION_MS),
            ),
            c.default_options.level == crate::level::ToastLevel::NoLevel,
            c.default_options.closable == true,
            c.default_options.show_progress_bar == true,
            c.toasts@.len() == 0,
            c.margin == (Vec2I { x: 8, y: 8 }),
            c.spacing == 8,
            c.padding == (Vec2I { x: 10, y: 10 }),
            c.reverse == false,
            c.speed == SPEED_DEFAULT,
            c.held == false,
            c.next_id == 0,
            toasts_wf(c),
    {
        Toasts {
            default_options: ToastOptions::default(),
            anchor: Anchor::BottomRight,
            margin: Vec2I { x: 8, y: 8 },
            toasts: Vec::new(),
            spacing: 8,
            padding: Vec2I { x: 10, y: 10 },
            held: false,
            speed: SPEED_DEFAULT,
            reverse: false,
            next_id: 0,
        }
    }

    /// Adds a toast to the collection, stamping it with a fresh creation
    /// id: appended at the end, or inserted at the front when the
    /// collection was configured `reverse`.  Returns a mutable handle to
    /// the stored toast for fluent configuration.
    pub fn add(&mut self, toast: Toast) -> (r: &mut Toast)
        requires
            toasts_wf(*old(self)),
            toast_wf(toast),
            old(self).next_id < u64::MAX,
        ensures
            *r == (Toast { id: old(self).next_id, ..toast }),
            final(self).toasts@ == (if old(self).reverse {
                seq![*final(r)] + old(self).toasts@
            } else {
                old(self).toasts@.push(*final(r))
            }),
            final(self).next_id == old(self).next_id + 1,
            final(self).anchor == old(self).anchor,
            final(self).default_options == old(self).default_options,
            final(self).margin == old(self).margin,
            final(self).spacing == old(self).spacing,
            final(self).padding == old(self).padding,
            final(self).reverse == old(self).reverse,
            final(self).speed == old(self).speed,
            final(self).held == old(self).held,
            toast_wf(*final(r)) && final(r).id == old(self).next_id ==> toasts_wf(*final(self)),
    {
        let mut toast = toast;
        toast.id = self.next_id;
        self.next_id = self.next_id + 1;
        if self.reverse {
            self.toasts.insert(0, toast);
            let r = &mut self.toasts[0];
            r
        } else {
            let l = self.toasts.len();
            self.toasts.push(toast);
            let r = &mut self.toasts[l];
            r
        }
    }

    /// The toast a creation shortcut builds before it joins the
    /// collection: fresh, with the collection's default options re-leveled
    /// to `level`.
    pub open spec fn shortcut_toast(self, caption: String, level: ToastLevel) -> Toast {
        fresh_toast(
            caption,
            ToastOptions { level, ..self.default_options },
            default_options(),
        )
    }

    /// What every creation shortcut guarantees: the new toast, stamped
    /// with the next creation id, joined the sequence at the end (or at
    /// the front under `reverse`), and nothing else moved.
    pub open spec fn added(self, post: Toasts, stored: Toast) -> bool {
        &&& post.toasts@ == (if self.reverse {
            seq![stored] + self.toasts@
        } else {
            self.toasts@.push(stored)
        })
        &&& post.next_id == self.next_id + 1
        &&& post.held == self.held
        &&& config_unchanged(self, post)
    }

    fn base_toast(&self, caption: String) -> (t: Toast)
        requires
            options_wf(self.default_options),
        ensures
            t == self.shortcut_toast(caption, self.default_options.level),
            toast_wf(t),
    {
        Toast::basic(caption).with_options(&self.default_options)
    }

    /// Shortcut for adding a toast with level `Success`.
    pub fn success(&mut self, caption: String) -> (r: &mut Toast)
        requires
            toasts_wf(*old(self)),
            old(self).next_id < u64::MAX,
        ensures
            *r == (Toast {
                id: old(self).next_id,
                ..old(self).shortcut_toast(caption, ToastLevel::Success)
            }),
            old(self).added(*final(self), *final(r)),
            toast_wf(*final(r)) && final(r).id == old(self).next_id ==> toasts_wf(*final(self)),
    {
        let t = self.base_toast(caption).success();
        self.add(t)
    }

    /// Shortcut for adding a toast with level `Info`.
    pub fn info(&mut self, caption: String) -> (r: &mut Toast)
        requires
            toasts_wf(*old(self)),
            old(self).next_id < u64::MAX,
        ensures
            *r == (Toast {
                id: old(self).next_id,
                ..old(self).shortcut_toast(caption, ToastLevel::Info)
            }),
            old(self).added(*final(self), *final(r)),
            toast_wf(*final(r)) && final(r).id == old(self).next_id ==> toasts_wf(*final(self)),
    {
        let t = self.base_toast(caption).info();
        self.add(t)
    }

    /// Shortcut for adding a toast with level `Warning`.
    pub fn warning(&mut self, caption: String) -> (r: &mut Toast)
        requires
            toasts_wf(*old(self)),
            old(self).next_id < u64::MAX,
        ensures
            *r == (Toast {
                id: old(self).next_id,
                ..old(self).shortcut_toast(caption, ToastLevel::Warning)
            }),
            old(self).added(*final(self), *final(r)),
            toast_wf(*final(r)) && final(r).id == old(self).next_id ==> toasts_wf(*final(self)),
    {
        let t = self.base_toast(caption).warning();
        self.add(t)
    }

    /// Shortcut for adding a toast with level `Error`.
    pub fn error(&mut self, caption: String) -> (r: &mut Toast)
        requires
            toasts_wf(*old(self)),
            old(self).next_id < u64::MAX,
        ensures
            *r == (Toast {
                id: old(self).next_id,
                ..old(self).shortcut_toast(caption, ToastLevel::Error)
            }),
            old(self).added(*final(self), *final(r)),
            toast_wf(*final(r)) && final(r).id == old(self).next_id ==> toasts_wf(*final(self)),
    {
        let t = self.base_toast(caption).error();
        self.add(t)
    }

    /// Shortcut for adding a toast that keeps the default level.
    pub fn basic(&mut self, caption: String) -> (r: &mut Toast)
        requires
            toasts_wf(*old(self)),
            old(self).next_id < u64::MAX,
        ensures
            *r == (Toast {
                id: old(self).next_id,
                ..old(self).shortcut_toast(caption, old(self).default_options.level)
            }),
            old(self).added(*final(self), *final(r)),
            toast_wf(*final(r)) && final(r).id == old(self).next_id ==> toasts_wf(*final(self)),
    {
        let t = self.base_toast(caption);
        self.add(t)
    }

    /// Dismisses the oldest toast, if any: the front of the sequence.
    pub fn dismiss_oldest_toast(&mut self)
        requires
            toasts_wf(*old(self)),
        ensures
            old(self).toasts@.len() == 0 ==> final(self).toasts@ == old(self).toasts@,
            old(self).toasts@.len() > 0 ==> final(self).toasts@ == old(self).toasts@.update(
                0,
                dismissed(old(self).toasts@[0]),
            ),
            unchanged_but_toasts(*old(self), *final(self)),
            toasts_wf(*final(self)),
    {
        if self.toasts.len() > 0 {
            let t = &mut self.toasts[0];
            t.dismiss();
        }
    }

    /// Dismisses the most recent toast, if any: the back of the sequence.
    pub fn dismiss_latest_toast(&mut self)
        requires
            toasts_wf(*old(self)),
        ensures
            old(self).toasts@.len() == 0 ==> final(self).toasts@ == old(self).toasts@,
            old(self).toasts@.len() > 0 ==> final(self).toasts@ == old(self).toasts@.update(
                old(self).toasts@.len() - 1,
                dismissed(old(self).toasts@.last()),
            ),
            unchanged_but_toasts(*old(self), *final(self)),
            toasts_wf(*final(self)),
    {
        let n = self.toasts.len();
        if n > 0 {
            let t = &mut self.toasts[n - 1];
            t.dismiss();
        }
    }

    /// Dismisses every toast: each jumps to `Disappearing` (those already
    /// `Disappeared` stay put) and counts down from its current progress.
    pub fn dismiss_all_toasts(&mut self)
        requires
            toasts_wf(*old(self)),
        ensures
            final(self).toasts@ == old(self).toasts@.map_values(|t: Toast| dismissed(t)),
            unchanged_but_toasts(*old(self), *final(self)),
            toasts_wf(*final(self)),
    {
        let n = self.toasts.len();
        let mut i: usize = 0;
        while i < n
            invariant
                toasts_wf(*old(self)),
                n == old(self).toasts@.len(),
                i <= n,
                self.toasts@.len() == n,
                forall|j: int|
                    0 <= j < i ==> self.toasts@[j] == dismissed(#[trigger] old(self).toasts@[j]),
                forall|j: int| i <= j < n ==> self.toasts@[j] == #[trigger] old(self).toasts@[j],
                unchanged_but_toasts(*old(self), *self),
            decreases n - i,
        {
            let t = &mut self.toasts[i];
            t.dismiss();
            i = i + 1;
        }
        proof {
            assert(self.toasts@ =~= old(self).toasts@.map_values(|t: Toast| dismissed(t)));
            assert forall|k: int| 0 <= k < self.toasts@.len() implies toast_wf(
                #[trigger] self.toasts@[k],
            ) && self.toasts@[k].id < self.next_id by {
                assert(self.toasts@[k] == dismissed(old(self).toasts@[k]));
            }
            assert forall|i1: int, j1: int| 0 <= i1 < j1 < self.toasts@.len() implies (
            #[trigger] self.toasts@[i1]).id != (#[trigger] self.toasts@[j1]).id by {
                assert(self.toasts@[i1] == dismissed(old(self).toasts@[i1]));
                assert(self.toasts@[j1] == dismissed(old(self).toasts@[j1]));
            }
        }
    }

    /// Should toasts be added in reverse order?
    pub fn reverse(self, reverse: bool) -> (c: Toasts)
        ensures
            c == (Toasts { reverse, ..self }),
    {
        let mut c = self;
        c.reverse = reverse;
        c
    }

    /// Where toasts should appear.
    pub fn with_anchor(self, anchor: Anchor) -> (c: Toasts)
        ensures
            c == (Toasts { anchor, ..self }),
    {
        let mut c = self;
        c.anchor = anchor;
        c
    }

    /// Sets spacing between adjacent toasts.
    pub fn with_spacing(self, spacing: i64) -> (c: Toasts)
        requires
            0 <= spacing <= GEOM_LIMIT,
        ensures
            c == (Toasts { spacing, ..self }),
    {
        let mut c = self;
        c.spacing = spacing;
        c
    }

    /// Margin, or distance from the viewport edge to the toasts' boxes.
    pub fn with_margin(self, margin: Vec2I) -> (c: Toasts)
        requires
            0 <= margin.x <= GEOM_LIMIT,
            0 <= margin.y <= GEOM_LIMIT,
        ensures
            c == (Toasts { margin, ..self }),
    {
        let mut c = self;
        c.margin = margin;
        c
    }

    /// Padding, or distance from the toasts' boxes to their contents.
    pub fn with_padding(self, padding: Vec2I) -> (c: Toasts)
        requires
            0 <= padding.x <= GEOM_LIMIT,
            0 <= padding.y <= GEOM_LIMIT,
        ensures
            c == (Toasts { padding, ..self }),
    {
        let mut c = self;
        c.padding = padding;
        c
    }
}

/// What the host sampled for one frame: the viewport, the time elapsed
/// since the previous frame, and the pointer's state.
pub struct FrameInput {
    /// Current viewport rectangle, in pixels.
    pub screen: RectI,
    /// Time since the previous frame, in milliseconds.
    pub dt_ms: u64,
    /// Where the pointer hovers, if it is over the viewport at all.
    pub hover: Option<Vec2I>,
    /// Where the pointer's primary button went down, while it is down.
    pub press: Option<Vec2I>,
    /// Was the primary button released this frame?
    pub released: bool,
}

/// A frame input the engine accepts: an ordered viewport within the
/// geometry bounds.
pub open spec fn input_wf(inp: FrameInput) -> bool {
    &&& rect_ordered(inp.screen@)
    &&& -GEOM_LIMIT <= inp.screen.min.x <= GEOM_LIMIT
    &&& -GEOM_LIMIT <= inp.screen.min.y <= GEOM_LIMIT
    &&& -GEOM_LIMIT <= inp.screen.max.x <= GEOM_LIMIT
    &&& -GEOM_LIMIT <= inp.screen.max.y <= GEOM_LIMIT
}

/// Which call a frame pass expects next for the toast at `index`.
#[derive(Clone, Copy, Debug, PartialEq, Eq, Structural)]
pub enum PassStage {
    /// The toast's update channel is to be drained.
    Drain,
    /// The toast is to be measured, laid out and advanced.
    Layout,
}

/// The running state of one frame over the collection, between
/// [`Toasts::begin_frame`] and [`Toasts::end_frame`].
///
/// The host treats it as read-only; it is advanced by the per-toast
/// calls.
pub struct FramePass {
    /// Time since the previous frame, in milliseconds.
    pub dt_ms: u64,
    /// Where the pointer hovers, if anywhere.
    pub hover: Option<Vec2I>,
    /// Where the pointer's primary button went down, while it is down.
    pub press: Option<Vec2I>,
    /// The running layout cursor the next toast is hung from.
    pub cursor: Vec2I,
    /// The toast the pass visits next.
    pub index: usize,
    /// How many toasts this frame visits.
    pub count: usize,
    /// The single toast to dismiss at the end of the frame, if any.
    pub pending_dismiss: Option<usize>,
    /// Does the host need to repaint continuously after this frame?
    pub repaint: bool,
    /// Which call comes next for the toast at `index`.
    pub stage: PassStage,
}

/// Well-formedness of a pass over a collection: the counts agree, the
/// index and any recorded dismissal are in range, and the cursor sits in
/// its working range.
pub open spec fn pass_wf(p: FramePass, c: Toasts) -> bool {
    &&& p.count == c.toasts@.len()
    &&& p.index <= p.count
    &&& match p.pending_dismiss {
        Some(i) => i < p.count,
        None => true,
    }
    &&& -2 * GEOM_LIMIT <= p.cursor.x <= 2 * GEOM_LIMIT
    &&& -CURSOR_LIMIT <= p.cursor.y <= CURSOR_LIMIT
}

/// A toast checked for expiry at the start of a frame: an idle toast
/// whose remaining duration has reached zero starts disappearing; every
/// other toast is left alone.
pub open spec fn expire_checked(t: Toast) -> Toast {
    match t.options.duration {
        Some((initial, remaining)) => if t.state is Idle && remaining == 0 {
            Toast { state: ToastState::Disappearing, ..t }
        } else {
            t
        },
        None => t,
    }
}

/// The toast sequence at the start of a frame: toasts that finished
/// disappearing are removed, and the remaining ones are checked for
/// expiry, in order.
pub open spec fn frame_prep(s: Seq<Toast>) -> Seq<Toast>
    decreases s.len(),
{
    if s.len() == 0 {
        Seq::empty()
    } else if s[0].state is Disappeared {
        frame_prep(s.drop_first())
    } else {
        seq![expire_checked(s[0])] + frame_prep(s.drop_first())
    }
}

/// What draining one toast's channel guarantees, whatever the producer
/// did: only the toast at the pass's index may change, and only to a
/// merged update or a handled disconnect; the pass moves to the layout
/// stage; a dismissal is recorded exactly when the channel disconnected
/// on a toast without fallback options.
pub open spec fn drain_post(pre: Toasts, post: Toasts, ppre: FramePass, ppost: FramePass) -> bool {
    let i = ppre.index as int;
    let t0 = pre.toasts@[i];
    &&& ppost.stage is Layout
    &&& ppost.index == ppre.index
    &&& ppost.count == ppre.count
    &&& ppost.cursor == ppre.cursor
    &&& ppost.dt_ms == ppre.dt_ms
    &&& ppost.hover == ppre.hover
    &&& ppost.press == ppre.press
    &&& ppost.repaint == ppre.repaint
    &&& unchanged_but_toasts(pre, post)
    &&& post.toasts@.len() == pre.toasts@.len()
    &&& forall|j: int| 0 <= j < pre.toasts@.len() && j != i ==> post.toasts@[j] == pre.toasts@[j]
    &&& if t0.subscription is None {
        post.toasts@[i] == t0 && ppost.pending_dismiss == ppre.pending_dismiss
    } else {
        ||| (post.toasts@[i] == t0 && ppost.pending_dismiss == ppre.pending_dismiss)
        ||| ((exists|u: ToastUpdate|
            post.toasts@[i] == crate::toast::update_applied(t0, u))
            && ppost.pending_dismiss == ppre.pending_dismiss)
        ||| (post.toasts@[i] == crate::toast::disconnect_applied(t0)
            && ppost.pending_dismiss == (if crate::toast::disconnect_dismisses(t0) {
            Some(ppre.index)
        } else {
            ppre.pending_dismiss
        }))
    }
}

/// The deterministic per-toast frame step, in full: given the toast
/// before the step, the frame pass, and the host's measurements, this
/// pins down the toast after the step, the pass bookkeeping, and every
/// field of the layout record handed back.
pub open spec fn frame_toast_post(
    pre: Toasts,
    post: Toasts,
    ppre: FramePass,
    ppost: FramePass,
    m: ToastMeasure,
    out: ToastFrame,
) -> bool {
    let i = ppre.index as int;
    let t0 = pre.toasts@[i];
    let t1 = timer_ticked(t0, ppre.dt_ms);
    let pad_x = pre.padding.x as int;
    let pad_y = pre.padding.y as int;
    let w = layout_width(t1, m, pad_x);
    let h = layout_height(t1, m, pad_y);
    let rect = toast_box(pre.anchor, ppre.cursor@, t1, m, pad_x, pad_y);
    let cw = cross_width_of(t1, m);
    let ch = cross_height_of(t1, m);
    let crect = cross_box(rect, w, h, cw, ch, pad_x);
    let closable = t1.options.closable;
    let hovered = match ppre.hover {
        Some(p) => rect_contains(rect, p@),
        None => t1.toast_hovered,
    };
    let crossed = match ppre.hover {
        Some(p) => closable && rect_contains(crect, p@),
        None => t1.cross_hovered,
    };
    let pressed = closable && !pre.held && (match ppre.press {
        Some(p) => rect_contains(crect, p@),
        None => false,
    });
    let t2 = Toast {
        width: w as i64,
        height: h as i64,
        toast_hovered: hovered,
        cross_hovered: crossed,
        ..t1
    };
    let t3 = animation_stepped(t2, ppre.dt_ms as int, pre.speed as int);
    &&& post.toasts@ == pre.toasts@.update(i, t3)
    &&& config_unchanged(pre, post)
    &&& post.next_id == pre.next_id
    &&& post.held == (pre.held || pressed)
    &&& ppost.pending_dismiss == (if pressed {
        Some(ppre.index)
    } else {
        ppre.pending_dismiss
    })
    &&& ppost.cursor@ == advanced_cursor(pre.anchor, ppre.cursor@, pre.spacing + h)
    &&& ppost.index == ppre.index + 1
    &&& ppost.count == ppre.count
    &&& ppost.dt_ms == ppre.dt_ms
    &&& ppost.hover == ppre.hover
    &&& ppost.press == ppre.press
    &&& ppost.stage is Drain
    &&& ppost.repaint == (ppre.repaint || timer_runs(t0) || t2.state is Appearing
        || t2.state is Disappearing)
    &&& out.id == t0.id
    &&& out.level == t1.options.level
    &&& out.rect@ == rect
    &&& out.border_width == (if t1.state is Disappearing {
        0int
    } else {
        1int
    })
    &&& out.progress_left == (match t1.options.duration {
        Some((initial, remaining)) => if t1.options.show_progress_bar && !(t1.state
            is Disappearing) && initial > 0 {
            Some(progress_left_of(rect.max.x, w, initial as int, remaining as int) as i64)
        } else {
            None
        },
        None => None,
    })
    &&& (match out.icon_pos {
        Some(p) => !(t1.options.level is NoLevel) && p@ == crate::layout::icon_point(
            rect,
            h,
            action_height_of(t1, m),
            pad_x,
        ),
        None => t1.options.level is NoLevel,
    })
    &&& out.caption_pos@ == caption_point(
        rect,
        w,
        h,
        m.caption_width as int,
        m.caption_height as int,
        action_width_of(t1, m),
        cw,
    )
    &&& (match out.cross_rect {
        Some(cr) => closable && cr@ == crect,
        None => !closable,
    })
    &&& out.toast_hovered == hovered
    &&& out.cross_hovered == crossed
}

/// Law: at every frame boundary, every toast's animation progress lies
/// within the scale `0 ..= VALUE_UNIT`.
pub proof fn lemma_value_in_range(c: Toasts, i: int)
    requires
        toasts_wf(c),
        0 <= i < c.toasts@.len(),
    ensures
        0 <= c.toasts@[i].value <= crate::state::VALUE_UNIT,
{
}

/// Law: an idle toast whose countdown has reached zero starts
/// disappearing at the very next frame start, whatever the pointer
/// does; [`Toasts::begin_frame`] applies [`expire_checked`] to every
/// surviving toast.
pub proof fn lemma_expiry_immediate(t: Toast)
    requires
        t.state is Idle,
        match t.options.duration {
            Some((initial, remaining)) => remaining == 0,
            None => false,
        },
    ensures
        expire_checked(t).state is Disappearing,
{
}

/// Is the toast due to expire: idle with nothing left on its countdown?
pub open spec fn expiry_due(t: Toast) -> bool {
    &&& t.state is Idle
    &&& match t.options.duration {
        Some((initial, remaining)) => remaining == 0,
        None => false,
    }
}

/// Law: no toast that is due to expire survives the start of a frame
/// still idle — after [`Toasts::begin_frame`], whose toast sequence is
/// `frame_prep` of the previous one, every such toast has moved on to
/// `Disappearing`.
pub proof fn lemma_no_expired_idle_survives(s: Seq<Toast>)
    ensures
        forall|k: int| 0 <= k < frame_prep(s).len() ==> !expiry_due(#[trigger] frame_prep(s)[k]),
    decreases s.len(),
{
    if s.len() > 0 {
        lemma_no_expired_idle_survives(s.drop_first());
        let rest = frame_prep(s.drop_first());
        if !(s[0].state is Disappeared) {
            assert forall|k: int| 0 <= k < frame_prep(s).len() implies !expiry_due(
                #[trigger] frame_prep(s)[k],
            ) by {
                if k == 0 {
                    assert(frame_prep(s)[0] == expire_checked(s[0]));
                } else {
                    assert(frame_prep(s)[k] == rest[k - 1]);
                }
            }
        }
    }
}

/// Removing one element keeps every per-element bound and the
/// distinctness of ids.
proof fn lemma_remove_keeps(s: Seq<Toast>, i: int, bound: u64)
    requires
        0 <= i < s.len(),
        ids_distinct(s),
        forall|k: int| 0 <= k < s.len() ==> toast_wf(#[trigger] s[k]),
        forall|k: int| 0 <= k < s.len() ==> (#[trigger] s[k]).id < bound,
    ensures
        ids_distinct(s.remove(i)),
        forall|k: int| 0 <= k < s.remove(i).len() ==> toast_wf(#[trigger] s.remove(i)[k]),
        forall|k: int| 0 <= k < s.remove(i).len() ==> (#[trigger] s.remove(i)[k]).id < bound,
{
    let r = s.remove(i);
    assert(forall|k: int|
        0 <= k < r.len() ==> #[trigger] r[k] == s[if k < i {
            k
        } else {
            k + 1
        }]);
    assert forall|a: int, b: int| 0 <= a < b < r.len() implies (#[trigger] r[a]).id != (
    #[trigger] r[b]).id by {
        let a2: int = if a < i {
            a
        } else {
            a + 1
        };
        let b2: int = if b < i {
            b
        } else {
            b + 1
        };
        assert(r[a] == s[a2]);
        assert(r[b] == s[b2]);
    }
}

/// Replacing one element with one of the same id that is still
/// well-formed keeps every collection invariant.
proof fn lemma_update_keeps(s: Seq<Toast>, i: int, t: Toast, bound: u64)
    requires
        0 <= i < s.len(),
        ids_distinct(s),
        forall|k: int| 0 <= k < s.len() ==> toast_wf(#[trigger] s[k]),
        forall|k: int| 0 <= k < s.len() ==> (#[trigger] s[k]).id < bound,
        t.id == s[i].id,
        toast_wf(t),
    ensures
        ids_distinct(s.update(i, t)),
        forall|k: int| 0 <= k < s.update(i, t).len() ==> toast_wf(#[trigger] s.update(i, t)[k]),
        forall|k: int| 0 <= k < s.update(i, t).len() ==> (#[trigger] s.update(i, t)[k]).id < bound,
{
    let r = s.update(i, t);
    assert forall|a: int, b: int| 0 <= a < b < r.len() implies (#[trigger] r[a]).id != (
    #[trigger] r[b]).id by {
        assert(r[a].id == s[a].id);
        assert(r[b].id == s[b].id);
    }
}

impl Toasts {
    /// Starts a frame: removes every toast that finished disappearing,
    /// starts disappearing every idle toast whose countdown ran out,
    /// releases the single-press guard on a button release, and hands
    /// back the pass that will walk the remaining toasts.
    pub fn begin_frame(&mut self, input: &FrameInput) -> (pass: FramePass)
        requires
            toasts_wf(*old(self)),
            input_wf(*input),
        ensures
            final(self).toasts@ == frame_prep(old(self).toasts@),
            final(self).held == (old(self).held && !input.released),
            config_unchanged(*old(self), *final(self)),
            final(self).next_id == old(self).next_id,
            toasts_wf(*final(self)),
            pass.dt_ms == input.dt_ms,
            pass.hover == input.hover,
            pass.press == input.press,
            pass.cursor@ == cursor_origin(old(self).anchor, input.screen@, old(self).margin@),
            pass.index == 0,
            pass.count == final(self).toasts@.len(),
            pass.pending_dismiss is None,
            pass.repaint == false,
            pass.stage is Drain,
            pass_wf(pass, *final(self)),
    {
        if input.released {
            self.held = false;
        }
        let ghost orig = self.toasts@;
        let mut i: usize = self.toasts.len();
        while i > 0
            invariant
                i <= orig.len(),
                self.toasts@ == orig.subrange(0, i as int) + frame_prep(orig.skip(i as int)),
                ids_distinct(self.toasts@),
                forall|k: int| 0 <= k < self.toasts@.len() ==> toast_wf(#[trigger] self.toasts@[k]),
                forall|k: int|
                    0 <= k < self.toasts@.len() ==> (#[trigger] self.toasts@[k]).id < self.next_id,
                config_unchanged(*old(self), *self),
                self.next_id == old(self).next_id,
                self.held == (old(self).held && !input.released),
            decreases i,
        {
            i = i - 1;
            let ghost pre = self.toasts@;
            proof {
                assert(pre[i as int] == orig[i as int]);
                assert(orig.skip(i as int)[0] == orig[i as int]);
                assert(orig.skip(i as int).drop_first() =~= orig.skip(i as int + 1));
            }
            if self.toasts[i].state.disappeared() {
                proof {
                    lemma_remove_keeps(pre, i as int, self.next_id);
                }
                self.toasts.remove(i);
                proof {
                    assert(self.toasts@ =~= orig.subrange(0, i as int) + frame_prep(
                        orig.skip(i as int),
                    ));
                }
            } else {
                let t = &mut self.toasts[i];
                match t.options.duration {
                    Some(d) => {
                        if d.1 == 0 && t.state.idling() {
                            t.state = ToastState::Disappearing;
                        }
                    }
                    None => {}
                }
                proof {
                    assert(self.toasts@[i as int] == expire_checked(orig[i as int]));
                    assert(self.toasts@ == pre.update(i as int, expire_checked(orig[i as int])));
                    lemma_update_keeps(
                        pre,
                        i as int,
                        expire_checked(orig[i as int]),
                        self.next_id,
                    );
                    assert(self.toasts@ =~= orig.subrange(0, i as int) + frame_prep(
                        orig.skip(i as int),
                    ));
                }
            }
        }
        proof {
            assert(orig.skip(0) =~= orig);
            assert(self.toasts@ =~= frame_prep(orig));
        }
        let cursor = self.anchor.pos_in_rect_with_margin(&input.screen, self.margin);
        let count = self.toasts.len();
        FramePass {
            dt_ms: input.dt_ms,
            hover: input.hover,
            press: input.press,
            cursor,
            index: 0,
            count,
            pending_dismiss: None,
            repaint: false,
            stage: PassStage::Drain,
        }
    }

    /// Drains the current toast's update channel: one non-blocking poll,
    /// if the toast is subscribed at all.  A received record is merged
    /// into the toast; a disconnect drops the subscription and either
    /// adopts the fallback options or records the toast for dismissal.
    ///
    /// What the poll returns depends on the producer, so the contract
    /// covers every outcome: either nothing changed, or some received
    /// record was merged, or the disconnect was handled.  A toast without
    /// a subscription (in particular one whose channel already
    /// disconnected) is always left alone.
    pub fn drain_channel(&mut self, pass: &mut FramePass)
        requires
            toasts_wf(*old(self)),
            pass_wf(*old(pass), *old(self)),
            old(pass).stage is Drain,
            old(pass).index < old(pass).count,
        ensures
            drain_post(*old(self), *final(self), *old(pass), *final(pass)),
            toasts_wf(*final(self)),
            pass_wf(*final(pass), *final(self)),
    {
        let i = pass.index;
        let outcome = match &self.toasts[i].subscription {
            Some(receiver) => Some(crate::channel::poll_update(receiver)),
            None => None,
        };
        let ghost pre = self.toasts@;
        match outcome {
            Some(crate::channel::PollOutcome::Received(update)) => {
                let t = &mut self.toasts[i];
                t.apply_update(update);
                proof {
                    lemma_update_keeps(pre, i as int, self.toasts@[i as int], self.next_id);
                }
            }
            Some(crate::channel::PollOutcome::Disconnected) => {
                let dismiss = {
                    let t = &mut self.toasts[i];
                    t.apply_disconnect()
                };
                if dismiss {
                    pass.pending_dismiss = Some(i);
                }
                proof {
                    lemma_update_keeps(pre, i as int, self.toasts@[i as int], self.next_id);
                }
            }
            Some(crate::channel::PollOutcome::Empty) => {}
            None => {}
        }
        pass.stage = PassStage::Layout;
    }

    /// Visits the current toast for the frame: lets its countdown see the
    /// elapsed time, lays its box out from the measured sizes, hit-tests
    /// the pointer against the box and the close icon, records a
    /// pointer-driven dismissal under the single-press guard, advances
    /// the entrance or exit animation, moves the layout cursor past the
    /// box, and hands back everything the host needs to paint the toast.
    ///
    /// The whole step is deterministic; [`frame_toast_post`] pins down
    /// every effect.
    #[verifier::rlimit(100)]
    pub fn frame_toast(&mut self, pass: &mut FramePass, m: &ToastMeasure) -> (out: ToastFrame)
        requires
            toasts_wf(*old(self)),
            pass_wf(*old(pass), *old(self)),
            old(pass).stage is Layout,
            old(pass).index < old(pass).count,
            measure_wf(*m),
        ensures
            frame_toast_post(*old(self), *final(self), *old(pass), *final(pass), *m, out),
            toasts_wf(*final(self)),
            pass_wf(*final(pass), *final(self)),
    {
        let i = pass.index;
        let dt = pass.dt_ms;
        let speed = self.speed;
        let pad_x = self.padding.x;
        let pad_y = self.padding.y;
        let spacing = self.spacing;
        let anchor = self.anchor;
        let ghost orig = self.toasts@;
        let ghost t0 = self.toasts@[i as int];

        // Countdown.
        let ticked = {
            let t = &mut self.toasts[i];
            t.tick_timer(dt)
        };
        let ghost t1 = self.toasts@[i as int];
        proof {
            assert(toast_wf(t1));
        }

        // Content facts.
        let closable = self.toasts[i].options.closable;
        let has_level = !matches!(self.toasts[i].options.level, crate::level::ToastLevel::NoLevel);
        let level = self.toasts[i].options.level;
        let id = self.toasts[i].id;
        let duration = self.toasts[i].options.duration;
        let show_progress = self.toasts[i].options.show_progress_bar;
        let disappearing = self.toasts[i].state.disappearing();
        let cross_w: i64 = if closable {
            m.cross_width
        } else {
            0
        };
        let cross_h: i64 = if closable {
            m.cross_height
        } else {
            0
        };
        let action_w: i64 = if has_level {
            m.icon_width
        } else {
            0
        };
        let action_h: i64 = if has_level {
            m.icon_height
        } else {
            0
        };

        // Box size and placement with the entrance slide.
        let size = crate::layout::box_size(&self.toasts[i], m, pad_x, pad_y);
        let w = size.0;
        let h = size.1;
        let rect = crate::layout::place_box(
            anchor,
            pass.cursor,
            &self.toasts[i],
            m,
            pad_x,
            pad_y,
            w,
            h,
        );

        // The close icon's rectangle.
        let crect = crate::layout::close_icon_box(rect, w, h, cross_w, cross_h, pad_x);

        // Hit testing.
        let hovered: bool;
        let crossed: bool;
        match pass.hover {
            Some(p) => {
                hovered = rect.contains(p);
                crossed = closable && crect.contains(p);
            }
            None => {
                hovered = self.toasts[i].toast_hovered;
                crossed = self.toasts[i].cross_hovered;
            }
        }
        {
            let t = &mut self.toasts[i];
            t.width = w;
            t.height = h;
            t.toast_hovered = hovered;
            t.cross_hovered = crossed;
        }
        let ghost t2 = self.toasts@[i as int];

        // Pointer-driven dismissal, one per press.
        let pressed = closable && !self.held && (match pass.press {
            Some(p) => crect.contains(p),
            None => false,
        });
        if pressed {
            pass.pending_dismiss = Some(i);
            self.held = true;
        }

        // Advance the layout cursor past this toast.
        anchor.offset_height(&mut pass.cursor, spacing + h);

        // Animation state machine.
        let animating = {
            let t = &mut self.toasts[i];
            t.advance_animation(dt, speed)
        };
        let ghost t3 = self.toasts@[i as int];

        // Pass bookkeeping.
        pass.repaint = pass.repaint || ticked || animating;
        pass.index = i + 1;
        pass.stage = PassStage::Drain;

        // The layout record for the host.
        let progress_left: Option<i64> = match duration {
            Some((initial, remaining)) => {
                if show_progress && !disappearing && initial > 0 {
                    Some(crate::layout::progress_bar_left(rect.max.x, w, initial, remaining))
                } else {
                    None
                }
            }
            None => None,
        };
        let icon_pos: Option<Vec2I> = if has_level {
            Some(crate::layout::icon_point_in(rect, h, action_h, pad_x))
        } else {
            None
        };
        let caption_pos = crate::layout::caption_point_in(
            rect,
            w,
            h,
            m.caption_width,
            m.caption_height,
            action_w,
            cross_w,
        );
        let border_width: i64 = if disappearing {
            0
        } else {
            1
        };
        proof {
            assert(self.toasts@ =~= orig.update(i as int, t3));
            lemma_update_keeps(orig, i as int, t3, self.next_id);
        }
        ToastFrame {
            id,
            level,
            rect,
            border_width,
            progress_left,
            icon_pos,
            caption_pos,
            cross_rect: if closable {
                Some(crect)
            } else {
                None
            },
            toast_hovered: hovered,
            cross_hovered: crossed,
        }
    }

    /// Ends a frame: applies the single recorded dismissal, if any, and
    /// reports whether the host must keep repainting.
    pub fn end_frame(&mut self, pass: FramePass) -> (repaint: bool)
        requires
            toasts_wf(*old(self)),
            pass_wf(pass, *old(self)),
            pass.stage is Drain,
            pass.index == pass.count,
        ensures
            repaint == pass.repaint,
            match pass.pending_dismiss {
                Some(i) => final(self).toasts@ == old(self).toasts@.update(
                    i as int,
                    dismissed(old(self).toasts@[i as int]),
                ),
                None => final(self).toasts@ == old(self).toasts@,
            },
            unchanged_but_toasts(*old(self), *final(self)),
            toasts_wf(*final(self)),
    {
        match pass.pending_dismiss {
            Some(i) => {
                proof {
                    lemma_update_keeps(
                        old(self).toasts@,
                        i as int,
                        dismissed(old(self).toasts@[i as int]),
                        self.next_id,
                    );
                }
                let t = &mut self.toasts[i];
                t.dismiss();
            }
            None => {}
        }
        pass.repaint
    }
}

impl Default for Toasts {
    /// Same as [`Toasts::new`].
    fn default() -> (c: Toasts)
        ensures
            c.anchor == Anchor::BottomRight,
            c.default_options == default_options(),
            c.toasts@.len() == 0,
            c.margin == (Vec2I { x: 8, y: 8 }),
            c.spacing == 8,
            c.padding == (Vec2I { x: 10, y: 10 }),
            c.reverse == false,
            c.speed == SPEED_DEFAULT,
            c.held == false,
            c.next_id == 0,
            toasts_wf(c),
    {
        Toasts::new()
    }
}

/// The collection's configuration is equal: anchor, defaults and layout
/// parameters.
pub open spec fn config_unchanged(a: Toasts, b: Toasts) -> bool {
    &&& b.anchor == a.anchor
    &&& b.default_options == a.default_options
    &&& b.margin == a.margin
    &&& b.spacing == a.spacing
    &&& b.padding == a.padding
    &&& b.reverse == a.reverse
    &&& b.speed == a.speed
}

/// Everything of the collection except the toast sequence is equal.
pub open spec fn unchanged_but_toasts(a: Toasts, b: Toasts) -> bool {
    &&& config_unchanged(a, b)
    &&& b.held == a.held
    &&& b.next_id == a.next_id
}

} // verus!
