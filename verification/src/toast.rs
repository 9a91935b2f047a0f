//! A single notification entity and its per-frame behavior.

use vstd::prelude::*;
use crate::anchor::SIZE_LIMIT;
use crate::anchor::Vec2I;
use crate::channel::channel_unbounded;
use crate::level::ToastLevel;
use crate::options::ToastOptions;
use crate::options::ToastUpdate;
use crate::options::options_wf;
use crate::state::ToastState;
use crate::state::VALUE_UNIT;

verus! {

/// Width, in pixels, a toast's box starts with before its first layout.
pub const TOAST_WIDTH: i64 = 180;

/// Height, in pixels, a toast's box starts with before its first layout.
pub const TOAST_HEIGHT: i64 = 34;

/// Single notification, or *toast*.
///
/// The fields are public so that a host adapter and tests can observe
/// them; they are meant to be written only through the methods here and
/// through the owning collection's frame pass, which keep [`toast_wf`].
pub struct Toast {
    /// Text content; may span several lines.
    pub caption: String,
    /// Current, live options.
    pub options: ToastOptions,
    /// Snapshot of the options at creation.
    pub original_options: ToastOptions,
    /// Options adopted when the update channel disconnects, if any.
    pub fallback_options: Option<ToastOptions>,
    /// Cached box height from the most recent layout, in pixels.
    pub height: i64,
    /// Cached box width from the most recent layout, in pixels.
    pub width: i64,
    /// Was the pointer over the toast's box at the last hit test?
    pub toast_hovered: bool,
    /// Was the pointer over the close icon at the last hit test?
    pub cross_hovered: bool,
    /// Creation id, assigned by the owning collection; unique among its
    /// toasts and usable as a stable animation key.
    pub id: u64,
    /// Receiving end of the update channel, if the toast is live-updated.
    pub subscription: Option<crossbeam_channel::Receiver<ToastUpdate>>,
    /// Lifecycle state.
    pub state: ToastState,
    /// Animation progress on the scale `0 ..= VALUE_UNIT`.
    pub value: u64,
}

/// Well-formedness of a toast: animation progress on its scale, countdown
/// never above its initial value, cached box within the layout bounds.
pub open spec fn toast_wf(t: Toast) -> bool {
    &&& t.value <= VALUE_UNIT
    &&& options_wf(t.options)
    &&& options_wf(t.original_options)
    &&& match t.fallback_options {
        Some(o) => options_wf(o),
        None => true,
    }
    &&& 0 <= t.width <= SIZE_LIMIT
    &&& 0 <= t.height <= SIZE_LIMIT
}

/// `a - b`, stopping at zero.
pub open spec fn sat_sub(a: u64, b: u64) -> u64 {
    if a >= b {
        (a - b) as u64
    } else {
        0
    }
}

/// The value a fresh toast starts from: `Appearing` at zero progress,
/// the default box size, no subscription and no id yet.
pub open spec fn fresh_toast(caption: String, options: ToastOptions, original: ToastOptions) -> Toast {
    Toast {
        caption,
        options,
        original_options: original,
        fallback_options: None,
        height: TOAST_HEIGHT,
        width: TOAST_WIDTH,
        toast_hovered: false,
        cross_hovered: false,
        id: 0,
        subscription: None,
        state: ToastState::Appearing,
        value: 0,
    }
}

/// An option set with its countdown forced back into shape: a remaining
/// time above the initial one is cut down to it.
pub open spec fn options_clamped(o: ToastOptions) -> ToastOptions {
    match o.duration {
        Some((initial, remaining)) => if remaining <= initial {
            o
        } else {
            ToastOptions { duration: Some((initial, initial)), ..o }
        },
        None => o,
    }
}

/// An update record merged into a toast: each present field replaces the
/// toast's, each absent field leaves it alone.  Fallback options arriving
/// over the channel are clamped into shape on the way in.
pub open spec fn update_applied(t: Toast, u: ToastUpdate) -> Toast {
    Toast {
        caption: match u.caption {
            Some(c) => c,
            None => t.caption,
        },
        fallback_options: match u.fallback_options {
            Some(f) => Some(options_clamped(f)),
            None => t.fallback_options,
        },
        options: ToastOptions {
            level: match u.level {
                Some(l) => l,
                None => t.options.level,
            },
            ..t.options
        },
        ..t
    }
}

/// A channel disconnect handled: the subscription is dropped, and options
/// supplied as fallback (if any) replace the live ones wholesale.
pub open spec fn disconnect_applied(t: Toast) -> Toast {
    match t.fallback_options {
        Some(fo) => Toast { options: fo, fallback_options: None, subscription: None, ..t },
        None => Toast { subscription: None, ..t },
    }
}

/// Does a disconnect schedule the toast for dismissal?  Only when no
/// fallback options were ever supplied.
pub open spec fn disconnect_dismisses(t: Toast) -> bool {
    t.fallback_options is None
}

/// Does the expiry countdown run this frame?  Only while the toast is
/// idle, unhovered and has a duration at all.
pub open spec fn timer_runs(t: Toast) -> bool {
    &&& t.options.duration is Some
    &&& t.state is Idle
    &&& !t.toast_hovered
}

/// The toast after its countdown saw `dt` milliseconds pass.
pub open spec fn timer_ticked(t: Toast, dt: u64) -> Toast {
    match t.options.duration {
        Some((initial, remaining)) => if t.state is Idle && !t.toast_hovered {
            Toast {
                options: ToastOptions {
                    duration: Some((initial, sat_sub(remaining, dt))),
                    ..t.options
                },
                ..t
            }
        } else {
            t
        },
        None => t,
    }
}

/// Animation progress gained over `dt` milliseconds at `speed`
/// (thousandths of full progress per second).
pub open spec fn anim_delta(dt: int, speed: int) -> int {
    dt * speed / 1000
}

/// One step of the animation state machine: an appearing toast grows its
/// value and settles into `Idle` at full progress; a disappearing toast
/// shrinks it and ends `Disappeared` at zero; other states hold still.
pub open spec fn animation_stepped(t: Toast, dt: int, speed: int) -> Toast {
    let d = anim_delta(dt, speed);
    if t.state is Appearing {
        if t.value + d >= VALUE_UNIT {
            Toast { value: VALUE_UNIT, state: ToastState::Idle, ..t }
        } else {
            Toast { value: (t.value + d) as u64, ..t }
        }
    } else if t.state is Disappearing {
        if d >= t.value {
            Toast { value: 0, state: ToastState::Disappeared, ..t }
        } else {
            Toast { value: (t.value - d) as u64, ..t }
        }
    } else {
        t
    }
}

/// A dismissal: any non-terminal state jumps to `Disappearing`; a toast
/// already gone stays gone.
pub open spec fn dismissed(t: Toast) -> Toast {
    if t.state is Disappeared {
        t
    } else {
        Toast { state: ToastState::Disappearing, ..t }
    }
}

/// Law: the lifecycle only moves forward.  Every transformation a frame
/// can apply to a toast — the expiry check, a merged channel update, a
/// handled disconnect, the countdown tick, the animation step and an
/// explicit dismissal — keeps its state or advances it along
/// `Appearing -> Idle -> Disappearing -> Disappeared`; none ever moves
/// it back.  In particular a dismissed toast re-enters `Disappearing`,
/// never `Idle`.
pub proof fn lemma_lifecycle_forward(t: Toast, u: ToastUpdate, dt: u64, dti: int, speed: int)
    ensures
        crate::state::state_advances(t.state, crate::collection::expire_checked(t).state),
        crate::state::state_advances(t.state, update_applied(t, u).state),
        crate::state::state_advances(t.state, disconnect_applied(t).state),
        crate::state::state_advances(t.state, timer_ticked(t, dt).state),
        crate::state::state_advances(t.state, animation_stepped(t, dti, speed).state),
        crate::state::state_advances(t.state, dismissed(t).state),
        dismissed(t).state is Disappearing || dismissed(t).state is Disappeared,
{
}

/// The countdown of `o` forced back into shape, executably.
fn clamp_options(o: ToastOptions) -> (r: ToastOptions)
    ensures
        r == options_clamped(o),
        crate::options::options_wf(r),
{
    match o.duration {
        Some((initial, remaining)) => if remaining <= initial {
            o
        } else {
            ToastOptions { duration: Some((initial, initial)), ..o }
        },
        None => o,
    }
}

impl Toast {
    /// A new toast with the given caption and options, in `Appearing`
    /// state at zero progress.  Its creation id is assigned when it joins
    /// a collection.
    pub(crate) fn new(caption: String, options: ToastOptions) -> (t: Toast)
        ensures
            t.caption == caption,
            t.options == options,
            t.original_options == options,
            t.fallback_options is None,
            t.height == TOAST_HEIGHT,
            t.width == TOAST_WIDTH,
            t.toast_hovered == false,
            t.cross_hovered == false,
            t.id == 0,
            t.subscription is None,
            t.state is Appearing,
            t.value == 0,
            t == fresh_toast(caption, options, options),
            options_wf(options) ==> toast_wf(t),
    {
        Toast {
            caption,
            height: TOAST_HEIGHT,
            width: TOAST_WIDTH,
            original_options: options,
            options,
            toast_hovered: false,
            cross_hovered: false,
            id: 0,
            subscription: None,
            state: ToastState::Appearing,
            value: 0,
            fallback_options: None,
        }
    }

    /// A new toast with the default options.
    pub fn basic(caption: String) -> (t: Toast)
        ensures
            t.caption == caption,
            t.options.duration == Some(
                (crate::options::DEFAULT_DURATION_MS, crate::options::DEFAULT_DURATION_MS),
            ),
            t.options.level == ToastLevel::NoLevel,
            t.options.closable == true,
            t.options.show_progress_bar == true,
            t.original_options == t.options,
            t.fallback_options is None,
            t.height == TOAST_HEIGHT,
            t.width == TOAST_WIDTH,
            t.toast_hovered == false,
            t.cross_hovered == false,
            t.id == 0,
            t.subscription is None,
            t.state is Appearing,
            t.value == 0,
            t == fresh_toast(
                caption,
                crate::options::default_options(),
                crate::options::default_options(),
            ),
            toast_wf(t),
    {
        Self::new(caption, ToastOptions::default())
    }

    /// The toast re-leveled `Success`.
    pub fn success(self) -> (t: Toast)
        ensures
            t == (Toast {
                options: ToastOptions { level: ToastLevel::Success, ..self.options },
                ..self
            }),
    {
        let mut t = self;
        t.options.level = ToastLevel::Success;
        t
    }

    /// The toast re-leveled `Info`.
    pub fn info(self) -> (t: Toast)
        ensures
            t == (Toast {
                options: ToastOptions { level: ToastLevel::Info, ..self.options },
                ..self
            }),
    {
        let mut t = self;
        t.options.level = ToastLevel::Info;
        t
    }

    /// The toast re-leveled `Warning`.
    pub fn warning(self) -> (t: Toast)
        ensures
            t == (Toast {
                options: ToastOptions { level: ToastLevel::Warning, ..self.options },
                ..self
            }),
    {
        let mut t = self;
        t.options.level = ToastLevel::Warning;
        t
    }

    /// The toast re-leveled `Error`.
    pub fn error(self) -> (t: Toast)
        ensures
            t == (Toast {
                options: ToastOptions { level: ToastLevel::Error, ..self.options },
                ..self
            }),
    {
        let mut t = self;
        t.options.level = ToastLevel::Error;
        t
    }

    /// The toast with its live options replaced by `options`.
    pub fn with_options(self, options: &ToastOptions) -> (t: Toast)
        ensures
            t == (Toast { options: *options, ..self }),
    {
        let mut t = self;
        t.options = *options;
        t
    }

    /// Change the level of the toast.
    pub fn set_level(&mut self, level: ToastLevel) -> (r: &mut Toast)
        ensures
            *r == (Toast {
                options: ToastOptions { level, ..old(self).options },
                ..*old(self)
            }),
            *final(self) == *final(r),
    {
        self.options.level = level;
        self
    }

    /// Choose whether the user can close the toast.
    pub fn set_closable(&mut self, closable: bool) -> (r: &mut Toast)
        ensures
            *r == (Toast {
                options: ToastOptions { closable, ..old(self).options },
                ..*old(self)
            }),
            *final(self) == *final(r),
    {
        self.options.closable = closable;
        self
    }

    /// Choose whether the remaining duration is drawn as a progress bar.
    pub fn set_show_progress_bar(&mut self, show_progress_bar: bool) -> (r: &mut Toast)
        ensures
            *r == (Toast {
                options: ToastOptions { show_progress_bar, ..old(self).options },
                ..*old(self)
            }),
            *final(self) == *final(r),
    {
        self.options.show_progress_bar = show_progress_bar;
        self
    }

    /// In what time should the toast expire, in milliseconds?  `None`
    /// keeps it alive until dismissed.
    pub fn set_duration(&mut self, duration_ms: Option<u64>) -> (r: &mut Toast)
        ensures
            *r == (Toast {
                options: ToastOptions {
                    duration: match duration_ms {
                        Some(d) => Some((d, d)),
                        None => None,
                    },
                    ..old(self).options
                },
                ..*old(self)
            }),
            *final(self) == *final(r),
    {
        match duration_ms {
            Some(d) => {
                self.options.duration = Some((d, d));
            }
            None => {
                self.options.duration = None;
            }
        }
        self
    }

    /// Override the cached box height.
    pub fn set_height(&mut self, height: i64) -> (r: &mut Toast)
        requires
            0 <= height <= SIZE_LIMIT,
        ensures
            *r == (Toast { height, ..*old(self) }),
            *final(self) == *final(r),
    {
        self.height = height;
        self
    }

    /// Override the cached box width.
    pub fn set_width(&mut self, width: i64) -> (r: &mut Toast)
        requires
            0 <= width <= SIZE_LIMIT,
        ensures
            *r == (Toast { width, ..*old(self) }),
            *final(self) == *final(r),
    {
        self.width = width;
        self
    }

    /// Dismiss this toast: any non-terminal state jumps straight to
    /// `Disappearing`; a toast already `Disappeared` stays put.
    pub fn dismiss(&mut self)
        ensures
            *final(self) == dismissed(*old(self)),
            crate::state::state_advances(old(self).state, final(self).state),
    {
        if !self.state.disappeared() {
            self.state = ToastState::Disappearing;
        }
    }

    /// The toast's cached box size.
    pub fn size(&self) -> (s: Vec2I)
        ensures
            s.x == self.width,
            s.y == self.height,
    {
        Vec2I { x: self.width, y: self.height }
    }

    /// Bind the toast to a fresh update channel and hand back the sending
    /// half.  Binding immediately disables duration-based expiry and
    /// closability: a live-updated toast belongs to its producer.
    pub fn create_channel(&mut self) -> (sender: crossbeam_channel::Sender<ToastUpdate>)
        ensures
            final(self).options.duration is None,
            final(self).options.closable == false,
            final(self).options.level == old(self).options.level,
            final(self).options.show_progress_bar == old(self).options.show_progress_bar,
            final(self).subscription is Some,
            final(self).caption == old(self).caption,
            final(self).original_options == old(self).original_options,
            final(self).fallback_options == old(self).fallback_options,
            final(self).height == old(self).height,
            final(self).width == old(self).width,
            final(self).toast_hovered == old(self).toast_hovered,
            final(self).cross_hovered == old(self).cross_hovered,
            final(self).id == old(self).id,
            final(self).state == old(self).state,
            final(self).value == old(self).value,
            toast_wf(*old(self)) ==> toast_wf(*final(self)),
    {
        let pair = channel_unbounded();
        self.options.duration = None;
        self.options.closable = false;
        self.subscription = Some(pair.1);
        pair.0
    }

    /// Merge a received update record into the toast.
    pub fn apply_update(&mut self, update: ToastUpdate)
        ensures
            *final(self) == update_applied(*old(self), update),
            toast_wf(*old(self)) ==> toast_wf(*final(self)),
    {
        let ToastUpdate { caption, level, fallback_options, use_original_options: _ } = update;
        match caption {
            Some(c) => {
                self.caption = c;
            }
            None => {}
        }
        match fallback_options {
            Some(f) => {
                self.fallback_options = Some(clamp_options(f));
            }
            None => {}
        }
        match level {
            Some(l) => {
                self.options.level = l;
            }
            None => {}
        }
    }

    /// Handle the channel's disconnect: drop the subscription, adopt the
    /// fallback options if any were supplied, and report whether the
    /// toast should be scheduled for dismissal instead.
    pub fn apply_disconnect(&mut self) -> (dismiss: bool)
        ensures
            *final(self) == disconnect_applied(*old(self)),
            dismiss == disconnect_dismisses(*old(self)),
            final(self).subscription is None,
            toast_wf(*old(self)) ==> toast_wf(*final(self)),
    {
        self.subscription = None;
        let fo = self.fallback_options;
        self.fallback_options = None;
        match fo {
            Some(options) => {
                self.options = options;
                false
            }
            None => true,
        }
    }

    /// Let the expiry countdown see `dt` milliseconds pass; it only runs
    /// while the toast is idle, unhovered and has a duration, and it
    /// stops at zero.
    pub fn tick_timer(&mut self, dt: u64) -> (ticked: bool)
        ensures
            *final(self) == timer_ticked(*old(self), dt),
            ticked == timer_runs(*old(self)),
            toast_wf(*old(self)) ==> toast_wf(*final(self)),
    {
        match self.options.duration {
            Some((initial, remaining)) => {
                if matches!(self.state, ToastState::Idle) && !self.toast_hovered {
                    let left: u64 = if remaining >= dt {
                        remaining - dt
                    } else {
                        0
                    };
                    self.options.duration = Some((initial, left));
                    true
                } else {
                    false
                }
            }
            None => false,
        }
    }

    /// One step of the animation state machine over `dt` milliseconds at
    /// `speed` thousandths of full progress per second; reports whether
    /// the toast was animating at all (and so needs a repaint).
    pub fn advance_animation(&mut self, dt: u64, speed: u64) -> (animating: bool)
        requires
            old(self).value <= VALUE_UNIT,
        ensures
            *final(self) == animation_stepped(*old(self), dt as int, speed as int),
            animating == (old(self).state is Appearing || old(self).state is Disappearing),
            final(self).value <= VALUE_UNIT,
            crate::state::state_advances(old(self).state, final(self).state),
    {
        proof {
            assert((dt as int) * (speed as int) < 0x100000000000000000000000000000000)
                by (nonlinear_arith)
                requires
                    dt < 0x10000000000000000 && speed < 0x10000000000000000,
            ;
            assert(0 <= (dt as int) * (speed as int)) by (nonlinear_arith)
                requires
                    0 <= dt && 0 <= speed,
            ;
        }
        let prod: u128 = (dt as u128) * (speed as u128);
        let d: u128 = prod / 1000;
        if self.state.appearing() {
            if d >= ((VALUE_UNIT - self.value) as u128) {
                self.value = VALUE_UNIT;
                self.state = ToastState::Idle;
            } else {
                self.value = self.value + (d as u64);
            }
            true
        } else if self.state.disappearing() {
            if d >= (self.value as u128) {
                self.value = 0;
                self.state = ToastState::Disappeared;
            } else {
                self.value = self.value - (d as u64);
            }
            true
        } else {
            false
        }
    }
}

} // verus!
