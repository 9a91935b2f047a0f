//! Option templates for toasts and the records a live toast can receive
//! over its update channel.

use vstd::prelude::*;
use crate::level::ToastLevel;

verus! {

/// Default auto-expiry countdown of a new toast, in milliseconds.
pub const DEFAULT_DURATION_MS: u64 = 3500;

/// Value object holding a toast's behavioral options.
///
/// `duration` is `Some((initial, remaining))`, both in milliseconds, or
/// `None` for a toast that never expires on its own.
#[derive(Clone, Copy, Debug)]
pub struct ToastOptions {
    /// Auto-expiry countdown as `(initial, remaining)` milliseconds.
    pub duration: Option<(u64, u64)>,
    /// Importance level, driving color and icon.
    pub level: ToastLevel,
    /// May the user dismiss the toast with its close icon?
    pub closable: bool,
    /// Should the remaining duration be drawn as a progress bar?
    pub show_progress_bar: bool,
}

/// A well-formed option set never remembers more remaining time than it
/// started with.
pub open spec fn options_wf(o: ToastOptions) -> bool {
    match o.duration {
        Some((initial, remaining)) => remaining <= initial,
        None => true,
    }
}

impl ToastOptions {
    /// Arm the countdown: the toast will expire `duration_ms` milliseconds
    /// after it settles, counted only while it is idle and unhovered.
    pub fn set_duration(&mut self, duration_ms: u64)
        ensures
            final(self).duration == Some((duration_ms, duration_ms)),
            final(self).level == old(self).level,
            final(self).closable == old(self).closable,
            final(self).show_progress_bar == old(self).show_progress_bar,
            options_wf(*final(self)),
    {
        self.duration = Some((duration_ms, duration_ms));
    }
}

/// The default option template: expires after `DEFAULT_DURATION_MS`,
/// closable, with a progress bar and no level.
pub open spec fn default_options() -> ToastOptions {
    ToastOptions {
        duration: Some((DEFAULT_DURATION_MS, DEFAULT_DURATION_MS)),
        level: ToastLevel::NoLevel,
        closable: true,
        show_progress_bar: true,
    }
}

impl Default for ToastOptions {
    /// The default template: expires after `DEFAULT_DURATION_MS`, closable,
    /// with a progress bar and no level.
    fn default() -> (o: ToastOptions)
        ensures
            o == default_options(),
            options_wf(o),
    {
        ToastOptions {
            duration: Some((DEFAULT_DURATION_MS, DEFAULT_DURATION_MS)),
            level: ToastLevel::NoLevel,
            closable: true,
            show_progress_bar: true,
        }
    }
}

/// A content change pushed into a live toast over its update channel.
///
/// Each `Some` field is merged into the toast on receipt; `None` fields
/// leave the toast untouched.
pub struct ToastUpdate {
    /// Replacement caption, if any.
    pub caption: Option<String>,
    /// Replacement level, if any.
    pub level: Option<ToastLevel>,
    /// Options the toast falls back to once the channel disconnects.
    pub fallback_options: Option<ToastOptions>,
    /// Ask the toast to fall back to its creation-time options instead.
    pub use_original_options: bool,
}

impl ToastUpdate {
    /// An update that replaces the caption and nothing else.
    pub fn caption(caption: String) -> (u: ToastUpdate)
        ensures
            u.caption == Some(caption),
            u.level is None,
            u.fallback_options is None,
            u.use_original_options == false,
    {
        ToastUpdate {
            use_original_options: false,
            caption: Some(caption),
            fallback_options: None,
            level: None,
        }
    }

    /// A caption update at level `Success`.
    pub fn success(caption: String) -> (u: ToastUpdate)
        ensures
            u.caption == Some(caption),
            u.level == Some(ToastLevel::Success),
            u.fallback_options is None,
            u.use_original_options == false,
    {
        Self::caption(caption).with_level(ToastLevel::Success)
    }

    /// A caption update at level `Error`.
    pub fn error(caption: String) -> (u: ToastUpdate)
        ensures
            u.caption == Some(caption),
            u.level == Some(ToastLevel::Error),
            u.fallback_options is None,
            u.use_original_options == false,
    {
        Self::caption(caption).with_level(ToastLevel::Error)
    }

    /// A caption update at level `Warning`.
    pub fn warning(caption: String) -> (u: ToastUpdate)
        ensures
            u.caption == Some(caption),
            u.level == Some(ToastLevel::Warning),
            u.fallback_options is None,
            u.use_original_options == false,
    {
        Self::caption(caption).with_level(ToastLevel::Warning)
    }

    /// A caption update at level `Info`.
    pub fn info(caption: String) -> (u: ToastUpdate)
        ensures
            u.caption == Some(caption),
            u.level == Some(ToastLevel::Info),
            u.fallback_options is None,
            u.use_original_options == false,
    {
        Self::caption(caption).with_level(ToastLevel::Info)
    }

    /// Set the update's level; a fallback option set already attached to
    /// the update is re-colored to the same level.
    pub fn with_level(self, level: ToastLevel) -> (u: ToastUpdate)
        ensures
            u.caption == self.caption,
            u.level == Some(level),
            u.use_original_options == self.use_original_options,
            match self.fallback_options {
                Some(fo) => u.fallback_options == Some(ToastOptions { level, ..fo }),
                None => u.fallback_options is None,
            },
    {
        let mut u = self;
        u.level = Some(level);
        match &mut u.fallback_options {
            Some(fo) => {
                fo.level = level;
            }
            None => {}
        }
        u
    }

    /// Mark the update as falling back to the toast's creation-time options.
    pub fn with_original_options(self) -> (u: ToastUpdate)
        ensures
            u.caption == self.caption,
            u.level == self.level,
            u.fallback_options == self.fallback_options,
            u.use_original_options == true,
    {
        let mut u = self;
        u.use_original_options = true;
        u
    }

    /// Attach the options the toast reverts to when the channel
    /// disconnects; a level already set on the update wins over the one in
    /// `fallback_options`.
    pub fn with_fallback_options(self, fallback_options: ToastOptions) -> (u: ToastUpdate)
        ensures
            u.caption == self.caption,
            u.level == self.level,
            u.use_original_options == self.use_original_options,
            match self.level {
                Some(level) => u.fallback_options == Some(
                    ToastOptions { level, ..fallback_options },
                ),
                None => u.fallback_options == Some(fallback_options),
            },
    {
        let mut u = self;
        let mut fo = fallback_options;
        match u.level {
            Some(level) => {
                fo.level = level;
            }
            None => {}
        }
        u.fallback_options = Some(fo);
        u
    }
}

} // verus!
