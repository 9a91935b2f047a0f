//! Transient-notification ("toast") engine for an immediate-mode GUI.
//!
//! The crate owns a small ordered collection of short-lived messages,
//! animates their appearance and disappearance, positions them relative to
//! a screen anchor, times their expiry, and resolves pointer-driven
//! dismissal.  All coordinates and times are integers: screen geometry is
//! in whole pixels, durations are in milliseconds, and animation progress
//! runs over the fixed scale `0 ..= VALUE_UNIT`.  A host adapter feeds the
//! engine measured text sizes and pointer state each frame and paints from
//! the layout records it returns.

mod anchor;
mod channel;
mod collection;
mod layout;
mod level;
mod options;
mod state;
mod toast;

pub use anchor::Anchor;
pub use anchor::RectI;
pub use anchor::Vec2I;
pub use anchor::CURSOR_LIMIT;
pub use anchor::GEOM_LIMIT;
pub use anchor::SIZE_LIMIT;
pub use collection::FrameInput;
pub use collection::FramePass;
pub use collection::PassStage;
pub use collection::Toasts;
pub use layout::ToastFrame;
pub use layout::ToastMeasure;
pub use layout::line_count;
pub use level::Color;
pub use level::ToastLevel;
pub use level::lighter;
pub use options::ToastOptions;
pub use options::ToastUpdate;
pub use state::ToastState;
pub use state::VALUE_UNIT;
pub use toast::Toast;
