//! The per-toast lifecycle state machine.

use vstd::prelude::*;

verus! {

/// Animation progress runs over `0 ..= VALUE_UNIT`: `0` is fully hidden,
/// `VALUE_UNIT` fully shown.
pub const VALUE_UNIT: u64 = 1000;

/// Lifecycle state of a toast.
///
/// A toast starts `Appearing`, settles into `Idle` once its entrance
/// animation completes, shrinks away as `Disappearing`, and ends
/// `Disappeared`, at which point the owning collection removes it.
#[derive(Clone, Copy, Debug, PartialEq, Eq, Structural)]
pub enum ToastState {
    Appearing,
    Idle,
    Disappearing,
    Disappeared,
}

/// Position of a state along the lifecycle
/// `Appearing -> Idle -> Disappearing -> Disappeared`.
pub open spec fn state_rank(s: ToastState) -> int {
    match s {
        ToastState::Appearing => 0,
        ToastState::Idle => 1,
        ToastState::Disappearing => 2,
        ToastState::Disappeared => 3,
    }
}

/// The lifecycle only moves forward: a state may be followed by itself or
/// by a later state, never by an earlier one.
pub open spec fn state_advances(before: ToastState, after: ToastState) -> bool {
    state_rank(before) <= state_rank(after)
}

impl ToastState {
    /// Is the toast playing its entrance animation?
    pub fn appearing(&self) -> (b: bool)
        ensures
            b == (*self is Appearing),
    {
        matches!(self, ToastState::Appearing)
    }

    /// Is the toast playing its exit animation?
    pub fn disappearing(&self) -> (b: bool)
        ensures
            b == (*self is Disappearing),
    {
        matches!(self, ToastState::Disappearing)
    }

    /// Has the toast finished disappearing and awaits removal?
    pub fn disappeared(&self) -> (b: bool)
        ensures
            b == (*self is Disappeared),
    {
        matches!(self, ToastState::Disappeared)
    }

    /// Is the toast fully shown and holding still?
    pub fn idling(&self) -> (b: bool)
        ensures
            b == (*self is Idle),
    {
        matches!(self, ToastState::Idle)
    }
}

} // verus!
