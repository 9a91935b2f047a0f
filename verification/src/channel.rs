//! The asynchronous update channel behind a live toast.
//!
//! The sending half is handed to the producer; the receiving half sits
//! inside the toast and is polled once per frame without blocking.  The
//! channel itself comes from the `crossbeam_channel` crate and is taken
//! on trust through the narrow wrappers below; everything the engine
//! decides from a poll's outcome is verified over [`PollOutcome`].

use vstd::prelude::*;
use crate::options::ToastUpdate;

verus! {

/// Declares `crossbeam_channel::Sender` so it can appear in signatures;
/// the type stays opaque to the verifier.
#[verifier::external_type_specification]
#[verifier::external_body]
#[verifier::reject_recursive_types(T)]
pub struct ExSender<T>(crossbeam_channel::Sender<T>);

/// Declares `crossbeam_channel::Receiver` so it can sit in a toast's
/// subscription field; the type stays opaque to the verifier.
#[verifier::external_type_specification]
#[verifier::external_body]
#[verifier::reject_recursive_types(T)]
pub struct ExReceiver<T>(crossbeam_channel::Receiver<T>);

/// What one non-blocking poll of a toast's update channel produced.
pub(crate) enum PollOutcome {
    /// A pending update record was taken off the channel.
    Received(ToastUpdate),
    /// No message was pending; the producer is still alive.
    Empty,
    /// Every sending half has been dropped and the backlog is drained.
    Disconnected,
}

/// Relies on `crossbeam_channel::unbounded`: a fresh channel of unlimited
/// capacity whose halves are connected to each other.  Nothing about the
/// channel's content is modeled; the engine is verified for every
/// possible outcome of a later poll.
#[verifier::external_body]
pub(crate) fn channel_unbounded() -> (pair: (
    crossbeam_channel::Sender<ToastUpdate>,
    crossbeam_channel::Receiver<ToastUpdate>,
)) {
    crossbeam_channel::unbounded()
}

/// Relies on `crossbeam_channel::Receiver::try_recv`: never blocks, and
/// returns either a pending message, or `Empty` while some sender is
/// still alive, or `Disconnected` once all senders are dropped and the
/// backlog is drained.  Which outcome comes back depends on other
/// threads, so the contract promises nothing; the callers handle every
/// variant.
#[verifier::external_body]
pub(crate) fn poll_update(r: &crossbeam_channel::Receiver<ToastUpdate>) -> (o: PollOutcome) {
    match r.try_recv() {
        Ok(update) => PollOutcome::Received(update),
        Err(crossbeam_channel::TryRecvError::Empty) => PollOutcome::Empty,
        Err(crossbeam_channel::TryRecvError::Disconnected) => PollOutcome::Disconnected,
    }
}

} // verus!
