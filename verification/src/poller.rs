//! The scheduler's decision logic. The worker loop itself — a dedicated
//! thread, a control channel and a timed wait — lives with the surrounding
//! program; the decisions it takes at each step are functions here, with
//! contracts.
//!
//! The worker's loop is: run the action, then wait up to one interval for a
//! stop signal; [`poll_step`] decides from what the wait observed whether to
//! loop again. Shutdown sends one stop signal and joins the worker only when
//! the signal was delivered; [`stop_step`] decides that, so a worker that is
//! already gone never blocks the caller.

use vstd::prelude::*;

verus! {

/// What the worker observes while waiting out one interval.
#[derive(Debug, Clone, Copy, PartialEq, Eq, Structural)]
pub enum PollEvent {
    /// A stop signal arrived before the interval ran out.
    StopRequested,
    /// The interval ran out with no signal.
    IntervalElapsed,
    /// The controlling side is gone without having sent a stop signal.
    SenderGone,
}

/// What the worker does next.
#[derive(Debug, Clone, Copy, PartialEq, Eq, Structural)]
pub enum PollDecision {
    /// Terminate immediately, without waiting out the rest of the interval
    /// and without running the action again.
    Exit,
    /// Run the action once more, then wait again.
    RunAgain,
}

/// The decision at an interval boundary: the worker terminates exactly when
/// a stop signal arrived, so no action invocation begins after a stop is
/// observed, and a lost controller alone never stops the sampling.
pub fn poll_step(event: PollEvent) -> (r: PollDecision)
    ensures
        r is Exit <==> event is StopRequested,
{
    match event {
        PollEvent::StopRequested => PollDecision::Exit,
        PollEvent::IntervalElapsed => PollDecision::RunAgain,
        PollEvent::SenderGone => PollDecision::RunAgain,
    }
}

/// The decision at shutdown: join the worker exactly when the stop signal
/// was delivered. When signalling fails because the worker already exited,
/// shutdown completes without blocking — idempotent, never an error.
pub fn stop_step(signal_delivered: bool) -> (join: bool)
    ensures
        join == signal_delivered,
{
    signal_delivered
}

} // verus!
