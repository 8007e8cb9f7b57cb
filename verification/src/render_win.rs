//! The window's event loop: it runs until the window is asked to close.
//! The caller pumps the window system and hands each event over; this
//! module says whether the loop goes on.

use vstd::prelude::*;

verus! {

/// What the loop needs to know of a window-system event.
#[derive(Clone, Copy, Debug, PartialEq, Eq, Structural)]
pub enum WindowSignal {
    /// The window was asked to close.
    Closed,
    /// Anything else.
    Other,
}

/// What the loop does after an event.
#[derive(Clone, Copy, Debug, PartialEq, Eq, Structural)]
pub enum ControlFlow {
    /// Wait for the next event.
    Continue,
    /// Leave the loop.
    Break,
}

/// Whether the loop is still running.
#[derive(Clone, Copy, Debug, PartialEq, Eq, Structural)]
pub enum LoopState {
    Running,
    Stopped,
}

/// The state of the loop after one more event.
pub open spec fn step_spec(state: LoopState, signal: WindowSignal) -> LoopState {
    if state == LoopState::Running && signal != WindowSignal::Closed {
        LoopState::Running
    } else {
        LoopState::Stopped
    }
}

/// The state of the loop after a run of events, taken one by one from
/// first to last.
pub open spec fn state_after(state: LoopState, signals: Seq<WindowSignal>) -> LoopState
    decreases signals.len(),
{
    if signals.len() == 0 {
        state
    } else {
        state_after(step_spec(state, signals[0]), signals.drop_first())
    }
}

/// Decides on one event: the loop breaks on a close and goes on otherwise.
pub fn on_event(signal: WindowSignal) -> (flow: ControlFlow)
    ensures
        flow == ControlFlow::Break <==> signal == WindowSignal::Closed,
{
    match signal {
        WindowSignal::Closed => ControlFlow::Break,
        WindowSignal::Other => ControlFlow::Continue,
    }
}

/// The state of the loop after one more event. A stopped loop stays
/// stopped whatever arrives.
pub fn step(state: LoopState, signal: WindowSignal) -> (next: LoopState)
    ensures
        next == step_spec(state, signal),
{
    match state {
        LoopState::Stopped => LoopState::Stopped,
        LoopState::Running => match on_event(signal) {
            ControlFlow::Break => LoopState::Stopped,
            ControlFlow::Continue => LoopState::Running,
        },
    }
}

/// The loop is still running after a run of events exactly if it was
/// running before and none of them was a close.
pub proof fn runs_until_closed(state: LoopState, signals: Seq<WindowSignal>)
    ensures
        state_after(state, signals) == LoopState::Running <==> state == LoopState::Running
            && !signals.contains(WindowSignal::Closed),
    decreases signals.len(),
{
    if signals.len() > 0 {
        let rest = signals.drop_first();
        runs_until_closed(step_spec(state, signals[0]), rest);
        if signals.contains(WindowSignal::Closed) {
            let i = choose|i: int| 0 <= i < signals.len() && signals[i] == WindowSignal::Closed;
            if i > 0 {
                assert(rest[i - 1] == WindowSignal::Closed);
            }
        }
    }
}

} // verus!
