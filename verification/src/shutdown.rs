//! The shutdown of the service.
//!
//! On a termination signal the listener stops taking connections and the
//! reaper is cancelled; the service exits when both are done, or when the
//! time it grants them is over. The coordinator is the one place that
//! cancels the reaper and the one place that waits for it.

use vstd::prelude::*;

verus! {

/// How long the service waits for the listener and the reaper, in seconds.
pub const GRACE_SECONDS: u64 = 30;

/// Where the service stands.
#[derive(Clone, Copy, Debug, PartialEq, Eq, Structural)]
pub enum ShutdownState {
    /// Serving.
    Running,
    /// Shutting down, and waiting for whichever of the two is not done.
    Draining { listener_done: bool, reaper_done: bool },
    /// Shut down in good order.
    Complete,
    /// Shut down because the time was over, with work still under way.
    TimedOut,
}

/// What the coordinator is told.
#[derive(Clone, Copy, Debug, PartialEq, Eq, Structural)]
pub enum ShutdownEvent {
    /// A termination signal came in.
    Signal,
    /// The listener has answered the last request it had taken.
    ListenerDrained,
    /// The reaper's task has ended.
    ReaperExited,
    /// The time granted for the shutdown is over.
    GraceElapsed,
}

/// What the coordinator has done next.
#[derive(Clone, Copy, Debug, PartialEq, Eq, Structural)]
pub enum ShutdownAction {
    /// Nothing: go on waiting.
    Wait,
    /// Stop the listener from taking connections, cancel the reaper, and wait
    /// for both, so many seconds at most.
    Begin { grace_seconds: u64 },
    /// Exit. `anomaly` says that work was still under way.
    Exit { anomaly: bool },
}

/// One step of the shutdown.
#[derive(Clone, Copy, Debug, PartialEq, Eq, Structural)]
pub struct ShutdownStep {
    pub state: ShutdownState,
    pub action: ShutdownAction,
}

/// The coordinator's rules.
///
/// The first signal begins the shutdown; later signals change nothing. The
/// shutdown is complete when the listener and the reaper are both done. If
/// the time is over before that, the service exits all the same and reports
/// an anomaly. Before a signal, and after the exit, nothing moves the state.
pub open spec fn next_step(state: ShutdownState, event: ShutdownEvent) -> ShutdownStep {
    match state {
        ShutdownState::Running => match event {
            ShutdownEvent::Signal => ShutdownStep {
                state: ShutdownState::Draining { listener_done: false, reaper_done: false },
                action: ShutdownAction::Begin { grace_seconds: GRACE_SECONDS },
            },
            _ => ShutdownStep { state: ShutdownState::Running, action: ShutdownAction::Wait },
        },
        ShutdownState::Draining { listener_done, reaper_done } => match event {
            ShutdownEvent::Signal => ShutdownStep { state, action: ShutdownAction::Wait },
            ShutdownEvent::ListenerDrained => drained(true, reaper_done),
            ShutdownEvent::ReaperExited => drained(listener_done, true),
            ShutdownEvent::GraceElapsed => ShutdownStep {
                state: ShutdownState::TimedOut,
                action: ShutdownAction::Exit { anomaly: true },
            },
        },
        ShutdownState::Complete => ShutdownStep {
            state: ShutdownState::Complete,
            action: ShutdownAction::Exit { anomaly: false },
        },
        ShutdownState::TimedOut => ShutdownStep {
            state: ShutdownState::TimedOut,
            action: ShutdownAction::Exit { anomaly: true },
        },
    }
}

/// The step of a shutdown under way once it is known which of the two are
/// done.
pub open spec fn drained(listener_done: bool, reaper_done: bool) -> ShutdownStep {
    if listener_done && reaper_done {
        ShutdownStep {
            state: ShutdownState::Complete,
            action: ShutdownAction::Exit { anomaly: false },
        }
    } else {
        ShutdownStep {
            state: ShutdownState::Draining { listener_done, reaper_done },
            action: ShutdownAction::Wait,
        }
    }
}

/// The state of the shutdown after a run of events.
pub open spec fn state_after(state: ShutdownState, events: Seq<ShutdownEvent>) -> ShutdownState
    decreases events.len(),
{
    if events.len() == 0 {
        state
    } else {
        next_step(state_after(state, events.drop_last()), events.last()).state
    }
}

/// How often a run of events has the coordinator begin the shutdown.
pub open spec fn beginnings(state: ShutdownState, events: Seq<ShutdownEvent>) -> nat
    decreases events.len(),
{
    if events.len() == 0 {
        0
    } else {
        let before = state_after(state, events.drop_last());
        beginnings(state, events.drop_last()) + if next_step(
            before,
            events.last(),
        ).action is Begin {
            1nat
        } else {
            0nat
        }
    }
}

fn settle(listener_done: bool, reaper_done: bool) -> (step: ShutdownStep)
    ensures
        step == drained(listener_done, reaper_done),
{
    if listener_done && reaper_done {
        ShutdownStep {
            state: ShutdownState::Complete,
            action: ShutdownAction::Exit { anomaly: false },
        }
    } else {
        ShutdownStep {
            state: ShutdownState::Draining { listener_done, reaper_done },
            action: ShutdownAction::Wait,
        }
    }
}

/// Takes the shutdown one step on, by the coordinator's rules.
pub fn step(state: ShutdownState, event: ShutdownEvent) -> (step: ShutdownStep)
    ensures
        step == next_step(state, event),
{
    match state {
        ShutdownState::Running => match event {
            ShutdownEvent::Signal => ShutdownStep {
                state: ShutdownState::Draining { listener_done: false, reaper_done: false },
                action: ShutdownAction::Begin { grace_seconds: GRACE_SECONDS },
            },
            _ => ShutdownStep { state: ShutdownState::Running, action: ShutdownAction::Wait },
        },
        ShutdownState::Draining { listener_done, reaper_done } => match event {
            ShutdownEvent::Signal => ShutdownStep { state, action: ShutdownAction::Wait },
            ShutdownEvent::ListenerDrained => settle(true, reaper_done),
            ShutdownEvent::ReaperExited => settle(listener_done, true),
            ShutdownEvent::GraceElapsed => ShutdownStep {
                state: ShutdownState::TimedOut,
                action: ShutdownAction::Exit { anomaly: true },
            },
        },
        ShutdownState::Complete => ShutdownStep {
            state: ShutdownState::Complete,
            action: ShutdownAction::Exit { anomaly: false },
        },
        ShutdownState::TimedOut => ShutdownStep {
            state: ShutdownState::TimedOut,
            action: ShutdownAction::Exit { anomaly: true },
        },
    }
}

/// Whether the events hold `event`.
pub open spec fn happened(events: Seq<ShutdownEvent>, event: ShutdownEvent) -> bool {
    exists|i: int| 0 <= i < events.len() && events[i] == event
}

/// A service that shuts down in good order has heard a signal, has seen its
/// listener drained and its reaper's task ended, and has not run out of time.
pub proof fn complete_means_all_done(events: Seq<ShutdownEvent>)
    requires
        state_after(ShutdownState::Running, events) == ShutdownState::Complete,
    ensures
        happened(events, ShutdownEvent::Signal),
        happened(events, ShutdownEvent::ListenerDrained),
        happened(events, ShutdownEvent::ReaperExited),
{
    progress(events);
}

/// What each state of a shutdown says of the events that led to it.
proof fn progress(events: Seq<ShutdownEvent>)
    ensures
        match state_after(ShutdownState::Running, events) {
            ShutdownState::Running => true,
            ShutdownState::Draining { listener_done, reaper_done } => {
                &&& happened(events, ShutdownEvent::Signal)
                &&& listener_done ==> happened(events, ShutdownEvent::ListenerDrained)
                &&& reaper_done ==> happened(events, ShutdownEvent::ReaperExited)
            },
            ShutdownState::Complete => {
                &&& happened(events, ShutdownEvent::Signal)
                &&& happened(events, ShutdownEvent::ListenerDrained)
                &&& happened(events, ShutdownEvent::ReaperExited)
            },
            ShutdownState::TimedOut => {
                &&& happened(events, ShutdownEvent::Signal)
                &&& happened(events, ShutdownEvent::GraceElapsed)
            },
        },
    decreases events.len(),
{
    if events.len() > 0 {
        let front = events.drop_last();
        progress(front);
        let last = events.len() - 1;
        assert(events[last] == events.last());
        assert forall|event: ShutdownEvent| happened(front, event) implies happened(
            events,
            event,
        ) by {
            let i = choose|i: int| 0 <= i < front.len() && front[i] == event;
            assert(events[i] == event);
        }
    }
}

/// The reaper is cancelled once at most: the coordinator begins the shutdown
/// on the first signal, and never again.
pub proof fn begins_once(events: Seq<ShutdownEvent>)
    ensures
        beginnings(ShutdownState::Running, events) <= 1,
        beginnings(ShutdownState::Running, events) == 1 <==> state_after(
            ShutdownState::Running,
            events,
        ) != ShutdownState::Running,
    decreases events.len(),
{
    if events.len() > 0 {
        begins_once(events.drop_last());
    }
}

/// A service that has exited stays as it is.
pub proof fn exit_is_final(state: ShutdownState, event: ShutdownEvent)
    requires
        state == ShutdownState::Complete || state == ShutdownState::TimedOut,
    ensures
        next_step(state, event).state == state,
        next_step(state, event).action == (ShutdownAction::Exit {
            anomaly: state == ShutdownState::TimedOut,
        }),
{
}

} // verus!
