//! The reaper: the background task that deletes expired sessions.
//!
//! The task sleeps, sweeps the session store, and sleeps again, until it is
//! cancelled. What it does next is decided here; the sleeping, the sweeping
//! of a store that is elsewhere, and the waiting for a cancellation are done
//! by whoever runs the task.

use crate::session::error::SessionError;
use crate::session::store::{expired_tokens, live_rows, SessionStore};
use vstd::prelude::*;

verus! {

/// The time between two sweeps, in seconds.
pub const SWEEP_INTERVAL_SECONDS: u64 = 60;

/// What the reaper is doing.
#[derive(Clone, Copy, Debug, PartialEq, Eq, Structural)]
pub enum ReaperState {
    /// Waiting for the next sweep.
    Sleeping,
    /// Sweeping. `cancelled` says whether a cancellation came in meanwhile.
    Sweeping { cancelled: bool },
    /// Done, for good.
    Stopped,
}

/// What happened to the reaper.
#[derive(Clone, Copy, Debug, PartialEq, Eq, Structural)]
pub enum ReaperEvent {
    /// The sleep is over; it is `now`.
    Woke { now: i64 },
    /// The sweep is over: so many sessions were deleted.
    Swept { deleted: usize },
    /// The sweep is over: the store failed.
    SweepFailed { error: SessionError },
    /// The service is shutting down.
    Cancelled,
}

/// What the reaper does next.
#[derive(Clone, Copy, Debug, PartialEq, Eq, Structural)]
pub enum ReaperAction {
    /// Sleep so many seconds, or until cancelled.
    Sleep { seconds: u64 },
    /// Delete the sessions that have expired at `before`.
    Sweep { before: i64 },
    /// Go on with what is under way.
    Continue,
    /// End the task.
    Exit,
}

/// One step of the reaper: the state after it, a failure to write to the log,
/// and what to do next.
#[derive(Clone, Copy, Debug, PartialEq, Eq, Structural)]
pub struct ReaperStep {
    pub state: ReaperState,
    pub report: Option<SessionError>,
    pub action: ReaperAction,
}

/// The step after a sweep has ended, with the failure to report, if there
/// was one.
pub open spec fn after_sweep(cancelled: bool, report: Option<SessionError>) -> ReaperStep {
    if cancelled {
        ReaperStep { state: ReaperState::Stopped, report, action: ReaperAction::Exit }
    } else {
        ReaperStep {
            state: ReaperState::Sleeping,
            report,
            action: ReaperAction::Sleep { seconds: SWEEP_INTERVAL_SECONDS },
        }
    }
}

/// The reaper's rules.
///
/// A sleeper that wakes sweeps; a sleeper that is cancelled stops at once. A
/// sweep is never cut short: a cancellation that comes in during a sweep is
/// noted, and the reaper stops when the sweep is over. A sweep that failed is
/// reported and otherwise counts as a sweep: the reaper sleeps and tries
/// again. A reaper that has stopped stays stopped.
pub open spec fn next_step(state: ReaperState, event: ReaperEvent) -> ReaperStep {
    match state {
        ReaperState::Sleeping => match event {
            ReaperEvent::Woke { now } => ReaperStep {
                state: ReaperState::Sweeping { cancelled: false },
                report: None,
                action: ReaperAction::Sweep { before: now },
            },
            ReaperEvent::Swept { .. } | ReaperEvent::SweepFailed { .. } => ReaperStep {
                state: ReaperState::Sleeping,
                report: None,
                action: ReaperAction::Continue,
            },
            ReaperEvent::Cancelled => ReaperStep {
                state: ReaperState::Stopped,
                report: None,
                action: ReaperAction::Exit,
            },
        },
        ReaperState::Sweeping { cancelled } => match event {
            ReaperEvent::Woke { .. } => ReaperStep {
                state: ReaperState::Sweeping { cancelled },
                report: None,
                action: ReaperAction::Continue,
            },
            ReaperEvent::Swept { .. } => after_sweep(cancelled, None),
            ReaperEvent::SweepFailed { error } => after_sweep(cancelled, Some(error)),
            ReaperEvent::Cancelled => ReaperStep {
                state: ReaperState::Sweeping { cancelled: true },
                report: None,
                action: ReaperAction::Continue,
            },
        },
        ReaperState::Stopped => ReaperStep {
            state: ReaperState::Stopped,
            report: None,
            action: ReaperAction::Exit,
        },
    }
}

/// The state of the reaper after a run of events.
pub open spec fn state_after(state: ReaperState, events: Seq<ReaperEvent>) -> ReaperState
    decreases events.len(),
{
    if events.len() == 0 {
        state
    } else {
        next_step(state_after(state, events.drop_last()), events.last()).state
    }
}

/// How the reaper starts: asleep, with a first sleep ahead of it.
pub fn start() -> (step: ReaperStep)
    ensures
        step == (ReaperStep {
            state: ReaperState::Sleeping,
            report: None,
            action: ReaperAction::Sleep { seconds: SWEEP_INTERVAL_SECONDS },
        }),
{
    ReaperStep {
        state: ReaperState::Sleeping,
        report: None,
        action: ReaperAction::Sleep { seconds: SWEEP_INTERVAL_SECONDS },
    }
}

fn finish_sweep(cancelled: bool, report: Option<SessionError>) -> (step: ReaperStep)
    ensures
        step == after_sweep(cancelled, report),
{
    if cancelled {
        ReaperStep { state: ReaperState::Stopped, report, action: ReaperAction::Exit }
    } else {
        ReaperStep {
            state: ReaperState::Sleeping,
            report,
            action: ReaperAction::Sleep { seconds: SWEEP_INTERVAL_SECONDS },
        }
    }
}

/// What a sweep gave, as the event that tells the reaper.
pub fn swept(outcome: Result<usize, SessionError>) -> (event: ReaperEvent)
    ensures
        event == match outcome {
            Ok(deleted) => ReaperEvent::Swept { deleted },
            Err(error) => ReaperEvent::SweepFailed { error },
        },
{
    match outcome {
        Ok(deleted) => ReaperEvent::Swept { deleted },
        Err(error) => ReaperEvent::SweepFailed { error },
    }
}

/// Takes the reaper one step on, by its rules.
pub fn step(state: ReaperState, event: ReaperEvent) -> (step: ReaperStep)
    ensures
        step == next_step(state, event),
{
    match state {
        ReaperState::Sleeping => match event {
            ReaperEvent::Woke { now } => ReaperStep {
                state: ReaperState::Sweeping { cancelled: false },
                report: None,
                action: ReaperAction::Sweep { before: now },
            },
            ReaperEvent::Swept { .. } | ReaperEvent::SweepFailed { .. } => ReaperStep {
                state: ReaperState::Sleeping,
                report: None,
                action: ReaperAction::Continue,
            },
            ReaperEvent::Cancelled => ReaperStep {
                state: ReaperState::Stopped,
                report: None,
                action: ReaperAction::Exit,
            },
        },
        ReaperState::Sweeping { cancelled } => match event {
            ReaperEvent::Woke { .. } => ReaperStep {
                state: ReaperState::Sweeping { cancelled },
                report: None,
                action: ReaperAction::Continue,
            },
            ReaperEvent::Swept { .. } => finish_sweep(cancelled, None),
            ReaperEvent::SweepFailed { error } => finish_sweep(cancelled, Some(error)),
            ReaperEvent::Cancelled => ReaperStep {
                state: ReaperState::Sweeping { cancelled: true },
                report: None,
                action: ReaperAction::Continue,
            },
        },
        ReaperState::Stopped => ReaperStep {
            state: ReaperState::Stopped,
            report: None,
            action: ReaperAction::Exit,
        },
    }
}

/// One sweep of a store in memory: deletes what has expired at `before` and
/// says how many sessions that were.
pub fn sweep(store: &mut SessionStore, before: i64) -> (outcome: Result<usize, SessionError>)
    ensures
        final(store)@ == live_rows(old(store)@, before),
        outcome matches Ok(count) && count == expired_tokens(old(store)@, before).len(),
{
    Ok(store.delete_expired(before))
}

/// A reaper that has stopped stays stopped, whatever happens.
pub proof fn stopped_for_good(events: Seq<ReaperEvent>)
    ensures
        state_after(ReaperState::Stopped, events) == ReaperState::Stopped,
    decreases events.len(),
{
    if events.len() > 0 {
        stopped_for_good(events.drop_last());
    }
}

/// Nothing but a cancellation stops the reaper: not a sweep that failed, and
/// no other run of events.
pub proof fn only_cancellation_stops(state: ReaperState, events: Seq<ReaperEvent>)
    requires
        state != ReaperState::Stopped,
        state != (ReaperState::Sweeping { cancelled: true }),
        forall|i: int| 0 <= i < events.len() ==> events[i] != ReaperEvent::Cancelled,
    ensures
        state_after(state, events) != ReaperState::Stopped,
        state_after(state, events) != (ReaperState::Sweeping { cancelled: true }),
    decreases events.len(),
{
    if events.len() > 0 {
        let front = events.drop_last();
        assert forall|i: int| 0 <= i < front.len() implies front[i] != ReaperEvent::Cancelled by {
            assert(front[i] == events[i]);
        }
        only_cancellation_stops(state, front);
        assert(events.last() == events[events.len() - 1]);
    }
}

/// A cancellation never cuts a sweep short, and never goes unheard: a
/// sleeping reaper stops at once, a sweeping one as soon as the sweep is
/// over.
pub proof fn cancellation_is_orderly(state: ReaperState, end_of_sweep: ReaperEvent)
    requires
        end_of_sweep is Swept || end_of_sweep is SweepFailed,
    ensures
        next_step(ReaperState::Sleeping, ReaperEvent::Cancelled).state == ReaperState::Stopped,
        state is Sweeping ==> {
            let noted = next_step(state, ReaperEvent::Cancelled);
            &&& noted.state == (ReaperState::Sweeping { cancelled: true })
            &&& noted.action == ReaperAction::Continue
            &&& next_step(noted.state, end_of_sweep).state == ReaperState::Stopped
            &&& next_step(noted.state, end_of_sweep).action == ReaperAction::Exit
        },
{
}

/// A sweep that failed does not end the reaper: it reports the failure and
/// sleeps until the next sweep.
pub proof fn failed_sweep_is_not_fatal(error: SessionError)
    ensures
        next_step(
            ReaperState::Sweeping { cancelled: false },
            ReaperEvent::SweepFailed { error },
        ) == (ReaperStep {
            state: ReaperState::Sleeping,
            report: Some(error),
            action: ReaperAction::Sleep { seconds: SWEEP_INTERVAL_SECONDS },
        }),
{
}

} // verus!
