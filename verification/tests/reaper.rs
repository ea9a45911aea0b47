use tradesalsa::reaper::{
    start, step, sweep, swept, ReaperAction, ReaperEvent, ReaperState, ReaperStep,
    SWEEP_INTERVAL_SECONDS,
};
use tradesalsa::session::{Record, SessionError, SessionStore};

const SLEEP: ReaperAction = ReaperAction::Sleep { seconds: 60 };

fn state_after(mut state: ReaperState, events: &[ReaperEvent]) -> ReaperState {
    for event in events {
        state = step(state, *event).state;
    }
    state
}

#[test]
fn reaper_starts_asleep() {
    assert_eq!(SWEEP_INTERVAL_SECONDS, 60);
    assert_eq!(start(), ReaperStep { state: ReaperState::Sleeping, report: None, action: SLEEP });
}

#[test]
fn reaper_sweeps_when_it_wakes() {
    assert_eq!(
        step(ReaperState::Sleeping, ReaperEvent::Woke { now: 123 }),
        ReaperStep {
            state: ReaperState::Sweeping { cancelled: false },
            report: None,
            action: ReaperAction::Sweep { before: 123 },
        }
    );
    assert_eq!(
        step(ReaperState::Sweeping { cancelled: false }, ReaperEvent::Swept { deleted: 3 }),
        ReaperStep { state: ReaperState::Sleeping, report: None, action: SLEEP }
    );
}

#[test]
fn failed_sweep_is_reported_and_the_reaper_goes_on() {
    let error = SessionError::StoreUnavailable;
    assert_eq!(
        step(ReaperState::Sweeping { cancelled: false }, ReaperEvent::SweepFailed { error }),
        ReaperStep { state: ReaperState::Sleeping, report: Some(error), action: SLEEP }
    );
    let events = [
        ReaperEvent::Woke { now: 1 },
        ReaperEvent::SweepFailed { error },
        ReaperEvent::Woke { now: 61 },
        ReaperEvent::SweepFailed { error },
        ReaperEvent::Woke { now: 121 },
    ];
    assert_eq!(
        state_after(ReaperState::Sleeping, &events),
        ReaperState::Sweeping { cancelled: false }
    );
}

#[test]
fn cancellation_interrupts_the_sleep() {
    assert_eq!(
        step(ReaperState::Sleeping, ReaperEvent::Cancelled),
        ReaperStep { state: ReaperState::Stopped, report: None, action: ReaperAction::Exit }
    );
}

#[test]
fn cancellation_waits_for_the_sweep() {
    let noted = step(ReaperState::Sweeping { cancelled: false }, ReaperEvent::Cancelled);
    assert_eq!(
        noted,
        ReaperStep {
            state: ReaperState::Sweeping { cancelled: true },
            report: None,
            action: ReaperAction::Continue,
        }
    );
    assert_eq!(
        step(noted.state, ReaperEvent::Swept { deleted: 0 }),
        ReaperStep { state: ReaperState::Stopped, report: None, action: ReaperAction::Exit }
    );
    let error = SessionError::StoreUnavailable;
    assert_eq!(
        step(noted.state, ReaperEvent::SweepFailed { error }),
        ReaperStep { state: ReaperState::Stopped, report: Some(error), action: ReaperAction::Exit }
    );
    // A second cancellation changes nothing.
    assert_eq!(step(noted.state, ReaperEvent::Cancelled), noted);
}

#[test]
fn stopped_reaper_stays_stopped() {
    let error = SessionError::StoreUnavailable;
    for event in [
        ReaperEvent::Woke { now: 0 },
        ReaperEvent::Swept { deleted: 1 },
        ReaperEvent::SweepFailed { error },
        ReaperEvent::Cancelled,
    ] {
        assert_eq!(
            step(ReaperState::Stopped, event),
            ReaperStep { state: ReaperState::Stopped, report: None, action: ReaperAction::Exit }
        );
    }
}

#[test]
fn events_out_of_turn_change_nothing() {
    for event in
        [ReaperEvent::Swept { deleted: 1 }, ReaperEvent::SweepFailed { error: SessionError::StoreUnavailable }]
    {
        assert_eq!(
            step(ReaperState::Sleeping, event),
            ReaperStep {
                state: ReaperState::Sleeping,
                report: None,
                action: ReaperAction::Continue
            }
        );
    }
    for cancelled in [false, true] {
        assert_eq!(
            step(ReaperState::Sweeping { cancelled }, ReaperEvent::Woke { now: 5 }),
            ReaperStep {
                state: ReaperState::Sweeping { cancelled },
                report: None,
                action: ReaperAction::Continue
            }
        );
    }
}

#[test]
fn outcome_of_a_sweep_as_an_event() {
    assert_eq!(swept(Ok(4)), ReaperEvent::Swept { deleted: 4 });
    assert_eq!(
        swept(Err(SessionError::StoreUnavailable)),
        ReaperEvent::SweepFailed { error: SessionError::StoreUnavailable }
    );
}

#[test]
fn reaper_runs_against_a_store() {
    let mut store = SessionStore::new();
    for token in 0..10u128 {
        store.save(Record { token, user_id: None, data: vec![], expiry: 100 + token as i64 });
    }
    let mut now = 40;
    let mut deleted = Vec::new();
    let mut current = start();
    // Five sleeps of a minute, then the service shuts down.
    for round in 0..6 {
        assert_eq!(current.action, SLEEP);
        let woke = if round < 5 {
            now += SWEEP_INTERVAL_SECONDS as i64;
            ReaperEvent::Woke { now }
        } else {
            ReaperEvent::Cancelled
        };
        current = step(current.state, woke);
        if let ReaperAction::Sweep { before } = current.action {
            let outcome = sweep(&mut store, before);
            deleted.push(*outcome.as_ref().unwrap());
            current = step(current.state, swept(outcome));
        }
    }
    assert_eq!(current.state, ReaperState::Stopped);
    assert_eq!(current.action, ReaperAction::Exit);
    // At 100 one session has expired, at 160 the other nine; after that there is none left.
    assert_eq!(deleted, vec![1, 9, 0, 0, 0]);
    assert_eq!(store.len(), 0);
}
