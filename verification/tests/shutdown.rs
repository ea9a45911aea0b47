use tradesalsa::shutdown::ShutdownEvent::{GraceElapsed, ListenerDrained, ReaperExited, Signal};
use tradesalsa::shutdown::{
    step, ShutdownAction, ShutdownEvent, ShutdownState, ShutdownStep, GRACE_SECONDS,
};

const DRAINING: ShutdownState =
    ShutdownState::Draining { listener_done: false, reaper_done: false };

fn run(events: &[ShutdownEvent]) -> (ShutdownState, Vec<ShutdownAction>) {
    let mut state = ShutdownState::Running;
    let mut actions = Vec::new();
    for event in events {
        let next = step(state, *event);
        state = next.state;
        actions.push(next.action);
    }
    (state, actions)
}

#[test]
fn signal_begins_the_shutdown() {
    assert_eq!(GRACE_SECONDS, 30);
    assert_eq!(
        step(ShutdownState::Running, Signal),
        ShutdownStep { state: DRAINING, action: ShutdownAction::Begin { grace_seconds: 30 } }
    );
}

#[test]
fn shutdown_is_complete_when_both_are_done() {
    for order in [[ListenerDrained, ReaperExited], [ReaperExited, ListenerDrained]] {
        let (state, actions) = run(&[Signal, order[0], order[1]]);
        assert_eq!(state, ShutdownState::Complete);
        assert_eq!(
            actions,
            vec![
                ShutdownAction::Begin { grace_seconds: 30 },
                ShutdownAction::Wait,
                ShutdownAction::Exit { anomaly: false },
            ]
        );
    }
    assert_eq!(
        step(DRAINING, ListenerDrained).state,
        ShutdownState::Draining { listener_done: true, reaper_done: false }
    );
    assert_eq!(
        step(DRAINING, ReaperExited).state,
        ShutdownState::Draining { listener_done: false, reaper_done: true }
    );
}

#[test]
fn shutdown_that_takes_too_long_is_an_anomaly() {
    let (state, actions) = run(&[Signal, ListenerDrained, GraceElapsed]);
    assert_eq!(state, ShutdownState::TimedOut);
    assert_eq!(actions.last(), Some(&ShutdownAction::Exit { anomaly: true }));
    // What comes in later changes nothing.
    let (state, actions) = run(&[Signal, GraceElapsed, ReaperExited, ListenerDrained, Signal]);
    assert_eq!(state, ShutdownState::TimedOut);
    assert_eq!(actions[2..], [ShutdownAction::Exit { anomaly: true }; 3]);
}

#[test]
fn reaper_is_cancelled_once() {
    let (state, actions) = run(&[Signal, Signal, ListenerDrained, Signal, ReaperExited, Signal]);
    assert_eq!(state, ShutdownState::Complete);
    let begun = actions.iter().filter(|a| matches!(a, ShutdownAction::Begin { .. })).count();
    assert_eq!(begun, 1);
    assert_eq!(actions[0], ShutdownAction::Begin { grace_seconds: 30 });
    assert_eq!(actions[1], ShutdownAction::Wait);
    assert_eq!(actions[5], ShutdownAction::Exit { anomaly: false });
}

#[test]
fn nothing_moves_a_running_service_but_a_signal() {
    for event in [ListenerDrained, ReaperExited, GraceElapsed] {
        assert_eq!(
            step(ShutdownState::Running, event),
            ShutdownStep { state: ShutdownState::Running, action: ShutdownAction::Wait }
        );
    }
    let (state, _) = run(&[ListenerDrained, ReaperExited, Signal]);
    assert_eq!(state, DRAINING);
}

#[test]
fn complete_shutdown_stays_complete() {
    for event in [Signal, ListenerDrained, ReaperExited, GraceElapsed] {
        assert_eq!(
            step(ShutdownState::Complete, event),
            ShutdownStep {
                state: ShutdownState::Complete,
                action: ShutdownAction::Exit { anomaly: false }
            }
        );
    }
}
