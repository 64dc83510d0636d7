//! Stepping the two-state toggle machine through starts and stops, in both
//! fixture styles: commands and events as enums, and as dedicated types.

use edfsm::toggle::{Command, EffectHandlers, Event, Start, Started, State, Stop, Stopped, ToggleFsm};
use edfsm::Fsm;
use edfsm::Transition;

#[test]
fn test_step() {
    // Initialize our effect handlers

    let mut se = EffectHandlers {
        started: 0,
        stopped: 0,
        transitioned_stopped_to_started: 0,
        transitioned_started_to_stopped: 0,
    };

    // Test the FSM by stepping through various states

    let (e, t) = ToggleFsm::step(&State::Stopped, &Command::Start, &mut se);
    assert_eq!(e, Some(Event::Started));
    assert_eq!(t, Transition::Next(State::Started));
    assert_eq!(se.started, 1);
    assert_eq!(se.stopped, 0);
    assert_eq!(se.transitioned_started_to_stopped, 0);
    assert_eq!(se.transitioned_stopped_to_started, 1);

    let (e, t) = ToggleFsm::step(&State::Started, &Command::Start, &mut se);
    assert_eq!(e, None);
    assert_eq!(t, Transition::Same);
    assert_eq!(se.started, 1);
    assert_eq!(se.stopped, 0);
    assert_eq!(se.transitioned_started_to_stopped, 0);
    assert_eq!(se.transitioned_stopped_to_started, 1);

    let (e, t) = ToggleFsm::step(&State::Started, &Command::Stop, &mut se);
    assert_eq!(e, Some(Event::Stopped));
    assert_eq!(t, Transition::Next(State::Stopped));
    assert_eq!(se.started, 1);
    assert_eq!(se.stopped, 1);
    assert_eq!(se.transitioned_started_to_stopped, 1);
    assert_eq!(se.transitioned_stopped_to_started, 1);

    let (e, t) = ToggleFsm::step(&State::Stopped, &Command::Stop, &mut se);
    assert_eq!(e, None);
    assert_eq!(t, Transition::Same);
    assert_eq!(se.started, 1);
    assert_eq!(se.stopped, 1);
    assert_eq!(se.transitioned_started_to_stopped, 1);
    assert_eq!(se.transitioned_stopped_to_started, 1);
}

#[test]
fn test_step_alt() {
    // Initialize our effect handlers

    let mut se = EffectHandlers {
        started: 0,
        stopped: 0,
        transitioned_stopped_to_started: 0,
        transitioned_started_to_stopped: 0,
    };

    // Test the FSM by stepping through various states

    let (e, t) = ToggleFsm::step(&State::Stopped, &Start {}, &mut se);
    assert_eq!(e, Some(Started {}));
    assert_eq!(t, Transition::Next(State::Started));
    assert_eq!(se.started, 1);
    assert_eq!(se.stopped, 0);
    assert_eq!(se.transitioned_started_to_stopped, 0);
    assert_eq!(se.transitioned_stopped_to_started, 1);

    let (e, t) = ToggleFsm::step(&State::Started, &Start {}, &mut se);
    assert_eq!(e, None);
    assert_eq!(t, Transition::Same);
    assert_eq!(se.started, 1);
    assert_eq!(se.stopped, 0);
    assert_eq!(se.transitioned_started_to_stopped, 0);
    assert_eq!(se.transitioned_stopped_to_started, 1);

    let (e, t) = ToggleFsm::step(&State::Started, &Stop {}, &mut se);
    assert_eq!(e, Some(Stopped {}));
    assert_eq!(t, Transition::Next(State::Stopped));
    assert_eq!(se.started, 1);
    assert_eq!(se.stopped, 1);
    assert_eq!(se.transitioned_started_to_stopped, 1);
    assert_eq!(se.transitioned_stopped_to_started, 1);

    let (e, t) = ToggleFsm::step(&State::Stopped, &Stop {}, &mut se);
    assert_eq!(e, None);
    assert_eq!(t, Transition::Same);
    assert_eq!(se.started, 1);
    assert_eq!(se.stopped, 1);
    assert_eq!(se.transitioned_started_to_stopped, 1);
    assert_eq!(se.transitioned_stopped_to_started, 1);
}
