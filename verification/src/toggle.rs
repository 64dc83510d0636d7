//! A two-state toggle machine: the canonical fixture exercising the protocol.
//! It can be started and stopped; its effect handler counts every effect the
//! commands perform and every transition the hook observes.

use vstd::prelude::*;

use crate::Transition;

verus! {

/// The two states of the toggle machine.
#[derive(Debug, PartialEq, Clone, Copy)]
pub enum State {
    Started,
    Stopped,
}

/// The commands of the toggle machine.
#[derive(Debug, PartialEq, Clone, Copy)]
pub enum Command {
    Start,
    Stop,
}

/// The events of the toggle machine.
#[derive(Debug, PartialEq, Clone, Copy)]
pub enum Event {
    Started,
    Stopped,
}

/// One more than `count`, except at the counter's ceiling, where the count
/// stays put rather than overflow.
pub open spec fn bump(count: u32) -> u32 {
    if count == u32::MAX {
        count
    } else {
        (count + 1) as u32
    }
}

/// Counts the effects performed while stepping the toggle machine: one
/// counter per command effect, one per observed transition direction.
#[derive(Debug, PartialEq, Clone, Copy)]
pub struct EffectHandlers {
    pub started: u32,
    pub stopped: u32,
    pub transitioned_stopped_to_started: u32,
    pub transitioned_started_to_stopped: u32,
}

impl EffectHandlers {
    /// Record that something was started.
    pub fn start_something(&mut self)
        ensures
            *final(self) == (EffectHandlers { started: bump(old(self).started), ..*old(self) }),
    {
        if self.started < u32::MAX {
            self.started = self.started + 1;
        }
    }

    /// Record that something was stopped.
    pub fn stop_something(&mut self)
        ensures
            *final(self) == (EffectHandlers { stopped: bump(old(self).stopped), ..*old(self) }),
    {
        if self.stopped < u32::MAX {
            self.stopped = self.stopped + 1;
        }
    }

    /// Record a transition from started to stopped.
    pub fn transitioned_started_to_stopped(&mut self)
        ensures
            *final(self) == (EffectHandlers {
                transitioned_started_to_stopped: bump(old(self).transitioned_started_to_stopped),
                ..*old(self)
            }),
    {
        if self.transitioned_started_to_stopped < u32::MAX {
            self.transitioned_started_to_stopped = self.transitioned_started_to_stopped + 1;
        }
    }

    /// Record a transition from stopped to started.
    pub fn transitioned_stopped_to_started(&mut self)
        ensures
            *final(self) == (EffectHandlers {
                transitioned_stopped_to_started: bump(old(self).transitioned_stopped_to_started),
                ..*old(self)
            }),
    {
        if self.transitioned_stopped_to_started < u32::MAX {
            self.transitioned_stopped_to_started = self.transitioned_stopped_to_started + 1;
        }
    }
}

impl crate::Event<State> for Event {
    open spec fn fire_spec(&self, state: State) -> Transition<State> {
        match (*self, state) {
            (Event::Started, State::Stopped) => Transition::Next(State::Started),
            (Event::Stopped, State::Started) => Transition::Next(State::Stopped),
            _ => Transition::Same,
        }
    }

    fn fire(&self, state: &State) -> (transition: Transition<State>) {
        match (*self, *state) {
            (Event::Started, State::Stopped) => Transition::Next(State::Started),
            (Event::Stopped, State::Started) => Transition::Next(State::Stopped),
            _ => Transition::Same,
        }
    }
}

impl crate::Command<State, EffectHandlers> for Command {
    type Output = Event;

    open spec fn event_spec(&self, state: State, handler: EffectHandlers) -> Option<Event> {
        match (*self, state) {
            (Command::Start, State::Stopped) => Option::Some(Event::Started),
            (Command::Stop, State::Started) => Option::Some(Event::Stopped),
            _ => Option::None,
        }
    }

    open spec fn handler_spec(&self, state: State, handler: EffectHandlers) -> EffectHandlers {
        match (*self, state) {
            (Command::Start, State::Stopped) => EffectHandlers {
                started: bump(handler.started),
                ..handler
            },
            (Command::Stop, State::Started) => EffectHandlers {
                stopped: bump(handler.stopped),
                ..handler
            },
            _ => handler,
        }
    }

    fn execute(&self, state: &State, handler: &mut EffectHandlers) -> (event: Option<Event>) {
        match (*self, *state) {
            (Command::Start, State::Stopped) => {
                handler.start_something();
                Option::Some(Event::Started)
            },
            (Command::Stop, State::Started) => {
                handler.stop_something();
                Option::Some(Event::Stopped)
            },
            _ => Option::None,
        }
    }
}

/// The start command as a dedicated type: one command type per intended
/// action, rather than one enum over all of them.
pub struct Start {}

/// The stop command as a dedicated type.
pub struct Stop {}

/// The event that something started, as a dedicated type.
#[derive(Debug, PartialEq)]
pub struct Started {}

/// The event that something stopped, as a dedicated type.
#[derive(Debug, PartialEq)]
pub struct Stopped {}

impl crate::Event<State> for Started {
    open spec fn fire_spec(&self, state: State) -> Transition<State> {
        match state {
            State::Stopped => Transition::Next(State::Started),
            _ => Transition::Same,
        }
    }

    fn fire(&self, state: &State) -> (transition: Transition<State>) {
        match *state {
            State::Stopped => Transition::Next(State::Started),
            _ => Transition::Same,
        }
    }
}

impl crate::Event<State> for Stopped {
    open spec fn fire_spec(&self, state: State) -> Transition<State> {
        match state {
            State::Started => Transition::Next(State::Stopped),
            _ => Transition::Same,
        }
    }

    fn fire(&self, state: &State) -> (transition: Transition<State>) {
        match *state {
            State::Started => Transition::Next(State::Stopped),
            _ => Transition::Same,
        }
    }
}

impl crate::Command<State, EffectHandlers> for Start {
    type Output = Started;

    open spec fn event_spec(&self, state: State, handler: EffectHandlers) -> Option<Started> {
        match state {
            State::Stopped => Option::Some(Started {  }),
            _ => Option::None,
        }
    }

    open spec fn handler_spec(&self, state: State, handler: EffectHandlers) -> EffectHandlers {
        match state {
            State::Stopped => EffectHandlers { started: bump(handler.started), ..handler },
            _ => handler,
        }
    }

    fn execute(&self, state: &State, handler: &mut EffectHandlers) -> (event: Option<Started>) {
        match *state {
            State::Stopped => {
                handler.start_something();
                Option::Some(Started {  })
            },
            _ => Option::None,
        }
    }
}

impl crate::Command<State, EffectHandlers> for Stop {
    type Output = Stopped;

    open spec fn event_spec(&self, state: State, handler: EffectHandlers) -> Option<Stopped> {
        match state {
            State::Started => Option::Some(Stopped {  }),
            _ => Option::None,
        }
    }

    open spec fn handler_spec(&self, state: State, handler: EffectHandlers) -> EffectHandlers {
        match state {
            State::Started => EffectHandlers { stopped: bump(handler.stopped), ..handler },
            _ => handler,
        }
    }

    fn execute(&self, state: &State, handler: &mut EffectHandlers) -> (event: Option<Stopped>) {
        match *state {
            State::Started => {
                handler.stop_something();
                Option::Some(Stopped {  })
            },
            _ => Option::None,
        }
    }
}

/// The toggle machine: its hook counts each transition by direction.
pub struct ToggleFsm {}

impl crate::Hook<State, EffectHandlers> for ToggleFsm {
    open spec fn hook_spec(old_state: State, new_state: State, handler: EffectHandlers) -> EffectHandlers {
        match (old_state, new_state) {
            (State::Started, State::Stopped) => EffectHandlers {
                transitioned_started_to_stopped: bump(handler.transitioned_started_to_stopped),
                ..handler
            },
            (State::Stopped, State::Started) => EffectHandlers {
                transitioned_stopped_to_started: bump(handler.transitioned_stopped_to_started),
                ..handler
            },
            _ => handler,
        }
    }

    fn on_transition(old_state: &State, new_state: &State, handler: &mut EffectHandlers) {
        match (*old_state, *new_state) {
            (State::Started, State::Stopped) => handler.transitioned_started_to_stopped(),
            (State::Stopped, State::Started) => handler.transitioned_stopped_to_started(),
            _ => {},
        }
    }
}

impl crate::Fsm<State, EffectHandlers> for ToggleFsm {

}

} // verus!
