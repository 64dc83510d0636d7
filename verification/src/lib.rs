//! Event-driven finite state machines: commands are executed against a state
//! (possibly through a lens onto part of that state), performing side effects
//! through a handler and optionally emitting an event; events fire purely
//! against the state to yield a transition.

use vstd::prelude::*;

pub mod toggle;

verus! {

/// Outcome of applying an event to a state: either move to a new state value,
/// or stay in the existing state. A closed choice by design; rejection and
/// inapplicability are expressed as `Same`, never as an extra variant.
#[derive(Debug, PartialEq)]
pub enum Transition<S> {
    /// Transition into a new state.
    Next(S),
    /// Stay in the existing state.
    Same,
}

/// A bidirectional view of a part `T` inside a whole state `Self`:
/// `extract` projects the part out, `inject` builds a new whole that carries
/// an updated part. Implementations must be lawful lenses (`lens_laws`).
pub trait Lens<T>: Sized {
    /// The part that `extract` projects out of `self`.
    spec fn part_of(&self) -> T;

    /// The whole that `inject` builds from `self` and an updated part.
    spec fn with_part(&self, part: T) -> Self;

    /// The lens laws: extracting right after injecting observes the injected
    /// part, and injecting the extracted part changes nothing.
    proof fn lens_laws(&self, part: T)
        ensures
            self.with_part(part).part_of() == part,
            self.with_part(self.part_of()) == *self,
    ;

    /// Project the viewed part out of a whole state. Total; never fails.
    fn extract(&self) -> (part: &T)
        ensures
            *part == self.part_of(),
    ;

    /// Build a new whole state that carries `part`, preserving everything of
    /// `self` that the view does not cover. Total; never fails.
    fn inject(&self, part: T) -> (next: Self)
        ensures
            next == self.with_part(part),
    ;
}

/// Every state trivially views the whole of itself, so simple state machines
/// need no lens boilerplate.
impl<S> Lens<S> for S {
    open spec fn part_of(&self) -> S {
        *self
    }

    open spec fn with_part(&self, part: S) -> S {
        part
    }

    proof fn lens_laws(&self, part: S) {
    }

    fn extract(&self) -> (part: &S) {
        self
    }

    fn inject(&self, part: S) -> (next: S) {
        part
    }
}

/// An event is something that happened and may cause a state transition.
/// Firing is pure: the resulting transition is a function of the event and the
/// state alone, so replaying the same event against the same state always
/// yields the same transition. Inapplicability is expressed as `Same`.
pub trait Event<S> {
    /// The transition that firing this event in `state` yields.
    spec fn fire_spec(&self, state: S) -> Transition<S>;

    /// Apply the event to a state, yielding a transition. No side effects.
    fn fire(&self, state: &S) -> (transition: Transition<S>)
        ensures
            transition == self.fire_spec(*state),
    ;
}

/// A command describes an intended action. Executing it against a state may
/// perform a side effect through the handler and may produce one event of the
/// associated `Output` type. Both the produced event and the handler change
/// are functions of the state and of the handler state before the call, so a
/// step is deterministic given those. An inapplicable command produces `None`;
/// that is the designed way to reject a command, not a failure.
pub trait Command<S, H> {
    /// The kind of event this command can produce, an event over the same
    /// state type the command operates on.
    type Output: Event<S>;

    /// The event that executing this command in `state` produces, given the
    /// handler state before the call.
    spec fn event_spec(&self, state: S, handler: H) -> Option<Self::Output>;

    /// The handler state after executing this command in `state`, given the
    /// handler state before the call.
    spec fn handler_spec(&self, state: S, handler: H) -> H;

    /// Execute the command against a state, performing at most one side
    /// effect through `handler` and producing at most one event.
    fn execute(&self, state: &S, handler: &mut H) -> (event: Option<Self::Output>)
        ensures
            event == self.event_spec(*state, *old(handler)),
            *final(handler) == self.handler_spec(*state, *old(handler)),
    ;
}

/// Lift a transition over a viewed part to a transition over the whole state:
/// a new part is injected back into the whole, and `Same` stays `Same`.
pub open spec fn lift<S: Lens<T>, T>(state: S, transition: Transition<T>) -> Transition<S> {
    match transition {
        Transition::Next(part) => Transition::Next(state.with_part(part)),
        Transition::Same => Transition::Same,
    }
}

/// The entry/exit side of a machine: a hook that observes every change of the
/// whole state. A machine that needs no entry/exit effects implements the
/// hook as the identity on the handler, with an empty body.
pub trait Hook<S, H> {
    /// The handler state after the hook has seen a change from `old_state` to
    /// `new_state`.
    spec fn hook_spec(old_state: S, new_state: S, handler: H) -> H;

    /// Hook invoked on entering a new state, with the whole old and new state
    /// values, never the narrower part a command or event operated on.
    fn on_transition(old_state: &S, new_state: &S, handler: &mut H)
        ensures
            *final(handler) == Self::hook_spec(*old_state, *new_state, *old(handler)),
    ;
}

/// What one whole step of the machine `M` computes, as a function of the
/// state, the command, and the handler state before the step: the produced
/// event, the lifted transition, and the handler state after the step
/// (including the transition hook, which runs exactly when the lifted
/// transition is `Next`).
pub open spec fn step_spec<M: Hook<S, H>, S: Lens<T>, T, H, C: Command<T, H>>(
    state: S,
    command: C,
    handler: H,
) -> (Option<C::Output>, Transition<S>, H) {
    let part = state.part_of();
    let event = command.event_spec(part, handler);
    let executed = command.handler_spec(part, handler);
    match event {
        Option::Some(ev) => {
            let transition = lift(state, ev.fire_spec(part));
            match transition {
                Transition::Next(new_state) => (
                    event,
                    transition,
                    M::hook_spec(state, new_state, executed),
                ),
                Transition::Same => (event, transition, executed),
            }
        },
        Option::None => (Option::None, Transition::Same, executed),
    }
}

/// An event-driven finite state machine over a state type `S` and an effect
/// handler type `H`: receive a command, optionally perform an effect, emit an
/// event, fire it to obtain a transition, and run the transition hook when the
/// state changes. The caller owns the state; the machine never retains it.
pub trait Fsm<S, H>: Hook<S, H> + Sized {
    /// Given a state and a command, optionally emit an event, performing side
    /// effects through the handler along the way. The command runs against
    /// the part of the state that the lens projects out.
    fn for_command<C, T>(state: &S, command: &C, handler: &mut H) -> (event: Option<C::Output>)
        where
            C: Command<T, H>,
            S: Lens<T>,
        ensures
            event == command.event_spec(state.part_of(), *old(handler)),
            *final(handler) == command.handler_spec(state.part_of(), *old(handler)),
    {
        command.execute(state.extract(), handler)
    }

    /// Given a state and an event, produce a transition over the whole state.
    /// No side effects; replaying events through this function is how state is
    /// reconstituted in event sourcing.
    fn for_event<E, T>(state: &S, event: &E) -> (transition: Transition<S>)
        where
            E: Event<T>,
            S: Lens<T>,
        ensures
            transition == lift(*state, event.fire_spec(state.part_of())),
    {
        match event.fire(state.extract()) {
            Transition::Next(part) => Transition::Next(state.inject(part)),
            Transition::Same => Transition::Same,
        }
    }

    /// The main entry point: run the machine for one command. Executes the
    /// command (performing effects), fires the produced event, lifts the
    /// resulting transition to the whole state, and invokes `on_transition`
    /// exactly once if and only if that transition is `Next`. When the command
    /// produces no event the step returns `(None, Same)` and the hook does not
    /// run.
    fn step<C, T>(state: &S, command: &C, handler: &mut H) -> (outcome: (
        Option<C::Output>,
        Transition<S>,
    ))
        where
            C: Command<T, H>,
            S: Lens<T>,
        ensures
            (outcome.0, outcome.1, *final(handler)) == step_spec::<Self, S, T, H, C>(
                *state,
                *command,
                *old(handler),
            ),
    {
        let event = Self::for_command(state, command, handler);
        let transition = if let Option::Some(ev) = &event {
            let transition = Self::for_event(state, ev);
            if let Transition::Next(new_state) = &transition {
                Self::on_transition(state, new_state, handler);
            }
            transition
        } else {
            Transition::Same
        };
        (event, transition)
    }
}

/// Law: a step is deterministic. For a fixed state, command, and handler
/// state before the step, any two outcomes that meet the step contract are
/// equal: the same event, the same transition, the same handler state after.
pub proof fn lemma_step_deterministic<M: Hook<S, H>, S: Lens<T>, T, H, C: Command<T, H>>(
    state: S,
    command: C,
    handler: H,
    first: (Option<C::Output>, Transition<S>, H),
    second: (Option<C::Output>, Transition<S>, H),
)
    requires
        first == step_spec::<M, S, T, H, C>(state, command, handler),
        second == step_spec::<M, S, T, H, C>(state, command, handler),
    ensures
        first == second,
{
}

/// Law: when the command produces no event, the step returns `(None, Same)`
/// and the transition hook is not invoked: the handler state after the step
/// is exactly what executing the command left behind.
pub proof fn lemma_no_event_implies_same<M: Hook<S, H>, S: Lens<T>, T, H, C: Command<T, H>>(
    state: S,
    command: C,
    handler: H,
)
    requires
        command.event_spec(state.part_of(), handler) is None,
    ensures
        step_spec::<M, S, T, H, C>(state, command, handler) == (
            Option::<C::Output>::None,
            Transition::<S>::Same,
            command.handler_spec(state.part_of(), handler),
        ),
{
}

/// Law: when the lifted transition is `Next`, the transition hook is invoked
/// exactly once, on the whole old and new state values, after the command's
/// own effects: the handler state after the step is the hook applied to the
/// handler state the command left behind.
pub proof fn lemma_next_implies_hook<M: Hook<S, H>, S: Lens<T>, T, H, C: Command<T, H>>(
    state: S,
    command: C,
    handler: H,
)
    ensures
        ({
            let outcome = step_spec::<M, S, T, H, C>(state, command, handler);
            outcome.1 matches Transition::Next(new_state) ==> outcome.2 == M::hook_spec(
                state,
                new_state,
                command.handler_spec(state.part_of(), handler),
            )
        }),
{
}

/// What a step would compute if the command and the event were invoked
/// directly on the whole state, with no lens in between: execute the command,
/// fire the event, run the hook on a change.
pub open spec fn direct_step_spec<M: Hook<S, H>, S, H, C: Command<S, H>>(
    state: S,
    command: C,
    handler: H,
) -> (Option<C::Output>, Transition<S>, H) {
    let event = command.event_spec(state, handler);
    let executed = command.handler_spec(state, handler);
    match event {
        Option::Some(ev) => {
            let transition = ev.fire_spec(state);
            match transition {
                Transition::Next(new_state) => (
                    event,
                    transition,
                    M::hook_spec(state, new_state, executed),
                ),
                Transition::Same => (event, transition, executed),
            }
        },
        Option::None => (Option::None, Transition::Same, executed),
    }
}

/// Law: the identity view is transparent. For a state type viewed through the
/// identity lens, a step computes exactly what direct invocation of the
/// command and the event on the whole state computes: composition adds no
/// observable behavior.
pub proof fn lemma_identity_view_transparent<M: Hook<S, H>, S, H, C: Command<S, H>>(
    state: S,
    command: C,
    handler: H,
)
    ensures
        step_spec::<M, S, S, H, C>(state, command, handler) == direct_step_spec::<M, S, H, C>(
            state,
            command,
            handler,
        ),
{
}

} // verus!
