//! The generic state-machine engine: a current state, a caller-supplied
//! context, and a single dispatch operation. The engine has no domain
//! knowledge; a domain supplies its rules by implementing [`StateBehavior`].

use vstd::prelude::*;

verus! {

/// A domain's transition function: from the current state and an event,
/// compute an optional next state, with exclusive mutable access to the
/// context. `None` means the event leaves the state unchanged, though the
/// context may still have been mutated.
///
/// The spec functions give the mathematical meaning of `handle`:
/// `handle_pre` delimits the inputs on which the domain's arithmetic is
/// defined, and `next_state` / `next_context` say exactly what `handle`
/// returns and how it leaves the context.
pub trait StateBehavior: Sized + Copy {
    type Event;
    type Context;

    /// The inputs on which `handle` is defined.
    spec fn handle_pre(self, event: Self::Event, context: Self::Context) -> bool;

    /// The optional next state that `handle` returns.
    spec fn next_state(self, event: Self::Event, context: Self::Context) -> Option<Self>;

    /// The context exactly as `handle` leaves it.
    spec fn next_context(self, event: Self::Event, context: Self::Context) -> Self::Context;

    fn handle(&self, event: &Self::Event, context: &mut Self::Context) -> (next: Option<Self>)
        requires
            self.handle_pre(*event, *old(context)),
        ensures
            next == self.next_state(*event, *old(context)),
            *final(context) == self.next_context(*event, *old(context)),
    ;
}

/// A state machine instance: exactly one current state and one context.
///
/// The state field is replaced only by [`Fsm::dispatch`]; the owning domain
/// model may mutate the context directly between dispatches, so both fields
/// are public.
pub struct Fsm<S: StateBehavior> {
    pub current_state: S,
    pub context: S::Context,
}

impl<S: StateBehavior> Fsm<S> {
    /// The machine after one event: the state is replaced only when the
    /// transition function returns a next state, and the context is
    /// whatever the transition function left behind.
    pub open spec fn spec_dispatch(self, event: S::Event) -> Self {
        Fsm {
            current_state: match self.current_state.next_state(event, self.context) {
                Some(next) => next,
                None => self.current_state,
            },
            context: self.current_state.next_context(event, self.context),
        }
    }

    /// Construct a machine in the given initial state with the given context.
    pub fn new(initial_state: S, context: S::Context) -> (machine: Self)
        ensures
            machine.current_state == initial_state,
            machine.context == context,
    {
        Fsm { current_state: initial_state, context }
    }

    /// The current state, by value. No side effects.
    pub fn current_state(&self) -> (state: S)
        ensures
            state == self.current_state,
    {
        self.current_state
    }

    /// Submit one event: consult the transition function and commit the
    /// resulting state change, if any. Context mutations made by the
    /// transition function are applied unconditionally.
    pub fn dispatch(&mut self, event: S::Event)
        requires
            old(self).current_state.handle_pre(event, old(self).context),
        ensures
            *final(self) == old(self).spec_dispatch(event),
    {
        let next = self.current_state.handle(&event, &mut self.context);
        if let Some(next_state) = next {
            self.current_state = next_state;
        }
    }
}

} // verus!
