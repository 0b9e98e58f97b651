//! The character model: the concrete state and event spaces, the transition
//! table that encodes the game rules, and the public operations that layer a
//! coin economy over the raw engine dispatch.

use vstd::prelude::*;

use crate::engine::Fsm;
use crate::engine::StateBehavior;

verus! {

/// A power-up the character can consume; each carries a fixed coin value.
#[derive(Clone, Copy, PartialEq, Eq, Structural)]
pub enum MarioConsummables {
    Mushroom,
    Flower,
    Feather,
}

/// The forms an alive character can take.
#[derive(Clone, Copy, PartialEq, Eq, Structural)]
pub enum AliveStates {
    SmallMario,
    BigMario(BigMarioStates),
}

/// The three big forms.
#[derive(Clone, Copy, PartialEq, Eq, Structural)]
pub enum BigMarioStates {
    SuperMario,
    CapeMario,
    FireMario,
}

/// The character's condition: alive in some form, or dead (terminal).
#[derive(Clone, Copy, PartialEq, Eq, Structural)]
pub enum States {
    AliveMario(AliveStates),
    DeadMario,
}

/// The events the machine accepts.
#[derive(Clone, Copy, PartialEq, Eq, Structural)]
pub enum Events {
    GetConsummables(MarioConsummables),
    GetHit,
}

/// The mutable context attached to the machine: the remaining lives.
pub struct Context {
    pub number_of_lifes: u8,
}

impl Default for Context {
    /// A fresh context starts with a single life.
    fn default() -> (context: Self)
        ensures
            context.number_of_lifes == 1,
    {
        Context { number_of_lifes: 1 }
    }
}

/// The coin value of each power-up.
pub open spec fn spec_value(consummable: MarioConsummables) -> u16 {
    match consummable {
        MarioConsummables::Mushroom => 100,
        MarioConsummables::Flower => 200,
        MarioConsummables::Feather => 300,
    }
}

impl MarioConsummables {
    /// The fixed coin value this power-up is worth.
    fn value(&self) -> (coins: u16)
        ensures
            coins == spec_value(*self),
    {
        match self {
            Self::Mushroom => 100,
            Self::Flower => 200,
            Self::Feather => 300,
        }
    }
}

/// Whether the transition for `(state, event)` is defined for `lives`
/// remaining: the only arithmetic in the table is the life decrement of the
/// small-and-hit rule, which asks for at least one life to lose.
pub open spec fn spec_transition_defined(state: States, event: Events, lives: nat) -> bool {
    match (state, event) {
        (States::AliveMario(AliveStates::SmallMario), Events::GetHit) => lives >= 1,
        _ => true,
    }
}

/// The transition table, as an ordered rule list (first match wins): the
/// optional next state and the lives left afterwards. Only the
/// small-and-hit rule touches the lives.
pub open spec fn spec_transition(state: States, event: Events, lives: nat) -> (
    Option<States>,
    nat,
) {
    match (state, event) {
        (
            States::AliveMario(AliveStates::SmallMario),
            Events::GetConsummables(MarioConsummables::Mushroom),
        ) => (Some(States::AliveMario(AliveStates::BigMario(BigMarioStates::SuperMario))), lives),
        (
            States::AliveMario(AliveStates::SmallMario)
            | States::AliveMario(AliveStates::BigMario(BigMarioStates::SuperMario))
            | States::AliveMario(AliveStates::BigMario(BigMarioStates::CapeMario)),
            Events::GetConsummables(MarioConsummables::Flower),
        ) => (Some(States::AliveMario(AliveStates::BigMario(BigMarioStates::FireMario))), lives),
        (
            States::AliveMario(AliveStates::SmallMario)
            | States::AliveMario(AliveStates::BigMario(BigMarioStates::SuperMario))
            | States::AliveMario(AliveStates::BigMario(BigMarioStates::FireMario)),
            Events::GetConsummables(MarioConsummables::Feather),
        ) => (Some(States::AliveMario(AliveStates::BigMario(BigMarioStates::CapeMario))), lives),
        (States::AliveMario(AliveStates::SmallMario), Events::GetHit) => {
            let lives_left: nat = if lives >= 1 {
                (lives - 1) as nat
            } else {
                0
            };
            (
                if lives_left == 0 {
                    Some(States::DeadMario)
                } else {
                    None
                },
                lives_left,
            )
        },
        (States::AliveMario(AliveStates::BigMario(_)), Events::GetHit) => (
            Some(States::AliveMario(AliveStates::SmallMario)),
            lives,
        ),
        _ => (None, lives),
    }
}

impl StateBehavior for States {
    type Event = Events;

    type Context = Context;

    open spec fn handle_pre(self, event: Events, context: Context) -> bool {
        spec_transition_defined(self, event, context.number_of_lifes as nat)
    }

    open spec fn next_state(self, event: Events, context: Context) -> Option<States> {
        spec_transition(self, event, context.number_of_lifes as nat).0
    }

    open spec fn next_context(self, event: Events, context: Context) -> Context {
        Context {
            number_of_lifes: spec_transition(self, event, context.number_of_lifes as nat).1 as u8,
        }
    }

    /// The transition table. Evaluated top to bottom, first match wins;
    /// every unmatched combination falls through to a no-op.
    fn handle(&self, event: &Events, context: &mut Context) -> (next: Option<States>) {
        match (self, event) {
            (
                States::AliveMario(AliveStates::SmallMario),
                Events::GetConsummables(MarioConsummables::Mushroom),
            ) => Some(States::AliveMario(AliveStates::BigMario(BigMarioStates::SuperMario))),
            (
                States::AliveMario(AliveStates::SmallMario)
                | States::AliveMario(AliveStates::BigMario(BigMarioStates::SuperMario))
                | States::AliveMario(AliveStates::BigMario(BigMarioStates::CapeMario)),
                Events::GetConsummables(MarioConsummables::Flower),
            ) => Some(States::AliveMario(AliveStates::BigMario(BigMarioStates::FireMario))),
            (
                States::AliveMario(AliveStates::SmallMario)
                | States::AliveMario(AliveStates::BigMario(BigMarioStates::SuperMario))
                | States::AliveMario(AliveStates::BigMario(BigMarioStates::FireMario)),
                Events::GetConsummables(MarioConsummables::Feather),
            ) => Some(States::AliveMario(AliveStates::BigMario(BigMarioStates::CapeMario))),
            (States::AliveMario(AliveStates::SmallMario), Events::GetHit) => {
                context.number_of_lifes -= 1;
                if context.number_of_lifes == 0 {
                    Some(States::DeadMario)
                } else {
                    None
                }
            },
            (States::AliveMario(AliveStates::BigMario(_)), Events::GetHit) => Some(
                States::AliveMario(AliveStates::SmallMario),
            ),
            _ => None,
        }
    }
}

/// The abstract value of a character: its state tag, its remaining lives and
/// its accumulated coins, as mathematical integers.
pub struct MarioView {
    pub state: States,
    pub lives: nat,
    pub coins: nat,
}

/// The coin total after crediting one power-up, before the reward check.
pub open spec fn spec_coins_gained(view: MarioView, consummable: MarioConsummables) -> nat {
    view.coins + spec_value(consummable) as nat
}

/// The value of a character after `get_consummable`: the power-up's coin
/// value is credited first; crossing the thousand-coin threshold resets the
/// coins and awards an extra life; only then is the consume event dispatched.
pub open spec fn spec_consume(view: MarioView, consummable: MarioConsummables) -> MarioView {
    let gained: nat = spec_coins_gained(view, consummable);
    let rewarded: bool = gained >= 1000;
    let lives_before_dispatch: nat = if rewarded {
        view.lives + 1
    } else {
        view.lives
    };
    let coins_after: nat = if rewarded {
        0
    } else {
        gained
    };
    let step = spec_transition(
        view.state,
        Events::GetConsummables(consummable),
        lives_before_dispatch,
    );
    MarioView {
        state: match step.0 {
            Some(next) => next,
            None => view.state,
        },
        lives: step.1,
        coins: coins_after,
    }
}

/// The value of a character after `get_hit`: the coins are cleared
/// unconditionally, then the hit event is dispatched.
pub open spec fn spec_hit(view: MarioView) -> MarioView {
    let step = spec_transition(view.state, Events::GetHit, view.lives);
    MarioView {
        state: match step.0 {
            Some(next) => next,
            None => view.state,
        },
        lives: step.1,
        coins: 0,
    }
}

/// Well-formedness of an abstract character value: an alive character has at
/// least one life to lose, and the coins sit strictly below the reward
/// threshold (the threshold resets them in the very call that crosses it).
pub open spec fn view_inv(view: MarioView) -> bool {
    &&& (view.state is AliveMario ==> view.lives >= 1)
    &&& view.coins < 1000
}

/// The character: a state machine over [`States`] plus the coin counter the
/// economy rules maintain outside the engine's context.
pub struct Mario {
    machine: Fsm<States>,
    number_of_coins: u16,
}

impl View for Mario {
    type V = MarioView;

    closed spec fn view(&self) -> MarioView {
        MarioView {
            state: self.machine.current_state,
            lives: self.machine.context.number_of_lifes as nat,
            coins: self.number_of_coins as nat,
        }
    }
}

impl Mario {
    /// Well-formedness of a character; `new` establishes it and every
    /// mutator preserves it.
    pub open spec fn inv(self) -> bool {
        view_inv(self@)
    }

    /// Construct a character in the given initial state, with one life and
    /// no coins. Never fails.
    pub fn new(initial_state: States) -> (mario: Mario)
        ensures
            mario@.state == initial_state,
            mario@.lives == 1,
            mario@.coins == 0,
            mario.inv(),
    {
        Mario { machine: Fsm::new(initial_state, Context::default()), number_of_coins: 0 }
    }

    /// The current state, by value. No side effects.
    pub fn current_state(&self) -> (state: States)
        ensures
            state == self@.state,
    {
        self.machine.current_state()
    }

    /// Whether the character is not dead.
    pub fn is_alive(&self) -> (alive: bool)
        ensures
            alive == (self@.state != States::DeadMario),
    {
        self.machine.current_state != States::DeadMario
    }

    /// The remaining lives.
    pub fn number_of_lifes(&self) -> (lives: u8)
        ensures
            lives == self@.lives,
    {
        self.machine.context.number_of_lifes
    }

    /// The accumulated coins.
    pub fn number_of_coins(&self) -> (coins: u16)
        ensures
            coins == self@.coins,
    {
        self.number_of_coins
    }

    /// Consume a power-up: credit its coin value, award an extra life if the
    /// total reaches a thousand (resetting the coins), then dispatch the
    /// consume event through the transition table.
    ///
    /// The precondition on the lives only rules out overflowing the life
    /// counter's machine width in the call that would earn the reward.
    pub fn get_consummable(&mut self, consummable: MarioConsummables)
        requires
            old(self).inv(),
            spec_coins_gained(old(self)@, consummable) >= 1000 ==> old(self)@.lives < 255,
        ensures
            final(self)@ == spec_consume(old(self)@, consummable),
            final(self).inv(),
    {
        self.number_of_coins += consummable.value();
        if self.number_of_coins >= 1000 {
            self.number_of_coins = 0;
            self.machine.context.number_of_lifes += 1;
        }
        self.machine.dispatch(Events::GetConsummables(consummable));
    }

    /// Take a hit: reset the coins unconditionally, then dispatch the hit
    /// event through the transition table, which may cost a life or a form.
    pub fn get_hit(&mut self)
        requires
            old(self).inv(),
        ensures
            final(self)@ == spec_hit(old(self)@),
            final(self).inv(),
    {
        self.number_of_coins = 0;
        self.machine.dispatch(Events::GetHit);
    }
}

} // verus!
