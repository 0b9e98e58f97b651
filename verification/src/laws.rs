//! The laws of the character model, each proved once and for all over the
//! spec-level transition table and the abstract character values that the
//! public operations' contracts speak of.

use vstd::prelude::*;

use crate::mario::AliveStates;
use crate::mario::BigMarioStates;
use crate::mario::Context;
use crate::mario::Events;
use crate::mario::MarioConsummables;
use crate::mario::MarioView;
use crate::mario::States;
use crate::mario::spec_coins_gained;
use crate::mario::spec_consume;
use crate::mario::spec_hit;
use crate::mario::spec_transition;
use crate::mario::spec_value;
use crate::mario::view_inv;
use crate::engine::Fsm;
use crate::engine::StateBehavior;

verus! {

/// Whether `(state, event)` is matched by one of the five explicit rules of
/// the transition table; every other pair falls through to the final no-op
/// rule.
pub open spec fn rule_applies(state: States, event: Events) -> bool {
    match (state, event) {
        (
            States::AliveMario(AliveStates::SmallMario),
            Events::GetConsummables(MarioConsummables::Mushroom),
        ) => true,
        (
            States::AliveMario(AliveStates::SmallMario)
            | States::AliveMario(AliveStates::BigMario(BigMarioStates::SuperMario))
            | States::AliveMario(AliveStates::BigMario(BigMarioStates::CapeMario)),
            Events::GetConsummables(MarioConsummables::Flower),
        ) => true,
        (
            States::AliveMario(AliveStates::SmallMario)
            | States::AliveMario(AliveStates::BigMario(BigMarioStates::SuperMario))
            | States::AliveMario(AliveStates::BigMario(BigMarioStates::FireMario)),
            Events::GetConsummables(MarioConsummables::Feather),
        ) => true,
        (States::AliveMario(AliveStates::SmallMario), Events::GetHit) => true,
        (States::AliveMario(AliveStates::BigMario(_)), Events::GetHit) => true,
        _ => false,
    }
}

/// Totality: every pair of the closed state-and-event product has a defined
/// transition whenever an alive character has a life to lose, so the handler
/// is defined on the whole product for every reachable context.
pub proof fn lemma_handle_total(state: States, event: Events, context: Context)
    requires
        state is AliveMario ==> context.number_of_lifes >= 1,
    ensures
        state.handle_pre(event, context),
{
}

/// The no-op rule: a pair that no explicit rule matches leaves both the
/// state and the lives exactly as they were.
pub proof fn lemma_noop_rule(state: States, event: Events, lives: nat)
    requires
        !rule_applies(state, event),
    ensures
        spec_transition(state, event, lives).0 is None,
        spec_transition(state, event, lives).1 == lives,
{
}

/// The no-op rule at the engine: dispatching a pair that no explicit rule
/// matches returns the machine unchanged.
pub proof fn lemma_noop_dispatch(machine: Fsm<States>, event: Events)
    requires
        !rule_applies(machine.current_state, event),
    ensures
        machine.spec_dispatch(event) == machine,
{
}

/// A dead character is terminal: neither a hit nor any power-up changes the
/// state or the lives (the wrapping operations still touch the coins).
pub proof fn lemma_dead_is_terminal(view: MarioView, consummable: MarioConsummables)
    requires
        view.state == States::DeadMario,
    ensures
        spec_hit(view).state == States::DeadMario,
        spec_hit(view).lives == view.lives,
        spec_consume(view, consummable).state == States::DeadMario,
        spec_consume(view, consummable).lives == (
        if spec_coins_gained(view, consummable) >= 1000 {
            view.lives + 1
        } else {
            view.lives
        }),
{
}

/// A hit on any big form knocks the character back exactly one tier, to
/// small, without touching the lives.
pub proof fn lemma_hit_from_big(view: MarioView)
    requires
        view.state matches States::AliveMario(AliveStates::BigMario(_)),
    ensures
        spec_hit(view).state == States::AliveMario(AliveStates::SmallMario),
        spec_hit(view).lives == view.lives,
        spec_hit(view).coins == 0,
{
}

/// A hit on a small character costs exactly one life; the character dies
/// exactly when that was the last one, and otherwise stays small.
pub proof fn lemma_hit_from_small(view: MarioView)
    requires
        view.state == States::AliveMario(AliveStates::SmallMario),
        view.lives >= 1,
    ensures
        spec_hit(view).lives == view.lives - 1,
        view.lives == 1 ==> spec_hit(view).state == States::DeadMario,
        view.lives > 1 ==> spec_hit(view).state == view.state,
        spec_hit(view).coins == 0,
{
}

/// The character after `n` successive hits.
pub open spec fn spec_hit_n(view: MarioView, n: nat) -> MarioView
    decreases n,
{
    if n == 0 {
        view
    } else {
        spec_hit_n(spec_hit(view), (n - 1) as nat)
    }
}

/// A dead character stays dead, with its lives untouched, under any number
/// of further hits.
pub proof fn lemma_dead_absorbs_hits(view: MarioView, n: nat)
    requires
        view.state == States::DeadMario,
    ensures
        spec_hit_n(view, n).state == States::DeadMario,
        spec_hit_n(view, n).lives == view.lives,
    decreases n,
{
    if n > 0 {
        lemma_dead_absorbs_hits(spec_hit(view), (n - 1) as nat);
    }
}

/// Monotonic life loss from small: each hit costs exactly one life until
/// none is left, at which point the state becomes dead and remains dead,
/// with the lives pinned at zero, for all further hits.
pub proof fn lemma_monotonic_life_loss(view: MarioView, n: nat)
    requires
        view.state == States::AliveMario(AliveStates::SmallMario),
        view.lives >= 1,
    ensures
        n <= view.lives ==> spec_hit_n(view, n).lives == view.lives - n,
        n < view.lives ==> spec_hit_n(view, n).state == view.state,
        n >= view.lives ==> spec_hit_n(view, n).state == States::DeadMario,
        n >= view.lives ==> spec_hit_n(view, n).lives == 0,
    decreases n,
{
    if n > 0 {
        let after_one = spec_hit(view);
        if view.lives == 1 {
            lemma_dead_absorbs_hits(after_one, (n - 1) as nat);
        } else {
            lemma_monotonic_life_loss(after_one, (n - 1) as nat);
        }
    }
}

/// Monotonic life loss from a big form: the first hit only knocks the
/// character back to small, and the following hits then each cost one life
/// until the character is dead for good.
pub proof fn lemma_monotonic_life_loss_from_big(view: MarioView, n: nat)
    requires
        view.state matches States::AliveMario(AliveStates::BigMario(_)),
        view.lives >= 1,
    ensures
        spec_hit(view).state == States::AliveMario(AliveStates::SmallMario),
        spec_hit(view).lives == view.lives,
        n <= view.lives ==> spec_hit_n(view, n + 1).lives == view.lives - n,
        n < view.lives ==> spec_hit_n(view, n + 1).state == States::AliveMario(
            AliveStates::SmallMario,
        ),
        n >= view.lives ==> spec_hit_n(view, n + 1).state == States::DeadMario,
        n >= view.lives ==> spec_hit_n(view, n + 1).lives == 0,
{
    lemma_hit_from_big(view);
    lemma_monotonic_life_loss(spec_hit(view), n);
    assert(spec_hit_n(view, n + 1) == spec_hit_n(spec_hit(view), n));
}

/// The coin reward threshold: the consume call whose credited coins reach a
/// thousand resets them to zero and awards exactly one extra life, and any
/// other consume call merely accumulates, with the lives untouched.
pub proof fn lemma_coin_reward(view: MarioView, consummable: MarioConsummables)
    ensures
        spec_coins_gained(view, consummable) >= 1000 ==> spec_consume(view, consummable).coins == 0
            && spec_consume(view, consummable).lives == view.lives + 1,
        spec_coins_gained(view, consummable) < 1000 ==> spec_consume(view, consummable).coins
            == view.coins + spec_value(consummable) && spec_consume(view, consummable).lives
            == view.lives,
{
}

/// A hit always clears the coins, whatever they were and whatever state
/// comes out.
pub proof fn lemma_hit_resets_coins(view: MarioView)
    ensures
        spec_hit(view).coins == 0,
{
}

/// Well-formedness is preserved by both operations: an alive character
/// always keeps a life to lose, and the coins stay below the threshold.
pub proof fn lemma_operations_preserve_inv(view: MarioView, consummable: MarioConsummables)
    requires
        view_inv(view),
    ensures
        view_inv(spec_hit(view)),
        view_inv(spec_consume(view, consummable)),
{
}

} // verus!
