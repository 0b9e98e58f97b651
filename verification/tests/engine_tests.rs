//! Tests that drive the generic engine and the raw transition table,
//! below the character model's coin economy.

use mario_fsm::Fsm;
use mario_fsm::StateBehavior;
use mario_fsm::mario::AliveStates;
use mario_fsm::mario::BigMarioStates;
use mario_fsm::mario::Context;
use mario_fsm::mario::Events;
use mario_fsm::mario::MarioConsummables;
use mario_fsm::mario::States;

fn all_states() -> [States; 5] {
    [
        States::AliveMario(AliveStates::SmallMario),
        States::AliveMario(AliveStates::BigMario(BigMarioStates::SuperMario)),
        States::AliveMario(AliveStates::BigMario(BigMarioStates::FireMario)),
        States::AliveMario(AliveStates::BigMario(BigMarioStates::CapeMario)),
        States::DeadMario,
    ]
}

fn all_events() -> [Events; 4] {
    [
        Events::GetConsummables(MarioConsummables::Mushroom),
        Events::GetConsummables(MarioConsummables::Flower),
        Events::GetConsummables(MarioConsummables::Feather),
        Events::GetHit,
    ]
}

#[test]
fn handle_is_total_over_the_closed_product() {
    // Every (state, event) pair returns a defined result; with several lives
    // in hand, no pair panics and none leaves the lives ahead of where they
    // started.
    for state in all_states() {
        for event in all_events() {
            let mut context = Context { number_of_lifes: 3 };
            let next = state.handle(&event, &mut context);
            assert!(next.is_some() || next.is_none());
            assert!(context.number_of_lifes == 3 || context.number_of_lifes == 2);
        }
    }
}

#[test]
fn unmatched_pairs_leave_state_and_lives_unchanged() {
    // The pairs that fall through to the final rule: every event while dead,
    // a mushroom in any big form, and the power-up the character already
    // embodies.
    let noop_pairs = [
        (States::DeadMario, Events::GetHit),
        (States::DeadMario, Events::GetConsummables(MarioConsummables::Mushroom)),
        (States::DeadMario, Events::GetConsummables(MarioConsummables::Flower)),
        (States::DeadMario, Events::GetConsummables(MarioConsummables::Feather)),
        (
            States::AliveMario(AliveStates::BigMario(BigMarioStates::SuperMario)),
            Events::GetConsummables(MarioConsummables::Mushroom),
        ),
        (
            States::AliveMario(AliveStates::BigMario(BigMarioStates::FireMario)),
            Events::GetConsummables(MarioConsummables::Mushroom),
        ),
        (
            States::AliveMario(AliveStates::BigMario(BigMarioStates::CapeMario)),
            Events::GetConsummables(MarioConsummables::Mushroom),
        ),
        (
            States::AliveMario(AliveStates::BigMario(BigMarioStates::FireMario)),
            Events::GetConsummables(MarioConsummables::Flower),
        ),
        (
            States::AliveMario(AliveStates::BigMario(BigMarioStates::CapeMario)),
            Events::GetConsummables(MarioConsummables::Feather),
        ),
    ];
    for (state, event) in noop_pairs {
        let mut machine = Fsm::new(state, Context { number_of_lifes: 2 });
        machine.dispatch(event);
        assert!(machine.current_state() == state);
        assert_eq!(machine.context.number_of_lifes, 2);
    }
}

#[test]
fn dispatch_commits_a_returned_state_change() {
    let mut machine = Fsm::new(
        States::AliveMario(AliveStates::SmallMario),
        Context { number_of_lifes: 1 },
    );
    machine.dispatch(Events::GetConsummables(MarioConsummables::Mushroom));
    assert!(
        machine.current_state()
            == States::AliveMario(AliveStates::BigMario(BigMarioStates::SuperMario))
    );
    assert_eq!(machine.context.number_of_lifes, 1);
}

#[test]
fn dispatch_applies_context_changes_even_without_a_state_change() {
    // A non-fatal hit on a small character: the transition function returns
    // no next state, yet the context has lost a life.
    let mut machine = Fsm::new(
        States::AliveMario(AliveStates::SmallMario),
        Context { number_of_lifes: 2 },
    );
    machine.dispatch(Events::GetHit);
    assert!(machine.current_state() == States::AliveMario(AliveStates::SmallMario));
    assert_eq!(machine.context.number_of_lifes, 1);
}

#[test]
fn fatal_hit_on_small_commits_the_dead_state() {
    let mut machine = Fsm::new(
        States::AliveMario(AliveStates::SmallMario),
        Context { number_of_lifes: 1 },
    );
    machine.dispatch(Events::GetHit);
    assert!(machine.current_state() == States::DeadMario);
    assert_eq!(machine.context.number_of_lifes, 0);
}

#[test]
fn default_context_has_one_life() {
    let context = Context::default();
    assert_eq!(context.number_of_lifes, 1);
}
