//! A small verified state-machine library: a generic event-dispatch engine
//! and, built on it, a game character with lives, coins and a power-up
//! transition table.

pub mod engine;
pub mod laws;
pub mod mario;

pub use engine::Fsm;
pub use engine::StateBehavior;
