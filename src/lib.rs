//! A turn-based encounter engine for a small role-playing game: a character
//! model, the race and role modifier table, combatant construction, a seeded
//! random source and the encounter state machine.
use vstd::prelude::*;

pub mod character;
pub mod combatant;
pub mod encounter;
pub mod error;
pub mod laws;
pub mod modifiers;
pub mod rng;

verus! {

} // verus!
