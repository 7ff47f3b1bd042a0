use vstd::prelude::*;

verus! {

/// Why a combatant or an encounter could not be built.
#[derive(Clone, Copy, Debug, PartialEq, Eq, Structural)]
pub enum ValidationError {
    /// The character's name is empty.
    EmptyName,
    /// The character's level is zero or above the level cap.
    InvalidLevel,
    /// An attribute lies outside the range its level allows.
    AttributeOutOfRange,
    /// The monster tier is zero or above the tier cap.
    InvalidTier,
    /// A prebuilt combatant has stats out of bounds or no health left.
    InvalidCombatant,
}

} // verus!
