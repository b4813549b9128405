//! The two-valued status of a player character.

use vstd::prelude::*;

verus! {

/// Whether the player character rests on the stage or is airborne.
#[derive(Clone, Copy, Debug, PartialEq, Eq, Structural)]
pub enum CharacterState {
    Grounded,
    InAir,
}

impl CharacterState {
    /// True for the grounded state.
    pub fn is_grounded(&self) -> (r: bool)
        ensures
            r == (*self is Grounded),
    {
        match self {
            CharacterState::Grounded => true,
            CharacterState::InAir => false,
        }
    }
}

} // verus!
