//! Terrains: field conditions that grounded creatures feel.
use vstd::prelude::*;

verus! {

/// A terrain.
#[derive(Copy, Clone, Debug, PartialEq, Eq, Structural, Hash)]
pub enum Terrain {
    /// Keeps grounded creatures from falling asleep and strengthens their Electric moves.
    Electric,
    /// Restores a sixteenth of maximum HP to grounded creatures each turn, halves the damage of
    /// Bulldoze, Earthquake and Magnitude, and strengthens Grass moves of grounded creatures.
    Grassy,
    /// Keeps grounded creatures free of status conditions and confusion, and halves the power of
    /// Dragon moves against them.
    Misty,
    /// Shields grounded creatures from moves of raised priority and strengthens Psychic moves
    /// of grounded creatures.
    Psychic,
}

} // verus!
