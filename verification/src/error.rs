//! Domain errors of the treasure hunt.

use vstd::prelude::*;

verus! {

/// The two domain error conditions. Only `TreasureAlreadyFound` is ever
/// raised; `InvalidLocation` is a declared but currently unused validation
/// hook (no geographic check is performed).
#[derive(Clone, Copy, Debug, PartialEq, Eq, Structural)]
pub enum TreasureHuntError {
    TreasureAlreadyFound,
    InvalidLocation,
}

impl TreasureHuntError {
    /// The human-readable message of this error condition.
    pub fn message(&self) -> (r: &'static str)
        ensures
            *self == TreasureHuntError::TreasureAlreadyFound ==> r@ == "Treasure has already been found"@,
            *self == TreasureHuntError::InvalidLocation ==> r@ == "Invalid location"@,
    {
        match self {
            TreasureHuntError::TreasureAlreadyFound => "Treasure has already been found",
            TreasureHuntError::InvalidLocation => "Invalid location",
        }
    }
}

} // verus!
