//! The persistent record representing one claimable treasure.

use vstd::prelude::*;
use crate::identity::AccountId;
use crate::identity::zero_id;

verus! {

/// Largest stored byte length of a treasure's name, in the record's layout.
pub const NAME_MAX: usize = 50;

/// Largest stored byte length of a treasure's symbol.
pub const SYMBOL_MAX: usize = 10;

/// Largest stored byte length of a treasure's metadata URI.
pub const URI_MAX: usize = 200;

/// The length in bytes of a string's characters, as the record stores them.
pub open spec fn byte_len(s: Seq<char>) -> nat {
    vstd::utf8::encode_utf8(s).len()
}

/// One claimable, location-bound treasure.
///
/// The record is created once, with `is_found == false` and zero-valued
/// `finder` and `found_at`, and is mutated exactly once, at claim time.
/// The coordinates are fixed-point values; they are stored but never
/// validated against a claimant's position.
#[derive(Clone, Debug, PartialEq)]
pub struct Treasure {
    /// Identity of the creator; set once and immutable thereafter.
    pub authority: AccountId,
    /// Identity of the unique token representing this treasure; set once.
    pub mint: AccountId,
    /// Display name, at most [`NAME_MAX`] bytes.
    pub treasure_name: String,
    /// Display symbol, at most [`SYMBOL_MAX`] bytes.
    pub treasure_symbol: String,
    /// Metadata URI, at most [`URI_MAX`] bytes.
    pub treasure_uri: String,
    /// Fixed-point latitude.
    pub location_lat: i64,
    /// Fixed-point longitude.
    pub location_lng: i64,
    /// Advisory reward quantity; stored verbatim, never transferred.
    pub bonk_reward: u64,
    /// Whether the treasure has been claimed.
    pub is_found: bool,
    /// The claimant's identity; the zero identity until claimed.
    pub finder: AccountId,
    /// The claim timestamp; zero until claimed.
    pub found_at: i64,
}

/// Size in bytes of the record's fixed on-chain layout.
pub const RECORD_LEN: usize = 8 +  // discriminator
    32 +  // authority
    32 +  // mint
    4 + 50 +  // treasure_name
    4 + 10 +  // treasure_symbol
    4 + 200 +  // treasure_uri
    8 +  // location_lat
    8 +  // location_lng
    8 +  // bonk_reward
    1 +  // is_found
    32 +  // finder
    8;  // found_at

impl Treasure {
    /// Well-formedness: the strings fit the bytes reserved in the layout,
    /// and the claim fields are zero-valued exactly until the treasure is
    /// found.
    pub open spec fn wf(self) -> bool {
        &&& byte_len(self.treasure_name@) <= NAME_MAX
        &&& byte_len(self.treasure_symbol@) <= SYMBOL_MAX
        &&& byte_len(self.treasure_uri@) <= URI_MAX
        &&& (!self.is_found ==> self.finder@ == zero_id() && self.found_at == 0)
    }

    /// Runtime check of [`Self::wf`], for callers outside verified code.
    pub fn is_well_formed(&self) -> (r: bool)
        ensures
            r == self.wf(),
    {
        self.treasure_name.as_str().as_bytes().len() <= NAME_MAX
            && self.treasure_symbol.as_str().as_bytes().len() <= SYMBOL_MAX
            && self.treasure_uri.as_str().as_bytes().len() <= URI_MAX
            && (self.is_found || (self.finder.is_zero() && self.found_at == 0))
    }
}

} // verus!
