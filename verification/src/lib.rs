//! On-chain treasure hunt: an authority registers a location-bound treasure
//! backed by a unique token, and a finder later claims it.
//!
//! The verified core is two state transitions over one record type
//! ([`treasure::Treasure`]): creation and discovery. All real work (token
//! minting, metadata account creation) is delegated to external on-chain
//! programs; this library computes the record transitions and the parameters
//! of those external calls, and derives the program addresses they require.

pub mod error;
pub mod hunt;
pub mod identity;
pub mod pda;
pub mod treasure;
