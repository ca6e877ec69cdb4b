//! Registry and marketplace engine for conservation collectibles: user
//! accounts, uniquely identified items, and a listing book of asking prices,
//! kept mutually consistent by verified mutation operations.

pub mod error;
pub mod types;
pub mod fingerprint;
pub mod keyed;
pub mod store;
