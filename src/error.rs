use vstd::prelude::*;

verus! {

/// Typed failures of the store's operations.
#[derive(Debug, Clone, PartialEq, Eq)]
pub enum TerraPulseError {
    /// The caller is anonymous, or is not the owner of the resource.
    NotAuthorized,
    UserNotFound,
    NFTNotFound,
    /// A domain rule was violated; the text says which.
    InvalidOperation(String),
    /// Reserved for real payment settlement.
    InsufficientFunds,
    /// An internal consistency check failed.
    SystemError(String),
}

} // verus!
