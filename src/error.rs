use vstd::prelude::*;

verus! {

/// Recoverable failures reported to the caller of a ledger query.
#[derive(Clone, Copy, Debug, PartialEq, Eq, Structural)]
pub enum RegistryError {
    /// A proposed mint or withdrawal exceeds the available reserve.
    InsufficientStakeIntentBalance,
    /// A beneficiary withdrawal would leave too little value to return the
    /// delegate's principal.
    InsufficientBalance,
    /// The pricing snapshot cannot value the requested amount: the basket
    /// quantity does not fit in 64 bits.
    InvalidPoolPrices,
}

} // verus!
