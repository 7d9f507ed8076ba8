use vstd::prelude::*;

verus! {

/// Failure signals of the ledger. Every error is fatal to the current
/// call only: the failing operation leaves the ledger exactly as it
/// was, so an error never comes with a partial write.
#[derive(Clone, Copy, Debug, PartialEq, Eq, Structural)]
pub enum TokenError {
    /// The sending account's balance is smaller than the requested amount.
    InsufficientBalance,
    /// The caller presented no valid authorization for the sending account.
    Unauthorized,
    /// The metadata record was read before any initialization.
    UninitializedMetadata,
    /// A balance update would leave the signed 128-bit range. The policy
    /// chosen here is checked-abort: the transfer fails and changes
    /// nothing, rather than wrap or saturate.
    BalanceOverflow,
}

} // verus!
