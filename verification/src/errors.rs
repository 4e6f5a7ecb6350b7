//! Error kinds surfaced by the service's operations.

use vstd::prelude::*;

verus! {

/// Why an operation failed.  Every error is terminal for the current call and
/// leaves all state unchanged.
#[derive(Clone, Copy, Debug, PartialEq, Eq, Structural)]
pub enum ErrorCode {
    /// The requested subscription tier is not one of Basic, Premium or
    /// Enterprise.
    InvalidSubscriptionTier,
    /// Reserved for strict fee validation; no operation currently returns it.
    IncorrectFeeAmount,
    /// The subscription's last payment is thirty days old or older.
    SubscriptionExpired,
    /// The ledger refused the payment: the sender's balance is too small, or
    /// the receiver's balance cannot hold the amount.
    TransferFailed,
    /// The asset record cannot be created within its fixed storage budget.
    StorageAllocationFailed,
}

} // verus!
