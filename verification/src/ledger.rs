//! A model of the host ledger: account identities and balance transfers.
//!
//! The host execution environment owns the real ledger and verifies the
//! sender's authorization; this module models the balance movement itself, so
//! that the payment-bearing operations can state exactly how much moves and
//! when a payment is refused.

use vstd::prelude::*;

use crate::errors::ErrorCode;

verus! {

/// The identity of an account, as the host's authentication layer hands it
/// over.  The service only compares identities and records them; it never
/// inspects them.
#[derive(Clone, Copy, Debug, PartialEq, Eq, Hash, Structural)]
pub struct AccountId {
    pub id: u64,
}

/// Whether a transfer of `amount` from a sender holding `sender_balance` to a
/// receiver holding `receiver_balance` can go through: the sender must hold
/// the amount, and the receiver's balance must not overflow.
pub open spec fn transfer_ok(sender_balance: int, receiver_balance: int, amount: int) -> bool {
    amount <= sender_balance && receiver_balance + amount <= u64::MAX
}

/// Moves `amount` from a sender holding `sender_balance` to a receiver
/// holding `receiver_balance`, returning the two new balances, or
/// `TransferFailed` with both balances untouched.
pub fn transfer(sender_balance: u64, receiver_balance: u64, amount: u64) -> (r: Result<
    (u64, u64),
    ErrorCode,
>)
    ensures
        r is Ok <==> transfer_ok(sender_balance as int, receiver_balance as int, amount as int),
        r is Ok ==> r->Ok_0.0 == sender_balance - amount,
        r is Ok ==> r->Ok_0.1 == receiver_balance + amount,
        r is Err ==> r->Err_0 == ErrorCode::TransferFailed,
{
    if amount > sender_balance {
        Err(ErrorCode::TransferFailed)
    } else if amount > u64::MAX - receiver_balance {
        Err(ErrorCode::TransferFailed)
    } else {
        Ok((sender_balance - amount, receiver_balance + amount))
    }
}

} // verus!
