//! What a token transfer has to satisfy before and after it is made.
//!
//! Tokens that take a fee, mint or burn along the way are not supported: both balances have to
//! change by the amount moved, exactly.
use crate::errors::{EscrowError, Refusal};
use crate::guards::{ensure, unless};
use vstd::prelude::*;

verus! {

/// What is wrong with moving `amount` out of a balance of `from_before`.
pub open spec fn transfer_fault(amount: i128, from_before: i128) -> Option<EscrowError> {
    if amount <= 0 {
        Some(EscrowError::TransferAmountNotPositive)
    } else if from_before < amount {
        Some(EscrowError::InsufficientTokenBalanceBeforeTransfer)
    } else {
        None
    }
}

/// What is wrong with the balances around a transfer of `amount`.
pub open spec fn balance_delta_fault(
    amount: i128,
    from_before: i128,
    from_after: i128,
    to_before: i128,
    to_after: i128,
) -> Option<EscrowError> {
    if !(i128::MIN <= from_before - from_after <= i128::MAX) {
        Some(EscrowError::SenderBalanceUnderflow)
    } else if !(i128::MIN <= to_after - to_before <= i128::MAX) {
        Some(EscrowError::RecipientBalanceUnderflow)
    } else if from_before - from_after != amount {
        Some(EscrowError::SenderBalanceDeltaMismatch)
    } else if to_after - to_before != amount {
        Some(EscrowError::RecipientBalanceDeltaMismatch)
    } else {
        None
    }
}

/// Refuses a transfer that is empty or overdraws the sender.
pub fn check_transfer(amount: i128, from_before: i128) -> (r: Result<(), Refusal>)
    ensures
        r == unless(transfer_fault(amount, from_before)),
{
    ensure(amount > 0, EscrowError::TransferAmountNotPositive)?;
    ensure(from_before >= amount, EscrowError::InsufficientTokenBalanceBeforeTransfer)
}

/// Refuses a transfer after which either balance did not change by exactly `amount`.
pub fn check_balance_deltas(
    amount: i128,
    from_before: i128,
    from_after: i128,
    to_before: i128,
    to_after: i128,
) -> (r: Result<(), Refusal>)
    ensures
        r == unless(balance_delta_fault(amount, from_before, from_after, to_before, to_after)),
{
    let spent: i128 = match from_before.checked_sub(from_after) {
        Some(spent) => spent,
        None => {
            return Err(Refusal::Error(EscrowError::SenderBalanceUnderflow));
        },
    };
    let received: i128 = match to_after.checked_sub(to_before) {
        Some(received) => received,
        None => {
            return Err(Refusal::Error(EscrowError::RecipientBalanceUnderflow));
        },
    };
    ensure(spent == amount, EscrowError::SenderBalanceDeltaMismatch)?;
    ensure(received == amount, EscrowError::RecipientBalanceDeltaMismatch)
}

} // verus!
