//! The ledger interface: the only way a balance changes. Each operation
//! re-validates its own invariant — a debit never drives a balance below
//! zero, a credit never pushes it past the largest representable balance —
//! and on failure leaves the entry untouched.

use vstd::prelude::*;
use crate::account::{spec_with_balance, Account};
use crate::error::LedgerError;

verus! {

/// Whether a credit of `amount` fits the entry's balance without
/// overflowing the 64-bit balance representation.
pub open spec fn spec_credit_fits(entry: Account, amount: u64) -> bool {
    entry.balance + amount <= u64::MAX
}

/// Removes `amount` from the entry's balance. Exactly when the recorded
/// balance is at least `amount` the debit succeeds and only the balance
/// changes; otherwise the entry is left untouched and the ledger reports
/// `InsufficientBalance`.
pub fn debit(entry: &mut Account, amount: u64) -> (r: Result<(), LedgerError>)
    ensures
        old(entry).balance >= amount ==> r == Ok::<(), LedgerError>(()) && *final(entry)
            == spec_with_balance(*old(entry), (old(entry).balance - amount) as u64),
        old(entry).balance < amount ==> r == Err::<(), LedgerError>(
            LedgerError::InsufficientBalance,
        ) && *final(entry) == *old(entry),
{
    if entry.balance >= amount {
        entry.balance = entry.balance - amount;
        Ok(())
    } else {
        Err(LedgerError::InsufficientBalance)
    }
}

/// Adds `amount` to the entry's balance. Exactly when the sum fits the
/// 64-bit balance representation the credit succeeds and only the balance
/// changes; otherwise the entry is left untouched and the ledger reports
/// `BalanceOverflow`.
pub fn credit(entry: &mut Account, amount: u64) -> (r: Result<(), LedgerError>)
    ensures
        spec_credit_fits(*old(entry), amount) ==> r == Ok::<(), LedgerError>(()) && *final(entry)
            == spec_with_balance(*old(entry), (old(entry).balance + amount) as u64),
        !spec_credit_fits(*old(entry), amount) ==> r == Err::<(), LedgerError>(
            LedgerError::BalanceOverflow,
        ) && *final(entry) == *old(entry),
{
    if amount <= u64::MAX - entry.balance {
        entry.balance = entry.balance + amount;
        Ok(())
    } else {
        Err(LedgerError::BalanceOverflow)
    }
}

} // verus!
