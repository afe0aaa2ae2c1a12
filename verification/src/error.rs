//! The error taxonomy of the processor. Every kind is terminal for the
//! current call; nothing is retried and nothing is translated to success.

use vstd::prelude::*;

verus! {

/// A failure reported by the ledger operations themselves, propagated
/// verbatim to the caller.
#[derive(Clone, Copy, PartialEq, Eq, Structural, Debug)]
pub enum LedgerError {
    /// A debit was requested for more than the entry's recorded balance.
    InsufficientBalance,
    /// A credit would push the entry's balance past the largest
    /// representable balance.
    BalanceOverflow,
}

/// The outcome of a failed invocation of the processor.
#[derive(Clone, Copy, PartialEq, Eq, Structural, Debug)]
pub enum ErrorKind {
    /// Fewer than the four required account references were supplied.
    MissingAccount,
    /// The instruction payload is not exactly 8 bytes long.
    InvalidInstructionData,
    /// The sender authority is not flagged as a transaction signer.
    MissingRequiredSignature,
    /// The sender, recipient or fee wallet entry is not flagged mutable.
    AccountNotWritable,
    /// The sender entry is not owned by the expected ledger-managing
    /// program, or records a balance below the requested amount.
    InsufficientFunds,
    /// A ledger debit or credit failed; the ledger's own error is carried
    /// through unchanged.
    Ledger(LedgerError),
}

} // verus!
