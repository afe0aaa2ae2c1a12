//! The processor's view of the records the host lends it for one call.

use vstd::prelude::*;

verus! {

/// The identity of an account or of a program, as the host names it.
#[derive(Clone, Copy, PartialEq, Eq, Structural, Debug, Hash)]
pub struct Address {
    pub value: u64,
}

/// One ledger entry as the host hands it over, borrowed for the duration of
/// a single call: an address, the identity of the program managing the
/// entry, the recorded balance, and the host's signer and mutability flags.
#[derive(Clone, Copy, PartialEq, Eq, Structural, Debug)]
pub struct Account {
    pub address: Address,
    pub owner: Address,
    pub balance: u64,
    pub is_signer: bool,
    pub is_writable: bool,
}

/// The same account with its balance replaced; every other field is kept.
pub open spec fn spec_with_balance(account: Account, balance: u64) -> Account {
    Account {
        address: account.address,
        owner: account.owner,
        balance: balance,
        is_signer: account.is_signer,
        is_writable: account.is_writable,
    }
}

} // verus!
