//! The fee split: one percent of the gross amount, rounded down, goes to
//! the fee wallet; the rest is the net amount for the recipient.

use vstd::prelude::*;

verus! {

/// The fee charged on a gross amount: one percent, rounded down.
pub open spec fn spec_fee(amount: u64) -> int {
    amount as int / 100
}

/// The net amount forwarded to the recipient: the gross amount less the fee.
pub open spec fn spec_net(amount: u64) -> int {
    amount - spec_fee(amount)
}

/// Law: for every gross amount the fee is the floor of one hundredth, the
/// fee never exceeds the amount, and fee and net recombine exactly to the
/// gross amount.
pub proof fn lemma_fee_net_total(amount: u64)
    ensures
        spec_fee(amount) == amount as int / 100,
        0 <= spec_fee(amount) <= amount,
        spec_fee(amount) + spec_net(amount) == amount,
{
}

/// Law: an amount below one hundred carries no fee; the recipient receives
/// it whole.
pub proof fn lemma_small_amount_fee_free(amount: u64)
    requires
        amount < 100,
    ensures
        spec_fee(amount) == 0,
        spec_net(amount) == amount,
{
}

/// Computes the fee and the net part of a gross amount. The subtraction is
/// guarded by the proved bound `fee <= amount`, so it cannot underflow.
pub fn fee_split(amount: u64) -> (r: (u64, u64))
    ensures
        r.0 == spec_fee(amount),
        r.1 == spec_net(amount),
        r.0 + r.1 == amount,
{
    let fee = amount / 100;
    assert(fee <= amount);
    let net = amount - fee;
    (fee, net)
}

} // verus!
