//! Laws of the processor as a whole: what every invocation guarantees,
//! stated over the spec-level model and proved once and for all. The laws
//! of the fee split itself stand beside it in the fee module.

use vstd::prelude::*;
use crate::account::{Account, Address};
use crate::codec::{spec_le_amount, PAYLOAD_LEN};
use crate::error::ErrorKind;
use crate::fee::{spec_fee, spec_net};
use crate::ledger::spec_credit_fits;
use crate::process::{
    spec_authority_signed, spec_has_participants, spec_ledger_writable, spec_process, FEE_WALLET,
    PARTICIPANTS, RECIPIENT, SENDER, SENDER_AUTHORITY,
};

verus! {

/// Law: with the four participant accounts present, a payload that is not
/// exactly 8 bytes long always fails with `InvalidInstructionData`,
/// whatever its byte content, and leaves every account untouched.
pub proof fn lemma_bad_payload_rejected(
    program_id: Address,
    accounts: Seq<Account>,
    payload: Seq<u8>,
)
    requires
        spec_has_participants(accounts),
        payload.len() != PAYLOAD_LEN,
    ensures
        spec_process(program_id, accounts, payload).1 == Err::<(), ErrorKind>(
            ErrorKind::InvalidInstructionData,
        ),
        spec_process(program_id, accounts, payload).0 == accounts,
{
}

/// Law: with the four participant accounts present and a well-sized
/// payload, a sender authority that is not flagged as a signer always
/// fails with `MissingRequiredSignature`, regardless of the amount, and
/// leaves every account untouched.
pub proof fn lemma_unsigned_authority_rejected(
    program_id: Address,
    accounts: Seq<Account>,
    payload: Seq<u8>,
)
    requires
        spec_has_participants(accounts),
        payload.len() == PAYLOAD_LEN,
        !spec_authority_signed(accounts),
    ensures
        spec_process(program_id, accounts, payload).1 == Err::<(), ErrorKind>(
            ErrorKind::MissingRequiredSignature,
        ),
        spec_process(program_id, accounts, payload).0 == accounts,
{
}

/// Law: on an otherwise valid invocation, a sender balance exactly equal to
/// the gross amount is enough — the call succeeds. The two hypotheses on
/// the credits exclude only the inputs where a recipient or fee-wallet
/// balance would overflow its 64-bit representation, on which success is
/// impossible.
pub proof fn lemma_exact_balance_succeeds(
    program_id: Address,
    accounts: Seq<Account>,
    payload: Seq<u8>,
)
    requires
        spec_has_participants(accounts),
        payload.len() == PAYLOAD_LEN,
        spec_authority_signed(accounts),
        spec_ledger_writable(accounts),
        accounts[SENDER as int].owner == program_id,
        accounts[SENDER as int].balance == spec_le_amount(payload),
        spec_credit_fits(
            accounts[RECIPIENT as int],
            spec_net(spec_le_amount(payload) as u64) as u64,
        ),
        spec_credit_fits(
            accounts[FEE_WALLET as int],
            spec_fee(spec_le_amount(payload) as u64) as u64,
        ),
    ensures
        spec_process(program_id, accounts, payload).1 == Ok::<(), ErrorKind>(()),
{
}

/// Law: on an otherwise valid invocation, a sender balance below the gross
/// amount — one token short already — always fails with
/// `InsufficientFunds` and leaves every account untouched.
pub proof fn lemma_underfunded_rejected(
    program_id: Address,
    accounts: Seq<Account>,
    payload: Seq<u8>,
)
    requires
        spec_has_participants(accounts),
        payload.len() == PAYLOAD_LEN,
        spec_authority_signed(accounts),
        spec_ledger_writable(accounts),
        accounts[SENDER as int].balance < spec_le_amount(payload),
    ensures
        spec_process(program_id, accounts, payload).1 == Err::<(), ErrorKind>(
            ErrorKind::InsufficientFunds,
        ),
        spec_process(program_id, accounts, payload).0 == accounts,
{
}

/// Law: whenever an invocation succeeds, the sender was debited by exactly
/// the gross amount, the recipient credited with the net part, the fee
/// wallet credited with the fee, no other entry changed, and no field but
/// the three balances changed.
pub proof fn lemma_success_balances(program_id: Address, accounts: Seq<Account>, payload: Seq<u8>)
    requires
        spec_process(program_id, accounts, payload).1 == Ok::<(), ErrorKind>(()),
    ensures
        spec_process(program_id, accounts, payload).0.len() == accounts.len(),
        spec_process(program_id, accounts, payload).0[SENDER as int].balance
            == accounts[SENDER as int].balance - spec_le_amount(payload),
        spec_process(program_id, accounts, payload).0[RECIPIENT as int].balance
            == accounts[RECIPIENT as int].balance + spec_net(spec_le_amount(payload) as u64),
        spec_process(program_id, accounts, payload).0[FEE_WALLET as int].balance
            == accounts[FEE_WALLET as int].balance + spec_fee(spec_le_amount(payload) as u64),
        (forall|i: int|
            PARTICIPANTS <= i < accounts.len() ==> spec_process(program_id, accounts, payload).0[i]
                == accounts[i]),
        spec_process(program_id, accounts, payload).0[SENDER_AUTHORITY as int]
            == accounts[SENDER_AUTHORITY as int],
{
}

/// Law: whenever an invocation fails, with whatever error kind, the
/// resulting account list is exactly the one the host handed over — no
/// partial mutation survives a failure.
pub proof fn lemma_failure_leaves_ledger_untouched(
    program_id: Address,
    accounts: Seq<Account>,
    payload: Seq<u8>,
)
    ensures
        spec_process(program_id, accounts, payload).1 is Err ==> spec_process(
            program_id,
            accounts,
            payload,
        ).0 == accounts,
{
}

/// Law: replaying the identical payload and account list against a fresh
/// identical ledger state produces the identical outcome and the identical
/// resulting balances — the processor is a function of its inputs alone.
pub proof fn lemma_replay_identical(
    program_id: Address,
    accounts_first: Seq<Account>,
    accounts_second: Seq<Account>,
    payload_first: Seq<u8>,
    payload_second: Seq<u8>,
)
    requires
        accounts_first == accounts_second,
        payload_first == payload_second,
    ensures
        spec_process(program_id, accounts_first, payload_first) == spec_process(
            program_id,
            accounts_second,
            payload_second,
        ),
{
}

} // verus!
