//! The transfer-with-fee processor: one synchronous invocation that checks
//! the participant set and the payload, computes the fee split, and requests
//! the debit and credit operations against the ledger entries. Every check
//! fails fast with its own error kind, before any mutation; the ledger
//! operations are applied as one unit, all or none, mirroring the host's
//! all-or-nothing handling of the call.

use vstd::prelude::*;
use crate::account::{spec_with_balance, Account, Address};
use crate::codec::{decode_amount, spec_le_amount, PAYLOAD_LEN};
use crate::error::{ErrorKind, LedgerError};
use crate::fee::{fee_split, spec_fee, spec_net};
use crate::ledger::{credit, debit, spec_credit_fits};

verus! {

/// Position of the sender's ledger entry in the account list.
pub const SENDER: usize = 0;

/// Position of the recipient's ledger entry in the account list.
pub const RECIPIENT: usize = 1;

/// Position of the fee wallet's ledger entry in the account list.
pub const FEE_WALLET: usize = 2;

/// Position of the signing authority in the account list.
pub const SENDER_AUTHORITY: usize = 3;

/// How many account references every invocation must supply.
pub const PARTICIPANTS: usize = 4;

/// The two ledger transfers one invocation requests: `net` moves from the
/// sender to the recipient and `fee` from the sender to the fee wallet, so
/// the sender is debited by the gross `amount` in total.
#[derive(Clone, Copy, PartialEq, Eq, Structural, Debug)]
pub struct TransferPlan {
    pub amount: u64,
    pub fee: u64,
    pub net: u64,
}

/// The plan derived from a gross amount: the fee split, with nothing stored
/// beyond the three derived quantities.
pub open spec fn spec_plan(amount: u64) -> TransferPlan {
    TransferPlan { amount, fee: spec_fee(amount) as u64, net: spec_net(amount) as u64 }
}

/// Whether the host supplied the four participant accounts.
pub open spec fn spec_has_participants(accounts: Seq<Account>) -> bool {
    accounts.len() >= PARTICIPANTS
}

/// Whether the sender authority is flagged as a transaction signer.
pub open spec fn spec_authority_signed(accounts: Seq<Account>) -> bool {
    accounts[SENDER_AUTHORITY as int].is_signer
}

/// Whether the three ledger entries the call writes are flagged mutable.
pub open spec fn spec_ledger_writable(accounts: Seq<Account>) -> bool {
    &&& accounts[SENDER as int].is_writable
    &&& accounts[RECIPIENT as int].is_writable
    &&& accounts[FEE_WALLET as int].is_writable
}

/// Whether the sender's entry is owned by the expected ledger-managing
/// program and records at least the gross amount. This processor manages
/// its own ledger entries, so the expected owner is the program itself.
pub open spec fn spec_sender_funded(
    program_id: Address,
    accounts: Seq<Account>,
    amount: u64,
) -> bool {
    &&& accounts[SENDER as int].owner == program_id
    &&& accounts[SENDER as int].balance >= amount
}

/// The outcome of the validation phase: the checks in their fixed order,
/// each failing fast with its own error kind, and on success the fee split
/// of the decoded amount.
pub open spec fn spec_evaluate(
    program_id: Address,
    accounts: Seq<Account>,
    payload: Seq<u8>,
) -> Result<TransferPlan, ErrorKind> {
    if !spec_has_participants(accounts) {
        Err(ErrorKind::MissingAccount)
    } else if payload.len() != PAYLOAD_LEN {
        Err(ErrorKind::InvalidInstructionData)
    } else if !spec_authority_signed(accounts) {
        Err(ErrorKind::MissingRequiredSignature)
    } else if !spec_ledger_writable(accounts) {
        Err(ErrorKind::AccountNotWritable)
    } else if !spec_sender_funded(program_id, accounts, spec_le_amount(payload) as u64) {
        Err(ErrorKind::InsufficientFunds)
    } else {
        Ok(spec_plan(spec_le_amount(payload) as u64))
    }
}

/// The account list after both transfers of a plan: the sender debited by
/// the gross amount, the recipient credited with the net part, the fee
/// wallet credited with the fee, and every other entry untouched.
pub open spec fn spec_apply(accounts: Seq<Account>, plan: TransferPlan) -> Seq<Account> {
    accounts.update(
        SENDER as int,
        spec_with_balance(
            accounts[SENDER as int],
            (accounts[SENDER as int].balance - plan.amount) as u64,
        ),
    ).update(
        RECIPIENT as int,
        spec_with_balance(
            accounts[RECIPIENT as int],
            (accounts[RECIPIENT as int].balance + plan.net) as u64,
        ),
    ).update(
        FEE_WALLET as int,
        spec_with_balance(
            accounts[FEE_WALLET as int],
            (accounts[FEE_WALLET as int].balance + plan.fee) as u64,
        ),
    )
}

/// The outcome of the transfer phase: when both credits fit their entries'
/// balance representation the plan is applied whole, otherwise nothing is
/// applied and the ledger's overflow error is reported.
pub open spec fn spec_execute(accounts: Seq<Account>, plan: TransferPlan) -> (
    Seq<Account>,
    Result<(), LedgerError>,
) {
    if spec_credit_fits(accounts[RECIPIENT as int], plan.net) && spec_credit_fits(
        accounts[FEE_WALLET as int],
        plan.fee,
    ) {
        (spec_apply(accounts, plan), Ok(()))
    } else {
        (accounts, Err(LedgerError::BalanceOverflow))
    }
}

/// The outcome of a whole invocation: the resulting account list and the
/// returned status. Every failure leaves the accounts exactly as they were.
pub open spec fn spec_process(
    program_id: Address,
    accounts: Seq<Account>,
    payload: Seq<u8>,
) -> (Seq<Account>, Result<(), ErrorKind>) {
    match spec_evaluate(program_id, accounts, payload) {
        Err(e) => (accounts, Err(e)),
        Ok(plan) => {
            let step = spec_execute(accounts, plan);
            match step.1 {
                Ok(_) => (step.0, Ok(())),
                Err(le) => (accounts, Err(ErrorKind::Ledger(le))),
            }
        },
    }
}

/// The validation phase: runs the preconditions in their fixed order and,
/// when all hold, returns the fee split of the decoded gross amount. Reads
/// only; no account is changed here.
pub fn evaluate(program_id: &Address, accounts: &Vec<Account>, payload: &Vec<u8>) -> (r: Result<
    TransferPlan,
    ErrorKind,
>)
    ensures
        r == spec_evaluate(*program_id, accounts@, payload@),
{
    if accounts.len() < PARTICIPANTS {
        return Err(ErrorKind::MissingAccount);
    }
    let amount = match decode_amount(payload) {
        Ok(a) => a,
        Err(e) => {
            return Err(e);
        },
    };
    if !accounts[SENDER_AUTHORITY].is_signer {
        return Err(ErrorKind::MissingRequiredSignature);
    }
    if !(accounts[SENDER].is_writable && accounts[RECIPIENT].is_writable
        && accounts[FEE_WALLET].is_writable) {
        return Err(ErrorKind::AccountNotWritable);
    }
    if !(accounts[SENDER].owner == *program_id && accounts[SENDER].balance >= amount) {
        return Err(ErrorKind::InsufficientFunds);
    }
    let (fee, net) = fee_split(amount);
    Ok(TransferPlan { amount, fee, net })
}

/// The transfer phase: requests the two transfers of the plan through the
/// ledger interface, in the fixed order debit sender, credit recipient,
/// debit sender, credit fee wallet. The requests are applied as one unit:
/// when either credit cannot fit, nothing is changed and the ledger's error
/// is returned; a failure from any single ledger call propagates verbatim.
pub fn execute(accounts: &mut Vec<Account>, plan: &TransferPlan) -> (r: Result<(), LedgerError>)
    requires
        old(accounts)@.len() >= PARTICIPANTS,
        plan.fee + plan.net == plan.amount,
        old(accounts)@[SENDER as int].balance >= plan.amount,
    ensures
        final(accounts)@ == spec_execute(old(accounts)@, *plan).0,
        r == spec_execute(old(accounts)@, *plan).1,
{
    let net_fits = plan.net <= u64::MAX - accounts[RECIPIENT].balance;
    let fee_fits = plan.fee <= u64::MAX - accounts[FEE_WALLET].balance;
    if !(net_fits && fee_fits) {
        return Err(LedgerError::BalanceOverflow);
    }
    let mut sender_entry = accounts[SENDER];
    match debit(&mut sender_entry, plan.net) {
        Ok(_) => accounts.set(SENDER, sender_entry),
        Err(e) => {
            return Err(e);
        },
    }
    let mut recipient_entry = accounts[RECIPIENT];
    match credit(&mut recipient_entry, plan.net) {
        Ok(_) => accounts.set(RECIPIENT, recipient_entry),
        Err(e) => {
            return Err(e);
        },
    }
    let mut sender_entry = accounts[SENDER];
    match debit(&mut sender_entry, plan.fee) {
        Ok(_) => accounts.set(SENDER, sender_entry),
        Err(e) => {
            return Err(e);
        },
    }
    let mut fee_entry = accounts[FEE_WALLET];
    match credit(&mut fee_entry, plan.fee) {
        Ok(_) => accounts.set(FEE_WALLET, fee_entry),
        Err(e) => {
            return Err(e);
        },
    }
    proof {
        assert(accounts@ =~= spec_apply(old(accounts)@, *plan));
    }
    Ok(())
}

/// One whole invocation of the processor, the sole boundary the host calls:
/// validate, decode, split, then request both transfers as one unit. The
/// contract pins the returned status and the resulting account list for
/// every input; on any failure the accounts are exactly as the host handed
/// them over.
pub fn process_instruction(
    program_id: &Address,
    accounts: &mut Vec<Account>,
    payload: &Vec<u8>,
) -> (r: Result<(), ErrorKind>)
    ensures
        final(accounts)@ == spec_process(*program_id, old(accounts)@, payload@).0,
        r == spec_process(*program_id, old(accounts)@, payload@).1,
{
    let plan = match evaluate(program_id, accounts, payload) {
        Ok(p) => p,
        Err(e) => {
            return Err(e);
        },
    };
    match execute(accounts, &plan) {
        Ok(_) => Ok(()),
        Err(le) => Err(ErrorKind::Ledger(le)),
    }
}

} // verus!
