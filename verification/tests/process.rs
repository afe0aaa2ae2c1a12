use fee_transfer::account::{Account, Address};
use fee_transfer::error::{ErrorKind, LedgerError};
use fee_transfer::process::{evaluate, process_instruction, TransferPlan};

fn program() -> Address {
    Address { value: 7 }
}

fn other_program() -> Address {
    Address { value: 8 }
}

fn participant(id: u64, balance: u64) -> Account {
    Account {
        address: Address { value: id },
        owner: program(),
        balance,
        is_signer: false,
        is_writable: true,
    }
}

fn authority(id: u64) -> Account {
    Account {
        address: Address { value: id },
        owner: program(),
        balance: 0,
        is_signer: true,
        is_writable: false,
    }
}

fn valid_accounts(sender_balance: u64) -> Vec<Account> {
    vec![
        participant(1, sender_balance),
        participant(2, 5),
        participant(3, 0),
        authority(4),
    ]
}

fn payload(amount: u64) -> Vec<u8> {
    amount.to_le_bytes().to_vec()
}

#[test]
fn transfers_one_thousand_with_ten_fee() {
    let mut accounts = valid_accounts(1200);
    assert_eq!(process_instruction(&program(), &mut accounts, &payload(1000)), Ok(()));
    assert_eq!(accounts[0].balance, 200);
    assert_eq!(accounts[1].balance, 5 + 990);
    assert_eq!(accounts[2].balance, 10);
    assert_eq!(accounts[3], authority(4));
}

#[test]
fn plans_one_thousand_as_ten_fee_and_nine_ninety_net() {
    let accounts = valid_accounts(1200);
    assert_eq!(
        evaluate(&program(), &accounts, &payload(1000)),
        Ok(TransferPlan { amount: 1000, fee: 10, net: 990 })
    );
}

#[test]
fn zero_amount_transfer_still_succeeds() {
    let mut accounts = valid_accounts(0);
    assert_eq!(
        evaluate(&program(), &accounts, &payload(0)),
        Ok(TransferPlan { amount: 0, fee: 0, net: 0 })
    );
    assert_eq!(process_instruction(&program(), &mut accounts, &payload(0)), Ok(()));
    assert_eq!(accounts, valid_accounts(0));
}

#[test]
fn fewer_than_four_accounts_are_missing_accounts() {
    for kept in 0..4 {
        let mut accounts = valid_accounts(1000);
        accounts.truncate(kept);
        let before = accounts.clone();
        assert_eq!(
            process_instruction(&program(), &mut accounts, &payload(1)),
            Err(ErrorKind::MissingAccount)
        );
        assert_eq!(accounts, before);
    }
}

#[test]
fn wrong_payload_length_is_invalid_instruction_data() {
    for bytes in [vec![], vec![1; 7], vec![0xFF; 9], vec![0; 64]] {
        let mut accounts = valid_accounts(1000);
        assert_eq!(
            process_instruction(&program(), &mut accounts, &bytes),
            Err(ErrorKind::InvalidInstructionData)
        );
        assert_eq!(accounts, valid_accounts(1000));
    }
}

#[test]
fn unsigned_authority_is_missing_required_signature() {
    let mut accounts = valid_accounts(1000);
    accounts[3].is_signer = false;
    let before = accounts.clone();
    assert_eq!(
        process_instruction(&program(), &mut accounts, &payload(1)),
        Err(ErrorKind::MissingRequiredSignature)
    );
    assert_eq!(accounts, before);
}

#[test]
fn unsigned_authority_fails_whatever_the_amount() {
    for amount in [0u64, 1, 99, 1000, u64::MAX] {
        let mut accounts = valid_accounts(u64::MAX);
        accounts[3].is_signer = false;
        assert_eq!(
            process_instruction(&program(), &mut accounts, &payload(amount)),
            Err(ErrorKind::MissingRequiredSignature)
        );
    }
}

#[test]
fn immutable_participant_is_account_not_writable() {
    for frozen in 0..3 {
        let mut accounts = valid_accounts(1000);
        accounts[frozen].is_writable = false;
        let before = accounts.clone();
        assert_eq!(
            process_instruction(&program(), &mut accounts, &payload(1)),
            Err(ErrorKind::AccountNotWritable)
        );
        assert_eq!(accounts, before);
    }
}

#[test]
fn balance_equal_to_amount_succeeds() {
    let mut accounts = valid_accounts(1000);
    assert_eq!(process_instruction(&program(), &mut accounts, &payload(1000)), Ok(()));
    assert_eq!(accounts[0].balance, 0);
}

#[test]
fn balance_one_short_is_insufficient_funds() {
    let mut accounts = valid_accounts(999);
    assert_eq!(
        process_instruction(&program(), &mut accounts, &payload(1000)),
        Err(ErrorKind::InsufficientFunds)
    );
    assert_eq!(accounts, valid_accounts(999));
}

#[test]
fn sender_owned_by_another_program_is_insufficient_funds() {
    let mut accounts = valid_accounts(1000);
    accounts[0].owner = other_program();
    let before = accounts.clone();
    assert_eq!(
        process_instruction(&program(), &mut accounts, &payload(1)),
        Err(ErrorKind::InsufficientFunds)
    );
    assert_eq!(accounts, before);
}

#[test]
fn recipient_balance_overflow_is_a_ledger_error() {
    let mut accounts = valid_accounts(1000);
    accounts[1].balance = u64::MAX;
    let before = accounts.clone();
    assert_eq!(
        process_instruction(&program(), &mut accounts, &payload(1000)),
        Err(ErrorKind::Ledger(LedgerError::BalanceOverflow))
    );
    assert_eq!(accounts, before);
}

#[test]
fn fee_wallet_balance_overflow_is_a_ledger_error() {
    let mut accounts = valid_accounts(1000);
    accounts[2].balance = u64::MAX;
    let before = accounts.clone();
    assert_eq!(
        process_instruction(&program(), &mut accounts, &payload(1000)),
        Err(ErrorKind::Ledger(LedgerError::BalanceOverflow))
    );
    assert_eq!(accounts, before);
}

#[test]
fn accounts_beyond_the_fourth_are_ignored_and_kept() {
    let mut accounts = valid_accounts(1200);
    accounts.push(participant(9, 77));
    assert_eq!(process_instruction(&program(), &mut accounts, &payload(1000)), Ok(()));
    assert_eq!(accounts[4], participant(9, 77));
}

#[test]
fn replaying_on_a_fresh_identical_ledger_gives_identical_balances() {
    let mut first = valid_accounts(5000);
    let mut second = valid_accounts(5000);
    let r1 = process_instruction(&program(), &mut first, &payload(1234));
    let r2 = process_instruction(&program(), &mut second, &payload(1234));
    assert_eq!(r1, r2);
    assert_eq!(first, second);
}
