use escrow::account::AccountView;
use escrow::error::EscrowError;
use escrow::instruction::EscrowInstruction;
use escrow::key::Key;
use escrow::processor::{Processor, TokenAction};
use escrow::state::Escrow;
use solana_program::program_option::COption;
use solana_program::program_pack::Pack;
use solana_program::pubkey::Pubkey;
use std::convert::TryInto;

fn key_of(pk: &Pubkey) -> Key {
    let b = pk.to_bytes();
    Key {
        w0: u64::from_le_bytes(b[0..8].try_into().unwrap()),
        w1: u64::from_le_bytes(b[8..16].try_into().unwrap()),
        w2: u64::from_le_bytes(b[16..24].try_into().unwrap()),
        w3: u64::from_le_bytes(b[24..32].try_into().unwrap()),
    }
}

fn test_key(n: u8) -> Key {
    Key { w0: n as u64, w1: 0, w2: 0, w3: 0 }
}

fn account(
    key: Key,
    is_signer: bool,
    is_writable: bool,
    owner: Key,
    lamports: u64,
    data: Vec<u8>,
) -> AccountView {
    AccountView { key, is_signer, is_writable, owner, lamports, data }
}

fn token_account_data(amount: u64) -> Vec<u8> {
    let mut d = vec![0u8; 165];
    d[64..72].copy_from_slice(&amount.to_le_bytes());
    d[108] = 1;
    d
}

fn expected_pda(program_pk: &Pubkey) -> Key {
    let (pk, _bump) = Pubkey::find_program_address(&[b"escrow"], program_pk);
    key_of(&pk)
}

fn token_owner() -> Key {
    key_of(&spl_token::id())
}

/// [signer initializer, deposit slot, receiving account, record account,
/// rent capability, Token Ledger capability]
fn init_accounts(program: Key, initializer_signs: bool, record_data: Vec<u8>) -> Vec<AccountView> {
    vec![
        account(test_key(1), initializer_signs, false, test_key(9), 10, vec![]),
        account(test_key(2), false, true, token_owner(), 10, vec![]),
        account(test_key(3), false, false, token_owner(), 10, vec![]),
        account(test_key(4), false, true, program, 100, record_data),
        account(test_key(5), false, false, test_key(9), 0, vec![]),
        account(token_owner(), false, false, test_key(9), 0, vec![]),
    ]
}

fn open_record() -> Escrow {
    Escrow {
        is_initialized: true,
        initializer_pubkey: test_key(1),
        temp_token_account_pubkey: test_key(2),
        initializer_token_to_receive_account_pubkey: test_key(3),
        expected_amount: 500,
        unlock_time: 1100,
    }
}

/// [signer counterparty, counterparty sending, counterparty receiving,
/// custody slot, initializer main, initializer receiving, record account,
/// Token Ledger capability, custody authority]
fn exchange_accounts(program: Key, custody_data: Vec<u8>) -> Vec<AccountView> {
    vec![
        account(test_key(11), true, false, test_key(9), 10, vec![]),
        account(test_key(12), false, true, token_owner(), 0, vec![]),
        account(test_key(13), false, true, token_owner(), 0, vec![]),
        account(test_key(2), false, true, token_owner(), 0, custody_data),
        account(test_key(1), false, true, test_key(9), 50, vec![]),
        account(test_key(3), false, true, token_owner(), 0, vec![]),
        account(test_key(4), false, true, program, 100, open_record().pack()),
        account(token_owner(), false, false, test_key(9), 0, vec![]),
        account(test_key(8), false, false, test_key(9), 0, vec![]),
    ]
}

/// [signer initializer, custody slot, initializer main, initializer
/// receiving, record account, Token Ledger capability, custody authority]
fn cancel_accounts(program: Key, custody_data: Vec<u8>) -> Vec<AccountView> {
    vec![
        account(test_key(1), true, false, test_key(9), 10, vec![]),
        account(test_key(2), false, true, token_owner(), 0, custody_data),
        account(test_key(1), false, true, test_key(9), 50, vec![]),
        account(test_key(3), false, true, token_owner(), 0, vec![]),
        account(test_key(4), false, true, program, 100, open_record().pack()),
        account(token_owner(), false, false, test_key(9), 0, vec![]),
        account(test_key(8), false, false, test_key(9), 0, vec![]),
    ]
}

#[test]
fn custody_authority_matches_ledger_derivation() {
    let program_pk = Pubkey::new_unique();
    let program = key_of(&program_pk);
    let (k, bump) = escrow::authority::derive(&program).unwrap();
    let (pk, expected_bump) = Pubkey::find_program_address(&[b"escrow"], &program_pk);
    assert_eq!(k, key_of(&pk));
    assert_eq!(bump, expected_bump);
}

#[test]
fn init_opens_record() {
    let program_pk = Pubkey::new_unique();
    let program = key_of(&program_pk);
    let mut accounts = init_accounts(program, true, vec![0u8; 113]);
    let data = EscrowInstruction::InitEscrow { amount: 500 }.pack();
    let actions =
        Processor::process(&program, &mut accounts, data.as_slice(), 1000, true).unwrap();
    assert_eq!(
        actions,
        vec![TokenAction::ReassignAuthority {
            account: test_key(2),
            new_authority: expected_pda(&program_pk),
            current_authority: test_key(1),
        }]
    );
    let rec = Escrow::unpack(accounts[3].data.as_slice()).unwrap();
    assert!(rec.is_initialized);
    assert_eq!(rec.initializer_pubkey, test_key(1));
    assert_eq!(rec.temp_token_account_pubkey, test_key(2));
    assert_eq!(rec.initializer_token_to_receive_account_pubkey, test_key(3));
    assert_eq!(rec.expected_amount, 500);
    assert_eq!(rec.unlock_time, 1100);
}

#[test]
fn init_requires_signer() {
    let program = test_key(7);
    let mut accounts = init_accounts(program, false, vec![0u8; 113]);
    let data = EscrowInstruction::InitEscrow { amount: 500 }.pack();
    assert_eq!(
        Processor::process(&program, &mut accounts, data.as_slice(), 1000, true),
        Err(EscrowError::MissingRequiredSignature)
    );
}

#[test]
fn init_requires_ledger_owned_receiving_account() {
    let program = test_key(7);
    let mut accounts = init_accounts(program, true, vec![0u8; 113]);
    accounts[2].owner = test_key(9);
    let data = EscrowInstruction::InitEscrow { amount: 500 }.pack();
    assert_eq!(
        Processor::process(&program, &mut accounts, data.as_slice(), 1000, true),
        Err(EscrowError::IncorrectProgramId)
    );
}

#[test]
fn init_requires_rent_exemption() {
    let program = test_key(7);
    let mut accounts = init_accounts(program, true, vec![0u8; 113]);
    let data = EscrowInstruction::InitEscrow { amount: 500 }.pack();
    assert_eq!(
        Processor::process(&program, &mut accounts, data.as_slice(), 1000, false),
        Err(EscrowError::NotRentExempt)
    );
}

#[test]
fn init_rejects_live_record_untouched() {
    let program = test_key(7);
    let live = open_record().pack();
    let mut accounts = init_accounts(program, true, live.clone());
    let data = EscrowInstruction::InitEscrow { amount: 900 }.pack();
    assert_eq!(
        Processor::process(&program, &mut accounts, data.as_slice(), 1000, true),
        Err(EscrowError::AccountAlreadyInitialized)
    );
    assert_eq!(accounts[3].data, live);
    assert_eq!(Escrow::unpack(accounts[3].data.as_slice()), Ok(open_record()));
}

#[test]
fn exchange_settles_trade() {
    let program_pk = Pubkey::new_unique();
    let program = key_of(&program_pk);
    let pda = expected_pda(&program_pk);
    let mut accounts = exchange_accounts(program, token_account_data(500));
    let data = EscrowInstruction::Exchange { amount: 500 }.pack();
    let actions =
        Processor::process(&program, &mut accounts, data.as_slice(), 1000, true).unwrap();
    assert_eq!(
        actions,
        vec![
            TokenAction::Transfer {
                from: test_key(12),
                to: test_key(3),
                authority: test_key(11),
                amount: 500,
                custody_signed: false,
            },
            TokenAction::Transfer {
                from: test_key(2),
                to: test_key(13),
                authority: pda,
                amount: 500,
                custody_signed: true,
            },
            TokenAction::CloseAccount {
                account: test_key(2),
                refund_to: test_key(1),
                authority: pda,
            },
        ]
    );
    assert_eq!(accounts[4].lamports, 150);
    assert_eq!(accounts[6].lamports, 0);
    assert_eq!(accounts[6].data, vec![0u8; 113]);
    assert_eq!(
        Escrow::unpack(accounts[6].data.as_slice()),
        Err(EscrowError::UninitializedAccount)
    );
}

#[test]
fn exchange_amount_must_match_exactly() {
    let program = test_key(7);
    for wrong in [499u64, 501] {
        let mut accounts = exchange_accounts(program, token_account_data(500));
        let before = accounts[6].data.clone();
        let data = EscrowInstruction::Exchange { amount: wrong }.pack();
        assert_eq!(
            Processor::process(&program, &mut accounts, data.as_slice(), 1000, true),
            Err(EscrowError::ExpectedAmountMismatch)
        );
        assert_eq!(accounts[6].data, before);
        assert!(Escrow::unpack(accounts[6].data.as_slice()).unwrap().is_initialized);
    }
}

#[test]
fn exchange_checks_stored_identities() {
    let program = test_key(7);
    let mut accounts = exchange_accounts(program, token_account_data(500));
    accounts[3].key = test_key(31);
    let data = EscrowInstruction::Exchange { amount: 500 }.pack();
    assert_eq!(
        Processor::process(&program, &mut accounts, data.as_slice(), 1000, true),
        Err(EscrowError::InvalidAccountData)
    );

    let mut accounts = exchange_accounts(program, token_account_data(500));
    accounts[4].key = test_key(32);
    assert_eq!(
        Processor::process(&program, &mut accounts, data.as_slice(), 1000, true),
        Err(EscrowError::InvalidAccountData)
    );

    let mut accounts = exchange_accounts(program, token_account_data(500));
    accounts[5].key = test_key(33);
    assert_eq!(
        Processor::process(&program, &mut accounts, data.as_slice(), 1000, true),
        Err(EscrowError::InvalidAccountData)
    );
}

#[test]
fn exchange_rejects_malformed_custody_data() {
    let program = test_key(7);
    let data = EscrowInstruction::Exchange { amount: 500 }.pack();

    let mut accounts = exchange_accounts(program, vec![0u8; 164]);
    assert_eq!(
        Processor::process(&program, &mut accounts, data.as_slice(), 1000, true),
        Err(EscrowError::InvalidAccountData)
    );

    let mut uninit = token_account_data(500);
    uninit[108] = 0;
    let mut accounts = exchange_accounts(program, uninit);
    assert_eq!(
        Processor::process(&program, &mut accounts, data.as_slice(), 1000, true),
        Err(EscrowError::UninitializedAccount)
    );
}

#[test]
fn exchange_sweep_overflow_is_rejected() {
    let program = test_key(7);
    let mut accounts = exchange_accounts(program, token_account_data(500));
    accounts[4].lamports = u64::MAX;
    let data = EscrowInstruction::Exchange { amount: 500 }.pack();
    assert_eq!(
        Processor::process(&program, &mut accounts, data.as_slice(), 1000, true),
        Err(EscrowError::AmountOverflow)
    );
    assert!(Escrow::unpack(accounts[6].data.as_slice()).unwrap().is_initialized);
}

#[test]
fn closed_record_rejects_every_instruction() {
    let program_pk = Pubkey::new_unique();
    let program = key_of(&program_pk);
    let mut accounts = exchange_accounts(program, token_account_data(500));
    let data = EscrowInstruction::Exchange { amount: 500 }.pack();
    Processor::process(&program, &mut accounts, data.as_slice(), 1000, true).unwrap();
    let closed = accounts[6].data.clone();

    let mut again = exchange_accounts(program, token_account_data(500));
    again[6].data = closed.clone();
    assert_eq!(
        Processor::process(&program, &mut again, data.as_slice(), 1000, true),
        Err(EscrowError::UninitializedAccount)
    );

    let mut cancel = cancel_accounts(program, token_account_data(500));
    cancel[4].data = closed.clone();
    let cancel_data = EscrowInstruction::Cancel.pack();
    assert_eq!(
        Processor::process(&program, &mut cancel, cancel_data.as_slice(), 5000, true),
        Err(EscrowError::UninitializedAccount)
    );

    let mut reset = vec![
        account(test_key(1), true, false, test_key(9), 10, vec![]),
        account(test_key(4), false, true, program, 100, closed),
    ];
    let reset_data = EscrowInstruction::ResetTimeLock.pack();
    assert_eq!(
        Processor::process(&program, &mut reset, reset_data.as_slice(), 5000, true),
        Err(EscrowError::UninitializedAccount)
    );
}

#[test]
fn cancel_before_unlock_fails_after_unlock_succeeds() {
    let program_pk = Pubkey::new_unique();
    let program = key_of(&program_pk);
    let pda = expected_pda(&program_pk);
    let data = EscrowInstruction::Cancel.pack();

    let mut accounts = cancel_accounts(program, token_account_data(500));
    assert_eq!(
        Processor::process(&program, &mut accounts, data.as_slice(), 1000, true),
        Err(EscrowError::TimeConstraintWasNotSatisfied)
    );
    assert_eq!(
        Processor::process(&program, &mut accounts, data.as_slice(), 1100, true),
        Err(EscrowError::TimeConstraintWasNotSatisfied)
    );
    assert!(Escrow::unpack(accounts[4].data.as_slice()).unwrap().is_initialized);

    let actions =
        Processor::process(&program, &mut accounts, data.as_slice(), 1101, true).unwrap();
    assert_eq!(
        actions,
        vec![
            TokenAction::Transfer {
                from: test_key(2),
                to: test_key(3),
                authority: pda,
                amount: 500,
                custody_signed: true,
            },
            TokenAction::CloseAccount {
                account: test_key(2),
                refund_to: test_key(1),
                authority: pda,
            },
        ]
    );
    assert_eq!(accounts[2].lamports, 150);
    assert_eq!(accounts[4].lamports, 0);
    assert_eq!(accounts[4].data, vec![0u8; 113]);
}

#[test]
fn cancel_is_permitted_indefinitely_after_unlock() {
    let program = test_key(7);
    let data = EscrowInstruction::Cancel.pack();
    let mut accounts = cancel_accounts(program, token_account_data(500));
    assert!(
        Processor::process(&program, &mut accounts, data.as_slice(), u64::MAX, true).is_ok()
    );
}

#[test]
fn cancel_guard_order_is_pinned() {
    let program = test_key(7);
    let data = EscrowInstruction::Cancel.pack();

    // A missing signature is rejected first, even for a caller that is not
    // the initializer.
    let mut accounts = cancel_accounts(program, token_account_data(500));
    accounts[0].key = test_key(42);
    accounts[0].is_signer = false;
    assert_eq!(
        Processor::process(&program, &mut accounts, data.as_slice(), 5000, true),
        Err(EscrowError::MissingRequiredSignature)
    );

    // A signing caller other than the stored initializer is rejected once
    // the stored identities have matched.
    let mut accounts = cancel_accounts(program, token_account_data(500));
    accounts[0].key = test_key(42);
    assert_eq!(
        Processor::process(&program, &mut accounts, data.as_slice(), 5000, true),
        Err(EscrowError::InvalidAccountData)
    );
}

#[test]
fn cancel_requires_program_owned_writable_record() {
    let program = test_key(7);
    let data = EscrowInstruction::Cancel.pack();

    let mut accounts = cancel_accounts(program, token_account_data(500));
    accounts[4].owner = test_key(9);
    assert_eq!(
        Processor::process(&program, &mut accounts, data.as_slice(), 5000, true),
        Err(EscrowError::IllegalOwner)
    );

    let mut accounts = cancel_accounts(program, token_account_data(500));
    accounts[4].is_writable = false;
    assert_eq!(
        Processor::process(&program, &mut accounts, data.as_slice(), 5000, true),
        Err(EscrowError::IllegalOwner)
    );
}

#[test]
fn reset_extends_unlock_time() {
    let program = test_key(7);
    let mut accounts = vec![
        account(test_key(1), true, false, test_key(9), 10, vec![]),
        account(test_key(4), false, true, program, 100, open_record().pack()),
    ];
    let data = EscrowInstruction::ResetTimeLock.pack();
    let actions =
        Processor::process(&program, &mut accounts, data.as_slice(), 5000, true).unwrap();
    assert!(actions.is_empty());
    let rec = Escrow::unpack(accounts[1].data.as_slice()).unwrap();
    assert_eq!(rec.unlock_time, 5100);
    assert_eq!(rec.expected_amount, 500);
    assert!(rec.is_initialized);
}

#[test]
fn reset_requires_initializer() {
    let program = test_key(7);
    let mut accounts = vec![
        account(test_key(42), true, false, test_key(9), 10, vec![]),
        account(test_key(4), false, true, program, 100, open_record().pack()),
    ];
    let data = EscrowInstruction::ResetTimeLock.pack();
    assert_eq!(
        Processor::process(&program, &mut accounts, data.as_slice(), 5000, true),
        Err(EscrowError::InvalidAccountData)
    );
}

#[test]
fn token_ledger_id_is_recognised() {
    assert!(escrow::token::is_token_ledger_key(&token_owner()));
    assert!(!escrow::token::is_token_ledger_key(&test_key(1)));
}

#[test]
fn custody_balance_agrees_with_ledger_codec() {
    let acct = spl_token::state::Account {
        mint: Pubkey::new_unique(),
        owner: Pubkey::new_unique(),
        amount: 500,
        delegate: COption::None,
        state: spl_token::state::AccountState::Initialized,
        is_native: COption::Some(3),
        delegated_amount: 9,
        close_authority: COption::None,
    };
    let mut data = vec![0u8; 165];
    acct.pack_into_slice(&mut data);

    let program = test_key(7);
    let mut accounts = exchange_accounts(program, data);
    let wire = EscrowInstruction::Exchange { amount: 499 }.pack();
    assert_eq!(
        Processor::process(&program, &mut accounts, wire.as_slice(), 1000, true),
        Err(EscrowError::ExpectedAmountMismatch)
    );
    let wire = EscrowInstruction::Exchange { amount: 500 }.pack();
    assert!(Processor::process(&program, &mut accounts, wire.as_slice(), 1000, true).is_ok());
}

#[test]
fn process_rejects_malformed_instruction() {
    let program = test_key(7);
    let mut accounts: Vec<AccountView> = Vec::new();
    let data = vec![9u8];
    assert_eq!(
        Processor::process(&program, &mut accounts, data.as_slice(), 1000, true),
        Err(EscrowError::InvalidInstruction)
    );
}
