//! The processor: the instruction-dispatch state machine.
//!
//! Each handler validates every precondition over the supplied accounts,
//! applies the record update in place, and returns the Token Ledger calls to
//! perform. All checks precede every mutation: a rejected invocation leaves
//! the accounts exactly as they were. Atomicity of the returned ledger calls
//! is delegated to the hosting execution environment.
//!
//! Policy choices made explicit here:
//! - the reset instruction carries no payload, so the lock is extended by the
//!   fixed `LOCK_DURATION` from the current time;
//! - cancellation is permitted at any time strictly after `unlock_time`,
//!   indefinitely, and rejected at or before it;
//! - a closed record's bytes are cleared to zero in place, so it reads back
//!   as uninitialized ever after.

use crate::account::{views_of, AccountModel, AccountView};
use crate::authority::{custody_derivable, custody_key_of};
use crate::error::EscrowError;
use crate::instruction::{account_count_of, decoded_of, valid_encoding, EscrowInstruction};
use crate::key::{key_bytes_of, Key};
use crate::state::{
    cleared_record_bytes, record_bytes_of, record_flag_ok, record_of, record_well_sized, Escrow,
};
use crate::token::{
    is_token_ledger_key, key_is_token_ledger, token_account_amount, token_account_initialized,
    token_account_parses, token_balance_of,
};
use vstd::prelude::*;

verus! {

/// The fixed time-lock window added to the current logical time by
/// InitEscrow and ResetTimeLock.
pub const LOCK_DURATION: u64 = 100;

/// One call the processor asks the Token Ledger to perform. Calls marked
/// `custody_signed` are authorized by presenting the custody authority's
/// proof seed; the processor never holds a private key for that identity.
#[derive(Clone, Copy, Debug, PartialEq, Eq, Structural)]
pub enum TokenAction {
    /// Reassign authority over `account` from `current_authority` to
    /// `new_authority`.
    ReassignAuthority { account: Key, new_authority: Key, current_authority: Key },
    /// Transfer `amount` from `from` to `to`, authorized by `authority`.
    Transfer { from: Key, to: Key, authority: Key, amount: u64, custody_signed: bool },
    /// Close `account`, returning its minimum balance to `refund_to`,
    /// authorized by the custody authority.
    CloseAccount { account: Key, refund_to: Key, authority: Key },
}

/// What one instruction yields: the account list after the record update and
/// the ledger calls to perform, or the error that rejects it.
pub type StepResult = Result<(Seq<AccountModel>, Seq<TokenAction>), EscrowError>;

/// The record InitEscrow writes.
pub open spec fn init_record(a: Seq<AccountModel>, amount: u64, now: u64) -> Escrow {
    Escrow {
        is_initialized: true,
        initializer_pubkey: a[0].key,
        temp_token_account_pubkey: a[1].key,
        initializer_token_to_receive_account_pubkey: a[2].key,
        expected_amount: amount,
        unlock_time: (now + LOCK_DURATION) as u64,
    }
}

/// An account with its data replaced by a record's bytes.
pub open spec fn record_written(m: AccountModel, e: Escrow) -> AccountModel {
    AccountModel {
        key: m.key,
        is_signer: m.is_signer,
        is_writable: m.is_writable,
        owner: m.owner,
        lamports: m.lamports,
        data: record_bytes_of(e),
    }
}

/// An account with its balance set.
pub open spec fn lamports_set(m: AccountModel, l: u64) -> AccountModel {
    AccountModel {
        key: m.key,
        is_signer: m.is_signer,
        is_writable: m.is_writable,
        owner: m.owner,
        lamports: l,
        data: m.data,
    }
}

/// A closed record account: balance zero, bytes cleared.
pub open spec fn account_closed(m: AccountModel) -> AccountModel {
    AccountModel {
        key: m.key,
        is_signer: m.is_signer,
        is_writable: m.is_writable,
        owner: m.owner,
        lamports: 0,
        data: cleared_record_bytes(),
    }
}

/// Whether an account's bytes read as an initialized record.
pub open spec fn holds_live_record(m: AccountModel) -> bool {
    record_well_sized(m.data) && record_flag_ok(m.data) && record_of(m.data).is_initialized
}

/// InitEscrow over the account list
/// [signer initializer, deposit slot, receiving account, record account,
/// rent-check capability, Token Ledger capability].
pub open spec fn init_step(
    program_id: Key,
    a: Seq<AccountModel>,
    amount: u64,
    now: u64,
    rent_exempt: bool,
) -> StepResult
    recommends
        a.len() == account_count_of(EscrowInstruction::InitEscrow { amount: 0 }),
        now + LOCK_DURATION <= u64::MAX,
{
    if !a[0].is_signer {
        Err(EscrowError::MissingRequiredSignature)
    } else if !key_is_token_ledger(a[2].owner) {
        Err(EscrowError::IncorrectProgramId)
    } else if !rent_exempt {
        Err(EscrowError::NotRentExempt)
    } else if !(record_well_sized(a[3].data) && record_flag_ok(a[3].data)) {
        Err(EscrowError::InvalidAccountData)
    } else if record_of(a[3].data).is_initialized {
        Err(EscrowError::AccountAlreadyInitialized)
    } else {
        Ok(
            (
                a.update(3, record_written(a[3], init_record(a, amount, now))),
                seq![
                    TokenAction::ReassignAuthority {
                        account: a[1].key,
                        new_authority: custody_key_of(program_id),
                        current_authority: a[0].key,
                    },
                ],
            ),
        )
    }
}

/// Exchange over the account list
/// [signer counterparty, counterparty sending, counterparty receiving,
/// custody slot, initializer main, initializer receiving, record account,
/// Token Ledger capability, custody authority].
pub open spec fn exchange_step(program_id: Key, a: Seq<AccountModel>, amount: u64) -> StepResult
    recommends
        a.len() == account_count_of(EscrowInstruction::Exchange { amount: 0 }),
{
    if !a[0].is_signer {
        Err(EscrowError::MissingRequiredSignature)
    } else if !token_account_parses(a[3].data) {
        Err(EscrowError::InvalidAccountData)
    } else if !token_account_initialized(a[3].data) {
        Err(EscrowError::UninitializedAccount)
    } else if amount != token_balance_of(a[3].data) {
        Err(EscrowError::ExpectedAmountMismatch)
    } else if !(record_well_sized(a[6].data) && record_flag_ok(a[6].data)) {
        Err(EscrowError::InvalidAccountData)
    } else if !record_of(a[6].data).is_initialized {
        Err(EscrowError::UninitializedAccount)
    } else if record_of(a[6].data).temp_token_account_pubkey != a[3].key {
        Err(EscrowError::InvalidAccountData)
    } else if record_of(a[6].data).initializer_pubkey != a[4].key {
        Err(EscrowError::InvalidAccountData)
    } else if record_of(a[6].data).initializer_token_to_receive_account_pubkey != a[5].key {
        Err(EscrowError::InvalidAccountData)
    } else if a[4].lamports + a[6].lamports > u64::MAX {
        Err(EscrowError::AmountOverflow)
    } else {
        Ok(
            (
                a.update(4, lamports_set(a[4], (a[4].lamports + a[6].lamports) as u64)).update(
                    6,
                    account_closed(a[6]),
                ),
                seq![
                    TokenAction::Transfer {
                        from: a[1].key,
                        to: a[5].key,
                        authority: a[0].key,
                        amount: record_of(a[6].data).expected_amount,
                        custody_signed: false,
                    },
                    TokenAction::Transfer {
                        from: a[3].key,
                        to: a[2].key,
                        authority: custody_key_of(program_id),
                        amount: token_balance_of(a[3].data),
                        custody_signed: true,
                    },
                    TokenAction::CloseAccount {
                        account: a[3].key,
                        refund_to: a[4].key,
                        authority: custody_key_of(program_id),
                    },
                ],
            ),
        )
    }
}

/// Cancel over the account list
/// [signer initializer, custody slot, initializer main, initializer
/// receiving, record account, Token Ledger capability, custody authority].
pub open spec fn cancel_step(program_id: Key, a: Seq<AccountModel>, now: u64) -> StepResult
    recommends
        a.len() == account_count_of(EscrowInstruction::Cancel),
{
    if !a[0].is_signer {
        Err(EscrowError::MissingRequiredSignature)
    } else if !(a[4].owner == program_id && a[4].is_writable) {
        Err(EscrowError::IllegalOwner)
    } else if !(record_well_sized(a[4].data) && record_flag_ok(a[4].data)) {
        Err(EscrowError::InvalidAccountData)
    } else if !record_of(a[4].data).is_initialized {
        Err(EscrowError::UninitializedAccount)
    } else if now <= record_of(a[4].data).unlock_time {
        Err(EscrowError::TimeConstraintWasNotSatisfied)
    } else if record_of(a[4].data).temp_token_account_pubkey != a[1].key {
        Err(EscrowError::InvalidAccountData)
    } else if record_of(a[4].data).initializer_pubkey != a[2].key {
        Err(EscrowError::InvalidAccountData)
    } else if record_of(a[4].data).initializer_token_to_receive_account_pubkey != a[3].key {
        Err(EscrowError::InvalidAccountData)
    } else if record_of(a[4].data).initializer_pubkey != a[0].key {
        Err(EscrowError::InvalidAccountData)
    } else if !token_account_parses(a[1].data) {
        Err(EscrowError::InvalidAccountData)
    } else if !token_account_initialized(a[1].data) {
        Err(EscrowError::UninitializedAccount)
    } else if a[2].lamports + a[4].lamports > u64::MAX {
        Err(EscrowError::AmountOverflow)
    } else {
        Ok(
            (
                a.update(2, lamports_set(a[2], (a[2].lamports + a[4].lamports) as u64)).update(
                    4,
                    account_closed(a[4]),
                ),
                seq![
                    TokenAction::Transfer {
                        from: a[1].key,
                        to: a[3].key,
                        authority: custody_key_of(program_id),
                        amount: token_balance_of(a[1].data),
                        custody_signed: true,
                    },
                    TokenAction::CloseAccount {
                        account: a[1].key,
                        refund_to: a[2].key,
                        authority: custody_key_of(program_id),
                    },
                ],
            ),
        )
    }
}

/// ResetTimeLock over the account list [signer initializer, record account].
pub open spec fn reset_step(a: Seq<AccountModel>, now: u64) -> StepResult
    recommends
        a.len() == account_count_of(EscrowInstruction::ResetTimeLock),
        now + LOCK_DURATION <= u64::MAX,
{
    if !a[0].is_signer {
        Err(EscrowError::MissingRequiredSignature)
    } else if !(record_well_sized(a[1].data) && record_flag_ok(a[1].data)) {
        Err(EscrowError::InvalidAccountData)
    } else if !record_of(a[1].data).is_initialized {
        Err(EscrowError::UninitializedAccount)
    } else if record_of(a[1].data).initializer_pubkey != a[0].key {
        Err(EscrowError::InvalidAccountData)
    } else {
        let rec = record_of(a[1].data);
        let extended = Escrow {
            is_initialized: rec.is_initialized,
            initializer_pubkey: rec.initializer_pubkey,
            temp_token_account_pubkey: rec.temp_token_account_pubkey,
            initializer_token_to_receive_account_pubkey:
                rec.initializer_token_to_receive_account_pubkey,
            expected_amount: rec.expected_amount,
            unlock_time: (now + LOCK_DURATION) as u64,
        };
        Ok((a.update(1, record_written(a[1], extended)), Seq::<TokenAction>::empty()))
    }
}

/// One full processor step: decode the instruction bytes, then run the
/// selected transition.
pub open spec fn escrow_step(
    program_id: Key,
    a: Seq<AccountModel>,
    data: Seq<u8>,
    now: u64,
    rent_exempt: bool,
) -> StepResult {
    if !valid_encoding(data) {
        Err(EscrowError::InvalidInstruction)
    } else {
        match decoded_of(data) {
            EscrowInstruction::InitEscrow { amount } => init_step(
                program_id,
                a,
                amount,
                now,
                rent_exempt,
            ),
            EscrowInstruction::Exchange { amount } => exchange_step(program_id, a, amount),
            EscrowInstruction::ResetTimeLock => reset_step(a, now),
            EscrowInstruction::Cancel => cancel_step(program_id, a, now),
        }
    }
}

/// The instruction-dispatch state machine.
pub struct Processor;

impl Processor {
    /// Runs one instruction against the supplied accounts: decodes the bytes,
    /// validates every precondition, applies the record update in place, and
    /// returns the Token Ledger calls to perform. On rejection the accounts
    /// are left exactly as they were. Success is owed whenever the modelled
    /// step succeeds and a custody authority is derivable for the program id
    /// — always, for ResetTimeLock, which needs none; the statistically
    /// improbable underivable case rejects with `InvalidAccountData`.
    pub fn process(
        program_id: &Key,
        accounts: &mut Vec<AccountView>,
        instruction_data: &[u8],
        now: u64,
        rent_exempt: bool,
    ) -> (r: Result<Vec<TokenAction>, EscrowError>)
        requires
            valid_encoding(instruction_data@) ==> old(accounts)@.len() == account_count_of(
                decoded_of(instruction_data@),
            ),
            valid_encoding(instruction_data@) && (decoded_of(
                instruction_data@,
            ) matches EscrowInstruction::InitEscrow { .. } || decoded_of(
                instruction_data@,
            ) matches EscrowInstruction::ResetTimeLock) ==> now + LOCK_DURATION <= u64::MAX,
        ensures
            match r {
                Ok(actions) => escrow_step(
                    *program_id,
                    views_of(old(accounts)@),
                    instruction_data@,
                    now,
                    rent_exempt,
                ) == Ok::<_, EscrowError>((views_of(final(accounts)@), actions@)),
                Err(e) => final(accounts)@ == old(accounts)@ && (escrow_step(
                    *program_id,
                    views_of(old(accounts)@),
                    instruction_data@,
                    now,
                    rent_exempt,
                ) == Err::<(Seq<AccountModel>, Seq<TokenAction>), EscrowError>(e) || (escrow_step(
                    *program_id,
                    views_of(old(accounts)@),
                    instruction_data@,
                    now,
                    rent_exempt,
                ) matches Ok(_) && !custody_derivable(key_bytes_of(*program_id)) && e
                    == EscrowError::InvalidAccountData)),
            },
            escrow_step(
                *program_id,
                views_of(old(accounts)@),
                instruction_data@,
                now,
                rent_exempt,
            ) matches Ok(_) && (custody_derivable(key_bytes_of(*program_id)) || decoded_of(
                instruction_data@,
            ) matches EscrowInstruction::ResetTimeLock) ==> r matches Ok(_),
    {
        let instruction = EscrowInstruction::unpack(instruction_data)?;
        match instruction {
            EscrowInstruction::InitEscrow { amount } => Self::process_init_escrow(
                accounts,
                amount,
                program_id,
                now,
                rent_exempt,
            ),
            EscrowInstruction::Exchange { amount } => Self::process_exchange(
                accounts,
                amount,
                program_id,
            ),
            EscrowInstruction::ResetTimeLock => Self::process_reset_timelock(accounts, now),
            EscrowInstruction::Cancel => Self::process_cancel(accounts, program_id, now),
        }
    }

    /// InitEscrow: checks the signer, the receiving account's owner, rent
    /// exemption and that the record is not already live, then writes the
    /// populated record and asks the ledger to hand the deposit slot to the
    /// custody authority.
    pub fn process_init_escrow(
        accounts: &mut Vec<AccountView>,
        amount: u64,
        program_id: &Key,
        now: u64,
        rent_exempt: bool,
    ) -> (r: Result<Vec<TokenAction>, EscrowError>)
        requires
            old(accounts)@.len() == 6,
            now + LOCK_DURATION <= u64::MAX,
        ensures
            match r {
                Ok(actions) => init_step(
                    *program_id,
                    views_of(old(accounts)@),
                    amount,
                    now,
                    rent_exempt,
                ) == Ok::<_, EscrowError>((views_of(final(accounts)@), actions@)),
                Err(e) => final(accounts)@ == old(accounts)@ && (init_step(
                    *program_id,
                    views_of(old(accounts)@),
                    amount,
                    now,
                    rent_exempt,
                ) == Err::<(Seq<AccountModel>, Seq<TokenAction>), EscrowError>(e) || (init_step(
                    *program_id,
                    views_of(old(accounts)@),
                    amount,
                    now,
                    rent_exempt,
                ) matches Ok(_) && !custody_derivable(key_bytes_of(*program_id)) && e
                    == EscrowError::InvalidAccountData)),
            },
            init_step(*program_id, views_of(old(accounts)@), amount, now, rent_exempt) matches Ok(
                _,
            ) && custody_derivable(key_bytes_of(*program_id)) ==> r matches Ok(_),
    {
        let ghost pre = views_of(old(accounts)@);
        if !accounts[0].is_signer {
            return Err(EscrowError::MissingRequiredSignature);
        }
        let receive_owner = accounts[2].owner;
        if !is_token_ledger_key(&receive_owner) {
            return Err(EscrowError::IncorrectProgramId);
        }
        if !rent_exempt {
            return Err(EscrowError::NotRentExempt);
        }
        let escrow_info = Escrow::unpack_unchecked(accounts[3].data.as_slice())?;
        if escrow_info.is_initialized {
            return Err(EscrowError::AccountAlreadyInitialized);
        }
        let new_record = Escrow {
            is_initialized: true,
            initializer_pubkey: accounts[0].key,
            temp_token_account_pubkey: accounts[1].key,
            initializer_token_to_receive_account_pubkey: accounts[2].key,
            expected_amount: amount,
            unlock_time: now + LOCK_DURATION,
        };
        let pda = match crate::authority::derive(program_id) {
            Some(p) => p.0,
            None => {
                return Err(EscrowError::InvalidAccountData);
            }
        };
        accounts[3].data = new_record.pack();
        let mut actions: Vec<TokenAction> = Vec::new();
        actions.push(
            TokenAction::ReassignAuthority {
                account: new_record.temp_token_account_pubkey,
                new_authority: pda,
                current_authority: new_record.initializer_pubkey,
            },
        );
        proof {
            assert(new_record == init_record(pre, amount, now));
            assert(views_of(accounts@) =~~= pre.update(3, record_written(pre[3], new_record)));
            assert(actions@ =~= init_step(*program_id, pre, amount, now, rent_exempt)->Ok_0.1);
        }
        Ok(actions)
    }

    /// Exchange: checks the signer, reads the custody slot's live balance,
    /// requires the supplied amount to equal it exactly, matches every stored
    /// identity, then sweeps the record's balance to the initializer, clears
    /// the record, and returns the three settlement calls.
    pub fn process_exchange(
        accounts: &mut Vec<AccountView>,
        amount_expected_by_taker: u64,
        program_id: &Key,
    ) -> (r: Result<Vec<TokenAction>, EscrowError>)
        requires
            old(accounts)@.len() == 9,
        ensures
            match r {
                Ok(actions) => exchange_step(
                    *program_id,
                    views_of(old(accounts)@),
                    amount_expected_by_taker,
                ) == Ok::<_, EscrowError>((views_of(final(accounts)@), actions@)),
                Err(e) => final(accounts)@ == old(accounts)@ && (exchange_step(
                    *program_id,
                    views_of(old(accounts)@),
                    amount_expected_by_taker,
                ) == Err::<(Seq<AccountModel>, Seq<TokenAction>), EscrowError>(e) || (
                exchange_step(
                    *program_id,
                    views_of(old(accounts)@),
                    amount_expected_by_taker,
                ) matches Ok(_) && !custody_derivable(key_bytes_of(*program_id)) && e
                    == EscrowError::InvalidAccountData)),
            },
            exchange_step(*program_id, views_of(old(accounts)@), amount_expected_by_taker)
                matches Ok(_) && custody_derivable(key_bytes_of(*program_id)) ==> r matches Ok(_),
    {
        let ghost pre = views_of(old(accounts)@);
        if !accounts[0].is_signer {
            return Err(EscrowError::MissingRequiredSignature);
        }
        let custody_balance = token_account_amount(accounts[3].data.as_slice())?;
        if amount_expected_by_taker != custody_balance {
            return Err(EscrowError::ExpectedAmountMismatch);
        }
        let escrow_info = Escrow::unpack(accounts[6].data.as_slice())?;
        if escrow_info.temp_token_account_pubkey != accounts[3].key {
            return Err(EscrowError::InvalidAccountData);
        }
        if escrow_info.initializer_pubkey != accounts[4].key {
            return Err(EscrowError::InvalidAccountData);
        }
        if escrow_info.initializer_token_to_receive_account_pubkey != accounts[5].key {
            return Err(EscrowError::InvalidAccountData);
        }
        let main_lamports = accounts[4].lamports;
        let record_lamports = accounts[6].lamports;
        if u64::MAX - main_lamports < record_lamports {
            return Err(EscrowError::AmountOverflow);
        }
        let pda = match crate::authority::derive(program_id) {
            Some(p) => p.0,
            None => {
                return Err(EscrowError::InvalidAccountData);
            }
        };
        let taker = accounts[0].key;
        let taker_sending = accounts[1].key;
        let taker_receiving = accounts[2].key;
        let custody_slot = accounts[3].key;
        let initializer_main = accounts[4].key;
        let initializer_receiving = accounts[5].key;
        accounts[4].lamports = main_lamports + record_lamports;
        accounts[6].lamports = 0;
        accounts[6].data = Escrow::cleared_data();
        let mut actions: Vec<TokenAction> = Vec::new();
        actions.push(
            TokenAction::Transfer {
                from: taker_sending,
                to: initializer_receiving,
                authority: taker,
                amount: escrow_info.expected_amount,
                custody_signed: false,
            },
        );
        actions.push(
            TokenAction::Transfer {
                from: custody_slot,
                to: taker_receiving,
                authority: pda,
                amount: custody_balance,
                custody_signed: true,
            },
        );
        actions.push(
            TokenAction::CloseAccount {
                account: custody_slot,
                refund_to: initializer_main,
                authority: pda,
            },
        );
        proof {
            assert(views_of(accounts@) =~~= pre.update(
                4,
                lamports_set(pre[4], (pre[4].lamports + pre[6].lamports) as u64),
            ).update(6, account_closed(pre[6])));
            assert(actions@ =~= exchange_step(
                *program_id,
                pre,
                amount_expected_by_taker,
            )->Ok_0.1);
        }
        Ok(actions)
    }

    /// Cancel: checks the signer, the record account's owner and writability,
    /// the time lock, and every stored identity including that the signer is
    /// the initializer, then sweeps the record's balance back, clears the
    /// record, and returns the two refund calls.
    pub fn process_cancel(
        accounts: &mut Vec<AccountView>,
        program_id: &Key,
        now: u64,
    ) -> (r: Result<Vec<TokenAction>, EscrowError>)
        requires
            old(accounts)@.len() == 7,
        ensures
            match r {
                Ok(actions) => cancel_step(*program_id, views_of(old(accounts)@), now) == Ok::<
                    _,
                    EscrowError,
                >((views_of(final(accounts)@), actions@)),
                Err(e) => final(accounts)@ == old(accounts)@ && (cancel_step(
                    *program_id,
                    views_of(old(accounts)@),
                    now,
                ) == Err::<(Seq<AccountModel>, Seq<TokenAction>), EscrowError>(e) || (cancel_step(
                    *program_id,
                    views_of(old(accounts)@),
                    now,
                ) matches Ok(_) && !custody_derivable(key_bytes_of(*program_id)) && e
                    == EscrowError::InvalidAccountData)),
            },
            cancel_step(*program_id, views_of(old(accounts)@), now) matches Ok(_)
                && custody_derivable(key_bytes_of(*program_id)) ==> r matches Ok(_),
    {
        let ghost pre = views_of(old(accounts)@);
        if !accounts[0].is_signer {
            return Err(EscrowError::MissingRequiredSignature);
        }
        let record_owner = accounts[4].owner;
        if !(record_owner == *program_id && accounts[4].is_writable) {
            return Err(EscrowError::IllegalOwner);
        }
        let escrow_info = Escrow::unpack(accounts[4].data.as_slice())?;
        if now <= escrow_info.unlock_time {
            return Err(EscrowError::TimeConstraintWasNotSatisfied);
        }
        if escrow_info.temp_token_account_pubkey != accounts[1].key {
            return Err(EscrowError::InvalidAccountData);
        }
        if escrow_info.initializer_pubkey != accounts[2].key {
            return Err(EscrowError::InvalidAccountData);
        }
        if escrow_info.initializer_token_to_receive_account_pubkey != accounts[3].key {
            return Err(EscrowError::InvalidAccountData);
        }
        if escrow_info.initializer_pubkey != accounts[0].key {
            return Err(EscrowError::InvalidAccountData);
        }
        let custody_balance = token_account_amount(accounts[1].data.as_slice())?;
        let main_lamports = accounts[2].lamports;
        let record_lamports = accounts[4].lamports;
        if u64::MAX - main_lamports < record_lamports {
            return Err(EscrowError::AmountOverflow);
        }
        let pda = match crate::authority::derive(program_id) {
            Some(p) => p.0,
            None => {
                return Err(EscrowError::InvalidAccountData);
            }
        };
        let custody_slot = accounts[1].key;
        let initializer_main = accounts[2].key;
        let initializer_receiving = accounts[3].key;
        accounts[2].lamports = main_lamports + record_lamports;
        accounts[4].lamports = 0;
        accounts[4].data = Escrow::cleared_data();
        let mut actions: Vec<TokenAction> = Vec::new();
        actions.push(
            TokenAction::Transfer {
                from: custody_slot,
                to: initializer_receiving,
                authority: pda,
                amount: custody_balance,
                custody_signed: true,
            },
        );
        actions.push(
            TokenAction::CloseAccount {
                account: custody_slot,
                refund_to: initializer_main,
                authority: pda,
            },
        );
        proof {
            assert(views_of(accounts@) =~~= pre.update(
                2,
                lamports_set(pre[2], (pre[2].lamports + pre[4].lamports) as u64),
            ).update(4, account_closed(pre[4])));
            assert(actions@ =~= cancel_step(*program_id, pre, now)->Ok_0.1);
        }
        Ok(actions)
    }

    /// ResetTimeLock: checks the signer and that it is the initializer of a
    /// live record, then extends the unlock time by the fixed window from the
    /// current time. No ledger call is needed.
    pub fn process_reset_timelock(accounts: &mut Vec<AccountView>, now: u64) -> (r: Result<
        Vec<TokenAction>,
        EscrowError,
    >)
        requires
            old(accounts)@.len() == 2,
            now + LOCK_DURATION <= u64::MAX,
        ensures
            match r {
                Ok(actions) => reset_step(views_of(old(accounts)@), now) == Ok::<_, EscrowError>(
                    (views_of(final(accounts)@), actions@),
                ),
                Err(e) => final(accounts)@ == old(accounts)@ && reset_step(
                    views_of(old(accounts)@),
                    now,
                ) == Err::<(Seq<AccountModel>, Seq<TokenAction>), EscrowError>(e),
            },
    {
        let ghost pre = views_of(old(accounts)@);
        if !accounts[0].is_signer {
            return Err(EscrowError::MissingRequiredSignature);
        }
        let escrow_info = Escrow::unpack(accounts[1].data.as_slice())?;
        if escrow_info.initializer_pubkey != accounts[0].key {
            return Err(EscrowError::InvalidAccountData);
        }
        let extended = Escrow {
            is_initialized: escrow_info.is_initialized,
            initializer_pubkey: escrow_info.initializer_pubkey,
            temp_token_account_pubkey: escrow_info.temp_token_account_pubkey,
            initializer_token_to_receive_account_pubkey:
                escrow_info.initializer_token_to_receive_account_pubkey,
            expected_amount: escrow_info.expected_amount,
            unlock_time: now + LOCK_DURATION,
        };
        accounts[1].data = extended.pack();
        let actions: Vec<TokenAction> = Vec::new();
        proof {
            assert(views_of(accounts@) =~~= pre.update(1, record_written(pre[1], extended)));
            assert(actions@ =~= Seq::<TokenAction>::empty());
        }
        Ok(actions)
    }
}

/// Law: InitEscrow on an already-initialized record always fails — with
/// `AccountAlreadyInitialized` once the earlier signer, owner and rent
/// checks pass — and so, by the handlers' contracts, never mutates the
/// existing record.
pub proof fn lemma_init_on_live_record_rejected(
    program_id: Key,
    a: Seq<AccountModel>,
    amount: u64,
    now: u64,
    rent_exempt: bool,
)
    requires
        a.len() == 6,
        holds_live_record(a[3]),
    ensures
        init_step(program_id, a, amount, now, rent_exempt) matches Err(_),
        a[0].is_signer && key_is_token_ledger(a[2].owner) && rent_exempt ==> init_step(
            program_id,
            a,
            amount,
            now,
            rent_exempt,
        ) == Err::<(Seq<AccountModel>, Seq<TokenAction>), EscrowError>(
            EscrowError::AccountAlreadyInitialized,
        ),
{
}

/// Law: Exchange succeeds exactly when the supplied amount equals the
/// custody slot's live balance and every later precondition holds; any
/// mismatch, by however little, is rejected with `ExpectedAmountMismatch`,
/// which by the handlers' contracts leaves the record open and untouched.
pub proof fn lemma_exchange_amount_gate(program_id: Key, a: Seq<AccountModel>, amount: u64)
    requires
        a.len() == 9,
        a[0].is_signer,
        token_account_parses(a[3].data),
        token_account_initialized(a[3].data),
    ensures
        amount != token_balance_of(a[3].data) ==> exchange_step(program_id, a, amount) == Err::<
            (Seq<AccountModel>, Seq<TokenAction>),
            EscrowError,
        >(EscrowError::ExpectedAmountMismatch),
        exchange_step(program_id, a, amount) matches Ok(_) ==> amount == token_balance_of(
            a[3].data,
        ),
        amount == token_balance_of(a[3].data) && holds_live_record(a[6]) && record_of(
            a[6].data,
        ).temp_token_account_pubkey == a[3].key && record_of(a[6].data).initializer_pubkey
            == a[4].key && record_of(a[6].data).initializer_token_to_receive_account_pubkey
            == a[5].key && a[4].lamports + a[6].lamports <= u64::MAX ==> exchange_step(
            program_id,
            a,
            amount,
        ) matches Ok(_),
{
}

/// Law: a successful Exchange closes the record in place: afterwards its
/// initialized flag reads false and its balance is zero.
pub proof fn lemma_exchange_closes_record(program_id: Key, a: Seq<AccountModel>, amount: u64)
    requires
        a.len() == 9,
        exchange_step(program_id, a, amount) matches Ok(_),
    ensures
        ({
            let post = exchange_step(program_id, a, amount)->Ok_0.0;
            &&& post.len() == 9
            &&& post[6].data == cleared_record_bytes()
            &&& post[6].lamports == 0
            &&& !record_of(post[6].data).is_initialized
            &&& !holds_live_record(post[6])
        }),
{
}

/// Law: a successful Cancel closes the record in place: afterwards its
/// initialized flag reads false and its balance is zero.
pub proof fn lemma_cancel_closes_record(program_id: Key, a: Seq<AccountModel>, now: u64)
    requires
        a.len() == 7,
        cancel_step(program_id, a, now) matches Ok(_),
    ensures
        ({
            let post = cancel_step(program_id, a, now)->Ok_0.0;
            &&& post.len() == 7
            &&& post[4].data == cleared_record_bytes()
            &&& post[4].lamports == 0
            &&& !record_of(post[4].data).is_initialized
            &&& !holds_live_record(post[4])
        }),
{
}

/// Law: once a record's bytes are cleared, every instruction that must read
/// a live record is rejected with `UninitializedAccount` as soon as its
/// checks reach the record.
pub proof fn lemma_cleared_record_rejected(
    program_id: Key,
    a: Seq<AccountModel>,
    amount: u64,
    now: u64,
)
    ensures
        a.len() == 2 && a[0].is_signer && a[1].data == cleared_record_bytes() ==> reset_step(
            a,
            now,
        ) == Err::<(Seq<AccountModel>, Seq<TokenAction>), EscrowError>(
            EscrowError::UninitializedAccount,
        ),
        a.len() == 7 && a[0].is_signer && a[4].owner == program_id && a[4].is_writable
            && a[4].data == cleared_record_bytes() ==> cancel_step(program_id, a, now) == Err::<
            (Seq<AccountModel>, Seq<TokenAction>),
            EscrowError,
        >(EscrowError::UninitializedAccount),
        a.len() == 9 && a[0].is_signer && token_account_parses(a[3].data)
            && token_account_initialized(a[3].data) && amount == token_balance_of(a[3].data)
            && a[6].data == cleared_record_bytes() ==> exchange_step(program_id, a, amount)
            == Err::<(Seq<AccountModel>, Seq<TokenAction>), EscrowError>(
            EscrowError::UninitializedAccount,
        ),
{
}

/// Law: Cancel's guard order is pinned. A missing signature is rejected
/// first, with `MissingRequiredSignature`; a live record cancelled at or
/// before its unlock time is rejected with `TimeConstraintWasNotSatisfied`;
/// and a signing caller other than the stored initializer is rejected with
/// `InvalidAccountData` once the other stored identities have matched.
pub proof fn lemma_cancel_guards(program_id: Key, a: Seq<AccountModel>, now: u64)
    requires
        a.len() == 7,
    ensures
        !a[0].is_signer ==> cancel_step(program_id, a, now) == Err::<
            (Seq<AccountModel>, Seq<TokenAction>),
            EscrowError,
        >(EscrowError::MissingRequiredSignature),
        a[0].is_signer && a[4].owner == program_id && a[4].is_writable && holds_live_record(a[4])
            && now <= record_of(a[4].data).unlock_time ==> cancel_step(program_id, a, now)
            == Err::<(Seq<AccountModel>, Seq<TokenAction>), EscrowError>(
            EscrowError::TimeConstraintWasNotSatisfied,
        ),
        a[0].is_signer && a[4].owner == program_id && a[4].is_writable && holds_live_record(a[4])
            && now > record_of(a[4].data).unlock_time && record_of(
            a[4].data,
        ).temp_token_account_pubkey == a[1].key && record_of(a[4].data).initializer_pubkey
            == a[2].key && record_of(a[4].data).initializer_token_to_receive_account_pubkey
            == a[3].key && record_of(a[4].data).initializer_pubkey != a[0].key ==> cancel_step(
            program_id,
            a,
            now,
        ) == Err::<(Seq<AccountModel>, Seq<TokenAction>), EscrowError>(
            EscrowError::InvalidAccountData,
        ),
{
}

} // verus!
