//! The interface to the Token Ledger's own data: reading a token account's
//! live balance, and recognising accounts the Token Ledger owns.

use crate::error::EscrowError;
use crate::key::{key_bytes_of, Key};
use solana_program::program_pack::Pack;
use vstd::bytes::spec_u64_from_le_bytes;
use vstd::prelude::*;

verus! {

/// The size of a serialized token account.
pub const TOKEN_ACCOUNT_LEN: usize = 165;

/// Whether four bytes are a valid optional-field tag: 0 or 1, little endian.
pub open spec fn option_tag_ok(b: Seq<u8>) -> bool
    recommends
        b.len() == 4,
{
    (b[0] == 0 || b[0] == 1) && b[1] == 0 && b[2] == 0 && b[3] == 0
}

/// Whether a buffer deserializes as a token account: 165 bytes whose three
/// optional-field tags and state byte are valid.
pub open spec fn token_account_parses(d: Seq<u8>) -> bool {
    d.len() == TOKEN_ACCOUNT_LEN && option_tag_ok(d.subrange(72, 76)) && d[108] <= 2
        && option_tag_ok(d.subrange(109, 113)) && option_tag_ok(d.subrange(129, 133))
}

/// Whether a parsed token account has been initialized (its state byte is not
/// the uninitialized state).
pub open spec fn token_account_initialized(d: Seq<u8>) -> bool
    recommends
        token_account_parses(d),
{
    d[108] != 0
}

/// The balance a token account holds: the little-endian word at bytes 64..72.
pub open spec fn token_balance_of(d: Seq<u8>) -> u64
    recommends
        token_account_parses(d),
{
    spec_u64_from_le_bytes(d.subrange(64, 72))
}

/// Reads the live balance of a token account from its data bytes.
///
/// Relies on `spl_token::state::Account::unpack`: it succeeds exactly on a
/// 165-byte buffer whose optional-field tags (at 72, 109 and 129) and state
/// byte (at 108) are valid and whose state is not uninitialized, returning an
/// account whose `amount` is the little-endian word at bytes 64..72; a buffer
/// that does not deserialize fails with the ledger's invalid-data error, and a
/// deserializable but uninitialized one with its uninitialized-account error.
#[verifier::external_body]
pub(crate) fn token_account_amount(d: &[u8]) -> (r: Result<u64, EscrowError>)
    ensures
        r == (if token_account_parses(d@) && token_account_initialized(d@) {
            Ok::<u64, EscrowError>(token_balance_of(d@))
        } else if token_account_parses(d@) {
            Err::<u64, EscrowError>(EscrowError::UninitializedAccount)
        } else {
            Err::<u64, EscrowError>(EscrowError::InvalidAccountData)
        }),
{
    match spl_token::state::Account::unpack(d) {
        Ok(acct) => Ok(acct.amount),
        Err(solana_program::program_error::ProgramError::UninitializedAccount) => Err(
            EscrowError::UninitializedAccount,
        ),
        Err(_) => Err(EscrowError::InvalidAccountData),
    }
}

/// What `spl_token::check_id` answers for 32 key bytes: whether they are the
/// Token Ledger's own id, a fixed constant of the ledger.
pub uninterp spec fn token_ledger_owned(k: Seq<u8>) -> bool;

/// Relies on `spl_token::check_id`: it compares the key against the token
/// program's fixed id, so the answer depends on the key bytes alone.
#[verifier::external_body]
fn check_token_ledger(k: &[u8]) -> (r: bool)
    requires
        k@.len() == 32,
    ensures
        r == token_ledger_owned(k@),
{
    let pk = solana_program::pubkey::Pubkey::try_from(k).unwrap();
    spl_token::check_id(&pk)
}

/// Whether a key is the Token Ledger's id.
pub open spec fn key_is_token_ledger(k: Key) -> bool {
    token_ledger_owned(key_bytes_of(k))
}

/// Asks the Token Ledger whether `k` is its own id.
pub fn is_token_ledger_key(k: &Key) -> (r: bool)
    ensures
        r == key_is_token_ledger(*k),
{
    let b = k.to_bytes();
    check_token_ledger(b.as_slice())
}

} // verus!
