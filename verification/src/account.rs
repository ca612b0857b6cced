//! Plain-data views of the accounts a caller supplies, and their
//! mathematical model.

use crate::key::Key;
use vstd::prelude::*;

verus! {

/// What the processor reads of one supplied account: its identity, its
/// authorization flags, its owner, its balance and its data bytes.
#[derive(Clone, Debug)]
pub struct AccountView {
    /// The account's address.
    pub key: Key,
    /// Whether the runtime verified this account's signature.
    pub is_signer: bool,
    /// Whether the caller marked this account writable.
    pub is_writable: bool,
    /// The program that owns the account.
    pub owner: Key,
    /// The account's balance, in the ledger's native unit.
    pub lamports: u64,
    /// The account's data bytes.
    pub data: Vec<u8>,
}

/// The mathematical model of one account.
pub ghost struct AccountModel {
    pub key: Key,
    pub is_signer: bool,
    pub is_writable: bool,
    pub owner: Key,
    pub lamports: u64,
    pub data: Seq<u8>,
}

impl View for AccountView {
    type V = AccountModel;

    open spec fn view(&self) -> AccountModel {
        AccountModel {
            key: self.key,
            is_signer: self.is_signer,
            is_writable: self.is_writable,
            owner: self.owner,
            lamports: self.lamports,
            data: self.data@,
        }
    }
}

/// The models of a whole account list.
pub open spec fn views_of(s: Seq<AccountView>) -> Seq<AccountModel> {
    s.map_values(|a: AccountView| a@)
}

} // verus!
