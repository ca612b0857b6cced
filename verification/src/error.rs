//! The error kinds surfaced by the escrow processor and codecs.

use vstd::prelude::*;

verus! {

/// Every failure aborts the whole invocation and is surfaced verbatim to the
/// caller; there is no recovery inside the processor.
#[derive(Clone, Copy, Debug, PartialEq, Eq, Structural)]
pub enum EscrowError {
    /// Malformed opcode or payload.
    InvalidInstruction,
    /// An expected signer flag is absent.
    MissingRequiredSignature,
    /// An account expected to be owned by the Token Ledger is not.
    IncorrectProgramId,
    /// The record account's balance is insufficient for rent exemption.
    NotRentExempt,
    /// InitEscrow was attempted on a live record.
    AccountAlreadyInitialized,
    /// A non-Init instruction was attempted on a record never initialized.
    UninitializedAccount,
    /// The Exchange amount does not equal the custodied balance.
    ExpectedAmountMismatch,
    /// A supplied account identity does not match the record's stored
    /// identities, or an account's bytes are not a well-formed record.
    InvalidAccountData,
    /// The balance-sweep arithmetic would overflow.
    AmountOverflow,
    /// Cancellation was attempted outside the permitted window.
    TimeConstraintWasNotSatisfied,
    /// The record account is not owned by this program, or not writable.
    IllegalOwner,
}

} // verus!
