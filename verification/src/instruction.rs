//! The instruction codec: one leading tag byte selects the variant, and the
//! amount-bearing variants carry an 8-byte little-endian amount.

use crate::error::EscrowError;
use vstd::bytes::{
    lemma_auto_spec_u64_to_from_le_bytes, spec_u64_from_le_bytes, spec_u64_to_le_bytes,
    u64_from_le_bytes, u64_to_le_bytes,
};
use vstd::prelude::*;
use vstd::slice::slice_subrange;

verus! {

/// One of the four state transitions a caller may request.
#[derive(Clone, Copy, Debug, PartialEq, Eq, Structural)]
pub enum EscrowInstruction {
    /// Starts the trade: populates the escrow record and hands the deposit
    /// slot to the custody authority. `amount` is the amount of the
    /// counter-token the initializer expects to receive.
    InitEscrow { amount: u64 },
    /// Settles the trade. `amount` is the custodied balance the counterparty
    /// expects to receive.
    Exchange { amount: u64 },
    /// Extends the record's unlock time, initializer-authorized only.
    ResetTimeLock,
    /// Returns the deposit to the initializer once the time lock permits.
    Cancel,
}

/// The wire encoding of an instruction: a tag byte, then for the
/// amount-bearing variants the 8-byte little-endian amount.
pub open spec fn encoding_of(i: EscrowInstruction) -> Seq<u8> {
    match i {
        EscrowInstruction::InitEscrow { amount } => seq![0u8] + spec_u64_to_le_bytes(amount),
        EscrowInstruction::Exchange { amount } => seq![1u8] + spec_u64_to_le_bytes(amount),
        EscrowInstruction::ResetTimeLock => seq![2u8],
        EscrowInstruction::Cancel => seq![3u8],
    }
}

/// Whether a byte buffer decodes to an instruction: a known tag, and for the
/// amount-bearing tags at least 8 trailing bytes. Extra trailing bytes are
/// tolerated, as they carry no meaning.
pub open spec fn valid_encoding(b: Seq<u8>) -> bool {
    b.len() >= 1 && if b[0] == 0 || b[0] == 1 {
        b.len() >= 9
    } else {
        b[0] == 2 || b[0] == 3
    }
}

/// The instruction a valid buffer decodes to.
pub open spec fn decoded_of(b: Seq<u8>) -> EscrowInstruction
    recommends
        valid_encoding(b),
{
    if b[0] == 0 {
        EscrowInstruction::InitEscrow { amount: spec_u64_from_le_bytes(b.subrange(1, 9)) }
    } else if b[0] == 1 {
        EscrowInstruction::Exchange { amount: spec_u64_from_le_bytes(b.subrange(1, 9)) }
    } else if b[0] == 2 {
        EscrowInstruction::ResetTimeLock
    } else {
        EscrowInstruction::Cancel
    }
}

/// The number of accounts each instruction's positional account list must
/// supply, in the documented order.
pub open spec fn account_count_of(i: EscrowInstruction) -> int {
    match i {
        EscrowInstruction::InitEscrow { .. } => 6,
        EscrowInstruction::Exchange { .. } => 9,
        EscrowInstruction::ResetTimeLock => 2,
        EscrowInstruction::Cancel => 7,
    }
}

impl EscrowInstruction {
    /// Decodes a byte buffer into an instruction. Any unknown tag, or an
    /// amount-bearing tag with fewer than 8 trailing bytes, is rejected with
    /// `InvalidInstruction`.
    pub fn unpack(input: &[u8]) -> (r: Result<Self, EscrowError>)
        ensures
            valid_encoding(input@) ==> r == Ok::<Self, EscrowError>(decoded_of(input@)),
            !valid_encoding(input@) ==> r == Err::<Self, EscrowError>(
                EscrowError::InvalidInstruction,
            ),
    {
        if input.len() == 0 {
            return Err(EscrowError::InvalidInstruction);
        }
        let tag = input[0];
        let rest = slice_subrange(input, 1, input.len());
        proof {
            if input@.len() >= 9 {
                assert(rest@.subrange(0, 8) =~= input@.subrange(1, 9));
            }
        }
        match tag {
            0 => {
                let amount = Self::unpack_amount(rest)?;
                Ok(Self::InitEscrow { amount })
            }
            1 => {
                let amount = Self::unpack_amount(rest)?;
                Ok(Self::Exchange { amount })
            }
            2 => Ok(Self::ResetTimeLock),
            3 => Ok(Self::Cancel),
            _ => Err(EscrowError::InvalidInstruction),
        }
    }

    /// Reads the little-endian amount from the first 8 bytes of a payload.
    pub fn unpack_amount(input: &[u8]) -> (r: Result<u64, EscrowError>)
        ensures
            input@.len() >= 8 ==> r == Ok::<u64, EscrowError>(
                spec_u64_from_le_bytes(input@.subrange(0, 8)),
            ),
            input@.len() < 8 ==> r == Err::<u64, EscrowError>(EscrowError::InvalidInstruction),
    {
        if input.len() < 8 {
            Err(EscrowError::InvalidInstruction)
        } else {
            Ok(u64_from_le_bytes(slice_subrange(input, 0, 8)))
        }
    }

    /// Encodes the instruction into its wire bytes, the inverse of `unpack`.
    pub fn pack(&self) -> (r: Vec<u8>)
        ensures
            r@ == encoding_of(*self),
    {
        let mut buf: Vec<u8> = Vec::new();
        match self {
            Self::InitEscrow { amount } => {
                buf.push(0u8);
                let mut amt = u64_to_le_bytes(*amount);
                buf.append(&mut amt);
                proof {
                    assert(buf@ =~= encoding_of(*self));
                }
            }
            Self::Exchange { amount } => {
                buf.push(1u8);
                let mut amt = u64_to_le_bytes(*amount);
                buf.append(&mut amt);
                proof {
                    assert(buf@ =~= encoding_of(*self));
                }
            }
            Self::ResetTimeLock => {
                buf.push(2u8);
                proof {
                    assert(buf@ =~= encoding_of(*self));
                }
            }
            Self::Cancel => {
                buf.push(3u8);
                proof {
                    assert(buf@ =~= encoding_of(*self));
                }
            }
        }
        buf
    }
}

/// Law: decoding any encoded instruction yields the instruction back, for
/// every variant and every amount.
pub proof fn lemma_codec_round_trip(i: EscrowInstruction)
    ensures
        valid_encoding(encoding_of(i)),
        decoded_of(encoding_of(i)) == i,
{
    lemma_auto_spec_u64_to_from_le_bytes();
    match i {
        EscrowInstruction::InitEscrow { amount } => {
            assert(encoding_of(i).subrange(1, 9) =~= spec_u64_to_le_bytes(amount));
        }
        EscrowInstruction::Exchange { amount } => {
            assert(encoding_of(i).subrange(1, 9) =~= spec_u64_to_le_bytes(amount));
        }
        EscrowInstruction::ResetTimeLock => {
        }
        EscrowInstruction::Cancel => {
        }
    }
}

} // verus!
