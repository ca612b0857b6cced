//! The escrow record: the persisted state of one trade, and its byte codec.
//!
//! A record is 113 bytes: one flag byte, the three stored identities, then the
//! expected amount and the unlock time, both little endian.

use crate::error::EscrowError;
use crate::key::{key_bytes_of, key_of_bytes, lemma_key_bytes_roundtrip, Key};
use vstd::bytes::{
    lemma_auto_spec_u64_to_from_le_bytes, spec_u64_from_le_bytes, spec_u64_to_le_bytes,
    u64_from_le_bytes, u64_to_le_bytes,
};
use vstd::prelude::*;
use vstd::slice::slice_subrange;

verus! {

/// The number of bytes in a serialized record.
pub const RECORD_LEN: usize = 113;

/// The persisted state of one trade.
#[derive(Clone, Copy, Debug, PartialEq, Eq, Structural)]
pub struct Escrow {
    /// False until InitEscrow succeeds; true thereafter until the record is
    /// closed.
    pub is_initialized: bool,
    /// The owner entitled to cancel or reset the lock.
    pub initializer_pubkey: Key,
    /// The token account holding the deposit, owned by the custody authority.
    pub temp_token_account_pubkey: Key,
    /// The initializer's account that must receive the counterparty's payment.
    pub initializer_token_to_receive_account_pubkey: Key,
    /// The amount of the counter-token required to settle; fixed at creation.
    pub expected_amount: u64,
    /// The logical-clock value after which cancellation becomes permitted.
    pub unlock_time: u64,
}

/// The 113-byte serialization of a record.
pub open spec fn record_bytes_of(e: Escrow) -> Seq<u8> {
    seq![if e.is_initialized { 1u8 } else { 0u8 }] + key_bytes_of(e.initializer_pubkey)
        + key_bytes_of(e.temp_token_account_pubkey) + key_bytes_of(
        e.initializer_token_to_receive_account_pubkey,
    ) + spec_u64_to_le_bytes(e.expected_amount) + spec_u64_to_le_bytes(e.unlock_time)
}

/// Whether a buffer has the exact size of a record.
pub open spec fn record_well_sized(b: Seq<u8>) -> bool {
    b.len() == RECORD_LEN
}

/// Whether the flag byte is a valid boolean.
pub open spec fn record_flag_ok(b: Seq<u8>) -> bool
    recommends
        record_well_sized(b),
{
    b[0] == 0 || b[0] == 1
}

/// The record read back from a well-sized buffer.
pub open spec fn record_of(b: Seq<u8>) -> Escrow
    recommends
        record_well_sized(b),
{
    Escrow {
        is_initialized: b[0] == 1,
        initializer_pubkey: key_of_bytes(b.subrange(1, 33)),
        temp_token_account_pubkey: key_of_bytes(b.subrange(33, 65)),
        initializer_token_to_receive_account_pubkey: key_of_bytes(b.subrange(65, 97)),
        expected_amount: spec_u64_from_le_bytes(b.subrange(97, 105)),
        unlock_time: spec_u64_from_le_bytes(b.subrange(105, 113)),
    }
}

/// The bytes of a closed record: the whole buffer cleared to zero, which is a
/// well-sized, uninitialized record.
pub open spec fn cleared_record_bytes() -> Seq<u8> {
    Seq::new(RECORD_LEN as nat, |i: int| 0u8)
}

/// Law: serializing a record and reading it back yields the record, and the
/// serialization is well sized with a valid flag.
pub proof fn lemma_record_roundtrip(e: Escrow)
    ensures
        record_well_sized(record_bytes_of(e)),
        record_flag_ok(record_bytes_of(e)),
        record_of(record_bytes_of(e)) == e,
{
    lemma_auto_spec_u64_to_from_le_bytes();
    lemma_key_bytes_roundtrip(e.initializer_pubkey);
    lemma_key_bytes_roundtrip(e.temp_token_account_pubkey);
    lemma_key_bytes_roundtrip(e.initializer_token_to_receive_account_pubkey);
    let b = record_bytes_of(e);
    assert(b.subrange(1, 33) =~= key_bytes_of(e.initializer_pubkey));
    assert(b.subrange(33, 65) =~= key_bytes_of(e.temp_token_account_pubkey));
    assert(b.subrange(65, 97) =~= key_bytes_of(e.initializer_token_to_receive_account_pubkey));
    assert(b.subrange(97, 105) =~= spec_u64_to_le_bytes(e.expected_amount));
    assert(b.subrange(105, 113) =~= spec_u64_to_le_bytes(e.unlock_time));
}

impl Escrow {
    /// Reads a record from a buffer without treating "uninitialized" as an
    /// error; InitEscrow must read a record that is not yet meaningful.
    /// Fails only on a buffer that is not a well-sized record — including,
    /// as a deliberate tightening, a well-sized buffer whose flag byte is
    /// neither 0 nor 1: such bytes are no serialization of any record, and
    /// reading them as one would let a corrupt flag survive a round trip.
    pub fn unpack_unchecked(src: &[u8]) -> (r: Result<Escrow, EscrowError>)
        ensures
            record_well_sized(src@) && record_flag_ok(src@) ==> r == Ok::<Escrow, EscrowError>(
                record_of(src@),
            ),
            !(record_well_sized(src@) && record_flag_ok(src@)) ==> r == Err::<
                Escrow,
                EscrowError,
            >(EscrowError::InvalidAccountData),
    {
        if src.len() != RECORD_LEN {
            return Err(EscrowError::InvalidAccountData);
        }
        let flag = src[0];
        if flag > 1 {
            return Err(EscrowError::InvalidAccountData);
        }
        let initializer_pubkey = Key::from_slice(src, 1);
        let temp_token_account_pubkey = Key::from_slice(src, 33);
        let initializer_token_to_receive_account_pubkey = Key::from_slice(src, 65);
        let expected_amount = u64_from_le_bytes(slice_subrange(src, 97, 105));
        let unlock_time = u64_from_le_bytes(slice_subrange(src, 105, 113));
        Ok(
            Escrow {
                is_initialized: flag == 1,
                initializer_pubkey,
                temp_token_account_pubkey,
                initializer_token_to_receive_account_pubkey,
                expected_amount,
                unlock_time,
            },
        )
    }

    /// Reads a record that every instruction but InitEscrow needs: a record
    /// never initialized (or since closed) is rejected with
    /// `UninitializedAccount`.
    pub fn unpack(src: &[u8]) -> (r: Result<Escrow, EscrowError>)
        ensures
            record_well_sized(src@) && record_flag_ok(src@) && record_of(src@).is_initialized
                ==> r == Ok::<Escrow, EscrowError>(record_of(src@)),
            record_well_sized(src@) && record_flag_ok(src@) && !record_of(src@).is_initialized
                ==> r == Err::<Escrow, EscrowError>(EscrowError::UninitializedAccount),
            !(record_well_sized(src@) && record_flag_ok(src@)) ==> r == Err::<
                Escrow,
                EscrowError,
            >(EscrowError::InvalidAccountData),
    {
        let rec = Self::unpack_unchecked(src)?;
        if rec.is_initialized {
            Ok(rec)
        } else {
            Err(EscrowError::UninitializedAccount)
        }
    }

    /// Serializes the record into its 113 bytes.
    pub fn pack(&self) -> (r: Vec<u8>)
        ensures
            r@ == record_bytes_of(*self),
            r@.len() == RECORD_LEN,
    {
        let mut buf: Vec<u8> = Vec::new();
        buf.push(if self.is_initialized { 1u8 } else { 0u8 });
        let mut b0 = self.initializer_pubkey.to_bytes();
        let mut b1 = self.temp_token_account_pubkey.to_bytes();
        let mut b2 = self.initializer_token_to_receive_account_pubkey.to_bytes();
        let mut b3 = u64_to_le_bytes(self.expected_amount);
        let mut b4 = u64_to_le_bytes(self.unlock_time);
        buf.append(&mut b0);
        buf.append(&mut b1);
        buf.append(&mut b2);
        buf.append(&mut b3);
        buf.append(&mut b4);
        proof {
            assert(buf@ =~= record_bytes_of(*self));
            lemma_record_roundtrip(*self);
        }
        buf
    }

    /// Builds the cleared bytes a closed record leaves behind.
    pub fn cleared_data() -> (r: Vec<u8>)
        ensures
            r@ == cleared_record_bytes(),
    {
        let mut buf: Vec<u8> = Vec::new();
        let mut i: usize = 0;
        while i < RECORD_LEN
            invariant
                i <= RECORD_LEN,
                buf@ =~= cleared_record_bytes().subrange(0, i as int),
            decreases RECORD_LEN - i,
        {
            buf.push(0u8);
            i = i + 1;
        }
        proof {
            assert(buf@ =~= cleared_record_bytes());
        }
        buf
    }
}

} // verus!
