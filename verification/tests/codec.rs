use escrow::error::EscrowError;
use escrow::instruction::EscrowInstruction;
use escrow::key::Key;
use escrow::state::Escrow;

fn test_key(n: u8) -> Key {
    Key { w0: n as u64, w1: (n as u64) << 8, w2: 7, w3: 11 }
}

#[test]
fn round_trip_all_variants() {
    let cases = vec![
        EscrowInstruction::InitEscrow { amount: 0 },
        EscrowInstruction::InitEscrow { amount: 500 },
        EscrowInstruction::InitEscrow { amount: u64::MAX },
        EscrowInstruction::Exchange { amount: 0 },
        EscrowInstruction::Exchange { amount: 500 },
        EscrowInstruction::Exchange { amount: u64::MAX },
        EscrowInstruction::ResetTimeLock,
        EscrowInstruction::Cancel,
    ];
    for i in cases {
        let bytes = i.pack();
        assert_eq!(EscrowInstruction::unpack(bytes.as_slice()), Ok(i));
    }
}

#[test]
fn pack_exact_bytes() {
    assert_eq!(
        EscrowInstruction::InitEscrow { amount: 500 }.pack(),
        vec![0u8, 244, 1, 0, 0, 0, 0, 0, 0]
    );
    assert_eq!(
        EscrowInstruction::Exchange { amount: 1 }.pack(),
        vec![1u8, 1, 0, 0, 0, 0, 0, 0, 0]
    );
    assert_eq!(EscrowInstruction::ResetTimeLock.pack(), vec![2u8]);
    assert_eq!(EscrowInstruction::Cancel.pack(), vec![3u8]);
}

#[test]
fn unpack_rejects_unknown_tags() {
    for tag in [4u8, 5, 9, 128, 255] {
        let buf = vec![tag, 0, 0, 0, 0, 0, 0, 0, 0];
        assert_eq!(
            EscrowInstruction::unpack(buf.as_slice()),
            Err(EscrowError::InvalidInstruction)
        );
    }
    let empty: Vec<u8> = Vec::new();
    assert_eq!(
        EscrowInstruction::unpack(empty.as_slice()),
        Err(EscrowError::InvalidInstruction)
    );
}

#[test]
fn unpack_rejects_short_amounts() {
    for len in 0..8usize {
        let mut buf = vec![0u8];
        buf.extend(std::iter::repeat(7u8).take(len));
        assert_eq!(
            EscrowInstruction::unpack(buf.as_slice()),
            Err(EscrowError::InvalidInstruction)
        );
        buf[0] = 1;
        assert_eq!(
            EscrowInstruction::unpack(buf.as_slice()),
            Err(EscrowError::InvalidInstruction)
        );
    }
}

#[test]
fn unpack_tolerates_trailing_bytes() {
    let buf = vec![2u8, 9, 9, 9];
    assert_eq!(
        EscrowInstruction::unpack(buf.as_slice()),
        Ok(EscrowInstruction::ResetTimeLock)
    );
    let buf = vec![3u8, 1];
    assert_eq!(
        EscrowInstruction::unpack(buf.as_slice()),
        Ok(EscrowInstruction::Cancel)
    );
}

#[test]
fn record_round_trip() {
    let rec = Escrow {
        is_initialized: true,
        initializer_pubkey: test_key(1),
        temp_token_account_pubkey: test_key(2),
        initializer_token_to_receive_account_pubkey: test_key(3),
        expected_amount: 500,
        unlock_time: 1100,
    };
    let bytes = rec.pack();
    assert_eq!(bytes.len(), 113);
    assert_eq!(Escrow::unpack(bytes.as_slice()), Ok(rec));
    assert_eq!(Escrow::unpack_unchecked(bytes.as_slice()), Ok(rec));
}

#[test]
fn record_unpack_guards() {
    let cleared = Escrow::cleared_data();
    assert_eq!(cleared.len(), 113);
    assert_eq!(
        Escrow::unpack(cleared.as_slice()),
        Err(EscrowError::UninitializedAccount)
    );
    let unchecked = Escrow::unpack_unchecked(cleared.as_slice()).unwrap();
    assert!(!unchecked.is_initialized);

    let short = vec![0u8; 112];
    assert_eq!(
        Escrow::unpack(short.as_slice()),
        Err(EscrowError::InvalidAccountData)
    );
    assert_eq!(
        Escrow::unpack_unchecked(short.as_slice()),
        Err(EscrowError::InvalidAccountData)
    );

    let mut bad_flag = vec![0u8; 113];
    bad_flag[0] = 2;
    assert_eq!(
        Escrow::unpack_unchecked(bad_flag.as_slice()),
        Err(EscrowError::InvalidAccountData)
    );
}
