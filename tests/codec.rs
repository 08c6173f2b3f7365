use escrow::error::EscrowError;
use escrow::instruction::{EscrowInstruction, EscrowRoutes};
use escrow::registry::{EscrowRegistryState, WalletEscrowState};
use escrow::state::EscrowState;

fn sample_record() -> EscrowState {
    EscrowState {
        is_initialized: true,
        caller_pubkey: None,
        initializer_pubkey: [1u8; 32],
        receiver_pubkey: [2u8; 32],
        temp_token_account_pubkey: [3u8; 32],
        escrow_amount: 1000,
        expire_date: -5,
    }
}

#[test]
fn escrow_record_round_trip() {
    let r = sample_record();
    let bytes = r.pack();
    assert_eq!(bytes.len(), 113);
    assert_eq!(EscrowState::unpack_from_slice(&bytes), Ok(r));
}

#[test]
fn escrow_record_layout_is_little_endian() {
    let bytes = sample_record().pack();
    assert_eq!(bytes[0], 1);
    assert_eq!(bytes[1], 1);
    assert_eq!(bytes[33], 2);
    assert_eq!(bytes[65], 3);
    assert_eq!(&bytes[97..105], &[0xe8, 0x03, 0, 0, 0, 0, 0, 0]);
    assert_eq!(&bytes[105..113], &[0xfb, 0xff, 0xff, 0xff, 0xff, 0xff, 0xff, 0xff]);
}

#[test]
fn relayed_record_round_trip() {
    let mut r = sample_record();
    r.caller_pubkey = Some([9u8; 32]);
    let bytes = r.pack();
    assert_eq!(bytes.len(), 145);
    assert_eq!(bytes[1], 9);
    assert_eq!(bytes[33], 1);
    assert_eq!(EscrowState::unpack_from_slice(&bytes), Ok(r));
}

#[test]
fn escrow_record_rejects_bad_flag() {
    let mut bytes = sample_record().pack();
    bytes[0] = 2;
    assert_eq!(EscrowState::unpack_from_slice(&bytes), Err(EscrowError::MalformedRecord));
}

#[test]
fn escrow_record_rejects_wrong_width() {
    let bytes = sample_record().pack();
    assert_eq!(EscrowState::unpack_from_slice(&bytes[..112]), Err(EscrowError::MalformedRecord));
    let mut longer = bytes.clone();
    longer.push(0);
    assert_eq!(EscrowState::unpack_from_slice(&longer), Err(EscrowError::MalformedRecord));
    assert_eq!(EscrowState::unpack_from_slice(&[]), Err(EscrowError::MalformedRecord));
}

#[test]
fn zeroed_storage_is_uninitialized() {
    let r = EscrowState::unpack_from_slice(&[0u8; 113]).unwrap();
    assert!(!r.is_initialized());
    assert_eq!(r.escrow_amount, 0);
    assert_eq!(r.caller_pubkey, None);
}

#[test]
fn registry_record_round_trip() {
    let r = EscrowRegistryState {
        is_initialized: true,
        initializer_pubkey: [4u8; 32],
        token_account_pubkey: [5u8; 32],
    };
    let bytes = r.pack();
    assert_eq!(bytes.len(), 65);
    assert_eq!(EscrowRegistryState::unpack_from_slice(&bytes), Ok(r));
    let mut bad = bytes.clone();
    bad[0] = 7;
    assert_eq!(EscrowRegistryState::unpack_from_slice(&bad), Err(EscrowError::MalformedRecord));
    assert_eq!(
        EscrowRegistryState::unpack_from_slice(&bytes[..64]),
        Err(EscrowError::MalformedRecord)
    );
}

#[test]
fn wallet_record_round_trip() {
    let r = WalletEscrowState {
        is_initialized: false,
        initializer_pubkey: [4u8; 32],
        receiver_pubkey: [6u8; 32],
        token_account_pubkey: [5u8; 32],
    };
    let bytes = r.pack();
    assert_eq!(bytes.len(), 97);
    assert_eq!(bytes[33], 6);
    assert_eq!(WalletEscrowState::unpack_from_slice(&bytes), Ok(r));
    assert_eq!(WalletEscrowState::unpack_from_slice(&bytes[..96]), Err(EscrowError::MalformedRecord));
}

#[test]
fn unpack_init_escrow() {
    let mut data = vec![0u8];
    data.extend_from_slice(&1000u64.to_le_bytes());
    assert_eq!(EscrowInstruction::unpack(&data), Ok(EscrowInstruction::InitEscrow { amount: 1000 }));
}

#[test]
fn unpack_init_escrow_short_payload() {
    let data = [0u8, 1, 2, 3, 4, 5, 6, 7];
    assert_eq!(EscrowInstruction::unpack(&data), Err(EscrowError::InvalidInstruction));
}

#[test]
fn unpack_init_escrow_long_payload() {
    let data = [0u8, 1, 2, 3, 4, 5, 6, 7, 8, 9];
    assert_eq!(EscrowInstruction::unpack(&data), Err(EscrowError::InvalidInstruction));
}

#[test]
fn unpack_release_and_oracle() {
    assert_eq!(EscrowInstruction::unpack(&[1]), Ok(EscrowInstruction::ReleaseEscrow));
    assert_eq!(EscrowInstruction::unpack(&[2]), Ok(EscrowInstruction::Oracle));
}

#[test]
fn unpack_rejects_unknown_and_empty() {
    assert_eq!(EscrowInstruction::unpack(&[3]), Err(EscrowError::InvalidInstruction));
    assert_eq!(EscrowInstruction::unpack(&[]), Err(EscrowError::InvalidInstruction));
}

#[test]
fn unpack_amount_exact_width() {
    assert_eq!(EscrowInstruction::unpack_amount(&[1, 1, 0, 0, 0, 0, 0, 0]), Ok(257));
    assert_eq!(EscrowInstruction::unpack_amount(&[1]), Err(EscrowError::InvalidInstruction));
    assert_eq!(EscrowRoutes::unpack_amount(&u64::MAX.to_le_bytes()), Ok(u64::MAX));
}

#[test]
fn unpack_routes() {
    let mut data = vec![0u8];
    data.extend_from_slice(&7u64.to_le_bytes());
    assert_eq!(EscrowRoutes::unpack(&data), Ok(EscrowRoutes::InitEscrow { amount: 7 }));
    assert_eq!(EscrowRoutes::unpack(&[1]), Ok(EscrowRoutes::ReleaseEscrow));
    assert_eq!(EscrowRoutes::unpack(&[2]), Ok(EscrowRoutes::CollectDeposit));
    assert_eq!(EscrowRoutes::unpack(&[3]), Ok(EscrowRoutes::Oracle));
    assert_eq!(EscrowRoutes::unpack(&[4]), Err(EscrowError::InvalidInstruction));
    assert_eq!(EscrowRoutes::unpack(&[0, 7]), Err(EscrowError::InvalidInstruction));
}
