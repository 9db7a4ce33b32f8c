use bun_kit::error::ProgramError;
use bun_kit::state::VaultState;

#[test]
fn serialize_has_fixed_layout() {
    let s = VaultState { owner_id: 0x0102030405060708, bump: 254, deposited: 513 };
    assert_eq!(
        s.serialize(),
        vec![
            b'V', b'A', b'U', b'L', b'T', b'_', b'V', b'1', 8, 7, 6, 5, 4, 3, 2, 1, 254, 1, 2, 0,
            0, 0, 0, 0, 0
        ]
    );
}

#[test]
fn round_trip_keeps_state() {
    for s in [
        VaultState { owner_id: 0, bump: 0, deposited: 0 },
        VaultState { owner_id: 42, bump: 255, deposited: 7 },
        VaultState { owner_id: u64::MAX, bump: 128, deposited: u64::MAX },
    ] {
        assert_eq!(VaultState::deserialize(&s.serialize()), Ok(s));
    }
}

#[test]
fn serialize_is_deterministic() {
    let s = VaultState::new(42, 253);
    assert_eq!(s.serialize(), s.serialize());
    assert_eq!(s, VaultState { owner_id: 42, bump: 253, deposited: 0 });
}

#[test]
fn trailing_bytes_are_ignored() {
    let s = VaultState { owner_id: 9, bump: 1, deposited: 3 };
    let mut bytes = s.serialize();
    bytes.extend_from_slice(&[0xff; 6]);
    assert_eq!(VaultState::deserialize(&bytes), Ok(s));
}

#[test]
fn wrong_discriminator_is_refused() {
    let mut bytes = VaultState::new(1, 2).serialize();
    bytes[7] = b'2';
    assert_eq!(VaultState::deserialize(&bytes), Err(ProgramError::InvalidAccountData));
    assert_eq!(VaultState::deserialize(&[0u8; 25]), Err(ProgramError::InvalidAccountData));
}

#[test]
fn truncated_buffer_is_refused() {
    let bytes = VaultState::new(1, 2).serialize();
    assert_eq!(VaultState::deserialize(&bytes[..24]), Err(ProgramError::AccountDataTooSmall));
    assert_eq!(VaultState::deserialize(&bytes[..5]), Err(ProgramError::AccountDataTooSmall));
    assert_eq!(VaultState::deserialize(&[]), Err(ProgramError::AccountDataTooSmall));
}
