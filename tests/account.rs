use bun_kit::account::{
    check_address, check_fresh, check_owner, check_signer, check_uninitialized, check_writable,
    is_system_program, same_address, AccountRef,
};
use bun_kit::error::ProgramError;

fn account() -> AccountRef {
    AccountRef {
        address: [1u8; 32],
        owner: [2u8; 32],
        lamports: 0,
        data: Vec::new(),
        is_signer: true,
        is_writable: true,
    }
}

#[test]
fn addresses_compare_byte_for_byte() {
    let a = [1u8; 32];
    let mut b = [1u8; 32];
    assert!(same_address(&a, &b));
    b[31] = 0;
    assert!(!same_address(&a, &b));
}

#[test]
fn system_program_is_all_zero() {
    assert!(is_system_program(&[0u8; 32]));
    let mut id = [0u8; 32];
    id[17] = 1;
    assert!(!is_system_program(&id));
}

#[test]
fn freshness_looks_at_discriminator_bytes() {
    assert!(check_fresh(&vec![]));
    assert!(check_fresh(&vec![0, 0, 0]));
    assert!(check_fresh(&vec![0, 0, 0, 0, 0, 0, 0, 0, 5]));
    assert!(!check_fresh(&vec![0, 0, 0, 0, 0, 0, 0, 1]));
}

#[test]
fn each_check_names_its_error() {
    let mut a = account();
    assert_eq!(check_signer(&a), Ok(()));
    assert_eq!(check_writable(&a), Ok(()));
    assert_eq!(check_owner(&a, &[2u8; 32]), Ok(()));
    assert_eq!(check_owner(&a, &[3u8; 32]), Err(ProgramError::InvalidOwner));
    assert_eq!(check_address(&a, &[1u8; 32]), Ok(()));
    assert_eq!(check_address(&a, &[0u8; 32]), Err(ProgramError::InvalidSeeds));
    assert_eq!(check_uninitialized(&a), Ok(()));
    a.is_signer = false;
    a.is_writable = false;
    a.data = vec![7];
    assert_eq!(check_signer(&a), Err(ProgramError::MissingSignature));
    assert_eq!(check_writable(&a), Err(ProgramError::AccountNotWritable));
    assert_eq!(check_uninitialized(&a), Err(ProgramError::AlreadyInitialized));
}
