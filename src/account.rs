use vstd::prelude::*;

use crate::error::ProgramError;
use crate::state::DISCRIMINATOR_LEN;

verus! {

/// An account as one invocation sees it: where it lives, who may change it,
/// its balance and bytes, and the capabilities the caller granted it.
pub struct AccountRef {
    pub address: [u8; 32],
    pub owner: [u8; 32],
    pub lamports: u64,
    pub data: Vec<u8>,
    pub is_signer: bool,
    pub is_writable: bool,
}

/// An account with its fixed-size fields read as byte sequences.
pub struct AccountView {
    pub address: Seq<u8>,
    pub owner: Seq<u8>,
    pub lamports: u64,
    pub data: Seq<u8>,
    pub is_signer: bool,
    pub is_writable: bool,
}

impl View for AccountRef {
    type V = AccountView;

    open spec fn view(&self) -> AccountView {
        AccountView {
            address: self.address@,
            owner: self.owner@,
            lamports: self.lamports,
            data: self.data@,
            is_signer: self.is_signer,
            is_writable: self.is_writable,
        }
    }
}

/// The identity of this program, given at construction rather than compiled in,
/// so that several deployments can live in one process.
pub struct ProgramConfig {
    pub program_id: [u8; 32],
}

/// The system program's id: 32 zero bytes.
pub open spec fn system_program_id() -> Seq<u8> {
    Seq::new(32, |i: int| 0u8)
}

/// An account is fresh while the bytes where a discriminator would stand are all zero
/// (in particular when it has no data).
pub open spec fn is_fresh(data: Seq<u8>) -> bool {
    forall|i: int| 0 <= i < data.len() && i < DISCRIMINATOR_LEN ==> #[trigger] data[i] == 0
}

/// Compares two addresses byte for byte.
pub fn same_address(a: &[u8; 32], b: &[u8; 32]) -> (r: bool)
    ensures
        r == (a@ == b@),
{
    let mut i: usize = 0;
    while i < 32
        invariant
            0 <= i <= 32,
            a@.len() == 32,
            b@.len() == 32,
            forall|k: int| 0 <= k < i ==> a@[k] == b@[k],
        decreases 32 - i,
    {
        if a[i] != b[i] {
            return false;
        }
        i = i + 1;
    }
    assert(a@ =~= b@);
    true
}

/// Whether `a` is the system program's id.
pub fn is_system_program(a: &[u8; 32]) -> (r: bool)
    ensures
        r == (a@ == system_program_id()),
{
    let mut i: usize = 0;
    while i < 32
        invariant
            0 <= i <= 32,
            a@.len() == 32,
            forall|k: int| 0 <= k < i ==> a@[k] == 0u8,
        decreases 32 - i,
    {
        if a[i] != 0u8 {
            assert(a@[i as int] != system_program_id()[i as int]);
            return false;
        }
        i = i + 1;
    }
    assert(a@ =~= system_program_id());
    true
}

/// Whether no discriminator has been written into `data`.
pub fn check_fresh(data: &Vec<u8>) -> (r: bool)
    ensures
        r == is_fresh(data@),
{
    let mut i: usize = 0;
    while i < data.len() && i < DISCRIMINATOR_LEN
        invariant
            0 <= i <= DISCRIMINATOR_LEN,
            i <= data@.len(),
            forall|k: int| 0 <= k < i ==> data@[k] == 0u8,
        decreases DISCRIMINATOR_LEN - i,
    {
        if data[i] != 0u8 {
            return false;
        }
        i = i + 1;
    }
    true
}

/// The account must carry the signer flag.
pub fn check_signer(a: &AccountRef) -> (r: Result<(), ProgramError>)
    ensures
        r == (if a.is_signer { Ok(()) } else { Err(ProgramError::MissingSignature) }),
{
    if a.is_signer {
        Ok(())
    } else {
        Err(ProgramError::MissingSignature)
    }
}

/// The account must carry the writable flag.
pub fn check_writable(a: &AccountRef) -> (r: Result<(), ProgramError>)
    ensures
        r == (if a.is_writable { Ok(()) } else { Err(ProgramError::AccountNotWritable) }),
{
    if a.is_writable {
        Ok(())
    } else {
        Err(ProgramError::AccountNotWritable)
    }
}

/// The account must be owned by `program_id`.
pub fn check_owner(a: &AccountRef, program_id: &[u8; 32]) -> (r: Result<(), ProgramError>)
    ensures
        r == (if a.owner@ == program_id@ { Ok(()) } else { Err(ProgramError::InvalidOwner) }),
{
    if same_address(&a.owner, program_id) {
        Ok(())
    } else {
        Err(ProgramError::InvalidOwner)
    }
}

/// The account must stand at `expected`.
pub fn check_address(a: &AccountRef, expected: &[u8; 32]) -> (r: Result<(), ProgramError>)
    ensures
        r == (if a.address@ == expected@ { Ok(()) } else { Err(ProgramError::InvalidSeeds) }),
{
    if same_address(&a.address, expected) {
        Ok(())
    } else {
        Err(ProgramError::InvalidSeeds)
    }
}

/// The account must not hold a discriminator yet.
pub fn check_uninitialized(a: &AccountRef) -> (r: Result<(), ProgramError>)
    ensures
        r == (if is_fresh(a.data@) { Ok(()) } else { Err(ProgramError::AlreadyInitialized) }),
{
    if check_fresh(&a.data) {
        Ok(())
    } else {
        Err(ProgramError::AlreadyInitialized)
    }
}

} // verus!
