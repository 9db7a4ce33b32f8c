use vstd::prelude::*;

verus! {

/// The closed set of reasons for which an instruction is rejected.
#[derive(Clone, Copy, Debug, PartialEq, Eq, Structural)]
pub enum ProgramError {
    MissingSignature,
    AccountNotWritable,
    InvalidOwner,
    InvalidSeeds,
    AlreadyInitialized,
    InsufficientFunds,
    InvalidAccountData,
    AccountDataTooSmall,
}

} // verus!
