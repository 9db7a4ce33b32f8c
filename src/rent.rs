use vstd::prelude::*;

use anchor_lang::solana_program::rent::Rent;

verus! {

/// Largest data length an account may have: 10 MiB.
pub const MAX_ACCOUNT_DATA_LEN: usize = 10485760;

/// Bytes the runtime counts for every account on top of its data.
pub const ACCOUNT_STORAGE_OVERHEAD: u64 = 128;

/// Lamports per byte for two years at the default rate of 3480 per byte-year.
pub const EXEMPT_LAMPORTS_PER_BYTE: u64 = 6960;

/// The balance that keeps an account of `data_len` bytes rent-exempt under the
/// default rent configuration.
pub open spec fn rent_exempt_balance(data_len: nat) -> int {
    (ACCOUNT_STORAGE_OVERHEAD + data_len) * EXEMPT_LAMPORTS_PER_BYTE
}

/// Relies on `Rent::default().minimum_balance`: `(128 + len) * 3480` lamports,
/// doubled by the default exemption threshold of two years; below 2^53 every step
/// of that computation is exact.
#[verifier::external_body]
fn default_minimum_balance(data_len: usize) -> (r: u64)
    requires
        data_len <= MAX_ACCOUNT_DATA_LEN,
    ensures
        r == rent_exempt_balance(data_len as nat),
{
    Rent::default().minimum_balance(data_len)
}

/// The balance an account of `data_len` bytes must hold to be rent-exempt.
pub fn rent_exempt_minimum(data_len: usize) -> (r: u64)
    requires
        data_len <= MAX_ACCOUNT_DATA_LEN,
    ensures
        r == rent_exempt_balance(data_len as nat),
{
    default_minimum_balance(data_len)
}

} // verus!
