use vstd::prelude::*;

use anchor_lang::solana_program::pubkey::Pubkey;

use crate::error::ProgramError;
use crate::state::u64_le;

verus! {

/// Most seeds a caller may give; the bump seed is appended as one more.
pub const MAX_SEEDS: usize = 15;

/// Longest seed, in bytes.
pub const MAX_SEED_LEN: usize = 32;

/// The program-derived address and bump that the runtime's derivation finds for
/// `seeds` under `program`, or `None` where it finds none.
pub uninterp spec fn program_address_of(seeds: Seq<Seq<u8>>, program: Seq<u8>) -> Option<(Seq<u8>, u8)>;

/// The seeds as byte sequences.
pub open spec fn seeds_view(seeds: Seq<Vec<u8>>) -> Seq<Seq<u8>> {
    seeds.map_values(|s: Vec<u8>| s@)
}

/// Seed lists that the derivation refuses outright: too many seeds, or one too long.
pub open spec fn seeds_out_of_bounds(seeds: Seq<Seq<u8>>) -> bool {
    seeds.len() > MAX_SEEDS || exists|i: int| 0 <= i < seeds.len() && #[trigger] seeds[i].len() > MAX_SEED_LEN
}

/// Relies on `Pubkey::try_find_program_address`: a function of the seeds and the
/// program id alone (a hash searched over bump seeds), which gives `None` when
/// seeds plus the bump exceed 16 or a seed exceeds 32 bytes.
#[verifier::external_body]
fn try_find_program_address(seeds: &Vec<Vec<u8>>, program_id: &[u8; 32]) -> (r: Option<([u8; 32], u8)>)
    ensures
        match r {
            Some((a, b)) => program_address_of(seeds_view(seeds@), program_id@) == Some((a@, b)),
            None => program_address_of(seeds_view(seeds@), program_id@) is None,
        },
        seeds_out_of_bounds(seeds_view(seeds@)) ==> r is None,
{
    let refs: Vec<&[u8]> = seeds.iter().map(|s| s.as_slice()).collect();
    Pubkey::try_find_program_address(&refs, &Pubkey::new_from_array(*program_id)).map(
        |(k, b)| (k.to_bytes(), b),
    )
}

/// The outcome of deriving an address from `seeds` under `program`.
pub open spec fn derivation(seeds: Seq<Seq<u8>>, program: Seq<u8>) -> Result<(Seq<u8>, u8), ProgramError> {
    match program_address_of(seeds, program) {
        Some(found) => Ok(found),
        None => Err(ProgramError::InvalidSeeds),
    }
}

/// Derives the program-owned address for `seeds` under `program_id`, with the
/// bump that made it valid.
pub fn derive_address(seeds: &Vec<Vec<u8>>, program_id: &[u8; 32]) -> (r: Result<([u8; 32], u8), ProgramError>)
    ensures
        match r {
            Ok((a, b)) => derivation(seeds_view(seeds@), program_id@) == Ok::<(Seq<u8>, u8), ProgramError>((a@, b)),
            Err(e) => derivation(seeds_view(seeds@), program_id@) == Err::<(Seq<u8>, u8), ProgramError>(e),
        },
        seeds_out_of_bounds(seeds_view(seeds@)) ==> r == Err::<([u8; 32], u8), ProgramError>(ProgramError::InvalidSeeds),
{
    match try_find_program_address(seeds, program_id) {
        Some(found) => Ok(found),
        None => Err(ProgramError::InvalidSeeds),
    }
}

/// Deriving twice from the same seeds and program gives the same address and bump.
pub proof fn lemma_derivation_deterministic(
    seeds1: Seq<Seq<u8>>,
    program1: Seq<u8>,
    seeds2: Seq<Seq<u8>>,
    program2: Seq<u8>,
)
    requires
        seeds1 == seeds2,
        program1 == program2,
    ensures
        derivation(seeds1, program1) == derivation(seeds2, program2),
{
}

/// The ASCII bytes of `vault`.
pub open spec fn vault_tag() -> Seq<u8> {
    seq![118u8, 97u8, 117u8, 108u8, 116u8]
}

/// The published seed convention of a vault: `vault`, then the owner id in
/// little-endian bytes.
pub open spec fn vault_seeds_spec(owner_id: u64) -> Seq<Seq<u8>> {
    seq![vault_tag(), u64_le(owner_id)]
}

/// The seeds from which the vault of `owner_id` is derived.
pub fn vault_seeds(owner_id: u64) -> (r: Vec<Vec<u8>>)
    ensures
        seeds_view(r@) == vault_seeds_spec(owner_id),
{
    let tag: Vec<u8> = vec![118u8, 97u8, 117u8, 108u8, 116u8];
    let mut id: Vec<u8> = Vec::new();
    crate::state::push_u64_le(&mut id, owner_id);
    assert(tag@ =~= vault_tag());
    assert(id@ =~= u64_le(owner_id));
    let r: Vec<Vec<u8>> = vec![tag, id];
    assert(seeds_view(r@) =~= vault_seeds_spec(owner_id));
    r
}

} // verus!
