use vstd::prelude::*;

use crate::account::{
    check_address, check_owner, check_signer, check_uninitialized, check_writable,
    is_fresh, is_system_program, system_program_id, AccountRef, AccountView, ProgramConfig,
};
use crate::address::{derive_address, program_address_of, vault_seeds, vault_seeds_spec};
use crate::error::ProgramError;
use crate::rent::{rent_exempt_balance, rent_exempt_minimum};
use crate::state::{
    decode_vault, encode_vault, lemma_encode_vault_len, lemma_vault_round_trip, vault_discriminator,
    VaultState, VAULT_SPACE,
};

verus! {

/// A derivation result with the address read as bytes.
pub open spec fn found_view(found: Option<([u8; 32], u8)>) -> Option<(Seq<u8>, u8)> {
    match found {
        Some((a, b)) => Some((a@, b)),
        None => None,
    }
}

/// The address a derivation found, if any.
pub open spec fn found_address(found: Option<(Seq<u8>, u8)>) -> Seq<u8> {
    match found {
        Some((a, _)) => a,
        None => Seq::empty(),
    }
}

/// The bump a derivation found, if any.
pub open spec fn found_bump(found: Option<(Seq<u8>, u8)>) -> u8 {
    match found {
        Some((_, b)) => b,
        None => 0,
    }
}

/// The checks of an initialization in declaration order, the first failure
/// winning: the payer signs and is writable; the vault is writable, belongs to
/// the system program (not yet allocated) or to this program (allocated ahead),
/// stands at the derived address, and holds no discriminator. On success, the
/// bump of the derived address.
pub open spec fn validation(
    program_id: Seq<u8>,
    payer: AccountView,
    vault: AccountView,
    found: Option<(Seq<u8>, u8)>,
) -> Result<u8, ProgramError> {
    if !payer.is_signer {
        Err(ProgramError::MissingSignature)
    } else if !payer.is_writable {
        Err(ProgramError::AccountNotWritable)
    } else if !vault.is_writable {
        Err(ProgramError::AccountNotWritable)
    } else if vault.owner != system_program_id() && vault.owner != program_id {
        Err(ProgramError::InvalidOwner)
    } else {
        match found {
            None => Err(ProgramError::InvalidSeeds),
            Some((address, bump)) => {
                if address != vault.address {
                    Err(ProgramError::InvalidSeeds)
                } else if !is_fresh(vault.data) {
                    Err(ProgramError::AlreadyInitialized)
                } else {
                    Ok(bump)
                }
            },
        }
    }
}

/// Lamports the payer must move into the vault to make it rent-exempt.
pub open spec fn shortfall(vault_lamports: u64, rent_minimum: u64) -> int {
    if vault_lamports >= rent_minimum {
        0
    } else {
        rent_minimum - vault_lamports
    }
}

/// The accounts after initializing the vault of `owner_id`, or the error.
/// The vault's buffer is sized to exactly the state's width and holds the
/// state's bytes, the payer funds it up to `rent_minimum`, and the vault is
/// handed to this program.
pub open spec fn initialization(
    program_id: Seq<u8>,
    payer: AccountView,
    vault: AccountView,
    owner_id: u64,
    found: Option<(Seq<u8>, u8)>,
    rent_minimum: u64,
) -> Result<(AccountView, AccountView), ProgramError> {
    match validation(program_id, payer, vault, found) {
        Err(e) => Err(e),
        Ok(bump) => {
            let need = shortfall(vault.lamports, rent_minimum);
            if payer.lamports < need {
                Err(ProgramError::InsufficientFunds)
            } else {
                Ok(
                    (
                        AccountView { lamports: (payer.lamports - need) as u64, ..payer },
                        AccountView {
                            lamports: (vault.lamports + need) as u64,
                            owner: program_id,
                            data: encode_vault(VaultState { owner_id, bump, deposited: 0 }),
                            ..vault
                        },
                    ),
                )
            }
        },
    }
}

fn validate(
    config: &ProgramConfig,
    payer: &AccountRef,
    vault: &AccountRef,
    found: &Option<([u8; 32], u8)>,
) -> (r: Result<u8, ProgramError>)
    ensures
        r == validation(config.program_id@, payer@, vault@, found_view(*found)),
{
    check_signer(payer)?;
    check_writable(payer)?;
    check_writable(vault)?;
    if !is_system_program(&vault.owner) {
        check_owner(vault, &config.program_id)?;
    }
    let bump = match found {
        None => {
            return Err(ProgramError::InvalidSeeds);
        },
        Some((address, bump)) => {
            check_address(vault, address)?;
            *bump
        },
    };
    check_uninitialized(vault)?;
    Ok(bump)
}

/// Initializes the vault of `owner_id`, given the outcome of deriving its
/// address and the balance that keeps it rent-exempt. On rejection neither
/// account changes.
pub fn initialize_with(
    config: &ProgramConfig,
    payer: &mut AccountRef,
    vault: &mut AccountRef,
    owner_id: u64,
    found: Option<([u8; 32], u8)>,
    rent_minimum: u64,
) -> (r: Result<(), ProgramError>)
    ensures
        match r {
            Ok(()) => initialization(config.program_id@, old(payer)@, old(vault)@, owner_id, found_view(found), rent_minimum)
                == Ok::<(AccountView, AccountView), ProgramError>((final(payer)@, final(vault)@)),
            Err(e) => initialization(config.program_id@, old(payer)@, old(vault)@, owner_id, found_view(found), rent_minimum)
                == Err::<(AccountView, AccountView), ProgramError>(e)
                && final(payer)@ == old(payer)@ && final(vault)@ == old(vault)@,
        },
        r is Ok ==> final(vault)@.data.len() == VAULT_SPACE && final(vault).lamports >= rent_minimum
            && final(vault)@.owner == config.program_id@,
{
    let bump = validate(config, payer, vault, &found)?;
    let state = VaultState::new(owner_id, bump);
    let bytes = state.serialize();
    let need: u64 = if vault.lamports >= rent_minimum {
        0
    } else {
        rent_minimum - vault.lamports
    };
    if payer.lamports < need {
        return Err(ProgramError::InsufficientFunds);
    }
    payer.lamports = payer.lamports - need;
    vault.lamports = vault.lamports + need;
    vault.owner = config.program_id;
    vault.data = bytes;
    Ok(())
}

/// The balance a freshly allocated vault must hold.
pub open spec fn vault_rent_minimum() -> u64 {
    rent_exempt_balance(VAULT_SPACE as nat) as u64
}

/// Initializes the vault of `owner_id`: derives its address from the published
/// seeds under this program, and funds it to the default rent-exempt balance.
pub fn initialize(
    config: &ProgramConfig,
    payer: &mut AccountRef,
    vault: &mut AccountRef,
    owner_id: u64,
) -> (r: Result<(), ProgramError>)
    ensures
        match r {
            Ok(()) => initialization(
                config.program_id@,
                old(payer)@,
                old(vault)@,
                owner_id,
                program_address_of(vault_seeds_spec(owner_id), config.program_id@),
                vault_rent_minimum(),
            ) == Ok::<(AccountView, AccountView), ProgramError>((final(payer)@, final(vault)@)),
            Err(e) => initialization(
                config.program_id@,
                old(payer)@,
                old(vault)@,
                owner_id,
                program_address_of(vault_seeds_spec(owner_id), config.program_id@),
                vault_rent_minimum(),
            ) == Err::<(AccountView, AccountView), ProgramError>(e)
                && final(payer)@ == old(payer)@ && final(vault)@ == old(vault)@,
        },
        r is Ok ==> final(vault)@.data.len() == VAULT_SPACE && final(vault).lamports >= vault_rent_minimum()
            && final(vault)@.owner == config.program_id@,
{
    let seeds = vault_seeds(owner_id);
    let found = match derive_address(&seeds, &config.program_id) {
        Ok(f) => Some(f),
        Err(_) => None,
    };
    let rent_minimum = rent_exempt_minimum(VAULT_SPACE);
    initialize_with(config, payer, vault, owner_id, found, rent_minimum)
}

/// A vault that already holds a discriminator is never initialized again: the
/// call is rejected, and once the checks before it pass, with
/// `AlreadyInitialized`.
pub proof fn lemma_initialized_vault_rejected(
    program_id: Seq<u8>,
    payer: AccountView,
    vault: AccountView,
    owner_id: u64,
    found: Option<(Seq<u8>, u8)>,
    rent_minimum: u64,
)
    requires
        !is_fresh(vault.data),
    ensures
        initialization(program_id, payer, vault, owner_id, found, rent_minimum) is Err,
        payer.is_signer && payer.is_writable && vault.is_writable && found is Some
            && (vault.owner == system_program_id() || vault.owner == program_id)
            && found_address(found) == vault.address
            ==> initialization(program_id, payer, vault, owner_id, found, rent_minimum)
                == Err::<(AccountView, AccountView), ProgramError>(ProgramError::AlreadyInitialized),
{
}

/// A payer without the signer flag is refused with `MissingSignature` before
/// anything is allocated or funded.
pub proof fn lemma_unsigned_payer_rejected(
    program_id: Seq<u8>,
    payer: AccountView,
    vault: AccountView,
    owner_id: u64,
    found: Option<(Seq<u8>, u8)>,
    rent_minimum: u64,
)
    requires
        !payer.is_signer,
    ensures
        initialization(program_id, payer, vault, owner_id, found, rent_minimum)
            == Err::<(AccountView, AccountView), ProgramError>(ProgramError::MissingSignature),
{
}

/// After a successful initialization the vault stays at its address, belongs to
/// this program, reads back as the fresh state of `owner_id` with the derived
/// bump, and no lamports were created or lost between the two accounts.
pub proof fn lemma_initialized_vault_state(
    program_id: Seq<u8>,
    payer: AccountView,
    vault: AccountView,
    owner_id: u64,
    found: Option<(Seq<u8>, u8)>,
    rent_minimum: u64,
    payer_after: AccountView,
    vault_after: AccountView,
)
    requires
        initialization(program_id, payer, vault, owner_id, found, rent_minimum)
            == Ok::<(AccountView, AccountView), ProgramError>((payer_after, vault_after)),
    ensures
        found is Some,
        vault_after.address == vault.address,
        vault_after.owner == program_id,
        decode_vault(vault_after.data)
            == Ok::<VaultState, ProgramError>(VaultState { owner_id, bump: found_bump(found), deposited: 0 }),
        payer_after.lamports + vault_after.lamports == payer.lamports + vault.lamports,
        vault_after.lamports >= rent_minimum,
        vault_after.data.len() == VAULT_SPACE,
{
    let state = VaultState { owner_id, bump: found_bump(found), deposited: 0 };
    lemma_encode_vault_len(state);
    lemma_vault_round_trip(state);
}

/// A payer that cannot fund the vault's rent-exempt balance is refused with
/// `InsufficientFunds` once the checks pass, and nothing is created: a vault
/// without lamports needs the whole rent minimum.
pub proof fn lemma_unfunded_payer_rejected(
    program_id: Seq<u8>,
    payer: AccountView,
    vault: AccountView,
    owner_id: u64,
    found: Option<(Seq<u8>, u8)>,
    rent_minimum: u64,
)
    requires
        validation(program_id, payer, vault, found) is Ok,
        payer.lamports < rent_minimum,
        vault.lamports == 0,
    ensures
        initialization(program_id, payer, vault, owner_id, found, rent_minimum)
            == Err::<(AccountView, AccountView), ProgramError>(ProgramError::InsufficientFunds),
{
}

/// Initializing a vault a second time is rejected, whatever payer, owner id,
/// derivation and rent the second call brings.
pub proof fn lemma_second_initialization_rejected(
    program_id: Seq<u8>,
    payer: AccountView,
    vault: AccountView,
    owner_id: u64,
    found: Option<(Seq<u8>, u8)>,
    rent_minimum: u64,
    payer_after: AccountView,
    vault_after: AccountView,
    next_payer: AccountView,
    next_owner_id: u64,
    next_found: Option<(Seq<u8>, u8)>,
    next_rent_minimum: u64,
)
    requires
        initialization(program_id, payer, vault, owner_id, found, rent_minimum)
            == Ok::<(AccountView, AccountView), ProgramError>((payer_after, vault_after)),
    ensures
        initialization(program_id, next_payer, vault_after, next_owner_id, next_found, next_rent_minimum) is Err,
{
    let state = VaultState { owner_id, bump: found_bump(found), deposited: 0 };
    lemma_encode_vault_len(state);
    assert(encode_vault(state)[0] == vault_discriminator()[0]);
    assert(vault_after.data[0] == 86u8);
    assert(!is_fresh(vault_after.data));
    lemma_initialized_vault_rejected(
        program_id,
        next_payer,
        vault_after,
        next_owner_id,
        next_found,
        next_rent_minimum,
    );
}

} // verus!
