use vstd::prelude::*;

use vstd::assert_by_contradiction;

use crate::error::ProgramError;

verus! {

/// Little-endian bytes of a `u64`.
pub open spec fn u64_le(v: u64) -> Seq<u8> {
    seq![
        v as u8,
        (v >> 8u64) as u8,
        (v >> 16u64) as u8,
        (v >> 24u64) as u8,
        (v >> 32u64) as u8,
        (v >> 40u64) as u8,
        (v >> 48u64) as u8,
        (v >> 56u64) as u8,
    ]
}

/// The `u64` whose little-endian bytes are the first eight of `b`.
pub open spec fn u64_from_le(b: Seq<u8>) -> u64 {
    (b[0] as u64)
        | ((b[1] as u64) << 8u64)
        | ((b[2] as u64) << 16u64)
        | ((b[3] as u64) << 24u64)
        | ((b[4] as u64) << 32u64)
        | ((b[5] as u64) << 40u64)
        | ((b[6] as u64) << 48u64)
        | ((b[7] as u64) << 56u64)
}

/// Reading back the little-endian bytes of `v` gives `v`.
pub proof fn lemma_u64_le_round_trip(v: u64)
    ensures
        u64_from_le(u64_le(v)) == v,
{
    assert(v == ((v as u8) as u64)
        | ((((v >> 8u64) as u8) as u64) << 8u64)
        | ((((v >> 16u64) as u8) as u64) << 16u64)
        | ((((v >> 24u64) as u8) as u64) << 24u64)
        | ((((v >> 32u64) as u8) as u64) << 32u64)
        | ((((v >> 40u64) as u8) as u64) << 40u64)
        | ((((v >> 48u64) as u8) as u64) << 48u64)
        | ((((v >> 56u64) as u8) as u64) << 56u64)) by (bit_vector);
}

pub(crate) fn push_u64_le(buf: &mut Vec<u8>, v: u64)
    ensures
        final(buf)@ == old(buf)@ + u64_le(v),
{
    buf.push(v as u8);
    buf.push((v >> 8u64) as u8);
    buf.push((v >> 16u64) as u8);
    buf.push((v >> 24u64) as u8);
    buf.push((v >> 32u64) as u8);
    buf.push((v >> 40u64) as u8);
    buf.push((v >> 48u64) as u8);
    buf.push((v >> 56u64) as u8);
    assert(final(buf)@ =~= old(buf)@ + u64_le(v));
}

fn read_u64_le(data: &[u8], at: usize) -> (r: u64)
    requires
        at + 8 <= data@.len(),
    ensures
        r == u64_from_le(data@.subrange(at as int, at + 8)),
{
    (data[at] as u64)
        | ((data[at + 1] as u64) << 8u64)
        | ((data[at + 2] as u64) << 16u64)
        | ((data[at + 3] as u64) << 24u64)
        | ((data[at + 4] as u64) << 32u64)
        | ((data[at + 5] as u64) << 40u64)
        | ((data[at + 6] as u64) << 48u64)
        | ((data[at + 7] as u64) << 56u64)
}

/// Width in bytes of the tag that opens every vault account.
pub const DISCRIMINATOR_LEN: usize = 8;

/// Width in bytes of a serialized `VaultState`: tag, owner id, bump, deposited.
pub const VAULT_SPACE: usize = 25;

/// The tag `VAULT_V1` in ASCII.
pub open spec fn vault_discriminator() -> Seq<u8> {
    seq![86u8, 65u8, 85u8, 76u8, 84u8, 95u8, 86u8, 49u8]
}

/// The state held by a vault account once it has been initialized.
#[derive(Clone, Copy, Debug, PartialEq, Eq, Structural)]
pub struct VaultState {
    pub owner_id: u64,
    pub bump: u8,
    pub deposited: u64,
}

/// The account bytes of `s`: the tag, then each field in declared order.
pub open spec fn encode_vault(s: VaultState) -> Seq<u8> {
    vault_discriminator() + u64_le(s.owner_id) + seq![s.bump] + u64_le(s.deposited)
}

/// What a reader makes of account bytes `b`: the tag is checked before any field
/// is read, and trailing bytes past the fields are ignored.
pub open spec fn decode_vault(b: Seq<u8>) -> Result<VaultState, ProgramError> {
    if b.len() < DISCRIMINATOR_LEN {
        Err(ProgramError::AccountDataTooSmall)
    } else if b.subrange(0, DISCRIMINATOR_LEN as int) != vault_discriminator() {
        Err(ProgramError::InvalidAccountData)
    } else if b.len() < VAULT_SPACE {
        Err(ProgramError::AccountDataTooSmall)
    } else {
        Ok(
            VaultState {
                owner_id: u64_from_le(b.subrange(8, 16)),
                bump: b[16],
                deposited: u64_from_le(b.subrange(17, 25)),
            },
        )
    }
}

/// Serialization has a fixed width.
pub proof fn lemma_encode_vault_len(s: VaultState)
    ensures
        encode_vault(s).len() == VAULT_SPACE,
{
}

/// Reading back the bytes written for a state gives that state.
pub proof fn lemma_vault_round_trip(s: VaultState)
    ensures
        decode_vault(encode_vault(s)) == Ok::<VaultState, ProgramError>(s),
{
    let b = encode_vault(s);
    lemma_u64_le_round_trip(s.owner_id);
    lemma_u64_le_round_trip(s.deposited);
    assert(b.subrange(0, 8) =~= vault_discriminator());
    assert(b.subrange(8, 16) =~= u64_le(s.owner_id));
    assert(b.subrange(17, 25) =~= u64_le(s.deposited));
}

fn push_discriminator(buf: &mut Vec<u8>)
    ensures
        final(buf)@ == old(buf)@ + vault_discriminator(),
{
    buf.push(86u8);
    buf.push(65u8);
    buf.push(85u8);
    buf.push(76u8);
    buf.push(84u8);
    buf.push(95u8);
    buf.push(86u8);
    buf.push(49u8);
    assert(final(buf)@ =~= old(buf)@ + vault_discriminator());
}

fn has_discriminator(data: &[u8]) -> (r: bool)
    requires
        data@.len() >= DISCRIMINATOR_LEN,
    ensures
        r == (data@.subrange(0, DISCRIMINATOR_LEN as int) == vault_discriminator()),
{
    let r = data[0] == 86u8 && data[1] == 65u8 && data[2] == 85u8 && data[3] == 76u8
        && data[4] == 84u8 && data[5] == 95u8 && data[6] == 86u8 && data[7] == 49u8;
    proof {
        let head = data@.subrange(0, DISCRIMINATOR_LEN as int);
        if r {
            assert(head =~= vault_discriminator());
        } else {
            assert_by_contradiction!(head != vault_discriminator(), {
                assert(head[0] == 86u8 && head[1] == 65u8 && head[2] == 85u8 && head[3] == 76u8);
                assert(head[4] == 84u8 && head[5] == 95u8 && head[6] == 86u8 && head[7] == 49u8);
            });
        }
    }
    r
}

impl VaultState {
    /// The state a vault starts from: its owner and bump, nothing deposited.
    pub fn new(owner_id: u64, bump: u8) -> (r: VaultState)
        ensures
            r == (VaultState { owner_id, bump, deposited: 0 }),
    {
        VaultState { owner_id, bump, deposited: 0 }
    }

    /// The account bytes of this state.
    pub fn serialize(&self) -> (r: Vec<u8>)
        ensures
            r@ == encode_vault(*self),
            r@.len() == VAULT_SPACE,
    {
        let mut buf: Vec<u8> = Vec::new();
        push_discriminator(&mut buf);
        push_u64_le(&mut buf, self.owner_id);
        buf.push(self.bump);
        push_u64_le(&mut buf, self.deposited);
        assert(buf@ =~= encode_vault(*self));
        buf
    }

    /// Reads a state from account bytes, checking the tag first.
    pub fn deserialize(data: &[u8]) -> (r: Result<VaultState, ProgramError>)
        ensures
            r == decode_vault(data@),
    {
        if data.len() < DISCRIMINATOR_LEN {
            return Err(ProgramError::AccountDataTooSmall);
        }
        if !has_discriminator(data) {
            return Err(ProgramError::InvalidAccountData);
        }
        if data.len() < VAULT_SPACE {
            return Err(ProgramError::AccountDataTooSmall);
        }
        let owner_id = read_u64_le(data, 8);
        let bump = data[16];
        let deposited = read_u64_le(data, 17);
        Ok(VaultState { owner_id, bump, deposited })
    }
}

} // verus!
