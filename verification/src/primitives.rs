//! The calls into the runtime's support crates that the pallet makes: SCALE encoding of the
//! randomness payload, the 128-bit BLAKE2 hash, and the derivation of the pallet's account.

use frame_support::pallet_prelude::Encode;
use frame_support::PalletId;
use sp_runtime::traits::AccountIdConversion;
use vstd::prelude::*;

use crate::types::{AccountId, BlockNumber};

verus! {

/// The `n` low bytes of `value`, least significant first.
pub open spec fn le_bytes(value: nat, n: nat) -> Seq<u8>
    decreases n,
{
    if n == 0 {
        Seq::empty()
    } else {
        seq![(value % 256) as u8] + le_bytes(value / 256, (n - 1) as nat)
    }
}

/// The number whose little-endian bytes are `bytes`.
pub open spec fn le_value(bytes: Seq<u8>) -> nat
    decreases bytes.len(),
{
    if bytes.len() == 0 {
        0
    } else {
        bytes[0] as nat + 256 * le_value(bytes.drop_first())
    }
}

/// SCALE encoding of an optional `u32`: a zero byte for `None`, else a one byte followed
/// by the four little-endian bytes of the value.
pub open spec fn option_u32_encoding(value: Option<u32>) -> Seq<u8> {
    match value {
        Some(v) => seq![1u8] + le_bytes(v as nat, 4),
        None => seq![0u8],
    }
}

/// SCALE encoding of the tuple `((seed, block), sender, extrinsic_index)`: the tuple's parts
/// one after another, the 32 seed bytes as they are and the integers little-endian.
pub open spec fn payload_encoding(
    seed: Seq<u8>,
    block: BlockNumber,
    sender: AccountId,
    extrinsic_index: Option<u32>,
) -> Seq<u8> {
    seed + le_bytes(block as nat, 8) + le_bytes(sender as nat, 8) + option_u32_encoding(
        extrinsic_index,
    )
}

/// The type tag that prefixes the seed of a pallet's account: the bytes of `"modl"`.
pub open spec fn pallet_type_id() -> Seq<u8> {
    seq![109u8, 111u8, 100u8, 108u8]
}

/// The account of the pallet with identifier `id`: the eight bytes `"modl"` followed by the
/// first four bytes of the identifier, read as a little-endian integer.
pub open spec fn pallet_account_of(id: [u8; 8]) -> AccountId {
    le_value(pallet_type_id() + id@.subrange(0, 4)) as AccountId
}

/// Name for the 128-bit BLAKE2b digest of a byte string.
pub uninterp spec fn blake2_128_of(data: Seq<u8>) -> Seq<u8>;

/// `sp_io::hashing::blake2_128`: the 16-byte BLAKE2b digest of `data`. Claimed: the digest
/// depends on the bytes of `data` alone. Which digest that is is left to the name
/// `blake2_128_of`.
#[verifier::external_body]
pub(crate) fn blake2_128(data: &[u8]) -> (digest: [u8; 16])
    ensures
        digest@ == blake2_128_of(data@),
{
    sp_io::hashing::blake2_128(data)
}

/// `Encode::encode` (parity-scale-codec, through `frame_support`) of the tuple
/// `((seed, block), sender, extrinsic_index)`. Claimed: the bytes are those of SCALE's
/// documented layout, as `payload_encoding` spells out.
#[verifier::external_body]
pub(crate) fn encode_payload(
    seed: [u8; 32],
    block: BlockNumber,
    sender: AccountId,
    extrinsic_index: Option<u32>,
) -> (bytes: Vec<u8>)
    ensures
        bytes@ == payload_encoding(seed@, block, sender, extrinsic_index),
{
    ((seed, block), sender, extrinsic_index).encode()
}

/// `AccountIdConversion::into_account_truncating` (sp_runtime) on `frame_support::PalletId`,
/// into a `u64` account. Claimed: the account is decoded from `"modl"` followed by the
/// identifier, truncated to the eight bytes of a `u64`, as `pallet_account_of` spells out.
#[verifier::external_body]
pub(crate) fn pallet_account(id: [u8; 8]) -> (account: AccountId)
    ensures
        account == pallet_account_of(id),
{
    let account: AccountId = PalletId(id).into_account_truncating();
    account
}

} // verus!
