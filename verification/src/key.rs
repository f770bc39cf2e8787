//! Identity keys: the 32-byte public identifiers that the registry stores.
//!
//! A key is a `Pubkey` of the hosting chain's SDK. The registry never looks
//! inside one: it moves keys between slots, and it needs one distinguished
//! value, the all-zero key that marks an unoccupied slot. Contracts speak of
//! a key through the bytes it holds.

use anchor_lang::prelude::Pubkey;
use vstd::prelude::*;

verus! {

/// Number of bytes in an identity key.
pub const KEY_BYTES: usize = 32;

/// Makes the SDK's `Pubkey` known to the verifier as an opaque value: one
/// that can be stored, copied and handed on, and of which nothing else is
/// assumed.
#[verifier::external_type_specification]
#[verifier::external_body]
pub struct ExPubkey(anchor_lang::prelude::Pubkey);

/// The bytes that a key holds, in order: the array that `Pubkey::to_bytes`
/// hands out for it.
pub uninterp spec fn key_bytes(key: Pubkey) -> Seq<u8>;

/// The bytes of the key that marks an unoccupied slot: `KEY_BYTES` zeros.
pub open spec fn empty_key_bytes() -> Seq<u8> {
    Seq::new(KEY_BYTES as nat, |i: int| 0u8)
}

/// The bytes of each key of `keys`, in the same order.
pub open spec fn keys_bytes(keys: Seq<Pubkey>) -> Seq<Seq<u8>> {
    Seq::new(keys.len(), |i: int| key_bytes(keys[i]))
}

/// The key that marks an unoccupied slot.
///
/// Trusted, not proved: the body calls `Pubkey::default()`. `Pubkey` is a
/// newtype over `[u8; 32]` whose `Default` is derived, so the key that comes
/// back holds 32 zero bytes.
#[verifier::external_body]
pub(crate) fn empty_key() -> (key: Pubkey)
    ensures
        key_bytes(key) == empty_key_bytes(),
{
    Pubkey::default()
}

} // verus!
