//! The identity of a caller: a `Pubkey`, of which this library only asks
//! whether two are the same.

use anchor_lang::prelude::Pubkey;
use vstd::prelude::*;

verus! {

/// `anchor_lang::prelude::Pubkey`, the 32-byte address `solana_address::Address`
/// under the name the prelude gives it. The library stores such keys and
/// compares them and never looks inside one, so the type is declared without
/// its contents: to the verifier two keys are equal or they are not.
#[verifier::external_type_specification]
#[verifier::external_body]
pub struct ExPubkey(Pubkey);

/// Calls `PartialEq::eq` of `Pubkey`.
///
/// Not proved, but taken from the key's source: the impl is derived over the
/// one field of the type, its 32 bytes, so it answers `true` exactly when the
/// two keys are the same key.
#[verifier::external_body]
pub(crate) fn same_key(a: &Pubkey, b: &Pubkey) -> (same: bool)
    ensures
        same == (*a == *b),
{
    a == b
}

} // verus!
