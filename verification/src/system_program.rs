use crate::pubkey::Pubkey;
use vstd::prelude::*;

verus! {

/// The bytes of the system program's address,
/// `11111111111111111111111111111111`.
pub const ID_BYTES: [u8; 32] = [
    0, 0, 0, 0, 0, 0, 0, 0, 0, 0, 0, 0, 0, 0, 0, 0,
    0, 0, 0, 0, 0, 0, 0, 0, 0, 0, 0, 0, 0, 0, 0, 0,
];

/// The address of the system program.
pub open spec fn spec_id() -> Pubkey {
    Pubkey { bytes: ID_BYTES }
}

/// The address of the system program.
#[verifier::when_used_as_spec(spec_id)]
pub fn id() -> (key: Pubkey)
    ensures
        key == spec_id(),
{
    Pubkey { bytes: ID_BYTES }
}

/// Whether `key` is the address of the system program.
pub fn check_id(key: &Pubkey) -> (same: bool)
    ensures
        same == (key@ == id()@),
{
    *key == id()
}

} // verus!
