//! Floor swap: a custodial pool that holds assets of one collection and lets
//! any payer exchange an asset of theirs for one the pool holds, for a fee.
//!
//! The crate decides; it never touches the ledger. Every operation checks its
//! accounts, then answers with the invocations the caller has to perform and
//! the pool record to persist once they have succeeded.
//!
//! - [`pubkey`], [`account_info`]: addresses and accounts as plain values,
//!   and the derivation of program addresses.
//! - [`state`]: the pool record, its 108 bytes, and the changes it takes.
//! - [`core_asset`]: what the pool reads of assets and collections.
//! - [`assertions`]: the checks that the operations are made of.
//! - [`instruction`]: the instructions on the wire, and their accounts.
//! - [`invocation`]: what an operation asks its caller to invoke.
//! - [`processor`]: the seven operations, and the execution of their
//!   outcomes step by step.

use crate::pubkey::Pubkey;
use vstd::prelude::*;

pub mod account_info;
pub mod assertions;
pub mod core_asset;
pub mod error;
pub mod instruction;
pub mod invocation;
pub mod processor;
pub mod pubkey;
pub mod state;
pub mod system_program;
pub mod utils;

verus! {

/// The bytes of this program's address,
/// `FSWAP98yr51moUvni9iv32ptFY43KEPBBkNk28tZunr7`.
pub const ID_BYTES: [u8; 32] = [
    214, 140, 28, 73, 121, 96, 251, 136, 127, 232, 2, 72, 247, 103, 109, 96,
    242, 114, 172, 86, 211, 138, 180, 146, 149, 67, 132, 196, 24, 37, 250, 180,
];

/// The address of this program.
pub open spec fn spec_id() -> Pubkey {
    Pubkey { bytes: ID_BYTES }
}

/// The address of this program.
#[verifier::when_used_as_spec(spec_id)]
pub fn id() -> (key: Pubkey)
    ensures
        key == spec_id(),
{
    Pubkey { bytes: ID_BYTES }
}

/// Whether `key` is the address of this program.
pub fn check_id(key: &Pubkey) -> (same: bool)
    ensures
        same == (key@ == id()@),
{
    *key == id()
}

} // verus!
