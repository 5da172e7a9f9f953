use crate::pubkey::{program_address, Pubkey};
use crate::state::pool::{Pool, PREFIX};
use vstd::prelude::*;
use vstd::slice::slice_to_vec;

verus! {

/// What lets the pool sign an invocation as itself: the seeds of its
/// address and the bump seed that completes them. No secret is involved;
/// the runtime accepts the signature where the seeds derive the address.
#[derive(Clone, Copy, Debug, PartialEq, Eq)]
pub struct PoolSigner {
    pub authority: Pubkey,
    pub collection: Pubkey,
    pub bump: u8,
}

impl PoolSigner {
    /// The signer's seeds: prefix, authority, collection, bump seed.
    pub open spec fn spec_seeds(self) -> Seq<Seq<u8>> {
        Pool::spec_signer_seeds(self.authority@, self.collection@, self.bump)
    }

    /// Whether the seeds derive `key` under this program, so that the
    /// signature stands for the account at `key`.
    pub open spec fn signs_for(self, key: Pubkey) -> bool {
        program_address(self.spec_seeds(), crate::id()@) == Some(key@)
    }

    /// The signer's seeds, to hand to the runtime with the invocation.
    pub fn seeds(&self) -> (seeds: Vec<Vec<u8>>)
        ensures
            seeds@.len() == 4,
            forall|i: int| 0 <= i < 4 ==> (#[trigger] seeds@[i])@ == self.spec_seeds()[i],
    {
        let mut bump: Vec<u8> = Vec::new();
        bump.push(self.bump);
        let mut seeds: Vec<Vec<u8>> = Vec::new();
        seeds.push(slice_to_vec(PREFIX.as_bytes()));
        seeds.push(slice_to_vec(self.authority.as_ref()));
        seeds.push(slice_to_vec(self.collection.as_ref()));
        seeds.push(bump);
        assert(seeds@[3]@ =~= seq![self.bump]);
        seeds
    }
}

/// An invocation of another program that an operation asks its caller to
/// perform on its accounts. Accounts are named by their addresses.
#[allow(inconsistent_fields)]
#[derive(Clone, Copy, Debug, PartialEq, Eq)]
pub enum Invocation {
    /// System program: allocate `space` bytes at the address `account`, owned
    /// by the program `owner` and funded by `payer`; the signer stands for
    /// the new account.
    CreateAccount { account: Pubkey, payer: Pubkey, space: u64, owner: Pubkey, signer: PoolSigner },
    /// System program: move `lamports` from `from` to `to`.
    TransferLamports { from: Pubkey, to: Pubkey, lamports: u64, signer: Option<PoolSigner> },
    /// Asset program: hand `asset`, a member of `collection`, to
    /// `new_owner`, on the word of `authority`. Where `authority` is the
    /// pool, the signer stands for it.
    TransferAsset {
        asset: Pubkey,
        new_owner: Pubkey,
        collection: Pubkey,
        payer: Pubkey,
        authority: Pubkey,
        signer: Option<PoolSigner>,
    },
    /// Erase `account` and give its lamports to `destination`.
    CloseAccount { account: Pubkey, destination: Pubkey },
}

impl Invocation {
    /// Whether the invocation reassigns an asset.
    pub open spec fn is_asset_transfer(self) -> bool {
        self is TransferAsset
    }

    /// The signer that the invocation carries for the pool, if any.
    pub open spec fn spec_signer(self) -> Option<PoolSigner> {
        match self {
            Invocation::CreateAccount { signer, .. } => Some(signer),
            Invocation::TransferLamports { signer, .. } => signer,
            Invocation::TransferAsset { signer, .. } => signer,
            Invocation::CloseAccount { .. } => None,
        }
    }

    /// The signer that the invocation carries for the pool, if any.
    pub fn signer(&self) -> (signer: Option<PoolSigner>)
        ensures
            signer == self.spec_signer(),
    {
        match self {
            Invocation::CreateAccount { signer, .. } => Some(*signer),
            Invocation::TransferLamports { signer, .. } => *signer,
            Invocation::TransferAsset { signer, .. } => *signer,
            Invocation::CloseAccount { .. } => None,
        }
    }
}

} // verus!
