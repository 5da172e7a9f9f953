use crate::pubkey::Pubkey;
use vstd::prelude::*;

verus! {

/// An account as an instruction sees it: what the pool reads of it, held as
/// plain values.
#[derive(Clone, Debug, PartialEq, Eq)]
pub struct AccountInfo {
    /// The address of the account.
    pub key: Pubkey,
    /// The balance of the account, in lamports.
    pub lamports: u64,
    /// The data that the account holds.
    pub data: Vec<u8>,
    /// The program that owns the account.
    pub owner: Pubkey,
    /// Whether the account signed the transaction.
    pub is_signer: bool,
    /// Whether the transaction may change the account.
    pub is_writable: bool,
}

impl AccountInfo {
    /// The balance of the account.
    pub fn lamports(&self) -> (n: u64)
        ensures
            n == self.lamports,
    {
        self.lamports
    }

    /// The number of bytes that the account holds.
    pub fn data_len(&self) -> (n: usize)
        ensures
            n == self.data@.len(),
    {
        self.data.len()
    }

    /// Overwrites the data from `offset` on with `bytes`, leaving the bytes
    /// around them as they are.
    pub(crate) fn write_data(&mut self, offset: usize, bytes: &[u8])
        requires
            offset + bytes@.len() <= old(self).data@.len(),
        ensures
            final(self).data@ == old(self).data@.subrange(0, offset as int) + bytes@ + old(
                self,
            ).data@.skip(offset + bytes@.len()),
            final(self).key == old(self).key,
            final(self).owner == old(self).owner,
            final(self).lamports == old(self).lamports,
            final(self).is_signer == old(self).is_signer,
            final(self).is_writable == old(self).is_writable,
    {
        let n = bytes.len();
        let total = self.data.len();
        let mut i: usize = 0;
        while i < n
            invariant
                i <= n,
                n == bytes@.len(),
                offset + n <= total,
                total == self.data@.len(),
                self.data@.len() == old(self).data@.len(),
                forall|j: int| 0 <= j < i ==> self.data@[offset + j] == bytes@[j],
                forall|j: int|
                    0 <= j < self.data@.len() && !(offset <= j < offset + i) ==> self.data@[j]
                        == old(self).data@[j],
                self.key == old(self).key,
                self.owner == old(self).owner,
                self.lamports == old(self).lamports,
                self.is_signer == old(self).is_signer,
                self.is_writable == old(self).is_writable,
            decreases n - i,
        {
            self.data[offset + i] = bytes[i];
            i += 1;
        }
        assert(self.data@ =~= old(self).data@.subrange(0, offset as int) + bytes@ + old(
            self,
        ).data@.skip(offset + bytes@.len()));
    }

    /// Whether the account holds no data, as one that was never allocated.
    pub fn data_is_empty(&self) -> (empty: bool)
        ensures
            empty == (self.data@.len() == 0),
    {
        self.data.len() == 0
    }
}

} // verus!
