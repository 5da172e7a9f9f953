use crate::account_info::AccountInfo;
use crate::error::{FloorSwapError, ProgramError, ProgramResult};
use crate::state::Key;
use crate::utils::load_key;
use vstd::prelude::*;
use vstd::slice::slice_subrange;

verus! {

/// A value that is stored as a run of bytes of known length.
pub trait DataBlob {
    /// The bytes that the value is stored as.
    spec fn spec_bytes(&self) -> Seq<u8>;

    /// The number of bytes that the value is stored as.
    fn len(&self) -> (n: usize)
        ensures
            n == self.spec_bytes().len(),
    ;
}

/// A record that lives in the data of an account, behind its discriminator.
pub trait SolanaAccount: Sized {
    /// The discriminator of the record.
    spec fn spec_key() -> Key;

    /// The bytes that the record is written as.
    spec fn spec_serialize(&self) -> Seq<u8>;

    /// The record that `bytes` open with, if they open with one.
    spec fn spec_deserialize(bytes: Seq<u8>) -> Option<Self>;

    /// The discriminator of the record.
    fn key() -> (key: Key)
        ensures
            key == Self::spec_key(),
    ;

    /// Writes the record out.
    fn serialize(&self) -> (bytes: Vec<u8>)
        ensures
            bytes@ == self.spec_serialize(),
    ;

    /// Reads the record that `bytes` open with.
    fn deserialize(bytes: &[u8]) -> (record: Option<Self>)
        ensures
            record == Self::spec_deserialize(bytes@),
    ;

    /// Loads the record that the account's data holds from `offset` on.
    ///
    /// Fails with `DeserializationFailed` where the data ends before
    /// `offset`, where the byte there is not the record's discriminator, and
    /// where what follows is not a record.
    fn load(account: &AccountInfo, offset: usize) -> (r: Result<Self, ProgramError>)
        ensures
            match r {
                Ok(record) => {
                    &&& offset < account.data@.len()
                    &&& Key::spec_from_u8(account.data@[offset as int]) == Some(Self::spec_key())
                    &&& Self::spec_deserialize(account.data@.skip(offset as int)) == Some(record)
                },
                Err(e) => {
                    &&& e == ProgramError::Custom(FloorSwapError::DeserializationFailed)
                    &&& !(offset < account.data@.len() && Key::spec_from_u8(
                        account.data@[offset as int],
                    ) == Some(Self::spec_key()) && Self::spec_deserialize(
                        account.data@.skip(offset as int),
                    ) is Some)
                },
            },
    {
        let key = match load_key(account, offset) {
            Ok(key) => key,
            Err(e) => return Err(e),
        };
        if key != Self::key() {
            return Err(ProgramError::Custom(FloorSwapError::DeserializationFailed));
        }
        let bytes = slice_subrange(account.data.as_slice(), offset, account.data.len());
        assert(bytes@ == account.data@.skip(offset as int));
        match Self::deserialize(bytes) {
            Some(record) => Ok(record),
            None => Err(ProgramError::Custom(FloorSwapError::DeserializationFailed)),
        }
    }

    /// Saves the record into the account's data from `offset` on, leaving
    /// the bytes around it as they are.
    ///
    /// Fails with `SerializationFailed`, the account untouched, where the
    /// data has no room for the record at `offset`.
    fn save(&self, account: &mut AccountInfo, offset: usize) -> (r: ProgramResult)
        ensures
            match r {
                Ok(()) => {
                    &&& offset + self.spec_serialize().len() <= old(account).data@.len()
                    &&& final(account).data@ == old(account).data@.subrange(0, offset as int)
                        + self.spec_serialize() + old(account).data@.skip(
                        offset + self.spec_serialize().len(),
                    )
                    &&& final(account).key == old(account).key
                    &&& final(account).owner == old(account).owner
                    &&& final(account).lamports == old(account).lamports
                    &&& final(account).is_signer == old(account).is_signer
                    &&& final(account).is_writable == old(account).is_writable
                },
                Err(e) => {
                    &&& e == ProgramError::Custom(FloorSwapError::SerializationFailed)
                    &&& offset + self.spec_serialize().len() > old(account).data@.len()
                    &&& *final(account) == *old(account)
                },
            },
    {
        let bytes = self.serialize();
        if offset > account.data.len() || bytes.len() > account.data.len() - offset {
            return Err(ProgramError::Custom(FloorSwapError::SerializationFailed));
        }
        account.write_data(offset, bytes.as_slice());
        Ok(())
    }
}

} // verus!
