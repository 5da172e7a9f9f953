use crate::account_info::AccountInfo;
use crate::error::{FloorSwapError, ProgramError};
use crate::invocation::{Invocation, PoolSigner};
use crate::state::Key;
use vstd::prelude::*;

verus! {

/// Transfer lamports.
///
/// The invocation of the system program that moves `lamports` from `from`
/// to `to`, signed for by `signer` where one is given.
pub fn transfer_lamports(
    from: &AccountInfo,
    to: &AccountInfo,
    lamports: u64,
    signer: Option<PoolSigner>,
) -> (invocation: Invocation)
    ensures
        invocation == (Invocation::TransferLamports { from: from.key, to: to.key, lamports, signer }),
{
    Invocation::TransferLamports { from: from.key, to: to.key, lamports, signer }
}

/// Transfer lamports.
///
/// The invocation of the system program that moves `lamports` from `from`,
/// who signed the transaction, to `to`.
pub fn pay_fee(from: &AccountInfo, to: &AccountInfo, lamports: u64) -> (invocation: Invocation)
    ensures
        invocation == (Invocation::TransferLamports {
            from: from.key,
            to: to.key,
            lamports,
            signer: None,
        }),
{
    Invocation::TransferLamports { from: from.key, to: to.key, lamports, signer: None }
}

/// Moves `lamports` between two accounts of this program, without the
/// system program.
///
/// Fails with `NumericalOverflow`, both accounts untouched, where `from`
/// holds less than `lamports` or `to` cannot hold them on top of its own.
pub fn transfer_lamports_from_pdas(from: &mut AccountInfo, to: &mut AccountInfo, lamports: u64) -> (r:
    Result<(), ProgramError>)
    ensures
        match r {
            Ok(()) => {
                &&& old(from).lamports >= lamports
                &&& old(to).lamports + lamports <= u64::MAX
                &&& final(from).lamports == old(from).lamports - lamports
                &&& final(to).lamports == old(to).lamports + lamports
                &&& final(from).key == old(from).key
                &&& final(from).owner == old(from).owner
                &&& final(from).data == old(from).data
                &&& final(from).is_signer == old(from).is_signer
                &&& final(from).is_writable == old(from).is_writable
                &&& final(to).key == old(to).key
                &&& final(to).owner == old(to).owner
                &&& final(to).data == old(to).data
                &&& final(to).is_signer == old(to).is_signer
                &&& final(to).is_writable == old(to).is_writable
            },
            Err(e) => {
                &&& e == ProgramError::Custom(FloorSwapError::NumericalOverflow)
                &&& old(from).lamports < lamports || old(to).lamports + lamports > u64::MAX
                &&& *final(from) == *old(from)
                &&& *final(to) == *old(to)
            },
        },
{
    let debited = match from.lamports.checked_sub(lamports) {
        Some(n) => n,
        None => return Err(ProgramError::Custom(FloorSwapError::NumericalOverflow)),
    };
    let credited = match to.lamports.checked_add(lamports) {
        Some(n) => n,
        None => return Err(ProgramError::Custom(FloorSwapError::NumericalOverflow)),
    };
    from.lamports = debited;
    to.lamports = credited;
    Ok(())
}

/// Load the one byte key from the account data at the given offset.
///
/// Fails with `DeserializationFailed` where the data ends before `offset`
/// and where the byte there stands for no discriminator.
pub fn load_key(account: &AccountInfo, offset: usize) -> (r: Result<Key, ProgramError>)
    ensures
        match r {
            Ok(key) => offset < account.data@.len() && Key::spec_from_u8(
                account.data@[offset as int],
            ) == Some(key),
            Err(e) => {
                &&& e == ProgramError::Custom(FloorSwapError::DeserializationFailed)
                &&& offset >= account.data@.len() || Key::spec_from_u8(
                    account.data@[offset as int],
                ) is None
            },
        },
{
    if offset >= account.data.len() {
        return Err(ProgramError::Custom(FloorSwapError::DeserializationFailed));
    }
    match Key::from_u8(account.data[offset]) {
        Some(key) => Ok(key),
        None => Err(ProgramError::Custom(FloorSwapError::DeserializationFailed)),
    }
}

} // verus!
