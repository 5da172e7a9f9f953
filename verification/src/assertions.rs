use crate::account_info::AccountInfo;
use crate::core_asset::{
    parsed_asset, parsed_collection, read_asset, read_collection, Asset, BaseAssetV1,
    BaseCollectionV1, Collection, UpdateAuthority, ASSET_V1, COLLECTION_V1,
};
use crate::error::{check, FloorSwapError, ProgramError, ProgramResult};
use crate::pubkey::{
    create_program_address, found_program_address, program_address, seeds_view,
    seeds_within_limits, try_find_program_address, Pubkey,
};
use crate::state::pool::{found_view, Pool};
use crate::state::Key;
use vstd::prelude::*;

verus! {

/// Whether `owner` is one of `owners`.
pub open spec fn is_one_of(owner: Pubkey, owners: Seq<Pubkey>) -> bool {
    exists|i: int| 0 <= i < owners.len() && (#[trigger] owners[i])@ == owner@
}

/// Assert that the given account is owned by the given program or one of the given owners.
/// Useful for dealing with program interfaces.
pub fn assert_program_owner_either(
    _account_name: &str,
    account: &AccountInfo,
    owners: &[Pubkey],
) -> (r: ProgramResult)
    ensures
        r == check(is_one_of(account.owner, owners@), FloorSwapError::InvalidProgramOwner),
{
    let mut i: usize = 0;
    while i < owners.len()
        invariant
            i <= owners.len(),
            forall|j: int| 0 <= j < i ==> (#[trigger] owners@[j])@ != account.owner@,
        decreases owners.len() - i,
    {
        if account.owner == owners[i] {
            return Ok(());
        }
        i += 1;
    }
    Err(ProgramError::Custom(FloorSwapError::InvalidProgramOwner))
}

/// Assert the pool is active
pub fn assert_pool_active(pool: &Pool, _account: &AccountInfo) -> (r: ProgramResult)
    ensures
        r == check(pool.enabled, FloorSwapError::PoolInactive),
{
    if !pool.enabled {
        Err(ProgramError::Custom(FloorSwapError::PoolInactive))
    } else {
        Ok(())
    }
}

/// Assert the pool counts no asset in custody
pub fn assert_pool_empty(pool: &Pool, _account: &AccountInfo) -> (r: ProgramResult)
    ensures
        r == check(pool.num_assets == 0, FloorSwapError::PoolNotEmpty),
{
    if pool.num_assets != 0 {
        Err(ProgramError::Custom(FloorSwapError::PoolNotEmpty))
    } else {
        Ok(())
    }
}

/// Assert that the given account is owned by the given program.
pub fn assert_program_owner(_account_name: &str, account: &AccountInfo, owner: &Pubkey) -> (r:
    ProgramResult)
    ensures
        r == check(account.owner@ == owner@, FloorSwapError::InvalidProgramOwner),
{
    if account.owner != *owner {
        Err(ProgramError::Custom(FloorSwapError::InvalidProgramOwner))
    } else {
        Ok(())
    }
}

/// What the collection check makes of what the asset program's reader
/// returned for an account: the collection, where the reader accepted the
/// data and tagged it a collection.
pub open spec fn spec_check_collection(parsed: Option<BaseCollectionV1>) -> Result<
    Collection,
    ProgramError,
> {
    match parsed {
        Some(base) if base.key == COLLECTION_V1 => Ok(Collection { base }),
        _ => Err(ProgramError::Custom(FloorSwapError::ExpectedCollection)),
    }
}

/// The collection check on what the asset program's reader returned.
pub fn check_collection(parsed: Option<BaseCollectionV1>) -> (r: Result<Collection, ProgramError>)
    ensures
        r == spec_check_collection(parsed),
{
    match parsed {
        Some(base) => {
            if base.key != COLLECTION_V1 {
                Err(ProgramError::Custom(FloorSwapError::ExpectedCollection))
            } else {
                Ok(Collection { base })
            }
        },
        None => Err(ProgramError::Custom(FloorSwapError::ExpectedCollection)),
    }
}

/// What `assert_mpl_core_collection` answers for `account`.
pub open spec fn spec_assert_mpl_core_collection(account: &AccountInfo) -> Result<
    Collection,
    ProgramError,
> {
    if account.owner@ != crate::core_asset::id()@ {
        Err(ProgramError::Custom(FloorSwapError::InvalidProgramOwner))
    } else {
        spec_check_collection(parsed_collection(account.data@))
    }
}

/// Assert that the given account is an mpl-core collection
///
/// Fails with `InvalidProgramOwner` where the asset program does not own
/// the account, and with `ExpectedCollection` where its reader refuses the
/// data or tags them otherwise than as a collection.
pub fn assert_mpl_core_collection(account_name: &str, account: &AccountInfo) -> (r: Result<
    Collection,
    ProgramError,
>)
    ensures
        r == spec_assert_mpl_core_collection(account),
{
    match assert_program_owner(account_name, account, &crate::core_asset::id()) {
        Ok(()) => {},
        Err(e) => return Err(e),
    }
    check_collection(read_collection(account.data.as_slice()))
}

/// What the asset check makes of what the asset program's reader returned
/// for an account: the asset, where the reader accepted the data, tagged
/// it an asset, and gave `collection` as its update authority.
pub open spec fn spec_check_asset(parsed: Option<BaseAssetV1>, collection: Pubkey) -> Result<
    Asset,
    ProgramError,
> {
    match parsed {
        Some(base) if base.key == ASSET_V1 => {
            if base.update_authority matches UpdateAuthority::Collection(c) && c@ == collection@ {
                Ok(Asset { base })
            } else {
                Err(ProgramError::Custom(FloorSwapError::InvalidCollectionForItem))
            }
        },
        _ => Err(ProgramError::Custom(FloorSwapError::ExpectedItem)),
    }
}

/// The asset check on what the asset program's reader returned.
pub fn check_asset(parsed: Option<BaseAssetV1>, collection: &Pubkey) -> (r: Result<
    Asset,
    ProgramError,
>)
    ensures
        r == spec_check_asset(parsed, *collection),
{
    match parsed {
        Some(base) => {
            if base.key != ASSET_V1 {
                return Err(ProgramError::Custom(FloorSwapError::ExpectedItem));
            }
            let member = match base.update_authority {
                UpdateAuthority::Collection(c) => c == *collection,
                _ => false,
            };
            if !member {
                Err(ProgramError::Custom(FloorSwapError::InvalidCollectionForItem))
            } else {
                Ok(Asset { base })
            }
        },
        None => Err(ProgramError::Custom(FloorSwapError::ExpectedItem)),
    }
}

/// What `assert_mpl_core_asset` answers for `account` and `collection`.
pub open spec fn spec_assert_mpl_core_asset(account: &AccountInfo, collection: Pubkey) -> Result<
    Asset,
    ProgramError,
> {
    if account.owner@ != crate::core_asset::id()@ {
        Err(ProgramError::Custom(FloorSwapError::InvalidProgramOwner))
    } else {
        spec_check_asset(parsed_asset(account.data@), collection)
    }
}

/// Assert that the given account is an mpl-core asset and a member of given collection
///
/// Fails with `InvalidProgramOwner` where the asset program does not own
/// the account, with `ExpectedItem` where its reader refuses the data or
/// tags them otherwise than as an asset, and with
/// `InvalidCollectionForItem` where the asset's update authority is not
/// `collection`.
pub fn assert_mpl_core_asset(account_name: &str, account: &AccountInfo, collection: &Pubkey) -> (r:
    Result<Box<Asset>, ProgramError>)
    ensures
        unboxed(r) == spec_assert_mpl_core_asset(account, *collection),
{
    match assert_program_owner(account_name, account, &crate::core_asset::id()) {
        Ok(()) => {},
        Err(e) => return Err(e),
    }
    match check_asset(read_asset(account.data.as_slice()), collection) {
        Ok(asset) => Ok(Box::new(asset)),
        Err(e) => Err(e),
    }
}

/// The result of an asset check with the asset taken out of its box.
pub open spec fn unboxed(r: Result<Box<Asset>, ProgramError>) -> Result<Asset, ProgramError> {
    match r {
        Ok(asset) => Ok(*asset),
        Err(e) => Err(e),
    }
}

/// Assert that the asset is owned by the given owner.
pub fn assert_asset_owner(_account_name: &str, asset: Box<Asset>, owner: &Pubkey) -> (r:
    ProgramResult)
    ensures
        r == check(asset.base.owner@ == owner@, FloorSwapError::InvalidItemOwner),
{
    if asset.base.owner != *owner {
        Err(ProgramError::Custom(FloorSwapError::InvalidItemOwner))
    } else {
        Ok(())
    }
}

/// What the address check makes of the outcome of a search for the
/// address that seeds derive: the bump seed, where the search ended on
/// `key`.
pub open spec fn spec_check_pda(key: Seq<u8>, found: Option<(Seq<u8>, u8)>) -> Result<
    u8,
    ProgramError,
> {
    match found {
        Some((address, bump)) if address == key => Ok(bump),
        _ => Err(ProgramError::Custom(FloorSwapError::InvalidDerivedAddress)),
    }
}

/// The address check on the outcome of a search for a derived address.
pub fn check_pda(key: &Pubkey, found: Option<(Pubkey, u8)>) -> (r: Result<u8, ProgramError>)
    ensures
        r == spec_check_pda(key@, found_view(found)),
{
    match found {
        Some((address, bump)) => {
            if *key != address {
                Err(ProgramError::Custom(FloorSwapError::InvalidDerivedAddress))
            } else {
                Ok(bump)
            }
        },
        None => Err(ProgramError::Custom(FloorSwapError::InvalidDerivedAddress)),
    }
}

/// Assert the derivation of the seeds against the given account and return the bump seed.
///
/// Fails with `InvalidDerivedAddress` where the search from the seeds ends
/// on another address than the account's, or on none. The bump seed
/// returned, appended to the seeds, derives the account's address directly.
pub fn assert_pda(
    _account_name: &str,
    account: &AccountInfo,
    program_id: &Pubkey,
    seeds: &[&[u8]],
) -> (r: Result<u8, ProgramError>)
    ensures
        r == spec_check_pda(account.key@, found_program_address(seeds_view(seeds@), program_id@)),
        r matches Ok(bump) ==> program_address(
            seeds_view(seeds@).push(seq![bump]),
            program_id@,
        ) == Some(account.key@),
{
    check_pda(&account.key, try_find_program_address(seeds, program_id))
}

/// Assert the derivation of the seeds plus bump against the given account.
///
/// Fails with `InvalidDerivedAddress` where the seeds derive another
/// address than the account's, with `MaxSeedLengthExceeded` where they are
/// beyond what a derivation takes, and with `InvalidSeeds` where they are
/// within it and derive no address.
pub fn assert_pda_with_bump(
    _account_name: &str,
    account: &AccountInfo,
    program_id: &Pubkey,
    seeds_with_bump: &[&[u8]],
) -> (r: ProgramResult)
    ensures
        r == (match program_address(seeds_view(seeds_with_bump@), program_id@) {
            Some(address) => check(
                address == account.key@,
                FloorSwapError::InvalidDerivedAddress,
            ),
            None => if seeds_within_limits(seeds_view(seeds_with_bump@)) {
                Err(ProgramError::InvalidSeeds)
            } else {
                Err(ProgramError::MaxSeedLengthExceeded)
            },
        }),
{
    match create_program_address(seeds_with_bump, program_id) {
        Ok(key) => {
            if account.key != key {
                Err(ProgramError::Custom(FloorSwapError::InvalidDerivedAddress))
            } else {
                Ok(())
            }
        },
        Err(e) => Err(e),
    }
}

/// Assert that the given account is empty.
pub fn assert_empty(_account_name: &str, account: &AccountInfo) -> (r: ProgramResult)
    ensures
        r == check(account.data@.len() == 0, FloorSwapError::ExpectedEmptyAccount),
{
    if !account.data_is_empty() {
        Err(ProgramError::Custom(FloorSwapError::ExpectedEmptyAccount))
    } else {
        Ok(())
    }
}

/// Assert that the given account is non empty.
pub fn assert_non_empty(_account_name: &str, account: &AccountInfo) -> (r: ProgramResult)
    ensures
        r == check(account.data@.len() != 0, FloorSwapError::ExpectedNonEmptyAccount),
{
    if account.data_is_empty() {
        Err(ProgramError::Custom(FloorSwapError::ExpectedNonEmptyAccount))
    } else {
        Ok(())
    }
}

/// Assert that the given account is a signer.
pub fn assert_signer(_account_name: &str, account: &AccountInfo) -> (r: ProgramResult)
    ensures
        r == check(account.is_signer, FloorSwapError::ExpectedSignerAccount),
{
    if !account.is_signer {
        Err(ProgramError::Custom(FloorSwapError::ExpectedSignerAccount))
    } else {
        Ok(())
    }
}

/// Assert that the given account is writable.
pub fn assert_writable(_account_name: &str, account: &AccountInfo) -> (r: ProgramResult)
    ensures
        r == check(account.is_writable, FloorSwapError::ExpectedWritableAccount),
{
    if !account.is_writable {
        Err(ProgramError::Custom(FloorSwapError::ExpectedWritableAccount))
    } else {
        Ok(())
    }
}

/// Assert that the given account matches the given public key.
pub fn assert_same_pubkeys(_account_name: &str, account: &AccountInfo, expected: &Pubkey) -> (r:
    ProgramResult)
    ensures
        r == check(account.key@ == expected@, FloorSwapError::AccountMismatch),
{
    if account.key != *expected {
        Err(ProgramError::Custom(FloorSwapError::AccountMismatch))
    } else {
        Ok(())
    }
}

/// Assert that the given account has the expected account key.
///
/// The data must hold more than the discriminator alone.
pub fn assert_account_key(_account_name: &str, account: &AccountInfo, key: Key) -> (r:
    ProgramResult)
    ensures
        r == check(
            account.data@.len() > 1 && account.data@[0] == key.spec_to_u8(),
            FloorSwapError::InvalidAccountKey,
        ),
{
    let key_number = key.to_u8();
    if account.data_len() <= 1 || account.data[0] != key_number {
        Err(ProgramError::Custom(FloorSwapError::InvalidAccountKey))
    } else {
        Ok(())
    }
}

} // verus!
