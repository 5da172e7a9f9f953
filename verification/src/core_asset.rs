use crate::pubkey::Pubkey;
use vstd::prelude::*;

verus! {

/// The bytes of the asset program's address,
/// `CoREENxT6tW1HoK8ypY1SxRMZTcVPm7R94rH4PZNhX7d`.
pub const ID_BYTES: [u8; 32] = [
    175, 84, 171, 16, 189, 151, 165, 66, 160, 158, 247, 179, 152, 137, 221, 12,
    211, 148, 164, 204, 233, 223, 166, 205, 201, 126, 190, 45, 35, 91, 167, 72,
];

/// The address of the asset program.
pub open spec fn spec_id() -> Pubkey {
    Pubkey { bytes: ID_BYTES }
}

/// The address of the asset program.
#[verifier::when_used_as_spec(spec_id)]
pub fn id() -> (key: Pubkey)
    ensures
        key == spec_id(),
{
    Pubkey { bytes: ID_BYTES }
}

/// The tag with which the asset program marks the account of an asset.
pub const ASSET_V1: u8 = 1;

/// The tag with which the asset program marks the account of a collection.
pub const COLLECTION_V1: u8 = 5;

/// Who may update an asset: nobody, an address, or the asset's collection.
#[derive(Clone, Copy, Debug, PartialEq, Eq)]
pub enum UpdateAuthority {
    /// Nobody.
    Unset,
    /// The holder of an address.
    Address(Pubkey),
    /// The collection at an address, of which the asset is a member.
    Collection(Pubkey),
}

/// What the pool reads of an asset's account.
#[derive(Clone, Copy, Debug, PartialEq, Eq)]
pub struct BaseAssetV1 {
    /// The tag of the account, `ASSET_V1` for an asset.
    pub key: u8,
    /// The owner of the asset.
    pub owner: Pubkey,
    /// The update authority; for a member of a collection, the collection.
    pub update_authority: UpdateAuthority,
}

/// What the pool reads of a collection's account.
#[derive(Clone, Copy, Debug, PartialEq, Eq)]
pub struct BaseCollectionV1 {
    /// The tag of the account, `COLLECTION_V1` for a collection.
    pub key: u8,
    /// Who may update the collection.
    pub update_authority: Pubkey,
}

/// An asset that has passed its checks.
#[derive(Clone, Copy, Debug, PartialEq, Eq)]
pub struct Asset {
    pub base: BaseAssetV1,
}

/// A collection that has passed its checks.
#[derive(Clone, Copy, Debug, PartialEq, Eq)]
pub struct Collection {
    pub base: BaseCollectionV1,
}

/// What the asset program's reader makes of `data` as the account of an
/// asset, where it accepts the data.
pub uninterp spec fn parsed_asset(data: Seq<u8>) -> Option<BaseAssetV1>;

/// What the asset program's reader makes of `data` as the account of a
/// collection, where it accepts the data.
pub uninterp spec fn parsed_collection(data: Seq<u8>) -> Option<BaseCollectionV1>;

/// Calls `mpl_core::accounts::BaseAssetV1::from_bytes`, which reads the base
/// of an asset's account and leaves what follows it, the asset's plugins,
/// unread.
///
/// Trusted: the result is `parsed_asset` of the data, `None` standing for
/// the reader's refusal; the tag is the reader's key as a number.
#[verifier::external_body]
pub(crate) fn read_asset(data: &[u8]) -> (r: Option<BaseAssetV1>)
    ensures
        r == parsed_asset(data@),
{
    let base = mpl_core::accounts::BaseAssetV1::from_bytes(data).ok()?;
    let update_authority = match base.update_authority {
        mpl_core::types::UpdateAuthority::None => UpdateAuthority::Unset,
        mpl_core::types::UpdateAuthority::Address(key) => UpdateAuthority::Address(
            Pubkey { bytes: key.to_bytes() },
        ),
        mpl_core::types::UpdateAuthority::Collection(key) => UpdateAuthority::Collection(
            Pubkey { bytes: key.to_bytes() },
        ),
    };
    Some(BaseAssetV1 { key: base.key as u8, owner: Pubkey { bytes: base.owner.to_bytes() }, update_authority })
}

/// Calls `mpl_core::accounts::BaseCollectionV1::from_bytes`, which reads the
/// base of a collection's account and leaves what follows it unread.
///
/// Trusted: the result is `parsed_collection` of the data, `None` standing
/// for the reader's refusal; the tag is the reader's key as a number.
#[verifier::external_body]
pub(crate) fn read_collection(data: &[u8]) -> (r: Option<BaseCollectionV1>)
    ensures
        r == parsed_collection(data@),
{
    let base = mpl_core::accounts::BaseCollectionV1::from_bytes(data).ok()?;
    Some(
        BaseCollectionV1 {
            key: base.key as u8,
            update_authority: Pubkey { bytes: base.update_authority.to_bytes() },
        },
    )
}

} // verus!
