use vstd::prelude::*;

verus! {

/// The reasons for which the pool rejects an operation.
#[derive(Clone, Copy, Debug, PartialEq, Eq, Structural)]
pub enum FloorSwapError {
    /// The account data does not hold a pool record.
    DeserializationFailed,
    /// The account data is too small to take a pool record.
    SerializationFailed,
    /// The account data does not open with the expected discriminator.
    InvalidAccountKey,
    /// The account has not signed the transaction.
    ExpectedSignerAccount,
    /// The account is not writable in this transaction.
    ExpectedWritableAccount,
    /// The account is not the one the operation expects at this place.
    AccountMismatch,
    /// The account is owned by another program than expected.
    InvalidProgramOwner,
    /// The account is not at the address derived from the pool's seeds.
    InvalidDerivedAddress,
    /// The account is not a collection of the asset program.
    ExpectedCollection,
    /// The account is not an asset of the asset program.
    ExpectedItem,
    /// The asset belongs to another collection than the pool's.
    InvalidCollectionForItem,
    /// The asset is owned by someone else than expected.
    InvalidItemOwner,
    /// The pool is not enabled for swaps.
    PoolInactive,
    /// The pool still counts assets in custody.
    PoolNotEmpty,
    /// The account already holds data.
    ExpectedEmptyAccount,
    /// The account holds no data.
    ExpectedNonEmptyAccount,
    /// A counter or a balance would leave its range.
    NumericalOverflow,
}

/// What an operation reports on failure: a pool error, or one of the
/// failures of the surrounding program runtime that the pool passes on.
#[derive(Clone, Copy, Debug, PartialEq, Eq, Structural)]
pub enum ProgramError {
    /// A failure of the pool's own rules.
    Custom(FloorSwapError),
    /// Fewer accounts were passed than the instruction names.
    NotEnoughAccountKeys,
    /// The instruction data is not the encoding of an instruction.
    BorshIoError,
    /// More seeds than an address derivation takes, or a seed too long.
    MaxSeedLengthExceeded,
    /// The seeds derive no valid program address.
    InvalidSeeds,
    /// The owner is not allowed for a derived address.
    IllegalOwner,
}

/// The result of an operation that returns nothing on success.
pub type ProgramResult = Result<(), ProgramError>;

/// The result of one check: success where `holds`, the pool error `error`
/// where not.
pub open spec fn check(holds: bool, error: FloorSwapError) -> ProgramResult {
    if holds {
        Ok(())
    } else {
        Err(ProgramError::Custom(error))
    }
}

impl FloorSwapError {
    /// This error as the error of an operation.
    pub fn into(self) -> (e: ProgramError)
        ensures
            e == ProgramError::Custom(self),
    {
        ProgramError::Custom(self)
    }
}

} // verus!
