use vstd::prelude::*;

pub mod pool;
pub mod traits;

pub use traits::{DataBlob, SolanaAccount};

verus! {

/// The discriminator that opens the data of every account of this program.
///
/// The numbering is closed: new kinds of record are appended, none is
/// renumbered.
#[derive(Clone, Copy, Debug, PartialEq, Eq, Structural)]
pub enum Key {
    /// Uninitialized or invalid account.
    Uninitialized,
    /// An account holding a pool record.
    Pool,
}

impl Key {
    /// One byte for the discriminator.
    pub const BASE_LEN: usize = 1;

    /// The byte that stands for the discriminator in account data.
    pub open spec fn spec_to_u8(self) -> u8 {
        match self {
            Key::Uninitialized => 0,
            Key::Pool => 1,
        }
    }

    /// The discriminator that the byte `n` stands for, if any.
    pub open spec fn spec_from_u8(n: u8) -> Option<Key> {
        if n == 0 {
            Some(Key::Uninitialized)
        } else if n == 1 {
            Some(Key::Pool)
        } else {
            None
        }
    }

    /// The byte that stands for the discriminator in account data.
    #[verifier::when_used_as_spec(spec_to_u8)]
    pub fn to_u8(self) -> (n: u8)
        ensures
            n == self.spec_to_u8(),
    {
        match self {
            Key::Uninitialized => 0,
            Key::Pool => 1,
        }
    }

    /// The discriminator that the byte `n` stands for, if any.
    #[verifier::when_used_as_spec(spec_from_u8)]
    pub fn from_u8(n: u8) -> (key: Option<Key>)
        ensures
            key == Key::spec_from_u8(n),
    {
        if n == 0 {
            Some(Key::Uninitialized)
        } else if n == 1 {
            Some(Key::Pool)
        } else {
            None
        }
    }
}

impl DataBlob for Key {
    open spec fn spec_bytes(&self) -> Seq<u8> {
        seq![self.spec_to_u8()]
    }

    fn len(&self) -> (n: usize) {
        Key::BASE_LEN
    }
}

/// Byte and discriminator stand for each other.
pub proof fn lemma_key_round_trip(key: Key, n: u8)
    ensures
        Key::spec_from_u8(key.spec_to_u8()) == Some(key),
        Key::spec_from_u8(n) matches Some(k) ==> k.spec_to_u8() == n,
{
}

} // verus!
