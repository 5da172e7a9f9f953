use crate::error::ProgramError;
use vstd::prelude::*;

verus! {

/// Longest seed that an address derivation takes.
pub const MAX_SEED_LEN: usize = 32;

/// Largest number of seeds that an address derivation takes.
pub const MAX_SEEDS: usize = 16;

/// The address of an account or of a program.
#[derive(Clone, Copy, Debug, Eq)]
pub struct Pubkey {
    pub bytes: [u8; 32],
}

impl View for Pubkey {
    type V = Seq<u8>;

    open spec fn view(&self) -> Seq<u8> {
        self.bytes@
    }
}

impl PartialEq for Pubkey {
    fn eq(&self, other: &Pubkey) -> (r: bool) {
        let mut i: usize = 0;
        while i < 32
            invariant
                i <= 32,
                forall|j: int| 0 <= j < i ==> self.bytes[j] == other.bytes[j],
            decreases 32 - i,
        {
            if self.bytes[i] != other.bytes[i] {
                return false;
            }
            i += 1;
        }
        proof {
            assert(self.bytes =~= other.bytes);
        }
        true
    }
}

impl vstd::std_specs::cmp::PartialEqSpecImpl for Pubkey {
    open spec fn obeys_eq_spec() -> bool {
        true
    }

    open spec fn eq_spec(&self, other: &Pubkey) -> bool {
        self@ == other@
    }
}

impl Pubkey {
    /// The address whose bytes are the first 32 elements of `s`.
    pub open spec fn spec_from_seq(s: Seq<u8>) -> Pubkey {
        Pubkey {
            bytes: [
                s[0], s[1], s[2], s[3], s[4], s[5], s[6], s[7],
                s[8], s[9], s[10], s[11], s[12], s[13], s[14], s[15],
                s[16], s[17], s[18], s[19], s[20], s[21], s[22], s[23],
                s[24], s[25], s[26], s[27], s[28], s[29], s[30], s[31],
            ],
        }
    }

    /// The address with the given bytes.
    pub fn new_from_array(bytes: [u8; 32]) -> (key: Pubkey)
        ensures
            key.bytes == bytes,
            key@ == bytes@,
    {
        Pubkey { bytes }
    }

    /// The bytes of the address.
    pub fn to_bytes(&self) -> (bytes: [u8; 32])
        ensures
            bytes == self.bytes,
    {
        self.bytes
    }

    /// The bytes of the address, as a seed for a derivation.
    pub fn as_ref(&self) -> (bytes: &[u8])
        ensures
            bytes@ == self@,
            bytes@.len() == 32,
    {
        self.bytes.as_slice()
    }

    /// Reads the address that stands in `data` from index `start` on.
    pub(crate) fn from_slice(data: &[u8], start: usize) -> (key: Pubkey)
        requires
            start + 32 <= data.len(),
        ensures
            key@ == data@.subrange(start as int, start + 32),
            key == Pubkey::spec_from_seq(data@.subrange(start as int, start + 32)),
    {
        let mut bytes: [u8; 32] = [0u8; 32];
        let mut i: usize = 0;
        while i < 32
            invariant
                i <= 32,
                start + 32 <= data.len(),
                forall|j: int| 0 <= j < i ==> bytes[j] == data@[start + j],
            decreases 32 - i,
        {
            bytes[i] = data[start + i];
            i += 1;
        }
        let key = Pubkey { bytes };
        proof {
            let s = data@.subrange(start as int, start + 32);
            assert(key@ =~= s);
            lemma_spec_from_seq(s);
            lemma_pubkey_eq(key, Pubkey::spec_from_seq(s));
        }
        key
    }
}

/// Two addresses with the same bytes are the same address.
pub proof fn lemma_pubkey_eq(a: Pubkey, b: Pubkey)
    ensures
        (a@ == b@) <==> (a == b),
        a@.len() == 32,
{
    if a@ == b@ {
        assert(forall|i: int| 0 <= i < 32 ==> a.bytes[i] == a@[i]);
        assert(a.bytes =~= b.bytes);
    }
}

/// An address read from 32 bytes holds exactly those bytes.
pub proof fn lemma_spec_from_seq(s: Seq<u8>)
    requires
        s.len() == 32,
    ensures
        Pubkey::spec_from_seq(s)@ == s,
{
    assert(Pubkey::spec_from_seq(s)@ =~= s);
}

/// The seeds of a derivation, each as the bytes it holds.
pub open spec fn seeds_view(seeds: Seq<&[u8]>) -> Seq<Seq<u8>> {
    Seq::new(seeds.len(), |i: int| seeds[i]@)
}

/// Whether a derivation takes these seeds: at most `MAX_SEEDS` of them, none
/// longer than `MAX_SEED_LEN`.
pub open spec fn seeds_within_limits(seeds: Seq<Seq<u8>>) -> bool {
    &&& seeds.len() <= MAX_SEEDS
    &&& forall|i: int| 0 <= i < seeds.len() ==> (#[trigger] seeds[i]).len() <= MAX_SEED_LEN
}

/// The program address that `seeds` derive under the program `program_id`,
/// where they derive one.
pub uninterp spec fn program_address(seeds: Seq<Seq<u8>>, program_id: Seq<u8>) -> Option<Seq<u8>>;

/// The program address that the search for a bump seed ends on for `seeds`
/// under the program `program_id`, with the bump seed it found.
pub uninterp spec fn found_program_address(seeds: Seq<Seq<u8>>, program_id: Seq<u8>) -> Option<
    (Seq<u8>, u8),
>;

/// Calls `solana_program::pubkey::Pubkey::create_program_address`.
///
/// Trusted: the address returned is `program_address` of the arguments, and
/// the call fails exactly where `program_address` is `None`. Seeds beyond the
/// limits are refused with `MaxSeedLengthExceeded` before anything is hashed;
/// seeds within them fail only with `InvalidSeeds`, when the hash lies on the
/// curve.
#[verifier::external_body]
pub(crate) fn create_program_address(seeds: &[&[u8]], program_id: &Pubkey) -> (r: Result<
    Pubkey,
    ProgramError,
>)
    ensures
        match r {
            Ok(key) => {
                &&& program_address(seeds_view(seeds@), program_id@) == Some(key@)
                &&& seeds_within_limits(seeds_view(seeds@))
            },
            Err(e) => {
                &&& program_address(seeds_view(seeds@), program_id@) is None
                &&& seeds_within_limits(seeds_view(seeds@)) ==> e == ProgramError::InvalidSeeds
                &&& !seeds_within_limits(seeds_view(seeds@)) ==> e
                    == ProgramError::MaxSeedLengthExceeded
            },
        },
{
    let id = solana_program::pubkey::Pubkey::new_from_array(program_id.bytes);
    match solana_program::pubkey::Pubkey::create_program_address(seeds, &id) {
        Ok(key) => Ok(Pubkey { bytes: key.to_bytes() }),
        Err(solana_program::pubkey::PubkeyError::MaxSeedLengthExceeded) => Err(
            ProgramError::MaxSeedLengthExceeded,
        ),
        Err(solana_program::pubkey::PubkeyError::InvalidSeeds) => Err(ProgramError::InvalidSeeds),
        Err(solana_program::pubkey::PubkeyError::IllegalOwner) => Err(ProgramError::IllegalOwner),
    }
}

/// Calls `solana_program::pubkey::Pubkey::try_find_program_address`.
///
/// Trusted: the result is `found_program_address` of the arguments, and the
/// address found is the one that the seeds derive once the bump seed found
/// is appended to them as a last seed of one byte.
#[verifier::external_body]
pub(crate) fn try_find_program_address(seeds: &[&[u8]], program_id: &Pubkey) -> (r: Option<
    (Pubkey, u8),
>)
    ensures
        match r {
            Some((key, bump)) => {
                &&& found_program_address(seeds_view(seeds@), program_id@) == Some((key@, bump))
                &&& program_address(seeds_view(seeds@).push(seq![bump]), program_id@) == Some(
                    key@,
                )
            },
            None => found_program_address(seeds_view(seeds@), program_id@) is None,
        },
{
    let id = solana_program::pubkey::Pubkey::new_from_array(program_id.bytes);
    match solana_program::pubkey::Pubkey::try_find_program_address(seeds, &id) {
        Some((key, bump)) => Some((Pubkey { bytes: key.to_bytes() }, bump)),
        None => None,
    }
}

} // verus!
