use crate::account_info::AccountInfo;
use crate::error::{FloorSwapError, ProgramError, ProgramResult};
use crate::pubkey::{
    found_program_address, lemma_pubkey_eq, lemma_spec_from_seq, program_address, seeds_view,
    try_find_program_address, Pubkey,
};
use crate::state::{DataBlob, Key, SolanaAccount};
use vstd::bytes::{
    lemma_auto_spec_u16_to_from_le_bytes, lemma_auto_spec_u64_to_from_le_bytes,
    spec_u16_from_le_bytes, spec_u16_to_le_bytes, spec_u64_from_le_bytes, spec_u64_to_le_bytes,
    u16_from_le_bytes, u16_to_le_bytes, u64_from_le_bytes, u64_to_le_bytes,
};
use vstd::prelude::*;
use vstd::slice::slice_subrange;
use vstd::string::StringSliceAdditionalSpecFns;

verus! {

/// The first seed of every pool address.
pub const PREFIX: &'static str = "floor_swap";

/// The record of one pool: the swap configuration and custody count kept for
/// one pair of authority and collection.
#[derive(Clone, Copy, Debug, PartialEq, Eq)]
pub struct Pool {
    /// The discriminator, `Key::Pool` in every stored record.
    pub key: Key,
    /// The collection whose assets the pool trades in.
    pub collection: Pubkey,
    /// Who may enable the pool, set its fee, withdraw from it and close it.
    pub authority: Pubkey,
    /// Who receives the fee of each swap.
    pub treasury: Pubkey,
    /// The fee of one swap, in lamports.
    pub fee_amount: u64,
    /// Whether swaps are open.
    pub enabled: bool,
    /// The number of assets deposited and not yet withdrawn.
    pub num_assets: u16,
}

/// What a derivation found, the address as its bytes.
pub open spec fn found_view(found: Option<(Pubkey, u8)>) -> Option<(Seq<u8>, u8)> {
    match found {
        Some((key, bump)) => Some((key@, bump)),
        None => None,
    }
}

/// The derivation is a function of its inputs: two results of `find_pda`
/// for the same authority and collection are the same address and the same
/// bump seed, or both none.
pub proof fn lemma_find_pda_is_a_function(
    first: Option<(Pubkey, u8)>,
    second: Option<(Pubkey, u8)>,
    authority: Pubkey,
    collection: Pubkey,
)
    requires
        found_view(first) == Pool::spec_find_pda(authority@, collection@),
        found_view(second) == Pool::spec_find_pda(authority@, collection@),
    ensures
        first == second,
{
    if let Some((a, _)) = first {
        if let Some((b, _)) = second {
            lemma_pubkey_eq(a, b);
        }
    }
}

/// A change that an operation makes to the record of a pool.
#[derive(Clone, Copy, Debug, PartialEq, Eq, Structural)]
pub enum Change {
    /// The pool is opened for swaps, or closed for them.
    SetActive { active: bool },
    /// The fee of a swap is set.
    SetFee { fee_amount: u64 },
    /// An asset is swapped: one in, one out, the record as it was.
    Swap,
    /// An asset is deposited.
    Deposit,
    /// An asset is withdrawn.
    Withdraw,
}

impl Pool {
    /// The size of a stored record: discriminator, three addresses, fee,
    /// flag and counter.
    pub const LEN: usize = 1 + 32 + 32 + 32 + 8 + 1 + 2;

    /// The seeds of the pool of `authority` for `collection`.
    pub open spec fn spec_seeds(authority: Seq<u8>, collection: Seq<u8>) -> Seq<Seq<u8>> {
        seq![PREFIX.spec_bytes(), authority, collection]
    }

    /// The seeds that sign for the pool: its seeds and the bump seed.
    pub open spec fn spec_signer_seeds(authority: Seq<u8>, collection: Seq<u8>, bump: u8) -> Seq<
        Seq<u8>,
    > {
        Pool::spec_seeds(authority, collection).push(seq![bump])
    }

    /// The address of the pool of `authority` for `collection`, with its
    /// bump seed, where the search for one ends on an address.
    pub open spec fn spec_find_pda(authority: Seq<u8>, collection: Seq<u8>) -> Option<
        (Seq<u8>, u8),
    > {
        found_program_address(Pool::spec_seeds(authority, collection), crate::id()@)
    }

    /// The seeds of the pool of `authority` for `collection`.
    pub fn seeds<'a>(authority: &'a Pubkey, collection: &'a Pubkey) -> (seeds: Vec<&'a [u8]>)
        ensures
            seeds_view(seeds@) == Pool::spec_seeds(authority@, collection@),
    {
        let seeds = vec![PREFIX.as_bytes(), authority.as_ref(), collection.as_ref()];
        assert(seeds_view(seeds@) =~= Pool::spec_seeds(authority@, collection@));
        seeds
    }

    /// Derives the address of the pool of `authority` for `collection`, and
    /// the bump seed that goes with it.
    ///
    /// The bump seed, appended to the pool's seeds, derives the same address
    /// directly: it is what lets the pool sign for itself.
    pub fn find_pda(authority: &Pubkey, collection: &Pubkey) -> (r: Option<(Pubkey, u8)>)
        ensures
            found_view(r) == Pool::spec_find_pda(authority@, collection@),
            r matches Some((key, bump)) ==> program_address(
                Pool::spec_signer_seeds(authority@, collection@, bump),
                crate::id()@,
            ) == Some(key@),
    {
        let seeds = Pool::seeds(authority, collection);
        try_find_program_address(seeds.as_slice(), &crate::id())
    }

    /// The record of a pool as it is created: closed for swaps, nothing in
    /// custody.
    pub open spec fn spec_new(
        authority: Pubkey,
        collection: Pubkey,
        treasury: Pubkey,
        fee_amount: u64,
    ) -> Pool {
        Pool {
            key: Key::Pool,
            collection,
            authority,
            treasury,
            fee_amount,
            enabled: false,
            num_assets: 0,
        }
    }

    /// The record after a deposit: one asset more in custody. A counter at
    /// its limit is not wrapped: the deposit fails with `NumericalOverflow`.
    pub open spec fn spec_count_deposit(self) -> Result<Pool, ProgramError> {
        if self.num_assets < u16::MAX {
            Ok(Pool { num_assets: (self.num_assets + 1) as u16, ..self })
        } else {
            Err(ProgramError::Custom(FloorSwapError::NumericalOverflow))
        }
    }

    /// The record after a withdrawal: one asset less in custody, and none
    /// where none was counted. Assets reach the pool by other ways than a
    /// deposit, so a withdrawal at zero is in order.
    pub open spec fn spec_count_withdrawal(self) -> Pool {
        if self.num_assets > 0 {
            Pool { num_assets: (self.num_assets - 1) as u16, ..self }
        } else {
            self
        }
    }

    /// The record after `change`, or why the change is refused.
    pub open spec fn spec_apply(self, change: Change) -> Result<Pool, ProgramError> {
        match change {
            Change::SetActive { active } => Ok(Pool { enabled: active, ..self }),
            Change::SetFee { fee_amount } => Ok(Pool { fee_amount, ..self }),
            Change::Swap => Ok(self),
            Change::Deposit => self.spec_count_deposit(),
            Change::Withdraw => Ok(self.spec_count_withdrawal()),
        }
    }

    /// The record after `changes` in turn, a change that is refused leaving
    /// it as it was.
    pub open spec fn spec_apply_all(self, changes: Seq<Change>) -> Pool
        decreases changes.len(),
    {
        if changes.len() == 0 {
            self
        } else {
            let before = self.spec_apply_all(changes.drop_last());
            match before.spec_apply(changes.last()) {
                Ok(after) => after,
                Err(_) => before,
            }
        }
    }

    /// The record of a pool as it is created.
    pub fn new(authority: Pubkey, collection: Pubkey, treasury: Pubkey, fee_amount: u64) -> (pool:
        Pool)
        ensures
            pool == Pool::spec_new(authority, collection, treasury, fee_amount),
    {
        Pool {
            key: Key::Pool,
            collection,
            authority,
            treasury,
            fee_amount,
            enabled: false,
            num_assets: 0,
        }
    }

    /// The record after a deposit.
    pub fn count_deposit(&self) -> (r: Result<Pool, ProgramError>)
        ensures
            r == self.spec_count_deposit(),
    {
        match self.num_assets.checked_add(1) {
            Some(num_assets) => Ok(
                Pool {
                    key: self.key,
                    collection: self.collection,
                    authority: self.authority,
                    treasury: self.treasury,
                    fee_amount: self.fee_amount,
                    enabled: self.enabled,
                    num_assets,
                },
            ),
            None => Err(ProgramError::Custom(FloorSwapError::NumericalOverflow)),
        }
    }

    /// The record after a withdrawal.
    pub fn count_withdrawal(&self) -> (pool: Pool)
        ensures
            pool == self.spec_count_withdrawal(),
    {
        let num_assets = match self.num_assets.checked_sub(1) {
            Some(n) => n,
            None => 0,
        };
        Pool {
            key: self.key,
            collection: self.collection,
            authority: self.authority,
            treasury: self.treasury,
            fee_amount: self.fee_amount,
            enabled: self.enabled,
            num_assets,
        }
    }

    /// Loads the pool record that opens the account's data.
    ///
    /// Fails with `DeserializationFailed` where the data is shorter than a
    /// record, does not open with the pool discriminator, or holds a flag
    /// byte that is neither 0 nor 1.
    pub fn load(account: &AccountInfo) -> (r: Result<Pool, ProgramError>)
        ensures
            match r {
                Ok(pool) => Pool::spec_deserialize(account.data@) == Some(pool),
                Err(e) => {
                    &&& e == ProgramError::Custom(FloorSwapError::DeserializationFailed)
                    &&& Pool::spec_deserialize(account.data@) is None
                },
            },
    {
        match Pool::deserialize(account.data.as_slice()) {
            Some(pool) => Ok(pool),
            None => Err(ProgramError::Custom(FloorSwapError::DeserializationFailed)),
        }
    }

    /// Saves the record at the head of the account's data, leaving what
    /// follows it as it is.
    ///
    /// Fails with `SerializationFailed`, the account untouched, where the
    /// data is shorter than a record.
    pub fn save(&self, account: &mut AccountInfo) -> (r: ProgramResult)
        ensures
            match r {
                Ok(()) => {
                    &&& old(account).data@.len() >= Pool::LEN
                    &&& final(account).data@ == self.spec_serialize() + old(account).data@.skip(
                        Pool::LEN as int,
                    )
                    &&& final(account).key == old(account).key
                    &&& final(account).owner == old(account).owner
                    &&& final(account).lamports == old(account).lamports
                    &&& final(account).is_signer == old(account).is_signer
                    &&& final(account).is_writable == old(account).is_writable
                },
                Err(e) => {
                    &&& e == ProgramError::Custom(FloorSwapError::SerializationFailed)
                    &&& old(account).data@.len() < Pool::LEN
                    &&& *final(account) == *old(account)
                },
            },
    {
        proof {
            lemma_serialize_len(*self);
        }
        let bytes = self.serialize();
        if account.data.len() < Pool::LEN {
            return Err(ProgramError::Custom(FloorSwapError::SerializationFailed));
        }
        account.write_data(0, bytes.as_slice());
        assert(account.data@ =~= self.spec_serialize() + old(account).data@.skip(
            Pool::LEN as int,
        ));
        Ok(())
    }
}

impl SolanaAccount for Pool {
    open spec fn spec_key() -> Key {
        Key::Pool
    }

    /// Discriminator, collection, authority, treasury, fee in little-endian,
    /// flag as 0 or 1, counter in little-endian.
    open spec fn spec_serialize(&self) -> Seq<u8> {
        seq![self.key.spec_to_u8()] + self.collection@ + self.authority@ + self.treasury@
            + spec_u64_to_le_bytes(self.fee_amount) + seq![if self.enabled { 1u8 } else { 0u8 }]
            + spec_u16_to_le_bytes(self.num_assets)
    }

    /// The record that the first `Pool::LEN` bytes are, where they open with
    /// the pool discriminator and hold a flag of 0 or 1.
    open spec fn spec_deserialize(bytes: Seq<u8>) -> Option<Pool> {
        if bytes.len() >= Pool::LEN && bytes[0] == 1 && bytes[105] <= 1 {
            Some(
                Pool {
                    key: Key::Pool,
                    collection: Pubkey::spec_from_seq(bytes.subrange(1, 33)),
                    authority: Pubkey::spec_from_seq(bytes.subrange(33, 65)),
                    treasury: Pubkey::spec_from_seq(bytes.subrange(65, 97)),
                    fee_amount: spec_u64_from_le_bytes(bytes.subrange(97, 105)),
                    enabled: bytes[105] == 1,
                    num_assets: spec_u16_from_le_bytes(bytes.subrange(106, 108)),
                },
            )
        } else {
            None
        }
    }

    fn key() -> (key: Key) {
        Key::Pool
    }

    fn serialize(&self) -> (bytes: Vec<u8>) {
        let mut bytes: Vec<u8> = Vec::new();
        bytes.push(self.key.to_u8());
        bytes.extend_from_slice(self.collection.as_ref());
        bytes.extend_from_slice(self.authority.as_ref());
        bytes.extend_from_slice(self.treasury.as_ref());
        let fee = u64_to_le_bytes(self.fee_amount);
        bytes.extend_from_slice(fee.as_slice());
        bytes.push(if self.enabled { 1 } else { 0 });
        let count = u16_to_le_bytes(self.num_assets);
        bytes.extend_from_slice(count.as_slice());
        assert(bytes@ =~= self.spec_serialize());
        bytes
    }

    fn deserialize(bytes: &[u8]) -> (record: Option<Pool>) {
        if bytes.len() < Pool::LEN {
            return None;
        }
        if bytes[0] != 1 || bytes[105] > 1 {
            return None;
        }
        let collection = Pubkey::from_slice(bytes, 1);
        let authority = Pubkey::from_slice(bytes, 33);
        let treasury = Pubkey::from_slice(bytes, 65);
        let fee_amount = u64_from_le_bytes(slice_subrange(bytes, 97, 105));
        let enabled = bytes[105] == 1;
        let num_assets = u16_from_le_bytes(slice_subrange(bytes, 106, 108));
        Some(Pool { key: Key::Pool, collection, authority, treasury, fee_amount, enabled, num_assets })
    }
}

impl DataBlob for Pool {
    open spec fn spec_bytes(&self) -> Seq<u8> {
        self.spec_serialize()
    }

    fn len(&self) -> (n: usize) {
        proof {
            lemma_serialize_len(*self);
        }
        Pool::LEN
    }
}

/// What a count of assets that starts at `count` comes to under `changes`,
/// reckoned in the integers: a deposit adds one unless the count stands at
/// the largest number the counter holds, a withdrawal takes one off unless
/// the count stands at zero, and nothing else moves it.
pub open spec fn counted(count: int, changes: Seq<Change>) -> int
    decreases changes.len(),
{
    if changes.len() == 0 {
        count
    } else {
        let before = counted(count, changes.drop_last());
        match changes.last() {
            Change::Deposit => if before < u16::MAX {
                before + 1
            } else {
                before
            },
            Change::Withdraw => if before > 0 {
                before - 1
            } else {
                0
            },
            _ => before,
        }
    }
}

/// The counter never wraps: after any sequence of changes it shows what the
/// count comes to in the integers, which never falls below zero and never
/// passes the largest number the counter holds. No change touches the
/// discriminator, the collection, the authority or the treasury.
pub proof fn lemma_counter_never_wraps(pool: Pool, changes: Seq<Change>)
    ensures
        pool.spec_apply_all(changes).num_assets == counted(pool.num_assets as int, changes),
        0 <= counted(pool.num_assets as int, changes) <= u16::MAX,
        pool.spec_apply_all(changes).key == pool.key,
        pool.spec_apply_all(changes).collection == pool.collection,
        pool.spec_apply_all(changes).authority == pool.authority,
        pool.spec_apply_all(changes).treasury == pool.treasury,
    decreases changes.len(),
{
    if changes.len() > 0 {
        lemma_counter_never_wraps(pool, changes.drop_last());
    }
}

/// A deposit is refused exactly at the counter's limit, and with
/// `NumericalOverflow`; a withdrawal is never refused.
pub proof fn lemma_deposit_refused_at_limit(pool: Pool)
    ensures
        pool.spec_apply(Change::Deposit) is Err <==> pool.num_assets == u16::MAX,
        pool.spec_apply(Change::Deposit) is Err ==> pool.spec_apply(Change::Deposit) == Err::<
            Pool,
            ProgramError,
        >(ProgramError::Custom(FloorSwapError::NumericalOverflow)),
        pool.spec_apply(Change::Withdraw) is Ok,
{
}

/// Every record is written as `Pool::LEN` bytes: 108 of them.
pub proof fn lemma_serialize_len(pool: Pool)
    ensures
        pool.spec_serialize().len() == Pool::LEN,
        Pool::LEN == 108,
{
    lemma_auto_spec_u64_to_from_le_bytes();
    lemma_auto_spec_u16_to_from_le_bytes();
}

/// Reading what was written gives the record back: a record with the pool
/// discriminator is read back, field for field, from the bytes it is written
/// as, whatever follows them.
pub proof fn lemma_deserialize_serialize(pool: Pool, rest: Seq<u8>)
    requires
        pool.key == Key::Pool,
    ensures
        Pool::spec_deserialize(pool.spec_serialize()) == Some(pool),
        Pool::spec_deserialize(pool.spec_serialize() + rest) == Some(pool),
{
    lemma_read_back(pool, rest);
    lemma_read_back(pool, Seq::empty());
    assert(pool.spec_serialize() + Seq::<u8>::empty() =~= pool.spec_serialize());
}

proof fn lemma_read_back(pool: Pool, rest: Seq<u8>)
    requires
        pool.key == Key::Pool,
    ensures
        Pool::spec_deserialize(pool.spec_serialize() + rest) == Some(pool),
{
    lemma_auto_spec_u64_to_from_le_bytes();
    lemma_auto_spec_u16_to_from_le_bytes();
    let all = pool.spec_serialize() + rest;
    assert(all.subrange(1, 33) =~= pool.collection@);
    assert(all.subrange(33, 65) =~= pool.authority@);
    assert(all.subrange(65, 97) =~= pool.treasury@);
    assert(all.subrange(97, 105) =~= spec_u64_to_le_bytes(pool.fee_amount));
    assert(all.subrange(106, 108) =~= spec_u16_to_le_bytes(pool.num_assets));
    lemma_spec_from_seq(pool.collection@);
    lemma_spec_from_seq(pool.authority@);
    lemma_spec_from_seq(pool.treasury@);
    let read = Pool::spec_deserialize(all).unwrap();
    lemma_pubkey_eq(read.collection, pool.collection);
    lemma_pubkey_eq(read.authority, pool.authority);
    lemma_pubkey_eq(read.treasury, pool.treasury);
}

/// Writing what was read gives the bytes back: where bytes open with a
/// record, the record is written as their first `Pool::LEN` bytes, so a
/// well-formed stored record of exactly that length is written as itself.
pub proof fn lemma_serialize_deserialize(bytes: Seq<u8>)
    requires
        Pool::spec_deserialize(bytes) is Some,
    ensures
        Pool::spec_deserialize(bytes).unwrap().spec_serialize() == bytes.subrange(
            0,
            Pool::LEN as int,
        ),
        bytes.len() == Pool::LEN ==> Pool::spec_deserialize(bytes).unwrap().spec_serialize()
            == bytes,
{
    lemma_auto_spec_u64_to_from_le_bytes();
    lemma_auto_spec_u16_to_from_le_bytes();
    let pool = Pool::spec_deserialize(bytes).unwrap();
    lemma_spec_from_seq(bytes.subrange(1, 33));
    lemma_spec_from_seq(bytes.subrange(33, 65));
    lemma_spec_from_seq(bytes.subrange(65, 97));
    assert(spec_u64_to_le_bytes(pool.fee_amount) == bytes.subrange(97, 105));
    assert(spec_u16_to_le_bytes(pool.num_assets) == bytes.subrange(106, 108));
    assert(pool.spec_serialize() =~= bytes.subrange(0, Pool::LEN as int));
    if bytes.len() == Pool::LEN {
        assert(bytes.subrange(0, Pool::LEN as int) =~= bytes);
    }
}

} // verus!
