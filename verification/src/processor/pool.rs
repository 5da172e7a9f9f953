use crate::account_info::AccountInfo;
use crate::assertions::{
    assert_asset_owner, assert_mpl_core_asset, assert_mpl_core_collection, assert_pda,
    assert_pool_active, assert_pool_empty, assert_program_owner, assert_same_pubkeys,
    assert_signer, assert_writable, spec_assert_mpl_core_asset, spec_assert_mpl_core_collection,
    spec_check_pda,
};
use crate::core_asset::parsed_asset;
use crate::error::{check, FloorSwapError, ProgramError, ProgramResult};
use crate::instruction::accounts::{
    CloseAccounts, CreateAccounts, DepositAccounts, SetActiveAccounts, SetFeeAccounts,
    SwapAccounts, WithdrawAccounts,
};
use crate::invocation::{Invocation, PoolSigner};
use crate::processor::{answer, first_failure, is_answer, passed, Outcome, Plan};
use crate::pubkey::Pubkey;
use crate::state::pool::{lemma_deserialize_serialize, Change, Pool};
use crate::state::{Key, SolanaAccount};
use crate::utils::pay_fee;
use vstd::prelude::*;

verus! {

/// Success where at least `n` accounts were passed.
pub open spec fn enough(accounts: Seq<AccountInfo>, n: int) -> ProgramResult {
    if accounts.len() >= n {
        Ok(())
    } else {
        Err(ProgramError::NotEnoughAccountKeys)
    }
}

/// The record that the first account holds, the pool's in every operation.
pub open spec fn stored(accounts: Seq<AccountInfo>) -> Option<Pool> {
    Pool::spec_deserialize(accounts[0].data@)
}

/// The bump seed of the pool of `authority` for `collection`.
pub open spec fn bump_of(authority: Pubkey, collection: Pubkey) -> u8 {
    Pool::spec_find_pda(authority@, collection@).unwrap().1
}

/// Success where `key` is the address of the pool of `authority` for
/// `collection`; `InvalidDerivedAddress` where it is not.
pub open spec fn derived(key: Pubkey, authority: Pubkey, collection: Pubkey) -> ProgramResult {
    passed(spec_check_pda(key@, Pool::spec_find_pda(authority@, collection@)))
}

/// Whether the second account, the authority in the operations that are
/// reserved to it, has signed and is the authority that the pool's record
/// names.
pub open spec fn authorized(accounts: Seq<AccountInfo>) -> bool {
    &&& accounts.len() >= 2
    &&& accounts[1].is_signer
    &&& stored(accounts) matches Some(record) && record.authority@ == accounts[1].key@
}

/// Whether every invocation of `plan` that is signed for the pool carries
/// seeds that derive `key`.
pub open spec fn signed_for(plan: Plan, key: Pubkey) -> bool {
    forall|i: int|
        0 <= i < plan.invocations.len() ==> ((#[trigger] plan.invocations[i]).spec_signer()
            matches Some(signer) ==> signer.signs_for(key))
}

/// The guards of `create`, in the order in which they are tried.
pub open spec fn create_guards(accounts: Seq<AccountInfo>) -> Seq<ProgramResult> {
    let pool = accounts[0];
    let collection = accounts[1];
    let authority = accounts[2];
    let payer = accounts[4];
    let system_program = accounts[5];
    seq![
        enough(accounts, 6),
        derived(pool.key, authority.key, collection.key),
        passed(spec_assert_mpl_core_collection(&collection)),
        check(authority.is_signer, FloorSwapError::ExpectedSignerAccount),
        check(payer.is_signer, FloorSwapError::ExpectedSignerAccount),
        check(payer.is_writable, FloorSwapError::ExpectedWritableAccount),
        check(
            system_program.key@ == crate::system_program::id()@,
            FloorSwapError::AccountMismatch,
        ),
    ]
}

/// What `create` asks for where its guards hold: nothing where the pool's
/// account holds data already; else the allocation of the account at the
/// pool's address, signed for by the pool, and a fresh record to save in it.
pub open spec fn create_plan(accounts: Seq<AccountInfo>, fee_amount: u64) -> Plan {
    let pool = accounts[0];
    let collection = accounts[1];
    let authority = accounts[2];
    let treasury = accounts[3];
    let payer = accounts[4];
    if pool.data@.len() != 0 {
        Plan { invocations: seq![], record: None }
    } else {
        Plan {
            invocations: seq![
                Invocation::CreateAccount {
                    account: pool.key,
                    payer: payer.key,
                    space: Pool::LEN as u64,
                    owner: crate::id(),
                    signer: PoolSigner {
                        authority: authority.key,
                        collection: collection.key,
                        bump: bump_of(authority.key, collection.key),
                    },
                },
            ],
            record: Some(Pool::spec_new(authority.key, collection.key, treasury.key, fee_amount)),
        }
    }
}

/// What `create` answers.
pub open spec fn spec_create(accounts: Seq<AccountInfo>, fee_amount: u64) -> Result<
    Plan,
    ProgramError,
> {
    answer(create_guards(accounts), create_plan(accounts, fee_amount))
}

/// Creates the pool of an authority for a collection, closed for swaps and
/// with nothing in custody.
///
/// Accounts: pool (writable), collection, authority (signer), treasury,
/// payer (writable, signer), system program.
///
/// On a pool that exists already the operation succeeds and asks for
/// nothing, whatever the fee: the record stays as it is.
pub fn create(accounts: &[AccountInfo], fee_amount: u64) -> (r: Result<Outcome, ProgramError>)
    ensures
        is_answer(r, spec_create(accounts@, fee_amount)),
        r matches Ok(outcome) ==> signed_for(outcome@, accounts@[0].key),
        r matches Ok(outcome) ==> accounts@[0].data@.len() != 0 ==> outcome@.invocations.len() == 0
            && outcome@.record is None,
{
    proof {
        reveal_with_fuel(first_failure, 10);
    }
    let ctx = CreateAccounts::context(accounts)?;

    let seeds = Pool::seeds(&ctx.accounts.authority.key, &ctx.accounts.collection.key);
    let bump = assert_pda("pool", ctx.accounts.pool, &crate::id(), seeds.as_slice())?;
    assert_mpl_core_collection("collection", ctx.accounts.collection)?;

    assert_signer("authority", ctx.accounts.authority)?;
    assert_signer("payer", ctx.accounts.payer)?;
    assert_writable("payer", ctx.accounts.payer)?;
    assert_same_pubkeys(
        "system_program",
        ctx.accounts.system_program,
        &crate::system_program::id(),
    )?;

    if !ctx.accounts.pool.data_is_empty() {
        return Ok(Outcome { invocations: Vec::new(), record: None });
    }
    let pool = Pool::new(
        ctx.accounts.authority.key,
        ctx.accounts.collection.key,
        ctx.accounts.treasury.key,
        fee_amount,
    );
    let signer = PoolSigner {
        authority: ctx.accounts.authority.key,
        collection: ctx.accounts.collection.key,
        bump,
    };
    let invocations = vec![
        Invocation::CreateAccount {
            account: ctx.accounts.pool.key,
            payer: ctx.accounts.payer.key,
            space: Pool::LEN as u64,
            owner: crate::id(),
            signer,
        },
    ];
    let outcome = Outcome { invocations, record: Some(pool) };
    proof {
        assert(outcome@.invocations =~= create_plan(accounts@, fee_amount).invocations);
        assert(signer.signs_for(accounts@[0].key));
    }
    Ok(outcome)
}

/// The guards of the operations that only the authority may perform on the
/// record: the authority signed, this program owns the pool's account, the
/// account holds a record, and the record names the authority.
pub open spec fn authority_guards(accounts: Seq<AccountInfo>) -> Seq<ProgramResult> {
    let pool = accounts[0];
    let authority = accounts[1];
    seq![
        enough(accounts, 2),
        check(authority.is_signer, FloorSwapError::ExpectedSignerAccount),
        check(pool.owner@ == crate::id()@, FloorSwapError::InvalidProgramOwner),
        check(stored(accounts) is Some, FloorSwapError::DeserializationFailed),
        check(
            authority.key@ == stored(accounts).unwrap().authority@,
            FloorSwapError::AccountMismatch,
        ),
    ]
}

/// What `set_active` answers: where the guards hold, the stored record with
/// its flag set to `active`, and nothing to invoke.
pub open spec fn spec_set_active(accounts: Seq<AccountInfo>, active: bool) -> Result<
    Plan,
    ProgramError,
> {
    answer(
        authority_guards(accounts),
        Plan {
            invocations: seq![],
            record: Some(Pool { enabled: active, ..stored(accounts).unwrap() }),
        },
    )
}

/// Opens the pool for swaps, or closes it for them.
///
/// Accounts: pool (writable), authority (signer).
pub fn set_active(accounts: &[AccountInfo], active: bool) -> (r: Result<Outcome, ProgramError>)
    ensures
        is_answer(r, spec_set_active(accounts@, active)),
        !authorized(accounts@) ==> r is Err,
{
    proof {
        reveal_with_fuel(first_failure, 8);
    }
    let ctx = SetActiveAccounts::context(accounts)?;

    assert_signer("authority", ctx.accounts.authority)?;
    assert_program_owner("pool", ctx.accounts.pool, &crate::id())?;
    let mut pool = Pool::load(ctx.accounts.pool)?;
    assert_same_pubkeys("authority", ctx.accounts.authority, &pool.authority)?;

    pool.enabled = active;
    Ok(Outcome { invocations: Vec::new(), record: Some(pool) })
}

/// What `set_fee` answers: where the guards hold, the stored record with
/// its fee set to `fee_amount`, and nothing to invoke.
pub open spec fn spec_set_fee(accounts: Seq<AccountInfo>, fee_amount: u64) -> Result<
    Plan,
    ProgramError,
> {
    answer(
        authority_guards(accounts),
        Plan { invocations: seq![], record: Some(Pool { fee_amount, ..stored(accounts).unwrap() }) },
    )
}

/// Sets the fee of a swap. Any amount is taken, zero too.
///
/// Accounts: pool (writable), authority (signer).
pub fn set_fee(accounts: &[AccountInfo], fee_amount: u64) -> (r: Result<Outcome, ProgramError>)
    ensures
        is_answer(r, spec_set_fee(accounts@, fee_amount)),
        !authorized(accounts@) ==> r is Err,
{
    proof {
        reveal_with_fuel(first_failure, 8);
    }
    let ctx = SetFeeAccounts::context(accounts)?;

    assert_signer("authority", ctx.accounts.authority)?;
    assert_program_owner("pool", ctx.accounts.pool, &crate::id())?;
    let mut pool = Pool::load(ctx.accounts.pool)?;
    assert_same_pubkeys("authority", ctx.accounts.authority, &pool.authority)?;

    pool.fee_amount = fee_amount;
    Ok(Outcome { invocations: Vec::new(), record: Some(pool) })
}

/// The guards of `swap`, in the order in which they are tried.
pub open spec fn swap_guards(accounts: Seq<AccountInfo>) -> Seq<ProgramResult> {
    let pool = accounts[0];
    let source_asset = accounts[1];
    let dest_asset = accounts[2];
    let payer = accounts[3];
    let treasury = accounts[4];
    let collection = accounts[5];
    let core_program = accounts[6];
    let system_program = accounts[7];
    let record = stored(accounts).unwrap();
    seq![
        enough(accounts, 8),
        passed(spec_assert_mpl_core_collection(&collection)),
        check(core_program.key@ == crate::core_asset::id()@, FloorSwapError::AccountMismatch),
        check(stored(accounts) is Some, FloorSwapError::DeserializationFailed),
        check(record.enabled, FloorSwapError::PoolInactive),
        passed(spec_assert_mpl_core_asset(&source_asset, record.collection)),
        check(
            parsed_asset(source_asset.data@).unwrap().owner@ == payer.key@,
            FloorSwapError::InvalidItemOwner,
        ),
        passed(spec_assert_mpl_core_asset(&dest_asset, record.collection)),
        check(
            parsed_asset(dest_asset.data@).unwrap().owner@ == pool.key@,
            FloorSwapError::InvalidItemOwner,
        ),
        check(payer.is_signer, FloorSwapError::ExpectedSignerAccount),
        check(payer.is_writable, FloorSwapError::ExpectedWritableAccount),
        check(source_asset.is_writable, FloorSwapError::ExpectedWritableAccount),
        check(dest_asset.is_writable, FloorSwapError::ExpectedWritableAccount),
        check(collection.key@ == record.collection@, FloorSwapError::AccountMismatch),
        check(treasury.key@ == record.treasury@, FloorSwapError::AccountMismatch),
        check(
            system_program.key@ == crate::system_program::id()@,
            FloorSwapError::AccountMismatch,
        ),
        derived(pool.key, record.authority, record.collection),
    ]
}

/// What `swap` asks for where its guards hold: the fee from the payer to
/// the treasury; then the payer's asset to the pool, on the payer's word;
/// then the pool's asset to the payer, on the pool's word. What comes in
/// goes before what goes out. The record is not touched.
pub open spec fn swap_plan(accounts: Seq<AccountInfo>) -> Plan {
    let pool = accounts[0];
    let source_asset = accounts[1];
    let dest_asset = accounts[2];
    let payer = accounts[3];
    let treasury = accounts[4];
    let collection = accounts[5];
    let record = stored(accounts).unwrap();
    Plan {
        invocations: seq![
            Invocation::TransferLamports {
                from: payer.key,
                to: treasury.key,
                lamports: record.fee_amount,
                signer: None,
            },
            Invocation::TransferAsset {
                asset: source_asset.key,
                new_owner: pool.key,
                collection: collection.key,
                payer: payer.key,
                authority: payer.key,
                signer: None,
            },
            Invocation::TransferAsset {
                asset: dest_asset.key,
                new_owner: payer.key,
                collection: collection.key,
                payer: payer.key,
                authority: pool.key,
                signer: Some(
                    PoolSigner {
                        authority: record.authority,
                        collection: record.collection,
                        bump: bump_of(record.authority, record.collection),
                    },
                ),
            },
        ],
        record: None,
    }
}

/// What `swap` answers.
pub open spec fn spec_swap(accounts: Seq<AccountInfo>) -> Result<Plan, ProgramError> {
    answer(swap_guards(accounts), swap_plan(accounts))
}

/// Exchanges an asset of the payer for one that the pool holds, for the
/// pool's fee.
///
/// Accounts: pool, source asset (writable), destination asset (writable),
/// payer (writable, signer), treasury (writable), collection, asset
/// program, system program.
pub fn swap(accounts: &[AccountInfo]) -> (r: Result<Outcome, ProgramError>)
    ensures
        is_answer(r, spec_swap(accounts@)),
        r matches Ok(outcome) ==> signed_for(outcome@, accounts@[0].key),
{
    proof {
        reveal_with_fuel(first_failure, 20);
    }
    let ctx = SwapAccounts::context(accounts)?;

    assert_mpl_core_collection("collection", ctx.accounts.collection)?;
    assert_same_pubkeys("core_program", ctx.accounts.core_program, &crate::core_asset::id())?;
    let pool = Pool::load(ctx.accounts.pool)?;

    assert_pool_active(&pool, ctx.accounts.pool)?;

    let source_asset = assert_mpl_core_asset(
        "source_asset",
        ctx.accounts.source_asset,
        &pool.collection,
    )?;
    assert_asset_owner("source_asset", source_asset, &ctx.accounts.payer.key)?;
    let dest_asset = assert_mpl_core_asset("dest_asset", ctx.accounts.dest_asset, &pool.collection)?;
    assert_asset_owner("dest_asset", dest_asset, &ctx.accounts.pool.key)?;

    assert_signer("payer", ctx.accounts.payer)?;

    assert_writable("payer", ctx.accounts.payer)?;
    assert_writable("source_asset", ctx.accounts.source_asset)?;
    assert_writable("dest_asset", ctx.accounts.dest_asset)?;

    assert_same_pubkeys("collection", ctx.accounts.collection, &pool.collection)?;
    assert_same_pubkeys("treasury", ctx.accounts.treasury, &pool.treasury)?;

    assert_same_pubkeys(
        "system_program",
        ctx.accounts.system_program,
        &crate::system_program::id(),
    )?;

    let seeds = Pool::seeds(&pool.authority, &pool.collection);
    let bump = assert_pda("pool", ctx.accounts.pool, &crate::id(), seeds.as_slice())?;
    let signer = PoolSigner { authority: pool.authority, collection: pool.collection, bump };

    let invocations = vec![
        pay_fee(ctx.accounts.payer, ctx.accounts.treasury, pool.fee_amount),
        Invocation::TransferAsset {
            asset: ctx.accounts.source_asset.key,
            new_owner: ctx.accounts.pool.key,
            collection: ctx.accounts.collection.key,
            payer: ctx.accounts.payer.key,
            authority: ctx.accounts.payer.key,
            signer: None,
        },
        Invocation::TransferAsset {
            asset: ctx.accounts.dest_asset.key,
            new_owner: ctx.accounts.payer.key,
            collection: ctx.accounts.collection.key,
            payer: ctx.accounts.payer.key,
            authority: ctx.accounts.pool.key,
            signer: Some(signer),
        },
    ];
    let outcome = Outcome { invocations, record: None };
    proof {
        assert(outcome@.invocations =~= swap_plan(accounts@).invocations);
        assert(signer.signs_for(accounts@[0].key));
    }
    Ok(outcome)
}

/// The guards of `deposit`, in the order in which they are tried.
pub open spec fn deposit_guards(accounts: Seq<AccountInfo>) -> Seq<ProgramResult> {
    let asset = accounts[1];
    let collection = accounts[2];
    let payer = accounts[3];
    let core_program = accounts[4];
    let record = stored(accounts).unwrap();
    seq![
        enough(accounts, 5),
        check(core_program.key@ == crate::core_asset::id()@, FloorSwapError::AccountMismatch),
        check(asset.is_writable, FloorSwapError::ExpectedWritableAccount),
        check(payer.is_writable, FloorSwapError::ExpectedWritableAccount),
        check(payer.is_signer, FloorSwapError::ExpectedSignerAccount),
        check(stored(accounts) is Some, FloorSwapError::DeserializationFailed),
        passed(spec_assert_mpl_core_collection(&collection)),
        check(collection.key@ == record.collection@, FloorSwapError::AccountMismatch),
        passed(spec_assert_mpl_core_asset(&asset, record.collection)),
        passed(record.spec_count_deposit()),
    ]
}

/// What `deposit` asks for where its guards hold: the asset to the pool, on
/// the depositor's word, and the record with one asset more.
pub open spec fn deposit_plan(accounts: Seq<AccountInfo>) -> Plan {
    let pool = accounts[0];
    let asset = accounts[1];
    let collection = accounts[2];
    let payer = accounts[3];
    let record = stored(accounts).unwrap();
    Plan {
        invocations: seq![
            Invocation::TransferAsset {
                asset: asset.key,
                new_owner: pool.key,
                collection: collection.key,
                payer: payer.key,
                authority: payer.key,
                signer: None,
            },
        ],
        record: match record.spec_count_deposit() {
            Ok(counted) => Some(counted),
            Err(_) => None,
        },
    }
}

/// What `deposit` answers.
pub open spec fn spec_deposit(accounts: Seq<AccountInfo>) -> Result<Plan, ProgramError> {
    answer(deposit_guards(accounts), deposit_plan(accounts))
}

/// Gives an asset into the pool's custody and counts it.
///
/// Accounts: pool (writable), asset (writable), collection, payer
/// (writable, signer), asset program.
///
/// A counter at its limit fails the deposit with `NumericalOverflow`; it is
/// never wrapped.
pub fn deposit(accounts: &[AccountInfo]) -> (r: Result<Outcome, ProgramError>)
    ensures
        is_answer(r, spec_deposit(accounts@)),
        r matches Ok(outcome) ==> signed_for(outcome@, accounts@[0].key),
        r matches Ok(outcome) ==> outcome.record matches Some(counted) && counted.num_assets
            == stored(accounts@).unwrap().num_assets + 1,
{
    proof {
        reveal_with_fuel(first_failure, 12);
    }
    let ctx = DepositAccounts::context(accounts)?;

    assert_same_pubkeys("core_program", ctx.accounts.core_program, &crate::core_asset::id())?;
    assert_writable("asset", ctx.accounts.asset)?;
    assert_writable("payer", ctx.accounts.payer)?;
    assert_signer("payer", ctx.accounts.payer)?;

    let pool = Pool::load(ctx.accounts.pool)?;
    assert_mpl_core_collection("collection", ctx.accounts.collection)?;
    assert_same_pubkeys("collection", ctx.accounts.collection, &pool.collection)?;
    assert_mpl_core_asset("asset", ctx.accounts.asset, &pool.collection)?;
    let counted = pool.count_deposit()?;

    let invocations = vec![
        Invocation::TransferAsset {
            asset: ctx.accounts.asset.key,
            new_owner: ctx.accounts.pool.key,
            collection: ctx.accounts.collection.key,
            payer: ctx.accounts.payer.key,
            authority: ctx.accounts.payer.key,
            signer: None,
        },
    ];
    let outcome = Outcome { invocations, record: Some(counted) };
    proof {
        assert(outcome@.invocations =~= deposit_plan(accounts@).invocations);
    }
    Ok(outcome)
}

/// The guards of `withdraw`, in the order in which they are tried.
pub open spec fn withdraw_guards(accounts: Seq<AccountInfo>) -> Seq<ProgramResult> {
    let pool = accounts[0];
    let authority = accounts[1];
    let asset = accounts[2];
    let collection = accounts[3];
    let core_program = accounts[5];
    let record = stored(accounts).unwrap();
    seq![
        enough(accounts, 6),
        check(stored(accounts) is Some, FloorSwapError::DeserializationFailed),
        passed(spec_assert_mpl_core_asset(&asset, record.collection)),
        passed(spec_assert_mpl_core_collection(&collection)),
        check(
            parsed_asset(asset.data@).unwrap().owner@ == pool.key@,
            FloorSwapError::InvalidItemOwner,
        ),
        check(core_program.key@ == crate::core_asset::id()@, FloorSwapError::AccountMismatch),
        check(collection.key@ == record.collection@, FloorSwapError::AccountMismatch),
        check(authority.key@ == record.authority@, FloorSwapError::AccountMismatch),
        check(asset.is_writable, FloorSwapError::ExpectedWritableAccount),
        check(authority.is_signer, FloorSwapError::ExpectedSignerAccount),
        derived(pool.key, authority.key, collection.key),
    ]
}

/// Who receives a withdrawn asset: the fifth account, and the authority
/// where this program's own address stands in its place.
pub open spec fn withdraw_destination(accounts: Seq<AccountInfo>) -> Pubkey {
    if accounts[4].key@ == crate::id()@ {
        accounts[1].key
    } else {
        accounts[4].key
    }
}

/// What `withdraw` asks for where its guards hold: the asset to the
/// destination, on the pool's word, and the record with one asset less,
/// and none where none was counted.
pub open spec fn withdraw_plan(accounts: Seq<AccountInfo>) -> Plan {
    let pool = accounts[0];
    let authority = accounts[1];
    let asset = accounts[2];
    let collection = accounts[3];
    let record = stored(accounts).unwrap();
    Plan {
        invocations: seq![
            Invocation::TransferAsset {
                asset: asset.key,
                new_owner: withdraw_destination(accounts),
                collection: collection.key,
                payer: authority.key,
                authority: pool.key,
                signer: Some(
                    PoolSigner {
                        authority: authority.key,
                        collection: collection.key,
                        bump: bump_of(authority.key, collection.key),
                    },
                ),
            },
        ],
        record: Some(record.spec_count_withdrawal()),
    }
}

/// What `withdraw` answers.
pub open spec fn spec_withdraw(accounts: Seq<AccountInfo>) -> Result<Plan, ProgramError> {
    answer(withdraw_guards(accounts), withdraw_plan(accounts))
}

/// Takes an asset out of the pool's custody, to the destination or, where
/// none is given, to the authority, and counts it out.
///
/// Accounts: pool (writable), authority (signer), asset (writable),
/// collection, destination (optional), asset program.
pub fn withdraw(accounts: &[AccountInfo]) -> (r: Result<Outcome, ProgramError>)
    ensures
        is_answer(r, spec_withdraw(accounts@)),
        !authorized(accounts@) ==> r is Err,
        r matches Ok(outcome) ==> signed_for(outcome@, accounts@[0].key),
{
    proof {
        reveal_with_fuel(first_failure, 14);
    }
    let ctx = WithdrawAccounts::context(accounts)?;

    let pool = Pool::load(ctx.accounts.pool)?;

    let asset = assert_mpl_core_asset("asset", ctx.accounts.asset, &pool.collection)?;
    assert_mpl_core_collection("collection", ctx.accounts.collection)?;
    assert_asset_owner("asset", asset, &ctx.accounts.pool.key)?;

    assert_same_pubkeys("core_program", ctx.accounts.core_program, &crate::core_asset::id())?;
    assert_same_pubkeys("collection", ctx.accounts.collection, &pool.collection)?;
    assert_same_pubkeys("authority", ctx.accounts.authority, &pool.authority)?;

    assert_writable("asset", ctx.accounts.asset)?;
    assert_signer("authority", ctx.accounts.authority)?;

    let seeds = Pool::seeds(&ctx.accounts.authority.key, &ctx.accounts.collection.key);
    let bump = assert_pda("pool", ctx.accounts.pool, &crate::id(), seeds.as_slice())?;
    let signer = PoolSigner {
        authority: ctx.accounts.authority.key,
        collection: ctx.accounts.collection.key,
        bump,
    };

    let destination = match ctx.accounts.destination {
        Some(account) => account.key,
        None => ctx.accounts.authority.key,
    };

    let invocations = vec![
        Invocation::TransferAsset {
            asset: ctx.accounts.asset.key,
            new_owner: destination,
            collection: ctx.accounts.collection.key,
            payer: ctx.accounts.authority.key,
            authority: ctx.accounts.pool.key,
            signer: Some(signer),
        },
    ];
    let outcome = Outcome { invocations, record: Some(pool.count_withdrawal()) };
    proof {
        assert(outcome@.invocations =~= withdraw_plan(accounts@).invocations);
        assert(signer.signs_for(accounts@[0].key));
    }
    Ok(outcome)
}

/// The guards of `close`, in the order in which they are tried.
pub open spec fn close_guards(accounts: Seq<AccountInfo>) -> Seq<ProgramResult> {
    let pool = accounts[0];
    let authority = accounts[1];
    let record = stored(accounts).unwrap();
    seq![
        enough(accounts, 3),
        check(pool.owner@ == crate::id()@, FloorSwapError::InvalidProgramOwner),
        check(stored(accounts) is Some, FloorSwapError::DeserializationFailed),
        check(record.num_assets == 0, FloorSwapError::PoolNotEmpty),
        check(authority.key@ == record.authority@, FloorSwapError::AccountMismatch),
        check(authority.is_signer, FloorSwapError::ExpectedSignerAccount),
    ]
}

/// What `close` answers: where the guards hold, the erasure of the pool's
/// account, its lamports going to the authority.
pub open spec fn spec_close(accounts: Seq<AccountInfo>) -> Result<Plan, ProgramError> {
    answer(
        close_guards(accounts),
        Plan {
            invocations: seq![
                Invocation::CloseAccount { account: accounts[0].key, destination: accounts[1].key },
            ],
            record: None,
        },
    )
}

/// Closes a pool that counts nothing in custody and returns the lamports of
/// its account to the authority.
///
/// Accounts: pool (writable), authority (signer), system program.
pub fn close(accounts: &[AccountInfo]) -> (r: Result<Outcome, ProgramError>)
    ensures
        is_answer(r, spec_close(accounts@)),
        !authorized(accounts@) ==> r is Err,
{
    proof {
        reveal_with_fuel(first_failure, 8);
    }
    let ctx = CloseAccounts::context(accounts)?;
    assert_program_owner("pool", ctx.accounts.pool, &crate::id())?;
    let pool = Pool::load(ctx.accounts.pool)?;

    assert_pool_empty(&pool, ctx.accounts.pool)?;

    assert_same_pubkeys("authority", ctx.accounts.authority, &pool.authority)?;
    assert_signer("authority", ctx.accounts.authority)?;

    let invocations = vec![
        Invocation::CloseAccount {
            account: ctx.accounts.pool.key,
            destination: ctx.accounts.authority.key,
        },
    ];
    let outcome = Outcome { invocations, record: None };
    proof {
        assert(outcome@.invocations =~= spec_close(accounts@)->Ok_0.invocations);
    }
    Ok(outcome)
}

/// Creating twice is creating once. Where a first `create` on an empty
/// account succeeds and its record is saved there, a second `create` on the
/// same accounts succeeds and asks for nothing, whatever fee it names: the
/// account still holds the record of the first.
pub proof fn lemma_create_twice(
    accounts: Seq<AccountInfo>,
    again: Seq<AccountInfo>,
    first_fee: u64,
    second_fee: u64,
)
    requires
        accounts[0].data@.len() == 0,
        spec_create(accounts, first_fee) is Ok,
        again.len() == accounts.len(),
        again[0].key == accounts[0].key,
        forall|i: int| 1 <= i < accounts.len() ==> again[i] == accounts[i],
        again[0].data@ == spec_create(accounts, first_fee)->Ok_0.record->0.spec_serialize(),
    ensures
        spec_create(again, second_fee) == Ok::<Plan, ProgramError>(
            Plan { invocations: seq![], record: None },
        ),
        stored(again) == Some(
            Pool::spec_new(accounts[2].key, accounts[1].key, accounts[3].key, first_fee),
        ),
{
    reveal_with_fuel(first_failure, 10);
    let record = Pool::spec_new(accounts[2].key, accounts[1].key, accounts[3].key, first_fee);
    lemma_deserialize_serialize(record, Seq::empty());
    crate::state::pool::lemma_serialize_len(record);
}

/// Only the authority changes, empties or closes its pool: `set_active`,
/// `set_fee`, `withdraw` and `close` fail unless the authority's account
/// has signed and is the authority that the stored record names, whatever
/// else holds of the accounts.
pub proof fn lemma_authority_only(accounts: Seq<AccountInfo>, active: bool, fee_amount: u64)
    requires
        !authorized(accounts),
    ensures
        spec_set_active(accounts, active) is Err,
        spec_set_fee(accounts, fee_amount) is Err,
        spec_withdraw(accounts) is Err,
        spec_close(accounts) is Err,
{
    reveal_with_fuel(first_failure, 14);
}

/// What the operations do to the record is one change each: where an
/// operation succeeds, the record that it asks to save is the stored one
/// after its change, and a swap and a closure ask to save none.
pub proof fn lemma_operations_change_the_record(
    accounts: Seq<AccountInfo>,
    active: bool,
    fee_amount: u64,
)
    ensures
        spec_set_active(accounts, active) matches Ok(plan) ==> plan.record == Some(
            stored(accounts).unwrap().spec_apply(Change::SetActive { active })->Ok_0,
        ),
        spec_set_fee(accounts, fee_amount) matches Ok(plan) ==> plan.record == Some(
            stored(accounts).unwrap().spec_apply(Change::SetFee { fee_amount })->Ok_0,
        ),
        spec_deposit(accounts) matches Ok(plan) ==> stored(accounts).unwrap().spec_apply(
            Change::Deposit,
        ) is Ok && plan.record == Some(
            stored(accounts).unwrap().spec_apply(Change::Deposit)->Ok_0,
        ),
        spec_withdraw(accounts) matches Ok(plan) ==> plan.record == Some(
            stored(accounts).unwrap().spec_apply(Change::Withdraw)->Ok_0,
        ),
        spec_swap(accounts) matches Ok(plan) ==> plan.record is None,
        spec_close(accounts) matches Ok(plan) ==> plan.record is None,
{
    reveal_with_fuel(first_failure, 20);
}

/// A record stays a pool record: every record that an operation asks to
/// save carries the pool discriminator, so that it is loaded back as it was
/// saved, and names the collection, the authority and the treasury that the
/// stored record named.
pub proof fn lemma_saved_records_are_pool_records(
    accounts: Seq<AccountInfo>,
    active: bool,
    fee_amount: u64,
)
    ensures
        spec_create(accounts, fee_amount) matches Ok(plan) ==> (plan.record matches Some(record)
            ==> record.key == Key::Pool),
        spec_set_active(accounts, active) matches Ok(plan) ==> kept(accounts, plan),
        spec_set_fee(accounts, fee_amount) matches Ok(plan) ==> kept(accounts, plan),
        spec_deposit(accounts) matches Ok(plan) ==> kept(accounts, plan),
        spec_withdraw(accounts) matches Ok(plan) ==> kept(accounts, plan),
{
    reveal_with_fuel(first_failure, 14);
}

/// Whether the record of `plan` is a pool record for the collection, the
/// authority and the treasury of the stored one.
pub open spec fn kept(accounts: Seq<AccountInfo>, plan: Plan) -> bool {
    &&& stored(accounts) matches Some(before)
    &&& plan.record matches Some(after)
    &&& after.key == Key::Pool
    &&& after.collection == before.collection
    &&& after.authority == before.authority
    &&& after.treasury == before.treasury
}

/// Custody moves only at the pool's own address, and a swap only while the
/// pool is open: `create`, `swap` and `withdraw` succeed only on a pool
/// account that lies at the address derived from the authority and the
/// collection, those passed for `create` and `withdraw`, those of the
/// stored record for `swap`; and `swap` succeeds only where the stored
/// record is enabled.
pub proof fn lemma_custody_at_the_derived_address(accounts: Seq<AccountInfo>, fee_amount: u64)
    ensures
        spec_create(accounts, fee_amount) is Ok ==> derived(
            accounts[0].key,
            accounts[2].key,
            accounts[1].key,
        ) is Ok,
        spec_swap(accounts) is Ok ==> (stored(accounts) matches Some(record) && record.enabled
            && derived(accounts[0].key, record.authority, record.collection) is Ok),
        spec_withdraw(accounts) is Ok ==> derived(
            accounts[0].key,
            accounts[1].key,
            accounts[3].key,
        ) is Ok,
{
    reveal_with_fuel(first_failure, 20);
}

/// The address check accepts the derived address and no other: `key`
/// passes for the pool of `authority` for `collection` exactly where the
/// derivation for them ends on `key`. So an address derived for another
/// authority is refused, with `InvalidDerivedAddress`, unless the two
/// derivations end on the same address.
pub proof fn lemma_only_the_derived_address_passes(
    key: Pubkey,
    authority: Pubkey,
    collection: Pubkey,
    other: Pubkey,
)
    ensures
        derived(key, authority, collection) is Ok <==> (Pool::spec_find_pda(
            authority@,
            collection@,
        ) matches Some((address, _)) && address == key@),
        derived(key, authority, collection) is Err ==> derived(key, authority, collection) == Err::<
            (),
            ProgramError,
        >(ProgramError::Custom(FloorSwapError::InvalidDerivedAddress)),
        (Pool::spec_find_pda(other@, collection@) matches Some((address, _)) && address == key@
            && !(Pool::spec_find_pda(authority@, collection@) matches Some((own, _)) && own
            == key@)) ==> derived(key, authority, collection) is Err,
{
}

} // verus!
