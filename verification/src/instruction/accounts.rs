use crate::account_info::AccountInfo;
use crate::error::ProgramError;
use vstd::prelude::*;
use vstd::slice::slice_subrange;

verus! {

/// The accounts of an instruction, each under the name of its role, and
/// the accounts that were passed beyond them.
pub struct Context<'a, T> {
    pub accounts: T,
    pub remaining_accounts: &'a [AccountInfo],
}

/// The accounts of creating a pool, in the order in which they are passed.
pub struct CreateAccounts<'a> {
    /// The program derived address of the pool to create; writable.
    pub pool: &'a AccountInfo,
    /// The collection that the pool trades in.
    pub collection: &'a AccountInfo,
    /// The authority of the pool; signer.
    pub authority: &'a AccountInfo,
    /// The treasury where fees are sent.
    pub treasury: &'a AccountInfo,
    /// The account paying for the storage; writable, signer.
    pub payer: &'a AccountInfo,
    /// The system program.
    pub system_program: &'a AccountInfo,
}

impl<'a> CreateAccounts<'a> {
    /// Number of accounts that the instruction names.
    pub const LEN: usize = 6;

    /// Names the first 6 of `accounts` by their roles.
    ///
    /// Fails with `NotEnoughAccountKeys` where fewer were passed.
    pub fn context(accounts: &'a [AccountInfo]) -> (r: Result<Context<'a, CreateAccounts<'a>>, ProgramError>)
        ensures
            match r {
                Ok(ctx) => {
                    &&& accounts@.len() >= 6
                    &&& *ctx.accounts.pool == accounts@[0]
                    &&& *ctx.accounts.collection == accounts@[1]
                    &&& *ctx.accounts.authority == accounts@[2]
                    &&& *ctx.accounts.treasury == accounts@[3]
                    &&& *ctx.accounts.payer == accounts@[4]
                    &&& *ctx.accounts.system_program == accounts@[5]
                    &&& ctx.remaining_accounts@ == accounts@.skip(6)
                },
                Err(e) => e == ProgramError::NotEnoughAccountKeys && accounts@.len() < 6,
            },
    {
        if accounts.len() < 6 {
            return Err(ProgramError::NotEnoughAccountKeys);
        }
        let remaining_accounts = slice_subrange(accounts, 6, accounts.len());
        Ok(
            Context {
                accounts: CreateAccounts {
                    pool: &accounts[0],
                    collection: &accounts[1],
                    authority: &accounts[2],
                    treasury: &accounts[3],
                    payer: &accounts[4],
                    system_program: &accounts[5],
                },
                remaining_accounts,
            },
        )
    }
}

/// The accounts of opening or closing a pool for swaps, in the order in which they are passed.
pub struct SetActiveAccounts<'a> {
    /// The pool; writable.
    pub pool: &'a AccountInfo,
    /// The authority of the pool; signer.
    pub authority: &'a AccountInfo,
}

impl<'a> SetActiveAccounts<'a> {
    /// Number of accounts that the instruction names.
    pub const LEN: usize = 2;

    /// Names the first 2 of `accounts` by their roles.
    ///
    /// Fails with `NotEnoughAccountKeys` where fewer were passed.
    pub fn context(accounts: &'a [AccountInfo]) -> (r: Result<Context<'a, SetActiveAccounts<'a>>, ProgramError>)
        ensures
            match r {
                Ok(ctx) => {
                    &&& accounts@.len() >= 2
                    &&& *ctx.accounts.pool == accounts@[0]
                    &&& *ctx.accounts.authority == accounts@[1]
                    &&& ctx.remaining_accounts@ == accounts@.skip(2)
                },
                Err(e) => e == ProgramError::NotEnoughAccountKeys && accounts@.len() < 2,
            },
    {
        if accounts.len() < 2 {
            return Err(ProgramError::NotEnoughAccountKeys);
        }
        let remaining_accounts = slice_subrange(accounts, 2, accounts.len());
        Ok(
            Context {
                accounts: SetActiveAccounts {
                    pool: &accounts[0],
                    authority: &accounts[1],
                },
                remaining_accounts,
            },
        )
    }
}

/// The accounts of setting the fee of a pool, in the order in which they are passed.
pub struct SetFeeAccounts<'a> {
    /// The pool; writable.
    pub pool: &'a AccountInfo,
    /// The authority of the pool; signer.
    pub authority: &'a AccountInfo,
}

impl<'a> SetFeeAccounts<'a> {
    /// Number of accounts that the instruction names.
    pub const LEN: usize = 2;

    /// Names the first 2 of `accounts` by their roles.
    ///
    /// Fails with `NotEnoughAccountKeys` where fewer were passed.
    pub fn context(accounts: &'a [AccountInfo]) -> (r: Result<Context<'a, SetFeeAccounts<'a>>, ProgramError>)
        ensures
            match r {
                Ok(ctx) => {
                    &&& accounts@.len() >= 2
                    &&& *ctx.accounts.pool == accounts@[0]
                    &&& *ctx.accounts.authority == accounts@[1]
                    &&& ctx.remaining_accounts@ == accounts@.skip(2)
                },
                Err(e) => e == ProgramError::NotEnoughAccountKeys && accounts@.len() < 2,
            },
    {
        if accounts.len() < 2 {
            return Err(ProgramError::NotEnoughAccountKeys);
        }
        let remaining_accounts = slice_subrange(accounts, 2, accounts.len());
        Ok(
            Context {
                accounts: SetFeeAccounts {
                    pool: &accounts[0],
                    authority: &accounts[1],
                },
                remaining_accounts,
            },
        )
    }
}

/// The accounts of a swap, in the order in which they are passed.
pub struct SwapAccounts<'a> {
    /// The pool.
    pub pool: &'a AccountInfo,
    /// The asset that the payer gives; writable.
    pub source_asset: &'a AccountInfo,
    /// The asset that the payer receives; writable.
    pub dest_asset: &'a AccountInfo,
    /// The user performing the swap; writable, signer.
    pub payer: &'a AccountInfo,
    /// The treasury where fees are sent; writable.
    pub treasury: &'a AccountInfo,
    /// The collection of the pool.
    pub collection: &'a AccountInfo,
    /// The asset program.
    pub core_program: &'a AccountInfo,
    /// The system program.
    pub system_program: &'a AccountInfo,
}

impl<'a> SwapAccounts<'a> {
    /// Number of accounts that the instruction names.
    pub const LEN: usize = 8;

    /// Names the first 8 of `accounts` by their roles.
    ///
    /// Fails with `NotEnoughAccountKeys` where fewer were passed.
    pub fn context(accounts: &'a [AccountInfo]) -> (r: Result<Context<'a, SwapAccounts<'a>>, ProgramError>)
        ensures
            match r {
                Ok(ctx) => {
                    &&& accounts@.len() >= 8
                    &&& *ctx.accounts.pool == accounts@[0]
                    &&& *ctx.accounts.source_asset == accounts@[1]
                    &&& *ctx.accounts.dest_asset == accounts@[2]
                    &&& *ctx.accounts.payer == accounts@[3]
                    &&& *ctx.accounts.treasury == accounts@[4]
                    &&& *ctx.accounts.collection == accounts@[5]
                    &&& *ctx.accounts.core_program == accounts@[6]
                    &&& *ctx.accounts.system_program == accounts@[7]
                    &&& ctx.remaining_accounts@ == accounts@.skip(8)
                },
                Err(e) => e == ProgramError::NotEnoughAccountKeys && accounts@.len() < 8,
            },
    {
        if accounts.len() < 8 {
            return Err(ProgramError::NotEnoughAccountKeys);
        }
        let remaining_accounts = slice_subrange(accounts, 8, accounts.len());
        Ok(
            Context {
                accounts: SwapAccounts {
                    pool: &accounts[0],
                    source_asset: &accounts[1],
                    dest_asset: &accounts[2],
                    payer: &accounts[3],
                    treasury: &accounts[4],
                    collection: &accounts[5],
                    core_program: &accounts[6],
                    system_program: &accounts[7],
                },
                remaining_accounts,
            },
        )
    }
}

/// The accounts of a deposit, in the order in which they are passed.
pub struct DepositAccounts<'a> {
    /// The pool; writable.
    pub pool: &'a AccountInfo,
    /// The asset to deposit; writable.
    pub asset: &'a AccountInfo,
    /// The collection of the asset.
    pub collection: &'a AccountInfo,
    /// The user depositing the asset; signer.
    pub payer: &'a AccountInfo,
    /// The asset program.
    pub core_program: &'a AccountInfo,
}

impl<'a> DepositAccounts<'a> {
    /// Number of accounts that the instruction names.
    pub const LEN: usize = 5;

    /// Names the first 5 of `accounts` by their roles.
    ///
    /// Fails with `NotEnoughAccountKeys` where fewer were passed.
    pub fn context(accounts: &'a [AccountInfo]) -> (r: Result<Context<'a, DepositAccounts<'a>>, ProgramError>)
        ensures
            match r {
                Ok(ctx) => {
                    &&& accounts@.len() >= 5
                    &&& *ctx.accounts.pool == accounts@[0]
                    &&& *ctx.accounts.asset == accounts@[1]
                    &&& *ctx.accounts.collection == accounts@[2]
                    &&& *ctx.accounts.payer == accounts@[3]
                    &&& *ctx.accounts.core_program == accounts@[4]
                    &&& ctx.remaining_accounts@ == accounts@.skip(5)
                },
                Err(e) => e == ProgramError::NotEnoughAccountKeys && accounts@.len() < 5,
            },
    {
        if accounts.len() < 5 {
            return Err(ProgramError::NotEnoughAccountKeys);
        }
        let remaining_accounts = slice_subrange(accounts, 5, accounts.len());
        Ok(
            Context {
                accounts: DepositAccounts {
                    pool: &accounts[0],
                    asset: &accounts[1],
                    collection: &accounts[2],
                    payer: &accounts[3],
                    core_program: &accounts[4],
                },
                remaining_accounts,
            },
        )
    }
}

/// The accounts of a withdrawal, in the order in which they are passed.
pub struct WithdrawAccounts<'a> {
    /// The pool; writable.
    pub pool: &'a AccountInfo,
    /// The authority of the pool; signer.
    pub authority: &'a AccountInfo,
    /// The asset to withdraw; writable.
    pub asset: &'a AccountInfo,
    /// The collection of the asset.
    pub collection: &'a AccountInfo,
    /// The wallet to receive the asset; left out by passing this program's own address in its place.
    pub destination: Option<&'a AccountInfo>,
    /// The asset program.
    pub core_program: &'a AccountInfo,
}

impl<'a> WithdrawAccounts<'a> {
    /// Number of accounts that the instruction names.
    pub const LEN: usize = 6;

    /// Names the first 6 of `accounts` by their roles.
    ///
    /// Fails with `NotEnoughAccountKeys` where fewer were passed.
    pub fn context(accounts: &'a [AccountInfo]) -> (r: Result<Context<'a, WithdrawAccounts<'a>>, ProgramError>)
        ensures
            match r {
                Ok(ctx) => {
                    &&& accounts@.len() >= 6
                    &&& *ctx.accounts.pool == accounts@[0]
                    &&& *ctx.accounts.authority == accounts@[1]
                    &&& *ctx.accounts.asset == accounts@[2]
                    &&& *ctx.accounts.collection == accounts@[3]
                    &&& ctx.accounts.destination == (if accounts@[4].key@ == crate::id()@ {
                        None
                    } else {
                        Some(&accounts@[4])
                    })
                    &&& *ctx.accounts.core_program == accounts@[5]
                    &&& ctx.remaining_accounts@ == accounts@.skip(6)
                },
                Err(e) => e == ProgramError::NotEnoughAccountKeys && accounts@.len() < 6,
            },
    {
        if accounts.len() < 6 {
            return Err(ProgramError::NotEnoughAccountKeys);
        }
        let remaining_accounts = slice_subrange(accounts, 6, accounts.len());
        Ok(
            Context {
                accounts: WithdrawAccounts {
                    pool: &accounts[0],
                    authority: &accounts[1],
                    asset: &accounts[2],
                    collection: &accounts[3],
                    destination: if crate::check_id(&accounts[4].key) {
                        None
                    } else {
                        Some(&accounts[4])
                    },
                    core_program: &accounts[5],
                },
                remaining_accounts,
            },
        )
    }
}

/// The accounts of closing a pool, in the order in which they are passed.
pub struct CloseAccounts<'a> {
    /// The pool; writable.
    pub pool: &'a AccountInfo,
    /// The authority of the pool; signer.
    pub authority: &'a AccountInfo,
    /// The system program.
    pub system_program: &'a AccountInfo,
}

impl<'a> CloseAccounts<'a> {
    /// Number of accounts that the instruction names.
    pub const LEN: usize = 3;

    /// Names the first 3 of `accounts` by their roles.
    ///
    /// Fails with `NotEnoughAccountKeys` where fewer were passed.
    pub fn context(accounts: &'a [AccountInfo]) -> (r: Result<Context<'a, CloseAccounts<'a>>, ProgramError>)
        ensures
            match r {
                Ok(ctx) => {
                    &&& accounts@.len() >= 3
                    &&& *ctx.accounts.pool == accounts@[0]
                    &&& *ctx.accounts.authority == accounts@[1]
                    &&& *ctx.accounts.system_program == accounts@[2]
                    &&& ctx.remaining_accounts@ == accounts@.skip(3)
                },
                Err(e) => e == ProgramError::NotEnoughAccountKeys && accounts@.len() < 3,
            },
    {
        if accounts.len() < 3 {
            return Err(ProgramError::NotEnoughAccountKeys);
        }
        let remaining_accounts = slice_subrange(accounts, 3, accounts.len());
        Ok(
            Context {
                accounts: CloseAccounts {
                    pool: &accounts[0],
                    authority: &accounts[1],
                    system_program: &accounts[2],
                },
                remaining_accounts,
            },
        )
    }
}

} // verus!
