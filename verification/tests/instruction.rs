use borsh::BorshSerialize;
use floor_swap::account_info::AccountInfo;
use floor_swap::error::ProgramError;
use floor_swap::instruction::accounts::{
    CloseAccounts, CreateAccounts, DepositAccounts, SetActiveAccounts, SetFeeAccounts,
    SwapAccounts, WithdrawAccounts,
};
use floor_swap::instruction::AppInstruction;
use floor_swap::pubkey::Pubkey;

fn account(n: u8) -> AccountInfo {
    AccountInfo {
        key: Pubkey::new_from_array([n; 32]),
        lamports: n as u64,
        data: vec![n],
        owner: floor_swap::system_program::id(),
        is_signer: false,
        is_writable: false,
    }
}

fn accounts(n: u8) -> Vec<AccountInfo> {
    (1..=n).map(account).collect()
}

#[test]
fn instructions_are_a_tag_and_an_operand() {
    assert_eq!(
        AppInstruction::Create { fee_amount: 100 }.try_to_vec(),
        vec![0, 100, 0, 0, 0, 0, 0, 0, 0]
    );
    assert_eq!(AppInstruction::SetActive { active: true }.try_to_vec(), vec![1, 1]);
    assert_eq!(AppInstruction::SetActive { active: false }.try_to_vec(), vec![1, 0]);
    assert_eq!(
        AppInstruction::SetFee { fee_amount: 0x0102030405060708 }.try_to_vec(),
        vec![2, 8, 7, 6, 5, 4, 3, 2, 1]
    );
    assert_eq!(AppInstruction::Swap.try_to_vec(), vec![3]);
    assert_eq!(AppInstruction::Deposit.try_to_vec(), vec![4]);
    assert_eq!(AppInstruction::Withdraw.try_to_vec(), vec![5]);
    assert_eq!(AppInstruction::Close.try_to_vec(), vec![6]);
}

#[test]
fn instructions_agree_with_borsh() {
    assert_eq!(
        AppInstruction::Create { fee_amount: u64::MAX - 1 }.try_to_vec(),
        (0u8, u64::MAX - 1).try_to_vec().unwrap()
    );
    assert_eq!(
        AppInstruction::SetActive { active: true }.try_to_vec(),
        (1u8, true).try_to_vec().unwrap()
    );
    assert_eq!(
        AppInstruction::SetFee { fee_amount: 77 }.try_to_vec(),
        (2u8, 77u64).try_to_vec().unwrap()
    );
}

#[test]
fn instructions_round_trip() {
    let all = [
        AppInstruction::Create { fee_amount: 0 },
        AppInstruction::Create { fee_amount: u64::MAX },
        AppInstruction::SetActive { active: true },
        AppInstruction::SetActive { active: false },
        AppInstruction::SetFee { fee_amount: 12_345_678_901_234 },
        AppInstruction::Swap,
        AppInstruction::Deposit,
        AppInstruction::Withdraw,
        AppInstruction::Close,
    ];
    for instruction in all {
        assert_eq!(AppInstruction::try_from_slice(&instruction.try_to_vec()), Ok(instruction));
    }
}

#[test]
fn what_is_no_instruction_is_refused() {
    let refused = Err(ProgramError::BorshIoError);
    assert_eq!(AppInstruction::try_from_slice(&[]), refused);
    assert_eq!(AppInstruction::try_from_slice(&[7]), refused);
    assert_eq!(AppInstruction::try_from_slice(&[255]), refused);
    assert_eq!(AppInstruction::try_from_slice(&[0]), refused);
    assert_eq!(AppInstruction::try_from_slice(&[0, 1, 2, 3, 4, 5, 6, 7]), refused);
    assert_eq!(AppInstruction::try_from_slice(&[0, 1, 2, 3, 4, 5, 6, 7, 8, 9]), refused);
    assert_eq!(AppInstruction::try_from_slice(&[1]), refused);
    assert_eq!(AppInstruction::try_from_slice(&[1, 2]), refused);
    assert_eq!(AppInstruction::try_from_slice(&[1, 1, 0]), refused);
    assert_eq!(AppInstruction::try_from_slice(&[2, 1]), refused);
    assert_eq!(AppInstruction::try_from_slice(&[3, 0]), refused);
    assert_eq!(AppInstruction::try_from_slice(&[6, 6]), refused);
}

#[test]
fn contexts_name_the_accounts_in_order() {
    let all = accounts(9);
    let create = CreateAccounts::context(&all).unwrap();
    assert_eq!(create.accounts.pool, &all[0]);
    assert_eq!(create.accounts.collection, &all[1]);
    assert_eq!(create.accounts.authority, &all[2]);
    assert_eq!(create.accounts.treasury, &all[3]);
    assert_eq!(create.accounts.payer, &all[4]);
    assert_eq!(create.accounts.system_program, &all[5]);
    assert_eq!(create.remaining_accounts, &all[6..]);

    let swap = SwapAccounts::context(&all).unwrap();
    assert_eq!(swap.accounts.pool, &all[0]);
    assert_eq!(swap.accounts.source_asset, &all[1]);
    assert_eq!(swap.accounts.dest_asset, &all[2]);
    assert_eq!(swap.accounts.payer, &all[3]);
    assert_eq!(swap.accounts.treasury, &all[4]);
    assert_eq!(swap.accounts.collection, &all[5]);
    assert_eq!(swap.accounts.core_program, &all[6]);
    assert_eq!(swap.accounts.system_program, &all[7]);
    assert_eq!(swap.remaining_accounts, &all[8..]);

    let deposit = DepositAccounts::context(&all).unwrap();
    assert_eq!(deposit.accounts.pool, &all[0]);
    assert_eq!(deposit.accounts.asset, &all[1]);
    assert_eq!(deposit.accounts.collection, &all[2]);
    assert_eq!(deposit.accounts.payer, &all[3]);
    assert_eq!(deposit.accounts.core_program, &all[4]);

    let close = CloseAccounts::context(&all).unwrap();
    assert_eq!(close.accounts.pool, &all[0]);
    assert_eq!(close.accounts.authority, &all[1]);
    assert_eq!(close.accounts.system_program, &all[2]);

    let set_active = SetActiveAccounts::context(&all).unwrap();
    assert_eq!(set_active.accounts.pool, &all[0]);
    assert_eq!(set_active.accounts.authority, &all[1]);
    let set_fee = SetFeeAccounts::context(&all[..2]).unwrap();
    assert_eq!(set_fee.accounts.authority, &all[1]);
    assert!(set_fee.remaining_accounts.is_empty());
}

#[test]
fn contexts_count_the_accounts() {
    let all = accounts(8);
    let short = ProgramError::NotEnoughAccountKeys;
    assert_eq!(CreateAccounts::context(&all[..5]).err(), Some(short));
    assert_eq!(SetActiveAccounts::context(&all[..1]).err(), Some(short));
    assert_eq!(SetFeeAccounts::context(&all[..0]).err(), Some(short));
    assert_eq!(SwapAccounts::context(&all[..7]).err(), Some(short));
    assert_eq!(DepositAccounts::context(&all[..4]).err(), Some(short));
    assert_eq!(WithdrawAccounts::context(&all[..5]).err(), Some(short));
    assert_eq!(CloseAccounts::context(&all[..2]).err(), Some(short));
    assert!(CreateAccounts::context(&all[..6]).is_ok());
    assert!(SwapAccounts::context(&all).is_ok());
    assert_eq!(CreateAccounts::LEN, 6);
    assert_eq!(SwapAccounts::LEN, 8);
    assert_eq!(WithdrawAccounts::LEN, 6);
}

#[test]
fn the_destination_of_a_withdrawal_may_be_left_out() {
    let mut all = accounts(6);
    let with = WithdrawAccounts::context(&all).unwrap();
    assert_eq!(with.accounts.pool, &all[0]);
    assert_eq!(with.accounts.authority, &all[1]);
    assert_eq!(with.accounts.asset, &all[2]);
    assert_eq!(with.accounts.collection, &all[3]);
    assert_eq!(with.accounts.destination, Some(&all[4]));
    assert_eq!(with.accounts.core_program, &all[5]);

    all[4].key = floor_swap::id();
    let without = WithdrawAccounts::context(&all).unwrap();
    assert_eq!(without.accounts.destination, None);
}
