use borsh::BorshSerialize;
use floor_swap::account_info::AccountInfo;
use floor_swap::error::{FloorSwapError, ProgramError};
use floor_swap::instruction::AppInstruction;
use floor_swap::invocation::Invocation;
use floor_swap::processor::pool::{deposit, swap};
use floor_swap::processor::{process_instruction, Execution, Outcome, Report, Step};
use floor_swap::pubkey::Pubkey;
use floor_swap::state::pool::Pool;
use floor_swap::state::Key;
use floor_swap::utils::{pay_fee, transfer_lamports, transfer_lamports_from_pdas};

const RENT: u64 = 1_600_000;

fn key(n: u8) -> Pubkey {
    Pubkey::new_from_array([n; 32])
}

fn outside(key: &Pubkey) -> solana_program::pubkey::Pubkey {
    solana_program::pubkey::Pubkey::new_from_array(key.to_bytes())
}

fn authority() -> Pubkey {
    key(3)
}

fn collection() -> Pubkey {
    key(2)
}

fn treasury() -> Pubkey {
    key(4)
}

fn depositor() -> Pubkey {
    key(5)
}

fn payer() -> Pubkey {
    key(6)
}

fn asset_x() -> Pubkey {
    key(11)
}

fn asset_y() -> Pubkey {
    key(12)
}

fn pool_address() -> Pubkey {
    Pool::find_pda(&authority(), &collection()).unwrap().0
}

fn wallet(key: Pubkey, lamports: u64) -> AccountInfo {
    AccountInfo {
        key,
        lamports,
        data: Vec::new(),
        owner: floor_swap::system_program::id(),
        is_signer: false,
        is_writable: true,
    }
}

fn asset_data(owner: Pubkey) -> Vec<u8> {
    mpl_core::accounts::BaseAssetV1 {
        key: mpl_core::types::Key::AssetV1,
        owner: outside(&owner),
        update_authority: mpl_core::types::UpdateAuthority::Collection(outside(&collection())),
        name: "floor".to_string(),
        uri: "https://example.com/floor.json".to_string(),
        seq: None,
    }
    .try_to_vec()
    .unwrap()
}

fn asset(key: Pubkey, owner: Pubkey) -> AccountInfo {
    AccountInfo {
        data: asset_data(owner),
        owner: floor_swap::core_asset::id(),
        ..wallet(key, 3_000_000)
    }
}

fn collection_account() -> AccountInfo {
    let data = mpl_core::accounts::BaseCollectionV1 {
        key: mpl_core::types::Key::CollectionV1,
        update_authority: outside(&authority()),
        name: "floors".to_string(),
        uri: "https://example.com/floors.json".to_string(),
        num_minted: 2,
        current_size: 2,
    }
    .try_to_vec()
    .unwrap();
    AccountInfo { data, owner: floor_swap::core_asset::id(), ..wallet(collection(), 3_000_000) }
}

/// A ledger for the scenarios: the accounts, and the collaborators that
/// perform what the pool asks for.
#[derive(Clone, Debug, PartialEq)]
struct Ledger {
    accounts: Vec<AccountInfo>,
}

impl Ledger {
    fn new() -> Ledger {
        Ledger {
            accounts: vec![
                wallet(pool_address(), 0),
                collection_account(),
                wallet(authority(), 10_000_000),
                wallet(treasury(), 0),
                wallet(depositor(), 10_000_000),
                wallet(payer(), 10_000_000),
                asset(asset_x(), depositor()),
                asset(asset_y(), payer()),
                wallet(floor_swap::system_program::id(), 1),
                wallet(floor_swap::core_asset::id(), 1),
                wallet(floor_swap::id(), 1),
                wallet(key(20), 0),
            ],
        }
    }

    fn at(&self, key: Pubkey) -> &AccountInfo {
        self.accounts.iter().find(|a| a.key == key).unwrap()
    }

    fn at_mut(&mut self, key: Pubkey) -> &mut AccountInfo {
        self.accounts.iter_mut().find(|a| a.key == key).unwrap()
    }

    fn pass(&self, key: Pubkey, signs: bool) -> AccountInfo {
        AccountInfo { is_signer: signs, ..self.at(key).clone() }
    }

    fn record(&self) -> Pool {
        Pool::load(self.at(pool_address())).unwrap()
    }

    fn owner_of(&self, asset: Pubkey) -> Pubkey {
        let base = mpl_core::accounts::BaseAssetV1::from_bytes(&self.at(asset).data).unwrap();
        Pubkey::new_from_array(base.owner.to_bytes())
    }

    fn invoke(&mut self, invocation: &Invocation) -> bool {
        match *invocation {
            Invocation::CreateAccount { account, payer, space, owner, .. } => {
                if self.at(payer).lamports < RENT || !self.at(account).data.is_empty() {
                    return false;
                }
                self.at_mut(payer).lamports -= RENT;
                let created = self.at_mut(account);
                created.lamports += RENT;
                created.data = vec![0; space as usize];
                created.owner = owner;
                true
            }
            Invocation::TransferLamports { from, to, lamports, .. } => {
                if self.at(from).lamports < lamports {
                    return false;
                }
                self.at_mut(from).lamports -= lamports;
                self.at_mut(to).lamports += lamports;
                true
            }
            Invocation::TransferAsset { asset, new_owner, authority, .. } => {
                if self.owner_of(asset) != authority {
                    return false;
                }
                self.at_mut(asset).data = asset_data(new_owner);
                true
            }
            Invocation::CloseAccount { account, destination } => {
                let lamports = self.at(account).lamports;
                self.at_mut(destination).lamports += lamports;
                let closed = self.at_mut(account);
                closed.lamports = 0;
                closed.data = Vec::new();
                closed.owner = floor_swap::system_program::id();
                true
            }
        }
    }

    /// Runs one instruction as a transaction: all of it, or nothing.
    fn run(
        &mut self,
        instruction: AppInstruction,
        passed: &[(Pubkey, bool)],
    ) -> Result<Vec<Step>, ProgramError> {
        let before = self.clone();
        let accounts: Vec<AccountInfo> =
            passed.iter().map(|(key, signs)| self.pass(*key, *signs)).collect();
        let outcome =
            process_instruction(&floor_swap::id(), &accounts, &instruction.try_to_vec())?;
        let mut execution = Execution::new(outcome);
        let mut steps = Vec::new();
        let mut report = Report::Started;
        loop {
            let step = execution.next(report);
            steps.push(step);
            let succeeded = match step {
                Step::Invoke(invocation) => self.invoke(&invocation),
                Step::Save(record) => record.save(self.at_mut(pool_address())).is_ok(),
                Step::Finish => return Ok(steps),
                Step::Abort => {
                    *self = before;
                    return Ok(steps);
                }
            };
            report = if succeeded { Report::Succeeded } else { Report::Failed };
        }
    }

    fn create(&mut self, fee_amount: u64) -> Result<Vec<Step>, ProgramError> {
        self.run(
            AppInstruction::Create { fee_amount },
            &[
                (pool_address(), false),
                (collection(), false),
                (authority(), true),
                (treasury(), false),
                (authority(), true),
                (floor_swap::system_program::id(), false),
            ],
        )
    }

    fn set_active(&mut self, active: bool) -> Result<Vec<Step>, ProgramError> {
        self.run(AppInstruction::SetActive { active }, &[(pool_address(), false), (authority(), true)])
    }

    fn set_fee(&mut self, fee_amount: u64) -> Result<Vec<Step>, ProgramError> {
        self.run(AppInstruction::SetFee { fee_amount }, &[(pool_address(), false), (authority(), true)])
    }

    fn deposit(&mut self, asset: Pubkey, from: Pubkey) -> Result<Vec<Step>, ProgramError> {
        self.run(
            AppInstruction::Deposit,
            &[
                (pool_address(), false),
                (asset, false),
                (collection(), false),
                (from, true),
                (floor_swap::core_asset::id(), false),
            ],
        )
    }

    fn swap(&mut self, source: Pubkey, dest: Pubkey, by: Pubkey) -> Result<Vec<Step>, ProgramError> {
        self.run(
            AppInstruction::Swap,
            &[
                (pool_address(), false),
                (source, false),
                (dest, false),
                (by, true),
                (treasury(), false),
                (collection(), false),
                (floor_swap::core_asset::id(), false),
                (floor_swap::system_program::id(), false),
            ],
        )
    }

    fn withdraw(&mut self, asset: Pubkey, destination: Pubkey) -> Result<Vec<Step>, ProgramError> {
        self.run(
            AppInstruction::Withdraw,
            &[
                (pool_address(), false),
                (authority(), true),
                (asset, false),
                (collection(), false),
                (destination, false),
                (floor_swap::core_asset::id(), false),
            ],
        )
    }

    fn close(&mut self) -> Result<Vec<Step>, ProgramError> {
        self.run(
            AppInstruction::Close,
            &[
                (pool_address(), false),
                (authority(), true),
                (floor_swap::system_program::id(), false),
            ],
        )
    }
}

fn finished(steps: &[Step]) -> bool {
    steps.last() == Some(&Step::Finish)
}

#[test]
fn a_pool_from_creation_to_closure() {
    let mut ledger = Ledger::new();

    assert!(finished(&ledger.create(100).unwrap()));
    assert_eq!(
        ledger.record(),
        Pool {
            key: Key::Pool,
            collection: collection(),
            authority: authority(),
            treasury: treasury(),
            fee_amount: 100,
            enabled: false,
            num_assets: 0,
        }
    );
    assert_eq!(ledger.at(pool_address()).data.len(), 108);
    assert_eq!(ledger.at(pool_address()).owner, floor_swap::id());

    assert!(finished(&ledger.set_active(true).unwrap()));
    assert!(ledger.record().enabled);

    assert!(finished(&ledger.deposit(asset_x(), depositor()).unwrap()));
    assert_eq!(ledger.owner_of(asset_x()), pool_address());
    assert_eq!(ledger.record().num_assets, 1);

    let payer_before = ledger.at(payer()).lamports;
    assert!(finished(&ledger.swap(asset_y(), asset_x(), payer()).unwrap()));
    assert_eq!(ledger.at(payer()).lamports, payer_before - 100);
    assert_eq!(ledger.at(treasury()).lamports, 100);
    assert_eq!(ledger.owner_of(asset_y()), pool_address());
    assert_eq!(ledger.owner_of(asset_x()), payer());
    assert_eq!(ledger.record().num_assets, 1);

    assert!(finished(&ledger.withdraw(asset_y(), floor_swap::id()).unwrap()));
    assert_eq!(ledger.owner_of(asset_y()), authority());
    assert_eq!(ledger.record().num_assets, 0);

    let authority_before = ledger.at(authority()).lamports;
    assert!(finished(&ledger.close().unwrap()));
    assert!(ledger.at(pool_address()).data.is_empty());
    assert_eq!(ledger.at(pool_address()).lamports, 0);
    assert_eq!(ledger.at(authority()).lamports, authority_before + RENT);

    assert_eq!(
        ledger.close(),
        Err(ProgramError::Custom(FloorSwapError::InvalidProgramOwner))
    );
}

#[test]
fn creating_twice_keeps_the_first_record() {
    let mut ledger = Ledger::new();
    assert!(finished(&ledger.create(100).unwrap()));
    let first = ledger.clone();
    assert_eq!(ledger.create(250), Ok(vec![Step::Finish]));
    assert_eq!(ledger, first);
    assert_eq!(ledger.record().fee_amount, 100);
}

#[test]
fn a_closed_pool_can_be_created_anew() {
    let mut ledger = Ledger::new();
    ledger.create(100).unwrap();
    ledger.set_active(true).unwrap();
    assert!(finished(&ledger.close().unwrap()));
    assert!(finished(&ledger.create(7).unwrap()));
    assert_eq!(ledger.record().fee_amount, 7);
    assert!(!ledger.record().enabled);
}

#[test]
fn an_unpaid_swap_moves_no_asset() {
    let mut ledger = Ledger::new();
    ledger.create(100).unwrap();
    ledger.set_active(true).unwrap();
    ledger.deposit(asset_x(), depositor()).unwrap();
    ledger.at_mut(payer()).lamports = 99;
    let before = ledger.clone();

    let steps = ledger.swap(asset_y(), asset_x(), payer()).unwrap();
    assert_eq!(
        steps,
        vec![
            Step::Invoke(Invocation::TransferLamports {
                from: payer(),
                to: treasury(),
                lamports: 100,
                signer: None,
            }),
            Step::Abort,
        ]
    );
    assert_eq!(ledger, before);
    assert_eq!(ledger.owner_of(asset_y()), payer());
    assert_eq!(ledger.owner_of(asset_x()), pool_address());
}

#[test]
fn a_closed_pool_swaps_nothing() {
    let mut ledger = Ledger::new();
    ledger.create(100).unwrap();
    ledger.deposit(asset_x(), depositor()).unwrap();
    assert_eq!(
        ledger.swap(asset_y(), asset_x(), payer()),
        Err(ProgramError::Custom(FloorSwapError::PoolInactive))
    );
    ledger.set_active(true).unwrap();
    ledger.set_active(false).unwrap();
    assert_eq!(
        ledger.swap(asset_y(), asset_x(), payer()),
        Err(ProgramError::Custom(FloorSwapError::PoolInactive))
    );
}

#[test]
fn the_fee_in_force_is_the_one_last_set() {
    let mut ledger = Ledger::new();
    ledger.create(100).unwrap();
    ledger.set_active(true).unwrap();
    ledger.set_fee(0).unwrap();
    ledger.deposit(asset_x(), depositor()).unwrap();
    let before = ledger.at(payer()).lamports;
    assert!(finished(&ledger.swap(asset_y(), asset_x(), payer()).unwrap()));
    assert_eq!(ledger.at(payer()).lamports, before);
    ledger.set_fee(5_000).unwrap();
    assert!(finished(&ledger.swap(asset_x(), asset_y(), payer()).unwrap()));
    assert_eq!(ledger.at(payer()).lamports, before - 5_000);
    assert_eq!(ledger.at(treasury()).lamports, 5_000);
}

#[test]
fn a_pool_that_counts_assets_is_not_closed() {
    let mut ledger = Ledger::new();
    ledger.create(100).unwrap();
    ledger.deposit(asset_x(), depositor()).unwrap();
    assert_eq!(ledger.close(), Err(ProgramError::Custom(FloorSwapError::PoolNotEmpty)));
    assert!(finished(&ledger.withdraw(asset_x(), key(20)).unwrap()));
    assert_eq!(ledger.owner_of(asset_x()), key(20));
    assert!(finished(&ledger.close().unwrap()));
}

#[test]
fn an_asset_that_came_in_by_a_swap_is_withdrawn_at_zero() {
    let mut ledger = Ledger::new();
    ledger.create(0).unwrap();
    ledger.set_active(true).unwrap();
    ledger.deposit(asset_x(), depositor()).unwrap();
    ledger.swap(asset_y(), asset_x(), payer()).unwrap();
    ledger.withdraw(asset_y(), floor_swap::id()).unwrap();
    assert_eq!(ledger.record().num_assets, 0);
    ledger.at_mut(asset_x()).data = asset_data(pool_address());
    assert!(finished(&ledger.withdraw(asset_x(), floor_swap::id()).unwrap()));
    assert_eq!(ledger.record().num_assets, 0);
    assert_eq!(ledger.owner_of(asset_x()), authority());
}

fn swap_outcome() -> Outcome {
    let mut ledger = Ledger::new();
    ledger.create(100).unwrap();
    ledger.set_active(true).unwrap();
    ledger.deposit(asset_x(), depositor()).unwrap();
    swap(&[
        ledger.pass(pool_address(), false),
        ledger.pass(asset_y(), false),
        ledger.pass(asset_x(), false),
        ledger.pass(payer(), true),
        ledger.pass(treasury(), false),
        ledger.pass(collection(), false),
        ledger.pass(floor_swap::core_asset::id(), false),
        ledger.pass(floor_swap::system_program::id(), false),
    ])
    .unwrap()
}

#[test]
fn steps_come_in_order_and_end_with_finish() {
    let outcome = swap_outcome();
    let mut execution = Execution::new(outcome.clone());
    assert_eq!(execution.next(Report::Started), Step::Invoke(outcome.invocations[0]));
    assert_eq!(execution.next(Report::Succeeded), Step::Invoke(outcome.invocations[1]));
    assert_eq!(execution.next(Report::Succeeded), Step::Invoke(outcome.invocations[2]));
    assert_eq!(execution.next(Report::Succeeded), Step::Finish);
    assert_eq!(execution.next(Report::Succeeded), Step::Finish);
}

#[test]
fn a_failure_ends_the_execution_for_good() {
    let outcome = swap_outcome();
    let mut execution = Execution::new(outcome.clone());
    assert_eq!(execution.next(Report::Started), Step::Invoke(outcome.invocations[0]));
    assert_eq!(execution.next(Report::Succeeded), Step::Invoke(outcome.invocations[1]));
    assert_eq!(execution.next(Report::Failed), Step::Abort);
    assert_eq!(execution.next(Report::Succeeded), Step::Abort);
    assert_eq!(execution.next(Report::Started), Step::Abort);
}

#[test]
fn the_record_is_saved_after_the_invocations() {
    let mut ledger = Ledger::new();
    ledger.create(100).unwrap();
    let outcome = deposit(&[
        ledger.pass(pool_address(), false),
        ledger.pass(asset_x(), false),
        ledger.pass(collection(), false),
        ledger.pass(depositor(), true),
        ledger.pass(floor_swap::core_asset::id(), false),
    ])
    .unwrap();
    let mut execution = Execution::new(outcome.clone());
    assert_eq!(execution.next(Report::Started), Step::Invoke(outcome.invocations[0]));
    assert_eq!(execution.next(Report::Succeeded), Step::Save(outcome.record.unwrap()));
    assert_eq!(execution.next(Report::Succeeded), Step::Finish);

    let mut execution = Execution::new(outcome.clone());
    execution.next(Report::Started);
    execution.next(Report::Succeeded);
    assert_eq!(execution.next(Report::Failed), Step::Abort);

    let mut execution = Execution::new(Outcome { invocations: Vec::new(), record: None });
    assert_eq!(execution.next(Report::Started), Step::Finish);
}

#[test]
fn lamports_move_between_two_accounts_of_the_program() {
    let mut from = wallet(key(1), 500);
    let mut to = wallet(key(2), 20);
    assert_eq!(transfer_lamports_from_pdas(&mut from, &mut to, 120), Ok(()));
    assert_eq!((from.lamports, to.lamports), (380, 140));
    assert_eq!(transfer_lamports_from_pdas(&mut from, &mut to, 380), Ok(()));
    assert_eq!((from.lamports, to.lamports), (0, 520));
}

#[test]
fn lamports_that_are_not_there_do_not_move() {
    let overflow = Err(ProgramError::Custom(FloorSwapError::NumericalOverflow));
    let mut from = wallet(key(1), 500);
    let mut to = wallet(key(2), 20);
    assert_eq!(transfer_lamports_from_pdas(&mut from, &mut to, 501), overflow);
    assert_eq!((from.lamports, to.lamports), (500, 20));
    to.lamports = u64::MAX - 10;
    assert_eq!(transfer_lamports_from_pdas(&mut from, &mut to, 11), overflow);
    assert_eq!((from.lamports, to.lamports), (500, u64::MAX - 10));
    assert_eq!(transfer_lamports_from_pdas(&mut from, &mut to, 10), Ok(()));
    assert_eq!((from.lamports, to.lamports), (490, u64::MAX));
}

#[test]
fn transfers_of_lamports_name_both_ends() {
    let from = wallet(key(1), 500);
    let to = wallet(key(2), 20);
    assert_eq!(
        pay_fee(&from, &to, 100),
        Invocation::TransferLamports { from: key(1), to: key(2), lamports: 100, signer: None }
    );
    let signer = floor_swap::invocation::PoolSigner {
        authority: authority(),
        collection: collection(),
        bump: 250,
    };
    assert_eq!(
        transfer_lamports(&from, &to, 7, Some(signer)),
        Invocation::TransferLamports {
            from: key(1),
            to: key(2),
            lamports: 7,
            signer: Some(signer),
        }
    );
    assert_eq!(transfer_lamports(&from, &to, 7, None), pay_fee(&from, &to, 7));
}
