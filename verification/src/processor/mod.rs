use crate::account_info::AccountInfo;
use crate::error::{ProgramError, ProgramResult};
use crate::instruction::AppInstruction;
use crate::invocation::Invocation;
use crate::processor::pool::{
    close, create, deposit, set_active, set_fee, spec_close, spec_create, spec_deposit,
    spec_set_active, spec_set_fee, spec_swap, spec_withdraw, swap, swap_plan, withdraw,
};
use crate::pubkey::Pubkey;
use crate::state::pool::Pool;
use vstd::prelude::*;

pub mod pool;

verus! {

/// What an operation that passed its checks asks of its caller: the
/// invocations to perform, in this order, and the record to save into the
/// pool's account once all of them have succeeded.
#[derive(Clone, Debug, PartialEq, Eq)]
pub struct Outcome {
    pub invocations: Vec<Invocation>,
    pub record: Option<Pool>,
}

/// An outcome as a value: the sequence of its invocations, and its record.
pub struct Plan {
    pub invocations: Seq<Invocation>,
    pub record: Option<Pool>,
}

impl View for Outcome {
    type V = Plan;

    open spec fn view(&self) -> Plan {
        Plan { invocations: self.invocations@, record: self.record }
    }
}

/// A result without its value: whether a check passed, and if not, why.
pub open spec fn passed<T>(r: Result<T, ProgramError>) -> ProgramResult {
    match r {
        Ok(_) => Ok(()),
        Err(e) => Err(e),
    }
}

/// The verdict of a list of guards that are tried in order: the failure of
/// the first that fails, from index `from` on, and success where none does.
pub open spec fn first_failure(guards: Seq<ProgramResult>, from: int) -> ProgramResult
    decreases guards.len() - from,
{
    if from < 0 || from >= guards.len() {
        Ok(())
    } else if guards[from] is Err {
        guards[from]
    } else {
        first_failure(guards, from + 1)
    }
}

/// The answer of an operation: the failure of the first guard that fails,
/// and `plan` where all guards hold.
pub open spec fn answer(guards: Seq<ProgramResult>, plan: Plan) -> Result<Plan, ProgramError> {
    match first_failure(guards, 0) {
        Ok(()) => Ok(plan),
        Err(e) => Err(e),
    }
}

/// Whether `r` is the outcome that `expected` describes.
pub open spec fn is_answer(r: Result<Outcome, ProgramError>, expected: Result<Plan, ProgramError>) -> bool {
    match r {
        Ok(outcome) => expected == Ok::<Plan, ProgramError>(outcome@),
        Err(e) => expected == Err::<Plan, ProgramError>(e),
    }
}

/// What `process_instruction` answers: the answer of the operation that
/// the instruction data name, on the accounts.
pub open spec fn spec_process_instruction(accounts: Seq<AccountInfo>, data: Seq<u8>) -> Result<
    Plan,
    ProgramError,
> {
    match AppInstruction::spec_try_from_slice(data) {
        Some(AppInstruction::Create { fee_amount }) => spec_create(accounts, fee_amount),
        Some(AppInstruction::SetActive { active }) => spec_set_active(accounts, active),
        Some(AppInstruction::SetFee { fee_amount }) => spec_set_fee(accounts, fee_amount),
        Some(AppInstruction::Swap) => spec_swap(accounts),
        Some(AppInstruction::Deposit) => spec_deposit(accounts),
        Some(AppInstruction::Withdraw) => spec_withdraw(accounts),
        Some(AppInstruction::Close) => spec_close(accounts),
        None => Err(ProgramError::BorshIoError),
    }
}

/// Reads the instruction and answers for the operation that it names.
///
/// Fails with `BorshIoError` where the data are no instruction, and else
/// as the operation fails.
pub fn process_instruction(
    _program_id: &Pubkey,
    accounts: &[AccountInfo],
    instruction_data: &[u8],
) -> (r: Result<Outcome, ProgramError>)
    ensures
        is_answer(r, spec_process_instruction(accounts@, instruction_data@)),
{
    let instruction = AppInstruction::try_from_slice(instruction_data)?;
    match instruction {
        AppInstruction::Create { fee_amount } => create(accounts, fee_amount),
        AppInstruction::SetActive { active } => set_active(accounts, active),
        AppInstruction::SetFee { fee_amount } => set_fee(accounts, fee_amount),
        AppInstruction::Swap => swap(accounts),
        AppInstruction::Deposit => deposit(accounts),
        AppInstruction::Withdraw => withdraw(accounts),
        AppInstruction::Close => close(accounts),
    }
}

/// What the caller reports when it asks for the next step: that it has
/// nothing to report yet, or how the step it was last given went.
#[derive(Clone, Copy, Debug, PartialEq, Eq, Structural)]
pub enum Report {
    Started,
    Succeeded,
    Failed,
}

/// What the caller is to do next.
#[derive(Clone, Copy, Debug, PartialEq, Eq)]
pub enum Step {
    /// Perform the invocation, and report how it went.
    Invoke(Invocation),
    /// Save the record into the pool's account, and report how it went.
    Save(Pool),
    /// Nothing is left to do: the operation has succeeded.
    Finish,
    /// The operation has failed with the failure that was reported. Nothing
    /// more is asked for; what was done is for the runtime to discard.
    Abort,
}

impl Plan {
    /// The steps of the plan: its invocations in their order, then the
    /// saving of its record where it has one.
    pub open spec fn steps(self) -> Seq<Step> {
        let invoke = Seq::new(self.invocations.len(), |i: int| Step::Invoke(self.invocations[i]));
        match self.record {
            Some(record) => invoke.push(Step::Save(record)),
            None => invoke,
        }
    }
}

/// Where the execution of a plan stands: how many of its steps were handed
/// out, and whether a failure has ended it.
pub struct Progress {
    pub issued: nat,
    pub aborted: bool,
}

impl Progress {
    /// The execution before its first step.
    pub open spec fn start() -> Progress {
        Progress { issued: 0, aborted: false }
    }

    /// The step that answers `report`, and where the execution stands
    /// after it. A failure ends the execution for good; else the steps of
    /// the plan are handed out one by one, and `Finish` after the last.
    pub open spec fn next(self, plan: Plan, report: Report) -> (Progress, Step) {
        if self.aborted || report == Report::Failed {
            (Progress { issued: self.issued, aborted: true }, Step::Abort)
        } else if self.issued < plan.steps().len() {
            (Progress { issued: self.issued + 1, aborted: false }, plan.steps()[self.issued as int])
        } else {
            (self, Step::Finish)
        }
    }

    /// Where the execution stands after the reports `reports`.
    pub open spec fn after(self, plan: Plan, reports: Seq<Report>) -> Progress
        decreases reports.len(),
    {
        if reports.len() == 0 {
            self
        } else {
            self.after(plan, reports.drop_last()).next(plan, reports.last()).0
        }
    }
}

/// The steps that answer `reports`, one for each, from the start of the
/// execution of `plan`.
pub open spec fn steps_given(plan: Plan, reports: Seq<Report>) -> Seq<Step> {
    Seq::new(
        reports.len(),
        |i: int| Progress::start().after(plan, reports.take(i)).next(plan, reports[i]).1,
    )
}

/// The execution of the outcome of an operation, step by step. The caller
/// performs each step and reports how it went; the execution decides what
/// comes next.
pub struct Execution {
    outcome: Outcome,
    invoked: usize,
    saved: bool,
    aborted: bool,
}

impl Execution {
    /// The plan that is executed.
    pub closed spec fn plan(&self) -> Plan {
        self.outcome@
    }

    /// Where the execution stands.
    pub closed spec fn progress(&self) -> Progress {
        Progress {
            issued: if self.saved {
                self.invoked as nat + 1
            } else {
                self.invoked as nat
            },
            aborted: self.aborted,
        }
    }

    /// The execution has handed out no more steps than its plan has.
    #[verifier::type_invariant]
    spec fn wf(&self) -> bool {
        &&& self.invoked <= self.outcome@.invocations.len()
        &&& self.saved ==> self.invoked == self.outcome@.invocations.len()
            && self.outcome.record is Some
    }

    /// The execution of `outcome`, before its first step.
    pub fn new(outcome: Outcome) -> (execution: Execution)
        ensures
            execution.plan() == outcome@,
            execution.progress() == Progress::start(),
    {
        Execution { outcome, invoked: 0, saved: false, aborted: false }
    }

    /// The step that answers `report`.
    pub fn next(&mut self, report: Report) -> (step: Step)
        ensures
            final(self).plan() == old(self).plan(),
            (final(self).progress(), step) == old(self).progress().next(old(self).plan(), report),
    {
        proof {
            use_type_invariant(&*self);
        }
        if self.aborted || report == Report::Failed {
            self.aborted = true;
            return Step::Abort;
        }
        if self.invoked < self.outcome.invocations.len() {
            let step = Step::Invoke(self.outcome.invocations[self.invoked]);
            self.invoked = self.invoked + 1;
            return step;
        }
        if !self.saved {
            if let Some(record) = self.outcome.record {
                self.saved = true;
                return Step::Save(record);
            }
        }
        Step::Finish
    }
}

/// A failure is final: once a failure was reported, every step is `Abort`,
/// whatever is reported after it.
pub proof fn lemma_failure_is_final(plan: Plan, reports: Seq<Report>, failed: int, later: int)
    requires
        0 <= failed <= later < reports.len(),
        reports[failed] == Report::Failed,
    ensures
        steps_given(plan, reports)[later] == Step::Abort,
{
    lemma_aborted_after(plan, reports, failed, later);
}

proof fn lemma_aborted_after(plan: Plan, reports: Seq<Report>, failed: int, later: int)
    requires
        0 <= failed <= later < reports.len(),
        reports[failed] == Report::Failed,
    ensures
        Progress::start().after(plan, reports.take(later + 1)).aborted,
        Progress::start().after(plan, reports.take(later)).next(plan, reports[later]).1
            == Step::Abort,
    decreases later - failed,
{
    let upto = reports.take(later + 1);
    assert(upto.drop_last() =~= reports.take(later));
    assert(upto.last() == reports[later]);
    if later > failed {
        lemma_aborted_after(plan, reports, failed, later - 1);
    }
}

/// Steps come in the plan's order, each only after all before it
/// succeeded: while nothing but success is reported, the step that answers
/// the report number `i` is step `i` of the plan, and `Finish` past its end.
pub proof fn lemma_steps_in_order(plan: Plan, reports: Seq<Report>, i: int)
    requires
        0 <= i < reports.len(),
        forall|j: int| 0 <= j <= i ==> reports[j] != Report::Failed,
    ensures
        steps_given(plan, reports)[i] == (if i < plan.steps().len() {
            plan.steps()[i]
        } else {
            Step::Finish
        }),
{
    lemma_progress_after(plan, reports, i);
}

proof fn lemma_progress_after(plan: Plan, reports: Seq<Report>, i: int)
    requires
        0 <= i <= reports.len(),
        forall|j: int| 0 <= j < i ==> reports[j] != Report::Failed,
    ensures
        Progress::start().after(plan, reports.take(i)) == (Progress {
            issued: if i < plan.steps().len() {
                i as nat
            } else {
                plan.steps().len()
            },
            aborted: false,
        }),
    decreases i,
{
    if i > 0 {
        let upto = reports.take(i);
        assert(upto.drop_last() =~= reports.take(i - 1));
        assert(upto.last() == reports[i - 1]);
        lemma_progress_after(plan, reports, i - 1);
    }
}

/// A swap whose fee is not paid moves no asset: where the caller reports
/// that the first step of a swap, the payment of the fee, has failed, no
/// step that answers this or any later report is an invocation, so neither
/// asset is handed over.
pub proof fn lemma_unpaid_swap_moves_no_asset(
    accounts: Seq<AccountInfo>,
    reports: Seq<Report>,
    i: int,
)
    requires
        spec_swap(accounts) is Ok,
        reports.len() >= 2,
        reports[0] == Report::Started,
        reports[1] == Report::Failed,
        0 <= i < reports.len(),
    ensures
        steps_given(swap_plan(accounts), reports)[0] == Step::Invoke(
            swap_plan(accounts).invocations[0],
        ),
        swap_plan(accounts).invocations[0] is TransferLamports,
        !(steps_given(swap_plan(accounts), reports)[i] matches Step::Invoke(invocation)
            && invocation.is_asset_transfer()),
{
    let plan = swap_plan(accounts);
    lemma_steps_in_order(plan, reports, 0);
    if i >= 1 {
        lemma_failure_is_final(plan, reports, 1, i);
    }
}

} // verus!
