//! Sandbox provisioning: the plan and the result of standing up an
//! isolated chain environment for one test run.
//!
//! The asynchronous work itself — starting the network, deploying the
//! contract binary, deriving the funded sub-account — is done by an
//! opaque provisioning service outside this library. What is verified
//! here is the sequencing contract of that work: the three operations
//! run in dependency order, any failure aborts the whole bootstrap, and
//! a completed provisioning run yields an environment whose signing
//! account holds a strictly positive balance over a deployed contract.

use vstd::prelude::*;

use crate::contract::EthClientContract;

verus! {

/// The fixed initial balance of the relay's signing sub-account, in
/// yoctoNEAR: 30 NEAR.
pub const RELAY_ACCOUNT_INITIAL_BALANCE: u128 = 30_000_000_000_000_000_000_000_000;

/// Why a sandbox environment could not be assembled.
#[derive(Clone, Copy, Debug, PartialEq, Eq)]
pub enum ProvisionError {
    /// The isolated network instance is not running.
    NetworkNotRunning,
    /// No contract binary was deployed into the network.
    ContractNotDeployed,
    /// The relay's signing account was created without funds.
    AccountNotFunded,
}

/// The relay's on-chain signing identity: a sub-account of the sandbox
/// network's root identity, created with a fixed initial balance.
#[derive(Clone, Debug, PartialEq, Eq)]
pub struct SandboxAccount {
    pub account_id: String,
    pub initial_balance: u128,
}

/// A handle on the running isolated network instance.
#[derive(Clone, Copy, Debug, PartialEq, Eq)]
pub struct SandboxWorker {
    pub running: bool,
}

/// An ownership-bound triple of signing account, deployed contract
/// instance and running network worker. Created once per test run and
/// torn down with the enclosing scope.
pub struct SandboxEnvironment {
    pub relay_account: SandboxAccount,
    pub contract: EthClientContract,
    pub worker: SandboxWorker,
}

impl SandboxEnvironment {
    /// A usable environment: the network runs, the contract binary is
    /// deployed and queryable, and the signing account is funded with a
    /// strictly positive balance.
    pub open spec fn wf(self) -> bool {
        &&& self.worker.running
        &&& self.contract@.code_size > 0
        &&& self.relay_account.initial_balance > 0
    }

    /// Assembles the environment from the outcomes of the three
    /// provisioning operations, refusing any partial result.
    ///
    /// Failure is reported for the earliest operation in dependency
    /// order that did not deliver: network before deploy before account.
    pub fn assemble(
        relay_account: SandboxAccount,
        contract: EthClientContract,
        worker: SandboxWorker,
    ) -> (r: Result<SandboxEnvironment, ProvisionError>)
        ensures
            r is Ok <==> (worker.running && contract@.code_size > 0
                && relay_account.initial_balance > 0),
            match r {
                Ok(env) => {
                    &&& env.wf()
                    &&& env.relay_account == relay_account
                    &&& env.contract@ == contract@
                    &&& env.worker == worker
                },
                Err(e) => match e {
                    ProvisionError::NetworkNotRunning => !worker.running,
                    ProvisionError::ContractNotDeployed => worker.running && contract@.code_size
                        == 0,
                    ProvisionError::AccountNotFunded => worker.running && contract@.code_size > 0
                        && relay_account.initial_balance == 0,
                },
            },
    {
        if !worker.running {
            Err(ProvisionError::NetworkNotRunning)
        } else if contract.code_size() == 0 {
            Err(ProvisionError::ContractNotDeployed)
        } else if relay_account.initial_balance == 0 {
            Err(ProvisionError::AccountNotFunded)
        } else {
            Ok(SandboxEnvironment { relay_account, contract, worker })
        }
    }
}

/// Creates the relay's signing account record with the fixed initial
/// balance; the balance is strictly positive.
pub fn new_relay_account(account_id: String) -> (a: SandboxAccount)
    ensures
        a.account_id@ == account_id@,
        a.initial_balance == RELAY_ACCOUNT_INITIAL_BALANCE,
        a.initial_balance > 0,
{
    SandboxAccount { account_id, initial_balance: RELAY_ACCOUNT_INITIAL_BALANCE }
}

/// Where a provisioning run stands: which of the three dependent
/// operations have completed.
#[derive(Clone, Copy, Debug, PartialEq, Eq, Structural)]
pub enum ProvisionPhase {
    /// Nothing has run yet.
    NotStarted,
    /// The isolated network instance is up.
    NetworkRunning,
    /// The contract binary is deployed into the running network.
    ContractDeployed,
    /// The funded sub-account exists; provisioning is complete.
    Ready,
    /// Some operation failed; the whole bootstrap is abandoned.
    Aborted,
}

/// The next asynchronous operation the provisioning driver must perform
/// in a given phase.
#[derive(Clone, Copy, Debug, PartialEq, Eq, Structural)]
pub enum ProvisionAction {
    StartNetwork,
    DeployContract,
    CreateRelayAccount,
    /// Provisioning is complete; hand the environment to the bootstrap.
    Finish,
    /// Provisioning failed; unwind without returning an environment.
    Abort,
}

/// The operation owed in each phase: network start first, then deploy,
/// then account creation, each depending on the previous result.
pub open spec fn action_for_phase(phase: ProvisionPhase) -> ProvisionAction {
    match phase {
        ProvisionPhase::NotStarted => ProvisionAction::StartNetwork,
        ProvisionPhase::NetworkRunning => ProvisionAction::DeployContract,
        ProvisionPhase::ContractDeployed => ProvisionAction::CreateRelayAccount,
        ProvisionPhase::Ready => ProvisionAction::Finish,
        ProvisionPhase::Aborted => ProvisionAction::Abort,
    }
}

/// The phase after one operation reports back: success advances one
/// step, failure aborts; a finished or abandoned run stays where it is.
pub open spec fn advance_spec(phase: ProvisionPhase, step_succeeded: bool) -> ProvisionPhase {
    match phase {
        ProvisionPhase::Ready => ProvisionPhase::Ready,
        ProvisionPhase::Aborted => ProvisionPhase::Aborted,
        ProvisionPhase::NotStarted => if step_succeeded {
            ProvisionPhase::NetworkRunning
        } else {
            ProvisionPhase::Aborted
        },
        ProvisionPhase::NetworkRunning => if step_succeeded {
            ProvisionPhase::ContractDeployed
        } else {
            ProvisionPhase::Aborted
        },
        ProvisionPhase::ContractDeployed => if step_succeeded {
            ProvisionPhase::Ready
        } else {
            ProvisionPhase::Aborted
        },
    }
}

/// Tells the provisioning driver which operation to perform next.
pub fn provision_next_action(phase: ProvisionPhase) -> (a: ProvisionAction)
    ensures
        a == action_for_phase(phase),
{
    match phase {
        ProvisionPhase::NotStarted => ProvisionAction::StartNetwork,
        ProvisionPhase::NetworkRunning => ProvisionAction::DeployContract,
        ProvisionPhase::ContractDeployed => ProvisionAction::CreateRelayAccount,
        ProvisionPhase::Ready => ProvisionAction::Finish,
        ProvisionPhase::Aborted => ProvisionAction::Abort,
    }
}

/// Records the outcome of the operation just performed and moves the
/// run to its next phase.
pub fn provision_advance(phase: ProvisionPhase, step_succeeded: bool) -> (next: ProvisionPhase)
    ensures
        next == advance_spec(phase, step_succeeded),
{
    match phase {
        ProvisionPhase::Ready => ProvisionPhase::Ready,
        ProvisionPhase::Aborted => ProvisionPhase::Aborted,
        ProvisionPhase::NotStarted => if step_succeeded {
            ProvisionPhase::NetworkRunning
        } else {
            ProvisionPhase::Aborted
        },
        ProvisionPhase::NetworkRunning => if step_succeeded {
            ProvisionPhase::ContractDeployed
        } else {
            ProvisionPhase::Aborted
        },
        ProvisionPhase::ContractDeployed => if step_succeeded {
            ProvisionPhase::Ready
        } else {
            ProvisionPhase::Aborted
        },
    }
}

/// The phase a provisioning run reaches after a sequence of operation
/// outcomes, starting from nothing.
pub open spec fn run_provision(outcomes: Seq<bool>) -> ProvisionPhase
    decreases outcomes.len(),
{
    if outcomes.len() == 0 {
        ProvisionPhase::NotStarted
    } else {
        advance_spec(run_provision(outcomes.drop_last()), outcomes.last())
    }
}

/// A provisioning run completes only through all three operations
/// succeeding, in dependency order: no sequence of outcomes reaches
/// `Ready` — and so no environment is ever handed out — unless the
/// network start, the contract deploy and the account creation each
/// reported success, in that order.
pub proof fn lemma_provision_requires_ordered_successes(outcomes: Seq<bool>)
    ensures
        run_provision(outcomes) == ProvisionPhase::NetworkRunning ==> outcomes.len() == 1
            && outcomes[0],
        run_provision(outcomes) == ProvisionPhase::ContractDeployed ==> outcomes.len() == 2
            && outcomes[0] && outcomes[1],
        run_provision(outcomes) == ProvisionPhase::Ready ==> outcomes.len() >= 3 && outcomes[0]
            && outcomes[1] && outcomes[2],
    decreases outcomes.len(),
{
    if outcomes.len() > 0 {
        lemma_provision_requires_ordered_successes(outcomes.drop_last());
        assert(forall|i: int|
            0 <= i < outcomes.len() - 1 ==> #[trigger] outcomes.drop_last()[i] == outcomes[i]);
    }
}

} // verus!
