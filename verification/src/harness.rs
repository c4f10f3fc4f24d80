//! Bootstrap sequencing and the harness factory.
//!
//! The bootstrapper drives the contract's one-time initialization call
//! with a correlated genesis tuple; the factory composes provisioning
//! and bootstrap into a ready contract handle, or wraps that handle into
//! a configured relay driver. The settle-wait after the initialization
//! call — a fixed blocking pause letting the sandbox's consensus layer
//! make the change observable — is owed by the caller that drives the
//! asynchronous environment; its fixed length is defined here.

use vstd::prelude::*;

use crate::config::Config;
use crate::config::get_config;
use crate::config::is_test_config;
use crate::contract::ContractStateView;
use crate::contract::EthClientContract;
use crate::contract::InitializationError;
use crate::correlate::CorrelationError;
use crate::correlate::correlate;
use crate::correlate::correlate_spec;
use crate::sandbox::SandboxEnvironment;
use crate::types::ExecutionHeader;
use crate::types::FixtureSet;
use crate::types::GenesisTuple;
use crate::types::GenesisTupleView;
use crate::types::LightClientUpdate;
use crate::types::SyncCommitteeView;

verus! {

/// How long the bootstrapper pauses after the initialization call, in
/// seconds, before the new state is treated as observable.
pub const SETTLE_WAIT_SECS: u64 = 30;

/// Why a bootstrap did not complete.
#[derive(Clone, Copy, Debug, PartialEq, Eq)]
pub enum BootstrapError {
    /// The fixture set is inconsistent; no contract call was attempted.
    Correlation(CorrelationError),
    /// The contract refused the initialization call.
    Initialization(InitializationError),
}

/// Where the genesis tuple comes from: correlated out of a loaded
/// fixture set, or built by the live-data collaborator in the same
/// shape.
pub enum InitSource {
    FromFiles(FixtureSet),
    FromLive(GenesisTuple),
}

/// The genesis tuple a source determines: the correlation result for a
/// fixture set, the tuple itself for a live-built one.
pub open spec fn genesis_for_source(source: InitSource) -> Option<GenesisTupleView> {
    match source {
        InitSource::FromFiles(fx) => correlate_spec(
            fx.network@,
            fx.light_client_updates@,
            fx.execution_block_headers@,
            fx.current_sync_committee@,
            fx.next_sync_committee@,
        ),
        InitSource::FromLive(tuple) => Some(tuple@),
    }
}

/// Whether a source is usable: a fixture set must be well formed; a
/// live-built tuple always is.
pub open spec fn source_wf(source: InitSource) -> bool {
    match source {
        InitSource::FromFiles(fx) => fx.wf(),
        InitSource::FromLive(_) => true,
    }
}

/// Correlates a loaded fixture set and drives the contract's one-time
/// initialization call with the resulting genesis tuple.
///
/// An inconsistent fixture set fails the bootstrap before any contract
/// call is attempted; an already-initialized contract surfaces the
/// contract's initialization conflict. Either way the contract state is
/// left exactly as it was.
pub fn init_contract_from_files(
    eth_client_contract: &mut EthClientContract,
    fixtures: FixtureSet,
) -> (r: Result<(), BootstrapError>)
    requires
        fixtures.wf(),
    ensures
        final(eth_client_contract)@.code_size == old(eth_client_contract)@.code_size,
        ({
            let genesis = correlate_spec(
                fixtures.network@,
                fixtures.light_client_updates@,
                fixtures.execution_block_headers@,
                fixtures.current_sync_committee@,
                fixtures.next_sync_committee@,
            );
            match r {
                Ok(()) => {
                    &&& genesis is Some
                    &&& genesis->0.consistent()
                    &&& old(eth_client_contract)@.initialized is None
                    &&& final(eth_client_contract)@.initialized == genesis
                },
                Err(e) => match e {
                    BootstrapError::Correlation(c) => {
                        &&& c == CorrelationError::MissingExecutionHeader
                        &&& genesis is None
                        &&& final(eth_client_contract)@ == old(eth_client_contract)@
                    },
                    BootstrapError::Initialization(i) => {
                        &&& i == InitializationError::AlreadyInitialized
                        &&& genesis is Some
                        &&& old(eth_client_contract)@.initialized is Some
                        &&& final(eth_client_contract)@ == old(eth_client_contract)@
                    },
                },
            }
        }),
{
    let FixtureSet {
        network,
        execution_block_headers,
        light_client_updates,
        current_sync_committee,
        next_sync_committee,
    } = fixtures;
    match correlate(
        network,
        &light_client_updates,
        &execution_block_headers,
        current_sync_committee,
        next_sync_committee,
    ) {
        Ok(tuple) => {
            let GenesisTuple {
                network,
                finalized_execution_header,
                finalized_beacon_header,
                current_sync_committee,
                next_sync_committee,
            } = tuple;
            match eth_client_contract.init_contract(
                network,
                finalized_execution_header,
                finalized_beacon_header,
                current_sync_committee,
                next_sync_committee,
            ) {
                Ok(()) => Ok(()),
                Err(e) => Err(BootstrapError::Initialization(e)),
            }
        },
        Err(e) => Err(BootstrapError::Correlation(e)),
    }
}

/// Composes a provisioned sandbox environment and a genesis source into
/// an initialized contract handle.
///
/// The environment is consumed: the handle owns the contract instance.
pub fn get_client_contract(env: SandboxEnvironment, source: InitSource) -> (r: Result<
    EthClientContract,
    BootstrapError,
>)
    requires
        env.wf(),
        source_wf(source),
    ensures
        match r {
            Ok(c) => {
                &&& env.contract@.initialized is None
                &&& c@.code_size == env.contract@.code_size
                &&& genesis_for_source(source) is Some
                &&& c@.initialized == genesis_for_source(source)
            },
            Err(e) => match e {
                BootstrapError::Correlation(c) => {
                    &&& c == CorrelationError::MissingExecutionHeader
                    &&& genesis_for_source(source) is None
                },
                BootstrapError::Initialization(i) => {
                    &&& i == InitializationError::AlreadyInitialized
                    &&& env.contract@.initialized is Some
                },
            },
        },
{
    let SandboxEnvironment { relay_account: _, contract: mut eth_client_contract, worker: _ } =
        env;
    match source {
        InitSource::FromFiles(fixtures) => {
            match init_contract_from_files(&mut eth_client_contract, fixtures) {
                Ok(()) => Ok(eth_client_contract),
                Err(e) => Err(e),
            }
        },
        InitSource::FromLive(tuple) => {
            let GenesisTuple {
                network,
                finalized_execution_header,
                finalized_beacon_header,
                current_sync_committee,
                next_sync_committee,
            } = tuple;
            match eth_client_contract.init_contract(
                network,
                finalized_execution_header,
                finalized_beacon_header,
                current_sync_committee,
                next_sync_committee,
            ) {
                Ok(()) => Ok(eth_client_contract),
                Err(e) => Err(BootstrapError::Initialization(e)),
            }
        },
    }
}

/// A configured relay driver: the initialized contract handle, the fixed
/// configuration, and the feature flags the relay runs with.
pub struct RelayDriver {
    pub config: Config,
    pub client: EthClientContract,
    pub enable_binsearch: bool,
    pub submit_headers: bool,
}

/// Composes provisioning and bootstrap into a relay driver ready for
/// end-to-end runs. The driver always operates in header-submitting
/// mode; binary-search gap recovery is the caller's choice.
pub fn get_relay(env: SandboxEnvironment, enable_binsearch: bool, source: InitSource) -> (r:
    Result<RelayDriver, BootstrapError>)
    requires
        env.wf(),
        source_wf(source),
    ensures
        match r {
            Ok(driver) => {
                &&& is_test_config(driver.config)
                &&& driver.enable_binsearch == enable_binsearch
                &&& driver.submit_headers
                &&& driver.client@.code_size == env.contract@.code_size
                &&& genesis_for_source(source) is Some
                &&& driver.client@.initialized == genesis_for_source(source)
            },
            Err(e) => match e {
                BootstrapError::Correlation(c) => {
                    &&& c == CorrelationError::MissingExecutionHeader
                    &&& genesis_for_source(source) is None
                },
                BootstrapError::Initialization(i) => {
                    &&& i == InitializationError::AlreadyInitialized
                    &&& env.contract@.initialized is Some
                },
            },
        },
{
    let config = get_config();
    match get_client_contract(env, source) {
        Ok(client) => Ok(
            RelayDriver { config, client, enable_binsearch, submit_headers: true },
        ),
        Err(e) => Err(e),
    }
}

/// Independent bootstraps agree: two contracts, each initialized from a
/// source determining the same genesis tuple — two independently
/// provisioned sandboxes bootstrapped from the same fixture set — hold
/// identical initialized state. No state leaks between environments;
/// the genesis state is a function of the fixtures alone.
pub proof fn lemma_independent_bootstraps_agree(
    network: Seq<char>,
    updates: Seq<LightClientUpdate>,
    headers: Seq<ExecutionHeader>,
    current_sync_committee: SyncCommitteeView,
    next_sync_committee: SyncCommitteeView,
    c1: ContractStateView,
    c2: ContractStateView,
)
    requires
        c1.initialized == correlate_spec(
            network,
            updates,
            headers,
            current_sync_committee,
            next_sync_committee,
        ),
        c2.initialized == correlate_spec(
            network,
            updates,
            headers,
            current_sync_committee,
            next_sync_committee,
        ),
    ensures
        c1.initialized == c2.initialized,
{
}

} // verus!
