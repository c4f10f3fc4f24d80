//! Model of the light-client contract's initialization surface.
//!
//! The harness consumes exactly one operation of the on-chain contract:
//! the one-time initialization call with the five fields of the genesis
//! tuple. The contract's own verification logic is an external
//! collaborator; what the harness relies on — success on the first call,
//! an initialization-conflict error on every later one, and the stored
//! genesis state being the one handed in — is stated and verified here.

use vstd::prelude::*;

use crate::types::ExecutionHeader;
use crate::types::ExtendedBeaconBlockHeader;
use crate::types::GenesisTuple;
use crate::types::GenesisTupleView;
use crate::types::SyncCommittee;

verus! {

/// The error surfaced by the contract's initialization call.
#[derive(Clone, Copy, Debug, PartialEq, Eq)]
pub enum InitializationError {
    /// The contract was already initialized; the call changed nothing.
    AlreadyInitialized,
}

/// Observable state of a deployed light-client contract: the size of the
/// deployed binary and the genesis state it was initialized with, if any.
#[verifier::ext_equal]
pub struct ContractStateView {
    pub code_size: u64,
    pub initialized: Option<GenesisTupleView>,
}

/// A deployed light-client contract instance.
pub struct EthClientContract {
    code_size: u64,
    state: Option<GenesisTuple>,
}

impl View for EthClientContract {
    type V = ContractStateView;

    closed spec fn view(&self) -> ContractStateView {
        ContractStateView {
            code_size: self.code_size,
            initialized: match self.state {
                Some(t) => Some(t@),
                None => None,
            },
        }
    }
}

impl EthClientContract {
    /// A freshly deployed contract instance holding a binary of the
    /// given size; its state is not yet initialized. A size of zero
    /// records a deploy that delivered nothing, which provisioning
    /// refuses to hand out.
    pub fn deploy(code_size: u64) -> (c: EthClientContract)
        ensures
            c@.code_size == code_size,
            c@.initialized is None,
    {
        EthClientContract { code_size, state: None }
    }

    /// Whether the contract holds an initialized genesis state.
    pub fn is_initialized(&self) -> (b: bool)
        ensures
            b == (self@.initialized is Some),
    {
        match &self.state {
            Some(_) => true,
            None => false,
        }
    }

    /// The size of the deployed contract binary.
    pub fn code_size(&self) -> (s: u64)
        ensures
            s == self@.code_size,
    {
        self.code_size
    }

    /// The finalized execution header the contract reports, once
    /// initialized.
    pub fn finalized_execution_header(&self) -> (r: Option<ExecutionHeader>)
        ensures
            match self@.initialized {
                Some(t) => r == Some(t.finalized_execution_header),
                None => r is None,
            },
    {
        match &self.state {
            Some(t) => Some(t.finalized_execution_header),
            None => None,
        }
    }

    /// The one-time initialization call.
    ///
    /// The first call on a freshly deployed contract succeeds and stores
    /// exactly the genesis state handed in; every later call surfaces an
    /// initialization conflict and leaves the stored state untouched.
    pub fn init_contract(
        &mut self,
        network: String,
        finalized_execution_header: ExecutionHeader,
        finalized_beacon_header: ExtendedBeaconBlockHeader,
        current_sync_committee: SyncCommittee,
        next_sync_committee: SyncCommittee,
    ) -> (r: Result<(), InitializationError>)
        ensures
            r is Ok <==> old(self)@.initialized is None,
            final(self)@.code_size == old(self)@.code_size,
            match r {
                Ok(()) => final(self)@.initialized == Some(
                    GenesisTupleView {
                        network: network@,
                        finalized_execution_header: finalized_execution_header,
                        finalized_beacon_header: finalized_beacon_header,
                        current_sync_committee: current_sync_committee@,
                        next_sync_committee: next_sync_committee@,
                    },
                ),
                Err(e) => {
                    &&& e == InitializationError::AlreadyInitialized
                    &&& final(self)@ == old(self)@
                },
            },
    {
        match &self.state {
            Some(_) => Err(InitializationError::AlreadyInitialized),
            None => {
                let tuple = GenesisTuple {
                    network,
                    finalized_execution_header,
                    finalized_beacon_header,
                    current_sync_committee,
                    next_sync_committee,
                };
                self.state = Some(tuple);
                Ok(())
            },
        }
    }
}

} // verus!
