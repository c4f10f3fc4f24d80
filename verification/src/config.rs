//! The fixed endpoint-and-identifier configuration that the harness hands
//! to the relay driver.
//!
//! The bootstrap itself reads only `network`; the remaining fields are
//! consumed by external collaborators (the live-data clients and the
//! relay) and are carried through unchanged. In from-file mode the
//! NEAR-side identifiers are deliberately inert placeholders.

use vstd::prelude::*;

verus! {

/// A flat set of named endpoints and identifiers, consumed read-only.
#[derive(Clone, Debug, PartialEq, Eq)]
pub struct Config {
    pub beacon_endpoint: String,
    pub eth1_endpoint: String,
    pub total_submit_headers: u32,
    pub near_endpoint: String,
    pub signer_account_id: String,
    pub path_to_signer_secret_key: String,
    pub contract_account_id: String,
    pub network: String,
    pub contract_type: String,
    pub light_client_updates_submission_frequency_in_epochs: u64,
    pub max_blocks_for_finalization: u64,
    pub near_network_id: String,
    pub dao_contract_account_id: Option<String>,
    pub output_dir: Option<String>,
}

/// The fixed configuration of the test harness: kiln-network endpoints,
/// inert NEAR-side identifiers, and the relay's submission parameters.
pub open spec fn is_test_config(c: Config) -> bool {
    &&& c.beacon_endpoint@ == "https://lodestar-kiln.chainsafe.io"@
    &&& c.eth1_endpoint@ == "https://rpc.kiln.themerge.dev"@
    &&& c.total_submit_headers == 8u32
    &&& c.near_endpoint@ == "NaN"@
    &&& c.signer_account_id@ == "NaN"@
    &&& c.path_to_signer_secret_key@ == "NaN"@
    &&& c.contract_account_id@ == "NaN"@
    &&& c.network@ == "kiln"@
    &&& c.contract_type@ == "near"@
    &&& c.light_client_updates_submission_frequency_in_epochs == 1u64
    &&& c.max_blocks_for_finalization == 5000u64
    &&& c.near_network_id@ == "testnet"@
    &&& c.dao_contract_account_id is None
    &&& c.output_dir is None
}

/// Builds the fixed test-harness configuration.
pub fn get_config() -> (c: Config)
    ensures
        is_test_config(c),
{
    Config {
        beacon_endpoint: "https://lodestar-kiln.chainsafe.io".to_owned(),
        eth1_endpoint: "https://rpc.kiln.themerge.dev".to_owned(),
        total_submit_headers: 8,
        near_endpoint: "NaN".to_owned(),
        signer_account_id: "NaN".to_owned(),
        path_to_signer_secret_key: "NaN".to_owned(),
        contract_account_id: "NaN".to_owned(),
        network: "kiln".to_owned(),
        contract_type: "near".to_owned(),
        light_client_updates_submission_frequency_in_epochs: 1,
        max_blocks_for_finalization: 5000,
        near_network_id: "testnet".to_owned(),
        dao_contract_account_id: None,
        output_dir: None,
    }
}

} // verus!
