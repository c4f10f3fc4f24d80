//! Header correlation: matching an execution-chain block header to the
//! finality checkpoint of the anchor light-client update, and assembling
//! the genesis tuple from it.

use vstd::prelude::*;

use crate::types::BlockHash;
use crate::types::ExecutionHeader;
use crate::types::ExtendedBeaconBlockHeader;
use crate::types::GenesisTuple;
use crate::types::GenesisTupleView;
use crate::types::LightClientUpdate;
use crate::types::SyncCommittee;
use crate::types::SyncCommitteeView;
use crate::types::extended_from_header_update;

verus! {

/// Why a genesis tuple could not be assembled.
///
/// An inconsistent fixture set is a fatal precondition violation for the
/// whole bootstrap: the caller must not proceed with a wrong or default
/// header.
#[derive(Clone, Copy, Debug, PartialEq, Eq)]
pub enum CorrelationError {
    /// No loaded execution header has the content hash referenced by the
    /// anchor update's finality record.
    MissingExecutionHeader,
}

/// The execution-block hash referenced by the anchor update: the fixture
/// set's earliest finality transition declares this execution block final.
pub open spec fn anchor_execution_hash(updates: Seq<LightClientUpdate>) -> BlockHash
    recommends
        updates.len() >= 1,
{
    updates[0].finality_update.header_update.execution_block_hash
}

/// The index of the first header in fixture order whose content hash is
/// `target`, or `None` if no header matches. First match wins: fixture
/// sets are assumed hash-unique.
pub open spec fn first_matching_index(
    headers: Seq<ExecutionHeader>,
    target: BlockHash,
) -> Option<int>
    decreases headers.len(),
{
    if headers.len() == 0 {
        None
    } else if headers[0].hash == Some(target) {
        Some(0int)
    } else {
        match first_matching_index(headers.drop_first(), target) {
            Some(i) => Some(i + 1),
            None => None,
        }
    }
}

/// What `first_matching_index` returns: a match is in range, has the
/// target hash, and no earlier header matches; no match means no header
/// in the whole sequence has the target hash.
pub proof fn lemma_first_matching_index(headers: Seq<ExecutionHeader>, target: BlockHash)
    ensures
        match first_matching_index(headers, target) {
            Some(i) => {
                &&& 0 <= i < headers.len()
                &&& headers[i].hash == Some(target)
                &&& forall|j: int| 0 <= j < i ==> (#[trigger] headers[j].hash) != Some(target)
            },
            None => forall|j: int|
                0 <= j < headers.len() ==> (#[trigger] headers[j].hash) != Some(target),
        },
    decreases headers.len(),
{
    if headers.len() == 0 {
    } else if headers[0].hash == Some(target) {
    } else {
        lemma_first_matching_index(headers.drop_first(), target);
        match first_matching_index(headers, target) {
            Some(i) => {
                assert(headers[i] == headers.drop_first()[i - 1]);
                assert forall|j: int| 0 <= j < i implies (#[trigger] headers[j].hash) != Some(
                    target,
                ) by {
                    if j >= 1 {
                        assert(headers[j] == headers.drop_first()[j - 1]);
                    }
                }
            },
            None => {
                assert forall|j: int|
                    0 <= j < headers.len() implies (#[trigger] headers[j].hash) != Some(
                    target,
                ) by {
                    if j >= 1 {
                        assert(headers[j] == headers.drop_first()[j - 1]);
                    }
                }
            },
        }
    }
}

/// The genesis tuple that a fixture set determines, or `None` where the
/// set is inconsistent: the anchor update's finality record names an
/// execution-block hash that no loaded execution header carries.
pub open spec fn correlate_spec(
    network: Seq<char>,
    updates: Seq<LightClientUpdate>,
    headers: Seq<ExecutionHeader>,
    current_sync_committee: SyncCommitteeView,
    next_sync_committee: SyncCommitteeView,
) -> Option<GenesisTupleView>
    recommends
        updates.len() >= 1,
{
    match first_matching_index(headers, anchor_execution_hash(updates)) {
        Some(i) => Some(
            GenesisTupleView {
                network: network,
                finalized_execution_header: headers[i],
                finalized_beacon_header: extended_from_header_update(
                    updates[0].finality_update.header_update,
                ),
                current_sync_committee: current_sync_committee,
                next_sync_committee: next_sync_committee,
            },
        ),
        None => None,
    }
}

/// Scans the headers in fixture order for the first one whose content
/// hash is `target`.
fn find_first_matching(execution_headers: &Vec<ExecutionHeader>, target: BlockHash) -> (r: Option<
    usize,
>)
    ensures
        match r {
            Some(k) => first_matching_index(execution_headers@, target) == Some(k as int),
            None => first_matching_index(execution_headers@, target) is None,
        },
{
    let mut k: usize = 0;
    while k < execution_headers.len()
        invariant
            k <= execution_headers@.len(),
            forall|j: int|
                0 <= j < k ==> (#[trigger] execution_headers@[j].hash) != Some(target),
        decreases execution_headers@.len() - k,
    {
        let header: ExecutionHeader = execution_headers[k];
        let matches_target: bool = match header.hash {
            Some(h) => h == target,
            None => false,
        };
        if matches_target {
            proof {
                lemma_first_matching_index(execution_headers@, target);
            }
            return Some(k);
        }
        k = k + 1;
    }
    proof {
        lemma_first_matching_index(execution_headers@, target);
    }
    None
}

/// Matches the anchor light-client update against the loaded execution
/// headers and assembles the genesis tuple.
///
/// The anchor is `updates[0]`, the earliest finality transition in the
/// fixture set. The execution headers are scanned in fixture order and
/// the first header whose content hash equals the anchor's referenced
/// execution-block hash becomes the finalized execution header; if none
/// matches, the fixture set is inconsistent and correlation fails without
/// building a tuple.
pub fn correlate(
    network: String,
    updates: &Vec<LightClientUpdate>,
    execution_headers: &Vec<ExecutionHeader>,
    current_sync_committee: SyncCommittee,
    next_sync_committee: SyncCommittee,
) -> (r: Result<GenesisTuple, CorrelationError>)
    requires
        updates@.len() >= 1,
    ensures
        match r {
            Ok(tuple) => {
                &&& correlate_spec(
                    network@,
                    updates@,
                    execution_headers@,
                    current_sync_committee@,
                    next_sync_committee@,
                ) == Some(tuple@)
                &&& tuple@.finalized_execution_header.hash == Some(
                    anchor_execution_hash(updates@),
                )
                &&& tuple@.consistent()
            },
            Err(e) => {
                &&& e == CorrelationError::MissingExecutionHeader
                &&& correlate_spec(
                    network@,
                    updates@,
                    execution_headers@,
                    current_sync_committee@,
                    next_sync_committee@,
                ) is None
            },
        },
{
    let ghost spec_result = correlate_spec(
        network@,
        updates@,
        execution_headers@,
        current_sync_committee@,
        next_sync_committee@,
    );
    let anchor: LightClientUpdate = updates[0];
    let target: BlockHash = anchor.finality_update.header_update.execution_block_hash;

    match find_first_matching(execution_headers, target) {
        Some(k) => {
            proof {
                lemma_first_matching_index(execution_headers@, target);
            }
            let header: ExecutionHeader = execution_headers[k];
            let beacon_header = ExtendedBeaconBlockHeader::from_header_update(
                anchor.finality_update.header_update,
            );
            let tuple = GenesisTuple {
                network,
                finalized_execution_header: header,
                finalized_beacon_header: beacon_header,
                current_sync_committee,
                next_sync_committee,
            };
            proof {
                assert(spec_result is Some);
                assert(spec_result->0 =~= tuple@);
            }
            Ok(tuple)
        },
        None => Err(CorrelationError::MissingExecutionHeader),
    }
}

/// Correlation is deterministic: the genesis tuple is a function of the
/// fixture values alone, so two runs over the same fixture set determine
/// identical tuples.
pub proof fn lemma_correlate_deterministic(
    network: Seq<char>,
    updates: Seq<LightClientUpdate>,
    headers: Seq<ExecutionHeader>,
    current_sync_committee: SyncCommitteeView,
    next_sync_committee: SyncCommitteeView,
    r1: Option<GenesisTupleView>,
    r2: Option<GenesisTupleView>,
)
    requires
        r1 == correlate_spec(
            network,
            updates,
            headers,
            current_sync_committee,
            next_sync_committee,
        ),
        r2 == correlate_spec(
            network,
            updates,
            headers,
            current_sync_committee,
            next_sync_committee,
        ),
    ensures
        r1 == r2,
{
}

} // verus!
