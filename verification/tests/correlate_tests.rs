use eth2near_harness::correlate::CorrelationError;
use eth2near_harness::correlate::correlate;
use eth2near_harness::types::BeaconBlockHeader;
use eth2near_harness::types::BlockHash;
use eth2near_harness::types::ExecutionHeader;
use eth2near_harness::types::ExtendedBeaconBlockHeader;
use eth2near_harness::types::FinalityUpdate;
use eth2near_harness::types::HeaderUpdate;
use eth2near_harness::types::LightClientUpdate;
use eth2near_harness::types::PublicKey;
use eth2near_harness::types::SyncCommittee;

fn hash(tag: u64) -> BlockHash {
    BlockHash { w0: tag, w1: tag.wrapping_mul(3), w2: tag.wrapping_mul(5), w3: tag.wrapping_mul(7) }
}

fn pubkey(tag: u64) -> PublicKey {
    PublicKey { w0: tag, w1: tag + 1, w2: tag + 2, w3: tag + 3, w4: tag + 4, w5: tag + 5 }
}

fn committee(tag: u64) -> SyncCommittee {
    SyncCommittee {
        pubkeys: vec![pubkey(tag), pubkey(tag + 10), pubkey(tag + 20)],
        aggregate_pubkey: pubkey(tag + 30),
    }
}

fn header(number: u64, content_hash: BlockHash) -> ExecutionHeader {
    ExecutionHeader { parent_hash: hash(number.wrapping_sub(1)), number, hash: Some(content_hash) }
}

fn anchor_update(target: BlockHash) -> LightClientUpdate {
    LightClientUpdate {
        attested_slot: 4096,
        finality_update: FinalityUpdate {
            header_update: HeaderUpdate {
                beacon_header: BeaconBlockHeader {
                    slot: 4064,
                    proposer_index: 17,
                    parent_root: hash(900),
                    state_root: hash(901),
                    body_root: hash(902),
                },
                execution_block_hash: target,
            },
        },
    }
}

/// Fifty headers in a contiguous range; the target hash sits at position 3.
fn fifty_headers_with_target_at_3(target: BlockHash) -> Vec<ExecutionHeader> {
    let mut headers = Vec::new();
    for i in 0..50u64 {
        let content = if i == 3 { target } else { hash(1000 + i) };
        headers.push(header(1099394 + i, content));
    }
    headers
}

#[test]
fn correlate_returns_header_matching_anchor_hash() {
    let target = hash(42);
    let updates = vec![anchor_update(target)];
    let headers = fifty_headers_with_target_at_3(target);

    let tuple = correlate("kiln".to_owned(), &updates, &headers, committee(1), committee(2))
        .expect("consistent fixture set must correlate");

    assert_eq!(tuple.finalized_execution_header.hash, Some(target));
    assert_eq!(tuple.finalized_execution_header, headers[3]);
    assert_eq!(tuple.finalized_execution_header.number, 1099394 + 3);
    assert_eq!(tuple.network, "kiln".to_owned());
    assert_eq!(
        tuple.finalized_beacon_header,
        ExtendedBeaconBlockHeader {
            header: updates[0].finality_update.header_update.beacon_header,
            execution_block_hash: target,
        }
    );
    assert_eq!(tuple.current_sync_committee, committee(1));
    assert_eq!(tuple.next_sync_committee, committee(2));
}

#[test]
fn correlate_uses_first_update_as_anchor() {
    let target = hash(42);
    let decoy = hash(43);
    let mut updates = vec![anchor_update(target), anchor_update(decoy)];
    updates[1].attested_slot = 8192;
    let headers = vec![header(1, decoy), header(2, target)];

    let tuple = correlate("kiln".to_owned(), &updates, &headers, committee(1), committee(2))
        .expect("anchor hash is present");

    assert_eq!(tuple.finalized_execution_header.number, 2);
    assert_eq!(tuple.finalized_execution_header.hash, Some(target));
}

#[test]
fn correlate_first_match_wins() {
    let target = hash(42);
    let updates = vec![anchor_update(target)];
    let headers = vec![header(10, hash(1)), header(11, target), header(12, hash(2))];

    let tuple = correlate("kiln".to_owned(), &updates, &headers, committee(1), committee(2))
        .expect("target hash is present");

    assert_eq!(tuple.finalized_execution_header.number, 11);
}

#[test]
fn correlate_skips_headers_without_content_hash() {
    let target = hash(42);
    let updates = vec![anchor_update(target)];
    let unhashed = ExecutionHeader { parent_hash: hash(0), number: 9, hash: None };
    let headers = vec![unhashed, header(10, target)];

    let tuple = correlate("kiln".to_owned(), &updates, &headers, committee(1), committee(2))
        .expect("the hashed header still matches");

    assert_eq!(tuple.finalized_execution_header.number, 10);
}

#[test]
fn correlate_fails_without_matching_header() {
    let target = hash(42);
    let updates = vec![anchor_update(target)];
    let mut headers = fifty_headers_with_target_at_3(target);
    headers.remove(3);

    let result = correlate("kiln".to_owned(), &updates, &headers, committee(1), committee(2));

    assert_eq!(result, Err(CorrelationError::MissingExecutionHeader));
}

#[test]
fn correlate_fails_on_empty_header_set() {
    let target = hash(42);
    let updates = vec![anchor_update(target)];
    let headers: Vec<ExecutionHeader> = Vec::new();

    let result = correlate("kiln".to_owned(), &updates, &headers, committee(1), committee(2));

    assert_eq!(result, Err(CorrelationError::MissingExecutionHeader));
}

#[test]
fn correlate_is_deterministic() {
    let target = hash(42);

    let updates_a = vec![anchor_update(target)];
    let headers_a = fifty_headers_with_target_at_3(target);
    let first = correlate("kiln".to_owned(), &updates_a, &headers_a, committee(1), committee(2))
        .expect("consistent fixture set must correlate");

    let updates_b = vec![anchor_update(target)];
    let headers_b = fifty_headers_with_target_at_3(target);
    let second = correlate("kiln".to_owned(), &updates_b, &headers_b, committee(1), committee(2))
        .expect("consistent fixture set must correlate");

    assert_eq!(first, second);
}

#[test]
fn extended_beacon_header_carries_update_fields() {
    let target = hash(42);
    let update = anchor_update(target);
    let extended =
        ExtendedBeaconBlockHeader::from_header_update(update.finality_update.header_update);

    assert_eq!(extended.header, update.finality_update.header_update.beacon_header);
    assert_eq!(extended.execution_block_hash, target);
}
