//! Data model of the bootstrap harness.
//!
//! The harness works on plain-value representations of the chain data it
//! correlates: a 32-byte content hash is held as four 64-bit words, a
//! 48-byte BLS public key as six. Everything the correlation and bootstrap
//! logic reads is an integer, an `Option`, a `Vec` or a `String`, so every
//! step of the logic can be specified and verified.

use vstd::prelude::*;

verus! {

/// A 32-byte content hash of an execution- or beacon-chain object,
/// held as four 64-bit words in big-endian word order.
#[derive(Clone, Copy, Debug, PartialEq, Eq, Structural)]
pub struct BlockHash {
    pub w0: u64,
    pub w1: u64,
    pub w2: u64,
    pub w3: u64,
}

/// A 48-byte BLS public key, held as six 64-bit words in big-endian
/// word order.
#[derive(Clone, Copy, Debug, PartialEq, Eq, Structural)]
pub struct PublicKey {
    pub w0: u64,
    pub w1: u64,
    pub w2: u64,
    pub w3: u64,
    pub w4: u64,
    pub w5: u64,
}

/// One block header of the execution chain, as loaded from a fixture set.
/// It carries its own content hash (absent only for a header whose hash
/// was never computed) and its parent linkage.
#[derive(Clone, Copy, Debug, PartialEq, Eq)]
pub struct ExecutionHeader {
    pub parent_hash: BlockHash,
    pub number: u64,
    pub hash: Option<BlockHash>,
}

/// A beacon-chain block header.
#[derive(Clone, Copy, Debug, PartialEq, Eq)]
pub struct BeaconBlockHeader {
    pub slot: u64,
    pub proposer_index: u64,
    pub parent_root: BlockHash,
    pub state_root: BlockHash,
    pub body_root: BlockHash,
}

/// The beacon header being finalized by a light-client update, together
/// with the hash of the execution block that it finalizes.
#[derive(Clone, Copy, Debug, PartialEq, Eq)]
pub struct HeaderUpdate {
    pub beacon_header: BeaconBlockHeader,
    pub execution_block_hash: BlockHash,
}

/// The finality part of a light-client update: which beacon header is
/// declared final.
#[derive(Clone, Copy, Debug, PartialEq, Eq)]
pub struct FinalityUpdate {
    pub header_update: HeaderUpdate,
}

/// One light-client update record, as loaded from a fixture set. Only the
/// finality transition is read by the harness.
#[derive(Clone, Copy, Debug, PartialEq, Eq)]
pub struct LightClientUpdate {
    pub attested_slot: u64,
    pub finality_update: FinalityUpdate,
}

/// The form of a finalized beacon header required by the light-client
/// contract's initialization call. Constructed from a [`HeaderUpdate`],
/// never loaded directly.
#[derive(Clone, Copy, Debug, PartialEq, Eq)]
pub struct ExtendedBeaconBlockHeader {
    pub header: BeaconBlockHeader,
    pub execution_block_hash: BlockHash,
}

/// The extended beacon header derived from a finality header update.
pub open spec fn extended_from_header_update(update: HeaderUpdate) -> ExtendedBeaconBlockHeader {
    ExtendedBeaconBlockHeader {
        header: update.beacon_header,
        execution_block_hash: update.execution_block_hash,
    }
}

impl ExtendedBeaconBlockHeader {
    /// Builds the contract-facing view of a finality header update.
    pub fn from_header_update(update: HeaderUpdate) -> (r: ExtendedBeaconBlockHeader)
        ensures
            r == extended_from_header_update(update),
    {
        ExtendedBeaconBlockHeader {
            header: update.beacon_header,
            execution_block_hash: update.execution_block_hash,
        }
    }
}

/// A fixed validator-committee snapshot seeding the light client's
/// signature-verification window. Loaded independently; nothing is derived
/// from it here.
#[derive(Clone, Debug, PartialEq, Eq)]
pub struct SyncCommittee {
    pub pubkeys: Vec<PublicKey>,
    pub aggregate_pubkey: PublicKey,
}

/// Mathematical view of a [`SyncCommittee`].
#[verifier::ext_equal]
pub struct SyncCommitteeView {
    pub pubkeys: Seq<PublicKey>,
    pub aggregate_pubkey: PublicKey,
}

impl View for SyncCommittee {
    type V = SyncCommitteeView;

    open spec fn view(&self) -> SyncCommitteeView {
        SyncCommitteeView { pubkeys: self.pubkeys@, aggregate_pubkey: self.aggregate_pubkey }
    }
}

/// The complete, consistent initialization payload of the light-client
/// contract: network id, finalized execution header, finalized beacon
/// header, and the current and next sync committees.
///
/// Invariant of a correlated tuple: the finalized execution header's hash
/// equals the execution-block hash referenced by the chosen light-client
/// update's finality record; `correlate` refuses to build a tuple for
/// which no such header exists.
#[derive(Clone, Debug, PartialEq, Eq)]
pub struct GenesisTuple {
    pub network: String,
    pub finalized_execution_header: ExecutionHeader,
    pub finalized_beacon_header: ExtendedBeaconBlockHeader,
    pub current_sync_committee: SyncCommittee,
    pub next_sync_committee: SyncCommittee,
}

/// Mathematical view of a [`GenesisTuple`].
#[verifier::ext_equal]
pub struct GenesisTupleView {
    pub network: Seq<char>,
    pub finalized_execution_header: ExecutionHeader,
    pub finalized_beacon_header: ExtendedBeaconBlockHeader,
    pub current_sync_committee: SyncCommitteeView,
    pub next_sync_committee: SyncCommitteeView,
}

impl GenesisTupleView {
    /// The correlation invariant of an assembled tuple: the finalized
    /// execution header's content hash is exactly the execution-block
    /// hash that the finalized beacon header declares final.
    pub open spec fn consistent(self) -> bool {
        self.finalized_execution_header.hash == Some(
            self.finalized_beacon_header.execution_block_hash,
        )
    }
}

impl View for GenesisTuple {
    type V = GenesisTupleView;

    open spec fn view(&self) -> GenesisTupleView {
        GenesisTupleView {
            network: self.network@,
            finalized_execution_header: self.finalized_execution_header,
            finalized_beacon_header: self.finalized_beacon_header,
            current_sync_committee: self.current_sync_committee@,
            next_sync_committee: self.next_sync_committee@,
        }
    }
}

/// One loaded fixture set: the four data sources the harness reads,
/// plus the network id the set belongs to.
#[derive(Clone, Debug, PartialEq, Eq)]
pub struct FixtureSet {
    pub network: String,
    pub execution_block_headers: Vec<ExecutionHeader>,
    pub light_client_updates: Vec<LightClientUpdate>,
    pub current_sync_committee: SyncCommittee,
    pub next_sync_committee: SyncCommittee,
}

impl FixtureSet {
    /// A fixture set usable as a bootstrap source: it holds at least one
    /// light-client update, so that an anchor checkpoint exists.
    pub open spec fn wf(self) -> bool {
        self.light_client_updates@.len() >= 1
    }
}

} // verus!
