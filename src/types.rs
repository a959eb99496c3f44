//! Plain-value data of the bundle sender: hashes, entities, proposed bundles,
//! tracker reports and the outcome of a submission sequence.
use vstd::prelude::*;

use crate::gas::GasFees;

verus! {

/// A 32-byte hash: of a user operation or of a transaction.
pub type H256 = [u8; 32];

/// A 20-byte account address.
pub type Address = [u8; 20];

/// The role that an entity plays in a user operation.
#[derive(Clone, Copy, Debug, PartialEq, Eq, Structural)]
pub enum EntityType {
    Account,
    Paymaster,
    Factory,
    Aggregator,
}

/// An entity that the pool can banish, by role and address.
#[derive(Clone, Copy, Debug)]
pub struct Entity {
    pub kind: EntityType,
    pub address: Address,
}

/// The operations of a bundle that share one aggregator, each given by its
/// hash, which is derived from the operation, the entry point and the chain.
#[derive(Clone, Debug)]
pub struct AggregatorOps {
    pub aggregator: Option<Address>,
    pub op_hashes: Vec<H256>,
}

/// What the proposer offers at a fee floor: the accepted operations grouped by
/// aggregator, the gas and fees it estimated, and what it rejected.
#[derive(Clone, Debug)]
pub struct ProposedBundle {
    pub ops_per_aggregator: Vec<AggregatorOps>,
    pub gas_estimate: u64,
    pub gas_fees: GasFees,
    pub rejected_op_hashes: Vec<H256>,
    pub rejected_entities: Vec<Entity>,
}

/// The hashes of a bundle's accepted operations, group after group, in order.
pub open spec fn op_hashes_of(groups: Seq<AggregatorOps>) -> Seq<H256> {
    groups.map_values(|g: AggregatorOps| g.op_hashes@).flatten()
}

impl ProposedBundle {
    /// Whether the bundle holds no accepted operation.
    pub open spec fn is_empty_spec(&self) -> bool {
        op_hashes_of(self.ops_per_aggregator@).len() == 0
    }

    /// Whether the bundle holds no accepted operation.
    pub fn is_empty(&self) -> (r: bool)
        ensures
            r == self.is_empty_spec(),
    {
        let hashes = crate::bundle::collect_op_hashes(&self.ops_per_aggregator);
        hashes.len() == 0
    }
}

/// What the transaction tracker reports about the transactions it sent.
#[derive(Clone, Copy, Debug)]
pub enum TrackerUpdate {
    /// A transaction of the sequence was mined.
    Mined {
        tx_hash: H256,
        nonce: u128,
        gas_fees: GasFees,
        block_number: u64,
        attempt_number: u64,
    },
    /// The latest transaction is still pending after the tracker's wait.
    StillPendingAfterWait,
    /// The latest transaction was dropped.
    LatestTxDropped { nonce: u128 },
    /// Another transaction took the nonce.
    NonceUsedForOtherTx { nonce: u128 },
}

/// What the tracker answers to a submission.
#[derive(Clone, Copy, Debug)]
pub enum SendResult {
    /// The tracker already knows the fate of the sequence.
    TrackerUpdate(TrackerUpdate),
    /// The transaction is in flight under this hash.
    TxHash(H256),
}

/// The outcome of one submission sequence.
#[derive(Clone, Debug)]
pub enum SendBundleResult {
    Success { block_number: u64, attempt_number: u64, tx_hash: H256 },
    NoOperationsInitially,
    NoOperationsAfterFeeIncreases { initial_op_count: usize, attempt_number: u64 },
    StalledAtMaxFeeIncreases,
    Error(String),
}

/// The submitted transaction that a formed-bundle event describes.
#[derive(Clone, Debug)]
pub struct BundleTxDetails {
    pub tx_hash: H256,
    pub op_hashes: Vec<H256>,
}

/// An event of one builder; nonces are given by their low 64 bits.
#[derive(Clone, Debug)]
pub enum BuilderEvent {
    FormedBundle {
        builder_id: u64,
        tx_details: Option<BundleTxDetails>,
        nonce: u64,
        fee_increase_count: u64,
        required_fees: Option<GasFees>,
    },
    TransactionMined { builder_id: u64, tx_hash: H256, nonce: u64, block_number: u64 },
    LatestTransactionDropped { builder_id: u64, nonce: u64 },
    NonceUsedForOtherTransaction { builder_id: u64, nonce: u64 },
}

/// The low 64 bits of a nonce.
pub open spec fn low_u64_spec(n: u128) -> u64 {
    (n % 0x1_0000_0000_0000_0000) as u64
}

/// Returns the low 64 bits of a nonce.
pub fn low_u64(n: u128) -> (r: u64)
    ensures
        r == low_u64_spec(n),
{
    (n % 0x1_0000_0000_0000_0000u128) as u64
}

} // verus!
