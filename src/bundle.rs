//! Turning a proposed bundle into the transaction request and the pool
//! removals of one attempt.
use vstd::prelude::*;

use crate::gas::{increase_by_percent, increased_by_percent, GasFees};
use crate::types::{op_hashes_of, AggregatorOps, Entity, ProposedBundle, H256};

verus! {

/// The overhead added to the proposer's gas estimate, in percent, for its inaccuracies.
pub const GAS_ESTIMATE_OVERHEAD_PERCENT: u64 = 10;

/// The gas limit for an estimate: the estimate raised by the overhead, rounded up.
pub open spec fn gas_limit_for(estimate: u64) -> int {
    increased_by_percent(estimate as int, GAS_ESTIMATE_OVERHEAD_PERCENT as int)
}

/// Returns the gas limit for an estimate: the estimate raised by the overhead, rounded up.
pub fn gas_limit_with_overhead(estimate: u64) -> (r: u128)
    ensures
        r == gas_limit_for(estimate),
{
    assert(estimate * (100 + GAS_ESTIMATE_OVERHEAD_PERCENT) + 99 <= u128::MAX) by (nonlinear_arith)
        requires
            estimate <= u64::MAX,
    ;
    increase_by_percent(estimate as u128, GAS_ESTIMATE_OVERHEAD_PERCENT)
}

/// Returns the hashes of a bundle's operations, group after group, in order.
pub fn collect_op_hashes(groups: &Vec<AggregatorOps>) -> (r: Vec<H256>)
    ensures
        r@ == op_hashes_of(groups@),
{
    let mut out: Vec<H256> = Vec::new();
    let mut i: usize = 0;
    while i < groups.len()
        invariant
            i <= groups@.len(),
            out@ == op_hashes_of(groups@.subrange(0, i as int)),
        decreases groups@.len() - i,
    {
        let group = &groups[i];
        let mut j: usize = 0;
        while j < group.op_hashes.len()
            invariant
                j <= group.op_hashes@.len(),
                out@ == op_hashes_of(groups@.subrange(0, i as int)) + group.op_hashes@.subrange(
                    0,
                    j as int,
                ),
            decreases group.op_hashes@.len() - j,
        {
            out.push(group.op_hashes[j]);
            proof {
                assert(group.op_hashes@.subrange(0, j + 1) =~= group.op_hashes@.subrange(
                    0,
                    j as int,
                ).push(group.op_hashes@[j as int]));
            }
            j = j + 1;
        }
        proof {
            let f = |g: AggregatorOps| g.op_hashes@;
            let before = groups@.subrange(0, i as int);
            assert(groups@.subrange(0, i + 1) =~= before.push(groups@[i as int]));
            assert(groups@.subrange(0, i + 1).map_values(f) =~= before.map_values(f).push(
                group.op_hashes@,
            ));
            before.map_values(f).lemma_flatten_push(group.op_hashes@);
            assert(group.op_hashes@.subrange(0, j as int) =~= group.op_hashes@);
        }
        i = i + 1;
    }
    assert(groups@.subrange(0, groups@.len() as int) =~= groups@);
    out
}

/// Returns a copy of a vector of plain values.
pub(crate) fn copy_all<T: Copy>(v: &Vec<T>) -> (r: Vec<T>)
    ensures
        r@ == v@,
{
    let mut out: Vec<T> = Vec::new();
    let mut i: usize = 0;
    while i < v.len()
        invariant
            i <= v@.len(),
            out@ == v@.subrange(0, i as int),
        decreases v@.len() - i,
    {
        out.push(v[i]);
        proof {
            assert(v@.subrange(0, i + 1) =~= v@.subrange(0, i as int).push(v@[i as int]));
        }
        i = i + 1;
    }
    assert(v@.subrange(0, v@.len() as int) =~= v@);
    out
}

/// The transaction that an attempt asks the entry point to build.
#[derive(Clone, Debug)]
pub struct BundleTxRequest {
    /// Gas limit: the proposer's estimate with the overhead added.
    pub gas: u128,
    /// The fees that the proposer chose.
    pub gas_fees: GasFees,
    /// The signer's nonce for the sequence.
    pub nonce: u128,
    /// The hashes of the included operations, in bundle order.
    pub op_hashes: Vec<H256>,
}

/// What one attempt does with a proposed bundle: the rejected operations and
/// entities to remove from the pool, and the transaction to build, if any.
#[derive(Clone, Debug)]
pub struct BundlePlan {
    pub remove_op_hashes: Vec<H256>,
    pub remove_entities: Vec<Entity>,
    pub tx: Option<BundleTxRequest>,
}

/// Plans one attempt from a proposed bundle. The rejected operations and
/// entities are always removed from the pool, also when the bundle is empty;
/// a transaction is built only from a bundle with operations.
pub fn plan_bundle_tx(bundle: &ProposedBundle, nonce: u128) -> (r: BundlePlan)
    ensures
        r.remove_op_hashes@ == bundle.rejected_op_hashes@,
        r.remove_entities@ == bundle.rejected_entities@,
        r.tx.is_none() <==> bundle.is_empty_spec(),
        r.tx.is_some() ==> ({
            let t = r.tx.unwrap();
            &&& t.gas == gas_limit_for(bundle.gas_estimate)
            &&& t.gas_fees == bundle.gas_fees
            &&& t.nonce == nonce
            &&& t.op_hashes@ == op_hashes_of(bundle.ops_per_aggregator@)
        }),
{
    let remove_op_hashes = copy_all(&bundle.rejected_op_hashes);
    let remove_entities = copy_all(&bundle.rejected_entities);
    let op_hashes = collect_op_hashes(&bundle.ops_per_aggregator);
    if op_hashes.len() == 0 {
        return BundlePlan { remove_op_hashes, remove_entities, tx: None };
    }
    let gas = gas_limit_with_overhead(bundle.gas_estimate);
    BundlePlan {
        remove_op_hashes,
        remove_entities,
        tx: Some(BundleTxRequest { gas, gas_fees: bundle.gas_fees, nonce, op_hashes }),
    }
}

} // verus!
