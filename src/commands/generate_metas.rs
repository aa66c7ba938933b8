//! The snapshot of every pool at one checkpoint, with checkpoint-wide
//! totals.
use crate::error::PoolError;
use crate::providers::{spec_delegated, StakePoolMeta};
use vstd::prelude::*;

verus! {

/// Why the snapshot of an epoch cannot be had.
#[derive(Clone, Debug)]
pub enum GenerateMetasError {
    /// No snapshot is stored for the epoch at the given place.
    EpochMetasNotFound(String),
}

/// The snapshots of all pools at one checkpoint.
#[derive(Clone, Debug)]
pub struct StakePoolsMetas {
    pub stake_pools: Vec<StakePoolMeta>,
    /// The checkpoint's fingerprint.
    pub bank_hash: String,
    pub total_sol_supply: u64,
    pub total_native_stake: u64,
    pub total_liquid_stake: u64,
    pub total_undelegated_lamports: u64,
    pub epoch: u64,
    /// Seconds that the epoch lasted.
    pub epoch_duration: u64,
    pub slot: u64,
}

/// Lamports delegated by `pools`, added.
pub open spec fn delegated_sum(pools: Seq<StakePoolMeta>) -> int
    decreases pools.len(),
{
    if pools.len() == 0 {
        0
    } else {
        delegated_sum(pools.drop_last()) + spec_delegated(pools.last().spec_allocation())
    }
}

/// Undelegated lamports of `pools`, added.
pub open spec fn undelegated_sum(pools: Seq<StakePoolMeta>) -> int
    decreases pools.len(),
{
    if pools.len() == 0 {
        0
    } else {
        undelegated_sum(pools.drop_last()) + pools.last().spec_allocation().undelegated
    }
}

proof fn lemma_sums_grow(pools: Seq<StakePoolMeta>, k: int)
    requires
        0 <= k <= pools.len(),
    ensures
        delegated_sum(pools.subrange(0, k)) <= delegated_sum(pools),
        undelegated_sum(pools.subrange(0, k)) <= undelegated_sum(pools),
        delegated_sum(pools.subrange(0, k)) >= 0,
        undelegated_sum(pools.subrange(0, k)) >= 0,
    decreases pools.len() - k,
{
    if k < pools.len() {
        lemma_sums_grow(pools, k + 1);
        assert(pools.subrange(0, k + 1).drop_last() =~= pools.subrange(0, k));
    } else {
        assert(pools.subrange(0, k) =~= pools);
    }
    lemma_sums_nonneg(pools.subrange(0, k));
}

proof fn lemma_sums_nonneg(pools: Seq<StakePoolMeta>)
    ensures
        delegated_sum(pools) >= 0,
        undelegated_sum(pools) >= 0,
    decreases pools.len(),
{
    if pools.len() > 0 {
        lemma_sums_nonneg(pools.drop_last());
    }
}

/// Assembles the checkpoint's snapshot: the circulating supply is the
/// capitalization less the non-circulating supply, and the liquid stake
/// and undelegated lamports are those of all pools added.
pub fn generate_stake_pool_metas(
    stake_pools: Vec<StakePoolMeta>,
    bank_hash: String,
    capitalization: u64,
    non_circulating_supply: u64,
    total_native_stake: u64,
    epoch: u64,
    epoch_duration: u64,
    slot: u64,
) -> (r: Result<StakePoolsMetas, PoolError>)
    requires
        forall|i: int| 0 <= i < stake_pools@.len() ==> (#[trigger] stake_pools@[i]).well_formed(),
    ensures
        r is Ok <==> non_circulating_supply <= capitalization && delegated_sum(stake_pools@)
            <= u64::MAX && undelegated_sum(stake_pools@) <= u64::MAX,
        r matches Ok(m) ==> {
            &&& m.stake_pools@ == stake_pools@
            &&& m.bank_hash@ == bank_hash@
            &&& m.total_sol_supply == capitalization - non_circulating_supply
            &&& m.total_native_stake == total_native_stake
            &&& m.total_liquid_stake == delegated_sum(stake_pools@)
            &&& m.total_undelegated_lamports == undelegated_sum(stake_pools@)
            &&& m.epoch == epoch
            &&& m.epoch_duration == epoch_duration
            &&& m.slot == slot
        },
        r matches Err(e) ==> e == PoolError::DataConsistencyFault,
{
    if non_circulating_supply > capitalization {
        return Err(PoolError::DataConsistencyFault);
    }
    let mut liquid: u64 = 0;
    let mut undelegated: u64 = 0;
    let mut i: usize = 0;
    while i < stake_pools.len()
        invariant
            i <= stake_pools@.len(),
            forall|k: int| 0 <= k < stake_pools@.len() ==> (#[trigger] stake_pools@[k]).well_formed(),
            liquid == delegated_sum(stake_pools@.subrange(0, i as int)),
            undelegated == undelegated_sum(stake_pools@.subrange(0, i as int)),
        decreases stake_pools@.len() - i,
    {
        proof {
            assert(stake_pools@.subrange(0, i + 1).drop_last() =~= stake_pools@.subrange(0, i as int));
            lemma_sums_grow(stake_pools@, i + 1);
        }
        let pool = &stake_pools[i];
        assert(pool.well_formed());
        let d = pool.delegated_lamports();
        let u = pool.undelegated_lamports();
        liquid = match liquid.checked_add(d) {
            Some(x) => x,
            None => return Err(PoolError::DataConsistencyFault),
        };
        undelegated = match undelegated.checked_add(u) {
            Some(x) => x,
            None => return Err(PoolError::DataConsistencyFault),
        };
        i = i + 1;
    }
    assert(stake_pools@.subrange(0, i as int) =~= stake_pools@);
    Ok(
        StakePoolsMetas {
            stake_pools,
            bank_hash,
            total_sol_supply: capitalization - non_circulating_supply,
            total_native_stake,
            total_liquid_stake: liquid,
            total_undelegated_lamports: undelegated,
            epoch,
            epoch_duration,
            slot,
        },
    )
}

} // verus!
