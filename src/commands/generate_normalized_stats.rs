//! Per-pool statistics of an epoch, joined with the neighbouring epochs'
//! snapshots by pool identity.
use crate::address::{base58_of, Address};
use crate::commands::generate_metas::StakePoolsMetas;
use crate::providers::{spec_delegated, spec_yielding, Ratio, StakePoolMeta, SECONDS_PER_DAY};
use vstd::prelude::*;

verus! {

/// Seconds in a year of 365 days.
pub const SECONDS_PER_YEAR: u64 = SECONDS_PER_DAY * 365;

/// Statistics of one pool for an epoch. The yield figures are derived from
/// `total_rewards`, `yielding_lamports`, `lst_price`, `next_lst_price` and
/// `epochs_per_year`.
#[derive(Clone, Debug)]
pub struct EpochStakePoolStats {
    pub address: String,
    pub manager: String,
    pub management_fee: Ratio,
    pub provider: String,
    pub is_valid: bool,
    pub mint: String,
    pub lst_price: Ratio,
    pub lst_supply: u64,
    pub staked_validator_count: u64,
    pub undelegated_lamports: u64,
    pub total_lamports_locked: u64,
    pub active_lamports: u64,
    pub activating_lamports: u64,
    pub deactivating_lamports: u64,
    pub inflation_rewards: u64,
    pub jito_rewards: u64,
    /// Change of the locked lamports since the previous epoch; 0 without a
    /// previous snapshot of the pool.
    pub liquidity_delta: i128,
    pub total_rewards: u64,
    pub yielding_lamports: u64,
    /// The price the pool's token reached at the next epoch.
    pub next_lst_price: Ratio,
    /// Epochs of the target epoch's length in a year.
    pub epochs_per_year: Ratio,
}

/// The statistics of all pools for an epoch, with checkpoint-wide totals.
#[derive(Clone, Debug)]
pub struct EpochStakePoolStatsCollection {
    pub epoch: u64,
    pub total_sol_supply: u64,
    pub total_native_stake: u64,
    pub total_liquid_stake: u64,
    pub total_undelegated_lamports: u64,
    pub stake_pools: Vec<EpochStakePoolStats>,
}

/// Epochs of `duration` seconds in a year.
pub open spec fn spec_epochs_per_year(duration: u64) -> Ratio {
    Ratio { numerator: SECONDS_PER_YEAR, denominator: duration }
}

/// The pool's total lamports, as an integer.
pub open spec fn spec_total(m: StakePoolMeta) -> int {
    spec_delegated(m.spec_allocation()) + m.spec_allocation().undelegated
}

/// The change of the pool's locked lamports since `prev`.
pub open spec fn spec_liquidity_delta(target: StakePoolMeta, prev: Option<StakePoolMeta>) -> int {
    match prev {
        Some(p) => spec_total(target) - spec_total(p),
        None => 0,
    }
}

/// The price to measure the realized yield against: the next epoch's
/// snapshot's, or else the price fetched now.
pub open spec fn spec_next_price(next: Option<StakePoolMeta>, live: Ratio) -> Ratio {
    match next {
        Some(n) => n.spec_lst_price(),
        None => live,
    }
}

/// Whether `s` holds the statistics of `target` against its neighbours.
#[verifier::opaque]
pub open spec fn stats_of(
    s: EpochStakePoolStats,
    target: StakePoolMeta,
    duration: u64,
    prev: Option<StakePoolMeta>,
    next: Option<StakePoolMeta>,
    live: Ratio,
) -> bool {
    let a = target.spec_allocation();
    &&& s.address@ == base58_of(target.identity()@)
    &&& s.manager@ == base58_of(target.spec_manager()@)
    &&& s.mint@ == base58_of(target.spec_mint()@)
    &&& s.management_fee == target.spec_management_fee()
    &&& s.is_valid == target.spec_is_valid()
    &&& s.lst_price == target.spec_lst_price()
    &&& s.lst_supply == target.spec_lst_supply()
    &&& s.staked_validator_count == target.spec_staked_validator_count()
    &&& s.undelegated_lamports == a.undelegated
    &&& s.total_lamports_locked == spec_total(target)
    &&& s.active_lamports == a.active
    &&& s.activating_lamports == a.activating
    &&& s.deactivating_lamports == a.deactivating
    &&& s.inflation_rewards == target.spec_rewards().inflation
    &&& s.jito_rewards == target.spec_rewards().jito
    &&& s.liquidity_delta == spec_liquidity_delta(target, prev)
    &&& s.total_rewards == target.spec_rewards().inflation + target.spec_rewards().jito
    &&& s.yielding_lamports == spec_yielding(a)
    &&& s.next_lst_price == spec_next_price(next, live)
    &&& s.epochs_per_year == spec_epochs_per_year(duration)
}

/// The statistics of `target_epoch_meta` for its epoch, which lasted
/// `target_epoch_duration` seconds. `live_lst_price` stands in for the next
/// epoch's price when `next_epoch_meta` is absent.
pub fn generate_stake_pool_stats(
    target_epoch_meta: &StakePoolMeta,
    target_epoch_duration: u64,
    prev_epoch_meta: Option<&StakePoolMeta>,
    next_epoch_meta: Option<&StakePoolMeta>,
    live_lst_price: Ratio,
) -> (r: EpochStakePoolStats)
    requires
        target_epoch_meta.well_formed(),
        prev_epoch_meta matches Some(p) ==> p.well_formed(),
    ensures
        stats_of(
            r,
            *target_epoch_meta,
            target_epoch_duration,
            match prev_epoch_meta {
                Some(p) => Some(*p),
                None => None,
            },
            match next_epoch_meta {
                Some(n) => Some(*n),
                None => None,
            },
            live_lst_price,
        ),
{
    reveal(stats_of);
    let allocation = target_epoch_meta.lamports_allocation();
    let rewards = target_epoch_meta.rewards();
    let total_lamports_locked = target_epoch_meta.total_lamports();
    let liquidity_delta: i128 = match prev_epoch_meta {
        Some(p) => total_lamports_locked as i128 - p.total_lamports() as i128,
        None => 0,
    };
    let next_lst_price = match next_epoch_meta {
        Some(n) => n.lst_price(),
        None => live_lst_price,
    };
    EpochStakePoolStats {
        address: target_epoch_meta.address(),
        manager: target_epoch_meta.manager(),
        management_fee: target_epoch_meta.management_fee(),
        provider: target_epoch_meta.provider(),
        is_valid: target_epoch_meta.is_valid(),
        mint: target_epoch_meta.mint(),
        lst_price: target_epoch_meta.lst_price(),
        lst_supply: target_epoch_meta.lst_supply(),
        staked_validator_count: target_epoch_meta.staked_validator_count(),
        undelegated_lamports: allocation.undelegated,
        total_lamports_locked,
        active_lamports: allocation.active,
        activating_lamports: allocation.activating,
        deactivating_lamports: allocation.deactivating,
        inflation_rewards: rewards.inflation,
        jito_rewards: rewards.jito,
        liquidity_delta,
        total_rewards: target_epoch_meta.total_rewards(),
        yielding_lamports: target_epoch_meta.yielding_lamports(),
        next_lst_price,
        epochs_per_year: Ratio { numerator: SECONDS_PER_YEAR, denominator: target_epoch_duration },
    }
}

/// The index of the first of `pools`, from `from` on, with identity `key`.
pub open spec fn first_index(pools: Seq<StakePoolMeta>, key: Seq<u8>, from: int) -> Option<int>
    decreases pools.len() - from,
{
    if from < 0 || from >= pools.len() {
        None
    } else if pools[from].identity()@ == key {
        Some(from)
    } else {
        first_index(pools, key, from + 1)
    }
}

proof fn lemma_first_index_in_range(pools: Seq<StakePoolMeta>, key: Seq<u8>, from: int)
    requires
        0 <= from,
    ensures
        first_index(pools, key, from) matches Some(i) ==> from <= i < pools.len()
            && pools[i].identity()@ == key,
    decreases pools.len() - from,
{
    if from < pools.len() && pools[from].identity()@ != key {
        lemma_first_index_in_range(pools, key, from + 1);
    }
}

/// The index of the first of `pools` with identity `key`.
pub fn find_pool(pools: &Vec<StakePoolMeta>, key: &Address) -> (r: Option<usize>)
    ensures
        match r {
            Some(i) => first_index(pools@, key@, 0) == Some(i as int),
            None => first_index(pools@, key@, 0) is None,
        },
{
    let mut i: usize = 0;
    while i < pools.len()
        invariant
            i <= pools@.len(),
            first_index(pools@, key@, 0) == first_index(pools@, key@, i as int),
        decreases pools@.len() - i,
    {
        if pools[i].address_key().same(key) {
            return Some(i);
        }
        i = i + 1;
    }
    None
}

/// The snapshot of pool `key` in an optional neighbouring checkpoint.
pub open spec fn neighbour(metas: Option<StakePoolsMetas>, key: Seq<u8>) -> Option<StakePoolMeta> {
    match metas {
        Some(m) => match first_index(m.stake_pools@, key, 0) {
            Some(i) => Some(m.stake_pools@[i]),
            None => None,
        },
        None => None,
    }
}

fn find_neighbour<'a>(metas: Option<&'a StakePoolsMetas>, key: &Address) -> (r: Option<&'a StakePoolMeta>)
    ensures
        match r {
            Some(p) => neighbour(held(metas), key@) == Some(*p),
            None => neighbour(held(metas), key@) is None,
        },
{
    match metas {
        None => None,
        Some(m) => match find_pool(&m.stake_pools, key) {
            Some(i) => {
                proof {
                    lemma_first_index_in_range(m.stake_pools@, key@, 0);
                }
                Some(&m.stake_pools[i])
            },
            None => None,
        },
    }
}

/// The checkpoint that an optional reference holds.
pub open spec fn held(m: Option<&StakePoolsMetas>) -> Option<StakePoolsMetas> {
    match m {
        Some(x) => Some(*x),
        None => None,
    }
}

/// Whether every pool of `pools` is well formed.
#[verifier::opaque]
pub open spec fn all_well_formed(pools: Seq<StakePoolMeta>) -> bool {
    forall|i: int| 0 <= i < pools.len() ==> (#[trigger] pools[i]).well_formed()
}

/// Checks `all_well_formed`.
pub fn check_all_well_formed(pools: &Vec<StakePoolMeta>) -> (r: bool)
    ensures
        r == all_well_formed(pools@),
{
    reveal(all_well_formed);
    let mut i: usize = 0;
    while i < pools.len()
        invariant
            i <= pools@.len(),
            forall|k: int| 0 <= k < i ==> (#[trigger] pools@[k]).well_formed(),
        decreases pools@.len() - i,
    {
        if !pools[i].is_well_formed() {
            assert(!pools@[i as int].well_formed());
            reveal(all_well_formed);
            return false;
        }
        i = i + 1;
    }
    true
}

/// The statistics of pool `i` of the target checkpoint.
fn pool_stats(
    target: &StakePoolsMetas,
    i: usize,
    prev: Option<&StakePoolsMetas>,
    next: Option<&StakePoolsMetas>,
    live_lst_price: Ratio,
) -> (r: EpochStakePoolStats)
    requires
        i < target.stake_pools@.len(),
        all_well_formed(target.stake_pools@),
        held(prev) matches Some(p) ==> all_well_formed(p.stake_pools@),
    ensures
        stats_of(
            r,
            target.stake_pools@[i as int],
            target.epoch_duration,
            neighbour(held(prev), target.stake_pools@[i as int].identity()@),
            neighbour(held(next), target.stake_pools@[i as int].identity()@),
            live_lst_price,
        ),
{
    proof {
        lemma_element_well_formed(target.stake_pools@, i as int);
    }
    let pool = &target.stake_pools[i];
    let key = pool.address_key();
    let p = find_neighbour(prev, &key);
    let n = find_neighbour(next, &key);
    proof {
        if p is Some {
            lemma_neighbour_well_formed(held(prev), key@);
        }
    }
    generate_stake_pool_stats(pool, target.epoch_duration, p, n, live_lst_price)
}

proof fn lemma_element_well_formed(pools: Seq<StakePoolMeta>, i: int)
    requires
        all_well_formed(pools),
        0 <= i < pools.len(),
    ensures
        pools[i].well_formed(),
{
    reveal(all_well_formed);
}

proof fn lemma_neighbour_well_formed(metas: Option<StakePoolsMetas>, key: Seq<u8>)
    requires
        metas matches Some(m) ==> all_well_formed(m.stake_pools@),
        neighbour(metas, key) is Some,
    ensures
        neighbour(metas, key)->0.well_formed(),
{
    let m = metas->0;
    lemma_first_index_in_range(m.stake_pools@, key, 0);
    lemma_element_well_formed(m.stake_pools@, first_index(m.stake_pools@, key, 0)->0);
}

/// Statistics of every pool of the target checkpoint, each joined by
/// identity with its snapshot in the previous and next checkpoints, where
/// those exist. `live_lst_prices[i]` is the price of pool `i` fetched now,
/// used where the next checkpoint lacks the pool.
pub fn generate_normalized_stats(
    epoch: u64,
    target: &StakePoolsMetas,
    prev: Option<&StakePoolsMetas>,
    next: Option<&StakePoolsMetas>,
    live_lst_prices: &Vec<Ratio>,
) -> (r: EpochStakePoolStatsCollection)
    requires
        live_lst_prices@.len() == target.stake_pools@.len(),
        all_well_formed(target.stake_pools@),
        held(prev) matches Some(p) ==> all_well_formed(p.stake_pools@),
    ensures
        r.epoch == epoch,
        r.total_sol_supply == target.total_sol_supply,
        r.total_native_stake == target.total_native_stake,
        r.total_liquid_stake == target.total_liquid_stake,
        r.total_undelegated_lamports == target.total_undelegated_lamports,
        r.stake_pools@.len() == target.stake_pools@.len(),
        forall|i: int|
            0 <= i < r.stake_pools@.len() ==> stats_of(
                #[trigger] r.stake_pools@[i],
                target.stake_pools@[i],
                target.epoch_duration,
                neighbour(held(prev), target.stake_pools@[i].identity()@),
                neighbour(held(next), target.stake_pools@[i].identity()@),
                live_lst_prices@[i],
            ),
{
    let mut stats: Vec<EpochStakePoolStats> = Vec::new();
    let mut i: usize = 0;
    while i < target.stake_pools.len()
        invariant
            i <= target.stake_pools@.len(),
            live_lst_prices@.len() == target.stake_pools@.len(),
            all_well_formed(target.stake_pools@),
            held(prev) matches Some(p) ==> all_well_formed(p.stake_pools@),
            stats@.len() == i,
            forall|k: int|
                0 <= k < i ==> stats_of(
                    #[trigger] stats@[k],
                    target.stake_pools@[k],
                    target.epoch_duration,
                    neighbour(held(prev), target.stake_pools@[k].identity()@),
                    neighbour(held(next), target.stake_pools@[k].identity()@),
                    live_lst_prices@[k],
                ),
        decreases target.stake_pools@.len() - i,
    {
        let s = pool_stats(target, i, prev, next, live_lst_prices[i]);
        stats.push(s);
        i = i + 1;
    }
    EpochStakePoolStatsCollection {
        epoch,
        total_sol_supply: target.total_sol_supply,
        total_native_stake: target.total_native_stake,
        total_liquid_stake: target.total_liquid_stake,
        total_undelegated_lamports: target.total_undelegated_lamports,
        stake_pools: stats,
    }
}

} // verus!
