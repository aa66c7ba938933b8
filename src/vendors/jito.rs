//! Attribution of block-proposer tips to the stake accounts delegated to
//! each validator.
use crate::address::Address;
use vstd::prelude::*;

verus! {

#[verifier::external_type_specification]
#[verifier::external_body]
#[verifier::reject_recursive_types(K)]
#[verifier::reject_recursive_types(V)]
#[verifier::reject_recursive_types(S)]
pub struct ExImHashMap<K, V, S>(im::HashMap<K, V, S>);

/// Tip reward per stake account, keyed by the account's bytes.
pub type JitoRewardsLookup = im::HashMap<[u8; 32], u64>;

/// What a rewards lookup holds: reward by stake account key.
pub uninterp spec fn lookup_contents(m: JitoRewardsLookup) -> Map<Seq<u8>, u64>;

/// The lookup that records no reward.
pub open spec fn no_rewards() -> Map<Seq<u8>, u64> {
    Map::empty()
}

/// Relies on im's `HashMap::new`: a map with no entries.
#[verifier::external_body]
fn empty_lookup() -> (r: JitoRewardsLookup)
    ensures
        lookup_contents(r) == no_rewards(),
{
    im::HashMap::new()
}

/// Relies on im's `HashMap::insert`: the key maps to the value afterwards,
/// other keys keep theirs.
#[verifier::external_body]
fn lookup_insert(m: &mut JitoRewardsLookup, key: &Address, value: u64)
    ensures
        lookup_contents(*final(m)) == lookup_contents(*old(m)).insert(key@, value),
{
    m.insert(key.bytes, value);
}

/// Relies on im's `HashMap::get`: the value stored under the key, if any.
#[verifier::external_body]
fn lookup_get(m: &JitoRewardsLookup, key: &Address) -> (r: Option<u64>)
    ensures
        r == (if lookup_contents(*m).contains_key(key@) {
            Some(lookup_contents(*m)[key@])
        } else {
            None
        }),
{
    m.get(&key.bytes).copied()
}

/// The tip reward recorded for a stake account; 0 when none is.
pub open spec fn spec_jito_reward(m: Map<Seq<u8>, u64>, key: Seq<u8>) -> u64 {
    if m.contains_key(key) {
        m[key]
    } else {
        0
    }
}

/// The tip reward recorded for `key`; 0 when none is.
pub fn jito_reward_of(m: &JitoRewardsLookup, key: &Address) -> (r: u64)
    ensures
        r == spec_jito_reward(lookup_contents(*m), key@),
{
    match lookup_get(m, key) {
        Some(v) => v,
        None => 0,
    }
}

/// A validator's tip pool for an epoch and the share it keeps.
#[derive(Clone, Copy, Debug)]
pub struct TipDistributionMeta {
    pub total_tips: u64,
    pub validator_fee_bps: u16,
}

/// Lamports of one stake account delegated to a validator.
#[derive(Clone, Copy, Debug)]
pub struct Delegation {
    pub stake_account_pubkey: Address,
    pub staker_pubkey: Address,
    pub lamports_delegated: u64,
}

/// A validator's delegations and tips for an epoch.
#[derive(Clone, Debug)]
pub struct StakeMeta {
    pub validator_vote_account: Address,
    pub total_delegated: u64,
    pub delegations: Vec<Delegation>,
    pub maybe_tip_distribution_meta: Option<TipDistributionMeta>,
}

/// The delegations and tips of every validator for an epoch.
#[derive(Clone, Debug)]
pub struct StakeMetaCollection {
    pub epoch: u64,
    pub stake_metas: Vec<StakeMeta>,
}

/// The tip reward of one stake account.
#[derive(Clone, Copy, Debug)]
pub struct JitoReward {
    pub stake_account: Address,
    pub staker_pubkey: Address,
    pub amount: u64,
}

/// Basis points in a whole.
pub const BASIS_POINTS: u64 = 10_000;

/// The part of the tips that the validator keeps.
pub open spec fn validator_cut(total_tips: u64, fee_bps: u16) -> int {
    (total_tips * fee_bps) / (BASIS_POINTS as int)
}

/// The tips left for delegators.
pub open spec fn remaining_tips(t: TipDistributionMeta) -> int {
    t.total_tips - validator_cut(t.total_tips, t.validator_fee_bps)
}

/// A delegation's share of `remaining`, rounded down.
pub open spec fn delegation_share(lamports: u64, remaining: int, total_delegated: u64) -> int {
    (lamports * remaining) / (total_delegated as int)
}

impl StakeMeta {
    /// Whether the tips can be divided: the validator keeps at most all of
    /// them, and no delegation exceeds the validator's total.
    pub open spec fn well_formed(&self) -> bool {
        &&& self.maybe_tip_distribution_meta matches Some(t) ==> t.validator_fee_bps
            <= BASIS_POINTS
        &&& self.delegations@.len() > 0 ==> self.total_delegated > 0
        &&& forall|i: int|
            0 <= i < self.delegations@.len() ==> (#[trigger] self.delegations@[i]).lamports_delegated
                <= self.total_delegated
    }

    /// Checks `well_formed`.
    pub fn is_well_formed(&self) -> (r: bool)
        ensures
            r == self.well_formed(),
    {
        if let Some(t) = self.maybe_tip_distribution_meta {
            if t.validator_fee_bps as u64 > BASIS_POINTS {
                return false;
            }
        }
        if self.delegations.len() > 0 && self.total_delegated == 0 {
            return false;
        }
        let mut i: usize = 0;
        while i < self.delegations.len()
            invariant
                i <= self.delegations@.len(),
                forall|j: int|
                    0 <= j < i ==> (#[trigger] self.delegations@[j]).lamports_delegated
                        <= self.total_delegated,
            decreases self.delegations@.len() - i,
        {
            if self.delegations[i].lamports_delegated > self.total_delegated {
                return false;
            }
            i = i + 1;
        }
        true
    }
}

/// Whether `r` is the reward of delegation `d` from a pool of `remaining`
/// tips.
pub open spec fn reward_of(d: Delegation, remaining: int, total_delegated: u64, r: JitoReward) -> bool {
    &&& r.stake_account == d.stake_account_pubkey
    &&& r.staker_pubkey == d.staker_pubkey
    &&& r.amount == delegation_share(d.lamports_delegated, remaining, total_delegated)
}

/// The amounts of `rs`, summed.
pub open spec fn reward_total(rs: Seq<JitoReward>) -> int
    decreases rs.len(),
{
    if rs.len() == 0 {
        0
    } else {
        reward_total(rs.drop_last()) + rs.last().amount
    }
}

/// The lamports of `ds`, summed.
pub open spec fn delegated_total(ds: Seq<Delegation>) -> int
    decreases ds.len(),
{
    if ds.len() == 0 {
        0
    } else {
        delegated_total(ds.drop_last()) + ds.last().lamports_delegated
    }
}

proof fn lemma_share_sum(ds: Seq<Delegation>, rs: Seq<JitoReward>, remaining: int, total: u64)
    requires
        rs.len() == ds.len(),
        total > 0,
        remaining >= 0,
        forall|i: int| 0 <= i < rs.len() ==> reward_of(ds[i], remaining, total, #[trigger] rs[i]),
    ensures
        reward_total(rs) * total <= delegated_total(ds) * remaining,
    decreases rs.len(),
{
    if rs.len() > 0 {
        let (ds0, rs0) = (ds.drop_last(), rs.drop_last());
        assert forall|i: int| 0 <= i < rs0.len() implies reward_of(ds0[i], remaining, total, #[trigger] rs0[i]) by {
            assert(reward_of(ds[i], remaining, total, rs[i]));
        }
        lemma_share_sum(ds0, rs0, remaining, total);
        assert(reward_of(ds.last(), remaining, total, rs.last()));
        let d = ds.last().lamports_delegated as int;
        let a = rs.last().amount as int;
        let t = total as int;
        assert(a * t <= d * remaining) by (nonlinear_arith)
            requires
                a == (d * remaining) / t,
                t > 0,
                d >= 0,
                remaining >= 0,
        ;
        let x = reward_total(rs0);
        let y = delegated_total(ds0);
        assert((x + a) * t <= (y + d) * remaining) by (nonlinear_arith)
            requires
                x * t <= y * remaining,
                a * t <= d * remaining,
        ;
    }
}

/// Whether the delegations of `m` add up to at most its total.
pub open spec fn delegations_within_total(m: StakeMeta) -> bool {
    delegated_total(m.delegations@) <= m.total_delegated
}

/// The rewards of a validator's delegations, one per delegation in order;
/// none when the validator has no tip distribution.
pub fn generate_stake_accout_jito_rewards_lookup_for_validator(stake_meta: &StakeMeta) -> (r: Vec<
    JitoReward,
>)
    requires
        stake_meta.well_formed(),
    ensures
        match stake_meta.maybe_tip_distribution_meta {
            None => r@.len() == 0,
            Some(t) => {
                &&& r@.len() == stake_meta.delegations@.len()
                &&& delegations_within_total(*stake_meta) ==> reward_total(r@) <= remaining_tips(t)
                &&& forall|i: int|
                    0 <= i < r@.len() ==> reward_of(
                        stake_meta.delegations@[i],
                        remaining_tips(t),
                        stake_meta.total_delegated,
                        #[trigger] r@[i],
                    )
            },
        },
{
    let mut r: Vec<JitoReward> = Vec::new();
    let t = match stake_meta.maybe_tip_distribution_meta {
        Some(t) => t,
        None => return r,
    };
    let total_tips = t.total_tips as u128;
    let fee = t.validator_fee_bps as u128;
    assert(total_tips * fee <= 0xffff_ffff_ffff_ffff * 0xffff) by (nonlinear_arith)
        requires
            total_tips <= 0xffff_ffff_ffff_ffff,
            fee <= 0xffff,
    ;
    let validator_amount = total_tips * fee / (BASIS_POINTS as u128);
    assert(validator_amount <= total_tips) by (nonlinear_arith)
        requires
            validator_amount as int == (total_tips as int * fee as int) / 10_000,
            fee <= 10_000,
    ;
    let remaining = total_tips - validator_amount;
    let total_delegated = stake_meta.total_delegated as u128;
    let mut i: usize = 0;
    while i < stake_meta.delegations.len()
        invariant
            stake_meta.well_formed(),
            stake_meta.maybe_tip_distribution_meta == Some(t),
            remaining == remaining_tips(t),
            remaining <= 0xffff_ffff_ffff_ffff,
            total_delegated == stake_meta.total_delegated,
            i <= stake_meta.delegations@.len(),
            r@.len() == i,
            forall|j: int|
                0 <= j < i ==> reward_of(
                    stake_meta.delegations@[j],
                    remaining_tips(t),
                    stake_meta.total_delegated,
                    #[trigger] r@[j],
                ),
        decreases stake_meta.delegations@.len() - i,
    {
        let d = stake_meta.delegations[i];
        let lamports = d.lamports_delegated as u128;
        assert(stake_meta.delegations@[i as int].lamports_delegated <= stake_meta.total_delegated);
        assert(lamports * remaining <= 0xffff_ffff_ffff_ffff * 0xffff_ffff_ffff_ffff) by (nonlinear_arith)
            requires
                lamports <= 0xffff_ffff_ffff_ffff,
                remaining <= 0xffff_ffff_ffff_ffff,
        ;
        let amount = lamports * remaining / total_delegated;
        assert(amount <= remaining) by (nonlinear_arith)
            requires
                amount as int == (lamports as int * remaining as int) / (total_delegated as int),
                lamports <= total_delegated,
                total_delegated > 0,
        ;
        r.push(
            JitoReward {
                stake_account: d.stake_account_pubkey,
                staker_pubkey: d.staker_pubkey,
                amount: amount as u64,
            },
        );
        i = i + 1;
    }
    proof {
        if delegations_within_total(*stake_meta) && r@.len() > 0 {
            lemma_share_sum(stake_meta.delegations@, r@, remaining_tips(t), stake_meta.total_delegated);
            let x = reward_total(r@);
            let y = delegated_total(stake_meta.delegations@);
            let t0 = stake_meta.total_delegated as int;
            let rem = remaining_tips(t);
            assert(x <= rem) by (nonlinear_arith)
                requires
                    x * t0 <= y * rem,
                    y <= t0,
                    t0 > 0,
                    rem >= 0,
            ;
        }
    }
    r
}

/// The entries that a validator's rewards add to the lookup, in order.
pub open spec fn reward_entries(m: StakeMeta) -> Seq<(Seq<u8>, u64)> {
    match m.maybe_tip_distribution_meta {
        None => Seq::empty(),
        Some(t) => m.delegations@.map_values(
            |d: Delegation|
                (
                    d.stake_account_pubkey@,
                    delegation_share(d.lamports_delegated, remaining_tips(t), m.total_delegated)
                        as u64,
                ),
        ),
    }
}

/// `m` with `entries` inserted in order, so that a later entry for a key
/// replaces an earlier one.
pub open spec fn insert_all(m: Map<Seq<u8>, u64>, entries: Seq<(Seq<u8>, u64)>) -> Map<Seq<u8>, u64>
    decreases entries.len(),
{
    if entries.len() == 0 {
        m
    } else {
        insert_all(m, entries.drop_last()).insert(entries.last().0, entries.last().1)
    }
}

/// The lookup built from the rewards of `metas`, validator by validator.
pub open spec fn spec_rewards_lookup(metas: Seq<StakeMeta>) -> Map<Seq<u8>, u64>
    decreases metas.len(),
{
    if metas.len() == 0 {
        Map::empty()
    } else {
        insert_all(spec_rewards_lookup(metas.drop_last()), reward_entries(metas.last()))
    }
}

/// Maps each stake account of the collection to its tip reward; where an
/// account occurs twice, the later occurrence counts.
pub fn generate_stake_accout_jito_rewards_lookup(stake_meta_collection: &StakeMetaCollection) -> (r:
    JitoRewardsLookup)
    requires
        forall|i: int|
            0 <= i < stake_meta_collection.stake_metas@.len()
                ==> (#[trigger] stake_meta_collection.stake_metas@[i]).well_formed(),
    ensures
        lookup_contents(r) == spec_rewards_lookup(stake_meta_collection.stake_metas@),
{
    let metas = &stake_meta_collection.stake_metas;
    let mut m = empty_lookup();
    let mut i: usize = 0;
    while i < metas.len()
        invariant
            i <= metas@.len(),
            forall|k: int| 0 <= k < metas@.len() ==> (#[trigger] metas@[k]).well_formed(),
            lookup_contents(m) == spec_rewards_lookup(metas@.subrange(0, i as int)),
        decreases metas@.len() - i,
    {
        let meta = &metas[i];
        assert(meta.well_formed());
        let rewards = generate_stake_accout_jito_rewards_lookup_for_validator(meta);
        let ghost base = lookup_contents(m);
        let ghost entries = reward_entries(*meta);
        assert(entries.len() == rewards@.len());
        let mut j: usize = 0;
        while j < rewards.len()
            invariant
                j <= rewards@.len(),
                entries.len() == rewards@.len(),
                entries == reward_entries(*meta),
                forall|k: int|
                    0 <= k < rewards@.len() ==> (#[trigger] entries[k]).0 == rewards@[k].stake_account@
                        && entries[k].1 == rewards@[k].amount,
                lookup_contents(m) == insert_all(base, entries.subrange(0, j as int)),
            decreases rewards@.len() - j,
        {
            let rw = rewards[j];
            lookup_insert(&mut m, &rw.stake_account, rw.amount);
            j = j + 1;
            assert(entries.subrange(0, j as int).drop_last() =~= entries.subrange(0, j - 1));
        }
        assert(entries.subrange(0, j as int) =~= entries);
        i = i + 1;
        assert(metas@.subrange(0, i as int).drop_last() =~= metas@.subrange(0, i - 1));
    }
    assert(metas@.subrange(0, i as int) =~= metas@);
    m
}

} // verus!
