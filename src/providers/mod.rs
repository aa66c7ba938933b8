//! Per-provider pool snapshots, the lamport classification they share, and
//! the capability surface over all of them.
pub mod marinade;
pub mod socean;
pub mod spl;
pub mod stake_accounts;

use crate::address::{base58_of, Address};
use crate::error::PoolError;
use crate::providers::marinade::{account_allocations, account_rewards, MarinadeStakePoolMeta};
use crate::providers::socean::SoceanStakePoolMeta;
use crate::providers::spl::SplStakePoolMeta;
use vstd::prelude::*;

verus! {

pub const SECONDS_PER_DAY: u64 = 86_400;

/// Lamports at or above which a validator counts as staked.
pub const STAKED_VALIDATOR_THRESHOLD: u64 = 1_000_000_000;

/// How a pool's or a validator's lamports are split.
#[derive(Clone, Copy, Debug, PartialEq, Eq, Structural)]
pub struct LamportsAllocation {
    pub active: u64,
    pub activating: u64,
    pub deactivating: u64,
    pub undelegated: u64,
}

/// Rewards earned in an epoch.
#[derive(Clone, Copy, Debug, PartialEq, Eq, Structural)]
pub struct Rewards {
    pub inflation: u64,
    pub jito: u64,
}

/// A non-negative fraction; `0/1` stands for zero.
#[derive(Clone, Copy, Debug, PartialEq, Eq, Structural)]
pub struct Ratio {
    pub numerator: u64,
    pub denominator: u64,
}

/// `numerator / denominator`, or zero when the denominator is 0.
pub open spec fn spec_ratio_or_zero(numerator: u64, denominator: u64) -> Ratio {
    if denominator == 0 {
        Ratio { numerator: 0, denominator: 1 }
    } else {
        Ratio { numerator, denominator }
    }
}

/// `numerator / denominator`, or zero when the denominator is 0.
pub fn ratio_or_zero(numerator: u64, denominator: u64) -> (r: Ratio)
    ensures
        r == spec_ratio_or_zero(numerator, denominator),
{
    if denominator == 0 {
        Ratio { numerator: 0, denominator: 1 }
    } else {
        Ratio { numerator, denominator }
    }
}

/// An inflation reward paid to one stake account.
#[derive(Clone, Copy, Debug)]
pub struct RewardEntry {
    pub stake_account: Address,
    pub amount: u64,
}

/// The inflation reward recorded for `key`: its last entry, or 0.
pub open spec fn spec_inflation_reward(entries: Seq<RewardEntry>, key: Seq<u8>) -> u64
    decreases entries.len(),
{
    if entries.len() == 0 {
        0
    } else if entries.last().stake_account@ == key {
        entries.last().amount
    } else {
        spec_inflation_reward(entries.drop_last(), key)
    }
}

/// The inflation reward recorded for `key`: its last entry, or 0.
pub fn inflation_reward_of(entries: &Vec<RewardEntry>, key: &Address) -> (r: u64)
    ensures
        r == spec_inflation_reward(entries@, key@),
{
    let mut i: usize = entries.len();
    assert(entries@.subrange(0, i as int) =~= entries@);
    while i > 0
        invariant
            i <= entries@.len(),
            spec_inflation_reward(entries@, key@) == spec_inflation_reward(
                entries@.subrange(0, i as int),
                key@,
            ),
        decreases i,
    {
        let ghost prefix = entries@.subrange(0, i as int);
        if entries[i - 1].stake_account.same(key) {
            return entries[i - 1].amount;
        }
        i = i - 1;
        assert(prefix.drop_last() =~= entries@.subrange(0, i as int));
    }
    0
}

/// The four components of `a`, added.
pub open spec fn allocation_total(a: LamportsAllocation) -> int {
    a.active + a.activating + a.deactivating + a.undelegated
}

/// Component-wise sums of `s`, as integers.
pub open spec fn sum_allocations(s: Seq<LamportsAllocation>) -> (int, int, int, int)
    decreases s.len(),
{
    if s.len() == 0 {
        (0, 0, 0, 0)
    } else {
        let (a, b, c, d) = sum_allocations(s.drop_last());
        (a + s.last().active, b + s.last().activating, c + s.last().deactivating, d + s.last().undelegated)
    }
}

/// Component-wise sums of `s`, as integers.
pub open spec fn sum_rewards(s: Seq<Rewards>) -> (int, int)
    decreases s.len(),
{
    if s.len() == 0 {
        (0, 0)
    } else {
        let (a, b) = sum_rewards(s.drop_last());
        (a + s.last().inflation, b + s.last().jito)
    }
}

/// The allocation of a pool whose validators hold `s` and whose reserve
/// holds `reserve` undelegated lamports.
pub open spec fn pool_allocation(s: Seq<LamportsAllocation>, reserve: u64) -> LamportsAllocation {
    let (a, b, c, d) = sum_allocations(s);
    LamportsAllocation {
        active: a as u64,
        activating: b as u64,
        deactivating: c as u64,
        undelegated: (d + reserve) as u64,
    }
}

/// Whether every sum of `pool_allocation`, and their grand total, fits in
/// 64 bits.
#[verifier::opaque]
pub open spec fn allocation_fits(s: Seq<LamportsAllocation>, reserve: u64) -> bool {
    let (a, b, c, d) = sum_allocations(s);
    a + b + c + d + reserve <= u64::MAX
}

/// Whether both reward sums, and their total, fit in 64 bits.
#[verifier::opaque]
pub open spec fn rewards_fit(s: Seq<Rewards>) -> bool {
    let (a, b) = sum_rewards(s);
    a + b <= u64::MAX
}

proof fn lemma_sums_nonneg(s: Seq<LamportsAllocation>)
    ensures
        sum_allocations(s).0 >= 0,
        sum_allocations(s).1 >= 0,
        sum_allocations(s).2 >= 0,
        sum_allocations(s).3 >= 0,
    decreases s.len(),
{
    if s.len() > 0 {
        lemma_sums_nonneg(s.drop_last());
    }
}

proof fn lemma_reward_sums_nonneg(s: Seq<Rewards>)
    ensures
        sum_rewards(s).0 >= 0,
        sum_rewards(s).1 >= 0,
    decreases s.len(),
{
    if s.len() > 0 {
        lemma_reward_sums_nonneg(s.drop_last());
    }
}

/// Adds up `s` on top of `reserve` undelegated lamports.
pub fn add_allocations(s: &Vec<LamportsAllocation>, reserve: u64) -> (r: LamportsAllocation)
    requires
        allocation_fits(s@, reserve),
    ensures
        r == pool_allocation(s@, reserve),
{
    let mut acc = LamportsAllocation { active: 0, activating: 0, deactivating: 0, undelegated: reserve };
    let mut i: usize = 0;
    while i < s.len()
        invariant
            i <= s@.len(),
            allocation_fits(s@, reserve),
            acc == pool_allocation(s@.subrange(0, i as int), reserve),
        decreases s@.len() - i,
    {
        proof {
            let t = s@.subrange(0, i + 1);
            assert(t.drop_last() =~= s@.subrange(0, i as int));
            lemma_prefix_fits(s@, reserve, i + 1);
            lemma_sums_nonneg(s@.subrange(0, i as int));
            reveal(allocation_fits);
        }
        let v = s[i];
        acc = LamportsAllocation {
            active: acc.active + v.active,
            activating: acc.activating + v.activating,
            deactivating: acc.deactivating + v.deactivating,
            undelegated: acc.undelegated + v.undelegated,
        };
        i = i + 1;
    }
    assert(s@.subrange(0, i as int) =~= s@);
    acc
}

proof fn lemma_prefix_fits(s: Seq<LamportsAllocation>, reserve: u64, k: int)
    requires
        0 <= k <= s.len(),
        allocation_fits(s, reserve),
    ensures
        allocation_fits(s.subrange(0, k), reserve),
    decreases s.len() - k,
{
    reveal(allocation_fits);
    if k < s.len() {
        lemma_prefix_fits(s, reserve, k + 1);
        let t = s.subrange(0, k + 1);
        assert(t.drop_last() =~= s.subrange(0, k));
    } else {
        assert(s.subrange(0, k) =~= s);
    }
    lemma_sums_nonneg(s.subrange(0, k));
    lemma_sums_nonneg(s);
}

/// The rewards of `s`, added.
pub open spec fn pool_rewards(s: Seq<Rewards>) -> Rewards {
    let (a, b) = sum_rewards(s);
    Rewards { inflation: a as u64, jito: b as u64 }
}

proof fn lemma_reward_prefix_fits(s: Seq<Rewards>, k: int)
    requires
        0 <= k <= s.len(),
        rewards_fit(s),
    ensures
        rewards_fit(s.subrange(0, k)),
    decreases s.len() - k,
{
    reveal(rewards_fit);
    if k < s.len() {
        lemma_reward_prefix_fits(s, k + 1);
        let t = s.subrange(0, k + 1);
        assert(t.drop_last() =~= s.subrange(0, k));
    } else {
        assert(s.subrange(0, k) =~= s);
    }
    lemma_reward_sums_nonneg(s.subrange(0, k));
}

/// Adds up `s`.
pub fn add_rewards(s: &Vec<Rewards>) -> (r: Rewards)
    requires
        rewards_fit(s@),
    ensures
        r == pool_rewards(s@),
{
    let mut acc = Rewards { inflation: 0, jito: 0 };
    let mut i: usize = 0;
    while i < s.len()
        invariant
            i <= s@.len(),
            rewards_fit(s@),
            acc == pool_rewards(s@.subrange(0, i as int)),
        decreases s@.len() - i,
    {
        proof {
            let t = s@.subrange(0, i + 1);
            assert(t.drop_last() =~= s@.subrange(0, i as int));
            lemma_reward_prefix_fits(s@, i + 1);
            lemma_reward_sums_nonneg(s@.subrange(0, i as int));
            reveal(rewards_fit);
        }
        let v = s[i];
        acc = Rewards { inflation: acc.inflation + v.inflation, jito: acc.jito + v.jito };
        i = i + 1;
    }
    assert(s@.subrange(0, i as int) =~= s@);
    acc
}

/// Checks `allocation_fits`.
pub fn check_allocation_fits(s: &Vec<LamportsAllocation>, reserve: u64) -> (r: bool)
    ensures
        r == allocation_fits(s@, reserve),
{
    reveal(allocation_fits);
    let mut total: u64 = reserve;
    let mut i: usize = 0;
    while i < s.len()
        invariant
            i <= s@.len(),
            total == allocation_total_prefix(s@.subrange(0, i as int)) + reserve,
        decreases s@.len() - i,
    {
        let v = s[i];
        proof {
            let t = s@.subrange(0, i + 1);
            assert(t.drop_last() =~= s@.subrange(0, i as int));
        }
        let mut step = total.checked_add(v.active);
        if let Some(x) = step {
            step = x.checked_add(v.activating);
        }
        if let Some(x) = step {
            step = x.checked_add(v.deactivating);
        }
        if let Some(x) = step {
            step = x.checked_add(v.undelegated);
        }
        match step {
            Some(x) => total = x,
            None => {
                proof {
                    lemma_total_grows(s@, i + 1);
                    reveal(allocation_fits);
                }
                return false;
            },
        }
        i = i + 1;
    }
    assert(s@.subrange(0, i as int) =~= s@);
    true
}

/// The grand total of `s`'s components.
pub open spec fn allocation_total_prefix(s: Seq<LamportsAllocation>) -> int {
    let (a, b, c, d) = sum_allocations(s);
    a + b + c + d
}

proof fn lemma_total_grows(s: Seq<LamportsAllocation>, k: int)
    requires
        0 <= k <= s.len(),
    ensures
        allocation_total_prefix(s.subrange(0, k)) <= allocation_total_prefix(s),
    decreases s.len() - k,
{
    if k < s.len() {
        lemma_total_grows(s, k + 1);
        let t = s.subrange(0, k + 1);
        assert(t.drop_last() =~= s.subrange(0, k));
    } else {
        assert(s.subrange(0, k) =~= s);
    }
}

/// Checks `rewards_fit`.
pub fn check_rewards_fit(s: &Vec<Rewards>) -> (r: bool)
    ensures
        r == rewards_fit(s@),
{
    reveal(rewards_fit);
    let mut total: u64 = 0;
    let mut i: usize = 0;
    while i < s.len()
        invariant
            i <= s@.len(),
            total == sum_rewards(s@.subrange(0, i as int)).0 + sum_rewards(s@.subrange(0, i as int)).1,
        decreases s@.len() - i,
    {
        let v = s[i];
        proof {
            let t = s@.subrange(0, i + 1);
            assert(t.drop_last() =~= s@.subrange(0, i as int));
        }
        let mut step = total.checked_add(v.inflation);
        if let Some(x) = step {
            step = x.checked_add(v.jito);
        }
        match step {
            Some(x) => total = x,
            None => {
                proof {
                    lemma_reward_total_grows(s@, i + 1);
                    reveal(rewards_fit);
                }
                return false;
            },
        }
        i = i + 1;
    }
    assert(s@.subrange(0, i as int) =~= s@);
    true
}

proof fn lemma_reward_total_grows(s: Seq<Rewards>, k: int)
    requires
        0 <= k <= s.len(),
    ensures
        sum_rewards(s.subrange(0, k)).0 + sum_rewards(s.subrange(0, k)).1 <= sum_rewards(s).0
            + sum_rewards(s).1,
    decreases s.len() - k,
{
    if k < s.len() {
        lemma_reward_total_grows(s, k + 1);
        let t = s.subrange(0, k + 1);
        assert(t.drop_last() =~= s.subrange(0, k));
    } else {
        assert(s.subrange(0, k) =~= s);
    }
}

/// A snapshot of one pool, of whichever program runs it.
#[derive(Clone, Debug)]
pub enum StakePoolMeta {
    Spl(SplStakePoolMeta),
    Marinade(MarinadeStakePoolMeta),
    Socean(SoceanStakePoolMeta),
}

/// The part of a pool's lamports delegated to validators.
pub open spec fn spec_delegated(a: LamportsAllocation) -> int {
    a.active + a.activating + a.deactivating
}

/// The part of a pool's lamports that earns rewards this epoch: activating
/// stake has not yet served a full epoch.
pub open spec fn spec_yielding(a: LamportsAllocation) -> int {
    a.active + a.deactivating
}

impl StakePoolMeta {
    /// Whether the pool's lamport and reward sums fit in 64 bits.
    pub open spec fn well_formed(&self) -> bool {
        match self {
            StakePoolMeta::Spl(m) => m.well_formed(),
            StakePoolMeta::Marinade(m) => m.well_formed(),
            StakePoolMeta::Socean(m) => m.well_formed(),
        }
    }

    /// Checks `well_formed`.
    pub fn is_well_formed(&self) -> (r: bool)
        ensures
            r == self.well_formed(),
    {
        match self {
            StakePoolMeta::Spl(m) => m.is_well_formed(),
            StakePoolMeta::Marinade(m) => m.is_well_formed(),
            StakePoolMeta::Socean(m) => m.is_well_formed(),
        }
    }

    /// The pool's account key.
    pub open spec fn identity(&self) -> Address {
        match self {
            StakePoolMeta::Spl(m) => m.address,
            StakePoolMeta::Marinade(m) => m.address,
            StakePoolMeta::Socean(m) => m.address,
        }
    }

    pub open spec fn spec_manager(&self) -> Address {
        match self {
            StakePoolMeta::Spl(m) => m.manager,
            StakePoolMeta::Marinade(m) => m.manager,
            StakePoolMeta::Socean(m) => m.manager,
        }
    }

    pub open spec fn spec_mint(&self) -> Address {
        match self {
            StakePoolMeta::Spl(m) => m.mint,
            StakePoolMeta::Marinade(m) => m.mint,
            StakePoolMeta::Socean(m) => m.mint,
        }
    }

    /// The pool's lamports by kind, over its validators and its reserve.
    pub open spec fn spec_allocation(&self) -> LamportsAllocation {
        match self {
            StakePoolMeta::Spl(m) => pool_allocation(
                crate::providers::spl::validator_allocations(m.validators@),
                m.reserve_stake,
            ),
            StakePoolMeta::Marinade(m) => pool_allocation(
                account_allocations(m.stake_accounts@),
                m.reserve,
            ),
            StakePoolMeta::Socean(m) => pool_allocation(
                crate::providers::socean::validator_allocations(m.validators@),
                m.reserve_stake,
            ),
        }
    }

    /// The pool's rewards this epoch.
    pub open spec fn spec_rewards(&self) -> Rewards {
        match self {
            StakePoolMeta::Spl(m) => pool_rewards(crate::providers::spl::validator_rewards(m.validators@)),
            StakePoolMeta::Marinade(m) => pool_rewards(account_rewards(m.stake_accounts@)),
            StakePoolMeta::Socean(m) => pool_rewards(
                crate::providers::socean::validator_rewards(m.validators@),
            ),
        }
    }

    /// Lamports per pool token.
    pub open spec fn spec_lst_price(&self) -> Ratio {
        match self {
            StakePoolMeta::Spl(m) => spec_ratio_or_zero(m.total_lamports, m.pool_token_supply),
            StakePoolMeta::Marinade(m) => spec_ratio_or_zero(m.total_lamports, m.pool_token_supply),
            StakePoolMeta::Socean(m) => spec_ratio_or_zero(m.total_lamports, m.pool_token_supply),
        }
    }

    pub open spec fn spec_lst_supply(&self) -> u64 {
        match self {
            StakePoolMeta::Spl(m) => m.pool_token_supply,
            StakePoolMeta::Marinade(m) => m.pool_token_supply,
            StakePoolMeta::Socean(m) => m.pool_token_supply,
        }
    }

    /// The fee taken from rewards, as a fraction.
    pub open spec fn spec_management_fee(&self) -> Ratio {
        match self {
            StakePoolMeta::Spl(m) => spec_ratio_or_zero(m.fees.epoch.numerator, m.fees.epoch.denominator),
            StakePoolMeta::Marinade(m) => Ratio {
                numerator: m.management_fee.basis_points as u64,
                denominator: 10_000,
            },
            StakePoolMeta::Socean(m) => spec_ratio_or_zero(
                m.fees.epoch.numerator,
                m.fees.epoch.denominator,
            ),
        }
    }

    /// Whether the pool is initialized and up to date.
    pub open spec fn spec_is_valid(&self) -> bool {
        match self {
            StakePoolMeta::Spl(m) => m.is_valid && !m.needs_update,
            StakePoolMeta::Marinade(m) => true,
            StakePoolMeta::Socean(m) => m.is_valid && !m.needs_update,
        }
    }

    /// How many validators count as staked.
    pub open spec fn spec_staked_validator_count(&self) -> nat {
        match self {
            StakePoolMeta::Spl(m) => crate::providers::spl::count_staked(m.validators@),
            StakePoolMeta::Marinade(m) => crate::providers::marinade::count_staked_validators(
                m.stake_accounts@,
                m.stake_accounts@.len() as int,
            ),
            StakePoolMeta::Socean(m) => crate::providers::socean::count_staked(m.validators@),
        }
    }

    /// The pool's account key.
    pub fn address_key(&self) -> (r: Address)
        ensures
            r == self.identity(),
    {
        match self {
            StakePoolMeta::Spl(m) => m.address,
            StakePoolMeta::Marinade(m) => m.address,
            StakePoolMeta::Socean(m) => m.address,
        }
    }

    /// The key's text of the pool.
    pub fn address(&self) -> (r: String)
        ensures
            r@ == base58_of(self.identity()@),
    {
        self.address_key().to_text()
    }

    /// The key's text of the pool's manager.
    pub fn manager(&self) -> (r: String)
        ensures
            r@ == base58_of(self.spec_manager()@),
    {
        match self {
            StakePoolMeta::Spl(m) => m.manager(),
            StakePoolMeta::Marinade(m) => m.manager(),
            StakePoolMeta::Socean(m) => m.manager(),
        }
    }

    /// The key's text of the pool's token mint.
    pub fn mint(&self) -> (r: String)
        ensures
            r@ == base58_of(self.spec_mint()@),
    {
        match self {
            StakePoolMeta::Spl(m) => m.mint(),
            StakePoolMeta::Marinade(m) => m.mint(),
            StakePoolMeta::Socean(m) => m.mint(),
        }
    }

    /// The name of the program that runs the pool.
    pub fn provider(&self) -> (r: String)
        ensures
            r@ == match self {
                StakePoolMeta::Spl(_) => "SPL"@,
                StakePoolMeta::Marinade(_) => "Marinade"@,
                StakePoolMeta::Socean(_) => "Socean"@,
            },
    {
        match self {
            StakePoolMeta::Spl(_) => String::from_str("SPL"),
            StakePoolMeta::Marinade(_) => String::from_str("Marinade"),
            StakePoolMeta::Socean(_) => String::from_str("Socean"),
        }
    }

    pub fn is_valid(&self) -> (r: bool)
        ensures
            r == self.spec_is_valid(),
    {
        match self {
            StakePoolMeta::Spl(m) => m.is_valid(),
            StakePoolMeta::Marinade(_) => true,
            StakePoolMeta::Socean(m) => m.is_valid && !m.needs_update,
        }
    }

    pub fn lst_price(&self) -> (r: Ratio)
        ensures
            r == self.spec_lst_price(),
    {
        match self {
            StakePoolMeta::Spl(m) => m.lst_price(),
            StakePoolMeta::Marinade(m) => m.lst_price(),
            StakePoolMeta::Socean(m) => m.lst_price(),
        }
    }

    pub fn lst_supply(&self) -> (r: u64)
        ensures
            r == self.spec_lst_supply(),
    {
        match self {
            StakePoolMeta::Spl(m) => m.pool_token_supply,
            StakePoolMeta::Marinade(m) => m.pool_token_supply,
            StakePoolMeta::Socean(m) => m.pool_token_supply,
        }
    }

    pub fn management_fee(&self) -> (r: Ratio)
        ensures
            r == self.spec_management_fee(),
    {
        match self {
            StakePoolMeta::Spl(m) => m.management_fee(),
            StakePoolMeta::Marinade(m) => m.management_fee(),
            StakePoolMeta::Socean(m) => m.management_fee(),
        }
    }

    pub fn lamports_allocation(&self) -> (r: LamportsAllocation)
        requires
            self.well_formed(),
        ensures
            r == self.spec_allocation(),
            allocation_total(r) <= u64::MAX,
    {
        let r = match self {
            StakePoolMeta::Spl(m) => m.lamports_allocation(),
            StakePoolMeta::Marinade(m) => m.lamports_allocation(),
            StakePoolMeta::Socean(m) => m.lamports_allocation(),
        };
        proof {
            lemma_allocation_in_range(*self);
        }
        r
    }

    pub fn rewards(&self) -> (r: Rewards)
        requires
            self.well_formed(),
        ensures
            r == self.spec_rewards(),
            r.inflation + r.jito <= u64::MAX,
    {
        let r = match self {
            StakePoolMeta::Spl(m) => m.rewards(),
            StakePoolMeta::Marinade(m) => m.rewards(),
            StakePoolMeta::Socean(m) => m.rewards(),
        };
        proof {
            lemma_rewards_in_range(*self);
        }
        r
    }

    /// All lamports the pool controls: delegated and undelegated.
    pub fn total_lamports(&self) -> (r: u64)
        requires
            self.well_formed(),
        ensures
            r == spec_delegated(self.spec_allocation()) + self.spec_allocation().undelegated,
    {
        self.delegated_lamports() + self.undelegated_lamports()
    }

    /// Lamports delegated to validators: active, activating and
    /// deactivating.
    pub fn delegated_lamports(&self) -> (r: u64)
        requires
            self.well_formed(),
        ensures
            r == spec_delegated(self.spec_allocation()),
            r + self.spec_allocation().undelegated <= u64::MAX,
    {
        let a = self.lamports_allocation();
        a.active + a.activating + a.deactivating
    }

    pub fn undelegated_lamports(&self) -> (r: u64)
        requires
            self.well_formed(),
        ensures
            r == self.spec_allocation().undelegated,
    {
        self.lamports_allocation().undelegated
    }

    /// Lamports that earn rewards this epoch: active and deactivating.
    pub fn yielding_lamports(&self) -> (r: u64)
        requires
            self.well_formed(),
        ensures
            r == spec_yielding(self.spec_allocation()),
    {
        let a = self.lamports_allocation();
        a.active + a.deactivating
    }

    /// Inflation and tip rewards together.
    pub fn total_rewards(&self) -> (r: u64)
        requires
            self.well_formed(),
        ensures
            r == self.spec_rewards().inflation + self.spec_rewards().jito,
    {
        let r = self.rewards();
        r.inflation + r.jito
    }

    pub fn staked_validator_count(&self) -> (r: u64)
        ensures
            r == self.spec_staked_validator_count(),
    {
        match self {
            StakePoolMeta::Spl(m) => m.staked_validator_count(),
            StakePoolMeta::Marinade(m) => m.staked_validator_count(),
            StakePoolMeta::Socean(m) => m.staked_validator_count(),
        }
    }

    /// The current price per pool token that the pool's account data, as
    /// fetched now, records.
    pub fn live_lst_price(&self, account_data: &[u8]) -> (r: Result<Ratio, PoolError>)
        ensures
            match self {
                StakePoolMeta::Spl(_) => r == crate::providers::spl::spec_live_price(account_data@),
                StakePoolMeta::Marinade(_) => r == crate::providers::marinade::spec_live_price(
                    account_data@,
                ),
                StakePoolMeta::Socean(_) => r == crate::providers::socean::spec_live_price(
                    account_data@,
                ),
            },
    {
        match self {
            StakePoolMeta::Spl(_) => crate::providers::spl::live_lst_price(account_data),
            StakePoolMeta::Marinade(_) => crate::providers::marinade::live_lst_price(account_data),
            StakePoolMeta::Socean(_) => crate::providers::socean::live_lst_price(account_data),
        }
    }
}

proof fn lemma_allocation_in_range(m: StakePoolMeta)
    requires
        m.well_formed(),
    ensures
        allocation_total(m.spec_allocation()) <= u64::MAX,
        m.spec_allocation().active == sum_allocations(meta_allocations(m)).0,
        m.spec_allocation().activating == sum_allocations(meta_allocations(m)).1,
        m.spec_allocation().deactivating == sum_allocations(meta_allocations(m)).2,
        m.spec_allocation().undelegated == sum_allocations(meta_allocations(m)).3 + meta_reserve(m),
{
    reveal(allocation_fits);
    lemma_sums_nonneg(meta_allocations(m));
}

proof fn lemma_rewards_in_range(m: StakePoolMeta)
    requires
        m.well_formed(),
    ensures
        m.spec_rewards().inflation + m.spec_rewards().jito <= u64::MAX,
{
    reveal(rewards_fit);
    lemma_reward_sums_nonneg(meta_rewards(m));
}

/// The per-validator allocations that a pool adds up.
pub open spec fn meta_allocations(m: StakePoolMeta) -> Seq<LamportsAllocation> {
    match m {
        StakePoolMeta::Spl(x) => crate::providers::spl::validator_allocations(x.validators@),
        StakePoolMeta::Marinade(x) => account_allocations(x.stake_accounts@),
        StakePoolMeta::Socean(x) => crate::providers::socean::validator_allocations(x.validators@),
    }
}

/// The per-validator rewards that a pool adds up.
pub open spec fn meta_rewards(m: StakePoolMeta) -> Seq<Rewards> {
    match m {
        StakePoolMeta::Spl(x) => crate::providers::spl::validator_rewards(x.validators@),
        StakePoolMeta::Marinade(x) => account_rewards(x.stake_accounts@),
        StakePoolMeta::Socean(x) => crate::providers::socean::validator_rewards(x.validators@),
    }
}

/// The undelegated lamports a pool keeps outside its validators.
pub open spec fn meta_reserve(m: StakePoolMeta) -> u64 {
    match m {
        StakePoolMeta::Spl(x) => x.reserve_stake,
        StakePoolMeta::Marinade(x) => x.reserve,
        StakePoolMeta::Socean(x) => x.reserve_stake,
    }
}

/// For every pool, the four parts of its allocation add up exactly to the
/// total lamports it reports, and that total is every validator's lamports
/// plus the reserve.
pub proof fn lemma_allocation_adds_up_to_total(m: StakePoolMeta)
    requires
        m.well_formed(),
    ensures
        allocation_total(m.spec_allocation()) == spec_delegated(m.spec_allocation())
            + m.spec_allocation().undelegated,
        allocation_total(m.spec_allocation()) == allocation_total_prefix(meta_allocations(m))
            + meta_reserve(m),
{
    lemma_allocation_in_range(m);
}

} // verus!
