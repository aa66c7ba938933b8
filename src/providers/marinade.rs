//! Snapshots of the Marinade pool.
use crate::address::{base58_of, Address};
use crate::error::PoolError;
use crate::providers::stake_accounts::{activation_of, deactivation_of, rent_of, stake_of};
use crate::providers::{
    add_allocations, add_rewards, allocation_fits, allocation_total, check_allocation_fits,
    check_rewards_fit, inflation_reward_of, pool_allocation, pool_rewards, ratio_or_zero,
    rewards_fit, spec_inflation_reward, spec_ratio_or_zero, LamportsAllocation, Ratio,
    RewardEntry, Rewards, STAKED_VALIDATOR_THRESHOLD,
};
use crate::vendors::jito::{jito_reward_of, lookup_contents, spec_jito_reward, JitoRewardsLookup};
use crate::vendors::marinade::{
    decode_marinade_state, item_start, record_fits, spec_total_lamports_under_control,
    spec_total_virtual_staked_lamports, stake_record_at, Fee, MarinadeState, StakeRecord,
    MARINADE_STATE_LEN,
};
use crate::vendors::stake::{
    activation_split, decode_delegated_stake, is_delegated_state, AccountData,
};
use crate::layout::{key_at, le_u64};
use vstd::prelude::*;

verus! {

/// One stake account of the Marinade pool, with its lamports and rewards
/// this epoch.
#[derive(Clone, Copy, Debug)]
pub struct MarinadeStakePoolStakeAccount {
    pub vote_account_address: Address,
    pub stake_account_address: Address,
    pub active_stake: u64,
    pub undelegated_stake: u64,
    pub activating_stake: u64,
    pub deactivating_stake: u64,
    pub inflation_rewards: u64,
    pub jito_rewards: u64,
}

/// The lamports of a Marinade stake account by kind: the delegation's
/// split at `epoch`, and what exceeds the delegation and its reserve.
pub open spec fn spec_stake_account_split(a: AccountData, epoch: u64) -> Result<LamportsAllocation, PoolError> {
    let d = a.data@;
    if a.lamports == 0 {
        Ok(LamportsAllocation { active: 0, activating: 0, deactivating: 0, undelegated: 0 })
    } else if !is_delegated_state(d) {
        Err(PoolError::MalformedLayout)
    } else if a.lamports < stake_of(d) + rent_of(d) {
        Err(PoolError::DataConsistencyFault)
    } else {
        let (e, ing, de) = activation_split(stake_of(d), activation_of(d), deactivation_of(d), epoch);
        Ok(
            LamportsAllocation {
                active: e,
                activating: ing,
                deactivating: de,
                undelegated: (a.lamports - stake_of(d) - rent_of(d)) as u64,
            },
        )
    }
}

impl MarinadeStakePoolStakeAccount {
    pub open spec fn spec_allocation(&self) -> LamportsAllocation {
        LamportsAllocation {
            active: self.active_stake,
            activating: self.activating_stake,
            deactivating: self.deactivating_stake,
            undelegated: self.undelegated_stake,
        }
    }

    pub open spec fn spec_rewards(&self) -> Rewards {
        Rewards { inflation: self.inflation_rewards, jito: self.jito_rewards }
    }

    pub fn allocation(&self) -> (r: LamportsAllocation)
        ensures
            r == self.spec_allocation(),
    {
        LamportsAllocation {
            active: self.active_stake,
            activating: self.activating_stake,
            deactivating: self.deactivating_stake,
            undelegated: self.undelegated_stake,
        }
    }

    pub fn rewards(&self) -> (r: Rewards)
        ensures
            r == self.spec_rewards(),
    {
        Rewards { inflation: self.inflation_rewards, jito: self.jito_rewards }
    }

    /// Classifies one stake account of the pool delegated to
    /// `validator_vote_account`.
    pub fn build(
        validator_vote_account: &Address,
        stake_account_address: &Address,
        stake_account: &AccountData,
        epoch: u64,
        inflation_rewards: &Vec<RewardEntry>,
        jito_rewards_lookup: &JitoRewardsLookup,
    ) -> (r: Result<Self, PoolError>)
        ensures
            match spec_stake_account_split(*stake_account, epoch) {
                Err(e) => r == Err::<Self, PoolError>(e),
                Ok(a) => r matches Ok(s) && {
                    &&& s.vote_account_address == *validator_vote_account
                    &&& s.stake_account_address == *stake_account_address
                    &&& s.spec_allocation() == a
                    &&& s.inflation_rewards == spec_inflation_reward(
                        inflation_rewards@,
                        stake_account_address@,
                    )
                    &&& s.jito_rewards == spec_jito_reward(
                        lookup_contents(*jito_rewards_lookup),
                        stake_account_address@,
                    )
                },
            },
    {
        let mut active_stake: u64 = 0;
        let mut activating_stake: u64 = 0;
        let mut deactivating_stake: u64 = 0;
        let mut undelegated_stake: u64 = 0;
        if stake_account.lamports > 0 {
            let s = decode_delegated_stake(stake_account.data.as_slice())?;
            if stake_account.lamports < s.stake || stake_account.lamports - s.stake
                < s.rent_exempt_reserve {
                return Err(PoolError::DataConsistencyFault);
            }
            let (e, ing, de) = s.activation_at(epoch);
            active_stake = e;
            activating_stake = ing;
            deactivating_stake = de;
            undelegated_stake = stake_account.lamports - s.stake - s.rent_exempt_reserve;
        }
        Ok(
            MarinadeStakePoolStakeAccount {
                vote_account_address: *validator_vote_account,
                stake_account_address: *stake_account_address,
                active_stake,
                undelegated_stake,
                activating_stake,
                deactivating_stake,
                inflation_rewards: inflation_reward_of(inflation_rewards, stake_account_address),
                jito_rewards: jito_reward_of(jito_rewards_lookup, stake_account_address),
            },
        )
    }
}

/// The allocations of `s`, in order.
pub open spec fn account_allocations(s: Seq<MarinadeStakePoolStakeAccount>) -> Seq<LamportsAllocation> {
    s.map_values(|a: MarinadeStakePoolStakeAccount| a.spec_allocation())
}

/// The rewards of `s`, in order.
pub open spec fn account_rewards(s: Seq<MarinadeStakePoolStakeAccount>) -> Seq<Rewards> {
    s.map_values(|a: MarinadeStakePoolStakeAccount| a.spec_rewards())
}

pub fn allocations_of(s: &Vec<MarinadeStakePoolStakeAccount>) -> (r: Vec<LamportsAllocation>)
    ensures
        r@ == account_allocations(s@),
{
    let mut r: Vec<LamportsAllocation> = Vec::new();
    let mut i: usize = 0;
    while i < s.len()
        invariant
            i <= s@.len(),
            r@ == account_allocations(s@.subrange(0, i as int)),
        decreases s@.len() - i,
    {
        r.push(s[i].allocation());
        i = i + 1;
        assert(r@ =~= account_allocations(s@.subrange(0, i as int)));
    }
    assert(s@.subrange(0, i as int) =~= s@);
    r
}

pub fn rewards_of(s: &Vec<MarinadeStakePoolStakeAccount>) -> (r: Vec<Rewards>)
    ensures
        r@ == account_rewards(s@),
{
    let mut r: Vec<Rewards> = Vec::new();
    let mut i: usize = 0;
    while i < s.len()
        invariant
            i <= s@.len(),
            r@ == account_rewards(s@.subrange(0, i as int)),
        decreases s@.len() - i,
    {
        r.push(s[i].rewards());
        i = i + 1;
        assert(r@ =~= account_rewards(s@.subrange(0, i as int)));
    }
    assert(s@.subrange(0, i as int) =~= s@);
    r
}

/// The lamports that the accounts of `s` delegated to `vote` hold.
pub open spec fn vote_total(s: Seq<MarinadeStakePoolStakeAccount>, vote: Seq<u8>) -> int
    decreases s.len(),
{
    if s.len() == 0 {
        0
    } else {
        vote_total(s.drop_last(), vote) + if s.last().vote_account_address@ == vote {
            allocation_total(s.last().spec_allocation())
        } else {
            0
        }
    }
}

/// Whether account `i` is the first of `s` delegated to its validator.
pub open spec fn first_of_validator(s: Seq<MarinadeStakePoolStakeAccount>, i: int) -> bool {
    forall|j: int| 0 <= j < i ==> (#[trigger] s[j]).vote_account_address@ != s[i].vote_account_address@
}

/// How many validators among the first `k` accounts' validators hold at
/// least the staked threshold over all of `s`.
pub open spec fn count_staked_validators(s: Seq<MarinadeStakePoolStakeAccount>, k: int) -> nat
    decreases k,
{
    if k <= 0 {
        0
    } else {
        count_staked_validators(s, k - 1) + if first_of_validator(s, k - 1) && vote_total(
            s,
            s[k - 1].vote_account_address@,
        ) >= STAKED_VALIDATOR_THRESHOLD {
            1nat
        } else {
            0nat
        }
    }
}

/// Largest value a validator's saturating total takes.
pub const TOTAL_CAP: u128 = 0xffff_ffff_ffff_ffff;

proof fn lemma_vote_total_nonneg(s: Seq<MarinadeStakePoolStakeAccount>, vote: Seq<u8>)
    ensures
        vote_total(s, vote) >= 0,
    decreases s.len(),
{
    if s.len() > 0 {
        lemma_vote_total_nonneg(s.drop_last(), vote);
    }
}

/// The lamports of the validator `vote` over `s`, capped at `TOTAL_CAP`.
fn capped_vote_total(s: &Vec<MarinadeStakePoolStakeAccount>, vote: &Address) -> (r: u128)
    ensures
        r == if vote_total(s@, vote@) > TOTAL_CAP {
            TOTAL_CAP as int
        } else {
            vote_total(s@, vote@)
        },
{
    let mut acc: u128 = 0;
    let mut i: usize = 0;
    while i < s.len()
        invariant
            i <= s@.len(),
            acc == if vote_total(s@.subrange(0, i as int), vote@) > TOTAL_CAP {
                TOTAL_CAP as int
            } else {
                vote_total(s@.subrange(0, i as int), vote@)
            },
        decreases s@.len() - i,
    {
        proof {
            assert(s@.subrange(0, i + 1).drop_last() =~= s@.subrange(0, i as int));
            lemma_vote_total_nonneg(s@.subrange(0, i as int), vote@);
        }
        let a = &s[i];
        if a.vote_account_address.same(vote) {
            let t = a.active_stake as u128 + a.activating_stake as u128 + a.deactivating_stake as u128
                + a.undelegated_stake as u128;
            acc = if acc + t > TOTAL_CAP {
                TOTAL_CAP
            } else {
                acc + t
            };
        }
        i = i + 1;
    }
    assert(s@.subrange(0, i as int) =~= s@);
    acc
}

/// Whether no account before `i` is delegated to account `i`'s validator.
fn is_first_of_validator(s: &Vec<MarinadeStakePoolStakeAccount>, i: usize) -> (r: bool)
    requires
        i < s@.len(),
    ensures
        r == first_of_validator(s@, i as int),
{
    let mut j: usize = 0;
    while j < i
        invariant
            i < s@.len(),
            j <= i,
            forall|k: int|
                0 <= k < j ==> (#[trigger] s@[k]).vote_account_address@ != s@[i as int].vote_account_address@,
        decreases i - j,
    {
        if s[j].vote_account_address.same(&s[i].vote_account_address) {
            return false;
        }
        j = j + 1;
    }
    true
}

/// A snapshot of the Marinade pool at a checkpoint.
#[derive(Clone, Debug)]
pub struct MarinadeStakePoolMeta {
    pub address: Address,
    pub mint: Address,
    pub manager: Address,
    /// Seconds that the checkpoint's epoch lasted.
    pub epoch_duration: u64,
    pub total_lamports: u64,
    pub pool_token_supply: u64,
    /// The fee taken from rewards.
    pub management_fee: Fee,
    /// Lamports of the reserve account above its rent-exempt minimum.
    pub reserve: u64,
    pub stake_accounts: Vec<MarinadeStakePoolStakeAccount>,
}

/// The stake records that the state's stake list holds, read from the list
/// account's data.
pub fn stake_records(state: &MarinadeState, stake_list_data: &[u8]) -> (r: Result<Vec<StakeRecord>, PoolError>)
    ensures
        r is Ok <==> forall|i: int|
            0 <= i < state.stake_system.stake_list.count ==> #[trigger] record_fits(
                stake_list_data@,
                state.stake_system.stake_list,
                i,
            ),
        r matches Ok(v) ==> {
            &&& v@.len() == state.stake_system.stake_list.count
            &&& forall|i: int|
                0 <= i < v@.len() ==> stake_record_at(
                    stake_list_data@,
                    item_start(state.stake_system.stake_list, i),
                    #[trigger] v@[i],
                )
        },
        r matches Err(e) ==> e == PoolError::MalformedLayout,
{
    let mut v: Vec<StakeRecord> = Vec::new();
    let mut i: u32 = 0;
    while i < state.stake_system.stake_list.count
        invariant
            i <= state.stake_system.stake_list.count,
            v@.len() == i,
            forall|j: int|
                0 <= j < i ==> #[trigger] record_fits(stake_list_data@, state.stake_system.stake_list, j),
            forall|j: int|
                0 <= j < i ==> stake_record_at(
                    stake_list_data@,
                    item_start(state.stake_system.stake_list, j),
                    #[trigger] v@[j],
                ),
        decreases state.stake_system.stake_list.count - i,
    {
        let rec = match state.stake_system.get(stake_list_data, i) {
            Ok(rec) => rec,
            Err(e) => {
                assert(!record_fits(stake_list_data@, state.stake_system.stake_list, i as int));
                return Err(e);
            },
        };
        v.push(rec);
        i = i + 1;
    }
    Ok(v)
}

/// Why the stake accounts `accounts` cannot be classified: the first error
/// among those that exist.
pub open spec fn first_account_error(accounts: Seq<Option<AccountData>>, epoch: u64) -> Option<PoolError>
    decreases accounts.len(),
{
    if accounts.len() == 0 {
        None
    } else {
        match first_account_error(accounts.drop_last(), epoch) {
            Some(e) => Some(e),
            None => match accounts.last() {
                None => None,
                Some(a) => if !is_delegated_state(a.data@) {
                    Some(PoolError::MalformedLayout)
                } else {
                    match spec_stake_account_split(a, epoch) {
                        Err(e) => Some(e),
                        Ok(_) => None,
                    }
                },
            },
        }
    }
}

/// Lamports of the reserve account above the state's rent-exempt amount,
/// or why there are none.
pub open spec fn spec_marinade_reserve(a: Option<AccountData>, rent_exempt: u64) -> Result<u64, PoolError> {
    match a {
        None => Err(PoolError::RequiredAccountMissing),
        Some(x) => if x.lamports < rent_exempt {
            Err(PoolError::DataConsistencyFault)
        } else {
            Ok((x.lamports - rent_exempt) as u64)
        },
    }
}

proof fn lemma_account_error_persists(accounts: Seq<Option<AccountData>>, epoch: u64, k: int)
    requires
        0 <= k <= accounts.len(),
        first_account_error(accounts.subrange(0, k), epoch) is Some,
    ensures
        first_account_error(accounts, epoch) == first_account_error(accounts.subrange(0, k), epoch),
    decreases accounts.len() - k,
{
    if k < accounts.len() {
        let t = accounts.subrange(0, k + 1);
        assert(t.drop_last() =~= accounts.subrange(0, k));
        lemma_account_error_persists(accounts, epoch, k + 1);
    } else {
        assert(accounts.subrange(0, k) =~= accounts);
    }
}

/// Whether `m` holds, in order, one account for each record whose stake
/// account exists, delegated to the validator its data names.
pub open spec fn accounts_built(
    records: Seq<StakeRecord>,
    accounts: Seq<Option<AccountData>>,
    epoch: u64,
    inflation: Seq<RewardEntry>,
    jito: Map<Seq<u8>, u64>,
    built: Seq<MarinadeStakePoolStakeAccount>,
) -> bool
    decreases records.len(),
{
    if records.len() == 0 {
        built.len() == 0
    } else {
        let k = records.len() - 1;
        match accounts[k] {
            None => accounts_built(records.drop_last(), accounts, epoch, inflation, jito, built),
            Some(a) => built.len() > 0 && accounts_built(
                records.drop_last(),
                accounts,
                epoch,
                inflation,
                jito,
                built.drop_last(),
            ) && {
                let s = built.last();
                &&& s.vote_account_address@ == key_at(a.data@, 124)
                &&& s.stake_account_address == records[k].stake_account
                &&& spec_stake_account_split(a, epoch) == Ok::<LamportsAllocation, PoolError>(
                    s.spec_allocation(),
                )
                &&& s.inflation_rewards == spec_inflation_reward(inflation, records[k].stake_account@)
                &&& s.jito_rewards == spec_jito_reward(jito, records[k].stake_account@)
            },
        }
    }
}

/// The allocations of the accounts that exist among `accounts`, in record
/// order.
pub open spec fn built_allocations(
    records: Seq<StakeRecord>,
    accounts: Seq<Option<AccountData>>,
    epoch: u64,
) -> Seq<LamportsAllocation>
    decreases records.len(),
{
    if records.len() == 0 {
        Seq::empty()
    } else {
        let prev = built_allocations(records.drop_last(), accounts, epoch);
        match accounts[records.len() - 1] {
            None => prev,
            Some(a) => prev.push(spec_stake_account_split(a, epoch)->Ok_0),
        }
    }
}

/// The rewards of the accounts that exist among `accounts`, in record
/// order.
pub open spec fn built_rewards(
    records: Seq<StakeRecord>,
    accounts: Seq<Option<AccountData>>,
    inflation: Seq<RewardEntry>,
    jito: Map<Seq<u8>, u64>,
) -> Seq<Rewards>
    decreases records.len(),
{
    if records.len() == 0 {
        Seq::empty()
    } else {
        let prev = built_rewards(records.drop_last(), accounts, inflation, jito);
        let key = records.last().stake_account@;
        match accounts[records.len() - 1] {
            None => prev,
            Some(_) => prev.push(
                Rewards {
                    inflation: spec_inflation_reward(inflation, key),
                    jito: spec_jito_reward(jito, key),
                },
            ),
        }
    }
}

proof fn lemma_built_sums(
    records: Seq<StakeRecord>,
    accounts: Seq<Option<AccountData>>,
    epoch: u64,
    inflation: Seq<RewardEntry>,
    jito: Map<Seq<u8>, u64>,
    built: Seq<MarinadeStakePoolStakeAccount>,
)
    requires
        records.len() <= accounts.len(),
        accounts_built(records, accounts, epoch, inflation, jito, built),
    ensures
        account_allocations(built) == built_allocations(records, accounts, epoch),
        account_rewards(built) == built_rewards(records, accounts, inflation, jito),
    decreases records.len(),
{
    if records.len() == 0 {
        assert(account_allocations(built) =~= Seq::<LamportsAllocation>::empty());
        assert(account_rewards(built) =~= Seq::<Rewards>::empty());
    } else {
        let k = records.len() - 1;
        match accounts[k] {
            None => {
                lemma_built_sums(records.drop_last(), accounts, epoch, inflation, jito, built);
            },
            Some(a) => {
                lemma_built_sums(records.drop_last(), accounts, epoch, inflation, jito, built.drop_last());
                assert(account_allocations(built) =~= account_allocations(built.drop_last()).push(
                    built.last().spec_allocation(),
                ));
                assert(account_rewards(built) =~= account_rewards(built.drop_last()).push(
                    built.last().spec_rewards(),
                ));
            },
        }
    }
}

impl MarinadeStakePoolMeta {
    /// Whether the pool's lamport and reward sums fit in 64 bits.
    pub open spec fn well_formed(&self) -> bool {
        &&& allocation_fits(account_allocations(self.stake_accounts@), self.reserve)
        &&& rewards_fit(account_rewards(self.stake_accounts@))
    }

    /// Checks `well_formed`.
    pub fn is_well_formed(&self) -> (r: bool)
        ensures
            r == self.well_formed(),
    {
        check_allocation_fits(&allocations_of(&self.stake_accounts), self.reserve)
            && check_rewards_fit(&rewards_of(&self.stake_accounts))
    }

    /// Builds the snapshot of the pool from its decoded state, its stake
    /// records with the stake account each names (in record order; absent
    /// accounts are skipped), its reserve account and the epoch's rewards.
    pub fn build(
        marinade_state_address: &Address,
        marinade_state: &MarinadeState,
        records: &Vec<StakeRecord>,
        stake_accounts: &Vec<Option<AccountData>>,
        reserve_account: &Option<AccountData>,
        epoch: u64,
        epoch_duration: u64,
        inflation_rewards: &Vec<RewardEntry>,
        jito_rewards_lookup: &JitoRewardsLookup,
    ) -> (r: Result<Self, PoolError>)
        requires
            records@.len() == stake_accounts@.len(),
        ensures
            match first_account_error(stake_accounts@, epoch) {
                Some(e) => r == Err::<Self, PoolError>(e),
                None => match spec_marinade_reserve(
                    *reserve_account,
                    marinade_state.rent_exempt_for_token_acc,
                ) {
                    Err(e) => r == Err::<Self, PoolError>(e),
                    Ok(reserve) => if spec_total_lamports_under_control(*marinade_state) > u64::MAX {
                        r == Err::<Self, PoolError>(PoolError::DataConsistencyFault)
                    } else {
                        (r is Ok <==> allocation_fits(
                            built_allocations(records@, stake_accounts@, epoch),
                            reserve,
                        ) && rewards_fit(
                            built_rewards(
                                records@,
                                stake_accounts@,
                                inflation_rewards@,
                                lookup_contents(*jito_rewards_lookup),
                            ),
                        )) && match r {
                            Ok(m) => {
                                &&& m.well_formed()
                                &&& m.address == *marinade_state_address
                                &&& m.mint == marinade_state.msol_mint
                                &&& m.manager == marinade_state.admin_authority
                                &&& m.epoch_duration == epoch_duration
                                &&& m.total_lamports == spec_total_virtual_staked_lamports(
                                    *marinade_state,
                                )
                                &&& m.pool_token_supply == marinade_state.msol_supply
                                &&& m.management_fee == marinade_state.reward_fee
                                &&& m.reserve == reserve
                                &&& accounts_built(
                                    records@,
                                    stake_accounts@,
                                    epoch,
                                    inflation_rewards@,
                                    lookup_contents(*jito_rewards_lookup),
                                    m.stake_accounts@,
                                )
                            },
                            Err(e) => e == PoolError::DataConsistencyFault,
                        }
                    },
                },
            },
    {
        let mut built: Vec<MarinadeStakePoolStakeAccount> = Vec::new();
        let mut i: usize = 0;
        while i < records.len()
            invariant
                i <= records@.len(),
                records@.len() == stake_accounts@.len(),
                first_account_error(stake_accounts@.subrange(0, i as int), epoch) is None,
                accounts_built(
                    records@.subrange(0, i as int),
                    stake_accounts@,
                    epoch,
                    inflation_rewards@,
                    lookup_contents(*jito_rewards_lookup),
                    built@,
                ),
            decreases records@.len() - i,
        {
            proof {
                assert(stake_accounts@.subrange(0, i + 1).drop_last() =~= stake_accounts@.subrange(0, i as int));
                assert(records@.subrange(0, i + 1).drop_last() =~= records@.subrange(0, i as int));
            }
            match &stake_accounts[i] {
                None => {},
                Some(a) => {
                    let s = match decode_delegated_stake(a.data.as_slice()) {
                        Ok(s) => s,
                        Err(e) => {
                            proof {
                                lemma_account_error_persists(stake_accounts@, epoch, i + 1);
                            }
                            return Err(e);
                        },
                    };
                    let acct = match MarinadeStakePoolStakeAccount::build(
                        &s.voter,
                        &records[i].stake_account,
                        a,
                        epoch,
                        inflation_rewards,
                        jito_rewards_lookup,
                    ) {
                        Ok(acct) => acct,
                        Err(e) => {
                            proof {
                                lemma_account_error_persists(stake_accounts@, epoch, i + 1);
                            }
                            return Err(e);
                        },
                    };
                    let ghost before = built@;
                    built.push(acct);
                    assert(built@.drop_last() =~= before);
                },
            }
            i = i + 1;
        }
        assert(stake_accounts@.subrange(0, i as int) =~= stake_accounts@);
        assert(records@.subrange(0, i as int) =~= records@);
        proof {
            lemma_built_sums(
                records@,
                stake_accounts@,
                epoch,
                inflation_rewards@,
                lookup_contents(*jito_rewards_lookup),
                built@,
            );
        }
        let reserve_pda = match reserve_account {
            Some(x) => x,
            None => return Err(PoolError::RequiredAccountMissing),
        };
        if reserve_pda.lamports < marinade_state.rent_exempt_for_token_acc {
            return Err(PoolError::DataConsistencyFault);
        }
        let reserve = reserve_pda.lamports - marinade_state.rent_exempt_for_token_acc;
        let total_lamports = marinade_state.total_virtual_staked_lamports()?;
        let meta = MarinadeStakePoolMeta {
            address: *marinade_state_address,
            mint: marinade_state.msol_mint,
            manager: marinade_state.admin_authority,
            epoch_duration,
            total_lamports,
            pool_token_supply: marinade_state.msol_supply,
            management_fee: marinade_state.reward_fee,
            reserve,
            stake_accounts: built,
        };
        if !meta.is_well_formed() {
            return Err(PoolError::DataConsistencyFault);
        }
        Ok(meta)
    }

    /// The key's text of the pool's state account.
    pub fn address(&self) -> (r: String)
        ensures
            r@ == base58_of(self.address@),
    {
        self.address.to_text()
    }

    /// The key's text of the pool's admin authority.
    pub fn manager(&self) -> (r: String)
        ensures
            r@ == base58_of(self.manager@),
    {
        self.manager.to_text()
    }

    /// The key's text of the pool's token mint.
    pub fn mint(&self) -> (r: String)
        ensures
            r@ == base58_of(self.mint@),
    {
        self.mint.to_text()
    }

    /// Lamports per pool token.
    pub fn lst_price(&self) -> (r: Ratio)
        ensures
            r == spec_ratio_or_zero(self.total_lamports, self.pool_token_supply),
    {
        ratio_or_zero(self.total_lamports, self.pool_token_supply)
    }

    pub fn lst_supply(&self) -> (r: u64)
        ensures
            r == self.pool_token_supply,
    {
        self.pool_token_supply
    }

    /// The reward fee as a fraction of rewards.
    pub fn management_fee(&self) -> (r: Ratio)
        ensures
            r == (Ratio { numerator: self.management_fee.basis_points as u64, denominator: 10_000 }),
    {
        Ratio { numerator: self.management_fee.basis_points as u64, denominator: 10_000 }
    }

    /// The pool's lamports by kind: its stake accounts' and its reserve.
    pub fn lamports_allocation(&self) -> (r: LamportsAllocation)
        requires
            self.well_formed(),
        ensures
            r == pool_allocation(account_allocations(self.stake_accounts@), self.reserve),
    {
        add_allocations(&allocations_of(&self.stake_accounts), self.reserve)
    }

    /// The pool's rewards this epoch.
    pub fn rewards(&self) -> (r: Rewards)
        requires
            self.well_formed(),
        ensures
            r == pool_rewards(account_rewards(self.stake_accounts@)),
    {
        add_rewards(&rewards_of(&self.stake_accounts))
    }

    /// How many validators hold at least the staked threshold over the
    /// pool's stake accounts.
    pub fn staked_validator_count(&self) -> (r: u64)
        ensures
            r == count_staked_validators(self.stake_accounts@, self.stake_accounts@.len() as int),
    {
        let s = &self.stake_accounts;
        let mut n: u64 = 0;
        let mut i: usize = 0;
        while i < s.len()
            invariant
                i <= s@.len(),
                n == count_staked_validators(s@, i as int),
                n <= i,
            decreases s@.len() - i,
        {
            if is_first_of_validator(s, i) && capped_vote_total(s, &s[i].vote_account_address)
                >= STAKED_VALIDATOR_THRESHOLD as u128 {
                n = n + 1;
            }
            i = i + 1;
        }
        n
    }
}

/// Lamports under control that a state account's data records, before
/// tickets are subtracted.
pub open spec fn recorded_under_control(d: Seq<u8>) -> int {
    le_u64(d, 376) + le_u64(d, 226) + le_u64(d, 568) + le_u64(d, 496)
}

/// Lamports net of unclaimed tickets that a state account's data records.
pub open spec fn recorded_virtual_staked(d: Seq<u8>) -> int {
    if recorded_under_control(d) >= le_u64(d, 528) {
        recorded_under_control(d) - le_u64(d, 528)
    } else {
        0
    }
}

/// The price per pool token that the state account's data records, or why
/// it cannot be read.
pub open spec fn spec_live_price(d: Seq<u8>) -> Result<Ratio, PoolError> {
    if d.len() < MARINADE_STATE_LEN {
        Err(PoolError::MalformedLayout)
    } else if recorded_under_control(d) > u64::MAX {
        Err(PoolError::DataConsistencyFault)
    } else {
        Ok(spec_ratio_or_zero(recorded_virtual_staked(d) as u64, le_u64(d, 504)))
    }
}

/// The price per pool token that the state account's data records.
pub fn live_lst_price(account_data: &[u8]) -> (r: Result<Ratio, PoolError>)
    ensures
        r == spec_live_price(account_data@),
{
    let state = decode_marinade_state(account_data)?;
    let total = state.total_virtual_staked_lamports()?;
    Ok(ratio_or_zero(total, state.msol_supply))
}

} // verus!
