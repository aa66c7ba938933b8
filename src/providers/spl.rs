//! Snapshots of SPL stake pools.
use crate::address::{program_address_of, Address};
use crate::error::PoolError;
use crate::providers::stake_accounts::{
    active_split, spec_active_split, spec_transient_split, transient_split, ValidatorAccounts,
};
use crate::providers::{
    add_allocations, add_rewards, allocation_fits, allocation_total, check_allocation_fits,
    check_rewards_fit, inflation_reward_of, pool_allocation, pool_rewards, ratio_or_zero,
    rewards_fit, spec_inflation_reward, spec_ratio_or_zero, LamportsAllocation, Ratio,
    RewardEntry, Rewards, STAKED_VALIDATOR_THRESHOLD,
};
use crate::address::base58_of;
use crate::providers::stake_accounts::minimum_reserve;
use crate::vendors::stake::{decode_initialized_reserve, is_initialized_state, AccountData};
use crate::layout::{fits, le_u64};
use crate::vendors::jito::{jito_reward_of, lookup_contents, spec_jito_reward, JitoRewardsLookup};
use crate::vendors::spl::{
    find_stake_program_address, find_transient_stake_program_address, spl_program_key,
    stake_pool_program_id, stake_seeds, stake_status_of, transient_seeds, StakeStatus,
    ValidatorStakeInfo, Fee, StakePool, ValidatorList, decode_stake_pool, stake_pool_schema,
    minimum_reserve_lamports,
};
use vstd::prelude::*;

verus! {

/// A validator of an SPL pool, with its lamports and rewards this epoch.
#[derive(Clone, Copy, Debug)]
pub struct SplStakePoolValidator {
    pub vote_account_address: Address,
    pub active_stake_account_address: Address,
    pub transient_stake_account_address: Address,
    pub status: StakeStatus,
    pub active_stake: u64,
    pub undelegated_stake: u64,
    pub activating_stake: u64,
    pub deactivating_stake: u64,
    pub inflation_rewards: u64,
    pub jito_rewards: u64,
}

/// Seeds of the validator's active stake account in the pool.
pub open spec fn active_seeds(pool: Seq<u8>, info: ValidatorStakeInfo) -> Seq<Seq<u8>> {
    stake_seeds(info.vote_account_address@, pool, info.validator_seed_suffix)
}

/// Seeds of the validator's transient stake account in the pool.
pub open spec fn transient_seeds_of(pool: Seq<u8>, info: ValidatorStakeInfo) -> Seq<Seq<u8>> {
    transient_seeds(info.vote_account_address@, pool, info.transient_seed_suffix)
}

/// The rewards of two stake accounts, added, or `None` when the sum does
/// not fit.
pub open spec fn pair_sum(a: u64, b: u64) -> Option<u64> {
    if a + b <= u64::MAX {
        Some((a + b) as u64)
    } else {
        None
    }
}

/// Why a validator's entry cannot be resolved, checked in order: its status
/// byte, its active account's address and data, its transient account's
/// address and data, and its reward sums.
pub open spec fn spec_validator_error(
    pool: Seq<u8>,
    info: ValidatorStakeInfo,
    accounts: ValidatorAccounts,
    epoch: u64,
    inflation: Seq<RewardEntry>,
    jito: Map<Seq<u8>, u64>,
) -> Option<PoolError> {
    let active_addr = program_address_of(active_seeds(pool, info), spl_program_key());
    let transient_addr = program_address_of(transient_seeds_of(pool, info), spl_program_key());
    if stake_status_of(info.status.0) is None {
        Some(PoolError::MalformedLayout)
    } else if active_addr is None {
        Some(PoolError::AddressDerivationFailed)
    } else if spec_active_split(
        accounts.active,
        stake_status_of(info.status.0) == Some(StakeStatus::Active),
        epoch,
    ) is Err {
        Some(spec_active_split(accounts.active, stake_status_of(info.status.0) == Some(StakeStatus::Active), epoch)->Err_0)
    } else if transient_addr is None {
        Some(PoolError::AddressDerivationFailed)
    } else if spec_transient_split(accounts.transient, epoch) is Err {
        Some(spec_transient_split(accounts.transient, epoch)->Err_0)
    } else if pair_sum(
        spec_inflation_reward(inflation, active_addr->0),
        spec_inflation_reward(inflation, transient_addr->0),
    ) is None {
        Some(PoolError::DataConsistencyFault)
    } else if pair_sum(spec_jito_reward(jito, active_addr->0), spec_jito_reward(jito, transient_addr->0))
        is None {
        Some(PoolError::DataConsistencyFault)
    } else {
        None
    }
}

/// Whether `v` describes the validator `info` of the pool at `pool`.
pub open spec fn validator_built(
    pool: Seq<u8>,
    info: ValidatorStakeInfo,
    accounts: ValidatorAccounts,
    epoch: u64,
    inflation: Seq<RewardEntry>,
    jito: Map<Seq<u8>, u64>,
    v: SplStakePoolValidator,
) -> bool {
    let a = v.active_stake_account_address@;
    let t = v.transient_stake_account_address@;
    &&& v.vote_account_address@ == info.vote_account_address@
    &&& program_address_of(active_seeds(pool, info), spl_program_key()) == Some(a)
    &&& program_address_of(transient_seeds_of(pool, info), spl_program_key()) == Some(t)
    &&& stake_status_of(info.status.0) == Some(v.status)
    &&& spec_active_split(accounts.active, v.status == StakeStatus::Active, epoch) == Ok::<
        (u64, u64),
        PoolError,
    >((v.active_stake, v.undelegated_stake))
    &&& spec_transient_split(accounts.transient, epoch) == Ok::<(u64, u64), PoolError>(
        (v.activating_stake, v.deactivating_stake),
    )
    &&& pair_sum(spec_inflation_reward(inflation, a), spec_inflation_reward(inflation, t)) == Some(
        v.inflation_rewards,
    )
    &&& pair_sum(spec_jito_reward(jito, a), spec_jito_reward(jito, t)) == Some(v.jito_rewards)
}

/// `a + b`, or the consistency fault when it does not fit.
pub fn add_rewards_pair(a: u64, b: u64) -> (r: Result<u64, PoolError>)
    ensures
        match pair_sum(a, b) {
            Some(s) => r == Ok::<u64, PoolError>(s),
            None => r == Err::<u64, PoolError>(PoolError::DataConsistencyFault),
        },
{
    match a.checked_add(b) {
        Some(s) => Ok(s),
        None => Err(PoolError::DataConsistencyFault),
    }
}

/// The active and transient stake account addresses of a validator of the
/// pool at `stake_pool_address`.
pub fn validator_stake_addresses(stake_pool_address: &Address, validator_info: &ValidatorStakeInfo) -> (r:
    Result<(Address, Address), PoolError>)
    ensures
        match r {
            Ok((a, t)) => program_address_of(
                active_seeds(stake_pool_address@, *validator_info),
                spl_program_key(),
            ) == Some(a@) && program_address_of(
                transient_seeds_of(stake_pool_address@, *validator_info),
                spl_program_key(),
            ) == Some(t@),
            Err(e) => e == PoolError::AddressDerivationFailed && (program_address_of(
                active_seeds(stake_pool_address@, *validator_info),
                spl_program_key(),
            ) is None || program_address_of(
                transient_seeds_of(stake_pool_address@, *validator_info),
                spl_program_key(),
            ) is None),
        },
{
    let program = stake_pool_program_id();
    let active = find_stake_program_address(
        &program,
        &validator_info.vote_account_address,
        stake_pool_address,
        validator_info.validator_seed_suffix,
    );
    let transient = find_transient_stake_program_address(
        &program,
        &validator_info.vote_account_address,
        stake_pool_address,
        validator_info.transient_seed_suffix,
    );
    match (active, transient) {
        (Some(a), Some(t)) => Ok((a, t)),
        _ => Err(PoolError::AddressDerivationFailed),
    }
}

impl SplStakePoolValidator {
    /// Resolves a validator list entry against its stake accounts and the
    /// epoch's rewards.
    pub fn from_validator_info(
        stake_pool_address: &Address,
        validator_info: &ValidatorStakeInfo,
        accounts: &ValidatorAccounts,
        epoch: u64,
        inflation_rewards: &Vec<RewardEntry>,
        jito_rewards_lookup: &JitoRewardsLookup,
    ) -> (r: Result<Self, PoolError>)
        ensures
            match spec_validator_error(
                stake_pool_address@,
                *validator_info,
                *accounts,
                epoch,
                inflation_rewards@,
                lookup_contents(*jito_rewards_lookup),
            ) {
                Some(e) => r == Err::<Self, PoolError>(e),
                None => r matches Ok(v) && validator_built(
                    stake_pool_address@,
                    *validator_info,
                    *accounts,
                    epoch,
                    inflation_rewards@,
                    lookup_contents(*jito_rewards_lookup),
                    v,
                ),
            },
    {
        let status = StakeStatus::try_from(validator_info.status)?;
        let program = stake_pool_program_id();
        let active_address = match find_stake_program_address(
            &program,
            &validator_info.vote_account_address,
            stake_pool_address,
            validator_info.validator_seed_suffix,
        ) {
            Some(a) => a,
            None => return Err(PoolError::AddressDerivationFailed),
        };
        let (active_stake, undelegated_stake) = active_split(
            &accounts.active,
            status == StakeStatus::Active,
            epoch,
        )?;
        let transient_address = match find_transient_stake_program_address(
            &program,
            &validator_info.vote_account_address,
            stake_pool_address,
            validator_info.transient_seed_suffix,
        ) {
            Some(a) => a,
            None => return Err(PoolError::AddressDerivationFailed),
        };
        let (activating_stake, deactivating_stake) = transient_split(&accounts.transient, epoch)?;
        let inflation = add_rewards_pair(
            inflation_reward_of(inflation_rewards, &active_address),
            inflation_reward_of(inflation_rewards, &transient_address),
        )?;
        let jito = add_rewards_pair(
            jito_reward_of(jito_rewards_lookup, &active_address),
            jito_reward_of(jito_rewards_lookup, &transient_address),
        )?;
        Ok(
            SplStakePoolValidator {
                vote_account_address: validator_info.vote_account_address,
                active_stake_account_address: active_address,
                transient_stake_account_address: transient_address,
                status,
                active_stake,
                undelegated_stake,
                activating_stake,
                deactivating_stake,
                inflation_rewards: inflation,
                jito_rewards: jito,
            },
        )
    }
}

impl SplStakePoolValidator {
    /// The validator's lamports by kind.
    pub open spec fn spec_allocation(&self) -> LamportsAllocation {
        LamportsAllocation {
            active: self.active_stake,
            activating: self.activating_stake,
            deactivating: self.deactivating_stake,
            undelegated: self.undelegated_stake,
        }
    }

    /// The validator's rewards this epoch.
    pub open spec fn spec_rewards(&self) -> Rewards {
        Rewards { inflation: self.inflation_rewards, jito: self.jito_rewards }
    }

    /// The validator's lamports by kind.
    pub fn allocation(&self) -> (r: LamportsAllocation)
        ensures
            r == self.spec_allocation(),
    {
        LamportsAllocation {
            active: self.active_stake,
            activating: self.activating_stake,
            deactivating: self.deactivating_stake,
            undelegated: self.undelegated_stake,
        }
    }

    /// The validator's rewards this epoch.
    pub fn rewards(&self) -> (r: Rewards)
        ensures
            r == self.spec_rewards(),
    {
        Rewards { inflation: self.inflation_rewards, jito: self.jito_rewards }
    }

    /// Whether the validator is active and holds at least the staked
    /// threshold.
    pub open spec fn spec_is_staked(&self) -> bool {
        allocation_total(self.spec_allocation()) >= STAKED_VALIDATOR_THRESHOLD && self.status
            == StakeStatus::Active
    }

    /// Whether the validator is active and holds at least the staked
    /// threshold.
    pub fn is_staked(&self) -> (r: bool)
        ensures
            r == self.spec_is_staked(),
    {
        let total = self.active_stake as u128 + self.activating_stake as u128
            + self.deactivating_stake as u128 + self.undelegated_stake as u128;
        total >= STAKED_VALIDATOR_THRESHOLD as u128 && self.status == StakeStatus::Active
    }
}

/// The allocations of `vs`, in order.
pub open spec fn validator_allocations(vs: Seq<SplStakePoolValidator>) -> Seq<LamportsAllocation> {
    vs.map_values(|v: SplStakePoolValidator| v.spec_allocation())
}

/// The rewards of `vs`, in order.
pub open spec fn validator_rewards(vs: Seq<SplStakePoolValidator>) -> Seq<Rewards> {
    vs.map_values(|v: SplStakePoolValidator| v.spec_rewards())
}

/// How many of `vs` are staked.
pub open spec fn count_staked(vs: Seq<SplStakePoolValidator>) -> nat
    decreases vs.len(),
{
    if vs.len() == 0 {
        0
    } else {
        count_staked(vs.drop_last()) + if vs.last().spec_is_staked() {
            1nat
        } else {
            0nat
        }
    }
}

/// The allocations of `vs`, in order.
pub fn allocations_of(vs: &Vec<SplStakePoolValidator>) -> (r: Vec<LamportsAllocation>)
    ensures
        r@ == validator_allocations(vs@),
{
    let mut r: Vec<LamportsAllocation> = Vec::new();
    let mut i: usize = 0;
    while i < vs.len()
        invariant
            i <= vs@.len(),
            r@ == validator_allocations(vs@.subrange(0, i as int)),
        decreases vs@.len() - i,
    {
        r.push(vs[i].allocation());
        i = i + 1;
        assert(r@ =~= validator_allocations(vs@.subrange(0, i as int)));
    }
    assert(vs@.subrange(0, i as int) =~= vs@);
    r
}

/// The rewards of `vs`, in order.
pub fn rewards_of(vs: &Vec<SplStakePoolValidator>) -> (r: Vec<Rewards>)
    ensures
        r@ == validator_rewards(vs@),
{
    let mut r: Vec<Rewards> = Vec::new();
    let mut i: usize = 0;
    while i < vs.len()
        invariant
            i <= vs@.len(),
            r@ == validator_rewards(vs@.subrange(0, i as int)),
        decreases vs@.len() - i,
    {
        r.push(vs[i].rewards());
        i = i + 1;
        assert(r@ =~= validator_rewards(vs@.subrange(0, i as int)));
    }
    assert(vs@.subrange(0, i as int) =~= vs@);
    r
}

/// Counts the staked validators of `vs`.
pub fn staked_count(vs: &Vec<SplStakePoolValidator>) -> (r: u64)
    ensures
        r == count_staked(vs@),
{
    let mut n: u64 = 0;
    let mut i: usize = 0;
    while i < vs.len()
        invariant
            i <= vs@.len(),
            n == count_staked(vs@.subrange(0, i as int)),
            n <= i,
        decreases vs@.len() - i,
    {
        proof {
            assert(vs@.subrange(0, i + 1).drop_last() =~= vs@.subrange(0, i as int));
        }
        if vs[i].is_staked() {
            n = n + 1;
        }
        i = i + 1;
    }
    assert(vs@.subrange(0, i as int) =~= vs@);
    n
}

/// The fees of an SPL pool.
#[derive(Clone, Copy, Debug)]
pub struct SplStakePoolFees {
    pub epoch: Fee,
    pub deposit_sol: Fee,
    pub withdrawal_sol: Fee,
    pub deposit_stake: Fee,
    pub withdrawal_stake: Fee,
}

/// A snapshot of an SPL stake pool at a checkpoint.
#[derive(Clone, Debug)]
pub struct SplStakePoolMeta {
    pub address: Address,
    pub mint: Address,
    pub manager: Address,
    /// Whether the pool account is initialized as a pool.
    pub is_valid: bool,
    /// Whether the pool was last updated before the checkpoint's epoch.
    pub needs_update: bool,
    pub total_lamports: u64,
    pub pool_token_supply: u64,
    pub last_epoch_total_lamports: u64,
    pub last_epoch_pool_token_supply: u64,
    pub fees: SplStakePoolFees,
    /// Lamports of the reserve stake account above its minimum reserve.
    pub reserve_stake: u64,
    pub validators: Vec<SplStakePoolValidator>,
}

/// Lamports of the reserve account above its minimum, or why there are
/// none.
pub open spec fn spec_reserve(a: Option<AccountData>) -> Result<u64, PoolError> {
    match a {
        None => Err(PoolError::RequiredAccountMissing),
        Some(x) => if !is_initialized_state(x.data@) {
            Err(PoolError::MalformedLayout)
        } else if x.lamports < minimum_reserve(le_u64(x.data@, 4)) {
            Err(PoolError::DataConsistencyFault)
        } else {
            Ok((x.lamports - minimum_reserve(le_u64(x.data@, 4))) as u64)
        },
    }
}

/// Lamports of the reserve account above its minimum.
pub fn reserve_lamports(a: &Option<AccountData>) -> (r: Result<u64, PoolError>)
    ensures
        r == spec_reserve(*a),
{
    let x = match a {
        Some(x) => x,
        None => return Err(PoolError::RequiredAccountMissing),
    };
    let rent = decode_initialized_reserve(x.data.as_slice())?;
    let minimum = minimum_reserve_lamports(rent);
    if x.lamports < minimum {
        return Err(PoolError::DataConsistencyFault);
    }
    Ok(x.lamports - minimum)
}

/// The lamports by kind of the validator entry `info`, once resolved.
pub open spec fn entry_allocation(info: ValidatorStakeInfo, accounts: ValidatorAccounts, epoch: u64) -> LamportsAllocation {
    let (a, u) = spec_active_split(accounts.active, stake_status_of(info.status.0) == Some(StakeStatus::Active), epoch)->Ok_0;
    let (ing, de) = spec_transient_split(accounts.transient, epoch)->Ok_0;
    LamportsAllocation { active: a, activating: ing, deactivating: de, undelegated: u }
}

/// The rewards of the validator entry `info`, once resolved.
pub open spec fn entry_rewards(
    pool: Seq<u8>,
    info: ValidatorStakeInfo,
    inflation: Seq<RewardEntry>,
    jito: Map<Seq<u8>, u64>,
) -> Rewards {
    let a = program_address_of(active_seeds(pool, info), spl_program_key())->0;
    let t = program_address_of(transient_seeds_of(pool, info), spl_program_key())->0;
    Rewards {
        inflation: pair_sum(spec_inflation_reward(inflation, a), spec_inflation_reward(inflation, t))->0,
        jito: pair_sum(spec_jito_reward(jito, a), spec_jito_reward(jito, t))->0,
    }
}

/// The allocations of the entries `infos`, once resolved.
pub open spec fn entries_allocations(
    infos: Seq<ValidatorStakeInfo>,
    accounts: Seq<ValidatorAccounts>,
    epoch: u64,
) -> Seq<LamportsAllocation> {
    Seq::new(infos.len(), |i: int| entry_allocation(infos[i], accounts[i], epoch))
}

/// The rewards of the entries `infos`, once resolved.
pub open spec fn entries_rewards(
    pool: Seq<u8>,
    infos: Seq<ValidatorStakeInfo>,
    inflation: Seq<RewardEntry>,
    jito: Map<Seq<u8>, u64>,
) -> Seq<Rewards> {
    Seq::new(infos.len(), |i: int| entry_rewards(pool, infos[i], inflation, jito))
}

/// The first error among the validator entries `infos`, if any.
pub open spec fn first_validator_error(
    pool: Seq<u8>,
    infos: Seq<ValidatorStakeInfo>,
    accounts: Seq<ValidatorAccounts>,
    epoch: u64,
    inflation: Seq<RewardEntry>,
    jito: Map<Seq<u8>, u64>,
) -> Option<PoolError>
    decreases infos.len(),
{
    if infos.len() == 0 {
        None
    } else {
        match first_validator_error(pool, infos.drop_last(), accounts, epoch, inflation, jito) {
            Some(e) => Some(e),
            None => spec_validator_error(
                pool,
                infos.last(),
                accounts[infos.len() - 1],
                epoch,
                inflation,
                jito,
            ),
        }
    }
}

impl SplStakePoolMeta {
    /// Whether the pool's lamport and reward sums fit in 64 bits.
    pub open spec fn well_formed(&self) -> bool {
        &&& allocation_fits(validator_allocations(self.validators@), self.reserve_stake)
        &&& rewards_fit(validator_rewards(self.validators@))
    }

    /// Checks `well_formed`.
    pub fn is_well_formed(&self) -> (r: bool)
        ensures
            r == self.well_formed(),
    {
        check_allocation_fits(&allocations_of(&self.validators), self.reserve_stake)
            && check_rewards_fit(&rewards_of(&self.validators))
    }

    /// Builds the snapshot of the pool at `stake_pool_address` from its
    /// decoded accounts, the stake accounts of each validator (in list
    /// order), its reserve account and the epoch's rewards.
    pub fn build(
        stake_pool_address: &Address,
        stake_pool: &StakePool,
        validator_list: &ValidatorList,
        validator_accounts: &Vec<ValidatorAccounts>,
        reserve_account: &Option<AccountData>,
        epoch: u64,
        inflation_rewards: &Vec<RewardEntry>,
        jito_rewards_lookup: &JitoRewardsLookup,
    ) -> (r: Result<Self, PoolError>)
        requires
            validator_accounts@.len() == validator_list.validators@.len(),
        ensures
            match first_validator_error(
                stake_pool_address@,
                validator_list.validators@,
                validator_accounts@,
                epoch,
                inflation_rewards@,
                lookup_contents(*jito_rewards_lookup),
            ) {
                Some(e) => r == Err::<Self, PoolError>(e),
                None => match spec_reserve(*reserve_account) {
                    Err(e) => r == Err::<Self, PoolError>(e),
                    Ok(reserve) => (r is Ok <==> allocation_fits(
                        entries_allocations(validator_list.validators@, validator_accounts@, epoch),
                        reserve,
                    ) && rewards_fit(
                        entries_rewards(
                            stake_pool_address@,
                            validator_list.validators@,
                            inflation_rewards@,
                            lookup_contents(*jito_rewards_lookup),
                        ),
                    )) && match r {
                        Ok(m) => {
                            &&& m.well_formed()
                            &&& m.address == *stake_pool_address
                            &&& m.mint == stake_pool.pool_mint
                            &&& m.manager == stake_pool.manager
                            &&& m.is_valid == (stake_pool.account_type
                                == crate::vendors::spl::AccountType::StakePool)
                            &&& m.needs_update == (stake_pool.last_update_epoch < epoch)
                            &&& m.total_lamports == stake_pool.total_lamports
                            &&& m.pool_token_supply == stake_pool.pool_token_supply
                            &&& m.last_epoch_total_lamports == stake_pool.last_epoch_total_lamports
                            &&& m.last_epoch_pool_token_supply
                                == stake_pool.last_epoch_pool_token_supply
                            &&& m.fees.epoch == stake_pool.epoch_fee
                            &&& m.fees.deposit_sol == stake_pool.sol_deposit_fee
                            &&& m.fees.withdrawal_sol == stake_pool.sol_withdrawal_fee
                            &&& m.fees.deposit_stake == stake_pool.stake_deposit_fee
                            &&& m.fees.withdrawal_stake == stake_pool.stake_withdrawal_fee
                            &&& m.reserve_stake == reserve
                            &&& m.validators@.len() == validator_list.validators@.len()
                            &&& forall|i: int|
                                0 <= i < m.validators@.len() ==> validator_built(
                                    stake_pool_address@,
                                    validator_list.validators@[i],
                                    validator_accounts@[i],
                                    epoch,
                                    inflation_rewards@,
                                    lookup_contents(*jito_rewards_lookup),
                                    #[trigger] m.validators@[i],
                                )
                        },
                        Err(e) => e == PoolError::DataConsistencyFault,
                    },
                },
            },
    {
        let infos = &validator_list.validators;
        let mut validators: Vec<SplStakePoolValidator> = Vec::new();
        let mut i: usize = 0;
        while i < infos.len()
            invariant
                i <= infos@.len(),
                validator_accounts@.len() == infos@.len(),
                infos@ == validator_list.validators@,
                validators@.len() == i,
                first_validator_error(
                    stake_pool_address@,
                    infos@.subrange(0, i as int),
                    validator_accounts@,
                    epoch,
                    inflation_rewards@,
                    lookup_contents(*jito_rewards_lookup),
                ) is None,
                forall|j: int|
                    0 <= j < i ==> validator_built(
                        stake_pool_address@,
                        infos@[j],
                        validator_accounts@[j],
                        epoch,
                        inflation_rewards@,
                        lookup_contents(*jito_rewards_lookup),
                        #[trigger] validators@[j],
                    ),
            decreases infos@.len() - i,
        {
            let ghost prefix = infos@.subrange(0, i + 1);
            assert(prefix.drop_last() =~= infos@.subrange(0, i as int));
            let v = match SplStakePoolValidator::from_validator_info(
                stake_pool_address,
                &infos[i],
                &validator_accounts[i],
                epoch,
                inflation_rewards,
                jito_rewards_lookup,
            ) {
                Ok(v) => v,
                Err(e) => {
                    proof {
                        lemma_first_error_persists(
                            stake_pool_address@,
                            infos@,
                            validator_accounts@,
                            epoch,
                            inflation_rewards@,
                            lookup_contents(*jito_rewards_lookup),
                            i + 1,
                        );
                    }
                    return Err(e);
                },
            };
            validators.push(v);
            i = i + 1;
        }
        assert(infos@.subrange(0, i as int) =~= infos@);
        assert(validator_allocations(validators@) =~= entries_allocations(infos@, validator_accounts@, epoch));
        assert(validator_rewards(validators@) =~= entries_rewards(
            stake_pool_address@,
            infos@,
            inflation_rewards@,
            lookup_contents(*jito_rewards_lookup),
        ));
        let reserve_stake = reserve_lamports(reserve_account)?;
        let meta = SplStakePoolMeta {
            address: *stake_pool_address,
            mint: stake_pool.pool_mint,
            manager: stake_pool.manager,
            is_valid: stake_pool.is_valid(),
            needs_update: stake_pool.last_update_epoch < epoch,
            total_lamports: stake_pool.total_lamports,
            pool_token_supply: stake_pool.pool_token_supply,
            last_epoch_total_lamports: stake_pool.last_epoch_total_lamports,
            last_epoch_pool_token_supply: stake_pool.last_epoch_pool_token_supply,
            fees: SplStakePoolFees {
                epoch: stake_pool.epoch_fee,
                deposit_sol: stake_pool.sol_deposit_fee,
                withdrawal_sol: stake_pool.sol_withdrawal_fee,
                deposit_stake: stake_pool.stake_deposit_fee,
                withdrawal_stake: stake_pool.stake_withdrawal_fee,
            },
            reserve_stake,
            validators,
        };
        if !meta.is_well_formed() {
            return Err(PoolError::DataConsistencyFault);
        }
        Ok(meta)
    }

    /// The key's text of the pool.
    pub fn address(&self) -> (r: String)
        ensures
            r@ == base58_of(self.address@),
    {
        self.address.to_text()
    }

    /// The key's text of the pool's manager.
    pub fn manager(&self) -> (r: String)
        ensures
            r@ == base58_of(self.manager@),
    {
        self.manager.to_text()
    }

    /// The key's text of the pool's token mint.
    pub fn mint(&self) -> (r: String)
        ensures
            r@ == base58_of(self.mint@),
    {
        self.mint.to_text()
    }

    /// Whether the pool is initialized and up to date.
    pub fn is_valid(&self) -> (r: bool)
        ensures
            r == (self.is_valid && !self.needs_update),
    {
        self.is_valid && !self.needs_update
    }

    /// Lamports per pool token.
    pub fn lst_price(&self) -> (r: Ratio)
        ensures
            r == spec_ratio_or_zero(self.total_lamports, self.pool_token_supply),
    {
        ratio_or_zero(self.total_lamports, self.pool_token_supply)
    }

    pub fn lst_supply(&self) -> (r: u64)
        ensures
            r == self.pool_token_supply,
    {
        self.pool_token_supply
    }

    /// The epoch fee as a fraction of rewards.
    pub fn management_fee(&self) -> (r: Ratio)
        ensures
            r == spec_ratio_or_zero(self.fees.epoch.numerator, self.fees.epoch.denominator),
    {
        ratio_or_zero(self.fees.epoch.numerator, self.fees.epoch.denominator)
    }

    /// The pool's lamports by kind: its validators' and its reserve.
    pub fn lamports_allocation(&self) -> (r: LamportsAllocation)
        requires
            self.well_formed(),
        ensures
            r == pool_allocation(validator_allocations(self.validators@), self.reserve_stake),
    {
        add_allocations(&allocations_of(&self.validators), self.reserve_stake)
    }

    /// The pool's rewards this epoch.
    pub fn rewards(&self) -> (r: Rewards)
        requires
            self.well_formed(),
        ensures
            r == pool_rewards(validator_rewards(self.validators@)),
    {
        add_rewards(&rewards_of(&self.validators))
    }

    /// How many validators are active and hold at least the staked
    /// threshold.
    pub fn staked_validator_count(&self) -> (r: u64)
        ensures
            r == count_staked(self.validators@),
    {
        staked_count(&self.validators)
    }
}

proof fn lemma_first_error_persists(
    pool: Seq<u8>,
    infos: Seq<ValidatorStakeInfo>,
    accounts: Seq<ValidatorAccounts>,
    epoch: u64,
    inflation: Seq<RewardEntry>,
    jito: Map<Seq<u8>, u64>,
    k: int,
)
    requires
        0 <= k <= infos.len(),
        first_validator_error(pool, infos.subrange(0, k), accounts, epoch, inflation, jito) is Some,
    ensures
        first_validator_error(pool, infos, accounts, epoch, inflation, jito) == first_validator_error(
            pool,
            infos.subrange(0, k),
            accounts,
            epoch,
            inflation,
            jito,
        ),
    decreases infos.len() - k,
{
    if k < infos.len() {
        let t = infos.subrange(0, k + 1);
        assert(t.drop_last() =~= infos.subrange(0, k));
        lemma_first_error_persists(pool, infos, accounts, epoch, inflation, jito, k + 1);
    } else {
        assert(infos.subrange(0, k) =~= infos);
    }
}

/// The price per pool token that a pool account's data records, or why it
/// cannot be read.
pub open spec fn spec_live_price(d: Seq<u8>) -> Result<Ratio, PoolError> {
    if fits(d, stake_pool_schema()) {
        Ok(spec_ratio_or_zero(le_u64(d, 258), le_u64(d, 266)))
    } else {
        Err(PoolError::MalformedLayout)
    }
}

/// The price per pool token that a pool account's data records.
pub fn live_lst_price(account_data: &[u8]) -> (r: Result<Ratio, PoolError>)
    ensures
        r == spec_live_price(account_data@),
{
    let pool = decode_stake_pool(account_data)?;
    Ok(ratio_or_zero(pool.total_lamports, pool.pool_token_supply))
}

} // verus!
