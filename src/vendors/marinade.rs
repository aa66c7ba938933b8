//! Account layouts of the Marinade liquid staking program.
use crate::address::{derived_from, try_find_program_address, Address};
use crate::error::PoolError;
use crate::layout::{key_at, le_u32, le_u64, read_key, read_u32, read_u64, read_u8};
use vstd::prelude::*;

verus! {

/// The Marinade program's key.
pub open spec fn marinade_program_key() -> Seq<u8> {
    seq![
        5u8, 69, 227, 101, 190, 242, 113, 173, 117, 53, 3, 103, 86, 93, 164, 13,
        163, 54, 220, 28, 135, 155, 177, 84, 138, 122, 252, 197, 90, 169, 57, 30,
    ]
}

/// The Marinade program's key.
pub fn marinade_program_id() -> (r: Address)
    ensures
        r@ == marinade_program_key(),
{
    let r = Address {
        bytes: [
            5u8, 69, 227, 101, 190, 242, 113, 173, 117, 53, 3, 103, 86, 93, 164, 13,
            163, 54, 220, 28, 135, 155, 177, 84, 138, 122, 252, 197, 90, 169, 57, 30,
        ],
    };
    assert(r@ =~= marinade_program_key());
    r
}

/// The address of Marinade's state account.
pub fn marinade_state_address() -> (r: Address)
    ensures
        r@ == seq![
            117u8, 17, 155, 49, 117, 128, 117, 134, 227, 244, 167, 229, 205, 15, 137, 14,
            150, 167, 83, 177, 15, 204, 199, 104, 30, 148, 115, 160, 8, 50, 112, 241,
        ],
{
    let r = Address {
        bytes: [
            117u8, 17, 155, 49, 117, 128, 117, 134, 227, 244, 167, 229, 205, 15, 137, 14,
            150, 167, 83, 177, 15, 204, 199, 104, 30, 148, 115, 160, 8, 50, 112, 241,
        ],
    };
    assert(r@ =~= seq![
        117u8, 17, 155, 49, 117, 128, 117, 134, 227, 244, 167, 229, 205, 15, 137, 14,
        150, 167, 83, 177, 15, 204, 199, 104, 30, 148, 115, 160, 8, 50, 112, 241,
    ]);
    r
}

/// The seed of the reserve account's derivation.
pub open spec fn reserve_seed() -> Seq<u8> {
    seq![114u8, 101, 115, 101, 114, 118, 101]
}

/// Fee in basis points.
#[derive(Clone, Copy, Debug, PartialEq, Eq, Structural)]
pub struct Fee {
    pub basis_points: u32,
}

/// A list stored in its own account, as entries of `item_size` bytes after
/// an 8-byte discriminator.
#[derive(Clone, Copy, Debug)]
pub struct List {
    pub account: Address,
    pub item_size: u32,
    pub count: u32,
    pub new_account: Address,
    pub copied_count: u32,
}

/// Whether `l` is the list header stored at `pos`.
pub open spec fn list_at(d: Seq<u8>, pos: int, l: List) -> bool {
    &&& l.account@ == key_at(d, pos)
    &&& l.item_size == le_u32(d, pos + 32)
    &&& l.count == le_u32(d, pos + 36)
    &&& l.new_account@ == key_at(d, pos + 40)
    &&& l.copied_count == le_u32(d, pos + 72)
}

fn read_list(d: &[u8], pos: usize) -> (r: List)
    requires
        pos + 76 <= d@.len(),
    ensures
        list_at(d@, pos as int, r),
{
    let _n = d.len();
    List {
        account: read_key(d, pos),
        item_size: read_u32(d, pos + 32),
        count: read_u32(d, pos + 36),
        new_account: read_key(d, pos + 40),
        copied_count: read_u32(d, pos + 72),
    }
}

#[derive(Clone, Copy, Debug)]
pub struct StakeSystem {
    pub stake_list: List,
    pub delayed_unstake_cooling_down: u64,
    pub stake_deposit_bump_seed: u8,
    pub stake_withdraw_bump_seed: u8,
    pub slots_for_stake_delta: u64,
    pub last_stake_delta_epoch: u64,
    pub min_stake: u64,
    pub extra_stake_delta_runs: u32,
}

#[derive(Clone, Copy, Debug)]
pub struct ValidatorSystem {
    pub validator_list: List,
    pub manager_authority: Address,
    pub total_validator_score: u32,
    /// Sum of all active lamports staked.
    pub total_active_balance: u64,
    pub auto_add_validator_enabled: u8,
}

#[derive(Clone, Copy, Debug)]
pub struct LiqPool {
    pub lp_mint: Address,
    pub lp_mint_authority_bump_seed: u8,
    pub sol_leg_bump_seed: u8,
    pub msol_leg_authority_bump_seed: u8,
    pub msol_leg: Address,
    pub lp_liquidity_target: u64,
    pub lp_max_fee: Fee,
    pub lp_min_fee: Fee,
    pub treasury_cut: Fee,
    pub lp_supply: u64,
    pub lent_from_sol_leg: u64,
    pub liquidity_sol_cap: u64,
}

/// The state account of the Marinade program.
#[derive(Clone, Copy, Debug)]
pub struct MarinadeState {
    pub msol_mint: Address,
    pub admin_authority: Address,
    pub operational_sol_account: Address,
    pub treasury_msol_account: Address,
    pub reserve_bump_seed: u8,
    pub msol_mint_authority_bump_seed: u8,
    pub rent_exempt_for_token_acc: u64,
    pub reward_fee: Fee,
    pub stake_system: StakeSystem,
    pub validator_system: ValidatorSystem,
    pub liq_pool: LiqPool,
    pub available_reserve_balance: u64,
    pub msol_supply: u64,
    pub msol_price: u64,
    pub circulating_ticket_count: u64,
    pub circulating_ticket_balance: u64,
    pub lent_from_reserve: u64,
    pub min_deposit: u64,
    pub min_withdraw: u64,
    pub staking_sol_cap: u64,
    pub emergency_cooling_down: u64,
}

/// Bytes of the state account that hold the state: a discriminator, then
/// the fields.
pub const MARINADE_STATE_LEN: usize = 576;

/// Whether `s` is, field by field, the state stored in `d`.
pub open spec fn marinade_state_at(d: Seq<u8>, s: MarinadeState) -> bool {
    &&& s.msol_mint@ == key_at(d, 8)
    &&& s.admin_authority@ == key_at(d, 40)
    &&& s.operational_sol_account@ == key_at(d, 72)
    &&& s.treasury_msol_account@ == key_at(d, 104)
    &&& s.reserve_bump_seed == d[136]
    &&& s.msol_mint_authority_bump_seed == d[137]
    &&& s.rent_exempt_for_token_acc == le_u64(d, 138)
    &&& s.reward_fee.basis_points == le_u32(d, 146)
    &&& list_at(d, 150, s.stake_system.stake_list)
    &&& s.stake_system.delayed_unstake_cooling_down == le_u64(d, 226)
    &&& s.stake_system.stake_deposit_bump_seed == d[234]
    &&& s.stake_system.stake_withdraw_bump_seed == d[235]
    &&& s.stake_system.slots_for_stake_delta == le_u64(d, 236)
    &&& s.stake_system.last_stake_delta_epoch == le_u64(d, 244)
    &&& s.stake_system.min_stake == le_u64(d, 252)
    &&& s.stake_system.extra_stake_delta_runs == le_u32(d, 260)
    &&& list_at(d, 264, s.validator_system.validator_list)
    &&& s.validator_system.manager_authority@ == key_at(d, 340)
    &&& s.validator_system.total_validator_score == le_u32(d, 372)
    &&& s.validator_system.total_active_balance == le_u64(d, 376)
    &&& s.validator_system.auto_add_validator_enabled == d[384]
    &&& s.liq_pool.lp_mint@ == key_at(d, 385)
    &&& s.liq_pool.lp_mint_authority_bump_seed == d[417]
    &&& s.liq_pool.sol_leg_bump_seed == d[418]
    &&& s.liq_pool.msol_leg_authority_bump_seed == d[419]
    &&& s.liq_pool.msol_leg@ == key_at(d, 420)
    &&& s.liq_pool.lp_liquidity_target == le_u64(d, 452)
    &&& s.liq_pool.lp_max_fee.basis_points == le_u32(d, 460)
    &&& s.liq_pool.lp_min_fee.basis_points == le_u32(d, 464)
    &&& s.liq_pool.treasury_cut.basis_points == le_u32(d, 468)
    &&& s.liq_pool.lp_supply == le_u64(d, 472)
    &&& s.liq_pool.lent_from_sol_leg == le_u64(d, 480)
    &&& s.liq_pool.liquidity_sol_cap == le_u64(d, 488)
    &&& s.available_reserve_balance == le_u64(d, 496)
    &&& s.msol_supply == le_u64(d, 504)
    &&& s.msol_price == le_u64(d, 512)
    &&& s.circulating_ticket_count == le_u64(d, 520)
    &&& s.circulating_ticket_balance == le_u64(d, 528)
    &&& s.lent_from_reserve == le_u64(d, 536)
    &&& s.min_deposit == le_u64(d, 544)
    &&& s.min_withdraw == le_u64(d, 552)
    &&& s.staking_sol_cap == le_u64(d, 560)
    &&& s.emergency_cooling_down == le_u64(d, 568)
}

/// Reads the Marinade state account.
pub fn decode_marinade_state(d: &[u8]) -> (r: Result<MarinadeState, PoolError>)
    ensures
        r is Ok <==> d@.len() >= MARINADE_STATE_LEN,
        r matches Ok(s) ==> marinade_state_at(d@, s),
        r matches Err(e) ==> e == PoolError::MalformedLayout,
{
    if d.len() < MARINADE_STATE_LEN {
        return Err(PoolError::MalformedLayout);
    }
    let stake_system = StakeSystem {
        stake_list: read_list(d, 150),
        delayed_unstake_cooling_down: read_u64(d, 226),
        stake_deposit_bump_seed: read_u8(d, 234),
        stake_withdraw_bump_seed: read_u8(d, 235),
        slots_for_stake_delta: read_u64(d, 236),
        last_stake_delta_epoch: read_u64(d, 244),
        min_stake: read_u64(d, 252),
        extra_stake_delta_runs: read_u32(d, 260),
    };
    let validator_system = ValidatorSystem {
        validator_list: read_list(d, 264),
        manager_authority: read_key(d, 340),
        total_validator_score: read_u32(d, 372),
        total_active_balance: read_u64(d, 376),
        auto_add_validator_enabled: read_u8(d, 384),
    };
    let liq_pool = LiqPool {
        lp_mint: read_key(d, 385),
        lp_mint_authority_bump_seed: read_u8(d, 417),
        sol_leg_bump_seed: read_u8(d, 418),
        msol_leg_authority_bump_seed: read_u8(d, 419),
        msol_leg: read_key(d, 420),
        lp_liquidity_target: read_u64(d, 452),
        lp_max_fee: Fee { basis_points: read_u32(d, 460) },
        lp_min_fee: Fee { basis_points: read_u32(d, 464) },
        treasury_cut: Fee { basis_points: read_u32(d, 468) },
        lp_supply: read_u64(d, 472),
        lent_from_sol_leg: read_u64(d, 480),
        liquidity_sol_cap: read_u64(d, 488),
    };
    Ok(
        MarinadeState {
            msol_mint: read_key(d, 8),
            admin_authority: read_key(d, 40),
            operational_sol_account: read_key(d, 72),
            treasury_msol_account: read_key(d, 104),
            reserve_bump_seed: read_u8(d, 136),
            msol_mint_authority_bump_seed: read_u8(d, 137),
            rent_exempt_for_token_acc: read_u64(d, 138),
            reward_fee: Fee { basis_points: read_u32(d, 146) },
            stake_system,
            validator_system,
            liq_pool,
            available_reserve_balance: read_u64(d, 496),
            msol_supply: read_u64(d, 504),
            msol_price: read_u64(d, 512),
            circulating_ticket_count: read_u64(d, 520),
            circulating_ticket_balance: read_u64(d, 528),
            lent_from_reserve: read_u64(d, 536),
            min_deposit: read_u64(d, 544),
            min_withdraw: read_u64(d, 552),
            staking_sol_cap: read_u64(d, 560),
            emergency_cooling_down: read_u64(d, 568),
        },
    )
}

/// Lamports under the state's control, before tickets are subtracted.
pub open spec fn spec_total_lamports_under_control(s: MarinadeState) -> int {
    s.validator_system.total_active_balance + s.stake_system.delayed_unstake_cooling_down
        + s.emergency_cooling_down + s.available_reserve_balance
}

/// Lamports under control net of unclaimed tickets, never below 0.
pub open spec fn spec_total_virtual_staked_lamports(s: MarinadeState) -> int {
    if spec_total_lamports_under_control(s) >= s.circulating_ticket_balance {
        spec_total_lamports_under_control(s) - s.circulating_ticket_balance
    } else {
        0
    }
}

impl MarinadeState {
    /// Bytes of the state account that hold the state, discriminator
    /// included.
    pub fn serialized_len() -> (r: usize)
        ensures
            r == MARINADE_STATE_LEN,
    {
        MARINADE_STATE_LEN
    }

    /// Derives the reserve account's address from the state's address.
    pub fn find_reserve_address(state: &Address) -> (r: Option<Address>)
        ensures
            derived_from(r, seq![state@, reserve_seed()], marinade_program_key()),
    {
        let mut seeds: Vec<Vec<u8>> = Vec::new();
        seeds.push(state.to_vec());
        let seed = vec![114u8, 101, 115, 101, 114, 118, 101];
        assert(seed@ =~= reserve_seed());
        seeds.push(seed);
        assert(seeds@.map_values(|s: Vec<u8>| s@) =~= seq![state@, reserve_seed()]);
        try_find_program_address(&seeds, &marinade_program_id())
    }

    /// Lamports cooling down, delayed and emergency together; a sum that
    /// does not fit in 64 bits is inconsistent data.
    pub fn total_cooling_down(&self) -> (r: Result<u64, PoolError>)
        ensures
            match r {
                Ok(v) => v == self.stake_system.delayed_unstake_cooling_down
                    + self.emergency_cooling_down,
                Err(e) => e == PoolError::DataConsistencyFault
                    && self.stake_system.delayed_unstake_cooling_down + self.emergency_cooling_down
                    > u64::MAX,
            },
    {
        match self.stake_system.delayed_unstake_cooling_down.checked_add(self.emergency_cooling_down) {
            Some(v) => Ok(v),
            None => Err(PoolError::DataConsistencyFault),
        }
    }

    /// Active balance, cooling down lamports and the available reserve
    /// together.
    pub fn total_lamports_under_control(&self) -> (r: Result<u64, PoolError>)
        ensures
            match r {
                Ok(v) => v == spec_total_lamports_under_control(*self),
                Err(e) => e == PoolError::DataConsistencyFault
                    && spec_total_lamports_under_control(*self) > u64::MAX,
            },
    {
        let cooling = self.total_cooling_down()?;
        let with_cooling = match self.validator_system.total_active_balance.checked_add(cooling) {
            Some(v) => v,
            None => return Err(PoolError::DataConsistencyFault),
        };
        match with_cooling.checked_add(self.available_reserve_balance) {
            Some(v) => Ok(v),
            None => Err(PoolError::DataConsistencyFault),
        }
    }

    /// Lamports under control net of unclaimed tickets; 0 where tickets
    /// exceed them.
    pub fn total_virtual_staked_lamports(&self) -> (r: Result<u64, PoolError>)
        ensures
            r is Ok <==> spec_total_lamports_under_control(*self) <= u64::MAX,
            match r {
                Ok(v) => v == spec_total_virtual_staked_lamports(*self),
                Err(e) => e == PoolError::DataConsistencyFault
                    && spec_total_lamports_under_control(*self) > u64::MAX,
            },
    {
        let total = self.total_lamports_under_control()?;
        Ok(total.saturating_sub(self.circulating_ticket_balance))
    }
}

/// One stake account that the state tracks.
#[derive(Clone, Copy, Debug)]
pub struct StakeRecord {
    pub stake_account: Address,
    pub last_update_delegated_lamports: u64,
    pub last_update_epoch: u64,
    pub is_emergency_unstaking: u8,
}

/// Bytes that a stake record's fields take.
pub const STAKE_RECORD_LEN: u32 = 57;

/// Where entry `index` of a list starts in the list's account data.
pub open spec fn item_start(l: List, index: int) -> int {
    8 + index * l.item_size
}

/// Whether entry `index` of `l` fits in `d` and holds a whole record.
pub open spec fn record_fits(d: Seq<u8>, l: List, index: int) -> bool {
    l.item_size >= STAKE_RECORD_LEN && item_start(l, index) + l.item_size <= d.len()
}

/// Whether `r` is the stake record stored at `pos`.
pub open spec fn stake_record_at(d: Seq<u8>, pos: int, r: StakeRecord) -> bool {
    &&& r.stake_account@ == key_at(d, pos)
    &&& r.last_update_delegated_lamports == le_u64(d, pos + 32)
    &&& r.last_update_epoch == le_u64(d, pos + 40)
    &&& r.is_emergency_unstaking == d[pos + 48]
}

impl List {
    /// Reads entry `index` of the list from the list account's data.
    pub fn get(&self, data: &[u8], index: u32) -> (r: Result<StakeRecord, PoolError>)
        requires
            index < self.count,
        ensures
            r is Ok <==> record_fits(data@, *self, index as int),
            r matches Ok(rec) ==> stake_record_at(data@, item_start(*self, index as int), rec),
            r matches Err(e) ==> e == PoolError::MalformedLayout,
    {
        let n = data.len() as u64;
        let size = self.item_size as u64;
        if size < STAKE_RECORD_LEN as u64 {
            return Err(PoolError::MalformedLayout);
        }
        assert(index * size <= 0xffff_ffff * 0xffff_ffff) by (nonlinear_arith)
            requires
                index <= 0xffff_ffff,
                size <= 0xffff_ffff,
        ;
        let start = 8 + (index as u64) * size;
        if start > n || size > n - start {
            return Err(PoolError::MalformedLayout);
        }
        let pos = start as usize;
        Ok(
            StakeRecord {
                stake_account: read_key(data, pos),
                last_update_delegated_lamports: read_u64(data, pos + 32),
                last_update_epoch: read_u64(data, pos + 40),
                is_emergency_unstaking: read_u8(data, pos + 48),
            },
        )
    }
}

impl StakeSystem {
    /// Reads stake record `index` from the stake list account's data.
    pub fn get(&self, stake_list_data: &[u8], index: u32) -> (r: Result<StakeRecord, PoolError>)
        requires
            index < self.stake_list.count,
        ensures
            r is Ok <==> record_fits(stake_list_data@, self.stake_list, index as int),
            r matches Ok(rec) ==> stake_record_at(
                stake_list_data@,
                item_start(self.stake_list, index as int),
                rec,
            ),
            r matches Err(e) ==> e == PoolError::MalformedLayout,
    {
        self.stake_list.get(stake_list_data, index)
    }
}

/// One validator that the state tracks.
#[derive(Clone, Copy, Debug)]
pub struct ValidatorRecord {
    pub validator_account: Address,
    pub active_balance: u64,
    pub score: u32,
    pub last_stake_delta_epoch: u64,
    pub duplication_flag_bump_seed: u8,
}

} // verus!
