//! Account layouts of the SPL stake pool program.
use crate::address::{derived_from, try_find_program_address, u32_le, u32_le_bytes, u64_le, u64_le_bytes, Address};
use crate::error::PoolError;
use crate::layout::{
    field_offsets, fits, key_at, le_u32, le_u64, offset_of, read_key, read_u32, read_u64, read_u8,
    Field,
};
use vstd::prelude::*;

verus! {

/// The SPL stake pool program's key.
pub open spec fn spl_program_key() -> Seq<u8> {
    seq![
        6u8, 129, 78, 212, 202, 246, 138, 23, 70, 114, 253, 172, 134, 3, 26, 99,
        232, 78, 161, 94, 250, 29, 68, 183, 34, 147, 246, 219, 219, 0, 22, 80,
    ]
}

/// The SPL stake pool program's key.
pub fn stake_pool_program_id() -> (r: Address)
    ensures
        r@ == spl_program_key(),
{
    let r = Address {
        bytes: [
            6u8, 129, 78, 212, 202, 246, 138, 23, 70, 114, 253, 172, 134, 3, 26, 99,
            232, 78, 161, 94, 250, 29, 68, 183, 34, 147, 246, 219, 219, 0, 22, 80,
        ],
    };
    assert(r@ =~= spl_program_key());
    r
}

/// Bytes of an SPL stake pool account.
pub const STAKE_POOL_ACCOUNT_LEN: usize = 611;

/// Lamports that a pool keeps in each stake account beyond its rent-exempt
/// reserve.
pub const MINIMUM_RESERVE_LAMPORTS: u64 = 0;

/// The seed that starts every transient stake account's derivation.
pub open spec fn transient_prefix() -> Seq<u8> {
    seq![116u8, 114, 97, 110, 115, 105, 101, 110, 116]
}

pub fn transient_stake_seed_prefix() -> (r: Vec<u8>)
    ensures
        r@ == transient_prefix(),
{
    let r = vec![116u8, 114, 97, 110, 115, 105, 101, 110, 116];
    assert(r@ =~= transient_prefix());
    r
}

/// Seeds of a validator's active stake account; a zero seed stands for no
/// seed.
pub open spec fn stake_seeds(vote: Seq<u8>, pool: Seq<u8>, seed: u32) -> Seq<Seq<u8>> {
    seq![vote, pool, if seed == 0 { Seq::<u8>::empty() } else { u32_le(seed) }]
}

/// Seeds of a validator's transient stake account.
pub open spec fn transient_seeds(vote: Seq<u8>, pool: Seq<u8>, seed: u64) -> Seq<Seq<u8>> {
    seq![transient_prefix(), vote, pool, u64_le(seed)]
}

/// Generates the stake program address for a validator's vote account.
pub fn find_stake_program_address(
    program_id: &Address,
    vote_account_address: &Address,
    stake_pool_address: &Address,
    seed: u32,
) -> (r: Option<Address>)
    ensures
        derived_from(r, stake_seeds(vote_account_address@, stake_pool_address@, seed), program_id@),
{
    let mut seeds: Vec<Vec<u8>> = Vec::new();
    seeds.push(vote_account_address.to_vec());
    seeds.push(stake_pool_address.to_vec());
    if seed == 0 {
        seeds.push(Vec::new());
    } else {
        seeds.push(u32_le_bytes(seed));
    }
    assert(seeds@.map_values(|s: Vec<u8>| s@) =~= stake_seeds(vote_account_address@, stake_pool_address@, seed));
    try_find_program_address(&seeds, program_id)
}

/// Generates the transient stake program address for a validator's vote
/// account.
pub fn find_transient_stake_program_address(
    program_id: &Address,
    vote_account_address: &Address,
    stake_pool_address: &Address,
    seed: u64,
) -> (r: Option<Address>)
    ensures
        derived_from(r, transient_seeds(vote_account_address@, stake_pool_address@, seed), program_id@),
{
    let mut seeds: Vec<Vec<u8>> = Vec::new();
    seeds.push(transient_stake_seed_prefix());
    seeds.push(vote_account_address.to_vec());
    seeds.push(stake_pool_address.to_vec());
    seeds.push(u64_le_bytes(seed));
    assert(seeds@.map_values(|s: Vec<u8>| s@) =~= transient_seeds(vote_account_address@, stake_pool_address@, seed));
    try_find_program_address(&seeds, program_id)
}

/// Stake that a pool accounts for beyond what it may withdraw from a stake
/// account with the given rent-exempt reserve.
pub fn minimum_reserve_lamports(rent_exempt_reserve: u64) -> (r: u64)
    ensures
        r == if rent_exempt_reserve + MINIMUM_RESERVE_LAMPORTS > u64::MAX {
            u64::MAX as int
        } else {
            rent_exempt_reserve + MINIMUM_RESERVE_LAMPORTS
        },
{
    rent_exempt_reserve.saturating_add(MINIMUM_RESERVE_LAMPORTS)
}

/// Fee rate as a ratio; a zero denominator stands for no fee.
#[derive(Clone, Copy, Debug, PartialEq, Eq, Structural)]
pub struct Fee {
    pub denominator: u64,
    pub numerator: u64,
}

/// The fee stored at `pos`: denominator, then numerator.
pub open spec fn fee_at(d: Seq<u8>, pos: int, f: Fee) -> bool {
    f.denominator == le_u64(d, pos) && f.numerator == le_u64(d, pos + 8)
}

pub fn read_fee(d: &[u8], pos: usize) -> (r: Fee)
    requires
        pos + 16 <= d@.len(),
    ensures
        fee_at(d@, pos as int, r),
{
    let _n = d.len();
    Fee { denominator: read_u64(d, pos), numerator: read_u64(d, pos + 8) }
}

/// A value that takes effect after some epoch boundaries.
#[derive(Clone, Copy, Debug, PartialEq, Eq, Structural)]
pub enum FutureEpoch<T> {
    /// Nothing is set.
    Unset,
    /// Ready after the next epoch boundary.
    One(T),
    /// Ready after two epoch boundaries.
    Two(T),
}

/// The pending fee stored at `pos`: a tag, then a fee unless the tag is 0.
pub open spec fn future_fee_at(d: Seq<u8>, pos: int, f: FutureEpoch<Fee>) -> bool {
    match f {
        FutureEpoch::Unset => d[pos] == 0,
        FutureEpoch::One(x) => d[pos] == 1 && fee_at(d, pos + 1, x),
        FutureEpoch::Two(x) => d[pos] == 2 && fee_at(d, pos + 1, x),
    }
}

pub fn read_future_fee(d: &[u8], pos: usize) -> (r: FutureEpoch<Fee>)
    requires
        crate::layout::field_width(d@, pos as int, Field::Tagged(2, 16)) is Some,
    ensures
        future_fee_at(d@, pos as int, r),
{
    let _n = d.len();
    let tag = read_u8(d, pos);
    if tag == 0 {
        FutureEpoch::Unset
    } else if tag == 1 {
        FutureEpoch::One(read_fee(d, pos + 1))
    } else {
        FutureEpoch::Two(read_fee(d, pos + 1))
    }
}

/// The optional key stored at `pos`: a tag, then the key if the tag is 1.
pub open spec fn optional_key_at(d: Seq<u8>, pos: int, k: Option<Address>) -> bool {
    match k {
        None => d[pos] == 0,
        Some(a) => d[pos] == 1 && a@ == key_at(d, pos + 1),
    }
}

pub fn read_optional_key(d: &[u8], pos: usize) -> (r: Option<Address>)
    requires
        crate::layout::field_width(d@, pos as int, Field::Tagged(1, 32)) is Some,
    ensures
        optional_key_at(d@, pos as int, r),
{
    let _n = d.len();
    if read_u8(d, pos) == 0 {
        None
    } else {
        Some(read_key(d, pos + 1))
    }
}

/// Kind of account that the program manages.
#[derive(Clone, Copy, Debug, PartialEq, Eq, Structural)]
pub enum AccountType {
    Uninitialized,
    StakePool,
    ValidatorList,
}

/// The account type that discriminant `b` names.
pub open spec fn account_type_of(b: u8) -> AccountType {
    if b == 0 {
        AccountType::Uninitialized
    } else if b == 1 {
        AccountType::StakePool
    } else {
        AccountType::ValidatorList
    }
}

pub fn read_account_type(d: &[u8], pos: usize) -> (r: AccountType)
    requires
        pos < d@.len(),
    ensures
        r == account_type_of(d@[pos as int]),
{
    let b = read_u8(d, pos);
    if b == 0 {
        AccountType::Uninitialized
    } else if b == 1 {
        AccountType::StakePool
    } else {
        AccountType::ValidatorList
    }
}

/// Lockup that the pool's stakes must carry.
#[derive(Clone, Copy, Debug)]
pub struct Lockup {
    /// The timestamp's two's-complement bits.
    pub unix_timestamp: u64,
    pub epoch: u64,
    pub custodian: Address,
}

pub open spec fn lockup_at(d: Seq<u8>, pos: int, l: Lockup) -> bool {
    &&& l.unix_timestamp == le_u64(d, pos)
    &&& l.epoch == le_u64(d, pos + 8)
    &&& l.custodian@ == key_at(d, pos + 16)
}

pub fn read_lockup(d: &[u8], pos: usize) -> (r: Lockup)
    requires
        pos + 48 <= d@.len(),
    ensures
        lockup_at(d@, pos as int, r),
{
    let _n = d.len();
    Lockup {
        unix_timestamp: read_u64(d, pos),
        epoch: read_u64(d, pos + 8),
        custodian: read_key(d, pos + 16),
    }
}

/// The sequential layout of a stake pool account.
pub open spec fn stake_pool_schema() -> Seq<Field> {
    seq![
        Field::Tag(2),
        Field::Fixed(32),
        Field::Fixed(32),
        Field::Fixed(32),
        Field::Fixed(1),
        Field::Fixed(32),
        Field::Fixed(32),
        Field::Fixed(32),
        Field::Fixed(32),
        Field::Fixed(32),
        Field::Fixed(8),
        Field::Fixed(8),
        Field::Fixed(8),
        Field::Fixed(48),
        Field::Fixed(16),
        Field::Tagged(2, 16),
        Field::Tagged(1, 32),
        Field::Tagged(1, 32),
        Field::Fixed(16),
        Field::Fixed(16),
        Field::Tagged(2, 16),
        Field::Fixed(1),
        Field::Tagged(1, 32),
        Field::Fixed(16),
        Field::Fixed(1),
        Field::Tagged(1, 32),
        Field::Fixed(16),
        Field::Tagged(2, 16),
        Field::Fixed(8),
        Field::Fixed(8),
    ]
}

fn stake_pool_schema_vec() -> (r: Vec<Field>)
    ensures
        r@ == stake_pool_schema(),
{
    let r = vec![
        Field::Tag(2),
        Field::Fixed(32),
        Field::Fixed(32),
        Field::Fixed(32),
        Field::Fixed(1),
        Field::Fixed(32),
        Field::Fixed(32),
        Field::Fixed(32),
        Field::Fixed(32),
        Field::Fixed(32),
        Field::Fixed(8),
        Field::Fixed(8),
        Field::Fixed(8),
        Field::Fixed(48),
        Field::Fixed(16),
        Field::Tagged(2, 16),
        Field::Tagged(1, 32),
        Field::Tagged(1, 32),
        Field::Fixed(16),
        Field::Fixed(16),
        Field::Tagged(2, 16),
        Field::Fixed(1),
        Field::Tagged(1, 32),
        Field::Fixed(16),
        Field::Fixed(1),
        Field::Tagged(1, 32),
        Field::Fixed(16),
        Field::Tagged(2, 16),
        Field::Fixed(8),
        Field::Fixed(8),
    ];
    assert(r@ =~= stake_pool_schema());
    r
}

/// Initialized program details of an SPL stake pool.
#[derive(Clone, Copy, Debug)]
pub struct StakePool {
    pub account_type: AccountType,
    pub manager: Address,
    pub staker: Address,
    pub stake_deposit_authority: Address,
    pub stake_withdraw_bump_seed: u8,
    pub validator_list: Address,
    pub reserve_stake: Address,
    pub pool_mint: Address,
    pub manager_fee_account: Address,
    pub token_program_id: Address,
    pub total_lamports: u64,
    pub pool_token_supply: u64,
    pub last_update_epoch: u64,
    pub lockup: Lockup,
    pub epoch_fee: Fee,
    pub next_epoch_fee: FutureEpoch<Fee>,
    pub preferred_deposit_validator_vote_address: Option<Address>,
    pub preferred_withdraw_validator_vote_address: Option<Address>,
    pub stake_deposit_fee: Fee,
    pub stake_withdrawal_fee: Fee,
    pub next_stake_withdrawal_fee: FutureEpoch<Fee>,
    pub stake_referral_fee: u8,
    pub sol_deposit_authority: Option<Address>,
    pub sol_deposit_fee: Fee,
    pub sol_referral_fee: u8,
    pub sol_withdraw_authority: Option<Address>,
    pub sol_withdrawal_fee: Fee,
    pub next_sol_withdrawal_fee: FutureEpoch<Fee>,
    pub last_epoch_pool_token_supply: u64,
    pub last_epoch_total_lamports: u64,
}

/// Where field `k` of a stake pool account starts in `d`.
pub open spec fn pool_offset(d: Seq<u8>, k: int) -> int {
    offset_of(d, stake_pool_schema(), k)
}

/// Whether `p` is, field by field, the stake pool that `d` holds.
pub open spec fn stake_pool_at(d: Seq<u8>, p: StakePool) -> bool {
    &&& p.account_type == account_type_of(d[0])
    &&& p.manager@ == key_at(d, 1)
    &&& p.staker@ == key_at(d, 33)
    &&& p.stake_deposit_authority@ == key_at(d, 65)
    &&& p.stake_withdraw_bump_seed == d[97]
    &&& p.validator_list@ == key_at(d, 98)
    &&& p.reserve_stake@ == key_at(d, 130)
    &&& p.pool_mint@ == key_at(d, 162)
    &&& p.manager_fee_account@ == key_at(d, 194)
    &&& p.token_program_id@ == key_at(d, 226)
    &&& p.total_lamports == le_u64(d, 258)
    &&& p.pool_token_supply == le_u64(d, 266)
    &&& p.last_update_epoch == le_u64(d, 274)
    &&& lockup_at(d, 282, p.lockup)
    &&& fee_at(d, 330, p.epoch_fee)
    &&& future_fee_at(d, 346, p.next_epoch_fee)
    &&& optional_key_at(d, pool_offset(d, 16), p.preferred_deposit_validator_vote_address)
    &&& optional_key_at(d, pool_offset(d, 17), p.preferred_withdraw_validator_vote_address)
    &&& fee_at(d, pool_offset(d, 18), p.stake_deposit_fee)
    &&& fee_at(d, pool_offset(d, 19), p.stake_withdrawal_fee)
    &&& future_fee_at(d, pool_offset(d, 20), p.next_stake_withdrawal_fee)
    &&& p.stake_referral_fee == d[pool_offset(d, 21)]
    &&& optional_key_at(d, pool_offset(d, 22), p.sol_deposit_authority)
    &&& fee_at(d, pool_offset(d, 23), p.sol_deposit_fee)
    &&& p.sol_referral_fee == d[pool_offset(d, 24)]
    &&& optional_key_at(d, pool_offset(d, 25), p.sol_withdraw_authority)
    &&& fee_at(d, pool_offset(d, 26), p.sol_withdrawal_fee)
    &&& future_fee_at(d, pool_offset(d, 27), p.next_sol_withdrawal_fee)
    &&& p.last_epoch_pool_token_supply == le_u64(d, pool_offset(d, 28))
    &&& p.last_epoch_total_lamports == le_u64(d, pool_offset(d, 29))
}

impl StakePool {
    /// Check if StakePool is actually initialized as a stake pool.
    pub fn is_valid(&self) -> (r: bool)
        ensures
            r == (self.account_type == AccountType::StakePool),
    {
        self.account_type == AccountType::StakePool
    }
}

/// Reads a stake pool account.
pub fn decode_stake_pool(d: &[u8]) -> (r: Result<StakePool, PoolError>)
    ensures
        r is Ok <==> fits(d@, stake_pool_schema()),
        r matches Ok(p) ==> stake_pool_at(d@, p),
        r matches Err(e) ==> e == PoolError::MalformedLayout,
{
    let schema = stake_pool_schema_vec();
    let off = match field_offsets(d, &schema) {
        Some(off) => off,
        None => return Err(PoolError::MalformedLayout),
    };
    let ghost s = stake_pool_schema();
    assert(s[0] == Field::Tag(2) && s[13] == Field::Fixed(48) && s[14] == Field::Fixed(16));
    assert(forall|k: int| 0 <= k <= 15 ==> off@[k] == pool_offset(d@, k)) by {
        assert(forall|k: int| 0 <= k <= 30 ==> crate::layout::field_offset(d@, s, k as nat) == Some(off@[k] as int));
    }
    assert(off@[1] == 1 && off@[2] == 33 && off@[3] == 65 && off@[4] == 97 && off@[5] == 98);
    assert(off@[6] == 130 && off@[10] == 258 && off@[13] == 282 && off@[14] == 330 && off@[15] == 346);
    let n16 = off[16];
    let n20 = off[20];
    let n27 = off[27];
    assert(s[16] == Field::Tagged(1, 32) && s[17] == Field::Tagged(1, 32) && s[18] == Field::Fixed(16));
    assert(s[19] == Field::Fixed(16) && s[20] == Field::Tagged(2, 16) && s[21] == Field::Fixed(1));
    assert(s[22] == Field::Tagged(1, 32) && s[23] == Field::Fixed(16) && s[24] == Field::Fixed(1));
    assert(s[25] == Field::Tagged(1, 32) && s[26] == Field::Fixed(16) && s[27] == Field::Tagged(2, 16));
    assert(s[28] == Field::Fixed(8) && s[29] == Field::Fixed(8) && s[15] == Field::Tagged(2, 16));
    assert(off@[30] <= d@.len());
    let p = StakePool {
        account_type: read_account_type(d, 0),
        manager: read_key(d, 1),
        staker: read_key(d, 33),
        stake_deposit_authority: read_key(d, 65),
        stake_withdraw_bump_seed: read_u8(d, 97),
        validator_list: read_key(d, 98),
        reserve_stake: read_key(d, 130),
        pool_mint: read_key(d, 162),
        manager_fee_account: read_key(d, 194),
        token_program_id: read_key(d, 226),
        total_lamports: read_u64(d, 258),
        pool_token_supply: read_u64(d, 266),
        last_update_epoch: read_u64(d, 274),
        lockup: read_lockup(d, 282),
        epoch_fee: read_fee(d, 330),
        next_epoch_fee: read_future_fee(d, 346),
        preferred_deposit_validator_vote_address: read_optional_key(d, n16),
        preferred_withdraw_validator_vote_address: read_optional_key(d, off[17]),
        stake_deposit_fee: read_fee(d, off[18]),
        stake_withdrawal_fee: read_fee(d, off[19]),
        next_stake_withdrawal_fee: read_future_fee(d, n20),
        stake_referral_fee: read_u8(d, off[21]),
        sol_deposit_authority: read_optional_key(d, off[22]),
        sol_deposit_fee: read_fee(d, off[23]),
        sol_referral_fee: read_u8(d, off[24]),
        sol_withdraw_authority: read_optional_key(d, off[25]),
        sol_withdrawal_fee: read_fee(d, off[26]),
        next_sol_withdrawal_fee: read_future_fee(d, n27),
        last_epoch_pool_token_supply: read_u64(d, off[28]),
        last_epoch_total_lamports: read_u64(d, off[29]),
    };
    Ok(p)
}

/// Status of a validator's stake accounts in a pool's validator list.
#[derive(Clone, Copy, Debug, PartialEq, Eq, Structural)]
pub enum StakeStatus {
    /// Stake account is active, there may be a transient stake as well.
    Active,
    /// Only a transient stake account exists, deactivating during removal.
    DeactivatingTransient,
    /// No more validator stake accounts exist; ready for removal.
    ReadyForRemoval,
    /// Only the validator stake account is deactivating.
    DeactivatingValidator,
    /// Both the transient and validator stake accounts are deactivating.
    DeactivatingAll,
}

/// The status that byte `b` names, if any.
pub open spec fn stake_status_of(b: u8) -> Option<StakeStatus> {
    if b == 0 {
        Some(StakeStatus::Active)
    } else if b == 1 {
        Some(StakeStatus::DeactivatingTransient)
    } else if b == 2 {
        Some(StakeStatus::ReadyForRemoval)
    } else if b == 3 {
        Some(StakeStatus::DeactivatingValidator)
    } else if b == 4 {
        Some(StakeStatus::DeactivatingAll)
    } else {
        None
    }
}

impl StakeStatus {
    /// The status a stored byte names; any other byte is malformed.
    pub fn try_from(pod: PodStakeStatus) -> (r: Result<StakeStatus, PoolError>)
        ensures
            match stake_status_of(pod.0) {
                Some(st) => r == Ok::<StakeStatus, PoolError>(st),
                None => r == Err::<StakeStatus, PoolError>(PoolError::MalformedLayout),
            },
    {
        match pod.0 {
            0 => Ok(StakeStatus::Active),
            1 => Ok(StakeStatus::DeactivatingTransient),
            2 => Ok(StakeStatus::ReadyForRemoval),
            3 => Ok(StakeStatus::DeactivatingValidator),
            4 => Ok(StakeStatus::DeactivatingAll),
            _ => Err(PoolError::MalformedLayout),
        }
    }

    /// The status's name.
    pub fn name(&self) -> (r: String)
        ensures
            r@ == status_name(*self),
    {
        match self {
            StakeStatus::Active => String::from_str("Active"),
            StakeStatus::DeactivatingTransient => String::from_str("DeactivatingTransient"),
            StakeStatus::ReadyForRemoval => String::from_str("ReadyForRemoval"),
            StakeStatus::DeactivatingValidator => String::from_str("DeactivatingValidator"),
            StakeStatus::DeactivatingAll => String::from_str("DeactivatingAll"),
        }
    }
}

/// The name of each status.
pub open spec fn status_name(st: StakeStatus) -> Seq<char> {
    match st {
        StakeStatus::Active => "Active"@,
        StakeStatus::DeactivatingTransient => "DeactivatingTransient"@,
        StakeStatus::ReadyForRemoval => "ReadyForRemoval"@,
        StakeStatus::DeactivatingValidator => "DeactivatingValidator"@,
        StakeStatus::DeactivatingAll => "DeactivatingAll"@,
    }
}

/// A byte that should name a `StakeStatus`.
#[derive(Clone, Copy, Debug, PartialEq, Eq, Structural)]
pub struct PodStakeStatus(pub u8);

impl PodStakeStatus {
    /// The byte that stores `status`.
    pub fn from(status: StakeStatus) -> (r: PodStakeStatus)
        ensures
            stake_status_of(r.0) == Some(status),
    {
        match status {
            StakeStatus::Active => PodStakeStatus(0),
            StakeStatus::DeactivatingTransient => PodStakeStatus(1),
            StakeStatus::ReadyForRemoval => PodStakeStatus(2),
            StakeStatus::DeactivatingValidator => PodStakeStatus(3),
            StakeStatus::DeactivatingAll => PodStakeStatus(4),
        }
    }
}

/// Information about a validator in the pool.
#[derive(Clone, Copy, Debug)]
pub struct ValidatorStakeInfo {
    pub active_stake_lamports: u64,
    pub transient_stake_lamports: u64,
    pub last_update_epoch: u64,
    pub transient_seed_suffix: u64,
    pub unused: u32,
    /// The active stake account's seed; 0 stands for no seed.
    pub validator_seed_suffix: u32,
    pub status: PodStakeStatus,
    pub vote_account_address: Address,
}

/// Bytes of one validator list entry.
pub const VALIDATOR_STAKE_INFO_LEN: usize = 73;

/// Bytes of the validator list's header and entry count.
pub const VALIDATOR_LIST_PREFIX_LEN: usize = 9;

/// Whether `v` is, field by field, the entry stored at `pos`.
pub open spec fn validator_info_at(d: Seq<u8>, pos: int, v: ValidatorStakeInfo) -> bool {
    &&& v.active_stake_lamports == le_u64(d, pos)
    &&& v.transient_stake_lamports == le_u64(d, pos + 8)
    &&& v.last_update_epoch == le_u64(d, pos + 16)
    &&& v.transient_seed_suffix == le_u64(d, pos + 24)
    &&& v.unused == le_u32(d, pos + 32)
    &&& v.validator_seed_suffix == le_u32(d, pos + 36)
    &&& v.status.0 == d[pos + 40]
    &&& v.vote_account_address@ == key_at(d, pos + 41)
}

fn read_validator_info(d: &[u8], pos: usize) -> (r: ValidatorStakeInfo)
    requires
        pos + VALIDATOR_STAKE_INFO_LEN <= d@.len(),
    ensures
        validator_info_at(d@, pos as int, r),
{
    let _n = d.len();
    ValidatorStakeInfo {
        active_stake_lamports: read_u64(d, pos),
        transient_stake_lamports: read_u64(d, pos + 8),
        last_update_epoch: read_u64(d, pos + 16),
        transient_seed_suffix: read_u64(d, pos + 24),
        unused: read_u32(d, pos + 32),
        validator_seed_suffix: read_u32(d, pos + 36),
        status: PodStakeStatus(read_u8(d, pos + 40)),
        vote_account_address: read_key(d, pos + 41),
    }
}

/// Header of a validator list account.
#[derive(Clone, Copy, Debug)]
pub struct ValidatorListHeader {
    pub account_type: AccountType,
    pub max_validators: u32,
}

/// Storage list for all validator stake accounts in the pool.
#[derive(Clone, Debug)]
pub struct ValidatorList {
    pub header: ValidatorListHeader,
    pub validators: Vec<ValidatorStakeInfo>,
}

/// Whether `d` holds a validator list with `entry_len` bytes per entry:
/// a known account type, the header, the count and that many entries.
pub open spec fn list_fits(d: Seq<u8>, entry_len: int) -> bool {
    &&& d.len() >= 9
    &&& d[0] <= 2
    &&& 9 + entry_len * le_u32(d, 5) <= d.len()
}

/// Reads a validator list account.
pub fn decode_validator_list(d: &[u8]) -> (r: Result<ValidatorList, PoolError>)
    ensures
        r is Ok <==> list_fits(d@, VALIDATOR_STAKE_INFO_LEN as int),
        r matches Ok(l) ==> {
            &&& l.header.account_type == account_type_of(d@[0])
            &&& l.header.max_validators == le_u32(d@, 1)
            &&& l.validators@.len() == le_u32(d@, 5)
            &&& forall|i: int|
                0 <= i < l.validators@.len() ==> validator_info_at(
                    d@,
                    9 + VALIDATOR_STAKE_INFO_LEN * i,
                    #[trigger] l.validators@[i],
                )
        },
        r matches Err(e) ==> e == PoolError::MalformedLayout,
{
    let n = d.len();
    if n < VALIDATOR_LIST_PREFIX_LEN || read_u8(d, 0) > 2 {
        return Err(PoolError::MalformedLayout);
    }
    let count = read_u32(d, 5) as usize;
    if count > (n - VALIDATOR_LIST_PREFIX_LEN) / VALIDATOR_STAKE_INFO_LEN {
        assert(9 + 73 * count > n) by (nonlinear_arith)
            requires
                count > (n - 9) / 73,
                n >= 9,
        ;
        return Err(PoolError::MalformedLayout);
    }
    assert(9 + 73 * count <= n) by (nonlinear_arith)
        requires
            count <= (n - 9) / 73,
            n >= 9,
    ;
    let header = ValidatorListHeader {
        account_type: read_account_type(d, 0),
        max_validators: read_u32(d, 1),
    };
    let mut validators: Vec<ValidatorStakeInfo> = Vec::new();
    let mut i: usize = 0;
    while i < count
        invariant
            n == d@.len(),
            9 + 73 * count <= n,
            i <= count,
            validators@.len() == i,
            forall|j: int|
                0 <= j < i ==> validator_info_at(d@, 9 + 73 * j, #[trigger] validators@[j]),
        decreases count - i,
    {
        assert(9 + 73 * i + 73 <= n) by (nonlinear_arith)
            requires
                i < count,
                9 + 73 * count <= n,
        ;
        let v = read_validator_info(d, VALIDATOR_LIST_PREFIX_LEN + VALIDATOR_STAKE_INFO_LEN * i);
        validators.push(v);
        i = i + 1;
    }
    Ok(ValidatorList { header, validators })
}

} // verus!
