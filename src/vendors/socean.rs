//! Account layouts of the Socean stake pool program, an earlier form of the
//! SPL stake pool layouts without seed suffixes.
use crate::address::{derived_from, try_find_program_address, Address};
use crate::error::PoolError;
use crate::layout::{
    field_offsets, field_width, fits, key_at, le_u64, offset_of, read_key, read_u32, read_u64,
    read_u8, Field,
};
use crate::vendors::spl::{
    account_type_of, fee_at, lockup_at, optional_key_at, read_account_type, read_fee, read_lockup,
    read_optional_key, transient_prefix, transient_stake_seed_prefix, AccountType, Fee, Lockup,
    StakeStatus, ValidatorListHeader,
};
use vstd::prelude::*;

verus! {

/// The Socean stake pool program's key.
pub open spec fn socean_program_key() -> Seq<u8> {
    seq![
        71u8, 95, 237, 29, 192, 255, 243, 155, 191, 35, 123, 25, 170, 151, 71, 251,
        86, 212, 176, 221, 242, 51, 162, 19, 67, 201, 66, 214, 78, 24, 131, 221,
    ]
}

/// The Socean stake pool program's key.
pub fn socean_program_id() -> (r: Address)
    ensures
        r@ == socean_program_key(),
{
    let r = Address {
        bytes: [
            71u8, 95, 237, 29, 192, 255, 243, 155, 191, 35, 123, 25, 170, 151, 71, 251,
            86, 212, 176, 221, 242, 51, 162, 19, 67, 201, 66, 214, 78, 24, 131, 221,
        ],
    };
    assert(r@ =~= socean_program_key());
    r
}

/// Bytes of a Socean stake pool account.
pub const STAKE_POOL_ACCOUNT_LEN: usize = 529;

/// Seeds of a validator's active stake account.
pub open spec fn stake_seeds(vote: Seq<u8>, pool: Seq<u8>) -> Seq<Seq<u8>> {
    seq![vote, pool]
}

/// Seeds of a validator's transient stake account.
pub open spec fn transient_seeds(vote: Seq<u8>, pool: Seq<u8>) -> Seq<Seq<u8>> {
    seq![transient_prefix(), vote, pool]
}

/// Generates the stake program address for a validator's vote account.
pub fn find_stake_program_address(
    program_id: &Address,
    vote_account_address: &Address,
    stake_pool_address: &Address,
) -> (r: Option<Address>)
    ensures
        derived_from(r, stake_seeds(vote_account_address@, stake_pool_address@), program_id@),
{
    let mut seeds: Vec<Vec<u8>> = Vec::new();
    seeds.push(vote_account_address.to_vec());
    seeds.push(stake_pool_address.to_vec());
    assert(seeds@.map_values(|s: Vec<u8>| s@) =~= stake_seeds(vote_account_address@, stake_pool_address@));
    try_find_program_address(&seeds, program_id)
}

/// Generates the transient stake program address for a validator's vote
/// account.
pub fn find_transient_stake_program_address(
    program_id: &Address,
    vote_account_address: &Address,
    stake_pool_address: &Address,
) -> (r: Option<Address>)
    ensures
        derived_from(r, transient_seeds(vote_account_address@, stake_pool_address@), program_id@),
{
    let mut seeds: Vec<Vec<u8>> = Vec::new();
    seeds.push(transient_stake_seed_prefix());
    seeds.push(vote_account_address.to_vec());
    seeds.push(stake_pool_address.to_vec());
    assert(seeds@.map_values(|s: Vec<u8>| s@) =~= transient_seeds(vote_account_address@, stake_pool_address@));
    try_find_program_address(&seeds, program_id)
}

/// The optional fee stored at `pos`: a tag, then the fee if the tag is 1.
pub open spec fn optional_fee_at(d: Seq<u8>, pos: int, f: Option<Fee>) -> bool {
    match f {
        None => d[pos] == 0,
        Some(x) => d[pos] == 1 && fee_at(d, pos + 1, x),
    }
}

fn read_optional_fee(d: &[u8], pos: usize) -> (r: Option<Fee>)
    requires
        field_width(d@, pos as int, Field::Tagged(1, 16)) is Some,
    ensures
        optional_fee_at(d@, pos as int, r),
{
    let _n = d.len();
    if read_u8(d, pos) == 0 {
        None
    } else {
        Some(read_fee(d, pos + 1))
    }
}

/// The sequential layout of a Socean stake pool account.
pub open spec fn stake_pool_schema() -> Seq<Field> {
    seq![
        Field::Tag(2),
        Field::Fixed(32),
        Field::Fixed(32),
        Field::Fixed(32),
        Field::Fixed(1),
        Field::Fixed(32),
        Field::Fixed(32),
        Field::Fixed(32),
        Field::Fixed(32),
        Field::Fixed(32),
        Field::Fixed(8),
        Field::Fixed(8),
        Field::Fixed(8),
        Field::Fixed(48),
        Field::Fixed(16),
        Field::Tagged(1, 16),
        Field::Tagged(1, 32),
        Field::Tagged(1, 32),
        Field::Fixed(16),
        Field::Fixed(16),
        Field::Tagged(1, 16),
        Field::Fixed(1),
        Field::Tagged(1, 32),
        Field::Fixed(16),
        Field::Fixed(1),
    ]
}

fn stake_pool_schema_vec() -> (r: Vec<Field>)
    ensures
        r@ == stake_pool_schema(),
{
    let r = vec![
        Field::Tag(2),
        Field::Fixed(32),
        Field::Fixed(32),
        Field::Fixed(32),
        Field::Fixed(1),
        Field::Fixed(32),
        Field::Fixed(32),
        Field::Fixed(32),
        Field::Fixed(32),
        Field::Fixed(32),
        Field::Fixed(8),
        Field::Fixed(8),
        Field::Fixed(8),
        Field::Fixed(48),
        Field::Fixed(16),
        Field::Tagged(1, 16),
        Field::Tagged(1, 32),
        Field::Tagged(1, 32),
        Field::Fixed(16),
        Field::Fixed(16),
        Field::Tagged(1, 16),
        Field::Fixed(1),
        Field::Tagged(1, 32),
        Field::Fixed(16),
        Field::Fixed(1),
    ];
    assert(r@ =~= stake_pool_schema());
    r
}

/// Initialized program details of a Socean stake pool.
#[derive(Clone, Copy, Debug)]
pub struct StakePool {
    pub account_type: AccountType,
    pub manager: Address,
    pub staker: Address,
    pub deposit_authority: Address,
    pub withdraw_bump_seed: u8,
    pub validator_list: Address,
    pub reserve_stake: Address,
    pub pool_mint: Address,
    pub manager_fee_account: Address,
    pub token_program_id: Address,
    pub total_stake_lamports: u64,
    pub pool_token_supply: u64,
    pub last_update_epoch: u64,
    pub lockup: Lockup,
    pub fee: Fee,
    pub next_epoch_fee: Option<Fee>,
    pub preferred_deposit_validator_vote_address: Option<Address>,
    pub preferred_withdraw_validator_vote_address: Option<Address>,
    pub stake_deposit_fee: Fee,
    pub withdrawal_fee: Fee,
    pub next_withdrawal_fee: Option<Fee>,
    pub stake_referral_fee: u8,
    pub sol_deposit_authority: Option<Address>,
    pub sol_deposit_fee: Fee,
    pub sol_referral_fee: u8,
}

/// Where field `k` of a Socean stake pool account starts in `d`.
pub open spec fn pool_offset(d: Seq<u8>, k: int) -> int {
    offset_of(d, stake_pool_schema(), k)
}

/// Whether `p` is, field by field, the stake pool that `d` holds.
pub open spec fn stake_pool_at(d: Seq<u8>, p: StakePool) -> bool {
    &&& p.account_type == account_type_of(d[0])
    &&& p.manager@ == key_at(d, 1)
    &&& p.staker@ == key_at(d, 33)
    &&& p.deposit_authority@ == key_at(d, 65)
    &&& p.withdraw_bump_seed == d[97]
    &&& p.validator_list@ == key_at(d, 98)
    &&& p.reserve_stake@ == key_at(d, 130)
    &&& p.pool_mint@ == key_at(d, 162)
    &&& p.manager_fee_account@ == key_at(d, 194)
    &&& p.token_program_id@ == key_at(d, 226)
    &&& p.total_stake_lamports == le_u64(d, 258)
    &&& p.pool_token_supply == le_u64(d, 266)
    &&& p.last_update_epoch == le_u64(d, 274)
    &&& lockup_at(d, 282, p.lockup)
    &&& fee_at(d, 330, p.fee)
    &&& optional_fee_at(d, 346, p.next_epoch_fee)
    &&& optional_key_at(d, pool_offset(d, 16), p.preferred_deposit_validator_vote_address)
    &&& optional_key_at(d, pool_offset(d, 17), p.preferred_withdraw_validator_vote_address)
    &&& fee_at(d, pool_offset(d, 18), p.stake_deposit_fee)
    &&& fee_at(d, pool_offset(d, 19), p.withdrawal_fee)
    &&& optional_fee_at(d, pool_offset(d, 20), p.next_withdrawal_fee)
    &&& p.stake_referral_fee == d[pool_offset(d, 21)]
    &&& optional_key_at(d, pool_offset(d, 22), p.sol_deposit_authority)
    &&& fee_at(d, pool_offset(d, 23), p.sol_deposit_fee)
    &&& p.sol_referral_fee == d[pool_offset(d, 24)]
}

impl StakePool {
    /// Check if StakePool is actually initialized as a stake pool.
    pub fn is_valid(&self) -> (r: bool)
        ensures
            r == (self.account_type == AccountType::StakePool),
    {
        self.account_type == AccountType::StakePool
    }
}

/// Reads a Socean stake pool account.
pub fn decode_stake_pool(d: &[u8]) -> (r: Result<StakePool, PoolError>)
    ensures
        r is Ok <==> fits(d@, stake_pool_schema()),
        r matches Ok(p) ==> stake_pool_at(d@, p),
        r matches Err(e) ==> e == PoolError::MalformedLayout,
{
    let schema = stake_pool_schema_vec();
    let off = match field_offsets(d, &schema) {
        Some(off) => off,
        None => return Err(PoolError::MalformedLayout),
    };
    let ghost s = stake_pool_schema();
    assert(s[0] == Field::Tag(2) && s[13] == Field::Fixed(48) && s[14] == Field::Fixed(16));
    assert(forall|k: int| 0 <= k <= 15 ==> off@[k] == pool_offset(d@, k)) by {
        assert(forall|k: int| 0 <= k <= 25 ==> crate::layout::field_offset(d@, s, k as nat) == Some(off@[k] as int));
    }
    assert(off@[1] == 1 && off@[2] == 33 && off@[3] == 65 && off@[4] == 97 && off@[5] == 98);
    assert(off@[6] == 130 && off@[10] == 258 && off@[13] == 282 && off@[14] == 330 && off@[15] == 346);
    assert(s[16] == Field::Tagged(1, 32) && s[17] == Field::Tagged(1, 32) && s[18] == Field::Fixed(16));
    assert(s[19] == Field::Fixed(16) && s[20] == Field::Tagged(1, 16) && s[21] == Field::Fixed(1));
    assert(s[22] == Field::Tagged(1, 32) && s[23] == Field::Fixed(16) && s[24] == Field::Fixed(1));
    assert(s[15] == Field::Tagged(1, 16));
    assert(off@[25] <= d@.len());
    let p = StakePool {
        account_type: read_account_type(d, 0),
        manager: read_key(d, 1),
        staker: read_key(d, 33),
        deposit_authority: read_key(d, 65),
        withdraw_bump_seed: read_u8(d, 97),
        validator_list: read_key(d, 98),
        reserve_stake: read_key(d, 130),
        pool_mint: read_key(d, 162),
        manager_fee_account: read_key(d, 194),
        token_program_id: read_key(d, 226),
        total_stake_lamports: read_u64(d, 258),
        pool_token_supply: read_u64(d, 266),
        last_update_epoch: read_u64(d, 274),
        lockup: read_lockup(d, 282),
        fee: read_fee(d, 330),
        next_epoch_fee: read_optional_fee(d, 346),
        preferred_deposit_validator_vote_address: read_optional_key(d, off[16]),
        preferred_withdraw_validator_vote_address: read_optional_key(d, off[17]),
        stake_deposit_fee: read_fee(d, off[18]),
        withdrawal_fee: read_fee(d, off[19]),
        next_withdrawal_fee: read_optional_fee(d, off[20]),
        stake_referral_fee: read_u8(d, off[21]),
        sol_deposit_authority: read_optional_key(d, off[22]),
        sol_deposit_fee: read_fee(d, off[23]),
        sol_referral_fee: read_u8(d, off[24]),
    };
    Ok(p)
}

/// Information about a validator in a Socean pool.
#[derive(Clone, Copy, Debug)]
pub struct ValidatorStakeInfo {
    pub active_stake_lamports: u64,
    pub transient_stake_lamports: u64,
    pub last_update_epoch: u64,
    pub status: StakeStatus,
    pub vote_account_address: Address,
}

/// Bytes of one Socean validator list entry.
pub const VALIDATOR_STAKE_INFO_LEN: usize = 57;

/// The status that a Socean entry's byte names: the first three.
pub open spec fn socean_status_of(b: u8) -> Option<StakeStatus> {
    if b == 0 {
        Some(StakeStatus::Active)
    } else if b == 1 {
        Some(StakeStatus::DeactivatingTransient)
    } else if b == 2 {
        Some(StakeStatus::ReadyForRemoval)
    } else {
        None
    }
}

/// Whether `v` is, field by field, the entry stored at `pos`.
pub open spec fn validator_info_at(d: Seq<u8>, pos: int, v: ValidatorStakeInfo) -> bool {
    &&& v.active_stake_lamports == le_u64(d, pos)
    &&& v.transient_stake_lamports == le_u64(d, pos + 8)
    &&& v.last_update_epoch == le_u64(d, pos + 16)
    &&& socean_status_of(d[pos + 24]) == Some(v.status)
    &&& v.vote_account_address@ == key_at(d, pos + 25)
}

/// Whether every entry that `d` counts names a known status.
pub open spec fn statuses_known(d: Seq<u8>) -> bool {
    forall|i: int| 0 <= i < crate::layout::le_u32(d, 5) ==> #[trigger] d[9 + 57 * i + 24] <= 2
}

/// Storage list for all validator stake accounts in a Socean pool.
#[derive(Clone, Debug)]
pub struct ValidatorList {
    pub header: ValidatorListHeader,
    pub validators: Vec<ValidatorStakeInfo>,
}

/// Reads a Socean validator list account.
pub fn decode_validator_list(d: &[u8]) -> (r: Result<ValidatorList, PoolError>)
    ensures
        r is Ok <==> crate::vendors::spl::list_fits(d@, 57) && statuses_known(d@),
        r matches Ok(l) ==> {
            &&& l.header.account_type == account_type_of(d@[0])
            &&& l.header.max_validators == crate::layout::le_u32(d@, 1)
            &&& l.validators@.len() == crate::layout::le_u32(d@, 5)
            &&& forall|i: int|
                0 <= i < l.validators@.len() ==> validator_info_at(
                    d@,
                    9 + 57 * i,
                    #[trigger] l.validators@[i],
                )
        },
        r matches Err(e) ==> e == PoolError::MalformedLayout,
{
    let n = d.len();
    if n < 9 || read_u8(d, 0) > 2 {
        return Err(PoolError::MalformedLayout);
    }
    let count = read_u32(d, 5) as usize;
    if count > (n - 9) / VALIDATOR_STAKE_INFO_LEN {
        assert(9 + 57 * count > n) by (nonlinear_arith)
            requires
                count > (n - 9) / 57,
                n >= 9,
        ;
        return Err(PoolError::MalformedLayout);
    }
    assert(9 + 57 * count <= n) by (nonlinear_arith)
        requires
            count <= (n - 9) / 57,
            n >= 9,
    ;
    let header = ValidatorListHeader {
        account_type: read_account_type(d, 0),
        max_validators: read_u32(d, 1),
    };
    let mut validators: Vec<ValidatorStakeInfo> = Vec::new();
    let mut i: usize = 0;
    while i < count
        invariant
            n == d@.len(),
            9 + 57 * count <= n,
            count == crate::layout::le_u32(d@, 5),
            i <= count,
            validators@.len() == i,
            forall|j: int| 0 <= j < i ==> #[trigger] d@[9 + 57 * j + 24] <= 2,
            forall|j: int|
                0 <= j < i ==> validator_info_at(d@, 9 + 57 * j, #[trigger] validators@[j]),
        decreases count - i,
    {
        assert(9 + 57 * i + 57 <= n) by (nonlinear_arith)
            requires
                i < count,
                9 + 57 * count <= n,
        ;
        let pos = 9 + 57 * i;
        let status = match read_u8(d, pos + 24) {
            0 => StakeStatus::Active,
            1 => StakeStatus::DeactivatingTransient,
            2 => StakeStatus::ReadyForRemoval,
            _ => {
                assert(!statuses_known(d@));
                return Err(PoolError::MalformedLayout);
            },
        };
        validators.push(
            ValidatorStakeInfo {
                active_stake_lamports: read_u64(d, pos),
                transient_stake_lamports: read_u64(d, pos + 8),
                last_update_epoch: read_u64(d, pos + 16),
                status,
                vote_account_address: read_key(d, pos + 25),
            },
        );
        i = i + 1;
    }
    Ok(ValidatorList { header, validators })
}

} // verus!
