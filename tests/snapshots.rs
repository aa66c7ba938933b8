use stake_pool_tools::address::Address;
use stake_pool_tools::commands::generate_metas::generate_stake_pool_metas;
use stake_pool_tools::commands::generate_normalized_stats::{
    find_pool, generate_normalized_stats, generate_stake_pool_stats,
};
use stake_pool_tools::error::PoolError;
use stake_pool_tools::providers::marinade::{stake_records, MarinadeStakePoolMeta, MarinadeStakePoolStakeAccount};
use stake_pool_tools::providers::spl::{validator_stake_addresses, SplStakePoolFees, SplStakePoolMeta, SplStakePoolValidator};
use stake_pool_tools::providers::stake_accounts::ValidatorAccounts;
use stake_pool_tools::providers::{LamportsAllocation, Ratio, RewardEntry, Rewards, StakePoolMeta};
use stake_pool_tools::vendors::jito::{generate_stake_accout_jito_rewards_lookup, StakeMetaCollection};
use stake_pool_tools::vendors::marinade::{decode_marinade_state, Fee as MarinadeFee};
use stake_pool_tools::vendors::spl::{
    decode_stake_pool, decode_validator_list, Fee, StakeStatus,
};
use stake_pool_tools::vendors::stake::AccountData;

fn addr(b: u8) -> Address {
    Address::new([b; 32])
}

fn fee(denominator: u64, numerator: u64) -> Fee {
    Fee { denominator, numerator }
}

fn fees(epoch: Fee) -> SplStakePoolFees {
    SplStakePoolFees { epoch, deposit_sol: fee(0, 0), withdrawal_sol: fee(0, 0), deposit_stake: fee(0, 0), withdrawal_stake: fee(0, 0) }
}

fn validator(active: u64, activating: u64, deactivating: u64, undelegated: u64, status: StakeStatus) -> SplStakePoolValidator {
    SplStakePoolValidator {
        vote_account_address: addr(50),
        active_stake_account_address: addr(51),
        transient_stake_account_address: addr(52),
        status,
        active_stake: active,
        undelegated_stake: undelegated,
        activating_stake: activating,
        deactivating_stake: deactivating,
        inflation_rewards: 10,
        jito_rewards: 5,
    }
}

fn spl_meta(address: u8, total_lamports: u64, supply: u64, reserve: u64, validators: Vec<SplStakePoolValidator>) -> SplStakePoolMeta {
    SplStakePoolMeta {
        address: addr(address),
        mint: addr(address + 1),
        manager: addr(address + 2),
        is_valid: true,
        needs_update: false,
        total_lamports,
        pool_token_supply: supply,
        last_epoch_total_lamports: 0,
        last_epoch_pool_token_supply: 0,
        fees: fees(fee(100, 5)),
        reserve_stake: reserve,
        validators,
    }
}

#[test]
fn allocation_parts_add_up_to_total() {
    let m = StakePoolMeta::Spl(spl_meta(
        1,
        0,
        0,
        1_000,
        vec![validator(100, 20, 30, 4, StakeStatus::Active), validator(200, 0, 60, 6, StakeStatus::Active)],
    ));
    assert!(m.is_well_formed());
    let a = m.lamports_allocation();
    assert_eq!(a, LamportsAllocation { active: 300, activating: 20, deactivating: 90, undelegated: 1_010 });
    assert_eq!(a.active + a.activating + a.deactivating + a.undelegated, m.total_lamports());
    assert_eq!(m.total_lamports(), 1_420);
    assert_eq!(m.delegated_lamports(), 410);
    assert_eq!(m.undelegated_lamports(), 1_010);
    assert_eq!(m.yielding_lamports(), 390);
    assert_eq!(m.rewards(), Rewards { inflation: 20, jito: 10 });
    assert_eq!(m.total_rewards(), 30);
}

#[test]
fn sums_beyond_64_bits_are_not_well_formed() {
    let m = StakePoolMeta::Spl(spl_meta(1, 0, 0, u64::MAX, vec![validator(1, 0, 0, 0, StakeStatus::Active)]));
    assert!(!m.is_well_formed());
}

#[test]
fn lst_price_is_lamports_per_token() {
    let m = StakePoolMeta::Spl(spl_meta(1, 1_000_000, 900_000, 0, vec![]));
    assert_eq!(m.lst_price(), Ratio { numerator: 1_000_000, denominator: 900_000 });
    let p = m.lst_price();
    assert!((p.numerator as f64 / p.denominator as f64 - 1.1111).abs() < 1e-4);
    let empty = StakePoolMeta::Spl(spl_meta(1, 1_000_000, 0, 0, vec![]));
    assert_eq!(empty.lst_price(), Ratio { numerator: 0, denominator: 1 });
}

#[test]
fn zero_fee_denominator_means_no_fee() {
    let mut m = spl_meta(1, 0, 0, 0, vec![]);
    m.fees = fees(fee(0, 7));
    assert_eq!(StakePoolMeta::Spl(m.clone()).management_fee(), Ratio { numerator: 0, denominator: 1 });
    m.fees = fees(fee(100, 7));
    assert_eq!(StakePoolMeta::Spl(m).management_fee(), Ratio { numerator: 7, denominator: 100 });
}

#[test]
fn staked_validators_need_threshold_and_active_status() {
    let m = StakePoolMeta::Spl(spl_meta(
        1,
        0,
        0,
        0,
        vec![
            validator(1_000_000_000, 0, 0, 0, StakeStatus::Active),
            validator(999_999_999, 0, 0, 0, StakeStatus::Active),
            validator(2_000_000_000, 0, 0, 0, StakeStatus::DeactivatingValidator),
            validator(500_000_000, 250_000_000, 250_000_000, 0, StakeStatus::Active),
        ],
    ));
    assert_eq!(m.staked_validator_count(), 2);
}

#[test]
fn validity_and_names() {
    let mut s = spl_meta(1, 0, 0, 0, vec![]);
    s.needs_update = true;
    let m = StakePoolMeta::Spl(s);
    assert!(!m.is_valid());
    assert_eq!(m.provider(), "SPL");
    assert_eq!(m.address(), addr(1).to_text());
    assert_eq!(m.mint(), addr(2).to_text());
    assert_eq!(m.manager(), addr(3).to_text());
}

fn stake_account(lamports: u64, rent: u64, voter: u8, stake: u64, activation: u64, deactivation: u64) -> AccountData {
    let mut d = vec![0u8; 200];
    d[0..4].copy_from_slice(&2u32.to_le_bytes());
    d[4..12].copy_from_slice(&rent.to_le_bytes());
    d[124..156].copy_from_slice(&[voter; 32]);
    d[156..164].copy_from_slice(&stake.to_le_bytes());
    d[164..172].copy_from_slice(&activation.to_le_bytes());
    d[172..180].copy_from_slice(&deactivation.to_le_bytes());
    AccountData { lamports, data: d }
}

fn reserve_account(lamports: u64, rent: u64) -> AccountData {
    let mut d = vec![0u8; 200];
    d[0..4].copy_from_slice(&1u32.to_le_bytes());
    d[4..12].copy_from_slice(&rent.to_le_bytes());
    AccountData { lamports, data: d }
}

fn spl_pool_bytes() -> Vec<u8> {
    let mut v = vec![1u8];
    for k in 1..=3u8 {
        v.extend_from_slice(&[k; 32]);
    }
    v.push(254);
    for k in 4..=8u8 {
        v.extend_from_slice(&[k; 32]);
    }
    v.extend_from_slice(&1_000_000u64.to_le_bytes());
    v.extend_from_slice(&900_000u64.to_le_bytes());
    v.extend_from_slice(&40u64.to_le_bytes());
    v.extend_from_slice(&[0u8; 48]);
    v.extend_from_slice(&0u64.to_le_bytes());
    v.extend_from_slice(&9u64.to_le_bytes());
    v.resize(611, 0);
    v
}

fn list_bytes(status: u8) -> Vec<u8> {
    let mut d = vec![2u8];
    d.extend_from_slice(&5u32.to_le_bytes());
    d.extend_from_slice(&1u32.to_le_bytes());
    d.extend_from_slice(&[0u8; 24]);
    d.extend_from_slice(&3u64.to_le_bytes());
    d.extend_from_slice(&0u32.to_le_bytes());
    d.extend_from_slice(&0u32.to_le_bytes());
    d.push(status);
    d.extend_from_slice(&[60u8; 32]);
    d
}

#[test]
fn spl_pool_builds_from_its_accounts() {
    let pool_address = addr(90);
    let pool = decode_stake_pool(&spl_pool_bytes()).unwrap();
    let list = decode_validator_list(&list_bytes(0)).unwrap();
    let (active, transient) = validator_stake_addresses(&pool_address, &list.validators[0]).unwrap();
    let accounts = vec![ValidatorAccounts {
        active: Some(stake_account(10_000, 1_000, 60, 8_000, 2, u64::MAX)),
        transient: Some(stake_account(3_000, 1_000, 60, 2_000, 41, u64::MAX)),
    }];
    let inflation = vec![RewardEntry { stake_account: active, amount: 11 }, RewardEntry { stake_account: transient, amount: 4 }];
    let jito = generate_stake_accout_jito_rewards_lookup(&StakeMetaCollection { epoch: 41, stake_metas: vec![] });
    let reserve = Some(reserve_account(7_000, 2_000));
    let m = SplStakePoolMeta::build(&pool_address, &pool, &list, &accounts, &reserve, 41, &inflation, &jito).unwrap();
    assert!(m.is_valid);
    assert!(m.needs_update);
    assert_eq!(m.total_lamports, 1_000_000);
    assert_eq!(m.fees.epoch, Fee { denominator: 0, numerator: 9 });
    assert_eq!(m.reserve_stake, 5_000);
    let v = &m.validators[0];
    assert_eq!(v.active_stake_account_address, active);
    assert_eq!(v.transient_stake_account_address, transient);
    assert_eq!(v.status, StakeStatus::Active);
    assert_eq!((v.active_stake, v.undelegated_stake), (8_000, 1_000));
    assert_eq!((v.activating_stake, v.deactivating_stake), (3_000, 0));
    assert_eq!((v.inflation_rewards, v.jito_rewards), (15, 0));
    let meta = StakePoolMeta::Spl(m);
    assert_eq!(meta.total_lamports(), 17_000);
    assert_eq!(meta.management_fee(), Ratio { numerator: 0, denominator: 1 });
}

#[test]
fn spl_pool_without_reserve_account_fails() {
    let pool = decode_stake_pool(&spl_pool_bytes()).unwrap();
    let list = decode_validator_list(&list_bytes(0)).unwrap();
    let accounts = vec![ValidatorAccounts { active: None, transient: None }];
    let jito = generate_stake_accout_jito_rewards_lookup(&StakeMetaCollection { epoch: 41, stake_metas: vec![] });
    let r = SplStakePoolMeta::build(&addr(90), &pool, &list, &accounts, &None, 41, &vec![], &jito);
    assert_eq!(r.unwrap_err(), PoolError::RequiredAccountMissing);
}

#[test]
fn spl_pool_with_inconsistent_transient_fails() {
    let pool = decode_stake_pool(&spl_pool_bytes()).unwrap();
    let list = decode_validator_list(&list_bytes(0)).unwrap();
    let accounts = vec![ValidatorAccounts { active: None, transient: Some(stake_account(3_000, 1_000, 60, 2_000, 30, 50)) }];
    let jito = generate_stake_accout_jito_rewards_lookup(&StakeMetaCollection { epoch: 41, stake_metas: vec![] });
    let r = SplStakePoolMeta::build(&addr(90), &pool, &list, &accounts, &Some(reserve_account(7_000, 2_000)), 41, &vec![], &jito);
    assert_eq!(r.unwrap_err(), PoolError::DataConsistencyFault);
}

#[test]
fn spl_pool_with_unknown_status_fails() {
    let pool = decode_stake_pool(&spl_pool_bytes()).unwrap();
    let list = decode_validator_list(&list_bytes(9)).unwrap();
    let accounts = vec![ValidatorAccounts { active: None, transient: None }];
    let jito = generate_stake_accout_jito_rewards_lookup(&StakeMetaCollection { epoch: 41, stake_metas: vec![] });
    let r = SplStakePoolMeta::build(&addr(90), &pool, &list, &accounts, &Some(reserve_account(7_000, 2_000)), 41, &vec![], &jito);
    assert_eq!(r.unwrap_err(), PoolError::MalformedLayout);
}

fn marinade_state_bytes() -> Vec<u8> {
    let mut d = vec![0u8; 576];
    d[8..40].copy_from_slice(&[1u8; 32]);
    d[40..72].copy_from_slice(&[2u8; 32]);
    d[138..146].copy_from_slice(&2_000u64.to_le_bytes());
    d[146..150].copy_from_slice(&600u32.to_le_bytes());
    d[182..186].copy_from_slice(&57u32.to_le_bytes());
    d[186..190].copy_from_slice(&3u32.to_le_bytes());
    d[376..384].copy_from_slice(&9_000u64.to_le_bytes());
    d[504..512].copy_from_slice(&4_500u64.to_le_bytes());
    d
}

#[test]
fn marinade_pool_builds_and_groups_validators() {
    let state = decode_marinade_state(&marinade_state_bytes()).unwrap();
    let mut list = vec![0u8; 8 + 57 * 3];
    for i in 0..3usize {
        list[8 + 57 * i..8 + 57 * i + 32].copy_from_slice(&[70 + i as u8; 32]);
    }
    let records = stake_records(&state, &list).unwrap();
    assert_eq!(records.len(), 3);
    assert_eq!(records[2].stake_account, addr(72));
    let accounts = vec![
        Some(stake_account(700_000_000, 1_000, 8, 600_000_000, 1, u64::MAX)),
        None,
        Some(stake_account(500_000_000, 1_000, 8, 400_000_000, 30, u64::MAX)),
    ];
    let inflation = vec![RewardEntry { stake_account: addr(70), amount: 9 }];
    let jito = generate_stake_accout_jito_rewards_lookup(&StakeMetaCollection { epoch: 30, stake_metas: vec![] });
    let m = MarinadeStakePoolMeta::build(
        &addr(99), &state, &records, &accounts, &Some(AccountData { lamports: 12_000, data: vec![] }), 30, 172_800, &inflation, &jito,
    )
    .unwrap();
    assert_eq!(m.stake_accounts.len(), 2);
    assert_eq!(m.reserve, 10_000);
    assert_eq!(m.total_lamports, 9_000);
    assert_eq!(m.management_fee, MarinadeFee { basis_points: 600 });
    let first: &MarinadeStakePoolStakeAccount = &m.stake_accounts[0];
    assert_eq!(first.vote_account_address, addr(8));
    assert_eq!((first.active_stake, first.activating_stake, first.undelegated_stake), (600_000_000, 0, 99_999_000));
    assert_eq!(first.inflation_rewards, 9);
    assert_eq!((m.stake_accounts[1].active_stake, m.stake_accounts[1].activating_stake), (0, 400_000_000));
    let meta = StakePoolMeta::Marinade(m);
    assert_eq!(meta.staked_validator_count(), 1);
    assert_eq!(meta.lst_price(), Ratio { numerator: 9_000, denominator: 4_500 });
    assert_eq!(meta.management_fee(), Ratio { numerator: 600, denominator: 10_000 });
    assert_eq!(meta.provider(), "Marinade");
    assert!(meta.is_valid());
}

#[test]
fn marinade_stake_account_short_of_stake_fails() {
    let jito = generate_stake_accout_jito_rewards_lookup(&StakeMetaCollection { epoch: 30, stake_metas: vec![] });
    let r = MarinadeStakePoolStakeAccount::build(&addr(8), &addr(70), &stake_account(100, 50, 8, 60, 1, u64::MAX), 30, &vec![], &jito);
    assert_eq!(r.unwrap_err(), PoolError::DataConsistencyFault);
}

#[test]
fn checkpoint_totals_add_up_pools() {
    let pools = vec![
        StakePoolMeta::Spl(spl_meta(1, 0, 0, 100, vec![validator(10, 20, 30, 4, StakeStatus::Active)])),
        StakePoolMeta::Spl(spl_meta(5, 0, 0, 7, vec![])),
    ];
    let m = generate_stake_pool_metas(pools, "hash".to_string(), 1_000, 400, 77, 600, 172_800, 123).unwrap();
    assert_eq!(m.total_sol_supply, 600);
    assert_eq!(m.total_liquid_stake, 60);
    assert_eq!(m.total_undelegated_lamports, 111);
    assert_eq!(m.bank_hash, "hash");
    let bad = generate_stake_pool_metas(vec![], "hash".to_string(), 1, 2, 0, 0, 0, 0);
    assert_eq!(bad.unwrap_err(), PoolError::DataConsistencyFault);
}

#[test]
fn liquidity_delta_against_previous_epoch() {
    let target = StakePoolMeta::Spl(spl_meta(1, 1_000_000, 900_000, 1_000_000, vec![]));
    let prev = StakePoolMeta::Spl(spl_meta(1, 900_000, 900_000, 900_000, vec![]));
    let s = generate_stake_pool_stats(&target, 172_800, Some(&prev), None, Ratio { numerator: 0, denominator: 1 });
    assert_eq!(s.liquidity_delta, 100_000);
    assert_eq!(s.lst_price, Ratio { numerator: 1_000_000, denominator: 900_000 });
    let s = generate_stake_pool_stats(&prev, 172_800, Some(&target), None, Ratio { numerator: 0, denominator: 1 });
    assert_eq!(s.liquidity_delta, -100_000);
    let s = generate_stake_pool_stats(&target, 172_800, None, None, Ratio { numerator: 0, denominator: 1 });
    assert_eq!(s.liquidity_delta, 0);
}

#[test]
fn live_price_stands_in_for_missing_next_epoch() {
    let target = StakePoolMeta::Spl(spl_meta(1, 105, 100, 0, vec![]));
    let live = Ratio { numerator: 106, denominator: 100 };
    let s = generate_stake_pool_stats(&target, 175_200, None, None, live);
    assert_eq!(s.next_lst_price, live);
    assert_eq!(s.epochs_per_year, Ratio { numerator: 31_536_000, denominator: 175_200 });
    let price = |r: Ratio| r.numerator as f64 / r.denominator as f64;
    let epochs = price(s.epochs_per_year);
    assert!((epochs - 180.0).abs() < 1e-9);
    let apr = (price(s.next_lst_price) / price(s.lst_price) - 1.0) * epochs;
    assert!((apr - 1.7143).abs() < 1e-3);
    let next = StakePoolMeta::Spl(spl_meta(1, 107, 100, 0, vec![]));
    let s = generate_stake_pool_stats(&target, 175_200, None, Some(&next), live);
    assert_eq!(s.next_lst_price, Ratio { numerator: 107, denominator: 100 });
}

#[test]
fn stats_join_neighbours_by_identity() {
    let a = StakePoolMeta::Spl(spl_meta(1, 500, 500, 500, vec![]));
    let b = StakePoolMeta::Spl(spl_meta(10, 300, 100, 300, vec![]));
    let target = generate_stake_pool_metas(vec![a.clone(), b.clone()], "t".to_string(), 0, 0, 0, 600, 172_800, 1).unwrap();
    let prev_b = StakePoolMeta::Spl(spl_meta(10, 250, 100, 250, vec![]));
    let prev = generate_stake_pool_metas(vec![prev_b], "p".to_string(), 0, 0, 0, 599, 172_800, 0).unwrap();
    let next_a = StakePoolMeta::Spl(spl_meta(1, 600, 500, 600, vec![]));
    let next = generate_stake_pool_metas(vec![next_a], "n".to_string(), 0, 0, 0, 601, 172_800, 2).unwrap();
    assert_eq!(find_pool(&next.stake_pools, &addr(1)), Some(0));
    assert_eq!(find_pool(&next.stake_pools, &addr(10)), None);
    let live = vec![Ratio { numerator: 0, denominator: 1 }, Ratio { numerator: 31, denominator: 10 }];
    let c = generate_normalized_stats(600, &target, Some(&prev), Some(&next), &live);
    assert_eq!(c.epoch, 600);
    assert_eq!(c.stake_pools.len(), 2);
    assert_eq!(c.stake_pools[0].liquidity_delta, 0);
    assert_eq!(c.stake_pools[0].next_lst_price, Ratio { numerator: 600, denominator: 500 });
    assert_eq!(c.stake_pools[1].liquidity_delta, 50);
    assert_eq!(c.stake_pools[1].next_lst_price, Ratio { numerator: 31, denominator: 10 });
    assert_eq!(c.stake_pools[1].total_lamports_locked, 300);
}
