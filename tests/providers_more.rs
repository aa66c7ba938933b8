use stake_pool_tools::address::Address;
use stake_pool_tools::error::PoolError;
use stake_pool_tools::providers::socean::{validator_stake_addresses, SoceanStakePoolMeta};
use stake_pool_tools::providers::stake_accounts::ValidatorAccounts;
use stake_pool_tools::providers::{marinade, spl, Ratio, RewardEntry, StakePoolMeta};
use stake_pool_tools::vendors::jito::{
    generate_stake_accout_jito_rewards_lookup, Delegation, StakeMeta, StakeMetaCollection,
    TipDistributionMeta,
};
use stake_pool_tools::vendors::socean::{decode_stake_pool, decode_validator_list};
use stake_pool_tools::vendors::spl::StakeStatus;
use stake_pool_tools::vendors::stake::AccountData;

fn addr(b: u8) -> Address {
    Address::new([b; 32])
}

fn socean_pool_bytes(total: u64, supply: u64) -> Vec<u8> {
    let mut v = vec![1u8];
    for k in 1..=3u8 {
        v.extend_from_slice(&[k; 32]);
    }
    v.push(255);
    for k in 4..=8u8 {
        v.extend_from_slice(&[k; 32]);
    }
    v.extend_from_slice(&total.to_le_bytes());
    v.extend_from_slice(&supply.to_le_bytes());
    v.extend_from_slice(&50u64.to_le_bytes());
    v.extend_from_slice(&[0u8; 48]);
    v.extend_from_slice(&100u64.to_le_bytes());
    v.extend_from_slice(&2u64.to_le_bytes());
    v.resize(529, 0);
    v
}

fn socean_list_bytes() -> Vec<u8> {
    let mut d = vec![2u8];
    d.extend_from_slice(&3u32.to_le_bytes());
    d.extend_from_slice(&1u32.to_le_bytes());
    d.extend_from_slice(&[0u8; 24]);
    d.push(0);
    d.extend_from_slice(&[61u8; 32]);
    d
}

fn stake_account(lamports: u64, rent: u64, stake: u64, activation: u64, deactivation: u64) -> AccountData {
    let mut d = vec![0u8; 200];
    d[0..4].copy_from_slice(&2u32.to_le_bytes());
    d[4..12].copy_from_slice(&rent.to_le_bytes());
    d[124..156].copy_from_slice(&[61u8; 32]);
    d[156..164].copy_from_slice(&stake.to_le_bytes());
    d[164..172].copy_from_slice(&activation.to_le_bytes());
    d[172..180].copy_from_slice(&deactivation.to_le_bytes());
    AccountData { lamports, data: d }
}

fn reserve_account(lamports: u64, rent: u64) -> AccountData {
    let mut d = vec![0u8; 124];
    d[0..4].copy_from_slice(&1u32.to_le_bytes());
    d[4..12].copy_from_slice(&rent.to_le_bytes());
    AccountData { lamports, data: d }
}

#[test]
fn socean_pool_builds_from_its_accounts() {
    let pool_address = addr(91);
    let pool = decode_stake_pool(&socean_pool_bytes(2_000_000_000, 1_000_000_000)).unwrap();
    let list = decode_validator_list(&socean_list_bytes()).unwrap();
    let (active, transient) = validator_stake_addresses(&pool_address, &list.validators[0]).unwrap();
    let accounts = vec![ValidatorAccounts {
        active: Some(stake_account(1_500_000_000, 2_000_000, 1_400_000_000, 10, u64::MAX)),
        transient: Some(stake_account(300_000_000, 2_000_000, 298_000_000, 10, 50)),
    }];
    let tips = StakeMetaCollection {
        epoch: 50,
        stake_metas: vec![StakeMeta {
            validator_vote_account: addr(61),
            total_delegated: 100,
            delegations: vec![Delegation { stake_account_pubkey: active, staker_pubkey: addr(1), lamports_delegated: 100 }],
            maybe_tip_distribution_meta: Some(TipDistributionMeta { total_tips: 80, validator_fee_bps: 500 }),
        }],
    };
    let jito = generate_stake_accout_jito_rewards_lookup(&tips);
    let inflation = vec![RewardEntry { stake_account: transient, amount: 3 }];
    let m = SoceanStakePoolMeta::build(
        &pool_address, &pool, &list, &accounts, &Some(reserve_account(5_000_000, 2_000_000)), 50, 172_800, &inflation, &jito,
    )
    .unwrap();
    assert!(!m.needs_update);
    assert_eq!(m.epoch_duration, 172_800);
    assert_eq!(m.reserve_stake, 3_000_000);
    assert_eq!(m.fees.epoch.numerator, 2);
    let v = &m.validators[0];
    assert_eq!(v.status, StakeStatus::Active);
    assert_eq!((v.active_stake, v.undelegated_stake), (1_400_000_000, 98_000_000));
    assert_eq!((v.activating_stake, v.deactivating_stake), (0, 300_000_000));
    assert_eq!((v.inflation_rewards, v.jito_rewards), (3, 76));
    let meta = StakePoolMeta::Socean(m);
    assert_eq!(meta.staked_validator_count(), 1);
    assert_eq!(meta.yielding_lamports(), 1_700_000_000);
    assert_eq!(meta.management_fee(), Ratio { numerator: 2, denominator: 100 });
    assert_eq!(meta.lst_price(), Ratio { numerator: 2_000_000_000, denominator: 1_000_000_000 });
    assert_eq!(meta.provider(), "Socean");
    assert!(meta.is_valid());
}

#[test]
fn socean_reserve_that_is_delegated_is_malformed() {
    let pool = decode_stake_pool(&socean_pool_bytes(1, 1)).unwrap();
    let list = decode_validator_list(&socean_list_bytes()).unwrap();
    let accounts = vec![ValidatorAccounts { active: None, transient: None }];
    let jito = generate_stake_accout_jito_rewards_lookup(&StakeMetaCollection { epoch: 0, stake_metas: vec![] });
    let r = SoceanStakePoolMeta::build(&addr(91), &pool, &list, &accounts, &Some(stake_account(9, 1, 1, 0, u64::MAX)), 50, 1, &vec![], &jito);
    assert_eq!(r.unwrap_err(), PoolError::MalformedLayout);
    let r = SoceanStakePoolMeta::build(&addr(91), &pool, &list, &accounts, &Some(reserve_account(1, 2)), 50, 1, &vec![], &jito);
    assert_eq!(r.unwrap_err(), PoolError::DataConsistencyFault);
}

#[test]
fn live_prices_read_current_pool_accounts() {
    let socean_meta = StakePoolMeta::Socean(
        SoceanStakePoolMeta::build(
            &addr(91),
            &decode_stake_pool(&socean_pool_bytes(1, 1)).unwrap(),
            &decode_validator_list(&socean_list_bytes()).unwrap(),
            &vec![ValidatorAccounts { active: None, transient: None }],
            &Some(reserve_account(5, 1)),
            50,
            1,
            &vec![],
            &generate_stake_accout_jito_rewards_lookup(&StakeMetaCollection { epoch: 0, stake_metas: vec![] }),
        )
        .unwrap(),
    );
    assert_eq!(socean_meta.live_lst_price(&socean_pool_bytes(1_060, 1_000)), Ok(Ratio { numerator: 1_060, denominator: 1_000 }));
    assert_eq!(socean_meta.live_lst_price(&socean_pool_bytes(1_060, 0)), Ok(Ratio { numerator: 0, denominator: 1 }));
    assert_eq!(socean_meta.live_lst_price(&[1, 2, 3]), Err(PoolError::MalformedLayout));
    let mut spl_bytes = socean_pool_bytes(7, 5);
    spl_bytes.resize(611, 0);
    assert_eq!(spl::live_lst_price(&spl_bytes), Ok(Ratio { numerator: 7, denominator: 5 }));
    let mut state = vec![0u8; 576];
    state[376..384].copy_from_slice(&1_100u64.to_le_bytes());
    state[504..512].copy_from_slice(&1_000u64.to_le_bytes());
    assert_eq!(marinade::live_lst_price(&state), Ok(Ratio { numerator: 1_100, denominator: 1_000 }));
    assert_eq!(marinade::live_lst_price(&state[..100]), Err(PoolError::MalformedLayout));
}
