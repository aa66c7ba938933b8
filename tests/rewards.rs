use stake_pool_tools::address::Address;
use stake_pool_tools::providers::{inflation_reward_of, RewardEntry};
use stake_pool_tools::vendors::jito::{
    generate_stake_accout_jito_rewards_lookup,
    generate_stake_accout_jito_rewards_lookup_for_validator, jito_reward_of, Delegation,
    StakeMeta, StakeMetaCollection, TipDistributionMeta,
};

fn addr(b: u8) -> Address {
    Address::new([b; 32])
}

fn delegation(account: u8, lamports: u64) -> Delegation {
    Delegation { stake_account_pubkey: addr(account), staker_pubkey: addr(100 + account), lamports_delegated: lamports }
}

fn meta(total_tips: u64, fee_bps: u16, total: u64, delegations: Vec<Delegation>) -> StakeMeta {
    StakeMeta {
        validator_vote_account: addr(200),
        total_delegated: total,
        delegations,
        maybe_tip_distribution_meta: Some(TipDistributionMeta { total_tips, validator_fee_bps: fee_bps }),
    }
}

#[test]
fn validator_cut_and_floor_shares() {
    let m = meta(1000, 1000, 1000, vec![delegation(1, 300), delegation(2, 700)]);
    assert!(m.is_well_formed());
    let r = generate_stake_accout_jito_rewards_lookup_for_validator(&m);
    assert_eq!(r.len(), 2);
    assert_eq!(r[0].amount, 270);
    assert_eq!(r[1].amount, 630);
    assert_eq!(r[0].stake_account, addr(1));
    assert_eq!(r[1].staker_pubkey, addr(102));
    assert!(r[0].amount + r[1].amount <= 900);
}

#[test]
fn shares_round_down_and_stay_within_remaining() {
    let m = meta(1001, 333, 3, vec![delegation(1, 1), delegation(2, 1), delegation(3, 1)]);
    let r = generate_stake_accout_jito_rewards_lookup_for_validator(&m);
    // cut = floor(1001 * 333 / 10000) = 33; remaining = 968; each = floor(968 / 3) = 322
    assert_eq!(r.iter().map(|x| x.amount).collect::<Vec<_>>(), vec![322, 322, 322]);
    assert!(r.iter().map(|x| x.amount).sum::<u64>() <= 968);
}

#[test]
fn validator_without_tips_contributes_nothing() {
    let mut m = meta(1000, 1000, 1000, vec![delegation(1, 1000)]);
    m.maybe_tip_distribution_meta = None;
    assert!(generate_stake_accout_jito_rewards_lookup_for_validator(&m).is_empty());
}

#[test]
fn lookup_covers_all_validators_and_misses_default_to_zero() {
    let c = StakeMetaCollection {
        epoch: 500,
        stake_metas: vec![
            meta(1000, 1000, 1000, vec![delegation(1, 300), delegation(2, 700)]),
            meta(500, 0, 100, vec![delegation(3, 100)]),
        ],
    };
    let l = generate_stake_accout_jito_rewards_lookup(&c);
    assert_eq!(jito_reward_of(&l, &addr(1)), 270);
    assert_eq!(jito_reward_of(&l, &addr(2)), 630);
    assert_eq!(jito_reward_of(&l, &addr(3)), 500);
    assert_eq!(jito_reward_of(&l, &addr(4)), 0);
}

#[test]
fn later_occurrence_of_an_account_wins() {
    let c = StakeMetaCollection {
        epoch: 500,
        stake_metas: vec![
            meta(1000, 0, 1000, vec![delegation(1, 1000)]),
            meta(40, 0, 100, vec![delegation(1, 100)]),
        ],
    };
    let l = generate_stake_accout_jito_rewards_lookup(&c);
    assert_eq!(jito_reward_of(&l, &addr(1)), 40);
}

#[test]
fn ill_formed_tip_data_is_detected() {
    assert!(!meta(1000, 10_001, 1000, vec![]).is_well_formed());
    assert!(!meta(1000, 100, 0, vec![delegation(1, 0)]).is_well_formed());
    assert!(!meta(1000, 100, 10, vec![delegation(1, 11)]).is_well_formed());
}

#[test]
fn inflation_lookup_takes_last_entry_or_zero() {
    let entries = vec![
        RewardEntry { stake_account: addr(1), amount: 5 },
        RewardEntry { stake_account: addr(2), amount: 6 },
        RewardEntry { stake_account: addr(1), amount: 7 },
    ];
    assert_eq!(inflation_reward_of(&entries, &addr(1)), 7);
    assert_eq!(inflation_reward_of(&entries, &addr(2)), 6);
    assert_eq!(inflation_reward_of(&entries, &addr(3)), 0);
}
