use stake_pool_tools::address::Address;
use stake_pool_tools::error::PoolError;
use stake_pool_tools::vendors::marinade::{decode_marinade_state, List};
use stake_pool_tools::vendors::socean;
use stake_pool_tools::vendors::spl::{
    decode_stake_pool, decode_validator_list, AccountType, Fee, FutureEpoch, PodStakeStatus,
    StakeStatus,
};
use stake_pool_tools::vendors::stake::{decode_delegated_stake, decode_initialized_reserve};

fn key(b: u8) -> [u8; 32] {
    [b; 32]
}

fn push_u64(v: &mut Vec<u8>, x: u64) {
    v.extend_from_slice(&x.to_le_bytes());
}

fn push_fee(v: &mut Vec<u8>, denominator: u64, numerator: u64) {
    push_u64(v, denominator);
    push_u64(v, numerator);
}

/// An SPL pool account: header fields, then the optional tail with the
/// given option tags.
fn spl_pool_bytes(account_type: u8, with_options: bool) -> Vec<u8> {
    let mut v = vec![account_type];
    for k in 1..=3u8 {
        v.extend_from_slice(&key(k));
    }
    v.push(254);
    for k in 4..=8u8 {
        v.extend_from_slice(&key(k));
    }
    push_u64(&mut v, 1_000_000);
    push_u64(&mut v, 900_000);
    push_u64(&mut v, 77);
    v.extend_from_slice(&[0u8; 48]);
    push_fee(&mut v, 100, 3);
    if with_options {
        v.push(1);
        push_fee(&mut v, 100, 4);
        v.push(1);
        v.extend_from_slice(&key(9));
        v.push(0);
    } else {
        v.extend_from_slice(&[0, 0, 0]);
    }
    push_fee(&mut v, 1000, 5);
    push_fee(&mut v, 1000, 6);
    v.push(if with_options { 2 } else { 0 });
    if with_options {
        push_fee(&mut v, 1000, 7);
    }
    v.push(10);
    v.push(0);
    push_fee(&mut v, 1000, 8);
    v.push(20);
    v.push(0);
    push_fee(&mut v, 1000, 9);
    v.push(0);
    push_u64(&mut v, 880_000);
    push_u64(&mut v, 990_000);
    v
}

#[test]
fn spl_pool_decodes_every_field() {
    let d = spl_pool_bytes(1, true);
    let p = decode_stake_pool(&d).unwrap();
    assert_eq!(p.account_type, AccountType::StakePool);
    assert!(p.is_valid());
    assert_eq!(p.manager.bytes, key(1));
    assert_eq!(p.validator_list.bytes, key(4));
    assert_eq!(p.reserve_stake.bytes, key(5));
    assert_eq!(p.pool_mint.bytes, key(6));
    assert_eq!(p.stake_withdraw_bump_seed, 254);
    assert_eq!(p.total_lamports, 1_000_000);
    assert_eq!(p.pool_token_supply, 900_000);
    assert_eq!(p.last_update_epoch, 77);
    assert_eq!(p.epoch_fee, Fee { denominator: 100, numerator: 3 });
    assert_eq!(p.next_epoch_fee, FutureEpoch::One(Fee { denominator: 100, numerator: 4 }));
    assert_eq!(p.preferred_deposit_validator_vote_address.unwrap().bytes, key(9));
    assert!(p.preferred_withdraw_validator_vote_address.is_none());
    assert_eq!(p.stake_deposit_fee.numerator, 5);
    assert_eq!(p.stake_withdrawal_fee.numerator, 6);
    assert_eq!(p.next_stake_withdrawal_fee, FutureEpoch::Two(Fee { denominator: 1000, numerator: 7 }));
    assert_eq!(p.stake_referral_fee, 10);
    assert_eq!(p.sol_deposit_fee.numerator, 8);
    assert_eq!(p.sol_referral_fee, 20);
    assert_eq!(p.sol_withdrawal_fee.numerator, 9);
    assert_eq!(p.next_sol_withdrawal_fee, FutureEpoch::Unset);
    assert_eq!(p.last_epoch_pool_token_supply, 880_000);
    assert_eq!(p.last_epoch_total_lamports, 990_000);
}

#[test]
fn spl_pool_with_empty_options_is_shorter() {
    let d = spl_pool_bytes(0, false);
    let p = decode_stake_pool(&d).unwrap();
    assert_eq!(p.account_type, AccountType::Uninitialized);
    assert!(!p.is_valid());
    assert_eq!(p.next_epoch_fee, FutureEpoch::Unset);
    assert_eq!(p.last_epoch_total_lamports, 990_000);
}

#[test]
fn spl_pool_of_full_size_ignores_trailing_bytes() {
    let mut d = spl_pool_bytes(1, false);
    d.resize(611, 0);
    assert_eq!(decode_stake_pool(&d).unwrap().last_epoch_pool_token_supply, 880_000);
}

#[test]
fn spl_pool_rejects_short_buffer() {
    let d = spl_pool_bytes(1, true);
    assert_eq!(decode_stake_pool(&d[..d.len() - 1]).unwrap_err(), PoolError::MalformedLayout);
    assert_eq!(decode_stake_pool(&[]).unwrap_err(), PoolError::MalformedLayout);
}

#[test]
fn spl_pool_rejects_unknown_discriminant() {
    let d = spl_pool_bytes(3, true);
    assert_eq!(decode_stake_pool(&d).unwrap_err(), PoolError::MalformedLayout);
}

#[test]
fn spl_pool_rejects_bad_option_tag() {
    let mut d = spl_pool_bytes(1, false);
    d[346] = 3;
    assert_eq!(decode_stake_pool(&d).unwrap_err(), PoolError::MalformedLayout);
    let mut d = spl_pool_bytes(1, false);
    d[347] = 2;
    assert_eq!(decode_stake_pool(&d).unwrap_err(), PoolError::MalformedLayout);
}

fn spl_entry(v: &mut Vec<u8>, status: u8, vote: u8, seed: u32, transient_seed: u64) {
    push_u64(v, 11);
    push_u64(v, 12);
    push_u64(v, 13);
    push_u64(v, transient_seed);
    v.extend_from_slice(&0u32.to_le_bytes());
    v.extend_from_slice(&seed.to_le_bytes());
    v.push(status);
    v.extend_from_slice(&key(vote));
}

#[test]
fn spl_validator_list_decodes_entries() {
    let mut d = vec![2u8];
    d.extend_from_slice(&10u32.to_le_bytes());
    d.extend_from_slice(&2u32.to_le_bytes());
    spl_entry(&mut d, 0, 21, 0, 5);
    spl_entry(&mut d, 3, 22, 7, 6);
    d.resize(9 + 73 * 10, 0);
    let l = decode_validator_list(&d).unwrap();
    assert_eq!(l.header.account_type, AccountType::ValidatorList);
    assert_eq!(l.header.max_validators, 10);
    assert_eq!(l.validators.len(), 2);
    let v = &l.validators[1];
    assert_eq!(v.active_stake_lamports, 11);
    assert_eq!(v.transient_stake_lamports, 12);
    assert_eq!(v.last_update_epoch, 13);
    assert_eq!(v.transient_seed_suffix, 6);
    assert_eq!(v.validator_seed_suffix, 7);
    assert_eq!(v.status, PodStakeStatus(3));
    assert_eq!(StakeStatus::try_from(v.status), Ok(StakeStatus::DeactivatingValidator));
    assert_eq!(v.vote_account_address.bytes, key(22));
}

#[test]
fn spl_validator_list_rejects_count_beyond_data() {
    let mut d = vec![2u8];
    d.extend_from_slice(&10u32.to_le_bytes());
    d.extend_from_slice(&2u32.to_le_bytes());
    spl_entry(&mut d, 0, 21, 0, 5);
    assert_eq!(decode_validator_list(&d).unwrap_err(), PoolError::MalformedLayout);
    assert_eq!(decode_validator_list(&d[..8]).unwrap_err(), PoolError::MalformedLayout);
}

#[test]
fn stake_status_rejects_unknown_byte() {
    assert_eq!(StakeStatus::try_from(PodStakeStatus(5)), Err(PoolError::MalformedLayout));
    assert_eq!(StakeStatus::try_from(PodStakeStatus::from(StakeStatus::DeactivatingAll)), Ok(StakeStatus::DeactivatingAll));
    assert_eq!(StakeStatus::DeactivatingTransient.name(), "DeactivatingTransient");
}

fn socean_pool_bytes() -> Vec<u8> {
    let mut v = vec![1u8];
    for k in 1..=3u8 {
        v.extend_from_slice(&key(k));
    }
    v.push(255);
    for k in 4..=8u8 {
        v.extend_from_slice(&key(k));
    }
    push_u64(&mut v, 5_000);
    push_u64(&mut v, 4_000);
    push_u64(&mut v, 300);
    v.extend_from_slice(&[0u8; 48]);
    push_fee(&mut v, 0, 7);
    v.push(1);
    push_fee(&mut v, 10, 1);
    v.push(1);
    v.extend_from_slice(&key(9));
    v.push(1);
    v.extend_from_slice(&key(10));
    push_fee(&mut v, 100, 2);
    push_fee(&mut v, 100, 3);
    v.push(1);
    push_fee(&mut v, 100, 4);
    v.push(50);
    v.push(1);
    v.extend_from_slice(&key(11));
    push_fee(&mut v, 100, 5);
    v.push(60);
    v
}

#[test]
fn socean_pool_of_largest_size_decodes() {
    let d = socean_pool_bytes();
    assert_eq!(d.len(), 529);
    let p = socean::decode_stake_pool(&d).unwrap();
    assert!(p.is_valid());
    assert_eq!(p.total_stake_lamports, 5_000);
    assert_eq!(p.pool_token_supply, 4_000);
    assert_eq!(p.fee, Fee { denominator: 0, numerator: 7 });
    assert_eq!(p.next_epoch_fee, Some(Fee { denominator: 10, numerator: 1 }));
    assert_eq!(p.preferred_withdraw_validator_vote_address.unwrap().bytes, key(10));
    assert_eq!(p.withdrawal_fee.numerator, 3);
    assert_eq!(p.next_withdrawal_fee.unwrap().numerator, 4);
    assert_eq!(p.sol_deposit_authority.unwrap().bytes, key(11));
    assert_eq!(p.sol_deposit_fee.numerator, 5);
    assert_eq!(p.sol_referral_fee, 60);
    assert_eq!(socean::decode_stake_pool(&d[..528]).unwrap_err(), PoolError::MalformedLayout);
}

#[test]
fn socean_validator_list_rejects_unknown_status() {
    let mut d = vec![2u8];
    d.extend_from_slice(&4u32.to_le_bytes());
    d.extend_from_slice(&1u32.to_le_bytes());
    push_u64(&mut d, 1);
    push_u64(&mut d, 2);
    push_u64(&mut d, 3);
    d.push(2);
    d.extend_from_slice(&key(30));
    let l = socean::decode_validator_list(&d).unwrap();
    assert_eq!(l.validators[0].status, StakeStatus::ReadyForRemoval);
    assert_eq!(l.validators[0].vote_account_address.bytes, key(30));
    d[9 + 24] = 3;
    assert_eq!(socean::decode_validator_list(&d).unwrap_err(), PoolError::MalformedLayout);
}

fn put_u64(d: &mut [u8], pos: usize, x: u64) {
    d[pos..pos + 8].copy_from_slice(&x.to_le_bytes());
}

fn put_u32(d: &mut [u8], pos: usize, x: u32) {
    d[pos..pos + 4].copy_from_slice(&x.to_le_bytes());
}

pub fn marinade_state_bytes() -> Vec<u8> {
    let mut d = vec![0u8; 576];
    d[8..40].copy_from_slice(&key(1));
    d[40..72].copy_from_slice(&key(2));
    put_u64(&mut d, 138, 2_000_000);
    put_u32(&mut d, 146, 600);
    d[150..182].copy_from_slice(&key(3));
    put_u32(&mut d, 182, 57);
    put_u32(&mut d, 186, 2);
    put_u64(&mut d, 226, 100);
    put_u64(&mut d, 376, 9_000);
    put_u64(&mut d, 496, 800);
    put_u64(&mut d, 504, 9_000);
    put_u64(&mut d, 528, 50);
    put_u64(&mut d, 568, 150);
    d
}

#[test]
fn marinade_state_decodes_fields_and_totals() {
    let d = marinade_state_bytes();
    let s = decode_marinade_state(&d).unwrap();
    assert_eq!(s.msol_mint.bytes, key(1));
    assert_eq!(s.admin_authority.bytes, key(2));
    assert_eq!(s.rent_exempt_for_token_acc, 2_000_000);
    assert_eq!(s.reward_fee.basis_points, 600);
    assert_eq!(s.stake_system.stake_list.account.bytes, key(3));
    assert_eq!(s.stake_system.stake_list.item_size, 57);
    assert_eq!(s.stake_system.stake_list.count, 2);
    assert_eq!(s.msol_supply, 9_000);
    assert_eq!(s.total_cooling_down(), Ok(250));
    assert_eq!(s.total_lamports_under_control(), Ok(10_050));
    assert_eq!(s.total_virtual_staked_lamports(), Ok(10_000));
    assert_eq!(decode_marinade_state(&d[..575]).unwrap_err(), PoolError::MalformedLayout);
}

#[test]
fn marinade_totals_overflow_is_inconsistent() {
    let mut d = marinade_state_bytes();
    put_u64(&mut d, 226, u64::MAX);
    let s = decode_marinade_state(&d).unwrap();
    assert_eq!(s.total_cooling_down(), Err(PoolError::DataConsistencyFault));
    assert_eq!(s.total_virtual_staked_lamports(), Err(PoolError::DataConsistencyFault));
}

#[test]
fn marinade_tickets_above_control_give_zero() {
    let mut d = marinade_state_bytes();
    put_u64(&mut d, 528, 1_000_000);
    let s = decode_marinade_state(&d).unwrap();
    assert_eq!(s.total_virtual_staked_lamports(), Ok(0));
}

#[test]
fn marinade_list_reads_records() {
    let list = List {
        account: Address::new(key(3)),
        item_size: 60,
        count: 2,
        new_account: Address::new(key(0)),
        copied_count: 0,
    };
    let mut data = vec![0u8; 8 + 120];
    data[68..100].copy_from_slice(&key(44));
    put_u64(&mut data, 100, 5_000);
    put_u64(&mut data, 108, 12);
    data[116] = 1;
    let r = list.get(&data, 1).unwrap();
    assert_eq!(r.stake_account.bytes, key(44));
    assert_eq!(r.last_update_delegated_lamports, 5_000);
    assert_eq!(r.last_update_epoch, 12);
    assert_eq!(r.is_emergency_unstaking, 1);
    assert_eq!(list.get(&data[..127], 1).unwrap_err(), PoolError::MalformedLayout);
    let small = List { item_size: 56, ..list };
    assert_eq!(small.get(&data, 0).unwrap_err(), PoolError::MalformedLayout);
}

pub fn stake_account_bytes(tag: u32, rent: u64, voter: u8, stake: u64, activation: u64, deactivation: u64) -> Vec<u8> {
    let mut d = vec![0u8; 200];
    put_u32(&mut d, 0, tag);
    put_u64(&mut d, 4, rent);
    d[124..156].copy_from_slice(&key(voter));
    put_u64(&mut d, 156, stake);
    put_u64(&mut d, 164, activation);
    put_u64(&mut d, 172, deactivation);
    d
}

#[test]
fn stake_account_states_decode() {
    let d = stake_account_bytes(2, 2_282_880, 7, 1_000, 3, u64::MAX);
    let s = decode_delegated_stake(&d).unwrap();
    assert_eq!(s.rent_exempt_reserve, 2_282_880);
    assert_eq!(s.voter.bytes, key(7));
    assert_eq!(s.stake, 1_000);
    assert_eq!(s.activation_epoch, 3);
    assert_eq!(s.deactivation_epoch, u64::MAX);
    assert_eq!(decode_delegated_stake(&d[..195]).unwrap_err(), PoolError::MalformedLayout);
    assert_eq!(decode_initialized_reserve(&d).unwrap_err(), PoolError::MalformedLayout);
    let r = stake_account_bytes(1, 2_282_880, 0, 0, 0, 0);
    assert_eq!(decode_initialized_reserve(&r[..124]), Ok(2_282_880));
    assert_eq!(decode_delegated_stake(&r).unwrap_err(), PoolError::MalformedLayout);
}
