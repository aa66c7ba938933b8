use stake_pool_tools::error::PoolError;
use stake_pool_tools::providers::stake_accounts::{active_split, transient_split};
use stake_pool_tools::vendors::stake::{decode_delegated_stake, AccountData};

fn stake_account(lamports: u64, rent: u64, stake: u64, activation: u64, deactivation: u64) -> Option<AccountData> {
    let mut d = vec![0u8; 200];
    d[0..4].copy_from_slice(&2u32.to_le_bytes());
    d[4..12].copy_from_slice(&rent.to_le_bytes());
    d[124..156].copy_from_slice(&[9u8; 32]);
    d[156..164].copy_from_slice(&stake.to_le_bytes());
    d[164..172].copy_from_slice(&activation.to_le_bytes());
    d[172..180].copy_from_slice(&deactivation.to_le_bytes());
    Some(AccountData { lamports, data: d })
}

#[test]
fn activation_split_follows_the_stake_program() {
    let acct = stake_account(1, 0, 5_000, 10, u64::MAX).unwrap();
    let s = decode_delegated_stake(&acct.data).unwrap();
    assert_eq!(s.activation_at(9), (0, 0, 0));
    assert_eq!(s.activation_at(10), (0, 5_000, 0));
    assert_eq!(s.activation_at(11), (5_000, 0, 0));
    let acct = stake_account(1, 0, 5_000, 10, 12).unwrap();
    let s = decode_delegated_stake(&acct.data).unwrap();
    assert_eq!(s.activation_at(12), (5_000, 0, 5_000));
    assert_eq!(s.activation_at(13), (0, 0, 0));
    let acct = stake_account(1, 0, 5_000, u64::MAX, u64::MAX).unwrap();
    let s = decode_delegated_stake(&acct.data).unwrap();
    assert_eq!(s.activation_at(0), (5_000, 0, 0));
}

#[test]
fn active_account_of_active_validator() {
    let a = stake_account(10_000, 2_000, 7_000, 3, u64::MAX);
    assert_eq!(active_split(&a, true, 20), Ok((7_000, 1_000)));
    assert_eq!(active_split(&a, false, 20), Ok((0, 0)));
}

#[test]
fn active_account_counts_only_effective_stake() {
    let a = stake_account(10_000, 2_000, 7_000, 20, u64::MAX);
    assert_eq!(active_split(&a, true, 20), Ok((0, 8_000)));
}

#[test]
fn active_account_absent_or_empty_contributes_nothing() {
    assert_eq!(active_split(&None, true, 20), Ok((0, 0)));
    let empty = Some(AccountData { lamports: 0, data: vec![1, 2, 3] });
    assert_eq!(active_split(&empty, true, 20), Ok((0, 0)));
    let no_data = Some(AccountData { lamports: 5, data: vec![] });
    assert_eq!(active_split(&no_data, true, 20), Ok((0, 0)));
}

#[test]
fn active_account_short_of_its_stake_is_inconsistent() {
    let a = stake_account(8_000, 2_000, 7_000, 3, u64::MAX);
    assert_eq!(active_split(&a, true, 20), Err(PoolError::DataConsistencyFault));
}

#[test]
fn active_account_not_delegated_is_malformed() {
    let mut a = stake_account(8_000, 2_000, 7_000, 3, u64::MAX).unwrap();
    a.data[0] = 1;
    assert_eq!(active_split(&Some(a), false, 20), Err(PoolError::MalformedLayout));
}

#[test]
fn transient_account_activating() {
    let t = stake_account(9_000, 1_000, 4_000, 20, u64::MAX);
    assert_eq!(transient_split(&t, 20), Ok((5_000, 0)));
}

#[test]
fn transient_account_deactivating() {
    let t = stake_account(9_000, 1_000, 4_000, 5, 20);
    assert_eq!(transient_split(&t, 21), Ok((0, 5_000)));
}

#[test]
fn transient_account_with_both_markers_is_a_consistency_fault() {
    let t = stake_account(9_000, 1_000, 4_000, 5, 30);
    assert_eq!(transient_split(&t, 20), Err(PoolError::DataConsistencyFault));
}

#[test]
fn transient_account_with_neither_marker_is_a_consistency_fault() {
    let t = stake_account(9_000, 1_000, 4_000, 25, u64::MAX);
    assert_eq!(transient_split(&t, 20), Err(PoolError::DataConsistencyFault));
}

#[test]
fn transient_amount_saturates() {
    let t = stake_account(9_000, u64::MAX, 4_000, 5, u64::MAX);
    assert_eq!(transient_split(&t, 20), Ok((u64::MAX, 0)));
}
