use solana_program::pubkey::Pubkey;
use stake_pool_tools::address::Address;
use stake_pool_tools::vendors::marinade::{marinade_program_id, marinade_state_address, MarinadeState};
use stake_pool_tools::vendors::socean::{self, socean_program_id};
use stake_pool_tools::vendors::spl::{
    find_stake_program_address, find_transient_stake_program_address, stake_pool_program_id,
};

#[test]
fn program_ids_print_as_base58() {
    assert_eq!(stake_pool_program_id().to_text(), "SPoo1Ku8WFXoNDMHPsrGSTSG1Y47rzgn41SLUNakuHy");
    assert_eq!(socean_program_id().to_text(), "5ocnV1qiCgaQR8Jb8xWnVbApfaygJ8tNoZfgPwsgx9kx");
    assert_eq!(marinade_program_id().to_text(), "MarBmsSgKXdrN1egZf5sqe1TMai9K1rChYNDJgjq7aD");
    assert_eq!(marinade_state_address().to_text(), "8szGkuLTAux9XMgZ2vtY39jVSowEcpBfFfD8hXSEqdGC");
}

#[test]
fn spl_stake_addresses_match_program_derivation() {
    let program = stake_pool_program_id();
    let vote = Address::new([3u8; 32]);
    let pool = Address::new([4u8; 32]);
    let pid = Pubkey::new_from_array(program.bytes);
    let (expected, _) = Pubkey::find_program_address(&[&[3u8; 32], &[4u8; 32]], &pid);
    let got = find_stake_program_address(&program, &vote, &pool, 0).unwrap();
    assert_eq!(got.bytes, expected.to_bytes());
    assert_ne!(got.bytes, vote.bytes);
    let (seeded, _) = Pubkey::find_program_address(&[&[3u8; 32], &[4u8; 32], &7u32.to_le_bytes()], &pid);
    assert_eq!(find_stake_program_address(&program, &vote, &pool, 7).unwrap().bytes, seeded.to_bytes());
    let (transient, _) = Pubkey::find_program_address(
        &[b"transient", &[3u8; 32], &[4u8; 32], &9u64.to_le_bytes()],
        &pid,
    );
    assert_eq!(find_transient_stake_program_address(&program, &vote, &pool, 9).unwrap().bytes, transient.to_bytes());
}

#[test]
fn socean_and_marinade_addresses_match_program_derivation() {
    let program = socean_program_id();
    let vote = Address::new([5u8; 32]);
    let pool = Address::new([6u8; 32]);
    let pid = Pubkey::new_from_array(program.bytes);
    let (active, _) = Pubkey::find_program_address(&[&[5u8; 32], &[6u8; 32]], &pid);
    assert_eq!(socean::find_stake_program_address(&program, &vote, &pool).unwrap().bytes, active.to_bytes());
    let (transient, _) = Pubkey::find_program_address(&[b"transient", &[5u8; 32], &[6u8; 32]], &pid);
    assert_eq!(socean::find_transient_stake_program_address(&program, &vote, &pool).unwrap().bytes, transient.to_bytes());
    let state = marinade_state_address();
    let mid = Pubkey::new_from_array(marinade_program_id().bytes);
    let (reserve, _) = Pubkey::find_program_address(&[&state.bytes, b"reserve"], &mid);
    assert_eq!(MarinadeState::find_reserve_address(&state).unwrap().bytes, reserve.to_bytes());
}

#[test]
fn addresses_compare_by_bytes() {
    assert!(Address::new([1u8; 32]) == Address::new([1u8; 32]));
    let mut b = [1u8; 32];
    b[31] = 2;
    assert!(Address::new([1u8; 32]) != Address::new(b));
    assert_eq!(Address::new(b).to_vec(), b.to_vec());
}
