//! Accounts of the native stake program, as far as pool accounting reads them.
use crate::address::Address;
use crate::error::PoolError;
use crate::layout::{key_at, le_u32, le_u64, read_key, read_u32, read_u64};
use vstd::prelude::*;

verus! {

/// Marks a delegation that has not been deactivated, and a bootstrap
/// delegation's activation epoch.
pub const EPOCH_UNSET: u64 = 0xffff_ffff_ffff_ffff;

/// An account as the ledger holds it: its balance and its raw data.
#[derive(Clone, Debug)]
pub struct AccountData {
    pub lamports: u64,
    pub data: Vec<u8>,
}

/// The parts of a delegated stake account that pool accounting reads.
#[derive(Clone, Copy, Debug)]
pub struct DelegatedStake {
    pub rent_exempt_reserve: u64,
    pub voter: Address,
    pub stake: u64,
    pub activation_epoch: u64,
    pub deactivation_epoch: u64,
}

/// Bytes that the initialized state (tag 1) occupies: tag and meta.
pub const INITIALIZED_STATE_LEN: usize = 124;

/// Bytes that the delegated state (tag 2) occupies: tag, meta and stake.
pub const DELEGATED_STATE_LEN: usize = 196;

/// Whether `d` holds a delegated stake state.
pub open spec fn is_delegated_state(d: Seq<u8>) -> bool {
    d.len() >= DELEGATED_STATE_LEN && le_u32(d, 0) == 2
}

/// Whether `d` holds an initialized, undelegated stake state.
pub open spec fn is_initialized_state(d: Seq<u8>) -> bool {
    d.len() >= INITIALIZED_STATE_LEN && le_u32(d, 0) == 1
}

/// The delegated stake that `d` describes, field by field.
pub open spec fn delegated_stake_of(d: Seq<u8>, s: DelegatedStake) -> bool {
    &&& s.rent_exempt_reserve == le_u64(d, 4)
    &&& s.voter@ == key_at(d, 124)
    &&& s.stake == le_u64(d, 156)
    &&& s.activation_epoch == le_u64(d, 164)
    &&& s.deactivation_epoch == le_u64(d, 172)
}

/// Reads a stake account that must be delegated.
pub fn decode_delegated_stake(d: &[u8]) -> (r: Result<DelegatedStake, PoolError>)
    ensures
        r is Ok <==> is_delegated_state(d@),
        r matches Ok(s) ==> delegated_stake_of(d@, s),
        r matches Err(e) ==> e == PoolError::MalformedLayout,
{
    if d.len() < DELEGATED_STATE_LEN || read_u32(d, 0) != 2 {
        return Err(PoolError::MalformedLayout);
    }
    Ok(
        DelegatedStake {
            rent_exempt_reserve: read_u64(d, 4),
            voter: read_key(d, 124),
            stake: read_u64(d, 156),
            activation_epoch: read_u64(d, 164),
            deactivation_epoch: read_u64(d, 172),
        },
    )
}

/// Reads the rent-exempt reserve of a stake account that must be
/// initialized and undelegated.
pub fn decode_initialized_reserve(d: &[u8]) -> (r: Result<u64, PoolError>)
    ensures
        r is Ok <==> is_initialized_state(d@),
        r matches Ok(v) ==> v == le_u64(d@, 4),
        r matches Err(e) ==> e == PoolError::MalformedLayout,
{
    if d.len() < INITIALIZED_STATE_LEN || read_u32(d, 0) != 1 {
        return Err(PoolError::MalformedLayout);
    }
    Ok(read_u64(d, 4))
}

/// Effective and activating stake of a delegation at `target`, when no
/// cluster history is known: warm-up completes within one epoch.
pub open spec fn stake_and_activating(stake: u64, activation: u64, deactivation: u64, target: u64) -> (u64, u64) {
    if activation == EPOCH_UNSET {
        (stake, 0)
    } else if activation == deactivation {
        (0, 0)
    } else if target == activation {
        (0, stake)
    } else if target < activation {
        (0, 0)
    } else {
        (stake, 0)
    }
}

/// Effective, activating and deactivating stake of a delegation at
/// `target`, when no cluster history is known.
pub open spec fn activation_split(stake: u64, activation: u64, deactivation: u64, target: u64) -> (u64, u64, u64) {
    let (effective, activating) = stake_and_activating(stake, activation, deactivation, target);
    if target < deactivation {
        (effective, activating, 0)
    } else if target == deactivation {
        (effective, 0, effective)
    } else {
        (0, 0, 0)
    }
}

/// Relies on solana_program's `Delegation::stake_activating_and_deactivating`
/// with an empty stake history: the effective, activating and deactivating
/// parts of the delegation at `target`.
#[verifier::external_body]
pub(crate) fn stake_activating_and_deactivating(
    stake: u64,
    activation_epoch: u64,
    deactivation_epoch: u64,
    target: u64,
) -> (r: (u64, u64, u64))
    ensures
        r == activation_split(stake, activation_epoch, deactivation_epoch, target),
{
    let mut d = solana_program::stake::state::Delegation::new(
        &solana_program::pubkey::Pubkey::default(),
        stake,
        activation_epoch,
    );
    d.deactivation_epoch = deactivation_epoch;
    let history = solana_program::stake_history::StakeHistory::default();
    let s = d.stake_activating_and_deactivating(target, &history, None);
    (s.effective, s.activating, s.deactivating)
}

impl DelegatedStake {
    /// Effective, activating and deactivating parts of this delegation at
    /// `epoch`.
    pub fn activation_at(&self, epoch: u64) -> (r: (u64, u64, u64))
        ensures
            r == activation_split(self.stake, self.activation_epoch, self.deactivation_epoch, epoch),
    {
        stake_activating_and_deactivating(self.stake, self.activation_epoch, self.deactivation_epoch, epoch)
    }
}

} // verus!
