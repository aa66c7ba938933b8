//! Classification of a pool's stake accounts into active, activating,
//! deactivating and undelegated lamports.
use crate::error::PoolError;
use crate::layout::le_u64;
use crate::vendors::spl::{minimum_reserve_lamports, MINIMUM_RESERVE_LAMPORTS};
use crate::vendors::stake::{
    activation_split, decode_delegated_stake, is_delegated_state, AccountData, EPOCH_UNSET,
};
use vstd::prelude::*;

verus! {

/// Whether the account exists, holds lamports and holds data.
pub open spec fn in_use(a: Option<AccountData>) -> bool {
    a matches Some(x) && x.lamports > 0 && x.data@.len() > 0
}

/// The rent-exempt reserve that stake account data records.
pub open spec fn rent_of(d: Seq<u8>) -> u64 {
    le_u64(d, 4)
}

/// The delegated stake that stake account data records.
pub open spec fn stake_of(d: Seq<u8>) -> u64 {
    le_u64(d, 156)
}

/// The activation epoch that stake account data records.
pub open spec fn activation_of(d: Seq<u8>) -> u64 {
    le_u64(d, 164)
}

/// The deactivation epoch that stake account data records.
pub open spec fn deactivation_of(d: Seq<u8>) -> u64 {
    le_u64(d, 172)
}

/// `a + b`, capped at the largest `u64`.
pub open spec fn saturating_sum(a: u64, b: u64) -> u64 {
    if a + b > u64::MAX {
        u64::MAX
    } else {
        (a + b) as u64
    }
}

/// The lamports a pool keeps in a stake account with rent-exempt reserve
/// `rent`.
pub open spec fn minimum_reserve(rent: u64) -> u64 {
    saturating_sum(rent, MINIMUM_RESERVE_LAMPORTS)
}

/// Active and undelegated lamports of a validator's active stake account:
/// both 0 unless the validator is active in the pool, where the active part
/// is the delegation's effective stake at `epoch` and the rest above the
/// reserve is undelegated.
pub open spec fn spec_active_split(a: Option<AccountData>, validator_active: bool, epoch: u64) -> Result<
    (u64, u64),
    PoolError,
> {
    if !in_use(a) {
        Ok((0, 0))
    } else {
        let x = a->0;
        let d = x.data@;
        if !is_delegated_state(d) {
            Err(PoolError::MalformedLayout)
        } else if !validator_active {
            Ok((0, 0))
        } else {
            let effective = activation_split(stake_of(d), activation_of(d), deactivation_of(d), epoch).0;
            let reserve = minimum_reserve(rent_of(d));
            if x.lamports < effective + reserve {
                Err(PoolError::DataConsistencyFault)
            } else {
                Ok((effective, (x.lamports - effective - reserve) as u64))
            }
        }
    }
}

/// Whether a transient delegation counts as activating at `epoch`.
pub open spec fn is_activating(d: Seq<u8>, epoch: u64) -> bool {
    epoch >= activation_of(d) && deactivation_of(d) == EPOCH_UNSET
}

/// Whether a transient delegation counts as deactivating at `epoch`.
pub open spec fn is_deactivating(d: Seq<u8>, epoch: u64) -> bool {
    epoch >= deactivation_of(d) && deactivation_of(d) != EPOCH_UNSET
}

/// Activating and deactivating lamports of a validator's transient stake
/// account: its reserve and stake, on the side that its markers name; a
/// delegation that is both or neither is inconsistent.
pub open spec fn spec_transient_split(a: Option<AccountData>, epoch: u64) -> Result<(u64, u64), PoolError> {
    if !in_use(a) {
        Ok((0, 0))
    } else {
        let d = a->0.data@;
        if !is_delegated_state(d) {
            Err(PoolError::MalformedLayout)
        } else if is_activating(d, epoch) == is_deactivating(d, epoch) {
            Err(PoolError::DataConsistencyFault)
        } else if is_activating(d, epoch) {
            Ok((saturating_sum(rent_of(d), stake_of(d)), 0))
        } else {
            Ok((0, saturating_sum(rent_of(d), stake_of(d))))
        }
    }
}

/// The two stake accounts that a pool may hold for one validator, as
/// fetched from the ledger.
#[derive(Clone, Debug)]
pub struct ValidatorAccounts {
    pub active: Option<AccountData>,
    pub transient: Option<AccountData>,
}

fn account_in_use(a: &Option<AccountData>) -> (r: bool)
    ensures
        r == in_use(*a),
{
    match a {
        Some(x) => x.lamports > 0 && x.data.len() > 0,
        None => false,
    }
}

/// Active and undelegated lamports of a validator's active stake account.
pub fn active_split(a: &Option<AccountData>, validator_active: bool, epoch: u64) -> (r: Result<
    (u64, u64),
    PoolError,
>)
    ensures
        r == spec_active_split(*a, validator_active, epoch),
{
    if !account_in_use(a) {
        return Ok((0, 0));
    }
    let x = match a {
        Some(x) => x,
        None => return Ok((0, 0)),
    };
    let s = decode_delegated_stake(x.data.as_slice())?;
    if !validator_active {
        return Ok((0, 0));
    }
    let (effective, _, _) = s.activation_at(epoch);
    let reserve = minimum_reserve_lamports(s.rent_exempt_reserve);
    if x.lamports < effective || x.lamports - effective < reserve {
        return Err(PoolError::DataConsistencyFault);
    }
    Ok((effective, x.lamports - effective - reserve))
}

/// Activating and deactivating lamports of a validator's transient stake
/// account.
pub fn transient_split(a: &Option<AccountData>, epoch: u64) -> (r: Result<(u64, u64), PoolError>)
    ensures
        r == spec_transient_split(*a, epoch),
{
    if !account_in_use(a) {
        return Ok((0, 0));
    }
    let x = match a {
        Some(x) => x,
        None => return Ok((0, 0)),
    };
    let s = decode_delegated_stake(x.data.as_slice())?;
    let activating = epoch >= s.activation_epoch && s.deactivation_epoch == EPOCH_UNSET;
    let deactivating = epoch >= s.deactivation_epoch && s.deactivation_epoch != EPOCH_UNSET;
    if activating == deactivating {
        return Err(PoolError::DataConsistencyFault);
    }
    let amount = s.rent_exempt_reserve.saturating_add(s.stake);
    if activating {
        Ok((amount, 0))
    } else {
        Ok((0, amount))
    }
}

} // verus!
