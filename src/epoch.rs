//! Epoch boundaries of the ledger and the search for an epoch's wall-clock
//! duration from block times.
use vstd::arithmetic::power2::pow2;
use vstd::prelude::*;

verus! {

/// How the ledger divides slots into epochs.
#[derive(Clone, Copy, Debug)]
pub struct EpochSchedule {
    pub slots_per_epoch: u64,
    pub leader_schedule_slot_offset: u64,
    pub warmup: bool,
    pub first_normal_epoch: u64,
    pub first_normal_slot: u64,
}

/// Slots of the shortest warm-up epoch.
pub const MINIMUM_SLOTS_PER_EPOCH: u64 = 32;

pub open spec fn sat_add(a: u64, b: u64) -> u64 {
    if a + b > u64::MAX {
        u64::MAX
    } else {
        (a + b) as u64
    }
}

pub open spec fn sat_sub(a: u64, b: u64) -> u64 {
    if a < b {
        0
    } else {
        (a - b) as u64
    }
}

pub open spec fn sat_mul(a: u64, b: u64) -> u64 {
    if a * b > u64::MAX {
        u64::MAX
    } else {
        (a * b) as u64
    }
}

/// `2^e`, capped at the largest `u64`.
pub open spec fn sat_pow2(e: u32) -> u64 {
    if e >= 64 {
        u64::MAX
    } else {
        pow2(e as nat) as u64
    }
}

/// `a + b` on `u32`, capped.
pub open spec fn sat_add_u32(a: u32, b: u32) -> u32 {
    if a + b > u32::MAX {
        u32::MAX
    } else {
        (a + b) as u32
    }
}

/// The first slot of `epoch`: warm-up epochs double from the shortest
/// length, later ones have the normal length.
pub open spec fn spec_first_slot(s: EpochSchedule, epoch: u64) -> u64 {
    if epoch <= s.first_normal_epoch {
        sat_mul(sat_sub(sat_pow2(epoch as u32), 1), MINIMUM_SLOTS_PER_EPOCH)
    } else {
        sat_add(sat_mul(sat_sub(epoch, s.first_normal_epoch), s.slots_per_epoch), s.first_normal_slot)
    }
}

/// How many slots `epoch` has.
pub open spec fn spec_slots_in_epoch(s: EpochSchedule, epoch: u64) -> u64 {
    if epoch < s.first_normal_epoch {
        sat_pow2(sat_add_u32(epoch as u32, 5))
    } else {
        s.slots_per_epoch
    }
}

/// The last slot of `epoch`.
pub open spec fn spec_last_slot(s: EpochSchedule, epoch: u64) -> u64 {
    sat_sub(sat_add(spec_first_slot(s, epoch), spec_slots_in_epoch(s, epoch)), 1)
}

/// Relies on solana_program's `EpochSchedule::get_first_slot_in_epoch`.
#[verifier::external_body]
fn first_slot_in_epoch(s: &EpochSchedule, epoch: u64) -> (r: u64)
    ensures
        r == spec_first_slot(*s, epoch),
{
    solana_program::epoch_schedule::EpochSchedule {
        slots_per_epoch: s.slots_per_epoch,
        leader_schedule_slot_offset: s.leader_schedule_slot_offset,
        warmup: s.warmup,
        first_normal_epoch: s.first_normal_epoch,
        first_normal_slot: s.first_normal_slot,
    }.get_first_slot_in_epoch(epoch)
}

/// Relies on solana_program's `EpochSchedule::get_last_slot_in_epoch`.
#[verifier::external_body]
fn last_slot_in_epoch(s: &EpochSchedule, epoch: u64) -> (r: u64)
    ensures
        r == spec_last_slot(*s, epoch),
{
    solana_program::epoch_schedule::EpochSchedule {
        slots_per_epoch: s.slots_per_epoch,
        leader_schedule_slot_offset: s.leader_schedule_slot_offset,
        warmup: s.warmup,
        first_normal_epoch: s.first_normal_epoch,
        first_normal_slot: s.first_normal_slot,
    }.get_last_slot_in_epoch(epoch)
}

/// What the duration search asks for next.
#[derive(Clone, Copy, Debug, PartialEq, Eq, Structural)]
pub enum DurationStep {
    /// Fetch the block time of this slot; a slot without a block yields
    /// none.
    FetchBlockTime(u64),
    /// The search is over: the duration in seconds, or none when the
    /// times found run backwards or the slots run out.
    Finished(Option<u64>),
}

/// Seconds from `start` to `end`, when that is not negative.
pub open spec fn spec_duration(end: i64, start: i64) -> Option<u64> {
    if end >= start {
        Some((end - start) as u64)
    } else {
        None
    }
}

/// The search for the times of the first and last blocks of the epoch
/// before a target epoch: from the last slot on until a slot has a block,
/// then likewise from the first slot.
#[derive(Clone, Copy, Debug)]
pub struct EpochDurationSearch {
    pub end_slot: u64,
    pub end_time: Option<i64>,
    pub start_slot: u64,
}

impl EpochDurationSearch {
    /// Starts the search for the epoch before `epoch`.
    pub fn new(schedule: &EpochSchedule, epoch: u64) -> (r: EpochDurationSearch)
        requires
            epoch >= 1,
        ensures
            r.end_slot == spec_last_slot(*schedule, (epoch - 1) as u64),
            r.start_slot == spec_first_slot(*schedule, (epoch - 1) as u64),
            r.end_time is None,
    {
        EpochDurationSearch {
            end_slot: last_slot_in_epoch(schedule, epoch - 1),
            end_time: None,
            start_slot: first_slot_in_epoch(schedule, epoch - 1),
        }
    }

    /// The slot whose block time the search needs now.
    pub fn next_step(&self) -> (r: DurationStep)
        ensures
            r == (match self.end_time {
                None => DurationStep::FetchBlockTime(self.end_slot),
                Some(_) => DurationStep::FetchBlockTime(self.start_slot),
            }),
    {
        match self.end_time {
            None => DurationStep::FetchBlockTime(self.end_slot),
            Some(_) => DurationStep::FetchBlockTime(self.start_slot),
        }
    }

    /// Takes the block time of the slot last asked for, or none where that
    /// slot has no block, and says what to do next.
    pub fn on_block_time(&mut self, time: Option<i64>) -> (r: DurationStep)
        ensures
            match old(self).end_time {
                None => match time {
                    Some(t) => *final(self) == (EpochDurationSearch { end_time: Some(t), ..*old(self) })
                        && r == DurationStep::FetchBlockTime(old(self).start_slot),
                    None => if old(self).end_slot == u64::MAX {
                        *final(self) == *old(self) && r == DurationStep::Finished(None)
                    } else {
                        *final(self) == (EpochDurationSearch { end_slot: (old(self).end_slot + 1) as u64, ..*old(self) })
                            && r == DurationStep::FetchBlockTime((old(self).end_slot + 1) as u64)
                    },
                },
                Some(end) => match time {
                    Some(t) => *final(self) == *old(self) && r == DurationStep::Finished(
                        spec_duration(end, t),
                    ),
                    None => if old(self).start_slot == u64::MAX {
                        *final(self) == *old(self) && r == DurationStep::Finished(None)
                    } else {
                        *final(self) == (EpochDurationSearch { start_slot: (old(self).start_slot + 1) as u64, ..*old(self) })
                            && r == DurationStep::FetchBlockTime((old(self).start_slot + 1) as u64)
                    },
                },
            },
    {
        match self.end_time {
            None => match time {
                Some(t) => {
                    self.end_time = Some(t);
                    DurationStep::FetchBlockTime(self.start_slot)
                },
                None => {
                    if self.end_slot == u64::MAX {
                        return DurationStep::Finished(None);
                    }
                    self.end_slot = self.end_slot + 1;
                    DurationStep::FetchBlockTime(self.end_slot)
                },
            },
            Some(end) => match time {
                Some(t) => {
                    if end >= t {
                        let d = end as i128 - t as i128;
                        DurationStep::Finished(Some(d as u64))
                    } else {
                        DurationStep::Finished(None)
                    }
                },
                None => {
                    if self.start_slot == u64::MAX {
                        return DurationStep::Finished(None);
                    }
                    self.start_slot = self.start_slot + 1;
                    DurationStep::FetchBlockTime(self.start_slot)
                },
            },
        }
    }
}

} // verus!
