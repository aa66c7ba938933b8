use solana_program::epoch_schedule::EpochSchedule as LedgerSchedule;
use stake_pool_tools::epoch::{DurationStep, EpochDurationSearch, EpochSchedule};

fn schedule(warmup: bool) -> EpochSchedule {
    let s = LedgerSchedule::custom(432_000, 432_000, warmup);
    EpochSchedule {
        slots_per_epoch: s.slots_per_epoch,
        leader_schedule_slot_offset: s.leader_schedule_slot_offset,
        warmup: s.warmup,
        first_normal_epoch: s.first_normal_epoch,
        first_normal_slot: s.first_normal_slot,
    }
}

#[test]
fn search_starts_at_previous_epoch_bounds() {
    let s = EpochDurationSearch::new(&schedule(false), 600);
    assert_eq!(s.end_slot, 600 * 432_000 - 1);
    assert_eq!(s.start_slot, 599 * 432_000);
    assert_eq!(s.next_step(), DurationStep::FetchBlockTime(600 * 432_000 - 1));
}

#[test]
fn search_bounds_during_warmup() {
    let sched = schedule(true);
    let ledger = LedgerSchedule::custom(432_000, 432_000, true);
    let s = EpochDurationSearch::new(&sched, 3);
    assert_eq!(s.start_slot, ledger.get_first_slot_in_epoch(2));
    assert_eq!(s.end_slot, ledger.get_last_slot_in_epoch(2));
    assert_eq!(s.start_slot, 96);
    assert_eq!(s.end_slot, 223);
}

#[test]
fn search_skips_slots_without_blocks() {
    let mut s = EpochDurationSearch::new(&schedule(false), 2);
    assert_eq!(s.on_block_time(None), DurationStep::FetchBlockTime(864_000));
    assert_eq!(s.on_block_time(Some(1_000_500)), DurationStep::FetchBlockTime(432_000));
    assert_eq!(s.on_block_time(None), DurationStep::FetchBlockTime(432_001));
    assert_eq!(s.on_block_time(Some(1_000_000)), DurationStep::Finished(Some(500)));
}

#[test]
fn search_with_backwards_times_fails() {
    let mut s = EpochDurationSearch::new(&schedule(false), 2);
    s.on_block_time(Some(10));
    assert_eq!(s.on_block_time(Some(11)), DurationStep::Finished(None));
}
