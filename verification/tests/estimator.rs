use midi_sync::sync::{MidiSync, SyncClock};
use midi_sync::time::{Duration, Timestamp, MAX_GAP};

type Sync = MidiSync<1000, 8>;

fn at(ticks: u64) -> Timestamp<1000> {
    Timestamp::from_ticks(ticks)
}

fn ticks(d: Option<Duration<1000>>) -> Option<u64> {
    d.map(|d| d.ticks())
}

fn state(sync: &Sync) -> (Option<u64>, Option<u64>) {
    (sync.previous_pulse().map(|t| t.ticks()), ticks(sync.pulse_duration()))
}

#[test]
fn new_estimator_is_empty() {
    let sync = Sync::new();
    assert_eq!(state(&sync), (None, None));
    assert_eq!(sync.beat_duration(), None);
    assert_eq!(sync.pulses_per_quarter_note(), 24);
}

#[test]
fn periodic_train_reports_exact_period() {
    let mut sync = Sync::new();
    assert_eq!(ticks(sync.add_sample(at(0))), None);
    assert_eq!(ticks(sync.add_sample(at(1000))), None);
    assert_eq!(ticks(sync.add_sample(at(2000))), Some(1000));
    assert_eq!(ticks(sync.add_sample(at(3000))), Some(1000));
    assert_eq!(ticks(sync.add_sample(at(4000))), Some(1000));
    assert_eq!(state(&sync), (Some(4000), Some(1000)));
}

#[test]
fn periodic_train_stays_exact_for_ten_pulses() {
    let mut sync = Sync::new();
    for i in 0..10u64 {
        let estimate = ticks(sync.add_sample(at(17 + i * 333)));
        if i < 2 {
            assert_eq!(estimate, None);
        } else {
            assert_eq!(estimate, Some(333));
        }
    }
}

#[test]
fn cold_start_takes_three_pulses() {
    let mut sync = Sync::new();
    assert_eq!(sync.add_sample(at(5)), None);
    assert_eq!(state(&sync), (Some(5), None));
    assert_eq!(sync.add_sample(at(25)), None);
    assert_eq!(state(&sync), (Some(25), Some(20)));
    assert_eq!(ticks(sync.add_sample(at(55))), Some(25));
    assert_eq!(state(&sync), (Some(55), Some(25)));
    assert_eq!(ticks(sync.add_sample(at(60))), Some(15));
}

#[test]
fn earlier_sample_changes_nothing() {
    let mut sync = Sync::new();
    sync.add_sample(at(1000));
    sync.add_sample(at(2000));
    sync.add_sample(at(3000));
    let before = state(&sync);
    assert_eq!(sync.add_sample(at(2999)), None);
    assert_eq!(state(&sync), before);
    assert_eq!(sync.add_sample(at(0)), None);
    assert_eq!(state(&sync), before);
    assert_eq!(before, (Some(3000), Some(1000)));
}

#[test]
fn earlier_sample_before_any_estimate_changes_nothing() {
    let mut sync = Sync::new();
    sync.add_sample(at(1000));
    assert_eq!(sync.add_sample(at(999)), None);
    assert_eq!(state(&sync), (Some(1000), None));
}

#[test]
fn sample_after_a_refused_one_is_measured_from_the_old_reference() {
    let mut sync = Sync::new();
    sync.add_sample(at(1000));
    sync.add_sample(at(2000));
    assert_eq!(sync.add_sample(at(1500)), None);
    assert_eq!(ticks(sync.add_sample(at(2600))), Some(800));
    assert_eq!(state(&sync), (Some(2600), Some(800)));
}

#[test]
fn wrapped_counter_is_not_taken_for_a_later_time() {
    let mut sync = Sync::new();
    sync.add_sample(at(u64::MAX - 1));
    sync.add_sample(at(u64::MAX));
    assert_eq!(sync.add_sample(at(0)), None);
    assert_eq!(state(&sync), (Some(u64::MAX), Some(1)));
}

#[test]
fn gap_beyond_half_the_range_is_refused() {
    let mut sync = Sync::new();
    sync.add_sample(at(0));
    assert_eq!(sync.add_sample(at(MAX_GAP + 1)), None);
    assert_eq!(state(&sync), (Some(0), None));
    assert_eq!(sync.add_sample(at(MAX_GAP)), None);
    assert_eq!(state(&sync), (Some(MAX_GAP), Some(MAX_GAP)));
    assert_eq!(ticks(sync.add_sample(at(u64::MAX - 1))), Some(MAX_GAP));
}

#[test]
fn repeated_timestamp_gives_zero_interval() {
    let mut sync = Sync::new();
    sync.add_sample(at(7));
    assert_eq!(sync.add_sample(at(7)), None);
    assert_eq!(state(&sync), (Some(7), Some(0)));
    assert_eq!(ticks(sync.add_sample(at(7))), Some(0));
}

#[test]
fn smoothing_is_the_mean_rounded_down() {
    let mut sync = Sync::new();
    sync.add_sample(at(0));
    sync.add_sample(at(1000));
    assert_eq!(ticks(sync.add_sample(at(1501))), Some(750));
    assert_eq!(ticks(sync.add_sample(at(1502))), Some(375));
    assert_eq!(ticks(sync.add_sample(at(1502))), Some(187));
}

#[test]
fn estimate_approaches_a_new_period() {
    let mut sync = Sync::new();
    sync.add_sample(at(0));
    sync.add_sample(at(2000));
    let mut now = 2000u64;
    let mut distance = 1000u64;
    for _ in 0..10 {
        now += 1000;
        let estimate = sync.add_sample(at(now)).unwrap().ticks();
        let next = estimate.abs_diff(1000);
        assert!(next <= distance);
        assert!(2 * next <= distance + 1);
        distance = next;
    }
    assert_eq!(distance, 0);
}

#[test]
fn estimate_from_below_stays_within_one_tick() {
    let mut sync = Sync::new();
    sync.add_sample(at(0));
    sync.add_sample(at(10));
    let mut now = 10u64;
    let mut last = 0u64;
    for _ in 0..10 {
        now += 1000;
        last = sync.add_sample(at(now)).unwrap().ticks();
    }
    assert_eq!(last, 999);
}

#[test]
fn estimate_is_the_period_held() {
    let mut sync = Sync::new();
    sync.add_sample(at(0));
    sync.add_sample(at(100));
    let reported = sync.add_sample(at(300));
    assert_eq!(reported, sync.pulse_duration());
    assert_eq!(ticks(reported), Some(150));
}

#[test]
fn duration_since_is_the_difference() {
    assert_eq!(ticks(at(3000).checked_duration_since(at(1000))), Some(2000));
    assert_eq!(ticks(at(1000).checked_duration_since(at(1000))), Some(0));
    assert_eq!(at(1000).checked_duration_since(at(3000)), None);
    assert_eq!(at(0).checked_duration_since(at(u64::MAX)), None);
    assert_eq!(ticks(at(u64::MAX).checked_duration_since(at(u64::MAX - MAX_GAP))), Some(MAX_GAP));
    assert_eq!(at(u64::MAX).checked_duration_since(at(0)), None);
}

#[test]
fn duration_sum_is_checked() {
    let one = Duration::<1000>::from_ticks(1);
    let two = Duration::<1000>::from_ticks(2);
    let most = Duration::<1000>::from_ticks(u64::MAX);
    assert_eq!(ticks(one.checked_add(two)), Some(3));
    assert_eq!(ticks(most.checked_add(Duration::from_ticks(0))), Some(u64::MAX));
    assert_eq!(one.checked_add(most), None);
}

#[test]
fn duration_division_rounds_down() {
    assert_eq!(Duration::<1000>::from_ticks(7).div(2).ticks(), 3);
    assert_eq!(Duration::<1000>::from_ticks(9).div(3).ticks(), 3);
    assert_eq!(Duration::<1000>::from_ticks(u64::MAX).div(1).ticks(), u64::MAX);
}
