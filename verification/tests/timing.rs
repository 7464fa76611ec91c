use playground::util::timing::Clock;
use playground::util::timing::ExecutionRecord;
use playground::util::timing::Timestamp;
use playground::util::timing::NANOS_PER_MILLI;

fn record(start: u128, end: u128) -> ExecutionRecord {
    ExecutionRecord { start: Timestamp { nanos: start }, end: Timestamp { nanos: end } }
}

#[test]
fn elapsed_is_the_difference_in_whole_millis() {
    assert_eq!(record(0, 50_000_000).elapsed_millis(), 50);
    assert_eq!(record(1_000, 50_001_000).elapsed_millis(), 50);
    assert_eq!(record(7_000_000, 12_000_000).elapsed_millis(), 5);
}

#[test]
fn elapsed_drops_what_is_left_of_a_milli() {
    assert_eq!(record(0, 999_999).elapsed_millis(), 0);
    assert_eq!(record(0, 1_000_000).elapsed_millis(), 1);
    assert_eq!(record(0, 1_999_999).elapsed_millis(), 1);
    assert_eq!(record(1_000, 50_999_999).elapsed_millis(), 50);
}

#[test]
fn elapsed_of_no_time_is_zero() {
    assert_eq!(record(0, 0).elapsed_millis(), 0);
    assert_eq!(record(123, 123).elapsed_millis(), 0);
}

#[test]
fn elapsed_is_zero_where_the_end_is_before_the_start() {
    assert_eq!(record(5_000_000, 1_000_000).elapsed_millis(), 0);
    assert_eq!(record(u128::MAX, 0).elapsed_millis(), 0);
}

#[test]
fn elapsed_holds_the_longest_run() {
    assert_eq!(record(0, u128::MAX).elapsed_millis(), u128::MAX / 1_000_000);
}

#[test]
fn elapsed_never_shrinks_when_the_end_is_later() {
    let mut last = 0;
    for end in [0u128, 1, 999_999, 1_000_000, 1_000_001, 5_000_000, 5_999_999, 6_000_000] {
        let elapsed = record(0, end).elapsed_millis();
        assert!(last <= elapsed);
        last = elapsed;
    }
}

#[test]
fn a_milli_is_a_million_nanos() {
    assert_eq!(NANOS_PER_MILLI, 1_000_000);
}

#[test]
fn clock_readings_do_not_go_back() {
    let clock = Clock::new();
    let mut last = clock.now();
    for _ in 0..1000 {
        let next = clock.now();
        assert!(last.nanos <= next.nanos);
        last = next;
    }
}

#[test]
fn clock_measures_a_spin_of_twenty_millis() {
    let clock = Clock::new();
    let start = clock.now();
    let begin = std::time::Instant::now();
    while begin.elapsed() < std::time::Duration::from_millis(20) {}
    let end = clock.now();
    let elapsed = ExecutionRecord { start, end }.elapsed_millis();
    assert!(elapsed >= 20);
}
