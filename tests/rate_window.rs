use echo_load::rate::{RateAction, RateAggregator, RateEvent, REPORT_INTERVAL_NANOS};

fn sample(count: usize, now_nanos: u64) -> RateEvent {
    RateEvent::Sample { count, now_nanos }
}

#[test]
fn samples_within_window_accumulate() {
    let mut a = RateAggregator::new(0);
    assert_eq!(a.on_event(sample(100, 10)), RateAction::Continue);
    assert_eq!(a.on_event(sample(23, 500_000_000)), RateAction::Continue);
    assert_eq!(a.total(), 123);
}

#[test]
fn report_is_floor_of_total_over_message_length() {
    let mut a = RateAggregator::new(0);
    assert_eq!(a.on_event(sample(16, 1)), RateAction::Continue);
    assert_eq!(a.on_event(sample(30, 2)), RateAction::Continue);
    // 16 + 30 + 33 = 79 bytes, 79 / 8 = 9 messages
    assert_eq!(a.on_event(sample(33, REPORT_INTERVAL_NANOS + 1)), RateAction::Report(9));
    assert_eq!(a.total(), 0);
}

#[test]
fn exactly_one_second_is_not_yet_due() {
    let mut a = RateAggregator::new(1_000);
    assert_eq!(a.on_event(sample(80, 1_000 + REPORT_INTERVAL_NANOS)), RateAction::Continue);
    assert_eq!(a.on_event(sample(0, 1_001 + REPORT_INTERVAL_NANOS)), RateAction::Report(10));
}

#[test]
fn new_window_starts_at_report_time() {
    let mut a = RateAggregator::new(0);
    let t1 = REPORT_INTERVAL_NANOS + 5;
    assert_eq!(a.on_event(sample(8, t1)), RateAction::Report(1));
    assert_eq!(a.on_event(sample(64, t1 + REPORT_INTERVAL_NANOS)), RateAction::Continue);
    assert_eq!(a.on_event(sample(0, t1 + REPORT_INTERVAL_NANOS + 1)), RateAction::Report(8));
}

#[test]
fn sparse_samples_report_whatever_accumulated() {
    let mut a = RateAggregator::new(0);
    assert_eq!(a.on_event(sample(40, 5 * REPORT_INTERVAL_NANOS)), RateAction::Report(5));
}

#[test]
fn clock_before_last_report_counts_as_no_time() {
    let mut a = RateAggregator::new(2 * REPORT_INTERVAL_NANOS);
    assert_eq!(a.on_event(sample(8, 0)), RateAction::Continue);
    assert_eq!(a.total(), 8);
}

#[test]
fn fan_in_from_many_connections_sums() {
    let mut a = RateAggregator::new(0);
    let per_connection: [usize; 3] = [24, 40, 56];
    for round in 0..4u64 {
        for (k, bytes) in per_connection.iter().enumerate() {
            assert_eq!(a.on_event(sample(*bytes, round * 1000 + k as u64)), RateAction::Continue);
        }
    }
    assert_eq!(a.total(), 4 * (24 + 40 + 56));
    assert_eq!(a.on_event(sample(0, REPORT_INTERVAL_NANOS + 1)), RateAction::Report(60));
}

#[test]
fn closed_queue_stops_the_aggregator() {
    let mut a = RateAggregator::new(0);
    assert_eq!(a.on_event(sample(8, 1)), RateAction::Continue);
    assert_eq!(a.on_event(RateEvent::Closed), RateAction::Stop);
    assert_eq!(a.total(), 8);
}
