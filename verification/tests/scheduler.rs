use nordic_pulse::error::ErrorKind;
use nordic_pulse::scheduler::{
    Action, BatchConfig, Event, FlushReason, FlushScheduler, Phase, Step, WriteOutcome,
    DEFAULT_MAX_BATCH_SIZE, DEFAULT_MAX_DELAY_NS, RECONNECT_BACKOFF_NS, TICK_INTERVAL_NS,
};
use nordic_pulse::telemetry::{DeviceType, IoTMessage, Timestamp};

const MS: u64 = 1_000_000;
const SECOND: u64 = 1_000_000_000;

fn reading(n: usize) -> IoTMessage {
    IoTMessage {
        device_id: format!("dev_{:04}", n),
        device_type: DeviceType::for_index(n),
        timestamp: Timestamp { secs: 1_700_000_000 + n as i64, nanos: 0 },
        value_bits: (n as f64 * 0.5).to_bits(),
        unit: DeviceType::for_index(n).unit().to_string(),
        location: "60.1699,24.9384".to_string(),
    }
}

fn idle() -> Step {
    Step { action: Action::Await, fault: None }
}

#[test]
fn defaults_are_a_thousand_records_and_one_second() {
    let config = BatchConfig::default();
    assert_eq!(config.max_batch_size, 1000);
    assert_eq!(config.max_delay_ns, SECOND);
    assert_eq!(DEFAULT_MAX_BATCH_SIZE, 1000);
    assert_eq!(DEFAULT_MAX_DELAY_NS, SECOND);
    assert_eq!(TICK_INTERVAL_NS, 100 * MS);
    assert_eq!(RECONNECT_BACKOFF_NS, SECOND);
}

#[test]
fn new_scheduler_is_empty_and_running() {
    let config = BatchConfig { max_batch_size: 3, max_delay_ns: 7 * SECOND };
    let s = FlushScheduler::new(config, 42);
    assert_eq!(s.pending(), 0);
    assert_eq!(s.phase(), Phase::Running);
    assert_eq!(s.last_flush_ns(), 42);
    assert_eq!(s.config(), config);
}

#[test]
fn thousand_records_in_fifty_ms_flush_once_by_size() {
    let mut s = FlushScheduler::new(BatchConfig::default(), 0);
    let mut flushes = Vec::new();
    for n in 0..1000usize {
        let now = (n as u64) * 50 * MS / 1000;
        let out = s.step(Event::Record(reading(n)), now);
        assert_eq!(out.fault, None);
        match out.action {
            Action::Persist { records, reason } => flushes.push((n, records, reason)),
            Action::Await => {}
            Action::Backoff { .. } => panic!("no connection failure was reported"),
        }
    }
    assert_eq!(flushes.len(), 1);
    let (at, records, reason) = &flushes[0];
    assert_eq!(*at, 999);
    assert_eq!(*reason, FlushReason::Size);
    assert_eq!(records.len(), 1000);
    for (n, record) in records.iter().enumerate() {
        assert_eq!(*record, reading(n));
    }
    assert_eq!(s.pending(), 0);
}

#[test]
fn one_record_then_silence_flushes_on_the_tick_at_one_second() {
    let mut s = FlushScheduler::new(BatchConfig::default(), 0);
    assert_eq!(s.step(Event::Record(reading(7)), 0), idle());
    let mut flushes = Vec::new();
    for tick in 1..=12u64 {
        let now = tick * TICK_INTERVAL_NS;
        let out = s.step(Event::Tick, now);
        if let Action::Persist { records, reason } = out.action {
            flushes.push((now, records, reason));
        }
    }
    assert_eq!(flushes.len(), 1);
    let (at, records, reason) = &flushes[0];
    assert_eq!(*at, SECOND);
    assert!(*at >= DEFAULT_MAX_DELAY_NS);
    assert_eq!(*reason, FlushReason::Deadline);
    assert_eq!(*records, vec![reading(7)]);
    assert_eq!(s.pending(), 0);
    assert_eq!(s.last_flush_ns(), SECOND);
}

#[test]
fn tick_just_before_the_delay_does_not_flush() {
    let mut s = FlushScheduler::new(BatchConfig::default(), 500);
    assert_eq!(s.step(Event::Record(reading(1)), 600), idle());
    assert!(!s.flush_due(500 + SECOND - 1));
    assert_eq!(s.step(Event::Tick, 500 + SECOND - 1), idle());
    assert_eq!(s.pending(), 1);
    assert!(s.flush_due(500 + SECOND));
    let out = s.step(Event::Tick, 500 + SECOND);
    assert_eq!(
        out,
        Step {
            action: Action::Persist { records: vec![reading(1)], reason: FlushReason::Deadline },
            fault: None,
        }
    );
}

#[test]
fn silence_longer_than_the_delay_flushes_nothing() {
    let mut s = FlushScheduler::new(BatchConfig::default(), 0);
    for tick in 1..=30u64 {
        let now = tick * TICK_INTERVAL_NS;
        assert_eq!(s.step(Event::Tick, now), idle());
        assert_eq!(s.pending(), 0);
    }
    // An empty batch leaves the clock where it was.
    assert_eq!(s.last_flush_ns(), 0);
}

#[test]
fn record_after_a_long_silence_leaves_on_arrival() {
    let mut s = FlushScheduler::new(BatchConfig::default(), 0);
    assert_eq!(s.step(Event::Tick, SECOND), idle());
    assert_eq!(s.last_flush_ns(), 0);
    let out = s.step(Event::Record(reading(3)), SECOND + 500 * MS);
    assert_eq!(
        out,
        Step {
            action: Action::Persist { records: vec![reading(3)], reason: FlushReason::Deadline },
            fault: None,
        }
    );
    assert_eq!(s.pending(), 0);
    assert_eq!(s.last_flush_ns(), SECOND + 500 * MS);
    // After the hand-over the delay counts anew.
    assert_eq!(s.step(Event::Record(reading(4)), SECOND + 600 * MS), idle());
    assert_eq!(s.pending(), 1);
}

#[test]
fn exactly_a_full_batch_at_one_instant_flushes_once_and_starts_afresh() {
    let config = BatchConfig { max_batch_size: 5, max_delay_ns: SECOND };
    let mut s = FlushScheduler::new(config, 10);
    for n in 0..4usize {
        assert_eq!(s.step(Event::Record(reading(n)), 10), idle());
        assert_eq!(s.pending(), n + 1);
    }
    let out = s.step(Event::Record(reading(4)), 10);
    let all: Vec<IoTMessage> = (0..5usize).map(reading).collect();
    assert_eq!(
        out,
        Step { action: Action::Persist { records: all, reason: FlushReason::Size }, fault: None }
    );
    assert_eq!(s.pending(), 0);
    assert_eq!(s.step(Event::Record(reading(5)), 10), idle());
    assert_eq!(s.pending(), 1);
}

#[test]
fn malformed_payload_after_a_short_batch_flushes_nothing() {
    let config = BatchConfig { max_batch_size: 5, max_delay_ns: SECOND };
    let mut s = FlushScheduler::new(config, 0);
    for n in 0..4usize {
        assert_eq!(s.step(Event::Record(reading(n)), 1), idle());
    }
    let out = s.step(Event::Malformed, 2);
    assert_eq!(out, Step { action: Action::Await, fault: Some(ErrorKind::DecodeError) });
    assert_eq!(s.pending(), 4);
    assert_eq!(s.phase(), Phase::Running);
    // The loop is live: the next record completes the batch.
    let out = s.step(Event::Record(reading(4)), 3);
    match out.action {
        Action::Persist { records, reason } => {
            assert_eq!(records.len(), 5);
            assert_eq!(reason, FlushReason::Size);
        }
        other => panic!("expected a flush, got {:?}", other),
    }
}

#[test]
fn malformed_payload_counts_as_a_tick_for_the_deadline() {
    let mut s = FlushScheduler::new(BatchConfig::default(), 0);
    assert_eq!(s.step(Event::Record(reading(0)), 0), idle());
    let out = s.step(Event::Malformed, 2 * SECOND);
    assert_eq!(
        out,
        Step {
            action: Action::Persist { records: vec![reading(0)], reason: FlushReason::Deadline },
            fault: Some(ErrorKind::DecodeError),
        }
    );
}

#[test]
fn other_notifications_only_evaluate_the_predicate() {
    let mut s = FlushScheduler::new(BatchConfig::default(), 0);
    assert_eq!(s.step(Event::Other, 5), idle());
    assert_eq!(s.step(Event::Record(reading(0)), 6), idle());
    assert_eq!(s.step(Event::Other, 7), idle());
    assert_eq!(s.pending(), 1);
    let out = s.step(Event::Other, SECOND);
    assert_eq!(
        out.action,
        Action::Persist { records: vec![reading(0)], reason: FlushReason::Deadline }
    );
}

#[test]
fn write_failure_does_not_stop_the_next_batch() {
    let config = BatchConfig { max_batch_size: 2, max_delay_ns: SECOND };
    let mut s = FlushScheduler::new(config, 0);
    assert_eq!(s.step(Event::Record(reading(0)), 1), idle());
    let out = s.step(Event::Record(reading(1)), 2);
    assert_eq!(
        out.action,
        Action::Persist { records: vec![reading(0), reading(1)], reason: FlushReason::Size }
    );
    let out = s.step(Event::Persisted(WriteOutcome::Failed), 300);
    assert_eq!(out, Step { action: Action::Await, fault: Some(ErrorKind::PersistenceError) });
    assert_eq!(s.pending(), 0);
    assert_eq!(s.last_flush_ns(), 300);
    assert_eq!(s.phase(), Phase::Running);
    assert_eq!(s.step(Event::Record(reading(2)), 301), idle());
    let out = s.step(Event::Record(reading(3)), 302);
    assert_eq!(
        out,
        Step {
            action: Action::Persist {
                records: vec![reading(2), reading(3)],
                reason: FlushReason::Size
            },
            fault: None,
        }
    );
    assert_eq!(s.step(Event::Persisted(WriteOutcome::Written), 400), idle());
}

#[test]
fn failed_and_successful_write_leave_the_same_state() {
    let config = BatchConfig { max_batch_size: 4, max_delay_ns: SECOND };
    let mut a = FlushScheduler::new(config, 0);
    let mut b = FlushScheduler::new(config, 0);
    a.step(Event::Record(reading(0)), 1);
    b.step(Event::Record(reading(0)), 1);
    a.step(Event::Persisted(WriteOutcome::Failed), 50);
    b.step(Event::Persisted(WriteOutcome::Written), 50);
    assert_eq!(a.pending(), b.pending());
    assert_eq!(a.last_flush_ns(), b.last_flush_ns());
    assert_eq!(a.phase(), b.phase());
    for n in 1..6usize {
        let now = 50 + n as u64;
        assert_eq!(a.step(Event::Record(reading(n)), now), b.step(Event::Record(reading(n)), now));
    }
}

#[test]
fn write_return_restarts_the_clock() {
    let mut s = FlushScheduler::new(BatchConfig::default(), 0);
    s.step(Event::Record(reading(0)), 0);
    let out = s.step(Event::Tick, SECOND);
    assert!(matches!(out.action, Action::Persist { .. }));
    assert_eq!(s.last_flush_ns(), SECOND);
    s.step(Event::Persisted(WriteOutcome::Written), SECOND + 250 * MS);
    assert_eq!(s.last_flush_ns(), SECOND + 250 * MS);
    s.step(Event::Record(reading(1)), SECOND + 300 * MS);
    assert_eq!(s.step(Event::Tick, 2 * SECOND + 200 * MS), idle());
    let out = s.step(Event::Tick, 2 * SECOND + 250 * MS);
    assert!(matches!(out.action, Action::Persist { .. }));
}

#[test]
fn connection_failure_pauses_then_batching_resumes() {
    let config = BatchConfig { max_batch_size: 3, max_delay_ns: 5 * SECOND };
    let mut s = FlushScheduler::new(config, 0);
    assert_eq!(s.step(Event::Record(reading(0)), 10), idle());
    let out = s.step(Event::ConnectionError, 20);
    assert_eq!(
        out,
        Step {
            action: Action::Backoff { pause_ns: SECOND },
            fault: Some(ErrorKind::TransportError),
        }
    );
    assert_eq!(s.phase(), Phase::ReconnectBackoff);
    assert_eq!(s.pending(), 1);
    assert_eq!(s.step(Event::BackoffElapsed, 20 + SECOND), idle());
    assert_eq!(s.phase(), Phase::Running);
    assert_eq!(s.pending(), 1);
    assert_eq!(s.step(Event::Record(reading(1)), 30 + SECOND), idle());
    let out = s.step(Event::Record(reading(2)), 40 + SECOND);
    assert_eq!(
        out.action,
        Action::Persist {
            records: vec![reading(0), reading(1), reading(2)],
            reason: FlushReason::Size
        }
    );
    assert_eq!(s.pending(), 0);
}

#[test]
fn deadline_is_checked_when_the_pause_ends() {
    let mut s = FlushScheduler::new(BatchConfig::default(), 0);
    s.step(Event::Record(reading(0)), 100 * MS);
    let out = s.step(Event::ConnectionError, 200 * MS);
    assert_eq!(out.action, Action::Backoff { pause_ns: RECONNECT_BACKOFF_NS });
    let out = s.step(Event::BackoffElapsed, 200 * MS + RECONNECT_BACKOFF_NS);
    assert_eq!(
        out,
        Step {
            action: Action::Persist { records: vec![reading(0)], reason: FlushReason::Deadline },
            fault: None,
        }
    );
    assert_eq!(s.phase(), Phase::Running);
}

#[test]
fn size_is_named_when_both_thresholds_are_reached() {
    let config = BatchConfig { max_batch_size: 1, max_delay_ns: 10 };
    let mut s = FlushScheduler::new(config, 0);
    let out = s.step(Event::Record(reading(0)), 1_000);
    assert_eq!(
        out.action,
        Action::Persist { records: vec![reading(0)], reason: FlushReason::Size }
    );
}

#[test]
fn clock_reading_before_the_last_flush_counts_as_no_time() {
    let config = BatchConfig { max_batch_size: 10, max_delay_ns: 5 };
    let mut s = FlushScheduler::new(config, 1_000);
    assert!(!s.flush_due(0));
    assert!(!s.flush_due(1_004));
    assert!(s.flush_due(1_005));
    assert_eq!(s.step(Event::Record(reading(0)), 3), idle());
    assert_eq!(s.pending(), 1);
    assert_eq!(s.last_flush_ns(), 1_000);
}

#[test]
fn zero_batch_size_flushes_every_record() {
    let config = BatchConfig { max_batch_size: 0, max_delay_ns: u64::MAX };
    let mut s = FlushScheduler::new(config, 0);
    assert!(s.flush_due(0));
    assert_eq!(s.step(Event::Tick, 5), idle());
    assert_eq!(s.last_flush_ns(), 0);
    let out = s.step(Event::Record(reading(0)), 6);
    assert_eq!(
        out.action,
        Action::Persist { records: vec![reading(0)], reason: FlushReason::Size }
    );
    assert_eq!(s.pending(), 0);
}

#[test]
fn zero_delay_flushes_every_record_by_deadline() {
    let config = BatchConfig { max_batch_size: 10, max_delay_ns: 0 };
    let mut s = FlushScheduler::new(config, 0);
    let out = s.step(Event::Record(reading(0)), 0);
    assert_eq!(
        out.action,
        Action::Persist { records: vec![reading(0)], reason: FlushReason::Deadline }
    );
}
