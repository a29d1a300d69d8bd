use purplesector::batch::{
    default_interval, default_source, AssemblerEvent, AssemblerStep, BatchAssembler, BatchConfig,
};
use purplesector::float32::Float32;
use purplesector::proto::{TelemetryBatch, TelemetryFrame};
use purplesector::time::Duration;

fn number(x: f32) -> Float32 {
    Float32 { bits: x.to_bits() }
}

fn sample(ts: i64) -> TelemetryFrame {
    TelemetryFrame {
        timestamp: ts,
        speed: number(100.0),
        throttle: number(0.5),
        brake: number(0.0),
        steering: number(0.1),
        gear: 3,
        rpm: 5000,
        normalized_position: number(0.5),
        lap_number: 1,
        lap_time: 30000,
        session_time: None,
        session_type: None,
        track_position: None,
        delta: None,
    }
}

fn config(interval: Duration) -> BatchConfig {
    BatchConfig {
        flush_interval: interval,
        user_id: "test-user".to_string(),
        source_rate_hz: 60,
        source: "test".to_string(),
    }
}

#[test]
fn test_manual_flush() {
    // A long interval, so that push does not flush by itself.
    let mut assembler = BatchAssembler::new(BatchConfig {
        flush_interval: Duration::from_secs(60),
        user_id: "test-user".into(),
        source_rate_hz: 60,
        source: "test".into(),
    });

    assert!(assembler.push(sample(1000)).is_none());
    assert!(assembler.push(sample(1016)).is_none());
    assert_eq!(assembler.buffered_count(), 2);

    let batch = assembler.flush();
    assert_eq!(batch.batch_size, 2);
    assert_eq!(batch.batch_start_ts, 1000);
    assert_eq!(batch.batch_end_ts, 1016);
    assert_eq!(batch.user_id, "test-user");
    assert_eq!(batch.source_rate_hz, 60);
    assert_eq!(assembler.buffered_count(), 0);
}

#[test]
fn flushing_nothing_gives_an_empty_batch() {
    let mut assembler = BatchAssembler::new(config(Duration::from_secs(60)));
    assert_eq!(
        assembler.flush(),
        TelemetryBatch {
            user_id: "test-user".to_string(),
            source: "test".to_string(),
            batch_start_ts: 0,
            batch_end_ts: 0,
            batch_size: 0,
            source_rate_hz: 60,
            samples: vec![],
            compressed_samples: None,
        }
    );
}

fn millis(ms: u64) -> Duration {
    Duration::from_millis(ms)
}

#[test]
fn push_flushes_once_the_interval_is_over() {
    let mut assembler = BatchAssembler::new(config(millis(500)));
    assert!(assembler.push_at(sample(1), millis(499)).is_none());
    let batch = assembler.push_at(sample(2), millis(500)).unwrap();
    assert_eq!(batch.samples, vec![sample(1), sample(2)]);
    assert_eq!((batch.batch_start_ts, batch.batch_end_ts, batch.batch_size), (1, 2, 2));
    assert_eq!(assembler.buffered_count(), 0);
}

#[test]
fn batches_restart_the_interval_and_other_pushes_do_not() {
    let mut assembler = BatchAssembler::new(config(millis(100)));
    let mut given: Vec<(u64, u32)> = Vec::new();
    for now in (10..=350).step_by(30) {
        if let Some(batch) = assembler.push_at(sample(now as i64), millis(now)) {
            given.push((now, batch.batch_size));
        }
    }
    assert_eq!(given, vec![(100, 4), (220, 4), (340, 4)]);
}

#[test]
fn pushes_and_flushes_give_every_sample_once() {
    let mut assembler = BatchAssembler::new(config(millis(100)));
    let mut given: Vec<i64> = Vec::new();
    for ts in 1..=20 {
        if ts % 7 == 0 {
            let batch = assembler.flush_at(millis(30 * ts as u64));
            given.extend(batch.samples.iter().map(|s| s.timestamp));
        }
        if let Some(batch) = assembler.push_at(sample(ts), millis(30 * ts as u64)) {
            given.extend(batch.samples.iter().map(|s| s.timestamp));
        }
    }
    let buffered = assembler.buffered_count() as i64;
    assert_eq!(given, (1..=20 - buffered).collect::<Vec<i64>>());
}

#[test]
fn a_flush_restarts_the_interval() {
    let mut assembler = BatchAssembler::new(config(millis(100)));
    assert!(assembler.push_at(sample(1), millis(90)).is_none());
    assert_eq!(assembler.flush_at(millis(95)).batch_size, 1);
    assert!(assembler.push_at(sample(2), millis(194)).is_none());
    assert_eq!(assembler.push_at(sample(3), millis(195)).unwrap().batch_size, 2);
    // An earlier reading counts as no time passed.
    assert!(assembler.push_at(sample(4), millis(10)).is_none());
}

#[test]
fn a_flush_restarts_the_interval_by_the_clock() {
    let mut assembler = BatchAssembler::new(config(millis(300)));
    let start = std::time::Instant::now();
    while start.elapsed() < std::time::Duration::from_millis(350) {}
    assert_eq!(assembler.flush().batch_size, 0);
    assert!(assembler.push(sample(1)).is_none());
}

#[test]
fn push_reads_the_clock() {
    let mut at_once = BatchAssembler::new(config(Duration { nanos: 0 }));
    assert!(at_once.push(sample(1)).is_some());
    let mut patient = BatchAssembler::new(config(Duration::from_secs(3600)));
    assert!(patient.push(sample(1)).is_none());
}

#[test]
fn the_clock_moves_on() {
    let mut assembler = BatchAssembler::new(config(Duration::from_millis(20)));
    let start = std::time::Instant::now();
    while start.elapsed() < std::time::Duration::from_millis(40) {}
    assert!(assembler.push(sample(1)).is_some());
}

#[test]
fn the_task_sends_every_sample_once() {
    let mut assembler = BatchAssembler::new(config(Duration::from_millis(100)));
    let mut sent: Vec<i64> = Vec::new();
    let mut sizes: Vec<u32> = Vec::new();
    let events = [
        (AssemblerEvent::Tick, 50),
        (AssemblerEvent::Sample(sample(1)), 99),
        (AssemblerEvent::Sample(sample(2)), 100),
        (AssemblerEvent::Sample(sample(3)), 101),
        (AssemblerEvent::Tick, 201),
        (AssemblerEvent::Sample(sample(4)), 300),
        (AssemblerEvent::Closed, 301),
    ];
    for (event, now) in events {
        let batch = match assembler.step_at(event, millis(now)) {
            AssemblerStep::Wait => None,
            AssemblerStep::Send(batch) => Some(batch),
            AssemblerStep::Finish(batch) => batch,
        };
        if let Some(batch) = batch {
            sizes.push(batch.batch_size);
            sent.extend(batch.samples.iter().map(|s| s.timestamp));
        }
    }
    assert_eq!(sent, vec![1, 2, 3, 4]);
    assert_eq!(sizes, vec![2, 1, 1]);
    assert_eq!(assembler.buffered_count(), 0);
}

#[test]
fn closing_with_nothing_buffered_sends_nothing() {
    let mut assembler = BatchAssembler::new(config(Duration::from_secs(60)));
    assert_eq!(assembler.step(AssemblerEvent::Closed), AssemblerStep::Finish(None));
    assert_eq!(assembler.step(AssemblerEvent::Tick), AssemblerStep::Wait);
    assert_eq!(assembler.step(AssemblerEvent::Sample(sample(9))), AssemblerStep::Wait);
}

#[test]
fn batch_defaults() {
    let d = BatchConfig::default();
    assert_eq!(d.flush_interval, Duration::from_millis(500));
    assert_eq!(d.user_id, "");
    assert_eq!(d.source_rate_hz, 60);
    assert_eq!(d.source, "live");
    assert_eq!(default_source(), "live");
    assert_eq!(default_interval().nanos, 500_000_000);
}
