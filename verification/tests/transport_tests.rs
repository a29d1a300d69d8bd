use purplesector::grpc::{
    authorization, conclude_drain, default_retry_delay, drain_event, drain_request, plan_drain,
    DrainError, DrainPlan, DrainReceipt, GrpcConfig, Transport, TransportAction, TransportEvent,
    TransportPhase, WalCmd, WalWorker,
};
use purplesector::gateway::bearer_token;
use purplesector::proto::TelemetryBatch;
use purplesector::time::Duration;

fn batch(n: u32) -> TelemetryBatch {
    TelemetryBatch {
        user_id: "u".to_string(),
        source: "s".to_string(),
        batch_start_ts: 0,
        batch_end_ts: 0,
        batch_size: n,
        source_rate_hz: 60,
        samples: vec![],
        compressed_samples: None,
    }
}

fn transport(reports: bool) -> Transport {
    let config = GrpcConfig { wal_depth_reporter: reports, ..GrpcConfig::default() };
    let (transport, first) = Transport::new(&config);
    assert_eq!(first, TransportAction::AskDepth);
    transport
}

const POLL: Duration = Duration { nanos: 100_000_000 };

#[test]
fn grpc_defaults() {
    let c = GrpcConfig::default();
    assert_eq!(c.gateway_url, "http://localhost:50051");
    assert_eq!(c.wal_path, "telemetry-wal.db");
    assert_eq!(c.drain_batch_size, 32);
    assert_eq!(c.retry_delay, Duration::from_secs(5));
    assert_eq!(c.auth_token, None);
    assert!(!c.wal_depth_reporter);
    assert_eq!(default_retry_delay(), Duration::from_secs(5));
    assert_eq!(drain_request(&c), WalCmd::Peek(32));
}

#[test]
fn transport_life() {
    let mut t = transport(true);
    assert_eq!(t.step(TransportEvent::Depth(Some(3))), vec![TransportAction::TryReceive]);
    assert_eq!(
        t.step(TransportEvent::Batch(batch(1))),
        vec![TransportAction::Push(batch(1)), TransportAction::TryReceive]
    );
    assert_eq!(t.step(TransportEvent::Empty), vec![TransportAction::AskDepth]);
    assert_eq!(
        t.step(TransportEvent::Depth(Some(1))),
        vec![TransportAction::ReportDepth(1), TransportAction::Drain]
    );
    assert_eq!(t.step(TransportEvent::Drained), vec![TransportAction::ReceiveWithin(POLL)]);
    assert_eq!(
        t.step(TransportEvent::Batch(batch(2))),
        vec![TransportAction::Push(batch(2)), TransportAction::TryReceive]
    );
    assert_eq!(t.step(TransportEvent::Empty), vec![TransportAction::AskDepth]);
    assert_eq!(
        t.step(TransportEvent::Depth(None)),
        vec![TransportAction::ReportDepth(0), TransportAction::ReceiveWithin(POLL)]
    );
    assert_eq!(t.step(TransportEvent::Elapsed), vec![TransportAction::TryReceive]);
    assert_eq!(
        t.step(TransportEvent::Closed),
        vec![TransportAction::DrainWithin(Duration::from_secs(2))]
    );
    assert_eq!(t.step(TransportEvent::DrainTimedOut), vec![TransportAction::Shutdown]);
    assert_eq!(t.phase, TransportPhase::Done);
    assert_eq!(t.step(TransportEvent::Batch(batch(3))), vec![]);
}

#[test]
fn failed_drains_wait_and_start_over() {
    let mut t = transport(false);
    t.step(TransportEvent::Depth(None));
    t.step(TransportEvent::Empty);
    assert_eq!(t.step(TransportEvent::Depth(Some(2))), vec![TransportAction::Drain]);
    assert_eq!(
        t.step(TransportEvent::DrainFailed),
        vec![TransportAction::Sleep(Duration::from_secs(5))]
    );
    assert_eq!(t.step(TransportEvent::Elapsed), vec![TransportAction::TryReceive]);
    t.step(TransportEvent::Empty);
    assert_eq!(t.step(TransportEvent::Depth(Some(2))), vec![TransportAction::Drain]);
    t.step(TransportEvent::Drained);
    t.step(TransportEvent::Closed);
    assert_eq!(t.step(TransportEvent::DrainFailed), vec![TransportAction::Shutdown]);
}

#[test]
fn events_out_of_turn_change_nothing() {
    let mut t = transport(true);
    let before = t;
    for event in [
        TransportEvent::Batch(batch(1)),
        TransportEvent::Empty,
        TransportEvent::Closed,
        TransportEvent::Drained,
        TransportEvent::DrainFailed,
        TransportEvent::DrainTimedOut,
        TransportEvent::Elapsed,
    ] {
        assert_eq!(t.step(event), vec![]);
        assert_eq!(t, before);
    }
}

#[test]
fn drains_stream_what_the_log_hands_out() {
    let config = GrpcConfig::default();
    assert_eq!(plan_drain(&config, Ok(vec![])), DrainPlan::Over(Ok(0)));
    for e in [DrainError::WorkerDropped, DrainError::PeekFailed] {
        assert_eq!(plan_drain(&config, Err(e)), DrainPlan::Over(Err(e)));
    }
    assert_eq!(
        plan_drain(&config, Ok(vec![(4, batch(1)), (7, batch(2))])),
        DrainPlan::Stream {
            batches: vec![batch(1), batch(2)],
            authorization: None,
            receipt: DrainReceipt { max_id: 7, count: 2 },
        }
    );
}

#[test]
fn drains_remove_exactly_what_was_acknowledged() {
    let log = vec![(1, batch(1)), (2, batch(2)), (5, batch(3)), (6, batch(4))];
    let receipt = match plan_drain(&GrpcConfig::default(), Ok(log[..2].to_vec())) {
        DrainPlan::Stream { receipt, .. } => receipt,
        DrainPlan::Over(_) => panic!("nothing to drain"),
    };
    let (cmd, result) = conclude_drain(receipt, Ok(()));
    assert_eq!((cmd.clone(), result), (Some(WalCmd::AckUpTo(2)), Ok(2)));
    let rest: Vec<i64> = match cmd {
        Some(WalCmd::AckUpTo(id)) => log.iter().map(|e| e.0).filter(|i| *i > id).collect(),
        _ => panic!("no acknowledgement"),
    };
    assert_eq!(rest, vec![5, 6]);
    assert_eq!(
        conclude_drain(receipt, Err(DrainError::StreamFailed)),
        (None, Err(DrainError::StreamFailed))
    );
}

/// A transport with a log in memory, and a gateway that answers as it is told.
struct Rig {
    config: GrpcConfig,
    log: Vec<(i64, TelemetryBatch)>,
    next_id: i64,
    streamed: Vec<Vec<u32>>,
}

impl Rig {
    fn drain(&mut self, answer: Result<(), DrainError>) -> TransportEvent {
        let count = match drain_request(&self.config) {
            WalCmd::Peek(count) => count.min(self.log.len()),
            _ => panic!("not a peek"),
        };
        let result = match plan_drain(&self.config, Ok(self.log[..count].to_vec())) {
            DrainPlan::Over(result) => result,
            DrainPlan::Stream { batches, receipt, .. } => {
                self.streamed.push(batches.iter().map(|b| b.batch_size).collect());
                let (cmd, result) = conclude_drain(receipt, answer);
                if let Some(WalCmd::AckUpTo(id)) = cmd {
                    self.log.retain(|entry| entry.0 > id);
                }
                result
            }
        };
        drain_event(&result)
    }

    fn act(&mut self, actions: Vec<TransportAction>) -> TransportAction {
        for action in &actions {
            if let TransportAction::Push(batch) = action {
                self.log.push((self.next_id, batch.clone()));
                self.next_id += 1;
            }
        }
        actions.last().cloned().unwrap()
    }
}

#[test]
fn batches_stay_in_the_log_until_they_are_acknowledged() {
    let config = GrpcConfig { drain_batch_size: 2, ..GrpcConfig::default() };
    let mut rig = Rig { config, log: vec![(7, batch(9))], next_id: 8, streamed: vec![] };
    let (mut t, _) = Transport::new(&rig.config);
    t.step(TransportEvent::Depth(Some(1)));
    for n in [1, 2] {
        let next = rig.act(t.step(TransportEvent::Batch(batch(n))));
        assert_eq!(next, TransportAction::TryReceive);
    }
    let ids = |rig: &Rig| rig.log.iter().map(|e| e.0).collect::<Vec<i64>>();
    for (answer, left, next) in [
        (Err(DrainError::ConnectFailed), vec![7, 8, 9], TransportAction::Sleep(Duration::from_secs(5))),
        (Err(DrainError::StreamFailed), vec![7, 8, 9], TransportAction::Sleep(Duration::from_secs(5))),
        (Ok(()), vec![9], TransportAction::ReceiveWithin(POLL)),
    ] {
        t.step(TransportEvent::Empty);
        let depth = rig.log.len();
        assert_eq!(rig.act(t.step(TransportEvent::Depth(Some(depth)))), TransportAction::Drain);
        let event = rig.drain(answer);
        assert_eq!(rig.act(t.step(event)), next);
        assert_eq!(ids(&rig), left);
        // Nothing but the end of the wait brings the transport on to the next drain.
        if let TransportAction::Sleep(_) = next {
            assert_eq!(t.step(TransportEvent::Batch(batch(3))), vec![]);
            assert_eq!(t.step(TransportEvent::Closed), vec![]);
        }
        assert_eq!(t.step(TransportEvent::Elapsed), vec![TransportAction::TryReceive]);
    }
    assert_eq!(rig.streamed, vec![vec![9, 1], vec![9, 1], vec![9, 1]]);
}

#[test]
fn drain_errors_in_words() {
    assert_eq!(DrainError::WorkerDropped.message(), "WAL worker dropped");
    assert_eq!(DrainError::PeekFailed.message(), "WAL peek failed");
    assert_eq!(DrainError::InvalidUrl.message(), "Invalid gateway URL");
    assert_eq!(DrainError::ConnectFailed.message(), "Failed to connect to gateway");
    assert_eq!(DrainError::StreamFailed.message(), "StreamTelemetry RPC failed");
}

#[test]
fn streams_carry_the_configured_token() {
    let config = GrpcConfig { auth_token: Some("abc.def".to_string()), ..GrpcConfig::default() };
    assert_eq!(authorization(&config), Some("Bearer abc.def".to_string()));
    assert_eq!(authorization(&GrpcConfig::default()), None);
    match plan_drain(&config, Ok(vec![(1, batch(1))])) {
        DrainPlan::Stream { authorization, .. } => {
            assert_eq!(authorization.as_deref(), Some("Bearer abc.def"));
            assert_eq!(bearer_token(authorization.as_deref()), "abc.def");
        }
        DrainPlan::Over(_) => panic!("nothing streamed"),
    }
}

#[test]
fn the_log_worker_carries_out_requests_until_it_is_shut_down() {
    let requests =
        [WalCmd::Push(batch(1)), WalCmd::Peek(3), WalCmd::AckUpTo(9), WalCmd::Depth];
    let mut worker = WalWorker::new(true);
    for cmd in requests.clone() {
        assert_eq!(worker.step(Some(cmd.clone())), Some(cmd));
        assert!(worker.alive);
    }
    assert_eq!(worker.step(Some(WalCmd::Shutdown)), None);
    assert!(!worker.alive);
    let mut closed = WalWorker::new(true);
    assert_eq!(closed.step(None), None);
    let unopened = WalWorker::new(false);
    for mut ended in [worker, closed, unopened] {
        for cmd in requests.clone() {
            assert_eq!(ended.step(Some(cmd)), None);
            assert!(!ended.alive);
        }
    }
}
