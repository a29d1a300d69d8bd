use purplesector::auth::AuthConfig;
use purplesector::batch::{AssemblerEvent, AssemblerStep, BatchAssembler, BatchConfig};
use purplesector::float32::Float32;
use purplesector::gateway::{
    bearer_token, IngressAction, IngressEvent, IngressPhase, IngressStream, PublishPlan, Status,
    StatusCode, TelemetryGatewayService,
};
use purplesector::proto::{IngressAck, TelemetryBatch, TelemetryFrame};
use purplesector::time::Duration;

fn frame(ts: i64) -> TelemetryFrame {
    let zero = Float32 { bits: 0 };
    TelemetryFrame {
        timestamp: ts,
        speed: zero,
        throttle: zero,
        brake: zero,
        steering: zero,
        gear: 0,
        rpm: 0,
        normalized_position: zero,
        lap_number: 0,
        lap_time: 0,
        session_time: None,
        session_type: None,
        track_position: None,
        delta: None,
    }
}

fn batch(source: &str, stamps: &[i64]) -> TelemetryBatch {
    TelemetryBatch {
        user_id: "somebody-else".to_string(),
        source: source.to_string(),
        batch_start_ts: 1,
        batch_end_ts: 2,
        batch_size: 99,
        source_rate_hz: 10,
        samples: stamps.iter().map(|ts| frame(*ts)).collect(),
        compressed_samples: Some(vec![1, 2]),
    }
}

#[test]
fn bearer_tokens() {
    assert_eq!(bearer_token(Some("Bearer abc.def")), "abc.def");
    assert_eq!(bearer_token(Some("Bearer  abc")), " abc");
    assert_eq!(bearer_token(Some("bearer abc")), "");
    assert_eq!(bearer_token(Some("")), "");
    assert_eq!(bearer_token(None), "");
}

fn received(stream: &mut IngressStream, source: &str, stamps: &[i64]) -> PublishPlan {
    match stream.step(IngressEvent::Batch(batch(source, stamps))) {
        IngressAction::Publish(plan) => plan,
        _ => panic!("not published"),
    }
}

#[test]
fn batches_are_attributed_to_the_authenticated_user() {
    let mut stream = IngressStream::new("driver-7".to_string());
    for (sent, published) in
        [("demo", "demo"), ("session-18c", "live"), ("live", "live"), ("", "live"), ("Demo", "live")]
    {
        let plan = received(&mut stream, sent, &[1, 2]);
        assert_eq!(plan.key, format!("driver-7:{published}"));
        assert_eq!(plan.envelopes.len(), 2);
        for envelope in &plan.envelopes {
            assert_eq!(envelope.user_id, "driver-7");
            assert_eq!(envelope.source, published);
        }
        assert_eq!(
            stream.step(IngressEvent::Published(vec![None, None])),
            IngressAction::Receive
        );
    }
    assert_eq!(stream.batches_received, 5);
}

#[test]
fn streams_are_acknowledged_by_what_was_published() {
    let mut empty = IngressStream::new("driver-7".to_string());
    assert_eq!(
        empty.step(IngressEvent::End),
        IngressAction::Acknowledge(IngressAck { batches_received: 0, samples_received: 0 })
    );
    let mut stream = IngressStream::new("driver-7".to_string());
    for stamps in [&[1i64, 2, 3][..], &[][..], &[4][..]] {
        let plan = received(&mut stream, "demo", stamps);
        let failures: Vec<Option<String>> = plan.envelopes.iter().map(|_| None).collect();
        assert_eq!(stream.step(IngressEvent::Published(failures)), IngressAction::Receive);
    }
    assert_eq!(
        stream.step(IngressEvent::End),
        IngressAction::Acknowledge(IngressAck { batches_received: 3, samples_received: 4 })
    );
    assert_eq!(stream.phase, IngressPhase::Answered);
    assert_eq!(stream.step(IngressEvent::Batch(batch("demo", &[1]))), IngressAction::Nothing);
}

#[test]
fn messages_out_of_turn_change_nothing() {
    let mut stream = IngressStream::new("u".to_string());
    assert_eq!(stream.step(IngressEvent::Published(vec![])), IngressAction::Nothing);
    received(&mut stream, "demo", &[1]);
    assert_eq!(stream.step(IngressEvent::End), IngressAction::Nothing);
    assert_eq!(stream.step(IngressEvent::Broken("x".to_string())), IngressAction::Nothing);
    assert_eq!((stream.batches_received, stream.frames_published), (1, 0));
    assert_eq!(stream.phase, IngressPhase::Publishing { frames: 1 });
}

#[test]
fn batches_are_unnested_in_order() {
    let plan = TelemetryGatewayService::publish_frames_at_rate(&batch("live", &[5, 3, 9]));
    assert_eq!(plan.key, "somebody-else:live");
    assert_eq!(plan.envelopes.len(), 3);
    for (envelope, ts) in plan.envelopes.iter().zip([5, 3, 9]) {
        assert_eq!(envelope.user_id, "somebody-else");
        assert_eq!(envelope.source, "live");
        assert_eq!(envelope.source_rate_hz, 10);
        assert_eq!(envelope.frame, Some(frame(ts)));
    }
    assert!(TelemetryGatewayService::publish_frames_at_rate(&batch("x", &[])).envelopes.is_empty());
}

#[test]
fn the_first_broker_failure_counts() {
    assert_eq!(TelemetryGatewayService::published(&vec![]), Ok(()));
    assert_eq!(TelemetryGatewayService::published(&vec![None, None]), Ok(()));
    assert_eq!(
        TelemetryGatewayService::published(&vec![
            None,
            Some("timed out".to_string()),
            Some("full".to_string())
        ]),
        Err("Kafka publish failed: timed out".to_string())
    );
}

#[test]
fn failures_are_internal() {
    let mut stream = IngressStream::new("u".to_string());
    assert_eq!(
        stream.step(IngressEvent::Broken("reset".to_string())),
        IngressAction::Refuse(Status {
            code: StatusCode::Internal,
            message: "Stream error: reset".to_string(),
        })
    );
    let mut stream = IngressStream::new("u".to_string());
    received(&mut stream, "demo", &[1, 2]);
    assert_eq!(
        stream.step(IngressEvent::Published(vec![None, Some("full".to_string())])),
        IngressAction::Refuse(Status {
            code: StatusCode::Internal,
            message: "Failed to publish frames: Kafka publish failed: full".to_string(),
        })
    );
    assert_eq!((stream.batches_received, stream.frames_published), (1, 0));
    assert_eq!(stream.step(IngressEvent::End), IngressAction::Nothing);
}

#[test]
fn service_settings() {
    let settings = TelemetryGatewayService::producer_settings("broker:9092");
    let expected = [
        ("bootstrap.servers", "broker:9092"),
        ("message.timeout.ms", "5000"),
        ("compression.type", "snappy"),
    ];
    assert_eq!(settings.len(), 3);
    for (i, (name, value)) in expected.iter().enumerate() {
        assert_eq!((settings[i].0.as_str(), settings[i].1.as_str()), (*name, *value));
    }
    let auth = AuthConfig::from_env(None, None, None, None, None);
    let service = TelemetryGatewayService::new("telemetry-frames", auth);
    assert_eq!(service.topic, "telemetry-frames");
    assert!(service.validator.keys.is_empty());
    assert!(service.require_token("").is_err());
    assert!(service.require_token("t").is_ok());
}

#[test]
fn captured_samples_reach_the_broker_once_and_in_order() {
    let mut assembler = BatchAssembler::new(BatchConfig {
        flush_interval: Duration::from_secs(60),
        user_id: "rig".to_string(),
        source_rate_hz: 60,
        source: "session-18bcfe567bb".to_string(),
    });
    let events = vec![
        AssemblerEvent::Sample(frame(10)),
        AssemblerEvent::Sample(frame(20)),
        AssemblerEvent::Tick,
        AssemblerEvent::Tick,
        AssemblerEvent::Sample(frame(15)),
        AssemblerEvent::Closed,
    ];
    let mut sent: Vec<TelemetryBatch> = Vec::new();
    for event in events {
        match assembler.step(event) {
            AssemblerStep::Wait => {}
            AssemblerStep::Send(batch) => sent.push(batch),
            AssemblerStep::Finish(last) => sent.extend(last),
        }
    }
    assert_eq!(sent.len(), 2);

    let mut stream = IngressStream::new("driver-7".to_string());
    let mut published: Vec<(String, i64)> = Vec::new();
    for batch in sent {
        let plan = match stream.step(IngressEvent::Batch(batch)) {
            IngressAction::Publish(plan) => plan,
            _ => panic!("not published"),
        };
        let failures = vec![None; plan.envelopes.len()];
        for envelope in &plan.envelopes {
            published.push((plan.key.clone(), envelope.frame.unwrap().timestamp));
        }
        assert_eq!(stream.step(IngressEvent::Published(failures)), IngressAction::Receive);
    }
    let key = "driver-7:live".to_string();
    assert_eq!(published, vec![(key.clone(), 10), (key.clone(), 20), (key, 15)]);
    assert_eq!(
        stream.step(IngressEvent::End),
        IngressAction::Acknowledge(IngressAck { batches_received: 2, samples_received: 3 })
    );
}
