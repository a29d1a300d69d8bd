use purplesector::capture::ac::{AcSource, OP_DISMISS, OP_HANDSHAKE, OP_SUBSCRIBE_UPDATE};
use purplesector::capture::acc::{AccCaptureConfig, AccSource, CarUpdate, RealtimeUpdate};
use purplesector::capture::{
    parse_ac_packet, socket_address_text, CaptureConfig, CaptureError, CaptureStep, Datagram,
    TelemetrySource,
};
use purplesector::float32::Float32;

fn number(x: f32) -> Float32 {
    Float32 { bits: x.to_bits() }
}

fn put(buf: &mut Vec<u8>, at: usize, bytes: &[u8]) {
    buf[at..at + bytes.len()].copy_from_slice(bytes);
}

fn ac_packet() -> Vec<u8> {
    let mut p = vec![0u8; 328];
    put(&mut p, 8, &213.5f32.to_le_bytes());
    put(&mut p, 40, &61_234i32.to_le_bytes());
    put(&mut p, 52, &4i32.to_le_bytes());
    put(&mut p, 56, &1.25f32.to_le_bytes());
    put(&mut p, 60, &(-0.5f32).to_le_bytes());
    put(&mut p, 68, &7200i32.to_le_bytes());
    put(&mut p, 72, &(-3.0f32).to_le_bytes());
    put(&mut p, 76, &(-1i32).to_le_bytes());
    put(&mut p, 308, &0.75f32.to_le_bytes());
    p
}

fn realtime_packet(session_type: u8, time: f32, car: i32) -> Vec<u8> {
    let mut p = vec![0u8; 19];
    p[0] = 2;
    p[5] = session_type;
    put(&mut p, 7, &time.to_le_bytes());
    put(&mut p, 15, &car.to_le_bytes());
    p
}

fn car_packet(car: u16) -> Vec<u8> {
    let mut p = vec![0u8; 91];
    p[0] = 3;
    put(&mut p, 1, &car.to_le_bytes());
    p[6] = 5;
    put(&mut p, 19, &3.0f32.to_le_bytes());
    put(&mut p, 23, &4.0f32.to_le_bytes());
    put(&mut p, 27, &12.0f32.to_le_bytes());
    put(&mut p, 63, &7u16.to_le_bytes());
    put(&mut p, 65, &(-250i32).to_le_bytes());
    put(&mut p, 77, &45_678i32.to_le_bytes());
    put(&mut p, 85, &11u16.to_le_bytes());
    put(&mut p, 87, &0.625f32.to_le_bytes());
    p
}

fn car(index: u16) -> CarUpdate {
    CarUpdate {
        car_index: index,
        gear: 5,
        velocity_x: number(3.0),
        velocity_y: number(4.0),
        velocity_z: number(12.0),
        current_lap: 7,
        delta: -250,
        current_lap_time: 45_678,
        track_position: 11,
        spline_position: number(0.625),
    }
}

fn registration_answer(id: i32, success: u8) -> Vec<u8> {
    let mut p = vec![1u8, 0, 0, 0, 0, success, 0];
    put(&mut p, 1, &id.to_le_bytes());
    p
}

#[test]
fn ac_packets_are_parsed_and_clamped() {
    let frame = parse_ac_packet(&ac_packet(), 99).unwrap();
    assert_eq!(frame.timestamp, 99);
    assert_eq!(frame.speed, number(213.5));
    assert_eq!(frame.lap_time, 61_234);
    assert_eq!(frame.lap_number, 4);
    assert_eq!(frame.throttle, number(1.0));
    assert_eq!(frame.brake, number(0.0));
    assert_eq!(frame.rpm, 7200);
    assert_eq!(frame.steering, number(-1.0));
    assert_eq!(frame.gear, -1);
    assert_eq!(frame.normalized_position, number(0.75));
    assert_eq!(frame.session_time, None);
    assert_eq!(frame.session_type, None);
    assert_eq!(frame.track_position, None);
    assert_eq!(frame.delta, None);
}

#[test]
fn ac_packets_need_312_bytes() {
    let p = ac_packet();
    assert_eq!(
        parse_ac_packet(&p[..311], 0),
        Err(CaptureError::PacketTooSmall { got: 311, min: 312 })
    );
    assert_eq!(parse_ac_packet(&p[..312], 5), parse_ac_packet(&p, 5));
    assert!(parse_ac_packet(&p[..312], 5).is_ok());
}

#[test]
fn capture_errors_in_words() {
    assert_eq!(CaptureError::Io("broken pipe".into()).message(), "IO error: broken pipe");
    assert_eq!(
        CaptureError::PacketTooSmall { got: 12, min: 312 }.message(),
        "Packet too small: got 12 bytes, need at least 312"
    );
    assert_eq!(CaptureError::HandshakeFailed("x".into()).message(), "Handshake failed: x");
    assert_eq!(
        CaptureError::SharedMemoryUnavailable("y".into()).message(),
        "Shared memory not available: y"
    );
    assert_eq!(CaptureError::Stopped.message(), "Capture source stopped");
    assert_eq!(
        AcSource::target_rejected("bad"),
        CaptureError::HandshakeFailed("Invalid target address: bad".into())
    );
    assert_eq!(
        AccSource::target_rejected("bad"),
        CaptureError::HandshakeFailed("Invalid target: bad".into())
    );
}

#[test]
fn capture_defaults() {
    let c = CaptureConfig::default();
    assert_eq!((c.udp_port, c.udp_host.as_str()), (9997, "0.0.0.0"));
    assert_eq!((c.target_host, c.target_port), (None, Some(9996)));
    let a = AccCaptureConfig::default();
    assert_eq!((a.base.udp_port, a.base.udp_host.as_str()), (20582, "0.0.0.0"));
    assert_eq!((a.base.target_host, a.base.target_port), (Some("127.0.0.1".to_string()), None));
    assert_eq!((a.broadcast_port, a.display_name.as_str()), (9000, "PurpleSector"));
    assert_eq!((a.connection_password.as_str(), a.update_interval_ms), ("", 100));
    assert_eq!(socket_address_text("::1", 65535), "::1:65535");
}

#[test]
fn handshake_packets() {
    assert_eq!(
        AcSource::build_handshake_packet(0, 1, OP_DISMISS),
        vec![0, 0, 0, 0, 1, 0, 0, 0, 3, 0, 0, 0]
    );
    assert_eq!(
        AcSource::build_handshake_packet(-1, 258, i32::MIN),
        vec![255, 255, 255, 255, 2, 1, 0, 0, 0, 0, 0, 128]
    );
    assert_eq!((OP_HANDSHAKE, OP_SUBSCRIBE_UPDATE), (0, 1));
}

#[test]
fn ac_conversation() {
    let mut source = AcSource::new(CaptureConfig::default());
    assert_eq!(source.name(), "Assetto Corsa");
    assert_eq!(source.source_rate_hz(), 60);
    assert_eq!(source.bind_address(), "0.0.0.0:9997");
    assert_eq!(source.next_sample(&ac_packet(), 1), Err(CaptureError::Stopped));
    assert_eq!(source.stop(), None);

    assert_eq!(
        source.start(),
        Datagram {
            target: "127.0.0.1:9996".to_string(),
            payload: AcSource::build_handshake_packet(0, 1, OP_HANDSHAKE),
        }
    );
    let subscribe = CaptureStep::Reply(AcSource::build_handshake_packet(0, 1, OP_SUBSCRIBE_UPDATE));
    assert_eq!(source.next_sample(&ac_packet(), 1), Ok(subscribe.clone()));
    assert_eq!(source.next_sample(&ac_packet(), 2), Ok(subscribe));
    source.subscribed();
    let frame = parse_ac_packet(&ac_packet(), 3).unwrap();
    assert_eq!(source.next_sample(&ac_packet(), 3), Ok(CaptureStep::Sample(frame)));
    assert_eq!(source.next_sample(&[0; 10], 4), Ok(CaptureStep::Skip));
    assert_eq!(
        source.stop(),
        Some(Datagram {
            target: "127.0.0.1:9996".to_string(),
            payload: AcSource::build_handshake_packet(0, 1, OP_DISMISS),
        })
    );
    assert_eq!(source.next_sample(&ac_packet(), 5), Err(CaptureError::Stopped));
}

#[test]
fn ac_target_is_configurable() {
    let mut config = CaptureConfig::default();
    config.target_host = Some("10.0.0.7".to_string());
    config.target_port = None;
    assert_eq!(AcSource::new(config.clone()).start().target, "10.0.0.7:9996");
    config.target_port = Some(1234);
    assert_eq!(AcSource::new(config).start().target, "10.0.0.7:1234");
}

#[test]
fn acc_registration_packet() {
    let mut config = AccCaptureConfig::default();
    config.display_name = "A\u{1f3ce}".to_string();
    config.connection_password = "pw".to_string();
    config.update_interval_ms = 0xffff_ff9c;
    let expected = vec![
        1, 4, // message type, version
        3, 0, b'A', 0, 0x3c, 0xd8, 0xce, 0xdf, // name
        2, 0, b'p', 0, b'w', 0, // password
        0x9c, 0xff, 0xff, 0xff, // interval
        0, 0, // command password
    ];
    assert_eq!(AccSource::build_registration_packet(&config), expected);
}

#[test]
fn acc_names_of_many_units_are_counted_modulo_two_bytes() {
    let mut config = AccCaptureConfig::default();
    config.display_name = "x".repeat(65_536 + 300);
    let packet = AccSource::build_registration_packet(&config);
    assert_eq!(packet.len(), 12 + 2 * 65_836);
    assert_eq!(&packet[2..4], &[44, 1]);
}

#[test]
fn acc_follows_the_latest_session_update_and_registration() {
    let mut source = AccSource::new(AccCaptureConfig::default());
    source.start();
    for packet in [
        registration_answer(5, 1),
        realtime_packet(1, 1.0, 3),
        registration_answer(6, 1),
        realtime_packet(1, 2.0, 8),
        registration_answer(7, 0),
        realtime_packet(1, 3.0, 9)[..17].to_vec(),
    ] {
        assert_eq!(source.next_sample(&packet, 0), Ok(CaptureStep::Skip));
    }
    assert_eq!(source.next_sample(&car_packet(3), 0), Ok(CaptureStep::Skip));
    assert_eq!(source.next_sample(&car_packet(9), 0), Ok(CaptureStep::Skip));
    assert_eq!(source.next_sample(&car_packet(8), 0), Ok(CaptureStep::Car(car(8))));
    assert_eq!(source.stop().map(|d| d.payload), Some(vec![9, 6, 0, 0, 0]));
}

#[test]
fn acc_parsers() {
    assert_eq!(AccSource::parse_registration_result(&registration_answer(5, 1)), Some((5, true)));
    assert_eq!(AccSource::parse_registration_result(&registration_answer(-5, 2)), Some((-5, false)));
    assert_eq!(AccSource::parse_registration_result(&registration_answer(5, 1)[..6]), None);
    assert_eq!(
        AccSource::parse_realtime_update(&realtime_packet(10, 1.5, 77)),
        Some(RealtimeUpdate { session_type: 10, session_time: number(1.5), focused_car_index: 77 })
    );
    assert_eq!(AccSource::parse_realtime_update(&realtime_packet(10, 1.5, 77)[..17]), None);
    assert_eq!(AccSource::parse_car_update(&car_packet(300)), Some(car(300)));
    assert_eq!(AccSource::parse_car_update(&car_packet(300)[..69]), None);
}

#[test]
fn acc_packets_that_cannot_be_taken() {
    assert!(AccSource::can_take(&[]));
    assert!(!AccSource::can_take(&realtime_packet(0, 0.0, 0)[..18]));
    assert!(AccSource::can_take(&realtime_packet(0, 0.0, 0)));
    assert!(AccSource::can_take(&realtime_packet(0, 0.0, 0)[..17]));
    for len in 70..91 {
        assert!(!AccSource::can_take(&car_packet(0)[..len]));
    }
    assert!(AccSource::can_take(&car_packet(0)));
    assert!(AccSource::can_take(&car_packet(0)[..69]));
    assert!(AccSource::can_take(&[9; 18]));
}

#[test]
fn acc_conversation() {
    let mut source = AccSource::new(AccCaptureConfig::default());
    assert_eq!(source.name(), "Assetto Corsa Competizione");
    assert_eq!(source.source_rate_hz(), 10);
    assert_eq!(source.bind_address(), "0.0.0.0:20582");
    assert_eq!(source.next_sample(&car_packet(1), 0), Err(CaptureError::Stopped));
    let hello = source.start();
    assert_eq!(hello.target, "127.0.0.1:9000");
    assert_eq!(
        hello.payload,
        AccSource::build_registration_packet(&AccCaptureConfig::default())
    );

    // No car is followed before the first session update.
    assert_eq!(source.next_sample(&car_packet(0), 0), Ok(CaptureStep::Skip));
    assert_eq!(source.next_sample(&car_packet(65535), 0), Ok(CaptureStep::Skip));
    assert_eq!(source.next_sample(&realtime_packet(10, 1.5, 300), 0), Ok(CaptureStep::Skip));
    assert_eq!(source.next_sample(&car_packet(301), 0), Ok(CaptureStep::Skip));
    assert_eq!(source.next_sample(&car_packet(300), 0), Ok(CaptureStep::Car(car(300))));
    assert_eq!(source.next_sample(&[], 0), Ok(CaptureStep::Skip));
    assert_eq!(source.next_sample(&[200, 1, 2], 0), Ok(CaptureStep::Skip));

    let frame = source.frame(car(300), number(46.8), 123);
    assert_eq!(frame.timestamp, 123);
    assert_eq!(frame.speed, number(46.8));
    assert_eq!((frame.throttle, frame.brake, frame.steering), (number(0.0), number(0.0), number(0.0)));
    assert_eq!((frame.gear, frame.rpm), (5, 0));
    assert_eq!(frame.normalized_position, number(0.625));
    assert_eq!((frame.lap_number, frame.lap_time), (7, 45_678));
    assert_eq!(frame.session_time, Some(number(1.5)));
    assert_eq!(frame.session_type, Some(10));
    assert_eq!(frame.track_position, Some(11));
    assert_eq!(frame.delta, Some(-250));

    // Without a registration there is nothing to undo.
    assert_eq!(source.stop(), None);
    assert_eq!(source.next_sample(&car_packet(300), 0), Err(CaptureError::Stopped));
}

#[test]
fn acc_registrations_are_undone() {
    let mut source = AccSource::new(AccCaptureConfig::default());
    source.start();
    assert_eq!(source.next_sample(&registration_answer(6, 0), 0), Ok(CaptureStep::Skip));
    assert_eq!(source.stop(), None);
    source.start();
    assert_eq!(source.next_sample(&registration_answer(0x0102_0304, 1), 0), Ok(CaptureStep::Skip));
    let bye = source.stop().unwrap();
    assert_eq!(bye.target, "127.0.0.1:9000");
    assert_eq!(bye.payload, vec![9, 4, 3, 2, 1]);
    assert_eq!(AccSource::build_unregistration_packet(-1), vec![9, 255, 255, 255, 255]);
}
