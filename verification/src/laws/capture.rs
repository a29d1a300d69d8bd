//! Laws of the capture sources.

use vstd::prelude::*;
use vstd::string::*;

use super::basics::{
    code_points, patterns_from_minus_one_to_one, patterns_from_zero_to_one,
};
use super::{is_numeral, le16, le32, twos};
use crate::capture::ac::AcSource;
use crate::capture::acc::{
    registration_packet_reads_back, AccCaptureConfig, AccSource, CarUpdate, RealtimeUpdate,
};
use crate::capture::{
    ac_frame, f32_at, parse_ac_packet, socket_address_text, CaptureConfig, CaptureError, CaptureStep, Datagram,
    TelemetrySource,
};
use crate::float32::Float32;
use crate::proto::TelemetryFrame;
use crate::text::{decimal, utf16};

verus! {

/// Whether a text is a socket address: the host, a colon and the port in decimal.
pub open spec fn is_address(text: Seq<char>, host: Seq<char>, port: u16) -> bool {
    exists|numeral: Seq<char>|
        #![trigger is_numeral(numeral, 10, port as int)]
        text == host + seq![':'] + numeral && is_numeral(numeral, 10, port as int)
}

/// The numeral in a text that ends in one.
proof fn addresses_end_in_the_port(text: Seq<char>, host: Seq<char>, port: u16)
    requires
        text == crate::capture::socket_address(host, port),
    ensures
        is_address(text, host, port),
{
    super::basics::decimals_are_numerals(port as nat);
    reveal_strlit(":");
    assert(":"@ =~= seq![':']);
    assert(text == host + seq![':'] + decimal(port as nat));
}

/// A socket address is the host, a colon and the port in decimal.
pub proof fn addresses_are_host_and_port(host: &str, port: u16, r: String)
    requires
        call_ensures(socket_address_text, (host, port), r),
    ensures
        is_address(r@, host@, port),
{
    addresses_end_in_the_port(r@, host@, port);
}

/// Whether a control from 0 to 1 is reported as it was received: unchanged within its range
/// or where it is not a number, and as the nearer bound beyond it.
pub open spec fn reported_from_zero_to_one(received: int, reported: Float32) -> bool {
    &&& received <= 0x3f80_0000 || received == 0x8000_0000 ==> reported.bits == received
    &&& 0x3f80_0000 < received <= 0x7f80_0000 ==> reported.bits == 0x3f80_0000
    &&& 0x8000_0000 < received <= 0xff80_0000 ==> reported.bits == 0
    &&& 0x7f80_0000 < received < 0x8000_0000 || received > 0xff80_0000 ==> reported.bits
        == received
}

/// Whether a control from -1 to 1 is reported as it was received: unchanged within its range
/// or where it is not a number, and as the nearer bound beyond it.
pub open spec fn reported_from_minus_one_to_one(received: int, reported: Float32) -> bool {
    &&& received <= 0x3f80_0000 || 0x8000_0000 <= received <= 0xbf80_0000 ==> reported.bits
        == received
    &&& 0x3f80_0000 < received <= 0x7f80_0000 ==> reported.bits == 0x3f80_0000
    &&& 0xbf80_0000 < received <= 0xff80_0000 ==> reported.bits == 0xbf80_0000
    &&& 0x7f80_0000 < received < 0x8000_0000 || received > 0xff80_0000 ==> reported.bits
        == received
}

/// Whether a frame reports what stands in an Assetto Corsa packet.
pub open spec fn reports_ac_packet(p: Seq<u8>, timestamp: i64, frame: TelemetryFrame) -> bool {
    &&& frame.timestamp == timestamp
    &&& frame.speed.bits == le32(p, 8)
    &&& frame.lap_time == twos(le32(p, 40))
    &&& frame.lap_number == twos(le32(p, 52))
    &&& reported_from_zero_to_one(le32(p, 56), frame.throttle)
    &&& reported_from_zero_to_one(le32(p, 60), frame.brake)
    &&& frame.rpm == twos(le32(p, 68))
    &&& reported_from_minus_one_to_one(le32(p, 72), frame.steering)
    &&& frame.gear == twos(le32(p, 76))
    &&& reported_from_zero_to_one(le32(p, 308), frame.normalized_position)
    &&& frame.session_time is None
    &&& frame.session_type is None
    &&& frame.track_position is None
    &&& frame.delta is None
}

/// A number clamped to the range from 0 to 1, by its bit pattern.
proof fn clamped_from_zero_to_one(x: Float32)
    ensures
        reported_from_zero_to_one(
            x.bits as int,
            x.clamped(Float32 { bits: 0 }, Float32 { bits: 0x3f80_0000 }),
        ),
{
    patterns_from_zero_to_one(x);
}

/// A number clamped to the range from -1 to 1, by its bit pattern.
proof fn clamped_from_minus_one_to_one(x: Float32)
    ensures
        reported_from_minus_one_to_one(
            x.bits as int,
            x.clamped(Float32 { bits: 0xbf80_0000 }, Float32 { bits: 0x3f80_0000 }),
        ),
{
    patterns_from_minus_one_to_one(x);
}

/// The frame that the model of an Assetto Corsa packet gives.
proof fn ac_frames_report_their_packet(packet: Seq<u8>, timestamp: i64)
    requires
        packet.len() >= 312,
    ensures
        reports_ac_packet(packet, timestamp, ac_frame(packet, timestamp)),
{
    let frame = ac_frame(packet, timestamp);
    assert(reported_from_zero_to_one(le32(packet, 56), frame.throttle)) by {
        clamped_from_zero_to_one(f32_at(packet, 56));
    }
    assert(reported_from_zero_to_one(le32(packet, 60), frame.brake)) by {
        clamped_from_zero_to_one(f32_at(packet, 60));
    }
    assert(reported_from_minus_one_to_one(le32(packet, 72), frame.steering)) by {
        clamped_from_minus_one_to_one(f32_at(packet, 72));
    }
    assert(reported_from_zero_to_one(le32(packet, 308), frame.normalized_position)) by {
        clamped_from_zero_to_one(f32_at(packet, 308));
    }
}

/// An Assetto Corsa packet of 312 bytes or more gives a frame with each number as it stands
/// in the packet, controls beyond their range as the nearer bound; a shorter one is refused
/// with both lengths.
pub proof fn ac_packets_are_reported(
    buf: &[u8],
    timestamp: i64,
    r: Result<TelemetryFrame, CaptureError>,
)
    requires
        call_ensures(parse_ac_packet, (buf, timestamp), r),
    ensures
        match r {
            Ok(frame) => buf@.len() >= 312 && reports_ac_packet(buf@, timestamp, frame),
            Err(e) => {
                &&& buf@.len() < 312
                &&& e matches CaptureError::PacketTooSmall { got, min } && got == buf@.len() && min
                    == 312
            },
        },
{
    if buf@.len() >= 312 {
        ac_frames_report_their_packet(buf@, timestamp);
    }
}

/// Each capture error is described by its kind and what it holds.
pub proof fn capture_errors_are_described(e: &CaptureError, r: String)
    requires
        call_ensures(CaptureError::message, (e,), r),
    ensures
        match *e {
            CaptureError::Io(reason) => r@ == "IO error: "@ + reason@,
            CaptureError::PacketTooSmall { got, min } => exists|a: Seq<char>, b: Seq<char>|
                #![trigger is_numeral(a, 10, got as int), is_numeral(b, 10, min as int)]
                {
                    &&& is_numeral(a, 10, got as int)
                    &&& is_numeral(b, 10, min as int)
                    &&& r@ == "Packet too small: got "@ + a + " bytes, need at least "@ + b
                },
            CaptureError::HandshakeFailed(reason) => r@ == "Handshake failed: "@ + reason@,
            CaptureError::SharedMemoryUnavailable(reason) => r@ == "Shared memory not available: "@
                + reason@,
            CaptureError::Stopped => r@ == "Capture source stopped"@,
        },
{
    if let CaptureError::PacketTooSmall { got, min } = *e {
        super::basics::decimals_are_numerals(got as nat);
        super::basics::decimals_are_numerals(min as nat);
    }
}

/// Whether bytes are a handshake packet: three integers.
pub open spec fn is_handshake(p: Seq<u8>, identifier: i32, version: i32, operation: int) -> bool {
    &&& p.len() == 12
    &&& twos(le32(p, 0)) == identifier
    &&& twos(le32(p, 4)) == version
    &&& twos(le32(p, 8)) == operation
}

/// A handshake packet holds identifier, version and operation, each in full.
pub proof fn handshakes_hold_their_fields(
    identifier: i32,
    version: i32,
    operation: i32,
    r: Vec<u8>,
)
    requires
        call_ensures(AcSource::build_handshake_packet, (identifier, version, operation), r),
    ensures
        is_handshake(r@, identifier, version, operation as int),
{
    crate::capture::ac::handshake_packet_reads_back(identifier, version, operation);
}

/// The host that a game is expected on.
pub open spec fn is_target(
    text: Seq<char>,
    host: Option<String>,
    port: u16,
) -> bool {
    match host {
        Some(host) => is_address(text, host@, port),
        None => is_address(text, "127.0.0.1"@, port),
    }
}

/// The address that an Assetto Corsa game is expected on: host and port as configured, with
/// the local machine and the game's own port as defaults.
pub open spec fn is_ac_target(text: Seq<char>, config: CaptureConfig) -> bool {
    is_target(
        text,
        config.target_host,
        match config.target_port {
            Some(port) => port,
            None => 9996,
        },
    )
}

/// A new source has its configuration, is stopped and has not subscribed.
pub proof fn ac_sources_begin_stopped(config: CaptureConfig, r: AcSource)
    requires
        call_ensures(AcSource::new, (config,), r),
    ensures
        r.config() == config,
        !r@.started,
        !r@.handshake_completed,
{
}

/// A source binds the configured address.
pub proof fn ac_sources_bind_their_address(source: &AcSource, r: String)
    requires
        call_ensures(<AcSource as TelemetrySource>::bind_address, (source,), r),
    ensures
        is_address(r@, source.config().udp_host@, source.config().udp_port),
{
    addresses_end_in_the_port(r@, source.config().udp_host@, source.config().udp_port);
}

/// A source starts with a handshake to the game, of version one, and keeps what it knew of an
/// earlier one.
pub proof fn ac_sources_start_with_a_handshake(source: &mut AcSource, r: Datagram)
    requires
        call_ensures(<AcSource as TelemetrySource>::start, (source,), r),
    ensures
        is_ac_target(r.target@, old(source).config()),
        is_handshake(r.payload@, 0, 1, 0),
        final(source).config() == old(source).config(),
        final(source)@.started,
        final(source)@.handshake_completed == old(source)@.handshake_completed,
{
    let config = old(source).config();
    addresses_end_in_the_port(
        r.target@,
        crate::capture::target_host(config),
        match config.target_port {
            Some(port) => port,
            None => 9996,
        },
    );
    crate::capture::ac::handshake_packet_reads_back(0, 1, 0);
}

/// A source that is not started takes nothing. A started one answers with a subscription
/// until it has subscribed, and from then on reports packets and skips those that are too
/// short. Packets alone never change where it stands.
pub proof fn ac_sources_subscribe_then_report(
    source: &mut AcSource,
    packet: &[u8],
    timestamp: i64,
    r: Result<CaptureStep, CaptureError>,
)
    requires
        call_ensures(<AcSource as TelemetrySource>::next_sample, (source, packet, timestamp), r),
    ensures
        *final(source) == *old(source),
        !old(source)@.started ==> r matches Err(CaptureError::Stopped),
        old(source)@.started && !old(source)@.handshake_completed ==> (r matches Ok(
            CaptureStep::Reply(payload),
        ) && is_handshake(payload@, 0, 1, 1)),
        old(source)@.started && old(source)@.handshake_completed && packet@.len() < 312
            ==> r matches Ok(CaptureStep::Skip),
        old(source)@.started && old(source)@.handshake_completed && packet@.len() >= 312 ==> (
        r matches Ok(CaptureStep::Sample(frame)) && reports_ac_packet(packet@, timestamp, frame)),
{
    crate::capture::ac::handshake_packet_reads_back(0, 1, 1);
    if packet@.len() >= 312 {
        ac_frames_report_their_packet(packet@, timestamp);
    }
}

/// Once its subscription has been sent, a source reports.
pub proof fn ac_subscriptions_are_remembered(source: &mut AcSource)
    requires
        call_ensures(AcSource::subscribed, (source,), ()),
    ensures
        final(source).config() == old(source).config(),
        final(source)@.started == old(source)@.started,
        final(source)@.handshake_completed,
{
}

/// A source that is started takes its leave of the game when it stops. After that it is
/// stopped, and has to subscribe anew.
pub proof fn ac_sources_take_their_leave(source: &mut AcSource, r: Option<Datagram>)
    requires
        call_ensures(<AcSource as TelemetrySource>::stop, (source,), r),
    ensures
        r is Some <==> old(source)@.started,
        r matches Some(bye) ==> {
            &&& is_ac_target(bye.target@, old(source).config())
            &&& is_handshake(bye.payload@, 0, 1, 3)
        },
        final(source).config() == old(source).config(),
        !final(source)@.started,
        !final(source)@.handshake_completed,
{
    let config = old(source).config();
    if let Some(bye) = r {
        addresses_end_in_the_port(
            bye.target@,
            crate::capture::target_host(config),
            match config.target_port {
                Some(port) => port,
                None => 9996,
            },
        );
    }
    crate::capture::ac::handshake_packet_reads_back(0, 1, 3);
}

/// Names, rates and refusals of the sources.
pub proof fn sources_introduce_themselves(
    ac: &AcSource,
    ac_name: &str,
    ac_rate: u32,
    acc: &AccSource,
    acc_name: &str,
    acc_rate: u32,
    reason: &str,
    ac_error: CaptureError,
    acc_error: CaptureError,
)
    requires
        call_ensures(<AcSource as TelemetrySource>::name, (ac,), ac_name),
        call_ensures(<AcSource as TelemetrySource>::source_rate_hz, (ac,), ac_rate),
        call_ensures(<AccSource as TelemetrySource>::name, (acc,), acc_name),
        call_ensures(<AccSource as TelemetrySource>::source_rate_hz, (acc,), acc_rate),
        call_ensures(AcSource::target_rejected, (reason,), ac_error),
        call_ensures(AccSource::target_rejected, (reason,), acc_error),
    ensures
        ac_name@ == "Assetto Corsa"@ && ac_rate == 60,
        acc_name@ == "Assetto Corsa Competizione"@ && acc_rate == 10,
        ac_error matches CaptureError::HandshakeFailed(text) && text@ == "Invalid target address: "@
            + reason@,
        acc_error matches CaptureError::HandshakeFailed(text) && text@ == "Invalid target: "@
            + reason@,
{
}

/// A registration result gives connection id and success as they stand in it.
pub proof fn registration_results_are_read(buf: &[u8], r: Option<(i32, bool)>)
    requires
        call_ensures(AccSource::parse_registration_result, (buf,), r),
    ensures
        r is None <==> buf@.len() < 7,
        r matches Some((connection_id, success)) ==> {
            &&& connection_id == twos(le32(buf@, 1))
            &&& success <==> buf@[5] == 1
        },
{
}

/// Whether a session state is what stands in a session update.
pub open spec fn reports_session(p: Seq<u8>, update: RealtimeUpdate) -> bool {
    &&& update.session_type == p[5]
    &&& update.session_time.bits == le32(p, 7)
    &&& update.focused_car_index == twos(le32(p, 15))
}

/// A session update gives each number as it stands in it.
pub proof fn session_updates_are_read(buf: &[u8], r: Option<RealtimeUpdate>)
    requires
        buf@.len() != 18,
        call_ensures(AccSource::parse_realtime_update, (buf,), r),
    ensures
        r is None <==> buf@.len() < 18,
        r matches Some(update) ==> reports_session(buf@, update),
{
}

/// Whether a car state is what stands in a car update.
pub open spec fn reports_car(p: Seq<u8>, car: CarUpdate) -> bool {
    &&& car.car_index == le16(p, 1)
    &&& car.gear == p[6]
    &&& car.velocity_x.bits == le32(p, 19)
    &&& car.velocity_y.bits == le32(p, 23)
    &&& car.velocity_z.bits == le32(p, 27)
    &&& car.current_lap == le16(p, 63)
    &&& car.delta == twos(le32(p, 65))
    &&& car.current_lap_time == twos(le32(p, 77))
    &&& car.track_position == le16(p, 85)
    &&& car.spline_position.bits == le32(p, 87)
}

/// A car update gives each number as it stands in it, over its full range.
pub proof fn car_updates_are_read(buf: &[u8], r: Option<CarUpdate>)
    requires
        !(70 <= buf@.len() < 91),
        call_ensures(AccSource::parse_car_update, (buf,), r),
    ensures
        r is None <==> buf@.len() < 70,
        r matches Some(car) ==> reports_car(buf@, car),
{
}

/// Fields that are written at their places in a car update by the wire encoders are read back
/// as they were written.
pub proof fn written_car_updates_are_read_back(
    buf: &[u8],
    lap: u16,
    delta: i32,
    lap_time: i32,
    position: u16,
    r: Option<CarUpdate>,
)
    requires
        buf@.len() >= 91,
        buf@.subrange(63, 65) == crate::wire::u16_bytes(lap),
        buf@.subrange(65, 69) == crate::wire::i32_bytes(delta),
        buf@.subrange(77, 81) == crate::wire::i32_bytes(lap_time),
        buf@.subrange(85, 87) == crate::wire::u16_bytes(position),
        call_ensures(AccSource::parse_car_update, (buf,), r),
    ensures
        r matches Some(car) && car.current_lap == lap && car.delta == delta && car.current_lap_time
            == lap_time && car.track_position == position,
{
    let p = buf@;
    let none = Seq::<u8>::empty();
    crate::wire::u16_round_trip(none, lap, none);
    crate::wire::i32_round_trip(none, delta, none);
    crate::wire::i32_round_trip(none, lap_time, none);
    crate::wire::u16_round_trip(none, position, none);
    assert(none + crate::wire::u16_bytes(lap) + none =~= p.subrange(63, 65));
    assert(none + crate::wire::i32_bytes(delta) + none =~= p.subrange(65, 69));
    assert(none + crate::wire::i32_bytes(lap_time) + none =~= p.subrange(77, 81));
    assert(none + crate::wire::u16_bytes(position) + none =~= p.subrange(85, 87));
}

/// A packet can be taken unless it is a session update that lacks its last byte, or a car
/// update that is cut off in its second half.
pub proof fn cut_off_packets_are_told(packet: &[u8], r: bool)
    requires
        call_ensures(AccSource::can_take, (packet,), r),
    ensures
        !r <==> (packet@.len() == 18 && packet@[0] == 2) || (70 <= packet@.len() <= 90 && packet@[0]
            == 3),
{
}

/// Whether a frame reports a car: as it is in its update, with the session as last reported,
/// and nothing of what the protocol does not tell.
pub open spec fn reports_frame(
    session: RealtimeUpdate,
    car: CarUpdate,
    speed: Float32,
    timestamp: i64,
    frame: TelemetryFrame,
) -> bool {
    &&& frame.timestamp == timestamp
    &&& frame.speed == speed
    &&& frame.gear == car.gear
    &&& frame.normalized_position == car.spline_position
    &&& frame.lap_number == car.current_lap
    &&& frame.lap_time == car.current_lap_time
    &&& frame.track_position == Some(car.track_position)
    &&& frame.delta == Some(car.delta)
    &&& frame.session_time == Some(session.session_time)
    &&& frame.session_type == Some(session.session_type)
    &&& frame.throttle.bits == 0 && frame.brake.bits == 0 && frame.steering.bits == 0
    &&& frame.rpm == 0
}

/// A frame reports the car, the session as last reported, and the speed and time handed in.
pub proof fn car_updates_become_frames(
    source: &AccSource,
    car: CarUpdate,
    speed: Float32,
    timestamp: i64,
    r: TelemetryFrame,
)
    requires
        call_ensures(AccSource::frame, (source, car, speed, timestamp), r),
    ensures
        reports_frame(source@.latest_realtime, car, speed, timestamp, r),
{
}

/// A new source has its configuration, is stopped and unregistered, and follows no car.
pub proof fn acc_sources_begin_stopped(config: AccCaptureConfig, r: AccSource)
    requires
        call_ensures(AccSource::new, (config,), r),
    ensures
        r.config() == config,
        !r@.started,
        !r@.is_registered,
        r@.connection_id < 0,
        r@.focused_car_index < 0,
        r@.latest_realtime.session_type == 0,
        r@.latest_realtime.session_time.bits == 0,
{
}

/// A source binds the configured address.
pub proof fn acc_sources_bind_their_address(source: &AccSource, r: String)
    requires
        call_ensures(<AccSource as TelemetrySource>::bind_address, (source,), r),
    ensures
        is_address(r@, source.config().base.udp_host@, source.config().base.udp_port),
{
    addresses_end_in_the_port(
        r@,
        source.config().base.udp_host@,
        source.config().base.udp_port,
    );
}

/// Whether bytes from `at` on are a text: the number of its code units modulo 2^16, and its
/// code units, which stand for its characters.
pub open spec fn is_text_at(p: Seq<u8>, at: int, count: int, text: Seq<char>) -> bool {
    exists|units: Seq<u16>|
        #![trigger code_points(units)]
        {
            &&& units.len() == count
            &&& le16(p, at) == count % 65_536
            &&& forall|i: int| 0 <= i < count ==> le16(p, at + 2 + 2 * i) == #[trigger] units[i]
            &&& code_points(units) == text.map_values(|c: char| c as int)
        }
}

/// Whether bytes are a registration: type and version, display name, password, interval, and
/// an empty command password.
pub open spec fn is_registration(p: Seq<u8>, config: AccCaptureConfig) -> bool {
    exists|n: int, m: int|
        #![trigger is_text_at(p, 2, n, config.display_name@), is_text_at(
            p,
            4 + 2 * n,
            m,
            config.connection_password@,
        )]
        {
            &&& n >= 0 && m >= 0
            &&& p.len() == 12 + 2 * n + 2 * m
            &&& p[0] == 1
            &&& p[1] == 4
            &&& is_text_at(p, 2, n, config.display_name@)
            &&& is_text_at(p, 4 + 2 * n, m, config.connection_password@)
            &&& le32(p, 6 + 2 * n + 2 * m) == config.update_interval_ms
            &&& le16(p, 10 + 2 * n + 2 * m) == 0
        }
}

/// The registration packet of the model.
proof fn registrations_hold_the_settings(config: AccCaptureConfig)
    ensures
        is_registration(crate::capture::acc::registration_packet(config), config),
{
    let p = crate::capture::acc::registration_packet(config);
    let name = utf16(config.display_name@);
    let password = utf16(config.connection_password@);
    registration_packet_reads_back(config);
    super::basics::texts_are_decoded(config.display_name@, seq![]);
    super::basics::texts_are_decoded(config.connection_password@, seq![]);
    assert(name + seq![] =~= name);
    assert(password + seq![] =~= password);
    let no_points = Seq::<int>::empty();
    assert(config.display_name@.map_values(|c: char| c as int) + no_points
        =~= config.display_name@.map_values(|c: char| c as int));
    assert(config.connection_password@.map_values(|c: char| c as int) + no_points
        =~= config.connection_password@.map_values(|c: char| c as int));
    let n = name.len() as int;
    let m = password.len() as int;
    assert(code_points(name) == config.display_name@.map_values(|c: char| c as int));
    assert(code_points(password) == config.connection_password@.map_values(|c: char| c as int));
    assert forall|i: int| 0 <= i < n implies le16(p, 2 + 2 + 2 * i) == #[trigger] name[i] by {
        assert(crate::wire::u16_at(p, 4 + 2 * i) == name[i]);
    }
    assert forall|i: int| 0 <= i < m implies le16(p, 4 + 2 * n + 2 + 2 * i)
        == #[trigger] password[i] by {
        assert(crate::wire::u16_at(p, 6 + 2 * n + 2 * i) == password[i]);
    }
    assert(is_text_at(p, 2, n, config.display_name@));
    assert(is_text_at(p, 4 + 2 * n, m, config.connection_password@));
}

/// A registration holds type and version, display name, password and interval in full, and an
/// empty command password.
pub proof fn registrations_are_whole(config: &AccCaptureConfig, r: Vec<u8>)
    requires
        call_ensures(AccSource::build_registration_packet, (config,), r),
    ensures
        is_registration(r@, *config),
{
    registrations_hold_the_settings(*config);
}

/// Whether bytes are an unregistration of a connection.
pub open spec fn is_unregistration(p: Seq<u8>, connection_id: i32) -> bool {
    p.len() == 5 && p[0] == 9 && twos(le32(p, 1)) == connection_id
}

/// An unregistration names the connection in full.
pub proof fn unregistrations_name_the_connection(connection_id: i32, r: Vec<u8>)
    requires
        call_ensures(AccSource::build_unregistration_packet, (connection_id,), r),
    ensures
        is_unregistration(r@, connection_id),
{
    crate::capture::acc::unregistration_packet_reads_back(connection_id);
}

/// A source starts by registering with the game, and keeps what it knew before.
pub proof fn acc_sources_start_with_a_registration(source: &mut AccSource, r: Datagram)
    requires
        call_ensures(<AccSource as TelemetrySource>::start, (source,), r),
    ensures
        is_target(
            r.target@,
            old(source).config().base.target_host,
            old(source).config().broadcast_port,
        ),
        is_registration(r.payload@, old(source).config()),
        final(source).config() == old(source).config(),
        final(source)@.started,
        final(source)@.is_registered == old(source)@.is_registered,
        final(source)@.connection_id == old(source)@.connection_id,
        final(source)@.focused_car_index == old(source)@.focused_car_index,
        final(source)@.latest_realtime == old(source)@.latest_realtime,
{
    let config = old(source).config();
    addresses_end_in_the_port(
        r.target@,
        crate::capture::target_host(config.base),
        config.broadcast_port,
    );
    registrations_hold_the_settings(config);
}

/// What a source makes of a packet. One that is not started takes nothing. A successful
/// registration is remembered, a session update sets the session and the car to follow, an
/// update of that car is handed on, and everything else is skipped and changes nothing.
pub proof fn acc_sources_follow_the_game(
    source: &mut AccSource,
    packet: &[u8],
    timestamp: i64,
    r: Result<CaptureStep, CaptureError>,
)
    requires
        !(packet@.len() == 18 && packet@[0] == 2),
        !(70 <= packet@.len() <= 90 && packet@[0] == 3),
        call_ensures(<AccSource as TelemetrySource>::next_sample, (source, packet, timestamp), r),
    ensures
        ({
            let p = packet@;
            let before = old(source)@;
            let after = final(source)@;
            let registers = before.started && p.len() >= 7 && p[0] == 1 && p[5] == 1;
            let updates = before.started && p.len() >= 19 && p[0] == 2;
            let is_car = before.started && p.len() >= 91 && p[0] == 3 && le16(p, 1)
                == before.focused_car_index;
            &&& final(source).config() == old(source).config()
            &&& after.started == before.started
            &&& !before.started <==> r is Err
            &&& r matches Err(e) ==> e is Stopped
            &&& if registers {
                after.is_registered && after.connection_id == twos(le32(p, 1))
            } else {
                after.is_registered == before.is_registered && after.connection_id
                    == before.connection_id
            }
            &&& if updates {
                reports_session(p, after.latest_realtime) && after.focused_car_index == twos(
                    le32(p, 15),
                )
            } else {
                after.latest_realtime == before.latest_realtime && after.focused_car_index
                    == before.focused_car_index
            }
            &&& is_car ==> (r matches Ok(CaptureStep::Car(car)) && reports_car(p, car))
            &&& before.started && !is_car ==> r matches Ok(CaptureStep::Skip)
        }),
{
}

/// A source that is started and holds a connection ends it when it stops. After that it is
/// stopped and holds none, but still knows the session.
pub proof fn acc_sources_unregister(source: &mut AccSource, r: Option<Datagram>)
    requires
        call_ensures(<AccSource as TelemetrySource>::stop, (source,), r),
    ensures
        r is Some <==> old(source)@.started && old(source)@.connection_id >= 0,
        r matches Some(bye) ==> {
            &&& is_target(
                bye.target@,
                old(source).config().base.target_host,
                old(source).config().broadcast_port,
            )
            &&& is_unregistration(bye.payload@, old(source)@.connection_id)
        },
        final(source).config() == old(source).config(),
        !final(source)@.started,
        !final(source)@.is_registered,
        final(source)@.connection_id == -1,
        final(source)@.focused_car_index == old(source)@.focused_car_index,
        final(source)@.latest_realtime == old(source)@.latest_realtime,
{
    let config = old(source).config();
    if let Some(bye) = r {
        addresses_end_in_the_port(
            bye.target@,
            crate::capture::target_host(config.base),
            config.broadcast_port,
        );
        crate::capture::acc::unregistration_packet_reads_back(old(source)@.connection_id);
    }
}

/// What capture is configured to unless told otherwise.
pub proof fn capture_defaults(base: CaptureConfig, acc: AccCaptureConfig)
    requires
        call_ensures(<CaptureConfig as Default>::default, (), base),
        call_ensures(<AccCaptureConfig as Default>::default, (), acc),
    ensures
        base.udp_port == 9997 && base.udp_host@ == "0.0.0.0"@,
        base.target_host is None && base.target_port == Some(9996u16),
        acc.base.udp_port == 20582 && acc.base.udp_host@ == "0.0.0.0"@,
        acc.base.target_host matches Some(host) && host@ == "127.0.0.1"@,
        acc.base.target_port is None,
        acc.broadcast_port == 9000 && acc.display_name@ == "PurpleSector"@,
        acc.connection_password@.len() == 0 && acc.update_interval_ms == 100,
{
}

/// Every packet, address and setting is taken, but for packets that are cut off.
pub proof fn captures_take_everything(
    buf: &[u8],
    timestamp: i64,
    host: &str,
    port: u16,
    a: i32,
    b: i32,
    c: i32,
    config: CaptureConfig,
    acc_config: AccCaptureConfig,
    ac: &mut AcSource,
    acc: &mut AccSource,
    seen: &AccSource,
    car: CarUpdate,
    speed: Float32,
)
    ensures
        call_requires(parse_ac_packet, (buf, timestamp)),
        call_requires(socket_address_text, (host, port)),
        call_requires(AcSource::build_handshake_packet, (a, b, c)),
        call_requires(AcSource::new, (config,)),
        call_requires(AcSource::subscribed, (ac,)),
        call_requires(<AcSource as TelemetrySource>::start, (ac,)),
        call_requires(<AcSource as TelemetrySource>::next_sample, (ac, buf, timestamp)),
        call_requires(<AcSource as TelemetrySource>::stop, (ac,)),
        call_requires(AccSource::new, (acc_config,)),
        call_requires(AccSource::build_registration_packet, (&acc_config,)),
        call_requires(AccSource::build_unregistration_packet, (a,)),
        call_requires(AccSource::parse_registration_result, (buf,)),
        call_requires(AccSource::can_take, (buf,)),
        buf@.len() != 18 ==> call_requires(AccSource::parse_realtime_update, (buf,)),
        !(70 <= buf@.len() <= 90) ==> call_requires(AccSource::parse_car_update, (buf,)),
        call_requires(<AccSource as TelemetrySource>::start, (acc,)),
        !(buf@.len() == 18 && buf@[0] == 2) && !(70 <= buf@.len() <= 90 && buf@[0] == 3)
            ==> call_requires(
            <AccSource as TelemetrySource>::next_sample,
            (acc, buf, timestamp),
        ),
        call_requires(<AccSource as TelemetrySource>::stop, (acc,)),
        call_requires(AccSource::frame, (seen, car, speed, timestamp)),
{
}

} // verus!
