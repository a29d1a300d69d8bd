//! Assetto Corsa Competizione telemetry capture over the game's broadcasting protocol.
//!
//! The conversation with the game:
//! 1. the source sends a registration;
//! 2. the game answers with a registration result;
//! 3. the game sends session updates and one update per car, at about 10 Hz;
//! 4. when it stops, the source sends an unregistration.
//!
//! Throttle, brake, steering and engine speed are not part of the protocol and stay zero.

use vstd::prelude::*;
use vstd::string::*;

use super::{
    f32_at, read_f32, socket_address, socket_address_text, target_host, target_host_text,
    CaptureConfig, CaptureError, CaptureStep, Datagram, TelemetrySource,
};
use crate::float32::Float32;
use crate::proto::TelemetryFrame;
use crate::text::{encode_utf16, joined, utf16};
use crate::wire::{
    i32_at, i32_bytes, i32_round_trip, push_i32, push_u16, read_i32, read_u16, signed32,
    to_signed32, u16_at, u16_bytes, u16_round_trip,
};

verus! {

/// Outbound: registers with the game.
pub const REGISTER_COMMAND_APPLICATION: u8 = 1;

/// Outbound: ends a registration.
pub const UNREGISTER_COMMAND_APPLICATION: u8 = 9;

/// The version of the broadcasting protocol.
pub const PROTOCOL_VERSION: u8 = 4;

/// Inbound: answers a registration.
pub const REGISTRATION_RESULT: u8 = 1;

/// Inbound: the state of the session.
pub const REALTIME_UPDATE: u8 = 2;

/// Inbound: the state of one car.
pub const REALTIME_CAR_UPDATE: u8 = 3;

/// Configuration of an Assetto Corsa Competizione source.
#[derive(Debug, Clone, PartialEq, Eq)]
pub struct AccCaptureConfig {
    pub base: CaptureConfig,
    /// The game's broadcast port.
    pub broadcast_port: u16,
    /// Display name for the registration.
    pub display_name: String,
    /// Connection password, from the game's broadcasting.json.
    pub connection_password: String,
    /// Update interval requested from the game, in ms.
    pub update_interval_ms: u32,
}

impl Default for AccCaptureConfig {
    fn default() -> (r: AccCaptureConfig)
        ensures
            r.base.udp_port == 20582,
            r.base.udp_host@ == "0.0.0.0"@,
            r.base.target_host matches Some(host) && host@ == "127.0.0.1"@,
            r.base.target_port is None,
            r.broadcast_port == 9000,
            r.display_name@ == "PurpleSector"@,
            r.connection_password@ == Seq::<char>::empty(),
            r.update_interval_ms == 100,
    {
        AccCaptureConfig {
            base: CaptureConfig {
                udp_port: 20582,
                udp_host: "0.0.0.0".to_owned(),
                target_host: Some("127.0.0.1".to_owned()),
                target_port: None,
            },
            broadcast_port: 9000,
            display_name: "PurpleSector".to_owned(),
            connection_password: String::new(),
            update_interval_ms: 100,
        }
    }
}

/// The state of the session, as last reported by the game.
#[derive(Debug, Clone, Copy, PartialEq, Eq)]
pub struct RealtimeUpdate {
    pub session_type: i32,
    pub session_time: Float32,
    pub focused_car_index: i32,
}

/// The state of one car.
#[derive(Debug, Clone, Copy, PartialEq, Eq)]
pub struct CarUpdate {
    pub car_index: u16,
    pub gear: i32,
    /// Velocity along the three axes, in metres per second.
    pub velocity_x: Float32,
    pub velocity_y: Float32,
    pub velocity_z: Float32,
    pub current_lap: i32,
    pub delta: i32,
    pub current_lap_time: i32,
    pub track_position: i32,
    pub spline_position: Float32,
}

/// The connection id and success flag in a registration result.
pub open spec fn registration_result(packet: Seq<u8>) -> Option<(i32, bool)> {
    if packet.len() < 7 {
        None
    } else {
        Some((i32_at(packet, 1), packet[5] == 1))
    }
}

/// The session state in a session update: after the message type come event index (2
/// bytes), session index (2), session type (1), phase (1), session time (4), session end
/// time (4) and the focused car (4).
pub open spec fn realtime_update(packet: Seq<u8>) -> Option<RealtimeUpdate> {
    if packet.len() < 18 {
        None
    } else {
        Some(
            RealtimeUpdate {
                session_type: packet[5] as i32,
                session_time: f32_at(packet, 7),
                focused_car_index: i32_at(packet, 15),
            },
        )
    }
}

/// The car state in a car update: after the message type come car index (2 bytes),
/// driver index (2), driver count (1), gear (1), world position (12), velocity (12),
/// rotation (12), damage (20), current lap (2), delta (4), best session lap (4), last lap
/// (4), current lap time (4), laps (2), cup position (2), track position (2) and spline
/// position (4).
pub open spec fn car_update(packet: Seq<u8>) -> Option<CarUpdate> {
    if packet.len() < 70 {
        None
    } else {
        Some(
            CarUpdate {
                car_index: u16_at(packet, 1),
                gear: packet[6] as i32,
                velocity_x: f32_at(packet, 19),
                velocity_y: f32_at(packet, 23),
                velocity_z: f32_at(packet, 27),
                current_lap: u16_at(packet, 63) as i32,
                delta: i32_at(packet, 65),
                current_lap_time: i32_at(packet, 77),
                track_position: u16_at(packet, 85) as i32,
                spline_position: f32_at(packet, 87),
            },
        )
    }
}

/// The bytes of a run of UTF-16 code units.
pub open spec fn units_bytes(units: Seq<u16>) -> Seq<u8>
    decreases units.len(),
{
    if units.len() == 0 {
        seq![]
    } else {
        units_bytes(units.drop_last()) + u16_bytes(units.last())
    }
}

/// A text on the wire: the number of its UTF-16 code units modulo 2^16, then the units.
pub open spec fn text_field(s: Seq<char>) -> Seq<u8> {
    u16_bytes((utf16(s).len() % 0x1_0000) as u16) + units_bytes(utf16(s))
}

/// The registration packet: message type, protocol version, display name, connection
/// password, update interval, and an empty command password.
pub open spec fn registration_packet(config: AccCaptureConfig) -> Seq<u8> {
    seq![REGISTER_COMMAND_APPLICATION, PROTOCOL_VERSION] + text_field(config.display_name@)
        + text_field(config.connection_password@) + i32_bytes(signed32(config.update_interval_ms))
        + u16_bytes(0)
}

/// The unregistration packet: message type and connection id.
pub open spec fn unregistration_packet(connection_id: i32) -> Seq<u8> {
    seq![UNREGISTER_COMMAND_APPLICATION] + i32_bytes(connection_id)
}

/// The address that the game is expected on.
pub open spec fn broadcast_address(config: AccCaptureConfig) -> Seq<char> {
    socket_address(target_host(config.base), config.broadcast_port)
}

/// Where an Assetto Corsa Competizione source stands.
pub struct AccModel {
    /// Whether the socket is bound.
    pub started: bool,
    /// The id of the registration, or a negative number.
    pub connection_id: i32,
    /// Whether the game has accepted the registration.
    pub is_registered: bool,
    /// The car whose updates become samples.
    pub focused_car_index: i32,
    /// The last session update.
    pub latest_realtime: RealtimeUpdate,
}

/// A packet is readable if it is long enough for what its message type and length
/// promise: a session update of 18 bytes lacks the last byte of its last field, and so do
/// car updates of 70 to 90 bytes.
pub open spec fn readable(packet: Seq<u8>) -> bool {
    packet.len() > 0 ==> {
        &&& packet[0] == REALTIME_UPDATE ==> packet.len() != 18
        &&& packet[0] == REALTIME_CAR_UPDATE ==> !(70 <= packet.len() < 91)
    }
}

/// Where a started source stands after a packet, and the car update it hands on.
pub open spec fn acc_receive(state: AccModel, packet: Seq<u8>) -> (AccModel, Option<CarUpdate>) {
    if packet.len() == 0 {
        (state, None)
    } else if packet[0] == REGISTRATION_RESULT {
        match registration_result(packet) {
            Some((connection_id, true)) => (
                AccModel { connection_id, is_registered: true, ..state },
                None,
            ),
            _ => (state, None),
        }
    } else if packet[0] == REALTIME_UPDATE {
        match realtime_update(packet) {
            Some(update) => (
                AccModel {
                    focused_car_index: update.focused_car_index,
                    latest_realtime: update,
                    ..state
                },
                None,
            ),
            None => (state, None),
        }
    } else if packet[0] == REALTIME_CAR_UPDATE {
        match car_update(packet) {
            Some(car) if car.car_index == state.focused_car_index => (state, Some(car)),
            _ => (state, None),
        }
    } else {
        (state, None)
    }
}

/// The frame of a car update whose speed has been derived from its velocity.
pub open spec fn acc_frame(
    session: RealtimeUpdate,
    car: CarUpdate,
    speed: Float32,
    timestamp: i64,
) -> TelemetryFrame {
    let zero = Float32 { bits: 0 };
    TelemetryFrame {
        timestamp,
        speed,
        throttle: zero,
        brake: zero,
        steering: zero,
        gear: car.gear,
        rpm: 0,
        normalized_position: car.spline_position,
        lap_number: car.current_lap,
        lap_time: car.current_lap_time,
        session_time: Some(session.session_time),
        session_type: Some(session.session_type),
        track_position: Some(car.track_position),
        delta: Some(car.delta),
    }
}

/// Appends a text on the wire.
fn push_text(buf: &mut Vec<u8>, s: &str)
    ensures
        final(buf)@ == old(buf)@ + text_field(s@),
{
    let units: Vec<u16> = encode_utf16(s);
    let count: u16 = (units.len() as u64 % 0x1_0000) as u16;
    push_u16(buf, count);
    let ghost head = buf@;
    let mut i: usize = 0;
    proof {
        assert(units@.take(0) =~= seq![]);
        assert(buf@ =~= head + units_bytes(units@.take(0)));
    }
    while i < units.len()
        invariant
            i <= units@.len(),
            buf@ == head + units_bytes(units@.take(i as int)),
        decreases units@.len() - i,
    {
        push_u16(buf, units[i]);
        proof {
            assert(units@.take(i + 1).drop_last() =~= units@.take(i as int));
            assert(buf@ =~= head + units_bytes(units@.take(i + 1)));
        }
        i = i + 1;
    }
    proof {
        assert(units@.take(i as int) =~= units@);
        assert(buf@ =~= old(buf)@ + text_field(s@));
    }
}

/// Assetto Corsa Competizione telemetry source.
pub struct AccSource {
    config: AccCaptureConfig,
    started: bool,
    connection_id: i32,
    is_registered: bool,
    focused_car_index: i32,
    latest_realtime: RealtimeUpdate,
}

impl View for AccSource {
    type V = AccModel;

    closed spec fn view(&self) -> AccModel {
        AccModel {
            started: self.started,
            connection_id: self.connection_id,
            is_registered: self.is_registered,
            focused_car_index: self.focused_car_index,
            latest_realtime: self.latest_realtime,
        }
    }
}

impl AccSource {
    /// The configuration of the source.
    pub closed spec fn config(&self) -> AccCaptureConfig {
        self.config
    }

    /// A source that is not started and follows no car.
    pub fn new(config: AccCaptureConfig) -> (r: AccSource)
        ensures
            r.config() == config,
            r@ == (AccModel {
                started: false,
                connection_id: -1i32,
                is_registered: false,
                focused_car_index: -1i32,
                latest_realtime: RealtimeUpdate {
                    session_type: 0,
                    session_time: Float32 { bits: 0 },
                    focused_car_index: 0,
                },
            }),
    {
        AccSource {
            config,
            started: false,
            connection_id: -1,
            is_registered: false,
            focused_car_index: -1,
            latest_realtime: RealtimeUpdate {
                session_type: 0,
                session_time: Float32 { bits: 0 },
                focused_car_index: 0,
            },
        }
    }

    /// Builds the registration packet.
    pub fn build_registration_packet(config: &AccCaptureConfig) -> (r: Vec<u8>)
        ensures
            r@ == registration_packet(*config),
    {
        let mut buf: Vec<u8> = Vec::new();
        buf.push(REGISTER_COMMAND_APPLICATION);
        buf.push(PROTOCOL_VERSION);
        push_text(&mut buf, config.display_name.as_str());
        push_text(&mut buf, config.connection_password.as_str());
        push_i32(&mut buf, to_signed32(config.update_interval_ms));
        push_u16(&mut buf, 0);
        proof {
            assert(buf@ =~= registration_packet(*config));
        }
        buf
    }

    /// Builds the unregistration packet.
    pub fn build_unregistration_packet(connection_id: i32) -> (r: Vec<u8>)
        ensures
            r@ == unregistration_packet(connection_id),
    {
        let mut buf: Vec<u8> = Vec::with_capacity(5);
        buf.push(UNREGISTER_COMMAND_APPLICATION);
        push_i32(&mut buf, connection_id);
        proof {
            assert(buf@ =~= unregistration_packet(connection_id));
        }
        buf
    }

    /// Parses a registration result.
    pub fn parse_registration_result(buf: &[u8]) -> (r: Option<(i32, bool)>)
        ensures
            r == registration_result(buf@),
    {
        if buf.len() < 7 {
            return None;
        }
        Some((read_i32(buf, 1), buf[5] == 1))
    }

    /// Parses a session update.
    pub fn parse_realtime_update(buf: &[u8]) -> (r: Option<RealtimeUpdate>)
        requires
            buf@.len() != 18,
        ensures
            r == realtime_update(buf@),
    {
        if buf.len() < 18 {
            return None;
        }
        Some(
            RealtimeUpdate {
                session_type: buf[5] as i32,
                session_time: read_f32(buf, 7),
                focused_car_index: read_i32(buf, 15),
            },
        )
    }

    /// Parses a car update.
    pub fn parse_car_update(buf: &[u8]) -> (r: Option<CarUpdate>)
        requires
            !(70 <= buf@.len() < 91),
        ensures
            r == car_update(buf@),
    {
        if buf.len() < 70 {
            return None;
        }
        Some(
            CarUpdate {
                car_index: read_u16(buf, 1),
                gear: buf[6] as i32,
                velocity_x: read_f32(buf, 19),
                velocity_y: read_f32(buf, 23),
                velocity_z: read_f32(buf, 27),
                current_lap: read_u16(buf, 63) as i32,
                delta: read_i32(buf, 65),
                current_lap_time: read_i32(buf, 77),
                track_position: read_u16(buf, 85) as i32,
                spline_position: read_f32(buf, 87),
            },
        )
    }

    /// Whether a packet is one that the source can take.
    pub fn can_take(packet: &[u8]) -> (r: bool)
        ensures
            r == readable(packet@),
    {
        if packet.len() == 0 {
            true
        } else if packet[0] == REALTIME_UPDATE {
            packet.len() != 18
        } else if packet[0] == REALTIME_CAR_UPDATE {
            packet.len() < 70 || packet.len() >= 91
        } else {
            true
        }
    }

    /// Completes a car update with the speed derived from its velocity and the time it
    /// was received at.
    pub fn frame(&self, car: CarUpdate, speed: Float32, timestamp: i64) -> (r: TelemetryFrame)
        ensures
            r == acc_frame(self@.latest_realtime, car, speed, timestamp),
    {
        let zero = Float32 { bits: 0 };
        TelemetryFrame {
            timestamp,
            speed,
            throttle: zero,
            brake: zero,
            steering: zero,
            gear: car.gear,
            rpm: 0,
            normalized_position: car.spline_position,
            lap_number: car.current_lap,
            lap_time: car.current_lap_time,
            session_time: Some(self.latest_realtime.session_time),
            session_type: Some(self.latest_realtime.session_type),
            track_position: Some(car.track_position),
            delta: Some(car.delta),
        }
    }

    /// The address that the game is expected on.
    fn target(&self) -> (r: String)
        ensures
            r@ == broadcast_address(self.config()),
    {
        socket_address_text(target_host_text(&self.config.base).as_str(), self.config.broadcast_port)
    }

    /// The error of a start whose target address cannot be read, for the reason given.
    pub fn target_rejected(reason: &str) -> (r: CaptureError)
        ensures
            r matches CaptureError::HandshakeFailed(text) && text@ == "Invalid target: "@ + reason@,
    {
        CaptureError::HandshakeFailed(joined("Invalid target: ", reason))
    }
}

impl TelemetrySource for AccSource {
    open spec fn started(&self) -> bool {
        self@.started
    }

    open spec fn takes(&self, packet: Seq<u8>) -> bool {
        readable(packet)
    }

    fn bind_address(&self) -> (r: String)
        ensures
            r@ == socket_address(self.config().base.udp_host@, self.config().base.udp_port),
    {
        socket_address_text(self.config.base.udp_host.as_str(), self.config.base.udp_port)
    }

    fn start(&mut self) -> (r: Datagram)
        ensures
            final(self).config() == old(self).config(),
            final(self)@ == (AccModel { started: true, ..old(self)@ }),
            r.target@ == broadcast_address(old(self).config()),
            r.payload@ == registration_packet(old(self).config()),
    {
        self.started = true;
        Datagram {
            target: self.target(),
            payload: Self::build_registration_packet(&self.config),
        }
    }

    fn next_sample(&mut self, packet: &[u8], timestamp: i64) -> (r: Result<
        CaptureStep,
        CaptureError,
    >)
        ensures
            final(self).config() == old(self).config(),
            !old(self).started() ==> final(self)@ == old(self)@,
            old(self).started() ==> {
                let (state, car) = acc_receive(old(self)@, packet@);
                &&& final(self)@ == state
                &&& r == Ok::<CaptureStep, CaptureError>(
                    match car {
                        Some(car) => CaptureStep::Car(car),
                        None => CaptureStep::Skip,
                    },
                )
            },
    {
        if !self.started {
            return Err(CaptureError::Stopped);
        }
        if packet.len() == 0 {
            return Ok(CaptureStep::Skip);
        }
        let msg_type: u8 = packet[0];
        if msg_type == REGISTRATION_RESULT {
            if let Some((connection_id, success)) = Self::parse_registration_result(packet) {
                if success {
                    self.connection_id = connection_id;
                    self.is_registered = true;
                }
            }
        } else if msg_type == REALTIME_UPDATE {
            if let Some(update) = Self::parse_realtime_update(packet) {
                self.focused_car_index = update.focused_car_index;
                self.latest_realtime = update;
            }
        } else if msg_type == REALTIME_CAR_UPDATE {
            if let Some(car) = Self::parse_car_update(packet) {
                if car.car_index as i32 == self.focused_car_index {
                    return Ok(CaptureStep::Car(car));
                }
            }
        }
        Ok(CaptureStep::Skip)
    }

    fn stop(&mut self) -> (r: Option<Datagram>)
        ensures
            final(self).config() == old(self).config(),
            final(self)@ == (AccModel {
                started: false,
                is_registered: false,
                connection_id: -1i32,
                ..old(self)@
            }),
            match r {
                Some(datagram) => {
                    &&& old(self).started() && old(self)@.connection_id >= 0
                    &&& datagram.target@ == broadcast_address(old(self).config())
                    &&& datagram.payload@ == unregistration_packet(old(self)@.connection_id)
                },
                None => !(old(self).started() && old(self)@.connection_id >= 0),
            },
    {
        let farewell = if self.started && self.connection_id >= 0 {
            Some(
                Datagram {
                    target: self.target(),
                    payload: Self::build_unregistration_packet(self.connection_id),
                },
            )
        } else {
            None
        };
        self.started = false;
        self.is_registered = false;
        self.connection_id = -1;
        farewell
    }

    fn name(&self) -> (r: &str)
        ensures
            r@ == "Assetto Corsa Competizione"@,
    {
        "Assetto Corsa Competizione"
    }

    fn source_rate_hz(&self) -> (r: u32)
        ensures
            r == 10,
    {
        10
    }
}

/// A run of code units takes two bytes each, and each unit can be read back.
proof fn units_read_back(before: Seq<u8>, units: Seq<u16>, after: Seq<u8>, i: int)
    requires
        0 <= i < units.len(),
    ensures
        units_bytes(units).len() == 2 * units.len(),
        u16_at(before + units_bytes(units) + after, before.len() + 2 * i) == units[i],
    decreases units.len(),
{
    units_length(units);
    let front = units_bytes(units.drop_last());
    let last = u16_bytes(units.last());
    units_length(units.drop_last());
    if i == units.len() - 1 {
        u16_round_trip(before + front, units.last(), after);
        assert(before + front + last + after =~= before + units_bytes(units) + after);
    } else {
        units_read_back(before, units.drop_last(), last + after, i);
        assert(before + front + (last + after) =~= before + units_bytes(units) + after);
    }
}

/// A run of code units takes two bytes each.
proof fn units_length(units: Seq<u16>)
    ensures
        units_bytes(units).len() == 2 * units.len(),
    decreases units.len(),
{
    if units.len() > 0 {
        units_length(units.drop_last());
    }
}

/// Everything in a registration packet can be read back by its position: the lengths of
/// both texts modulo 2^16, each of their code units, the interval and the empty command
/// password.
pub proof fn registration_packet_reads_back(config: AccCaptureConfig)
    ensures
        ({
            let packet = registration_packet(config);
            let name = utf16(config.display_name@);
            let password = utf16(config.connection_password@);
            let n = 2 * name.len() as int;
            let p = 2 * password.len() as int;
            &&& packet.len() == 12 + n + p
            &&& packet[0] == REGISTER_COMMAND_APPLICATION
            &&& packet[1] == PROTOCOL_VERSION
            &&& u16_at(packet, 2) == name.len() % 0x1_0000
            &&& forall|i: int|
                0 <= i < name.len() ==> u16_at(packet, 4 + 2 * i) == #[trigger] name[i]
            &&& u16_at(packet, 4 + n) == password.len() % 0x1_0000
            &&& forall|i: int|
                0 <= i < password.len() ==> u16_at(packet, 6 + n + 2 * i)
                    == #[trigger] password[i]
            &&& i32_at(packet, 6 + n + p) == signed32(config.update_interval_ms)
            &&& u16_at(packet, 10 + n + p) == 0
        }),
{
    let packet = registration_packet(config);
    let name = utf16(config.display_name@);
    let password = utf16(config.connection_password@);
    let head = seq![REGISTER_COMMAND_APPLICATION, PROTOCOL_VERSION];
    let name_count = (name.len() % 0x1_0000) as u16;
    let password_count = (password.len() % 0x1_0000) as u16;
    let name_len = u16_bytes(name_count);
    let name_bytes = units_bytes(name);
    let password_len = u16_bytes(password_count);
    let password_bytes = units_bytes(password);
    let interval = i32_bytes(signed32(config.update_interval_ms));
    let command = u16_bytes(0);
    let none = Seq::<u8>::empty();
    units_length(name);
    units_length(password);
    let to_name = head + name_len;
    let to_password_len = to_name + name_bytes;
    let to_password = to_password_len + password_len;
    let to_interval = to_password + password_bytes;
    let to_command = to_interval + interval;
    let from_command = command;
    let from_interval = interval + command;
    let from_password = password_bytes + from_interval;
    let from_password_len = password_len + from_password;
    let from_name = name_bytes + from_password_len;
    assert(packet =~= head + name_len + from_name);
    assert(packet =~= to_name + name_bytes + from_password_len);
    assert(packet =~= to_password_len + password_len + from_password);
    assert(packet =~= to_password + password_bytes + from_interval);
    assert(packet =~= to_interval + interval + from_command);
    assert(packet =~= to_command + command + none);
    u16_round_trip(head, name_count, from_name);
    assert forall|i: int| 0 <= i < name.len() implies u16_at(packet, 4 + 2 * i)
        == #[trigger] name[i] by {
        units_read_back(to_name, name, from_password_len, i);
    }
    u16_round_trip(to_password_len, password_count, from_password);
    assert forall|i: int| 0 <= i < password.len() implies u16_at(
        packet,
        6 + 2 * name.len() + 2 * i,
    ) == #[trigger] password[i] by {
        units_read_back(to_password, password, from_interval, i);
    }
    i32_round_trip(to_interval, signed32(config.update_interval_ms), from_command);
    u16_round_trip(to_command, 0, none);
}

/// The connection id of an unregistration packet can be read back.
pub proof fn unregistration_packet_reads_back(connection_id: i32)
    ensures
        unregistration_packet(connection_id).len() == 5,
        unregistration_packet(connection_id)[0] == UNREGISTER_COMMAND_APPLICATION,
        i32_at(unregistration_packet(connection_id), 1) == connection_id,
{
    let head = seq![UNREGISTER_COMMAND_APPLICATION];
    let none = Seq::<u8>::empty();
    i32_round_trip(head, connection_id, none);
    assert(head + i32_bytes(connection_id) + none =~= unregistration_packet(connection_id));
}

/// Where a source stands after a run of packets.
pub open spec fn acc_run(state: AccModel, packets: Seq<Seq<u8>>) -> AccModel
    decreases packets.len(),
{
    if packets.len() == 0 {
        state
    } else {
        acc_receive(acc_run(state, packets.drop_last()), packets.last()).0
    }
}

/// The session state that a packet brings, if it is a session update.
pub open spec fn session_in(packet: Seq<u8>) -> Option<RealtimeUpdate> {
    if packet.len() > 0 && packet[0] == REALTIME_UPDATE {
        realtime_update(packet)
    } else {
        None
    }
}

/// The connection id that a packet brings, if it answers a registration with success.
pub open spec fn registration_in(packet: Seq<u8>) -> Option<i32> {
    if packet.len() > 0 && packet[0] == REGISTRATION_RESULT {
        match registration_result(packet) {
            Some((connection_id, true)) => Some(connection_id),
            _ => None,
        }
    } else {
        None
    }
}

/// Whether the packet at position `k` of a run is the latest session update in it.
pub open spec fn is_latest_session(packets: Seq<Seq<u8>>, k: int) -> bool {
    &&& 0 <= k < packets.len()
    &&& session_in(packets[k]) is Some
    &&& forall|j: int| k < j < packets.len() ==> session_in(#[trigger] packets[j]) is None
}

/// Whether the packet at position `k` of a run is the latest in it that answers a
/// registration with success.
pub open spec fn is_latest_registration(packets: Seq<Seq<u8>>, k: int) -> bool {
    &&& 0 <= k < packets.len()
    &&& registration_in(packets[k]) is Some
    &&& forall|j: int| k < j < packets.len() ==> registration_in(#[trigger] packets[j]) is None
}

/// The session state that a source holds is that of the latest session update, and the one
/// it had before where none has arrived.
proof fn latest_session_is_held(state: AccModel, packets: Seq<Seq<u8>>)
    ensures
        forall|k: int| #[trigger]
            is_latest_session(packets, k) ==> {
                let update = session_in(packets[k])->0;
                &&& acc_run(state, packets).latest_realtime == update
                &&& acc_run(state, packets).focused_car_index == update.focused_car_index
            },
        (forall|k: int| 0 <= k < packets.len() ==> session_in(#[trigger] packets[k]) is None) ==> {
            &&& acc_run(state, packets).latest_realtime == state.latest_realtime
            &&& acc_run(state, packets).focused_car_index == state.focused_car_index
        },
    decreases packets.len(),
{
    if packets.len() > 0 {
        let front = packets.drop_last();
        let last = packets.len() - 1;
        latest_session_is_held(state, front);
        assert(packets.last() == packets[last]);
        assert(forall|k: int| 0 <= k < last ==> #[trigger] front[k] == packets[k]);
        if session_in(packets[last]) is None {
            assert forall|k: int| #[trigger] is_latest_session(packets, k) implies
                is_latest_session(front, k) by {
                assert forall|j: int| k < j < front.len() implies session_in(
                    #[trigger] front[j],
                ) is None by {
                    assert(session_in(packets[j]) is None);
                }
            }
            if forall|k: int| 0 <= k < packets.len() ==> session_in(#[trigger] packets[k]) is None {
                assert forall|k: int| 0 <= k < front.len() implies session_in(
                    #[trigger] front[k],
                ) is None by {
                    assert(session_in(packets[k]) is None);
                }
            }
        } else {
            assert forall|k: int| #[trigger] is_latest_session(packets, k) implies k == last by {
                if k < last {
                    assert(session_in(packets[last]) is None);
                }
            }
        }
    }
}

/// The connection id that a source holds is that of the latest registration answered with
/// success, and the one it had before where none was.
proof fn latest_registration_is_held(state: AccModel, packets: Seq<Seq<u8>>)
    ensures
        forall|k: int| #[trigger]
            is_latest_registration(packets, k) ==> {
                &&& acc_run(state, packets).is_registered
                &&& acc_run(state, packets).connection_id == registration_in(packets[k])->0
            },
        (forall|k: int|
            0 <= k < packets.len() ==> registration_in(#[trigger] packets[k]) is None) ==> {
            &&& acc_run(state, packets).is_registered == state.is_registered
            &&& acc_run(state, packets).connection_id == state.connection_id
        },
    decreases packets.len(),
{
    if packets.len() > 0 {
        let front = packets.drop_last();
        let last = packets.len() - 1;
        latest_registration_is_held(state, front);
        assert(packets.last() == packets[last]);
        assert(forall|k: int| 0 <= k < last ==> #[trigger] front[k] == packets[k]);
        if registration_in(packets[last]) is None {
            assert forall|k: int| #[trigger] is_latest_registration(packets, k) implies
                is_latest_registration(front, k) by {
                assert forall|j: int| k < j < front.len() implies registration_in(
                    #[trigger] front[j],
                ) is None by {
                    assert(registration_in(packets[j]) is None);
                }
            }
            if forall|k: int|
                0 <= k < packets.len() ==> registration_in(#[trigger] packets[k]) is None {
                assert forall|k: int| 0 <= k < front.len() implies registration_in(
                    #[trigger] front[k],
                ) is None by {
                    assert(registration_in(packets[k]) is None);
                }
            }
        } else {
            assert forall|k: int| #[trigger] is_latest_registration(packets, k) implies k
                == last by {
                if k < last {
                    assert(registration_in(packets[last]) is None);
                }
            }
        }
    }
}

/// After any run of packets, the id that an unregistration names is that of the latest
/// registration that the game has answered with success, and the id that the source had
/// before where there was none.
pub proof fn unregistration_names_the_registration(state: AccModel, packets: Seq<Seq<u8>>)
    ensures
        forall|k: int| #[trigger]
            is_latest_registration(packets, k) ==> {
                &&& acc_run(state, packets).is_registered
                &&& i32_at(unregistration_packet(acc_run(state, packets).connection_id), 1)
                    == i32_at(packets[k], 1)
            },
        (forall|k: int|
            0 <= k < packets.len() ==> registration_in(#[trigger] packets[k]) is None) ==> {
            &&& acc_run(state, packets).is_registered == state.is_registered
            &&& i32_at(unregistration_packet(acc_run(state, packets).connection_id), 1)
                == state.connection_id
        },
{
    latest_registration_is_held(state, packets);
    unregistration_packet_reads_back(acc_run(state, packets).connection_id);
}

/// After any run of packets, only updates of the car that the latest session update focuses
/// on are handed on, and those of the car focused on before where none has arrived.
pub proof fn samples_follow_the_focused_car(
    state: AccModel,
    packets: Seq<Seq<u8>>,
    packet: Seq<u8>,
)
    ensures
        acc_receive(acc_run(state, packets), packet).1 matches Some(car) ==> {
            &&& forall|k: int| #[trigger]
                is_latest_session(packets, k) ==> car.car_index == session_in(
                    packets[k],
                )->0.focused_car_index
            &&& (forall|k: int|
                0 <= k < packets.len() ==> session_in(#[trigger] packets[k]) is None)
                ==> car.car_index == state.focused_car_index
        },
        forall|k: int| #[trigger]
            is_latest_session(packets, k) ==> acc_run(state, packets).focused_car_index
                == session_in(packets[k])->0.focused_car_index,
        (forall|k: int| 0 <= k < packets.len() ==> session_in(#[trigger] packets[k]) is None)
            ==> acc_run(state, packets).focused_car_index == state.focused_car_index,
{
    latest_session_is_held(state, packets);
}

/// As long as no session update has arrived, a new source hands nothing on.
pub proof fn no_sample_before_a_session_update(
    state: AccModel,
    packets: Seq<Seq<u8>>,
    packet: Seq<u8>,
)
    requires
        state.focused_car_index == -1,
        forall|i: int|
            0 <= i < packets.len() && (#[trigger] packets[i]).len() > 0 ==> packets[i][0]
                != REALTIME_UPDATE,
    ensures
        acc_run(state, packets).focused_car_index == -1,
        acc_receive(acc_run(state, packets), packet).1 is None,
    decreases packets.len(),
{
    if packets.len() > 0 {
        let front = packets.drop_last();
        assert forall|i: int| 0 <= i < front.len() && (#[trigger] front[i]).len() > 0 implies front[i][0]
            != REALTIME_UPDATE by {
            assert(front[i] == packets[i]);
        }
        no_sample_before_a_session_update(state, front, packet);
        assert(packets.last() == packets[packets.len() - 1]);
    }
}

} // verus!
