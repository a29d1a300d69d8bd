//! Telemetry capture: readers for the datagrams of the simulators.

use vstd::prelude::*;
use vstd::string::*;

use crate::float32::{Float32, MINUS_ONE_BITS, ONE_BITS};
use crate::proto::TelemetryFrame;
use crate::text::{decimal, decimal_text, joined};
use crate::wire::{i32_at, read_i32, read_u32, u32_at};

pub mod ac;
pub mod acc;

verus! {

/// Errors that can occur during telemetry capture.
#[derive(Debug, Clone, PartialEq, Eq)]
pub enum CaptureError {
    /// Input or output failed, for the reason given.
    Io(String),
    /// A packet of `got` bytes where `min` are needed.
    PacketTooSmall { got: usize, min: usize },
    /// The handshake failed, for the reason given.
    HandshakeFailed(String),
    /// Shared memory is not available, for the reason given.
    SharedMemoryUnavailable(String),
    /// The capture source is stopped.
    Stopped,
}

impl CaptureError {
    /// The error in words.
    pub open spec fn described(&self) -> Seq<char> {
        match *self {
            CaptureError::Io(reason) => "IO error: "@ + reason@,
            CaptureError::PacketTooSmall { got, min } => "Packet too small: got "@ + decimal(
                got as nat,
            ) + " bytes, need at least "@ + decimal(min as nat),
            CaptureError::HandshakeFailed(reason) => "Handshake failed: "@ + reason@,
            CaptureError::SharedMemoryUnavailable(reason) => "Shared memory not available: "@
                + reason@,
            CaptureError::Stopped => "Capture source stopped"@,
        }
    }

    /// Describes the error in words.
    pub fn message(&self) -> (r: String)
        ensures
            r@ == self.described(),
    {
        match self {
            CaptureError::Io(reason) => joined("IO error: ", reason.as_str()),
            CaptureError::PacketTooSmall { got, min } => {
                let mut r = joined("Packet too small: got ", decimal_text(*got as u64).as_str());
                r.append(" bytes, need at least ");
                r.append(decimal_text(*min as u64).as_str());
                r
            },
            CaptureError::HandshakeFailed(reason) => joined("Handshake failed: ", reason.as_str()),
            CaptureError::SharedMemoryUnavailable(reason) => joined(
                "Shared memory not available: ",
                reason.as_str(),
            ),
            CaptureError::Stopped => "Capture source stopped".to_owned(),
        }
    }
}

/// Configuration of a telemetry capture source.
#[derive(Debug, Clone, PartialEq, Eq)]
pub struct CaptureConfig {
    /// Local UDP port to bind and receive on.
    pub udp_port: u16,
    /// UDP bind address.
    pub udp_host: String,
    /// Target host for games that require a handshake.
    pub target_host: Option<String>,
    /// Target port on the game machine; the game's standard port where there is none.
    /// Kept apart from `udp_port` so that the local socket does not conflict with the
    /// game's own listener. Assetto Corsa Competizione does not read it: it has a broadcast
    /// port of its own.
    pub target_port: Option<u16>,
}

impl Default for CaptureConfig {
    fn default() -> (r: CaptureConfig)
        ensures
            r.udp_port == 9997,
            r.udp_host@ == "0.0.0.0"@,
            r.target_host is None,
            r.target_port == Some(9996u16),
    {
        CaptureConfig {
            udp_port: 9997,
            udp_host: "0.0.0.0".to_owned(),
            target_host: None,
            target_port: Some(9996),
        }
    }
}

/// The text form of a socket address: host, colon, decimal port.
pub open spec fn socket_address(host: Seq<char>, port: u16) -> Seq<char> {
    host + ":"@ + decimal(port as nat)
}

/// Writes a socket address as text.
pub fn socket_address_text(host: &str, port: u16) -> (r: String)
    ensures
        r@ == socket_address(host@, port),
{
    let mut r = joined(host, ":");
    r.append(decimal_text(port as u64).as_str());
    r
}

/// The host that a game is expected on: the configured one, else the local machine.
pub open spec fn target_host(config: CaptureConfig) -> Seq<char> {
    match config.target_host {
        Some(host) => host@,
        None => "127.0.0.1"@,
    }
}

/// Returns the host that a game is expected on.
pub(crate) fn target_host_text(config: &CaptureConfig) -> (r: String)
    ensures
        r@ == target_host(*config),
{
    match &config.target_host {
        Some(host) => host.clone(),
        None => "127.0.0.1".to_owned(),
    }
}

/// A datagram to send.
#[derive(Debug, Clone, PartialEq, Eq)]
pub struct Datagram {
    /// The address to send to, as text.
    pub target: String,
    pub payload: Vec<u8>,
}

/// What a capture source makes of a received packet.
#[derive(Debug, Clone, PartialEq, Eq)]
pub enum CaptureStep {
    /// Nothing to hand on: receive the next packet.
    Skip,
    /// Send this payload back to where the packet came from.
    Reply(Vec<u8>),
    /// A complete sample.
    Sample(TelemetryFrame),
    /// A sample that lacks the speed derived from the car's velocity.
    Car(acc::CarUpdate),
}

/// A telemetry capture source, as seen from the task that owns its socket.
pub trait TelemetrySource {
    /// Whether the socket is bound.
    spec fn started(&self) -> bool;

    /// Whether a packet is one that the source can take.
    spec fn takes(&self, packet: Seq<u8>) -> bool;

    /// The local address to bind, as text.
    fn bind_address(&self) -> String;

    /// Tells the source that its socket is bound. Returns the datagram that opens the
    /// conversation with the game.
    fn start(&mut self) -> (r: Datagram)
        ensures
            final(self).started(),
    ;

    /// Takes a packet that was received at `timestamp`. A source that is not started
    /// takes nothing and reports that it is stopped.
    fn next_sample(&mut self, packet: &[u8], timestamp: i64) -> (r: Result<
        CaptureStep,
        CaptureError,
    >)
        requires
            old(self).takes(packet@),
        ensures
            final(self).started() == old(self).started(),
            r is Err <==> !old(self).started(),
            r matches Err(e) ==> e is Stopped,
    ;

    /// Stops the source. Returns the datagram that ends the conversation with the game,
    /// if there is one to send before the socket is closed.
    fn stop(&mut self) -> (r: Option<Datagram>)
        ensures
            !final(self).started(),
    ;

    /// Human-readable name of the source.
    fn name(&self) -> &str;

    /// The native capture rate in Hz.
    fn source_rate_hz(&self) -> u32;
}

/// The least length of an Assetto Corsa telemetry packet.
pub const AC_MIN_SIZE: usize = 312;

/// The number stored at `at`.
pub open spec fn f32_at(s: Seq<u8>, at: int) -> Float32 {
    Float32 { bits: u32_at(s, at) }
}

/// Reads the number stored at `at`.
pub(crate) fn read_f32(buf: &[u8], at: usize) -> (r: Float32)
    requires
        at + 4 <= buf@.len(),
    ensures
        r == f32_at(buf@, at as int),
{
    Float32 { bits: read_u32(buf, at) }
}

/// The frame in an Assetto Corsa telemetry packet:
/// - offset 8: speed
/// - offset 40: lap time, in ms
/// - offset 52: lap number
/// - offset 56: throttle, 0 to 1
/// - offset 60: brake, 0 to 1
/// - offset 68: rpm
/// - offset 72: steering, -1 to 1
/// - offset 76: gear
/// - offset 308: normalized position, 0 to 1
pub open spec fn ac_frame(packet: Seq<u8>, timestamp: i64) -> TelemetryFrame {
    let zero = Float32 { bits: 0 };
    let one = Float32 { bits: ONE_BITS };
    let minus_one = Float32 { bits: MINUS_ONE_BITS };
    TelemetryFrame {
        timestamp,
        speed: f32_at(packet, 8),
        throttle: f32_at(packet, 56).clamped(zero, one),
        brake: f32_at(packet, 60).clamped(zero, one),
        steering: f32_at(packet, 72).clamped(minus_one, one),
        gear: i32_at(packet, 76),
        rpm: i32_at(packet, 68),
        normalized_position: f32_at(packet, 308).clamped(zero, one),
        lap_number: i32_at(packet, 52),
        lap_time: i32_at(packet, 40),
        session_time: None,
        session_type: None,
        track_position: None,
        delta: None,
    }
}

/// Parses a raw Assetto Corsa telemetry packet.
pub fn parse_ac_packet(buf: &[u8], timestamp: i64) -> (r: Result<TelemetryFrame, CaptureError>)
    ensures
        r == (if buf@.len() < AC_MIN_SIZE {
            Err(
                CaptureError::PacketTooSmall { got: buf@.len() as usize, min: AC_MIN_SIZE },
            )
        } else {
            Ok(ac_frame(buf@, timestamp))
        }),
{
    if buf.len() < AC_MIN_SIZE {
        return Err(CaptureError::PacketTooSmall { got: buf.len(), min: AC_MIN_SIZE });
    }
    let zero = Float32 { bits: 0 };
    let one = Float32 { bits: ONE_BITS };
    let minus_one = Float32 { bits: MINUS_ONE_BITS };
    Ok(
        TelemetryFrame {
            timestamp,
            speed: read_f32(buf, 8),
            throttle: read_f32(buf, 56).clamp(zero, one),
            brake: read_f32(buf, 60).clamp(zero, one),
            steering: read_f32(buf, 72).clamp(minus_one, one),
            gear: read_i32(buf, 76),
            rpm: read_i32(buf, 68),
            normalized_position: read_f32(buf, 308).clamp(zero, one),
            lap_number: read_i32(buf, 52),
            lap_time: read_i32(buf, 40),
            session_time: None,
            session_type: None,
            track_position: None,
            delta: None,
        },
    )
}

/// Whether a number is not a number or lies between two bounds.
pub open spec fn within(x: Float32, low: Float32, high: Float32) -> bool {
    x.is_nan() || low.value() <= x.value() <= high.value()
}

/// Throttle, brake and position of a parsed frame lie between 0 and 1, and steering
/// between -1 and 1, unless the packet holds what is not a number there.
pub proof fn ac_controls_are_bounded(packet: Seq<u8>, timestamp: i64)
    ensures
        ({
            let frame = ac_frame(packet, timestamp);
            let zero = Float32 { bits: 0 };
            let one = Float32 { bits: ONE_BITS };
            let minus_one = Float32 { bits: MINUS_ONE_BITS };
            &&& within(frame.throttle, zero, one)
            &&& within(frame.brake, zero, one)
            &&& within(frame.steering, minus_one, one)
            &&& within(frame.normalized_position, zero, one)
        }),
{
}

/// What follows the first 312 bytes of a packet does not matter.
pub proof fn ac_frame_ignores_trailing_bytes(packet: Seq<u8>, trailing: Seq<u8>, timestamp: i64)
    requires
        packet.len() >= AC_MIN_SIZE,
    ensures
        ac_frame(packet + trailing, timestamp) == ac_frame(packet, timestamp),
{
}

} // verus!
