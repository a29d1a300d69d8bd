//! Assetto Corsa telemetry capture.
//!
//! The game sends binary packets at about 60 Hz once a handshake is done: the source
//! sends a handshake, the game answers, the source subscribes, and every packet from
//! then on holds telemetry.

use vstd::prelude::*;
use vstd::string::*;

use super::{
    ac_frame, parse_ac_packet, socket_address, socket_address_text, target_host, target_host_text,
    CaptureConfig, CaptureError, CaptureStep, Datagram, TelemetrySource, AC_MIN_SIZE,
};
use crate::text::joined;
use crate::wire::{i32_at, i32_bytes, i32_round_trip, push_i32};

verus! {

/// The operation that opens a handshake.
pub const OP_HANDSHAKE: i32 = 0;

/// The operation that subscribes to telemetry.
pub const OP_SUBSCRIBE_UPDATE: i32 = 1;

/// The operation that ends a subscription.
pub const OP_DISMISS: i32 = 3;

/// The port that the game listens on unless configured otherwise.
pub const AC_GAME_PORT: u16 = 9996;

/// A handshake packet: identifier, version and operation.
pub open spec fn handshake_packet(identifier: i32, version: i32, operation: i32) -> Seq<u8> {
    i32_bytes(identifier) + i32_bytes(version) + i32_bytes(operation)
}

/// The address that the game is expected on.
pub open spec fn game_address(config: CaptureConfig) -> Seq<char> {
    socket_address(
        target_host(config),
        match config.target_port {
            Some(port) => port,
            None => AC_GAME_PORT,
        },
    )
}

/// Where an Assetto Corsa source stands.
pub struct AcModel {
    /// Whether the socket is bound.
    pub started: bool,
    /// Whether the source has subscribed.
    pub handshake_completed: bool,
}

/// Assetto Corsa telemetry source.
pub struct AcSource {
    config: CaptureConfig,
    started: bool,
    handshake_completed: bool,
}

impl View for AcSource {
    type V = AcModel;

    closed spec fn view(&self) -> AcModel {
        AcModel { started: self.started, handshake_completed: self.handshake_completed }
    }
}

impl AcSource {
    /// The configuration of the source.
    pub closed spec fn config(&self) -> CaptureConfig {
        self.config
    }

    /// A source that is not started.
    pub fn new(config: CaptureConfig) -> (r: AcSource)
        ensures
            r.config() == config,
            r@ == (AcModel { started: false, handshake_completed: false }),
    {
        AcSource { config, started: false, handshake_completed: false }
    }

    /// Builds a handshake packet.
    pub fn build_handshake_packet(identifier: i32, version: i32, operation: i32) -> (r: Vec<u8>)
        ensures
            r@ == handshake_packet(identifier, version, operation),
    {
        let mut pkt: Vec<u8> = Vec::with_capacity(12);
        push_i32(&mut pkt, identifier);
        push_i32(&mut pkt, version);
        push_i32(&mut pkt, operation);
        proof {
            assert(pkt@ =~= handshake_packet(identifier, version, operation));
        }
        pkt
    }

    /// The datagram that carries an operation to the game.
    fn datagram(&self, operation: i32) -> (r: Datagram)
        ensures
            r.target@ == game_address(self.config()),
            r.payload@ == handshake_packet(0, 1, operation),
    {
        let port: u16 = match self.config.target_port {
            Some(port) => port,
            None => AC_GAME_PORT,
        };
        Datagram {
            target: socket_address_text(target_host_text(&self.config).as_str(), port),
            payload: Self::build_handshake_packet(0, 1, operation),
        }
    }

    /// Tells the source that its subscription has been sent.
    pub fn subscribed(&mut self)
        ensures
            final(self).config() == old(self).config(),
            final(self)@ == (AcModel { handshake_completed: true, ..old(self)@ }),
    {
        self.handshake_completed = true;
    }

    /// The error of a start whose target address cannot be read, for the reason given.
    pub fn target_rejected(reason: &str) -> (r: CaptureError)
        ensures
            r matches CaptureError::HandshakeFailed(text) && text@ == "Invalid target address: "@
                + reason@,
    {
        CaptureError::HandshakeFailed(joined("Invalid target address: ", reason))
    }
}

impl TelemetrySource for AcSource {
    open spec fn started(&self) -> bool {
        self@.started
    }

    open spec fn takes(&self, packet: Seq<u8>) -> bool {
        true
    }

    fn bind_address(&self) -> (r: String)
        ensures
            r@ == socket_address(self.config().udp_host@, self.config().udp_port),
    {
        socket_address_text(self.config.udp_host.as_str(), self.config.udp_port)
    }

    fn start(&mut self) -> (r: Datagram)
        ensures
            final(self).config() == old(self).config(),
            final(self)@ == (AcModel { started: true, ..old(self)@ }),
            r.target@ == game_address(old(self).config()),
            r.payload@ == handshake_packet(0, 1, OP_HANDSHAKE),
    {
        self.started = true;
        self.datagram(OP_HANDSHAKE)
    }

    fn next_sample(&mut self, packet: &[u8], timestamp: i64) -> (r: Result<
        CaptureStep,
        CaptureError,
    >)
        ensures
            *final(self) == *old(self),
            old(self).started() ==> match r->Ok_0 {
                CaptureStep::Reply(payload) => {
                    &&& !old(self)@.handshake_completed
                    &&& payload@ == handshake_packet(0, 1, OP_SUBSCRIBE_UPDATE)
                },
                CaptureStep::Skip => {
                    &&& old(self)@.handshake_completed
                    &&& packet@.len() < AC_MIN_SIZE
                },
                CaptureStep::Sample(frame) => {
                    &&& old(self)@.handshake_completed
                    &&& packet@.len() >= AC_MIN_SIZE
                    &&& frame == ac_frame(packet@, timestamp)
                },
                CaptureStep::Car(_) => false,
            },
    {
        if !self.started {
            return Err(CaptureError::Stopped);
        }
        if !self.handshake_completed {
            // The first answer of the game replies to the handshake.
            return Ok(
                CaptureStep::Reply(Self::build_handshake_packet(0, 1, OP_SUBSCRIBE_UPDATE)),
            );
        }
        match parse_ac_packet(packet, timestamp) {
            Ok(frame) => Ok(CaptureStep::Sample(frame)),
            Err(_) => Ok(CaptureStep::Skip),
        }
    }

    fn stop(&mut self) -> (r: Option<Datagram>)
        ensures
            final(self).config() == old(self).config(),
            final(self)@ == (AcModel { started: false, handshake_completed: false }),
            match r {
                Some(datagram) => {
                    &&& old(self).started()
                    &&& datagram.target@ == game_address(old(self).config())
                    &&& datagram.payload@ == handshake_packet(0, 1, OP_DISMISS)
                },
                None => !old(self).started(),
            },
    {
        let farewell = if self.started {
            Some(self.datagram(OP_DISMISS))
        } else {
            None
        };
        self.started = false;
        self.handshake_completed = false;
        farewell
    }

    fn name(&self) -> (r: &str)
        ensures
            r@ == "Assetto Corsa"@,
    {
        "Assetto Corsa"
    }

    fn source_rate_hz(&self) -> (r: u32)
        ensures
            r == 60,
    {
        60
    }
}

/// A handshake packet has twelve bytes, and its three fields can be read back.
pub proof fn handshake_packet_reads_back(identifier: i32, version: i32, operation: i32)
    ensures
        handshake_packet(identifier, version, operation).len() == 12,
        i32_at(handshake_packet(identifier, version, operation), 0) == identifier,
        i32_at(handshake_packet(identifier, version, operation), 4) == version,
        i32_at(handshake_packet(identifier, version, operation), 8) == operation,
{
    let none = Seq::<u8>::empty();
    let packet = handshake_packet(identifier, version, operation);
    let (a, b, c) = (i32_bytes(identifier), i32_bytes(version), i32_bytes(operation));
    i32_round_trip(none, identifier, b + c);
    assert(none + a + (b + c) =~= packet);
    i32_round_trip(a, version, c);
    i32_round_trip(a + b, operation, none);
    assert(a + b + c + none =~= packet);
}

} // verus!
