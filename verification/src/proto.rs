//! Messages exchanged between collectors, the gateway and the broker.

use vstd::prelude::*;

use crate::float32::Float32;

verus! {

/// One telemetry sample.
#[derive(Debug, Clone, Copy, PartialEq, Eq)]
pub struct TelemetryFrame {
    /// Milliseconds since the Unix epoch.
    pub timestamp: i64,
    /// Kilometres per hour.
    pub speed: Float32,
    pub throttle: Float32,
    pub brake: Float32,
    pub steering: Float32,
    pub gear: i32,
    pub rpm: i32,
    /// Position along the track, from 0 to 1.
    pub normalized_position: Float32,
    pub lap_number: i32,
    /// Milliseconds.
    pub lap_time: i32,
    pub session_time: Option<Float32>,
    pub session_type: Option<i32>,
    pub track_position: Option<i32>,
    pub delta: Option<i32>,
}

/// A run of samples of one source.
#[derive(Debug, Clone, PartialEq, Eq)]
pub struct TelemetryBatch {
    pub user_id: String,
    pub source: String,
    pub batch_start_ts: i64,
    pub batch_end_ts: i64,
    pub batch_size: u32,
    pub source_rate_hz: u32,
    pub samples: Vec<TelemetryFrame>,
    pub compressed_samples: Option<Vec<u8>>,
}

/// What a [`TelemetryBatch`] holds, as mathematical values.
#[verifier::ext_equal]
pub struct BatchModel {
    pub user_id: Seq<char>,
    pub source: Seq<char>,
    pub batch_start_ts: i64,
    pub batch_end_ts: i64,
    pub batch_size: u32,
    pub source_rate_hz: u32,
    pub samples: Seq<TelemetryFrame>,
    pub compressed_samples: Option<Seq<u8>>,
}

impl View for TelemetryBatch {
    type V = BatchModel;

    open spec fn view(&self) -> BatchModel {
        BatchModel {
            user_id: self.user_id@,
            source: self.source@,
            batch_start_ts: self.batch_start_ts,
            batch_end_ts: self.batch_end_ts,
            batch_size: self.batch_size,
            source_rate_hz: self.source_rate_hz,
            samples: self.samples@,
            compressed_samples: match self.compressed_samples {
                Some(bytes) => Some(bytes@),
                None => None,
            },
        }
    }
}

/// One sample on its way to the broker.
#[derive(Debug, Clone, PartialEq, Eq)]
pub struct TelemetryEnvelope {
    pub user_id: String,
    pub source: String,
    pub source_rate_hz: u32,
    pub frame: Option<TelemetryFrame>,
}

/// What a [`TelemetryEnvelope`] holds, as mathematical values.
#[verifier::ext_equal]
pub struct EnvelopeModel {
    pub user_id: Seq<char>,
    pub source: Seq<char>,
    pub source_rate_hz: u32,
    pub frame: Option<TelemetryFrame>,
}

impl View for TelemetryEnvelope {
    type V = EnvelopeModel;

    open spec fn view(&self) -> EnvelopeModel {
        EnvelopeModel {
            user_id: self.user_id@,
            source: self.source@,
            source_rate_hz: self.source_rate_hz,
            frame: self.frame,
        }
    }
}

/// The gateway's answer to a completed stream.
#[derive(Debug, Clone, Copy, PartialEq, Eq, Structural)]
pub struct IngressAck {
    pub batches_received: u64,
    pub samples_received: u64,
}

/// The samples of several batches, in order.
pub open spec fn samples_of(batches: Seq<BatchModel>) -> Seq<TelemetryFrame>
    decreases batches.len(),
{
    if batches.len() == 0 {
        seq![]
    } else {
        samples_of(batches.drop_last()) + batches.last().samples
    }
}

} // verus!
