//! Laws of the transport and its log.

use vstd::prelude::*;
use vstd::string::*;

use crate::grpc::{
    action_models, authorization, conclude_drain, default_retry_delay, drain_event, drain_request,
    plan_drain, DrainError, DrainPlan, DrainReceipt, GrpcConfig, Transport, TransportAction,
    TransportEvent, TransportPhase, WalCmd, WalWorker,
};
use crate::proto::TelemetryBatch;
use crate::time::Duration;

verus! {

/// Whether two batches hold the same.
pub open spec fn same_batch(a: TelemetryBatch, b: TelemetryBatch) -> bool {
    &&& a.user_id@ == b.user_id@
    &&& a.source@ == b.source@
    &&& a.batch_start_ts == b.batch_start_ts
    &&& a.batch_end_ts == b.batch_end_ts
    &&& a.batch_size == b.batch_size
    &&& a.source_rate_hz == b.source_rate_hz
    &&& a.samples@ == b.samples@
    &&& match (a.compressed_samples, b.compressed_samples) {
        (Some(x), Some(y)) => x@ == y@,
        (None, None) => true,
        _ => false,
    }
}

/// The settings unless told otherwise.
pub proof fn transport_defaults(config: GrpcConfig, delay: Duration)
    requires
        call_ensures(<GrpcConfig as Default>::default, (), config),
        call_ensures(default_retry_delay, (), delay),
    ensures
        config.gateway_url@ == "http://localhost:50051"@,
        config.wal_path@ == "telemetry-wal.db"@,
        config.drain_batch_size == 32,
        config.retry_delay.nanos == 5_000_000_000 && delay.nanos == 5_000_000_000,
        config.auth_token is None,
        !config.wal_depth_reporter,
{
}

/// A configured token goes out behind the word `Bearer` and a blank, and nothing else does.
pub proof fn configured_tokens_are_bearer_tokens(config: &GrpcConfig, r: Option<String>)
    requires
        call_ensures(authorization, (config,), r),
    ensures
        match config.auth_token {
            Some(token) => r matches Some(header) && header@ == seq![
                'B',
                'e',
                'a',
                'r',
                'e',
                'r',
                ' ',
            ] + token@,
            None => r is None,
        },
{
    reveal_strlit("Bearer ");
    assert("Bearer "@ =~= seq!['B', 'e', 'a', 'r', 'e', 'r', ' ']);
}

/// A drain asks for as many batches as configured.
pub proof fn drains_ask_for_the_configured_number(config: &GrpcConfig, r: WalCmd)
    requires
        call_ensures(drain_request, (config,), r),
    ensures
        r matches WalCmd::Peek(count) && count == config.drain_batch_size,
{
}

/// A drain streams the batch of every entry that it was handed, in order, under the
/// configured authorization. Its receipt counts them and names the last. Without entries it
/// is over, and a failure to get any is passed on.
pub proof fn drains_stream_every_entry(
    config: &GrpcConfig,
    peeked: Result<Vec<(i64, TelemetryBatch)>, DrainError>,
    r: DrainPlan,
)
    requires
        call_ensures(plan_drain, (config, peeked), r),
    ensures
        match peeked {
            Err(e) => r matches DrainPlan::Over(Err(passed)) && passed == e,
            Ok(entries) if entries@.len() == 0 => r matches DrainPlan::Over(Ok(count)) && count
                == 0,
            Ok(entries) => r matches DrainPlan::Stream { batches, authorization, receipt } && {
                &&& batches@.len() == entries@.len()
                &&& forall|i: int|
                    0 <= i < entries@.len() ==> #[trigger] batches@[i] == entries@[i].1
                &&& receipt.count == entries@.len()
                &&& receipt.max_id == entries@[entries@.len() - 1].0
                &&& match config.auth_token {
                    Some(token) => authorization matches Some(header) && header@ == "Bearer "@
                        + token@,
                    None => authorization is None,
                }
            },
        },
{
}

/// Once a stream is acknowledged, the log is asked to remove up to the last entry streamed,
/// and the entries are counted. After a failure nothing is asked of the log.
pub proof fn acknowledged_streams_are_removed(
    receipt: DrainReceipt,
    streamed: Result<(), DrainError>,
    r: (Option<WalCmd>, Result<usize, DrainError>),
)
    requires
        call_ensures(conclude_drain, (receipt, streamed), r),
    ensures
        match streamed {
            Ok(_) => {
                &&& r.0 matches Some(WalCmd::AckUpTo(id)) && id == receipt.max_id
                &&& r.1 matches Ok(count) && count == receipt.count
            },
            Err(e) => {
                &&& r.0 is None
                &&& r.1 matches Err(passed) && passed == e
            },
        },
{
}

/// From the log to the acknowledgement: where the ids of a log grow, what a drain has removed
/// of the entries that it was handed is exactly what it has streamed, and it counts them.
pub proof fn nothing_is_removed_unsent(
    config: &GrpcConfig,
    entries: Vec<(i64, TelemetryBatch)>,
    plan: DrainPlan,
    end: (Option<WalCmd>, Result<usize, DrainError>),
)
    requires
        entries@.len() > 0,
        forall|i: int, j: int|
            0 <= i < j < entries@.len() ==> (#[trigger] entries@[i]).0 < (#[trigger] entries@[j]).0,
        call_ensures(plan_drain, (config, Ok(entries)), plan),
        plan is Stream,
        call_ensures(conclude_drain, (plan->receipt, Ok(())), end),
    ensures
        end.1 matches Ok(count) && count == entries@.len(),
        end.0 matches Some(WalCmd::AckUpTo(id)) && {
            &&& plan->batches@.len() == entries@.len()
            &&& forall|i: int|
                0 <= i < entries@.len() ==> (#[trigger] entries@[i]).0 <= id && plan->batches@[i]
                    == entries@[i].1
            &&& exists|i: int| 0 <= i < entries@.len() && (#[trigger] entries@[i]).0 == id
        },
{
    drains_stream_every_entry(config, Ok(entries), plan);
    acknowledged_streams_are_removed(plan->receipt, Ok(()), end);
    let last = entries@.len() - 1;
    assert(entries@[last].0 == plan->receipt.max_id);
    assert forall|i: int| 0 <= i < entries@.len() implies (#[trigger] entries@[i]).0
        <= plan->receipt.max_id && plan->batches@[i] == entries@[i].1 by {
        assert(plan->batches@[i] == entries@[i].1);
    }
}

/// A drain has succeeded for the transport if it returned a number, and failed if not.
pub proof fn drains_are_told_apart(result: &Result<usize, DrainError>, r: TransportEvent)
    requires
        call_ensures(drain_event, (result,), r),
    ensures
        match *result {
            Ok(_) => r is Drained,
            Err(_) => r is DrainFailed,
        },
{
}

/// Each failure of a drain in words.
pub proof fn drain_failures_are_described(e: &DrainError, r: &str)
    requires
        call_ensures(DrainError::message, (e,), r),
    ensures
        match *e {
            DrainError::WorkerDropped => r@ == "WAL worker dropped"@,
            DrainError::PeekFailed => r@ == "WAL peek failed"@,
            DrainError::InvalidUrl => r@ == "Invalid gateway URL"@,
            DrainError::ConnectFailed => r@ == "Failed to connect to gateway"@,
            DrainError::StreamFailed => r@ == "StreamTelemetry RPC failed"@,
        },
{
}

/// The worker carries out every request as it was sent, until it is shut down or there are no
/// more, and nothing after. Without a log it carries out nothing.
pub proof fn the_worker_carries_out_requests(
    opened: bool,
    new: WalWorker,
    worker: &mut WalWorker,
    cmd: Option<WalCmd>,
    r: Option<WalCmd>,
)
    requires
        call_ensures(WalWorker::new, (opened,), new),
        call_ensures(WalWorker::step, (worker, cmd), r),
    ensures
        new.alive == opened,
        old(worker).alive && cmd is Some && !(cmd->0 is Shutdown) ==> {
            &&& r == cmd
            &&& final(worker).alive
        },
        !old(worker).alive || cmd is None || cmd->0 is Shutdown ==> {
            &&& r is None
            &&& !final(worker).alive
        },
{
}

/// A transport begins with the depth of its log, under its settings.
pub proof fn transports_begin_with_the_depth(
    config: &GrpcConfig,
    r: (Transport, TransportAction),
)
    requires
        call_ensures(Transport::new, (config,), r),
    ensures
        r.0.phase is Opening,
        r.0.retry_delay == config.retry_delay,
        r.0.reports_depth == config.wal_depth_reporter,
        r.1 is AskDepth,
{
}

/// What the transport does. It takes in what has arrived and writes it to the log, then looks
/// at the depth of the log and reports it if asked to, drains what is there, and waits a
/// short while. A drain that fails is followed by the retry delay. When there are no more
/// batches it drains once more, for a limited time, and ends. What it does not wait for
/// changes nothing.
pub proof fn the_transport_stores_and_forwards(
    transport: &mut Transport,
    event: TransportEvent,
    r: Vec<TransportAction>,
)
    requires
        call_ensures(Transport::step, (transport, event), r),
    ensures
        ({
            let phase = old(transport).phase;
            let next = final(transport).phase;
            &&& final(transport).retry_delay == old(transport).retry_delay
            &&& final(transport).reports_depth == old(transport).reports_depth
            &&& match (phase, event) {
                (TransportPhase::Opening, TransportEvent::Depth(_)) => {
                    &&& next is Receiving
                    &&& r@.len() == 1 && r@[0] is TryReceive
                },
                (TransportPhase::Receiving, TransportEvent::Batch(batch))
                | (TransportPhase::Waiting, TransportEvent::Batch(batch)) => {
                    &&& next is Receiving
                    &&& r@.len() == 2 && r@[1] is TryReceive
                    &&& r@[0] matches TransportAction::Push(written) && same_batch(written, batch)
                },
                (TransportPhase::Receiving, TransportEvent::Empty) => {
                    &&& next is Measuring
                    &&& r@.len() == 1 && r@[0] is AskDepth
                },
                (TransportPhase::Receiving, TransportEvent::Closed)
                | (TransportPhase::Waiting, TransportEvent::Closed) => {
                    &&& next is Closing
                    &&& r@.len() == 1
                    &&& r@[0] matches TransportAction::DrainWithin(limit) && limit.nanos
                        == 2_000_000_000
                },
                (TransportPhase::Measuring, TransportEvent::Depth(depth)) => {
                    let pending: usize = if depth is Some {
                        depth->0
                    } else {
                        0
                    };
                    let reports = old(transport).reports_depth;
                    &&& r@.len() == if reports {
                        2int
                    } else {
                        1
                    }
                    &&& reports ==> (r@[0] matches TransportAction::ReportDepth(told) && told
                        == pending)
                    &&& if pending > 0 {
                        next is Draining && r@[r@.len() - 1] is Drain
                    } else {
                        next is Waiting && (r@[r@.len() - 1] matches TransportAction::ReceiveWithin(
                            limit,
                        ) && limit.nanos == 100_000_000)
                    }
                },
                (TransportPhase::Draining, TransportEvent::Drained) => {
                    &&& next is Waiting
                    &&& r@.len() == 1
                    &&& r@[0] matches TransportAction::ReceiveWithin(limit) && limit.nanos
                        == 100_000_000
                },
                (TransportPhase::Draining, TransportEvent::DrainFailed) => {
                    &&& next is Retrying
                    &&& r@.len() == 1
                    &&& r@[0] matches TransportAction::Sleep(delay) && delay == old(
                        transport,
                    ).retry_delay
                },
                (TransportPhase::Retrying, TransportEvent::Elapsed)
                | (TransportPhase::Waiting, TransportEvent::Elapsed) => {
                    &&& next is Receiving
                    &&& r@.len() == 1 && r@[0] is TryReceive
                },
                (TransportPhase::Closing, TransportEvent::Drained)
                | (TransportPhase::Closing, TransportEvent::DrainFailed)
                | (TransportPhase::Closing, TransportEvent::DrainTimedOut) => {
                    &&& next is Done
                    &&& r@.len() == 1 && r@[0] is Shutdown
                },
                _ => next == phase && r@.len() == 0,
            }
        }),
{
    let models = action_models(r@);
    assert(models.len() == r@.len());
    assert(forall|i: int| 0 <= i < r@.len() ==> #[trigger] models[i] == r@[i]@);
    if r@.len() > 0 {
        assert(models[0] == r@[0]@);
        assert(models[r@.len() - 1] == r@[r@.len() - 1]@);
    }
    if r@.len() > 1 {
        assert(models[1] == r@[1]@);
    }
}

/// Every batch, event and outcome is taken.
pub proof fn transports_take_everything(
    config: &GrpcConfig,
    peeked: Result<Vec<(i64, TelemetryBatch)>, DrainError>,
    receipt: DrainReceipt,
    streamed: Result<(), DrainError>,
    result: &Result<usize, DrainError>,
    e: &DrainError,
    worker: &mut WalWorker,
    cmd: Option<WalCmd>,
    opened: bool,
    transport: &mut Transport,
    event: TransportEvent,
)
    ensures
        call_requires(authorization, (config,)),
        call_requires(drain_request, (config,)),
        call_requires(plan_drain, (config, peeked)),
        call_requires(conclude_drain, (receipt, streamed)),
        call_requires(drain_event, (result,)),
        call_requires(DrainError::message, (e,)),
        call_requires(WalWorker::new, (opened,)),
        call_requires(WalWorker::step, (worker, cmd)),
        call_requires(Transport::new, (config,)),
        call_requires(Transport::step, (transport, event)),
{
}

} // verus!
