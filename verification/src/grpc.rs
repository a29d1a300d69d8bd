//! Decisions of the transport that streams batches to the cloud gateway.
//!
//! 1. New batches are written to the write-ahead log as they arrive.
//! 2. A drain takes the oldest batches of the log and streams them to the gateway.
//! 3. Once the gateway has acknowledged them, they are removed from the log.
//! 4. When a drain fails, it is tried again after a delay.

use vstd::prelude::*;
use vstd::string::*;

use crate::auth::optional_text;
use crate::gateway::bearer;
use crate::proto::{BatchModel, TelemetryBatch};
use crate::text::joined;
use crate::time::Duration;

verus! {

/// Configuration of the transport.
#[derive(Debug, Clone, PartialEq, Eq)]
pub struct GrpcConfig {
    /// Gateway endpoint URL.
    pub gateway_url: String,
    /// Path of the write-ahead log.
    pub wal_path: String,
    /// How many batches a drain takes from the log at most.
    pub drain_batch_size: usize,
    /// How long to wait after a drain that failed.
    pub retry_delay: Duration,
    /// Bearer token for authentication.
    pub auth_token: Option<String>,
    /// Whether the depth of the log is reported before each drain.
    pub wal_depth_reporter: bool,
}

/// The retry delay unless configured otherwise.
pub fn default_retry_delay() -> (r: Duration)
    ensures
        r.nanos == 5_000_000_000,
{
    Duration::from_secs(5)
}

impl Default for GrpcConfig {
    fn default() -> (r: GrpcConfig)
        ensures
            r.gateway_url@ == "http://localhost:50051"@,
            r.wal_path@ == "telemetry-wal.db"@,
            r.drain_batch_size == 32,
            r.retry_delay.nanos == 5_000_000_000,
            r.auth_token is None,
            !r.wal_depth_reporter,
    {
        GrpcConfig {
            gateway_url: "http://localhost:50051".to_owned(),
            wal_path: "telemetry-wal.db".to_owned(),
            drain_batch_size: 32,
            retry_delay: default_retry_delay(),
            auth_token: None,
            wal_depth_reporter: false,
        }
    }
}

/// Requests to the worker that owns the write-ahead log.
#[derive(Debug, Clone, PartialEq, Eq)]
pub enum WalCmd {
    /// Append a batch.
    Push(TelemetryBatch),
    /// Hand out the oldest batches, this many at most.
    Peek(usize),
    /// Remove the batches up to and with this id.
    AckUpTo(i64),
    /// Count the batches.
    Depth,
    /// End the worker.
    Shutdown,
}

/// Whether the worker goes on after a request, or after the end of requests, and the
/// operation that it carries out on the log. A worker that has ended carries out nothing.
pub open spec fn worker_step(alive: bool, cmd: Option<WalCmd>) -> (bool, Option<WalCmd>) {
    match cmd {
        Some(cmd) if alive && !(cmd is Shutdown) => (true, Some(cmd)),
        _ => (false, None),
    }
}

/// The worker that owns the write-ahead log, apart from the log.
#[derive(Debug, Clone, Copy, PartialEq, Eq, Structural)]
pub struct WalWorker {
    /// Whether the worker takes requests.
    pub alive: bool,
}

impl WalWorker {
    /// A worker whose log has been opened, or could not be: then it ends at once.
    pub fn new(opened: bool) -> (r: WalWorker)
        ensures
            r.alive == opened,
    {
        WalWorker { alive: opened }
    }

    /// Takes the next request, or the end of requests. Returns the operation to carry out on
    /// the log, or nothing when the worker ends. Whether the operation succeeds makes no
    /// difference to the worker.
    pub fn step(&mut self, cmd: Option<WalCmd>) -> (r: Option<WalCmd>)
        ensures
            (final(self).alive, r) == worker_step(old(self).alive, cmd),
    {
        if !self.alive {
            return None;
        }
        match cmd {
            Some(WalCmd::Shutdown) | None => {
                self.alive = false;
                None
            },
            other => other,
        }
    }
}

/// Whether a request has an answer.
pub open spec fn asks(cmd: WalCmd) -> bool {
    cmd is Peek || cmd is Depth
}

/// A log after operations: `effect` says what each does to it, which may be nothing, as for
/// one that fails.
pub open spec fn log_after<L>(
    log: L,
    effect: spec_fn(L, WalCmd) -> L,
    operations: Seq<WalCmd>,
) -> L
    decreases operations.len(),
{
    if operations.len() == 0 {
        log
    } else {
        effect(log_after(log, effect, operations.drop_last()), operations.last())
    }
}

/// What has come of requests to a worker.
pub struct WorkerRun<L, A> {
    /// Whether the worker takes requests.
    pub alive: bool,
    pub log: L,
    /// The operations carried out, in order.
    pub carried_out: Seq<WalCmd>,
    /// For each request its answer, if it got one.
    pub answers: Seq<Option<A>>,
}

/// What comes of requests to a worker whose log is as given, if it could be opened.
/// `effect` says what an operation does to the log, and `answer` what it answers.
pub open spec fn worker_run<L, A>(
    opened: bool,
    log: L,
    effect: spec_fn(L, WalCmd) -> L,
    answer: spec_fn(L, WalCmd) -> A,
    requests: Seq<WalCmd>,
) -> WorkerRun<L, A>
    decreases requests.len(),
{
    if requests.len() == 0 {
        WorkerRun { alive: opened, log, carried_out: seq![], answers: seq![] }
    } else {
        let before = worker_run(opened, log, effect, answer, requests.drop_last());
        let (alive, operation) = worker_step(before.alive, Some(requests.last()));
        match operation {
            Some(cmd) => WorkerRun {
                alive,
                log: effect(before.log, cmd),
                carried_out: before.carried_out.push(cmd),
                answers: before.answers.push(
                    if asks(cmd) {
                        Some(answer(before.log, cmd))
                    } else {
                        None
                    },
                ),
            },
            None => WorkerRun { alive, answers: before.answers.push(None), ..before },
        }
    }
}

/// How many requests come before the first shutdown; all of them if there is none.
pub open spec fn before_shutdown(requests: Seq<WalCmd>) -> int
    decreases requests.len(),
{
    if requests.len() == 0 {
        0
    } else if before_shutdown(requests.drop_last()) < requests.len() - 1 || requests.last() is Shutdown {
        before_shutdown(requests.drop_last())
    } else {
        requests.len() as int
    }
}

/// Requests are counted up to the first shutdown.
proof fn shutdown_is_the_first(requests: Seq<WalCmd>)
    ensures
        0 <= before_shutdown(requests) <= requests.len(),
        forall|i: int|
            0 <= i < before_shutdown(requests) ==> !((#[trigger] requests[i]) is Shutdown),
        before_shutdown(requests) < requests.len() ==> requests[before_shutdown(
            requests,
        )] is Shutdown,
    decreases requests.len(),
{
    if requests.len() > 0 {
        let front = requests.drop_last();
        shutdown_is_the_first(front);
        assert forall|i: int| 0 <= i < before_shutdown(requests) implies !((
        #[trigger] requests[i]) is Shutdown) by {
            if i < front.len() {
                assert(front[i] == requests[i]);
            }
        }
        if before_shutdown(front) < front.len() {
            assert(front[before_shutdown(front)] == requests[before_shutdown(front)]);
        }
    }
}

/// What comes of requests to a worker, by position.
proof fn worker_run_by_position<L, A>(
    opened: bool,
    log: L,
    effect: spec_fn(L, WalCmd) -> L,
    answer: spec_fn(L, WalCmd) -> A,
    requests: Seq<WalCmd>,
)
    ensures
        ({
            let run = worker_run(opened, log, effect, answer, requests);
            let end = if opened {
                before_shutdown(requests)
            } else {
                0
            };
            &&& run.alive == (opened && end == requests.len())
            &&& run.carried_out == requests.take(end)
            &&& run.log == log_after(log, effect, requests.take(end))
            &&& run.answers.len() == requests.len()
            &&& forall|i: int|
                0 <= i < requests.len() ==> (#[trigger] run.answers[i]) == (if i < end && asks(
                    requests[i],
                ) {
                    Some(answer(log_after(log, effect, requests.take(i)), requests[i]))
                } else {
                    None
                })
        }),
    decreases requests.len(),
{
    shutdown_is_the_first(requests);
    if requests.len() == 0 {
        assert(requests.take(0) =~= seq![]);
    } else {
        let front = requests.drop_last();
        let last = requests.len() - 1;
        shutdown_is_the_first(front);
        worker_run_by_position(opened, log, effect, answer, front);
        let before = worker_run(opened, log, effect, answer, front);
        let run = worker_run(opened, log, effect, answer, requests);
        let end = if opened {
            before_shutdown(requests)
        } else {
            0
        };
        if end == requests.len() {
            assert(front.take(last) =~= front);
            assert(requests.take(end) =~= requests);
            assert(requests.take(last) =~= front);
            assert(run.carried_out =~= requests);
        } else {
            assert(front.take(end) =~= requests.take(end));
        }
        assert forall|i: int| 0 <= i < requests.len() implies (#[trigger] run.answers[i]) == (if i
            < end && asks(requests[i]) {
            Some(answer(log_after(log, effect, requests.take(i)), requests[i]))
        } else {
            None
        }) by {
            if i < last {
                assert(run.answers[i] == before.answers[i]);
                assert(front.take(i) =~= requests.take(i));
            }
        }
    }
}

/// Every request before the first shutdown is carried out, in the order sent, whatever
/// comes of those before it, and none after. Each request that asks is answered by the log
/// as all requests before it have left it. A worker whose log could not be opened carries
/// out and answers nothing.
pub proof fn requests_are_carried_out_in_order<L, A>(
    opened: bool,
    log: L,
    effect: spec_fn(L, WalCmd) -> L,
    answer: spec_fn(L, WalCmd) -> A,
    requests: Seq<WalCmd>,
)
    ensures
        ({
            let run = worker_run(opened, log, effect, answer, requests);
            let end = before_shutdown(requests);
            &&& 0 <= end <= requests.len()
            &&& forall|i: int| 0 <= i < end ==> !((#[trigger] requests[i]) is Shutdown)
            &&& end < requests.len() ==> requests[end] is Shutdown
            &&& run.alive == (opened && end == requests.len())
            &&& run.carried_out == (if opened {
                requests.take(end)
            } else {
                seq![]
            })
            &&& run.log == (if opened {
                log_after(log, effect, requests.take(end))
            } else {
                log
            })
            &&& run.answers.len() == requests.len()
            &&& forall|i: int|
                0 <= i < requests.len() ==> (#[trigger] run.answers[i]) == (if opened && i < end
                    && asks(requests[i]) {
                    Some(answer(log_after(log, effect, requests.take(i)), requests[i]))
                } else {
                    None
                })
        }),
{
    shutdown_is_the_first(requests);
    worker_run_by_position(opened, log, effect, answer, requests);
    assert(requests.take(0) =~= seq![]);
}

/// Why a drain failed.
#[derive(Debug, Clone, Copy, PartialEq, Eq, Structural)]
pub enum DrainError {
    /// The worker of the log is gone.
    WorkerDropped,
    /// The log could not be read.
    PeekFailed,
    /// The gateway URL is not one.
    InvalidUrl,
    /// The gateway could not be reached.
    ConnectFailed,
    /// The gateway did not acknowledge the stream.
    StreamFailed,
}

impl DrainError {
    /// The reason in words.
    pub open spec fn described(&self) -> Seq<char> {
        match *self {
            DrainError::WorkerDropped => "WAL worker dropped"@,
            DrainError::PeekFailed => "WAL peek failed"@,
            DrainError::InvalidUrl => "Invalid gateway URL"@,
            DrainError::ConnectFailed => "Failed to connect to gateway"@,
            DrainError::StreamFailed => "StreamTelemetry RPC failed"@,
        }
    }

    /// Describes the reason in words.
    pub fn message(&self) -> (r: &'static str)
        ensures
            r@ == self.described(),
    {
        match self {
            DrainError::WorkerDropped => "WAL worker dropped",
            DrainError::PeekFailed => "WAL peek failed",
            DrainError::InvalidUrl => "Invalid gateway URL",
            DrainError::ConnectFailed => "Failed to connect to gateway",
            DrainError::StreamFailed => "StreamTelemetry RPC failed",
        }
    }
}

/// What is to be removed from the log once a drain has been acknowledged.
#[derive(Debug, Clone, Copy, PartialEq, Eq, Structural)]
pub struct DrainReceipt {
    /// The id of the last batch streamed.
    pub max_id: i64,
    /// The number of batches streamed.
    pub count: usize,
}

/// What a drain does with the batches that the log handed out.
#[derive(Debug, PartialEq, Eq)]
pub enum DrainPlan {
    /// The drain is over: it has streamed nothing, or has failed.
    Over(Result<usize, DrainError>),
    /// Connect to the gateway and stream these batches, with this text as authorization
    /// where there is one.
    Stream { batches: Vec<TelemetryBatch>, authorization: Option<String>, receipt: DrainReceipt },
}

/// The authorization that goes with a stream: the bearer token, where one is configured.
pub open spec fn authorization_text(config: GrpcConfig) -> Option<Seq<char>> {
    match config.auth_token {
        Some(token) => Some("Bearer "@ + token@),
        None => None,
    }
}

/// Returns the authorization that goes with a stream.
pub fn authorization(config: &GrpcConfig) -> (r: Option<String>)
    ensures
        match config.auth_token {
            Some(token) => r matches Some(header) && header@ == "Bearer "@ + token@,
            None => r is None,
        },
        optional_text(r) == authorization_text(*config),
{
    match &config.auth_token {
        Some(token) => Some(joined("Bearer ", token.as_str())),
        None => None,
    }
}

/// The gateway reads from the authorization of a stream the token that is configured, and
/// no token where none is.
pub proof fn the_gateway_reads_the_configured_token(config: GrpcConfig)
    ensures
        bearer(authorization_text(config)) == match config.auth_token {
            Some(token) => token@,
            None => Seq::<char>::empty(),
        },
{
    if let Some(token) = config.auth_token {
        let header = "Bearer "@ + token@;
        assert(header.take("Bearer "@.len() as int) =~= "Bearer "@);
        assert(header.skip("Bearer "@.len() as int) =~= token@);
    }
}

/// Entries of a log without their ids.
pub open spec fn entry_batches(entries: Seq<(i64, TelemetryBatch)>) -> Seq<TelemetryBatch> {
    entries.map_values(|entry: (i64, TelemetryBatch)| entry.1)
}

/// The receipt for streaming entries of a log.
pub open spec fn receipt_of<B>(entries: Seq<(i64, B)>) -> DrainReceipt {
    DrainReceipt { max_id: entries.last().0, count: entries.len() as usize }
}

/// The end of a drain that has streamed, or has failed to: what is asked of the log, and what
/// the drain returns.
pub open spec fn concluded(receipt: DrainReceipt, streamed: Result<(), DrainError>) -> (
    Option<WalCmd>,
    Result<usize, DrainError>,
) {
    match streamed {
        Ok(_) => (Some(WalCmd::AckUpTo(receipt.max_id)), Ok(receipt.count)),
        Err(e) => (None, Err(e)),
    }
}

/// The request that a drain starts with.
pub fn drain_request(config: &GrpcConfig) -> (r: WalCmd)
    ensures
        r == WalCmd::Peek(config.drain_batch_size),
{
    WalCmd::Peek(config.drain_batch_size)
}

/// Decides what a drain does with the entries that the log handed out, oldest first, or
/// with the failure to get any.
pub fn plan_drain(
    config: &GrpcConfig,
    peeked: Result<Vec<(i64, TelemetryBatch)>, DrainError>,
) -> (r: DrainPlan)
    ensures
        match peeked {
            Err(e) => r == DrainPlan::Over(Err(e)),
            Ok(entries) => if entries@.len() == 0 {
                r == DrainPlan::Over(Ok(0))
            } else {
                r matches DrainPlan::Stream { batches, authorization, receipt } && {
                    &&& batches@ == entry_batches(entries@)
                    &&& optional_text(authorization) == authorization_text(*config)
                    &&& receipt == receipt_of(entries@)
                    &&& receipt.count == entries@.len()
                }
            },
        },
{
    let entries = match peeked {
        Ok(entries) => entries,
        Err(e) => return DrainPlan::Over(Err(e)),
    };
    let count: usize = entries.len();
    if count == 0 {
        return DrainPlan::Over(Ok(0));
    }
    let max_id: i64 = entries[count - 1].0;
    let ghost all = entries@;
    let mut batches: Vec<TelemetryBatch> = Vec::new();
    for entry in it: entries
        invariant
            it.seq() == all,
            batches@ == entry_batches(all.take(it.index() as int)),
    {
        proof {
            assert(all.take(it.index() + 1).drop_last() =~= all.take(it.index() as int));
        }
        batches.push(entry.1);
        proof {
            assert(batches@ =~= entry_batches(all.take(it.index() + 1)));
        }
    }
    proof {
        assert(all.take(all.len() as int) =~= all);
    }
    DrainPlan::Stream {
        batches,
        authorization: authorization(config),
        receipt: DrainReceipt { max_id, count },
    }
}

/// Ends a drain. Once the gateway has acknowledged the stream, what was streamed is
/// removed from the log and counted; after a failure the log is left alone.
pub fn conclude_drain(receipt: DrainReceipt, streamed: Result<(), DrainError>) -> (r: (
    Option<WalCmd>,
    Result<usize, DrainError>,
))
    ensures
        r == concluded(receipt, streamed),
{
    match streamed {
        Ok(_) => (Some(WalCmd::AckUpTo(receipt.max_id)), Ok(receipt.count)),
        Err(e) => (None, Err(e)),
    }
}

/// Where the transport stands: what it waits for.
#[derive(Debug, Clone, Copy, PartialEq, Eq, Structural)]
pub enum TransportPhase {
    /// For the depth of the log left over from before.
    Opening,
    /// For a look at whether a batch has arrived.
    Receiving,
    /// For the depth of the log before a drain.
    Measuring,
    /// For the end of a drain.
    Draining,
    /// For the end of the delay after a drain that failed.
    Retrying,
    /// For a batch, a short while.
    Waiting,
    /// For the end of the last drain.
    Closing,
    /// For nothing more.
    Done,
}

/// What happens to the transport.
#[derive(Debug, Clone, PartialEq, Eq)]
pub enum TransportEvent {
    /// The log holds this many batches; nothing if it could not be counted.
    Depth(Option<usize>),
    /// A batch has arrived.
    Batch(TelemetryBatch),
    /// No batch has arrived yet.
    Empty,
    /// No more batches will come.
    Closed,
    /// A drain has succeeded.
    Drained,
    /// A drain has failed.
    DrainFailed,
    /// The last drain has taken too long.
    DrainTimedOut,
    /// The time to wait is over.
    Elapsed,
}

/// What the transport does next. The last of several actions brings the next event.
#[derive(Debug, Clone, PartialEq, Eq)]
pub enum TransportAction {
    /// Ask for the depth of the log.
    AskDepth,
    /// Look whether a batch has arrived.
    TryReceive,
    /// Write a batch to the log.
    Push(TelemetryBatch),
    /// Report the depth of the log.
    ReportDepth(u64),
    /// Drain the log.
    Drain,
    /// Drain the log a last time, within a time.
    DrainWithin(Duration),
    /// Wait.
    Sleep(Duration),
    /// Wait for a batch, within a time.
    ReceiveWithin(Duration),
    /// End the worker of the log, and then the transport.
    Shutdown,
}

/// What a [`TransportEvent`] holds, as mathematical values.
pub enum TransportEventModel {
    Depth(Option<usize>),
    Batch(BatchModel),
    Empty,
    Closed,
    Drained,
    DrainFailed,
    DrainTimedOut,
    Elapsed,
}

/// What a [`TransportAction`] holds, as mathematical values.
pub enum TransportActionModel {
    AskDepth,
    TryReceive,
    Push(BatchModel),
    ReportDepth(u64),
    Drain,
    DrainWithin(Duration),
    Sleep(Duration),
    ReceiveWithin(Duration),
    Shutdown,
}

impl View for TransportEvent {
    type V = TransportEventModel;

    open spec fn view(&self) -> TransportEventModel {
        match *self {
            TransportEvent::Depth(depth) => TransportEventModel::Depth(depth),
            TransportEvent::Batch(batch) => TransportEventModel::Batch(batch@),
            TransportEvent::Empty => TransportEventModel::Empty,
            TransportEvent::Closed => TransportEventModel::Closed,
            TransportEvent::Drained => TransportEventModel::Drained,
            TransportEvent::DrainFailed => TransportEventModel::DrainFailed,
            TransportEvent::DrainTimedOut => TransportEventModel::DrainTimedOut,
            TransportEvent::Elapsed => TransportEventModel::Elapsed,
        }
    }
}

impl View for TransportAction {
    type V = TransportActionModel;

    open spec fn view(&self) -> TransportActionModel {
        match *self {
            TransportAction::AskDepth => TransportActionModel::AskDepth,
            TransportAction::TryReceive => TransportActionModel::TryReceive,
            TransportAction::Push(batch) => TransportActionModel::Push(batch@),
            TransportAction::ReportDepth(depth) => TransportActionModel::ReportDepth(depth),
            TransportAction::Drain => TransportActionModel::Drain,
            TransportAction::DrainWithin(limit) => TransportActionModel::DrainWithin(limit),
            TransportAction::Sleep(delay) => TransportActionModel::Sleep(delay),
            TransportAction::ReceiveWithin(limit) => TransportActionModel::ReceiveWithin(limit),
            TransportAction::Shutdown => TransportActionModel::Shutdown,
        }
    }
}

/// What a drain comes to for the transport, by what it returns.
pub open spec fn drained(result: Result<usize, DrainError>) -> TransportEventModel {
    match result {
        Ok(_) => TransportEventModel::Drained,
        Err(_) => TransportEventModel::DrainFailed,
    }
}

/// Tells the transport what a drain came to, by what it returned.
pub fn drain_event(result: &Result<usize, DrainError>) -> (r: TransportEvent)
    ensures
        r@ == drained(*result),
{
    match result {
        Ok(_) => TransportEvent::Drained,
        Err(_) => TransportEvent::DrainFailed,
    }
}

/// Several actions, as mathematical values.
pub open spec fn action_models(actions: Seq<TransportAction>) -> Seq<TransportActionModel> {
    actions.map_values(|action: TransportAction| action@)
}

/// How long the transport waits for a batch before it looks at the log again.
pub open spec fn poll_interval() -> Duration {
    Duration { nanos: 100_000_000 }
}

/// How long the last drain may take.
pub open spec fn last_drain_limit() -> Duration {
    Duration { nanos: 2_000_000_000 }
}

/// Whether an event is one that the transport waits for.
pub open spec fn awaits(phase: TransportPhase, event: TransportEventModel) -> bool {
    match phase {
        TransportPhase::Opening | TransportPhase::Measuring => event is Depth,
        TransportPhase::Receiving => event is Batch || event is Empty || event is Closed,
        TransportPhase::Draining => event is Drained || event is DrainFailed,
        TransportPhase::Retrying => event is Elapsed,
        TransportPhase::Waiting => event is Batch || event is Closed || event is Elapsed,
        TransportPhase::Closing => event is Drained || event is DrainFailed
            || event is DrainTimedOut,
        TransportPhase::Done => false,
    }
}

/// Where the transport stands after an event, and what it does then. An event that it does
/// not wait for changes nothing.
pub open spec fn transport_step(
    retry_delay: Duration,
    reports_depth: bool,
    phase: TransportPhase,
    event: TransportEventModel,
) -> (TransportPhase, Seq<TransportActionModel>) {
    if !awaits(phase, event) {
        (phase, seq![])
    } else {
        match event {
            TransportEventModel::Depth(depth) => if phase is Opening {
                (TransportPhase::Receiving, seq![TransportActionModel::TryReceive])
            } else {
                let pending: usize = match depth {
                    Some(depth) => depth,
                    None => 0,
                };
                let report = if reports_depth {
                    seq![TransportActionModel::ReportDepth(pending as u64)]
                } else {
                    seq![]
                };
                if pending > 0 {
                    (TransportPhase::Draining, report.push(TransportActionModel::Drain))
                } else {
                    (
                        TransportPhase::Waiting,
                        report.push(TransportActionModel::ReceiveWithin(poll_interval())),
                    )
                }
            },
            TransportEventModel::Batch(batch) => (
                TransportPhase::Receiving,
                seq![TransportActionModel::Push(batch), TransportActionModel::TryReceive],
            ),
            TransportEventModel::Empty => (
                TransportPhase::Measuring,
                seq![TransportActionModel::AskDepth],
            ),
            TransportEventModel::Closed => (
                TransportPhase::Closing,
                seq![TransportActionModel::DrainWithin(last_drain_limit())],
            ),
            TransportEventModel::Elapsed => (
                TransportPhase::Receiving,
                seq![TransportActionModel::TryReceive],
            ),
            TransportEventModel::Drained if phase is Draining => (
                TransportPhase::Waiting,
                seq![TransportActionModel::ReceiveWithin(poll_interval())],
            ),
            TransportEventModel::DrainFailed if phase is Draining => (
                TransportPhase::Retrying,
                seq![TransportActionModel::Sleep(retry_delay)],
            ),
            _ => (TransportPhase::Done, seq![TransportActionModel::Shutdown]),
        }
    }
}

/// The transport, apart from its channels and connections.
#[derive(Debug, Clone, Copy, PartialEq, Eq, Structural)]
pub struct Transport {
    pub phase: TransportPhase,
    /// How long to wait after a drain that failed.
    pub retry_delay: Duration,
    /// Whether the depth of the log is reported before each drain.
    pub reports_depth: bool,
}

impl Transport {
    /// A transport at its start, and what it does first.
    pub fn new(config: &GrpcConfig) -> (r: (Transport, TransportAction))
        ensures
            r.0 == (Transport {
                phase: TransportPhase::Opening,
                retry_delay: config.retry_delay,
                reports_depth: config.wal_depth_reporter,
            }),
            r.1 == TransportAction::AskDepth,
    {
        (
            Transport {
                phase: TransportPhase::Opening,
                retry_delay: config.retry_delay,
                reports_depth: config.wal_depth_reporter,
            },
            TransportAction::AskDepth,
        )
    }

    /// Advances the transport by one event and says what it does next.
    pub fn step(&mut self, event: TransportEvent) -> (r: Vec<TransportAction>)
        ensures
            final(self).retry_delay == old(self).retry_delay,
            final(self).reports_depth == old(self).reports_depth,
            (final(self).phase, action_models(r@)) == transport_step(
                old(self).retry_delay,
                old(self).reports_depth,
                old(self).phase,
                event@,
            ),
    {
        let mut actions: Vec<TransportAction> = Vec::new();
        let ghost before = *self;
        let ghost model = event@;
        match (self.phase, event) {
            (TransportPhase::Opening, TransportEvent::Depth(_)) => {
                self.phase = TransportPhase::Receiving;
                actions.push(TransportAction::TryReceive);
            },
            (TransportPhase::Measuring, TransportEvent::Depth(depth)) => {
                let pending: usize = match depth {
                    Some(depth) => depth,
                    None => 0,
                };
                if self.reports_depth {
                    actions.push(TransportAction::ReportDepth(pending as u64));
                }
                if pending > 0 {
                    self.phase = TransportPhase::Draining;
                    actions.push(TransportAction::Drain);
                } else {
                    self.phase = TransportPhase::Waiting;
                    actions.push(TransportAction::ReceiveWithin(Duration::from_millis(100)));
                }
            },
            (TransportPhase::Receiving, TransportEvent::Batch(batch)) => {
                actions.push(TransportAction::Push(batch));
                actions.push(TransportAction::TryReceive);
            },
            (TransportPhase::Waiting, TransportEvent::Batch(batch)) => {
                self.phase = TransportPhase::Receiving;
                actions.push(TransportAction::Push(batch));
                actions.push(TransportAction::TryReceive);
            },
            (TransportPhase::Receiving, TransportEvent::Empty) => {
                self.phase = TransportPhase::Measuring;
                actions.push(TransportAction::AskDepth);
            },
            (TransportPhase::Receiving, TransportEvent::Closed) | (
                TransportPhase::Waiting,
                TransportEvent::Closed,
            ) => {
                self.phase = TransportPhase::Closing;
                actions.push(TransportAction::DrainWithin(Duration::from_secs(2)));
            },
            (TransportPhase::Waiting, TransportEvent::Elapsed) | (
                TransportPhase::Retrying,
                TransportEvent::Elapsed,
            ) => {
                self.phase = TransportPhase::Receiving;
                actions.push(TransportAction::TryReceive);
            },
            (TransportPhase::Draining, TransportEvent::Drained) => {
                self.phase = TransportPhase::Waiting;
                actions.push(TransportAction::ReceiveWithin(Duration::from_millis(100)));
            },
            (TransportPhase::Draining, TransportEvent::DrainFailed) => {
                self.phase = TransportPhase::Retrying;
                actions.push(TransportAction::Sleep(self.retry_delay));
            },
            (TransportPhase::Closing, TransportEvent::Drained) | (
                TransportPhase::Closing,
                TransportEvent::DrainFailed,
            ) | (TransportPhase::Closing, TransportEvent::DrainTimedOut) => {
                self.phase = TransportPhase::Done;
                actions.push(TransportAction::Shutdown);
            },
            _ => {},
        }
        proof {
            assert(action_models(actions@) =~= transport_step(
                before.retry_delay,
                before.reports_depth,
                before.phase,
                model,
            ).1);
        }
        actions
    }
}

/// The batches that actions write to the log, in order.
pub open spec fn pushed_by(actions: Seq<TransportActionModel>) -> Seq<BatchModel>
    decreases actions.len(),
{
    if actions.len() == 0 {
        seq![]
    } else {
        match actions.last() {
            TransportActionModel::Push(batch) => pushed_by(actions.drop_last()).push(batch),
            _ => pushed_by(actions.drop_last()),
        }
    }
}

/// The batches that arrive in a run of events, in order.
pub open spec fn batches_in(events: Seq<TransportEventModel>) -> Seq<BatchModel>
    decreases events.len(),
{
    if events.len() == 0 {
        seq![]
    } else {
        match events.last() {
            TransportEventModel::Batch(batch) => batches_in(events.drop_last()).push(batch),
            _ => batches_in(events.drop_last()),
        }
    }
}

/// Where a transport stands after a run of events, and all batches it has written to the
/// log until then.
pub open spec fn transport_run(
    retry_delay: Duration,
    reports_depth: bool,
    events: Seq<TransportEventModel>,
) -> (TransportPhase, Seq<BatchModel>)
    decreases events.len(),
{
    if events.len() == 0 {
        (TransportPhase::Opening, seq![])
    } else {
        let (phase, pushed) = transport_run(retry_delay, reports_depth, events.drop_last());
        let (next, actions) = transport_step(retry_delay, reports_depth, phase, events.last());
        (next, pushed + pushed_by(actions))
    }
}

/// Whether each event of a run is one that the transport waits for when it comes.
pub open spec fn all_awaited(
    retry_delay: Duration,
    reports_depth: bool,
    events: Seq<TransportEventModel>,
) -> bool
    decreases events.len(),
{
    events.len() > 0 ==> {
        &&& all_awaited(retry_delay, reports_depth, events.drop_last())
        &&& awaits(
            transport_run(retry_delay, reports_depth, events.drop_last()).0,
            events.last(),
        )
    }
}

/// One step writes to the log the batch that it was handed, if any, and nothing else.
pub(crate) proof fn step_pushes_what_arrives(
    retry_delay: Duration,
    reports_depth: bool,
    phase: TransportPhase,
    event: TransportEventModel,
)
    requires
        awaits(phase, event),
    ensures
        pushed_by(transport_step(retry_delay, reports_depth, phase, event).1) == match event {
            TransportEventModel::Batch(batch) => seq![batch],
            _ => seq![],
        },
{
    reveal_with_fuel(pushed_by, 3);
    let actions = transport_step(retry_delay, reports_depth, phase, event).1;
    if let TransportEventModel::Batch(batch) = event {
        assert(actions.drop_last() =~= seq![TransportActionModel::Push(batch)]);
        assert(actions.drop_last().drop_last() =~= seq![]);
        assert(pushed_by(actions) =~= seq![batch]);
    } else {
        assert(pushed_by(actions) =~= seq![]);
    }
}

/// Every batch that arrives is written to the log once, in the order of arrival, and
/// nothing else is.
pub proof fn every_batch_reaches_the_log(
    retry_delay: Duration,
    reports_depth: bool,
    events: Seq<TransportEventModel>,
)
    requires
        all_awaited(retry_delay, reports_depth, events),
    ensures
        transport_run(retry_delay, reports_depth, events).1 == batches_in(events),
    decreases events.len(),
{
    if events.len() > 0 {
        let front = events.drop_last();
        every_batch_reaches_the_log(retry_delay, reports_depth, front);
        let (phase, pushed) = transport_run(retry_delay, reports_depth, front);
        step_pushes_what_arrives(retry_delay, reports_depth, phase, events.last());
        assert(transport_run(retry_delay, reports_depth, events).1 =~= batches_in(events));
    }
}

/// As long as the transport is not done it waits for something, and each event that it
/// waits for gives it something to do.
pub proof fn transport_never_stalls(
    retry_delay: Duration,
    reports_depth: bool,
    phase: TransportPhase,
    event: TransportEventModel,
)
    ensures
        phase is Done <==> forall|e: TransportEventModel| !awaits(phase, e),
        awaits(phase, event) ==> transport_step(
            retry_delay,
            reports_depth,
            phase,
            event,
        ).1.len() > 0,
{
    assert(phase is Opening || phase is Measuring ==> awaits(
        phase,
        TransportEventModel::Depth(None),
    ));
    assert(phase is Receiving || phase is Waiting ==> awaits(phase, TransportEventModel::Closed));
    assert(phase is Draining || phase is Closing ==> awaits(phase, TransportEventModel::Drained));
    assert(phase is Retrying ==> awaits(phase, TransportEventModel::Elapsed));
}

/// Once no more batches will come, the transport drains the log one last time, whatever
/// comes of it, and ends.
pub proof fn closing_drains_once_and_ends(
    retry_delay: Duration,
    reports_depth: bool,
    phase: TransportPhase,
    outcome: TransportEventModel,
)
    requires
        phase is Receiving || phase is Waiting,
        outcome is Drained || outcome is DrainFailed || outcome is DrainTimedOut,
    ensures
        ({
            let (closing, first) = transport_step(
                retry_delay,
                reports_depth,
                phase,
                TransportEventModel::Closed,
            );
            let (end, last) = transport_step(retry_delay, reports_depth, closing, outcome);
            &&& first == seq![TransportActionModel::DrainWithin(last_drain_limit())]
            &&& last == seq![TransportActionModel::Shutdown]
            &&& end is Done
        }),
{
}

/// After a drain that failed the transport waits for the retry delay, takes in what has
/// arrived, and comes back to draining if the log still holds batches.
pub proof fn failed_drains_are_retried(
    retry_delay: Duration,
    reports_depth: bool,
    depth: usize,
)
    requires
        depth > 0,
    ensures
        ({
            let (a, sleep) = transport_step(
                retry_delay,
                reports_depth,
                TransportPhase::Draining,
                TransportEventModel::DrainFailed,
            );
            let (b, _) = transport_step(
                retry_delay,
                reports_depth,
                a,
                TransportEventModel::Elapsed,
            );
            let (c, _) = transport_step(retry_delay, reports_depth, b, TransportEventModel::Empty);
            let (d, again) = transport_step(
                retry_delay,
                reports_depth,
                c,
                TransportEventModel::Depth(Some(depth)),
            );
            &&& sleep == seq![TransportActionModel::Sleep(retry_delay)]
            &&& again.last() == TransportActionModel::Drain
            &&& d is Draining
        }),
{
}

/// Whether the ids of a log grow from entry to entry.
pub open spec fn ids_increase<B>(log: Seq<(i64, B)>) -> bool {
    forall|i: int, j: int| 0 <= i < j < log.len() ==> (#[trigger] log[i]).0 < (#[trigger] log[j]).0
}

/// A log after its entries up to and with an id have been removed.
pub open spec fn acknowledged_up_to<B>(log: Seq<(i64, B)>, id: i64) -> Seq<(i64, B)> {
    log.filter(|entry: (i64, B)| entry.0 > id)
}

/// Removing from a log leaves alone what has larger ids only.
proof fn nothing_to_acknowledge<B>(log: Seq<(i64, B)>, id: i64)
    requires
        forall|i: int| 0 <= i < log.len() ==> (#[trigger] log[i]).0 > id,
    ensures
        acknowledged_up_to(log, id) == log,
    decreases log.len(),
{
    reveal(Seq::filter);
    if log.len() > 0 {
        nothing_to_acknowledge(log.drop_last(), id);
        assert(log.last() == log[log.len() - 1]);
        assert(log.drop_last().push(log.last()) =~= log);
    } else {
        assert(acknowledged_up_to(log, id) =~= log);
    }
}

/// Removing from a log takes away all of what has no larger ids.
proof fn everything_to_acknowledge<B>(log: Seq<(i64, B)>, id: i64)
    requires
        forall|i: int| 0 <= i < log.len() ==> (#[trigger] log[i]).0 <= id,
    ensures
        acknowledged_up_to(log, id) == Seq::<(i64, B)>::empty(),
    decreases log.len(),
{
    reveal(Seq::filter);
    if log.len() > 0 {
        everything_to_acknowledge(log.drop_last(), id);
        assert(log.last() == log[log.len() - 1]);
    }
}

/// A drain that streams the oldest `count` entries of a log, and removes up to the id of
/// the last of them once they are acknowledged, removes exactly what it has streamed: the
/// rest of the log and what has been appended meanwhile stay.
pub proof fn drains_remove_exactly_what_was_streamed<B>(
    log: Seq<(i64, B)>,
    count: int,
    appended: Seq<(i64, B)>,
)
    requires
        0 < count <= log.len(),
        ids_increase(log + appended),
    ensures
        acknowledged_up_to(log + appended, receipt_of(log.take(count)).max_id) == log.skip(count) + appended,
{
    let streamed = log.take(count);
    let kept = log.skip(count) + appended;
    let all = log + appended;
    let id = streamed.last().0;
    assert(all =~= streamed + kept);
    assert(all[count - 1] == streamed.last());
    assert forall|i: int| 0 <= i < streamed.len() implies (#[trigger] streamed[i]).0 <= id by {
        assert(all[i] == streamed[i]);
    }
    assert forall|i: int| 0 <= i < kept.len() implies (#[trigger] kept[i]).0 > id by {
        assert(all[count + i] == kept[i]);
    }
    everything_to_acknowledge(streamed, id);
    nothing_to_acknowledge(kept, id);
    Seq::filter_distributes_over_add(
        streamed,
        kept,
        |entry: (i64, B)| entry.0 > id,
    );
    assert(acknowledged_up_to(streamed, id) + acknowledged_up_to(kept, id) =~= kept);
}

} // verus!
