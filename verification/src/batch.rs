//! Batch assembly: accumulates telemetry frames and emits them as batches at a
//! configurable interval.

use vstd::prelude::*;

use crate::proto::{samples_of, BatchModel, TelemetryBatch, TelemetryFrame};
use crate::time::{clock_elapsed, clock_now, ClockReading, Duration};

verus! {

/// Configuration of the batch assembler.
#[derive(Debug, Clone, PartialEq, Eq)]
pub struct BatchConfig {
    /// How often to flush accumulated samples into a batch.
    pub flush_interval: Duration,
    /// User ID to stamp on every batch.
    pub user_id: String,
    /// Source capture rate in Hz, stamped on each batch.
    pub source_rate_hz: u32,
    /// Data source identifier: "demo", "ac-rig-1", "acc-rig-2", etc.
    pub source: String,
}

/// The source a collector reports unless configured otherwise.
pub fn default_source() -> (r: String)
    ensures
        r@ == "live"@,
{
    "live".to_owned()
}

/// The flush interval unless configured otherwise.
pub fn default_interval() -> (r: Duration)
    ensures
        r.nanos == 500_000_000,
{
    Duration::from_millis(500)
}

impl Default for BatchConfig {
    fn default() -> (r: BatchConfig)
        ensures
            r.flush_interval.nanos == 500_000_000,
            r.user_id@ == Seq::<char>::empty(),
            r.source_rate_hz == 60,
            r.source@ == "live"@,
    {
        BatchConfig {
            flush_interval: default_interval(),
            user_id: String::new(),
            source_rate_hz: 60,
            source: default_source(),
        }
    }
}

/// The batch that holds exactly `samples`: its size counts them modulo 2^32, and its
/// time range runs from the first to the last of them.
pub open spec fn batch_of(config: BatchConfig, samples: Seq<TelemetryFrame>) -> BatchModel {
    BatchModel {
        user_id: config.user_id@,
        source: config.source@,
        batch_start_ts: if samples.len() == 0 {
            0
        } else {
            samples.first().timestamp
        },
        batch_end_ts: if samples.len() == 0 {
            0
        } else {
            samples.last().timestamp
        },
        batch_size: (samples.len() % 0x1_0000_0000) as u32,
        source_rate_hz: config.source_rate_hz,
        samples,
        compressed_samples: None,
    }
}

/// How much later than `last` the reading `now` is, in nanoseconds; nothing if it is earlier.
pub open spec fn between(last: Duration, now: Duration) -> int {
    if now.nanos >= last.nanos {
        now.nanos - last.nanos
    } else {
        0
    }
}

/// What an assembler holds, as mathematical values.
#[verifier::ext_equal]
pub struct AssemblerModel {
    /// The samples that wait for the next flush, oldest first.
    pub buffered: Seq<TelemetryFrame>,
    /// The clock reading that the interval runs from.
    pub last_flush: Duration,
}

/// An assembler that is new: nothing is buffered, and its interval runs from its start.
pub open spec fn new_assembler() -> AssemblerModel {
    AssemblerModel { buffered: seq![], last_flush: Duration { nanos: 0 } }
}

/// An assembler after a flush at the reading `now`, and the batch that it gives: everything
/// buffered. The interval restarts.
pub open spec fn flushed(config: BatchConfig, assembler: AssemblerModel, now: Duration) -> (
    AssemblerModel,
    BatchModel,
) {
    (
        AssemblerModel { buffered: seq![], last_flush: now },
        batch_of(config, assembler.buffered),
    )
}

/// An assembler after a push at the reading `now`, and the batch that it gives. If the
/// interval is over, the sample and everything buffered are flushed. Otherwise the sample is
/// buffered, and the interval runs on.
pub open spec fn pushed(
    config: BatchConfig,
    assembler: AssemblerModel,
    sample: TelemetryFrame,
    now: Duration,
) -> (AssemblerModel, Option<BatchModel>) {
    let all = AssemblerModel { buffered: assembler.buffered.push(sample), ..assembler };
    if between(assembler.last_flush, now) >= config.flush_interval.nanos {
        let (next, batch) = flushed(config, all, now);
        (next, Some(batch))
    } else {
        (all, None)
    }
}

/// An optional batch, as a mathematical value.
pub open spec fn optional_batch(batch: Option<TelemetryBatch>) -> Option<BatchModel> {
    match batch {
        Some(batch) => Some(batch@),
        None => None,
    }
}

/// Assembles individual samples into batches at a configurable interval.
///
/// Clock readings count from the start of the assembler.
pub struct BatchAssembler {
    config: BatchConfig,
    buffer: Vec<TelemetryFrame>,
    started: std::time::Instant,
    last_flush: Duration,
}

impl View for BatchAssembler {
    type V = AssemblerModel;

    open spec fn view(&self) -> AssemblerModel {
        AssemblerModel { buffered: self.buffered(), last_flush: self.last_flush() }
    }
}

impl BatchAssembler {
    /// The configuration that every batch is stamped from.
    pub closed spec fn config(&self) -> BatchConfig {
        self.config
    }

    /// The samples that wait for the next flush, oldest first.
    pub closed spec fn buffered(&self) -> Seq<TelemetryFrame> {
        self.buffer@
    }

    /// When the assembler was made: what its clock readings count from.
    pub closed spec fn started(&self) -> std::time::Instant {
        self.started
    }

    /// The clock reading that the interval runs from: that of the last flush, and zero
    /// before the first.
    pub closed spec fn last_flush(&self) -> Duration {
        self.last_flush
    }

    /// An assembler with nothing buffered, whose interval starts now.
    pub fn new(config: BatchConfig) -> (r: BatchAssembler)
        ensures
            r.config() == config,
            r.buffered() == Seq::<TelemetryFrame>::empty(),
            r.last_flush().nanos == 0,
            r@ == new_assembler(),
    {
        BatchAssembler {
            config,
            buffer: Vec::with_capacity(512),
            started: clock_now(),
            last_flush: Duration { nanos: 0 },
        }
    }

    /// Reads the clock: the time since the assembler was made.
    fn read_clock(&self) -> (r: ClockReading)
        ensures
            r.origin() == self.started(),
    {
        clock_elapsed(&self.started)
    }

    /// Adds a sample to the buffer. Returns the batch of everything buffered if the
    /// flush interval has elapsed by the clock, and nothing otherwise.
    ///
    /// The interval runs from the last flush; a push that returns a batch is one, a push
    /// that returns nothing is not.
    pub fn push(&mut self, sample: TelemetryFrame) -> (r: Option<TelemetryBatch>)
        ensures
            final(self).config() == old(self).config(),
            final(self).started() == old(self).started(),
            exists|now: ClockReading|
                now.origin() == old(self).started() && (final(self)@, optional_batch(r))
                    == pushed(old(self).config(), old(self)@, sample, #[trigger] now@),
            match r {
                Some(batch) => {
                    &&& batch@ == batch_of(old(self).config(), old(self).buffered().push(sample))
                    &&& final(self).buffered() == Seq::<TelemetryFrame>::empty()
                    &&& between(old(self).last_flush(), final(self).last_flush()) >= old(
                        self,
                    ).config().flush_interval.nanos
                },
                None => {
                    &&& old(self).config().flush_interval.nanos > 0
                    &&& final(self).buffered() == old(self).buffered().push(sample)
                    &&& final(self).last_flush() == old(self).last_flush()
                },
            },
    {
        let now = self.read_clock();
        self.push_at(sample, now.elapsed())
    }

    /// Adds a sample to the buffer at the clock reading `now`. Returns the batch of
    /// everything buffered if the time since the last flush is the flush interval or more,
    /// and nothing otherwise.
    pub fn push_at(&mut self, sample: TelemetryFrame, now: Duration) -> (r: Option<TelemetryBatch>)
        ensures
            final(self).config() == old(self).config(),
            final(self).started() == old(self).started(),
            (final(self)@, optional_batch(r)) == pushed(
                old(self).config(),
                old(self)@,
                sample,
                now,
            ),
            r is Some <==> between(old(self).last_flush(), now) >= old(
                self,
            ).config().flush_interval.nanos,
            match r {
                Some(batch) => {
                    &&& batch@ == batch_of(old(self).config(), old(self).buffered().push(sample))
                    &&& final(self).buffered() == Seq::<TelemetryFrame>::empty()
                    &&& final(self).last_flush() == now
                },
                None => {
                    &&& final(self).buffered() == old(self).buffered().push(sample)
                    &&& final(self).last_flush() == old(self).last_flush()
                },
            },
    {
        self.buffer.push(sample);
        let elapsed: u128 = if now.nanos >= self.last_flush.nanos {
            now.nanos - self.last_flush.nanos
        } else {
            0
        };
        if elapsed >= self.config.flush_interval.nanos {
            Some(self.flush_at(now))
        } else {
            None
        }
    }

    /// Turns everything buffered into a batch, whether or not the interval has elapsed,
    /// and restarts the interval. The batch is empty if nothing is buffered.
    pub fn flush(&mut self) -> (r: TelemetryBatch)
        ensures
            r@ == batch_of(old(self).config(), old(self).buffered()),
            final(self).config() == old(self).config(),
            final(self).started() == old(self).started(),
            final(self).buffered() == Seq::<TelemetryFrame>::empty(),
            exists|now: ClockReading|
                now.origin() == old(self).started() && (final(self)@, r@) == flushed(
                    old(self).config(),
                    old(self)@,
                    #[trigger] now@,
                ),
    {
        let now = self.read_clock();
        self.flush_at(now.elapsed())
    }

    /// Turns everything buffered into a batch at the clock reading `now`, whether or not the
    /// interval has elapsed, and restarts the interval. The batch is empty if nothing is
    /// buffered.
    pub fn flush_at(&mut self, now: Duration) -> (r: TelemetryBatch)
        ensures
            r@ == batch_of(old(self).config(), old(self).buffered()),
            final(self).config() == old(self).config(),
            final(self).started() == old(self).started(),
            final(self).buffered() == Seq::<TelemetryFrame>::empty(),
            final(self).last_flush() == now,
            (final(self)@, r@) == flushed(old(self).config(), old(self)@, now),
    {
        let mut samples: Vec<TelemetryFrame> = Vec::with_capacity(512);
        std::mem::swap(&mut samples, &mut self.buffer);
        self.last_flush = now;
        let count: usize = samples.len();
        let batch_size: u32 = (count as u64 % 0x1_0000_0000) as u32;
        let batch_start_ts: i64 = if count == 0 {
            0
        } else {
            samples[0].timestamp
        };
        let batch_end_ts: i64 = if count == 0 {
            0
        } else {
            samples[count - 1].timestamp
        };
        TelemetryBatch {
            user_id: self.config.user_id.clone(),
            source: self.config.source.clone(),
            batch_start_ts,
            batch_end_ts,
            batch_size,
            source_rate_hz: self.config.source_rate_hz,
            samples,
            compressed_samples: None,
        }
    }

    /// The number of samples currently buffered.
    pub fn buffered_count(&self) -> (r: usize)
        ensures
            r == self.buffered().len(),
    {
        self.buffer.len()
    }

    /// Advances the assembler task by one event, at a reading of the clock, and says what
    /// the task does next.
    pub fn step(&mut self, event: AssemblerEvent) -> (r: AssemblerStep)
        ensures
            final(self).config() == old(self).config(),
            final(self).started() == old(self).started(),
            exists|now: ClockReading|
                now.origin() == old(self).started() && (final(self)@, r@) == assembler_step(
                    old(self).config(),
                    old(self)@,
                    event,
                    #[trigger] now@,
                ),
            r@ is Wait ==> final(self).last_flush() == old(self).last_flush(),
    {
        let now = self.read_clock();
        self.step_at(event, now.elapsed())
    }

    /// Advances the assembler task by one event, at the clock reading `now`, and says what
    /// the task does next.
    pub fn step_at(&mut self, event: AssemblerEvent, now: Duration) -> (r: AssemblerStep)
        ensures
            final(self).config() == old(self).config(),
            final(self).started() == old(self).started(),
            (final(self)@, r@) == assembler_step(old(self).config(), old(self)@, event, now),
            r@ is Wait ==> final(self).last_flush() == old(self).last_flush(),
            r@ is Send ==> final(self).last_flush() == now,
    {
        match event {
            AssemblerEvent::Sample(sample) => match self.push_at(sample, now) {
                Some(batch) => AssemblerStep::Send(batch),
                None => AssemblerStep::Wait,
            },
            AssemblerEvent::Tick => if self.buffered_count() > 0 {
                AssemblerStep::Send(self.flush_at(now))
            } else {
                AssemblerStep::Wait
            },
            AssemblerEvent::Closed => if self.buffered_count() > 0 {
                AssemblerStep::Finish(Some(self.flush_at(now)))
            } else {
                AssemblerStep::Finish(None)
            },
        }
    }
}

/// What happens to the task that runs an assembler.
#[derive(Debug, Clone, Copy, PartialEq, Eq)]
pub enum AssemblerEvent {
    /// A sample arrived.
    Sample(TelemetryFrame),
    /// No sample arrived for a whole flush interval.
    Tick,
    /// No more samples will come, or nobody takes the batches any more.
    Closed,
}

/// What the task that runs an assembler does next.
#[derive(Debug, Clone, PartialEq, Eq)]
pub enum AssemblerStep {
    /// Wait for the next event.
    Wait,
    /// Send a batch on, then wait. If nobody takes it, the next event is `Closed`.
    Send(TelemetryBatch),
    /// Send the last batch, if there is one, and end.
    Finish(Option<TelemetryBatch>),
}

/// What an [`AssemblerStep`] holds, as mathematical values.
pub enum AssemblerStepModel {
    Wait,
    Send(BatchModel),
    Finish(Option<BatchModel>),
}

impl View for AssemblerStep {
    type V = AssemblerStepModel;

    open spec fn view(&self) -> AssemblerStepModel {
        match *self {
            AssemblerStep::Wait => AssemblerStepModel::Wait,
            AssemblerStep::Send(batch) => AssemblerStepModel::Send(batch@),
            AssemblerStep::Finish(Some(batch)) => AssemblerStepModel::Finish(Some(batch@)),
            AssemblerStep::Finish(None) => AssemblerStepModel::Finish(None),
        }
    }
}

/// An assembler after an event at the reading `now`, and what the task does then. A sample
/// is pushed; otherwise everything buffered is flushed, if there is anything.
pub open spec fn assembler_step(
    config: BatchConfig,
    assembler: AssemblerModel,
    event: AssemblerEvent,
    now: Duration,
) -> (AssemblerModel, AssemblerStepModel) {
    let (empty, batch) = flushed(config, assembler, now);
    match event {
        AssemblerEvent::Sample(sample) => match pushed(config, assembler, sample, now) {
            (next, Some(batch)) => (next, AssemblerStepModel::Send(batch)),
            (next, None) => (next, AssemblerStepModel::Wait),
        },
        AssemblerEvent::Tick => if assembler.buffered.len() > 0 {
            (empty, AssemblerStepModel::Send(batch))
        } else {
            (assembler, AssemblerStepModel::Wait)
        },
        AssemblerEvent::Closed => if assembler.buffered.len() > 0 {
            (empty, AssemblerStepModel::Finish(Some(batch)))
        } else {
            (assembler, AssemblerStepModel::Finish(None))
        },
    }
}

/// The batches that a step sends: one or none.
pub open spec fn sent_by(step: AssemblerStepModel) -> Seq<BatchModel> {
    match step {
        AssemblerStepModel::Send(batch) => seq![batch],
        AssemblerStepModel::Finish(Some(batch)) => seq![batch],
        _ => seq![],
    }
}

/// The samples that a run of events brings in, in order. Each event comes with the clock
/// reading at it.
pub open spec fn samples_in(events: Seq<(AssemblerEvent, Duration)>) -> Seq<TelemetryFrame>
    decreases events.len(),
{
    if events.len() == 0 {
        seq![]
    } else {
        match events.last().0 {
            AssemblerEvent::Sample(sample) => samples_in(events.drop_last()).push(sample),
            _ => samples_in(events.drop_last()),
        }
    }
}

/// The batches sent over a run of events from a new assembler on, and the assembler after
/// it.
pub open spec fn assembler_run(config: BatchConfig, events: Seq<(AssemblerEvent, Duration)>) -> (
    Seq<BatchModel>,
    AssemblerModel,
)
    decreases events.len(),
{
    if events.len() == 0 {
        (seq![], new_assembler())
    } else {
        let (sent, before) = assembler_run(config, events.drop_last());
        let (after, step) = assembler_step(config, before, events.last().0, events.last().1);
        (sent + sent_by(step), after)
    }
}

/// Every sample is sent exactly once, in the order of arrival, or is still buffered.
pub proof fn samples_are_conserved(config: BatchConfig, events: Seq<(AssemblerEvent, Duration)>)
    ensures
        samples_of(assembler_run(config, events).0) + assembler_run(config, events).1.buffered
            == samples_in(events),
    decreases events.len(),
{
    if events.len() > 0 {
        samples_are_conserved(config, events.drop_last());
        let (sent, before) = assembler_run(config, events.drop_last());
        let (after, step) = assembler_step(config, before, events.last().0, events.last().1);
        let out = sent_by(step);
        if out.len() == 0 {
            assert(sent + out =~= sent);
        } else {
            assert((sent + out).drop_last() =~= sent);
        }
        assert(samples_of(sent + out) + after.buffered =~= samples_in(events));
    } else {
        assert(samples_of(assembler_run(config, events).0) + assembler_run(
            config,
            events,
        ).1.buffered =~= samples_in(events));
    }
}

/// Once the task has been closed nothing stays behind: all samples have been sent.
pub proof fn closing_flushes_everything(config: BatchConfig, events: Seq<(AssemblerEvent, Duration)>)
    requires
        events.len() > 0,
        events.last().0 is Closed,
    ensures
        samples_of(assembler_run(config, events).0) == samples_in(events),
        assembler_run(config, events).1.buffered.len() == 0,
{
    samples_are_conserved(config, events);
    let (sent, left) = assembler_run(config, events);
    assert(left.buffered =~= seq![]);
    assert(samples_of(sent) + left.buffered =~= samples_of(sent));
}

/// Every batch that the task sends holds samples, and is stamped from the configuration
/// with their number and time range.
pub proof fn sent_batches_are_whole(config: BatchConfig, events: Seq<(AssemblerEvent, Duration)>, i: int)
    requires
        0 <= i < assembler_run(config, events).0.len(),
    ensures
        assembler_run(config, events).0[i].samples.len() > 0,
        assembler_run(config, events).0[i] == batch_of(
            config,
            assembler_run(config, events).0[i].samples,
        ),
    decreases events.len(),
{
    let (sent, _) = assembler_run(config, events.drop_last());
    if i < sent.len() {
        sent_batches_are_whole(config, events.drop_last(), i);
    }
}

/// A call on an assembler.
pub enum AssemblerCall {
    Push(TelemetryFrame),
    Flush,
}

/// An assembler after a call at the reading `now`, and the batch that the call gives.
pub open spec fn call_step(
    config: BatchConfig,
    assembler: AssemblerModel,
    call: AssemblerCall,
    now: Duration,
) -> (AssemblerModel, Option<BatchModel>) {
    match call {
        AssemblerCall::Push(sample) => pushed(config, assembler, sample, now),
        AssemblerCall::Flush => {
            let (next, batch) = flushed(config, assembler, now);
            (next, Some(batch))
        },
    }
}

/// The batches that a run of calls on a new assembler gives, and the assembler after it.
/// Each call comes with the clock reading at it.
pub open spec fn calls_run(config: BatchConfig, calls: Seq<(AssemblerCall, Duration)>) -> (
    Seq<BatchModel>,
    AssemblerModel,
)
    decreases calls.len(),
{
    if calls.len() == 0 {
        (seq![], new_assembler())
    } else {
        let (given, before) = calls_run(config, calls.drop_last());
        match call_step(config, before, calls.last().0, calls.last().1) {
            (after, Some(batch)) => (given.push(batch), after),
            (after, None) => (given, after),
        }
    }
}

/// The batch that the call at position `i` of a run gives.
pub open spec fn given_at(
    config: BatchConfig,
    calls: Seq<(AssemblerCall, Duration)>,
    i: int,
) -> Option<BatchModel> {
    call_step(config, calls_run(config, calls.take(i)).1, calls[i].0, calls[i].1).1
}

/// Whether the calls of a run from position `from` on and before `to` give no batch.
pub open spec fn none_given(
    config: BatchConfig,
    calls: Seq<(AssemblerCall, Duration)>,
    from: int,
    to: int,
) -> bool {
    forall|k: int| from <= k < to ==> #[trigger] given_at(config, calls, k) is None
}

/// The samples that calls push, in order.
pub open spec fn samples_pushed(calls: Seq<(AssemblerCall, Duration)>) -> Seq<TelemetryFrame>
    decreases calls.len(),
{
    if calls.len() == 0 {
        seq![]
    } else {
        match calls.last().0 {
            AssemblerCall::Push(sample) => samples_pushed(calls.drop_last()).push(sample),
            AssemblerCall::Flush => samples_pushed(calls.drop_last()),
        }
    }
}

/// Whatever is called and when, every sample that is pushed is given in a batch exactly
/// once, in order, or is still buffered.
pub proof fn calls_conserve_samples(config: BatchConfig, calls: Seq<(AssemblerCall, Duration)>)
    ensures
        samples_of(calls_run(config, calls).0) + calls_run(config, calls).1.buffered
            == samples_pushed(calls),
    decreases calls.len(),
{
    let (given, after) = calls_run(config, calls);
    if calls.len() > 0 {
        calls_conserve_samples(config, calls.drop_last());
        let (given_before, before) = calls_run(config, calls.drop_last());
        if given.len() > given_before.len() {
            assert(given.drop_last() =~= given_before);
        }
    }
    assert(samples_of(given) + after.buffered =~= samples_pushed(calls));
}

/// Whether no clock reading of a run is earlier than one before it.
pub open spec fn readings_grow(calls: Seq<(AssemblerCall, Duration)>) -> bool {
    forall|i: int, j: int|
        0 <= i < j < calls.len() ==> (#[trigger] calls[i]).1.nanos <= (#[trigger] calls[j]).1.nanos
}

/// One more call of a run.
proof fn run_grows_by_a_call(config: BatchConfig, calls: Seq<(AssemblerCall, Duration)>, i: int)
    requires
        0 <= i < calls.len(),
    ensures
        calls_run(config, calls.take(i + 1)).1 == call_step(
            config,
            calls_run(config, calls.take(i)).1,
            calls[i].0,
            calls[i].1,
        ).0,
{
    assert(calls.take(i + 1).drop_last() =~= calls.take(i));
    assert(calls.take(i + 1).last() == calls[i]);
}

/// After calls that give no batch, the interval still runs from where it ran before them,
/// and everything that they pushed is buffered.
proof fn interval_runs_on(
    config: BatchConfig,
    calls: Seq<(AssemblerCall, Duration)>,
    from: int,
    to: int,
)
    requires
        0 <= from <= to <= calls.len(),
        none_given(config, calls, from, to),
    ensures
        ({
            let before = calls_run(config, calls.take(from)).1;
            let after = calls_run(config, calls.take(to)).1;
            &&& after.last_flush == before.last_flush
            &&& after.buffered == before.buffered + samples_pushed(calls.subrange(from, to))
        }),
    decreases to - from,
{
    let before = calls_run(config, calls.take(from)).1;
    if from == to {
        assert(calls.subrange(from, to) =~= seq![]);
        assert(before.buffered + seq![] =~= before.buffered);
    } else {
        interval_runs_on(config, calls, from, to - 1);
        run_grows_by_a_call(config, calls, to - 1);
        assert(given_at(config, calls, to - 1) is None);
        assert(calls.subrange(from, to).drop_last() =~= calls.subrange(from, to - 1));
        assert(calls_run(config, calls.take(to)).1.buffered =~= before.buffered + samples_pushed(
            calls.subrange(from, to),
        ));
    }
}

/// A push gives a batch exactly if the flush interval or more has passed since the latest
/// batch before it, whether a push or a flush gave that one, or since the start where there
/// is none. Nothing else matters to that. The batch holds everything pushed since, and so
/// does the buffer where there is no batch.
pub proof fn pushes_follow_the_interval(
    config: BatchConfig,
    calls: Seq<(AssemblerCall, Duration)>,
    j: int,
)
    requires
        0 <= j < calls.len(),
        calls[j].0 is Push,
    ensures
        none_given(config, calls, 0, j) ==> {
            &&& given_at(config, calls, j) is Some <==> calls[j].1.nanos
                >= config.flush_interval.nanos
            &&& given_at(config, calls, j) is Some ==> given_at(config, calls, j) == Some(
                batch_of(config, samples_pushed(calls.take(j + 1))),
            )
            &&& given_at(config, calls, j) is None ==> calls_run(
                config,
                calls.take(j + 1),
            ).1.buffered == samples_pushed(calls.take(j + 1))
        },
        forall|i: int|
            0 <= i < j && #[trigger] given_at(config, calls, i) is Some && none_given(
                config,
                calls,
                i + 1,
                j,
            ) ==> {
                let since = samples_pushed(calls.subrange(i + 1, j + 1));
                &&& given_at(config, calls, j) is Some <==> between(calls[i].1, calls[j].1)
                    >= config.flush_interval.nanos
                &&& given_at(config, calls, j) is Some ==> given_at(config, calls, j) == Some(
                    batch_of(config, since),
                )
                &&& given_at(config, calls, j) is None ==> calls_run(
                    config,
                    calls.take(j + 1),
                ).1.buffered == since
            },
{
    run_grows_by_a_call(config, calls, j);
    if none_given(config, calls, 0, j) {
        interval_runs_on(config, calls, 0, j);
        assert(calls.take(0) =~= seq![]);
        assert(calls.subrange(0, j) =~= calls.take(j));
        assert(calls.take(j + 1).drop_last() =~= calls.take(j));
        assert(calls_run(config, calls.take(j)).1.buffered =~= samples_pushed(calls.take(j)));
    }
    assert forall|i: int|
        0 <= i < j && #[trigger] given_at(config, calls, i) is Some && none_given(
            config,
            calls,
            i + 1,
            j,
        ) implies ({
        let since = samples_pushed(calls.subrange(i + 1, j + 1));
        &&& given_at(config, calls, j) is Some <==> between(calls[i].1, calls[j].1)
            >= config.flush_interval.nanos
        &&& given_at(config, calls, j) is Some ==> given_at(config, calls, j) == Some(
            batch_of(config, since),
        )
        &&& given_at(config, calls, j) is None ==> calls_run(
            config,
            calls.take(j + 1),
        ).1.buffered == since
    }) by {
        run_grows_by_a_call(config, calls, i);
        interval_runs_on(config, calls, i + 1, j);
        assert(calls.subrange(i + 1, j + 1).drop_last() =~= calls.subrange(i + 1, j));
        assert(calls_run(config, calls.take(j)).1.buffered =~= samples_pushed(
            calls.subrange(i + 1, j),
        ));
    }
}

/// After a batch the interval never runs from an earlier reading than that batch's.
proof fn interval_starts_no_earlier(
    config: BatchConfig,
    calls: Seq<(AssemblerCall, Duration)>,
    i: int,
    j: int,
)
    requires
        readings_grow(calls),
        0 <= i < j <= calls.len(),
        given_at(config, calls, i) is Some,
    ensures
        calls[i].1.nanos <= calls_run(config, calls.take(j)).1.last_flush.nanos
            <= calls[j - 1].1.nanos,
    decreases j,
{
    run_grows_by_a_call(config, calls, j - 1);
    if i < j - 1 {
        interval_starts_no_earlier(config, calls, i, j - 1);
    }
}

/// On a clock that does not run backwards, a batch that a push gives comes at least the
/// flush interval after every batch before it.
pub proof fn batches_keep_the_interval(
    config: BatchConfig,
    calls: Seq<(AssemblerCall, Duration)>,
    i: int,
    j: int,
)
    requires
        readings_grow(calls),
        0 <= i < j < calls.len(),
        given_at(config, calls, i) is Some,
        calls[j].0 is Push,
        given_at(config, calls, j) is Some,
    ensures
        calls[j].1.nanos - calls[i].1.nanos >= config.flush_interval.nanos,
{
    interval_starts_no_earlier(config, calls, i, j);
}

/// The calls that the task makes over a run of events: it pushes each sample, and flushes
/// when there is something to flush and no sample.
pub open spec fn task_calls(config: BatchConfig, events: Seq<(AssemblerEvent, Duration)>) -> Seq<
    (AssemblerCall, Duration),
>
    decreases events.len(),
{
    if events.len() == 0 {
        seq![]
    } else {
        let before = task_calls(config, events.drop_last());
        let (event, now) = events.last();
        match event {
            AssemblerEvent::Sample(sample) => before.push((AssemblerCall::Push(sample), now)),
            _ => if assembler_run(config, events.drop_last()).1.buffered.len() > 0 {
                before.push((AssemblerCall::Flush, now))
            } else {
                before
            },
        }
    }
}

/// The task sends what its calls give, so that what holds of calls holds of the task.
pub proof fn the_task_sends_what_its_calls_give(
    config: BatchConfig,
    events: Seq<(AssemblerEvent, Duration)>,
)
    ensures
        assembler_run(config, events) == calls_run(config, task_calls(config, events)),
    decreases events.len(),
{
    if events.len() > 0 {
        the_task_sends_what_its_calls_give(config, events.drop_last());
        let before = task_calls(config, events.drop_last());
        let calls = task_calls(config, events);
        assert(calls.len() > before.len() ==> calls.drop_last() =~= before);
        assert(assembler_run(config, events).0 =~= calls_run(config, calls).0);
    }
}

} // verus!
