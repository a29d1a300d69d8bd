//! Laws of the batch assembler.

use vstd::prelude::*;

use crate::batch::{
    assembler_run, batch_of, calls_run, default_interval, default_source, given_at, none_given,
    pushes_follow_the_interval, samples_in, samples_pushed, the_task_sends_what_its_calls_give,
    AssemblerCall, AssemblerEvent, AssemblerStep, BatchAssembler, BatchConfig,
};
use crate::proto::{samples_of, BatchModel, TelemetryBatch, TelemetryFrame};
use crate::time::{ClockReading, Duration};

verus! {

/// Whether a batch holds exactly these samples, and is stamped with the settings, the number
/// of samples and the times of the first and the last of them.
pub open spec fn is_stamped(
    config: BatchConfig,
    samples: Seq<TelemetryFrame>,
    batch: TelemetryBatch,
) -> bool {
    &&& batch.samples@ == samples
    &&& batch.user_id@ == config.user_id@
    &&& batch.source@ == config.source@
    &&& batch.source_rate_hz == config.source_rate_hz
    &&& batch.compressed_samples is None
    &&& (samples.len() - batch.batch_size) % 4_294_967_296 == 0
    &&& samples.len() < 4_294_967_296 ==> batch.batch_size == samples.len()
    &&& samples.len() > 0 ==> {
        &&& batch.batch_start_ts == samples[0].timestamp
        &&& batch.batch_end_ts == samples[samples.len() - 1].timestamp
    }
    &&& samples.len() == 0 ==> batch.batch_start_ts == 0 && batch.batch_end_ts == 0
}

/// Whether the model of a batch is stamped with the settings, and with the number and times
/// of its own samples.
pub open spec fn is_stamped_model(config: BatchConfig, batch: BatchModel) -> bool {
    &&& batch.user_id == config.user_id@
    &&& batch.source == config.source@
    &&& batch.source_rate_hz == config.source_rate_hz
    &&& batch.compressed_samples is None
    &&& (batch.samples.len() - batch.batch_size) % 4_294_967_296 == 0
    &&& batch.samples.len() < 4_294_967_296 ==> batch.batch_size == batch.samples.len()
    &&& batch.samples.len() > 0 ==> {
        &&& batch.batch_start_ts == batch.samples[0].timestamp
        &&& batch.batch_end_ts == batch.samples[batch.samples.len() - 1].timestamp
    }
}

/// Whether the flush interval is over at a reading, when it runs from another.
pub open spec fn is_over(config: BatchConfig, since: Duration, now: Duration) -> bool {
    config.flush_interval.nanos == 0 || now.nanos - since.nanos >= config.flush_interval.nanos
}

/// The settings unless told otherwise.
pub proof fn batch_defaults(config: BatchConfig, source: String, interval: Duration)
    requires
        call_ensures(<BatchConfig as Default>::default, (), config),
        call_ensures(default_source, (), source),
        call_ensures(default_interval, (), interval),
    ensures
        config.flush_interval.nanos == 500_000_000 && interval.nanos == 500_000_000,
        config.source@ == "live"@ && source@ == "live"@,
        config.user_id@.len() == 0 && config.source_rate_hz == 60,
{
}

/// A new assembler has its settings and nothing buffered, and its interval runs from its
/// start.
pub proof fn new_assemblers_are_empty(config: BatchConfig, r: BatchAssembler)
    requires
        call_ensures(BatchAssembler::new, (config,), r),
    ensures
        r.config() == config,
        r.buffered().len() == 0,
        r.last_flush().nanos == 0,
{
}

/// A flush gives everything buffered, stamped, leaves nothing behind and restarts the
/// interval.
pub proof fn flushes_give_everything(
    assembler: &mut BatchAssembler,
    now: Duration,
    r: TelemetryBatch,
)
    requires
        call_ensures(BatchAssembler::flush_at, (assembler, now), r),
    ensures
        is_stamped(old(assembler).config(), old(assembler).buffered(), r),
        final(assembler).buffered().len() == 0,
        final(assembler).last_flush() == now,
        final(assembler).config() == old(assembler).config(),
        final(assembler).started() == old(assembler).started(),
{
}

/// A flush by the clock gives everything buffered, stamped, leaves nothing behind and restarts
/// the interval at a reading of the assembler's own clock.
pub proof fn flushes_by_the_clock_give_everything(
    assembler: &mut BatchAssembler,
    r: TelemetryBatch,
)
    requires
        call_ensures(BatchAssembler::flush, (assembler,), r),
    ensures
        is_stamped(old(assembler).config(), old(assembler).buffered(), r),
        final(assembler).buffered().len() == 0,
        exists|now: ClockReading|
            now.origin() == old(assembler).started() && final(assembler).last_flush()
                == #[trigger] now@,
        final(assembler).config() == old(assembler).config(),
        final(assembler).started() == old(assembler).started(),
{
}

/// A push gives a batch exactly if the interval is over: everything buffered and then the
/// sample, and the interval restarts. Otherwise the sample is buffered behind the others, and
/// the interval runs on.
pub proof fn pushes_give_a_batch_once_the_interval_is_over(
    assembler: &mut BatchAssembler,
    sample: TelemetryFrame,
    now: Duration,
    r: Option<TelemetryBatch>,
)
    requires
        call_ensures(BatchAssembler::push_at, (assembler, sample, now), r),
    ensures
        r is Some <==> is_over(old(assembler).config(), old(assembler).last_flush(), now),
        r matches Some(batch) ==> {
            &&& is_stamped(old(assembler).config(), old(assembler).buffered().push(sample), batch)
            &&& final(assembler).buffered().len() == 0
            &&& final(assembler).last_flush() == now
        },
        r is None ==> {
            &&& final(assembler).buffered() == old(assembler).buffered().push(sample)
            &&& final(assembler).last_flush() == old(assembler).last_flush()
        },
        final(assembler).config() == old(assembler).config(),
        final(assembler).started() == old(assembler).started(),
{
}

/// A push by the clock does what a push does at some reading of the assembler's own clock.
pub proof fn pushes_by_the_clock_follow_it(
    assembler: &mut BatchAssembler,
    sample: TelemetryFrame,
    r: Option<TelemetryBatch>,
)
    requires
        call_ensures(BatchAssembler::push, (assembler, sample), r),
    ensures
        exists|now: ClockReading|
            {
                &&& now.origin() == old(assembler).started()
                &&& r is Some <==> is_over(
                    old(assembler).config(),
                    old(assembler).last_flush(),
                    #[trigger] now@,
                )
                &&& r is Some ==> final(assembler).last_flush() == now@
            },
        r matches Some(batch) ==> {
            &&& is_stamped(old(assembler).config(), old(assembler).buffered().push(sample), batch)
            &&& final(assembler).buffered().len() == 0
        },
        r is None ==> {
            &&& final(assembler).buffered() == old(assembler).buffered().push(sample)
            &&& final(assembler).last_flush() == old(assembler).last_flush()
        },
        final(assembler).config() == old(assembler).config(),
        final(assembler).started() == old(assembler).started(),
{
    let now = choose|now: ClockReading|
        now.origin() == old(assembler).started() && (final(assembler)@, crate::batch::optional_batch(
            r,
        )) == crate::batch::pushed(
            old(assembler).config(),
            old(assembler)@,
            sample,
            #[trigger] now@,
        );
    assert(now.origin() == old(assembler).started());
    assert(r is Some <==> is_over(old(assembler).config(), old(assembler).last_flush(), now@));
}

/// The samples counted as buffered are those that a flush would give.
pub proof fn counts_are_those_of_a_flush(
    assembler: &BatchAssembler,
    count: usize,
    flushed: &mut BatchAssembler,
    now: Duration,
    r: TelemetryBatch,
)
    requires
        call_ensures(BatchAssembler::buffered_count, (assembler,), count),
        *old(flushed) == *assembler,
        call_ensures(BatchAssembler::flush_at, (flushed, now), r),
    ensures
        count == r.samples@.len(),
{
}

/// A flush right after the start gives an empty batch under the settings.
pub proof fn nothing_comes_of_nothing(
    config: BatchConfig,
    assembler: BatchAssembler,
    flushed: &mut BatchAssembler,
    now: Duration,
    r: TelemetryBatch,
)
    requires
        call_ensures(BatchAssembler::new, (config,), assembler),
        *old(flushed) == assembler,
        call_ensures(BatchAssembler::flush_at, (flushed, now), r),
    ensures
        is_stamped(config, seq![], r),
{
}

/// A push that gives nothing adds its sample to what a flush gives, and a push that gives a
/// batch gives what a flush would have given, with its sample behind.
pub proof fn pushes_add_to_what_a_flush_gives(
    before: &mut BatchAssembler,
    without: TelemetryBatch,
    pushed: &mut BatchAssembler,
    sample: TelemetryFrame,
    now: Duration,
    given: Option<TelemetryBatch>,
    after: &mut BatchAssembler,
    then: TelemetryBatch,
)
    requires
        call_ensures(BatchAssembler::flush_at, (before, now), without),
        *old(pushed) == *old(before),
        call_ensures(BatchAssembler::push_at, (pushed, sample, now), given),
        *old(after) == *final(pushed),
        call_ensures(BatchAssembler::flush_at, (after, now), then),
    ensures
        match given {
            Some(batch) => {
                &&& batch.samples@ == without.samples@.push(sample)
                &&& then.samples@.len() == 0
            },
            None => then.samples@ == without.samples@.push(sample),
        },
{
}

/// After a flush, the next push gives a batch exactly if the interval is over since that
/// flush; with a push in between that gives nothing, the one after it just as well.
pub proof fn intervals_run_from_the_last_flush(
    flushed: &mut BatchAssembler,
    at: Duration,
    batch: TelemetryBatch,
    first: &mut BatchAssembler,
    sample: TelemetryFrame,
    now: Duration,
    given: Option<TelemetryBatch>,
    second: &mut BatchAssembler,
    other: TelemetryFrame,
    later: Duration,
    then: Option<TelemetryBatch>,
)
    requires
        call_ensures(BatchAssembler::flush_at, (flushed, at), batch),
        *old(first) == *final(flushed),
        call_ensures(BatchAssembler::push_at, (first, sample, now), given),
        *old(second) == *final(first),
        call_ensures(BatchAssembler::push_at, (second, other, later), then),
    ensures
        given is Some <==> is_over(old(flushed).config(), at, now),
        given is None ==> (then is Some <==> is_over(old(flushed).config(), at, later)),
        given is Some ==> (then is Some <==> is_over(old(flushed).config(), now, later)),
{
}

/// What the task does with an event. A sample is pushed. Without one, everything buffered is
/// sent if there is anything, and nothing happens otherwise. Only the end ends the task.
pub proof fn the_task_pushes_and_flushes(
    assembler: &mut BatchAssembler,
    event: AssemblerEvent,
    now: Duration,
    r: AssemblerStep,
)
    requires
        call_ensures(BatchAssembler::step_at, (assembler, event, now), r),
    ensures
        ({
            let config = old(assembler).config();
            let buffered = old(assembler).buffered();
            let over = is_over(config, old(assembler).last_flush(), now);
            &&& final(assembler).config() == config
            &&& final(assembler).started() == old(assembler).started()
            &&& r is Finish <==> event is Closed
            &&& event matches AssemblerEvent::Sample(sample) ==> if over {
                r matches AssemblerStep::Send(batch) && is_stamped(
                    config,
                    buffered.push(sample),
                    batch,
                )
            } else {
                r is Wait && final(assembler).buffered() == buffered.push(sample)
            }
            &&& event is Tick ==> if buffered.len() > 0 {
                r matches AssemblerStep::Send(batch) && is_stamped(config, buffered, batch)
            } else {
                r is Wait && final(assembler).buffered() == buffered
            }
            &&& event is Closed ==> if buffered.len() > 0 {
                r matches AssemblerStep::Finish(Some(batch)) && is_stamped(config, buffered, batch)
            } else {
                r matches AssemblerStep::Finish(None)
            }
            &&& if r is Wait || r matches AssemblerStep::Finish(None) {
                final(assembler).last_flush() == old(assembler).last_flush()
            } else {
                final(assembler).last_flush() == now && final(assembler).buffered().len() == 0
            }
        }),
{
}

/// What the task does with an event by the clock: as at some reading of the assembler's own
/// clock.
pub proof fn the_task_follows_the_clock(
    assembler: &mut BatchAssembler,
    event: AssemblerEvent,
    r: AssemblerStep,
)
    requires
        call_ensures(BatchAssembler::step, (assembler, event), r),
    ensures
        ({
            let config = old(assembler).config();
            let buffered = old(assembler).buffered();
            &&& final(assembler).config() == config
            &&& r is Finish <==> event is Closed
            &&& event matches AssemblerEvent::Sample(sample) ==> {
                &&& r matches AssemblerStep::Send(batch) ==> is_stamped(
                    config,
                    buffered.push(sample),
                    batch,
                )
                &&& r is Wait ==> final(assembler).buffered() == buffered.push(sample)
                &&& exists|now: ClockReading|
                    {
                        &&& now.origin() == old(assembler).started()
                        &&& r is Send <==> is_over(
                            config,
                            old(assembler).last_flush(),
                            #[trigger] now@,
                        )
                        &&& r is Send ==> final(assembler).last_flush() == now@
                    }
            }
            &&& event is Tick ==> if buffered.len() > 0 {
                r matches AssemblerStep::Send(batch) && is_stamped(config, buffered, batch)
            } else {
                r is Wait && final(assembler).buffered() == buffered
            }
            &&& event is Closed ==> if buffered.len() > 0 {
                r matches AssemblerStep::Finish(Some(batch)) && is_stamped(config, buffered, batch)
            } else {
                r matches AssemblerStep::Finish(None)
            }
            &&& r is Wait ==> final(assembler).last_flush() == old(assembler).last_flush()
            &&& r is Send ==> final(assembler).buffered().len() == 0
        }),
{
    let now = choose|now: ClockReading|
        now.origin() == old(assembler).started() && (final(assembler)@, r@)
            == crate::batch::assembler_step(
            old(assembler).config(),
            old(assembler)@,
            event,
            #[trigger] now@,
        );
    assert(now.origin() == old(assembler).started());
    if let AssemblerEvent::Sample(sample) = event {
        assert(r is Send <==> is_over(old(assembler).config(), old(assembler).last_flush(), now@));
    }
}

/// The batch of the model is stamped.
proof fn model_batches_are_stamped(config: BatchConfig, samples: Seq<TelemetryFrame>)
    ensures
        is_stamped_model(config, batch_of(config, samples)),
        batch_of(config, samples).samples == samples,
{
}

/// Every batch that a run of calls gives is stamped with the settings, and with the number and
/// times of its own samples.
pub proof fn given_batches_are_stamped(
    config: BatchConfig,
    calls: Seq<(AssemblerCall, Duration)>,
    i: int,
)
    requires
        0 <= i < calls_run(config, calls).0.len(),
    ensures
        is_stamped_model(config, calls_run(config, calls).0[i]),
    decreases calls.len(),
{
    let (given, before) = calls_run(config, calls.drop_last());
    if i < given.len() {
        given_batches_are_stamped(config, calls.drop_last(), i);
    } else {
        match calls.last().0 {
            AssemblerCall::Push(sample) => {
                model_batches_are_stamped(config, before.buffered.push(sample));
            },
            AssemblerCall::Flush => {
                model_batches_are_stamped(config, before.buffered);
            },
        }
    }
}

/// Every batch that the task sends is stamped with the settings, and with the number and times
/// of its own samples, of which it has some.
pub proof fn sent_batches_are_stamped(
    config: BatchConfig,
    events: Seq<(AssemblerEvent, Duration)>,
    i: int,
)
    requires
        0 <= i < assembler_run(config, events).0.len(),
    ensures
        is_stamped_model(config, assembler_run(config, events).0[i]),
        assembler_run(config, events).0[i].samples.len() > 0,
{
    the_task_sends_what_its_calls_give(config, events);
    given_batches_are_stamped(config, crate::batch::task_calls(config, events), i);
    crate::batch::sent_batches_are_whole(config, events, i);
}

/// Over any run of calls, a push gives a batch exactly if the interval is over since the
/// latest batch before it, or since the start where there is none, and the batch holds what
/// was pushed since.
pub proof fn pushes_measure_from_the_latest_batch(
    config: BatchConfig,
    calls: Seq<(AssemblerCall, Duration)>,
    i: int,
    j: int,
)
    requires
        0 <= j < calls.len(),
        calls[j].0 is Push,
    ensures
        none_given(config, calls, 0, j) ==> {
            &&& given_at(config, calls, j) is Some <==> calls[j].1.nanos
                >= config.flush_interval.nanos
            &&& given_at(config, calls, j) matches Some(batch) ==> batch.samples == samples_pushed(
                calls.take(j + 1),
            )
        },
        0 <= i < j && given_at(config, calls, i) is Some && none_given(config, calls, i + 1, j) ==> {
            &&& given_at(config, calls, j) is Some <==> is_over(config, calls[i].1, calls[j].1)
            &&& given_at(config, calls, j) matches Some(batch) ==> batch.samples == samples_pushed(
                calls.subrange(i + 1, j + 1),
            )
        },
{
    pushes_follow_the_interval(config, calls, j);
    if none_given(config, calls, 0, j) {
        model_batches_are_stamped(config, samples_pushed(calls.take(j + 1)));
    }
    if 0 <= i < j && given_at(config, calls, i) is Some && none_given(config, calls, i + 1, j) {
        model_batches_are_stamped(config, samples_pushed(calls.subrange(i + 1, j + 1)));
    }
}

/// The samples of batches are those of each batch, one batch after the other, and the samples
/// that come in are those of the events or calls that bring one.
pub proof fn samples_are_counted_one_by_one(
    batches: Seq<BatchModel>,
    batch: BatchModel,
    events: Seq<(AssemblerEvent, Duration)>,
    calls: Seq<(AssemblerCall, Duration)>,
    sample: TelemetryFrame,
    now: Duration,
)
    ensures
        samples_of(seq![]).len() == 0,
        samples_of(batches.push(batch)) == samples_of(batches) + batch.samples,
        samples_in(seq![]).len() == 0,
        samples_in(events.push((AssemblerEvent::Sample(sample), now))) == samples_in(events).push(
            sample,
        ),
        samples_in(events.push((AssemblerEvent::Tick, now))) == samples_in(events),
        samples_in(events.push((AssemblerEvent::Closed, now))) == samples_in(events),
        samples_pushed(seq![]).len() == 0,
        samples_pushed(calls.push((AssemblerCall::Push(sample), now))) == samples_pushed(
            calls,
        ).push(sample),
        samples_pushed(calls.push((AssemblerCall::Flush, now))) == samples_pushed(calls),
{
    assert(batches.push(batch).drop_last() =~= batches);
    assert(events.push((AssemblerEvent::Sample(sample), now)).drop_last() =~= events);
    assert(events.push((AssemblerEvent::Tick, now)).drop_last() =~= events);
    assert(events.push((AssemblerEvent::Closed, now)).drop_last() =~= events);
    assert(calls.push((AssemblerCall::Push(sample), now)).drop_last() =~= calls);
    assert(calls.push((AssemblerCall::Flush, now)).drop_last() =~= calls);
}

/// Every sample is taken at every reading.
pub proof fn assemblers_take_everything(
    config: BatchConfig,
    assembler: &mut BatchAssembler,
    seen: &BatchAssembler,
    sample: TelemetryFrame,
    event: AssemblerEvent,
    now: Duration,
)
    ensures
        call_requires(BatchAssembler::new, (config,)),
        call_requires(BatchAssembler::push, (assembler, sample)),
        call_requires(BatchAssembler::push_at, (assembler, sample, now)),
        call_requires(BatchAssembler::flush, (assembler,)),
        call_requires(BatchAssembler::flush_at, (assembler, now)),
        call_requires(BatchAssembler::buffered_count, (seen,)),
        call_requires(BatchAssembler::step, (assembler, event)),
        call_requires(BatchAssembler::step_at, (assembler, event, now)),
{
}

} // verus!
