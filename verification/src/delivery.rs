//! What becomes of a batch between the transport, its log and the gateway.
//!
//! A run follows a transport together with the log that it writes to. Nothing else writes to
//! the log, and the transport does one thing at a time.

use vstd::prelude::*;

use crate::grpc::{
    acknowledged_up_to, awaits, concluded, drained, drains_remove_exactly_what_was_streamed,
    ids_increase, pushed_by, receipt_of, step_pushes_what_arrives, transport_step, DrainError,
    GrpcConfig, TransportActionModel, TransportEventModel, TransportPhase, WalCmd,
};
use crate::proto::BatchModel;
use crate::time::Duration;

verus! {

/// How an attempt to drain the log goes.
pub enum Attempt {
    /// The log could not be read.
    Unread(DrainError),
    /// The gateway was tried with the oldest batches of the log. `removed` says whether the
    /// log carried out the removal, where one was asked for.
    Tried { outcome: Result<(), DrainError>, removed: bool },
    /// The attempt was given up before an answer of the gateway had come in.
    TimedOut,
}

/// What happens to a transport and its log.
pub enum Occurrence {
    /// Anything but the end of a drain. `id` is the id under which the log takes the batch
    /// that is written to it, and nothing where the log does not take one.
    Plain { event: TransportEventModel, id: Option<i64> },
    /// The end of a drain.
    Drain(Attempt),
}

/// A transport and its log.
pub struct Delivery {
    pub phase: TransportPhase,
    /// The batches of the log by id, oldest first.
    pub log: Seq<(i64, BatchModel)>,
}

/// The oldest entries of a log, `count` at most.
pub open spec fn oldest(log: Seq<(i64, BatchModel)>, count: usize) -> Seq<(i64, BatchModel)> {
    log.take(
        if log.len() < count {
            log.len() as int
        } else {
            count as int
        },
    )
}

/// What an occurrence comes to for the transport.
pub open spec fn event_of(
    config: GrpcConfig,
    log: Seq<(i64, BatchModel)>,
    occurrence: Occurrence,
) -> TransportEventModel {
    match occurrence {
        Occurrence::Plain { event, .. } => event,
        Occurrence::Drain(Attempt::Unread(e)) => drained(Err(e)),
        Occurrence::Drain(Attempt::Tried { outcome, .. }) => {
            let entries = oldest(log, config.drain_batch_size);
            if entries.len() == 0 {
                drained(Ok(0))
            } else {
                drained(concluded(receipt_of(entries), outcome).1)
            }
        },
        Occurrence::Drain(Attempt::TimedOut) => TransportEventModel::DrainTimedOut,
    }
}

/// A log after an occurrence that has the transport do these actions.
pub open spec fn log_after_actions(
    config: GrpcConfig,
    log: Seq<(i64, BatchModel)>,
    occurrence: Occurrence,
    actions: Seq<TransportActionModel>,
) -> Seq<(i64, BatchModel)> {
    match occurrence {
        Occurrence::Plain { id: Some(id), .. } => if pushed_by(actions).len() > 0 {
            log.push((id, pushed_by(actions).first()))
        } else {
            log
        },
        Occurrence::Drain(Attempt::Tried { outcome, removed: true }) => {
            let entries = oldest(log, config.drain_batch_size);
            if entries.len() == 0 {
                log
            } else {
                match concluded(receipt_of(entries), outcome).0 {
                    Some(WalCmd::AckUpTo(id)) => acknowledged_up_to(log, id),
                    _ => log,
                }
            }
        },
        _ => log,
    }
}

/// What the transport does after an occurrence.
pub open spec fn actions_of(
    config: GrpcConfig,
    delivery: Delivery,
    occurrence: Occurrence,
) -> Seq<TransportActionModel> {
    transport_step(
        config.retry_delay,
        config.wal_depth_reporter,
        delivery.phase,
        event_of(config, delivery.log, occurrence),
    ).1
}

/// A transport and its log after an occurrence.
pub open spec fn delivery_step(
    config: GrpcConfig,
    delivery: Delivery,
    occurrence: Occurrence,
) -> Delivery {
    let (phase, actions) = transport_step(
        config.retry_delay,
        config.wal_depth_reporter,
        delivery.phase,
        event_of(config, delivery.log, occurrence),
    );
    Delivery { phase, log: log_after_actions(config, delivery.log, occurrence, actions) }
}

/// A new transport and the log that it found, after a run of occurrences.
pub open spec fn delivery_run(
    config: GrpcConfig,
    found: Seq<(i64, BatchModel)>,
    run: Seq<Occurrence>,
) -> Delivery
    decreases run.len(),
{
    if run.len() == 0 {
        Delivery { phase: TransportPhase::Opening, log: found }
    } else {
        delivery_step(config, delivery_run(config, found, run.drop_last()), run.last())
    }
}

/// A transport and its log before the occurrence at position `k` of a run.
pub open spec fn before(
    config: GrpcConfig,
    found: Seq<(i64, BatchModel)>,
    run: Seq<Occurrence>,
    k: int,
) -> Delivery {
    delivery_run(config, found, run.take(k))
}

/// Whether an occurrence can happen: it is one that the transport waits for, and the log
/// numbers what it takes upwards.
pub open spec fn possible(config: GrpcConfig, delivery: Delivery, occurrence: Occurrence) -> bool {
    &&& awaits(delivery.phase, event_of(config, delivery.log, occurrence))
    &&& occurrence matches Occurrence::Plain { event, id } ==> {
        &&& !(event is Drained || event is DrainFailed || event is DrainTimedOut)
        &&& id matches Some(id) ==> forall|i: int|
            0 <= i < delivery.log.len() ==> (#[trigger] delivery.log[i]).0 < id
    }
}

/// Whether everything in a run can happen where it does.
pub open spec fn all_possible(
    config: GrpcConfig,
    found: Seq<(i64, BatchModel)>,
    run: Seq<Occurrence>,
) -> bool {
    &&& ids_increase(found)
    &&& forall|k: int|
        0 <= k < run.len() ==> possible(config, #[trigger] before(config, found, run, k), run[k])
}

/// Whether the gateway acknowledges, at position `k` of a run, a stream that holds an entry
/// of the log.
pub open spec fn acknowledged_at(
    config: GrpcConfig,
    found: Seq<(i64, BatchModel)>,
    run: Seq<Occurrence>,
    k: int,
    entry: (i64, BatchModel),
) -> bool {
    &&& run[k] matches Occurrence::Drain(Attempt::Tried { outcome: Ok(_), .. })
    &&& oldest(before(config, found, run, k).log, config.drain_batch_size).contains(entry)
}

/// Whether the log takes an entry, with a batch that has arrived, at position `k` of a run.
pub open spec fn taken_at(run: Seq<Occurrence>, k: int, entry: (i64, BatchModel)) -> bool {
    run[k] == (Occurrence::Plain { event: TransportEventModel::Batch(entry.1), id: Some(entry.0) })
}

/// One more occurrence of a run.
proof fn run_grows_by_one(
    config: GrpcConfig,
    found: Seq<(i64, BatchModel)>,
    run: Seq<Occurrence>,
    k: int,
)
    requires
        0 <= k < run.len(),
    ensures
        before(config, found, run, k + 1) == delivery_step(
            config,
            before(config, found, run, k),
            run[k],
        ),
{
    assert(run.take(k + 1).drop_last() =~= run.take(k));
    assert(run.take(k + 1).last() == run[k]);
}

/// What the transport writes to the log is the batch that arrives, if one does.
proof fn what_arrives_is_written(
    config: GrpcConfig,
    delivery: Delivery,
    occurrence: Occurrence,
)
    requires
        possible(config, delivery, occurrence),
    ensures
        pushed_by(actions_of(config, delivery, occurrence)) == match event_of(
            config,
            delivery.log,
            occurrence,
        ) {
            TransportEventModel::Batch(batch) => seq![batch],
            _ => seq![],
        },
{
    step_pushes_what_arrives(
        config.retry_delay,
        config.wal_depth_reporter,
        delivery.phase,
        event_of(config, delivery.log, occurrence),
    );
}

/// A drain changes the log only if the gateway has acknowledged its stream, and then takes
/// away exactly what it has streamed, or nothing.
pub proof fn drains_remove_only_what_is_acknowledged(
    config: GrpcConfig,
    delivery: Delivery,
    attempt: Attempt,
)
    requires
        ids_increase(delivery.log),
    ensures
        ({
            let after = delivery_step(config, delivery, Occurrence::Drain(attempt)).log;
            let streamed = oldest(delivery.log, config.drain_batch_size);
            if attempt matches Attempt::Tried { outcome: Ok(_), removed: true } {
                after == delivery.log.skip(streamed.len() as int)
            } else {
                after == delivery.log
            }
        }),
{
    let log = delivery.log;
    let streamed = oldest(log, config.drain_batch_size);
    let none = Seq::<(i64, BatchModel)>::empty();
    assert(log.skip(0) =~= log);
    if streamed.len() > 0 {
        assert(log + none =~= log);
        drains_remove_exactly_what_was_streamed(log, streamed.len() as int, none);
        assert(log.take(streamed.len() as int) =~= streamed);
        assert(log.skip(streamed.len() as int) + none =~= log.skip(streamed.len() as int));
    }
}

/// The ids of a log grow from entry to entry throughout a run.
proof fn ids_keep_increasing(
    config: GrpcConfig,
    found: Seq<(i64, BatchModel)>,
    run: Seq<Occurrence>,
    k: int,
)
    requires
        all_possible(config, found, run),
        0 <= k <= run.len(),
    ensures
        ids_increase(before(config, found, run, k).log),
    decreases k,
{
    if k == 0 {
        assert(run.take(0) =~= seq![]);
    } else {
        ids_keep_increasing(config, found, run, k - 1);
        run_grows_by_one(config, found, run, k - 1);
        let earlier = before(config, found, run, k - 1);
        assert(possible(config, earlier, run[k - 1]));
        if let Occurrence::Drain(attempt) = run[k - 1] {
            drains_remove_only_what_is_acknowledged(config, earlier, attempt);
        }
    }
}

/// A batch that arrives and that the log takes is in the log right after.
pub proof fn taken_batches_are_in_the_log(
    config: GrpcConfig,
    found: Seq<(i64, BatchModel)>,
    run: Seq<Occurrence>,
    k: int,
    entry: (i64, BatchModel),
)
    requires
        all_possible(config, found, run),
        0 <= k < run.len(),
        taken_at(run, k, entry),
    ensures
        before(config, found, run, k + 1).log == before(config, found, run, k).log.push(entry),
{
    run_grows_by_one(config, found, run, k);
    what_arrives_is_written(config, before(config, found, run, k), run[k]);
}

/// Every batch in the log was found there or has arrived and been taken before. So each batch
/// that a drain streams, which is one of the log, was in the log before the attempt to send it.
pub proof fn only_taken_batches_are_streamed(
    config: GrpcConfig,
    found: Seq<(i64, BatchModel)>,
    run: Seq<Occurrence>,
    k: int,
    entry: (i64, BatchModel),
)
    requires
        all_possible(config, found, run),
        0 <= k <= run.len(),
    ensures
        oldest(before(config, found, run, k).log, config.drain_batch_size).contains(entry)
            ==> before(config, found, run, k).log.contains(entry),
        before(config, found, run, k).log.contains(entry) ==> found.contains(entry) || exists|m: int|
            0 <= m < k && #[trigger] taken_at(run, m, entry),
    decreases k,
{
    let log = before(config, found, run, k).log;
    let streamed = oldest(log, config.drain_batch_size);
    if streamed.contains(entry) {
        let i = choose|i: int| 0 <= i < streamed.len() && streamed[i] == entry;
        assert(log[i] == entry);
    }
    if k == 0 {
        assert(run.take(0) =~= seq![]);
    } else if log.contains(entry) {
        let earlier = before(config, found, run, k - 1);
        only_taken_batches_are_streamed(config, found, run, k - 1, entry);
        ids_keep_increasing(config, found, run, k - 1);
        run_grows_by_one(config, found, run, k - 1);
        assert(possible(config, earlier, run[k - 1]));
        let i = choose|i: int| 0 <= i < log.len() && log[i] == entry;
        match run[k - 1] {
            Occurrence::Drain(attempt) => {
                drains_remove_only_what_is_acknowledged(config, earlier, attempt);
                let gone = earlier.log.len() - log.len();
                assert(earlier.log[i + gone] == entry);
            },
            Occurrence::Plain { event, id } => {
                what_arrives_is_written(config, earlier, run[k - 1]);
                if i < earlier.log.len() {
                    assert(earlier.log[i] == entry);
                } else {
                    assert(taken_at(run, k - 1, entry));
                }
            },
        }
    }
}

/// A batch in the log stays there until the gateway has acknowledged a stream that held it:
/// where it has gone, there was such a stream. Whatever else fails, it stays.
pub proof fn batches_stay_until_acknowledged(
    config: GrpcConfig,
    found: Seq<(i64, BatchModel)>,
    run: Seq<Occurrence>,
    i: int,
    j: int,
    entry: (i64, BatchModel),
)
    requires
        all_possible(config, found, run),
        0 <= i <= j <= run.len(),
        before(config, found, run, i).log.contains(entry),
    ensures
        before(config, found, run, j).log.contains(entry) || exists|k: int|
            i <= k < j && #[trigger] acknowledged_at(config, found, run, k, entry),
    decreases j - i,
{
    if i < j {
        batches_stay_until_acknowledged(config, found, run, i, j - 1, entry);
        let earlier = before(config, found, run, j - 1);
        let later = before(config, found, run, j);
        if earlier.log.contains(entry) {
            ids_keep_increasing(config, found, run, j - 1);
            run_grows_by_one(config, found, run, j - 1);
            let at = choose|at: int| 0 <= at < earlier.log.len() && earlier.log[at] == entry;
            match run[j - 1] {
                Occurrence::Drain(attempt) => {
                    drains_remove_only_what_is_acknowledged(config, earlier, attempt);
                    let streamed = oldest(earlier.log, config.drain_batch_size);
                    if attempt matches Attempt::Tried { outcome: Ok(_), removed: true } {
                        if at < streamed.len() {
                            assert(streamed[at] == entry);
                            assert(acknowledged_at(config, found, run, j - 1, entry));
                        } else {
                            assert(later.log[at - streamed.len()] == entry);
                        }
                    }
                },
                Occurrence::Plain { .. } => {
                    assert(later.log[at] == entry);
                },
            }
        }
    }
}

/// Whether actions start a drain.
pub open spec fn starts_a_drain(actions: Seq<TransportActionModel>) -> bool {
    exists|i: int|
        0 <= i < actions.len() && ((#[trigger] actions[i]) is Drain || actions[i] is DrainWithin)
}

/// Whether the occurrence at position `k` of a run has the transport sleep for a time.
pub open spec fn sleeps_at(
    config: GrpcConfig,
    found: Seq<(i64, BatchModel)>,
    run: Seq<Occurrence>,
    k: int,
    delay: Duration,
) -> bool {
    actions_of(config, before(config, found, run, k), run[k]).contains(
        TransportActionModel::Sleep(delay),
    )
}

/// Whether clock readings, one for each occurrence of a run, suit it: none is earlier than
/// one before it, and where the transport sleeps for a time, the end of that time comes no
/// sooner.
pub open spec fn readings_suit(
    config: GrpcConfig,
    found: Seq<(i64, BatchModel)>,
    run: Seq<Occurrence>,
    readings: Seq<Duration>,
) -> bool {
    &&& readings.len() == run.len()
    &&& forall|i: int, j: int|
        0 <= i < j < run.len() ==> (#[trigger] readings[i]).nanos <= (#[trigger] readings[j]).nanos
    &&& forall|k: int, delay: Duration|
        0 <= k && k + 1 < run.len() && #[trigger] sleeps_at(config, found, run, k, delay)
            && event_of(config, before(config, found, run, k + 1).log, run[k + 1]) is Elapsed
            ==> readings[k].nanos + delay.nanos <= readings[k + 1].nanos
}

/// After a drain that has failed, no drain starts before the retry delay is over: neither
/// the next attempt nor the last one. What comes next is the end of that delay.
pub proof fn failed_drains_wait_out_the_delay(
    config: GrpcConfig,
    found: Seq<(i64, BatchModel)>,
    run: Seq<Occurrence>,
    readings: Seq<Duration>,
    i: int,
    j: int,
)
    requires
        all_possible(config, found, run),
        readings_suit(config, found, run, readings),
        0 <= i < j < run.len(),
        event_of(config, before(config, found, run, i).log, run[i]) is DrainFailed,
        starts_a_drain(actions_of(config, before(config, found, run, j), run[j])),
    ensures
        event_of(config, before(config, found, run, i + 1).log, run[i + 1]) is Elapsed,
        i + 1 < j,
        readings[i].nanos + config.retry_delay.nanos <= readings[j].nanos,
{
    let failed = before(config, found, run, i);
    let waiting = before(config, found, run, i + 1);
    run_grows_by_one(config, found, run, i);
    assert(possible(config, failed, run[i]));
    assert(possible(config, waiting, run[i + 1]));
    assert(waiting.phase is Retrying);
    let actions = actions_of(config, failed, run[i]);
    assert(actions[0] == TransportActionModel::Sleep(config.retry_delay));
    assert(sleeps_at(config, found, run, i, config.retry_delay));
    let next = actions_of(config, waiting, run[i + 1]);
    assert(next =~= seq![TransportActionModel::TryReceive]);
    assert(!starts_a_drain(next));
}

} // verus!
