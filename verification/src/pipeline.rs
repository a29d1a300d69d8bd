//! The life cycle of the capture pipeline: capture, batch, transport.

use vstd::prelude::*;
use vstd::string::*;

use crate::batch::{
    assembler_run, closing_flushes_everything, samples_in, AssemblerEvent, BatchConfig,
};
use crate::capture::acc::AccCaptureConfig;
use crate::capture::CaptureConfig;
use crate::config::{AppConfig, SimType};
use crate::gateway::{
    fit_in_memory, normalized_source, stream_after, streams_are_published_whole,
};
use crate::grpc::GrpcConfig;
use crate::proto::{samples_of, BatchModel};
use crate::text::{hexadecimal, hexadecimal_is_injective, hexadecimal_text, joined};
use crate::time::Duration;

verus! {

/// Commands of the user to the pipeline manager.
#[derive(Debug, Clone, Copy, PartialEq, Eq, Structural)]
pub enum PipelineCommand {
    Start,
    Stop,
    ReloadConfig,
    Quit,
}

/// What the pipeline manager does. Actions are carried out in order.
#[derive(Debug, Clone, Copy, PartialEq, Eq, Structural)]
pub enum ManagerAction {
    /// Signal the running pipeline to shut down.
    SignalShutdown,
    /// Wait until the task of the pipeline has ended.
    AwaitTask,
    /// Mark the pipeline as not running.
    ClearRunning,
    /// Have the window redrawn.
    Repaint,
    /// Start a pipeline task with the current settings; it marks the pipeline as running
    /// while it runs, and has the window redrawn at its end if `repaint` is set.
    Spawn { repaint: bool },
    /// End the manager.
    Exit,
}

/// What the pipeline manager holds.
#[derive(Debug, Clone, Copy, PartialEq, Eq, Structural)]
pub struct PipelineManager {
    /// Whether it holds the task of a pipeline.
    pub has_task: bool,
    /// Whether it holds the means to signal a shutdown.
    pub has_shutdown: bool,
}

/// The actions that end a pipeline, as far as there is one.
pub open spec fn ending(manager: PipelineManager) -> Seq<ManagerAction> {
    let signal = if manager.has_shutdown {
        seq![ManagerAction::SignalShutdown]
    } else {
        seq![]
    };
    if manager.has_task {
        signal.push(ManagerAction::AwaitTask)
    } else {
        signal
    }
}

/// What the manager holds after a command, and what it does. No command stands for the
/// end of commands, and `running` for the mark that a pipeline runs.
pub open spec fn manager_step(
    manager: PipelineManager,
    command: Option<PipelineCommand>,
    running: bool,
) -> (PipelineManager, Seq<ManagerAction>) {
    let idle = PipelineManager { has_task: false, has_shutdown: false };
    let busy = PipelineManager { has_task: true, has_shutdown: true };
    match command {
        Some(PipelineCommand::Start) => if running {
            (manager, seq![])
        } else {
            (busy, seq![ManagerAction::Spawn { repaint: true }])
        },
        Some(PipelineCommand::Stop) => (
            idle,
            ending(manager).push(ManagerAction::ClearRunning).push(ManagerAction::Repaint),
        ),
        Some(PipelineCommand::ReloadConfig) => if running {
            (
                busy,
                ending(manager).push(ManagerAction::ClearRunning).push(
                    ManagerAction::Spawn { repaint: false },
                ),
            )
        } else {
            (manager, seq![])
        },
        Some(PipelineCommand::Quit) | None => (idle, ending(manager).push(ManagerAction::Exit)),
    }
}

impl PipelineManager {
    /// A manager that holds nothing.
    pub fn new() -> (r: PipelineManager)
        ensures
            r == (PipelineManager { has_task: false, has_shutdown: false }),
    {
        PipelineManager { has_task: false, has_shutdown: false }
    }

    /// Gives up what the manager holds of a pipeline, and appends the actions that end it.
    fn end_pipeline(&mut self, actions: &mut Vec<ManagerAction>)
        ensures
            *final(self) == (PipelineManager { has_task: false, has_shutdown: false }),
            final(actions)@ == old(actions)@ + ending(*old(self)),
    {
        if self.has_shutdown {
            actions.push(ManagerAction::SignalShutdown);
            self.has_shutdown = false;
        }
        if self.has_task {
            actions.push(ManagerAction::AwaitTask);
            self.has_task = false;
        }
        proof {
            assert(actions@ =~= old(actions)@ + ending(*old(self)));
        }
    }

    /// Takes a command, or the end of commands, and says what the manager does.
    pub fn step(&mut self, command: Option<PipelineCommand>, running: bool) -> (r: Vec<
        ManagerAction,
    >)
        ensures
            (*final(self), r@) == manager_step(*old(self), command, running),
    {
        let mut actions: Vec<ManagerAction> = Vec::new();
        match command {
            Some(PipelineCommand::Start) => {
                if !running {
                    actions.push(ManagerAction::Spawn { repaint: true });
                    self.has_task = true;
                    self.has_shutdown = true;
                }
            },
            Some(PipelineCommand::Stop) => {
                self.end_pipeline(&mut actions);
                actions.push(ManagerAction::ClearRunning);
                actions.push(ManagerAction::Repaint);
            },
            Some(PipelineCommand::ReloadConfig) => {
                if running {
                    self.end_pipeline(&mut actions);
                    actions.push(ManagerAction::ClearRunning);
                    actions.push(ManagerAction::Spawn { repaint: false });
                    self.has_task = true;
                    self.has_shutdown = true;
                }
            },
            Some(PipelineCommand::Quit) | None => {
                self.end_pipeline(&mut actions);
                actions.push(ManagerAction::Exit);
            },
        }
        proof {
            assert(actions@ =~= manager_step(*old(self), command, running).1);
        }
        actions
    }
}

/// Whether a pipeline task is alive after actions that find one alive or not; nothing if
/// the actions start a task while one is alive.
pub open spec fn alive_after(alive: bool, actions: Seq<ManagerAction>) -> Option<bool>
    decreases actions.len(),
{
    if actions.len() == 0 {
        Some(alive)
    } else {
        match (alive_after(alive, actions.drop_last()), actions.last()) {
            (None, _) => None,
            (Some(_), ManagerAction::AwaitTask) => Some(false),
            (Some(before), ManagerAction::Spawn { .. }) => if before {
                None
            } else {
                Some(true)
            },
            (Some(before), _) => Some(before),
        }
    }
}

/// Waiting for the task leaves none alive, and nothing else in the ending of a pipeline
/// matters to that.
proof fn ending_leaves_nothing_alive(manager: PipelineManager, alive: bool)
    requires
        alive ==> manager.has_task,
    ensures
        alive_after(alive, ending(manager)) == Some(false),
{
    reveal_with_fuel(alive_after, 3);
    let actions = ending(manager);
    if manager.has_task {
        let signal = if manager.has_shutdown {
            seq![ManagerAction::SignalShutdown]
        } else {
            seq![]
        };
        assert(actions.drop_last() =~= signal);
        assert(signal.len() == 1 ==> signal.drop_last() =~= seq![]);
    } else if manager.has_shutdown {
        assert(actions.drop_last() =~= seq![]);
    }
}

/// Where the mark that a pipeline runs is true exactly while one is alive, no command
/// starts a second one beside it, and the manager holds the one that is alive after it.
/// After a stop, a quit or the end of commands none is alive, after a start one is, and a
/// reload leaves one alive exactly if there was one.
pub proof fn commands_keep_one_pipeline(
    manager: PipelineManager,
    command: Option<PipelineCommand>,
    running: bool,
)
    requires
        running ==> manager.has_task && manager.has_shutdown,
    ensures
        ({
            let (next, actions) = manager_step(manager, command, running);
            let alive = alive_after(running, actions);
            &&& alive == Some(true) ==> next.has_task && next.has_shutdown
            &&& alive == match command {
                Some(PipelineCommand::Start) => Some(true),
                Some(PipelineCommand::ReloadConfig) => Some(running),
                _ => Some(false),
            }
        }),
{
    reveal_with_fuel(alive_after, 3);
    ending_leaves_nothing_alive(manager, running);
    let end = ending(manager);
    let cleared = end.push(ManagerAction::ClearRunning);
    assert(cleared.drop_last() =~= end);
    assert(cleared.push(ManagerAction::Repaint).drop_last() =~= cleared);
    assert(cleared.push(ManagerAction::Spawn { repaint: false }).drop_last() =~= cleared);
    assert(end.push(ManagerAction::Exit).drop_last() =~= end);
    assert(seq![ManagerAction::Spawn { repaint: true }].drop_last() =~= seq![]);
}

/// What a manager holds after a run of commands, and whether a pipeline is alive then;
/// nothing for the latter if a second pipeline was ever started beside one that was alive.
/// Each command comes with whether a pipeline that was alive has ended by itself before it,
/// and the mark that a pipeline runs is true exactly while one is alive.
pub open spec fn manager_run(commands: Seq<(Option<PipelineCommand>, bool)>) -> (
    PipelineManager,
    Option<bool>,
)
    decreases commands.len(),
{
    if commands.len() == 0 {
        (PipelineManager { has_task: false, has_shutdown: false }, Some(false))
    } else {
        let (command, ended) = commands.last();
        match manager_run(commands.drop_last()) {
            (manager, Some(alive)) => {
                let running = alive && !ended;
                let (next, actions) = manager_step(manager, command, running);
                (next, alive_after(running, actions))
            },
            (manager, None) => (manager, None),
        }
    }
}

/// At most one pipeline is alive at a time, over any run of commands, and the manager holds
/// the means to shut it down and to wait for it.
pub proof fn at_most_one_pipeline(commands: Seq<(Option<PipelineCommand>, bool)>)
    ensures
        manager_run(commands).1 is Some,
        manager_run(commands).1 == Some(true) ==> manager_run(commands).0.has_task && manager_run(
            commands,
        ).0.has_shutdown,
    decreases commands.len(),
{
    if commands.len() > 0 {
        at_most_one_pipeline(commands.drop_last());
        let (manager, alive) = manager_run(commands.drop_last());
        let (command, ended) = commands.last();
        commands_keep_one_pipeline(manager, command, alive->0 && !ended);
    }
}

/// A start while a pipeline runs, and a reload while none does, are ignored.
pub proof fn redundant_commands_are_ignored(manager: PipelineManager)
    ensures
        manager_step(manager, Some(PipelineCommand::Start), true) == (
            manager,
            Seq::<ManagerAction>::empty(),
        ),
        manager_step(manager, Some(PipelineCommand::ReloadConfig), false) == (
            manager,
            Seq::<ManagerAction>::empty(),
        ),
{
}

/// How a capture source is set up.
#[derive(Debug, Clone, PartialEq, Eq)]
pub enum CapturePlan {
    Ac(CaptureConfig),
    Acc(AccCaptureConfig),
    /// Replay of recorded data, over and over if `loop_playback` is set.
    Demo { loop_playback: bool },
}

/// How a pipeline is set up.
#[derive(Debug, Clone, PartialEq, Eq)]
pub struct PipelinePlan {
    pub batch: BatchConfig,
    pub grpc: GrpcConfig,
    pub capture: CapturePlan,
}

/// The session id of a wall clock that shows this many milliseconds since the Unix epoch:
/// the count in hexadecimal, and zero for a clock set before the epoch.
pub open spec fn session_id(since_epoch: Option<u128>) -> Seq<char> {
    match since_epoch {
        Some(ms) => hexadecimal(ms as nat),
        None => hexadecimal(0),
    }
}

/// Generates a session id from the wall clock.
pub fn chrono_session_id(since_epoch: Option<u128>) -> (r: String)
    ensures
        r@ == session_id(since_epoch),
{
    match since_epoch {
        Some(ms) => hexadecimal_text(ms),
        None => hexadecimal_text(0),
    }
}

/// Sessions that start at different times have different ids.
pub proof fn session_ids_are_distinct(a: u128, b: u128)
    requires
        session_id(Some(a)) == session_id(Some(b)),
    ensures
        a == b,
{
    hexadecimal_is_injective(a as nat, b as nat);
}

/// Whether a capture source is set up for the chosen simulator.
pub open spec fn is_capture_plan(config: AppConfig, plan: CapturePlan) -> bool {
    match (config.sim_type, plan) {
        (SimType::AssettoCorsaSS, CapturePlan::Ac(ac)) => {
            &&& ac.udp_port == 9997
            &&& ac.udp_host@ == "0.0.0.0"@
            &&& ac.target_host is None
            &&& ac.target_port == Some(9996u16)
        },
        (SimType::AssettoCorsa, CapturePlan::Acc(acc)) => {
            &&& acc.base.udp_port == 20582
            &&& acc.base.udp_host@ == "0.0.0.0"@
            &&& acc.base.target_host matches Some(host) && host@ == "127.0.0.1"@
            &&& acc.base.target_port is None
            &&& acc.broadcast_port == 9000
            &&& acc.display_name@ == "PurpleSector"@
            &&& acc.connection_password == config.acc_connection_password
            &&& acc.update_interval_ms == config.acc_update_interval_ms
        },
        (SimType::Demo, CapturePlan::Demo { loop_playback }) => loop_playback,
        _ => false,
    }
}

/// Whether batches are set up as the settings say, for the session of this id.
pub open spec fn is_batch_plan(config: AppConfig, session: Seq<char>, batch: BatchConfig) -> bool {
    &&& batch.flush_interval.nanos == config.batch_interval_ms * 1_000_000
    &&& batch.user_id@ == (if config.username@.len() == 0 {
        "anonymous"@
    } else {
        config.username@
    })
    &&& batch.source@ == "session-"@ + session
    &&& batch.source_rate_hz == config.sim_type.rate_hz()
}

/// Whether the transport is set up as the settings say.
pub open spec fn is_transport_plan(config: AppConfig, grpc: GrpcConfig) -> bool {
    &&& grpc.gateway_url == config.grpc_endpoint
    &&& grpc.wal_path@ == "telemetry-wal.db"@
    &&& grpc.drain_batch_size == 32
    &&& grpc.retry_delay.nanos == 5_000_000_000
    &&& grpc.auth_token is None
    &&& grpc.wal_depth_reporter
}

impl PipelinePlan {
    /// Sets up a pipeline from the settings, for the session of this id.
    pub fn new(config: &AppConfig, session: &str) -> (r: PipelinePlan)
        ensures
            is_batch_plan(*config, session@, r.batch),
            is_transport_plan(*config, r.grpc),
            is_capture_plan(*config, r.capture),
    {
        let source_rate_hz: u32 = match config.sim_type {
            SimType::AssettoCorsaSS => 60,
            SimType::AssettoCorsa => 10,
            SimType::Demo => 60,
        };
        let batch = BatchConfig {
            flush_interval: Duration::from_millis(config.batch_interval_ms),
            user_id: if config.username.as_str().is_empty() {
                "anonymous".to_owned()
            } else {
                config.username.clone()
            },
            source_rate_hz,
            source: joined("session-", session),
        };
        let mut grpc = GrpcConfig::default();
        grpc.gateway_url = config.grpc_endpoint.clone();
        grpc.wal_depth_reporter = true;
        let capture = match config.sim_type {
            SimType::AssettoCorsaSS => CapturePlan::Ac(CaptureConfig::default()),
            SimType::AssettoCorsa => {
                let mut acc = AccCaptureConfig::default();
                acc.connection_password = config.acc_connection_password.clone();
                acc.update_interval_ms = config.acc_update_interval_ms;
                CapturePlan::Acc(acc)
            },
            SimType::Demo => CapturePlan::Demo { loop_playback: true },
        };
        PipelinePlan { batch, grpc, capture }
    }
}

/// The gateway publishes what a pipeline captures as live data, whatever its session.
pub proof fn captured_sessions_are_live(config: AppConfig, session: Seq<char>, batch: BatchConfig)
    requires
        is_batch_plan(config, session, batch),
    ensures
        normalized_source(batch.source@) == "live"@,
{
    reveal_strlit("session-");
    reveal_strlit("demo");
    assert(batch.source@[0] == 's');
}

/// A batch has no more samples than all batches together.
proof fn batch_is_part_of_all(batches: Seq<BatchModel>, i: int)
    requires
        0 <= i < batches.len(),
    ensures
        batches[i].samples.len() <= samples_of(batches).len(),
    decreases batches.len(),
{
    if i < batches.len() - 1 {
        batch_is_part_of_all(batches.drop_last(), i);
    }
}

/// From end to end nothing is lost, doubled or reordered: where every batch that an
/// assembler has sent until it was closed reaches the gateway, in order, the frames that the
/// gateway publishes are the samples that were captured.
pub proof fn captured_samples_are_published(
    config: BatchConfig,
    events: Seq<(AssemblerEvent, Duration)>,
    user_id: Seq<char>,
)
    requires
        events.len() > 0,
        events.last().0 is Closed,
        samples_in(events).len() <= usize::MAX,
    ensures
        ({
            let published = stream_after(user_id, assembler_run(config, events).0).1;
            &&& published.len() == samples_in(events).len()
            &&& forall|i: int|
                0 <= i < published.len() ==> (#[trigger] published[i]).frame == Some(
                    samples_in(events)[i],
                )
        }),
{
    let batches = assembler_run(config, events).0;
    closing_flushes_everything(config, events);
    assert forall|i: int| 0 <= i < batches.len() implies (#[trigger] batches[i]).samples.len()
        <= usize::MAX by {
        batch_is_part_of_all(batches, i);
    }
    assert(fit_in_memory(batches));
    streams_are_published_whole(user_id, batches);
}

/// Where a pipeline stands.
#[derive(Debug, Clone, Copy, PartialEq, Eq, Structural)]
pub enum PipelinePhase {
    /// The capture source is being started.
    Starting,
    /// Samples are captured.
    Capturing,
    /// The capture source is being stopped.
    Stopping,
    /// The transport flushes what has been captured.
    Flushing,
    /// The pipeline has ended as it should.
    Ended,
    /// The pipeline has failed.
    Failed,
}

/// What a pipeline does next.
#[derive(Debug, Clone, Copy, PartialEq, Eq, Structural)]
pub enum PipelineAction {
    /// Capture samples until that ends.
    Capture,
    /// Stop the capture source.
    StopSource,
    /// Close the sample channel and wait until the transport has ended.
    Flush,
    /// End with success.
    Succeed,
    /// End with the error of the source.
    Fail,
    /// Nothing: the pipeline has ended.
    Nothing,
}

/// Where a pipeline stands after what it did last has ended, successfully or not, and what
/// it does next. Only starting and stopping the source can fail the pipeline, and then it
/// ends at once.
pub open spec fn pipeline_step(phase: PipelinePhase, success: bool) -> (
    PipelinePhase,
    PipelineAction,
) {
    match phase {
        PipelinePhase::Starting => if success {
            (PipelinePhase::Capturing, PipelineAction::Capture)
        } else {
            (PipelinePhase::Failed, PipelineAction::Fail)
        },
        PipelinePhase::Capturing => (PipelinePhase::Stopping, PipelineAction::StopSource),
        PipelinePhase::Stopping => if success {
            (PipelinePhase::Flushing, PipelineAction::Flush)
        } else {
            (PipelinePhase::Failed, PipelineAction::Fail)
        },
        PipelinePhase::Flushing => (PipelinePhase::Ended, PipelineAction::Succeed),
        PipelinePhase::Ended | PipelinePhase::Failed => (phase, PipelineAction::Nothing),
    }
}

/// Advances a pipeline whose last action has ended.
pub fn advance_pipeline(phase: PipelinePhase, success: bool) -> (r: (PipelinePhase, PipelineAction))
    ensures
        r == pipeline_step(phase, success),
{
    match phase {
        PipelinePhase::Starting => if success {
            (PipelinePhase::Capturing, PipelineAction::Capture)
        } else {
            (PipelinePhase::Failed, PipelineAction::Fail)
        },
        PipelinePhase::Capturing => (PipelinePhase::Stopping, PipelineAction::StopSource),
        PipelinePhase::Stopping => if success {
            (PipelinePhase::Flushing, PipelineAction::Flush)
        } else {
            (PipelinePhase::Failed, PipelineAction::Fail)
        },
        PipelinePhase::Flushing => (PipelinePhase::Ended, PipelineAction::Succeed),
        PipelinePhase::Ended => (phase, PipelineAction::Nothing),
        PipelinePhase::Failed => (phase, PipelineAction::Nothing),
    }
}

/// A pipeline ends after four steps at most. It succeeds exactly if its source has been
/// started and stopped without an error, and then everything captured has been flushed.
pub proof fn pipelines_end(started: bool, captured: bool, stopped: bool, flushed: bool)
    ensures
        ({
            let a = pipeline_step(PipelinePhase::Starting, started).0;
            let b = pipeline_step(a, captured).0;
            let c = pipeline_step(b, stopped);
            let d = pipeline_step(c.0, flushed).0;
            &&& d is Ended || d is Failed
            &&& d is Ended <==> started && stopped
            &&& d is Ended ==> c.1 is Flush
        }),
{
}

/// The counts of batches on their way from the assembler to the transport.
#[derive(Debug, Clone, Copy, PartialEq, Eq, Structural)]
pub struct BatchTap {
    pub batches_sent: u64,
    /// The length of the batches, encoded.
    pub bytes_sent: u64,
}

impl BatchTap {
    /// Counts of nothing.
    pub fn new() -> (r: BatchTap)
        ensures
            r == (BatchTap { batches_sent: 0, bytes_sent: 0 }),
    {
        BatchTap { batches_sent: 0, bytes_sent: 0 }
    }

    /// The counts after batches of these encoded lengths.
    pub open spec fn counts(self, lengths: Seq<usize>) -> bool {
        &&& self.batches_sent == lengths.len()
        &&& self.bytes_sent == total(lengths)
    }

    /// Counts a batch of this encoded length, before it is handed to the transport.
    pub fn count(&mut self, encoded_len: usize)
        requires
            old(self).batches_sent < u64::MAX,
            old(self).bytes_sent + encoded_len <= u64::MAX,
        ensures
            final(self).batches_sent == old(self).batches_sent + 1,
            final(self).bytes_sent == old(self).bytes_sent + encoded_len,
            forall|lengths: Seq<usize>|
                old(self).counts(lengths) ==> #[trigger] final(self).counts(
                    lengths.push(encoded_len),
                ),
    {
        self.batches_sent = self.batches_sent + 1;
        self.bytes_sent = self.bytes_sent + encoded_len as u64;
        proof {
            assert forall|lengths: Seq<usize>| old(self).counts(lengths) implies #[trigger] self.counts(
                lengths.push(encoded_len),
            ) by {
                assert(lengths.push(encoded_len).drop_last() =~= lengths);
            }
        }
    }
}

/// The sum of lengths.
pub open spec fn total(lengths: Seq<usize>) -> nat
    decreases lengths.len(),
{
    if lengths.len() == 0 {
        0
    } else {
        total(lengths.drop_last()) + lengths.last() as nat
    }
}

/// What happens to the loop that captures samples.
#[derive(Debug, Clone, Copy, PartialEq, Eq, Structural)]
pub enum CaptureEvent {
    /// The source gave a sample.
    Sample,
    /// The sample has been handed to the batch assembler.
    Forwarded,
    /// The batch assembler takes no samples any more.
    ReceiverGone,
    /// The source failed.
    SourceFailed,
    /// The pipeline is to shut down.
    Shutdown,
}

/// What the loop that captures samples does next.
#[derive(Debug, Clone, Copy, PartialEq, Eq, Structural)]
pub enum CaptureLoopAction {
    /// Count the sample, and hand it to the batch assembler.
    Forward,
    /// Wait for the next sample or for the shutdown.
    Wait,
    /// End the loop.
    End,
}

/// The loop that captures samples.
#[derive(Debug, Clone, Copy, PartialEq, Eq, Structural)]
pub struct CaptureLoop {
    /// How many samples the source has given.
    pub sample_count: u64,
}

impl CaptureLoop {
    /// A loop that has captured nothing.
    pub fn new() -> (r: CaptureLoop)
        ensures
            r.sample_count == 0,
    {
        CaptureLoop { sample_count: 0 }
    }

    /// Advances the loop by one event and says what it does next. Every sample that the
    /// source gives is counted, whether or not it can be handed on.
    pub fn step(&mut self, event: CaptureEvent) -> (r: CaptureLoopAction)
        requires
            event is Sample ==> old(self).sample_count < u64::MAX,
        ensures
            final(self).sample_count == old(self).sample_count + (if event is Sample {
                1int
            } else {
                0
            }),
            r == match event {
                CaptureEvent::Sample => CaptureLoopAction::Forward,
                CaptureEvent::Forwarded => CaptureLoopAction::Wait,
                _ => CaptureLoopAction::End,
            },
    {
        match event {
            CaptureEvent::Sample => {
                self.sample_count = self.sample_count + 1;
                CaptureLoopAction::Forward
            },
            CaptureEvent::Forwarded => CaptureLoopAction::Wait,
            CaptureEvent::ReceiverGone => CaptureLoopAction::End,
            CaptureEvent::SourceFailed => CaptureLoopAction::End,
            CaptureEvent::Shutdown => CaptureLoopAction::End,
        }
    }
}

} // verus!
