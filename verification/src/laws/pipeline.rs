//! Laws of the pipeline, the settings and the icon.

use vstd::prelude::*;
use vstd::string::*;

use super::is_numeral;
use crate::capture::acc::AccCaptureConfig;
use crate::capture::CaptureConfig;
use crate::config::{
    default_acc_update_interval, default_batch_interval_ms, AppConfig, Platform, SavedConfig,
    SimType,
};
use crate::grpc::GrpcConfig;
use crate::icon::create_default_icon;
use crate::pipeline::{
    advance_pipeline, chrono_session_id, BatchTap, CaptureEvent, CaptureLoop, CaptureLoopAction,
    CapturePlan, ManagerAction, PipelineAction, PipelineCommand, PipelineManager, PipelinePhase,
    PipelinePlan,
};

verus! {

/// What the manager does. A start is ignored while a pipeline runs, and a reload while none
/// does. What ends a pipeline first signals it, where the manager can, and then waits for it,
/// where there is one to wait for. Only a quit or the end of commands ends the manager.
pub proof fn the_manager_keeps_order(
    new: PipelineManager,
    manager: &mut PipelineManager,
    command: Option<PipelineCommand>,
    running: bool,
    r: Vec<ManagerAction>,
)
    requires
        call_ensures(PipelineManager::new, (), new),
        call_ensures(PipelineManager::step, (manager, command, running), r),
    ensures
        ({
            let before = *old(manager);
            let after = *final(manager);
            let signals: int = if before.has_shutdown {
                1
            } else {
                0
            };
            let waits: int = if before.has_task {
                1
            } else {
                0
            };
            let ended = signals + waits;
            let ignored = command == Some(PipelineCommand::Start) && running || command == Some(
                PipelineCommand::ReloadConfig,
            ) && !running;
            let ends = !ignored && command != Some(PipelineCommand::Start);
            &&& !new.has_task && !new.has_shutdown
            &&& ignored ==> r@.len() == 0 && after == before
            &&& command == Some(PipelineCommand::Start) && !running ==> {
                &&& r@.len() == 1
                &&& r@[0] matches ManagerAction::Spawn { repaint } && repaint
                &&& after.has_task && after.has_shutdown
            }
            &&& ends && before.has_shutdown ==> r@[0] is SignalShutdown
            &&& ends && before.has_task ==> r@[signals] is AwaitTask
            &&& command == Some(PipelineCommand::Stop) ==> {
                &&& r@.len() == ended + 2
                &&& r@[ended] is ClearRunning
                &&& r@[ended + 1] is Repaint
                &&& !after.has_task && !after.has_shutdown
            }
            &&& command == Some(PipelineCommand::ReloadConfig) && running ==> {
                &&& r@.len() == ended + 2
                &&& r@[ended] is ClearRunning
                &&& r@[ended + 1] matches ManagerAction::Spawn { repaint } && !repaint
                &&& after.has_task && after.has_shutdown
            }
            &&& command == Some(PipelineCommand::Quit) || command is None ==> {
                &&& r@.len() == ended + 1
                &&& r@[ended] is Exit
                &&& !after.has_task && !after.has_shutdown
            }
        }),
{
}

/// A session id is the time since the epoch, in hexadecimal, and zero before it.
pub proof fn session_ids_are_times(since_epoch: Option<u128>, r: String)
    requires
        call_ensures(chrono_session_id, (since_epoch,), r),
    ensures
        match since_epoch {
            Some(ms) => is_numeral(r@, 16, ms as int),
            None => r@ == seq!['0'],
        },
{
    match since_epoch {
        Some(ms) => super::basics::hexadecimals_are_numerals(ms as nat),
        None => {
            assert(r@ =~= seq!['0']);
        },
    }
}

/// A pipeline is set up from the settings: batches under the user name, the session and the
/// rate of the simulator, the transport to the configured endpoint, and the source of the
/// simulator. What the settings do not tell is as by default.
pub proof fn pipelines_are_set_up_from_the_settings(
    config: &AppConfig,
    session: &str,
    r: PipelinePlan,
    ac: CaptureConfig,
    acc: AccCaptureConfig,
    grpc: GrpcConfig,
)
    requires
        call_ensures(PipelinePlan::new, (config, session), r),
        call_ensures(<CaptureConfig as Default>::default, (), ac),
        call_ensures(<AccCaptureConfig as Default>::default, (), acc),
        call_ensures(<GrpcConfig as Default>::default, (), grpc),
    ensures
        r.batch.flush_interval.nanos == config.batch_interval_ms * 1_000_000,
        config.username@.len() > 0 ==> r.batch.user_id@ == config.username@,
        config.username@.len() == 0 ==> r.batch.user_id@ == "anonymous"@,
        r.batch.source@ == "session-"@ + session@,
        r.batch.source_rate_hz == if config.sim_type is AssettoCorsa {
            10u32
        } else {
            60u32
        },
        r.grpc.gateway_url@ == config.grpc_endpoint@,
        r.grpc.wal_depth_reporter,
        r.grpc.wal_path@ == grpc.wal_path@,
        r.grpc.drain_batch_size == grpc.drain_batch_size,
        r.grpc.retry_delay == grpc.retry_delay,
        r.grpc.auth_token is None,
        config.sim_type is AssettoCorsaSS ==> (r.capture matches CapturePlan::Ac(plan)
            && plan.udp_port == ac.udp_port && plan.udp_host@ == ac.udp_host@ && plan.target_host
            == ac.target_host && plan.target_port == ac.target_port),
        config.sim_type is AssettoCorsa ==> (r.capture matches CapturePlan::Acc(plan)
            && plan.base.udp_port == acc.base.udp_port && plan.base.udp_host@ == acc.base.udp_host@
            && plan.base.target_host is Some && plan.base.target_host->0@
            == acc.base.target_host->0@ && plan.base.target_port == acc.base.target_port
            && plan.broadcast_port == acc.broadcast_port && plan.display_name@ == acc.display_name@
            && plan.connection_password@ == config.acc_connection_password@
            && plan.update_interval_ms == config.acc_update_interval_ms),
        config.sim_type is Demo ==> (r.capture matches CapturePlan::Demo { loop_playback }
            && loop_playback),
{
}

/// A pipeline starts its source, captures, stops its source, flushes and succeeds. It fails at
/// once where the source fails to start or stop, and what comes of anything else does not
/// matter. Once it has ended it does nothing more.
pub proof fn pipelines_go_step_by_step(
    phase: PipelinePhase,
    success: bool,
    r: (PipelinePhase, PipelineAction),
)
    requires
        call_ensures(advance_pipeline, (phase, success), r),
    ensures
        phase is Starting && success ==> r.0 is Capturing && r.1 is Capture,
        phase is Capturing ==> r.0 is Stopping && r.1 is StopSource,
        phase is Stopping && success ==> r.0 is Flushing && r.1 is Flush,
        phase is Flushing ==> r.0 is Ended && r.1 is Succeed,
        (phase is Starting || phase is Stopping) && !success ==> r.0 is Failed && r.1 is Fail,
        phase is Ended || phase is Failed ==> r.0 == phase && r.1 is Nothing,
{
}

/// Every batch is counted once, with its length.
pub proof fn batches_are_counted(new: BatchTap, tap: &mut BatchTap, length: usize)
    requires
        call_ensures(BatchTap::new, (), new),
        call_ensures(BatchTap::count, (tap, length), ()),
    ensures
        new.batches_sent == 0 && new.bytes_sent == 0,
        final(tap).batches_sent == old(tap).batches_sent + 1,
        final(tap).bytes_sent == old(tap).bytes_sent + length,
{
}

/// The capture loop counts every sample and hands it on, waits after it was handed on, and
/// ends when the source fails, nobody takes samples or it is told to.
pub proof fn the_capture_loop_forwards(
    new: CaptureLoop,
    capture: &mut CaptureLoop,
    event: CaptureEvent,
    r: CaptureLoopAction,
)
    requires
        call_ensures(CaptureLoop::new, (), new),
        call_ensures(CaptureLoop::step, (capture, event), r),
    ensures
        new.sample_count == 0,
        event is Sample ==> r is Forward && final(capture).sample_count == old(
            capture,
        ).sample_count + 1,
        !(event is Sample) ==> final(capture).sample_count == old(capture).sample_count,
        event is Forwarded ==> r is Wait,
        event is ReceiverGone || event is SourceFailed || event is Shutdown ==> r is End,
{
}

/// Every simulator is offered, each under its name.
pub proof fn simulators_are_offered_by_name(offered: &[SimType], sim: &SimType, label: &str)
    requires
        call_ensures(SimType::all, (), offered),
        call_ensures(SimType::label, (sim,), label),
    ensures
        offered@.len() == 3,
        offered@[0] is AssettoCorsaSS && offered@[1] is AssettoCorsa && offered@[2] is Demo,
        *sim is AssettoCorsaSS ==> label@ == "Assetto Corsa"@,
        *sim is AssettoCorsa ==> label@ == "ACC"@,
        *sim is Demo ==> label@ == "Demo / Replay"@,
{
}

/// The settings unless told otherwise.
pub proof fn application_defaults(config: AppConfig, acc: u32, batch: u64)
    requires
        call_ensures(<AppConfig as Default>::default, (), config),
        call_ensures(default_acc_update_interval, (), acc),
        call_ensures(default_batch_interval_ms, (), batch),
    ensures
        config.sim_type is AssettoCorsaSS,
        config.grpc_endpoint@ == "http://localhost:50051"@,
        config.username@.len() == 0 && config.password@.len() == 0,
        config.acc_connection_password@.len() == 0,
        config.acc_update_interval_ms == 100 && acc == 100,
        config.batch_interval_ms == 100 && batch == 100,
{
}

/// Saved settings are used as they are, and the default ones where there are none to read.
pub proof fn saved_settings_are_used(saved: SavedConfig, r: AppConfig, default: AppConfig)
    requires
        call_ensures(AppConfig::load, (saved,), r),
        call_ensures(<AppConfig as Default>::default, (), default),
    ensures
        saved matches SavedConfig::Parsed(config) ==> r == config,
        !(saved is Parsed) ==> {
            &&& r.sim_type == default.sim_type
            &&& r.grpc_endpoint@ == default.grpc_endpoint@
            &&& r.username@ == default.username@
            &&& r.password@ == default.password@
            &&& r.acc_connection_password@ == default.acc_connection_password@
            &&& r.acc_update_interval_ms == default.acc_update_interval_ms
            &&& r.batch_interval_ms == default.batch_interval_ms
        },
{
}

/// The settings file is `config.toml` in the application's own directory below the user's
/// settings directory, each platform in its way, and a file of its own name without one.
pub proof fn settings_files_have_their_place<D>(
    config_dir: Option<D>,
    platform: Platform,
    r: (Option<D>, Vec<&'static str>),
)
    requires
        call_ensures(AppConfig::config_path::<D>, (config_dir, platform), r),
    ensures
        r.0 == config_dir,
        config_dir is None ==> r.1@.len() == 1 && r.1@[0]@ == "ps-tray-app-config.toml"@,
        config_dir is Some ==> {
            &&& r.1@.len() == if platform is MacOs {
                2int
            } else {
                3
            }
            &&& r.1@[r.1@.len() - 1]@ == "config.toml"@
            &&& platform is Windows ==> r.1@[0]@ == "PurpleSector"@ && r.1@[1]@ == "ps-tray-app"@
            &&& platform is Linux ==> r.1@[0]@ == "purplesector"@ && r.1@[1]@ == "ps-tray-app"@
            &&& platform is MacOs ==> r.1@[0]@ == "com.purplesector.ps-tray-app"@
        },
{
}

/// The icon is a purple disc of radius 14 in the middle of 32 by 32 pixels, opaque inside and
/// transparent outside.
pub proof fn the_icon_is_a_purple_disc(r: Vec<u8>, x: int, y: int)
    requires
        call_ensures(create_default_icon, (), r),
        0 <= x < 32,
        0 <= y < 32,
    ensures
        r@.len() == 4096,
        ({
            let at = 4 * (32 * y + x);
            let inside = (x - 16) * (x - 16) + (y - 16) * (y - 16) <= 196;
            &&& r@[at] == if inside {
                139u8
            } else {
                0u8
            }
            &&& r@[at + 1] == if inside {
                92u8
            } else {
                0u8
            }
            &&& r@[at + 2] == if inside {
                246u8
            } else {
                0u8
            }
            &&& r@[at + 3] == if inside {
                255u8
            } else {
                0u8
            }
        }),
{
    crate::icon::icon_is_laid_out_by_rows(1024, x, y);
    let at = 4 * (32 * y + x);
    let pixel = r@.subrange(at, at + 4);
    assert(pixel == crate::icon::icon_pixel(x, y));
    assert(pixel[0] == r@[at] && pixel[1] == r@[at + 1] && pixel[2] == r@[at + 2] && pixel[3]
        == r@[at + 3]);
}

/// Every command, setting and outcome is taken, as far as the counts go.
pub proof fn pipelines_take_everything(
    manager: &mut PipelineManager,
    command: Option<PipelineCommand>,
    flag: bool,
    time: Option<u128>,
    config: &AppConfig,
    session: &str,
    phase: PipelinePhase,
    tap: &mut BatchTap,
    length: usize,
    capture: &mut CaptureLoop,
    event: CaptureEvent,
    sim: &SimType,
    saved: SavedConfig,
    platform: Platform,
    dir: Option<String>,
)
    ensures
        call_requires(PipelineManager::step, (manager, command, flag)),
        call_requires(chrono_session_id, (time,)),
        call_requires(PipelinePlan::new, (config, session)),
        call_requires(advance_pipeline, (phase, flag)),
        old(tap).batches_sent < u64::MAX && old(tap).bytes_sent + length <= u64::MAX
            ==> call_requires(BatchTap::count, (tap, length)),
        (event is Sample ==> old(capture).sample_count < u64::MAX) ==> call_requires(
            CaptureLoop::step,
            (capture, event),
        ),
        call_requires(SimType::label, (sim,)),
        call_requires(SimType::all, ()),
        call_requires(AppConfig::load, (saved,)),
        call_requires(AppConfig::config_path::<String>, (dir, platform)),
        call_requires(create_default_icon, ()),
{
}

} // verus!
