use purplesector::capture::acc::AccCaptureConfig;
use purplesector::capture::CaptureConfig;
use purplesector::config::{
    default_acc_update_interval, default_batch_interval_ms, AppConfig, Platform, SavedConfig,
    SimType,
};
use purplesector::icon::{create_default_icon, ICON_SIZE};
use purplesector::pipeline::{
    advance_pipeline, chrono_session_id, BatchTap, CaptureEvent, CaptureLoop, CaptureLoopAction,
    CapturePlan, ManagerAction, PipelineAction, PipelineCommand, PipelineManager, PipelinePhase,
    PipelinePlan,
};
use purplesector::time::Duration;

#[test]
fn simulators() {
    assert_eq!(SimType::all(), &[SimType::AssettoCorsaSS, SimType::AssettoCorsa, SimType::Demo]);
    let labels: Vec<&str> = SimType::all().iter().map(|s| s.label()).collect();
    assert_eq!(labels, vec!["Assetto Corsa", "ACC", "Demo / Replay"]);
}

#[test]
fn settings_defaults() {
    let c = AppConfig::default();
    assert_eq!(c.sim_type, SimType::AssettoCorsaSS);
    assert_eq!(c.grpc_endpoint, "http://localhost:50051");
    assert_eq!((c.username.as_str(), c.password.as_str()), ("", ""));
    assert_eq!(c.acc_connection_password, "");
    assert_eq!((c.acc_update_interval_ms, c.batch_interval_ms), (100, 100));
    assert_eq!((default_acc_update_interval(), default_batch_interval_ms()), (100, 100));
}

#[test]
fn settings_are_loaded_or_defaulted() {
    let mut saved = AppConfig::default();
    saved.username = "max".to_string();
    assert_eq!(AppConfig::load(SavedConfig::Parsed(saved.clone())), saved);
    assert_eq!(AppConfig::load(SavedConfig::Malformed), AppConfig::default());
    assert_eq!(AppConfig::load(SavedConfig::Missing), AppConfig::default());
}

#[test]
fn settings_files() {
    let base = Some("base");
    assert_eq!(
        AppConfig::config_path(base, Platform::Linux),
        (base, vec!["purplesector", "ps-tray-app", "config.toml"])
    );
    assert_eq!(
        AppConfig::config_path(base, Platform::Windows),
        (base, vec!["PurpleSector", "ps-tray-app", "config.toml"])
    );
    assert_eq!(
        AppConfig::config_path(base, Platform::MacOs),
        (base, vec!["com.purplesector.ps-tray-app", "config.toml"])
    );
    for platform in [Platform::Linux, Platform::Windows, Platform::MacOs] {
        assert_eq!(
            AppConfig::config_path(None::<&str>, platform),
            (None, vec!["ps-tray-app-config.toml"])
        );
    }
}

#[test]
fn session_ids() {
    assert_eq!(chrono_session_id(Some(1_700_000_000_123)), format!("{:x}", 1_700_000_000_123u64));
    assert_eq!(chrono_session_id(Some(255)), "ff");
    assert_eq!(chrono_session_id(None), "0");
}

#[test]
fn pipelines_are_set_up_from_the_settings() {
    let mut c = AppConfig::default();
    c.grpc_endpoint = "https://gw:443".to_string();
    c.batch_interval_ms = 250;
    let plan = PipelinePlan::new(&c, "ff");
    assert_eq!(plan.batch.flush_interval, Duration::from_millis(250));
    assert_eq!(plan.batch.user_id, "anonymous");
    assert_eq!(plan.batch.source, "session-ff");
    assert_eq!(plan.batch.source_rate_hz, 60);
    assert_eq!(plan.grpc.gateway_url, "https://gw:443");
    assert_eq!(plan.grpc.wal_path, "telemetry-wal.db");
    assert!(plan.grpc.wal_depth_reporter);
    assert_eq!(plan.capture, CapturePlan::Ac(CaptureConfig::default()));

    c.sim_type = SimType::AssettoCorsa;
    c.username = "max".to_string();
    c.acc_connection_password = "asd".to_string();
    c.acc_update_interval_ms = 50;
    let plan = PipelinePlan::new(&c, "0");
    assert_eq!(plan.batch.user_id, "max");
    assert_eq!(plan.batch.source_rate_hz, 10);
    let mut acc = AccCaptureConfig::default();
    acc.connection_password = "asd".to_string();
    acc.update_interval_ms = 50;
    assert_eq!(plan.capture, CapturePlan::Acc(acc));

    c.sim_type = SimType::Demo;
    let plan = PipelinePlan::new(&c, "0");
    assert_eq!(plan.batch.source_rate_hz, 60);
    assert_eq!(plan.capture, CapturePlan::Demo { loop_playback: true });
}

#[test]
fn manager_commands() {
    let mut m = PipelineManager::new();
    assert_eq!(
        m.step(Some(PipelineCommand::Stop), false),
        vec![ManagerAction::ClearRunning, ManagerAction::Repaint]
    );
    assert_eq!(m.step(Some(PipelineCommand::ReloadConfig), false), vec![]);
    assert_eq!(
        m.step(Some(PipelineCommand::Start), false),
        vec![ManagerAction::Spawn { repaint: true }]
    );
    assert_eq!(m.step(Some(PipelineCommand::Start), true), vec![]);
    assert_eq!(
        m.step(Some(PipelineCommand::ReloadConfig), true),
        vec![
            ManagerAction::SignalShutdown,
            ManagerAction::AwaitTask,
            ManagerAction::ClearRunning,
            ManagerAction::Spawn { repaint: false },
        ]
    );
    assert_eq!(
        m.step(Some(PipelineCommand::Stop), true),
        vec![
            ManagerAction::SignalShutdown,
            ManagerAction::AwaitTask,
            ManagerAction::ClearRunning,
            ManagerAction::Repaint,
        ]
    );
    assert_eq!(m, PipelineManager::new());
    m.step(Some(PipelineCommand::Start), false);
    assert_eq!(
        m.step(Some(PipelineCommand::Quit), true),
        vec![ManagerAction::SignalShutdown, ManagerAction::AwaitTask, ManagerAction::Exit]
    );
    assert_eq!(m.step(None, false), vec![ManagerAction::Exit]);
}

#[test]
fn pipeline_phases() {
    let run = |outcomes: &[bool]| {
        let mut phase = PipelinePhase::Starting;
        let mut actions: Vec<PipelineAction> = Vec::new();
        for outcome in outcomes {
            let (next, action) = advance_pipeline(phase, *outcome);
            phase = next;
            actions.push(action);
        }
        (phase, actions)
    };
    assert_eq!(
        run(&[true, false, true, false]),
        (
            PipelinePhase::Ended,
            vec![
                PipelineAction::Capture,
                PipelineAction::StopSource,
                PipelineAction::Flush,
                PipelineAction::Succeed,
            ]
        )
    );
    assert_eq!(
        run(&[false, true]),
        (PipelinePhase::Failed, vec![PipelineAction::Fail, PipelineAction::Nothing])
    );
    assert_eq!(
        run(&[true, true, false]),
        (
            PipelinePhase::Failed,
            vec![PipelineAction::Capture, PipelineAction::StopSource, PipelineAction::Fail]
        )
    );
}

#[test]
fn capture_loop_counts_samples() {
    let mut l = CaptureLoop::new();
    assert_eq!(l.step(CaptureEvent::Sample), CaptureLoopAction::Forward);
    assert_eq!(l.step(CaptureEvent::Forwarded), CaptureLoopAction::Wait);
    assert_eq!(l.step(CaptureEvent::Sample), CaptureLoopAction::Forward);
    assert_eq!(l.step(CaptureEvent::ReceiverGone), CaptureLoopAction::End);
    assert_eq!(l.step(CaptureEvent::SourceFailed), CaptureLoopAction::End);
    assert_eq!(l.step(CaptureEvent::Shutdown), CaptureLoopAction::End);
    assert_eq!(l.sample_count, 2);
}

#[test]
fn the_tap_counts_batches_and_bytes() {
    let mut tap = BatchTap::new();
    for len in [10, 0, 32] {
        tap.count(len);
    }
    assert_eq!(tap, BatchTap { batches_sent: 3, bytes_sent: 42 });
}

#[test]
fn the_icon_is_a_purple_disc() {
    let rgba = create_default_icon();
    let size = ICON_SIZE as usize;
    assert_eq!(rgba.len(), size * size * 4);
    for y in 0..size {
        for x in 0..size {
            let cx = (x as f32) - (size as f32 / 2.0);
            let cy = (y as f32) - (size as f32 / 2.0);
            let r = (size as f32 / 2.0) - 2.0;
            let at = (y * size + x) * 4;
            let expected: [u8; 4] =
                if cx * cx + cy * cy <= r * r { [139, 92, 246, 255] } else { [0, 0, 0, 0] };
            assert_eq!(&rgba[at..at + 4], &expected[..]);
        }
    }
}
