use std::path::PathBuf;
use std::time::Duration;

use colcon_deb::artifact::{ArtifactCollector, BuildArtifact};
use colcon_deb::build_error::BuildError;
use colcon_deb::build_result::{BuildResult, BuildStatus};
use colcon_deb::config::{Config, DockerConfig};
use colcon_deb::docker_error::DockerError;
use colcon_deb::context::{BuildContext, BuildState, PackageBuildResult};
use colcon_deb::executor::{build_timeout_secs, container_spec, ExecutorConfig};
use colcon_deb::orchestrator::{begin_phase, finish_build, workspace_failure};
use colcon_deb::progress::{LogLevel, ProgressEvent};
use colcon_deb::progress_ui::{BarMessage, IndicatifProgressUI, NoOpProgressUI, ProgressDisplay, ProgressUI, ProgressUIFactory};
use colcon_deb::recovery::{BuildRecoveryStrategy, RecoveryAction, RecoveryContext, RecoveryManager};
use colcon_deb::shutdown::{cleanup_outcome, ShutdownReason, ShutdownSignal};

#[test]
fn test_shutdown_signal_display() {
    assert_eq!(ShutdownReason::UserRequest.to_text(), "user request");
    assert_eq!(ShutdownReason::Timeout.to_text(), "timeout");
    assert_eq!(ShutdownReason::FatalError.to_text(), "fatal error");
    assert_eq!(ShutdownReason::External.to_text(), "external request");
}

#[test]
fn test_shutdown_signal_creation() {
    let signal = ShutdownSignal::user_request();
    assert_eq!(signal.reason, ShutdownReason::UserRequest);
    assert!(signal.message.is_some());

    let timeout_signal = ShutdownSignal::timeout(Duration::from_secs(30));
    assert_eq!(timeout_signal.reason, ShutdownReason::Timeout);
    assert!(timeout_signal.message.is_some());
    assert_eq!(timeout_signal.message.as_deref(), Some("Shutdown due to timeout (30s)"));

    let error_signal = ShutdownSignal::fatal_error("test error");
    assert_eq!(error_signal.reason, ShutdownReason::FatalError);
    assert!(error_signal.message.is_some());

    let external_signal = ShutdownSignal::external(Some("test message".to_string()));
    assert_eq!(external_signal.reason, ShutdownReason::External);
    assert!(external_signal.message.is_some());
}

#[test]
fn test_noop_progress_ui() {
    let mut ui = NoOpProgressUI;
    ui.update(&ProgressEvent::PackageStart { name: "test".to_string(), current: None, total: None });
    ui.update(&ProgressEvent::PackageComplete {
        name: "test".to_string(),
        success: false,
        error: Some("Test error".to_string()),
    });
    ui.clear();
    ui.finish();
}

#[test]
fn test_indicatif_progress_ui() {
    let mut ui = IndicatifProgressUI::new();

    ui.update(&ProgressEvent::PackageStart { name: "test_package".to_string(), current: Some(1), total: Some(5) });
    assert_eq!(ui.total_packages, Some(5));
    assert_eq!(ui.package_bars.len(), 1);
    assert_eq!(ui.package_bars[0].0, "test_package");
    assert_eq!(ui.package_bars[0].1.prefix, "  test_package");
    assert_eq!(ui.package_bars[0].1.message, BarMessage::Text("Building...".to_string()));
    assert_eq!(ui.main_bar.length, 5);
    assert_eq!(ui.main_bar.position, 0);
    assert_eq!(ui.main_bar.message, BarMessage::Percent { done: 0, total: 5 });

    ui.update(&ProgressEvent::Progress { current: 2, total: 5, message: Some("Processing...".to_string()) });
    assert_eq!(ui.main_bar.position, 2);
    assert_eq!(ui.main_bar.message, BarMessage::Text("Processing...".to_string()));

    ui.update(&ProgressEvent::PackageComplete { name: "test_package".to_string(), success: true, error: None });
    assert_eq!(ui.completed_packages, 1);
    assert!(ui.package_bars[0].1.finished);
    assert_eq!(ui.package_bars[0].1.message, BarMessage::Text("✓ Complete".to_string()));
    assert_eq!(ui.main_bar.message, BarMessage::Percent { done: 1, total: 5 });

    ui.update(&ProgressEvent::Stage { name: "build".to_string(), description: Some("Building packages".to_string()) });
    assert_eq!(ui.main_bar.prefix, "Stage: build - Building packages");

    ui.update(&ProgressEvent::Log { level: LogLevel::Info, message: "Test log message".to_string() });
    assert!(ui.printed.is_empty());

    ui.finish();
    assert!(ui.main_bar.finished);
    assert_eq!(ui.main_bar.message, BarMessage::Elapsed);
    assert!(ui.package_bars.iter().all(|(_, bar)| bar.finished));
}

#[test]
fn indicatif_failed_package_and_logs() {
    let mut ui = IndicatifProgressUI::new();
    ui.update(&ProgressEvent::PackageStart { name: "a".to_string(), current: None, total: None });
    ui.update(&ProgressEvent::PackageComplete { name: "a".to_string(), success: false, error: Some("boom".to_string()) });
    assert_eq!(ui.package_bars[0].1.message, BarMessage::Text("✗ boom".to_string()));
    ui.update(&ProgressEvent::PackageComplete { name: "b".to_string(), success: false, error: None });
    assert_eq!(ui.completed_packages, 2);
    assert_eq!(ui.package_bars.len(), 1);
    assert_eq!(ui.total_packages, None);
    ui.update(&ProgressEvent::Log { level: LogLevel::Error, message: "bad".to_string() });
    ui.update(&ProgressEvent::Log { level: LogLevel::Warn, message: "careful".to_string() });
    ui.update(&ProgressEvent::Log { level: LogLevel::Debug, message: "quiet".to_string() });
    assert_eq!(ui.printed, vec!["ERROR: bad".to_string(), "WARN: careful".to_string()]);
    ui.update(&ProgressEvent::Stage { name: "pack".to_string(), description: None });
    assert_eq!(ui.main_bar.prefix, "Stage: pack");
}

#[test]
fn test_progress_factory() {
    let mut noop_ui = ProgressUIFactory::create_noop();
    noop_ui.update(&ProgressEvent::Log { level: LogLevel::Debug, message: "Test".to_string() });

    let mut indicatif_ui = ProgressUIFactory::create_indicatif();
    indicatif_ui.update(&ProgressEvent::Stage { name: "test".to_string(), description: None });
}

#[test]
fn factory_choices() {
    assert_eq!(ProgressUIFactory::create_noop(), ProgressDisplay::Silent(NoOpProgressUI));
    assert_eq!(ProgressUIFactory::create_indicatif(), ProgressDisplay::Bars(IndicatifProgressUI::new()));
    assert_eq!(ProgressUIFactory::create_for(true, true), ProgressDisplay::Bars(IndicatifProgressUI::new()));
    assert_eq!(ProgressUIFactory::create_for(true, false), ProgressDisplay::Silent(NoOpProgressUI));
    assert_eq!(ProgressUIFactory::create_for(false, true), ProgressDisplay::Silent(NoOpProgressUI));
    assert_eq!(ProgressUIFactory::create(false), ProgressDisplay::Silent(NoOpProgressUI));
    let mut bars = ProgressUIFactory::create_indicatif();
    bars.update(&ProgressEvent::PackageStart { name: "p".to_string(), current: None, total: Some(2) });
    bars.finish();
    match &bars {
        ProgressDisplay::Bars(ui) => {
            assert_eq!(ui.total_packages, Some(2));
            assert!(ui.main_bar.finished);
        }
        ProgressDisplay::Silent(_) => panic!("expected bars"),
    }
    assert!(bars.get_package_progress("p").is_none());
}

#[test]
fn timeout_signal_message() {
    let signal = ShutdownSignal::timeout(Duration::from_secs(30));
    assert_eq!(signal.message.as_deref(), Some("Shutdown due to timeout (30s)"));
    let signal = ShutdownSignal::timeout(Duration::from_millis(1500));
    assert_eq!(signal.message.as_deref(), Some("Shutdown due to timeout (1.5s)"));
}

#[test]
fn test_executor_config() {
    let config = ExecutorConfig {
        container_image: "ros:loong".to_string(),
        workspace_path: PathBuf::from("/workspace"),
        output_dir: PathBuf::from("/output"),
        parallel_jobs: 4,
        timeout_seconds: Some(3600),
    };
    assert_eq!(config.container_image, "ros:loong");
    assert_eq!(config.parallel_jobs, 4);
    assert_eq!(config.timeout_seconds, Some(3600));
}

#[test]
fn executor_container_and_timeout() {
    let config = ExecutorConfig {
        container_image: "ros:loong".to_string(),
        workspace_path: PathBuf::from("/ws"),
        output_dir: PathBuf::from("/out"),
        parallel_jobs: 12,
        timeout_seconds: None,
    };
    assert_eq!(build_timeout_secs(&config), 3600);
    let spec = container_spec(&config);
    assert_eq!(spec.image, "ros:loong");
    assert_eq!(spec.command, vec!["/entrypoint.sh".to_string(), "build".to_string()]);
    assert_eq!(spec.environment[0], ("PARALLEL_JOBS".to_string(), "12".to_string()));
    assert_eq!(spec.volumes[0].host_path, PathBuf::from("/ws"));
    assert_eq!(spec.volumes[1].container_path, "/output");
}

#[test]
fn test_recovery_context() {
    let error = BuildError::transient("test error");
    let mut context = RecoveryContext::new("test_operation", &error);

    assert_eq!(context.operation, "test_operation");
    assert_eq!(context.attempt_count, 1);
    assert_eq!(context.elapsed_time, Duration::ZERO.as_nanos());
    assert!(context.package_name.is_none());
    assert!(context.is_retryable);

    context.increment_attempt();
    assert_eq!(context.attempt_count, 2);

    context.add_elapsed_time(Duration::from_millis(100).as_nanos());
    assert_eq!(context.elapsed_time, Duration::from_millis(100).as_nanos());
}

#[test]
fn test_recovery_actions() {
    let manager = RecoveryManager::with_strategy(BuildRecoveryStrategy::Retry);

    let error = BuildError::transient("retry me");
    let context = RecoveryContext::new("test", &error);
    assert_eq!(manager.determine_recovery_action(&context), RecoveryAction::Retry);

    let error = BuildError::permanent("don't retry");
    let context = RecoveryContext::new("test", &error);
    assert_eq!(manager.determine_recovery_action(&context), RecoveryAction::Fail);

    let error = BuildError::Cancelled;
    let context = RecoveryContext::new("test", &error);
    assert_eq!(manager.determine_recovery_action(&context), RecoveryAction::Abort);
}

#[test]
fn recovery_attempts_run_out() {
    let manager = RecoveryManager::with_strategy(BuildRecoveryStrategy::CleanRetry);
    let error = BuildError::transient("flaky");
    let mut context = RecoveryContext::new("op", &error);
    assert_eq!(manager.determine_recovery_action(&context), RecoveryAction::CleanAndRetry);
    context.increment_attempt();
    context.increment_attempt();
    assert_eq!(manager.determine_recovery_action(&context), RecoveryAction::Fail);
    let skip = RecoveryManager::with_strategy(BuildRecoveryStrategy::Skip);
    assert_eq!(skip.determine_recovery_action(&context), RecoveryAction::Skip);
}

fn sample_config() -> Config {
    Config {
        colcon_repo: "/tmp/ws/workspace".to_string(),
        debian_dirs: "/tmp/ws/debian".to_string(),
        docker: DockerConfig::Image { image: "ros:loong".to_string() },
        ros_distro: Some("loong".to_string()),
        output_dir: "/tmp/ws/output".to_string(),
        parallel_jobs: 4,
    }
}

#[test]
fn test_build_context() {
    let mut context = BuildContext::new(sample_config());

    assert_eq!(context.state(), BuildState::Idle);
    context.set_state(BuildState::Preparing);
    assert_eq!(context.state(), BuildState::Preparing);

    context.add_result(PackageBuildResult {
        name: "test_package".to_string(),
        success: true,
        error: None,
        duration: Duration::from_secs(10),
        artifacts: vec![],
    });

    let stats = context.stats();
    assert_eq!(stats.built_packages, 1);
    assert_eq!(stats.failed_packages, 0);
}

#[test]
fn test_artifact_parsing() {
    // The file does not exist, so its size is unknown and nothing is parsed.
    let artifact = BuildArtifact::from_path("/tmp/agiros-loong-example-msgs_0.1.0-1_amd64.deb", None);
    assert!(artifact.is_none());
}

#[test]
fn artifact_fields_from_name() {
    let a = BuildArtifact::from_path("/out/agiros-loong-foo_0.1.0-1_amd64.deb", Some(2048)).unwrap();
    assert_eq!(a.package_name, "agiros-loong-foo");
    assert_eq!(a.version, "0.1.0-1");
    assert_eq!(a.architecture, "amd64");
    assert_eq!(a.artifact_type, "deb");
    assert_eq!(a.size, 2048);
    let d = BuildArtifact::from_path("/out/foo-dbgsym_1.0_arm64.deb", Some(1)).unwrap();
    assert_eq!(d.artifact_type, "dbgsym");
    assert!(BuildArtifact::from_path("/out/foo_1.0.deb", Some(1)).is_none());
}

fn mb_text(size: u64) -> String {
    format!("{:.2}", size as f64 / 1_048_576.0)
}

#[test]
fn summary_lists_artifacts_by_package() {
    let collector = ArtifactCollector::new("/out");
    let artifacts = vec![
        BuildArtifact::from_path("/o/a_1_amd64.deb", Some(1_048_576)).unwrap(),
        BuildArtifact::from_path("/o/b_2_amd64.deb", Some(131_072)).unwrap(),
        BuildArtifact::from_path("/o/a-dbgsym_1_amd64.deb", Some(5_242)).unwrap(),
        BuildArtifact::from_path("/o/a_1_arm64.deb", Some(393_216)).unwrap(),
    ];
    let summary = collector.create_summary(&artifacts);
    let expected = format!(
        "Build Artifacts:\n================\n\nPackage: a\n  - a_1_amd64.deb ({} MB) [deb]\n  - a_1_arm64.deb ({} MB) [deb]\n\nPackage: b\n  - b_2_amd64.deb ({} MB) [deb]\n\nPackage: a-dbgsym\n  - a-dbgsym_1_amd64.deb ({} MB) [dbgsym]\n\nTotal: 4 artifacts, {} MB\n",
        mb_text(1_048_576),
        mb_text(393_216),
        mb_text(131_072),
        mb_text(5_242),
        mb_text(1_048_576 + 131_072 + 5_242 + 393_216)
    );
    assert_eq!(summary, expected);
}

#[test]
fn megabyte_text_matches_float_formatting() {
    let collector = ArtifactCollector::new("/out");
    for size in [0u64, 1, 5_242, 5_243, 10_485, 10_486, 131_072, 393_216, 655_360, 917_504,
        1_048_575, 1_048_576, 3_276_800, 123_456_789, 9_999_999_999, (1u64 << 52) + 12_345] {
        let artifacts = vec![BuildArtifact::from_path("/o/x_1_all.deb", Some(size)).unwrap()];
        let summary = collector.create_summary(&artifacts);
        let line = format!("  - x_1_all.deb ({} MB) [deb]\n", mb_text(size));
        assert!(summary.contains(&line), "size {size}: {summary}");
    }
}

#[test]
fn test_build_result_lifecycle() {
    let mut result = BuildResult::new("test_package");
    assert_eq!(result.status, BuildStatus::Queued);

    result.start();
    assert_eq!(result.status, BuildStatus::InProgress);
    assert!(!result.status.is_complete());

    result.succeed(vec!["test.deb".to_string()]);
    assert_eq!(result.status, BuildStatus::Success);
    assert!(result.status.is_success());
    assert!(result.status.is_complete());
    assert_eq!(result.deb_files.len(), 1);
    assert!(result.duration_millis >= 0);
}

#[test]
fn build_result_timed_transitions() {
    let mut result = BuildResult::new_at("p", 1_000);
    result.start_at(2_000);
    result.fail_at("boom", 3_500);
    assert_eq!(result.status, BuildStatus::Failed);
    assert!(result.status.is_failed());
    assert_eq!(result.duration_millis, 1_500);
    assert_eq!(result.error, Some("boom".to_string()));
    result.skip_at("later", 4_000);
    assert_eq!(result.status, BuildStatus::Skipped);
    assert_eq!(result.duration_millis, 1_500);
}

#[test]
fn phases_respect_shutdown() {
    let mut context = BuildContext::new(sample_config());
    assert_eq!(begin_phase(&mut context, true, BuildState::Preparing), Err(BuildError::ShutdownInProgress));
    assert_eq!(context.state(), BuildState::Idle);
    assert!(begin_phase(&mut context, false, BuildState::Building).is_ok());
    assert_eq!(context.state(), BuildState::Building);
    let failed = finish_build(&mut context, Err(BuildError::environment("disk full")));
    assert!(failed.is_err());
    assert_eq!(context.state(), BuildState::Failed);
    let core = workspace_failure(&BuildError::environment("disk full"));
    assert_eq!(
        core.to_text(),
        "Build failed for package workspace: Failed to prepare build environment: disk full"
    );
}

#[test]
fn cleanup_reports_failures() {
    assert!(cleanup_outcome(vec![Ok(()), Ok(())]).is_ok());
    let r = cleanup_outcome(vec![Ok(()), Err(BuildError::transient("test failure"))]);
    let e = r.unwrap_err();
    assert_eq!(e.to_text(), "Recovery failed: Cleanup failed with 1 errors: Transient error: test failure");
}

#[test]
fn error_classification_contexts() {
    let cases = vec![
        (BuildError::transient("Temporary network error"), true),
        (BuildError::Docker(DockerError::ExecutionFailed { reason: "Container failed to start".to_string() }), true),
        (BuildError::config("Invalid package.xml"), false),
        (BuildError::environment("Out of disk space"), false),
    ];
    for (error, retryable) in cases {
        let context = RecoveryContext::new("build", &error);
        assert_eq!(context.operation, "build");
        assert!(!context.error_message.is_empty());
        assert_eq!(context.error_message, error.to_text());
        assert_eq!(context.attempt_count, 1);
        assert_eq!(error.is_retryable(), retryable);
        assert_eq!(context.is_retryable, retryable);
    }
}

#[test]
fn recovery_context_tracking() {
    let package_name = "persistent_failure_package";
    let error = BuildError::transient("Persistent failure");
    for attempt in 1..=5u32 {
        let mut context = RecoveryContext::for_package("build", package_name, &error);
        for _ in 1..attempt {
            context.increment_attempt();
            context.add_elapsed_time(Duration::from_millis(100).as_nanos());
        }
        assert_eq!(context.attempt_count, attempt);
        assert_eq!(context.package_name.as_deref(), Some(package_name));
        assert_eq!(context.operation, "build");
        assert_eq!(context.elapsed_time, Duration::from_millis((attempt as u64 - 1) * 100).as_nanos());
    }
}

#[test]
fn docker_timeout_text() {
    let e = DockerError::Timeout { duration: Duration::from_secs(30) };
    assert_eq!(e.to_text(), "Docker operation timed out after 30s");
    assert_eq!(BuildError::Docker(e).to_text(), "Docker error: Docker operation timed out after 30s");
}
