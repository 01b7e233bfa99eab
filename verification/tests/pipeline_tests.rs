use pulsar_installer::error::InstallerError;
use pulsar_installer::pipeline::run_steps;
use pulsar_installer::pipeline::scale_step_progress;
use pulsar_installer::pipeline::InstallState;
use pulsar_installer::pipeline::PipelineState;
use pulsar_installer::pipeline::StepInfo;
use pulsar_installer::pipeline::StepOutcome;
use pulsar_installer::pipeline::StepPipeline;
use pulsar_installer::pipeline::StepStatus;
use pulsar_installer::detector::PlatformDetector;
use pulsar_installer::detector::SystemRequirements;
use pulsar_installer::steps::archive_format;
use pulsar_installer::steps::ArchiveFormat;
use pulsar_installer::steps::CheckRequirementsStep;
use pulsar_installer::steps::CreateDirectoriesStep;
use pulsar_installer::steps::CreateShortcutsStep;
use pulsar_installer::steps::ExtractFilesStep;
use pulsar_installer::steps::FinalizeStep;
use pulsar_installer::steps::StepSequence;

fn names(list: &[&str]) -> Vec<String> {
    list.iter().map(|s| String::from(*s)).collect()
}

#[test]
fn install_state_progress_and_finish() {
    assert!(!InstallState::NotStarted.is_in_progress());
    assert!(InstallState::CheckingRequirements.is_in_progress());
    assert!(InstallState::Downloading.is_in_progress());
    assert!(InstallState::Installing.is_in_progress());
    assert!(InstallState::Verifying.is_in_progress());
    assert!(!InstallState::Completed.is_in_progress());
    assert!(InstallState::Completed.is_finished());
    assert!(InstallState::Failed.is_finished());
    assert!(InstallState::Cancelled.is_finished());
    assert!(!InstallState::Downloading.is_finished());
}

#[test]
fn pipeline_completes_when_every_step_succeeds() {
    let p = run_steps(
        names(&["a", "b", "c"]),
        vec![StepOutcome::Succeeded, StepOutcome::Skipped, StepOutcome::Succeeded],
    );
    assert_eq!(p.state, PipelineState::Completed);
    assert_eq!(p.executed, vec![0, 2]);
    assert!(p.error.is_none());
}

#[test]
fn pipeline_rollback_covers_exactly_the_executed_prefix_in_reverse() {
    let p = run_steps(
        names(&["one", "two", "three", "four", "five"]),
        vec![
            StepOutcome::Succeeded,
            StepOutcome::Skipped,
            StepOutcome::Succeeded,
            StepOutcome::Failed(InstallerError::Download(String::from("boom"))),
            StepOutcome::Succeeded,
        ],
    );
    assert_eq!(p.state, PipelineState::Failed);
    assert_eq!(p.failed_step, Some(3));
    assert_eq!(p.error, Some(InstallerError::Download(String::from("boom"))));
    // Exactly steps 0 and 2 executed; rollback visits them later-first.
    assert_eq!(p.executed, vec![0, 2]);
    assert_eq!(p.rollback_order(), vec![2, 0]);
}

#[test]
fn pipeline_cancellation_rolls_back_like_failure() {
    let p = run_steps(
        names(&["a", "b", "c"]),
        vec![StepOutcome::Succeeded, StepOutcome::Cancelled, StepOutcome::Succeeded],
    );
    assert_eq!(p.state, PipelineState::Cancelled);
    assert!(p.error.is_none());
    assert_eq!(p.rollback_order(), vec![0]);
}

#[test]
fn pipeline_statuses_follow_outcomes() {
    let mut p = StepPipeline::new(names(&["a", "b"]));
    assert_eq!(p.state, PipelineState::NotStarted);
    p.start();
    assert_eq!(p.state, PipelineState::Running);
    assert_eq!(p.steps[0].status, StepStatus::InProgress);
    p.complete_current();
    assert_eq!(p.steps[0].status, StepStatus::Completed);
    p.fail_current(InstallerError::Io(String::from("disk full")));
    assert_eq!(p.state, PipelineState::Failed);
    assert_eq!(p.steps[1].status, StepStatus::Failed(String::from("io error")));
    assert_eq!(p.failed_step, Some(1));
}

#[test]
fn pipeline_rollback_failures_do_not_mask_the_original_error() {
    let mut p = StepPipeline::new(names(&["a"]));
    p.start();
    p.fail_current(InstallerError::Download(String::from("original")));
    p.note_rollback_failure(InstallerError::Io(String::from("secondary")));
    assert_eq!(p.error, Some(InstallerError::Download(String::from("original"))));
    assert_eq!(p.rollback_failures, vec![InstallerError::Io(String::from("secondary"))]);
}

#[test]
fn pipeline_empty_run_completes() {
    let p = run_steps(Vec::new(), Vec::new());
    assert_eq!(p.state, PipelineState::Completed);
    assert!(p.executed.is_empty());
}

#[test]
fn three_step_scenario_checksum_failure() {
    // A pipeline of three steps where the download's checksum mismatches:
    // the directory step is rolled back, the metadata step never runs, and
    // the pipeline carries the mismatch.
    let mismatch = InstallerError::ChecksumMismatch {
        file: String::from("/tmp/x/app.bin"),
        expected: String::from("abc123"),
        actual: String::from("d41d8c"),
    };
    let p = run_steps(
        names(&[
            "create directory at /tmp/x",
            "download asset to /tmp/x/app.bin",
            "write metadata file",
        ]),
        vec![
            StepOutcome::Succeeded,
            StepOutcome::Failed(mismatch.clone()),
            StepOutcome::Skipped,
        ],
    );
    assert_eq!(p.state, PipelineState::Failed);
    assert_eq!(p.error, Some(mismatch));
    assert_eq!(p.failed_step, Some(1));
    assert_eq!(p.executed, vec![0], "only the directory step executed");
    assert_eq!(p.rollback_order(), vec![0], "rollback removes the directory");
}

#[test]
fn scaled_progress_bands() {
    assert_eq!(scale_step_progress(0, 3, 0), 0);
    assert_eq!(scale_step_progress(0, 3, 100), 33);
    assert_eq!(scale_step_progress(1, 3, 50), 50);
    assert_eq!(scale_step_progress(2, 3, 100), 100);
    assert_eq!(scale_step_progress(0, 1, 100), 100);
}

#[test]
fn can_execute_is_idempotent() {
    let step = CreateShortcutsStep::new(
        String::from("/opt/pulsar"),
        String::from("1.0.0"),
        false,
    );
    let first = step.can_execute();
    let second = step.can_execute();
    assert_eq!(first, second);
    assert!(first);
}

#[test]
fn directory_step_lists_base_and_subdirectories() {
    let step = CreateDirectoriesStep::new(String::from("/opt/pulsar"));
    let paths = step.directory_paths();
    assert_eq!(
        paths,
        vec![
            String::from("/opt/pulsar"),
            String::from("/opt/pulsar/bin"),
            String::from("/opt/pulsar/lib"),
            String::from("/opt/pulsar/assets"),
            String::from("/opt/pulsar/plugins"),
            String::from("/opt/pulsar/projects"),
            String::from("/opt/pulsar/docs"),
        ]
    );
}

#[test]
fn directory_step_extends_subdirectories() {
    let step = CreateDirectoriesStep::new(String::from("/opt/pulsar"))
        .with_subdirectories(vec![String::from("cache")]);
    assert_eq!(step.subdirectories.len(), 7);
    assert_eq!(step.subdirectories[6], "cache");
}

#[test]
fn per_item_progress_formulas() {
    // After the first of six subdirectories: 1/6 of the step's band.
    assert_eq!(CreateDirectoriesStep::creation_percent(0, 6), 16);
    assert_eq!(CreateDirectoriesStep::creation_percent(5, 6), 100);
    // After the last of four archive entries: done.
    assert_eq!(ExtractFilesStep::entry_percent(3, 4), 100);
    assert_eq!(ExtractFilesStep::entry_percent(0, 4), 25);
}

#[test]
fn requirements_step_decides_from_measured_space() {
    let step = CheckRequirementsStep::new(
        PlatformDetector::new(String::from("Linux"), String::from("x86_64")),
        SystemRequirements::default_requirements(),
    );
    assert!(step.check(2 * 1024 * 1024 * 1024).is_ok());
    assert!(matches!(
        step.check(1024),
        Err(InstallerError::InsufficientSpace { .. })
    ));
}

#[test]
fn archive_format_selection() {
    assert_eq!(archive_format("app.tar.gz"), ArchiveFormat::TarGz);
    assert_eq!(archive_format("app.tgz"), ArchiveFormat::TarGz);
    assert_eq!(archive_format("app.zip"), ArchiveFormat::Zip);
    assert_eq!(archive_format("setup.exe"), ArchiveFormat::OpaqueCopy);
    assert_eq!(archive_format("app.rar"), ArchiveFormat::Unsupported);
}

#[test]
fn extract_step_refuses_unknown_formats() {
    let good = ExtractFilesStep::new(String::from("/tmp/app.tar.gz"), String::from("/opt/p"));
    assert_eq!(good.plan().unwrap(), ArchiveFormat::TarGz);
    let bad = ExtractFilesStep::new(String::from("/tmp/app.rar"), String::from("/opt/p"));
    assert!(matches!(bad.plan(), Err(InstallerError::Other(_))));
}

#[test]
fn finalize_step_verifies_presence() {
    let step = FinalizeStep::new(String::from("/opt/pulsar"));
    assert_eq!(step.required_artifact("windows"), "/opt/pulsar/pulsar.exe");
    assert_eq!(step.required_artifact("macos"), "/opt/pulsar/Contents");
    assert_eq!(step.required_artifact("linux"), "/opt/pulsar");
    let artifact = step.required_artifact("macos");
    assert!(step.verify_installation(true, &artifact, true).is_ok());
    // A missing artifact is named; a missing install path names the path.
    match step.verify_installation(true, &artifact, false) {
        Err(InstallerError::InvalidPath(p)) => assert_eq!(p, "/opt/pulsar/Contents"),
        other => panic!("expected an invalid path, got {:?}", other),
    }
    match step.verify_installation(false, &artifact, true) {
        Err(InstallerError::InvalidPath(p)) => assert_eq!(p, "/opt/pulsar"),
        other => panic!("expected an invalid path, got {:?}", other),
    }
}

#[test]
fn step_sequence_tracks_cursor_and_completion() {
    let seq = StepSequence::new()
        .add_step(StepInfo::new(String::from("a")))
        .add_step(StepInfo::new(String::from("b")));
    assert_eq!(seq.total_steps(), 2);
    assert_eq!(seq.current_step(), 0);
    assert!(!seq.is_complete());
    assert_eq!(seq.steps().len(), 2);
    let empty = StepSequence::default();
    assert!(empty.is_complete());
}
