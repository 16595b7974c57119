use openworld_core::install::{
    resolve_extracted, validate_artifact_size, ArtifactInstaller, ExtractPlacement, InstallAction,
    InstallEvent, InstallPhase,
};
use openworld_core::lifecycle::{LifecycleAction, LifecycleController, LifecycleEvent};
use openworld_core::platform::ArchiveKind;
use openworld_core::probe::{ProbeVerdict, ReadinessProbe};
use openworld_core::status::{EngineError, EngineStatus, Stage};
use openworld_core::supervisor::{stop_ollama, ProcessSupervisor, StartAction};

fn stages_of(statuses: &[EngineStatus]) -> Vec<Stage> {
    statuses.iter().map(|s| s.stage).collect()
}

#[test]
fn scenario_already_serving() {
    // Readiness probe against an already-serving engine: statuses are
    // checking then ready; neither a download nor a launch is ordered.
    let mut statuses: Vec<EngineStatus> = Vec::new();
    let (mut ctl, first, action) = LifecycleController::start();
    statuses.push(first);
    assert!(matches!(action, LifecycleAction::RunShortProbe));

    let (status, action) = ctl.step(LifecycleEvent::ProbeFinished { ready: true });
    statuses.extend(status);
    assert!(action.is_none());

    assert_eq!(stages_of(&statuses), vec![Stage::Checking, Stage::Ready]);
    assert_eq!(statuses[1].message, "AI engine ready!");
}

#[test]
fn scenario_download_and_start() {
    // No local binary, platform Linux/x86_64: checking, downloading
    // several times, starting, ready; the launched path ends in the
    // expected executable name.
    let source = openworld_core::platform::resolve_download("linux", "x86_64").unwrap();
    assert!(matches!(source.archive, ArchiveKind::Tar));

    let mut statuses: Vec<EngineStatus> = Vec::new();
    let (mut ctl, first, _action) = LifecycleController::start();
    statuses.push(first);

    let (status, action) = ctl.step(LifecycleEvent::ProbeFinished { ready: false });
    assert!(status.is_none());
    assert!(matches!(action, Some(LifecycleAction::RunLocator)));

    let (status, action) = ctl.step(LifecycleEvent::LocateFinished { path: None });
    statuses.extend(status);
    assert!(matches!(action, Some(LifecycleAction::RunInstaller)));

    // The installer drives the transfer of the archive.
    let mut installer = ArtifactInstaller::new(source.archive, Some(2_000_000));
    let (status, action) = installer.step(InstallEvent::ChunkReceived { len: 1_000_000 });
    statuses.extend(status);
    assert!(action.is_none());
    let (status, action) = installer.step(InstallEvent::ChunkReceived { len: 1_000_000 });
    statuses.extend(status);
    assert!(action.is_none());
    let (status, action) = installer.step(InstallEvent::TransferEnded { file_size: 2_000_000 });
    statuses.extend(status);
    assert!(matches!(action, Some(InstallAction::RunExtraction)));
    let (status, action) = installer.step(InstallEvent::ExtractFinished {
        ok: true,
        at_top: true,
        in_nested: false,
    });
    assert!(status.is_none());
    assert!(matches!(action, Some(InstallAction::MarkExecutableAndProbe)));
    let (status, action) = installer.step(InstallEvent::ProbeFinished { ok: true });
    statuses.extend(status);
    assert!(action.is_none());

    let path = openworld_core::locate::get_ollama_bin_path("/home/user/.openworld", false);
    let (status, action) = ctl.step(LifecycleEvent::InstallFinished { outcome: Ok(path) });
    statuses.extend(status);
    let launched = match action {
        Some(LifecycleAction::Launch { path }) => path,
        other => panic!("expected a launch, got {:?}", other),
    };
    assert!(launched.ends_with(openworld_core::locate::engine_binary_name(false)));

    let (status, action) = ctl.step(LifecycleEvent::LaunchFinished { ok: true });
    assert!(status.is_none());
    assert!(matches!(action, Some(LifecycleAction::RunLongProbe)));

    let (status, action) = ctl.step(LifecycleEvent::ProbeFinished { ready: true });
    statuses.extend(status);
    assert!(action.is_none());

    let stages = stages_of(&statuses);
    assert_eq!(stages[0], Stage::Checking);
    assert_eq!(*stages.last().unwrap(), Stage::Ready);
    assert_eq!(stages[stages.len() - 2], Stage::Starting);
    let downloading = &stages[1..stages.len() - 2];
    assert!(downloading.len() >= 2);
    for st in downloading {
        assert_eq!(*st, Stage::Downloading);
    }
}

#[test]
fn scenario_undersized_artifact() {
    // A download that completes below the threshold is an integrity
    // error: the status sequence ends in error and no start is ever
    // ordered.
    let mut statuses: Vec<EngineStatus> = Vec::new();
    let (mut ctl, first, _action) = LifecycleController::start();
    statuses.push(first);

    let (status, action) = ctl.step(LifecycleEvent::ProbeFinished { ready: false });
    assert!(status.is_none());
    assert!(matches!(action, Some(LifecycleAction::RunLocator)));
    let (status, action) = ctl.step(LifecycleEvent::LocateFinished { path: None });
    statuses.extend(status);
    assert!(matches!(action, Some(LifecycleAction::RunInstaller)));

    let mut installer = ArtifactInstaller::new(ArchiveKind::Tar, Some(1_000_000));
    let (status, action) = installer.step(InstallEvent::ChunkReceived { len: 800_000 });
    statuses.extend(status);
    assert!(action.is_none());
    let (status, action) = installer.step(InstallEvent::TransferEnded { file_size: 800_000 });
    assert!(status.is_none());
    assert!(matches!(action, Some(InstallAction::DeleteArtifact)));

    let (status, action) = ctl.step(LifecycleEvent::InstallFinished {
        outcome: Err(EngineError::Integrity),
    });
    statuses.extend(status);
    assert!(action.is_none(), "no start may be attempted");

    let stages = stages_of(&statuses);
    assert_eq!(*stages.last().unwrap(), Stage::Error);
    assert_eq!(statuses.last().unwrap().message, "Download corrupted");

    // The run is over: further events change nothing.
    let (status, action) = ctl.step(LifecycleEvent::ProbeFinished { ready: true });
    assert!(status.is_none());
    assert!(action.is_none());
}

#[test]
fn integrity_gate_rejects_small_artifact() {
    // A 500-byte artifact is rejected, the file's deletion is ordered,
    // and no later event can promote it.
    let mut installer = ArtifactInstaller::new(ArchiveKind::Direct, None);
    let (status, action) = installer.step(InstallEvent::TransferEnded { file_size: 500 });
    assert!(status.is_none());
    assert!(matches!(action, Some(InstallAction::DeleteArtifact)));
    let (status, action) = installer.step(InstallEvent::ProbeFinished { ok: true });
    assert!(status.is_none());
    assert!(action.is_none());
}

#[test]
fn size_gate_boundary() {
    assert_eq!(validate_artifact_size(999_999), Err(EngineError::Integrity));
    assert_eq!(validate_artifact_size(1_000_000), Ok(()));
    assert_eq!(validate_artifact_size(500), Err(EngineError::Integrity));
}

#[test]
fn install_progress_percentages() {
    let mut installer = ArtifactInstaller::new(ArchiveKind::Tar, Some(1_000));
    let (status, _) = installer.step(InstallEvent::ChunkReceived { len: 250 });
    assert_eq!(status.unwrap().progress, Some(25));
    let (status, _) = installer.step(InstallEvent::ChunkReceived { len: 250 });
    assert_eq!(status.unwrap().progress, Some(50));
    let (status, _) = installer.step(InstallEvent::ChunkReceived { len: 2_000 });
    assert_eq!(status.unwrap().progress, Some(100));
}

#[test]
fn install_unknown_length_emits_no_progress() {
    let mut installer = ArtifactInstaller::new(ArchiveKind::Tar, None);
    let (status, action) = installer.step(InstallEvent::ChunkReceived { len: 4_096 });
    assert!(status.is_none());
    assert!(action.is_none());
}

#[test]
fn install_network_failure() {
    let mut installer = ArtifactInstaller::new(ArchiveKind::Tar, Some(10_000_000));
    let (status, action) = installer.step(InstallEvent::TransferFailed);
    assert!(status.is_none());
    assert!(action.is_none());
    assert!(matches!(
        installer.current_phase(),
        InstallPhase::Failed { error: EngineError::Network }
    ));
    let (status, action) = installer.step(InstallEvent::TransferEnded { file_size: 2_000_000 });
    assert!(status.is_none());
    assert!(action.is_none());
}

#[test]
fn install_extraction_outcomes() {
    // Nested placement asks for a relocation; a missing binary is an
    // extraction failure.
    let mut installer = ArtifactInstaller::new(ArchiveKind::Tar, None);
    installer.step(InstallEvent::TransferEnded { file_size: 70_000_000 });
    let (_, action) = installer.step(InstallEvent::ExtractFinished {
        ok: true,
        at_top: false,
        in_nested: true,
    });
    assert!(matches!(action, Some(InstallAction::RelocateThenProbe)));

    let mut failing = ArtifactInstaller::new(ArchiveKind::Tar, None);
    failing.step(InstallEvent::TransferEnded { file_size: 70_000_000 });
    let (status, action) = failing.step(InstallEvent::ExtractFinished {
        ok: true,
        at_top: false,
        in_nested: false,
    });
    assert!(status.is_none());
    assert!(action.is_none());
    assert!(matches!(
        failing.current_phase(),
        InstallPhase::Failed { error: EngineError::Extraction }
    ));
    let (_, action) = failing.step(InstallEvent::ProbeFinished { ok: true });
    assert!(action.is_none());
}

#[test]
fn extraction_placement_decisions() {
    assert_eq!(resolve_extracted(true, false), Ok(ExtractPlacement::AtCanonicalPath));
    assert_eq!(resolve_extracted(true, true), Ok(ExtractPlacement::AtCanonicalPath));
    assert_eq!(resolve_extracted(false, true), Ok(ExtractPlacement::RelocateFromNested));
    assert_eq!(resolve_extracted(false, false), Err(EngineError::Extraction));
}

#[test]
fn install_failed_probe_is_integrity_error() {
    // A large-enough artifact that fails the version probe is an
    // integrity error too: its deletion is ordered and it is never
    // promoted.
    let mut installer = ArtifactInstaller::new(ArchiveKind::Direct, None);
    let (_, action) = installer.step(InstallEvent::TransferEnded { file_size: 70_000_000 });
    assert!(matches!(action, Some(InstallAction::MarkExecutableAndProbe)));
    let (status, action) = installer.step(InstallEvent::ProbeFinished { ok: false });
    assert!(status.is_none());
    assert!(matches!(action, Some(InstallAction::DeleteArtifact)));
    assert!(matches!(
        installer.current_phase(),
        InstallPhase::Failed { error: EngineError::Integrity }
    ));
    let (status, action) = installer.step(InstallEvent::ProbeFinished { ok: true });
    assert!(status.is_none());
    assert!(action.is_none());
    assert!(matches!(installer.current_phase(), InstallPhase::Failed { .. }));
}

#[test]
fn pull_gate_requires_a_running_engine() {
    assert_eq!(openworld_core::pull::pull_gate(true), Ok(()));
    assert_eq!(
        openworld_core::pull::pull_gate(false),
        Err("AI engine is not running. Please restart the app.".to_string())
    );
}

#[test]
fn install_success_is_promoted() {
    let mut installer = ArtifactInstaller::new(ArchiveKind::Direct, None);
    installer.step(InstallEvent::TransferEnded { file_size: 70_000_000 });
    let (status, _) = installer.step(InstallEvent::ProbeFinished { ok: true });
    let status = status.unwrap();
    assert_eq!(status.stage, Stage::Downloading);
    assert_eq!(status.message, "Download complete!");
    assert_eq!(status.progress, Some(100));
    assert!(matches!(installer.current_phase(), InstallPhase::Promoted { .. }));
}

#[test]
fn stage_labels_and_error_messages() {
    assert_eq!(Stage::Checking.label(), "checking");
    assert_eq!(Stage::Downloading.label(), "downloading");
    assert_eq!(Stage::Starting.label(), "starting");
    assert_eq!(Stage::Ready.label(), "ready");
    assert_eq!(Stage::Error.label(), "error");
    assert_eq!(EngineError::PlatformUnsupported.message(), "Unsupported platform");
    assert_eq!(EngineError::Network.message(), "Download request failed");
    assert_eq!(EngineError::Integrity.message(), "Download corrupted");
    assert_eq!(EngineError::Extraction.message(), "Extraction failed");
    assert_eq!(EngineError::Start.message(), "Failed to start");
    assert_eq!(
        EngineError::Timeout.message(),
        "AI engine timed out after 30s. Please try again."
    );
}

#[test]
fn launch_failure_reports_start_error() {
    let (mut ctl, _, _) = LifecycleController::start();
    ctl.step(LifecycleEvent::ProbeFinished { ready: false });
    ctl.step(LifecycleEvent::LocateFinished { path: Some("/usr/bin/ollama".to_string()) });
    let (status, action) = ctl.step(LifecycleEvent::LaunchFinished { ok: false });
    let status = status.unwrap();
    assert_eq!(status.stage, Stage::Error);
    assert_eq!(status.message, "Failed to start");
    assert!(action.is_none());
}

#[test]
fn long_probe_timeout_reports_error() {
    let (mut ctl, _, _) = LifecycleController::start();
    ctl.step(LifecycleEvent::ProbeFinished { ready: false });
    ctl.step(LifecycleEvent::LocateFinished { path: Some("/usr/bin/ollama".to_string()) });
    ctl.step(LifecycleEvent::LaunchFinished { ok: true });
    let (status, action) = ctl.step(LifecycleEvent::ProbeFinished { ready: false });
    let status = status.unwrap();
    assert_eq!(status.stage, Stage::Error);
    assert_eq!(
        status.message,
        "AI engine timed out after 30s. Please try again."
    );
    assert!(action.is_none());
}

#[test]
fn probe_budget_semantics() {
    // A two-second budget polls four times at most.
    let mut probe = ReadinessProbe::new(2);
    assert_eq!(probe.step(false), ProbeVerdict::Retry);
    assert_eq!(probe.step(false), ProbeVerdict::Retry);
    assert_eq!(probe.step(false), ProbeVerdict::Retry);
    assert_eq!(probe.step(false), ProbeVerdict::Exhausted);

    let mut quick = ReadinessProbe::new(2);
    assert_eq!(quick.step(true), ProbeVerdict::Ready);

    let mut empty = ReadinessProbe::new(0);
    assert_eq!(empty.step(true), ProbeVerdict::Exhausted);
}

#[test]
fn supervisor_holds_at_most_one() {
    // However start and stop interleave, at most one process is held.
    let mut sup = ProcessSupervisor::new();
    assert_eq!(sup.start_action(false), StartAction::Spawn);
    sup.note_spawned(41);
    sup.note_spawned(42);
    assert_eq!(sup.stop(), Some(42));
    assert_eq!(sup.stop(), None);
    sup.note_spawned(43);
    assert_eq!(sup.start_action(true), StartAction::AlreadyRunning);
    assert_eq!(sup.stop(), Some(43));
}

#[test]
fn supervisor_start_is_idempotent_while_live() {
    // A second start while the process remains live spawns nothing.
    let mut sup = ProcessSupervisor::new();
    assert_eq!(sup.start_action(false), StartAction::Spawn);
    sup.note_spawned(7);
    assert_eq!(sup.start_action(true), StartAction::AlreadyRunning);
    // A dead held process is replaced, not kept.
    assert_eq!(sup.start_action(false), StartAction::Spawn);
}

#[test]
fn shutdown_hook_clears_the_process() {
    let mut sup = ProcessSupervisor::new();
    sup.note_spawned(9);
    assert_eq!(stop_ollama(&mut sup), Some(9));
    assert_eq!(stop_ollama(&mut sup), None);
}
