//! Installation of a downloaded engine artifact: progress accounting
//! during the transfer, the minimum-size integrity gate, extraction
//! placement, and the version probe, driven as a state machine. The host
//! performs the transfer, file operations and tool invocations, and
//! reports each outcome as an event; every decision is made here.

use vstd::prelude::*;
use vstd::string::StringExecFns;
use crate::platform::ArchiveKind;
use crate::status::{EngineError, EngineStatus, EngineStatusView, Stage};

verus! {

/// The smallest credible size of a real engine artifact: anything smaller
/// is an error page or a truncated transfer, never promoted.
pub const MIN_ARTIFACT_BYTES: u64 = 1_000_000;

/// Accepts an artifact size at or above the minimum; rejects anything
/// smaller as an integrity failure.
pub open spec fn size_gate(size: u64) -> Result<(), EngineError> {
    if size >= MIN_ARTIFACT_BYTES {
        Ok(())
    } else {
        Err(EngineError::Integrity)
    }
}

/// Validates a downloaded artifact's size against the minimum credible
/// size.
pub fn validate_artifact_size(size: u64) -> (r: Result<(), EngineError>)
    ensures
        r == size_gate(size),
{
    if size >= MIN_ARTIFACT_BYTES {
        Ok(())
    } else {
        Err(EngineError::Integrity)
    }
}

/// The transfer's progress in whole percent, capped at one hundred.
pub open spec fn percent_spec(downloaded: u64, total: u64) -> u64 {
    if downloaded >= total {
        100
    } else {
        ((downloaded as int) * 100 / (total as int)) as u64
    }
}

/// Computes the transfer's progress in whole percent.
pub fn progress_percent(downloaded: u64, total: u64) -> (r: u64)
    requires
        total > 0,
    ensures
        r == percent_spec(downloaded, total),
        r <= 100,
{
    if downloaded >= total {
        100
    } else {
        let wide: u128 = (downloaded as u128) * 100 / (total as u128);
        proof {
            assert((downloaded as int) * 100 / (total as int) < 100) by (nonlinear_arith)
                requires
                    0 < total,
                    downloaded < total,
            ;
            assert(wide == (downloaded as int) * 100 / (total as int));
        }
        wide as u64
    }
}

/// Where the expected executable must come from after extraction.
#[derive(Clone, Copy, Debug, PartialEq, Eq, Structural)]
pub enum ExtractPlacement {
    /// The archive put the binary at the canonical path; nothing to move.
    AtCanonicalPath,
    /// The binary sits in a nested subdirectory and must be relocated to
    /// the canonical path, removing the subdirectory.
    RelocateFromNested,
}

/// Decides where the expected executable ended up after extraction:
/// `at_top` reports it at the canonical path, `in_nested` inside the
/// nested subdirectory. Neither is an extraction failure.
pub fn resolve_extracted(at_top: bool, in_nested: bool) -> (r: Result<
    ExtractPlacement,
    EngineError,
>)
    ensures
        r == placement_spec(at_top, in_nested),
{
    if at_top {
        Ok(ExtractPlacement::AtCanonicalPath)
    } else if in_nested {
        Ok(ExtractPlacement::RelocateFromNested)
    } else {
        Err(EngineError::Extraction)
    }
}

/// The placement decision for the two existence probes after extraction.
pub open spec fn placement_spec(at_top: bool, in_nested: bool) -> Result<
    ExtractPlacement,
    EngineError,
> {
    if at_top {
        Ok(ExtractPlacement::AtCanonicalPath)
    } else if in_nested {
        Ok(ExtractPlacement::RelocateFromNested)
    } else {
        Err(EngineError::Extraction)
    }
}

/// The phase of one artifact installation.
#[derive(Clone, Copy, Debug)]
pub enum InstallPhase {
    /// The transfer is running: bytes received so far, and the declared
    /// content length if the server gave one.
    Fetching { downloaded: u64, total: Option<u64> },
    /// The transfer ended at a credible size; the archive is being
    /// extracted.
    Extracting { size: u64 },
    /// The artifact sits at the canonical path; the version probe is
    /// running.
    Probing { size: u64 },
    /// The artifact passed the size gate and the version probe: it is the
    /// launchable binary.
    Promoted { size: u64 },
    /// The installation failed; the artifact is never promoted.
    Failed { error: EngineError },
}

/// One outcome the host reports while installing.
#[derive(Clone, Copy, Debug)]
pub enum InstallEvent {
    /// A chunk of `len` bytes arrived and was written to the artifact
    /// file.
    ChunkReceived { len: u64 },
    /// The transfer failed (connection or write error).
    TransferFailed,
    /// The transfer ended; the artifact file measures `file_size` bytes on
    /// disk.
    TransferEnded { file_size: u64 },
    /// The extraction tool finished; `ok` is its exit status, `at_top` and
    /// `in_nested` report where the expected executable was found.
    ExtractFinished { ok: bool, at_top: bool, in_nested: bool },
    /// The version probe finished; `ok` reports whether the artifact
    /// executed successfully.
    ProbeFinished { ok: bool },
}

/// What the host must do next.
#[derive(Clone, Copy, Debug, PartialEq, Eq, Structural)]
pub enum InstallAction {
    /// Delete the rejected artifact file.
    DeleteArtifact,
    /// Run the external extraction tool on the archive, then report where
    /// the executable ended up.
    RunExtraction,
    /// Move the nested binary to the canonical path, remove the
    /// subdirectory, set the executable permission, and run the version
    /// probe.
    RelocateThenProbe,
    /// Set the executable permission and run the version probe.
    MarkExecutableAndProbe,
}

/// `a + b`, saturating at the largest representable count.
pub open spec fn sat_add(a: u64, b: u64) -> u64 {
    if a + b <= u64::MAX {
        (a + b) as u64
    } else {
        u64::MAX
    }
}

/// The phase after one reported event. Any event that does not belong to
/// the current phase changes nothing.
pub open spec fn apply_install(archive: ArchiveKind, p: InstallPhase, ev: InstallEvent)
    -> InstallPhase {
    match p {
        InstallPhase::Fetching { downloaded, total } => match ev {
            InstallEvent::ChunkReceived { len } => InstallPhase::Fetching {
                downloaded: sat_add(downloaded, len),
                total,
            },
            InstallEvent::TransferFailed => InstallPhase::Failed { error: EngineError::Network },
            InstallEvent::TransferEnded { file_size } => {
                if file_size < MIN_ARTIFACT_BYTES {
                    InstallPhase::Failed { error: EngineError::Integrity }
                } else if archive is Direct {
                    InstallPhase::Probing { size: file_size }
                } else {
                    InstallPhase::Extracting { size: file_size }
                }
            },
            _ => p,
        },
        InstallPhase::Extracting { size } => match ev {
            InstallEvent::ExtractFinished { ok, at_top, in_nested } => {
                if !ok {
                    InstallPhase::Failed { error: EngineError::Extraction }
                } else if at_top || in_nested {
                    InstallPhase::Probing { size }
                } else {
                    InstallPhase::Failed { error: EngineError::Extraction }
                }
            },
            _ => p,
        },
        InstallPhase::Probing { size } => match ev {
            InstallEvent::ProbeFinished { ok } => {
                if ok {
                    InstallPhase::Promoted { size }
                } else {
                    InstallPhase::Failed { error: EngineError::Integrity }
                }
            },
            _ => p,
        },
        _ => p,
    }
}

/// The status published for one reported event, if any: per-chunk progress
/// while the content length is known, the extraction notice, and the
/// completion notice on promotion.
pub open spec fn install_emit(archive: ArchiveKind, p: InstallPhase, ev: InstallEvent) -> Option<
    EngineStatusView,
> {
    match p {
        InstallPhase::Fetching { downloaded, total } => match ev {
            InstallEvent::ChunkReceived { len } => match total {
                Some(t) => if t > 0 {
                    Some(
                        EngineStatusView {
                            stage: Stage::Downloading,
                            message: "Downloading AI engine..."@,
                            progress: Some(percent_spec(sat_add(downloaded, len), t)),
                        },
                    )
                } else {
                    None
                },
                None => None,
            },
            InstallEvent::TransferEnded { file_size } => {
                if file_size >= MIN_ARTIFACT_BYTES && !(archive is Direct) {
                    Some(
                        EngineStatusView {
                            stage: Stage::Downloading,
                            message: "Extracting AI engine..."@,
                            progress: Some(95),
                        },
                    )
                } else {
                    None
                }
            },
            _ => None,
        },
        InstallPhase::Probing { size } => match ev {
            InstallEvent::ProbeFinished { ok } => {
                if ok {
                    Some(
                        EngineStatusView {
                            stage: Stage::Downloading,
                            message: "Download complete!"@,
                            progress: Some(100),
                        },
                    )
                } else {
                    None
                }
            },
            _ => None,
        },
        _ => None,
    }
}

/// The host work one reported event orders, if any.
pub open spec fn install_action(archive: ArchiveKind, p: InstallPhase, ev: InstallEvent) -> Option<
    InstallAction,
> {
    match p {
        InstallPhase::Fetching { downloaded, total } => match ev {
            InstallEvent::TransferEnded { file_size } => {
                if file_size < MIN_ARTIFACT_BYTES {
                    Some(InstallAction::DeleteArtifact)
                } else if archive is Direct {
                    Some(InstallAction::MarkExecutableAndProbe)
                } else {
                    Some(InstallAction::RunExtraction)
                }
            },
            _ => None,
        },
        InstallPhase::Extracting { size } => match ev {
            InstallEvent::ExtractFinished { ok, at_top, in_nested } => {
                if !ok {
                    None
                } else if at_top {
                    Some(InstallAction::MarkExecutableAndProbe)
                } else if in_nested {
                    Some(InstallAction::RelocateThenProbe)
                } else {
                    None
                }
            },
            _ => None,
        },
        InstallPhase::Probing { size } => match ev {
            InstallEvent::ProbeFinished { ok } => {
                if ok {
                    None
                } else {
                    Some(InstallAction::DeleteArtifact)
                }
            },
            _ => None,
        },
        _ => None,
    }
}

/// The phase after a whole sequence of reported events.
pub open spec fn run_install(archive: ArchiveKind, p: InstallPhase, evs: Seq<InstallEvent>)
    -> InstallPhase
    decreases evs.len(),
{
    if evs.len() == 0 {
        p
    } else {
        run_install(archive, apply_install(archive, p, evs[0]), evs.drop_first())
    }
}

/// Every phase that carries a verified size carries one at or above the
/// minimum.
pub open spec fn phase_wf(p: InstallPhase) -> bool {
    match p {
        InstallPhase::Extracting { size } => size >= MIN_ARTIFACT_BYTES,
        InstallPhase::Probing { size } => size >= MIN_ARTIFACT_BYTES,
        InstallPhase::Promoted { size } => size >= MIN_ARTIFACT_BYTES,
        _ => true,
    }
}

/// One reported event preserves phase well-formedness.
pub proof fn lemma_install_step_wf(archive: ArchiveKind, p: InstallPhase, ev: InstallEvent)
    requires
        phase_wf(p),
    ensures
        phase_wf(apply_install(archive, p, ev)),
{
}

/// Integrity gate: whatever events the host reports, an installation
/// stands promoted only at a size at or above the minimum. A failed check
/// of either kind — an undersized transfer, or a failed version probe —
/// moves the machine to `Failed` and orders the artifact deleted (see
/// [`install_action`]); it is never promoted.
pub proof fn lemma_integrity_gate(archive: ArchiveKind, p: InstallPhase, evs: Seq<InstallEvent>)
    requires
        phase_wf(p),
    ensures
        phase_wf(run_install(archive, p, evs)),
        run_install(archive, p, evs) matches InstallPhase::Promoted { size } ==> size
            >= MIN_ARTIFACT_BYTES,
    decreases evs.len(),
{
    if evs.len() > 0 {
        lemma_install_step_wf(archive, p, evs[0]);
        lemma_integrity_gate(archive, apply_install(archive, p, evs[0]), evs.drop_first());
    }
}

/// Installs one downloaded artifact: receives the host's transfer,
/// extraction and probe outcomes as events, decides every step, and tells
/// the host what to publish and do.
pub struct ArtifactInstaller {
    archive: ArchiveKind,
    phase: InstallPhase,
}

impl ArtifactInstaller {
    /// The archive kind of the source being installed.
    pub closed spec fn archive(self) -> ArchiveKind {
        self.archive
    }

    /// The current phase.
    pub closed spec fn phase(self) -> InstallPhase {
        self.phase
    }

    /// Begins an installation from a source of the given archive kind,
    /// with the content length the server declared, if any.
    pub fn new(archive: ArchiveKind, content_length: Option<u64>) -> (r: Self)
        ensures
            r.archive() == archive,
            r.phase() == (InstallPhase::Fetching { downloaded: 0u64, total: content_length }),
            phase_wf(r.phase()),
    {
        ArtifactInstaller {
            archive,
            phase: InstallPhase::Fetching { downloaded: 0, total: content_length },
        }
    }

    /// Reads the current phase.
    pub fn current_phase(&self) -> (r: InstallPhase)
        ensures
            r == self.phase(),
    {
        self.phase
    }

    /// Consumes one reported event: moves to the next phase and returns
    /// the status to publish and the work to do, exactly as
    /// [`apply_install`], [`install_emit`] and [`install_action`] say.
    pub fn step(&mut self, ev: InstallEvent) -> (r: (Option<EngineStatus>, Option<InstallAction>))
        requires
            phase_wf(old(self).phase()),
        ensures
            final(self).archive() == old(self).archive(),
            final(self).phase() == apply_install(old(self).archive(), old(self).phase(), ev),
            phase_wf(final(self).phase()),
            r.0.deep_view() == install_emit(old(self).archive(), old(self).phase(), ev),
            r.1 == install_action(old(self).archive(), old(self).phase(), ev),
            r.0 matches Some(st) ==> st.wf(),
    {
        match self.phase {
            InstallPhase::Fetching { downloaded, total } => match ev {
                InstallEvent::ChunkReceived { len } => {
                    let received = if len <= u64::MAX - downloaded {
                        downloaded + len
                    } else {
                        u64::MAX
                    };
                    self.phase = InstallPhase::Fetching { downloaded: received, total };
                    let status = match total {
                        Option::Some(t) => {
                            if t > 0 {
                                Some(
                                    EngineStatus {
                                        stage: Stage::Downloading,
                                        message: String::from_str("Downloading AI engine..."),
                                        progress: Some(progress_percent(received, t)),
                                    },
                                )
                            } else {
                                None
                            }
                        },
                        Option::None => None,
                    };
                    (status, None)
                },
                InstallEvent::TransferFailed => {
                    self.phase = InstallPhase::Failed { error: EngineError::Network };
                    (None, None)
                },
                InstallEvent::TransferEnded { file_size } => {
                    if file_size < MIN_ARTIFACT_BYTES {
                        self.phase = InstallPhase::Failed { error: EngineError::Integrity };
                        (None, Some(InstallAction::DeleteArtifact))
                    } else {
                        match self.archive {
                            ArchiveKind::Direct => {
                                self.phase = InstallPhase::Probing { size: file_size };
                                (None, Some(InstallAction::MarkExecutableAndProbe))
                            },
                            _ => {
                                self.phase = InstallPhase::Extracting { size: file_size };
                                let status = EngineStatus {
                                    stage: Stage::Downloading,
                                    message: String::from_str("Extracting AI engine..."),
                                    progress: Some(95),
                                };
                                (Some(status), Some(InstallAction::RunExtraction))
                            },
                        }
                    }
                },
                _ => (None, None),
            },
            InstallPhase::Extracting { size } => match ev {
                InstallEvent::ExtractFinished { ok, at_top, in_nested } => {
                    if !ok {
                        self.phase = InstallPhase::Failed { error: EngineError::Extraction };
                        (None, None)
                    } else if at_top {
                        self.phase = InstallPhase::Probing { size };
                        (None, Some(InstallAction::MarkExecutableAndProbe))
                    } else if in_nested {
                        self.phase = InstallPhase::Probing { size };
                        (None, Some(InstallAction::RelocateThenProbe))
                    } else {
                        self.phase = InstallPhase::Failed { error: EngineError::Extraction };
                        (None, None)
                    }
                },
                _ => (None, None),
            },
            InstallPhase::Probing { size } => match ev {
                InstallEvent::ProbeFinished { ok } => {
                    if ok {
                        self.phase = InstallPhase::Promoted { size };
                        let status = EngineStatus {
                            stage: Stage::Downloading,
                            message: String::from_str("Download complete!"),
                            progress: Some(100),
                        };
                        (Some(status), None)
                    } else {
                        self.phase = InstallPhase::Failed { error: EngineError::Integrity };
                        (None, Some(InstallAction::DeleteArtifact))
                    }
                },
                _ => (None, None),
            },
            _ => (None, None),
        }
    }
}

} // verus!
