//! Lifecycle stages, error taxonomy, and the status values published to the
//! external observer while the engine is being set up.

use vstd::prelude::*;

verus! {

/// The stage of a lifecycle run, as published to the observer.
#[derive(Clone, Copy, Debug, PartialEq, Eq, Structural)]
pub enum Stage {
    Checking,
    Downloading,
    Starting,
    Ready,
    Error,
}

impl Stage {
    /// The wire label of this stage.
    pub open spec fn label_spec(self) -> Seq<char> {
        match self {
            Stage::Checking => "checking"@,
            Stage::Downloading => "downloading"@,
            Stage::Starting => "starting"@,
            Stage::Ready => "ready"@,
            Stage::Error => "error"@,
        }
    }

    /// Returns the wire label of this stage.
    pub fn label(&self) -> (r: &'static str)
        ensures
            r@ == self.label_spec(),
    {
        match self {
            Stage::Checking => "checking",
            Stage::Downloading => "downloading",
            Stage::Starting => "starting",
            Stage::Ready => "ready",
            Stage::Error => "error",
        }
    }
}

/// The fatal error taxonomy of a lifecycle run. Malformed stream lines are
/// not an error of this kind: the decoder drops them silently.
#[derive(Clone, Copy, Debug, PartialEq, Eq, Structural)]
pub enum EngineError {
    /// The running operating system / CPU architecture pair has no
    /// download source.
    PlatformUnsupported,
    /// The download or connection failed.
    Network,
    /// The downloaded artifact is below the minimum size or failed the
    /// version probe.
    Integrity,
    /// The archive tool failed, or the expected binary was missing after
    /// extraction.
    Extraction,
    /// Spawning the engine process failed.
    Start,
    /// The readiness budget was exhausted.
    Timeout,
}

impl EngineError {
    /// The human-readable message for this error.
    pub open spec fn message_spec(self) -> Seq<char> {
        match self {
            EngineError::PlatformUnsupported => "Unsupported platform"@,
            EngineError::Network => "Download request failed"@,
            EngineError::Integrity => "Download corrupted"@,
            EngineError::Extraction => "Extraction failed"@,
            EngineError::Start => "Failed to start"@,
            EngineError::Timeout => (
                "AI engine timed out after 30s. Please try again."@
            ),
        }
    }

    /// Returns the human-readable message for this error.
    pub fn message(&self) -> (r: String)
        ensures
            r@ == self.message_spec(),
    {
        match self {
            EngineError::PlatformUnsupported => "Unsupported platform".to_owned(),
            EngineError::Network => "Download request failed".to_owned(),
            EngineError::Integrity => "Download corrupted".to_owned(),
            EngineError::Start => "Failed to start".to_owned(),
            EngineError::Extraction => "Extraction failed".to_owned(),
            EngineError::Timeout => {
                "AI engine timed out after 30s. Please try again.".to_owned()
            },
        }
    }
}

/// One status event published to the external observer: the stage, a
/// human message, and an optional progress percentage.
#[derive(Debug)]
pub struct EngineStatus {
    pub stage: Stage,
    pub message: String,
    /// Download progress in whole percent, `None` when no meaningful
    /// progress fraction exists (unknown content length, or a stage
    /// without a transfer).
    pub progress: Option<u64>,
}

/// The mathematical value of an [`EngineStatus`].
pub struct EngineStatusView {
    pub stage: Stage,
    pub message: Seq<char>,
    pub progress: Option<u64>,
}

impl View for EngineStatus {
    type V = EngineStatusView;

    open spec fn view(&self) -> EngineStatusView {
        EngineStatusView { stage: self.stage, message: self.message@, progress: self.progress }
    }
}

impl DeepView for EngineStatus {
    type V = EngineStatusView;

    open spec fn deep_view(&self) -> EngineStatusView {
        self.view()
    }
}

impl EngineStatus {
    /// A status is well formed when its progress, if present, is a
    /// percentage.
    pub open spec fn wf(self) -> bool {
        self.progress matches Some(p) ==> p <= 100
    }
}

} // verus!
