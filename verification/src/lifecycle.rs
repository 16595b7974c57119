//! The lifecycle controller: one run of "make the engine ready", driven
//! as a state machine. It probes a possibly already-serving engine,
//! searches for a binary, falls back to installation, starts the engine,
//! and probes again with a longer budget; every transition publishes a
//! status to the external observer. The host performs the probes, the
//! search, the installation and the spawn, and reports each outcome as an
//! event.

use vstd::prelude::*;
use vstd::string::StringExecFns;
use crate::status::{EngineError, EngineStatus, EngineStatusView, Stage};

verus! {

/// The phase of one lifecycle run. `Ready` and `Failed` are terminal.
#[derive(Clone, Copy, Debug, PartialEq, Eq, Structural)]
pub enum LifecyclePhase {
    /// Probing with the short budget for an engine already serving.
    ProbingShort,
    /// Searching for an already-usable engine binary.
    Locating,
    /// Downloading and validating the engine artifact.
    Installing,
    /// Spawning the engine process.
    Launching,
    /// Probing with the long budget after a fresh spawn.
    ProbingLong,
    /// The engine answered: the run succeeded.
    Ready,
    /// The run failed; the error was published.
    Failed,
}

/// One outcome the host reports to the controller.
#[derive(Debug)]
pub enum LifecycleEvent {
    /// The running probe finished; `ready` reports whether the engine
    /// answered within the budget.
    ProbeFinished { ready: bool },
    /// The binary search finished, with the found path if any.
    LocateFinished { path: Option<String> },
    /// The installation finished, with the installed binary's path or the
    /// installer's error.
    InstallFinished { outcome: Result<String, EngineError> },
    /// The spawn finished; `ok` reports success.
    LaunchFinished { ok: bool },
}

/// The mathematical value of a [`LifecycleEvent`].
pub enum LifecycleEventView {
    ProbeFinished { ready: bool },
    LocateFinished { path: Option<Seq<char>> },
    InstallFinished { outcome: Result<Seq<char>, EngineError> },
    LaunchFinished { ok: bool },
}

impl View for LifecycleEvent {
    type V = LifecycleEventView;

    open spec fn view(&self) -> LifecycleEventView {
        match self {
            LifecycleEvent::ProbeFinished { ready } => LifecycleEventView::ProbeFinished {
                ready: *ready,
            },
            LifecycleEvent::LocateFinished { path } => LifecycleEventView::LocateFinished {
                path: path.deep_view(),
            },
            LifecycleEvent::InstallFinished { outcome } => LifecycleEventView::InstallFinished {
                outcome: match outcome {
                    Ok(p) => Ok(p@),
                    Err(e) => Err(*e),
                },
            },
            LifecycleEvent::LaunchFinished { ok } => LifecycleEventView::LaunchFinished {
                ok: *ok,
            },
        }
    }
}

/// What the host must do next.
#[derive(Debug)]
pub enum LifecycleAction {
    /// Probe the health endpoint with the short budget.
    RunShortProbe,
    /// Search for an already-usable engine binary.
    RunLocator,
    /// Download and validate the engine artifact.
    RunInstaller,
    /// Spawn the engine's serve mode from the given binary path.
    Launch { path: String },
    /// Probe the health endpoint with the long budget.
    RunLongProbe,
}

/// The mathematical value of a [`LifecycleAction`].
pub enum LifecycleActionView {
    RunShortProbe,
    RunLocator,
    RunInstaller,
    Launch { path: Seq<char> },
    RunLongProbe,
}

impl View for LifecycleAction {
    type V = LifecycleActionView;

    open spec fn view(&self) -> LifecycleActionView {
        match self {
            LifecycleAction::RunShortProbe => LifecycleActionView::RunShortProbe,
            LifecycleAction::RunLocator => LifecycleActionView::RunLocator,
            LifecycleAction::RunInstaller => LifecycleActionView::RunInstaller,
            LifecycleAction::Launch { path } => LifecycleActionView::Launch { path: path@ },
            LifecycleAction::RunLongProbe => LifecycleActionView::RunLongProbe,
        }
    }
}

impl DeepView for LifecycleAction {
    type V = LifecycleActionView;

    open spec fn deep_view(&self) -> LifecycleActionView {
        self.view()
    }
}

/// The phase after one reported event. An event that does not belong to
/// the current phase changes nothing; terminal phases never change.
pub open spec fn lifecycle_next(p: LifecyclePhase, ev: LifecycleEventView) -> LifecyclePhase {
    match p {
        LifecyclePhase::ProbingShort => match ev {
            LifecycleEventView::ProbeFinished { ready } => if ready {
                LifecyclePhase::Ready
            } else {
                LifecyclePhase::Locating
            },
            _ => p,
        },
        LifecyclePhase::Locating => match ev {
            LifecycleEventView::LocateFinished { path } => if path is Some {
                LifecyclePhase::Launching
            } else {
                LifecyclePhase::Installing
            },
            _ => p,
        },
        LifecyclePhase::Installing => match ev {
            LifecycleEventView::InstallFinished { outcome } => if outcome is Ok {
                LifecyclePhase::Launching
            } else {
                LifecyclePhase::Failed
            },
            _ => p,
        },
        LifecyclePhase::Launching => match ev {
            LifecycleEventView::LaunchFinished { ok } => if ok {
                LifecyclePhase::ProbingLong
            } else {
                LifecyclePhase::Failed
            },
            _ => p,
        },
        LifecyclePhase::ProbingLong => match ev {
            LifecycleEventView::ProbeFinished { ready } => if ready {
                LifecyclePhase::Ready
            } else {
                LifecyclePhase::Failed
            },
            _ => p,
        },
        _ => p,
    }
}

/// The status published for one reported event, if any. Every failure is
/// published as an error status carrying the error's message; the statuses
/// of the transfer itself come from the installer.
pub open spec fn lifecycle_emit(p: LifecyclePhase, ev: LifecycleEventView) -> Option<
    EngineStatusView,
> {
    match p {
        LifecyclePhase::ProbingShort => match ev {
            LifecycleEventView::ProbeFinished { ready } => if ready {
                Some(
                    EngineStatusView {
                        stage: Stage::Ready,
                        message: "AI engine ready!"@,
                        progress: None,
                    },
                )
            } else {
                None
            },
            _ => None,
        },
        LifecyclePhase::Locating => match ev {
            LifecycleEventView::LocateFinished { path } => if path is Some {
                Some(
                    EngineStatusView {
                        stage: Stage::Starting,
                        message: "Found AI engine, starting..."@,
                        progress: None,
                    },
                )
            } else {
                Some(
                    EngineStatusView {
                        stage: Stage::Downloading,
                        message: "Downloading AI engine..."@,
                        progress: Some(0),
                    },
                )
            },
            _ => None,
        },
        LifecyclePhase::Installing => match ev {
            LifecycleEventView::InstallFinished { outcome } => match outcome {
                Ok(path) => Some(
                    EngineStatusView {
                        stage: Stage::Starting,
                        message: "Starting AI engine..."@,
                        progress: None,
                    },
                ),
                Err(e) => Some(
                    EngineStatusView {
                        stage: Stage::Error,
                        message: e.message_spec(),
                        progress: None,
                    },
                ),
            },
            _ => None,
        },
        LifecyclePhase::Launching => match ev {
            LifecycleEventView::LaunchFinished { ok } => if ok {
                None
            } else {
                Some(
                    EngineStatusView {
                        stage: Stage::Error,
                        message: EngineError::Start.message_spec(),
                        progress: None,
                    },
                )
            },
            _ => None,
        },
        LifecyclePhase::ProbingLong => match ev {
            LifecycleEventView::ProbeFinished { ready } => if ready {
                Some(
                    EngineStatusView {
                        stage: Stage::Ready,
                        message: "AI engine ready!"@,
                        progress: None,
                    },
                )
            } else {
                Some(
                    EngineStatusView {
                        stage: Stage::Error,
                        message: EngineError::Timeout.message_spec(),
                        progress: None,
                    },
                )
            },
            _ => None,
        },
        _ => None,
    }
}

/// The host work one reported event orders, if any.
pub open spec fn lifecycle_action(p: LifecyclePhase, ev: LifecycleEventView) -> Option<
    LifecycleActionView,
> {
    match p {
        LifecyclePhase::ProbingShort => match ev {
            LifecycleEventView::ProbeFinished { ready } => if ready {
                None
            } else {
                Some(LifecycleActionView::RunLocator)
            },
            _ => None,
        },
        LifecyclePhase::Locating => match ev {
            LifecycleEventView::LocateFinished { path } => match path {
                Some(p) => Some(LifecycleActionView::Launch { path: p }),
                None => Some(LifecycleActionView::RunInstaller),
            },
            _ => None,
        },
        LifecyclePhase::Installing => match ev {
            LifecycleEventView::InstallFinished { outcome } => match outcome {
                Ok(p) => Some(LifecycleActionView::Launch { path: p }),
                Err(e) => None,
            },
            _ => None,
        },
        LifecyclePhase::Launching => match ev {
            LifecycleEventView::LaunchFinished { ok } => if ok {
                Some(LifecycleActionView::RunLongProbe)
            } else {
                None
            },
            _ => None,
        },
        _ => None,
    }
}

/// `Ready` and `Failed` are terminal for a single run: no event moves the
/// controller out of them, publishes anything, or orders any work.
pub proof fn lemma_terminal(p: LifecyclePhase, ev: LifecycleEventView)
    requires
        p is Ready || p is Failed,
    ensures
        lifecycle_next(p, ev) == p,
        lifecycle_emit(p, ev) is None,
        lifecycle_action(p, ev) is None,
{
}

/// A launch is ordered only for a binary that the search found or the
/// installer produced and validated: on any other transition no launch is
/// ordered, so a failed installation never starts a process.
pub proof fn lemma_launch_needs_binary(p: LifecyclePhase, ev: LifecycleEventView)
    ensures
        (lifecycle_action(p, ev) matches Some(a) && a is Launch) ==> ({
            ||| (p is Locating && (ev matches LifecycleEventView::LocateFinished { path }
                && path is Some))
            ||| (p is Installing && (ev matches LifecycleEventView::InstallFinished { outcome }
                && outcome is Ok))
        }),
{
}

/// Drives one lifecycle run. Created in the checking phase; the host
/// performs each ordered action and reports its outcome back through
/// [`LifecycleController::step`].
pub struct LifecycleController {
    phase: LifecyclePhase,
}

impl LifecycleController {
    /// The current phase.
    pub closed spec fn phase(self) -> LifecyclePhase {
        self.phase
    }

    /// Reads the current phase.
    pub fn current_phase(&self) -> (r: LifecyclePhase)
        ensures
            r == self.phase(),
    {
        self.phase
    }

    /// Begins a run: the controller enters the checking phase, publishes
    /// the checking status, and orders the short probe.
    pub fn start() -> (r: (Self, EngineStatus, LifecycleAction))
        ensures
            r.0.phase() == LifecyclePhase::ProbingShort,
            r.1@ == (EngineStatusView {
                stage: Stage::Checking,
                message: "Checking AI engine..."@,
                progress: None,
            }),
            r.1.wf(),
            r.2@ is RunShortProbe,
    {
        let status = EngineStatus {
            stage: Stage::Checking,
            message: String::from_str("Checking AI engine..."),
            progress: None,
        };
        (
            LifecycleController { phase: LifecyclePhase::ProbingShort },
            status,
            LifecycleAction::RunShortProbe,
        )
    }

    /// Consumes one reported outcome: moves to the next phase and returns
    /// the status to publish and the work to do, exactly as
    /// [`lifecycle_next`], [`lifecycle_emit`] and [`lifecycle_action`]
    /// say.
    pub fn step(&mut self, ev: LifecycleEvent) -> (r: (
        Option<EngineStatus>,
        Option<LifecycleAction>,
    ))
        ensures
            final(self).phase() == lifecycle_next(old(self).phase(), ev@),
            r.0.deep_view() == lifecycle_emit(old(self).phase(), ev@),
            r.1.deep_view() == lifecycle_action(old(self).phase(), ev@),
            r.0 matches Some(st) ==> st.wf(),
    {
        match self.phase {
            LifecyclePhase::ProbingShort => match ev {
                LifecycleEvent::ProbeFinished { ready } => {
                    if ready {
                        self.phase = LifecyclePhase::Ready;
                        (Some(Self::ready_status()), None)
                    } else {
                        self.phase = LifecyclePhase::Locating;
                        (None, Some(LifecycleAction::RunLocator))
                    }
                },
                _ => (None, None),
            },
            LifecyclePhase::Locating => match ev {
                LifecycleEvent::LocateFinished { path } => match path {
                    Option::Some(p) => {
                        self.phase = LifecyclePhase::Launching;
                        let status = EngineStatus {
                            stage: Stage::Starting,
                            message: String::from_str("Found AI engine, starting..."),
                            progress: None,
                        };
                        (Some(status), Some(LifecycleAction::Launch { path: p }))
                    },
                    Option::None => {
                        self.phase = LifecyclePhase::Installing;
                        let status = EngineStatus {
                            stage: Stage::Downloading,
                            message: String::from_str("Downloading AI engine..."),
                            progress: Some(0),
                        };
                        (Some(status), Some(LifecycleAction::RunInstaller))
                    },
                },
                _ => (None, None),
            },
            LifecyclePhase::Installing => match ev {
                LifecycleEvent::InstallFinished { outcome } => match outcome {
                    Ok(p) => {
                        self.phase = LifecyclePhase::Launching;
                        let status = EngineStatus {
                            stage: Stage::Starting,
                            message: String::from_str("Starting AI engine..."),
                            progress: None,
                        };
                        (Some(status), Some(LifecycleAction::Launch { path: p }))
                    },
                    Err(e) => {
                        self.phase = LifecyclePhase::Failed;
                        let status = EngineStatus {
                            stage: Stage::Error,
                            message: e.message(),
                            progress: None,
                        };
                        (Some(status), None)
                    },
                },
                _ => (None, None),
            },
            LifecyclePhase::Launching => match ev {
                LifecycleEvent::LaunchFinished { ok } => {
                    if ok {
                        self.phase = LifecyclePhase::ProbingLong;
                        (None, Some(LifecycleAction::RunLongProbe))
                    } else {
                        self.phase = LifecyclePhase::Failed;
                        let status = EngineStatus {
                            stage: Stage::Error,
                            message: EngineError::Start.message(),
                            progress: None,
                        };
                        (Some(status), None)
                    }
                },
                _ => (None, None),
            },
            LifecyclePhase::ProbingLong => match ev {
                LifecycleEvent::ProbeFinished { ready } => {
                    if ready {
                        self.phase = LifecyclePhase::Ready;
                        (Some(Self::ready_status()), None)
                    } else {
                        self.phase = LifecyclePhase::Failed;
                        let status = EngineStatus {
                            stage: Stage::Error,
                            message: EngineError::Timeout.message(),
                            progress: None,
                        };
                        (Some(status), None)
                    }
                },
                _ => (None, None),
            },
            _ => (None, None),
        }
    }

    /// The status published when the engine answers.
    fn ready_status() -> (r: EngineStatus)
        ensures
            r@ == (EngineStatusView {
                stage: Stage::Ready,
                message: "AI engine ready!"@,
                progress: None,
            }),
    {
        EngineStatus {
            stage: Stage::Ready,
            message: String::from_str("AI engine ready!"),
            progress: None,
        }
    }
}

} // verus!
