//! Bringing a session up: finding or installing the backend, spawning it,
//! and the initialize handshake.
//!
//! The sequencer is a state machine. The program performs the action it is
//! given (probe, install, spawn, send) and reports what happened as an event;
//! `Bootstrap::advance` decides what comes next.

use vstd::prelude::*;
use vstd::string::*;
use crate::project::{Project, file_url_text, opt_view, texts};

verus! {

/// Where the start-up sequence stands.
#[derive(Clone, Copy, PartialEq, Eq, Structural, Debug)]
pub enum BootPhase {
    /// Looking for the backend executable.
    ProbingBackend,
    /// The backend is absent; looking for the installer.
    ProbingInstaller,
    /// The installer is adding the backend.
    Installing,
    /// Launching the backend in the project root.
    Spawning,
    /// The `initialize` request is out.
    Initializing,
    /// The `initialized` notification is being sent.
    Notifying,
    /// The readiness signal is being connected.
    Wiring,
    /// The session can be used.
    Ready,
    /// Start-up failed; no session exists.
    Failed,
}

/// How the installer's run ended.
pub enum InstallOutcome {
    Installed,
    ExitedNonZero { stderr: String },
    CouldNotRun { cause: String },
}

/// How the launch of the backend ended.
pub enum SpawnOutcome {
    Started,
    Refused { cause: String },
    NoStdout,
    NoStdin,
}

/// What the program reports back to the sequencer.
pub enum BootEvent {
    /// The probe for the backend has run to its end, or could not be started.
    BackendProbed { found: bool },
    /// The probe for the installer has run to its end, or could not be
    /// started.
    InstallerProbed { found: bool },
    InstallFinished(InstallOutcome),
    BackendSpawned(SpawnOutcome),
    InitializeReplied(Result<(), String>),
    InitializedSent(Result<(), String>),
    ReadinessWired,
}

/// Why start-up failed.
#[derive(Debug)]
pub enum BootstrapError {
    /// Neither the backend nor its installer is present.
    BackendUnavailable,
    /// The installer was found but did not add the backend: it ran and
    /// failed, with `detail` what it wrote to its error stream; or it could
    /// not be run, with `detail` the reason.
    InstallFailed { ran: bool, detail: String },
    /// The backend could not be launched, or was launched without one of
    /// its pipes.
    SpawnFailed { launched: bool, cause: String },
    /// The initialize handshake did not complete.
    HandshakeFailed { cause: String },
}

pub enum BootstrapErrorView {
    BackendUnavailable,
    InstallFailed { ran: bool, detail: Seq<char> },
    SpawnFailed { launched: bool, cause: Seq<char> },
    HandshakeFailed { cause: Seq<char> },
}

impl View for BootstrapError {
    type V = BootstrapErrorView;

    open spec fn view(&self) -> BootstrapErrorView {
        match *self {
            BootstrapError::BackendUnavailable => BootstrapErrorView::BackendUnavailable,
            BootstrapError::InstallFailed { ran, detail } => BootstrapErrorView::InstallFailed {
                ran,
                detail: detail@,
            },
            BootstrapError::SpawnFailed { launched, cause } => BootstrapErrorView::SpawnFailed {
                launched,
                cause: cause@,
            },
            BootstrapError::HandshakeFailed { cause } => BootstrapErrorView::HandshakeFailed {
                cause: cause@,
            },
        }
    }
}

impl BootstrapErrorView {
    /// The remediation text shown for the error.
    pub open spec fn message(self) -> Seq<char> {
        match self {
            BootstrapErrorView::BackendUnavailable =>
                "rust-analyzer not found. Please install rustup and run 'rustup component add rust-analyzer', or install rust-analyzer manually."@,
            BootstrapErrorView::InstallFailed { ran, detail } => if ran {
                "Failed to install rust-analyzer automatically: "@ + detail
                    + ". Please install it manually with 'rustup component add rust-analyzer'"@
            } else {
                "Failed to run rustup to install rust-analyzer: "@ + detail
                    + ". Please install it manually."@
            },
            BootstrapErrorView::SpawnFailed { launched, cause } => if launched {
                cause
            } else {
                "Failed to run rust-analyzer: "@ + cause
                    + ". Please make sure rust-analyzer is installed and available in your PATH."@
            },
            BootstrapErrorView::HandshakeFailed { cause } => cause,
        }
    }
}

impl BootstrapError {
    /// The remediation text shown for the error.
    pub fn message(&self) -> (r: String)
        ensures
            r@ == self@.message(),
    {
        match self {
            BootstrapError::BackendUnavailable => String::from_str(
                "rust-analyzer not found. Please install rustup and run 'rustup component add rust-analyzer', or install rust-analyzer manually.",
            ),
            BootstrapError::InstallFailed { ran, detail } => {
                if *ran {
                    String::from_str("Failed to install rust-analyzer automatically: ").concat(
                        detail.as_str(),
                    ).concat(
                        ". Please install it manually with 'rustup component add rust-analyzer'",
                    )
                } else {
                    String::from_str("Failed to run rustup to install rust-analyzer: ").concat(
                        detail.as_str(),
                    ).concat(". Please install it manually.")
                }
            },
            BootstrapError::SpawnFailed { launched, cause } => {
                if *launched {
                    cause.clone()
                } else {
                    String::from_str("Failed to run rust-analyzer: ").concat(
                        cause.as_str(),
                    ).concat(
                        ". Please make sure rust-analyzer is installed and available in your PATH.",
                    )
                }
            },
            BootstrapError::HandshakeFailed { cause } => cause.clone(),
        }
    }
}

/// What becomes of one of the three standard streams of a process.
#[derive(Clone, Copy, PartialEq, Eq, Structural, Debug)]
pub enum Stream {
    /// The process shares the stream of the program that starts it.
    Inherited,
    /// The stream is a pipe to the program that starts it.
    Piped,
    /// The stream leads nowhere.
    Discarded,
}

/// A process to start: the program, its arguments, where it runs and what
/// becomes of its streams.
#[derive(Debug)]
pub struct Launch {
    pub program: String,
    pub args: Vec<String>,
    pub working_dir: Option<String>,
    pub stdin: Stream,
    pub stdout: Stream,
    pub stderr: Stream,
    /// Whether the process is run to its end before the step that starts it
    /// is reported. A process that is not goes on living after the step.
    pub run_to_end: bool,
}

pub struct LaunchView {
    pub program: Seq<char>,
    pub args: Seq<Seq<char>>,
    pub working_dir: Option<Seq<char>>,
    pub stdin: Stream,
    pub stdout: Stream,
    pub stderr: Stream,
    pub run_to_end: bool,
}

impl View for Launch {
    type V = LaunchView;

    open spec fn view(&self) -> LaunchView {
        LaunchView {
            program: self.program@,
            args: texts(self.args@),
            working_dir: opt_view(self.working_dir),
            stdin: self.stdin,
            stdout: self.stdout,
            stderr: self.stderr,
            run_to_end: self.run_to_end,
        }
    }
}

/// The probe for the backend: `rust-analyzer --version`, cut off from every
/// stream and run to its end, so that nothing of it is left when the probe
/// is answered.
pub open spec fn backend_probe() -> LaunchView {
    LaunchView {
        program: "rust-analyzer"@,
        args: seq!["--version"@],
        working_dir: None,
        stdin: Stream::Discarded,
        stdout: Stream::Discarded,
        stderr: Stream::Discarded,
        run_to_end: true,
    }
}

/// The probe for the installer: `rustup --version`, cut off from every
/// stream and run to its end.
pub open spec fn installer_probe() -> LaunchView {
    LaunchView {
        program: "rustup"@,
        args: seq!["--version"@],
        working_dir: None,
        stdin: Stream::Discarded,
        stdout: Stream::Discarded,
        stderr: Stream::Discarded,
        run_to_end: true,
    }
}

/// The installation: `rustup component add rust-analyzer`, its output
/// captured, run to its end.
pub open spec fn installer_run() -> LaunchView {
    LaunchView {
        program: "rustup"@,
        args: seq!["component"@, "add"@, "rust-analyzer"@],
        working_dir: None,
        stdin: Stream::Discarded,
        stdout: Stream::Piped,
        stderr: Stream::Piped,
        run_to_end: true,
    }
}

/// The backend itself: run in the project root, spoken to over its standard
/// input and output, its diagnostics passed through. It lives on after the
/// step that starts it, until the session is shut down.
pub open spec fn backend_launch(root: Seq<char>) -> LaunchView {
    LaunchView {
        program: "rust-analyzer"@,
        args: Seq::empty(),
        working_dir: Some(root),
        stdin: Stream::Piped,
        stdout: Stream::Piped,
        stderr: Stream::Inherited,
        run_to_end: false,
    }
}

impl Launch {
    /// The probe for the backend.
    pub fn backend_probe() -> (r: Launch)
        ensures
            r@ == self::backend_probe(),
    {
        let mut args: Vec<String> = Vec::new();
        args.push(String::from_str("--version"));
        let r = Launch {
            program: String::from_str("rust-analyzer"),
            args,
            working_dir: None,
            stdin: Stream::Discarded,
            stdout: Stream::Discarded,
            stderr: Stream::Discarded,
            run_to_end: true,
        };
        assert(r@.args =~= seq!["--version"@]);
        r
    }

    /// The probe for the installer.
    pub fn installer_probe() -> (r: Launch)
        ensures
            r@ == self::installer_probe(),
    {
        let mut args: Vec<String> = Vec::new();
        args.push(String::from_str("--version"));
        let r = Launch {
            program: String::from_str("rustup"),
            args,
            working_dir: None,
            stdin: Stream::Discarded,
            stdout: Stream::Discarded,
            stderr: Stream::Discarded,
            run_to_end: true,
        };
        assert(r@.args =~= seq!["--version"@]);
        r
    }

    /// The installation of the backend.
    pub fn installer_run() -> (r: Launch)
        ensures
            r@ == self::installer_run(),
    {
        let mut args: Vec<String> = Vec::new();
        args.push(String::from_str("component"));
        args.push(String::from_str("add"));
        args.push(String::from_str("rust-analyzer"));
        let r = Launch {
            program: String::from_str("rustup"),
            args,
            working_dir: None,
            stdin: Stream::Discarded,
            stdout: Stream::Piped,
            stderr: Stream::Piped,
            run_to_end: true,
        };
        assert(r@.args =~= seq!["component"@, "add"@, "rust-analyzer"@]);
        r
    }

    /// The backend, run in the root of `project`.
    pub fn backend(project: &Project) -> (r: Launch)
        ensures
            r@ == backend_launch(project.root@),
    {
        let r = Launch {
            program: String::from_str("rust-analyzer"),
            args: Vec::new(),
            working_dir: Some(project.root.clone()),
            stdin: Stream::Piped,
            stdout: Stream::Piped,
            stderr: Stream::Inherited,
            run_to_end: false,
        };
        assert(r@.args =~= Seq::empty());
        r
    }
}

/// The capability flags declared to the backend.
#[derive(Clone, Copy, PartialEq, Eq, Structural, Debug)]
pub struct HandshakeCapabilities {
    /// Progress reporting, which carries the index-finished notifications.
    pub work_done_progress: bool,
    /// Whether document symbols may come as a tree.
    pub hierarchical_document_symbols: bool,
    /// Whether hover content is asked for as markdown.
    pub hover_markdown: bool,
    /// The experimental flag that asks for hover actions.
    pub hover_actions: bool,
}

impl HandshakeCapabilities {
    /// The flags every session declares: progress on, flat symbols only,
    /// markdown hovers, hover actions on.
    pub open spec fn declared_spec() -> HandshakeCapabilities {
        HandshakeCapabilities {
            work_done_progress: true,
            hierarchical_document_symbols: false,
            hover_markdown: true,
            hover_actions: true,
        }
    }

    pub fn declared() -> (r: HandshakeCapabilities)
        ensures
            r == Self::declared_spec(),
    {
        HandshakeCapabilities {
            work_done_progress: true,
            hierarchical_document_symbols: false,
            hover_markdown: true,
            hover_actions: true,
        }
    }
}

/// The behaviours composed around the message router.
#[derive(Clone, Copy, PartialEq, Eq, Structural, Debug)]
pub enum StackLayer {
    Tracing,
    Lifecycle,
    CatchUnwind,
    Concurrency,
}

/// The layers of the protocol stack, outermost first.
pub fn stack_layers() -> (r: Vec<StackLayer>)
    ensures
        r@ == seq![
            StackLayer::Tracing,
            StackLayer::Lifecycle,
            StackLayer::CatchUnwind,
            StackLayer::Concurrency,
        ],
{
    let mut layers: Vec<StackLayer> = Vec::new();
    layers.push(StackLayer::Tracing);
    layers.push(StackLayer::Lifecycle);
    layers.push(StackLayer::CatchUnwind);
    layers.push(StackLayer::Concurrency);
    layers
}

/// The `initialize` request: one workspace folder and the declared flags.
#[derive(Debug)]
pub struct InitializeRequest {
    pub root_uri: String,
    pub root_name: String,
    pub capabilities: HandshakeCapabilities,
}

pub struct InitializeRequestView {
    pub root_uri: Seq<char>,
    pub root_name: Seq<char>,
    pub capabilities: HandshakeCapabilities,
}

impl View for InitializeRequest {
    type V = InitializeRequestView;

    open spec fn view(&self) -> InitializeRequestView {
        InitializeRequestView {
            root_uri: self.root_uri@,
            root_name: self.root_name@,
            capabilities: self.capabilities,
        }
    }
}

/// What the program is to do next.
#[derive(Debug)]
pub enum BootAction {
    /// Run the probe for the backend to its end, to see whether the backend
    /// is there.
    ProbeBackend(Launch),
    /// Run the probe for the installer to its end, to see whether the
    /// installer is there.
    ProbeInstaller(Launch),
    /// Run the installer to its end.
    RunInstaller(Launch),
    /// Start the backend and the task that drives its connection. This is
    /// the one process of a session that lives on.
    SpawnBackend(Launch),
    SendInitialize(InitializeRequest),
    SendInitialized,
    WireReadiness,
    /// Start-up is complete: hand the session out.
    Finish,
    /// Start-up failed: report the error and create no session.
    Abort(BootstrapError),
}

pub enum BootActionView {
    ProbeBackend(LaunchView),
    ProbeInstaller(LaunchView),
    RunInstaller(LaunchView),
    SpawnBackend(LaunchView),
    SendInitialize(InitializeRequestView),
    SendInitialized,
    WireReadiness,
    Finish,
    Abort(BootstrapErrorView),
}

impl View for BootAction {
    type V = BootActionView;

    open spec fn view(&self) -> BootActionView {
        match *self {
            BootAction::ProbeBackend(launch) => BootActionView::ProbeBackend(launch@),
            BootAction::ProbeInstaller(launch) => BootActionView::ProbeInstaller(launch@),
            BootAction::RunInstaller(launch) => BootActionView::RunInstaller(launch@),
            BootAction::SpawnBackend(launch) => BootActionView::SpawnBackend(launch@),
            BootAction::SendInitialize(request) => BootActionView::SendInitialize(request@),
            BootAction::SendInitialized => BootActionView::SendInitialized,
            BootAction::WireReadiness => BootActionView::WireReadiness,
            BootAction::Finish => BootActionView::Finish,
            BootAction::Abort(error) => BootActionView::Abort(error@),
        }
    }
}

/// The view of an optional action.
pub open spec fn action_view(action: Option<BootAction>) -> Option<BootActionView> {
    match action {
        Some(a) => Some(a@),
        None => None,
    }
}

/// The `initialize` request for a root with the given URL.
pub open spec fn initialize_for(root_url: Seq<char>) -> InitializeRequestView {
    InitializeRequestView {
        root_uri: root_url,
        root_name: "root"@,
        capabilities: HandshakeCapabilities::declared_spec(),
    }
}

/// An abort of the handshake with a fixed reason.
pub open spec fn handshake_abort(reason: Seq<char>) -> Option<BootActionView> {
    Some(BootActionView::Abort(BootstrapErrorView::HandshakeFailed { cause: reason }))
}

/// An abort of the launch with a fixed reason.
pub open spec fn spawn_abort(launched: bool, reason: Seq<char>) -> Option<BootActionView> {
    Some(BootActionView::Abort(BootstrapErrorView::SpawnFailed { launched, cause: reason }))
}

/// An abort of the installation with a fixed reason.
pub open spec fn install_abort(ran: bool, reason: Seq<char>) -> Option<BootActionView> {
    Some(BootActionView::Abort(BootstrapErrorView::InstallFailed { ran, detail: reason }))
}

/// One step of the sequencer: the phase that follows `phase` on `event`, and
/// the action to perform, for a project at `root` whose URL is `root_url`,
/// if it has one. An event that does not answer the phase's action changes
/// nothing and asks for nothing.
pub open spec fn boot_step(
    phase: BootPhase,
    event: BootEvent,
    root: Seq<char>,
    root_url: Option<Seq<char>>,
) -> (
    BootPhase,
    Option<BootActionView>,
) {
    match (phase, event) {
        (BootPhase::ProbingBackend, BootEvent::BackendProbed { found }) => if found {
            (BootPhase::Spawning, Some(BootActionView::SpawnBackend(backend_launch(root))))
        } else {
            (BootPhase::ProbingInstaller, Some(BootActionView::ProbeInstaller(installer_probe())))
        },
        (BootPhase::ProbingInstaller, BootEvent::InstallerProbed { found }) => if found {
            (BootPhase::Installing, Some(BootActionView::RunInstaller(installer_run())))
        } else {
            (BootPhase::Failed, Some(BootActionView::Abort(BootstrapErrorView::BackendUnavailable)))
        },
        (BootPhase::Installing, BootEvent::InstallFinished(outcome)) => match outcome {
            InstallOutcome::Installed => (BootPhase::Spawning, Some(BootActionView::SpawnBackend(backend_launch(root)))),
            InstallOutcome::ExitedNonZero { stderr } => (
                BootPhase::Failed,
                install_abort(true, stderr@),
            ),
            InstallOutcome::CouldNotRun { cause } => (
                BootPhase::Failed,
                install_abort(false, cause@),
            ),
        },
        (BootPhase::Spawning, BootEvent::BackendSpawned(outcome)) => match outcome {
            SpawnOutcome::Started => match root_url {
                Some(url) => (
                    BootPhase::Initializing,
                    Some(BootActionView::SendInitialize(initialize_for(url))),
                ),
                None => (BootPhase::Failed, handshake_abort("Failed to create project root URI"@)),
            },
            SpawnOutcome::Refused { cause } => (BootPhase::Failed, spawn_abort(false, cause@)),
            SpawnOutcome::NoStdout => (
                BootPhase::Failed,
                spawn_abort(true, "Failed to get stdout"@),
            ),
            SpawnOutcome::NoStdin => (
                BootPhase::Failed,
                spawn_abort(true, "Failed to get stdin"@),
            ),
        },
        (BootPhase::Initializing, BootEvent::InitializeReplied(reply)) => match reply {
            Ok(_) => (BootPhase::Notifying, Some(BootActionView::SendInitialized)),
            Err(cause) => (BootPhase::Failed, handshake_abort("LSP initialize failed: "@ + cause@)),
        },
        (BootPhase::Notifying, BootEvent::InitializedSent(sent)) => match sent {
            Ok(_) => (BootPhase::Wiring, Some(BootActionView::WireReadiness)),
            Err(cause) => (
                BootPhase::Failed,
                handshake_abort("Sending Initialized notification failed: "@ + cause@),
            ),
        },
        (BootPhase::Wiring, BootEvent::ReadinessWired) => (
            BootPhase::Ready,
            Some(BootActionView::Finish),
        ),
        _ => (phase, None),
    }
}

/// The start-up sequencer. Its phase moves only as `advance` decides.
#[derive(Debug)]
pub struct Bootstrap {
    phase: BootPhase,
}

impl View for Bootstrap {
    type V = BootPhase;

    closed spec fn view(&self) -> BootPhase {
        self.phase
    }
}

impl Bootstrap {
    /// A sequencer at its start, and the first action: look for the backend.
    pub fn new() -> (r: (Bootstrap, BootAction))
        ensures
            r.0@ == BootPhase::ProbingBackend,
            r.1@ == BootActionView::ProbeBackend(backend_probe()),
    {
        (
            Bootstrap { phase: BootPhase::ProbingBackend },
            BootAction::ProbeBackend(Launch::backend_probe()),
        )
    }

    /// Where the start-up stands.
    pub fn phase(&self) -> (r: BootPhase)
        ensures
            r == self@,
    {
        self.phase
    }

    /// Whether start-up has ended, well or badly.
    pub fn is_over(&self) -> (r: bool)
        ensures
            r == (self@ == BootPhase::Ready || self@ == BootPhase::Failed),
    {
        self.phase == BootPhase::Ready || self.phase == BootPhase::Failed
    }

    /// Takes in what happened and says what to do next.
    pub fn advance(&mut self, event: BootEvent, project: &Project) -> (action: Option<BootAction>)
        ensures
            (final(self)@, action_view(action)) == boot_step(
                old(self)@,
                event,
                project.root@,
                file_url_text(project.root@),
            ),
    {
        let root_uri = if self.phase == BootPhase::Spawning {
            match project.uri() {
                Ok(uri) => Some(uri),
                Err(_) => None,
            }
        } else {
            None
        };
        self.step(event, project, root_uri)
    }

    /// Takes in what happened and says what to do next, given the URL of the
    /// project's root, if it has one. The URL is read only when the backend
    /// has just been spawned.
    pub fn step(&mut self, event: BootEvent, project: &Project, root_uri: Option<String>) -> (action:
        Option<BootAction>)
        ensures
            (final(self)@, action_view(action)) == boot_step(
                old(self)@,
                event,
                project.root@,
                opt_view(root_uri),
            ),
    {
        match (self.phase, event) {
            (BootPhase::ProbingBackend, BootEvent::BackendProbed { found }) => {
                if found {
                    self.phase = BootPhase::Spawning;
                    Some(BootAction::SpawnBackend(Launch::backend(project)))
                } else {
                    self.phase = BootPhase::ProbingInstaller;
                    Some(BootAction::ProbeInstaller(Launch::installer_probe()))
                }
            },
            (BootPhase::ProbingInstaller, BootEvent::InstallerProbed { found }) => {
                if found {
                    self.phase = BootPhase::Installing;
                    Some(BootAction::RunInstaller(Launch::installer_run()))
                } else {
                    self.phase = BootPhase::Failed;
                    Some(BootAction::Abort(BootstrapError::BackendUnavailable))
                }
            },
            (BootPhase::Installing, BootEvent::InstallFinished(outcome)) => match outcome {
                InstallOutcome::Installed => {
                    self.phase = BootPhase::Spawning;
                    Some(BootAction::SpawnBackend(Launch::backend(project)))
                },
                InstallOutcome::ExitedNonZero { stderr } => {
                    self.phase = BootPhase::Failed;
                    Some(
                        BootAction::Abort(
                            BootstrapError::InstallFailed { ran: true, detail: stderr },
                        ),
                    )
                },
                InstallOutcome::CouldNotRun { cause } => {
                    self.phase = BootPhase::Failed;
                    Some(
                        BootAction::Abort(
                            BootstrapError::InstallFailed { ran: false, detail: cause },
                        ),
                    )
                },
            },
            (BootPhase::Spawning, BootEvent::BackendSpawned(outcome)) => match outcome {
                SpawnOutcome::Started => match root_uri {
                    Some(root_uri) => {
                        self.phase = BootPhase::Initializing;
                        Some(
                            BootAction::SendInitialize(
                                InitializeRequest {
                                    root_uri,
                                    root_name: String::from_str("root"),
                                    capabilities: HandshakeCapabilities::declared(),
                                },
                            ),
                        )
                    },
                    None => {
                        self.phase = BootPhase::Failed;
                        Some(
                            BootAction::Abort(
                                BootstrapError::HandshakeFailed {
                                    cause: String::from_str("Failed to create project root URI"),
                                },
                            ),
                        )
                    },
                },
                SpawnOutcome::Refused { cause } => {
                    self.phase = BootPhase::Failed;
                    Some(BootAction::Abort(BootstrapError::SpawnFailed { launched: false, cause }))
                },
                SpawnOutcome::NoStdout => {
                    self.phase = BootPhase::Failed;
                    Some(
                        BootAction::Abort(
                            BootstrapError::SpawnFailed {
                                launched: true,
                                cause: String::from_str("Failed to get stdout"),
                            },
                        ),
                    )
                },
                SpawnOutcome::NoStdin => {
                    self.phase = BootPhase::Failed;
                    Some(
                        BootAction::Abort(
                            BootstrapError::SpawnFailed {
                                launched: true,
                                cause: String::from_str("Failed to get stdin"),
                            },
                        ),
                    )
                },
            },
            (BootPhase::Initializing, BootEvent::InitializeReplied(reply)) => match reply {
                Ok(_) => {
                    self.phase = BootPhase::Notifying;
                    Some(BootAction::SendInitialized)
                },
                Err(cause) => {
                    self.phase = BootPhase::Failed;
                    Some(
                        BootAction::Abort(
                            BootstrapError::HandshakeFailed {
                                cause: String::from_str("LSP initialize failed: ").concat(
                                    cause.as_str(),
                                ),
                            },
                        ),
                    )
                },
            },
            (BootPhase::Notifying, BootEvent::InitializedSent(sent)) => match sent {
                Ok(_) => {
                    self.phase = BootPhase::Wiring;
                    Some(BootAction::WireReadiness)
                },
                Err(cause) => {
                    self.phase = BootPhase::Failed;
                    Some(
                        BootAction::Abort(
                            BootstrapError::HandshakeFailed {
                                cause: String::from_str(
                                    "Sending Initialized notification failed: ",
                                ).concat(cause.as_str()),
                            },
                        ),
                    )
                },
            },
            (BootPhase::Wiring, BootEvent::ReadinessWired) => {
                self.phase = BootPhase::Ready;
                Some(BootAction::Finish)
            },
            _ => None,
        }
    }
}

/// The phase reached from `phase` once every event of `events` is taken in.
pub open spec fn boot_run(
    phase: BootPhase,
    events: Seq<BootEvent>,
    root: Seq<char>,
    root_url: Option<Seq<char>>,
) -> BootPhase
    decreases events.len(),
{
    if events.len() == 0 {
        phase
    } else {
        let before = boot_run(phase, events.drop_last(), root, root_url);
        boot_step(before, events.last(), root, root_url).0
    }
}

/// The action asked for when the last event of a non-empty `events` is taken in.
pub open spec fn boot_last_action(
    phase: BootPhase,
    events: Seq<BootEvent>,
    root: Seq<char>,
    root_url: Option<Seq<char>>,
) -> Option<BootActionView> {
    let before = boot_run(phase, events.drop_last(), root, root_url);
    boot_step(before, events.last(), root, root_url).1
}

/// Whether an action asks for a process to be run beyond the two probes:
/// the backend itself, or the installer.
pub open spec fn asks_to_spawn(action: Option<BootActionView>) -> bool {
    ||| action matches Some(BootActionView::SpawnBackend(_))
    ||| action matches Some(BootActionView::RunInstaller(_))
}

/// Whether the events up to some point asked for the backend or the
/// installer to be run.
pub open spec fn spawn_requested(
    phase: BootPhase,
    events: Seq<BootEvent>,
    root: Seq<char>,
    root_url: Option<Seq<char>>,
) -> bool {
    exists|n: int|
        1 <= n <= events.len() && asks_to_spawn(
            #[trigger] boot_last_action(phase, events.take(n), root, root_url),
        )
}

/// A failed start-up stays failed, and asks for nothing more, whatever is
/// reported to it afterwards.
pub proof fn lemma_failed_is_final(
    events: Seq<BootEvent>,
    root: Seq<char>,
    root_url: Option<Seq<char>>,
)
    ensures
        boot_run(BootPhase::Failed, events, root, root_url) == BootPhase::Failed,
        events.len() > 0 ==> boot_last_action(BootPhase::Failed, events, root, root_url).is_none(),
    decreases events.len(),
{
    if events.len() > 0 {
        lemma_failed_is_final(events.drop_last(), root, root_url);
    }
}

/// Running a sequence of events in two parts is running the whole.
pub proof fn lemma_boot_run_split(
    phase: BootPhase,
    first: Seq<BootEvent>,
    rest: Seq<BootEvent>,
    root: Seq<char>,
    root_url: Option<Seq<char>>,
)
    ensures
        boot_run(phase, first + rest, root, root_url) == boot_run(
            boot_run(phase, first, root, root_url),
            rest,
            root,
            root_url,
        ),
    decreases rest.len(),
{
    if rest.len() == 0 {
        assert(first + rest =~= first);
    } else {
        assert((first + rest).drop_last() =~= first + rest.drop_last());
        assert((first + rest).last() == rest.last());
        lemma_boot_run_split(phase, first, rest.drop_last(), root, root_url);
    }
}

/// With neither the backend nor its installer present, start-up ends in
/// `BackendUnavailable`, stays failed whatever is reported afterwards, and at
/// no point asks for the backend or the installer to be run.
pub proof fn lemma_unavailable_spawns_nothing(
    rest: Seq<BootEvent>,
    root: Seq<char>,
    root_url: Option<Seq<char>>,
)
    ensures
        ({
            let absent = seq![
                BootEvent::BackendProbed { found: false },
                BootEvent::InstallerProbed { found: false },
            ];
            &&& boot_last_action(BootPhase::ProbingBackend, absent, root, root_url) == Some(
                BootActionView::Abort(BootstrapErrorView::BackendUnavailable),
            )
            &&& boot_run(BootPhase::ProbingBackend, absent + rest, root, root_url)
                == BootPhase::Failed
            &&& !spawn_requested(BootPhase::ProbingBackend, absent + rest, root, root_url)
        }),
{
    let absent = seq![
        BootEvent::BackendProbed { found: false },
        BootEvent::InstallerProbed { found: false },
    ];
    let start = BootPhase::ProbingBackend;
    let one = absent.drop_last();
    assert(one.drop_last().len() == 0);
    assert(boot_run(start, one.drop_last(), root, root_url) == start);
    assert(one.last() == BootEvent::BackendProbed { found: false });
    assert(boot_run(start, one, root, root_url) == BootPhase::ProbingInstaller);
    assert(absent.last() == BootEvent::InstallerProbed { found: false });
    assert(boot_run(start, absent, root, root_url) == BootPhase::Failed);
    lemma_boot_run_split(start, absent, rest, root, root_url);
    lemma_failed_is_final(rest, root, root_url);
    let all = absent + rest;
    assert forall|n: int| 1 <= n <= all.len() implies !asks_to_spawn(
        #[trigger] boot_last_action(start, all.take(n), root, root_url),
    ) by {
        if n == 1 {
            assert(all.take(1).drop_last().len() == 0);
            assert(all.take(1).last() == BootEvent::BackendProbed { found: false });
        } else if n == 2 {
            assert(all.take(2) =~= absent);
        } else {
            let tail = rest.take(n - 2);
            assert(all.take(n) =~= absent + tail);
            assert(all.take(n).drop_last() =~= absent + tail.drop_last());
            assert(all.take(n).last() == tail.last());
            lemma_boot_run_split(start, absent, tail.drop_last(), root, root_url);
            lemma_failed_is_final(tail.drop_last(), root, root_url);
        }
    }
}

/// The process that an action starts, if it starts one.
pub open spec fn launch_of(action: Option<BootActionView>) -> Option<LaunchView> {
    match action {
        Some(BootActionView::ProbeBackend(launch)) => Some(launch),
        Some(BootActionView::ProbeInstaller(launch)) => Some(launch),
        Some(BootActionView::RunInstaller(launch)) => Some(launch),
        Some(BootActionView::SpawnBackend(launch)) => Some(launch),
        _ => None,
    }
}

/// Whether an action starts a process that lives on after its step.
pub open spec fn outlives_step(action: Option<BootActionView>) -> bool {
    launch_of(action) matches Some(launch) && !launch.run_to_end
}

/// How many of the actions asked for along `events` start a process that
/// lives on after its step.
pub open spec fn lasting_launches(
    phase: BootPhase,
    events: Seq<BootEvent>,
    root: Seq<char>,
    root_url: Option<Seq<char>>,
) -> int
    decreases events.len(),
{
    if events.len() == 0 {
        0
    } else {
        lasting_launches(phase, events.drop_last(), root, root_url) + (if outlives_step(
            boot_last_action(phase, events, root, root_url),
        ) {
            1int
        } else {
            0int
        })
    }
}

/// Whether the backend has not been asked for yet in a phase.
pub open spec fn before_spawn(phase: BootPhase) -> bool {
    phase == BootPhase::ProbingBackend || phase == BootPhase::ProbingInstaller || phase
        == BootPhase::Installing
}

/// The only action that starts a process which lives on after its step is
/// the launch of the backend: the two probes and the installer are run to
/// their end, the first action included.
pub proof fn lemma_only_backend_outlives_its_step(
    phase: BootPhase,
    event: BootEvent,
    root: Seq<char>,
    root_url: Option<Seq<char>>,
)
    ensures
        !outlives_step(Some(BootActionView::ProbeBackend(backend_probe()))),
        outlives_step(boot_step(phase, event, root, root_url).1) ==> boot_step(
            phase,
            event,
            root,
            root_url,
        ).1 == Some(BootActionView::SpawnBackend(backend_launch(root))),
{
}

/// Whatever is reported to a start-up, and in whatever order, it starts at
/// most one process that lives on, and none before it has left the probing
/// and installing phases.
pub proof fn lemma_at_most_one_backend(
    events: Seq<BootEvent>,
    root: Seq<char>,
    root_url: Option<Seq<char>>,
)
    ensures
        0 <= lasting_launches(BootPhase::ProbingBackend, events, root, root_url) <= 1,
        before_spawn(boot_run(BootPhase::ProbingBackend, events, root, root_url))
            ==> lasting_launches(BootPhase::ProbingBackend, events, root, root_url) == 0,
    decreases events.len(),
{
    if events.len() > 0 {
        lemma_at_most_one_backend(events.drop_last(), root, root_url);
    }
}

/// With the backend present, a root that has a URL and every step reported
/// as done, start-up reaches `Ready`, ends by asking for the session to be
/// handed out, and has started exactly one process that lives on: the
/// backend.
pub proof fn lemma_reachable_backend_starts(root: Seq<char>, root_url: Option<Seq<char>>)
    requires
        root_url.is_some(),
    ensures
        ({
            let events = seq![
                BootEvent::BackendProbed { found: true },
                BootEvent::BackendSpawned(SpawnOutcome::Started),
                BootEvent::InitializeReplied(Ok(())),
                BootEvent::InitializedSent(Ok(())),
                BootEvent::ReadinessWired,
            ];
            &&& boot_run(BootPhase::ProbingBackend, events, root, root_url) == BootPhase::Ready
            &&& boot_last_action(BootPhase::ProbingBackend, events, root, root_url) == Some(
                BootActionView::Finish,
            )
            &&& lasting_launches(BootPhase::ProbingBackend, events, root, root_url) == 1
        }),
{
    let events = seq![
        BootEvent::BackendProbed { found: true },
        BootEvent::BackendSpawned(SpawnOutcome::Started),
        BootEvent::InitializeReplied(Ok(())),
        BootEvent::InitializedSent(Ok(())),
        BootEvent::ReadinessWired,
    ];
    let start = BootPhase::ProbingBackend;
    let e4 = events.drop_last();
    let e3 = e4.drop_last();
    let e2 = e3.drop_last();
    let e1 = e2.drop_last();
    assert(e1.drop_last().len() == 0);
    assert(boot_run(start, e1.drop_last(), root, root_url) == start);
    assert(e1.last() == events[0]);
    assert(boot_run(start, e1, root, root_url) == BootPhase::Spawning);
    assert(e2.last() == events[1]);
    assert(boot_run(start, e2, root, root_url) == BootPhase::Initializing);
    assert(e3.last() == events[2]);
    assert(boot_run(start, e3, root, root_url) == BootPhase::Notifying);
    assert(e4.last() == events[3]);
    assert(boot_run(start, e4, root, root_url) == BootPhase::Wiring);
    assert(events.last() == events[4]);
    assert(lasting_launches(start, e1.drop_last(), root, root_url) == 0);
    assert(lasting_launches(start, e1, root, root_url) == 1);
    assert(lasting_launches(start, e2, root, root_url) == 1);
    assert(lasting_launches(start, e3, root, root_url) == 1);
    assert(lasting_launches(start, e4, root, root_url) == 1);
}

} // verus!
