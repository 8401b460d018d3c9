use analyzer_bridge::lsp::bootstrap::{
    stack_layers, BootAction, BootEvent, BootPhase, Bootstrap, BootstrapError,
    HandshakeCapabilities, InstallOutcome, Launch, SpawnOutcome, StackLayer, Stream,
};
use analyzer_bridge::lsp::rust_analyzer_lsp::{
    failure_log, flat_symbols, is_index_finished, next_action, settle, settle_address,
    settle_document_symbols, Admission, ProgressStage, ProgressToken, DocumentSymbolResponse, IndexWait,
    Operation, OperationError, Position, RustAnalyzerLsp, SessionPhase, ShutdownAction,
    ShutdownEvent, SymbolInformation,
};
use analyzer_bridge::project::Project;

fn project_at(root: &str) -> Project {
    Project { root: root.to_string(), ignore_crates: Vec::new() }
}

fn started(root: &str) -> RustAnalyzerLsp {
    let project = project_at(root);
    let (mut boot, _) = Bootstrap::new();
    boot.advance(BootEvent::BackendProbed { found: true }, &project);
    boot.advance(BootEvent::BackendSpawned(SpawnOutcome::Started), &project);
    boot.advance(BootEvent::InitializeReplied(Ok(())), &project);
    boot.advance(BootEvent::InitializedSent(Ok(())), &project);
    boot.advance(BootEvent::ReadinessWired, &project);
    RustAnalyzerLsp::new(&boot, project).unwrap()
}

fn symbol(name: &str, line: u32) -> SymbolInformation {
    SymbolInformation {
        name: name.to_string(),
        kind: 12,
        uri: "file:///work/app/src/lib.rs".to_string(),
        start: Position { line, character: 4 },
        end: Position { line, character: 9 },
        container_name: None,
    }
}

#[test]
fn start_up_with_a_present_backend() {
    let project = project_at("/work/app");
    let (mut boot, first) = Bootstrap::new();
    match first {
        BootAction::ProbeBackend(launch) => {
            assert_eq!(launch.program, "rust-analyzer");
            assert_eq!(launch.args, vec!["--version".to_string()]);
            assert_eq!(launch.working_dir, None);
            assert_eq!(launch.stdin, Stream::Discarded);
            assert_eq!(launch.stdout, Stream::Discarded);
            assert_eq!(launch.stderr, Stream::Discarded);
            assert!(launch.run_to_end);
        }
        other => panic!("unexpected action {:?}", other),
    }
    assert_eq!(boot.phase(), BootPhase::ProbingBackend);
    assert!(!boot.is_over());
    let a = boot.advance(BootEvent::BackendProbed { found: true }, &project);
    match a {
        Some(BootAction::SpawnBackend(launch)) => {
            assert_eq!(launch.program, "rust-analyzer");
            assert!(launch.args.is_empty());
            assert_eq!(launch.working_dir.as_deref(), Some("/work/app"));
            assert_eq!(launch.stdin, Stream::Piped);
            assert_eq!(launch.stdout, Stream::Piped);
            assert_eq!(launch.stderr, Stream::Inherited);
            assert!(!launch.run_to_end);
        }
        other => panic!("unexpected action {:?}", other),
    }
    let a = boot.advance(BootEvent::BackendSpawned(SpawnOutcome::Started), &project);
    match a {
        Some(BootAction::SendInitialize(request)) => {
            assert_eq!(request.root_uri, "file:///work/app");
            assert_eq!(request.root_name, "root");
            assert!(request.capabilities.work_done_progress);
            assert!(!request.capabilities.hierarchical_document_symbols);
            assert!(request.capabilities.hover_markdown);
            assert!(request.capabilities.hover_actions);
        }
        other => panic!("unexpected action {:?}", other),
    }
    assert_eq!(boot.phase(), BootPhase::Initializing);
    let a = boot.advance(BootEvent::InitializeReplied(Ok(())), &project);
    assert!(matches!(a, Some(BootAction::SendInitialized)));
    let a = boot.advance(BootEvent::InitializedSent(Ok(())), &project);
    assert!(matches!(a, Some(BootAction::WireReadiness)));
    let a = boot.advance(BootEvent::ReadinessWired, &project);
    assert!(matches!(a, Some(BootAction::Finish)));
    assert_eq!(boot.phase(), BootPhase::Ready);
    assert!(boot.is_over());
}

#[test]
fn start_up_without_backend_or_installer_spawns_nothing() {
    let project = project_at("/work/app");
    let (mut boot, _) = Bootstrap::new();
    let a = boot.advance(BootEvent::BackendProbed { found: false }, &project);
    match a {
        Some(BootAction::ProbeInstaller(launch)) => {
            assert_eq!(launch.program, "rustup");
            assert_eq!(launch.args, vec!["--version".to_string()]);
            assert_eq!(launch.working_dir, None);
            assert_eq!(launch.stdout, Stream::Discarded);
            assert_eq!(launch.stderr, Stream::Discarded);
            assert!(launch.run_to_end);
        }
        other => panic!("unexpected action {:?}", other),
    }
    let a = boot.advance(BootEvent::InstallerProbed { found: false }, &project);
    match a {
        Some(BootAction::Abort(error)) => {
            assert!(matches!(error, BootstrapError::BackendUnavailable));
            assert_eq!(
                error.message(),
                "rust-analyzer not found. Please install rustup and run 'rustup component add rust-analyzer', or install rust-analyzer manually."
            );
        }
        other => panic!("unexpected action {:?}", other),
    }
    assert_eq!(boot.phase(), BootPhase::Failed);
    assert!(boot.is_over());
    let a = boot.advance(BootEvent::BackendSpawned(SpawnOutcome::Started), &project);
    assert!(a.is_none());
    let a = boot.advance(BootEvent::BackendProbed { found: true }, &project);
    assert!(a.is_none());
    assert_eq!(boot.phase(), BootPhase::Failed);
    assert!(RustAnalyzerLsp::new(&boot, project).is_none());
}

#[test]
fn start_up_installs_a_missing_backend() {
    let project = project_at("/work/app");
    let (mut boot, _) = Bootstrap::new();
    boot.advance(BootEvent::BackendProbed { found: false }, &project);
    let a = boot.advance(BootEvent::InstallerProbed { found: true }, &project);
    match a {
        Some(BootAction::RunInstaller(launch)) => {
            assert_eq!(launch.program, "rustup");
            assert_eq!(
                launch.args,
                vec!["component".to_string(), "add".to_string(), "rust-analyzer".to_string()]
            );
            assert_eq!(launch.working_dir, None);
            assert_eq!(launch.stdout, Stream::Piped);
            assert_eq!(launch.stderr, Stream::Piped);
            assert!(launch.run_to_end);
        }
        other => panic!("unexpected action {:?}", other),
    }
    assert_eq!(boot.phase(), BootPhase::Installing);
    let a = boot.advance(BootEvent::InstallFinished(InstallOutcome::Installed), &project);
    assert!(matches!(a, Some(BootAction::SpawnBackend(launch)) if launch.working_dir.as_deref() == Some("/work/app")));
    assert_eq!(boot.phase(), BootPhase::Spawning);
}

#[test]
fn a_failed_install_ends_start_up() {
    let project = project_at("/work/app");
    let (mut boot, _) = Bootstrap::new();
    boot.advance(BootEvent::BackendProbed { found: false }, &project);
    boot.advance(BootEvent::InstallerProbed { found: true }, &project);
    let outcome = InstallOutcome::ExitedNonZero { stderr: "no such component".to_string() };
    let a = boot.advance(BootEvent::InstallFinished(outcome), &project);
    match a {
        Some(BootAction::Abort(error)) => {
            assert!(matches!(&error, BootstrapError::InstallFailed { ran: true, detail } if detail == "no such component"));
            assert_eq!(
                error.message(),
                "Failed to install rust-analyzer automatically: no such component. Please install it manually with 'rustup component add rust-analyzer'"
            );
        }
        other => panic!("unexpected action {:?}", other),
    }
    assert_eq!(boot.phase(), BootPhase::Failed);
}

#[test]
fn an_installer_that_cannot_run_ends_start_up() {
    let project = project_at("/work/app");
    let (mut boot, _) = Bootstrap::new();
    boot.advance(BootEvent::BackendProbed { found: false }, &project);
    boot.advance(BootEvent::InstallerProbed { found: true }, &project);
    let outcome = InstallOutcome::CouldNotRun { cause: "killed".to_string() };
    let a = boot.advance(BootEvent::InstallFinished(outcome), &project);
    match a {
        Some(BootAction::Abort(error)) => {
            assert!(matches!(
                &error,
                BootstrapError::InstallFailed { ran: false, detail } if detail == "killed"
            ));
            assert_eq!(
                error.message(),
                "Failed to run rustup to install rust-analyzer: killed. Please install it manually."
            );
        }
        other => panic!("unexpected action {:?}", other),
    }
    assert_eq!(boot.phase(), BootPhase::Failed);
}

#[test]
fn a_refused_spawn_ends_start_up() {
    let project = project_at("/work/app");
    let (mut boot, _) = Bootstrap::new();
    boot.advance(BootEvent::BackendProbed { found: true }, &project);
    let outcome = SpawnOutcome::Refused { cause: "not executable".to_string() };
    let a = boot.advance(BootEvent::BackendSpawned(outcome), &project);
    match a {
        Some(BootAction::Abort(error)) => {
            assert!(matches!(&error, BootstrapError::SpawnFailed { launched: false, cause } if cause == "not executable"));
            assert_eq!(
                error.message(),
                "Failed to run rust-analyzer: not executable. Please make sure rust-analyzer is installed and available in your PATH."
            );
        }
        other => panic!("unexpected action {:?}", other),
    }
    assert_eq!(boot.phase(), BootPhase::Failed);
}

#[test]
fn a_spawn_without_pipes_ends_start_up() {
    let project = project_at("/work/app");
    let (mut boot, _) = Bootstrap::new();
    boot.advance(BootEvent::BackendProbed { found: true }, &project);
    let a = boot.advance(BootEvent::BackendSpawned(SpawnOutcome::NoStdout), &project);
    match a {
        Some(BootAction::Abort(error)) => {
            assert!(matches!(&error, BootstrapError::SpawnFailed { launched: true, .. }));
            assert_eq!(error.message(), "Failed to get stdout");
        }
        other => panic!("unexpected action {:?}", other),
    }
    let (mut boot, _) = Bootstrap::new();
    boot.advance(BootEvent::BackendProbed { found: true }, &project);
    let a = boot.advance(BootEvent::BackendSpawned(SpawnOutcome::NoStdin), &project);
    match a {
        Some(BootAction::Abort(error)) => {
            assert!(matches!(&error, BootstrapError::SpawnFailed { launched: true, .. }));
            assert_eq!(error.message(), "Failed to get stdin");
        }
        other => panic!("unexpected action {:?}", other),
    }
    assert_eq!(boot.phase(), BootPhase::Failed);
}

#[test]
fn a_root_without_url_fails_the_handshake() {
    let project = project_at("relative/root");
    let (mut boot, _) = Bootstrap::new();
    boot.advance(BootEvent::BackendProbed { found: true }, &project);
    let a = boot.advance(BootEvent::BackendSpawned(SpawnOutcome::Started), &project);
    assert!(matches!(
        a,
        Some(BootAction::Abort(BootstrapError::HandshakeFailed { cause }))
            if cause == "Failed to create project root URI"
    ));
    assert_eq!(boot.phase(), BootPhase::Failed);
}

#[test]
fn a_failed_initialize_fails_the_handshake() {
    let project = project_at("/work/app");
    let (mut boot, _) = Bootstrap::new();
    boot.advance(BootEvent::BackendProbed { found: true }, &project);
    boot.advance(BootEvent::BackendSpawned(SpawnOutcome::Started), &project);
    let a = boot.advance(BootEvent::InitializeReplied(Err("broken pipe".to_string())), &project);
    match a {
        Some(BootAction::Abort(error)) => {
            assert!(matches!(error, BootstrapError::HandshakeFailed { .. }));
            assert_eq!(error.message(), "LSP initialize failed: broken pipe");
        }
        other => panic!("unexpected action {:?}", other),
    }
    assert_eq!(boot.phase(), BootPhase::Failed);
}

#[test]
fn a_failed_initialized_notification_fails_the_handshake() {
    let project = project_at("/work/app");
    let (mut boot, _) = Bootstrap::new();
    boot.advance(BootEvent::BackendProbed { found: true }, &project);
    boot.advance(BootEvent::BackendSpawned(SpawnOutcome::Started), &project);
    boot.advance(BootEvent::InitializeReplied(Ok(())), &project);
    let a = boot.advance(BootEvent::InitializedSent(Err("closed".to_string())), &project);
    assert!(matches!(
        a,
        Some(BootAction::Abort(BootstrapError::HandshakeFailed { cause }))
            if cause == "Sending Initialized notification failed: closed"
    ));
    assert_eq!(boot.phase(), BootPhase::Failed);
}

#[test]
fn an_event_out_of_turn_changes_nothing() {
    let project = project_at("/work/app");
    let (mut boot, _) = Bootstrap::new();
    let a = boot.advance(BootEvent::ReadinessWired, &project);
    assert!(a.is_none());
    assert_eq!(boot.phase(), BootPhase::ProbingBackend);
    let a = boot.advance(BootEvent::InitializeReplied(Ok(())), &project);
    assert!(a.is_none());
    assert_eq!(boot.phase(), BootPhase::ProbingBackend);
}

#[test]
fn launches_are_fixed() {
    let project = project_at("/srv/code");
    let backend = Launch::backend(&project);
    assert_eq!(backend.program, "rust-analyzer");
    assert_eq!(backend.working_dir.as_deref(), Some("/srv/code"));
    assert_eq!(Launch::backend_probe().program, "rust-analyzer");
    assert_eq!(Launch::installer_probe().args, vec!["--version".to_string()]);
    assert_eq!(Launch::installer_run().args.len(), 3);
    assert_eq!(Launch::installer_run().stdin, Stream::Discarded);
    assert!(Launch::backend_probe().run_to_end);
    assert!(Launch::installer_probe().run_to_end);
    assert!(Launch::installer_run().run_to_end);
    assert!(!backend.run_to_end);
}

#[test]
fn declared_capabilities() {
    let c = HandshakeCapabilities::declared();
    assert_eq!(
        c,
        HandshakeCapabilities {
            work_done_progress: true,
            hierarchical_document_symbols: false,
            hover_markdown: true,
            hover_actions: true,
        }
    );
}

#[test]
fn layers_come_outermost_first() {
    assert_eq!(
        stack_layers(),
        vec![StackLayer::Tracing, StackLayer::Lifecycle, StackLayer::CatchUnwind, StackLayer::Concurrency]
    );
}

#[test]
fn no_session_before_start_up_is_ready() {
    let project = project_at("/work/app");
    let (mut boot, _) = Bootstrap::new();
    assert!(RustAnalyzerLsp::new(&boot, project.clone()).is_none());
    boot.advance(BootEvent::BackendProbed { found: true }, &project);
    boot.advance(BootEvent::BackendSpawned(SpawnOutcome::Started), &project);
    boot.advance(BootEvent::InitializeReplied(Ok(())), &project);
    boot.advance(BootEvent::InitializedSent(Ok(())), &project);
    assert!(RustAnalyzerLsp::new(&boot, project.clone()).is_none());
    boot.advance(BootEvent::ReadinessWired, &project);
    let session = RustAnalyzerLsp::new(&boot, project).unwrap();
    assert_eq!(session.phase(), SessionPhase::Active);
    assert_eq!(session.holder(), None);
    assert_eq!(session.waiting(), 0);
    assert_eq!(session.index_waiters(), 0);
    assert_eq!(session.index_events(), 0);
    assert_eq!(session.project().root, "/work/app");
}

#[test]
fn start_then_shutdown_runs_clean() {
    let mut session = started("/work/app");
    assert_eq!(session.acquire(1), Admission::Granted);
    let step = session.shutdown(ShutdownEvent::Begin { caller: 1 });
    assert_eq!(step.action, Some(ShutdownAction::SendShutdown));
    assert!(step.log.is_none());
    let step = session.shutdown(ShutdownEvent::ShutdownReplied(Ok(())));
    assert_eq!(step.action, Some(ShutdownAction::SendExit));
    assert!(step.log.is_none());
    let step = session.shutdown(ShutdownEvent::ExitSent(Ok(())));
    assert_eq!(step.action, Some(ShutdownAction::JoinDrivingTask));
    assert!(step.log.is_none());
    assert_eq!(session.phase(), SessionPhase::Joining);
    assert_eq!(session.holder(), Some(1));
    let step = session.shutdown(ShutdownEvent::DrivingTaskJoined(Ok(())));
    assert_eq!(step.action, Some(ShutdownAction::Finished));
    assert!(step.log.is_none());
    assert_eq!(session.phase(), SessionPhase::Closed);
    assert_eq!(session.holder(), None);
}

#[test]
fn shutdown_joins_even_when_every_step_fails() {
    let mut session = started("/work/app");
    session.acquire(1);
    session.shutdown(ShutdownEvent::Begin { caller: 1 });
    let step = session.shutdown(ShutdownEvent::ShutdownReplied(Err("timed out".to_string())));
    assert_eq!(step.action, Some(ShutdownAction::SendExit));
    assert_eq!(step.log.as_deref(), Some("Sending Shutdown request failed: timed out"));
    let step = session.shutdown(ShutdownEvent::ExitSent(Err("closed".to_string())));
    assert_eq!(step.action, Some(ShutdownAction::JoinDrivingTask));
    assert_eq!(step.log.as_deref(), Some("Sending Exit notification failed: closed"));
    assert_eq!(session.phase(), SessionPhase::Joining);
    let step = session.shutdown(ShutdownEvent::DrivingTaskJoined(Err("panicked".to_string())));
    assert_eq!(step.action, Some(ShutdownAction::Finished));
    assert_eq!(step.log.as_deref(), Some("Error joining LSP mainloop task: panicked"));
    assert_eq!(session.phase(), SessionPhase::Closed);
}

#[test]
fn shutdown_waits_for_the_guard() {
    let mut session = started("/work/app");
    let step = session.shutdown(ShutdownEvent::Begin { caller: 2 });
    assert!(step.action.is_none());
    assert_eq!(session.phase(), SessionPhase::Active);
    assert_eq!(session.acquire(1), Admission::Granted);
    assert_eq!(session.acquire(2), Admission::Queued);
    let step = session.shutdown(ShutdownEvent::Begin { caller: 2 });
    assert!(step.action.is_none());
    assert_eq!(session.phase(), SessionPhase::Active);
    assert_eq!(session.release(1), Some(2));
    let step = session.shutdown(ShutdownEvent::Begin { caller: 2 });
    assert_eq!(step.action, Some(ShutdownAction::SendShutdown));
    assert_eq!(session.phase(), SessionPhase::ShuttingDown);
}

#[test]
fn the_guard_stays_with_a_shutdown_until_the_session_is_closed() {
    let mut session = started("/work/app");
    session.acquire(1);
    session.acquire(2);
    session.release(1);
    session.shutdown(ShutdownEvent::Begin { caller: 2 });
    assert_eq!(session.acquire(3), Admission::Closed);
    assert_eq!(session.release(2), None);
    assert_eq!(session.holder(), Some(2));
    session.shutdown(ShutdownEvent::ShutdownReplied(Ok(())));
    assert_eq!(session.release(2), None);
    assert_eq!(session.holder(), Some(2));
    session.shutdown(ShutdownEvent::ExitSent(Ok(())));
    session.shutdown(ShutdownEvent::DrivingTaskJoined(Ok(())));
    assert_eq!(session.holder(), None);
    assert_eq!(session.release(2), None);
}

#[test]
fn shutdown_events_out_of_turn_are_ignored() {
    let mut session = started("/work/app");
    let step = session.shutdown(ShutdownEvent::ExitSent(Err("x".to_string())));
    assert!(step.action.is_none());
    assert!(step.log.is_none());
    assert_eq!(session.phase(), SessionPhase::Active);
    session.acquire(1);
    session.shutdown(ShutdownEvent::Begin { caller: 1 });
    let step = session.shutdown(ShutdownEvent::Begin { caller: 1 });
    assert!(step.action.is_none());
    assert_eq!(session.phase(), SessionPhase::ShuttingDown);
    let step = session.shutdown(ShutdownEvent::ExitSent(Ok(())));
    assert!(step.action.is_none());
    assert_eq!(session.phase(), SessionPhase::ShuttingDown);
}

#[test]
fn a_backend_that_dies_during_shutdown_completes_it() {
    let mut session = started("/work/app");
    session.acquire(1);
    session.shutdown(ShutdownEvent::Begin { caller: 1 });
    let step = session.shutdown(ShutdownEvent::DrivingTaskJoined(Err("crashed".to_string())));
    assert_eq!(step.action, Some(ShutdownAction::Finished));
    assert_eq!(step.log.as_deref(), Some("Error joining LSP mainloop task: crashed"));
    assert_eq!(session.phase(), SessionPhase::Closed);
    let step = session.shutdown(ShutdownEvent::ShutdownReplied(Err("closed".to_string())));
    assert_eq!(step.action, Some(ShutdownAction::Finished));
    assert_eq!(step.log.as_deref(), Some("Sending Shutdown request failed: closed"));
    assert_eq!(session.phase(), SessionPhase::Closed);
}

#[test]
fn shutdown_of_a_closed_session_has_nothing_to_do() {
    let mut session = started("/work/app");
    session.shutdown(ShutdownEvent::DrivingTaskJoined(Ok(())));
    assert_eq!(session.phase(), SessionPhase::Closed);
    let step = session.shutdown(ShutdownEvent::Begin { caller: 9 });
    assert_eq!(step.action, Some(ShutdownAction::Finished));
    assert!(step.log.is_none());
    assert_eq!(session.phase(), SessionPhase::Closed);
}

#[test]
fn two_callers_are_served_one_at_a_time() {
    let mut session = started("/work/app");
    assert_eq!(session.acquire(1), Admission::Granted);
    assert_eq!(session.acquire(2), Admission::Queued);
    assert_eq!(session.acquire(3), Admission::Queued);
    assert_eq!(session.holder(), Some(1));
    assert_eq!(session.waiting(), 2);
    assert_eq!(session.release(2), None);
    assert_eq!(session.holder(), Some(1));
    assert_eq!(session.release(1), Some(2));
    assert_eq!(session.holder(), Some(2));
    assert_eq!(session.release(2), Some(3));
    assert_eq!(session.release(3), None);
    assert_eq!(session.holder(), None);
    assert_eq!(session.waiting(), 0);
    assert_eq!(session.acquire(4), Admission::Granted);
}

#[test]
fn one_index_event_wakes_one_waiter() {
    let mut session = started("/work/app");
    assert_eq!(session.await_index(7), IndexWait::Pending);
    assert_eq!(session.await_index(8), IndexWait::Pending);
    assert_eq!(session.index_finished(), Some(7));
    assert_eq!(session.index_waiters(), 1);
    assert_eq!(session.index_events(), 0);
    assert_eq!(session.index_finished(), Some(8));
    assert_eq!(session.index_waiters(), 0);
}

#[test]
fn an_index_event_without_waiter_is_kept() {
    let mut session = started("/work/app");
    assert_eq!(session.index_finished(), None);
    assert_eq!(session.index_finished(), None);
    assert_eq!(session.index_events(), 2);
    assert_eq!(session.await_index(1), IndexWait::Ready);
    assert_eq!(session.await_index(2), IndexWait::Ready);
    assert_eq!(session.index_events(), 0);
    assert_eq!(session.await_index(3), IndexWait::Pending);
}

#[test]
fn a_dead_driving_task_closes_the_session() {
    let mut session = started("/work/app");
    session.acquire(1);
    session.acquire(2);
    session.await_index(3);
    let step = session.shutdown(ShutdownEvent::DrivingTaskJoined(Err("crashed".to_string())));
    assert_eq!(step.action, Some(ShutdownAction::Finished));
    assert_eq!(session.phase(), SessionPhase::Closed);
    assert_eq!(session.holder(), None);
    assert_eq!(session.waiting(), 0);
    assert_eq!(session.index_waiters(), 0);
    assert_eq!(session.acquire(4), Admission::Closed);
    assert_eq!(session.await_index(4), IndexWait::Closed);
    assert_eq!(session.index_finished(), None);
    assert_eq!(session.index_events(), 0);
    let error = session.hover("src/lib.rs", Position { line: 1, character: 2 }).unwrap_err();
    assert_eq!(error.operation, Operation::Hover);
    assert_eq!(error.cause, "session closed");
    assert_eq!(error.message(), "Hover request failed: session closed");
}

#[test]
fn hover_request() {
    let session = started("/work/app");
    let q = session.hover("src/lib.rs", Position { line: 3, character: 9 }).unwrap();
    assert_eq!(q.operation, Operation::Hover);
    assert_eq!(q.uri, "file:///work/app/src/lib.rs");
    assert_eq!(q.position, Some(Position { line: 3, character: 9 }));
    assert!(!q.include_declaration);
}

#[test]
fn repeated_hover_builds_the_same_request() {
    let session = started("/work/app");
    let a = session.hover("src/lib.rs", Position { line: 3, character: 9 }).unwrap();
    let b = session.hover("src/lib.rs", Position { line: 3, character: 9 }).unwrap();
    assert_eq!(a.uri, b.uri);
    assert_eq!(a.position, b.position);
    assert_eq!(a.operation, b.operation);
    let first = settle(Operation::Hover, Ok::<Option<String>, String>(Some("fn main()".to_string())));
    let second = settle(Operation::Hover, Ok::<Option<String>, String>(Some("fn main()".to_string())));
    assert_eq!(first.unwrap(), second.unwrap());
}

#[test]
fn type_definition_request() {
    let session = started("/work/app");
    let q = session.type_definition("src/a b.rs", Position { line: 0, character: 0 }).unwrap();
    assert_eq!(q.operation, Operation::TypeDefinition);
    assert_eq!(q.uri, "file:///work/app/src/a%20b.rs");
    assert_eq!(q.position, Some(Position { line: 0, character: 0 }));
    assert!(!q.include_declaration);
}

#[test]
fn references_request_includes_the_declaration() {
    let session = started("/work/app");
    let q = session.find_references("src/lib.rs", Position { line: 10, character: 1 }).unwrap();
    assert_eq!(q.operation, Operation::References);
    assert_eq!(q.uri, "file:///work/app/src/lib.rs");
    assert_eq!(q.position, Some(Position { line: 10, character: 1 }));
    assert!(q.include_declaration);
}

#[test]
fn document_symbols_request() {
    let session = started("/work/app");
    let q = session.document_symbols("src/lib.rs").unwrap();
    assert_eq!(q.operation, Operation::DocumentSymbols);
    assert_eq!(q.uri, "file:///work/app/src/lib.rs");
    assert_eq!(q.position, None);
    assert!(!q.include_declaration);
}

#[test]
fn open_file_notice() {
    let session = started("/work/app");
    let n = session.open_file("src/lib.rs", "fn main() {}".to_string()).unwrap();
    assert_eq!(n.uri, "file:///work/app/src/lib.rs");
    assert_eq!(n.language_id, "rust");
    assert_eq!(n.version, 0);
    assert_eq!(n.text, "fn main() {}");
}

#[test]
fn a_path_without_url_is_an_operation_error() {
    let project = project_at("/work/app");
    let (mut boot, _) = Bootstrap::new();
    boot.advance(BootEvent::BackendProbed { found: true }, &project);
    boot.advance(BootEvent::BackendSpawned(SpawnOutcome::Started), &project);
    boot.advance(BootEvent::InitializeReplied(Ok(())), &project);
    boot.advance(BootEvent::InitializedSent(Ok(())), &project);
    boot.advance(BootEvent::ReadinessWired, &project);
    let session = RustAnalyzerLsp::new(&boot, project_at("not/absolute")).unwrap();
    let error = session.document_symbols("src/lib.rs").unwrap_err();
    assert_eq!(error.operation, Operation::DocumentSymbols);
    assert_eq!(error.cause, "Failed to create file URI");
    let error = session.open_file("src/lib.rs", String::new()).unwrap_err();
    assert_eq!(error.operation, Operation::OpenFile);
    assert_eq!(error.message(), "Sending DidOpen notification failed: Failed to create file URI");
}

#[test]
fn settle_passes_answers_through_and_wraps_failures() {
    let ok = settle(Operation::References, Ok::<u32, String>(5));
    assert_eq!(ok.unwrap(), 5);
    let err = settle(Operation::References, Err::<u32, String>("timeout".to_string())).unwrap_err();
    assert_eq!(err.operation, Operation::References);
    assert_eq!(err.cause, "timeout");
    assert_eq!(err.message(), "References request failed: timeout");
}

#[test]
fn failure_sentences() {
    assert_eq!(Operation::Hover.failure(), "Hover request failed");
    assert_eq!(Operation::TypeDefinition.failure(), "Type definition request failed");
    assert_eq!(Operation::References.failure(), "References request failed");
    assert_eq!(Operation::DocumentSymbols.failure(), "Document symbols request failed");
    assert_eq!(Operation::OpenFile.failure(), "Sending DidOpen notification failed");
    assert_eq!(Operation::AwaitIndex.failure(), "Failed waiting for index");
    assert_eq!(Operation::Shutdown.failure(), "Sending Shutdown request failed");
    let e = OperationError { operation: Operation::AwaitIndex, cause: "channel closed".to_string() };
    assert_eq!(e.message(), "Failed waiting for index: channel closed");
}

#[test]
fn nested_symbols_give_none() {
    let r = settle_document_symbols(Ok(Some(DocumentSymbolResponse::Nested)));
    assert!(matches!(r, Ok(None)));
    assert!(flat_symbols(Some(DocumentSymbolResponse::Nested)).is_none());
    assert!(flat_symbols(None).is_none());
}

#[test]
fn flat_symbols_pass_through() {
    let list = vec![symbol("main", 3), symbol("helper", 9)];
    let r = settle_document_symbols(Ok(Some(DocumentSymbolResponse::Flat(list)))).unwrap().unwrap();
    assert_eq!(r.len(), 2);
    assert_eq!(r[0].name, "main");
    assert_eq!(r[1].name, "helper");
    assert_eq!(r[1].start, Position { line: 9, character: 4 });
    let r = settle_document_symbols(Ok(None));
    assert!(matches!(r, Ok(None)));
    let e = settle_document_symbols(Err("gone".to_string())).unwrap_err();
    assert_eq!(e.operation, Operation::DocumentSymbols);
    assert_eq!(e.cause, "gone");
}

#[test]
fn next_action_for_each_phase() {
    let ok = || Ok::<(), String>(());
    let begin = ShutdownEvent::Begin { caller: 4 };
    assert_eq!(next_action(SessionPhase::Active, Some(4), &begin), Some(ShutdownAction::SendShutdown));
    assert_eq!(next_action(SessionPhase::Active, Some(5), &begin), None);
    assert_eq!(next_action(SessionPhase::Active, None, &begin), None);
    assert_eq!(
        next_action(SessionPhase::ShuttingDown, Some(4), &ShutdownEvent::ShutdownReplied(ok())),
        Some(ShutdownAction::SendExit)
    );
    assert_eq!(
        next_action(SessionPhase::Exiting, Some(4), &ShutdownEvent::ExitSent(ok())),
        Some(ShutdownAction::JoinDrivingTask)
    );
    assert_eq!(
        next_action(SessionPhase::Joining, Some(4), &ShutdownEvent::DrivingTaskJoined(ok())),
        Some(ShutdownAction::Finished)
    );
    assert_eq!(
        next_action(SessionPhase::Active, None, &ShutdownEvent::DrivingTaskJoined(ok())),
        Some(ShutdownAction::Finished)
    );
    assert_eq!(next_action(SessionPhase::Closed, None, &begin), Some(ShutdownAction::Finished));
    assert_eq!(next_action(SessionPhase::Joining, Some(4), &begin), None);
    assert_eq!(next_action(SessionPhase::Active, Some(4), &ShutdownEvent::ExitSent(ok())), None);
    assert_eq!(
        next_action(SessionPhase::Exiting, Some(4), &ShutdownEvent::ShutdownReplied(ok())),
        None
    );
}

#[test]
fn failure_log_lines() {
    assert_eq!(failure_log(ShutdownEvent::Begin { caller: 1 }), None);
    assert_eq!(failure_log(ShutdownEvent::ShutdownReplied(Ok(()))), None);
    assert_eq!(failure_log(ShutdownEvent::ExitSent(Ok(()))), None);
    assert_eq!(failure_log(ShutdownEvent::DrivingTaskJoined(Ok(()))), None);
    assert_eq!(
        failure_log(ShutdownEvent::ShutdownReplied(Err("a".to_string()))),
        Some("Sending Shutdown request failed: a".to_string())
    );
    assert_eq!(
        failure_log(ShutdownEvent::ExitSent(Err("b".to_string()))),
        Some("Sending Exit notification failed: b".to_string())
    );
    assert_eq!(
        failure_log(ShutdownEvent::DrivingTaskJoined(Err("c".to_string()))),
        Some("Error joining LSP mainloop task: c".to_string())
    );
}

#[test]
fn step_takes_the_root_url_as_given() {
    let project = project_at("/work/app");
    let (mut boot, _) = Bootstrap::new();
    boot.step(BootEvent::BackendProbed { found: true }, &project, None);
    assert_eq!(boot.phase(), BootPhase::Spawning);
    let a = boot.step(
        BootEvent::BackendSpawned(SpawnOutcome::Started),
        &project,
        Some("file:///elsewhere".to_string()),
    );
    assert!(matches!(
        a,
        Some(BootAction::SendInitialize(request))
            if request.root_uri == "file:///elsewhere" && request.root_name == "root"
    ));
    assert_eq!(boot.phase(), BootPhase::Initializing);

    let (mut boot, _) = Bootstrap::new();
    boot.step(BootEvent::BackendProbed { found: true }, &project, None);
    let a = boot.step(BootEvent::BackendSpawned(SpawnOutcome::Started), &project, None);
    assert!(matches!(
        a,
        Some(BootAction::Abort(BootstrapError::HandshakeFailed { cause }))
            if cause == "Failed to create project root URI"
    ));
    assert_eq!(boot.phase(), BootPhase::Failed);
}

#[test]
fn settle_address_for_each_case() {
    let r = settle_address(SessionPhase::Active, Operation::Hover, Some("file:///a".to_string()));
    assert_eq!(r.unwrap(), "file:///a");
    let e = settle_address(SessionPhase::Active, Operation::Hover, None).unwrap_err();
    assert_eq!(e.operation, Operation::Hover);
    assert_eq!(e.cause, "Failed to create file URI");
    let e = settle_address(SessionPhase::Closed, Operation::References, Some("file:///a".to_string()))
        .unwrap_err();
    assert_eq!(e.operation, Operation::References);
    assert_eq!(e.cause, "session closed");
    let e = settle_address(SessionPhase::Joining, Operation::OpenFile, Some("file:///a".to_string()))
        .unwrap_err();
    assert_eq!(e.cause, "session closed");
    let e = settle_address(SessionPhase::Closed, Operation::OpenFile, None).unwrap_err();
    assert_eq!(e.cause, "Failed to create file URI");
}

#[test]
fn the_session_keeps_the_project_it_was_given() {
    let project = Project {
        root: "/work/app".to_string(),
        ignore_crates: vec!["serde".to_string(), "tokio".to_string()],
    };
    let (mut boot, _) = Bootstrap::new();
    boot.advance(BootEvent::BackendProbed { found: true }, &project);
    boot.advance(BootEvent::BackendSpawned(SpawnOutcome::Started), &project);
    boot.advance(BootEvent::InitializeReplied(Ok(())), &project);
    boot.advance(BootEvent::InitializedSent(Ok(())), &project);
    boot.advance(BootEvent::ReadinessWired, &project);
    let mut session = RustAnalyzerLsp::new(&boot, project).unwrap();
    session.acquire(1);
    session.release(1);
    session.index_finished();
    assert_eq!(session.project().root, "/work/app");
    assert_eq!(session.project().ignore_crates, vec!["serde".to_string(), "tokio".to_string()]);
}

#[test]
fn which_progress_marks_a_finished_index() {
    let indexing = ProgressToken::Text("rustAnalyzer/Indexing".to_string());
    let priming = ProgressToken::Text("rustAnalyzer/cachePriming".to_string());
    let other = ProgressToken::Text("rustAnalyzer/Fetching".to_string());
    assert!(is_index_finished(&indexing, ProgressStage::End));
    assert!(is_index_finished(&priming, ProgressStage::End));
    assert!(!is_index_finished(&indexing, ProgressStage::Begin));
    assert!(!is_index_finished(&indexing, ProgressStage::Report));
    assert!(!is_index_finished(&other, ProgressStage::End));
    assert!(!is_index_finished(&ProgressToken::Number(3), ProgressStage::End));
    assert!(!is_index_finished(&ProgressToken::Text(String::new()), ProgressStage::End));
}

#[test]
fn progress_feeds_the_readiness_barrier() {
    let mut session = started("/work/app");
    let indexing = ProgressToken::Text("rustAnalyzer/Indexing".to_string());
    assert_eq!(session.await_index(7), IndexWait::Pending);
    assert_eq!(session.progress(&indexing, ProgressStage::Report), None);
    assert_eq!(session.index_waiters(), 1);
    assert_eq!(session.progress(&ProgressToken::Number(1), ProgressStage::End), None);
    assert_eq!(session.index_waiters(), 1);
    assert_eq!(session.progress(&indexing, ProgressStage::End), Some(7));
    assert_eq!(session.index_waiters(), 0);
    assert_eq!(session.progress(&indexing, ProgressStage::End), None);
    assert_eq!(session.index_events(), 1);
}
