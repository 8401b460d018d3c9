//! The session handle: one guard over the connection, the readiness barrier,
//! the queries and the shutdown sequence.
//!
//! The handle holds no socket. It decides who may use the connection, who is
//! woken by an index-finished notification, what is sent for each query and
//! how a shutdown proceeds; the program around it sends, awaits and wakes.

use vstd::prelude::*;
use vstd::string::*;
use crate::project::{Project, file_url_text, joined_path, opt_view};
use crate::lsp::bootstrap::{
    Bootstrap, BootPhase, BootEvent, BootActionView, SpawnOutcome, boot_run, boot_last_action,
    lemma_reachable_backend_starts,
};

verus! {

/// Where a session stands in its life.
#[derive(Clone, Copy, PartialEq, Eq, Structural, Debug)]
pub enum SessionPhase {
    /// Queries are served.
    Active,
    /// The `shutdown` request is out.
    ShuttingDown,
    /// The `exit` notification is being sent.
    Exiting,
    /// Waiting for the driving task to end.
    Joining,
    /// The driving task has ended; the backend is gone.
    Closed,
}

/// The operations of a session.
#[derive(Clone, Copy, PartialEq, Eq, Structural, Debug)]
pub enum Operation {
    Hover,
    TypeDefinition,
    References,
    DocumentSymbols,
    OpenFile,
    AwaitIndex,
    Shutdown,
}

/// A place in a document: line and character, both from zero.
#[derive(Clone, Copy, PartialEq, Eq, Structural, Debug)]
pub struct Position {
    pub line: u32,
    pub character: u32,
}

/// The answer to a caller that asks for the connection.
#[derive(Clone, Copy, PartialEq, Eq, Structural, Debug)]
pub enum Admission {
    /// The caller holds the guard and may send its request.
    Granted,
    /// Another caller holds the guard; this one waits its turn.
    Queued,
    /// The session serves no more requests.
    Closed,
}

/// The answer to a caller that waits for the index.
#[derive(Clone, Copy, PartialEq, Eq, Structural, Debug)]
pub enum IndexWait {
    /// An index-finished event was pending and is now consumed.
    Ready,
    /// No event is pending; the caller waits for the next one.
    Pending,
    /// The session has ended; no event will come.
    Closed,
}

/// What the program reports to the shutdown sequencer.
pub enum ShutdownEvent {
    /// Shutdown is asked for by `caller`, which must hold the guard over
    /// the connection: the shutdown request is a request like any other.
    Begin { caller: u64 },
    /// The `shutdown` request was answered, or failed.
    ShutdownReplied(Result<(), String>),
    /// The `exit` notification was sent, or could not be.
    ExitSent(Result<(), String>),
    /// The driving task has ended, well or badly.
    DrivingTaskJoined(Result<(), String>),
}

/// What the program is to do next in a shutdown.
#[derive(Clone, Copy, PartialEq, Eq, Structural, Debug)]
pub enum ShutdownAction {
    SendShutdown,
    SendExit,
    JoinDrivingTask,
    /// The backend is gone: report success to the caller.
    Finished,
}

/// One step of a shutdown: what to do, and what to write to the log.
#[derive(Debug)]
pub struct ShutdownStep {
    pub action: Option<ShutdownAction>,
    pub log: Option<String>,
}

/// A request about a document.
#[derive(Debug)]
pub struct Query {
    pub operation: Operation,
    pub uri: String,
    pub position: Option<Position>,
    pub include_declaration: bool,
}

pub struct QueryView {
    pub operation: Operation,
    pub uri: Seq<char>,
    pub position: Option<Position>,
    pub include_declaration: bool,
}

impl View for Query {
    type V = QueryView;

    open spec fn view(&self) -> QueryView {
        QueryView {
            operation: self.operation,
            uri: self.uri@,
            position: self.position,
            include_declaration: self.include_declaration,
        }
    }
}

/// The notification that a document was opened.
#[derive(Debug)]
pub struct OpenNotice {
    pub uri: String,
    pub language_id: String,
    pub version: i32,
    pub text: String,
}

pub struct OpenNoticeView {
    pub uri: Seq<char>,
    pub language_id: Seq<char>,
    pub version: i32,
    pub text: Seq<char>,
}

impl View for OpenNotice {
    type V = OpenNoticeView;

    open spec fn view(&self) -> OpenNoticeView {
        OpenNoticeView {
            uri: self.uri@,
            language_id: self.language_id@,
            version: self.version,
            text: self.text@,
        }
    }
}

/// A failed operation: which one, and why.
#[derive(Debug)]
pub struct OperationError {
    pub operation: Operation,
    pub cause: String,
}

pub struct OperationErrorView {
    pub operation: Operation,
    pub cause: Seq<char>,
}

impl View for OperationError {
    type V = OperationErrorView;

    open spec fn view(&self) -> OperationErrorView {
        OperationErrorView { operation: self.operation, cause: self.cause@ }
    }
}

impl Operation {
    /// The sentence that names a failure of the operation.
    pub open spec fn failure_text(self) -> Seq<char> {
        match self {
            Operation::Hover => "Hover request failed"@,
            Operation::TypeDefinition => "Type definition request failed"@,
            Operation::References => "References request failed"@,
            Operation::DocumentSymbols => "Document symbols request failed"@,
            Operation::OpenFile => "Sending DidOpen notification failed"@,
            Operation::AwaitIndex => "Failed waiting for index"@,
            Operation::Shutdown => "Sending Shutdown request failed"@,
        }
    }

    /// The sentence that names a failure of the operation.
    pub fn failure(&self) -> (r: &'static str)
        ensures
            r@ == self.failure_text(),
    {
        match self {
            Operation::Hover => "Hover request failed",
            Operation::TypeDefinition => "Type definition request failed",
            Operation::References => "References request failed",
            Operation::DocumentSymbols => "Document symbols request failed",
            Operation::OpenFile => "Sending DidOpen notification failed",
            Operation::AwaitIndex => "Failed waiting for index",
            Operation::Shutdown => "Sending Shutdown request failed",
        }
    }
}

impl OperationErrorView {
    /// The text shown for the error: the operation's sentence, then the cause.
    pub open spec fn message(self) -> Seq<char> {
        self.operation.failure_text() + ": "@ + self.cause
    }
}

impl OperationError {
    /// The text shown for the error: the operation's sentence, then the cause.
    pub fn message(&self) -> (r: String)
        ensures
            r@ == self@.message(),
    {
        String::from_str(self.operation.failure()).concat(": ").concat(self.cause.as_str())
    }
}

/// One symbol of a document, as the backend lists it.
#[derive(Debug, Clone)]
pub struct SymbolInformation {
    pub name: String,
    pub kind: u32,
    pub uri: String,
    pub start: Position,
    pub end: Position,
    pub container_name: Option<String>,
}

/// The two shapes in which a backend may list a document's symbols.
#[derive(Debug)]
pub enum DocumentSymbolResponse {
    /// A plain list, as the handshake asked for.
    Flat(Vec<SymbolInformation>),
    /// A tree, which a conforming backend does not send here.
    Nested,
}

/// The symbols of a flat answer; nothing for a tree or for no answer.
pub fn flat_symbols(response: Option<DocumentSymbolResponse>) -> (r: Option<
    Vec<SymbolInformation>,
>)
    ensures
        r == match response {
            Some(DocumentSymbolResponse::Flat(symbols)) => Some(symbols),
            Some(DocumentSymbolResponse::Nested) => None,
            None => None,
        },
{
    match response {
        Some(DocumentSymbolResponse::Flat(symbols)) => Some(symbols),
        Some(DocumentSymbolResponse::Nested) => None,
        None => None,
    }
}

/// Passes a backend's answer through, and wraps a transport failure with the
/// operation it belongs to.
pub fn settle<T>(operation: Operation, reply: Result<T, String>) -> (r: Result<T, OperationError>)
    ensures
        r == match reply {
            Ok(value) => Ok::<T, OperationError>(value),
            Err(cause) => Err::<T, OperationError>(OperationError { operation, cause }),
        },
{
    match reply {
        Ok(value) => Ok(value),
        Err(cause) => Err(OperationError { operation, cause }),
    }
}

/// Settles a document-symbols reply: a flat list passes through, a tree
/// becomes `None`, a transport failure becomes the operation's error.
pub fn settle_document_symbols(reply: Result<Option<DocumentSymbolResponse>, String>) -> (r: Result<
    Option<Vec<SymbolInformation>>,
    OperationError,
>)
    ensures
        r == match reply {
            Ok(Some(DocumentSymbolResponse::Flat(symbols))) => Ok::<
                Option<Vec<SymbolInformation>>,
                OperationError,
            >(Some(symbols)),
            Ok(_) => Ok::<Option<Vec<SymbolInformation>>, OperationError>(None),
            Err(cause) => Err::<Option<Vec<SymbolInformation>>, OperationError>(
                OperationError { operation: Operation::DocumentSymbols, cause },
            ),
        },
{
    match settle(Operation::DocumentSymbols, reply) {
        Ok(response) => Ok(flat_symbols(response)),
        Err(error) => Err(error),
    }
}

/// The mathematical state of a session.
pub struct SessionView {
    /// The project that the session serves.
    pub project: Project,
    pub phase: SessionPhase,
    /// The caller that holds the guard over the connection.
    pub holder: Option<u64>,
    /// The callers that wait for the guard, first come first.
    pub waiting: Seq<u64>,
    /// Index-finished events that no caller has consumed yet.
    pub index_events: u64,
    /// The callers that wait for an index-finished event, first come first.
    pub index_waiters: Seq<u64>,
}

/// The log line for a step of the shutdown that failed.
pub open spec fn shutdown_log(event: ShutdownEvent) -> Option<Seq<char>> {
    match event {
        ShutdownEvent::Begin { .. } => None,
        ShutdownEvent::ShutdownReplied(Err(cause)) => Some(
            "Sending Shutdown request failed: "@ + cause@,
        ),
        ShutdownEvent::ExitSent(Err(cause)) => Some(
            "Sending Exit notification failed: "@ + cause@,
        ),
        ShutdownEvent::DrivingTaskJoined(Err(cause)) => Some(
            "Error joining LSP mainloop task: "@ + cause@,
        ),
        _ => None,
    }
}

/// The action that takes a shutdown on from `phase` when `event` arrives,
/// `holder` being the caller that holds the guard. A shutdown begins only
/// for the caller that holds the guard, so that its request is the one
/// request out. After that each phase waits for one event, and the outcome
/// that the event carries plays no part: a failed step is logged and the
/// shutdown goes on. The end of the driving task completes the shutdown in
/// whatever phase it comes, and once the session is closed nothing is left
/// to do. Any other event is out of turn and asks for nothing.
pub open spec fn shutdown_action(
    phase: SessionPhase,
    holder: Option<u64>,
    event: ShutdownEvent,
) -> Option<ShutdownAction> {
    match (phase, event) {
        (_, ShutdownEvent::DrivingTaskJoined(_)) => Some(ShutdownAction::Finished),
        (SessionPhase::Closed, _) => Some(ShutdownAction::Finished),
        (SessionPhase::Active, ShutdownEvent::Begin { caller }) => if holder == Some(caller) {
            Some(ShutdownAction::SendShutdown)
        } else {
            None
        },
        (SessionPhase::ShuttingDown, ShutdownEvent::ShutdownReplied(_)) => Some(
            ShutdownAction::SendExit,
        ),
        (SessionPhase::Exiting, ShutdownEvent::ExitSent(_)) => Some(
            ShutdownAction::JoinDrivingTask,
        ),
        _ => None,
    }
}

/// The phase that an action of the shutdown leads to.
pub open spec fn phase_after(action: ShutdownAction) -> SessionPhase {
    match action {
        ShutdownAction::SendShutdown => SessionPhase::ShuttingDown,
        ShutdownAction::SendExit => SessionPhase::Exiting,
        ShutdownAction::JoinDrivingTask => SessionPhase::Joining,
        ShutdownAction::Finished => SessionPhase::Closed,
    }
}

impl SessionView {
    /// A session as start-up hands it out.
    pub open spec fn fresh(project: Project) -> SessionView {
        SessionView {
            project,
            phase: SessionPhase::Active,
            holder: None,
            waiting: Seq::empty(),
            index_events: 0,
            index_waiters: Seq::empty(),
        }
    }

    /// Nobody waits for a free guard, nobody waits while an event is pending,
    /// a closed session holds no callers, and a shutdown under way holds the
    /// guard.
    pub open spec fn wf(self) -> bool {
        &&& self.holder.is_none() ==> self.waiting.len() == 0
        &&& self.index_events > 0 ==> self.index_waiters.len() == 0
        &&& self.phase == SessionPhase::Closed ==> self.holder.is_none() && self.waiting.len() == 0
            && self.index_waiters.len() == 0 && self.index_events == 0
        &&& self.phase != SessionPhase::Active && self.phase != SessionPhase::Closed
            ==> self.holder.is_some()
    }

    /// The session with every caller let go, in the closed phase.
    pub open spec fn closed(self) -> SessionView {
        SessionView {
            project: self.project,
            phase: SessionPhase::Closed,
            holder: None,
            waiting: Seq::empty(),
            index_events: 0,
            index_waiters: Seq::empty(),
        }
    }

    /// A caller asks for the connection: it is granted only while the session
    /// is active and no one holds the guard; behind a holder it queues.
    pub open spec fn acquire(self, caller: u64) -> (SessionView, Admission) {
        if self.phase != SessionPhase::Active {
            (self, Admission::Closed)
        } else if self.holder.is_none() {
            (SessionView { holder: Some(caller), ..self }, Admission::Granted)
        } else {
            (SessionView { waiting: self.waiting.push(caller), ..self }, Admission::Queued)
        }
    }

    /// The holder gives the guard back: it passes to the caller that has
    /// waited longest, who is named in the result. A caller that does not
    /// hold the guard changes nothing; nor does the caller that shuts the
    /// session down, which keeps the guard until the session is closed.
    pub open spec fn release(self, caller: u64) -> (SessionView, Option<u64>) {
        if self.holder != Some(caller) || self.phase != SessionPhase::Active {
            (self, None)
        } else if self.waiting.len() > 0 {
            (
                SessionView { holder: Some(self.waiting[0]), waiting: self.waiting.remove(0), ..self },
                Some(self.waiting[0]),
            )
        } else {
            (SessionView { holder: None, ..self }, None)
        }
    }

    /// A caller waits for the index: a pending event is consumed at once,
    /// else the caller joins the waiters.
    pub open spec fn await_index(self, caller: u64) -> (SessionView, IndexWait) {
        if self.phase == SessionPhase::Closed {
            (self, IndexWait::Closed)
        } else if self.index_events > 0 {
            (SessionView { index_events: (self.index_events - 1) as u64, ..self }, IndexWait::Ready)
        } else {
            (
                SessionView { index_waiters: self.index_waiters.push(caller), ..self },
                IndexWait::Pending,
            )
        }
    }

    /// The backend reports a finished index: the caller that has waited
    /// longest is released, and only that one; with no waiter the event is
    /// kept for the next to ask. The count of kept events stops at the
    /// largest `u64`.
    pub open spec fn index_finished(self) -> (SessionView, Option<u64>) {
        if self.phase == SessionPhase::Closed {
            (self, None)
        } else if self.index_waiters.len() > 0 {
            (
                SessionView { index_waiters: self.index_waiters.remove(0), ..self },
                Some(self.index_waiters[0]),
            )
        } else if self.index_events < u64::MAX {
            (SessionView { index_events: (self.index_events + 1) as u64, ..self }, None)
        } else {
            (self, None)
        }
    }

    /// One step of the shutdown.
    pub open spec fn shutdown(self, event: ShutdownEvent) -> (SessionView, Option<ShutdownAction>) {
        match shutdown_action(self.phase, self.holder, event) {
            Some(ShutdownAction::Finished) => (self.closed(), Some(ShutdownAction::Finished)),
            Some(action) => (SessionView { phase: phase_after(action), ..self }, Some(action)),
            None => (self, None),
        }
    }

    /// The address of a document for an operation, or the operation's error.
    pub open spec fn address(self, operation: Operation, relative_path: Seq<char>) -> Result<
        Seq<char>,
        OperationErrorView,
    > {
        address_of(self.phase, operation, file_url_text(joined_path(self.project.root@, relative_path)))
    }

    /// The request that an operation sends for a document.
    pub open spec fn query(
        self,
        operation: Operation,
        relative_path: Seq<char>,
        position: Option<Position>,
        include_declaration: bool,
    ) -> Result<QueryView, OperationErrorView> {
        match self.address(operation, relative_path) {
            Ok(uri) => Ok(QueryView { operation, uri, position, include_declaration }),
            Err(error) => Err(error),
        }
    }

    /// The notification that `open_file` sends for a document.
    pub open spec fn open_notice(self, relative_path: Seq<char>, text: Seq<char>) -> Result<
        OpenNoticeView,
        OperationErrorView,
    > {
        match self.address(Operation::OpenFile, relative_path) {
            Ok(uri) => Ok(OpenNoticeView { uri, language_id: "rust"@, version: 0, text }),
            Err(error) => Err(error),
        }
    }
}

/// The address of a document for an operation, given the document's URL if
/// its path has one, or the operation's error: the path must give a URL, and
/// the session must still be active.
pub open spec fn address_of(phase: SessionPhase, operation: Operation, url: Option<Seq<char>>) -> Result<
    Seq<char>,
    OperationErrorView,
> {
    match url {
        None => Err(OperationErrorView { operation, cause: "Failed to create file URI"@ }),
        Some(uri) => if phase == SessionPhase::Active {
            Ok(uri)
        } else {
            Err(OperationErrorView { operation, cause: "session closed"@ })
        },
    }
}

/// The view of a built request or its error.
pub open spec fn query_view(r: Result<Query, OperationError>) -> Result<
    QueryView,
    OperationErrorView,
> {
    match r {
        Ok(q) => Ok(q@),
        Err(e) => Err(e@),
    }
}

/// The view of a built notification or its error.
pub open spec fn notice_view(r: Result<OpenNotice, OperationError>) -> Result<
    OpenNoticeView,
    OperationErrorView,
> {
    match r {
        Ok(n) => Ok(n@),
        Err(e) => Err(e@),
    }
}

/// The view of an address or its error.
pub open spec fn address_view(r: Result<String, OperationError>) -> Result<
    Seq<char>,
    OperationErrorView,
> {
    match r {
        Ok(u) => Ok(u@),
        Err(e) => Err(e@),
    }
}

/// The view of an optional log line.
pub open spec fn log_view(log: Option<String>) -> Option<Seq<char>> {
    match log {
        Some(s) => Some(s@),
        None => None,
    }
}

/// The address of a document for an operation in a session that is in
/// `phase`, given the document's URL if its path has one.
pub fn settle_address(phase: SessionPhase, operation: Operation, url: Option<String>) -> (r: Result<
    String,
    OperationError,
>)
    ensures
        address_view(r) == address_of(phase, operation, opt_view(url)),
{
    match url {
        None => Err(
            OperationError { operation, cause: String::from_str("Failed to create file URI") },
        ),
        Some(uri) => {
            if phase == SessionPhase::Active {
                Ok(uri)
            } else {
                Err(OperationError { operation, cause: String::from_str("session closed") })
            }
        },
    }
}

/// The action that takes a shutdown on from `phase` when `event` arrives,
/// `holder` being the caller that holds the guard.
pub fn next_action(phase: SessionPhase, holder: Option<u64>, event: &ShutdownEvent) -> (r: Option<
    ShutdownAction,
>)
    ensures
        r == shutdown_action(phase, holder, *event),
{
    match (phase, event) {
        (_, ShutdownEvent::DrivingTaskJoined(_)) => Some(ShutdownAction::Finished),
        (SessionPhase::Closed, _) => Some(ShutdownAction::Finished),
        (SessionPhase::Active, ShutdownEvent::Begin { caller }) => {
            match holder {
                Some(current) => {
                    if current == *caller {
                        Some(ShutdownAction::SendShutdown)
                    } else {
                        None
                    }
                },
                None => None,
            }
        },
        (SessionPhase::ShuttingDown, ShutdownEvent::ShutdownReplied(_)) => Some(
            ShutdownAction::SendExit,
        ),
        (SessionPhase::Exiting, ShutdownEvent::ExitSent(_)) => Some(
            ShutdownAction::JoinDrivingTask,
        ),
        _ => None,
    }
}

/// The log line for a step of the shutdown that failed.
pub fn failure_log(event: ShutdownEvent) -> (r: Option<String>)
    ensures
        log_view(r) == shutdown_log(event),
{
    match event {
        ShutdownEvent::Begin { .. } => None,
        ShutdownEvent::ShutdownReplied(Err(cause)) => Some(
            String::from_str("Sending Shutdown request failed: ").concat(cause.as_str()),
        ),
        ShutdownEvent::ExitSent(Err(cause)) => Some(
            String::from_str("Sending Exit notification failed: ").concat(cause.as_str()),
        ),
        ShutdownEvent::DrivingTaskJoined(Err(cause)) => Some(
            String::from_str("Error joining LSP mainloop task: ").concat(cause.as_str()),
        ),
        _ => None,
    }
}

/// The token that names the work a progress notification is about.
#[derive(Debug, Clone)]
pub enum ProgressToken {
    Number(i32),
    Text(String),
}

/// The stage of the work that a progress notification reports.
#[derive(Clone, Copy, PartialEq, Eq, Structural, Debug)]
pub enum ProgressStage {
    Begin,
    Report,
    End,
}

/// Whether a progress notification says that the backend has finished
/// indexing: the end of the work named `rustAnalyzer/Indexing` or
/// `rustAnalyzer/cachePriming`.
pub open spec fn marks_index_finished(token: ProgressToken, stage: ProgressStage) -> bool {
    stage == ProgressStage::End && (token matches ProgressToken::Text(name) && (name@
        == "rustAnalyzer/Indexing"@ || name@ == "rustAnalyzer/cachePriming"@))
}

/// Whether a progress notification says that the backend has finished
/// indexing.
pub fn is_index_finished(token: &ProgressToken, stage: ProgressStage) -> (r: bool)
    ensures
        r == marks_index_finished(*token, stage),
{
    if stage != ProgressStage::End {
        return false;
    }
    match token {
        ProgressToken::Number(_) => false,
        ProgressToken::Text(name) => {
            let indexing = String::from_str("rustAnalyzer/Indexing");
            let priming = String::from_str("rustAnalyzer/cachePriming");
            *name == indexing || *name == priming
        },
    }
}

/// A live session with one backend.
#[derive(Debug)]
pub struct RustAnalyzerLsp {
    project: Project,
    phase: SessionPhase,
    holder: Option<u64>,
    waiting: Vec<u64>,
    index_events: u64,
    index_waiters: Vec<u64>,
}

impl View for RustAnalyzerLsp {
    type V = SessionView;

    closed spec fn view(&self) -> SessionView {
        SessionView {
            project: self.project,
            phase: self.phase,
            holder: self.holder,
            waiting: self.waiting@,
            index_events: self.index_events,
            index_waiters: self.index_waiters@,
        }
    }
}

impl RustAnalyzerLsp {
    /// The session that a completed start-up hands out. A start-up that has
    /// not reached `Ready` gives no session.
    pub fn new(boot: &Bootstrap, project: Project) -> (r: Option<RustAnalyzerLsp>)
        ensures
            r.is_some() == (boot@ == BootPhase::Ready),
            r matches Some(session) ==> session@ == SessionView::fresh(project)
                && session@.wf(),
    {
        if boot.phase() == BootPhase::Ready {
            Some(
                RustAnalyzerLsp {
                    project,
                    phase: SessionPhase::Active,
                    holder: None,
                    waiting: Vec::new(),
                    index_events: 0,
                    index_waiters: Vec::new(),
                },
            )
        } else {
            None
        }
    }

    pub fn phase(&self) -> (r: SessionPhase)
        ensures
            r == self@.phase,
    {
        self.phase
    }

    pub fn project(&self) -> (r: &Project)
        ensures
            *r == self@.project,
    {
        &self.project
    }

    /// The caller that holds the guard, if any.
    pub fn holder(&self) -> (r: Option<u64>)
        ensures
            r == self@.holder,
    {
        self.holder
    }

    /// How many callers wait for the guard.
    pub fn waiting(&self) -> (r: usize)
        ensures
            r == self@.waiting.len(),
    {
        self.waiting.len()
    }

    /// How many callers wait for the index.
    pub fn index_waiters(&self) -> (r: usize)
        ensures
            r == self@.index_waiters.len(),
    {
        self.index_waiters.len()
    }

    /// How many index-finished events are kept for callers to come.
    pub fn index_events(&self) -> (r: u64)
        ensures
            r == self@.index_events,
    {
        self.index_events
    }

    /// A caller asks for the connection.
    pub fn acquire(&mut self, caller: u64) -> (r: Admission)
        ensures
            (final(self)@, r) == old(self)@.acquire(caller),
            old(self)@.wf() ==> final(self)@.wf(),
    {
        if self.phase != SessionPhase::Active {
            Admission::Closed
        } else if self.holder.is_none() {
            self.holder = Some(caller);
            Admission::Granted
        } else {
            self.waiting.push(caller);
            Admission::Queued
        }
    }

    /// The holder gives the guard back; the result names the next holder.
    pub fn release(&mut self, caller: u64) -> (r: Option<u64>)
        ensures
            (final(self)@, r) == old(self)@.release(caller),
            old(self)@.wf() ==> final(self)@.wf(),
    {
        match self.holder {
            Some(current) => {
                if current != caller {
                    return None;
                }
            },
            None => {
                return None;
            },
        }
        if self.phase != SessionPhase::Active {
            return None;
        }
        if self.waiting.len() > 0 {
            let next = self.waiting.remove(0);
            self.holder = Some(next);
            Some(next)
        } else {
            self.holder = None;
            None
        }
    }

    /// A caller waits for the index.
    pub fn await_index(&mut self, caller: u64) -> (r: IndexWait)
        ensures
            (final(self)@, r) == old(self)@.await_index(caller),
            old(self)@.wf() ==> final(self)@.wf(),
    {
        if self.phase == SessionPhase::Closed {
            IndexWait::Closed
        } else if self.index_events > 0 {
            self.index_events = self.index_events - 1;
            IndexWait::Ready
        } else {
            self.index_waiters.push(caller);
            IndexWait::Pending
        }
    }

    /// The backend reports a finished index; the result names the caller to
    /// release, if one waits.
    pub fn index_finished(&mut self) -> (r: Option<u64>)
        ensures
            (final(self)@, r) == old(self)@.index_finished(),
            old(self)@.wf() ==> final(self)@.wf(),
    {
        if self.phase == SessionPhase::Closed {
            None
        } else if self.index_waiters.len() > 0 {
            let woken = self.index_waiters.remove(0);
            Some(woken)
        } else if self.index_events < u64::MAX {
            self.index_events = self.index_events + 1;
            None
        } else {
            None
        }
    }

    /// The backend reports progress: where the notification says that the
    /// index is finished it is taken in as `index_finished` takes it in, and
    /// otherwise it changes nothing.
    pub fn progress(&mut self, token: &ProgressToken, stage: ProgressStage) -> (r: Option<u64>)
        ensures
            (final(self)@, r) == (if marks_index_finished(*token, stage) {
                old(self)@.index_finished()
            } else {
                (old(self)@, None::<u64>)
            }),
            old(self)@.wf() ==> final(self)@.wf(),
    {
        if is_index_finished(token, stage) {
            self.index_finished()
        } else {
            None
        }
    }

    /// One step of the shutdown: takes in what happened and says what to do
    /// next. A step that failed is logged and the sequence goes on; only the
    /// end of the driving task closes the session, and it does so in
    /// whatever phase it is reported, letting every caller go.
    pub fn shutdown(&mut self, event: ShutdownEvent) -> (r: ShutdownStep)
        ensures
            (final(self)@, r.action) == old(self)@.shutdown(event),
            log_view(r.log) == (if r.action.is_some() {
                shutdown_log(event)
            } else {
                None
            }),
            old(self)@.wf() ==> final(self)@.wf(),
    {
        let action = next_action(self.phase, self.holder, &event);
        match action {
            Some(ShutdownAction::Finished) => {
                self.phase = SessionPhase::Closed;
                self.holder = None;
                self.waiting.clear();
                self.index_events = 0;
                self.index_waiters.clear();
            },
            Some(ShutdownAction::SendShutdown) => {
                self.phase = SessionPhase::ShuttingDown;
            },
            Some(ShutdownAction::SendExit) => {
                self.phase = SessionPhase::Exiting;
            },
            Some(ShutdownAction::JoinDrivingTask) => {
                self.phase = SessionPhase::Joining;
            },
            None => {},
        }
        let log = if action.is_some() {
            failure_log(event)
        } else {
            None
        };
        ShutdownStep { action, log }
    }

    /// The address of a document for an operation.
    fn address(&self, operation: Operation, relative_path: &str) -> (r: Result<
        String,
        OperationError,
    >)
        ensures
            address_view(r) == self@.address(operation, relative_path@),
    {
        let url = match self.project.file_uri(relative_path) {
            Ok(uri) => Some(uri),
            Err(_) => None,
        };
        settle_address(self.phase, operation, url)
    }

    /// The notification to send when a document is opened with `text`: Rust
    /// source, version 0. The caller then waits for the index.
    pub fn open_file(&self, relative_path: &str, text: String) -> (r: Result<
        OpenNotice,
        OperationError,
    >)
        ensures
            notice_view(r) == self@.open_notice(relative_path@, text@),
    {
        match self.address(Operation::OpenFile, relative_path) {
            Ok(uri) => Ok(
                OpenNotice { uri, language_id: String::from_str("rust"), version: 0, text },
            ),
            Err(error) => Err(error),
        }
    }

    /// The hover request for a position in a document.
    pub fn hover(&self, relative_path: &str, position: Position) -> (r: Result<
        Query,
        OperationError,
    >)
        ensures
            query_view(r) == self@.query(Operation::Hover, relative_path@, Some(position), false),
    {
        match self.address(Operation::Hover, relative_path) {
            Ok(uri) => Ok(
                Query {
                    operation: Operation::Hover,
                    uri,
                    position: Some(position),
                    include_declaration: false,
                },
            ),
            Err(error) => Err(error),
        }
    }

    /// The type-definition request for a position in a document.
    pub fn type_definition(&self, relative_path: &str, position: Position) -> (r: Result<
        Query,
        OperationError,
    >)
        ensures
            query_view(r) == self@.query(
                Operation::TypeDefinition,
                relative_path@,
                Some(position),
                false,
            ),
    {
        match self.address(Operation::TypeDefinition, relative_path) {
            Ok(uri) => Ok(
                Query {
                    operation: Operation::TypeDefinition,
                    uri,
                    position: Some(position),
                    include_declaration: false,
                },
            ),
            Err(error) => Err(error),
        }
    }

    /// The references request for a position in a document; the declaration
    /// itself is asked for too.
    pub fn find_references(&self, relative_path: &str, position: Position) -> (r: Result<
        Query,
        OperationError,
    >)
        ensures
            query_view(r) == self@.query(
                Operation::References,
                relative_path@,
                Some(position),
                true,
            ),
    {
        match self.address(Operation::References, relative_path) {
            Ok(uri) => Ok(
                Query {
                    operation: Operation::References,
                    uri,
                    position: Some(position),
                    include_declaration: true,
                },
            ),
            Err(error) => Err(error),
        }
    }

    /// The document-symbols request for a document.
    pub fn document_symbols(&self, relative_path: &str) -> (r: Result<Query, OperationError>)
        ensures
            query_view(r) == self@.query(Operation::DocumentSymbols, relative_path@, None, false),
    {
        match self.address(Operation::DocumentSymbols, relative_path) {
            Ok(uri) => Ok(
                Query {
                    operation: Operation::DocumentSymbols,
                    uri,
                    position: None,
                    include_declaration: false,
                },
            ),
            Err(error) => Err(error),
        }
    }
}

/// The state of a session after every event of `events` is taken in by the
/// shutdown sequencer.
pub open spec fn shutdown_run(session: SessionView, events: Seq<ShutdownEvent>) -> SessionView
    decreases events.len(),
{
    if events.len() == 0 {
        session
    } else {
        shutdown_run(session, events.drop_last()).shutdown(events.last()).0
    }
}

/// A step of the shutdown reports completion exactly when it leaves the
/// session closed.
pub proof fn lemma_finished_means_closed(session: SessionView, event: ShutdownEvent)
    ensures
        session.shutdown(event).1 == Some(ShutdownAction::Finished) <==> session.shutdown(
            event,
        ).0.phase == SessionPhase::Closed,
{
}

/// Whatever is reported to the shutdown sequencer, and in whatever order, a
/// session is closed only once the end of the driving task was reported.
pub proof fn lemma_closed_only_after_join(session: SessionView, events: Seq<ShutdownEvent>)
    requires
        session.phase != SessionPhase::Closed,
    ensures
        shutdown_run(session, events).phase == SessionPhase::Closed ==> exists|i: int|
            0 <= i < events.len() && (#[trigger] events[i]) is DrivingTaskJoined,
    decreases events.len(),
{
    if events.len() > 0 {
        let earlier = events.drop_last();
        lemma_closed_only_after_join(session, earlier);
        if shutdown_run(session, events).phase == SessionPhase::Closed {
            if shutdown_run(session, earlier).phase == SessionPhase::Closed {
                let i = choose|i: int|
                    0 <= i < earlier.len() && (#[trigger] earlier[i]) is DrivingTaskJoined;
                assert(events[i] == earlier[i]);
            } else {
                assert(events[events.len() - 1] is DrivingTaskJoined);
            }
        }
    }
}

/// A shutdown by the caller that holds the guard runs its whole course whatever the
/// `shutdown` request and the `exit` notification came to: it asks for both,
/// then for the join, is not closed before the driving task has ended, and
/// reports completion when it has.
pub proof fn lemma_shutdown_always_joins(
    session: SessionView,
    replied: Result<(), String>,
    sent: Result<(), String>,
    joined: Result<(), String>,
    caller: u64,
)
    requires
        session.phase == SessionPhase::Active,
        session.holder == Some(caller),
    ensures
        ({
            let s1 = session.shutdown(ShutdownEvent::Begin { caller });
            let s2 = s1.0.shutdown(ShutdownEvent::ShutdownReplied(replied));
            let s3 = s2.0.shutdown(ShutdownEvent::ExitSent(sent));
            let s4 = s3.0.shutdown(ShutdownEvent::DrivingTaskJoined(joined));
            &&& s1.1 == Some(ShutdownAction::SendShutdown)
            &&& s2.1 == Some(ShutdownAction::SendExit)
            &&& s3.1 == Some(ShutdownAction::JoinDrivingTask)
            &&& s3.0.phase == SessionPhase::Joining
            &&& s4.1 == Some(ShutdownAction::Finished)
            &&& s4.0 == session.closed()
        }),
{
}

/// For a project whose root has a URL and a backend that is present and
/// answers, a start-up followed at once by a shutdown reaches `Ready`, is
/// granted the guard, then runs the shutdown to its end with nothing to log,
/// and leaves the session closed.
pub proof fn lemma_start_then_shutdown(project: Project, caller: u64)
    requires
        file_url_text(project.root@).is_some(),
    ensures
        ({
            let events = seq![
                BootEvent::BackendProbed { found: true },
                BootEvent::BackendSpawned(SpawnOutcome::Started),
                BootEvent::InitializeReplied(Ok(())),
                BootEvent::InitializedSent(Ok(())),
                BootEvent::ReadinessWired,
            ];
            let root = project.root@;
            let url = file_url_text(root);
            let replied = ShutdownEvent::ShutdownReplied(Ok(()));
            let sent = ShutdownEvent::ExitSent(Ok(()));
            let joined = ShutdownEvent::DrivingTaskJoined(Ok(()));
            let s0 = SessionView::fresh(project).acquire(caller);
            let s1 = s0.0.shutdown(ShutdownEvent::Begin { caller });
            let s2 = s1.0.shutdown(replied);
            let s3 = s2.0.shutdown(sent);
            let s4 = s3.0.shutdown(joined);
            &&& boot_run(BootPhase::ProbingBackend, events, root, url) == BootPhase::Ready
            &&& boot_last_action(BootPhase::ProbingBackend, events, root, url) == Some(
                BootActionView::Finish,
            )
            &&& s0.1 == Admission::Granted
            &&& s1.1 == Some(ShutdownAction::SendShutdown)
            &&& shutdown_log(replied).is_none()
            &&& shutdown_log(sent).is_none()
            &&& shutdown_log(joined).is_none()
            &&& s4.1 == Some(ShutdownAction::Finished)
            &&& s4.0.phase == SessionPhase::Closed
        }),
{
    lemma_reachable_backend_starts(project.root@, file_url_text(project.root@));
}

/// What a shutdown sends goes out under the guard: the `shutdown` request
/// only for the caller that holds it, and the `exit` notification while that
/// caller still holds it.
pub proof fn lemma_shutdown_sends_under_guard(session: SessionView, event: ShutdownEvent)
    requires
        session.wf(),
    ensures
        session.shutdown(event).1 == Some(ShutdownAction::SendShutdown) ==> (event matches ShutdownEvent::Begin {
            caller,
        } && session.holder == Some(caller)),
        session.shutdown(event).1 == Some(ShutdownAction::SendShutdown) || session.shutdown(
            event,
        ).1 == Some(ShutdownAction::SendExit) ==> session.holder.is_some()
            && session.shutdown(event).0.holder == session.holder,
{
}

/// The guard is granted exactly when the session is active and no caller
/// holds it.
pub proof fn lemma_grant_needs_free_guard(session: SessionView, caller: u64)
    ensures
        session.acquire(caller).1 == Admission::Granted <==> (session.phase
            == SessionPhase::Active && session.holder.is_none()),
        session.acquire(caller).1 == Admission::Granted ==> session.acquire(caller).0.holder
            == Some(caller),
        session.acquire(caller).1 != Admission::Granted ==> session.acquire(caller).0.holder
            == session.holder,
{
}

/// Two callers are served one after the other: while the first holds the
/// guard the second is queued, and the guard passes to the second only when
/// the first gives it back.
pub proof fn lemma_single_flight(session: SessionView, first: u64, second: u64)
    requires
        session.wf(),
        session.phase == SessionPhase::Active,
        session.holder.is_none(),
    ensures
        ({
            let s1 = session.acquire(first);
            let s2 = s1.0.acquire(second);
            let s3 = s2.0.release(first);
            &&& s1.1 == Admission::Granted
            &&& s2.1 == Admission::Queued
            &&& s2.0.holder == Some(first)
            &&& s3.1 == Some(second)
            &&& s3.0.holder == Some(second)
            &&& s3.0.waiting.len() == 0
        }),
{
    let s1 = session.acquire(first);
    let s2 = s1.0.acquire(second);
    assert(s2.0.waiting =~= seq![second]);
}

/// One index-finished notification releases exactly one of two waiting
/// callers, the one that came first; the other goes on waiting, and no event
/// is left over for it.
pub proof fn lemma_one_event_wakes_one(session: SessionView, first: u64, second: u64)
    requires
        session.phase != SessionPhase::Closed,
        session.index_events == 0,
        session.index_waiters.len() == 0,
    ensures
        ({
            let s1 = session.await_index(first);
            let s2 = s1.0.await_index(second);
            let s3 = s2.0.index_finished();
            &&& s1.1 == IndexWait::Pending
            &&& s2.1 == IndexWait::Pending
            &&& s3.1 == Some(first)
            &&& s3.0.index_waiters == seq![second]
            &&& s3.0.index_events == 0
        }),
{
    let s1 = session.await_index(first);
    let s2 = s1.0.await_index(second);
    let s3 = s2.0.index_finished();
    assert(s1.0.index_waiters =~= seq![first]);
    assert(s2.0.index_waiters =~= seq![first, second]);
    assert(s3.0.index_waiters =~= seq![second]);
}

/// What a caller does at the guard over the connection.
pub enum GuardEvent {
    /// The caller asks for the connection.
    Acquire(u64),
    /// The caller, its request answered, gives the connection back.
    Release(u64),
    /// A step of the shutdown is taken.
    Shutdown(ShutdownEvent),
}

impl SessionView {
    /// The session after one event at the guard.
    pub open spec fn guard_step(self, event: GuardEvent) -> SessionView {
        match event {
            GuardEvent::Acquire(caller) => self.acquire(caller).0,
            GuardEvent::Release(caller) => self.release(caller).0,
            GuardEvent::Shutdown(event) => self.shutdown(event).0,
        }
    }

    /// Whether the event hands the guard to a caller, who then sends its
    /// request: an asker that is granted, or the waiter named by a release.
    pub open spec fn hands_guard(self, event: GuardEvent) -> bool {
        match event {
            GuardEvent::Acquire(caller) => self.acquire(caller).1 == Admission::Granted,
            GuardEvent::Release(caller) => self.release(caller).1.is_some(),
            GuardEvent::Shutdown(_) => false,
        }
    }

    /// Whether the event takes the guard back from the caller that held it:
    /// a release by the holder of an active session, or the step of a
    /// shutdown that closes the session on a holder.
    pub open spec fn takes_guard(self, event: GuardEvent) -> bool {
        match event {
            GuardEvent::Acquire(_) => false,
            GuardEvent::Release(caller) => self.holder == Some(caller) && self.phase
                == SessionPhase::Active,
            GuardEvent::Shutdown(event) => self.holder.is_some() && self.shutdown(event).1
                == Some(ShutdownAction::Finished),
        }
    }
}

/// The session after every event of `events` at the guard.
pub open spec fn guard_run(session: SessionView, events: Seq<GuardEvent>) -> SessionView
    decreases events.len(),
{
    if events.len() == 0 {
        session
    } else {
        guard_run(session, events.drop_last()).guard_step(events.last())
    }
}

/// How many requests are out and unanswered after `events`: the number of
/// times the guard was handed to a caller less the number of times it was
/// taken back.
pub open spec fn outstanding(session: SessionView, events: Seq<GuardEvent>) -> int
    decreases events.len(),
{
    if events.len() == 0 {
        0
    } else {
        let before = guard_run(session, events.drop_last());
        outstanding(session, events.drop_last()) + (if before.hands_guard(events.last()) {
            1int
        } else {
            0int
        }) - (if before.takes_guard(events.last()) {
            1int
        } else {
            0int
        })
    }
}

/// However callers ask for and give back the connection of a session whose
/// guard starts free, and whatever steps of a shutdown are taken between, at
/// most one request is out at any time, and one is out exactly while a
/// caller holds the guard. With `lemma_shutdown_sends_under_guard` this
/// counts the shutdown request: it goes out as the holder's one request.
pub proof fn lemma_at_most_one_outstanding(session: SessionView, events: Seq<GuardEvent>)
    requires
        session.holder.is_none(),
    ensures
        0 <= outstanding(session, events) <= 1,
        outstanding(session, events) == 1 <==> guard_run(session, events).holder.is_some(),
        session.wf() ==> guard_run(session, events).wf(),
    decreases events.len(),
{
    if events.len() > 0 {
        lemma_at_most_one_outstanding(session, events.drop_last());
    }
}

/// What a shutdown sends is the one request that is out: whenever a step of
/// a shutdown asks for the `shutdown` request or the `exit` notification,
/// after whatever callers and earlier steps did, exactly one request is out
/// before the step and after it, and it is the shutdown's.
pub proof fn lemma_shutdown_request_is_the_one_out(
    session: SessionView,
    events: Seq<GuardEvent>,
    event: ShutdownEvent,
)
    requires
        session.wf(),
        session.holder.is_none(),
        guard_run(session, events).shutdown(event).1 == Some(ShutdownAction::SendShutdown)
            || guard_run(session, events).shutdown(event).1 == Some(ShutdownAction::SendExit),
    ensures
        outstanding(session, events) == 1,
        outstanding(session, events.push(GuardEvent::Shutdown(event))) == 1,
        guard_run(session, events.push(GuardEvent::Shutdown(event))).holder == guard_run(
            session,
            events,
        ).holder,
{
    let longer = events.push(GuardEvent::Shutdown(event));
    lemma_at_most_one_outstanding(session, events);
    lemma_shutdown_sends_under_guard(guard_run(session, events), event);
    assert(longer.drop_last() =~= events);
    assert(longer.last() == GuardEvent::Shutdown(event));
}

/// What happens at the readiness barrier.
pub enum IndexEvent {
    /// A caller starts to wait for the index.
    Await(u64),
    /// The backend reports a finished index.
    Finished,
}

impl SessionView {
    /// The session after one event at the readiness barrier.
    pub open spec fn index_step(self, event: IndexEvent) -> SessionView {
        match event {
            IndexEvent::Await(caller) => self.await_index(caller).0,
            IndexEvent::Finished => self.index_finished().0,
        }
    }

    /// Whether the event lets a caller go on: one that finds an event kept
    /// for it, or one that a notification releases.
    pub open spec fn lets_go(self, event: IndexEvent) -> bool {
        match event {
            IndexEvent::Await(caller) => self.await_index(caller).1 == IndexWait::Ready,
            IndexEvent::Finished => self.index_finished().1.is_some(),
        }
    }
}

/// The session after every event of `events` at the readiness barrier.
pub open spec fn index_run(session: SessionView, events: Seq<IndexEvent>) -> SessionView
    decreases events.len(),
{
    if events.len() == 0 {
        session
    } else {
        index_run(session, events.drop_last()).index_step(events.last())
    }
}

/// How many callers `events` let go on.
pub open spec fn let_go(session: SessionView, events: Seq<IndexEvent>) -> int
    decreases events.len(),
{
    if events.len() == 0 {
        0
    } else {
        let_go(session, events.drop_last()) + (if index_run(
            session,
            events.drop_last(),
        ).lets_go(events.last()) {
            1int
        } else {
            0int
        })
    }
}

/// How many notifications of a finished index are among `events`.
pub open spec fn notifications(events: Seq<IndexEvent>) -> int
    decreases events.len(),
{
    if events.len() == 0 {
        0
    } else {
        notifications(events.drop_last()) + (if events.last() is Finished {
            1int
        } else {
            0int
        })
    }
}

/// No caller goes on without a notification of its own: the callers let go,
/// together with the events still kept, never outnumber the notifications
/// that came in and the events kept at the start.
pub proof fn lemma_one_caller_per_notification(session: SessionView, events: Seq<IndexEvent>)
    ensures
        let_go(session, events) + index_run(session, events).index_events <= notifications(events)
            + session.index_events,
    decreases events.len(),
{
    if events.len() > 0 {
        lemma_one_caller_per_notification(session, events.drop_last());
    }
}

/// A query that finds the guard free takes it and gives it back, and leaves
/// the session as it found it; so a second hover at the same place sends the
/// same request as the first. What comes back is the backend's answer, which
/// `settle` passes through unchanged.
pub proof fn lemma_repeated_hover_sends_the_same(
    session: SessionView,
    caller: u64,
    relative_path: Seq<char>,
    position: Position,
)
    requires
        session.wf(),
        session.phase == SessionPhase::Active,
        session.holder.is_none(),
    ensures
        session.acquire(caller).1 == Admission::Granted,
        session.acquire(caller).0.release(caller) == (session, None::<u64>),
        session.acquire(caller).0.release(caller).0.query(
            Operation::Hover,
            relative_path,
            Some(position),
            false,
        ) == session.query(Operation::Hover, relative_path, Some(position), false),
{
    let held = session.acquire(caller).0;
    assert(held.waiting =~= session.waiting);
    assert(held.release(caller).0.waiting =~= session.waiting);
}

} // verus!
