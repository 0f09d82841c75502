//! Server-side decision logic around the message loop: which
//! messages may run while initialization is still under way, the
//! diagnostic capabilities the server registers, and the error value
//! a failed shutdown handshake reports.

use vstd::prelude::*;

verus! {

/// An editor-protocol message, reduced to what the gating decision
/// reads: its kind and, for requests and notifications, its method.
pub enum LspMessage {
    Request { method: String },
    Notification { method: String },
    Response,
}

/// Which messages may be handled before initialization finishes:
/// every response, and only the notifications that configure,
/// cancel, or complete initialization; requests always wait.
pub open spec fn spec_can_process_during_init(msg: LspMessage) -> bool {
    match msg {
        LspMessage::Response => true,
        LspMessage::Notification { method } => method@ == "workspace/didChangeConfiguration"@
            || method@ == "$/cancelRequest"@ || method@ == "initialized"@,
        LspMessage::Request { .. } => false,
    }
}

pub fn can_process_during_init(msg: &LspMessage) -> (r: bool)
    ensures
        r == spec_can_process_during_init(*msg),
{
    match msg {
        LspMessage::Response => true,
        LspMessage::Notification { method } => {
            let a: String = "workspace/didChangeConfiguration".to_owned();
            let b: String = "$/cancelRequest".to_owned();
            let c: String = "initialized".to_owned();
            *method == a || *method == b || *method == c
        },
        LspMessage::Request { .. } => false,
    }
}

/// What came back while waiting for the exit notification after a
/// shutdown response was sent.
pub enum ShutdownWait {
    Message(LspMessage),
    ChannelClosed,
    TimedOut,
}

/// How a shutdown handshake ends.
#[derive(Clone, Copy, PartialEq, Eq, Structural, Debug)]
pub enum ShutdownOutcome {
    /// The request was not a shutdown request at all.
    NotShutdown,
    /// Shutdown completed: the exit notification arrived.
    Exit,
    /// Some other message arrived during shutdown.
    UnexpectedMessage,
    /// The channel closed while waiting.
    ChannelClosedEarly,
    /// No exit notification arrived in time.
    WaitTimedOut,
}

/// Whether a request method asks for shutdown.
pub open spec fn spec_is_shutdown(method: Seq<char>) -> bool {
    method == "shutdown"@
}

/// Decide a shutdown handshake: a non-shutdown request changes
/// nothing; once the response went out, only the exit notification
/// ends the session cleanly, and anything else is an error the
/// transport reports.
pub fn handle_shutdown_decision(request_method: &String, waited: ShutdownWait) -> (r:
    ShutdownOutcome)
    ensures
        !spec_is_shutdown(request_method@) ==> r == ShutdownOutcome::NotShutdown,
        spec_is_shutdown(request_method@) ==> match waited {
            ShutdownWait::Message(LspMessage::Notification { method }) => (method@ == "exit"@
                ==> r == ShutdownOutcome::Exit) && (method@ != "exit"@ ==> r
                == ShutdownOutcome::UnexpectedMessage),
            ShutdownWait::Message(_) => r == ShutdownOutcome::UnexpectedMessage,
            ShutdownWait::ChannelClosed => r == ShutdownOutcome::ChannelClosedEarly,
            ShutdownWait::TimedOut => r == ShutdownOutcome::WaitTimedOut,
        },
{
    let shutdown: String = "shutdown".to_owned();
    if *request_method != shutdown {
        return ShutdownOutcome::NotShutdown;
    }
    match waited {
        ShutdownWait::Message(LspMessage::Notification { method }) => {
            let exit: String = "exit".to_owned();
            if method == exit {
                ShutdownOutcome::Exit
            } else {
                ShutdownOutcome::UnexpectedMessage
            }
        },
        ShutdownWait::Message(_) => ShutdownOutcome::UnexpectedMessage,
        ShutdownWait::ChannelClosed => ShutdownOutcome::ChannelClosedEarly,
        ShutdownWait::TimedOut => ShutdownOutcome::WaitTimedOut,
    }
}

/// What the initialization channel reported when polled.
#[derive(Clone, Copy, PartialEq, Eq, Structural, Debug)]
pub enum InitSignal {
    /// Initialization finished.
    Ready,
    /// Still initializing.
    Pending,
    /// The initialization task went away without reporting.
    Closed,
}

/// The message-gating state while the server starts up: whether
/// initialization completed, and how many messages wait for it.
pub struct ServerMessageProcessor {
    pub initialization_complete: bool,
    pub pending_count: u64,
}

impl ServerMessageProcessor {
    pub fn new() -> (r: ServerMessageProcessor)
        ensures
            !r.initialization_complete,
            r.pending_count == 0,
    {
        ServerMessageProcessor { initialization_complete: false, pending_count: 0 }
    }

    /// Poll the initialization signal: the first `Ready` or `Closed`
    /// completes initialization and tells the caller to drain the
    /// pending messages; afterwards, and while pending, nothing
    /// changes.
    pub fn check_initialization_complete(&mut self, signal: InitSignal) -> (r: bool)
        ensures
            old(self).initialization_complete ==> (!r && *final(self) == *old(self)),
            (!old(self).initialization_complete && signal == InitSignal::Pending) ==> (!r
                && *final(self) == *old(self)),
            (!old(self).initialization_complete && signal != InitSignal::Pending) ==> (r
                && final(self).initialization_complete && final(self).pending_count == old(
                self,
            ).pending_count),
    {
        if !self.initialization_complete {
            match signal {
                InitSignal::Ready => {
                    self.initialization_complete = true;
                    return true;
                },
                InitSignal::Pending => {},
                InitSignal::Closed => {
                    self.initialization_complete = true;
                    return true;
                },
            }
        }
        false
    }

    /// Queue one message that must wait for initialization.
    pub fn queue_pending(&mut self) -> (r: ())
        requires
            old(self).pending_count < 0xffffffffffffffffu64,
        ensures
            final(self).pending_count == old(self).pending_count + 1,
            final(self).initialization_complete == old(self).initialization_complete,
    {
        self.pending_count = self.pending_count + 1;
    }
}

/// The error a failed shutdown handshake reports.
pub struct ExitError(pub String);

impl ExitError {
    pub fn new(message: String) -> (r: ExitError)
        ensures
            r.0 == message,
    {
        ExitError(message)
    }

    /// The report's text, for the transport layer to format.
    pub fn message(&self) -> (r: &String)
        ensures
            r == &self.0,
    {
        &self.0
    }
}

/// The options under which the server registers its diagnostic
/// provider.
pub struct DiagnosticRegistrationOptions {
    pub identifier: Option<String>,
    pub inter_file_dependencies: bool,
    pub workspace_diagnostics: bool,
}

/// Registration of the document-diagnostic capability.
pub struct DocumentDiagnosticCapabilities;

impl DocumentDiagnosticCapabilities {
    /// The diagnostic provider this server announces: identified by
    /// its product name, per-file only, no workspace-wide pass.
    pub fn register_capabilities() -> (r: DiagnosticRegistrationOptions)
        ensures
            r.identifier matches Some(id) && id@ == "EmmyLua"@,
            !r.inter_file_dependencies,
            !r.workspace_diagnostics,
    {
        let id: String = "EmmyLua".to_owned();
        DiagnosticRegistrationOptions {
            identifier: Some(id),
            inter_file_dependencies: false,
            workspace_diagnostics: false,
        }
    }
}

} // verus!
