//! The server's side of a connection: one handler per method, and the
//! dispatch that picks the handler for a message.

use vstd::prelude::*;
use crate::capabilities::{InitializeResult, InitializeResultView, ServerCapabilities};
use crate::lifecycle::{ConnectionState, Lifecycle};
use crate::message::{Inbound, Method, Outgoing};
use crate::window::{LogMessage, LogMessageView, GREETING};
use tower_lsp::jsonrpc::Error;
use tower_lsp::lsp_types::{InitializeParams, InitializedParams};

verus! {

/// The server's end of one connection.
///
/// It keeps track of the lifecycle and turns no message away: every handler
/// answers in every state.
#[derive(Debug)]
pub struct Backend {
    state: ConnectionState,
    initialize_answered: bool,
}

impl View for Backend {
    type V = Lifecycle;

    closed spec fn view(&self) -> Lifecycle {
        Lifecycle { state: self.state, initialize_answered: self.initialize_answered }
    }
}

impl Backend {
    #[verifier::type_invariant]
    spec fn well_formed(self) -> bool {
        self@.wf()
    }

    /// The server's end of a connection on which nothing has been received.
    pub fn new() -> (backend: Backend)
        ensures
            backend@ == Lifecycle::fresh(),
    {
        Backend { state: ConnectionState::Uninitialized, initialize_answered: false }
    }

    /// The state of the connection. A connection that has left
    /// `Uninitialized` has answered an `initialize` request.
    pub fn state(&self) -> (state: ConnectionState)
        ensures
            state == self@.state,
            self@.wf(),
    {
        proof {
            use_type_invariant(self);
        }
        self.state
    }

    /// Handles an `initialize` request: answers with a result that advertises
    /// no capability and names no server, whatever `params` holds.
    pub fn initialize(&mut self, params: InitializeParams) -> (reply: Result<
        InitializeResult,
        Error,
    >)
        ensures
            reply matches Ok(result) && result@ == InitializeResultView::unset(),
            final(self)@ == old(self)@.after(Method::Initialize),
    {
        self.initialize_answered = true;
        Ok(
            InitializeResult {
                capabilities: ServerCapabilities::default(),
                ..InitializeResult::default()
            },
        )
    }

    /// Handles an `initialized` notification: hands back the one log message
    /// to send to the client, the greeting at severity `Info`.
    pub fn initialized(&mut self, params: InitializedParams) -> (message: LogMessage)
        ensures
            message@ == LogMessageView::greeting(),
            final(self)@ == old(self)@.after(Method::Initialized),
    {
        if self.state == ConnectionState::Uninitialized && self.initialize_answered {
            self.state = ConnectionState::Initialized;
        }
        LogMessage::info(GREETING)
    }

    /// Handles a `shutdown` request: acknowledges it, in every state.
    pub fn shutdown(&mut self) -> (reply: Result<(), Error>)
        ensures
            reply is Ok,
            final(self)@ == old(self)@.after(Method::Shutdown),
    {
        proof {
            use_type_invariant(&*self);
        }
        if self.state == ConnectionState::Initialized {
            self.state = ConnectionState::ShuttingDown;
        }
        Ok(())
    }

    /// Hands `message` to the handler of its method and collects what the
    /// server sends in return, in order.
    pub fn handle(&mut self, message: Inbound) -> (sent: Vec<Outgoing>)
        ensures
            sent@.len() == old(self)@.emits(message.method()).len(),
            forall|i: int|
                0 <= i < sent@.len() ==> (#[trigger] sent@[i])@ == old(self)@.emits(
                    message.method(),
                )[i],
            final(self)@ == old(self)@.after(message.method()),
    {
        let first = match message {
            Inbound::Initialize(params) => match self.initialize(params) {
                Ok(result) => Outgoing::InitializeResponse(result),
                Err(error) => Outgoing::ErrorResponse(error),
            },
            Inbound::Initialized(params) => Outgoing::LogMessage(self.initialized(params)),
            Inbound::Shutdown => match self.shutdown() {
                Ok(()) => Outgoing::ShutdownResponse,
                Err(error) => Outgoing::ErrorResponse(error),
            },
        };
        let mut sent: Vec<Outgoing> = Vec::new();
        sent.push(first);
        sent
    }
}

} // verus!
