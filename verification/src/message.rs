//! The messages that cross the connection, once decoded and before encoding.

use vstd::prelude::*;
use crate::capabilities::{InitializeResult, InitializeResultView};
use crate::window::{LogMessage, LogMessageView};
use tower_lsp::jsonrpc::Error;
use tower_lsp::lsp_types::{InitializeParams, InitializedParams};

verus! {

/// `tower_lsp::lsp_types::InitializeParams`, the payload of an `initialize`
/// request. Nothing here looks inside it.
#[verifier::external_type_specification]
#[verifier::external_body]
pub struct ExInitializeParams(tower_lsp::lsp_types::InitializeParams);

/// `tower_lsp::lsp_types::InitializedParams`, the payload of an `initialized`
/// notification. Nothing here looks inside it.
#[verifier::external_type_specification]
#[verifier::external_body]
pub struct ExInitializedParams(tower_lsp::lsp_types::InitializedParams);

/// `tower_lsp::jsonrpc::Error`, the error object of a failed request.
/// Nothing here makes one or looks inside it.
#[verifier::external_type_specification]
#[verifier::external_body]
pub struct ExError(tower_lsp::jsonrpc::Error);

/// The methods that a client can invoke on the server.
#[derive(Clone, Copy, Debug, PartialEq, Eq, Structural)]
pub enum Method {
    /// The `initialize` request, which opens the handshake.
    Initialize,
    /// The `initialized` notification, which closes the handshake.
    Initialized,
    /// The `shutdown` request.
    Shutdown,
}

impl Method {
    /// Whether the method is a request, which the server answers with a
    /// response, rather than a notification, which it does not answer.
    pub open spec fn is_request(self) -> bool {
        self != Method::Initialized
    }
}

/// A message from the client.
#[derive(Debug, PartialEq)]
pub enum Inbound {
    /// An `initialize` request.
    Initialize(InitializeParams),
    /// An `initialized` notification.
    Initialized(InitializedParams),
    /// A `shutdown` request.
    Shutdown,
}

impl Inbound {
    /// The method that the message invokes.
    pub open spec fn method(&self) -> Method {
        match self {
            Inbound::Initialize(_) => Method::Initialize,
            Inbound::Initialized(_) => Method::Initialized,
            Inbound::Shutdown => Method::Shutdown,
        }
    }
}

/// A message to the client.
#[derive(Debug, PartialEq, Eq)]
pub enum Outgoing {
    /// The success response to an `initialize` request.
    InitializeResponse(InitializeResult),
    /// The success response to a `shutdown` request; its result is null.
    ShutdownResponse,
    /// The error response to a request that failed.
    ErrorResponse(Error),
    /// A `window/logMessage` notification.
    LogMessage(LogMessage),
}

/// An `Outgoing` message as a mathematical value.
pub enum OutgoingView {
    InitializeResponse(InitializeResultView),
    ShutdownResponse,
    ErrorResponse(Error),
    LogMessage(LogMessageView),
}

impl OutgoingView {
    /// Whether the message answers a request.
    pub open spec fn is_response(self) -> bool {
        !(self is LogMessage)
    }

    /// Whether the message answers a request and reports success.
    pub open spec fn is_success(self) -> bool {
        self is InitializeResponse || self is ShutdownResponse
    }
}

impl View for Outgoing {
    type V = OutgoingView;

    open spec fn view(&self) -> OutgoingView {
        match self {
            Outgoing::InitializeResponse(result) => OutgoingView::InitializeResponse(result@),
            Outgoing::ShutdownResponse => OutgoingView::ShutdownResponse,
            Outgoing::ErrorResponse(error) => OutgoingView::ErrorResponse(*error),
            Outgoing::LogMessage(message) => OutgoingView::LogMessage(message@),
        }
    }
}

} // verus!
