//! The lifecycle of a connection as a state machine over mathematical values:
//! which state follows a message, and what the server sends in return.

use vstd::prelude::*;
use crate::capabilities::InitializeResultView;
use crate::message::{Method, OutgoingView};
use crate::window::LogMessageView;

verus! {

/// Where a connection stands in the protocol's lifecycle.
#[derive(Clone, Copy, Debug, PartialEq, Eq, Structural)]
pub enum ConnectionState {
    /// The handshake has not been completed.
    Uninitialized,
    /// The handshake has been completed.
    Initialized,
    /// The client has asked the server to shut down.
    ShuttingDown,
}

impl ConnectionState {
    /// How far along the lifecycle the state lies.
    pub open spec fn rank(self) -> nat {
        match self {
            ConnectionState::Uninitialized => 0,
            ConnectionState::Initialized => 1,
            ConnectionState::ShuttingDown => 2,
        }
    }
}

/// What a server remembers of a connection.
pub struct Lifecycle {
    /// The state of the connection.
    pub state: ConnectionState,
    /// Whether an `initialize` request has been answered.
    pub initialize_answered: bool,
}

impl Lifecycle {
    /// A connection on which nothing has been received.
    pub open spec fn fresh() -> Lifecycle {
        Lifecycle { state: ConnectionState::Uninitialized, initialize_answered: false }
    }

    /// A connection leaves `Uninitialized` only after an `initialize` request
    /// has been answered.
    pub open spec fn wf(self) -> bool {
        self.state != ConnectionState::Uninitialized ==> self.initialize_answered
    }

    /// The connection after the server has handled `method`.
    ///
    /// The handshake is complete when `initialized` arrives on a connection
    /// whose `initialize` request has been answered; `shutdown` moves an
    /// initialized connection on. Nothing else changes the state, and no
    /// message is turned away.
    pub open spec fn after(self, method: Method) -> Lifecycle {
        match method {
            Method::Initialize => Lifecycle { initialize_answered: true, ..self },
            Method::Initialized => if self.state == ConnectionState::Uninitialized
                && self.initialize_answered {
                Lifecycle { state: ConnectionState::Initialized, ..self }
            } else {
                self
            },
            Method::Shutdown => if self.state == ConnectionState::Initialized {
                Lifecycle { state: ConnectionState::ShuttingDown, ..self }
            } else {
                self
            },
        }
    }

    /// What the server sends when it handles `method`, in order.
    pub open spec fn emits(self, method: Method) -> Seq<OutgoingView> {
        match method {
            Method::Initialize => seq![
                OutgoingView::InitializeResponse(InitializeResultView::unset()),
            ],
            Method::Initialized => seq![OutgoingView::LogMessage(LogMessageView::greeting())],
            Method::Shutdown => seq![OutgoingView::ShutdownResponse],
        }
    }

    /// The connection after the server has handled `methods` one after another.
    pub open spec fn after_all(self, methods: Seq<Method>) -> Lifecycle
        decreases methods.len(),
    {
        if methods.len() == 0 {
            self
        } else {
            self.after_all(methods.drop_last()).after(methods.last())
        }
    }
}

/// Every method is answered in the same way in every state: what a
/// connection has been through changes nothing in what the server sends.
pub proof fn lemma_answer_ignores_state(one: Lifecycle, other: Lifecycle, method: Method)
    ensures
        one.emits(method) == other.emits(method),
{
}

/// A request is answered by one message, a success response, and nothing
/// else is sent; a notification is answered by no response.
pub proof fn lemma_requests_succeed(connection: Lifecycle, method: Method)
    ensures
        method.is_request() ==> connection.emits(method).len() == 1 && connection.emits(
            method,
        )[0].is_success(),
        !method.is_request() ==> forall|i: int|
            0 <= i < connection.emits(method).len() ==> !(#[trigger] connection.emits(
                method,
            )[i]).is_response(),
{
}

/// A second `shutdown` request is acknowledged like the first, and leaves the
/// connection as the first left it.
pub proof fn lemma_shutdown_twice(connection: Lifecycle)
    ensures
        connection.emits(Method::Shutdown) == seq![OutgoingView::ShutdownResponse],
        connection.after(Method::Shutdown).emits(Method::Shutdown) == seq![
            OutgoingView::ShutdownResponse,
        ],
        connection.after(Method::Shutdown).after(Method::Shutdown) == connection.after(
            Method::Shutdown,
        ),
{
}

/// On a connection that is not yet initialized, `initialize` followed by
/// `initialized` completes the handshake, and `shutdown` then moves the
/// connection on.
pub proof fn lemma_lifecycle_path(connection: Lifecycle)
    requires
        connection.state == ConnectionState::Uninitialized,
    ensures
        connection.after(Method::Initialize).state == ConnectionState::Uninitialized,
        connection.after(Method::Initialize).after(Method::Initialized).state
            == ConnectionState::Initialized,
        connection.after(Method::Initialize).after(Method::Initialized).after(
            Method::Shutdown,
        ).state == ConnectionState::ShuttingDown,
{
}

/// Without an answered `initialize` request, `initialized` leaves the
/// connection as it is.
pub proof fn lemma_initialized_needs_initialize(connection: Lifecycle)
    requires
        !connection.initialize_answered,
    ensures
        connection.after(Method::Initialized) == connection,
{
}

/// No message takes a connection back to an earlier state.
pub proof fn lemma_never_goes_back(connection: Lifecycle, method: Method)
    ensures
        connection.state.rank() <= connection.after(method).state.rank(),
        connection.initialize_answered ==> connection.after(method).initialize_answered,
{
}

/// Handling a message keeps a connection well formed.
pub proof fn lemma_after_keeps_wf(connection: Lifecycle, method: Method)
    requires
        connection.wf(),
    ensures
        connection.after(method).wf(),
{
}

/// No sequence of messages takes a connection back to an earlier state.
pub proof fn lemma_after_all_never_goes_back(connection: Lifecycle, methods: Seq<Method>)
    ensures
        connection.state.rank() <= connection.after_all(methods).state.rank(),
        connection.initialize_answered ==> connection.after_all(methods).initialize_answered,
    decreases methods.len(),
{
    if methods.len() > 0 {
        lemma_after_all_never_goes_back(connection, methods.drop_last());
        lemma_never_goes_back(connection.after_all(methods.drop_last()), methods.last());
    }
}

/// Whatever a fresh connection receives, it stays well formed.
pub proof fn lemma_reachable_is_wf(methods: Seq<Method>)
    ensures
        Lifecycle::fresh().after_all(methods).wf(),
    decreases methods.len(),
{
    if methods.len() > 0 {
        lemma_reachable_is_wf(methods.drop_last());
        lemma_after_keeps_wf(Lifecycle::fresh().after_all(methods.drop_last()), methods.last());
    }
}

} // verus!
