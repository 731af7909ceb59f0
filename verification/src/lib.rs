//! The core of a language server's transport shell: the handlers of the
//! handshake and of `shutdown`, the lifecycle of a connection, and the
//! dispatch from a decoded message to what the server sends in return.
//!
//! Reading and writing the streams, framing and JSON are left to the caller.

pub mod backend;
pub mod capabilities;
pub mod lifecycle;
pub mod message;
pub mod window;

pub use backend::Backend;
pub use capabilities::{InitializeResult, ServerCapabilities, ServerInfo};
pub use lifecycle::ConnectionState;
pub use message::{Inbound, Method, Outgoing};
pub use window::{LogMessage, MessageType, GREETING};
