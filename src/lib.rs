//! The verified core of a blocking secure-WebSocket transport: the rule that
//! keeps the connection endpoint on the secure WebSocket scheme, and the
//! diagnostic text of the transport.
pub mod diagnostic;
pub mod endpoint;
pub mod url_ops;
