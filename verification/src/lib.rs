//! The decisions of a WebSocket Secure transport for an RPC daemon, free of I/O and verified.
//!
//! - `transport`: what to make of the messages of a peer and of its silence; `heartbeat` states
//!   what holds of a whole read.
//! - `writer`: what to send next, and when to stop; `delivery` states what holds of a writer's
//!   whole life.
//! - `listener`: when to serve, back off or give up, and how many clients there are; `service`
//!   states what holds of the whole serve loop.
//! - `accept`: which failures of `accept` are transient.
//! - `tls`: from PEM files to a TLS acceptor.
//! - `message`: WebSocket messages.

pub mod accept;
pub mod delivery;
pub mod heartbeat;
pub mod listener;
pub mod message;
pub mod service;
pub mod tls;
pub mod transport;
pub mod writer;

pub use accept::is_recoverable_accept_error;
pub use tls::build_tls_acceptor;
pub use transport::WssTransport;
