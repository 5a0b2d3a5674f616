//! Supervisor and reverse-proxy runtime for a long-running application
//! backend.
//!
//! The crate holds the decision logic of a front-door process: the
//! process-signal fan-out bus, the backend worker state machine with its
//! zero-downtime restart handshake, the startup health barrier, the HTTP and
//! WebSocket proxy data plane (target-URI overlay, response-header rewrite,
//! frame forwarding), and the settings-indirection resolver. Listeners,
//! sockets and the child process itself live outside the library; they feed
//! events in as plain values and carry the returned actions out.

pub mod backend;
pub mod crypto;
pub mod errors;
pub mod expiring;
pub mod headers;
pub mod health;
pub mod metrics;
pub mod oauth2;
pub mod pidfile;
pub mod routes;
pub mod settings;
pub mod signal;
pub mod text;
pub mod uri;
pub mod ws;
