//! The relay server's session logic: codes, sessions, the registry, per-IP rate
//! limiting and the signaling state machine of a connection.

pub mod code;
pub mod session;
pub mod state;
pub mod rate_limit;
pub mod handler;
pub mod socket;
pub mod client_addr;
