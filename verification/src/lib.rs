//! Teleportal Remote: verified core of the remote-desktop protocol, the relay
//! server's session logic, the desktop client's session state machine, and the
//! platform-independent parts of capture, cursor sync, input and updates.

pub mod text;
pub mod protocol;
pub mod clock;
pub mod relay;
pub mod capture;
pub mod input;
pub mod cursor;
pub mod shared;
pub mod updater;
pub mod client;
pub mod transport;
