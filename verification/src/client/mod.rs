//! Desktop client: session state machine, handshake replies, session loop
//! decisions and the values handed to the user interface.

pub mod state;
pub mod error;
pub mod config;
pub mod handshake;
pub mod commands;
pub mod session_loop;
pub mod media;
