//! Verified core of the ShareBrowser command-line client: command parsing,
//! terminal flag handling, request framing and the interactive session
//! state machine.

pub mod command;
pub mod terminal;
pub mod text;
pub mod protocol;
pub mod client;
