//! The adapter for the bHaptics studio client: its wire protocol, and the
//! canonical commands that the protocol's messages stand for.

pub mod command;
pub mod dispatch;
pub mod server;
pub mod tact;
pub mod ws;
