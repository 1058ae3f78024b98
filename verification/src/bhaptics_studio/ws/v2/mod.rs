//! The second version of the websocket protocol.

pub mod behavior;
pub mod model;
