//! The websocket endpoint of the studio protocol.

pub mod v2;
