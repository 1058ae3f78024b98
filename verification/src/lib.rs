//! A bridge between the bHaptics studio client and a haptic playback engine.
//!
//! The studio client speaks JSON over a websocket. Its messages are loosely
//! typed: field names come in several spellings, keys come as strings or as
//! numbers, and the operations of a message are told apart by a tag. This
//! library reads those messages, rejects what is not one, and maps the rest
//! to the few canonical commands that a playback engine has to understand.
//! It also says what a connection does with each frame, and writes the status
//! reply that goes back to the client.
//!
//! Nothing here waits, reads or writes: the caller owns the socket and the
//! engine, and hands bytes and answers in.

pub mod bhaptics_studio;
pub mod document;
pub mod enumerated;
pub mod haptic_lib;
pub mod json;
pub mod text;
