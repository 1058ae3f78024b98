//! What is reported when a message cannot be decoded.

use vstd::prelude::*;
use crate::bhaptics_studio::tact::grammar::Field;

verus! {

/// Why a message was rejected.
#[derive(Clone, Copy, Debug, PartialEq, Eq, Structural)]
pub enum DecodeReason {
    /// The bytes are not a JSON document.
    Malformed,
    /// A required field is not there.
    MissingField,
    /// A body position, playback curve, moving pattern or feedback mode that
    /// the protocol does not know.
    UnknownValue,
    /// A message form or a `Type` discriminator that the protocol does not know.
    UnknownTag,
    /// A value that is not in one of the encodings its field accepts.
    WrongEncoding,
}

/// A rejected message: the reason, and the piece of wire text that names the
/// fault. The fragment is the offending tag or value where the reason is
/// `UnknownTag` or `UnknownValue`, the canonical name of the field at fault
/// where it is `MissingField` or `WrongEncoding` (empty for the message as a
/// whole), and empty where it is `Malformed`.
#[derive(Clone, Debug, PartialEq, Eq)]
pub struct DecodeError {
    pub reason: DecodeReason,
    pub fragment: String,
}

/// The mathematical value of a [`DecodeError`].
pub struct DecodeErrorView {
    pub reason: DecodeReason,
    pub fragment: Seq<char>,
}

impl View for DecodeError {
    type V = DecodeErrorView;

    open spec fn view(&self) -> DecodeErrorView {
        DecodeErrorView { reason: self.reason, fragment: self.fragment@ }
    }
}

/// The error for bytes that are no JSON document.
pub open spec fn malformed() -> DecodeErrorView {
    DecodeErrorView { reason: DecodeReason::Malformed, fragment: Seq::empty() }
}

/// The error for a required field that is absent.
pub open spec fn missing(field: Field) -> DecodeErrorView {
    DecodeErrorView { reason: DecodeReason::MissingField, fragment: field.canonical() }
}

/// The error for a field whose value is not in an accepted encoding.
pub open spec fn wrong(field: Field) -> DecodeErrorView {
    DecodeErrorView { reason: DecodeReason::WrongEncoding, fragment: field.canonical() }
}

/// The error for a message that, as a whole, has not the shape of one.
pub open spec fn misshapen() -> DecodeErrorView {
    DecodeErrorView { reason: DecodeReason::WrongEncoding, fragment: Seq::empty() }
}

/// The error for an enumerated value that the protocol does not know.
pub open spec fn unknown_value(text: Seq<char>) -> DecodeErrorView {
    DecodeErrorView { reason: DecodeReason::UnknownValue, fragment: text }
}

/// The error for a tag that the protocol does not know.
pub open spec fn unknown_tag(text: Seq<char>) -> DecodeErrorView {
    DecodeErrorView { reason: DecodeReason::UnknownTag, fragment: text }
}

/// The view of a decoding result: the view of the value, or of the error.
pub open spec fn result_view<T: View>(r: Result<T, DecodeError>) -> Result<T::V, DecodeErrorView> {
    match r {
        Ok(v) => Ok(v@),
        Err(e) => Err(e@),
    }
}

impl DecodeError {
    pub fn malformed() -> (e: DecodeError)
        ensures
            e@ == malformed(),
    {
        DecodeError { reason: DecodeReason::Malformed, fragment: String::new() }
    }

    pub fn missing(field: Field) -> (e: DecodeError)
        ensures
            e@ == missing(field),
    {
        DecodeError { reason: DecodeReason::MissingField, fragment: String::from_str(field.name()) }
    }

    pub fn wrong(field: Field) -> (e: DecodeError)
        ensures
            e@ == wrong(field),
    {
        DecodeError {
            reason: DecodeReason::WrongEncoding,
            fragment: String::from_str(field.name()),
        }
    }

    pub fn misshapen() -> (e: DecodeError)
        ensures
            e@ == misshapen(),
    {
        DecodeError { reason: DecodeReason::WrongEncoding, fragment: String::new() }
    }

    pub fn unknown_value(text: &str) -> (e: DecodeError)
        ensures
            e@ == unknown_value(text@),
    {
        DecodeError { reason: DecodeReason::UnknownValue, fragment: String::from_str(text) }
    }

    pub fn unknown_tag(text: &str) -> (e: DecodeError)
        ensures
            e@ == unknown_tag(text@),
    {
        DecodeError { reason: DecodeReason::UnknownTag, fragment: String::from_str(text) }
    }
}

} // verus!
