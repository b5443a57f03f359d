//! Failure taxonomy for decoding and encoding.

use vstd::prelude::*;

verus! {

/// Recorded when an encoder is handed a message whose internal type code
/// disagrees with the array slot it would be written to.
#[derive(Debug, Clone, PartialEq, Eq)]
pub struct CallTypeMismatch {
    /// The type code the message's variant requires on the wire.
    pub expected: i32,
    /// The type code actually stored in the message.
    pub found: i32,
}

/// Names the shape and the field on which a structural decode failed.
#[derive(Debug, Clone, PartialEq, Eq)]
pub struct FieldDecodeError {
    /// The shape (action or response) being decoded.
    pub shape: String,
    /// The field that was missing or had the wrong type.
    pub field: String,
}

/// Everything that can go wrong while turning wire text into a typed message
/// or a typed message back into wire text.
#[derive(Debug, Clone, PartialEq, Eq)]
pub enum Error {
    /// The leading type code could not be found, or was outside {2, 3, 4}.
    InvalidMessageCallType,
    /// Reserved: the scan recognizes only ASCII digits, and every digit it
    /// finds yields a verdict, so this variant is never produced.
    InvalidMessageCallTypeParsing,
    /// The message text is not well-formed JSON.
    MalformedJson,
    /// The outer array does not have the arity or slot types of its frame.
    MalformedFrame,
    /// A request named an action absent from the catalog; the raw name is kept.
    UnknownAction(String),
    /// A required field was missing or type-mismatched within a known shape.
    FieldDecode(FieldDecodeError),
    /// A response payload matched none of the ordered candidate shapes.
    NoMatchingResultShape,
    /// On encode, the message's internal type code disagrees with its variant.
    CallTypeMismatch(CallTypeMismatch),
}

pub type Result<T> = core::result::Result<T, Error>;

} // verus!
