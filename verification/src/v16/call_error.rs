//! The error response frame.

use vstd::prelude::*;

verus! {

/// An error response frame: `[4, unique_id, error_code, error_description,
/// error_details]`. Every field is required and uniquely named, so there is
/// no ambiguity in either direction. The details mapping may be empty; it is
/// held as a pair list that keeps the wire order and any duplicate keys,
/// rather than as a sorted-unique map.
///
/// The `message_id` must be 4 for the frame to encode; a decoded frame
/// carries the code that stood in the array.
#[derive(Debug, PartialEq, Eq, Clone)]
pub struct CallError {
    pub message_id: i32,
    pub unique_id: String,
    pub error_code: String,
    pub error_description: String,
    pub error_details: Vec<(String, String)>,
}

impl CallError {
    pub fn new(
        unique_id: String,
        error_code: String,
        error_description: String,
        error_details: Vec<(String, String)>,
    ) -> (r: CallError)
        ensures
            r == (CallError {
                message_id: 4,
                unique_id,
                error_code,
                error_description,
                error_details,
            }),
    {
        CallError { message_id: 4, unique_id, error_code, error_description, error_details }
    }
}

} // verus!
