//! A compact, line-oriented rendering of messages for logging.

use vstd::prelude::*;

use crate::json::{str_map_rep, encode_str_map, JObj, JsonRep, JsonValue};
use crate::json_write::{json_text, json_to_string};
use crate::v16::call::action_entries;
use crate::v16::call_result::payload_entries;
use crate::v16::parse::Message;

verus! {

use vstd::string::StringExecFns;

/// One log line: the message kind, the payload's type, and the payload
/// rendered as JSON text.
#[derive(Debug, PartialEq, Eq, Clone)]
pub struct MessageLogLine {
    pub core_type: String,
    pub payload_type: String,
    pub payload: String,
}

/// The object an error frame is rendered as when logged.
pub open spec fn error_log_entries(e: crate::v16::call_error::CallError) -> JObj {
    seq![
        ("error_code"@, JsonRep::Str(e.error_code@)),
        ("error_description"@, JsonRep::Str(e.error_description@)),
        ("error_details"@, JsonRep::Object(str_map_rep(e.error_details@))),
    ]
}

impl MessageLogLine {
    /// Renders a message for logging: a request is logged under its action
    /// name, a response under its resolved variant name, and an error under
    /// its code and description.
    pub fn from_message(message: &Message) -> (r: MessageLogLine)
        ensures
            match message {
                Message::Call(c) => r.core_type@ == "Call"@ && r.payload_type@ == c.action@
                    && r.payload@ == json_text(JsonRep::Object(action_entries(c.payload))),
                Message::CallResult(cr) => r.core_type@ == "CallResult"@ && r.payload_type@
                    == cr.payload.name_spec() && r.payload@ == json_text(
                    JsonRep::Object(payload_entries(cr.payload)),
                ),
                Message::CallError(ce) => r.core_type@ == "CallError"@ && r.payload_type@
                    == "Error"@ && r.payload@ == json_text(JsonRep::Object(error_log_entries(*ce))),
            },
    {
        match message {
            Message::Call(call) => MessageLogLine {
                core_type: String::from_str("Call"),
                payload_type: call.action.clone(),
                payload: json_to_string(&call.payload.encode()),
            },
            Message::CallResult(call_result) => MessageLogLine {
                core_type: String::from_str("CallResult"),
                payload_type: call_result.payload.name(),
                payload: json_to_string(&call_result.payload.encode()),
            },
            Message::CallError(call_error) => {
                let mut e: Vec<(String, JsonValue)> = Vec::new();
                e.push(
                    (
                        String::from_str("error_code"),
                        JsonValue::Str(call_error.error_code.clone()),
                    ),
                );
                e.push(
                    (
                        String::from_str("error_description"),
                        JsonValue::Str(call_error.error_description.clone()),
                    ),
                );
                e.push(
                    (
                        String::from_str("error_details"),
                        JsonValue::Object(encode_str_map(&call_error.error_details)),
                    ),
                );
                let ghost ge = e;
                let obj = JsonValue::Object(e);
                proof {
                    crate::json::lemma_obj_rep_points(ge);
                    assert(crate::json::obj_rep(ge, 0) =~= error_log_entries(*call_error));
                }
                MessageLogLine {
                    core_type: String::from_str("CallError"),
                    payload_type: String::from_str("Error"),
                    payload: json_to_string(&obj),
                }
            },
        }
    }
}

} // verus!
