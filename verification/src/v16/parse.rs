//! The envelope layer: sniffing the type code, decoding a wire frame into a
//! typed [`Message`], and encoding a message back to wire text.

use vstd::prelude::*;

use crate::chars::is_digit_char;
use crate::errors::{CallTypeMismatch, Error, Result};
use crate::json::{
    arr_rep, rep, str_map_models, str_map_ok, str_map_rep, decode_str_map, encode_str_map,
    JsonRep, JsonValue,
};
use crate::json_parse::{json_parse_spec, parse_json_text};
use crate::json_write::{json_text, json_to_string};
use crate::v16::call::{action_models, action_shape_ok, known_action, Action, Call};
use crate::v16::call_error::CallError;
use crate::v16::call_result::{
    branch_of, payload_entries, payload_models, resolve_choice, CallResult, ResultPayload,
};

verus! {

use vstd::string::StringExecFns;

/// A decoded wire message of any of the three kinds.
#[derive(Debug, PartialEq, Eq, Clone)]
pub enum Message {
    /// A request, sent to ask for work: `[2, ...]`.
    Call(Call),
    /// A successful response: `[3, ...]`.
    CallResult(CallResult),
    /// An error response: `[4, ...]`.
    CallError(CallError),
}

/// The bounded-window scan for the leading type code, from position `i`.
/// The scan looks at positions 1 through 6 only and stops at the first
/// comma, so a digit buried in the payload can never be mistaken for the
/// type code. The first digit found decides: a value outside {2, 3, 4} is a
/// failure, not a candidate to skip.
pub open spec fn sniff_at(s: Seq<char>, i: int) -> Option<u8>
    decreases 7 - i,
{
    if i > 6 || i >= s.len() || s[i] == ',' {
        None
    } else if is_digit_char(s[i]) {
        if '2' <= s[i] && s[i] <= '4' {
            Some((s[i] as int - '0' as int) as u8)
        } else {
            None
        }
    } else {
        sniff_at(s, i + 1)
    }
}

/// The type code the envelope sniffer reads out of raw text.
pub open spec fn sniff_spec(s: Seq<char>) -> Option<u8> {
    sniff_at(s, 1)
}

/// Checks the initial characters of the text to determine the message kind,
/// without parsing the body: the scan stops at the first digit, comma, or
/// window end, whichever comes first.
pub fn get_call_type(buf: &str) -> (r: Result<u8>)
    ensures
        match r {
            Ok(t) => sniff_spec(buf@) == Some(t) && 2 <= t <= 4,
            Err(e) => sniff_spec(buf@) is None && e == Error::InvalidMessageCallType,
        },
{
    let mut i: usize = 0;
    for c in it: buf.chars()
        invariant
            it.seq() == buf@,
            i == it.index(),
            i <= 7,
            sniff_at(buf@, 1) == sniff_at(
                buf@,
                if i <= 1 {
                    1int
                } else {
                    i as int
                },
            ),
    {
        if i > 6 {
            // The window is exhausted: nothing later can be the type code.
            return Err(Error::InvalidMessageCallType);
        }
        if i >= 1 {
            if c == ',' {
                return Err(Error::InvalidMessageCallType);
            }
            if c >= '0' && c <= '9' {
                if c >= '2' && c <= '4' {
                    return Ok((c as u32 - '0' as u32) as u8);
                }
                return Err(Error::InvalidMessageCallType);
            }
        }
        i += 1;
    }
    Err(Error::InvalidMessageCallType)
}

/// Sniffing reads through any run of filler after the opening bracket: if
/// positions 1 through `p - 1` hold neither a digit nor a comma and position
/// `p` holds the first digit, the verdict depends only on that digit — in
/// particular, inserting or removing whitespace between the bracket and the
/// type code never changes the sniffed code, as long as the code stays
/// inside the scan window.
pub proof fn lemma_sniff_through_padding(s: Seq<char>, p: int)
    requires
        1 <= p <= 6,
        0 <= p < s.len(),
        forall|i: int| 1 <= i < p ==> !is_digit_char(#[trigger] s[i]) && s[i] != ',',
        is_digit_char(s[p]),
    ensures
        sniff_spec(s) == (if '2' <= s[p] && s[p] <= '4' {
            Some((s[p] as int - '0' as int) as u8)
        } else {
            None::<u8>
        }),
{
    lemma_sniff_skip(s, 1, p);
}

proof fn lemma_sniff_skip(s: Seq<char>, i: int, p: int)
    requires
        1 <= i <= p <= 6,
        0 <= p < s.len(),
        forall|j: int| i <= j < p ==> !is_digit_char(#[trigger] s[j]) && s[j] != ',',
    ensures
        sniff_at(s, i) == sniff_at(s, p),
    decreases p - i,
{
    if i < p {
        lemma_sniff_skip(s, i + 1, p);
    }
}

/// The slot types of a request frame (payload aside): `[code, id, action,
/// payload]` with an `i32` code and string id and action.
pub open spec fn call_frame_ok(l: Seq<JsonRep>) -> bool {
    &&& l.len() == 4
    &&& (l[0] matches JsonRep::Int(n) && i32::MIN <= n <= i32::MAX)
    &&& l[1] is Str
    &&& l[2] is Str
}

/// The slot types of a response frame: `[code, id, payload]`.
pub open spec fn result_frame_ok(l: Seq<JsonRep>) -> bool {
    &&& l.len() == 3
    &&& (l[0] matches JsonRep::Int(n) && i32::MIN <= n <= i32::MAX)
    &&& l[1] is Str
}

/// The slot types of an error frame: `[code, id, error code, description,
/// details]`, the details an object with string values only.
pub open spec fn error_frame_ok(l: Seq<JsonRep>) -> bool {
    &&& l.len() == 5
    &&& (l[0] matches JsonRep::Int(n) && i32::MIN <= n <= i32::MAX)
    &&& l[1] is Str
    &&& l[2] is Str
    &&& l[3] is Str
    &&& (l[4] matches JsonRep::Object(d) && str_map_ok(d))
}

/// Which slot layout the sniffed code demands.
pub open spec fn frame_slots_ok(t: u8, l: Seq<JsonRep>) -> bool {
    if t == 2 {
        call_frame_ok(l)
    } else if t == 3 {
        result_frame_ok(l)
    } else {
        error_frame_ok(l)
    }
}

/// The decoded request is exactly what the frame carries. The stored type
/// code is the canonical 2 regardless of the (already sniffed) wire value.
pub open spec fn call_frame_models(c: Call, l: Seq<JsonRep>) -> bool {
    &&& call_frame_ok(l)
    &&& c.message_id == 2
    &&& (l[1] matches JsonRep::Str(u) && c.unique_id@ == u)
    &&& (l[2] matches JsonRep::Str(a) && c.action@ == a && c.payload.name_spec() == a)
    &&& (l[3] matches JsonRep::Object(o) && action_models(c.payload, o))
}

/// The decoded response is exactly what the frame carries; the payload is
/// resolved by the documented priority order.
pub open spec fn result_frame_models(cr: CallResult, l: Seq<JsonRep>) -> bool {
    &&& result_frame_ok(l)
    &&& (l[0] matches JsonRep::Int(n) && cr.message_id as int == n)
    &&& (l[1] matches JsonRep::Str(u) && cr.unique_id@ == u)
    &&& (l[2] matches JsonRep::Object(o) && resolve_choice(o) == Some(branch_of(cr.payload))
        && payload_models(cr.payload, o))
}

/// The decoded error is exactly what the frame carries.
pub open spec fn error_frame_models(ce: CallError, l: Seq<JsonRep>) -> bool {
    &&& error_frame_ok(l)
    &&& (l[0] matches JsonRep::Int(n) && ce.message_id as int == n)
    &&& (l[1] matches JsonRep::Str(u) && ce.unique_id@ == u)
    &&& (l[2] matches JsonRep::Str(c) && ce.error_code@ == c)
    &&& (l[3] matches JsonRep::Str(d) && ce.error_description@ == d)
    &&& (l[4] matches JsonRep::Object(d) && str_map_models(ce.error_details@, d))
}

/// Decodes a parsed frame under an already-sniffed type code.
#[verifier::rlimit(100)]
pub fn decode_frame(t: u8, v: &JsonValue) -> (r: Result<Message>)
    requires
        2 <= t <= 4,
    ensures
        match r {
            Ok(m) => match m {
                Message::Call(c) => t == 2 && (rep(*v) matches JsonRep::Array(l)
                    && call_frame_models(c, l)),
                Message::CallResult(cr) => t == 3 && (rep(*v) matches JsonRep::Array(l)
                    && result_frame_models(cr, l)),
                Message::CallError(ce) => t == 4 && (rep(*v) matches JsonRep::Array(l)
                    && error_frame_models(ce, l)),
            },
            Err(e) => match e {
                Error::MalformedFrame => !(rep(*v) matches JsonRep::Array(l) && frame_slots_ok(
                    t,
                    l,
                )),
                Error::UnknownAction(n) => t == 2 && (rep(*v) matches JsonRep::Array(l)
                    && call_frame_ok(l) && l[2] == JsonRep::Str(n@) && !known_action(n@)),
                Error::FieldDecode(_) => t == 2 && (rep(*v) matches JsonRep::Array(l)
                    && call_frame_ok(l) && (l[2] matches JsonRep::Str(a) && known_action(a) && !(
                    l[3] matches JsonRep::Object(o) && action_shape_ok(a, o)))),
                Error::NoMatchingResultShape => t == 3 && (rep(*v) matches JsonRep::Array(l)
                    && result_frame_ok(l) && !(l[2] matches JsonRep::Object(o) && resolve_choice(
                    o,
                ) is Some)),
                _ => false,
            },
        },
{
    let items = match v {
        JsonValue::Array(items) => items,
        _ => {
            return Err(Error::MalformedFrame);
        },
    };
    proof {
        crate::json::lemma_arr_rep_points(*items);
    }
    let ghost l = arr_rep(*items, 0);
    if t == 2 {
        if items.len() != 4 {
            return Err(Error::MalformedFrame);
        }
        match &items[0] {
            JsonValue::Int(i) => {
                if *i < i32::MIN as i64 || *i > i32::MAX as i64 {
                    return Err(Error::MalformedFrame);
                }
            },
            JsonValue::Uint(u) => {
                if *u > i32::MAX as u64 {
                    return Err(Error::MalformedFrame);
                }
            },
            _ => {
                return Err(Error::MalformedFrame);
            },
        }
        let unique_id = match &items[1] {
            JsonValue::Str(s) => s.clone(),
            _ => {
                return Err(Error::MalformedFrame);
            },
        };
        let action = match &items[2] {
            JsonValue::Str(s) => s.clone(),
            _ => {
                return Err(Error::MalformedFrame);
            },
        };
        let payload = match Action::decode(action.as_str(), &items[3]) {
            Ok(a) => a,
            Err(e) => {
                return Err(e);
            },
        };
        Ok(Message::Call(Call { message_id: 2, unique_id, action, payload }))
    } else if t == 3 {
        if items.len() != 3 {
            return Err(Error::MalformedFrame);
        }
        let message_id: i32 = match &items[0] {
            JsonValue::Int(i) => {
                if *i < i32::MIN as i64 || *i > i32::MAX as i64 {
                    return Err(Error::MalformedFrame);
                }
                *i as i32
            },
            JsonValue::Uint(u) => {
                if *u > i32::MAX as u64 {
                    return Err(Error::MalformedFrame);
                }
                *u as i32
            },
            _ => {
                return Err(Error::MalformedFrame);
            },
        };
        let unique_id = match &items[1] {
            JsonValue::Str(s) => s.clone(),
            _ => {
                return Err(Error::MalformedFrame);
            },
        };
        let payload = match ResultPayload::decode(&items[2]) {
            Ok(p) => p,
            Err(_) => {
                return Err(Error::NoMatchingResultShape);
            },
        };
        Ok(Message::CallResult(CallResult { message_id, unique_id, payload }))
    } else {
        if items.len() != 5 {
            return Err(Error::MalformedFrame);
        }
        let message_id: i32 = match &items[0] {
            JsonValue::Int(i) => {
                if *i < i32::MIN as i64 || *i > i32::MAX as i64 {
                    return Err(Error::MalformedFrame);
                }
                *i as i32
            },
            JsonValue::Uint(u) => {
                if *u > i32::MAX as u64 {
                    return Err(Error::MalformedFrame);
                }
                *u as i32
            },
            _ => {
                return Err(Error::MalformedFrame);
            },
        };
        let unique_id = match &items[1] {
            JsonValue::Str(s) => s.clone(),
            _ => {
                return Err(Error::MalformedFrame);
            },
        };
        let error_code = match &items[2] {
            JsonValue::Str(s) => s.clone(),
            _ => {
                return Err(Error::MalformedFrame);
            },
        };
        let error_description = match &items[3] {
            JsonValue::Str(s) => s.clone(),
            _ => {
                return Err(Error::MalformedFrame);
            },
        };
        let error_details = match &items[4] {
            JsonValue::Object(e) => match decode_str_map(e) {
                Some(m) => m,
                None => {
                    return Err(Error::MalformedFrame);
                },
            },
            _ => {
                return Err(Error::MalformedFrame);
            },
        };
        Ok(
            Message::CallError(
                CallError { message_id, unique_id, error_code, error_description, error_details },
            ),
        )
    }
}

/// Parses a JSON string into a typed [`Message`]: the type code is sniffed,
/// the text is parsed to the value [`json_parse_spec`] fixes, and the frame
/// is decoded against the sniffed kind's layout. Success is owed: whenever
/// the sniff yields a code, the text parses, and the frame decodes under
/// that code, the result is `Ok` of exactly the message the `*_frame_models`
/// predicates describe; each error names the first stage that failed.
pub fn deserialize_to_message(data: &str) -> (r: Result<Message>)
    ensures
        match r {
            Ok(m) => sniff_spec(data@) matches Some(t) && (json_parse_spec(data@) matches Some(j)
                && (j matches JsonRep::Array(l) && match m {
                Message::Call(c) => t == 2 && call_frame_models(c, l),
                Message::CallResult(cr) => t == 3 && result_frame_models(cr, l),
                Message::CallError(ce) => t == 4 && error_frame_models(ce, l),
            })),
            Err(e) => match e {
                Error::InvalidMessageCallType => sniff_spec(data@) is None,
                Error::MalformedJson => sniff_spec(data@) is Some && json_parse_spec(data@)
                    is None,
                Error::MalformedFrame => sniff_spec(data@) matches Some(t) && (json_parse_spec(
                    data@,
                ) matches Some(j) && !(j matches JsonRep::Array(l) && frame_slots_ok(t, l))),
                Error::UnknownAction(n) => sniff_spec(data@) == Some(2u8) && (json_parse_spec(
                    data@,
                ) matches Some(j) && (j matches JsonRep::Array(l) && call_frame_ok(l) && l[2]
                    == JsonRep::Str(n@) && !known_action(n@))),
                Error::FieldDecode(_) => sniff_spec(data@) == Some(2u8) && (json_parse_spec(
                    data@,
                ) matches Some(j) && (j matches JsonRep::Array(l) && call_frame_ok(l) && (l[2]
                    matches JsonRep::Str(a) && known_action(a) && !(l[3]
                    matches JsonRep::Object(o) && action_shape_ok(a, o))))),
                Error::NoMatchingResultShape => sniff_spec(data@) == Some(3u8) && (
                json_parse_spec(data@) matches Some(j) && (j matches JsonRep::Array(l)
                    && result_frame_ok(l) && !(l[2] matches JsonRep::Object(o) && resolve_choice(
                    o,
                ) is Some))),
                _ => false,
            },
        },
{
    let t = match get_call_type(data) {
        Ok(t) => t,
        Err(e) => {
            return Err(e);
        },
    };
    let v = match parse_json_text(data) {
        Ok(v) => v,
        Err(e) => {
            return Err(e);
        },
    };
    decode_frame(t, &v)
}

/// The wire code each message kind must carry.
pub open spec fn expected_code(m: Message) -> int {
    match m {
        Message::Call(_) => 2,
        Message::CallResult(_) => 3,
        Message::CallError(_) => 4,
    }
}

/// The code actually stored inside the message.
pub open spec fn found_code(m: Message) -> int {
    match m {
        Message::Call(c) => c.message_id as int,
        Message::CallResult(cr) => cr.message_id as int,
        Message::CallError(ce) => ce.message_id as int,
    }
}

/// The positional array a well-formed message encodes to.
pub open spec fn message_frame(m: Message) -> Seq<JsonRep> {
    match m {
        Message::Call(c) => seq![
            JsonRep::Int(2),
            JsonRep::Str(c.unique_id@),
            JsonRep::Str(c.action@),
            JsonRep::Object(crate::v16::call::action_entries(c.payload)),
        ],
        Message::CallResult(cr) => seq![
            JsonRep::Int(3),
            JsonRep::Str(cr.unique_id@),
            JsonRep::Object(payload_entries(cr.payload)),
        ],
        Message::CallError(ce) => seq![
            JsonRep::Int(4),
            JsonRep::Str(ce.unique_id@),
            JsonRep::Str(ce.error_code@),
            JsonRep::Str(ce.error_description@),
            JsonRep::Object(str_map_rep(ce.error_details@)),
        ],
    }
}

/// Serializes a message to its positional wire text. A message whose stored
/// type code disagrees with its variant's slot is rejected rather than
/// written out under the wrong code.
pub fn serialize_message(message: &Message) -> (r: Result<String>)
    ensures
        match r {
            Ok(s) => found_code(*message) == expected_code(*message) && s@ == json_text(
                JsonRep::Array(message_frame(*message)),
            ),
            Err(e) => e matches Error::CallTypeMismatch(tm) && found_code(*message)
                != expected_code(*message) && tm.expected == expected_code(*message) && tm.found
                == found_code(*message),
        },
{
    match message {
        Message::Call(call) => {
            if call.message_id != 2 {
                return Err(
                    Error::CallTypeMismatch(
                        CallTypeMismatch { expected: 2, found: call.message_id },
                    ),
                );
            }
            let mut items: Vec<JsonValue> = Vec::new();
            items.push(JsonValue::Uint(2));
            items.push(JsonValue::Str(call.unique_id.clone()));
            items.push(JsonValue::Str(call.action.clone()));
            items.push(call.payload.encode());
            let ghost gi = items;
            let arr = JsonValue::Array(items);
            proof {
                crate::json::lemma_arr_rep_points(gi);
                assert(arr_rep(gi, 0) =~= message_frame(*message));
            }
            Ok(json_to_string(&arr))
        },
        Message::CallResult(call_result) => {
            if call_result.message_id != 3 {
                return Err(
                    Error::CallTypeMismatch(
                        CallTypeMismatch { expected: 3, found: call_result.message_id },
                    ),
                );
            }
            let mut items: Vec<JsonValue> = Vec::new();
            items.push(JsonValue::Uint(3));
            items.push(JsonValue::Str(call_result.unique_id.clone()));
            items.push(call_result.payload.encode());
            let ghost gi = items;
            let arr = JsonValue::Array(items);
            proof {
                crate::json::lemma_arr_rep_points(gi);
                assert(arr_rep(gi, 0) =~= message_frame(*message));
            }
            Ok(json_to_string(&arr))
        },
        Message::CallError(call_error) => {
            if call_error.message_id != 4 {
                return Err(
                    Error::CallTypeMismatch(
                        CallTypeMismatch { expected: 4, found: call_error.message_id },
                    ),
                );
            }
            let mut items: Vec<JsonValue> = Vec::new();
            items.push(JsonValue::Uint(4));
            items.push(JsonValue::Str(call_error.unique_id.clone()));
            items.push(JsonValue::Str(call_error.error_code.clone()));
            items.push(JsonValue::Str(call_error.error_description.clone()));
            items.push(JsonValue::Object(encode_str_map(&call_error.error_details)));
            let ghost gi = items;
            let arr = JsonValue::Array(items);
            proof {
                crate::json::lemma_arr_rep_points(gi);
                assert(arr_rep(gi, 0) =~= message_frame(*message));
            }
            Ok(json_to_string(&arr))
        },
    }
}

} // verus!
