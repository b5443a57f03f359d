//! Message codec for the OCPP 1.6 JSON-array transport.
//!
//! A wire message is a positional JSON array whose first element is a numeric
//! type code: `[2, id, action, payload]` for a request (`Call`),
//! `[3, id, payload]` for a successful response (`CallResult`), and
//! `[4, id, code, description, details]` for an error response (`CallError`).
//! Response frames carry no type tag, so decoding a `CallResult` payload is a
//! search over candidate shapes in a documented priority order.

pub mod chars;
pub mod errors;
pub mod json;
pub mod json_parse;
pub mod json_write;
pub mod v16;
