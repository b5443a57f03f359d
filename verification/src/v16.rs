//! The OCPP 1.6 message types and their codec.

pub mod call;
pub mod call_result;
pub mod data_types;
pub mod call_error;
pub mod enums;
pub mod log_helper;
pub mod parse;
pub mod response_trait;
