//! Typed responses (`CallResult`) and the resolution engine that picks the
//! right response shape for an untagged payload.
//!
//! A `CallResult` frame is `[3, id, payload]`: nothing on the wire says which
//! response shape the payload has. [`resolve_choice`] is the documented
//! priority list this codec commits to; [`ResultPayload::decode`] is proved
//! to follow it.

use vstd::prelude::*;

use crate::errors::Error;
use crate::json::{
    absent, arr_field, check_keys, field_absent, get_arr, get_i32, get_obj, get_str, int_field,
    int_json, jlookup, keys_ok, obj_field, obj_rep, opt_entry, rep, str_field, str_list_models,
    str_list_ok, str_list_rep, str_map_models, str_map_ok, str_map_rep, strs_view,
    decode_str_list, decode_str_map, encode_str_list, encode_str_map, JObj, JsonRep, JsonValue,
};
use crate::v16::data_types::{
    decode_kv_list, encode_kv_list, kv_list_models, kv_list_rep, kv_list_shape_ok,
    DateTimeWrapper, IdTagInfo, KeyValue,
};
use crate::v16::enums::ParsedGenericStatus;

verus! {

broadcast use vstd::string::group_string_axioms;

use vstd::string::StringExecFns;

/// A successful response frame: `[3, unique_id, payload]`.
///
/// The `message_id` must be 3 for the frame to encode; a decoded frame
/// carries the code that stood in the array.
#[derive(Debug, PartialEq, Eq, Clone)]
pub struct CallResult {
    pub message_id: i32,
    pub unique_id: String,
    pub payload: ResultPayload,
}

impl CallResult {
    pub fn new(unique_id: String, payload: ResultPayload) -> (r: CallResult)
        ensures
            r == (CallResult { message_id: 3, unique_id, payload }),
    {
        CallResult { message_id: 3, unique_id, payload }
    }
}

/// One resolved response payload.
#[derive(Debug, PartialEq, Eq, Clone)]
pub enum ResultPayload {
    StartTransaction(StartTransaction),
    BootNotification(BootNotification),
    Heartbeat(Heartbeat),
    GetLocalListVersion(GetLocalListVersion),
    PossibleStatusResponse(StatusResponses),
    PossibleEmptyResponse(EmptyResponses),
}

/// The status family: shapes whose only required field is `status`. When no
/// optional field is present they are indistinguishable, and resolution
/// falls back to the generic [`GenericStatusResponse`].
#[derive(Debug, PartialEq, Eq, Clone)]
pub enum StatusResponses {
    StatusResponse(GenericStatusResponse),
    GetInstalledCertificateIds(GetInstalledCertificateIds),
    GetCompositeSchedule(GetCompositeSchedule),
    GetLog(GetLog),
    DataTransfer(DataTransfer),
}

/// The empty family: all-optional shapes (including the literal empty
/// object). When no optional field is present they are indistinguishable,
/// and resolution falls back to the generic [`EmptyResponse`].
#[derive(Debug, PartialEq, Eq, Clone)]
pub enum EmptyResponses {
    EmptyResponse(EmptyResponse),
    GenericIdTagInfoResponse(GenericIdTagInfo),
    GetConfiguration(GetConfiguration),
    GetDiagnostics(GetDiagnostics),
}

/// A shape that carries a required `status` plus optional extras.
pub trait Status {
    /// Whether nothing beyond the status itself is carried.
    spec fn only_status_spec(&self) -> bool;

    /// True exactly when the value is indistinguishable from the generic
    /// status-only shape, so the caller must use its own record of the
    /// original request to recover the intended shape.
    fn is_only_status(&self) -> (r: bool)
        ensures
            r == self.only_status_spec(),
    ;
}

/// A shape all of whose fields are optional.
pub trait PossibleEmpty {
    /// Whether every optional field is absent.
    spec fn empty_spec(&self) -> bool;

    /// True exactly when the value is indistinguishable from the generic
    /// empty shape, so the caller must use its own record of the original
    /// request to recover the intended shape.
    fn is_empty(&self) -> (r: bool)
        ensures
            r == self.empty_spec(),
    ;
}

/// Acknowledges a transaction start with the assigned transaction id.
#[derive(Debug, PartialEq, Eq, Clone, Default)]
pub struct StartTransaction {
    pub transaction_id: i32,
    pub id_tag_info: IdTagInfo,
}

/// Acknowledges a boot notification.
#[derive(Debug, PartialEq, Eq, Clone, Default)]
pub struct BootNotification {
    pub current_time: DateTimeWrapper,
    pub interval: i32,
    pub status: ParsedGenericStatus,
}

/// Acknowledges a heartbeat with the server time.
#[derive(Debug, PartialEq, Eq, Clone, Default)]
pub struct Heartbeat {
    pub current_time: DateTimeWrapper,
}

/// The literal empty reply; the generic fallback of the empty family.
#[derive(Debug, PartialEq, Eq, Clone, Default)]
pub struct EmptyResponse {}

/// An optional tag-status reply; covers both the authorize-style reply
/// (which always carries the inner info) and the stop-transaction-style
/// reply (which may omit it).
#[derive(Debug, PartialEq, Eq, Clone, Default)]
pub struct GenericIdTagInfo {
    pub id_tag_info: Option<IdTagInfo>,
}

impl GenericIdTagInfo {
    /// The inner tag info, whichever style of reply carried it.
    pub fn get_id_tag_info(self) -> (r: Option<IdTagInfo>)
        ensures
            r == self.id_tag_info,
    {
        self.id_tag_info
    }
}

/// A bare status; the generic fallback of the status family.
#[derive(Debug, PartialEq, Eq, Clone, Default)]
pub struct GenericStatusResponse {
    pub status: ParsedGenericStatus,
}

/// Lists installed certificates by their hashes.
#[derive(Debug, PartialEq, Eq, Clone, Default)]
pub struct GetInstalledCertificateIds {
    pub status: ParsedGenericStatus,
    pub certificate_hash_data: Option<Vec<String>>,
}

/// Carries a composite charging schedule.
#[derive(Debug, PartialEq, Eq, Clone, Default)]
pub struct GetCompositeSchedule {
    pub status: ParsedGenericStatus,
    pub connector_id: Option<i32>,
    pub schedule_start: Option<String>,
    pub charging_schedule: Option<Vec<(String, String)>>,
}

/// Carries the configuration keys that were asked for.
#[derive(Debug, PartialEq, Eq, Clone, Default)]
pub struct GetConfiguration {
    pub configuration_key: Option<Vec<KeyValue>>,
    pub unknown_key: Option<Vec<String>>,
}

/// Names the diagnostics file that will be uploaded.
#[derive(Debug, PartialEq, Eq, Clone, Default)]
pub struct GetDiagnostics {
    pub file_name: Option<String>,
}

/// Reports the version of the local authorization list.
#[derive(Debug, PartialEq, Eq, Clone, Default)]
pub struct GetLocalListVersion {
    pub list_version: i32,
}

/// Names the log file that will be uploaded.
#[derive(Debug, PartialEq, Eq, Clone, Default)]
pub struct GetLog {
    pub status: ParsedGenericStatus,
    pub filename: Option<String>,
}

/// Wraps a bare status reply to an unlock request.
#[derive(Debug, PartialEq, Eq, Clone, Default)]
pub struct UnlockConnector {
    pub status: GenericStatusResponse,
}

/// Answers a data transfer, optionally with vendor data.
#[derive(Debug, PartialEq, Eq, Clone, Default)]
pub struct DataTransfer {
    pub status: ParsedGenericStatus,
    pub data: Option<String>,
}


impl StartTransaction {
    /// The keys this shape declares, in the order they are written.
    pub open spec fn known_keys() -> Seq<Seq<char>> {
        seq!["transactionId"@, "idTagInfo"@]
    }

    /// Structural match: the shape is strict, so every key must be
    /// declared and none may repeat.
    pub open spec fn shape_ok(o: JObj) -> bool {
        &&& keys_ok(o, Self::known_keys())
        &&& (int_field(o, "transactionId"@) matches Some(n) && i32::MIN <= n <= i32::MAX)
        &&& (obj_field(o, "idTagInfo"@) matches Some(e) && IdTagInfo::shape_ok(e))
    }

    /// This value is exactly what decoding `o` yields.
    pub open spec fn models(&self, o: JObj) -> bool {
        &&& Self::shape_ok(o)
        &&& int_field(o, "transactionId"@) == Some(self.transaction_id as int)
        &&& (obj_field(o, "idTagInfo"@) matches Some(e) && self.id_tag_info.models(e))
    }

    /// The object this value encodes to.
    pub open spec fn entries_spec(&self) -> JObj {
        seq![("transactionId"@, JsonRep::Int(self.transaction_id as int))]
            + seq![("idTagInfo"@, JsonRep::Object(self.id_tag_info.entries_spec()))]
    }

    pub fn decode(entries: &Vec<(String, JsonValue)>) -> (r: Result<Self, String>)
        ensures
            match r {
                Ok(v) => v.models(obj_rep(*entries, 0)),
                Err(_) => !Self::shape_ok(obj_rep(*entries, 0)),
            },
    {
        let known: Vec<&str> = vec!["transactionId", "idTagInfo"];
        proof {
            assert(strs_view(known@) =~= Self::known_keys());
        }
        if let Some(k) = check_keys(entries, &known) {
            return Err(k.clone());
        }
        let transaction_id = match get_i32(entries, "transactionId") {
            Some(v) => v,
            None => { return Err(String::from_str("transactionId")); },
        };
        let id_tag_info = match get_obj(entries, "idTagInfo") {
            Some(e) => match IdTagInfo::decode(e) {
                Some(v) => v,
                None => { return Err(String::from_str("idTagInfo")); },
            },
            None => { return Err(String::from_str("idTagInfo")); },
        };
        Ok(StartTransaction { transaction_id, id_tag_info })
    }

    pub fn encode(&self) -> (r: JsonValue)
        ensures
            rep(r) == JsonRep::Object(self.entries_spec()),
    {
        let mut e: Vec<(String, JsonValue)> = Vec::new();
        e.push((String::from_str("transactionId"), int_json(self.transaction_id as i64)));
        e.push((String::from_str("idTagInfo"), self.id_tag_info.encode()));
        let ghost ge = e;
        let r = JsonValue::Object(e);
        proof {
            crate::json::lemma_obj_rep_points(ge);
            assert(obj_rep(ge, 0) =~= self.entries_spec());
        }
        r
    }
}

impl BootNotification {
    /// The keys this shape declares, in the order they are written.
    pub open spec fn known_keys() -> Seq<Seq<char>> {
        seq!["currentTime"@, "interval"@, "status"@]
    }

    /// Structural match: the shape is strict, so every key must be
    /// declared and none may repeat.
    pub open spec fn shape_ok(o: JObj) -> bool {
        &&& keys_ok(o, Self::known_keys())
        &&& (str_field(o, "currentTime"@) matches Some(s) && DateTimeWrapper::parse_spec(s) is Some)
        &&& (int_field(o, "interval"@) matches Some(n) && i32::MIN <= n <= i32::MAX)
        &&& (str_field(o, "status"@) matches Some(s) && ParsedGenericStatus::from_wire_spec(s) is Some)
    }

    /// This value is exactly what decoding `o` yields.
    pub open spec fn models(&self, o: JObj) -> bool {
        &&& Self::shape_ok(o)
        &&& (str_field(o, "currentTime"@) matches Some(s) && DateTimeWrapper::parse_spec(s) == Some(self.current_time))
        &&& int_field(o, "interval"@) == Some(self.interval as int)
        &&& (str_field(o, "status"@) matches Some(s) && ParsedGenericStatus::from_wire_spec(s) == Some(self.status))
    }

    /// The object this value encodes to.
    pub open spec fn entries_spec(&self) -> JObj {
        seq![("currentTime"@, JsonRep::Str(self.current_time.text()))]
            + seq![("interval"@, JsonRep::Int(self.interval as int))]
            + seq![("status"@, JsonRep::Str(self.status.wire_spec()))]
    }

    #[verifier::rlimit(100)]
    pub fn decode(entries: &Vec<(String, JsonValue)>) -> (r: Result<Self, String>)
        ensures
            match r {
                Ok(v) => v.models(obj_rep(*entries, 0)),
                Err(_) => !Self::shape_ok(obj_rep(*entries, 0)),
            },
    {
        let known: Vec<&str> = vec!["currentTime", "interval", "status"];
        proof {
            assert(strs_view(known@) =~= Self::known_keys());
        }
        if let Some(k) = check_keys(entries, &known) {
            return Err(k.clone());
        }
        let current_time = match get_str(entries, "currentTime") {
            Some(s) => match DateTimeWrapper::parse_iso8601(s.as_str()) {
                Some(d) => d,
                None => { return Err(String::from_str("currentTime")); },
            },
            None => { return Err(String::from_str("currentTime")); },
        };
        let interval = match get_i32(entries, "interval") {
            Some(v) => v,
            None => { return Err(String::from_str("interval")); },
        };
        let status = match get_str(entries, "status") {
            Some(s) => match ParsedGenericStatus::from_wire(s.as_str()) {
                Some(c) => c,
                None => { return Err(String::from_str("status")); },
            },
            None => { return Err(String::from_str("status")); },
        };
        Ok(BootNotification { current_time, interval, status })
    }

    #[verifier::rlimit(100)]
    pub fn encode(&self) -> (r: JsonValue)
        ensures
            rep(r) == JsonRep::Object(self.entries_spec()),
    {
        let mut e: Vec<(String, JsonValue)> = Vec::new();
        e.push((String::from_str("currentTime"), JsonValue::Str(self.current_time.to_iso8601())));
        e.push((String::from_str("interval"), int_json(self.interval as i64)));
        e.push((String::from_str("status"), JsonValue::Str(self.status.wire_name())));
        let ghost ge = e;
        let r = JsonValue::Object(e);
        proof {
            crate::json::lemma_obj_rep_points(ge);
            assert(obj_rep(ge, 0) =~= self.entries_spec());
        }
        r
    }
}

impl Heartbeat {
    /// The keys this shape declares, in the order they are written.
    pub open spec fn known_keys() -> Seq<Seq<char>> {
        seq!["currentTime"@]
    }

    /// Structural match: the shape is strict, so every key must be
    /// declared and none may repeat.
    pub open spec fn shape_ok(o: JObj) -> bool {
        &&& keys_ok(o, Self::known_keys())
        &&& (str_field(o, "currentTime"@) matches Some(s) && DateTimeWrapper::parse_spec(s) is Some)
    }

    /// This value is exactly what decoding `o` yields.
    pub open spec fn models(&self, o: JObj) -> bool {
        &&& Self::shape_ok(o)
        &&& (str_field(o, "currentTime"@) matches Some(s) && DateTimeWrapper::parse_spec(s) == Some(self.current_time))
    }

    /// The object this value encodes to.
    pub open spec fn entries_spec(&self) -> JObj {
        seq![("currentTime"@, JsonRep::Str(self.current_time.text()))]
    }

    pub fn decode(entries: &Vec<(String, JsonValue)>) -> (r: Result<Self, String>)
        ensures
            match r {
                Ok(v) => v.models(obj_rep(*entries, 0)),
                Err(_) => !Self::shape_ok(obj_rep(*entries, 0)),
            },
    {
        let known: Vec<&str> = vec!["currentTime"];
        proof {
            assert(strs_view(known@) =~= Self::known_keys());
        }
        if let Some(k) = check_keys(entries, &known) {
            return Err(k.clone());
        }
        let current_time = match get_str(entries, "currentTime") {
            Some(s) => match DateTimeWrapper::parse_iso8601(s.as_str()) {
                Some(d) => d,
                None => { return Err(String::from_str("currentTime")); },
            },
            None => { return Err(String::from_str("currentTime")); },
        };
        Ok(Heartbeat { current_time })
    }

    pub fn encode(&self) -> (r: JsonValue)
        ensures
            rep(r) == JsonRep::Object(self.entries_spec()),
    {
        let mut e: Vec<(String, JsonValue)> = Vec::new();
        e.push((String::from_str("currentTime"), JsonValue::Str(self.current_time.to_iso8601())));
        let ghost ge = e;
        let r = JsonValue::Object(e);
        proof {
            crate::json::lemma_obj_rep_points(ge);
            assert(obj_rep(ge, 0) =~= self.entries_spec());
        }
        r
    }
}

impl GetLocalListVersion {
    /// The keys this shape declares, in the order they are written.
    pub open spec fn known_keys() -> Seq<Seq<char>> {
        seq!["listVersion"@]
    }

    /// Structural match: the shape is strict, so every key must be
    /// declared and none may repeat.
    pub open spec fn shape_ok(o: JObj) -> bool {
        &&& keys_ok(o, Self::known_keys())
        &&& (int_field(o, "listVersion"@) matches Some(n) && i32::MIN <= n <= i32::MAX)
    }

    /// This value is exactly what decoding `o` yields.
    pub open spec fn models(&self, o: JObj) -> bool {
        &&& Self::shape_ok(o)
        &&& int_field(o, "listVersion"@) == Some(self.list_version as int)
    }

    /// The object this value encodes to.
    pub open spec fn entries_spec(&self) -> JObj {
        seq![("listVersion"@, JsonRep::Int(self.list_version as int))]
    }

    pub fn decode(entries: &Vec<(String, JsonValue)>) -> (r: Result<Self, String>)
        ensures
            match r {
                Ok(v) => v.models(obj_rep(*entries, 0)),
                Err(_) => !Self::shape_ok(obj_rep(*entries, 0)),
            },
    {
        let known: Vec<&str> = vec!["listVersion"];
        proof {
            assert(strs_view(known@) =~= Self::known_keys());
        }
        if let Some(k) = check_keys(entries, &known) {
            return Err(k.clone());
        }
        let list_version = match get_i32(entries, "listVersion") {
            Some(v) => v,
            None => { return Err(String::from_str("listVersion")); },
        };
        Ok(GetLocalListVersion { list_version })
    }

    pub fn encode(&self) -> (r: JsonValue)
        ensures
            rep(r) == JsonRep::Object(self.entries_spec()),
    {
        let mut e: Vec<(String, JsonValue)> = Vec::new();
        e.push((String::from_str("listVersion"), int_json(self.list_version as i64)));
        let ghost ge = e;
        let r = JsonValue::Object(e);
        proof {
            crate::json::lemma_obj_rep_points(ge);
            assert(obj_rep(ge, 0) =~= self.entries_spec());
        }
        r
    }
}

impl GenericStatusResponse {
    /// The keys this shape declares, in the order they are written.
    pub open spec fn known_keys() -> Seq<Seq<char>> {
        seq!["status"@]
    }

    /// Structural match: the shape is strict, so every key must be
    /// declared and none may repeat.
    pub open spec fn shape_ok(o: JObj) -> bool {
        &&& keys_ok(o, Self::known_keys())
        &&& (str_field(o, "status"@) matches Some(s) && ParsedGenericStatus::from_wire_spec(s) is Some)
    }

    /// This value is exactly what decoding `o` yields.
    pub open spec fn models(&self, o: JObj) -> bool {
        &&& Self::shape_ok(o)
        &&& (str_field(o, "status"@) matches Some(s) && ParsedGenericStatus::from_wire_spec(s) == Some(self.status))
    }

    /// The object this value encodes to.
    pub open spec fn entries_spec(&self) -> JObj {
        seq![("status"@, JsonRep::Str(self.status.wire_spec()))]
    }

    pub fn decode(entries: &Vec<(String, JsonValue)>) -> (r: Result<Self, String>)
        ensures
            match r {
                Ok(v) => v.models(obj_rep(*entries, 0)),
                Err(_) => !Self::shape_ok(obj_rep(*entries, 0)),
            },
    {
        let known: Vec<&str> = vec!["status"];
        proof {
            assert(strs_view(known@) =~= Self::known_keys());
        }
        if let Some(k) = check_keys(entries, &known) {
            return Err(k.clone());
        }
        let status = match get_str(entries, "status") {
            Some(s) => match ParsedGenericStatus::from_wire(s.as_str()) {
                Some(c) => c,
                None => { return Err(String::from_str("status")); },
            },
            None => { return Err(String::from_str("status")); },
        };
        Ok(GenericStatusResponse { status })
    }

    pub fn encode(&self) -> (r: JsonValue)
        ensures
            rep(r) == JsonRep::Object(self.entries_spec()),
    {
        let mut e: Vec<(String, JsonValue)> = Vec::new();
        e.push((String::from_str("status"), JsonValue::Str(self.status.wire_name())));
        let ghost ge = e;
        let r = JsonValue::Object(e);
        proof {
            crate::json::lemma_obj_rep_points(ge);
            assert(obj_rep(ge, 0) =~= self.entries_spec());
        }
        r
    }
}

impl GetInstalledCertificateIds {
    /// The keys this shape declares, in the order they are written.
    pub open spec fn known_keys() -> Seq<Seq<char>> {
        seq!["status"@, "certificateHashData"@]
    }

    /// Structural match: the shape is strict, so every key must be
    /// declared and none may repeat.
    pub open spec fn shape_ok(o: JObj) -> bool {
        &&& keys_ok(o, Self::known_keys())
        &&& (str_field(o, "status"@) matches Some(s) && ParsedGenericStatus::from_wire_spec(s) is Some)
        &&& (absent(o, "certificateHashData"@) || (arr_field(o, "certificateHashData"@) matches Some(items) && str_list_ok(items)))
    }

    /// This value is exactly what decoding `o` yields.
    pub open spec fn models(&self, o: JObj) -> bool {
        &&& Self::shape_ok(o)
        &&& (str_field(o, "status"@) matches Some(s) && ParsedGenericStatus::from_wire_spec(s) == Some(self.status))
        &&& match self.certificate_hash_data {
            Some(ref v) => arr_field(o, "certificateHashData"@) matches Some(items) && str_list_models(v@, items),
            None => absent(o, "certificateHashData"@),
        }
    }

    /// The object this value encodes to. An absent optional field is
    /// written as an explicit `null`, so the untagged resolver re-selects
    /// this same shape on decode instead of a generic fallback.
    pub open spec fn entries_spec(&self) -> JObj {
        seq![("status"@, JsonRep::Str(self.status.wire_spec()))]
            + seq![("certificateHashData"@, match self.certificate_hash_data { Some(ref v) => JsonRep::Array(str_list_rep(v@)), None => JsonRep::Null })]
    }

    pub fn decode(entries: &Vec<(String, JsonValue)>) -> (r: Result<Self, String>)
        ensures
            match r {
                Ok(v) => v.models(obj_rep(*entries, 0)),
                Err(_) => !Self::shape_ok(obj_rep(*entries, 0)),
            },
    {
        let known: Vec<&str> = vec!["status", "certificateHashData"];
        proof {
            assert(strs_view(known@) =~= Self::known_keys());
        }
        if let Some(k) = check_keys(entries, &known) {
            return Err(k.clone());
        }
        let status = match get_str(entries, "status") {
            Some(s) => match ParsedGenericStatus::from_wire(s.as_str()) {
                Some(c) => c,
                None => { return Err(String::from_str("status")); },
            },
            None => { return Err(String::from_str("status")); },
        };
        let certificate_hash_data = if field_absent(entries, "certificateHashData") { None } else {
            match get_arr(entries, "certificateHashData") {
                Some(items) => match decode_str_list(items) {
                    Some(v) => Some(v),
                    None => { return Err(String::from_str("certificateHashData")); },
                },
                None => { return Err(String::from_str("certificateHashData")); },
            }
        };
        Ok(GetInstalledCertificateIds { status, certificate_hash_data })
    }

    pub fn encode(&self) -> (r: JsonValue)
        ensures
            rep(r) == JsonRep::Object(self.entries_spec()),
    {
        let mut e: Vec<(String, JsonValue)> = Vec::new();
        e.push((String::from_str("status"), JsonValue::Str(self.status.wire_name())));
        match &self.certificate_hash_data {
            Some(v) => e.push((String::from_str("certificateHashData"), JsonValue::Array(encode_str_list(v)))),
            None => e.push((String::from_str("certificateHashData"), JsonValue::Null)),
        }
        let ghost ge = e;
        let r = JsonValue::Object(e);
        proof {
            crate::json::lemma_obj_rep_points(ge);
            assert(obj_rep(ge, 0) =~= self.entries_spec());
        }
        r
    }
}

impl GetCompositeSchedule {
    /// The keys this shape declares, in the order they are written.
    pub open spec fn known_keys() -> Seq<Seq<char>> {
        seq!["status"@, "connectorId"@, "scheduleStart"@, "chargingSchedule"@]
    }

    /// Structural match: the shape is strict, so every key must be
    /// declared and none may repeat.
    pub open spec fn shape_ok(o: JObj) -> bool {
        &&& keys_ok(o, Self::known_keys())
        &&& (str_field(o, "status"@) matches Some(s) && ParsedGenericStatus::from_wire_spec(s) is Some)
        &&& (absent(o, "connectorId"@) || (int_field(o, "connectorId"@) matches Some(n) && i32::MIN <= n <= i32::MAX))
        &&& (absent(o, "scheduleStart"@) || str_field(o, "scheduleStart"@) is Some)
        &&& (absent(o, "chargingSchedule"@) || (obj_field(o, "chargingSchedule"@) matches Some(e) && str_map_ok(e)))
    }

    /// This value is exactly what decoding `o` yields.
    pub open spec fn models(&self, o: JObj) -> bool {
        &&& Self::shape_ok(o)
        &&& (str_field(o, "status"@) matches Some(s) && ParsedGenericStatus::from_wire_spec(s) == Some(self.status))
        &&& match self.connector_id {
            Some(v) => int_field(o, "connectorId"@) == Some(v as int),
            None => absent(o, "connectorId"@),
        }
        &&& match self.schedule_start {
            Some(v) => str_field(o, "scheduleStart"@) == Some(v@),
            None => absent(o, "scheduleStart"@),
        }
        &&& match self.charging_schedule {
            Some(ref v) => obj_field(o, "chargingSchedule"@) matches Some(e) && str_map_models(v@, e),
            None => absent(o, "chargingSchedule"@),
        }
    }

    /// The object this value encodes to. An absent optional field is
    /// written as an explicit `null`, so the untagged resolver re-selects
    /// this same shape on decode instead of a generic fallback.
    pub open spec fn entries_spec(&self) -> JObj {
        seq![("status"@, JsonRep::Str(self.status.wire_spec()))]
            + seq![("connectorId"@, match self.connector_id { Some(v) => JsonRep::Int(v as int), None => JsonRep::Null })]
            + seq![("scheduleStart"@, match self.schedule_start { Some(v) => JsonRep::Str(v@), None => JsonRep::Null })]
            + seq![("chargingSchedule"@, match self.charging_schedule { Some(ref v) => JsonRep::Object(str_map_rep(v@)), None => JsonRep::Null })]
    }

    #[verifier::rlimit(100)]
    pub fn decode(entries: &Vec<(String, JsonValue)>) -> (r: Result<Self, String>)
        ensures
            match r {
                Ok(v) => v.models(obj_rep(*entries, 0)),
                Err(_) => !Self::shape_ok(obj_rep(*entries, 0)),
            },
    {
        let known: Vec<&str> = vec!["status", "connectorId", "scheduleStart", "chargingSchedule"];
        proof {
            assert(strs_view(known@) =~= Self::known_keys());
        }
        if let Some(k) = check_keys(entries, &known) {
            return Err(k.clone());
        }
        let status = match get_str(entries, "status") {
            Some(s) => match ParsedGenericStatus::from_wire(s.as_str()) {
                Some(c) => c,
                None => { return Err(String::from_str("status")); },
            },
            None => { return Err(String::from_str("status")); },
        };
        let connector_id = if field_absent(entries, "connectorId") { None } else {
            match get_i32(entries, "connectorId") {
                Some(v) => Some(v),
                None => { return Err(String::from_str("connectorId")); },
            }
        };
        let schedule_start = if field_absent(entries, "scheduleStart") { None } else {
            match get_str(entries, "scheduleStart") {
                Some(s) => Some(s.clone()),
                None => { return Err(String::from_str("scheduleStart")); },
            }
        };
        let charging_schedule = if field_absent(entries, "chargingSchedule") { None } else {
            match get_obj(entries, "chargingSchedule") {
                Some(e) => match decode_str_map(e) {
                    Some(v) => Some(v),
                    None => { return Err(String::from_str("chargingSchedule")); },
                },
                None => { return Err(String::from_str("chargingSchedule")); },
            }
        };
        Ok(GetCompositeSchedule { status, connector_id, schedule_start, charging_schedule })
    }

    #[verifier::rlimit(100)]
    pub fn encode(&self) -> (r: JsonValue)
        ensures
            rep(r) == JsonRep::Object(self.entries_spec()),
    {
        let mut e: Vec<(String, JsonValue)> = Vec::new();
        e.push((String::from_str("status"), JsonValue::Str(self.status.wire_name())));
        match &self.connector_id {
            Some(v) => e.push((String::from_str("connectorId"), int_json(*v as i64))),
            None => e.push((String::from_str("connectorId"), JsonValue::Null)),
        }
        match &self.schedule_start {
            Some(v) => e.push((String::from_str("scheduleStart"), JsonValue::Str(v.clone()))),
            None => e.push((String::from_str("scheduleStart"), JsonValue::Null)),
        }
        match &self.charging_schedule {
            Some(v) => e.push((String::from_str("chargingSchedule"), JsonValue::Object(encode_str_map(v)))),
            None => e.push((String::from_str("chargingSchedule"), JsonValue::Null)),
        }
        let ghost ge = e;
        let r = JsonValue::Object(e);
        proof {
            crate::json::lemma_obj_rep_points(ge);
            assert(obj_rep(ge, 0) =~= self.entries_spec());
        }
        r
    }
}

impl GetLog {
    /// The keys this shape declares, in the order they are written.
    pub open spec fn known_keys() -> Seq<Seq<char>> {
        seq!["status"@, "filename"@]
    }

    /// Structural match: the shape is strict, so every key must be
    /// declared and none may repeat.
    pub open spec fn shape_ok(o: JObj) -> bool {
        &&& keys_ok(o, Self::known_keys())
        &&& (str_field(o, "status"@) matches Some(s) && ParsedGenericStatus::from_wire_spec(s) is Some)
        &&& (absent(o, "filename"@) || str_field(o, "filename"@) is Some)
    }

    /// This value is exactly what decoding `o` yields.
    pub open spec fn models(&self, o: JObj) -> bool {
        &&& Self::shape_ok(o)
        &&& (str_field(o, "status"@) matches Some(s) && ParsedGenericStatus::from_wire_spec(s) == Some(self.status))
        &&& match self.filename {
            Some(v) => str_field(o, "filename"@) == Some(v@),
            None => absent(o, "filename"@),
        }
    }

    /// The object this value encodes to. An absent optional field is
    /// written as an explicit `null`, so the untagged resolver re-selects
    /// this same shape on decode instead of a generic fallback.
    pub open spec fn entries_spec(&self) -> JObj {
        seq![("status"@, JsonRep::Str(self.status.wire_spec()))]
            + seq![("filename"@, match self.filename { Some(v) => JsonRep::Str(v@), None => JsonRep::Null })]
    }

    pub fn decode(entries: &Vec<(String, JsonValue)>) -> (r: Result<Self, String>)
        ensures
            match r {
                Ok(v) => v.models(obj_rep(*entries, 0)),
                Err(_) => !Self::shape_ok(obj_rep(*entries, 0)),
            },
    {
        let known: Vec<&str> = vec!["status", "filename"];
        proof {
            assert(strs_view(known@) =~= Self::known_keys());
        }
        if let Some(k) = check_keys(entries, &known) {
            return Err(k.clone());
        }
        let status = match get_str(entries, "status") {
            Some(s) => match ParsedGenericStatus::from_wire(s.as_str()) {
                Some(c) => c,
                None => { return Err(String::from_str("status")); },
            },
            None => { return Err(String::from_str("status")); },
        };
        let filename = if field_absent(entries, "filename") { None } else {
            match get_str(entries, "filename") {
                Some(s) => Some(s.clone()),
                None => { return Err(String::from_str("filename")); },
            }
        };
        Ok(GetLog { status, filename })
    }

    pub fn encode(&self) -> (r: JsonValue)
        ensures
            rep(r) == JsonRep::Object(self.entries_spec()),
    {
        let mut e: Vec<(String, JsonValue)> = Vec::new();
        e.push((String::from_str("status"), JsonValue::Str(self.status.wire_name())));
        match &self.filename {
            Some(v) => e.push((String::from_str("filename"), JsonValue::Str(v.clone()))),
            None => e.push((String::from_str("filename"), JsonValue::Null)),
        }
        let ghost ge = e;
        let r = JsonValue::Object(e);
        proof {
            crate::json::lemma_obj_rep_points(ge);
            assert(obj_rep(ge, 0) =~= self.entries_spec());
        }
        r
    }
}

impl DataTransfer {
    /// The keys this shape declares, in the order they are written.
    pub open spec fn known_keys() -> Seq<Seq<char>> {
        seq!["status"@, "data"@]
    }

    /// Structural match: the shape is strict, so every key must be
    /// declared and none may repeat.
    pub open spec fn shape_ok(o: JObj) -> bool {
        &&& keys_ok(o, Self::known_keys())
        &&& (str_field(o, "status"@) matches Some(s) && ParsedGenericStatus::from_wire_spec(s) is Some)
        &&& (absent(o, "data"@) || str_field(o, "data"@) is Some)
    }

    /// This value is exactly what decoding `o` yields.
    pub open spec fn models(&self, o: JObj) -> bool {
        &&& Self::shape_ok(o)
        &&& (str_field(o, "status"@) matches Some(s) && ParsedGenericStatus::from_wire_spec(s) == Some(self.status))
        &&& match self.data {
            Some(v) => str_field(o, "data"@) == Some(v@),
            None => absent(o, "data"@),
        }
    }

    /// The object this value encodes to. An absent optional field is
    /// written as an explicit `null`, so the untagged resolver re-selects
    /// this same shape on decode instead of a generic fallback.
    pub open spec fn entries_spec(&self) -> JObj {
        seq![("status"@, JsonRep::Str(self.status.wire_spec()))]
            + seq![("data"@, match self.data { Some(v) => JsonRep::Str(v@), None => JsonRep::Null })]
    }

    pub fn decode(entries: &Vec<(String, JsonValue)>) -> (r: Result<Self, String>)
        ensures
            match r {
                Ok(v) => v.models(obj_rep(*entries, 0)),
                Err(_) => !Self::shape_ok(obj_rep(*entries, 0)),
            },
    {
        let known: Vec<&str> = vec!["status", "data"];
        proof {
            assert(strs_view(known@) =~= Self::known_keys());
        }
        if let Some(k) = check_keys(entries, &known) {
            return Err(k.clone());
        }
        let status = match get_str(entries, "status") {
            Some(s) => match ParsedGenericStatus::from_wire(s.as_str()) {
                Some(c) => c,
                None => { return Err(String::from_str("status")); },
            },
            None => { return Err(String::from_str("status")); },
        };
        let data = if field_absent(entries, "data") { None } else {
            match get_str(entries, "data") {
                Some(s) => Some(s.clone()),
                None => { return Err(String::from_str("data")); },
            }
        };
        Ok(DataTransfer { status, data })
    }

    pub fn encode(&self) -> (r: JsonValue)
        ensures
            rep(r) == JsonRep::Object(self.entries_spec()),
    {
        let mut e: Vec<(String, JsonValue)> = Vec::new();
        e.push((String::from_str("status"), JsonValue::Str(self.status.wire_name())));
        match &self.data {
            Some(v) => e.push((String::from_str("data"), JsonValue::Str(v.clone()))),
            None => e.push((String::from_str("data"), JsonValue::Null)),
        }
        let ghost ge = e;
        let r = JsonValue::Object(e);
        proof {
            crate::json::lemma_obj_rep_points(ge);
            assert(obj_rep(ge, 0) =~= self.entries_spec());
        }
        r
    }
}

impl EmptyResponse {
    /// The keys this shape declares, in the order they are written.
    pub open spec fn known_keys() -> Seq<Seq<char>> {
        Seq::empty()
    }

    /// Structural match: the shape is strict, so every key must be
    /// declared and none may repeat.
    pub open spec fn shape_ok(o: JObj) -> bool {
        &&& keys_ok(o, Self::known_keys())
    }

    /// This value is exactly what decoding `o` yields.
    pub open spec fn models(&self, o: JObj) -> bool {
        &&& Self::shape_ok(o)
        &&& true
    }

    /// The object this value encodes to.
    pub open spec fn entries_spec(&self) -> JObj {
        Seq::empty()
    }

    pub fn decode(entries: &Vec<(String, JsonValue)>) -> (r: Result<Self, String>)
        ensures
            match r {
                Ok(v) => v.models(obj_rep(*entries, 0)),
                Err(_) => !Self::shape_ok(obj_rep(*entries, 0)),
            },
    {
        let known: Vec<&str> = Vec::new();
        proof {
            assert(strs_view(known@) =~= Self::known_keys());
        }
        if let Some(k) = check_keys(entries, &known) {
            return Err(k.clone());
        }
        Ok(EmptyResponse {  })
    }

    pub fn encode(&self) -> (r: JsonValue)
        ensures
            rep(r) == JsonRep::Object(self.entries_spec()),
    {
        let mut e: Vec<(String, JsonValue)> = Vec::new();
        let ghost ge = e;
        let r = JsonValue::Object(e);
        proof {
            crate::json::lemma_obj_rep_points(ge);
            assert(obj_rep(ge, 0) =~= self.entries_spec());
        }
        r
    }
}

impl GenericIdTagInfo {
    /// The keys this shape declares, in the order they are written.
    pub open spec fn known_keys() -> Seq<Seq<char>> {
        seq!["idTagInfo"@]
    }

    /// Structural match: the shape is strict, so every key must be
    /// declared and none may repeat.
    pub open spec fn shape_ok(o: JObj) -> bool {
        &&& keys_ok(o, Self::known_keys())
        &&& (absent(o, "idTagInfo"@) || (obj_field(o, "idTagInfo"@) matches Some(e) && IdTagInfo::shape_ok(e)))
    }

    /// This value is exactly what decoding `o` yields.
    pub open spec fn models(&self, o: JObj) -> bool {
        &&& Self::shape_ok(o)
        &&& match self.id_tag_info {
            Some(v) => obj_field(o, "idTagInfo"@) matches Some(e) && v.models(e),
            None => absent(o, "idTagInfo"@),
        }
    }

    /// The object this value encodes to. An absent optional field is
    /// written as an explicit `null`, so the untagged resolver re-selects
    /// this same shape on decode instead of a generic fallback.
    pub open spec fn entries_spec(&self) -> JObj {
        seq![("idTagInfo"@, match self.id_tag_info { Some(v) => JsonRep::Object(v.entries_spec()), None => JsonRep::Null })]
    }

    pub fn decode(entries: &Vec<(String, JsonValue)>) -> (r: Result<Self, String>)
        ensures
            match r {
                Ok(v) => v.models(obj_rep(*entries, 0)),
                Err(_) => !Self::shape_ok(obj_rep(*entries, 0)),
            },
    {
        let known: Vec<&str> = vec!["idTagInfo"];
        proof {
            assert(strs_view(known@) =~= Self::known_keys());
        }
        if let Some(k) = check_keys(entries, &known) {
            return Err(k.clone());
        }
        let id_tag_info = if field_absent(entries, "idTagInfo") { None } else {
            match get_obj(entries, "idTagInfo") {
                Some(e) => match IdTagInfo::decode(e) {
                    Some(v) => Some(v),
                    None => { return Err(String::from_str("idTagInfo")); },
                },
                None => { return Err(String::from_str("idTagInfo")); },
            }
        };
        Ok(GenericIdTagInfo { id_tag_info })
    }

    pub fn encode(&self) -> (r: JsonValue)
        ensures
            rep(r) == JsonRep::Object(self.entries_spec()),
    {
        let mut e: Vec<(String, JsonValue)> = Vec::new();
        match &self.id_tag_info {
            Some(v) => e.push((String::from_str("idTagInfo"), v.encode())),
            None => e.push((String::from_str("idTagInfo"), JsonValue::Null)),
        }
        let ghost ge = e;
        let r = JsonValue::Object(e);
        proof {
            crate::json::lemma_obj_rep_points(ge);
            assert(obj_rep(ge, 0) =~= self.entries_spec());
        }
        r
    }
}

impl GetConfiguration {
    /// The keys this shape declares, in the order they are written.
    pub open spec fn known_keys() -> Seq<Seq<char>> {
        seq!["configurationKey"@, "unknownKey"@]
    }

    /// Structural match: the shape is strict, so every key must be
    /// declared and none may repeat.
    pub open spec fn shape_ok(o: JObj) -> bool {
        &&& keys_ok(o, Self::known_keys())
        &&& (absent(o, "configurationKey"@) || (arr_field(o, "configurationKey"@) matches Some(items) && kv_list_shape_ok(items)))
        &&& (absent(o, "unknownKey"@) || (arr_field(o, "unknownKey"@) matches Some(items) && str_list_ok(items)))
    }

    /// This value is exactly what decoding `o` yields.
    pub open spec fn models(&self, o: JObj) -> bool {
        &&& Self::shape_ok(o)
        &&& match self.configuration_key {
            Some(ref v) => arr_field(o, "configurationKey"@) matches Some(items) && kv_list_models(v@, items),
            None => absent(o, "configurationKey"@),
        }
        &&& match self.unknown_key {
            Some(ref v) => arr_field(o, "unknownKey"@) matches Some(items) && str_list_models(v@, items),
            None => absent(o, "unknownKey"@),
        }
    }

    /// The object this value encodes to. An absent optional field is
    /// written as an explicit `null`, so the untagged resolver re-selects
    /// this same shape on decode instead of a generic fallback.
    pub open spec fn entries_spec(&self) -> JObj {
        seq![("configurationKey"@, match self.configuration_key { Some(ref v) => JsonRep::Array(kv_list_rep(v@)), None => JsonRep::Null })]
            + seq![("unknownKey"@, match self.unknown_key { Some(ref v) => JsonRep::Array(str_list_rep(v@)), None => JsonRep::Null })]
    }

    pub fn decode(entries: &Vec<(String, JsonValue)>) -> (r: Result<Self, String>)
        ensures
            match r {
                Ok(v) => v.models(obj_rep(*entries, 0)),
                Err(_) => !Self::shape_ok(obj_rep(*entries, 0)),
            },
    {
        let known: Vec<&str> = vec!["configurationKey", "unknownKey"];
        proof {
            assert(strs_view(known@) =~= Self::known_keys());
        }
        if let Some(k) = check_keys(entries, &known) {
            return Err(k.clone());
        }
        let configuration_key = if field_absent(entries, "configurationKey") { None } else {
            match get_arr(entries, "configurationKey") {
                Some(items) => match decode_kv_list(items) {
                    Some(v) => Some(v),
                    None => { return Err(String::from_str("configurationKey")); },
                },
                None => { return Err(String::from_str("configurationKey")); },
            }
        };
        let unknown_key = if field_absent(entries, "unknownKey") { None } else {
            match get_arr(entries, "unknownKey") {
                Some(items) => match decode_str_list(items) {
                    Some(v) => Some(v),
                    None => { return Err(String::from_str("unknownKey")); },
                },
                None => { return Err(String::from_str("unknownKey")); },
            }
        };
        Ok(GetConfiguration { configuration_key, unknown_key })
    }

    pub fn encode(&self) -> (r: JsonValue)
        ensures
            rep(r) == JsonRep::Object(self.entries_spec()),
    {
        let mut e: Vec<(String, JsonValue)> = Vec::new();
        match &self.configuration_key {
            Some(v) => e.push((String::from_str("configurationKey"), JsonValue::Array(encode_kv_list(v)))),
            None => e.push((String::from_str("configurationKey"), JsonValue::Null)),
        }
        match &self.unknown_key {
            Some(v) => e.push((String::from_str("unknownKey"), JsonValue::Array(encode_str_list(v)))),
            None => e.push((String::from_str("unknownKey"), JsonValue::Null)),
        }
        let ghost ge = e;
        let r = JsonValue::Object(e);
        proof {
            crate::json::lemma_obj_rep_points(ge);
            assert(obj_rep(ge, 0) =~= self.entries_spec());
        }
        r
    }
}

impl GetDiagnostics {
    /// The keys this shape declares, in the order they are written.
    pub open spec fn known_keys() -> Seq<Seq<char>> {
        seq!["fileName"@]
    }

    /// Structural match: the shape is strict, so every key must be
    /// declared and none may repeat.
    pub open spec fn shape_ok(o: JObj) -> bool {
        &&& keys_ok(o, Self::known_keys())
        &&& (absent(o, "fileName"@) || str_field(o, "fileName"@) is Some)
    }

    /// This value is exactly what decoding `o` yields.
    pub open spec fn models(&self, o: JObj) -> bool {
        &&& Self::shape_ok(o)
        &&& match self.file_name {
            Some(v) => str_field(o, "fileName"@) == Some(v@),
            None => absent(o, "fileName"@),
        }
    }

    /// The object this value encodes to. An absent optional field is
    /// written as an explicit `null`, so the untagged resolver re-selects
    /// this same shape on decode instead of a generic fallback.
    pub open spec fn entries_spec(&self) -> JObj {
        seq![("fileName"@, match self.file_name { Some(v) => JsonRep::Str(v@), None => JsonRep::Null })]
    }

    pub fn decode(entries: &Vec<(String, JsonValue)>) -> (r: Result<Self, String>)
        ensures
            match r {
                Ok(v) => v.models(obj_rep(*entries, 0)),
                Err(_) => !Self::shape_ok(obj_rep(*entries, 0)),
            },
    {
        let known: Vec<&str> = vec!["fileName"];
        proof {
            assert(strs_view(known@) =~= Self::known_keys());
        }
        if let Some(k) = check_keys(entries, &known) {
            return Err(k.clone());
        }
        let file_name = if field_absent(entries, "fileName") { None } else {
            match get_str(entries, "fileName") {
                Some(s) => Some(s.clone()),
                None => { return Err(String::from_str("fileName")); },
            }
        };
        Ok(GetDiagnostics { file_name })
    }

    pub fn encode(&self) -> (r: JsonValue)
        ensures
            rep(r) == JsonRep::Object(self.entries_spec()),
    {
        let mut e: Vec<(String, JsonValue)> = Vec::new();
        match &self.file_name {
            Some(v) => e.push((String::from_str("fileName"), JsonValue::Str(v.clone()))),
            None => e.push((String::from_str("fileName"), JsonValue::Null)),
        }
        let ghost ge = e;
        let r = JsonValue::Object(e);
        proof {
            crate::json::lemma_obj_rep_points(ge);
            assert(obj_rep(ge, 0) =~= self.entries_spec());
        }
        r
    }
}


impl Status for BootNotification {
    open spec fn only_status_spec(&self) -> bool {
        false
    }

    fn is_only_status(&self) -> (r: bool) {
        false
    }
}

impl Status for GenericStatusResponse {
    open spec fn only_status_spec(&self) -> bool {
        true
    }

    fn is_only_status(&self) -> (r: bool) {
        true
    }
}

impl Status for GetInstalledCertificateIds {
    open spec fn only_status_spec(&self) -> bool {
        self.certificate_hash_data is None
    }

    fn is_only_status(&self) -> (r: bool) {
        self.certificate_hash_data.is_none()
    }
}

impl Status for GetCompositeSchedule {
    open spec fn only_status_spec(&self) -> bool {
        self.connector_id is None && self.schedule_start is None && self.charging_schedule is None
    }

    fn is_only_status(&self) -> (r: bool) {
        self.connector_id.is_none() && self.schedule_start.is_none()
            && self.charging_schedule.is_none()
    }
}

impl Status for GetLog {
    open spec fn only_status_spec(&self) -> bool {
        self.filename is None
    }

    fn is_only_status(&self) -> (r: bool) {
        self.filename.is_none()
    }
}

impl Status for DataTransfer {
    open spec fn only_status_spec(&self) -> bool {
        self.data is None
    }

    fn is_only_status(&self) -> (r: bool) {
        self.data.is_none()
    }
}

impl PossibleEmpty for EmptyResponse {
    open spec fn empty_spec(&self) -> bool {
        true
    }

    fn is_empty(&self) -> (r: bool) {
        true
    }
}

impl PossibleEmpty for GenericIdTagInfo {
    open spec fn empty_spec(&self) -> bool {
        self.id_tag_info is None
    }

    fn is_empty(&self) -> (r: bool) {
        self.id_tag_info.is_none()
    }
}

impl PossibleEmpty for GetConfiguration {
    open spec fn empty_spec(&self) -> bool {
        self.configuration_key is None && self.unknown_key is None
    }

    fn is_empty(&self) -> (r: bool) {
        self.configuration_key.is_none() && self.unknown_key.is_none()
    }
}

impl PossibleEmpty for GetDiagnostics {
    open spec fn empty_spec(&self) -> bool {
        self.file_name is None
    }

    fn is_empty(&self) -> (r: bool) {
        self.file_name.is_none()
    }
}

impl StatusResponses {
    /// The status, whichever family member carries it.
    pub open spec fn status_spec(&self) -> ParsedGenericStatus {
        match self {
            StatusResponses::StatusResponse(x) => x.status,
            StatusResponses::GetInstalledCertificateIds(x) => x.status,
            StatusResponses::GetCompositeSchedule(x) => x.status,
            StatusResponses::GetLog(x) => x.status,
            StatusResponses::DataTransfer(x) => x.status,
        }
    }

    pub fn get_status(&self) -> (r: &ParsedGenericStatus)
        ensures
            *r == self.status_spec(),
    {
        match self {
            StatusResponses::StatusResponse(x) => &x.status,
            StatusResponses::GetInstalledCertificateIds(x) => &x.status,
            StatusResponses::GetCompositeSchedule(x) => &x.status,
            StatusResponses::GetLog(x) => &x.status,
            StatusResponses::DataTransfer(x) => &x.status,
        }
    }

    /// Whether the resolved value carries nothing beyond its status, i.e. is
    /// indistinguishable from the generic status-only shape.
    pub open spec fn only_status_spec(&self) -> bool {
        match self {
            StatusResponses::StatusResponse(x) => x.only_status_spec(),
            StatusResponses::GetInstalledCertificateIds(x) => x.only_status_spec(),
            StatusResponses::GetCompositeSchedule(x) => x.only_status_spec(),
            StatusResponses::GetLog(x) => x.only_status_spec(),
            StatusResponses::DataTransfer(x) => x.only_status_spec(),
        }
    }

    pub fn is_only_status(&self) -> (r: bool)
        ensures
            r == self.only_status_spec(),
    {
        match self {
            StatusResponses::StatusResponse(x) => x.is_only_status(),
            StatusResponses::GetInstalledCertificateIds(x) => x.is_only_status(),
            StatusResponses::GetCompositeSchedule(x) => x.is_only_status(),
            StatusResponses::GetLog(x) => x.is_only_status(),
            StatusResponses::DataTransfer(x) => x.is_only_status(),
        }
    }
}

impl EmptyResponses {
    /// Whether every optional field of the resolved value is absent, i.e. it
    /// is indistinguishable from the generic empty shape.
    pub open spec fn empty_spec(&self) -> bool {
        match self {
            EmptyResponses::EmptyResponse(x) => x.empty_spec(),
            EmptyResponses::GenericIdTagInfoResponse(x) => x.empty_spec(),
            EmptyResponses::GetConfiguration(x) => x.empty_spec(),
            EmptyResponses::GetDiagnostics(x) => x.empty_spec(),
        }
    }

    pub fn is_empty(&self) -> (r: bool)
        ensures
            r == self.empty_spec(),
    {
        match self {
            EmptyResponses::EmptyResponse(x) => x.is_empty(),
            EmptyResponses::GenericIdTagInfoResponse(x) => x.is_empty(),
            EmptyResponses::GetConfiguration(x) => x.is_empty(),
            EmptyResponses::GetDiagnostics(x) => x.is_empty(),
        }
    }
}

/// A name for each candidate shape of the resolver's priority list.
#[derive(Debug, PartialEq, Eq, Clone, Copy)]
pub enum ResultBranch {
    StartTransaction,
    BootNotification,
    Heartbeat,
    GetLocalListVersion,
    StatusResponse,
    GetInstalledCertificateIds,
    GetCompositeSchedule,
    GetLog,
    DataTransfer,
    EmptyResponse,
    GenericIdTagInfo,
    GetConfiguration,
    GetDiagnostics,
}

/// The resolver's priority list, the one ordering policy this codec commits
/// to. The wire gives a response payload no type tag, so candidates are
/// tried in this fixed order and the first structural match wins:
///
/// 1. the structurally unique shapes, each with a required field no other
///    shape has (`StartTransaction`, `BootNotification`, `Heartbeat`,
///    `GetLocalListVersion`);
/// 2. the status family, its generic status-only shape first, then the
///    members with optional extras;
/// 3. the empty family, its generic all-absent shape first, then the
///    members with optional extras.
///
/// Placing the generic shape first within each family is what makes an
/// object carrying only `status` (or nothing at all) resolve to the generic
/// branch: the specific member would also accept it, but its distinguishing
/// fields are absent, so nothing on the wire justifies the specific choice.
/// Callers that sent the original request can recover the intended shape
/// through `is_only_status` / `is_empty` and their own correlation record.
pub open spec fn resolve_choice(o: JObj) -> Option<ResultBranch> {
    if StartTransaction::shape_ok(o) {
        Some(ResultBranch::StartTransaction)
    } else if BootNotification::shape_ok(o) {
        Some(ResultBranch::BootNotification)
    } else if Heartbeat::shape_ok(o) {
        Some(ResultBranch::Heartbeat)
    } else if GetLocalListVersion::shape_ok(o) {
        Some(ResultBranch::GetLocalListVersion)
    } else if GenericStatusResponse::shape_ok(o) {
        Some(ResultBranch::StatusResponse)
    } else if GetInstalledCertificateIds::shape_ok(o) {
        Some(ResultBranch::GetInstalledCertificateIds)
    } else if GetCompositeSchedule::shape_ok(o) {
        Some(ResultBranch::GetCompositeSchedule)
    } else if GetLog::shape_ok(o) {
        Some(ResultBranch::GetLog)
    } else if DataTransfer::shape_ok(o) {
        Some(ResultBranch::DataTransfer)
    } else if EmptyResponse::shape_ok(o) {
        Some(ResultBranch::EmptyResponse)
    } else if GenericIdTagInfo::shape_ok(o) {
        Some(ResultBranch::GenericIdTagInfo)
    } else if GetConfiguration::shape_ok(o) {
        Some(ResultBranch::GetConfiguration)
    } else if GetDiagnostics::shape_ok(o) {
        Some(ResultBranch::GetDiagnostics)
    } else {
        None
    }
}

/// Ordering law: an object that the generic status-only shape accepts — its
/// keys are nothing but `status`, holding a known status code — always
/// resolves to the generic status branch, never to a more specific
/// status-family shape, even though those shapes would accept it too.
pub proof fn lemma_status_only_resolves_generic(o: JObj)
    requires
        GenericStatusResponse::shape_ok(o),
    ensures
        resolve_choice(o) == Some(ResultBranch::StatusResponse),
{
    reveal_strlit("status");
    reveal_strlit("transactionId");
    reveal_strlit("currentTime");
    reveal_strlit("listVersion");
    assert("status"@.len() == 6);
    assert("transactionId"@.len() == 13);
    assert("currentTime"@.len() == 11);
    assert("listVersion"@.len() == 11);
    lemma_key_outside_status(o, "transactionId"@);
    lemma_key_outside_status(o, "currentTime"@);
    lemma_key_outside_status(o, "listVersion"@);
}

/// A generic-status object binds no key other than `status`.
proof fn lemma_key_outside_status(o: JObj, k: Seq<char>)
    requires
        GenericStatusResponse::shape_ok(o),
        k != "status"@,
    ensures
        jlookup(o, k) is None,
{
    if jlookup(o, k) is Some {
        crate::json::lemma_jlookup_some_key(o, k);
        let i = choose|i: int| 0 <= i < o.len() && (#[trigger] o[i].0) == k;
        assert(GenericStatusResponse::known_keys().contains(o[i].0));
        let j = choose|j: int|
            0 <= j < GenericStatusResponse::known_keys().len()
                && GenericStatusResponse::known_keys()[j] == o[i].0;
        assert(o[i].0 == "status"@);
    }
}

/// Resolution law for the empty family: the literal empty object resolves to
/// the generic empty branch, and everything the empty family decodes from it
/// reports itself empty.
pub proof fn lemma_empty_object_resolves_empty(o: JObj)
    requires
        o.len() == 0,
    ensures
        resolve_choice(o) == Some(ResultBranch::EmptyResponse),
        forall|er: EmptyResponses|
            payload_models(ResultPayload::PossibleEmptyResponse(er), o) ==> (
            #[trigger] er.empty_spec()),
{
}

/// Nested-ambiguity law: a reply holding exactly an inner tag-status object
/// resolves to the generic tag-info branch, and any value decoded from it
/// carries that inner object — so a caller reading the inner tag info never
/// needs to know whether the reply was authorize-style or
/// stop-transaction-style.
pub proof fn lemma_tag_info_reply_resolves_uniformly(o: JObj, e: JObj)
    requires
        o.len() == 1,
        o[0] == ("idTagInfo"@, JsonRep::Object(e)),
        IdTagInfo::shape_ok(e),
    ensures
        resolve_choice(o) == Some(ResultBranch::GenericIdTagInfo),
        forall|g: GenericIdTagInfo|
            (#[trigger] g.models(o)) ==> (g.id_tag_info matches Some(iti) && iti.models(e)),
{
    reveal_strlit("idTagInfo");
    reveal_strlit("status");
    reveal_strlit("transactionId");
    reveal_strlit("currentTime");
    reveal_strlit("listVersion");
    assert("idTagInfo"@.len() == 9);
    assert("status"@.len() == 6);
    assert("transactionId"@.len() == 13);
    assert("currentTime"@.len() == 11);
    assert("listVersion"@.len() == 11);
    assert(jlookup(o, "idTagInfo"@) == Some(JsonRep::Object(e)));
    assert(jlookup(o, "status"@) is None) by {
        assert(o[0].0 != "status"@);
        assert(o.drop_first().len() == 0);
        assert(jlookup(o.drop_first(), "status"@) is None);
    }
    assert(jlookup(o, "transactionId"@) is None) by {
        assert(o[0].0 != "transactionId"@);
        assert(o.drop_first().len() == 0);
        assert(jlookup(o.drop_first(), "transactionId"@) is None);
    }
    assert(jlookup(o, "currentTime"@) is None) by {
        assert(o[0].0 != "currentTime"@);
        assert(o.drop_first().len() == 0);
        assert(jlookup(o.drop_first(), "currentTime"@) is None);
    }
    assert(jlookup(o, "listVersion"@) is None) by {
        assert(o[0].0 != "listVersion"@);
        assert(o.drop_first().len() == 0);
        assert(jlookup(o.drop_first(), "listVersion"@) is None);
    }
    assert(!EmptyResponse::shape_ok(o)) by {
        if EmptyResponse::shape_ok(o) {
            assert(EmptyResponse::known_keys().contains(o[0].0));
            let j = choose|j: int|
                0 <= j < EmptyResponse::known_keys().len() && EmptyResponse::known_keys()[j]
                    == o[0].0;
        }
    }
    assert(GenericIdTagInfo::shape_ok(o)) by {
        assert(GenericIdTagInfo::known_keys()[0] == o[0].0);
        assert(GenericIdTagInfo::known_keys().contains(o[0].0));
    }
}

/// The branch a resolved payload belongs to.
pub open spec fn branch_of(p: ResultPayload) -> ResultBranch {
    match p {
        ResultPayload::StartTransaction(_) => ResultBranch::StartTransaction,
        ResultPayload::BootNotification(_) => ResultBranch::BootNotification,
        ResultPayload::Heartbeat(_) => ResultBranch::Heartbeat,
        ResultPayload::GetLocalListVersion(_) => ResultBranch::GetLocalListVersion,
        ResultPayload::PossibleStatusResponse(sr) => match sr {
            StatusResponses::StatusResponse(_) => ResultBranch::StatusResponse,
            StatusResponses::GetInstalledCertificateIds(_) => ResultBranch::GetInstalledCertificateIds,
            StatusResponses::GetCompositeSchedule(_) => ResultBranch::GetCompositeSchedule,
            StatusResponses::GetLog(_) => ResultBranch::GetLog,
            StatusResponses::DataTransfer(_) => ResultBranch::DataTransfer,
        },
        ResultPayload::PossibleEmptyResponse(er) => match er {
            EmptyResponses::EmptyResponse(_) => ResultBranch::EmptyResponse,
            EmptyResponses::GenericIdTagInfoResponse(_) => ResultBranch::GenericIdTagInfo,
            EmptyResponses::GetConfiguration(_) => ResultBranch::GetConfiguration,
            EmptyResponses::GetDiagnostics(_) => ResultBranch::GetDiagnostics,
        },
    }
}

/// The resolved payload is exactly what decoding `o` yields.
pub open spec fn payload_models(p: ResultPayload, o: JObj) -> bool {
    match p {
        ResultPayload::StartTransaction(x) => x.models(o),
        ResultPayload::BootNotification(x) => x.models(o),
        ResultPayload::Heartbeat(x) => x.models(o),
        ResultPayload::GetLocalListVersion(x) => x.models(o),
        ResultPayload::PossibleStatusResponse(sr) => match sr {
            StatusResponses::StatusResponse(x) => x.models(o),
            StatusResponses::GetInstalledCertificateIds(x) => x.models(o),
            StatusResponses::GetCompositeSchedule(x) => x.models(o),
            StatusResponses::GetLog(x) => x.models(o),
            StatusResponses::DataTransfer(x) => x.models(o),
        },
        ResultPayload::PossibleEmptyResponse(er) => match er {
            EmptyResponses::EmptyResponse(x) => x.models(o),
            EmptyResponses::GenericIdTagInfoResponse(x) => x.models(o),
            EmptyResponses::GetConfiguration(x) => x.models(o),
            EmptyResponses::GetDiagnostics(x) => x.models(o),
        },
    }
}

/// The object a resolved payload encodes to.
pub open spec fn payload_entries(p: ResultPayload) -> JObj {
    match p {
        ResultPayload::StartTransaction(x) => x.entries_spec(),
        ResultPayload::BootNotification(x) => x.entries_spec(),
        ResultPayload::Heartbeat(x) => x.entries_spec(),
        ResultPayload::GetLocalListVersion(x) => x.entries_spec(),
        ResultPayload::PossibleStatusResponse(sr) => match sr {
            StatusResponses::StatusResponse(x) => x.entries_spec(),
            StatusResponses::GetInstalledCertificateIds(x) => x.entries_spec(),
            StatusResponses::GetCompositeSchedule(x) => x.entries_spec(),
            StatusResponses::GetLog(x) => x.entries_spec(),
            StatusResponses::DataTransfer(x) => x.entries_spec(),
        },
        ResultPayload::PossibleEmptyResponse(er) => match er {
            EmptyResponses::EmptyResponse(x) => x.entries_spec(),
            EmptyResponses::GenericIdTagInfoResponse(x) => x.entries_spec(),
            EmptyResponses::GetConfiguration(x) => x.entries_spec(),
            EmptyResponses::GetDiagnostics(x) => x.entries_spec(),
        },
    }
}

impl ResultPayload {
    /// The name of the variant, used when logging a resolved payload.
    pub open spec fn name_spec(&self) -> Seq<char> {
        match self {
            ResultPayload::StartTransaction(_) => "StartTransaction"@,
            ResultPayload::BootNotification(_) => "BootNotification"@,
            ResultPayload::Heartbeat(_) => "Heartbeat"@,
            ResultPayload::GetLocalListVersion(_) => "GetLocalListVersion"@,
            ResultPayload::PossibleStatusResponse(_) => "PossibleStatusResponse"@,
            ResultPayload::PossibleEmptyResponse(_) => "PossibleEmptyResponse"@,
        }
    }

    pub fn name(&self) -> (r: String)
        ensures
            r@ == self.name_spec(),
    {
        match self {
            ResultPayload::StartTransaction(_) => String::from_str("StartTransaction"),
            ResultPayload::BootNotification(_) => String::from_str("BootNotification"),
            ResultPayload::Heartbeat(_) => String::from_str("Heartbeat"),
            ResultPayload::GetLocalListVersion(_) => String::from_str("GetLocalListVersion"),
            ResultPayload::PossibleStatusResponse(_) => String::from_str("PossibleStatusResponse"),
            ResultPayload::PossibleEmptyResponse(_) => String::from_str("PossibleEmptyResponse"),
        }
    }

    /// Resolves an untagged response payload by ordered structural matching
    /// against [`resolve_choice`]'s priority list.
    #[verifier::rlimit(100)]
    pub fn decode(v: &JsonValue) -> (r: Result<ResultPayload, Error>)
        ensures
            match r {
                Ok(p) => rep(*v) matches JsonRep::Object(o) && resolve_choice(o) == Some(
                    branch_of(p),
                ) && payload_models(p, o),
                Err(e) => e == Error::NoMatchingResultShape && match rep(*v) {
                    JsonRep::Object(o) => resolve_choice(o) is None,
                    _ => true,
                },
            },
    {
        let entries = match v {
            JsonValue::Object(e) => e,
            _ => {
                return Err(Error::NoMatchingResultShape);
            },
        };
        if let Ok(x) = StartTransaction::decode(entries) {
            return Ok(ResultPayload::StartTransaction(x));
        }
        if let Ok(x) = BootNotification::decode(entries) {
            return Ok(ResultPayload::BootNotification(x));
        }
        if let Ok(x) = Heartbeat::decode(entries) {
            return Ok(ResultPayload::Heartbeat(x));
        }
        if let Ok(x) = GetLocalListVersion::decode(entries) {
            return Ok(ResultPayload::GetLocalListVersion(x));
        }
        if let Ok(x) = GenericStatusResponse::decode(entries) {
            return Ok(ResultPayload::PossibleStatusResponse(StatusResponses::StatusResponse(x)));
        }
        if let Ok(x) = GetInstalledCertificateIds::decode(entries) {
            return Ok(
                ResultPayload::PossibleStatusResponse(
                    StatusResponses::GetInstalledCertificateIds(x),
                ),
            );
        }
        if let Ok(x) = GetCompositeSchedule::decode(entries) {
            return Ok(
                ResultPayload::PossibleStatusResponse(StatusResponses::GetCompositeSchedule(x)),
            );
        }
        if let Ok(x) = GetLog::decode(entries) {
            return Ok(ResultPayload::PossibleStatusResponse(StatusResponses::GetLog(x)));
        }
        if let Ok(x) = DataTransfer::decode(entries) {
            return Ok(ResultPayload::PossibleStatusResponse(StatusResponses::DataTransfer(x)));
        }
        if let Ok(x) = EmptyResponse::decode(entries) {
            return Ok(ResultPayload::PossibleEmptyResponse(EmptyResponses::EmptyResponse(x)));
        }
        if let Ok(x) = GenericIdTagInfo::decode(entries) {
            return Ok(
                ResultPayload::PossibleEmptyResponse(EmptyResponses::GenericIdTagInfoResponse(x)),
            );
        }
        if let Ok(x) = GetConfiguration::decode(entries) {
            return Ok(ResultPayload::PossibleEmptyResponse(EmptyResponses::GetConfiguration(x)));
        }
        if let Ok(x) = GetDiagnostics::decode(entries) {
            return Ok(ResultPayload::PossibleEmptyResponse(EmptyResponses::GetDiagnostics(x)));
        }
        Err(Error::NoMatchingResultShape)
    }

    /// Encodes the resolved payload back to its object form.
    pub fn encode(&self) -> (r: JsonValue)
        ensures
            rep(r) == JsonRep::Object(payload_entries(*self)),
    {
        match self {
            ResultPayload::StartTransaction(x) => x.encode(),
            ResultPayload::BootNotification(x) => x.encode(),
            ResultPayload::Heartbeat(x) => x.encode(),
            ResultPayload::GetLocalListVersion(x) => x.encode(),
            ResultPayload::PossibleStatusResponse(sr) => match sr {
                StatusResponses::StatusResponse(x) => x.encode(),
                StatusResponses::GetInstalledCertificateIds(x) => x.encode(),
                StatusResponses::GetCompositeSchedule(x) => x.encode(),
                StatusResponses::GetLog(x) => x.encode(),
                StatusResponses::DataTransfer(x) => x.encode(),
            },
            ResultPayload::PossibleEmptyResponse(er) => match er {
                EmptyResponses::EmptyResponse(x) => x.encode(),
                EmptyResponses::GenericIdTagInfoResponse(x) => x.encode(),
                EmptyResponses::GetConfiguration(x) => x.encode(),
                EmptyResponses::GetDiagnostics(x) => x.encode(),
            },
        }
    }
}

} // verus!
