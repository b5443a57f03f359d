//! Typed requests (`Call`) and the action dispatcher.
//!
//! A `Call` frame is `[2, id, action, payload]`: the action name is an
//! explicit type tag, so decoding a request payload is a lookup in the
//! action catalog followed by one structural decode — no search.

use vstd::prelude::*;

use crate::errors::{Error, FieldDecodeError};
use crate::json::{
    absent, arr_field, check_keys, field_absent, get_arr, get_i32, get_obj, get_str, get_u32,
    get_u64, int_field, int_json, keys_ok, obj_field, obj_rep, opt_entry, rep, str_field,
    str_list_models, str_list_ok, str_list_rep, str_map_models, str_map_ok, str_map_rep,
    strs_view, uint_json, decode_str_list, decode_str_map, encode_str_list, encode_str_map, JObj,
    JsonRep, JsonValue,
};
use crate::v16::data_types::{
    decode_mv_list, encode_mv_list, mv_list_models, mv_list_rep, mv_list_shape_ok,
    DateTimeWrapper, MeterValue,
};
use crate::v16::enums::{
    AvailabilityType, CertificateUse, ChargePointErrorCode, ChargePointStatus,
    ChargingProfilePurposeType, ChargingRateUnitType, DiagnosticsStatus, FirmwareStatus, Log,
    MessageTrigger, Reason, ResetType, UpdateType, UploadLogStatus,
};

verus! {

use vstd::string::StringExecFns;

/// A request frame: `[2, unique_id, action, payload]`.
///
/// `action` and the variant of `payload` are set together by [`Call::new`]
/// and by the decoder, and the `message_id` must be 2 for the frame to
/// encode.
#[derive(Debug, PartialEq, Eq, Clone)]
pub struct Call {
    pub message_id: i32,
    pub unique_id: String,
    pub action: String,
    pub payload: Action,
}

impl Call {
    /// Whether the internal discriminators agree with the payload.
    pub open spec fn wf(&self) -> bool {
        self.message_id == 2 && self.action@ == self.payload.name_spec()
    }

    pub fn new(unique_id: String, payload: Action) -> (r: Call)
        ensures
            r.message_id == 2,
            r.unique_id == unique_id,
            r.action@ == payload.name_spec(),
            r.payload == payload,
            r.wf(),
    {
        let action = payload.name();
        Call { message_id: 2, unique_id, action, payload }
    }
}

/// Every request the catalog knows, with its typed payload.
#[derive(Debug, PartialEq, Eq, Clone)]
pub enum Action {
    Authorize(Authorize),
    BootNotification(BootNotification),
    CancelReservation(CancelReservation),
    CertificateSigned(CertificateSigned),
    ChangeAvailability(ChangeAvailability),
    ChangeConfiguration(ChangeConfiguration),
    ClearCache(ClearCache),
    ClearChargingProfile(ClearChargingProfile),
    DataTransfer(DataTransfer),
    DeleteCertificate(DeleteCertificate),
    DiagnosticsStatusNotification(DiagnosticsStatusNotification),
    ExtendedTriggerMessage(ExtendedTriggerMessage),
    FirmwareStatusNotification(FirmwareStatusNotification),
    GetCompositeSchedule(GetCompositeSchedule),
    GetConfiguration(GetConfiguration),
    GetDiagnostics(GetDiagnostics),
    GetInstalledCertificateIds(GetInstalledCertificateIds),
    GetLocalListVersion(GetLocalListVersion),
    GetLog(GetLog),
    Heartbeat(Heartbeat),
    InstallCertificate(InstallCertificate),
    LogStatusNotification(LogStatusNotification),
    MeterValues(MeterValues),
    RemoteStartTransaction(RemoteStartTransaction),
    RemoteStopTransaction(RemoteStopTransaction),
    ReserveNow(ReserveNow),
    Reset(Reset),
    SecurityEventNotification(SecurityEventNotification),
    SendLocalList(SendLocalList),
    SetChargingProfile(SetChargingProfile),
    SignCertificate(SignCertificate),
    SignedFirmwareStatusNotification(SignedFirmwareStatusNotification),
    SignedUpdateFirmware(SignedUpdateFirmware),
    StartTransaction(StartTransaction),
    StatusNotification(StatusNotification),
    StopTransaction(StopTransaction),
    TriggerMessage(TriggerMessage),
    UnlockConnector(UnlockConnector),
    UpdateFirmware(UpdateFirmware),
}

impl Action {
    /// The action name that tags this payload on the wire.
    pub open spec fn name_spec(&self) -> Seq<char> {
        match self {
            Action::Authorize(_) => "Authorize"@,
            Action::BootNotification(_) => "BootNotification"@,
            Action::CancelReservation(_) => "CancelReservation"@,
            Action::CertificateSigned(_) => "CertificateSigned"@,
            Action::ChangeAvailability(_) => "ChangeAvailability"@,
            Action::ChangeConfiguration(_) => "ChangeConfiguration"@,
            Action::ClearCache(_) => "ClearCache"@,
            Action::ClearChargingProfile(_) => "ClearChargingProfile"@,
            Action::DataTransfer(_) => "DataTransfer"@,
            Action::DeleteCertificate(_) => "DeleteCertificate"@,
            Action::DiagnosticsStatusNotification(_) => "DiagnosticsStatusNotification"@,
            Action::ExtendedTriggerMessage(_) => "ExtendedTriggerMessage"@,
            Action::FirmwareStatusNotification(_) => "FirmwareStatusNotification"@,
            Action::GetCompositeSchedule(_) => "GetCompositeSchedule"@,
            Action::GetConfiguration(_) => "GetConfiguration"@,
            Action::GetDiagnostics(_) => "GetDiagnostics"@,
            Action::GetInstalledCertificateIds(_) => "GetInstalledCertificateIds"@,
            Action::GetLocalListVersion(_) => "GetLocalListVersion"@,
            Action::GetLog(_) => "GetLog"@,
            Action::Heartbeat(_) => "Heartbeat"@,
            Action::InstallCertificate(_) => "InstallCertificate"@,
            Action::LogStatusNotification(_) => "LogStatusNotification"@,
            Action::MeterValues(_) => "MeterValues"@,
            Action::RemoteStartTransaction(_) => "RemoteStartTransaction"@,
            Action::RemoteStopTransaction(_) => "RemoteStopTransaction"@,
            Action::ReserveNow(_) => "ReserveNow"@,
            Action::Reset(_) => "Reset"@,
            Action::SecurityEventNotification(_) => "SecurityEventNotification"@,
            Action::SendLocalList(_) => "SendLocalList"@,
            Action::SetChargingProfile(_) => "SetChargingProfile"@,
            Action::SignCertificate(_) => "SignCertificate"@,
            Action::SignedFirmwareStatusNotification(_) => "SignedFirmwareStatusNotification"@,
            Action::SignedUpdateFirmware(_) => "SignedUpdateFirmware"@,
            Action::StartTransaction(_) => "StartTransaction"@,
            Action::StatusNotification(_) => "StatusNotification"@,
            Action::StopTransaction(_) => "StopTransaction"@,
            Action::TriggerMessage(_) => "TriggerMessage"@,
            Action::UnlockConnector(_) => "UnlockConnector"@,
            Action::UpdateFirmware(_) => "UpdateFirmware"@,
        }
    }

    pub fn name(&self) -> (r: String)
        ensures
            r@ == self.name_spec(),
    {
        match self {
            Action::Authorize(_) => String::from_str("Authorize"),
            Action::BootNotification(_) => String::from_str("BootNotification"),
            Action::CancelReservation(_) => String::from_str("CancelReservation"),
            Action::CertificateSigned(_) => String::from_str("CertificateSigned"),
            Action::ChangeAvailability(_) => String::from_str("ChangeAvailability"),
            Action::ChangeConfiguration(_) => String::from_str("ChangeConfiguration"),
            Action::ClearCache(_) => String::from_str("ClearCache"),
            Action::ClearChargingProfile(_) => String::from_str("ClearChargingProfile"),
            Action::DataTransfer(_) => String::from_str("DataTransfer"),
            Action::DeleteCertificate(_) => String::from_str("DeleteCertificate"),
            Action::DiagnosticsStatusNotification(_) => String::from_str("DiagnosticsStatusNotification"),
            Action::ExtendedTriggerMessage(_) => String::from_str("ExtendedTriggerMessage"),
            Action::FirmwareStatusNotification(_) => String::from_str("FirmwareStatusNotification"),
            Action::GetCompositeSchedule(_) => String::from_str("GetCompositeSchedule"),
            Action::GetConfiguration(_) => String::from_str("GetConfiguration"),
            Action::GetDiagnostics(_) => String::from_str("GetDiagnostics"),
            Action::GetInstalledCertificateIds(_) => String::from_str("GetInstalledCertificateIds"),
            Action::GetLocalListVersion(_) => String::from_str("GetLocalListVersion"),
            Action::GetLog(_) => String::from_str("GetLog"),
            Action::Heartbeat(_) => String::from_str("Heartbeat"),
            Action::InstallCertificate(_) => String::from_str("InstallCertificate"),
            Action::LogStatusNotification(_) => String::from_str("LogStatusNotification"),
            Action::MeterValues(_) => String::from_str("MeterValues"),
            Action::RemoteStartTransaction(_) => String::from_str("RemoteStartTransaction"),
            Action::RemoteStopTransaction(_) => String::from_str("RemoteStopTransaction"),
            Action::ReserveNow(_) => String::from_str("ReserveNow"),
            Action::Reset(_) => String::from_str("Reset"),
            Action::SecurityEventNotification(_) => String::from_str("SecurityEventNotification"),
            Action::SendLocalList(_) => String::from_str("SendLocalList"),
            Action::SetChargingProfile(_) => String::from_str("SetChargingProfile"),
            Action::SignCertificate(_) => String::from_str("SignCertificate"),
            Action::SignedFirmwareStatusNotification(_) => String::from_str("SignedFirmwareStatusNotification"),
            Action::SignedUpdateFirmware(_) => String::from_str("SignedUpdateFirmware"),
            Action::StartTransaction(_) => String::from_str("StartTransaction"),
            Action::StatusNotification(_) => String::from_str("StatusNotification"),
            Action::StopTransaction(_) => String::from_str("StopTransaction"),
            Action::TriggerMessage(_) => String::from_str("TriggerMessage"),
            Action::UnlockConnector(_) => String::from_str("UnlockConnector"),
            Action::UpdateFirmware(_) => String::from_str("UpdateFirmware"),
        }
    }
}

/// Whether the action catalog lists this name.
pub open spec fn known_action(name: Seq<char>) -> bool {
    ||| name == "Authorize"@
    ||| name == "BootNotification"@
    ||| name == "CancelReservation"@
    ||| name == "CertificateSigned"@
    ||| name == "ChangeAvailability"@
    ||| name == "ChangeConfiguration"@
    ||| name == "ClearCache"@
    ||| name == "ClearChargingProfile"@
    ||| name == "DataTransfer"@
    ||| name == "DeleteCertificate"@
    ||| name == "DiagnosticsStatusNotification"@
    ||| name == "ExtendedTriggerMessage"@
    ||| name == "FirmwareStatusNotification"@
    ||| name == "GetCompositeSchedule"@
    ||| name == "GetConfiguration"@
    ||| name == "GetDiagnostics"@
    ||| name == "GetInstalledCertificateIds"@
    ||| name == "GetLocalListVersion"@
    ||| name == "GetLog"@
    ||| name == "Heartbeat"@
    ||| name == "InstallCertificate"@
    ||| name == "LogStatusNotification"@
    ||| name == "MeterValues"@
    ||| name == "RemoteStartTransaction"@
    ||| name == "RemoteStopTransaction"@
    ||| name == "ReserveNow"@
    ||| name == "Reset"@
    ||| name == "SecurityEventNotification"@
    ||| name == "SendLocalList"@
    ||| name == "SetChargingProfile"@
    ||| name == "SignCertificate"@
    ||| name == "SignedFirmwareStatusNotification"@
    ||| name == "SignedUpdateFirmware"@
    ||| name == "StartTransaction"@
    ||| name == "StatusNotification"@
    ||| name == "StopTransaction"@
    ||| name == "TriggerMessage"@
    ||| name == "UnlockConnector"@
    ||| name == "UpdateFirmware"@
}

/// Which objects decode under a given action name.
pub open spec fn action_shape_ok(name: Seq<char>, o: JObj) -> bool {
    if name == "Authorize"@ {
        Authorize::shape_ok(o)
    } else if name == "BootNotification"@ {
        BootNotification::shape_ok(o)
    } else if name == "CancelReservation"@ {
        CancelReservation::shape_ok(o)
    } else if name == "CertificateSigned"@ {
        CertificateSigned::shape_ok(o)
    } else if name == "ChangeAvailability"@ {
        ChangeAvailability::shape_ok(o)
    } else if name == "ChangeConfiguration"@ {
        ChangeConfiguration::shape_ok(o)
    } else if name == "ClearCache"@ {
        ClearCache::shape_ok(o)
    } else if name == "ClearChargingProfile"@ {
        ClearChargingProfile::shape_ok(o)
    } else if name == "DataTransfer"@ {
        DataTransfer::shape_ok(o)
    } else if name == "DeleteCertificate"@ {
        DeleteCertificate::shape_ok(o)
    } else if name == "DiagnosticsStatusNotification"@ {
        DiagnosticsStatusNotification::shape_ok(o)
    } else if name == "ExtendedTriggerMessage"@ {
        ExtendedTriggerMessage::shape_ok(o)
    } else if name == "FirmwareStatusNotification"@ {
        FirmwareStatusNotification::shape_ok(o)
    } else if name == "GetCompositeSchedule"@ {
        GetCompositeSchedule::shape_ok(o)
    } else if name == "GetConfiguration"@ {
        GetConfiguration::shape_ok(o)
    } else if name == "GetDiagnostics"@ {
        GetDiagnostics::shape_ok(o)
    } else if name == "GetInstalledCertificateIds"@ {
        GetInstalledCertificateIds::shape_ok(o)
    } else if name == "GetLocalListVersion"@ {
        GetLocalListVersion::shape_ok(o)
    } else if name == "GetLog"@ {
        GetLog::shape_ok(o)
    } else if name == "Heartbeat"@ {
        Heartbeat::shape_ok(o)
    } else if name == "InstallCertificate"@ {
        InstallCertificate::shape_ok(o)
    } else if name == "LogStatusNotification"@ {
        LogStatusNotification::shape_ok(o)
    } else if name == "MeterValues"@ {
        MeterValues::shape_ok(o)
    } else if name == "RemoteStartTransaction"@ {
        RemoteStartTransaction::shape_ok(o)
    } else if name == "RemoteStopTransaction"@ {
        RemoteStopTransaction::shape_ok(o)
    } else if name == "ReserveNow"@ {
        ReserveNow::shape_ok(o)
    } else if name == "Reset"@ {
        Reset::shape_ok(o)
    } else if name == "SecurityEventNotification"@ {
        SecurityEventNotification::shape_ok(o)
    } else if name == "SendLocalList"@ {
        SendLocalList::shape_ok(o)
    } else if name == "SetChargingProfile"@ {
        SetChargingProfile::shape_ok(o)
    } else if name == "SignCertificate"@ {
        SignCertificate::shape_ok(o)
    } else if name == "SignedFirmwareStatusNotification"@ {
        SignedFirmwareStatusNotification::shape_ok(o)
    } else if name == "SignedUpdateFirmware"@ {
        SignedUpdateFirmware::shape_ok(o)
    } else if name == "StartTransaction"@ {
        StartTransaction::shape_ok(o)
    } else if name == "StatusNotification"@ {
        StatusNotification::shape_ok(o)
    } else if name == "StopTransaction"@ {
        StopTransaction::shape_ok(o)
    } else if name == "TriggerMessage"@ {
        TriggerMessage::shape_ok(o)
    } else if name == "UnlockConnector"@ {
        UnlockConnector::shape_ok(o)
    } else if name == "UpdateFirmware"@ {
        UpdateFirmware::shape_ok(o)
    } else {
        false
    }
}

/// The decoded payload is exactly what decoding `o` yields.
pub open spec fn action_models(a: Action, o: JObj) -> bool {
    match a {
        Action::Authorize(x) => x.models(o),
        Action::BootNotification(x) => x.models(o),
        Action::CancelReservation(x) => x.models(o),
        Action::CertificateSigned(x) => x.models(o),
        Action::ChangeAvailability(x) => x.models(o),
        Action::ChangeConfiguration(x) => x.models(o),
        Action::ClearCache(x) => x.models(o),
        Action::ClearChargingProfile(x) => x.models(o),
        Action::DataTransfer(x) => x.models(o),
        Action::DeleteCertificate(x) => x.models(o),
        Action::DiagnosticsStatusNotification(x) => x.models(o),
        Action::ExtendedTriggerMessage(x) => x.models(o),
        Action::FirmwareStatusNotification(x) => x.models(o),
        Action::GetCompositeSchedule(x) => x.models(o),
        Action::GetConfiguration(x) => x.models(o),
        Action::GetDiagnostics(x) => x.models(o),
        Action::GetInstalledCertificateIds(x) => x.models(o),
        Action::GetLocalListVersion(x) => x.models(o),
        Action::GetLog(x) => x.models(o),
        Action::Heartbeat(x) => x.models(o),
        Action::InstallCertificate(x) => x.models(o),
        Action::LogStatusNotification(x) => x.models(o),
        Action::MeterValues(x) => x.models(o),
        Action::RemoteStartTransaction(x) => x.models(o),
        Action::RemoteStopTransaction(x) => x.models(o),
        Action::ReserveNow(x) => x.models(o),
        Action::Reset(x) => x.models(o),
        Action::SecurityEventNotification(x) => x.models(o),
        Action::SendLocalList(x) => x.models(o),
        Action::SetChargingProfile(x) => x.models(o),
        Action::SignCertificate(x) => x.models(o),
        Action::SignedFirmwareStatusNotification(x) => x.models(o),
        Action::SignedUpdateFirmware(x) => x.models(o),
        Action::StartTransaction(x) => x.models(o),
        Action::StatusNotification(x) => x.models(o),
        Action::StopTransaction(x) => x.models(o),
        Action::TriggerMessage(x) => x.models(o),
        Action::UnlockConnector(x) => x.models(o),
        Action::UpdateFirmware(x) => x.models(o),
    }
}

/// The object an action payload encodes to.
pub open spec fn action_entries(a: Action) -> JObj {
    match a {
        Action::Authorize(x) => x.entries_spec(),
        Action::BootNotification(x) => x.entries_spec(),
        Action::CancelReservation(x) => x.entries_spec(),
        Action::CertificateSigned(x) => x.entries_spec(),
        Action::ChangeAvailability(x) => x.entries_spec(),
        Action::ChangeConfiguration(x) => x.entries_spec(),
        Action::ClearCache(x) => x.entries_spec(),
        Action::ClearChargingProfile(x) => x.entries_spec(),
        Action::DataTransfer(x) => x.entries_spec(),
        Action::DeleteCertificate(x) => x.entries_spec(),
        Action::DiagnosticsStatusNotification(x) => x.entries_spec(),
        Action::ExtendedTriggerMessage(x) => x.entries_spec(),
        Action::FirmwareStatusNotification(x) => x.entries_spec(),
        Action::GetCompositeSchedule(x) => x.entries_spec(),
        Action::GetConfiguration(x) => x.entries_spec(),
        Action::GetDiagnostics(x) => x.entries_spec(),
        Action::GetInstalledCertificateIds(x) => x.entries_spec(),
        Action::GetLocalListVersion(x) => x.entries_spec(),
        Action::GetLog(x) => x.entries_spec(),
        Action::Heartbeat(x) => x.entries_spec(),
        Action::InstallCertificate(x) => x.entries_spec(),
        Action::LogStatusNotification(x) => x.entries_spec(),
        Action::MeterValues(x) => x.entries_spec(),
        Action::RemoteStartTransaction(x) => x.entries_spec(),
        Action::RemoteStopTransaction(x) => x.entries_spec(),
        Action::ReserveNow(x) => x.entries_spec(),
        Action::Reset(x) => x.entries_spec(),
        Action::SecurityEventNotification(x) => x.entries_spec(),
        Action::SendLocalList(x) => x.entries_spec(),
        Action::SetChargingProfile(x) => x.entries_spec(),
        Action::SignCertificate(x) => x.entries_spec(),
        Action::SignedFirmwareStatusNotification(x) => x.entries_spec(),
        Action::SignedUpdateFirmware(x) => x.entries_spec(),
        Action::StartTransaction(x) => x.entries_spec(),
        Action::StatusNotification(x) => x.entries_spec(),
        Action::StopTransaction(x) => x.entries_spec(),
        Action::TriggerMessage(x) => x.entries_spec(),
        Action::UnlockConnector(x) => x.entries_spec(),
        Action::UpdateFirmware(x) => x.entries_spec(),
    }
}

impl Action {
    /// Decodes a request payload. The action name is an explicit type
    /// tag: an unknown name is rejected as such (never coerced to a
    /// default action), and a known name selects exactly one shape.
    pub fn decode(name: &str, payload: &JsonValue) -> (r: Result<Action, Error>)
        ensures
            match r {
                Ok(a) => known_action(name@) && a.name_spec() == name@ && (rep(
                    *payload,
                ) matches JsonRep::Object(o) && action_models(a, o)),
                Err(Error::UnknownAction(n)) => !known_action(name@) && n@ == name@,
                Err(Error::FieldDecode(_)) => known_action(name@) && !(rep(
                    *payload,
                ) matches JsonRep::Object(o) && action_shape_ok(name@, o)),
                Err(_) => false,
            },
    {
        if crate::chars::str_eq_str(name, "Authorize") {
            let entries = match payload {
                JsonValue::Object(e) => e,
                _ => {
                    return Err(Error::FieldDecode(FieldDecodeError {
                        shape: String::from_str("Authorize"),
                        field: String::new(),
                    }));
                },
            };
            return match Authorize::decode(entries) {
                Ok(x) => Ok(Action::Authorize(x)),
                Err(field) => Err(Error::FieldDecode(FieldDecodeError {
                    shape: String::from_str("Authorize"),
                    field,
                })),
            };
        }
        if crate::chars::str_eq_str(name, "BootNotification") {
            let entries = match payload {
                JsonValue::Object(e) => e,
                _ => {
                    return Err(Error::FieldDecode(FieldDecodeError {
                        shape: String::from_str("BootNotification"),
                        field: String::new(),
                    }));
                },
            };
            return match BootNotification::decode(entries) {
                Ok(x) => Ok(Action::BootNotification(x)),
                Err(field) => Err(Error::FieldDecode(FieldDecodeError {
                    shape: String::from_str("BootNotification"),
                    field,
                })),
            };
        }
        if crate::chars::str_eq_str(name, "CancelReservation") {
            let entries = match payload {
                JsonValue::Object(e) => e,
                _ => {
                    return Err(Error::FieldDecode(FieldDecodeError {
                        shape: String::from_str("CancelReservation"),
                        field: String::new(),
                    }));
                },
            };
            return match CancelReservation::decode(entries) {
                Ok(x) => Ok(Action::CancelReservation(x)),
                Err(field) => Err(Error::FieldDecode(FieldDecodeError {
                    shape: String::from_str("CancelReservation"),
                    field,
                })),
            };
        }
        if crate::chars::str_eq_str(name, "CertificateSigned") {
            let entries = match payload {
                JsonValue::Object(e) => e,
                _ => {
                    return Err(Error::FieldDecode(FieldDecodeError {
                        shape: String::from_str("CertificateSigned"),
                        field: String::new(),
                    }));
                },
            };
            return match CertificateSigned::decode(entries) {
                Ok(x) => Ok(Action::CertificateSigned(x)),
                Err(field) => Err(Error::FieldDecode(FieldDecodeError {
                    shape: String::from_str("CertificateSigned"),
                    field,
                })),
            };
        }
        if crate::chars::str_eq_str(name, "ChangeAvailability") {
            let entries = match payload {
                JsonValue::Object(e) => e,
                _ => {
                    return Err(Error::FieldDecode(FieldDecodeError {
                        shape: String::from_str("ChangeAvailability"),
                        field: String::new(),
                    }));
                },
            };
            return match ChangeAvailability::decode(entries) {
                Ok(x) => Ok(Action::ChangeAvailability(x)),
                Err(field) => Err(Error::FieldDecode(FieldDecodeError {
                    shape: String::from_str("ChangeAvailability"),
                    field,
                })),
            };
        }
        if crate::chars::str_eq_str(name, "ChangeConfiguration") {
            let entries = match payload {
                JsonValue::Object(e) => e,
                _ => {
                    return Err(Error::FieldDecode(FieldDecodeError {
                        shape: String::from_str("ChangeConfiguration"),
                        field: String::new(),
                    }));
                },
            };
            return match ChangeConfiguration::decode(entries) {
                Ok(x) => Ok(Action::ChangeConfiguration(x)),
                Err(field) => Err(Error::FieldDecode(FieldDecodeError {
                    shape: String::from_str("ChangeConfiguration"),
                    field,
                })),
            };
        }
        if crate::chars::str_eq_str(name, "ClearCache") {
            let entries = match payload {
                JsonValue::Object(e) => e,
                _ => {
                    return Err(Error::FieldDecode(FieldDecodeError {
                        shape: String::from_str("ClearCache"),
                        field: String::new(),
                    }));
                },
            };
            return match ClearCache::decode(entries) {
                Ok(x) => Ok(Action::ClearCache(x)),
                Err(field) => Err(Error::FieldDecode(FieldDecodeError {
                    shape: String::from_str("ClearCache"),
                    field,
                })),
            };
        }
        if crate::chars::str_eq_str(name, "ClearChargingProfile") {
            let entries = match payload {
                JsonValue::Object(e) => e,
                _ => {
                    return Err(Error::FieldDecode(FieldDecodeError {
                        shape: String::from_str("ClearChargingProfile"),
                        field: String::new(),
                    }));
                },
            };
            return match ClearChargingProfile::decode(entries) {
                Ok(x) => Ok(Action::ClearChargingProfile(x)),
                Err(field) => Err(Error::FieldDecode(FieldDecodeError {
                    shape: String::from_str("ClearChargingProfile"),
                    field,
                })),
            };
        }
        if crate::chars::str_eq_str(name, "DataTransfer") {
            let entries = match payload {
                JsonValue::Object(e) => e,
                _ => {
                    return Err(Error::FieldDecode(FieldDecodeError {
                        shape: String::from_str("DataTransfer"),
                        field: String::new(),
                    }));
                },
            };
            return match DataTransfer::decode(entries) {
                Ok(x) => Ok(Action::DataTransfer(x)),
                Err(field) => Err(Error::FieldDecode(FieldDecodeError {
                    shape: String::from_str("DataTransfer"),
                    field,
                })),
            };
        }
        if crate::chars::str_eq_str(name, "DeleteCertificate") {
            let entries = match payload {
                JsonValue::Object(e) => e,
                _ => {
                    return Err(Error::FieldDecode(FieldDecodeError {
                        shape: String::from_str("DeleteCertificate"),
                        field: String::new(),
                    }));
                },
            };
            return match DeleteCertificate::decode(entries) {
                Ok(x) => Ok(Action::DeleteCertificate(x)),
                Err(field) => Err(Error::FieldDecode(FieldDecodeError {
                    shape: String::from_str("DeleteCertificate"),
                    field,
                })),
            };
        }
        if crate::chars::str_eq_str(name, "DiagnosticsStatusNotification") {
            let entries = match payload {
                JsonValue::Object(e) => e,
                _ => {
                    return Err(Error::FieldDecode(FieldDecodeError {
                        shape: String::from_str("DiagnosticsStatusNotification"),
                        field: String::new(),
                    }));
                },
            };
            return match DiagnosticsStatusNotification::decode(entries) {
                Ok(x) => Ok(Action::DiagnosticsStatusNotification(x)),
                Err(field) => Err(Error::FieldDecode(FieldDecodeError {
                    shape: String::from_str("DiagnosticsStatusNotification"),
                    field,
                })),
            };
        }
        if crate::chars::str_eq_str(name, "ExtendedTriggerMessage") {
            let entries = match payload {
                JsonValue::Object(e) => e,
                _ => {
                    return Err(Error::FieldDecode(FieldDecodeError {
                        shape: String::from_str("ExtendedTriggerMessage"),
                        field: String::new(),
                    }));
                },
            };
            return match ExtendedTriggerMessage::decode(entries) {
                Ok(x) => Ok(Action::ExtendedTriggerMessage(x)),
                Err(field) => Err(Error::FieldDecode(FieldDecodeError {
                    shape: String::from_str("ExtendedTriggerMessage"),
                    field,
                })),
            };
        }
        if crate::chars::str_eq_str(name, "FirmwareStatusNotification") {
            let entries = match payload {
                JsonValue::Object(e) => e,
                _ => {
                    return Err(Error::FieldDecode(FieldDecodeError {
                        shape: String::from_str("FirmwareStatusNotification"),
                        field: String::new(),
                    }));
                },
            };
            return match FirmwareStatusNotification::decode(entries) {
                Ok(x) => Ok(Action::FirmwareStatusNotification(x)),
                Err(field) => Err(Error::FieldDecode(FieldDecodeError {
                    shape: String::from_str("FirmwareStatusNotification"),
                    field,
                })),
            };
        }
        if crate::chars::str_eq_str(name, "GetCompositeSchedule") {
            let entries = match payload {
                JsonValue::Object(e) => e,
                _ => {
                    return Err(Error::FieldDecode(FieldDecodeError {
                        shape: String::from_str("GetCompositeSchedule"),
                        field: String::new(),
                    }));
                },
            };
            return match GetCompositeSchedule::decode(entries) {
                Ok(x) => Ok(Action::GetCompositeSchedule(x)),
                Err(field) => Err(Error::FieldDecode(FieldDecodeError {
                    shape: String::from_str("GetCompositeSchedule"),
                    field,
                })),
            };
        }
        if crate::chars::str_eq_str(name, "GetConfiguration") {
            let entries = match payload {
                JsonValue::Object(e) => e,
                _ => {
                    return Err(Error::FieldDecode(FieldDecodeError {
                        shape: String::from_str("GetConfiguration"),
                        field: String::new(),
                    }));
                },
            };
            return match GetConfiguration::decode(entries) {
                Ok(x) => Ok(Action::GetConfiguration(x)),
                Err(field) => Err(Error::FieldDecode(FieldDecodeError {
                    shape: String::from_str("GetConfiguration"),
                    field,
                })),
            };
        }
        if crate::chars::str_eq_str(name, "GetDiagnostics") {
            let entries = match payload {
                JsonValue::Object(e) => e,
                _ => {
                    return Err(Error::FieldDecode(FieldDecodeError {
                        shape: String::from_str("GetDiagnostics"),
                        field: String::new(),
                    }));
                },
            };
            return match GetDiagnostics::decode(entries) {
                Ok(x) => Ok(Action::GetDiagnostics(x)),
                Err(field) => Err(Error::FieldDecode(FieldDecodeError {
                    shape: String::from_str("GetDiagnostics"),
                    field,
                })),
            };
        }
        if crate::chars::str_eq_str(name, "GetInstalledCertificateIds") {
            let entries = match payload {
                JsonValue::Object(e) => e,
                _ => {
                    return Err(Error::FieldDecode(FieldDecodeError {
                        shape: String::from_str("GetInstalledCertificateIds"),
                        field: String::new(),
                    }));
                },
            };
            return match GetInstalledCertificateIds::decode(entries) {
                Ok(x) => Ok(Action::GetInstalledCertificateIds(x)),
                Err(field) => Err(Error::FieldDecode(FieldDecodeError {
                    shape: String::from_str("GetInstalledCertificateIds"),
                    field,
                })),
            };
        }
        if crate::chars::str_eq_str(name, "GetLocalListVersion") {
            let entries = match payload {
                JsonValue::Object(e) => e,
                _ => {
                    return Err(Error::FieldDecode(FieldDecodeError {
                        shape: String::from_str("GetLocalListVersion"),
                        field: String::new(),
                    }));
                },
            };
            return match GetLocalListVersion::decode(entries) {
                Ok(x) => Ok(Action::GetLocalListVersion(x)),
                Err(field) => Err(Error::FieldDecode(FieldDecodeError {
                    shape: String::from_str("GetLocalListVersion"),
                    field,
                })),
            };
        }
        if crate::chars::str_eq_str(name, "GetLog") {
            let entries = match payload {
                JsonValue::Object(e) => e,
                _ => {
                    return Err(Error::FieldDecode(FieldDecodeError {
                        shape: String::from_str("GetLog"),
                        field: String::new(),
                    }));
                },
            };
            return match GetLog::decode(entries) {
                Ok(x) => Ok(Action::GetLog(x)),
                Err(field) => Err(Error::FieldDecode(FieldDecodeError {
                    shape: String::from_str("GetLog"),
                    field,
                })),
            };
        }
        if crate::chars::str_eq_str(name, "Heartbeat") {
            let entries = match payload {
                JsonValue::Object(e) => e,
                _ => {
                    return Err(Error::FieldDecode(FieldDecodeError {
                        shape: String::from_str("Heartbeat"),
                        field: String::new(),
                    }));
                },
            };
            return match Heartbeat::decode(entries) {
                Ok(x) => Ok(Action::Heartbeat(x)),
                Err(field) => Err(Error::FieldDecode(FieldDecodeError {
                    shape: String::from_str("Heartbeat"),
                    field,
                })),
            };
        }
        if crate::chars::str_eq_str(name, "InstallCertificate") {
            let entries = match payload {
                JsonValue::Object(e) => e,
                _ => {
                    return Err(Error::FieldDecode(FieldDecodeError {
                        shape: String::from_str("InstallCertificate"),
                        field: String::new(),
                    }));
                },
            };
            return match InstallCertificate::decode(entries) {
                Ok(x) => Ok(Action::InstallCertificate(x)),
                Err(field) => Err(Error::FieldDecode(FieldDecodeError {
                    shape: String::from_str("InstallCertificate"),
                    field,
                })),
            };
        }
        if crate::chars::str_eq_str(name, "LogStatusNotification") {
            let entries = match payload {
                JsonValue::Object(e) => e,
                _ => {
                    return Err(Error::FieldDecode(FieldDecodeError {
                        shape: String::from_str("LogStatusNotification"),
                        field: String::new(),
                    }));
                },
            };
            return match LogStatusNotification::decode(entries) {
                Ok(x) => Ok(Action::LogStatusNotification(x)),
                Err(field) => Err(Error::FieldDecode(FieldDecodeError {
                    shape: String::from_str("LogStatusNotification"),
                    field,
                })),
            };
        }
        if crate::chars::str_eq_str(name, "MeterValues") {
            let entries = match payload {
                JsonValue::Object(e) => e,
                _ => {
                    return Err(Error::FieldDecode(FieldDecodeError {
                        shape: String::from_str("MeterValues"),
                        field: String::new(),
                    }));
                },
            };
            return match MeterValues::decode(entries) {
                Ok(x) => Ok(Action::MeterValues(x)),
                Err(field) => Err(Error::FieldDecode(FieldDecodeError {
                    shape: String::from_str("MeterValues"),
                    field,
                })),
            };
        }
        if crate::chars::str_eq_str(name, "RemoteStartTransaction") {
            let entries = match payload {
                JsonValue::Object(e) => e,
                _ => {
                    return Err(Error::FieldDecode(FieldDecodeError {
                        shape: String::from_str("RemoteStartTransaction"),
                        field: String::new(),
                    }));
                },
            };
            return match RemoteStartTransaction::decode(entries) {
                Ok(x) => Ok(Action::RemoteStartTransaction(x)),
                Err(field) => Err(Error::FieldDecode(FieldDecodeError {
                    shape: String::from_str("RemoteStartTransaction"),
                    field,
                })),
            };
        }
        if crate::chars::str_eq_str(name, "RemoteStopTransaction") {
            let entries = match payload {
                JsonValue::Object(e) => e,
                _ => {
                    return Err(Error::FieldDecode(FieldDecodeError {
                        shape: String::from_str("RemoteStopTransaction"),
                        field: String::new(),
                    }));
                },
            };
            return match RemoteStopTransaction::decode(entries) {
                Ok(x) => Ok(Action::RemoteStopTransaction(x)),
                Err(field) => Err(Error::FieldDecode(FieldDecodeError {
                    shape: String::from_str("RemoteStopTransaction"),
                    field,
                })),
            };
        }
        if crate::chars::str_eq_str(name, "ReserveNow") {
            let entries = match payload {
                JsonValue::Object(e) => e,
                _ => {
                    return Err(Error::FieldDecode(FieldDecodeError {
                        shape: String::from_str("ReserveNow"),
                        field: String::new(),
                    }));
                },
            };
            return match ReserveNow::decode(entries) {
                Ok(x) => Ok(Action::ReserveNow(x)),
                Err(field) => Err(Error::FieldDecode(FieldDecodeError {
                    shape: String::from_str("ReserveNow"),
                    field,
                })),
            };
        }
        if crate::chars::str_eq_str(name, "Reset") {
            let entries = match payload {
                JsonValue::Object(e) => e,
                _ => {
                    return Err(Error::FieldDecode(FieldDecodeError {
                        shape: String::from_str("Reset"),
                        field: String::new(),
                    }));
                },
            };
            return match Reset::decode(entries) {
                Ok(x) => Ok(Action::Reset(x)),
                Err(field) => Err(Error::FieldDecode(FieldDecodeError {
                    shape: String::from_str("Reset"),
                    field,
                })),
            };
        }
        if crate::chars::str_eq_str(name, "SecurityEventNotification") {
            let entries = match payload {
                JsonValue::Object(e) => e,
                _ => {
                    return Err(Error::FieldDecode(FieldDecodeError {
                        shape: String::from_str("SecurityEventNotification"),
                        field: String::new(),
                    }));
                },
            };
            return match SecurityEventNotification::decode(entries) {
                Ok(x) => Ok(Action::SecurityEventNotification(x)),
                Err(field) => Err(Error::FieldDecode(FieldDecodeError {
                    shape: String::from_str("SecurityEventNotification"),
                    field,
                })),
            };
        }
        if crate::chars::str_eq_str(name, "SendLocalList") {
            let entries = match payload {
                JsonValue::Object(e) => e,
                _ => {
                    return Err(Error::FieldDecode(FieldDecodeError {
                        shape: String::from_str("SendLocalList"),
                        field: String::new(),
                    }));
                },
            };
            return match SendLocalList::decode(entries) {
                Ok(x) => Ok(Action::SendLocalList(x)),
                Err(field) => Err(Error::FieldDecode(FieldDecodeError {
                    shape: String::from_str("SendLocalList"),
                    field,
                })),
            };
        }
        if crate::chars::str_eq_str(name, "SetChargingProfile") {
            let entries = match payload {
                JsonValue::Object(e) => e,
                _ => {
                    return Err(Error::FieldDecode(FieldDecodeError {
                        shape: String::from_str("SetChargingProfile"),
                        field: String::new(),
                    }));
                },
            };
            return match SetChargingProfile::decode(entries) {
                Ok(x) => Ok(Action::SetChargingProfile(x)),
                Err(field) => Err(Error::FieldDecode(FieldDecodeError {
                    shape: String::from_str("SetChargingProfile"),
                    field,
                })),
            };
        }
        if crate::chars::str_eq_str(name, "SignCertificate") {
            let entries = match payload {
                JsonValue::Object(e) => e,
                _ => {
                    return Err(Error::FieldDecode(FieldDecodeError {
                        shape: String::from_str("SignCertificate"),
                        field: String::new(),
                    }));
                },
            };
            return match SignCertificate::decode(entries) {
                Ok(x) => Ok(Action::SignCertificate(x)),
                Err(field) => Err(Error::FieldDecode(FieldDecodeError {
                    shape: String::from_str("SignCertificate"),
                    field,
                })),
            };
        }
        if crate::chars::str_eq_str(name, "SignedFirmwareStatusNotification") {
            let entries = match payload {
                JsonValue::Object(e) => e,
                _ => {
                    return Err(Error::FieldDecode(FieldDecodeError {
                        shape: String::from_str("SignedFirmwareStatusNotification"),
                        field: String::new(),
                    }));
                },
            };
            return match SignedFirmwareStatusNotification::decode(entries) {
                Ok(x) => Ok(Action::SignedFirmwareStatusNotification(x)),
                Err(field) => Err(Error::FieldDecode(FieldDecodeError {
                    shape: String::from_str("SignedFirmwareStatusNotification"),
                    field,
                })),
            };
        }
        if crate::chars::str_eq_str(name, "SignedUpdateFirmware") {
            let entries = match payload {
                JsonValue::Object(e) => e,
                _ => {
                    return Err(Error::FieldDecode(FieldDecodeError {
                        shape: String::from_str("SignedUpdateFirmware"),
                        field: String::new(),
                    }));
                },
            };
            return match SignedUpdateFirmware::decode(entries) {
                Ok(x) => Ok(Action::SignedUpdateFirmware(x)),
                Err(field) => Err(Error::FieldDecode(FieldDecodeError {
                    shape: String::from_str("SignedUpdateFirmware"),
                    field,
                })),
            };
        }
        if crate::chars::str_eq_str(name, "StartTransaction") {
            let entries = match payload {
                JsonValue::Object(e) => e,
                _ => {
                    return Err(Error::FieldDecode(FieldDecodeError {
                        shape: String::from_str("StartTransaction"),
                        field: String::new(),
                    }));
                },
            };
            return match StartTransaction::decode(entries) {
                Ok(x) => Ok(Action::StartTransaction(x)),
                Err(field) => Err(Error::FieldDecode(FieldDecodeError {
                    shape: String::from_str("StartTransaction"),
                    field,
                })),
            };
        }
        if crate::chars::str_eq_str(name, "StatusNotification") {
            let entries = match payload {
                JsonValue::Object(e) => e,
                _ => {
                    return Err(Error::FieldDecode(FieldDecodeError {
                        shape: String::from_str("StatusNotification"),
                        field: String::new(),
                    }));
                },
            };
            return match StatusNotification::decode(entries) {
                Ok(x) => Ok(Action::StatusNotification(x)),
                Err(field) => Err(Error::FieldDecode(FieldDecodeError {
                    shape: String::from_str("StatusNotification"),
                    field,
                })),
            };
        }
        if crate::chars::str_eq_str(name, "StopTransaction") {
            let entries = match payload {
                JsonValue::Object(e) => e,
                _ => {
                    return Err(Error::FieldDecode(FieldDecodeError {
                        shape: String::from_str("StopTransaction"),
                        field: String::new(),
                    }));
                },
            };
            return match StopTransaction::decode(entries) {
                Ok(x) => Ok(Action::StopTransaction(x)),
                Err(field) => Err(Error::FieldDecode(FieldDecodeError {
                    shape: String::from_str("StopTransaction"),
                    field,
                })),
            };
        }
        if crate::chars::str_eq_str(name, "TriggerMessage") {
            let entries = match payload {
                JsonValue::Object(e) => e,
                _ => {
                    return Err(Error::FieldDecode(FieldDecodeError {
                        shape: String::from_str("TriggerMessage"),
                        field: String::new(),
                    }));
                },
            };
            return match TriggerMessage::decode(entries) {
                Ok(x) => Ok(Action::TriggerMessage(x)),
                Err(field) => Err(Error::FieldDecode(FieldDecodeError {
                    shape: String::from_str("TriggerMessage"),
                    field,
                })),
            };
        }
        if crate::chars::str_eq_str(name, "UnlockConnector") {
            let entries = match payload {
                JsonValue::Object(e) => e,
                _ => {
                    return Err(Error::FieldDecode(FieldDecodeError {
                        shape: String::from_str("UnlockConnector"),
                        field: String::new(),
                    }));
                },
            };
            return match UnlockConnector::decode(entries) {
                Ok(x) => Ok(Action::UnlockConnector(x)),
                Err(field) => Err(Error::FieldDecode(FieldDecodeError {
                    shape: String::from_str("UnlockConnector"),
                    field,
                })),
            };
        }
        if crate::chars::str_eq_str(name, "UpdateFirmware") {
            let entries = match payload {
                JsonValue::Object(e) => e,
                _ => {
                    return Err(Error::FieldDecode(FieldDecodeError {
                        shape: String::from_str("UpdateFirmware"),
                        field: String::new(),
                    }));
                },
            };
            return match UpdateFirmware::decode(entries) {
                Ok(x) => Ok(Action::UpdateFirmware(x)),
                Err(field) => Err(Error::FieldDecode(FieldDecodeError {
                    shape: String::from_str("UpdateFirmware"),
                    field,
                })),
            };
        }
        Err(Error::UnknownAction(name.to_owned()))
    }

    /// Encodes the payload back to its object form.
    pub fn encode(&self) -> (r: JsonValue)
        ensures
            rep(r) == JsonRep::Object(action_entries(*self)),
    {
        match self {
            Action::Authorize(x) => x.encode(),
            Action::BootNotification(x) => x.encode(),
            Action::CancelReservation(x) => x.encode(),
            Action::CertificateSigned(x) => x.encode(),
            Action::ChangeAvailability(x) => x.encode(),
            Action::ChangeConfiguration(x) => x.encode(),
            Action::ClearCache(x) => x.encode(),
            Action::ClearChargingProfile(x) => x.encode(),
            Action::DataTransfer(x) => x.encode(),
            Action::DeleteCertificate(x) => x.encode(),
            Action::DiagnosticsStatusNotification(x) => x.encode(),
            Action::ExtendedTriggerMessage(x) => x.encode(),
            Action::FirmwareStatusNotification(x) => x.encode(),
            Action::GetCompositeSchedule(x) => x.encode(),
            Action::GetConfiguration(x) => x.encode(),
            Action::GetDiagnostics(x) => x.encode(),
            Action::GetInstalledCertificateIds(x) => x.encode(),
            Action::GetLocalListVersion(x) => x.encode(),
            Action::GetLog(x) => x.encode(),
            Action::Heartbeat(x) => x.encode(),
            Action::InstallCertificate(x) => x.encode(),
            Action::LogStatusNotification(x) => x.encode(),
            Action::MeterValues(x) => x.encode(),
            Action::RemoteStartTransaction(x) => x.encode(),
            Action::RemoteStopTransaction(x) => x.encode(),
            Action::ReserveNow(x) => x.encode(),
            Action::Reset(x) => x.encode(),
            Action::SecurityEventNotification(x) => x.encode(),
            Action::SendLocalList(x) => x.encode(),
            Action::SetChargingProfile(x) => x.encode(),
            Action::SignCertificate(x) => x.encode(),
            Action::SignedFirmwareStatusNotification(x) => x.encode(),
            Action::SignedUpdateFirmware(x) => x.encode(),
            Action::StartTransaction(x) => x.encode(),
            Action::StatusNotification(x) => x.encode(),
            Action::StopTransaction(x) => x.encode(),
            Action::TriggerMessage(x) => x.encode(),
            Action::UnlockConnector(x) => x.encode(),
            Action::UpdateFirmware(x) => x.encode(),
        }
    }
}

/// Asks whether an identification tag may charge.
#[derive(Debug, PartialEq, Eq, Clone, Default)]
pub struct Authorize {
    pub id_tag: String,
}

impl Authorize {
    /// The keys this shape declares, in the order they are written.
    pub open spec fn known_keys() -> Seq<Seq<char>> {
        seq!["idTag"@]
    }

    /// Structural match: the shape is strict, so every key must be
    /// declared and none may repeat.
    pub open spec fn shape_ok(o: JObj) -> bool {
        &&& keys_ok(o, Self::known_keys())
        &&& str_field(o, "idTag"@) is Some
    }

    /// This value is exactly what decoding `o` yields.
    pub open spec fn models(&self, o: JObj) -> bool {
        &&& Self::shape_ok(o)
        &&& str_field(o, "idTag"@) == Some(self.id_tag@)
    }

    /// The object this value encodes to.
    pub open spec fn entries_spec(&self) -> JObj {
        seq![("idTag"@, JsonRep::Str(self.id_tag@))]
    }

    pub fn decode(entries: &Vec<(String, JsonValue)>) -> (r: Result<Self, String>)
        ensures
            match r {
                Ok(v) => v.models(obj_rep(*entries, 0)),
                Err(_) => !Self::shape_ok(obj_rep(*entries, 0)),
            },
    {
        let known: Vec<&str> = vec!["idTag"];
        proof {
            assert(strs_view(known@) =~= Self::known_keys());
        }
        if let Some(k) = check_keys(entries, &known) {
            return Err(k.clone());
        }
        let id_tag = match get_str(entries, "idTag") {
            Some(s) => s.clone(),
            None => { return Err(String::from_str("idTag")); },
        };
        Ok(Authorize { id_tag })
    }

    pub fn encode(&self) -> (r: JsonValue)
        ensures
            rep(r) == JsonRep::Object(self.entries_spec()),
    {
        let mut e: Vec<(String, JsonValue)> = Vec::new();
        e.push((String::from_str("idTag"), JsonValue::Str(self.id_tag.clone())));
        let ghost ge = e;
        let r = JsonValue::Object(e);
        proof {
            crate::json::lemma_obj_rep_points(ge);
            assert(obj_rep(ge, 0) =~= self.entries_spec());
        }
        r
    }
}

/// Announces the charge point after (re)boot.
#[derive(Debug, PartialEq, Eq, Clone, Default)]
pub struct BootNotification {
    pub charge_point_model: String,
    pub charge_point_vendor: String,
    pub charge_box_serial_number: Option<String>,
    pub charge_point_serial_number: Option<String>,
    pub firmware_version: Option<String>,
    pub iccid: Option<String>,
    pub imsi: Option<String>,
    pub meter_serial_number: Option<String>,
    pub meter_type: Option<String>,
}

impl BootNotification {
    /// The keys this shape declares, in the order they are written.
    pub open spec fn known_keys() -> Seq<Seq<char>> {
        seq!["chargePointModel"@, "chargePointVendor"@, "chargeBoxSerialNumber"@, "chargePointSerialNumber"@, "firmwareVersion"@, "iccid"@, "imsi"@, "meterSerialNumber"@, "meterType"@]
    }

    /// Structural match: the shape is strict, so every key must be
    /// declared and none may repeat.
    pub open spec fn shape_ok(o: JObj) -> bool {
        &&& keys_ok(o, Self::known_keys())
        &&& str_field(o, "chargePointModel"@) is Some
        &&& str_field(o, "chargePointVendor"@) is Some
        &&& (absent(o, "chargeBoxSerialNumber"@) || str_field(o, "chargeBoxSerialNumber"@) is Some)
        &&& (absent(o, "chargePointSerialNumber"@) || str_field(o, "chargePointSerialNumber"@) is Some)
        &&& (absent(o, "firmwareVersion"@) || str_field(o, "firmwareVersion"@) is Some)
        &&& (absent(o, "iccid"@) || str_field(o, "iccid"@) is Some)
        &&& (absent(o, "imsi"@) || str_field(o, "imsi"@) is Some)
        &&& (absent(o, "meterSerialNumber"@) || str_field(o, "meterSerialNumber"@) is Some)
        &&& (absent(o, "meterType"@) || str_field(o, "meterType"@) is Some)
    }

    /// This value is exactly what decoding `o` yields.
    pub open spec fn models(&self, o: JObj) -> bool {
        &&& Self::shape_ok(o)
        &&& str_field(o, "chargePointModel"@) == Some(self.charge_point_model@)
        &&& str_field(o, "chargePointVendor"@) == Some(self.charge_point_vendor@)
        &&& match self.charge_box_serial_number {
            Some(v) => str_field(o, "chargeBoxSerialNumber"@) == Some(v@),
            None => absent(o, "chargeBoxSerialNumber"@),
        }
        &&& match self.charge_point_serial_number {
            Some(v) => str_field(o, "chargePointSerialNumber"@) == Some(v@),
            None => absent(o, "chargePointSerialNumber"@),
        }
        &&& match self.firmware_version {
            Some(v) => str_field(o, "firmwareVersion"@) == Some(v@),
            None => absent(o, "firmwareVersion"@),
        }
        &&& match self.iccid {
            Some(v) => str_field(o, "iccid"@) == Some(v@),
            None => absent(o, "iccid"@),
        }
        &&& match self.imsi {
            Some(v) => str_field(o, "imsi"@) == Some(v@),
            None => absent(o, "imsi"@),
        }
        &&& match self.meter_serial_number {
            Some(v) => str_field(o, "meterSerialNumber"@) == Some(v@),
            None => absent(o, "meterSerialNumber"@),
        }
        &&& match self.meter_type {
            Some(v) => str_field(o, "meterType"@) == Some(v@),
            None => absent(o, "meterType"@),
        }
    }

    /// The object this value encodes to.
    pub open spec fn entries_spec(&self) -> JObj {
        seq![("chargePointModel"@, JsonRep::Str(self.charge_point_model@))]
            + seq![("chargePointVendor"@, JsonRep::Str(self.charge_point_vendor@))]
            + opt_entry("chargeBoxSerialNumber"@, match self.charge_box_serial_number { Some(v) => Some(JsonRep::Str(v@)), None => None })
            + opt_entry("chargePointSerialNumber"@, match self.charge_point_serial_number { Some(v) => Some(JsonRep::Str(v@)), None => None })
            + opt_entry("firmwareVersion"@, match self.firmware_version { Some(v) => Some(JsonRep::Str(v@)), None => None })
            + opt_entry("iccid"@, match self.iccid { Some(v) => Some(JsonRep::Str(v@)), None => None })
            + opt_entry("imsi"@, match self.imsi { Some(v) => Some(JsonRep::Str(v@)), None => None })
            + opt_entry("meterSerialNumber"@, match self.meter_serial_number { Some(v) => Some(JsonRep::Str(v@)), None => None })
            + opt_entry("meterType"@, match self.meter_type { Some(v) => Some(JsonRep::Str(v@)), None => None })
    }

    #[verifier::rlimit(100)]
    pub fn decode(entries: &Vec<(String, JsonValue)>) -> (r: Result<Self, String>)
        ensures
            match r {
                Ok(v) => v.models(obj_rep(*entries, 0)),
                Err(_) => !Self::shape_ok(obj_rep(*entries, 0)),
            },
    {
        let known: Vec<&str> = vec!["chargePointModel", "chargePointVendor", "chargeBoxSerialNumber", "chargePointSerialNumber", "firmwareVersion", "iccid", "imsi", "meterSerialNumber", "meterType"];
        proof {
            assert(strs_view(known@) =~= Self::known_keys());
        }
        if let Some(k) = check_keys(entries, &known) {
            return Err(k.clone());
        }
        let charge_point_model = match get_str(entries, "chargePointModel") {
            Some(s) => s.clone(),
            None => { return Err(String::from_str("chargePointModel")); },
        };
        let charge_point_vendor = match get_str(entries, "chargePointVendor") {
            Some(s) => s.clone(),
            None => { return Err(String::from_str("chargePointVendor")); },
        };
        let charge_box_serial_number = if field_absent(entries, "chargeBoxSerialNumber") { None } else {
            match get_str(entries, "chargeBoxSerialNumber") {
                Some(s) => Some(s.clone()),
                None => { return Err(String::from_str("chargeBoxSerialNumber")); },
            }
        };
        let charge_point_serial_number = if field_absent(entries, "chargePointSerialNumber") { None } else {
            match get_str(entries, "chargePointSerialNumber") {
                Some(s) => Some(s.clone()),
                None => { return Err(String::from_str("chargePointSerialNumber")); },
            }
        };
        let firmware_version = if field_absent(entries, "firmwareVersion") { None } else {
            match get_str(entries, "firmwareVersion") {
                Some(s) => Some(s.clone()),
                None => { return Err(String::from_str("firmwareVersion")); },
            }
        };
        let iccid = if field_absent(entries, "iccid") { None } else {
            match get_str(entries, "iccid") {
                Some(s) => Some(s.clone()),
                None => { return Err(String::from_str("iccid")); },
            }
        };
        let imsi = if field_absent(entries, "imsi") { None } else {
            match get_str(entries, "imsi") {
                Some(s) => Some(s.clone()),
                None => { return Err(String::from_str("imsi")); },
            }
        };
        let meter_serial_number = if field_absent(entries, "meterSerialNumber") { None } else {
            match get_str(entries, "meterSerialNumber") {
                Some(s) => Some(s.clone()),
                None => { return Err(String::from_str("meterSerialNumber")); },
            }
        };
        let meter_type = if field_absent(entries, "meterType") { None } else {
            match get_str(entries, "meterType") {
                Some(s) => Some(s.clone()),
                None => { return Err(String::from_str("meterType")); },
            }
        };
        Ok(BootNotification { charge_point_model, charge_point_vendor, charge_box_serial_number, charge_point_serial_number, firmware_version, iccid, imsi, meter_serial_number, meter_type })
    }

    #[verifier::rlimit(100)]
    pub fn encode(&self) -> (r: JsonValue)
        ensures
            rep(r) == JsonRep::Object(self.entries_spec()),
    {
        let mut e: Vec<(String, JsonValue)> = Vec::new();
        e.push((String::from_str("chargePointModel"), JsonValue::Str(self.charge_point_model.clone())));
        e.push((String::from_str("chargePointVendor"), JsonValue::Str(self.charge_point_vendor.clone())));
        match &self.charge_box_serial_number {
            Some(v) => e.push((String::from_str("chargeBoxSerialNumber"), JsonValue::Str(v.clone()))),
            None => (),
        }
        match &self.charge_point_serial_number {
            Some(v) => e.push((String::from_str("chargePointSerialNumber"), JsonValue::Str(v.clone()))),
            None => (),
        }
        match &self.firmware_version {
            Some(v) => e.push((String::from_str("firmwareVersion"), JsonValue::Str(v.clone()))),
            None => (),
        }
        match &self.iccid {
            Some(v) => e.push((String::from_str("iccid"), JsonValue::Str(v.clone()))),
            None => (),
        }
        match &self.imsi {
            Some(v) => e.push((String::from_str("imsi"), JsonValue::Str(v.clone()))),
            None => (),
        }
        match &self.meter_serial_number {
            Some(v) => e.push((String::from_str("meterSerialNumber"), JsonValue::Str(v.clone()))),
            None => (),
        }
        match &self.meter_type {
            Some(v) => e.push((String::from_str("meterType"), JsonValue::Str(v.clone()))),
            None => (),
        }
        let ghost ge = e;
        let r = JsonValue::Object(e);
        proof {
            crate::json::lemma_obj_rep_points(ge);
            assert(obj_rep(ge, 0) =~= self.entries_spec());
        }
        r
    }
}

/// Cancels a reservation.
#[derive(Debug, PartialEq, Eq, Clone, Default)]
pub struct CancelReservation {
    pub reservation_id: i32,
}

impl CancelReservation {
    /// The keys this shape declares, in the order they are written.
    pub open spec fn known_keys() -> Seq<Seq<char>> {
        seq!["reservationId"@]
    }

    /// Structural match: the shape is strict, so every key must be
    /// declared and none may repeat.
    pub open spec fn shape_ok(o: JObj) -> bool {
        &&& keys_ok(o, Self::known_keys())
        &&& (int_field(o, "reservationId"@) matches Some(n) && i32::MIN <= n <= i32::MAX)
    }

    /// This value is exactly what decoding `o` yields.
    pub open spec fn models(&self, o: JObj) -> bool {
        &&& Self::shape_ok(o)
        &&& int_field(o, "reservationId"@) == Some(self.reservation_id as int)
    }

    /// The object this value encodes to.
    pub open spec fn entries_spec(&self) -> JObj {
        seq![("reservationId"@, JsonRep::Int(self.reservation_id as int))]
    }

    pub fn decode(entries: &Vec<(String, JsonValue)>) -> (r: Result<Self, String>)
        ensures
            match r {
                Ok(v) => v.models(obj_rep(*entries, 0)),
                Err(_) => !Self::shape_ok(obj_rep(*entries, 0)),
            },
    {
        let known: Vec<&str> = vec!["reservationId"];
        proof {
            assert(strs_view(known@) =~= Self::known_keys());
        }
        if let Some(k) = check_keys(entries, &known) {
            return Err(k.clone());
        }
        let reservation_id = match get_i32(entries, "reservationId") {
            Some(v) => v,
            None => { return Err(String::from_str("reservationId")); },
        };
        Ok(CancelReservation { reservation_id })
    }

    pub fn encode(&self) -> (r: JsonValue)
        ensures
            rep(r) == JsonRep::Object(self.entries_spec()),
    {
        let mut e: Vec<(String, JsonValue)> = Vec::new();
        e.push((String::from_str("reservationId"), int_json(self.reservation_id as i64)));
        let ghost ge = e;
        let r = JsonValue::Object(e);
        proof {
            crate::json::lemma_obj_rep_points(ge);
            assert(obj_rep(ge, 0) =~= self.entries_spec());
        }
        r
    }
}

/// Delivers a signed certificate chain.
#[derive(Debug, PartialEq, Eq, Clone, Default)]
pub struct CertificateSigned {
    pub certificate_chain: String,
}

impl CertificateSigned {
    /// The keys this shape declares, in the order they are written.
    pub open spec fn known_keys() -> Seq<Seq<char>> {
        seq!["certificateChain"@]
    }

    /// Structural match: the shape is strict, so every key must be
    /// declared and none may repeat.
    pub open spec fn shape_ok(o: JObj) -> bool {
        &&& keys_ok(o, Self::known_keys())
        &&& str_field(o, "certificateChain"@) is Some
    }

    /// This value is exactly what decoding `o` yields.
    pub open spec fn models(&self, o: JObj) -> bool {
        &&& Self::shape_ok(o)
        &&& str_field(o, "certificateChain"@) == Some(self.certificate_chain@)
    }

    /// The object this value encodes to.
    pub open spec fn entries_spec(&self) -> JObj {
        seq![("certificateChain"@, JsonRep::Str(self.certificate_chain@))]
    }

    pub fn decode(entries: &Vec<(String, JsonValue)>) -> (r: Result<Self, String>)
        ensures
            match r {
                Ok(v) => v.models(obj_rep(*entries, 0)),
                Err(_) => !Self::shape_ok(obj_rep(*entries, 0)),
            },
    {
        let known: Vec<&str> = vec!["certificateChain"];
        proof {
            assert(strs_view(known@) =~= Self::known_keys());
        }
        if let Some(k) = check_keys(entries, &known) {
            return Err(k.clone());
        }
        let certificate_chain = match get_str(entries, "certificateChain") {
            Some(s) => s.clone(),
            None => { return Err(String::from_str("certificateChain")); },
        };
        Ok(CertificateSigned { certificate_chain })
    }

    pub fn encode(&self) -> (r: JsonValue)
        ensures
            rep(r) == JsonRep::Object(self.entries_spec()),
    {
        let mut e: Vec<(String, JsonValue)> = Vec::new();
        e.push((String::from_str("certificateChain"), JsonValue::Str(self.certificate_chain.clone())));
        let ghost ge = e;
        let r = JsonValue::Object(e);
        proof {
            crate::json::lemma_obj_rep_points(ge);
            assert(obj_rep(ge, 0) =~= self.entries_spec());
        }
        r
    }
}

/// Changes a connector's availability.
#[derive(Debug, PartialEq, Eq, Clone, Default)]
pub struct ChangeAvailability {
    pub connector_id: u32,
    pub availability_type: AvailabilityType,
}

impl ChangeAvailability {
    /// The keys this shape declares, in the order they are written.
    pub open spec fn known_keys() -> Seq<Seq<char>> {
        seq!["connectorId"@, "type"@]
    }

    /// Structural match: the shape is strict, so every key must be
    /// declared and none may repeat.
    pub open spec fn shape_ok(o: JObj) -> bool {
        &&& keys_ok(o, Self::known_keys())
        &&& (int_field(o, "connectorId"@) matches Some(n) && 0 <= n <= u32::MAX)
        &&& (str_field(o, "type"@) matches Some(s) && AvailabilityType::from_wire_spec(s) is Some)
    }

    /// This value is exactly what decoding `o` yields.
    pub open spec fn models(&self, o: JObj) -> bool {
        &&& Self::shape_ok(o)
        &&& int_field(o, "connectorId"@) == Some(self.connector_id as int)
        &&& (str_field(o, "type"@) matches Some(s) && AvailabilityType::from_wire_spec(s) == Some(self.availability_type))
    }

    /// The object this value encodes to.
    pub open spec fn entries_spec(&self) -> JObj {
        seq![("connectorId"@, JsonRep::Int(self.connector_id as int))]
            + seq![("type"@, JsonRep::Str(self.availability_type.wire_spec()))]
    }

    pub fn decode(entries: &Vec<(String, JsonValue)>) -> (r: Result<Self, String>)
        ensures
            match r {
                Ok(v) => v.models(obj_rep(*entries, 0)),
                Err(_) => !Self::shape_ok(obj_rep(*entries, 0)),
            },
    {
        let known: Vec<&str> = vec!["connectorId", "type"];
        proof {
            assert(strs_view(known@) =~= Self::known_keys());
        }
        if let Some(k) = check_keys(entries, &known) {
            return Err(k.clone());
        }
        let connector_id = match get_u32(entries, "connectorId") {
            Some(v) => v,
            None => { return Err(String::from_str("connectorId")); },
        };
        let availability_type = match get_str(entries, "type") {
            Some(s) => match AvailabilityType::from_wire(s.as_str()) {
                Some(c) => c,
                None => { return Err(String::from_str("type")); },
            },
            None => { return Err(String::from_str("type")); },
        };
        Ok(ChangeAvailability { connector_id, availability_type })
    }

    pub fn encode(&self) -> (r: JsonValue)
        ensures
            rep(r) == JsonRep::Object(self.entries_spec()),
    {
        let mut e: Vec<(String, JsonValue)> = Vec::new();
        e.push((String::from_str("connectorId"), uint_json(self.connector_id as u64)));
        e.push((String::from_str("type"), JsonValue::Str(self.availability_type.wire_name())));
        let ghost ge = e;
        let r = JsonValue::Object(e);
        proof {
            crate::json::lemma_obj_rep_points(ge);
            assert(obj_rep(ge, 0) =~= self.entries_spec());
        }
        r
    }
}

/// Sets one configuration key.
#[derive(Debug, PartialEq, Eq, Clone, Default)]
pub struct ChangeConfiguration {
    pub key: String,
    pub value: String,
}

impl ChangeConfiguration {
    /// The keys this shape declares, in the order they are written.
    pub open spec fn known_keys() -> Seq<Seq<char>> {
        seq!["key"@, "value"@]
    }

    /// Structural match: the shape is strict, so every key must be
    /// declared and none may repeat.
    pub open spec fn shape_ok(o: JObj) -> bool {
        &&& keys_ok(o, Self::known_keys())
        &&& str_field(o, "key"@) is Some
        &&& str_field(o, "value"@) is Some
    }

    /// This value is exactly what decoding `o` yields.
    pub open spec fn models(&self, o: JObj) -> bool {
        &&& Self::shape_ok(o)
        &&& str_field(o, "key"@) == Some(self.key@)
        &&& str_field(o, "value"@) == Some(self.value@)
    }

    /// The object this value encodes to.
    pub open spec fn entries_spec(&self) -> JObj {
        seq![("key"@, JsonRep::Str(self.key@))]
            + seq![("value"@, JsonRep::Str(self.value@))]
    }

    pub fn decode(entries: &Vec<(String, JsonValue)>) -> (r: Result<Self, String>)
        ensures
            match r {
                Ok(v) => v.models(obj_rep(*entries, 0)),
                Err(_) => !Self::shape_ok(obj_rep(*entries, 0)),
            },
    {
        let known: Vec<&str> = vec!["key", "value"];
        proof {
            assert(strs_view(known@) =~= Self::known_keys());
        }
        if let Some(k) = check_keys(entries, &known) {
            return Err(k.clone());
        }
        let key = match get_str(entries, "key") {
            Some(s) => s.clone(),
            None => { return Err(String::from_str("key")); },
        };
        let value = match get_str(entries, "value") {
            Some(s) => s.clone(),
            None => { return Err(String::from_str("value")); },
        };
        Ok(ChangeConfiguration { key, value })
    }

    pub fn encode(&self) -> (r: JsonValue)
        ensures
            rep(r) == JsonRep::Object(self.entries_spec()),
    {
        let mut e: Vec<(String, JsonValue)> = Vec::new();
        e.push((String::from_str("key"), JsonValue::Str(self.key.clone())));
        e.push((String::from_str("value"), JsonValue::Str(self.value.clone())));
        let ghost ge = e;
        let r = JsonValue::Object(e);
        proof {
            crate::json::lemma_obj_rep_points(ge);
            assert(obj_rep(ge, 0) =~= self.entries_spec());
        }
        r
    }
}

/// Clears the authorization cache.
#[derive(Debug, PartialEq, Eq, Clone, Default)]
pub struct ClearCache {
}

impl ClearCache {
    /// The keys this shape declares, in the order they are written.
    pub open spec fn known_keys() -> Seq<Seq<char>> {
        Seq::empty()
    }

    /// Structural match: the shape is strict, so every key must be
    /// declared and none may repeat.
    pub open spec fn shape_ok(o: JObj) -> bool {
        &&& keys_ok(o, Self::known_keys())
    }

    /// This value is exactly what decoding `o` yields.
    pub open spec fn models(&self, o: JObj) -> bool {
        &&& Self::shape_ok(o)
        &&& true
    }

    /// The object this value encodes to.
    pub open spec fn entries_spec(&self) -> JObj {
        Seq::empty()
    }

    pub fn decode(entries: &Vec<(String, JsonValue)>) -> (r: Result<Self, String>)
        ensures
            match r {
                Ok(v) => v.models(obj_rep(*entries, 0)),
                Err(_) => !Self::shape_ok(obj_rep(*entries, 0)),
            },
    {
        let known: Vec<&str> = Vec::new();
        proof {
            assert(strs_view(known@) =~= Self::known_keys());
        }
        if let Some(k) = check_keys(entries, &known) {
            return Err(k.clone());
        }
        Ok(ClearCache {  })
    }

    pub fn encode(&self) -> (r: JsonValue)
        ensures
            rep(r) == JsonRep::Object(self.entries_spec()),
    {
        let mut e: Vec<(String, JsonValue)> = Vec::new();
        let ghost ge = e;
        let r = JsonValue::Object(e);
        proof {
            crate::json::lemma_obj_rep_points(ge);
            assert(obj_rep(ge, 0) =~= self.entries_spec());
        }
        r
    }
}

/// Clears charging profiles by filter.
#[derive(Debug, PartialEq, Eq, Clone, Default)]
pub struct ClearChargingProfile {
    pub id: Option<i32>,
    pub connector_id: Option<u32>,
    pub charging_profile_purpose: Option<ChargingProfilePurposeType>,
    pub stack_level: Option<i32>,
}

impl ClearChargingProfile {
    /// The keys this shape declares, in the order they are written.
    pub open spec fn known_keys() -> Seq<Seq<char>> {
        seq!["id"@, "connectorId"@, "chargingProfilePurpose"@, "stackLevel"@]
    }

    /// Structural match: the shape is strict, so every key must be
    /// declared and none may repeat.
    pub open spec fn shape_ok(o: JObj) -> bool {
        &&& keys_ok(o, Self::known_keys())
        &&& (absent(o, "id"@) || (int_field(o, "id"@) matches Some(n) && i32::MIN <= n <= i32::MAX))
        &&& (absent(o, "connectorId"@) || (int_field(o, "connectorId"@) matches Some(n) && 0 <= n <= u32::MAX))
        &&& (absent(o, "chargingProfilePurpose"@) || (str_field(o, "chargingProfilePurpose"@) matches Some(s) && ChargingProfilePurposeType::from_wire_spec(s) is Some))
        &&& (absent(o, "stackLevel"@) || (int_field(o, "stackLevel"@) matches Some(n) && i32::MIN <= n <= i32::MAX))
    }

    /// This value is exactly what decoding `o` yields.
    pub open spec fn models(&self, o: JObj) -> bool {
        &&& Self::shape_ok(o)
        &&& match self.id {
            Some(v) => int_field(o, "id"@) == Some(v as int),
            None => absent(o, "id"@),
        }
        &&& match self.connector_id {
            Some(v) => int_field(o, "connectorId"@) == Some(v as int),
            None => absent(o, "connectorId"@),
        }
        &&& match self.charging_profile_purpose {
            Some(c) => str_field(o, "chargingProfilePurpose"@) matches Some(s) && ChargingProfilePurposeType::from_wire_spec(s) == Some(c),
            None => absent(o, "chargingProfilePurpose"@),
        }
        &&& match self.stack_level {
            Some(v) => int_field(o, "stackLevel"@) == Some(v as int),
            None => absent(o, "stackLevel"@),
        }
    }

    /// The object this value encodes to.
    pub open spec fn entries_spec(&self) -> JObj {
        opt_entry("id"@, match self.id { Some(v) => Some(JsonRep::Int(v as int)), None => None })
            + opt_entry("connectorId"@, match self.connector_id { Some(v) => Some(JsonRep::Int(v as int)), None => None })
            + opt_entry("chargingProfilePurpose"@, match self.charging_profile_purpose { Some(c) => Some(JsonRep::Str(c.wire_spec())), None => None })
            + opt_entry("stackLevel"@, match self.stack_level { Some(v) => Some(JsonRep::Int(v as int)), None => None })
    }

    #[verifier::rlimit(100)]
    pub fn decode(entries: &Vec<(String, JsonValue)>) -> (r: Result<Self, String>)
        ensures
            match r {
                Ok(v) => v.models(obj_rep(*entries, 0)),
                Err(_) => !Self::shape_ok(obj_rep(*entries, 0)),
            },
    {
        let known: Vec<&str> = vec!["id", "connectorId", "chargingProfilePurpose", "stackLevel"];
        proof {
            assert(strs_view(known@) =~= Self::known_keys());
        }
        if let Some(k) = check_keys(entries, &known) {
            return Err(k.clone());
        }
        let id = if field_absent(entries, "id") { None } else {
            match get_i32(entries, "id") {
                Some(v) => Some(v),
                None => { return Err(String::from_str("id")); },
            }
        };
        let connector_id = if field_absent(entries, "connectorId") { None } else {
            match get_u32(entries, "connectorId") {
                Some(v) => Some(v),
                None => { return Err(String::from_str("connectorId")); },
            }
        };
        let charging_profile_purpose = if field_absent(entries, "chargingProfilePurpose") { None } else {
            match get_str(entries, "chargingProfilePurpose") {
                Some(s) => match ChargingProfilePurposeType::from_wire(s.as_str()) {
                    Some(c) => Some(c),
                    None => { return Err(String::from_str("chargingProfilePurpose")); },
                },
                None => { return Err(String::from_str("chargingProfilePurpose")); },
            }
        };
        let stack_level = if field_absent(entries, "stackLevel") { None } else {
            match get_i32(entries, "stackLevel") {
                Some(v) => Some(v),
                None => { return Err(String::from_str("stackLevel")); },
            }
        };
        Ok(ClearChargingProfile { id, connector_id, charging_profile_purpose, stack_level })
    }

    #[verifier::rlimit(100)]
    pub fn encode(&self) -> (r: JsonValue)
        ensures
            rep(r) == JsonRep::Object(self.entries_spec()),
    {
        let mut e: Vec<(String, JsonValue)> = Vec::new();
        match &self.id {
            Some(v) => e.push((String::from_str("id"), int_json(*v as i64))),
            None => (),
        }
        match &self.connector_id {
            Some(v) => e.push((String::from_str("connectorId"), uint_json(*v as u64))),
            None => (),
        }
        match &self.charging_profile_purpose {
            Some(c) => e.push((String::from_str("chargingProfilePurpose"), JsonValue::Str(c.wire_name()))),
            None => (),
        }
        match &self.stack_level {
            Some(v) => e.push((String::from_str("stackLevel"), int_json(*v as i64))),
            None => (),
        }
        let ghost ge = e;
        let r = JsonValue::Object(e);
        proof {
            crate::json::lemma_obj_rep_points(ge);
            assert(obj_rep(ge, 0) =~= self.entries_spec());
        }
        r
    }
}

/// Carries vendor-specific data.
#[derive(Debug, PartialEq, Eq, Clone, Default)]
pub struct DataTransfer {
    pub vendor_id: String,
    pub message_id: Option<String>,
    pub data: Option<String>,
}

impl DataTransfer {
    /// The keys this shape declares, in the order they are written.
    pub open spec fn known_keys() -> Seq<Seq<char>> {
        seq!["vendorId"@, "messageId"@, "data"@]
    }

    /// Structural match: the shape is strict, so every key must be
    /// declared and none may repeat.
    pub open spec fn shape_ok(o: JObj) -> bool {
        &&& keys_ok(o, Self::known_keys())
        &&& str_field(o, "vendorId"@) is Some
        &&& (absent(o, "messageId"@) || str_field(o, "messageId"@) is Some)
        &&& (absent(o, "data"@) || str_field(o, "data"@) is Some)
    }

    /// This value is exactly what decoding `o` yields.
    pub open spec fn models(&self, o: JObj) -> bool {
        &&& Self::shape_ok(o)
        &&& str_field(o, "vendorId"@) == Some(self.vendor_id@)
        &&& match self.message_id {
            Some(v) => str_field(o, "messageId"@) == Some(v@),
            None => absent(o, "messageId"@),
        }
        &&& match self.data {
            Some(v) => str_field(o, "data"@) == Some(v@),
            None => absent(o, "data"@),
        }
    }

    /// The object this value encodes to.
    pub open spec fn entries_spec(&self) -> JObj {
        seq![("vendorId"@, JsonRep::Str(self.vendor_id@))]
            + opt_entry("messageId"@, match self.message_id { Some(v) => Some(JsonRep::Str(v@)), None => None })
            + opt_entry("data"@, match self.data { Some(v) => Some(JsonRep::Str(v@)), None => None })
    }

    #[verifier::rlimit(100)]
    pub fn decode(entries: &Vec<(String, JsonValue)>) -> (r: Result<Self, String>)
        ensures
            match r {
                Ok(v) => v.models(obj_rep(*entries, 0)),
                Err(_) => !Self::shape_ok(obj_rep(*entries, 0)),
            },
    {
        let known: Vec<&str> = vec!["vendorId", "messageId", "data"];
        proof {
            assert(strs_view(known@) =~= Self::known_keys());
        }
        if let Some(k) = check_keys(entries, &known) {
            return Err(k.clone());
        }
        let vendor_id = match get_str(entries, "vendorId") {
            Some(s) => s.clone(),
            None => { return Err(String::from_str("vendorId")); },
        };
        let message_id = if field_absent(entries, "messageId") { None } else {
            match get_str(entries, "messageId") {
                Some(s) => Some(s.clone()),
                None => { return Err(String::from_str("messageId")); },
            }
        };
        let data = if field_absent(entries, "data") { None } else {
            match get_str(entries, "data") {
                Some(s) => Some(s.clone()),
                None => { return Err(String::from_str("data")); },
            }
        };
        Ok(DataTransfer { vendor_id, message_id, data })
    }

    #[verifier::rlimit(100)]
    pub fn encode(&self) -> (r: JsonValue)
        ensures
            rep(r) == JsonRep::Object(self.entries_spec()),
    {
        let mut e: Vec<(String, JsonValue)> = Vec::new();
        e.push((String::from_str("vendorId"), JsonValue::Str(self.vendor_id.clone())));
        match &self.message_id {
            Some(v) => e.push((String::from_str("messageId"), JsonValue::Str(v.clone()))),
            None => (),
        }
        match &self.data {
            Some(v) => e.push((String::from_str("data"), JsonValue::Str(v.clone()))),
            None => (),
        }
        let ghost ge = e;
        let r = JsonValue::Object(e);
        proof {
            crate::json::lemma_obj_rep_points(ge);
            assert(obj_rep(ge, 0) =~= self.entries_spec());
        }
        r
    }
}

/// Deletes a certificate identified by its hashes.
#[derive(Debug, PartialEq, Eq, Clone, Default)]
pub struct DeleteCertificate {
    pub certificate_hash_data: Vec<(String, String)>,
}

impl DeleteCertificate {
    /// The keys this shape declares, in the order they are written.
    pub open spec fn known_keys() -> Seq<Seq<char>> {
        seq!["certificateHashData"@]
    }

    /// Structural match: the shape is strict, so every key must be
    /// declared and none may repeat.
    pub open spec fn shape_ok(o: JObj) -> bool {
        &&& keys_ok(o, Self::known_keys())
        &&& (obj_field(o, "certificateHashData"@) matches Some(e) && str_map_ok(e))
    }

    /// This value is exactly what decoding `o` yields.
    pub open spec fn models(&self, o: JObj) -> bool {
        &&& Self::shape_ok(o)
        &&& (obj_field(o, "certificateHashData"@) matches Some(e) && str_map_models(self.certificate_hash_data@, e))
    }

    /// The object this value encodes to.
    pub open spec fn entries_spec(&self) -> JObj {
        seq![("certificateHashData"@, JsonRep::Object(str_map_rep(self.certificate_hash_data@)))]
    }

    pub fn decode(entries: &Vec<(String, JsonValue)>) -> (r: Result<Self, String>)
        ensures
            match r {
                Ok(v) => v.models(obj_rep(*entries, 0)),
                Err(_) => !Self::shape_ok(obj_rep(*entries, 0)),
            },
    {
        let known: Vec<&str> = vec!["certificateHashData"];
        proof {
            assert(strs_view(known@) =~= Self::known_keys());
        }
        if let Some(k) = check_keys(entries, &known) {
            return Err(k.clone());
        }
        let certificate_hash_data = match get_obj(entries, "certificateHashData") {
            Some(e) => match decode_str_map(e) {
                Some(v) => v,
                None => { return Err(String::from_str("certificateHashData")); },
            },
            None => { return Err(String::from_str("certificateHashData")); },
        };
        Ok(DeleteCertificate { certificate_hash_data })
    }

    pub fn encode(&self) -> (r: JsonValue)
        ensures
            rep(r) == JsonRep::Object(self.entries_spec()),
    {
        let mut e: Vec<(String, JsonValue)> = Vec::new();
        e.push((String::from_str("certificateHashData"), JsonValue::Object(encode_str_map(&self.certificate_hash_data))));
        let ghost ge = e;
        let r = JsonValue::Object(e);
        proof {
            crate::json::lemma_obj_rep_points(ge);
            assert(obj_rep(ge, 0) =~= self.entries_spec());
        }
        r
    }
}

/// Reports diagnostics-upload progress.
#[derive(Debug, PartialEq, Eq, Clone, Default)]
pub struct DiagnosticsStatusNotification {
    pub status: DiagnosticsStatus,
}

impl DiagnosticsStatusNotification {
    /// The keys this shape declares, in the order they are written.
    pub open spec fn known_keys() -> Seq<Seq<char>> {
        seq!["status"@]
    }

    /// Structural match: the shape is strict, so every key must be
    /// declared and none may repeat.
    pub open spec fn shape_ok(o: JObj) -> bool {
        &&& keys_ok(o, Self::known_keys())
        &&& (str_field(o, "status"@) matches Some(s) && DiagnosticsStatus::from_wire_spec(s) is Some)
    }

    /// This value is exactly what decoding `o` yields.
    pub open spec fn models(&self, o: JObj) -> bool {
        &&& Self::shape_ok(o)
        &&& (str_field(o, "status"@) matches Some(s) && DiagnosticsStatus::from_wire_spec(s) == Some(self.status))
    }

    /// The object this value encodes to.
    pub open spec fn entries_spec(&self) -> JObj {
        seq![("status"@, JsonRep::Str(self.status.wire_spec()))]
    }

    pub fn decode(entries: &Vec<(String, JsonValue)>) -> (r: Result<Self, String>)
        ensures
            match r {
                Ok(v) => v.models(obj_rep(*entries, 0)),
                Err(_) => !Self::shape_ok(obj_rep(*entries, 0)),
            },
    {
        let known: Vec<&str> = vec!["status"];
        proof {
            assert(strs_view(known@) =~= Self::known_keys());
        }
        if let Some(k) = check_keys(entries, &known) {
            return Err(k.clone());
        }
        let status = match get_str(entries, "status") {
            Some(s) => match DiagnosticsStatus::from_wire(s.as_str()) {
                Some(c) => c,
                None => { return Err(String::from_str("status")); },
            },
            None => { return Err(String::from_str("status")); },
        };
        Ok(DiagnosticsStatusNotification { status })
    }

    pub fn encode(&self) -> (r: JsonValue)
        ensures
            rep(r) == JsonRep::Object(self.entries_spec()),
    {
        let mut e: Vec<(String, JsonValue)> = Vec::new();
        e.push((String::from_str("status"), JsonValue::Str(self.status.wire_name())));
        let ghost ge = e;
        let r = JsonValue::Object(e);
        proof {
            crate::json::lemma_obj_rep_points(ge);
            assert(obj_rep(ge, 0) =~= self.entries_spec());
        }
        r
    }
}

/// Asks the charge point to send a message (secure profile).
#[derive(Debug, PartialEq, Eq, Clone, Default)]
pub struct ExtendedTriggerMessage {
    pub requested_message: MessageTrigger,
    pub connector_id: Option<u32>,
}

impl ExtendedTriggerMessage {
    /// The keys this shape declares, in the order they are written.
    pub open spec fn known_keys() -> Seq<Seq<char>> {
        seq!["requestedMessage"@, "connectorId"@]
    }

    /// Structural match: the shape is strict, so every key must be
    /// declared and none may repeat.
    pub open spec fn shape_ok(o: JObj) -> bool {
        &&& keys_ok(o, Self::known_keys())
        &&& (str_field(o, "requestedMessage"@) matches Some(s) && MessageTrigger::from_wire_spec(s) is Some)
        &&& (absent(o, "connectorId"@) || (int_field(o, "connectorId"@) matches Some(n) && 0 <= n <= u32::MAX))
    }

    /// This value is exactly what decoding `o` yields.
    pub open spec fn models(&self, o: JObj) -> bool {
        &&& Self::shape_ok(o)
        &&& (str_field(o, "requestedMessage"@) matches Some(s) && MessageTrigger::from_wire_spec(s) == Some(self.requested_message))
        &&& match self.connector_id {
            Some(v) => int_field(o, "connectorId"@) == Some(v as int),
            None => absent(o, "connectorId"@),
        }
    }

    /// The object this value encodes to.
    pub open spec fn entries_spec(&self) -> JObj {
        seq![("requestedMessage"@, JsonRep::Str(self.requested_message.wire_spec()))]
            + opt_entry("connectorId"@, match self.connector_id { Some(v) => Some(JsonRep::Int(v as int)), None => None })
    }

    pub fn decode(entries: &Vec<(String, JsonValue)>) -> (r: Result<Self, String>)
        ensures
            match r {
                Ok(v) => v.models(obj_rep(*entries, 0)),
                Err(_) => !Self::shape_ok(obj_rep(*entries, 0)),
            },
    {
        let known: Vec<&str> = vec!["requestedMessage", "connectorId"];
        proof {
            assert(strs_view(known@) =~= Self::known_keys());
        }
        if let Some(k) = check_keys(entries, &known) {
            return Err(k.clone());
        }
        let requested_message = match get_str(entries, "requestedMessage") {
            Some(s) => match MessageTrigger::from_wire(s.as_str()) {
                Some(c) => c,
                None => { return Err(String::from_str("requestedMessage")); },
            },
            None => { return Err(String::from_str("requestedMessage")); },
        };
        let connector_id = if field_absent(entries, "connectorId") { None } else {
            match get_u32(entries, "connectorId") {
                Some(v) => Some(v),
                None => { return Err(String::from_str("connectorId")); },
            }
        };
        Ok(ExtendedTriggerMessage { requested_message, connector_id })
    }

    pub fn encode(&self) -> (r: JsonValue)
        ensures
            rep(r) == JsonRep::Object(self.entries_spec()),
    {
        let mut e: Vec<(String, JsonValue)> = Vec::new();
        e.push((String::from_str("requestedMessage"), JsonValue::Str(self.requested_message.wire_name())));
        match &self.connector_id {
            Some(v) => e.push((String::from_str("connectorId"), uint_json(*v as u64))),
            None => (),
        }
        let ghost ge = e;
        let r = JsonValue::Object(e);
        proof {
            crate::json::lemma_obj_rep_points(ge);
            assert(obj_rep(ge, 0) =~= self.entries_spec());
        }
        r
    }
}

/// Reports firmware-update progress.
#[derive(Debug, PartialEq, Eq, Clone, Default)]
pub struct FirmwareStatusNotification {
    pub status: FirmwareStatus,
}

impl FirmwareStatusNotification {
    /// The keys this shape declares, in the order they are written.
    pub open spec fn known_keys() -> Seq<Seq<char>> {
        seq!["status"@]
    }

    /// Structural match: the shape is strict, so every key must be
    /// declared and none may repeat.
    pub open spec fn shape_ok(o: JObj) -> bool {
        &&& keys_ok(o, Self::known_keys())
        &&& (str_field(o, "status"@) matches Some(s) && FirmwareStatus::from_wire_spec(s) is Some)
    }

    /// This value is exactly what decoding `o` yields.
    pub open spec fn models(&self, o: JObj) -> bool {
        &&& Self::shape_ok(o)
        &&& (str_field(o, "status"@) matches Some(s) && FirmwareStatus::from_wire_spec(s) == Some(self.status))
    }

    /// The object this value encodes to.
    pub open spec fn entries_spec(&self) -> JObj {
        seq![("status"@, JsonRep::Str(self.status.wire_spec()))]
    }

    pub fn decode(entries: &Vec<(String, JsonValue)>) -> (r: Result<Self, String>)
        ensures
            match r {
                Ok(v) => v.models(obj_rep(*entries, 0)),
                Err(_) => !Self::shape_ok(obj_rep(*entries, 0)),
            },
    {
        let known: Vec<&str> = vec!["status"];
        proof {
            assert(strs_view(known@) =~= Self::known_keys());
        }
        if let Some(k) = check_keys(entries, &known) {
            return Err(k.clone());
        }
        let status = match get_str(entries, "status") {
            Some(s) => match FirmwareStatus::from_wire(s.as_str()) {
                Some(c) => c,
                None => { return Err(String::from_str("status")); },
            },
            None => { return Err(String::from_str("status")); },
        };
        Ok(FirmwareStatusNotification { status })
    }

    pub fn encode(&self) -> (r: JsonValue)
        ensures
            rep(r) == JsonRep::Object(self.entries_spec()),
    {
        let mut e: Vec<(String, JsonValue)> = Vec::new();
        e.push((String::from_str("status"), JsonValue::Str(self.status.wire_name())));
        let ghost ge = e;
        let r = JsonValue::Object(e);
        proof {
            crate::json::lemma_obj_rep_points(ge);
            assert(obj_rep(ge, 0) =~= self.entries_spec());
        }
        r
    }
}

/// Asks for the composite charging schedule.
#[derive(Debug, PartialEq, Eq, Clone, Default)]
pub struct GetCompositeSchedule {
    pub connector_id: u32,
    pub duration: i32,
    pub charging_rate_unit: Option<ChargingRateUnitType>,
}

impl GetCompositeSchedule {
    /// The keys this shape declares, in the order they are written.
    pub open spec fn known_keys() -> Seq<Seq<char>> {
        seq!["connectorId"@, "duration"@, "chargingRateUnit"@]
    }

    /// Structural match: the shape is strict, so every key must be
    /// declared and none may repeat.
    pub open spec fn shape_ok(o: JObj) -> bool {
        &&& keys_ok(o, Self::known_keys())
        &&& (int_field(o, "connectorId"@) matches Some(n) && 0 <= n <= u32::MAX)
        &&& (int_field(o, "duration"@) matches Some(n) && i32::MIN <= n <= i32::MAX)
        &&& (absent(o, "chargingRateUnit"@) || (str_field(o, "chargingRateUnit"@) matches Some(s) && ChargingRateUnitType::from_wire_spec(s) is Some))
    }

    /// This value is exactly what decoding `o` yields.
    pub open spec fn models(&self, o: JObj) -> bool {
        &&& Self::shape_ok(o)
        &&& int_field(o, "connectorId"@) == Some(self.connector_id as int)
        &&& int_field(o, "duration"@) == Some(self.duration as int)
        &&& match self.charging_rate_unit {
            Some(c) => str_field(o, "chargingRateUnit"@) matches Some(s) && ChargingRateUnitType::from_wire_spec(s) == Some(c),
            None => absent(o, "chargingRateUnit"@),
        }
    }

    /// The object this value encodes to.
    pub open spec fn entries_spec(&self) -> JObj {
        seq![("connectorId"@, JsonRep::Int(self.connector_id as int))]
            + seq![("duration"@, JsonRep::Int(self.duration as int))]
            + opt_entry("chargingRateUnit"@, match self.charging_rate_unit { Some(c) => Some(JsonRep::Str(c.wire_spec())), None => None })
    }

    #[verifier::rlimit(100)]
    pub fn decode(entries: &Vec<(String, JsonValue)>) -> (r: Result<Self, String>)
        ensures
            match r {
                Ok(v) => v.models(obj_rep(*entries, 0)),
                Err(_) => !Self::shape_ok(obj_rep(*entries, 0)),
            },
    {
        let known: Vec<&str> = vec!["connectorId", "duration", "chargingRateUnit"];
        proof {
            assert(strs_view(known@) =~= Self::known_keys());
        }
        if let Some(k) = check_keys(entries, &known) {
            return Err(k.clone());
        }
        let connector_id = match get_u32(entries, "connectorId") {
            Some(v) => v,
            None => { return Err(String::from_str("connectorId")); },
        };
        let duration = match get_i32(entries, "duration") {
            Some(v) => v,
            None => { return Err(String::from_str("duration")); },
        };
        let charging_rate_unit = if field_absent(entries, "chargingRateUnit") { None } else {
            match get_str(entries, "chargingRateUnit") {
                Some(s) => match ChargingRateUnitType::from_wire(s.as_str()) {
                    Some(c) => Some(c),
                    None => { return Err(String::from_str("chargingRateUnit")); },
                },
                None => { return Err(String::from_str("chargingRateUnit")); },
            }
        };
        Ok(GetCompositeSchedule { connector_id, duration, charging_rate_unit })
    }

    #[verifier::rlimit(100)]
    pub fn encode(&self) -> (r: JsonValue)
        ensures
            rep(r) == JsonRep::Object(self.entries_spec()),
    {
        let mut e: Vec<(String, JsonValue)> = Vec::new();
        e.push((String::from_str("connectorId"), uint_json(self.connector_id as u64)));
        e.push((String::from_str("duration"), int_json(self.duration as i64)));
        match &self.charging_rate_unit {
            Some(c) => e.push((String::from_str("chargingRateUnit"), JsonValue::Str(c.wire_name()))),
            None => (),
        }
        let ghost ge = e;
        let r = JsonValue::Object(e);
        proof {
            crate::json::lemma_obj_rep_points(ge);
            assert(obj_rep(ge, 0) =~= self.entries_spec());
        }
        r
    }
}

/// Reads configuration keys.
#[derive(Debug, PartialEq, Eq, Clone, Default)]
pub struct GetConfiguration {
    pub key: Option<Vec<String>>,
}

impl GetConfiguration {
    /// The keys this shape declares, in the order they are written.
    pub open spec fn known_keys() -> Seq<Seq<char>> {
        seq!["key"@]
    }

    /// Structural match: the shape is strict, so every key must be
    /// declared and none may repeat.
    pub open spec fn shape_ok(o: JObj) -> bool {
        &&& keys_ok(o, Self::known_keys())
        &&& (absent(o, "key"@) || (arr_field(o, "key"@) matches Some(items) && str_list_ok(items)))
    }

    /// This value is exactly what decoding `o` yields.
    pub open spec fn models(&self, o: JObj) -> bool {
        &&& Self::shape_ok(o)
        &&& match self.key {
            Some(ref v) => arr_field(o, "key"@) matches Some(items) && str_list_models(v@, items),
            None => absent(o, "key"@),
        }
    }

    /// The object this value encodes to.
    pub open spec fn entries_spec(&self) -> JObj {
        opt_entry("key"@, match self.key { Some(ref v) => Some(JsonRep::Array(str_list_rep(v@))), None => None })
    }

    pub fn decode(entries: &Vec<(String, JsonValue)>) -> (r: Result<Self, String>)
        ensures
            match r {
                Ok(v) => v.models(obj_rep(*entries, 0)),
                Err(_) => !Self::shape_ok(obj_rep(*entries, 0)),
            },
    {
        let known: Vec<&str> = vec!["key"];
        proof {
            assert(strs_view(known@) =~= Self::known_keys());
        }
        if let Some(k) = check_keys(entries, &known) {
            return Err(k.clone());
        }
        let key = if field_absent(entries, "key") { None } else {
            match get_arr(entries, "key") {
                Some(items) => match decode_str_list(items) {
                    Some(v) => Some(v),
                    None => { return Err(String::from_str("key")); },
                },
                None => { return Err(String::from_str("key")); },
            }
        };
        Ok(GetConfiguration { key })
    }

    pub fn encode(&self) -> (r: JsonValue)
        ensures
            rep(r) == JsonRep::Object(self.entries_spec()),
    {
        let mut e: Vec<(String, JsonValue)> = Vec::new();
        match &self.key {
            Some(v) => e.push((String::from_str("key"), JsonValue::Array(encode_str_list(v)))),
            None => (),
        }
        let ghost ge = e;
        let r = JsonValue::Object(e);
        proof {
            crate::json::lemma_obj_rep_points(ge);
            assert(obj_rep(ge, 0) =~= self.entries_spec());
        }
        r
    }
}

/// Asks for a diagnostics upload.
#[derive(Debug, PartialEq, Eq, Clone, Default)]
pub struct GetDiagnostics {
    pub location: String,
    pub retries: Option<i32>,
    pub retry_interval: Option<i32>,
    pub start_time: Option<DateTimeWrapper>,
    pub stop_time: Option<DateTimeWrapper>,
}

impl GetDiagnostics {
    /// The keys this shape declares, in the order they are written.
    pub open spec fn known_keys() -> Seq<Seq<char>> {
        seq!["location"@, "retries"@, "retryInterval"@, "startTime"@, "stopTime"@]
    }

    /// Structural match: the shape is strict, so every key must be
    /// declared and none may repeat.
    pub open spec fn shape_ok(o: JObj) -> bool {
        &&& keys_ok(o, Self::known_keys())
        &&& str_field(o, "location"@) is Some
        &&& (absent(o, "retries"@) || (int_field(o, "retries"@) matches Some(n) && i32::MIN <= n <= i32::MAX))
        &&& (absent(o, "retryInterval"@) || (int_field(o, "retryInterval"@) matches Some(n) && i32::MIN <= n <= i32::MAX))
        &&& (absent(o, "startTime"@) || (str_field(o, "startTime"@) matches Some(s) && DateTimeWrapper::parse_spec(s) is Some))
        &&& (absent(o, "stopTime"@) || (str_field(o, "stopTime"@) matches Some(s) && DateTimeWrapper::parse_spec(s) is Some))
    }

    /// This value is exactly what decoding `o` yields.
    pub open spec fn models(&self, o: JObj) -> bool {
        &&& Self::shape_ok(o)
        &&& str_field(o, "location"@) == Some(self.location@)
        &&& match self.retries {
            Some(v) => int_field(o, "retries"@) == Some(v as int),
            None => absent(o, "retries"@),
        }
        &&& match self.retry_interval {
            Some(v) => int_field(o, "retryInterval"@) == Some(v as int),
            None => absent(o, "retryInterval"@),
        }
        &&& match self.start_time {
            Some(d) => str_field(o, "startTime"@) matches Some(s) && DateTimeWrapper::parse_spec(s) == Some(d),
            None => absent(o, "startTime"@),
        }
        &&& match self.stop_time {
            Some(d) => str_field(o, "stopTime"@) matches Some(s) && DateTimeWrapper::parse_spec(s) == Some(d),
            None => absent(o, "stopTime"@),
        }
    }

    /// The object this value encodes to.
    pub open spec fn entries_spec(&self) -> JObj {
        seq![("location"@, JsonRep::Str(self.location@))]
            + opt_entry("retries"@, match self.retries { Some(v) => Some(JsonRep::Int(v as int)), None => None })
            + opt_entry("retryInterval"@, match self.retry_interval { Some(v) => Some(JsonRep::Int(v as int)), None => None })
            + opt_entry("startTime"@, match self.start_time { Some(d) => Some(JsonRep::Str(d.text())), None => None })
            + opt_entry("stopTime"@, match self.stop_time { Some(d) => Some(JsonRep::Str(d.text())), None => None })
    }

    #[verifier::rlimit(100)]
    pub fn decode(entries: &Vec<(String, JsonValue)>) -> (r: Result<Self, String>)
        ensures
            match r {
                Ok(v) => v.models(obj_rep(*entries, 0)),
                Err(_) => !Self::shape_ok(obj_rep(*entries, 0)),
            },
    {
        let known: Vec<&str> = vec!["location", "retries", "retryInterval", "startTime", "stopTime"];
        proof {
            assert(strs_view(known@) =~= Self::known_keys());
        }
        if let Some(k) = check_keys(entries, &known) {
            return Err(k.clone());
        }
        let location = match get_str(entries, "location") {
            Some(s) => s.clone(),
            None => { return Err(String::from_str("location")); },
        };
        let retries = if field_absent(entries, "retries") { None } else {
            match get_i32(entries, "retries") {
                Some(v) => Some(v),
                None => { return Err(String::from_str("retries")); },
            }
        };
        let retry_interval = if field_absent(entries, "retryInterval") { None } else {
            match get_i32(entries, "retryInterval") {
                Some(v) => Some(v),
                None => { return Err(String::from_str("retryInterval")); },
            }
        };
        let start_time = if field_absent(entries, "startTime") { None } else {
            match get_str(entries, "startTime") {
                Some(s) => match DateTimeWrapper::parse_iso8601(s.as_str()) {
                    Some(d) => Some(d),
                    None => { return Err(String::from_str("startTime")); },
                },
                None => { return Err(String::from_str("startTime")); },
            }
        };
        let stop_time = if field_absent(entries, "stopTime") { None } else {
            match get_str(entries, "stopTime") {
                Some(s) => match DateTimeWrapper::parse_iso8601(s.as_str()) {
                    Some(d) => Some(d),
                    None => { return Err(String::from_str("stopTime")); },
                },
                None => { return Err(String::from_str("stopTime")); },
            }
        };
        Ok(GetDiagnostics { location, retries, retry_interval, start_time, stop_time })
    }

    #[verifier::rlimit(100)]
    pub fn encode(&self) -> (r: JsonValue)
        ensures
            rep(r) == JsonRep::Object(self.entries_spec()),
    {
        let mut e: Vec<(String, JsonValue)> = Vec::new();
        e.push((String::from_str("location"), JsonValue::Str(self.location.clone())));
        match &self.retries {
            Some(v) => e.push((String::from_str("retries"), int_json(*v as i64))),
            None => (),
        }
        match &self.retry_interval {
            Some(v) => e.push((String::from_str("retryInterval"), int_json(*v as i64))),
            None => (),
        }
        match &self.start_time {
            Some(d) => e.push((String::from_str("startTime"), JsonValue::Str(d.to_iso8601()))),
            None => (),
        }
        match &self.stop_time {
            Some(d) => e.push((String::from_str("stopTime"), JsonValue::Str(d.to_iso8601()))),
            None => (),
        }
        let ghost ge = e;
        let r = JsonValue::Object(e);
        proof {
            crate::json::lemma_obj_rep_points(ge);
            assert(obj_rep(ge, 0) =~= self.entries_spec());
        }
        r
    }
}

/// Lists installed certificates of one use.
#[derive(Debug, PartialEq, Eq, Clone, Default)]
pub struct GetInstalledCertificateIds {
    pub certificate_type: CertificateUse,
}

impl GetInstalledCertificateIds {
    /// The keys this shape declares, in the order they are written.
    pub open spec fn known_keys() -> Seq<Seq<char>> {
        seq!["certificateType"@]
    }

    /// Structural match: the shape is strict, so every key must be
    /// declared and none may repeat.
    pub open spec fn shape_ok(o: JObj) -> bool {
        &&& keys_ok(o, Self::known_keys())
        &&& (str_field(o, "certificateType"@) matches Some(s) && CertificateUse::from_wire_spec(s) is Some)
    }

    /// This value is exactly what decoding `o` yields.
    pub open spec fn models(&self, o: JObj) -> bool {
        &&& Self::shape_ok(o)
        &&& (str_field(o, "certificateType"@) matches Some(s) && CertificateUse::from_wire_spec(s) == Some(self.certificate_type))
    }

    /// The object this value encodes to.
    pub open spec fn entries_spec(&self) -> JObj {
        seq![("certificateType"@, JsonRep::Str(self.certificate_type.wire_spec()))]
    }

    pub fn decode(entries: &Vec<(String, JsonValue)>) -> (r: Result<Self, String>)
        ensures
            match r {
                Ok(v) => v.models(obj_rep(*entries, 0)),
                Err(_) => !Self::shape_ok(obj_rep(*entries, 0)),
            },
    {
        let known: Vec<&str> = vec!["certificateType"];
        proof {
            assert(strs_view(known@) =~= Self::known_keys());
        }
        if let Some(k) = check_keys(entries, &known) {
            return Err(k.clone());
        }
        let certificate_type = match get_str(entries, "certificateType") {
            Some(s) => match CertificateUse::from_wire(s.as_str()) {
                Some(c) => c,
                None => { return Err(String::from_str("certificateType")); },
            },
            None => { return Err(String::from_str("certificateType")); },
        };
        Ok(GetInstalledCertificateIds { certificate_type })
    }

    pub fn encode(&self) -> (r: JsonValue)
        ensures
            rep(r) == JsonRep::Object(self.entries_spec()),
    {
        let mut e: Vec<(String, JsonValue)> = Vec::new();
        e.push((String::from_str("certificateType"), JsonValue::Str(self.certificate_type.wire_name())));
        let ghost ge = e;
        let r = JsonValue::Object(e);
        proof {
            crate::json::lemma_obj_rep_points(ge);
            assert(obj_rep(ge, 0) =~= self.entries_spec());
        }
        r
    }
}

/// Reads the local authorization list version.
#[derive(Debug, PartialEq, Eq, Clone, Default)]
pub struct GetLocalListVersion {
}

impl GetLocalListVersion {
    /// The keys this shape declares, in the order they are written.
    pub open spec fn known_keys() -> Seq<Seq<char>> {
        Seq::empty()
    }

    /// Structural match: the shape is strict, so every key must be
    /// declared and none may repeat.
    pub open spec fn shape_ok(o: JObj) -> bool {
        &&& keys_ok(o, Self::known_keys())
    }

    /// This value is exactly what decoding `o` yields.
    pub open spec fn models(&self, o: JObj) -> bool {
        &&& Self::shape_ok(o)
        &&& true
    }

    /// The object this value encodes to.
    pub open spec fn entries_spec(&self) -> JObj {
        Seq::empty()
    }

    pub fn decode(entries: &Vec<(String, JsonValue)>) -> (r: Result<Self, String>)
        ensures
            match r {
                Ok(v) => v.models(obj_rep(*entries, 0)),
                Err(_) => !Self::shape_ok(obj_rep(*entries, 0)),
            },
    {
        let known: Vec<&str> = Vec::new();
        proof {
            assert(strs_view(known@) =~= Self::known_keys());
        }
        if let Some(k) = check_keys(entries, &known) {
            return Err(k.clone());
        }
        Ok(GetLocalListVersion {  })
    }

    pub fn encode(&self) -> (r: JsonValue)
        ensures
            rep(r) == JsonRep::Object(self.entries_spec()),
    {
        let mut e: Vec<(String, JsonValue)> = Vec::new();
        let ghost ge = e;
        let r = JsonValue::Object(e);
        proof {
            crate::json::lemma_obj_rep_points(ge);
            assert(obj_rep(ge, 0) =~= self.entries_spec());
        }
        r
    }
}

/// Asks for a log upload.
#[derive(Debug, PartialEq, Eq, Clone, Default)]
pub struct GetLog {
    pub log: Vec<(String, String)>,
    pub log_type: Log,
    pub request_id: i32,
    pub retries: Option<i32>,
    pub retry_interval: Option<i32>,
}

impl GetLog {
    /// The keys this shape declares, in the order they are written.
    pub open spec fn known_keys() -> Seq<Seq<char>> {
        seq!["log"@, "logType"@, "requestId"@, "retries"@, "retryInterval"@]
    }

    /// Structural match: the shape is strict, so every key must be
    /// declared and none may repeat.
    pub open spec fn shape_ok(o: JObj) -> bool {
        &&& keys_ok(o, Self::known_keys())
        &&& (obj_field(o, "log"@) matches Some(e) && str_map_ok(e))
        &&& (str_field(o, "logType"@) matches Some(s) && Log::from_wire_spec(s) is Some)
        &&& (int_field(o, "requestId"@) matches Some(n) && i32::MIN <= n <= i32::MAX)
        &&& (absent(o, "retries"@) || (int_field(o, "retries"@) matches Some(n) && i32::MIN <= n <= i32::MAX))
        &&& (absent(o, "retryInterval"@) || (int_field(o, "retryInterval"@) matches Some(n) && i32::MIN <= n <= i32::MAX))
    }

    /// This value is exactly what decoding `o` yields.
    pub open spec fn models(&self, o: JObj) -> bool {
        &&& Self::shape_ok(o)
        &&& (obj_field(o, "log"@) matches Some(e) && str_map_models(self.log@, e))
        &&& (str_field(o, "logType"@) matches Some(s) && Log::from_wire_spec(s) == Some(self.log_type))
        &&& int_field(o, "requestId"@) == Some(self.request_id as int)
        &&& match self.retries {
            Some(v) => int_field(o, "retries"@) == Some(v as int),
            None => absent(o, "retries"@),
        }
        &&& match self.retry_interval {
            Some(v) => int_field(o, "retryInterval"@) == Some(v as int),
            None => absent(o, "retryInterval"@),
        }
    }

    /// The object this value encodes to.
    pub open spec fn entries_spec(&self) -> JObj {
        seq![("log"@, JsonRep::Object(str_map_rep(self.log@)))]
            + seq![("logType"@, JsonRep::Str(self.log_type.wire_spec()))]
            + seq![("requestId"@, JsonRep::Int(self.request_id as int))]
            + opt_entry("retries"@, match self.retries { Some(v) => Some(JsonRep::Int(v as int)), None => None })
            + opt_entry("retryInterval"@, match self.retry_interval { Some(v) => Some(JsonRep::Int(v as int)), None => None })
    }

    #[verifier::rlimit(100)]
    pub fn decode(entries: &Vec<(String, JsonValue)>) -> (r: Result<Self, String>)
        ensures
            match r {
                Ok(v) => v.models(obj_rep(*entries, 0)),
                Err(_) => !Self::shape_ok(obj_rep(*entries, 0)),
            },
    {
        let known: Vec<&str> = vec!["log", "logType", "requestId", "retries", "retryInterval"];
        proof {
            assert(strs_view(known@) =~= Self::known_keys());
        }
        if let Some(k) = check_keys(entries, &known) {
            return Err(k.clone());
        }
        let log = match get_obj(entries, "log") {
            Some(e) => match decode_str_map(e) {
                Some(v) => v,
                None => { return Err(String::from_str("log")); },
            },
            None => { return Err(String::from_str("log")); },
        };
        let log_type = match get_str(entries, "logType") {
            Some(s) => match Log::from_wire(s.as_str()) {
                Some(c) => c,
                None => { return Err(String::from_str("logType")); },
            },
            None => { return Err(String::from_str("logType")); },
        };
        let request_id = match get_i32(entries, "requestId") {
            Some(v) => v,
            None => { return Err(String::from_str("requestId")); },
        };
        let retries = if field_absent(entries, "retries") { None } else {
            match get_i32(entries, "retries") {
                Some(v) => Some(v),
                None => { return Err(String::from_str("retries")); },
            }
        };
        let retry_interval = if field_absent(entries, "retryInterval") { None } else {
            match get_i32(entries, "retryInterval") {
                Some(v) => Some(v),
                None => { return Err(String::from_str("retryInterval")); },
            }
        };
        Ok(GetLog { log, log_type, request_id, retries, retry_interval })
    }

    #[verifier::rlimit(100)]
    pub fn encode(&self) -> (r: JsonValue)
        ensures
            rep(r) == JsonRep::Object(self.entries_spec()),
    {
        let mut e: Vec<(String, JsonValue)> = Vec::new();
        e.push((String::from_str("log"), JsonValue::Object(encode_str_map(&self.log))));
        e.push((String::from_str("logType"), JsonValue::Str(self.log_type.wire_name())));
        e.push((String::from_str("requestId"), int_json(self.request_id as i64)));
        match &self.retries {
            Some(v) => e.push((String::from_str("retries"), int_json(*v as i64))),
            None => (),
        }
        match &self.retry_interval {
            Some(v) => e.push((String::from_str("retryInterval"), int_json(*v as i64))),
            None => (),
        }
        let ghost ge = e;
        let r = JsonValue::Object(e);
        proof {
            crate::json::lemma_obj_rep_points(ge);
            assert(obj_rep(ge, 0) =~= self.entries_spec());
        }
        r
    }
}

/// Tells the server the charge point is alive.
#[derive(Debug, PartialEq, Eq, Clone, Default)]
pub struct Heartbeat {
}

impl Heartbeat {
    /// The keys this shape declares, in the order they are written.
    pub open spec fn known_keys() -> Seq<Seq<char>> {
        Seq::empty()
    }

    /// Structural match: the shape is strict, so every key must be
    /// declared and none may repeat.
    pub open spec fn shape_ok(o: JObj) -> bool {
        &&& keys_ok(o, Self::known_keys())
    }

    /// This value is exactly what decoding `o` yields.
    pub open spec fn models(&self, o: JObj) -> bool {
        &&& Self::shape_ok(o)
        &&& true
    }

    /// The object this value encodes to.
    pub open spec fn entries_spec(&self) -> JObj {
        Seq::empty()
    }

    pub fn decode(entries: &Vec<(String, JsonValue)>) -> (r: Result<Self, String>)
        ensures
            match r {
                Ok(v) => v.models(obj_rep(*entries, 0)),
                Err(_) => !Self::shape_ok(obj_rep(*entries, 0)),
            },
    {
        let known: Vec<&str> = Vec::new();
        proof {
            assert(strs_view(known@) =~= Self::known_keys());
        }
        if let Some(k) = check_keys(entries, &known) {
            return Err(k.clone());
        }
        Ok(Heartbeat {  })
    }

    pub fn encode(&self) -> (r: JsonValue)
        ensures
            rep(r) == JsonRep::Object(self.entries_spec()),
    {
        let mut e: Vec<(String, JsonValue)> = Vec::new();
        let ghost ge = e;
        let r = JsonValue::Object(e);
        proof {
            crate::json::lemma_obj_rep_points(ge);
            assert(obj_rep(ge, 0) =~= self.entries_spec());
        }
        r
    }
}

/// Installs a certificate.
#[derive(Debug, PartialEq, Eq, Clone, Default)]
pub struct InstallCertificate {
    pub certificate_type: CertificateUse,
    pub certificate: String,
}

impl InstallCertificate {
    /// The keys this shape declares, in the order they are written.
    pub open spec fn known_keys() -> Seq<Seq<char>> {
        seq!["certificateType"@, "certificate"@]
    }

    /// Structural match: the shape is strict, so every key must be
    /// declared and none may repeat.
    pub open spec fn shape_ok(o: JObj) -> bool {
        &&& keys_ok(o, Self::known_keys())
        &&& (str_field(o, "certificateType"@) matches Some(s) && CertificateUse::from_wire_spec(s) is Some)
        &&& str_field(o, "certificate"@) is Some
    }

    /// This value is exactly what decoding `o` yields.
    pub open spec fn models(&self, o: JObj) -> bool {
        &&& Self::shape_ok(o)
        &&& (str_field(o, "certificateType"@) matches Some(s) && CertificateUse::from_wire_spec(s) == Some(self.certificate_type))
        &&& str_field(o, "certificate"@) == Some(self.certificate@)
    }

    /// The object this value encodes to.
    pub open spec fn entries_spec(&self) -> JObj {
        seq![("certificateType"@, JsonRep::Str(self.certificate_type.wire_spec()))]
            + seq![("certificate"@, JsonRep::Str(self.certificate@))]
    }

    pub fn decode(entries: &Vec<(String, JsonValue)>) -> (r: Result<Self, String>)
        ensures
            match r {
                Ok(v) => v.models(obj_rep(*entries, 0)),
                Err(_) => !Self::shape_ok(obj_rep(*entries, 0)),
            },
    {
        let known: Vec<&str> = vec!["certificateType", "certificate"];
        proof {
            assert(strs_view(known@) =~= Self::known_keys());
        }
        if let Some(k) = check_keys(entries, &known) {
            return Err(k.clone());
        }
        let certificate_type = match get_str(entries, "certificateType") {
            Some(s) => match CertificateUse::from_wire(s.as_str()) {
                Some(c) => c,
                None => { return Err(String::from_str("certificateType")); },
            },
            None => { return Err(String::from_str("certificateType")); },
        };
        let certificate = match get_str(entries, "certificate") {
            Some(s) => s.clone(),
            None => { return Err(String::from_str("certificate")); },
        };
        Ok(InstallCertificate { certificate_type, certificate })
    }

    pub fn encode(&self) -> (r: JsonValue)
        ensures
            rep(r) == JsonRep::Object(self.entries_spec()),
    {
        let mut e: Vec<(String, JsonValue)> = Vec::new();
        e.push((String::from_str("certificateType"), JsonValue::Str(self.certificate_type.wire_name())));
        e.push((String::from_str("certificate"), JsonValue::Str(self.certificate.clone())));
        let ghost ge = e;
        let r = JsonValue::Object(e);
        proof {
            crate::json::lemma_obj_rep_points(ge);
            assert(obj_rep(ge, 0) =~= self.entries_spec());
        }
        r
    }
}

/// Reports log-upload progress.
#[derive(Debug, PartialEq, Eq, Clone, Default)]
pub struct LogStatusNotification {
    pub status: UploadLogStatus,
    pub request_id: i32,
}

impl LogStatusNotification {
    /// The keys this shape declares, in the order they are written.
    pub open spec fn known_keys() -> Seq<Seq<char>> {
        seq!["status"@, "requestId"@]
    }

    /// Structural match: the shape is strict, so every key must be
    /// declared and none may repeat.
    pub open spec fn shape_ok(o: JObj) -> bool {
        &&& keys_ok(o, Self::known_keys())
        &&& (str_field(o, "status"@) matches Some(s) && UploadLogStatus::from_wire_spec(s) is Some)
        &&& (int_field(o, "requestId"@) matches Some(n) && i32::MIN <= n <= i32::MAX)
    }

    /// This value is exactly what decoding `o` yields.
    pub open spec fn models(&self, o: JObj) -> bool {
        &&& Self::shape_ok(o)
        &&& (str_field(o, "status"@) matches Some(s) && UploadLogStatus::from_wire_spec(s) == Some(self.status))
        &&& int_field(o, "requestId"@) == Some(self.request_id as int)
    }

    /// The object this value encodes to.
    pub open spec fn entries_spec(&self) -> JObj {
        seq![("status"@, JsonRep::Str(self.status.wire_spec()))]
            + seq![("requestId"@, JsonRep::Int(self.request_id as int))]
    }

    pub fn decode(entries: &Vec<(String, JsonValue)>) -> (r: Result<Self, String>)
        ensures
            match r {
                Ok(v) => v.models(obj_rep(*entries, 0)),
                Err(_) => !Self::shape_ok(obj_rep(*entries, 0)),
            },
    {
        let known: Vec<&str> = vec!["status", "requestId"];
        proof {
            assert(strs_view(known@) =~= Self::known_keys());
        }
        if let Some(k) = check_keys(entries, &known) {
            return Err(k.clone());
        }
        let status = match get_str(entries, "status") {
            Some(s) => match UploadLogStatus::from_wire(s.as_str()) {
                Some(c) => c,
                None => { return Err(String::from_str("status")); },
            },
            None => { return Err(String::from_str("status")); },
        };
        let request_id = match get_i32(entries, "requestId") {
            Some(v) => v,
            None => { return Err(String::from_str("requestId")); },
        };
        Ok(LogStatusNotification { status, request_id })
    }

    pub fn encode(&self) -> (r: JsonValue)
        ensures
            rep(r) == JsonRep::Object(self.entries_spec()),
    {
        let mut e: Vec<(String, JsonValue)> = Vec::new();
        e.push((String::from_str("status"), JsonValue::Str(self.status.wire_name())));
        e.push((String::from_str("requestId"), int_json(self.request_id as i64)));
        let ghost ge = e;
        let r = JsonValue::Object(e);
        proof {
            crate::json::lemma_obj_rep_points(ge);
            assert(obj_rep(ge, 0) =~= self.entries_spec());
        }
        r
    }
}

/// Delivers meter readings.
#[derive(Debug, PartialEq, Eq, Clone, Default)]
pub struct MeterValues {
    pub connector_id: u32,
    pub meter_value: Vec<MeterValue>,
    pub transaction_id: Option<i32>,
}

impl MeterValues {
    /// The keys this shape declares, in the order they are written.
    pub open spec fn known_keys() -> Seq<Seq<char>> {
        seq!["connectorId"@, "meterValue"@, "transactionId"@]
    }

    /// Structural match: the shape is strict, so every key must be
    /// declared and none may repeat.
    pub open spec fn shape_ok(o: JObj) -> bool {
        &&& keys_ok(o, Self::known_keys())
        &&& (int_field(o, "connectorId"@) matches Some(n) && 0 <= n <= u32::MAX)
        &&& (arr_field(o, "meterValue"@) matches Some(items) && mv_list_shape_ok(items))
        &&& (absent(o, "transactionId"@) || (int_field(o, "transactionId"@) matches Some(n) && i32::MIN <= n <= i32::MAX))
    }

    /// This value is exactly what decoding `o` yields.
    pub open spec fn models(&self, o: JObj) -> bool {
        &&& Self::shape_ok(o)
        &&& int_field(o, "connectorId"@) == Some(self.connector_id as int)
        &&& (arr_field(o, "meterValue"@) matches Some(items) && mv_list_models(self.meter_value@, items))
        &&& match self.transaction_id {
            Some(v) => int_field(o, "transactionId"@) == Some(v as int),
            None => absent(o, "transactionId"@),
        }
    }

    /// The object this value encodes to.
    pub open spec fn entries_spec(&self) -> JObj {
        seq![("connectorId"@, JsonRep::Int(self.connector_id as int))]
            + seq![("meterValue"@, JsonRep::Array(mv_list_rep(self.meter_value@)))]
            + seq![("transactionId"@, match self.transaction_id { Some(v) => JsonRep::Int(v as int), None => JsonRep::Null })]
    }

    #[verifier::rlimit(100)]
    pub fn decode(entries: &Vec<(String, JsonValue)>) -> (r: Result<Self, String>)
        ensures
            match r {
                Ok(v) => v.models(obj_rep(*entries, 0)),
                Err(_) => !Self::shape_ok(obj_rep(*entries, 0)),
            },
    {
        let known: Vec<&str> = vec!["connectorId", "meterValue", "transactionId"];
        proof {
            assert(strs_view(known@) =~= Self::known_keys());
        }
        if let Some(k) = check_keys(entries, &known) {
            return Err(k.clone());
        }
        let connector_id = match get_u32(entries, "connectorId") {
            Some(v) => v,
            None => { return Err(String::from_str("connectorId")); },
        };
        let meter_value = match get_arr(entries, "meterValue") {
            Some(items) => match decode_mv_list(items) {
                Some(v) => v,
                None => { return Err(String::from_str("meterValue")); },
            },
            None => { return Err(String::from_str("meterValue")); },
        };
        let transaction_id = if field_absent(entries, "transactionId") { None } else {
            match get_i32(entries, "transactionId") {
                Some(v) => Some(v),
                None => { return Err(String::from_str("transactionId")); },
            }
        };
        Ok(MeterValues { connector_id, meter_value, transaction_id })
    }

    #[verifier::rlimit(100)]
    pub fn encode(&self) -> (r: JsonValue)
        ensures
            rep(r) == JsonRep::Object(self.entries_spec()),
    {
        let mut e: Vec<(String, JsonValue)> = Vec::new();
        e.push((String::from_str("connectorId"), uint_json(self.connector_id as u64)));
        e.push((String::from_str("meterValue"), JsonValue::Array(encode_mv_list(&self.meter_value))));
        match &self.transaction_id {
            Some(v) => e.push((String::from_str("transactionId"), int_json(*v as i64))),
            None => e.push((String::from_str("transactionId"), JsonValue::Null)),
        }
        let ghost ge = e;
        let r = JsonValue::Object(e);
        proof {
            crate::json::lemma_obj_rep_points(ge);
            assert(obj_rep(ge, 0) =~= self.entries_spec());
        }
        r
    }
}

/// Starts a transaction on the server's behalf.
#[derive(Debug, PartialEq, Eq, Clone, Default)]
pub struct RemoteStartTransaction {
    pub id_tag: String,
    pub connector_id: Option<u32>,
    pub charging_profile: Option<Vec<(String, String)>>,
}

impl RemoteStartTransaction {
    /// The keys this shape declares, in the order they are written.
    pub open spec fn known_keys() -> Seq<Seq<char>> {
        seq!["idTag"@, "connectorId"@, "chargingProfile"@]
    }

    /// Structural match: the shape is strict, so every key must be
    /// declared and none may repeat.
    pub open spec fn shape_ok(o: JObj) -> bool {
        &&& keys_ok(o, Self::known_keys())
        &&& str_field(o, "idTag"@) is Some
        &&& (absent(o, "connectorId"@) || (int_field(o, "connectorId"@) matches Some(n) && 0 <= n <= u32::MAX))
        &&& (absent(o, "chargingProfile"@) || (obj_field(o, "chargingProfile"@) matches Some(e) && str_map_ok(e)))
    }

    /// This value is exactly what decoding `o` yields.
    pub open spec fn models(&self, o: JObj) -> bool {
        &&& Self::shape_ok(o)
        &&& str_field(o, "idTag"@) == Some(self.id_tag@)
        &&& match self.connector_id {
            Some(v) => int_field(o, "connectorId"@) == Some(v as int),
            None => absent(o, "connectorId"@),
        }
        &&& match self.charging_profile {
            Some(ref v) => obj_field(o, "chargingProfile"@) matches Some(e) && str_map_models(v@, e),
            None => absent(o, "chargingProfile"@),
        }
    }

    /// The object this value encodes to.
    pub open spec fn entries_spec(&self) -> JObj {
        seq![("idTag"@, JsonRep::Str(self.id_tag@))]
            + opt_entry("connectorId"@, match self.connector_id { Some(v) => Some(JsonRep::Int(v as int)), None => None })
            + opt_entry("chargingProfile"@, match self.charging_profile { Some(ref v) => Some(JsonRep::Object(str_map_rep(v@))), None => None })
    }

    #[verifier::rlimit(100)]
    pub fn decode(entries: &Vec<(String, JsonValue)>) -> (r: Result<Self, String>)
        ensures
            match r {
                Ok(v) => v.models(obj_rep(*entries, 0)),
                Err(_) => !Self::shape_ok(obj_rep(*entries, 0)),
            },
    {
        let known: Vec<&str> = vec!["idTag", "connectorId", "chargingProfile"];
        proof {
            assert(strs_view(known@) =~= Self::known_keys());
        }
        if let Some(k) = check_keys(entries, &known) {
            return Err(k.clone());
        }
        let id_tag = match get_str(entries, "idTag") {
            Some(s) => s.clone(),
            None => { return Err(String::from_str("idTag")); },
        };
        let connector_id = if field_absent(entries, "connectorId") { None } else {
            match get_u32(entries, "connectorId") {
                Some(v) => Some(v),
                None => { return Err(String::from_str("connectorId")); },
            }
        };
        let charging_profile = if field_absent(entries, "chargingProfile") { None } else {
            match get_obj(entries, "chargingProfile") {
                Some(e) => match decode_str_map(e) {
                    Some(v) => Some(v),
                    None => { return Err(String::from_str("chargingProfile")); },
                },
                None => { return Err(String::from_str("chargingProfile")); },
            }
        };
        Ok(RemoteStartTransaction { id_tag, connector_id, charging_profile })
    }

    #[verifier::rlimit(100)]
    pub fn encode(&self) -> (r: JsonValue)
        ensures
            rep(r) == JsonRep::Object(self.entries_spec()),
    {
        let mut e: Vec<(String, JsonValue)> = Vec::new();
        e.push((String::from_str("idTag"), JsonValue::Str(self.id_tag.clone())));
        match &self.connector_id {
            Some(v) => e.push((String::from_str("connectorId"), uint_json(*v as u64))),
            None => (),
        }
        match &self.charging_profile {
            Some(v) => e.push((String::from_str("chargingProfile"), JsonValue::Object(encode_str_map(v)))),
            None => (),
        }
        let ghost ge = e;
        let r = JsonValue::Object(e);
        proof {
            crate::json::lemma_obj_rep_points(ge);
            assert(obj_rep(ge, 0) =~= self.entries_spec());
        }
        r
    }
}

/// Stops a transaction on the server's behalf.
#[derive(Debug, PartialEq, Eq, Clone, Default)]
pub struct RemoteStopTransaction {
    pub transaction_id: i32,
}

impl RemoteStopTransaction {
    /// The keys this shape declares, in the order they are written.
    pub open spec fn known_keys() -> Seq<Seq<char>> {
        seq!["transactionId"@]
    }

    /// Structural match: the shape is strict, so every key must be
    /// declared and none may repeat.
    pub open spec fn shape_ok(o: JObj) -> bool {
        &&& keys_ok(o, Self::known_keys())
        &&& (int_field(o, "transactionId"@) matches Some(n) && i32::MIN <= n <= i32::MAX)
    }

    /// This value is exactly what decoding `o` yields.
    pub open spec fn models(&self, o: JObj) -> bool {
        &&& Self::shape_ok(o)
        &&& int_field(o, "transactionId"@) == Some(self.transaction_id as int)
    }

    /// The object this value encodes to.
    pub open spec fn entries_spec(&self) -> JObj {
        seq![("transactionId"@, JsonRep::Int(self.transaction_id as int))]
    }

    pub fn decode(entries: &Vec<(String, JsonValue)>) -> (r: Result<Self, String>)
        ensures
            match r {
                Ok(v) => v.models(obj_rep(*entries, 0)),
                Err(_) => !Self::shape_ok(obj_rep(*entries, 0)),
            },
    {
        let known: Vec<&str> = vec!["transactionId"];
        proof {
            assert(strs_view(known@) =~= Self::known_keys());
        }
        if let Some(k) = check_keys(entries, &known) {
            return Err(k.clone());
        }
        let transaction_id = match get_i32(entries, "transactionId") {
            Some(v) => v,
            None => { return Err(String::from_str("transactionId")); },
        };
        Ok(RemoteStopTransaction { transaction_id })
    }

    pub fn encode(&self) -> (r: JsonValue)
        ensures
            rep(r) == JsonRep::Object(self.entries_spec()),
    {
        let mut e: Vec<(String, JsonValue)> = Vec::new();
        e.push((String::from_str("transactionId"), int_json(self.transaction_id as i64)));
        let ghost ge = e;
        let r = JsonValue::Object(e);
        proof {
            crate::json::lemma_obj_rep_points(ge);
            assert(obj_rep(ge, 0) =~= self.entries_spec());
        }
        r
    }
}

/// Reserves a connector for a tag.
#[derive(Debug, PartialEq, Eq, Clone, Default)]
pub struct ReserveNow {
    pub connector_id: u32,
    pub expiry_date: DateTimeWrapper,
    pub id_tag: String,
    pub reservation_id: i32,
    pub parent_id_tag: Option<String>,
}

impl ReserveNow {
    /// The keys this shape declares, in the order they are written.
    pub open spec fn known_keys() -> Seq<Seq<char>> {
        seq!["connectorId"@, "expiryDate"@, "idTag"@, "reservationId"@, "parentIdTag"@]
    }

    /// Structural match: the shape is strict, so every key must be
    /// declared and none may repeat.
    pub open spec fn shape_ok(o: JObj) -> bool {
        &&& keys_ok(o, Self::known_keys())
        &&& (int_field(o, "connectorId"@) matches Some(n) && 0 <= n <= u32::MAX)
        &&& (str_field(o, "expiryDate"@) matches Some(s) && DateTimeWrapper::parse_spec(s) is Some)
        &&& str_field(o, "idTag"@) is Some
        &&& (int_field(o, "reservationId"@) matches Some(n) && i32::MIN <= n <= i32::MAX)
        &&& (absent(o, "parentIdTag"@) || str_field(o, "parentIdTag"@) is Some)
    }

    /// This value is exactly what decoding `o` yields.
    pub open spec fn models(&self, o: JObj) -> bool {
        &&& Self::shape_ok(o)
        &&& int_field(o, "connectorId"@) == Some(self.connector_id as int)
        &&& (str_field(o, "expiryDate"@) matches Some(s) && DateTimeWrapper::parse_spec(s) == Some(self.expiry_date))
        &&& str_field(o, "idTag"@) == Some(self.id_tag@)
        &&& int_field(o, "reservationId"@) == Some(self.reservation_id as int)
        &&& match self.parent_id_tag {
            Some(v) => str_field(o, "parentIdTag"@) == Some(v@),
            None => absent(o, "parentIdTag"@),
        }
    }

    /// The object this value encodes to.
    pub open spec fn entries_spec(&self) -> JObj {
        seq![("connectorId"@, JsonRep::Int(self.connector_id as int))]
            + seq![("expiryDate"@, JsonRep::Str(self.expiry_date.text()))]
            + seq![("idTag"@, JsonRep::Str(self.id_tag@))]
            + seq![("reservationId"@, JsonRep::Int(self.reservation_id as int))]
            + opt_entry("parentIdTag"@, match self.parent_id_tag { Some(v) => Some(JsonRep::Str(v@)), None => None })
    }

    #[verifier::rlimit(100)]
    pub fn decode(entries: &Vec<(String, JsonValue)>) -> (r: Result<Self, String>)
        ensures
            match r {
                Ok(v) => v.models(obj_rep(*entries, 0)),
                Err(_) => !Self::shape_ok(obj_rep(*entries, 0)),
            },
    {
        let known: Vec<&str> = vec!["connectorId", "expiryDate", "idTag", "reservationId", "parentIdTag"];
        proof {
            assert(strs_view(known@) =~= Self::known_keys());
        }
        if let Some(k) = check_keys(entries, &known) {
            return Err(k.clone());
        }
        let connector_id = match get_u32(entries, "connectorId") {
            Some(v) => v,
            None => { return Err(String::from_str("connectorId")); },
        };
        let expiry_date = match get_str(entries, "expiryDate") {
            Some(s) => match DateTimeWrapper::parse_iso8601(s.as_str()) {
                Some(d) => d,
                None => { return Err(String::from_str("expiryDate")); },
            },
            None => { return Err(String::from_str("expiryDate")); },
        };
        let id_tag = match get_str(entries, "idTag") {
            Some(s) => s.clone(),
            None => { return Err(String::from_str("idTag")); },
        };
        let reservation_id = match get_i32(entries, "reservationId") {
            Some(v) => v,
            None => { return Err(String::from_str("reservationId")); },
        };
        let parent_id_tag = if field_absent(entries, "parentIdTag") { None } else {
            match get_str(entries, "parentIdTag") {
                Some(s) => Some(s.clone()),
                None => { return Err(String::from_str("parentIdTag")); },
            }
        };
        Ok(ReserveNow { connector_id, expiry_date, id_tag, reservation_id, parent_id_tag })
    }

    #[verifier::rlimit(100)]
    pub fn encode(&self) -> (r: JsonValue)
        ensures
            rep(r) == JsonRep::Object(self.entries_spec()),
    {
        let mut e: Vec<(String, JsonValue)> = Vec::new();
        e.push((String::from_str("connectorId"), uint_json(self.connector_id as u64)));
        e.push((String::from_str("expiryDate"), JsonValue::Str(self.expiry_date.to_iso8601())));
        e.push((String::from_str("idTag"), JsonValue::Str(self.id_tag.clone())));
        e.push((String::from_str("reservationId"), int_json(self.reservation_id as i64)));
        match &self.parent_id_tag {
            Some(v) => e.push((String::from_str("parentIdTag"), JsonValue::Str(v.clone()))),
            None => (),
        }
        let ghost ge = e;
        let r = JsonValue::Object(e);
        proof {
            crate::json::lemma_obj_rep_points(ge);
            assert(obj_rep(ge, 0) =~= self.entries_spec());
        }
        r
    }
}

/// Resets the charge point.
#[derive(Debug, PartialEq, Eq, Clone, Default)]
pub struct Reset {
    pub reset_type: ResetType,
}

impl Reset {
    /// The keys this shape declares, in the order they are written.
    pub open spec fn known_keys() -> Seq<Seq<char>> {
        seq!["type"@]
    }

    /// Structural match: the shape is strict, so every key must be
    /// declared and none may repeat.
    pub open spec fn shape_ok(o: JObj) -> bool {
        &&& keys_ok(o, Self::known_keys())
        &&& (str_field(o, "type"@) matches Some(s) && ResetType::from_wire_spec(s) is Some)
    }

    /// This value is exactly what decoding `o` yields.
    pub open spec fn models(&self, o: JObj) -> bool {
        &&& Self::shape_ok(o)
        &&& (str_field(o, "type"@) matches Some(s) && ResetType::from_wire_spec(s) == Some(self.reset_type))
    }

    /// The object this value encodes to.
    pub open spec fn entries_spec(&self) -> JObj {
        seq![("type"@, JsonRep::Str(self.reset_type.wire_spec()))]
    }

    pub fn decode(entries: &Vec<(String, JsonValue)>) -> (r: Result<Self, String>)
        ensures
            match r {
                Ok(v) => v.models(obj_rep(*entries, 0)),
                Err(_) => !Self::shape_ok(obj_rep(*entries, 0)),
            },
    {
        let known: Vec<&str> = vec!["type"];
        proof {
            assert(strs_view(known@) =~= Self::known_keys());
        }
        if let Some(k) = check_keys(entries, &known) {
            return Err(k.clone());
        }
        let reset_type = match get_str(entries, "type") {
            Some(s) => match ResetType::from_wire(s.as_str()) {
                Some(c) => c,
                None => { return Err(String::from_str("type")); },
            },
            None => { return Err(String::from_str("type")); },
        };
        Ok(Reset { reset_type })
    }

    pub fn encode(&self) -> (r: JsonValue)
        ensures
            rep(r) == JsonRep::Object(self.entries_spec()),
    {
        let mut e: Vec<(String, JsonValue)> = Vec::new();
        e.push((String::from_str("type"), JsonValue::Str(self.reset_type.wire_name())));
        let ghost ge = e;
        let r = JsonValue::Object(e);
        proof {
            crate::json::lemma_obj_rep_points(ge);
            assert(obj_rep(ge, 0) =~= self.entries_spec());
        }
        r
    }
}

/// Reports a security event.
#[derive(Debug, PartialEq, Eq, Clone, Default)]
pub struct SecurityEventNotification {
    pub event_type: String,
    pub timestamp: DateTimeWrapper,
    pub tech_info: Option<String>,
}

impl SecurityEventNotification {
    /// The keys this shape declares, in the order they are written.
    pub open spec fn known_keys() -> Seq<Seq<char>> {
        seq!["type"@, "timestamp"@, "techInfo"@]
    }

    /// Structural match: the shape is strict, so every key must be
    /// declared and none may repeat.
    pub open spec fn shape_ok(o: JObj) -> bool {
        &&& keys_ok(o, Self::known_keys())
        &&& str_field(o, "type"@) is Some
        &&& (str_field(o, "timestamp"@) matches Some(s) && DateTimeWrapper::parse_spec(s) is Some)
        &&& (absent(o, "techInfo"@) || str_field(o, "techInfo"@) is Some)
    }

    /// This value is exactly what decoding `o` yields.
    pub open spec fn models(&self, o: JObj) -> bool {
        &&& Self::shape_ok(o)
        &&& str_field(o, "type"@) == Some(self.event_type@)
        &&& (str_field(o, "timestamp"@) matches Some(s) && DateTimeWrapper::parse_spec(s) == Some(self.timestamp))
        &&& match self.tech_info {
            Some(v) => str_field(o, "techInfo"@) == Some(v@),
            None => absent(o, "techInfo"@),
        }
    }

    /// The object this value encodes to.
    pub open spec fn entries_spec(&self) -> JObj {
        seq![("type"@, JsonRep::Str(self.event_type@))]
            + seq![("timestamp"@, JsonRep::Str(self.timestamp.text()))]
            + opt_entry("techInfo"@, match self.tech_info { Some(v) => Some(JsonRep::Str(v@)), None => None })
    }

    #[verifier::rlimit(100)]
    pub fn decode(entries: &Vec<(String, JsonValue)>) -> (r: Result<Self, String>)
        ensures
            match r {
                Ok(v) => v.models(obj_rep(*entries, 0)),
                Err(_) => !Self::shape_ok(obj_rep(*entries, 0)),
            },
    {
        let known: Vec<&str> = vec!["type", "timestamp", "techInfo"];
        proof {
            assert(strs_view(known@) =~= Self::known_keys());
        }
        if let Some(k) = check_keys(entries, &known) {
            return Err(k.clone());
        }
        let event_type = match get_str(entries, "type") {
            Some(s) => s.clone(),
            None => { return Err(String::from_str("type")); },
        };
        let timestamp = match get_str(entries, "timestamp") {
            Some(s) => match DateTimeWrapper::parse_iso8601(s.as_str()) {
                Some(d) => d,
                None => { return Err(String::from_str("timestamp")); },
            },
            None => { return Err(String::from_str("timestamp")); },
        };
        let tech_info = if field_absent(entries, "techInfo") { None } else {
            match get_str(entries, "techInfo") {
                Some(s) => Some(s.clone()),
                None => { return Err(String::from_str("techInfo")); },
            }
        };
        Ok(SecurityEventNotification { event_type, timestamp, tech_info })
    }

    #[verifier::rlimit(100)]
    pub fn encode(&self) -> (r: JsonValue)
        ensures
            rep(r) == JsonRep::Object(self.entries_spec()),
    {
        let mut e: Vec<(String, JsonValue)> = Vec::new();
        e.push((String::from_str("type"), JsonValue::Str(self.event_type.clone())));
        e.push((String::from_str("timestamp"), JsonValue::Str(self.timestamp.to_iso8601())));
        match &self.tech_info {
            Some(v) => e.push((String::from_str("techInfo"), JsonValue::Str(v.clone()))),
            None => (),
        }
        let ghost ge = e;
        let r = JsonValue::Object(e);
        proof {
            crate::json::lemma_obj_rep_points(ge);
            assert(obj_rep(ge, 0) =~= self.entries_spec());
        }
        r
    }
}

/// Replaces or updates the local authorization list.
#[derive(Debug, PartialEq, Eq, Clone, Default)]
pub struct SendLocalList {
    pub list_version: i32,
    pub update_type: UpdateType,
    pub local_authorization_list: Vec<String>,
}

impl SendLocalList {
    /// The keys this shape declares, in the order they are written.
    pub open spec fn known_keys() -> Seq<Seq<char>> {
        seq!["listVersion"@, "updateType"@, "localAuthorizationList"@]
    }

    /// Structural match: the shape is strict, so every key must be
    /// declared and none may repeat.
    pub open spec fn shape_ok(o: JObj) -> bool {
        &&& keys_ok(o, Self::known_keys())
        &&& (int_field(o, "listVersion"@) matches Some(n) && i32::MIN <= n <= i32::MAX)
        &&& (str_field(o, "updateType"@) matches Some(s) && UpdateType::from_wire_spec(s) is Some)
        &&& (arr_field(o, "localAuthorizationList"@) matches Some(items) && str_list_ok(items))
    }

    /// This value is exactly what decoding `o` yields.
    pub open spec fn models(&self, o: JObj) -> bool {
        &&& Self::shape_ok(o)
        &&& int_field(o, "listVersion"@) == Some(self.list_version as int)
        &&& (str_field(o, "updateType"@) matches Some(s) && UpdateType::from_wire_spec(s) == Some(self.update_type))
        &&& (arr_field(o, "localAuthorizationList"@) matches Some(items) && str_list_models(self.local_authorization_list@, items))
    }

    /// The object this value encodes to.
    pub open spec fn entries_spec(&self) -> JObj {
        seq![("listVersion"@, JsonRep::Int(self.list_version as int))]
            + seq![("updateType"@, JsonRep::Str(self.update_type.wire_spec()))]
            + seq![("localAuthorizationList"@, JsonRep::Array(str_list_rep(self.local_authorization_list@)))]
    }

    #[verifier::rlimit(100)]
    pub fn decode(entries: &Vec<(String, JsonValue)>) -> (r: Result<Self, String>)
        ensures
            match r {
                Ok(v) => v.models(obj_rep(*entries, 0)),
                Err(_) => !Self::shape_ok(obj_rep(*entries, 0)),
            },
    {
        let known: Vec<&str> = vec!["listVersion", "updateType", "localAuthorizationList"];
        proof {
            assert(strs_view(known@) =~= Self::known_keys());
        }
        if let Some(k) = check_keys(entries, &known) {
            return Err(k.clone());
        }
        let list_version = match get_i32(entries, "listVersion") {
            Some(v) => v,
            None => { return Err(String::from_str("listVersion")); },
        };
        let update_type = match get_str(entries, "updateType") {
            Some(s) => match UpdateType::from_wire(s.as_str()) {
                Some(c) => c,
                None => { return Err(String::from_str("updateType")); },
            },
            None => { return Err(String::from_str("updateType")); },
        };
        let local_authorization_list = match get_arr(entries, "localAuthorizationList") {
            Some(items) => match decode_str_list(items) {
                Some(v) => v,
                None => { return Err(String::from_str("localAuthorizationList")); },
            },
            None => { return Err(String::from_str("localAuthorizationList")); },
        };
        Ok(SendLocalList { list_version, update_type, local_authorization_list })
    }

    #[verifier::rlimit(100)]
    pub fn encode(&self) -> (r: JsonValue)
        ensures
            rep(r) == JsonRep::Object(self.entries_spec()),
    {
        let mut e: Vec<(String, JsonValue)> = Vec::new();
        e.push((String::from_str("listVersion"), int_json(self.list_version as i64)));
        e.push((String::from_str("updateType"), JsonValue::Str(self.update_type.wire_name())));
        e.push((String::from_str("localAuthorizationList"), JsonValue::Array(encode_str_list(&self.local_authorization_list))));
        let ghost ge = e;
        let r = JsonValue::Object(e);
        proof {
            crate::json::lemma_obj_rep_points(ge);
            assert(obj_rep(ge, 0) =~= self.entries_spec());
        }
        r
    }
}

/// Installs a charging profile.
#[derive(Debug, PartialEq, Eq, Clone, Default)]
pub struct SetChargingProfile {
    pub connector_id: u32,
    pub cs_charging_profiles: Vec<(String, String)>,
}

impl SetChargingProfile {
    /// The keys this shape declares, in the order they are written.
    pub open spec fn known_keys() -> Seq<Seq<char>> {
        seq!["connectorId"@, "csChargingProfiles"@]
    }

    /// Structural match: the shape is strict, so every key must be
    /// declared and none may repeat.
    pub open spec fn shape_ok(o: JObj) -> bool {
        &&& keys_ok(o, Self::known_keys())
        &&& (int_field(o, "connectorId"@) matches Some(n) && 0 <= n <= u32::MAX)
        &&& (obj_field(o, "csChargingProfiles"@) matches Some(e) && str_map_ok(e))
    }

    /// This value is exactly what decoding `o` yields.
    pub open spec fn models(&self, o: JObj) -> bool {
        &&& Self::shape_ok(o)
        &&& int_field(o, "connectorId"@) == Some(self.connector_id as int)
        &&& (obj_field(o, "csChargingProfiles"@) matches Some(e) && str_map_models(self.cs_charging_profiles@, e))
    }

    /// The object this value encodes to.
    pub open spec fn entries_spec(&self) -> JObj {
        seq![("connectorId"@, JsonRep::Int(self.connector_id as int))]
            + seq![("csChargingProfiles"@, JsonRep::Object(str_map_rep(self.cs_charging_profiles@)))]
    }

    pub fn decode(entries: &Vec<(String, JsonValue)>) -> (r: Result<Self, String>)
        ensures
            match r {
                Ok(v) => v.models(obj_rep(*entries, 0)),
                Err(_) => !Self::shape_ok(obj_rep(*entries, 0)),
            },
    {
        let known: Vec<&str> = vec!["connectorId", "csChargingProfiles"];
        proof {
            assert(strs_view(known@) =~= Self::known_keys());
        }
        if let Some(k) = check_keys(entries, &known) {
            return Err(k.clone());
        }
        let connector_id = match get_u32(entries, "connectorId") {
            Some(v) => v,
            None => { return Err(String::from_str("connectorId")); },
        };
        let cs_charging_profiles = match get_obj(entries, "csChargingProfiles") {
            Some(e) => match decode_str_map(e) {
                Some(v) => v,
                None => { return Err(String::from_str("csChargingProfiles")); },
            },
            None => { return Err(String::from_str("csChargingProfiles")); },
        };
        Ok(SetChargingProfile { connector_id, cs_charging_profiles })
    }

    pub fn encode(&self) -> (r: JsonValue)
        ensures
            rep(r) == JsonRep::Object(self.entries_spec()),
    {
        let mut e: Vec<(String, JsonValue)> = Vec::new();
        e.push((String::from_str("connectorId"), uint_json(self.connector_id as u64)));
        e.push((String::from_str("csChargingProfiles"), JsonValue::Object(encode_str_map(&self.cs_charging_profiles))));
        let ghost ge = e;
        let r = JsonValue::Object(e);
        proof {
            crate::json::lemma_obj_rep_points(ge);
            assert(obj_rep(ge, 0) =~= self.entries_spec());
        }
        r
    }
}

/// Asks the server to sign a certificate request.
#[derive(Debug, PartialEq, Eq, Clone, Default)]
pub struct SignCertificate {
    pub csr: String,
}

impl SignCertificate {
    /// The keys this shape declares, in the order they are written.
    pub open spec fn known_keys() -> Seq<Seq<char>> {
        seq!["csr"@]
    }

    /// Structural match: the shape is strict, so every key must be
    /// declared and none may repeat.
    pub open spec fn shape_ok(o: JObj) -> bool {
        &&& keys_ok(o, Self::known_keys())
        &&& str_field(o, "csr"@) is Some
    }

    /// This value is exactly what decoding `o` yields.
    pub open spec fn models(&self, o: JObj) -> bool {
        &&& Self::shape_ok(o)
        &&& str_field(o, "csr"@) == Some(self.csr@)
    }

    /// The object this value encodes to.
    pub open spec fn entries_spec(&self) -> JObj {
        seq![("csr"@, JsonRep::Str(self.csr@))]
    }

    pub fn decode(entries: &Vec<(String, JsonValue)>) -> (r: Result<Self, String>)
        ensures
            match r {
                Ok(v) => v.models(obj_rep(*entries, 0)),
                Err(_) => !Self::shape_ok(obj_rep(*entries, 0)),
            },
    {
        let known: Vec<&str> = vec!["csr"];
        proof {
            assert(strs_view(known@) =~= Self::known_keys());
        }
        if let Some(k) = check_keys(entries, &known) {
            return Err(k.clone());
        }
        let csr = match get_str(entries, "csr") {
            Some(s) => s.clone(),
            None => { return Err(String::from_str("csr")); },
        };
        Ok(SignCertificate { csr })
    }

    pub fn encode(&self) -> (r: JsonValue)
        ensures
            rep(r) == JsonRep::Object(self.entries_spec()),
    {
        let mut e: Vec<(String, JsonValue)> = Vec::new();
        e.push((String::from_str("csr"), JsonValue::Str(self.csr.clone())));
        let ghost ge = e;
        let r = JsonValue::Object(e);
        proof {
            crate::json::lemma_obj_rep_points(ge);
            assert(obj_rep(ge, 0) =~= self.entries_spec());
        }
        r
    }
}

/// Reports signed-firmware progress.
#[derive(Debug, PartialEq, Eq, Clone, Default)]
pub struct SignedFirmwareStatusNotification {
    pub status: FirmwareStatus,
    pub request_id: i32,
}

impl SignedFirmwareStatusNotification {
    /// The keys this shape declares, in the order they are written.
    pub open spec fn known_keys() -> Seq<Seq<char>> {
        seq!["status"@, "requestId"@]
    }

    /// Structural match: the shape is strict, so every key must be
    /// declared and none may repeat.
    pub open spec fn shape_ok(o: JObj) -> bool {
        &&& keys_ok(o, Self::known_keys())
        &&& (str_field(o, "status"@) matches Some(s) && FirmwareStatus::from_wire_spec(s) is Some)
        &&& (int_field(o, "requestId"@) matches Some(n) && i32::MIN <= n <= i32::MAX)
    }

    /// This value is exactly what decoding `o` yields.
    pub open spec fn models(&self, o: JObj) -> bool {
        &&& Self::shape_ok(o)
        &&& (str_field(o, "status"@) matches Some(s) && FirmwareStatus::from_wire_spec(s) == Some(self.status))
        &&& int_field(o, "requestId"@) == Some(self.request_id as int)
    }

    /// The object this value encodes to.
    pub open spec fn entries_spec(&self) -> JObj {
        seq![("status"@, JsonRep::Str(self.status.wire_spec()))]
            + seq![("requestId"@, JsonRep::Int(self.request_id as int))]
    }

    pub fn decode(entries: &Vec<(String, JsonValue)>) -> (r: Result<Self, String>)
        ensures
            match r {
                Ok(v) => v.models(obj_rep(*entries, 0)),
                Err(_) => !Self::shape_ok(obj_rep(*entries, 0)),
            },
    {
        let known: Vec<&str> = vec!["status", "requestId"];
        proof {
            assert(strs_view(known@) =~= Self::known_keys());
        }
        if let Some(k) = check_keys(entries, &known) {
            return Err(k.clone());
        }
        let status = match get_str(entries, "status") {
            Some(s) => match FirmwareStatus::from_wire(s.as_str()) {
                Some(c) => c,
                None => { return Err(String::from_str("status")); },
            },
            None => { return Err(String::from_str("status")); },
        };
        let request_id = match get_i32(entries, "requestId") {
            Some(v) => v,
            None => { return Err(String::from_str("requestId")); },
        };
        Ok(SignedFirmwareStatusNotification { status, request_id })
    }

    pub fn encode(&self) -> (r: JsonValue)
        ensures
            rep(r) == JsonRep::Object(self.entries_spec()),
    {
        let mut e: Vec<(String, JsonValue)> = Vec::new();
        e.push((String::from_str("status"), JsonValue::Str(self.status.wire_name())));
        e.push((String::from_str("requestId"), int_json(self.request_id as i64)));
        let ghost ge = e;
        let r = JsonValue::Object(e);
        proof {
            crate::json::lemma_obj_rep_points(ge);
            assert(obj_rep(ge, 0) =~= self.entries_spec());
        }
        r
    }
}

/// Starts a signed firmware update.
#[derive(Debug, PartialEq, Eq, Clone, Default)]
pub struct SignedUpdateFirmware {
    pub request_id: i32,
    pub firmware: Vec<(String, String)>,
    pub retries: Option<i32>,
    pub retry_interval: Option<i32>,
}

impl SignedUpdateFirmware {
    /// The keys this shape declares, in the order they are written.
    pub open spec fn known_keys() -> Seq<Seq<char>> {
        seq!["requestId"@, "firmware"@, "retries"@, "retryInterval"@]
    }

    /// Structural match: the shape is strict, so every key must be
    /// declared and none may repeat.
    pub open spec fn shape_ok(o: JObj) -> bool {
        &&& keys_ok(o, Self::known_keys())
        &&& (int_field(o, "requestId"@) matches Some(n) && i32::MIN <= n <= i32::MAX)
        &&& (obj_field(o, "firmware"@) matches Some(e) && str_map_ok(e))
        &&& (absent(o, "retries"@) || (int_field(o, "retries"@) matches Some(n) && i32::MIN <= n <= i32::MAX))
        &&& (absent(o, "retryInterval"@) || (int_field(o, "retryInterval"@) matches Some(n) && i32::MIN <= n <= i32::MAX))
    }

    /// This value is exactly what decoding `o` yields.
    pub open spec fn models(&self, o: JObj) -> bool {
        &&& Self::shape_ok(o)
        &&& int_field(o, "requestId"@) == Some(self.request_id as int)
        &&& (obj_field(o, "firmware"@) matches Some(e) && str_map_models(self.firmware@, e))
        &&& match self.retries {
            Some(v) => int_field(o, "retries"@) == Some(v as int),
            None => absent(o, "retries"@),
        }
        &&& match self.retry_interval {
            Some(v) => int_field(o, "retryInterval"@) == Some(v as int),
            None => absent(o, "retryInterval"@),
        }
    }

    /// The object this value encodes to.
    pub open spec fn entries_spec(&self) -> JObj {
        seq![("requestId"@, JsonRep::Int(self.request_id as int))]
            + seq![("firmware"@, JsonRep::Object(str_map_rep(self.firmware@)))]
            + opt_entry("retries"@, match self.retries { Some(v) => Some(JsonRep::Int(v as int)), None => None })
            + opt_entry("retryInterval"@, match self.retry_interval { Some(v) => Some(JsonRep::Int(v as int)), None => None })
    }

    #[verifier::rlimit(100)]
    pub fn decode(entries: &Vec<(String, JsonValue)>) -> (r: Result<Self, String>)
        ensures
            match r {
                Ok(v) => v.models(obj_rep(*entries, 0)),
                Err(_) => !Self::shape_ok(obj_rep(*entries, 0)),
            },
    {
        let known: Vec<&str> = vec!["requestId", "firmware", "retries", "retryInterval"];
        proof {
            assert(strs_view(known@) =~= Self::known_keys());
        }
        if let Some(k) = check_keys(entries, &known) {
            return Err(k.clone());
        }
        let request_id = match get_i32(entries, "requestId") {
            Some(v) => v,
            None => { return Err(String::from_str("requestId")); },
        };
        let firmware = match get_obj(entries, "firmware") {
            Some(e) => match decode_str_map(e) {
                Some(v) => v,
                None => { return Err(String::from_str("firmware")); },
            },
            None => { return Err(String::from_str("firmware")); },
        };
        let retries = if field_absent(entries, "retries") { None } else {
            match get_i32(entries, "retries") {
                Some(v) => Some(v),
                None => { return Err(String::from_str("retries")); },
            }
        };
        let retry_interval = if field_absent(entries, "retryInterval") { None } else {
            match get_i32(entries, "retryInterval") {
                Some(v) => Some(v),
                None => { return Err(String::from_str("retryInterval")); },
            }
        };
        Ok(SignedUpdateFirmware { request_id, firmware, retries, retry_interval })
    }

    #[verifier::rlimit(100)]
    pub fn encode(&self) -> (r: JsonValue)
        ensures
            rep(r) == JsonRep::Object(self.entries_spec()),
    {
        let mut e: Vec<(String, JsonValue)> = Vec::new();
        e.push((String::from_str("requestId"), int_json(self.request_id as i64)));
        e.push((String::from_str("firmware"), JsonValue::Object(encode_str_map(&self.firmware))));
        match &self.retries {
            Some(v) => e.push((String::from_str("retries"), int_json(*v as i64))),
            None => (),
        }
        match &self.retry_interval {
            Some(v) => e.push((String::from_str("retryInterval"), int_json(*v as i64))),
            None => (),
        }
        let ghost ge = e;
        let r = JsonValue::Object(e);
        proof {
            crate::json::lemma_obj_rep_points(ge);
            assert(obj_rep(ge, 0) =~= self.entries_spec());
        }
        r
    }
}

/// Notifies the start of a transaction.
#[derive(Debug, PartialEq, Eq, Clone, Default)]
pub struct StartTransaction {
    pub connector_id: u32,
    pub id_tag: String,
    pub meter_start: u64,
    pub timestamp: DateTimeWrapper,
    pub reservation_id: Option<i32>,
}

impl StartTransaction {
    /// The keys this shape declares, in the order they are written.
    pub open spec fn known_keys() -> Seq<Seq<char>> {
        seq!["connectorId"@, "idTag"@, "meterStart"@, "timestamp"@, "reservationId"@]
    }

    /// Structural match: the shape is strict, so every key must be
    /// declared and none may repeat.
    pub open spec fn shape_ok(o: JObj) -> bool {
        &&& keys_ok(o, Self::known_keys())
        &&& (int_field(o, "connectorId"@) matches Some(n) && 0 <= n <= u32::MAX)
        &&& str_field(o, "idTag"@) is Some
        &&& (int_field(o, "meterStart"@) matches Some(n) && 0 <= n <= u64::MAX)
        &&& (str_field(o, "timestamp"@) matches Some(s) && DateTimeWrapper::parse_spec(s) is Some)
        &&& (absent(o, "reservationId"@) || (int_field(o, "reservationId"@) matches Some(n) && i32::MIN <= n <= i32::MAX))
    }

    /// This value is exactly what decoding `o` yields.
    pub open spec fn models(&self, o: JObj) -> bool {
        &&& Self::shape_ok(o)
        &&& int_field(o, "connectorId"@) == Some(self.connector_id as int)
        &&& str_field(o, "idTag"@) == Some(self.id_tag@)
        &&& int_field(o, "meterStart"@) == Some(self.meter_start as int)
        &&& (str_field(o, "timestamp"@) matches Some(s) && DateTimeWrapper::parse_spec(s) == Some(self.timestamp))
        &&& match self.reservation_id {
            Some(v) => int_field(o, "reservationId"@) == Some(v as int),
            None => absent(o, "reservationId"@),
        }
    }

    /// The object this value encodes to.
    pub open spec fn entries_spec(&self) -> JObj {
        seq![("connectorId"@, JsonRep::Int(self.connector_id as int))]
            + seq![("idTag"@, JsonRep::Str(self.id_tag@))]
            + seq![("meterStart"@, JsonRep::Int(self.meter_start as int))]
            + seq![("timestamp"@, JsonRep::Str(self.timestamp.text()))]
            + opt_entry("reservationId"@, match self.reservation_id { Some(v) => Some(JsonRep::Int(v as int)), None => None })
    }

    #[verifier::rlimit(100)]
    pub fn decode(entries: &Vec<(String, JsonValue)>) -> (r: Result<Self, String>)
        ensures
            match r {
                Ok(v) => v.models(obj_rep(*entries, 0)),
                Err(_) => !Self::shape_ok(obj_rep(*entries, 0)),
            },
    {
        let known: Vec<&str> = vec!["connectorId", "idTag", "meterStart", "timestamp", "reservationId"];
        proof {
            assert(strs_view(known@) =~= Self::known_keys());
        }
        if let Some(k) = check_keys(entries, &known) {
            return Err(k.clone());
        }
        let connector_id = match get_u32(entries, "connectorId") {
            Some(v) => v,
            None => { return Err(String::from_str("connectorId")); },
        };
        let id_tag = match get_str(entries, "idTag") {
            Some(s) => s.clone(),
            None => { return Err(String::from_str("idTag")); },
        };
        let meter_start = match get_u64(entries, "meterStart") {
            Some(v) => v,
            None => { return Err(String::from_str("meterStart")); },
        };
        let timestamp = match get_str(entries, "timestamp") {
            Some(s) => match DateTimeWrapper::parse_iso8601(s.as_str()) {
                Some(d) => d,
                None => { return Err(String::from_str("timestamp")); },
            },
            None => { return Err(String::from_str("timestamp")); },
        };
        let reservation_id = if field_absent(entries, "reservationId") { None } else {
            match get_i32(entries, "reservationId") {
                Some(v) => Some(v),
                None => { return Err(String::from_str("reservationId")); },
            }
        };
        Ok(StartTransaction { connector_id, id_tag, meter_start, timestamp, reservation_id })
    }

    #[verifier::rlimit(100)]
    pub fn encode(&self) -> (r: JsonValue)
        ensures
            rep(r) == JsonRep::Object(self.entries_spec()),
    {
        let mut e: Vec<(String, JsonValue)> = Vec::new();
        e.push((String::from_str("connectorId"), uint_json(self.connector_id as u64)));
        e.push((String::from_str("idTag"), JsonValue::Str(self.id_tag.clone())));
        e.push((String::from_str("meterStart"), uint_json(self.meter_start)));
        e.push((String::from_str("timestamp"), JsonValue::Str(self.timestamp.to_iso8601())));
        match &self.reservation_id {
            Some(v) => e.push((String::from_str("reservationId"), int_json(*v as i64))),
            None => (),
        }
        let ghost ge = e;
        let r = JsonValue::Object(e);
        proof {
            crate::json::lemma_obj_rep_points(ge);
            assert(obj_rep(ge, 0) =~= self.entries_spec());
        }
        r
    }
}

/// Reports a connector's status.
#[derive(Debug, PartialEq, Eq, Clone, Default)]
pub struct StatusNotification {
    pub connector_id: u32,
    pub error_code: ChargePointErrorCode,
    pub status: ChargePointStatus,
    pub timestamp: Option<DateTimeWrapper>,
    pub info: Option<String>,
    pub vendor_id: Option<String>,
    pub vendor_error_code: Option<String>,
}

impl StatusNotification {
    /// The keys this shape declares, in the order they are written.
    pub open spec fn known_keys() -> Seq<Seq<char>> {
        seq!["connectorId"@, "errorCode"@, "status"@, "timestamp"@, "info"@, "vendorId"@, "vendorErrorCode"@]
    }

    /// Structural match: the shape is strict, so every key must be
    /// declared and none may repeat.
    pub open spec fn shape_ok(o: JObj) -> bool {
        &&& keys_ok(o, Self::known_keys())
        &&& (int_field(o, "connectorId"@) matches Some(n) && 0 <= n <= u32::MAX)
        &&& (str_field(o, "errorCode"@) matches Some(s) && ChargePointErrorCode::from_wire_spec(s) is Some)
        &&& (str_field(o, "status"@) matches Some(s) && ChargePointStatus::from_wire_spec(s) is Some)
        &&& (absent(o, "timestamp"@) || (str_field(o, "timestamp"@) matches Some(s) && DateTimeWrapper::parse_spec(s) is Some))
        &&& (absent(o, "info"@) || str_field(o, "info"@) is Some)
        &&& (absent(o, "vendorId"@) || str_field(o, "vendorId"@) is Some)
        &&& (absent(o, "vendorErrorCode"@) || str_field(o, "vendorErrorCode"@) is Some)
    }

    /// This value is exactly what decoding `o` yields.
    pub open spec fn models(&self, o: JObj) -> bool {
        &&& Self::shape_ok(o)
        &&& int_field(o, "connectorId"@) == Some(self.connector_id as int)
        &&& (str_field(o, "errorCode"@) matches Some(s) && ChargePointErrorCode::from_wire_spec(s) == Some(self.error_code))
        &&& (str_field(o, "status"@) matches Some(s) && ChargePointStatus::from_wire_spec(s) == Some(self.status))
        &&& match self.timestamp {
            Some(d) => str_field(o, "timestamp"@) matches Some(s) && DateTimeWrapper::parse_spec(s) == Some(d),
            None => absent(o, "timestamp"@),
        }
        &&& match self.info {
            Some(v) => str_field(o, "info"@) == Some(v@),
            None => absent(o, "info"@),
        }
        &&& match self.vendor_id {
            Some(v) => str_field(o, "vendorId"@) == Some(v@),
            None => absent(o, "vendorId"@),
        }
        &&& match self.vendor_error_code {
            Some(v) => str_field(o, "vendorErrorCode"@) == Some(v@),
            None => absent(o, "vendorErrorCode"@),
        }
    }

    /// The object this value encodes to.
    pub open spec fn entries_spec(&self) -> JObj {
        seq![("connectorId"@, JsonRep::Int(self.connector_id as int))]
            + seq![("errorCode"@, JsonRep::Str(self.error_code.wire_spec()))]
            + seq![("status"@, JsonRep::Str(self.status.wire_spec()))]
            + opt_entry("timestamp"@, match self.timestamp { Some(d) => Some(JsonRep::Str(d.text())), None => None })
            + opt_entry("info"@, match self.info { Some(v) => Some(JsonRep::Str(v@)), None => None })
            + opt_entry("vendorId"@, match self.vendor_id { Some(v) => Some(JsonRep::Str(v@)), None => None })
            + opt_entry("vendorErrorCode"@, match self.vendor_error_code { Some(v) => Some(JsonRep::Str(v@)), None => None })
    }

    #[verifier::rlimit(100)]
    pub fn decode(entries: &Vec<(String, JsonValue)>) -> (r: Result<Self, String>)
        ensures
            match r {
                Ok(v) => v.models(obj_rep(*entries, 0)),
                Err(_) => !Self::shape_ok(obj_rep(*entries, 0)),
            },
    {
        let known: Vec<&str> = vec!["connectorId", "errorCode", "status", "timestamp", "info", "vendorId", "vendorErrorCode"];
        proof {
            assert(strs_view(known@) =~= Self::known_keys());
        }
        if let Some(k) = check_keys(entries, &known) {
            return Err(k.clone());
        }
        let connector_id = match get_u32(entries, "connectorId") {
            Some(v) => v,
            None => { return Err(String::from_str("connectorId")); },
        };
        let error_code = match get_str(entries, "errorCode") {
            Some(s) => match ChargePointErrorCode::from_wire(s.as_str()) {
                Some(c) => c,
                None => { return Err(String::from_str("errorCode")); },
            },
            None => { return Err(String::from_str("errorCode")); },
        };
        let status = match get_str(entries, "status") {
            Some(s) => match ChargePointStatus::from_wire(s.as_str()) {
                Some(c) => c,
                None => { return Err(String::from_str("status")); },
            },
            None => { return Err(String::from_str("status")); },
        };
        let timestamp = if field_absent(entries, "timestamp") { None } else {
            match get_str(entries, "timestamp") {
                Some(s) => match DateTimeWrapper::parse_iso8601(s.as_str()) {
                    Some(d) => Some(d),
                    None => { return Err(String::from_str("timestamp")); },
                },
                None => { return Err(String::from_str("timestamp")); },
            }
        };
        let info = if field_absent(entries, "info") { None } else {
            match get_str(entries, "info") {
                Some(s) => Some(s.clone()),
                None => { return Err(String::from_str("info")); },
            }
        };
        let vendor_id = if field_absent(entries, "vendorId") { None } else {
            match get_str(entries, "vendorId") {
                Some(s) => Some(s.clone()),
                None => { return Err(String::from_str("vendorId")); },
            }
        };
        let vendor_error_code = if field_absent(entries, "vendorErrorCode") { None } else {
            match get_str(entries, "vendorErrorCode") {
                Some(s) => Some(s.clone()),
                None => { return Err(String::from_str("vendorErrorCode")); },
            }
        };
        Ok(StatusNotification { connector_id, error_code, status, timestamp, info, vendor_id, vendor_error_code })
    }

    #[verifier::rlimit(100)]
    pub fn encode(&self) -> (r: JsonValue)
        ensures
            rep(r) == JsonRep::Object(self.entries_spec()),
    {
        let mut e: Vec<(String, JsonValue)> = Vec::new();
        e.push((String::from_str("connectorId"), uint_json(self.connector_id as u64)));
        e.push((String::from_str("errorCode"), JsonValue::Str(self.error_code.wire_name())));
        e.push((String::from_str("status"), JsonValue::Str(self.status.wire_name())));
        match &self.timestamp {
            Some(d) => e.push((String::from_str("timestamp"), JsonValue::Str(d.to_iso8601()))),
            None => (),
        }
        match &self.info {
            Some(v) => e.push((String::from_str("info"), JsonValue::Str(v.clone()))),
            None => (),
        }
        match &self.vendor_id {
            Some(v) => e.push((String::from_str("vendorId"), JsonValue::Str(v.clone()))),
            None => (),
        }
        match &self.vendor_error_code {
            Some(v) => e.push((String::from_str("vendorErrorCode"), JsonValue::Str(v.clone()))),
            None => (),
        }
        let ghost ge = e;
        let r = JsonValue::Object(e);
        proof {
            crate::json::lemma_obj_rep_points(ge);
            assert(obj_rep(ge, 0) =~= self.entries_spec());
        }
        r
    }
}

/// Notifies the end of a transaction.
#[derive(Debug, PartialEq, Eq, Clone, Default)]
pub struct StopTransaction {
    pub meter_stop: u64,
    pub timestamp: DateTimeWrapper,
    pub transaction_id: i32,
    pub reason: Option<Reason>,
    pub id_tag: Option<String>,
    pub transaction_data: Option<Vec<MeterValue>>,
}

impl StopTransaction {
    /// The keys this shape declares, in the order they are written.
    pub open spec fn known_keys() -> Seq<Seq<char>> {
        seq!["meterStop"@, "timestamp"@, "transactionId"@, "reason"@, "idTag"@, "transactionData"@]
    }

    /// Structural match: the shape is strict, so every key must be
    /// declared and none may repeat.
    pub open spec fn shape_ok(o: JObj) -> bool {
        &&& keys_ok(o, Self::known_keys())
        &&& (int_field(o, "meterStop"@) matches Some(n) && 0 <= n <= u64::MAX)
        &&& (str_field(o, "timestamp"@) matches Some(s) && DateTimeWrapper::parse_spec(s) is Some)
        &&& (int_field(o, "transactionId"@) matches Some(n) && i32::MIN <= n <= i32::MAX)
        &&& (absent(o, "reason"@) || (str_field(o, "reason"@) matches Some(s) && Reason::from_wire_spec(s) is Some))
        &&& (absent(o, "idTag"@) || str_field(o, "idTag"@) is Some)
        &&& (absent(o, "transactionData"@) || (arr_field(o, "transactionData"@) matches Some(items) && mv_list_shape_ok(items)))
    }

    /// This value is exactly what decoding `o` yields.
    pub open spec fn models(&self, o: JObj) -> bool {
        &&& Self::shape_ok(o)
        &&& int_field(o, "meterStop"@) == Some(self.meter_stop as int)
        &&& (str_field(o, "timestamp"@) matches Some(s) && DateTimeWrapper::parse_spec(s) == Some(self.timestamp))
        &&& int_field(o, "transactionId"@) == Some(self.transaction_id as int)
        &&& match self.reason {
            Some(c) => str_field(o, "reason"@) matches Some(s) && Reason::from_wire_spec(s) == Some(c),
            None => absent(o, "reason"@),
        }
        &&& match self.id_tag {
            Some(v) => str_field(o, "idTag"@) == Some(v@),
            None => absent(o, "idTag"@),
        }
        &&& match self.transaction_data {
            Some(ref v) => arr_field(o, "transactionData"@) matches Some(items) && mv_list_models(v@, items),
            None => absent(o, "transactionData"@),
        }
    }

    /// The object this value encodes to.
    pub open spec fn entries_spec(&self) -> JObj {
        seq![("meterStop"@, JsonRep::Int(self.meter_stop as int))]
            + seq![("timestamp"@, JsonRep::Str(self.timestamp.text()))]
            + seq![("transactionId"@, JsonRep::Int(self.transaction_id as int))]
            + opt_entry("reason"@, match self.reason { Some(c) => Some(JsonRep::Str(c.wire_spec())), None => None })
            + opt_entry("idTag"@, match self.id_tag { Some(v) => Some(JsonRep::Str(v@)), None => None })
            + opt_entry("transactionData"@, match self.transaction_data { Some(ref v) => Some(JsonRep::Array(mv_list_rep(v@))), None => None })
    }

    #[verifier::rlimit(100)]
    pub fn decode(entries: &Vec<(String, JsonValue)>) -> (r: Result<Self, String>)
        ensures
            match r {
                Ok(v) => v.models(obj_rep(*entries, 0)),
                Err(_) => !Self::shape_ok(obj_rep(*entries, 0)),
            },
    {
        let known: Vec<&str> = vec!["meterStop", "timestamp", "transactionId", "reason", "idTag", "transactionData"];
        proof {
            assert(strs_view(known@) =~= Self::known_keys());
        }
        if let Some(k) = check_keys(entries, &known) {
            return Err(k.clone());
        }
        let meter_stop = match get_u64(entries, "meterStop") {
            Some(v) => v,
            None => { return Err(String::from_str("meterStop")); },
        };
        let timestamp = match get_str(entries, "timestamp") {
            Some(s) => match DateTimeWrapper::parse_iso8601(s.as_str()) {
                Some(d) => d,
                None => { return Err(String::from_str("timestamp")); },
            },
            None => { return Err(String::from_str("timestamp")); },
        };
        let transaction_id = match get_i32(entries, "transactionId") {
            Some(v) => v,
            None => { return Err(String::from_str("transactionId")); },
        };
        let reason = if field_absent(entries, "reason") { None } else {
            match get_str(entries, "reason") {
                Some(s) => match Reason::from_wire(s.as_str()) {
                    Some(c) => Some(c),
                    None => { return Err(String::from_str("reason")); },
                },
                None => { return Err(String::from_str("reason")); },
            }
        };
        let id_tag = if field_absent(entries, "idTag") { None } else {
            match get_str(entries, "idTag") {
                Some(s) => Some(s.clone()),
                None => { return Err(String::from_str("idTag")); },
            }
        };
        let transaction_data = if field_absent(entries, "transactionData") { None } else {
            match get_arr(entries, "transactionData") {
                Some(items) => match decode_mv_list(items) {
                    Some(v) => Some(v),
                    None => { return Err(String::from_str("transactionData")); },
                },
                None => { return Err(String::from_str("transactionData")); },
            }
        };
        Ok(StopTransaction { meter_stop, timestamp, transaction_id, reason, id_tag, transaction_data })
    }

    #[verifier::rlimit(100)]
    pub fn encode(&self) -> (r: JsonValue)
        ensures
            rep(r) == JsonRep::Object(self.entries_spec()),
    {
        let mut e: Vec<(String, JsonValue)> = Vec::new();
        e.push((String::from_str("meterStop"), uint_json(self.meter_stop)));
        e.push((String::from_str("timestamp"), JsonValue::Str(self.timestamp.to_iso8601())));
        e.push((String::from_str("transactionId"), int_json(self.transaction_id as i64)));
        match &self.reason {
            Some(c) => e.push((String::from_str("reason"), JsonValue::Str(c.wire_name()))),
            None => (),
        }
        match &self.id_tag {
            Some(v) => e.push((String::from_str("idTag"), JsonValue::Str(v.clone()))),
            None => (),
        }
        match &self.transaction_data {
            Some(v) => e.push((String::from_str("transactionData"), JsonValue::Array(encode_mv_list(v)))),
            None => (),
        }
        let ghost ge = e;
        let r = JsonValue::Object(e);
        proof {
            crate::json::lemma_obj_rep_points(ge);
            assert(obj_rep(ge, 0) =~= self.entries_spec());
        }
        r
    }
}

/// Asks the charge point to send a message.
#[derive(Debug, PartialEq, Eq, Clone, Default)]
pub struct TriggerMessage {
    pub requested_message: MessageTrigger,
    pub connector_id: Option<u32>,
}

impl TriggerMessage {
    /// The keys this shape declares, in the order they are written.
    pub open spec fn known_keys() -> Seq<Seq<char>> {
        seq!["requestedMessage"@, "connectorId"@]
    }

    /// Structural match: the shape is strict, so every key must be
    /// declared and none may repeat.
    pub open spec fn shape_ok(o: JObj) -> bool {
        &&& keys_ok(o, Self::known_keys())
        &&& (str_field(o, "requestedMessage"@) matches Some(s) && MessageTrigger::from_wire_spec(s) is Some)
        &&& (absent(o, "connectorId"@) || (int_field(o, "connectorId"@) matches Some(n) && 0 <= n <= u32::MAX))
    }

    /// This value is exactly what decoding `o` yields.
    pub open spec fn models(&self, o: JObj) -> bool {
        &&& Self::shape_ok(o)
        &&& (str_field(o, "requestedMessage"@) matches Some(s) && MessageTrigger::from_wire_spec(s) == Some(self.requested_message))
        &&& match self.connector_id {
            Some(v) => int_field(o, "connectorId"@) == Some(v as int),
            None => absent(o, "connectorId"@),
        }
    }

    /// The object this value encodes to.
    pub open spec fn entries_spec(&self) -> JObj {
        seq![("requestedMessage"@, JsonRep::Str(self.requested_message.wire_spec()))]
            + opt_entry("connectorId"@, match self.connector_id { Some(v) => Some(JsonRep::Int(v as int)), None => None })
    }

    pub fn decode(entries: &Vec<(String, JsonValue)>) -> (r: Result<Self, String>)
        ensures
            match r {
                Ok(v) => v.models(obj_rep(*entries, 0)),
                Err(_) => !Self::shape_ok(obj_rep(*entries, 0)),
            },
    {
        let known: Vec<&str> = vec!["requestedMessage", "connectorId"];
        proof {
            assert(strs_view(known@) =~= Self::known_keys());
        }
        if let Some(k) = check_keys(entries, &known) {
            return Err(k.clone());
        }
        let requested_message = match get_str(entries, "requestedMessage") {
            Some(s) => match MessageTrigger::from_wire(s.as_str()) {
                Some(c) => c,
                None => { return Err(String::from_str("requestedMessage")); },
            },
            None => { return Err(String::from_str("requestedMessage")); },
        };
        let connector_id = if field_absent(entries, "connectorId") { None } else {
            match get_u32(entries, "connectorId") {
                Some(v) => Some(v),
                None => { return Err(String::from_str("connectorId")); },
            }
        };
        Ok(TriggerMessage { requested_message, connector_id })
    }

    pub fn encode(&self) -> (r: JsonValue)
        ensures
            rep(r) == JsonRep::Object(self.entries_spec()),
    {
        let mut e: Vec<(String, JsonValue)> = Vec::new();
        e.push((String::from_str("requestedMessage"), JsonValue::Str(self.requested_message.wire_name())));
        match &self.connector_id {
            Some(v) => e.push((String::from_str("connectorId"), uint_json(*v as u64))),
            None => (),
        }
        let ghost ge = e;
        let r = JsonValue::Object(e);
        proof {
            crate::json::lemma_obj_rep_points(ge);
            assert(obj_rep(ge, 0) =~= self.entries_spec());
        }
        r
    }
}

/// Unlocks a connector.
#[derive(Debug, PartialEq, Eq, Clone, Default)]
pub struct UnlockConnector {
    pub connector_id: u32,
}

impl UnlockConnector {
    /// The keys this shape declares, in the order they are written.
    pub open spec fn known_keys() -> Seq<Seq<char>> {
        seq!["connectorId"@]
    }

    /// Structural match: the shape is strict, so every key must be
    /// declared and none may repeat.
    pub open spec fn shape_ok(o: JObj) -> bool {
        &&& keys_ok(o, Self::known_keys())
        &&& (int_field(o, "connectorId"@) matches Some(n) && 0 <= n <= u32::MAX)
    }

    /// This value is exactly what decoding `o` yields.
    pub open spec fn models(&self, o: JObj) -> bool {
        &&& Self::shape_ok(o)
        &&& int_field(o, "connectorId"@) == Some(self.connector_id as int)
    }

    /// The object this value encodes to.
    pub open spec fn entries_spec(&self) -> JObj {
        seq![("connectorId"@, JsonRep::Int(self.connector_id as int))]
    }

    pub fn decode(entries: &Vec<(String, JsonValue)>) -> (r: Result<Self, String>)
        ensures
            match r {
                Ok(v) => v.models(obj_rep(*entries, 0)),
                Err(_) => !Self::shape_ok(obj_rep(*entries, 0)),
            },
    {
        let known: Vec<&str> = vec!["connectorId"];
        proof {
            assert(strs_view(known@) =~= Self::known_keys());
        }
        if let Some(k) = check_keys(entries, &known) {
            return Err(k.clone());
        }
        let connector_id = match get_u32(entries, "connectorId") {
            Some(v) => v,
            None => { return Err(String::from_str("connectorId")); },
        };
        Ok(UnlockConnector { connector_id })
    }

    pub fn encode(&self) -> (r: JsonValue)
        ensures
            rep(r) == JsonRep::Object(self.entries_spec()),
    {
        let mut e: Vec<(String, JsonValue)> = Vec::new();
        e.push((String::from_str("connectorId"), uint_json(self.connector_id as u64)));
        let ghost ge = e;
        let r = JsonValue::Object(e);
        proof {
            crate::json::lemma_obj_rep_points(ge);
            assert(obj_rep(ge, 0) =~= self.entries_spec());
        }
        r
    }
}

/// Starts a firmware update.
#[derive(Debug, PartialEq, Eq, Clone, Default)]
pub struct UpdateFirmware {
    pub location: String,
    pub retrieve_date: DateTimeWrapper,
    pub retries: Option<i32>,
    pub retry_interval: Option<i32>,
}

impl UpdateFirmware {
    /// The keys this shape declares, in the order they are written.
    pub open spec fn known_keys() -> Seq<Seq<char>> {
        seq!["location"@, "retrieveDate"@, "retries"@, "retryInterval"@]
    }

    /// Structural match: the shape is strict, so every key must be
    /// declared and none may repeat.
    pub open spec fn shape_ok(o: JObj) -> bool {
        &&& keys_ok(o, Self::known_keys())
        &&& str_field(o, "location"@) is Some
        &&& (str_field(o, "retrieveDate"@) matches Some(s) && DateTimeWrapper::parse_spec(s) is Some)
        &&& (absent(o, "retries"@) || (int_field(o, "retries"@) matches Some(n) && i32::MIN <= n <= i32::MAX))
        &&& (absent(o, "retryInterval"@) || (int_field(o, "retryInterval"@) matches Some(n) && i32::MIN <= n <= i32::MAX))
    }

    /// This value is exactly what decoding `o` yields.
    pub open spec fn models(&self, o: JObj) -> bool {
        &&& Self::shape_ok(o)
        &&& str_field(o, "location"@) == Some(self.location@)
        &&& (str_field(o, "retrieveDate"@) matches Some(s) && DateTimeWrapper::parse_spec(s) == Some(self.retrieve_date))
        &&& match self.retries {
            Some(v) => int_field(o, "retries"@) == Some(v as int),
            None => absent(o, "retries"@),
        }
        &&& match self.retry_interval {
            Some(v) => int_field(o, "retryInterval"@) == Some(v as int),
            None => absent(o, "retryInterval"@),
        }
    }

    /// The object this value encodes to.
    pub open spec fn entries_spec(&self) -> JObj {
        seq![("location"@, JsonRep::Str(self.location@))]
            + seq![("retrieveDate"@, JsonRep::Str(self.retrieve_date.text()))]
            + opt_entry("retries"@, match self.retries { Some(v) => Some(JsonRep::Int(v as int)), None => None })
            + opt_entry("retryInterval"@, match self.retry_interval { Some(v) => Some(JsonRep::Int(v as int)), None => None })
    }

    #[verifier::rlimit(100)]
    pub fn decode(entries: &Vec<(String, JsonValue)>) -> (r: Result<Self, String>)
        ensures
            match r {
                Ok(v) => v.models(obj_rep(*entries, 0)),
                Err(_) => !Self::shape_ok(obj_rep(*entries, 0)),
            },
    {
        let known: Vec<&str> = vec!["location", "retrieveDate", "retries", "retryInterval"];
        proof {
            assert(strs_view(known@) =~= Self::known_keys());
        }
        if let Some(k) = check_keys(entries, &known) {
            return Err(k.clone());
        }
        let location = match get_str(entries, "location") {
            Some(s) => s.clone(),
            None => { return Err(String::from_str("location")); },
        };
        let retrieve_date = match get_str(entries, "retrieveDate") {
            Some(s) => match DateTimeWrapper::parse_iso8601(s.as_str()) {
                Some(d) => d,
                None => { return Err(String::from_str("retrieveDate")); },
            },
            None => { return Err(String::from_str("retrieveDate")); },
        };
        let retries = if field_absent(entries, "retries") { None } else {
            match get_i32(entries, "retries") {
                Some(v) => Some(v),
                None => { return Err(String::from_str("retries")); },
            }
        };
        let retry_interval = if field_absent(entries, "retryInterval") { None } else {
            match get_i32(entries, "retryInterval") {
                Some(v) => Some(v),
                None => { return Err(String::from_str("retryInterval")); },
            }
        };
        Ok(UpdateFirmware { location, retrieve_date, retries, retry_interval })
    }

    #[verifier::rlimit(100)]
    pub fn encode(&self) -> (r: JsonValue)
        ensures
            rep(r) == JsonRep::Object(self.entries_spec()),
    {
        let mut e: Vec<(String, JsonValue)> = Vec::new();
        e.push((String::from_str("location"), JsonValue::Str(self.location.clone())));
        e.push((String::from_str("retrieveDate"), JsonValue::Str(self.retrieve_date.to_iso8601())));
        match &self.retries {
            Some(v) => e.push((String::from_str("retries"), int_json(*v as i64))),
            None => (),
        }
        match &self.retry_interval {
            Some(v) => e.push((String::from_str("retryInterval"), int_json(*v as i64))),
            None => (),
        }
        let ghost ge = e;
        let r = JsonValue::Object(e);
        proof {
            crate::json::lemma_obj_rep_points(ge);
            assert(obj_rep(ge, 0) =~= self.entries_spec());
        }
        r
    }
}

} // verus!
