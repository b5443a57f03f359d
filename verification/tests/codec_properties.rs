use ocpp_rs::errors::{CallTypeMismatch, Error, FieldDecodeError};
use ocpp_rs::v16::call;
use ocpp_rs::v16::call::{Action, Call};
use ocpp_rs::v16::call_error::CallError;
use ocpp_rs::v16::call_result;
use ocpp_rs::v16::call_result::{CallResult, EmptyResponses, ResultPayload, StatusResponses};
use ocpp_rs::v16::data_types::{DateTimeWrapper, IdTagInfo, KeyValue, MeterValue, SampledValue};
use ocpp_rs::v16::enums::{
    AvailabilityType, CertificateUse, ChargePointErrorCode, ChargePointStatus,
    ChargingProfilePurposeType, ChargingRateUnitType, DiagnosticsStatus, FirmwareStatus, Log,
    Measurand, MessageTrigger, ParsedGenericStatus, Phase, ReadingContext, Reason, ResetType,
    UnitOfMeasure, UpdateType, UploadLogStatus, ValueFormat,
};
use ocpp_rs::v16::log_helper::MessageLogLine;
use ocpp_rs::v16::parse::{deserialize_to_message, serialize_message, Message};

fn ts() -> DateTimeWrapper {
    DateTimeWrapper::new(2024, 6, 1, 10, 0, 0, 0)
}

fn ts_ms() -> DateTimeWrapper {
    DateTimeWrapper::new(2024, 12, 31, 23, 59, 59, 999)
}

fn round_trip(m: Message) {
    let text = serialize_message(&m).unwrap();
    let back = deserialize_to_message(&text).unwrap();
    assert_eq!(m, back, "round trip changed the message; wire text was {}", text);
}

fn round_trip_call(a: Action) {
    round_trip(Message::Call(Call::new("rt".to_string(), a)));
}

fn round_trip_result(p: ResultPayload) {
    round_trip(Message::CallResult(CallResult::new("rt".to_string(), p)));
}

#[test]
fn round_trip_every_action_minimal() {
    round_trip_call(Action::Authorize(call::Authorize { id_tag: "T".to_string() }));
    round_trip_call(Action::BootNotification(call::BootNotification {
        charge_point_model: "M".to_string(),
        charge_point_vendor: "V".to_string(),
        ..Default::default()
    }));
    round_trip_call(Action::CancelReservation(call::CancelReservation { reservation_id: -7 }));
    round_trip_call(Action::CertificateSigned(call::CertificateSigned {
        certificate_chain: "PEM".to_string(),
    }));
    round_trip_call(Action::ChangeAvailability(call::ChangeAvailability {
        connector_id: 1,
        availability_type: AvailabilityType::Inoperative,
    }));
    round_trip_call(Action::ChangeConfiguration(call::ChangeConfiguration {
        key: "k".to_string(),
        value: "v".to_string(),
    }));
    round_trip_call(Action::ClearCache(call::ClearCache {}));
    round_trip_call(Action::ClearChargingProfile(call::ClearChargingProfile::default()));
    round_trip_call(Action::DataTransfer(call::DataTransfer {
        vendor_id: "ACME".to_string(),
        ..Default::default()
    }));
    round_trip_call(Action::DeleteCertificate(call::DeleteCertificate {
        certificate_hash_data: vec![("hashAlgorithm".to_string(), "SHA256".to_string())],
    }));
    round_trip_call(Action::DiagnosticsStatusNotification(call::DiagnosticsStatusNotification {
        status: DiagnosticsStatus::Uploaded,
    }));
    round_trip_call(Action::ExtendedTriggerMessage(call::ExtendedTriggerMessage {
        requested_message: MessageTrigger::Heartbeat,
        connector_id: None,
    }));
    round_trip_call(Action::FirmwareStatusNotification(call::FirmwareStatusNotification {
        status: FirmwareStatus::Downloading,
    }));
    round_trip_call(Action::GetCompositeSchedule(call::GetCompositeSchedule {
        connector_id: 2,
        duration: 600,
        charging_rate_unit: None,
    }));
    round_trip_call(Action::GetConfiguration(call::GetConfiguration { key: None }));
    round_trip_call(Action::GetDiagnostics(call::GetDiagnostics {
        location: "ftp://x".to_string(),
        ..Default::default()
    }));
    round_trip_call(Action::GetInstalledCertificateIds(call::GetInstalledCertificateIds {
        certificate_type: CertificateUse::ManufacturerRootCertificate,
    }));
    round_trip_call(Action::GetLocalListVersion(call::GetLocalListVersion {}));
    round_trip_call(Action::GetLog(call::GetLog {
        log: vec![("remoteLocation".to_string(), "ftp://logs".to_string())],
        log_type: Log::SecurityLog,
        request_id: 9,
        retries: None,
        retry_interval: None,
    }));
    round_trip_call(Action::Heartbeat(call::Heartbeat {}));
    round_trip_call(Action::InstallCertificate(call::InstallCertificate {
        certificate_type: CertificateUse::CentralSystemRootCertificate,
        certificate: "PEM".to_string(),
    }));
    round_trip_call(Action::LogStatusNotification(call::LogStatusNotification {
        status: UploadLogStatus::Uploading,
        request_id: 3,
    }));
    round_trip_call(Action::MeterValues(call::MeterValues {
        connector_id: 1,
        meter_value: vec![MeterValue { timestamp: ts(), sampled_value: Vec::new() }],
        transaction_id: None,
    }));
    round_trip_call(Action::RemoteStartTransaction(call::RemoteStartTransaction {
        id_tag: "T".to_string(),
        connector_id: None,
        charging_profile: None,
    }));
    round_trip_call(Action::RemoteStopTransaction(call::RemoteStopTransaction {
        transaction_id: 11,
    }));
    round_trip_call(Action::ReserveNow(call::ReserveNow {
        connector_id: 1,
        expiry_date: ts(),
        id_tag: "T".to_string(),
        reservation_id: 5,
        parent_id_tag: None,
    }));
    round_trip_call(Action::Reset(call::Reset { reset_type: ResetType::Soft }));
    round_trip_call(Action::SecurityEventNotification(call::SecurityEventNotification {
        event_type: "FirmwareUpdated".to_string(),
        timestamp: ts(),
        tech_info: None,
    }));
    round_trip_call(Action::SendLocalList(call::SendLocalList {
        list_version: 1,
        update_type: UpdateType::Full,
        local_authorization_list: vec!["TAG1".to_string(), "TAG2".to_string()],
    }));
    round_trip_call(Action::SetChargingProfile(call::SetChargingProfile {
        connector_id: 0,
        cs_charging_profiles: vec![("chargingProfileId".to_string(), "1".to_string())],
    }));
    round_trip_call(Action::SignCertificate(call::SignCertificate { csr: "CSR".to_string() }));
    round_trip_call(Action::SignedFirmwareStatusNotification(
        call::SignedFirmwareStatusNotification {
            status: FirmwareStatus::Installed,
            request_id: 2,
        },
    ));
    round_trip_call(Action::SignedUpdateFirmware(call::SignedUpdateFirmware {
        request_id: 4,
        firmware: vec![("location".to_string(), "https://fw".to_string())],
        retries: None,
        retry_interval: None,
    }));
    round_trip_call(Action::StartTransaction(call::StartTransaction {
        connector_id: 1,
        id_tag: "T".to_string(),
        meter_start: 18446744073709551615,
        timestamp: ts(),
        reservation_id: None,
    }));
    round_trip_call(Action::StatusNotification(call::StatusNotification {
        connector_id: 1,
        error_code: ChargePointErrorCode::NoError,
        status: ChargePointStatus::Available,
        ..Default::default()
    }));
    round_trip_call(Action::StopTransaction(call::StopTransaction {
        meter_stop: 2500,
        timestamp: ts(),
        transaction_id: 7,
        reason: None,
        id_tag: None,
        transaction_data: None,
    }));
    round_trip_call(Action::TriggerMessage(call::TriggerMessage {
        requested_message: MessageTrigger::StatusNotification,
        connector_id: None,
    }));
    round_trip_call(Action::UnlockConnector(call::UnlockConnector { connector_id: 2 }));
    round_trip_call(Action::UpdateFirmware(call::UpdateFirmware {
        location: "https://fw".to_string(),
        retrieve_date: ts(),
        retries: None,
        retry_interval: None,
    }));
}

#[test]
fn round_trip_actions_all_fields_present() {
    round_trip_call(Action::ClearChargingProfile(call::ClearChargingProfile {
        id: Some(-3),
        connector_id: Some(2),
        charging_profile_purpose: Some(ChargingProfilePurposeType::TxProfile),
        stack_level: Some(4),
    }));
    round_trip_call(Action::GetDiagnostics(call::GetDiagnostics {
        location: "ftp://x".to_string(),
        retries: Some(3),
        retry_interval: Some(60),
        start_time: Some(ts()),
        stop_time: Some(ts_ms()),
    }));
    round_trip_call(Action::GetCompositeSchedule(call::GetCompositeSchedule {
        connector_id: 2,
        duration: 600,
        charging_rate_unit: Some(ChargingRateUnitType::A),
    }));
    round_trip_call(Action::GetLog(call::GetLog {
        log: vec![
            ("oldestTimestamp".to_string(), "2024-01-01T00:00:00Z".to_string()),
            ("remoteLocation".to_string(), "ftp://logs".to_string()),
        ],
        log_type: Log::DiagnosticsLog,
        request_id: 9,
        retries: Some(2),
        retry_interval: Some(30),
    }));
    round_trip_call(Action::MeterValues(call::MeterValues {
        connector_id: 1,
        meter_value: vec![MeterValue {
            timestamp: ts(),
            sampled_value: vec![SampledValue {
                value: "12.5".to_string(),
                context: Some(ReadingContext::TransactionBegin),
                format: Some(ValueFormat::SignedData),
                measurand: Some(Measurand::PowerActiveImport),
                phase: Some(Phase::L1N),
                location: Some(ocpp_rs::v16::enums::Location::Ev),
                unit: Some(UnitOfMeasure::Kvarh),
            }],
        }],
        transaction_id: Some(-1),
    }));
    round_trip_call(Action::RemoteStartTransaction(call::RemoteStartTransaction {
        id_tag: "T".to_string(),
        connector_id: Some(1),
        charging_profile: Some(vec![("stackLevel".to_string(), "0".to_string())]),
    }));
    round_trip_call(Action::ReserveNow(call::ReserveNow {
        connector_id: 1,
        expiry_date: ts_ms(),
        id_tag: "T".to_string(),
        reservation_id: 5,
        parent_id_tag: Some("P".to_string()),
    }));
    round_trip_call(Action::StopTransaction(call::StopTransaction {
        meter_stop: 2500,
        timestamp: ts(),
        transaction_id: 7,
        reason: Some(Reason::EVDisconnected),
        id_tag: Some("T".to_string()),
        transaction_data: Some(vec![MeterValue {
            timestamp: ts(),
            sampled_value: vec![SampledValue {
                value: "1".to_string(),
                context: None,
                format: None,
                measurand: None,
                phase: None,
                location: None,
                unit: None,
            }],
        }]),
    }));
    round_trip_call(Action::StatusNotification(call::StatusNotification {
        connector_id: 1,
        error_code: ChargePointErrorCode::OverVoltage,
        status: ChargePointStatus::Faulted,
        timestamp: Some(ts_ms()),
        info: Some("info".to_string()),
        vendor_id: Some("vnd".to_string()),
        vendor_error_code: Some("E42".to_string()),
    }));
    round_trip_call(Action::TriggerMessage(call::TriggerMessage {
        requested_message: MessageTrigger::MeterValues,
        connector_id: Some(3),
    }));
}

#[test]
fn round_trip_every_result_shape() {
    round_trip_result(ResultPayload::StartTransaction(call_result::StartTransaction {
        transaction_id: 7,
        id_tag_info: IdTagInfo {
            expiry_date: Some(ts()),
            parent_id_tag: Some("P".to_string()),
            status: ParsedGenericStatus::Accepted,
        },
    }));
    round_trip_result(ResultPayload::BootNotification(call_result::BootNotification {
        current_time: ts(),
        interval: 300,
        status: ParsedGenericStatus::Pending,
    }));
    round_trip_result(ResultPayload::Heartbeat(call_result::Heartbeat { current_time: ts_ms() }));
    round_trip_result(ResultPayload::GetLocalListVersion(call_result::GetLocalListVersion {
        list_version: -1,
    }));
    round_trip_result(ResultPayload::PossibleStatusResponse(StatusResponses::StatusResponse(
        call_result::GenericStatusResponse { status: ParsedGenericStatus::Rejected },
    )));
    round_trip_result(ResultPayload::PossibleStatusResponse(
        StatusResponses::GetInstalledCertificateIds(call_result::GetInstalledCertificateIds {
            status: ParsedGenericStatus::Accepted,
            certificate_hash_data: Some(vec!["abc".to_string()]),
        }),
    ));
    round_trip_result(ResultPayload::PossibleStatusResponse(
        StatusResponses::GetCompositeSchedule(call_result::GetCompositeSchedule {
            status: ParsedGenericStatus::Accepted,
            connector_id: Some(1),
            schedule_start: Some("2024-06-01T10:00:00Z".to_string()),
            charging_schedule: Some(vec![("duration".to_string(), "600".to_string())]),
        }),
    ));
    round_trip_result(ResultPayload::PossibleStatusResponse(StatusResponses::GetLog(
        call_result::GetLog {
            status: ParsedGenericStatus::Accepted,
            filename: Some("log.txt".to_string()),
        },
    )));
    round_trip_result(ResultPayload::PossibleStatusResponse(StatusResponses::DataTransfer(
        call_result::DataTransfer {
            status: ParsedGenericStatus::Accepted,
            data: Some("payload".to_string()),
        },
    )));
    round_trip_result(ResultPayload::PossibleEmptyResponse(EmptyResponses::EmptyResponse(
        call_result::EmptyResponse {},
    )));
    round_trip_result(ResultPayload::PossibleEmptyResponse(
        EmptyResponses::GenericIdTagInfoResponse(call_result::GenericIdTagInfo {
            id_tag_info: Some(IdTagInfo {
                expiry_date: None,
                parent_id_tag: None,
                status: ParsedGenericStatus::Blocked,
            }),
        }),
    ));
    round_trip_result(ResultPayload::PossibleEmptyResponse(EmptyResponses::GetConfiguration(
        call_result::GetConfiguration {
            configuration_key: Some(vec![KeyValue {
                key: "k".to_string(),
                readonly: true,
                value: None,
            }]),
            unknown_key: Some(vec!["u".to_string()]),
        },
    )));
    round_trip_result(ResultPayload::PossibleEmptyResponse(EmptyResponses::GetDiagnostics(
        call_result::GetDiagnostics { file_name: Some("diag.zip".to_string()) },
    )));
}

#[test]
fn absent_optionals_round_trip_through_nulls() {
    // A response shape's absent optional fields are written as explicit
    // nulls, so decoding re-selects the identical branch instead of the
    // generic fallback.
    let gd = Message::CallResult(CallResult::new(
        "1".to_string(),
        ResultPayload::PossibleEmptyResponse(EmptyResponses::GetDiagnostics(
            call_result::GetDiagnostics { file_name: None },
        )),
    ));
    let text = serialize_message(&gd).unwrap();
    assert_eq!(text, "[3,\"1\",{\"fileName\":null}]");
    assert_eq!(deserialize_to_message(&text).unwrap(), gd);

    let gl = Message::CallResult(CallResult::new(
        "2".to_string(),
        ResultPayload::PossibleStatusResponse(StatusResponses::GetLog(call_result::GetLog {
            status: ParsedGenericStatus::Accepted,
            filename: None,
        })),
    ));
    let text = serialize_message(&gl).unwrap();
    assert_eq!(text, "[3,\"2\",{\"status\":\"Accepted\",\"filename\":null}]");
    assert_eq!(deserialize_to_message(&text).unwrap(), gl);

    let git = Message::CallResult(CallResult::new(
        "3".to_string(),
        ResultPayload::PossibleEmptyResponse(EmptyResponses::GenericIdTagInfoResponse(
            call_result::GenericIdTagInfo { id_tag_info: None },
        )),
    ));
    let text = serialize_message(&git).unwrap();
    assert_eq!(deserialize_to_message(&text).unwrap(), git);

    let gc = Message::CallResult(CallResult::new(
        "4".to_string(),
        ResultPayload::PossibleEmptyResponse(EmptyResponses::GetConfiguration(
            call_result::GetConfiguration { configuration_key: None, unknown_key: None },
        )),
    ));
    let text = serialize_message(&gc).unwrap();
    assert_eq!(deserialize_to_message(&text).unwrap(), gc);

    let gic = Message::CallResult(CallResult::new(
        "5".to_string(),
        ResultPayload::PossibleStatusResponse(StatusResponses::GetInstalledCertificateIds(
            call_result::GetInstalledCertificateIds {
                status: ParsedGenericStatus::Accepted,
                certificate_hash_data: None,
            },
        )),
    ));
    let text = serialize_message(&gic).unwrap();
    assert_eq!(deserialize_to_message(&text).unwrap(), gic);

    let gcs = Message::CallResult(CallResult::new(
        "6".to_string(),
        ResultPayload::PossibleStatusResponse(StatusResponses::GetCompositeSchedule(
            call_result::GetCompositeSchedule {
                status: ParsedGenericStatus::Accepted,
                connector_id: None,
                schedule_start: None,
                charging_schedule: None,
            },
        )),
    ));
    let text = serialize_message(&gcs).unwrap();
    assert_eq!(deserialize_to_message(&text).unwrap(), gcs);

    let dt = Message::CallResult(CallResult::new(
        "7".to_string(),
        ResultPayload::PossibleStatusResponse(StatusResponses::DataTransfer(
            call_result::DataTransfer { status: ParsedGenericStatus::Accepted, data: None },
        )),
    ));
    let text = serialize_message(&dt).unwrap();
    assert_eq!(deserialize_to_message(&text).unwrap(), dt);
}

#[test]
fn wire_objects_without_the_keys_resolve_to_generic_branches() {
    // When the wire object genuinely omits the optional keys (rather than
    // binding them to null), nothing distinguishes the specific shape, and
    // the generic member of the family wins.
    let m = deserialize_to_message("[3, \"1\", {\"status\":\"Accepted\"}]").unwrap();
    match m {
        Message::CallResult(cr) => match cr.payload {
            ResultPayload::PossibleStatusResponse(sr) => {
                assert!(sr.is_only_status());
                assert!(matches!(sr, StatusResponses::StatusResponse(_)));
            }
            _ => panic!("expected the status family"),
        },
        _ => panic!("expected CallResult"),
    }
}

#[test]
fn unknown_action_is_rejected_not_coerced() {
    let r = deserialize_to_message("[2, \"1\", \"NotARealAction\", {}]");
    assert_eq!(r, Err(Error::UnknownAction("NotARealAction".to_string())));
}

#[test]
fn empty_object_resolves_to_generic_empty() {
    let m = deserialize_to_message("[3, \"1\", {}]").unwrap();
    match m {
        Message::CallResult(cr) => match cr.payload {
            ResultPayload::PossibleEmptyResponse(er) => {
                assert!(er.is_empty());
                assert_eq!(er, EmptyResponses::EmptyResponse(call_result::EmptyResponse {}));
            }
            _ => panic!("expected the empty family"),
        },
        _ => panic!("expected CallResult"),
    }
}

#[test]
fn status_only_resolves_to_generic_status() {
    // Only `status`: the generic branch wins even though specific
    // status-family shapes would also accept the object.
    let m = deserialize_to_message("[3, \"1\", {\"status\":\"Accepted\"}]").unwrap();
    match m {
        Message::CallResult(cr) => match cr.payload {
            ResultPayload::PossibleStatusResponse(sr) => {
                assert!(sr.is_only_status());
                assert_eq!(*sr.get_status(), ParsedGenericStatus::Accepted);
                assert!(matches!(sr, StatusResponses::StatusResponse(_)));
            }
            _ => panic!("expected the status family"),
        },
        _ => panic!("expected CallResult"),
    }

    // A distinguishing field present: the specific shape wins instead.
    let m = deserialize_to_message("[3, \"1\", {\"status\":\"Accepted\",\"data\":\"x\"}]").unwrap();
    match m {
        Message::CallResult(cr) => match cr.payload {
            ResultPayload::PossibleStatusResponse(sr) => {
                assert!(!sr.is_only_status());
                assert!(matches!(sr, StatusResponses::DataTransfer(_)));
            }
            _ => panic!("expected the status family"),
        },
        _ => panic!("expected CallResult"),
    }
}

#[test]
fn nested_tag_info_is_read_uniformly() {
    let m = deserialize_to_message("[3, \"1\", {\"idTagInfo\":{\"status\":\"Accepted\"}}]")
        .unwrap();
    match m {
        Message::CallResult(cr) => match cr.payload {
            ResultPayload::PossibleEmptyResponse(EmptyResponses::GenericIdTagInfoResponse(g)) => {
                let info = g.get_id_tag_info().expect("inner tag info must be carried");
                assert_eq!(info.status, ParsedGenericStatus::Accepted);
            }
            _ => panic!("expected the generic tag-info branch"),
        },
        _ => panic!("expected CallResult"),
    }
}

#[test]
fn type_code_mismatch_on_encode() {
    let call = Call {
        message_id: 3,
        unique_id: "1".to_string(),
        action: "Heartbeat".to_string(),
        payload: Action::Heartbeat(call::Heartbeat {}),
    };
    let r = serialize_message(&Message::Call(call));
    assert_eq!(
        r,
        Err(Error::CallTypeMismatch(CallTypeMismatch { expected: 2, found: 3 }))
    );

    let cr = CallResult {
        message_id: 4,
        unique_id: "1".to_string(),
        payload: ResultPayload::PossibleEmptyResponse(EmptyResponses::EmptyResponse(
            call_result::EmptyResponse {},
        )),
    };
    let r = serialize_message(&Message::CallResult(cr));
    assert_eq!(
        r,
        Err(Error::CallTypeMismatch(CallTypeMismatch { expected: 3, found: 4 }))
    );

    let ce = CallError {
        message_id: 2,
        unique_id: "1".to_string(),
        error_code: "GenericError".to_string(),
        error_description: "d".to_string(),
        error_details: Vec::new(),
    };
    let r = serialize_message(&Message::CallError(ce));
    assert_eq!(
        r,
        Err(Error::CallTypeMismatch(CallTypeMismatch { expected: 4, found: 2 }))
    );
}

#[test]
fn sniffing_is_stable_under_whitespace() {
    let variants = vec![
        "[3, \"1\", {}]",
        "[ 3, \"1\", {}]",
        "[\n  3,\n  \"1\",\n  {}\n]",
        "[\t 3, \"1\", {}]",
    ];
    for text in variants {
        let m = deserialize_to_message(text).unwrap();
        assert!(matches!(m, Message::CallResult(_)), "for input {:?}", text);
    }
    // The scan window is bounded: too much filler hides the code.
    let r = deserialize_to_message("[      3, \"1\", {}]");
    assert_eq!(r, Err(Error::InvalidMessageCallType));
}

#[test]
fn exact_wire_text() {
    let hb = Message::Call(Call::new(
        "19223201".to_string(),
        Action::Heartbeat(call::Heartbeat {}),
    ));
    assert_eq!(
        serialize_message(&hb).unwrap(),
        "[2,\"19223201\",\"Heartbeat\",{}]"
    );

    let err = Message::CallError(CallError::new(
        "1".to_string(),
        "GenericError".to_string(),
        "bad request".to_string(),
        Vec::new(),
    ));
    assert_eq!(
        serialize_message(&err).unwrap(),
        "[4,\"1\",\"GenericError\",\"bad request\",{}]"
    );

    let boot = Message::CallResult(CallResult::new(
        "9".to_string(),
        ResultPayload::BootNotification(call_result::BootNotification {
            current_time: DateTimeWrapper::new(2024, 1, 2, 3, 4, 5, 67),
            interval: -30,
            status: ParsedGenericStatus::Accepted,
        }),
    ));
    assert_eq!(
        serialize_message(&boot).unwrap(),
        "[3,\"9\",{\"currentTime\":\"2024-01-02T03:04:05.067Z\",\"interval\":-30,\"status\":\"Accepted\"}]"
    );

    let quoted = Message::Call(Call::new(
        "q".to_string(),
        Action::DataTransfer(call::DataTransfer {
            vendor_id: "a\"b\\c\nd\te".to_string(),
            message_id: None,
            data: None,
        }),
    ));
    assert_eq!(
        serialize_message(&quoted).unwrap(),
        "[2,\"q\",\"DataTransfer\",{\"vendorId\":\"a\\\"b\\\\c\\nd\\te\"}]"
    );
}

#[test]
fn error_variants_are_distinguished() {
    // Unparseable text past a valid sniff.
    assert_eq!(
        deserialize_to_message("[2, oops"),
        Err(Error::MalformedJson)
    );
    // No type code at all.
    assert_eq!(
        deserialize_to_message("xx"),
        Err(Error::InvalidMessageCallType)
    );
    // A digit outside {2,3,4} fails immediately.
    assert_eq!(
        deserialize_to_message("[5, \"1\", \"Heartbeat\", {}]"),
        Err(Error::InvalidMessageCallType)
    );
    assert_eq!(
        deserialize_to_message("[02, \"1\", \"Heartbeat\", {}]"),
        Err(Error::InvalidMessageCallType)
    );
    // Wrong arity for the sniffed kind.
    assert_eq!(
        deserialize_to_message("[2, \"1\", \"Heartbeat\"]"),
        Err(Error::MalformedFrame)
    );
    // A known action with a missing required field names shape and field.
    assert_eq!(
        deserialize_to_message("[2, \"1\", \"Authorize\", {}]"),
        Err(Error::FieldDecode(FieldDecodeError {
            shape: "Authorize".to_string(),
            field: "idTag".to_string(),
        }))
    );
    // A strict shape rejects unknown keys.
    assert!(matches!(
        deserialize_to_message("[2, \"1\", \"Heartbeat\", {\"extra\":1}]"),
        Err(Error::FieldDecode(_))
    ));
    // A response payload matching no candidate is surfaced, not guessed at.
    assert_eq!(
        deserialize_to_message("[3, \"1\", {\"bogus\":1}]"),
        Err(Error::NoMatchingResultShape)
    );
    // A duplicated key fails every strict candidate.
    assert_eq!(
        deserialize_to_message("[3, \"1\", {\"status\":\"Accepted\",\"status\":\"Accepted\"}]"),
        Err(Error::NoMatchingResultShape)
    );
}

#[test]
fn datetime_text_is_exact() {
    assert_eq!(ts().to_iso8601(), "2024-06-01T10:00:00Z");
    assert_eq!(ts_ms().to_iso8601(), "2024-12-31T23:59:59.999Z");
    assert_eq!(
        DateTimeWrapper::parse_iso8601("2024-06-01T10:00:00Z"),
        Some(ts())
    );
    assert_eq!(
        DateTimeWrapper::parse_iso8601("2024-12-31T23:59:59.999Z"),
        Some(ts_ms())
    );
    // A zero fraction is accepted and reads equal to the fraction-free form.
    assert_eq!(
        DateTimeWrapper::parse_iso8601("2024-06-01T10:00:00.000Z"),
        Some(ts())
    );
    // Leap-day handling.
    assert!(DateTimeWrapper::parse_iso8601("2024-02-29T00:00:00Z").is_some());
    assert!(DateTimeWrapper::parse_iso8601("2023-02-29T00:00:00Z").is_none());
    assert!(DateTimeWrapper::parse_iso8601("2024-04-31T00:00:00Z").is_none());
    assert!(DateTimeWrapper::parse_iso8601("2024-06-01 10:00:00Z").is_none());
}

#[test]
fn unicode_escapes_decode() {
    let m = deserialize_to_message("[2, \"\\u0041b\", \"Heartbeat\", {}]").unwrap();
    match m {
        Message::Call(c) => assert_eq!(c.unique_id, "Ab"),
        _ => panic!("expected Call"),
    }
    // A surrogate pair decodes to one character beyond the basic plane.
    let m = deserialize_to_message("[2, \"\\uD83D\\uDE97\", \"Heartbeat\", {}]").unwrap();
    match m {
        Message::Call(c) => assert_eq!(c.unique_id, "\u{1F697}"),
        _ => panic!("expected Call"),
    }
    // A lone surrogate is malformed.
    assert_eq!(
        deserialize_to_message("[2, \"\\uD83D\", \"Heartbeat\", {}]"),
        Err(Error::MalformedJson)
    );
}

#[test]
fn log_lines_render_payloads() {
    let hb = Message::Call(Call::new(
        "1".to_string(),
        Action::Heartbeat(call::Heartbeat {}),
    ));
    let line = MessageLogLine::from_message(&hb);
    assert_eq!(line.core_type, "Call");
    assert_eq!(line.payload_type, "Heartbeat");
    assert_eq!(line.payload, "{}");

    let err = Message::CallError(CallError::new(
        "1".to_string(),
        "GenericError".to_string(),
        "boom".to_string(),
        vec![("k".to_string(), "v".to_string())],
    ));
    let line = MessageLogLine::from_message(&err);
    assert_eq!(line.core_type, "CallError");
    assert_eq!(line.payload_type, "Error");
    assert_eq!(
        line.payload,
        "{\"error_code\":\"GenericError\",\"error_description\":\"boom\",\"error_details\":{\"k\":\"v\"}}"
    );

    let res = Message::CallResult(CallResult::new(
        "1".to_string(),
        ResultPayload::PossibleStatusResponse(StatusResponses::StatusResponse(
            call_result::GenericStatusResponse { status: ParsedGenericStatus::Accepted },
        )),
    ));
    let line = MessageLogLine::from_message(&res);
    assert_eq!(line.core_type, "CallResult");
    assert_eq!(line.payload_type, "PossibleStatusResponse");
    assert_eq!(line.payload, "{\"status\":\"Accepted\"}");
}
