//! The static table from each request to its response branch: knowing which
//! action was sent makes the reply direction unambiguous, so each request
//! type names its reply payload type and wraps it into the one correct
//! [`ResultPayload`] branch, copying the correlation id verbatim.

use vstd::prelude::*;

use crate::v16::call;
use crate::v16::call_result::{CallResult, EmptyResponses, ResultPayload, StatusResponses};
use crate::v16::parse::Message;

verus! {

/// Maps a request payload to the reply message its action calls for.
pub trait Response {
    /// The typed reply payload this request expects.
    type ResponseType;

    /// The result branch the reply is wrapped into.
    spec fn wrap_spec(&self, payload: Self::ResponseType) -> ResultPayload;

    /// Builds the reply to this request: a `CallResult` under the same
    /// correlation id, with the payload in the branch the action calls for.
    fn get_response(&self, unique_id: String, payload: Self::ResponseType) -> (m: Message)
        ensures
            m == Message::CallResult(
                CallResult { message_id: 3, unique_id, payload: self.wrap_spec(payload) },
            ),
    ;
}

impl Response for call::Authorize {
    type ResponseType = crate::v16::call_result::GenericIdTagInfo;

    open spec fn wrap_spec(&self, payload: crate::v16::call_result::GenericIdTagInfo) -> ResultPayload {
        ResultPayload::PossibleEmptyResponse(EmptyResponses::GenericIdTagInfoResponse(payload))
    }

    fn get_response(&self, unique_id: String, payload: crate::v16::call_result::GenericIdTagInfo) -> (m: Message) {
        Message::CallResult(CallResult::new(unique_id, ResultPayload::PossibleEmptyResponse(EmptyResponses::GenericIdTagInfoResponse(payload))))
    }
}

impl Response for call::BootNotification {
    type ResponseType = crate::v16::call_result::BootNotification;

    open spec fn wrap_spec(&self, payload: crate::v16::call_result::BootNotification) -> ResultPayload {
        ResultPayload::BootNotification(payload)
    }

    fn get_response(&self, unique_id: String, payload: crate::v16::call_result::BootNotification) -> (m: Message) {
        Message::CallResult(CallResult::new(unique_id, ResultPayload::BootNotification(payload)))
    }
}

impl Response for call::CancelReservation {
    type ResponseType = crate::v16::call_result::GenericStatusResponse;

    open spec fn wrap_spec(&self, payload: crate::v16::call_result::GenericStatusResponse) -> ResultPayload {
        ResultPayload::PossibleStatusResponse(StatusResponses::StatusResponse(payload))
    }

    fn get_response(&self, unique_id: String, payload: crate::v16::call_result::GenericStatusResponse) -> (m: Message) {
        Message::CallResult(CallResult::new(unique_id, ResultPayload::PossibleStatusResponse(StatusResponses::StatusResponse(payload))))
    }
}

impl Response for call::CertificateSigned {
    type ResponseType = crate::v16::call_result::GenericStatusResponse;

    open spec fn wrap_spec(&self, payload: crate::v16::call_result::GenericStatusResponse) -> ResultPayload {
        ResultPayload::PossibleStatusResponse(StatusResponses::StatusResponse(payload))
    }

    fn get_response(&self, unique_id: String, payload: crate::v16::call_result::GenericStatusResponse) -> (m: Message) {
        Message::CallResult(CallResult::new(unique_id, ResultPayload::PossibleStatusResponse(StatusResponses::StatusResponse(payload))))
    }
}

impl Response for call::ChangeAvailability {
    type ResponseType = crate::v16::call_result::GenericStatusResponse;

    open spec fn wrap_spec(&self, payload: crate::v16::call_result::GenericStatusResponse) -> ResultPayload {
        ResultPayload::PossibleStatusResponse(StatusResponses::StatusResponse(payload))
    }

    fn get_response(&self, unique_id: String, payload: crate::v16::call_result::GenericStatusResponse) -> (m: Message) {
        Message::CallResult(CallResult::new(unique_id, ResultPayload::PossibleStatusResponse(StatusResponses::StatusResponse(payload))))
    }
}

impl Response for call::ChangeConfiguration {
    type ResponseType = crate::v16::call_result::GenericStatusResponse;

    open spec fn wrap_spec(&self, payload: crate::v16::call_result::GenericStatusResponse) -> ResultPayload {
        ResultPayload::PossibleStatusResponse(StatusResponses::StatusResponse(payload))
    }

    fn get_response(&self, unique_id: String, payload: crate::v16::call_result::GenericStatusResponse) -> (m: Message) {
        Message::CallResult(CallResult::new(unique_id, ResultPayload::PossibleStatusResponse(StatusResponses::StatusResponse(payload))))
    }
}

impl Response for call::ClearCache {
    type ResponseType = crate::v16::call_result::GenericStatusResponse;

    open spec fn wrap_spec(&self, payload: crate::v16::call_result::GenericStatusResponse) -> ResultPayload {
        ResultPayload::PossibleStatusResponse(StatusResponses::StatusResponse(payload))
    }

    fn get_response(&self, unique_id: String, payload: crate::v16::call_result::GenericStatusResponse) -> (m: Message) {
        Message::CallResult(CallResult::new(unique_id, ResultPayload::PossibleStatusResponse(StatusResponses::StatusResponse(payload))))
    }
}

impl Response for call::ClearChargingProfile {
    type ResponseType = crate::v16::call_result::GenericStatusResponse;

    open spec fn wrap_spec(&self, payload: crate::v16::call_result::GenericStatusResponse) -> ResultPayload {
        ResultPayload::PossibleStatusResponse(StatusResponses::StatusResponse(payload))
    }

    fn get_response(&self, unique_id: String, payload: crate::v16::call_result::GenericStatusResponse) -> (m: Message) {
        Message::CallResult(CallResult::new(unique_id, ResultPayload::PossibleStatusResponse(StatusResponses::StatusResponse(payload))))
    }
}

impl Response for call::DataTransfer {
    type ResponseType = crate::v16::call_result::DataTransfer;

    open spec fn wrap_spec(&self, payload: crate::v16::call_result::DataTransfer) -> ResultPayload {
        ResultPayload::PossibleStatusResponse(StatusResponses::DataTransfer(payload))
    }

    fn get_response(&self, unique_id: String, payload: crate::v16::call_result::DataTransfer) -> (m: Message) {
        Message::CallResult(CallResult::new(unique_id, ResultPayload::PossibleStatusResponse(StatusResponses::DataTransfer(payload))))
    }
}

impl Response for call::DeleteCertificate {
    type ResponseType = crate::v16::call_result::GenericStatusResponse;

    open spec fn wrap_spec(&self, payload: crate::v16::call_result::GenericStatusResponse) -> ResultPayload {
        ResultPayload::PossibleStatusResponse(StatusResponses::StatusResponse(payload))
    }

    fn get_response(&self, unique_id: String, payload: crate::v16::call_result::GenericStatusResponse) -> (m: Message) {
        Message::CallResult(CallResult::new(unique_id, ResultPayload::PossibleStatusResponse(StatusResponses::StatusResponse(payload))))
    }
}

impl Response for call::DiagnosticsStatusNotification {
    type ResponseType = crate::v16::call_result::EmptyResponse;

    open spec fn wrap_spec(&self, payload: crate::v16::call_result::EmptyResponse) -> ResultPayload {
        ResultPayload::PossibleEmptyResponse(EmptyResponses::EmptyResponse(payload))
    }

    fn get_response(&self, unique_id: String, payload: crate::v16::call_result::EmptyResponse) -> (m: Message) {
        Message::CallResult(CallResult::new(unique_id, ResultPayload::PossibleEmptyResponse(EmptyResponses::EmptyResponse(payload))))
    }
}

impl Response for call::ExtendedTriggerMessage {
    type ResponseType = crate::v16::call_result::GenericStatusResponse;

    open spec fn wrap_spec(&self, payload: crate::v16::call_result::GenericStatusResponse) -> ResultPayload {
        ResultPayload::PossibleStatusResponse(StatusResponses::StatusResponse(payload))
    }

    fn get_response(&self, unique_id: String, payload: crate::v16::call_result::GenericStatusResponse) -> (m: Message) {
        Message::CallResult(CallResult::new(unique_id, ResultPayload::PossibleStatusResponse(StatusResponses::StatusResponse(payload))))
    }
}

impl Response for call::FirmwareStatusNotification {
    type ResponseType = crate::v16::call_result::EmptyResponse;

    open spec fn wrap_spec(&self, payload: crate::v16::call_result::EmptyResponse) -> ResultPayload {
        ResultPayload::PossibleEmptyResponse(EmptyResponses::EmptyResponse(payload))
    }

    fn get_response(&self, unique_id: String, payload: crate::v16::call_result::EmptyResponse) -> (m: Message) {
        Message::CallResult(CallResult::new(unique_id, ResultPayload::PossibleEmptyResponse(EmptyResponses::EmptyResponse(payload))))
    }
}

impl Response for call::GetCompositeSchedule {
    type ResponseType = crate::v16::call_result::GetCompositeSchedule;

    open spec fn wrap_spec(&self, payload: crate::v16::call_result::GetCompositeSchedule) -> ResultPayload {
        ResultPayload::PossibleStatusResponse(StatusResponses::GetCompositeSchedule(payload))
    }

    fn get_response(&self, unique_id: String, payload: crate::v16::call_result::GetCompositeSchedule) -> (m: Message) {
        Message::CallResult(CallResult::new(unique_id, ResultPayload::PossibleStatusResponse(StatusResponses::GetCompositeSchedule(payload))))
    }
}

impl Response for call::GetConfiguration {
    type ResponseType = crate::v16::call_result::GetConfiguration;

    open spec fn wrap_spec(&self, payload: crate::v16::call_result::GetConfiguration) -> ResultPayload {
        ResultPayload::PossibleEmptyResponse(EmptyResponses::GetConfiguration(payload))
    }

    fn get_response(&self, unique_id: String, payload: crate::v16::call_result::GetConfiguration) -> (m: Message) {
        Message::CallResult(CallResult::new(unique_id, ResultPayload::PossibleEmptyResponse(EmptyResponses::GetConfiguration(payload))))
    }
}

impl Response for call::GetDiagnostics {
    type ResponseType = crate::v16::call_result::GetDiagnostics;

    open spec fn wrap_spec(&self, payload: crate::v16::call_result::GetDiagnostics) -> ResultPayload {
        ResultPayload::PossibleEmptyResponse(EmptyResponses::GetDiagnostics(payload))
    }

    fn get_response(&self, unique_id: String, payload: crate::v16::call_result::GetDiagnostics) -> (m: Message) {
        Message::CallResult(CallResult::new(unique_id, ResultPayload::PossibleEmptyResponse(EmptyResponses::GetDiagnostics(payload))))
    }
}

impl Response for call::GetInstalledCertificateIds {
    type ResponseType = crate::v16::call_result::GetInstalledCertificateIds;

    open spec fn wrap_spec(&self, payload: crate::v16::call_result::GetInstalledCertificateIds) -> ResultPayload {
        ResultPayload::PossibleStatusResponse(StatusResponses::GetInstalledCertificateIds(payload))
    }

    fn get_response(&self, unique_id: String, payload: crate::v16::call_result::GetInstalledCertificateIds) -> (m: Message) {
        Message::CallResult(CallResult::new(unique_id, ResultPayload::PossibleStatusResponse(StatusResponses::GetInstalledCertificateIds(payload))))
    }
}

impl Response for call::GetLocalListVersion {
    type ResponseType = crate::v16::call_result::GetLocalListVersion;

    open spec fn wrap_spec(&self, payload: crate::v16::call_result::GetLocalListVersion) -> ResultPayload {
        ResultPayload::GetLocalListVersion(payload)
    }

    fn get_response(&self, unique_id: String, payload: crate::v16::call_result::GetLocalListVersion) -> (m: Message) {
        Message::CallResult(CallResult::new(unique_id, ResultPayload::GetLocalListVersion(payload)))
    }
}

impl Response for call::GetLog {
    type ResponseType = crate::v16::call_result::GetLog;

    open spec fn wrap_spec(&self, payload: crate::v16::call_result::GetLog) -> ResultPayload {
        ResultPayload::PossibleStatusResponse(StatusResponses::GetLog(payload))
    }

    fn get_response(&self, unique_id: String, payload: crate::v16::call_result::GetLog) -> (m: Message) {
        Message::CallResult(CallResult::new(unique_id, ResultPayload::PossibleStatusResponse(StatusResponses::GetLog(payload))))
    }
}

impl Response for call::Heartbeat {
    type ResponseType = crate::v16::call_result::Heartbeat;

    open spec fn wrap_spec(&self, payload: crate::v16::call_result::Heartbeat) -> ResultPayload {
        ResultPayload::Heartbeat(payload)
    }

    fn get_response(&self, unique_id: String, payload: crate::v16::call_result::Heartbeat) -> (m: Message) {
        Message::CallResult(CallResult::new(unique_id, ResultPayload::Heartbeat(payload)))
    }
}

impl Response for call::InstallCertificate {
    type ResponseType = crate::v16::call_result::GenericStatusResponse;

    open spec fn wrap_spec(&self, payload: crate::v16::call_result::GenericStatusResponse) -> ResultPayload {
        ResultPayload::PossibleStatusResponse(StatusResponses::StatusResponse(payload))
    }

    fn get_response(&self, unique_id: String, payload: crate::v16::call_result::GenericStatusResponse) -> (m: Message) {
        Message::CallResult(CallResult::new(unique_id, ResultPayload::PossibleStatusResponse(StatusResponses::StatusResponse(payload))))
    }
}

impl Response for call::LogStatusNotification {
    type ResponseType = crate::v16::call_result::EmptyResponse;

    open spec fn wrap_spec(&self, payload: crate::v16::call_result::EmptyResponse) -> ResultPayload {
        ResultPayload::PossibleEmptyResponse(EmptyResponses::EmptyResponse(payload))
    }

    fn get_response(&self, unique_id: String, payload: crate::v16::call_result::EmptyResponse) -> (m: Message) {
        Message::CallResult(CallResult::new(unique_id, ResultPayload::PossibleEmptyResponse(EmptyResponses::EmptyResponse(payload))))
    }
}

impl Response for call::MeterValues {
    type ResponseType = crate::v16::call_result::EmptyResponse;

    open spec fn wrap_spec(&self, payload: crate::v16::call_result::EmptyResponse) -> ResultPayload {
        ResultPayload::PossibleEmptyResponse(EmptyResponses::EmptyResponse(payload))
    }

    fn get_response(&self, unique_id: String, payload: crate::v16::call_result::EmptyResponse) -> (m: Message) {
        Message::CallResult(CallResult::new(unique_id, ResultPayload::PossibleEmptyResponse(EmptyResponses::EmptyResponse(payload))))
    }
}

impl Response for call::RemoteStartTransaction {
    type ResponseType = crate::v16::call_result::GenericStatusResponse;

    open spec fn wrap_spec(&self, payload: crate::v16::call_result::GenericStatusResponse) -> ResultPayload {
        ResultPayload::PossibleStatusResponse(StatusResponses::StatusResponse(payload))
    }

    fn get_response(&self, unique_id: String, payload: crate::v16::call_result::GenericStatusResponse) -> (m: Message) {
        Message::CallResult(CallResult::new(unique_id, ResultPayload::PossibleStatusResponse(StatusResponses::StatusResponse(payload))))
    }
}

impl Response for call::RemoteStopTransaction {
    type ResponseType = crate::v16::call_result::GenericStatusResponse;

    open spec fn wrap_spec(&self, payload: crate::v16::call_result::GenericStatusResponse) -> ResultPayload {
        ResultPayload::PossibleStatusResponse(StatusResponses::StatusResponse(payload))
    }

    fn get_response(&self, unique_id: String, payload: crate::v16::call_result::GenericStatusResponse) -> (m: Message) {
        Message::CallResult(CallResult::new(unique_id, ResultPayload::PossibleStatusResponse(StatusResponses::StatusResponse(payload))))
    }
}

impl Response for call::ReserveNow {
    type ResponseType = crate::v16::call_result::GenericStatusResponse;

    open spec fn wrap_spec(&self, payload: crate::v16::call_result::GenericStatusResponse) -> ResultPayload {
        ResultPayload::PossibleStatusResponse(StatusResponses::StatusResponse(payload))
    }

    fn get_response(&self, unique_id: String, payload: crate::v16::call_result::GenericStatusResponse) -> (m: Message) {
        Message::CallResult(CallResult::new(unique_id, ResultPayload::PossibleStatusResponse(StatusResponses::StatusResponse(payload))))
    }
}

impl Response for call::Reset {
    type ResponseType = crate::v16::call_result::GenericStatusResponse;

    open spec fn wrap_spec(&self, payload: crate::v16::call_result::GenericStatusResponse) -> ResultPayload {
        ResultPayload::PossibleStatusResponse(StatusResponses::StatusResponse(payload))
    }

    fn get_response(&self, unique_id: String, payload: crate::v16::call_result::GenericStatusResponse) -> (m: Message) {
        Message::CallResult(CallResult::new(unique_id, ResultPayload::PossibleStatusResponse(StatusResponses::StatusResponse(payload))))
    }
}

impl Response for call::SecurityEventNotification {
    type ResponseType = crate::v16::call_result::EmptyResponse;

    open spec fn wrap_spec(&self, payload: crate::v16::call_result::EmptyResponse) -> ResultPayload {
        ResultPayload::PossibleEmptyResponse(EmptyResponses::EmptyResponse(payload))
    }

    fn get_response(&self, unique_id: String, payload: crate::v16::call_result::EmptyResponse) -> (m: Message) {
        Message::CallResult(CallResult::new(unique_id, ResultPayload::PossibleEmptyResponse(EmptyResponses::EmptyResponse(payload))))
    }
}

impl Response for call::SendLocalList {
    type ResponseType = crate::v16::call_result::GenericStatusResponse;

    open spec fn wrap_spec(&self, payload: crate::v16::call_result::GenericStatusResponse) -> ResultPayload {
        ResultPayload::PossibleStatusResponse(StatusResponses::StatusResponse(payload))
    }

    fn get_response(&self, unique_id: String, payload: crate::v16::call_result::GenericStatusResponse) -> (m: Message) {
        Message::CallResult(CallResult::new(unique_id, ResultPayload::PossibleStatusResponse(StatusResponses::StatusResponse(payload))))
    }
}

impl Response for call::SetChargingProfile {
    type ResponseType = crate::v16::call_result::GenericStatusResponse;

    open spec fn wrap_spec(&self, payload: crate::v16::call_result::GenericStatusResponse) -> ResultPayload {
        ResultPayload::PossibleStatusResponse(StatusResponses::StatusResponse(payload))
    }

    fn get_response(&self, unique_id: String, payload: crate::v16::call_result::GenericStatusResponse) -> (m: Message) {
        Message::CallResult(CallResult::new(unique_id, ResultPayload::PossibleStatusResponse(StatusResponses::StatusResponse(payload))))
    }
}

impl Response for call::SignCertificate {
    type ResponseType = crate::v16::call_result::GenericStatusResponse;

    open spec fn wrap_spec(&self, payload: crate::v16::call_result::GenericStatusResponse) -> ResultPayload {
        ResultPayload::PossibleStatusResponse(StatusResponses::StatusResponse(payload))
    }

    fn get_response(&self, unique_id: String, payload: crate::v16::call_result::GenericStatusResponse) -> (m: Message) {
        Message::CallResult(CallResult::new(unique_id, ResultPayload::PossibleStatusResponse(StatusResponses::StatusResponse(payload))))
    }
}

impl Response for call::SignedFirmwareStatusNotification {
    type ResponseType = crate::v16::call_result::EmptyResponse;

    open spec fn wrap_spec(&self, payload: crate::v16::call_result::EmptyResponse) -> ResultPayload {
        ResultPayload::PossibleEmptyResponse(EmptyResponses::EmptyResponse(payload))
    }

    fn get_response(&self, unique_id: String, payload: crate::v16::call_result::EmptyResponse) -> (m: Message) {
        Message::CallResult(CallResult::new(unique_id, ResultPayload::PossibleEmptyResponse(EmptyResponses::EmptyResponse(payload))))
    }
}

impl Response for call::SignedUpdateFirmware {
    type ResponseType = crate::v16::call_result::GenericStatusResponse;

    open spec fn wrap_spec(&self, payload: crate::v16::call_result::GenericStatusResponse) -> ResultPayload {
        ResultPayload::PossibleStatusResponse(StatusResponses::StatusResponse(payload))
    }

    fn get_response(&self, unique_id: String, payload: crate::v16::call_result::GenericStatusResponse) -> (m: Message) {
        Message::CallResult(CallResult::new(unique_id, ResultPayload::PossibleStatusResponse(StatusResponses::StatusResponse(payload))))
    }
}

impl Response for call::StartTransaction {
    type ResponseType = crate::v16::call_result::StartTransaction;

    open spec fn wrap_spec(&self, payload: crate::v16::call_result::StartTransaction) -> ResultPayload {
        ResultPayload::StartTransaction(payload)
    }

    fn get_response(&self, unique_id: String, payload: crate::v16::call_result::StartTransaction) -> (m: Message) {
        Message::CallResult(CallResult::new(unique_id, ResultPayload::StartTransaction(payload)))
    }
}

impl Response for call::StatusNotification {
    type ResponseType = crate::v16::call_result::EmptyResponse;

    open spec fn wrap_spec(&self, payload: crate::v16::call_result::EmptyResponse) -> ResultPayload {
        ResultPayload::PossibleEmptyResponse(EmptyResponses::EmptyResponse(payload))
    }

    fn get_response(&self, unique_id: String, payload: crate::v16::call_result::EmptyResponse) -> (m: Message) {
        Message::CallResult(CallResult::new(unique_id, ResultPayload::PossibleEmptyResponse(EmptyResponses::EmptyResponse(payload))))
    }
}

impl Response for call::StopTransaction {
    type ResponseType = crate::v16::call_result::GenericIdTagInfo;

    open spec fn wrap_spec(&self, payload: crate::v16::call_result::GenericIdTagInfo) -> ResultPayload {
        ResultPayload::PossibleEmptyResponse(EmptyResponses::GenericIdTagInfoResponse(payload))
    }

    fn get_response(&self, unique_id: String, payload: crate::v16::call_result::GenericIdTagInfo) -> (m: Message) {
        Message::CallResult(CallResult::new(unique_id, ResultPayload::PossibleEmptyResponse(EmptyResponses::GenericIdTagInfoResponse(payload))))
    }
}

impl Response for call::TriggerMessage {
    type ResponseType = crate::v16::call_result::GenericStatusResponse;

    open spec fn wrap_spec(&self, payload: crate::v16::call_result::GenericStatusResponse) -> ResultPayload {
        ResultPayload::PossibleStatusResponse(StatusResponses::StatusResponse(payload))
    }

    fn get_response(&self, unique_id: String, payload: crate::v16::call_result::GenericStatusResponse) -> (m: Message) {
        Message::CallResult(CallResult::new(unique_id, ResultPayload::PossibleStatusResponse(StatusResponses::StatusResponse(payload))))
    }
}

impl Response for call::UnlockConnector {
    type ResponseType = crate::v16::call_result::GenericStatusResponse;

    open spec fn wrap_spec(&self, payload: crate::v16::call_result::GenericStatusResponse) -> ResultPayload {
        ResultPayload::PossibleStatusResponse(StatusResponses::StatusResponse(payload))
    }

    fn get_response(&self, unique_id: String, payload: crate::v16::call_result::GenericStatusResponse) -> (m: Message) {
        Message::CallResult(CallResult::new(unique_id, ResultPayload::PossibleStatusResponse(StatusResponses::StatusResponse(payload))))
    }
}

impl Response for call::UpdateFirmware {
    type ResponseType = crate::v16::call_result::EmptyResponse;

    open spec fn wrap_spec(&self, payload: crate::v16::call_result::EmptyResponse) -> ResultPayload {
        ResultPayload::PossibleEmptyResponse(EmptyResponses::EmptyResponse(payload))
    }

    fn get_response(&self, unique_id: String, payload: crate::v16::call_result::EmptyResponse) -> (m: Message) {
        Message::CallResult(CallResult::new(unique_id, ResultPayload::PossibleEmptyResponse(EmptyResponses::EmptyResponse(payload))))
    }
}

} // verus!
