//! The enumerated code lists of the protocol.
//!
//! An enum that appears in a wire shape carries its wire names: `wire_spec`
//! gives the name a value takes on the wire, `from_wire_spec` reads one back,
//! and the executable `wire_name` / `from_wire` are proved against them.

use vstd::prelude::*;

use crate::chars::str_eq_str;

verus! {

use vstd::string::StringExecFns;

/// Outcome of an authorization request.
#[derive(Debug, PartialEq, Eq, Clone, Default)]
pub enum AuthorizationStatus {
    #[default]
    Accepted,
    Blocked,
    Expired,
    Invalid,
    ConcurrentTx,
}

/// Outcome of a change-availability request.
#[derive(Debug, PartialEq, Eq, Clone, Default)]
pub enum AvailabilityStatus {
    #[default]
    Accepted,
    Rejected,
    Scheduled,
}

/// Requested availability of a connector.
#[derive(Debug, PartialEq, Eq, Clone, Default)]
pub enum AvailabilityType {
    Inoperative,
    #[default]
    Operative,
}

impl AvailabilityType {
    /// The name of this value on the wire.
    pub open spec fn wire_spec(&self) -> Seq<char> {
        match self {
            AvailabilityType::Inoperative => "Inoperative"@,
            AvailabilityType::Operative => "Operative"@,
        }
    }

    /// The value a wire name stands for, if any.
    pub open spec fn from_wire_spec(s: Seq<char>) -> Option<AvailabilityType> {
        if s == "Inoperative"@ {
            Some(AvailabilityType::Inoperative)
        } else if s == "Operative"@ {
            Some(AvailabilityType::Operative)
        } else {
            None
        }
    }

    pub fn wire_name(&self) -> (r: String)
        ensures
            r@ == self.wire_spec(),
    {
        match self {
            AvailabilityType::Inoperative => String::from_str("Inoperative"),
            AvailabilityType::Operative => String::from_str("Operative"),
        }
    }

    pub fn from_wire(s: &str) -> (r: Option<AvailabilityType>)
        ensures
            r == Self::from_wire_spec(s@),
    {
        if str_eq_str(s, "Inoperative") {
            Some(AvailabilityType::Inoperative)
        } else if str_eq_str(s, "Operative") {
            Some(AvailabilityType::Operative)
        } else {
            None
        }
    }
}

/// Outcome of a cancel-reservation request.
#[derive(Debug, PartialEq, Eq, Clone, Default)]
pub enum CancelReservationStatus {
    #[default]
    Accepted,
    Rejected,
}

/// Outcome of installing a signed certificate.
#[derive(Debug, PartialEq, Eq, Clone, Default)]
pub enum CertificateSignedStatus {
    #[default]
    Accepted,
    Rejected,
}

/// Outcome of installing a certificate.
#[derive(Debug, PartialEq, Eq, Clone, Default)]
pub enum CertificateStatus {
    #[default]
    Accepted,
    Rejected,
    Failed,
}

/// Which certificate store an operation concerns.
#[derive(Debug, PartialEq, Eq, Clone, Default)]
pub enum CertificateUse {
    #[default]
    CentralSystemRootCertificate,
    ManufacturerRootCertificate,
}

impl CertificateUse {
    /// The name of this value on the wire.
    pub open spec fn wire_spec(&self) -> Seq<char> {
        match self {
            CertificateUse::CentralSystemRootCertificate => "CentralSystemRootCertificate"@,
            CertificateUse::ManufacturerRootCertificate => "ManufacturerRootCertificate"@,
        }
    }

    /// The value a wire name stands for, if any.
    pub open spec fn from_wire_spec(s: Seq<char>) -> Option<CertificateUse> {
        if s == "CentralSystemRootCertificate"@ {
            Some(CertificateUse::CentralSystemRootCertificate)
        } else if s == "ManufacturerRootCertificate"@ {
            Some(CertificateUse::ManufacturerRootCertificate)
        } else {
            None
        }
    }

    pub fn wire_name(&self) -> (r: String)
        ensures
            r@ == self.wire_spec(),
    {
        match self {
            CertificateUse::CentralSystemRootCertificate => String::from_str("CentralSystemRootCertificate"),
            CertificateUse::ManufacturerRootCertificate => String::from_str("ManufacturerRootCertificate"),
        }
    }

    pub fn from_wire(s: &str) -> (r: Option<CertificateUse>)
        ensures
            r == Self::from_wire_spec(s@),
    {
        if str_eq_str(s, "CentralSystemRootCertificate") {
            Some(CertificateUse::CentralSystemRootCertificate)
        } else if str_eq_str(s, "ManufacturerRootCertificate") {
            Some(CertificateUse::ManufacturerRootCertificate)
        } else {
            None
        }
    }
}

/// Error reported in a status notification.
#[derive(Debug, PartialEq, Eq, Clone, Default)]
pub enum ChargePointErrorCode {
    ConnectorLockFailure,
    EVCommunicationError,
    GroundFailure,
    HighTemperature,
    InternalError,
    LocalListConflict,
    #[default]
    NoError,
    OtherError,
    OverCurrentFailure,
    OverVoltage,
    PowerMeterFailure,
    PowerSwitchFailure,
    ReaderFailure,
    ResetFailure,
    UnderVoltage,
    WeakSignal,
}

impl ChargePointErrorCode {
    /// The name of this value on the wire.
    pub open spec fn wire_spec(&self) -> Seq<char> {
        match self {
            ChargePointErrorCode::ConnectorLockFailure => "ConnectorLockFailure"@,
            ChargePointErrorCode::EVCommunicationError => "EVCommunicationError"@,
            ChargePointErrorCode::GroundFailure => "GroundFailure"@,
            ChargePointErrorCode::HighTemperature => "HighTemperature"@,
            ChargePointErrorCode::InternalError => "InternalError"@,
            ChargePointErrorCode::LocalListConflict => "LocalListConflict"@,
            ChargePointErrorCode::NoError => "NoError"@,
            ChargePointErrorCode::OtherError => "OtherError"@,
            ChargePointErrorCode::OverCurrentFailure => "OverCurrentFailure"@,
            ChargePointErrorCode::OverVoltage => "OverVoltage"@,
            ChargePointErrorCode::PowerMeterFailure => "PowerMeterFailure"@,
            ChargePointErrorCode::PowerSwitchFailure => "PowerSwitchFailure"@,
            ChargePointErrorCode::ReaderFailure => "ReaderFailure"@,
            ChargePointErrorCode::ResetFailure => "ResetFailure"@,
            ChargePointErrorCode::UnderVoltage => "UnderVoltage"@,
            ChargePointErrorCode::WeakSignal => "WeakSignal"@,
        }
    }

    /// The value a wire name stands for, if any.
    pub open spec fn from_wire_spec(s: Seq<char>) -> Option<ChargePointErrorCode> {
        if s == "ConnectorLockFailure"@ {
            Some(ChargePointErrorCode::ConnectorLockFailure)
        } else if s == "EVCommunicationError"@ {
            Some(ChargePointErrorCode::EVCommunicationError)
        } else if s == "GroundFailure"@ {
            Some(ChargePointErrorCode::GroundFailure)
        } else if s == "HighTemperature"@ {
            Some(ChargePointErrorCode::HighTemperature)
        } else if s == "InternalError"@ {
            Some(ChargePointErrorCode::InternalError)
        } else if s == "LocalListConflict"@ {
            Some(ChargePointErrorCode::LocalListConflict)
        } else if s == "NoError"@ {
            Some(ChargePointErrorCode::NoError)
        } else if s == "OtherError"@ {
            Some(ChargePointErrorCode::OtherError)
        } else if s == "OverCurrentFailure"@ {
            Some(ChargePointErrorCode::OverCurrentFailure)
        } else if s == "OverVoltage"@ {
            Some(ChargePointErrorCode::OverVoltage)
        } else if s == "PowerMeterFailure"@ {
            Some(ChargePointErrorCode::PowerMeterFailure)
        } else if s == "PowerSwitchFailure"@ {
            Some(ChargePointErrorCode::PowerSwitchFailure)
        } else if s == "ReaderFailure"@ {
            Some(ChargePointErrorCode::ReaderFailure)
        } else if s == "ResetFailure"@ {
            Some(ChargePointErrorCode::ResetFailure)
        } else if s == "UnderVoltage"@ {
            Some(ChargePointErrorCode::UnderVoltage)
        } else if s == "WeakSignal"@ {
            Some(ChargePointErrorCode::WeakSignal)
        } else {
            None
        }
    }

    pub fn wire_name(&self) -> (r: String)
        ensures
            r@ == self.wire_spec(),
    {
        match self {
            ChargePointErrorCode::ConnectorLockFailure => String::from_str("ConnectorLockFailure"),
            ChargePointErrorCode::EVCommunicationError => String::from_str("EVCommunicationError"),
            ChargePointErrorCode::GroundFailure => String::from_str("GroundFailure"),
            ChargePointErrorCode::HighTemperature => String::from_str("HighTemperature"),
            ChargePointErrorCode::InternalError => String::from_str("InternalError"),
            ChargePointErrorCode::LocalListConflict => String::from_str("LocalListConflict"),
            ChargePointErrorCode::NoError => String::from_str("NoError"),
            ChargePointErrorCode::OtherError => String::from_str("OtherError"),
            ChargePointErrorCode::OverCurrentFailure => String::from_str("OverCurrentFailure"),
            ChargePointErrorCode::OverVoltage => String::from_str("OverVoltage"),
            ChargePointErrorCode::PowerMeterFailure => String::from_str("PowerMeterFailure"),
            ChargePointErrorCode::PowerSwitchFailure => String::from_str("PowerSwitchFailure"),
            ChargePointErrorCode::ReaderFailure => String::from_str("ReaderFailure"),
            ChargePointErrorCode::ResetFailure => String::from_str("ResetFailure"),
            ChargePointErrorCode::UnderVoltage => String::from_str("UnderVoltage"),
            ChargePointErrorCode::WeakSignal => String::from_str("WeakSignal"),
        }
    }

    pub fn from_wire(s: &str) -> (r: Option<ChargePointErrorCode>)
        ensures
            r == Self::from_wire_spec(s@),
    {
        if str_eq_str(s, "ConnectorLockFailure") {
            Some(ChargePointErrorCode::ConnectorLockFailure)
        } else if str_eq_str(s, "EVCommunicationError") {
            Some(ChargePointErrorCode::EVCommunicationError)
        } else if str_eq_str(s, "GroundFailure") {
            Some(ChargePointErrorCode::GroundFailure)
        } else if str_eq_str(s, "HighTemperature") {
            Some(ChargePointErrorCode::HighTemperature)
        } else if str_eq_str(s, "InternalError") {
            Some(ChargePointErrorCode::InternalError)
        } else if str_eq_str(s, "LocalListConflict") {
            Some(ChargePointErrorCode::LocalListConflict)
        } else if str_eq_str(s, "NoError") {
            Some(ChargePointErrorCode::NoError)
        } else if str_eq_str(s, "OtherError") {
            Some(ChargePointErrorCode::OtherError)
        } else if str_eq_str(s, "OverCurrentFailure") {
            Some(ChargePointErrorCode::OverCurrentFailure)
        } else if str_eq_str(s, "OverVoltage") {
            Some(ChargePointErrorCode::OverVoltage)
        } else if str_eq_str(s, "PowerMeterFailure") {
            Some(ChargePointErrorCode::PowerMeterFailure)
        } else if str_eq_str(s, "PowerSwitchFailure") {
            Some(ChargePointErrorCode::PowerSwitchFailure)
        } else if str_eq_str(s, "ReaderFailure") {
            Some(ChargePointErrorCode::ReaderFailure)
        } else if str_eq_str(s, "ResetFailure") {
            Some(ChargePointErrorCode::ResetFailure)
        } else if str_eq_str(s, "UnderVoltage") {
            Some(ChargePointErrorCode::UnderVoltage)
        } else if str_eq_str(s, "WeakSignal") {
            Some(ChargePointErrorCode::WeakSignal)
        } else {
            None
        }
    }
}

/// Connector status reported in a status notification.
#[derive(Debug, PartialEq, Eq, Clone, Default)]
pub enum ChargePointStatus {
    #[default]
    Available,
    Preparing,
    Charging,
    SuspendedEVSE,
    SuspendedEV,
    Finishing,
    Reserved,
    Unavailable,
    Faulted,
}

impl ChargePointStatus {
    /// The name of this value on the wire.
    pub open spec fn wire_spec(&self) -> Seq<char> {
        match self {
            ChargePointStatus::Available => "Available"@,
            ChargePointStatus::Preparing => "Preparing"@,
            ChargePointStatus::Charging => "Charging"@,
            ChargePointStatus::SuspendedEVSE => "SuspendedEVSE"@,
            ChargePointStatus::SuspendedEV => "SuspendedEV"@,
            ChargePointStatus::Finishing => "Finishing"@,
            ChargePointStatus::Reserved => "Reserved"@,
            ChargePointStatus::Unavailable => "Unavailable"@,
            ChargePointStatus::Faulted => "Faulted"@,
        }
    }

    /// The value a wire name stands for, if any.
    pub open spec fn from_wire_spec(s: Seq<char>) -> Option<ChargePointStatus> {
        if s == "Available"@ {
            Some(ChargePointStatus::Available)
        } else if s == "Preparing"@ {
            Some(ChargePointStatus::Preparing)
        } else if s == "Charging"@ {
            Some(ChargePointStatus::Charging)
        } else if s == "SuspendedEVSE"@ {
            Some(ChargePointStatus::SuspendedEVSE)
        } else if s == "SuspendedEV"@ {
            Some(ChargePointStatus::SuspendedEV)
        } else if s == "Finishing"@ {
            Some(ChargePointStatus::Finishing)
        } else if s == "Reserved"@ {
            Some(ChargePointStatus::Reserved)
        } else if s == "Unavailable"@ {
            Some(ChargePointStatus::Unavailable)
        } else if s == "Faulted"@ {
            Some(ChargePointStatus::Faulted)
        } else {
            None
        }
    }

    pub fn wire_name(&self) -> (r: String)
        ensures
            r@ == self.wire_spec(),
    {
        match self {
            ChargePointStatus::Available => String::from_str("Available"),
            ChargePointStatus::Preparing => String::from_str("Preparing"),
            ChargePointStatus::Charging => String::from_str("Charging"),
            ChargePointStatus::SuspendedEVSE => String::from_str("SuspendedEVSE"),
            ChargePointStatus::SuspendedEV => String::from_str("SuspendedEV"),
            ChargePointStatus::Finishing => String::from_str("Finishing"),
            ChargePointStatus::Reserved => String::from_str("Reserved"),
            ChargePointStatus::Unavailable => String::from_str("Unavailable"),
            ChargePointStatus::Faulted => String::from_str("Faulted"),
        }
    }

    pub fn from_wire(s: &str) -> (r: Option<ChargePointStatus>)
        ensures
            r == Self::from_wire_spec(s@),
    {
        if str_eq_str(s, "Available") {
            Some(ChargePointStatus::Available)
        } else if str_eq_str(s, "Preparing") {
            Some(ChargePointStatus::Preparing)
        } else if str_eq_str(s, "Charging") {
            Some(ChargePointStatus::Charging)
        } else if str_eq_str(s, "SuspendedEVSE") {
            Some(ChargePointStatus::SuspendedEVSE)
        } else if str_eq_str(s, "SuspendedEV") {
            Some(ChargePointStatus::SuspendedEV)
        } else if str_eq_str(s, "Finishing") {
            Some(ChargePointStatus::Finishing)
        } else if str_eq_str(s, "Reserved") {
            Some(ChargePointStatus::Reserved)
        } else if str_eq_str(s, "Unavailable") {
            Some(ChargePointStatus::Unavailable)
        } else if str_eq_str(s, "Faulted") {
            Some(ChargePointStatus::Faulted)
        } else {
            None
        }
    }
}

/// How a charging schedule is anchored in time.
#[derive(Debug, PartialEq, Eq, Clone, Default)]
pub enum ChargingProfileKindType {
    #[default]
    Absolute,
    Recurring,
    Relative,
}

/// Purpose of a charging profile.
#[derive(Debug, PartialEq, Eq, Clone, Default)]
pub enum ChargingProfilePurposeType {
    #[default]
    ChargePointMaxProfile,
    TxDefaultProfile,
    TxProfile,
}

impl ChargingProfilePurposeType {
    /// The name of this value on the wire.
    pub open spec fn wire_spec(&self) -> Seq<char> {
        match self {
            ChargingProfilePurposeType::ChargePointMaxProfile => "ChargePointMaxProfile"@,
            ChargingProfilePurposeType::TxDefaultProfile => "TxDefaultProfile"@,
            ChargingProfilePurposeType::TxProfile => "TxProfile"@,
        }
    }

    /// The value a wire name stands for, if any.
    pub open spec fn from_wire_spec(s: Seq<char>) -> Option<ChargingProfilePurposeType> {
        if s == "ChargePointMaxProfile"@ {
            Some(ChargingProfilePurposeType::ChargePointMaxProfile)
        } else if s == "TxDefaultProfile"@ {
            Some(ChargingProfilePurposeType::TxDefaultProfile)
        } else if s == "TxProfile"@ {
            Some(ChargingProfilePurposeType::TxProfile)
        } else {
            None
        }
    }

    pub fn wire_name(&self) -> (r: String)
        ensures
            r@ == self.wire_spec(),
    {
        match self {
            ChargingProfilePurposeType::ChargePointMaxProfile => String::from_str("ChargePointMaxProfile"),
            ChargingProfilePurposeType::TxDefaultProfile => String::from_str("TxDefaultProfile"),
            ChargingProfilePurposeType::TxProfile => String::from_str("TxProfile"),
        }
    }

    pub fn from_wire(s: &str) -> (r: Option<ChargingProfilePurposeType>)
        ensures
            r == Self::from_wire_spec(s@),
    {
        if str_eq_str(s, "ChargePointMaxProfile") {
            Some(ChargingProfilePurposeType::ChargePointMaxProfile)
        } else if str_eq_str(s, "TxDefaultProfile") {
            Some(ChargingProfilePurposeType::TxDefaultProfile)
        } else if str_eq_str(s, "TxProfile") {
            Some(ChargingProfilePurposeType::TxProfile)
        } else {
            None
        }
    }
}

/// Outcome of setting a charging profile.
#[derive(Debug, PartialEq, Eq, Clone, Default)]
pub enum ChargingProfileStatus {
    #[default]
    Accepted,
    Rejected,
    NotSupported,
}

/// Unit in which a charging rate is expressed.
#[derive(Debug, PartialEq, Eq, Clone, Default)]
pub enum ChargingRateUnitType {
    #[default]
    W,
    A,
}

impl ChargingRateUnitType {
    /// The name of this value on the wire.
    pub open spec fn wire_spec(&self) -> Seq<char> {
        match self {
            ChargingRateUnitType::W => "W"@,
            ChargingRateUnitType::A => "A"@,
        }
    }

    /// The value a wire name stands for, if any.
    pub open spec fn from_wire_spec(s: Seq<char>) -> Option<ChargingRateUnitType> {
        if s == "W"@ {
            Some(ChargingRateUnitType::W)
        } else if s == "A"@ {
            Some(ChargingRateUnitType::A)
        } else {
            None
        }
    }

    pub fn wire_name(&self) -> (r: String)
        ensures
            r@ == self.wire_spec(),
    {
        match self {
            ChargingRateUnitType::W => String::from_str("W"),
            ChargingRateUnitType::A => String::from_str("A"),
        }
    }

    pub fn from_wire(s: &str) -> (r: Option<ChargingRateUnitType>)
        ensures
            r == Self::from_wire_spec(s@),
    {
        if str_eq_str(s, "W") {
            Some(ChargingRateUnitType::W)
        } else if str_eq_str(s, "A") {
            Some(ChargingRateUnitType::A)
        } else {
            None
        }
    }
}

/// Outcome of a clear-cache request.
#[derive(Debug, PartialEq, Eq, Clone, Default)]
pub enum ClearCacheStatus {
    #[default]
    Accepted,
    Rejected,
}

/// Outcome of clearing charging profiles.
#[derive(Debug, PartialEq, Eq, Clone, Default)]
pub enum ClearChargingProfileStatus {
    #[default]
    Accepted,
    Unknown,
}

/// Outcome of a change-configuration request.
#[derive(Debug, PartialEq, Eq, Clone, Default)]
pub enum ConfigurationStatus {
    #[default]
    Accepted,
    Rejected,
    RebootRequired,
    NotSupported,
}

/// Outcome of a data-transfer request.
#[derive(Debug, PartialEq, Eq, Clone, Default)]
pub enum DataTransferStatus {
    #[default]
    Accepted,
    Rejected,
    UnknownMessageId,
    UnknownVendorId,
}

/// Outcome of deleting a certificate.
#[derive(Debug, PartialEq, Eq, Clone, Default)]
pub enum DeleteCertificateStatus {
    #[default]
    Accepted,
    Failed,
    NotFound,
}

/// Progress of a diagnostics upload.
#[derive(Debug, PartialEq, Eq, Clone, Default)]
pub enum DiagnosticsStatus {
    #[default]
    Idle,
    Uploaded,
    UploadFailed,
    Uploading,
}

impl DiagnosticsStatus {
    /// The name of this value on the wire.
    pub open spec fn wire_spec(&self) -> Seq<char> {
        match self {
            DiagnosticsStatus::Idle => "Idle"@,
            DiagnosticsStatus::Uploaded => "Uploaded"@,
            DiagnosticsStatus::UploadFailed => "UploadFailed"@,
            DiagnosticsStatus::Uploading => "Uploading"@,
        }
    }

    /// The value a wire name stands for, if any.
    pub open spec fn from_wire_spec(s: Seq<char>) -> Option<DiagnosticsStatus> {
        if s == "Idle"@ {
            Some(DiagnosticsStatus::Idle)
        } else if s == "Uploaded"@ {
            Some(DiagnosticsStatus::Uploaded)
        } else if s == "UploadFailed"@ {
            Some(DiagnosticsStatus::UploadFailed)
        } else if s == "Uploading"@ {
            Some(DiagnosticsStatus::Uploading)
        } else {
            None
        }
    }

    pub fn wire_name(&self) -> (r: String)
        ensures
            r@ == self.wire_spec(),
    {
        match self {
            DiagnosticsStatus::Idle => String::from_str("Idle"),
            DiagnosticsStatus::Uploaded => String::from_str("Uploaded"),
            DiagnosticsStatus::UploadFailed => String::from_str("UploadFailed"),
            DiagnosticsStatus::Uploading => String::from_str("Uploading"),
        }
    }

    pub fn from_wire(s: &str) -> (r: Option<DiagnosticsStatus>)
        ensures
            r == Self::from_wire_spec(s@),
    {
        if str_eq_str(s, "Idle") {
            Some(DiagnosticsStatus::Idle)
        } else if str_eq_str(s, "Uploaded") {
            Some(DiagnosticsStatus::Uploaded)
        } else if str_eq_str(s, "UploadFailed") {
            Some(DiagnosticsStatus::UploadFailed)
        } else if str_eq_str(s, "Uploading") {
            Some(DiagnosticsStatus::Uploading)
        } else {
            None
        }
    }
}

/// Progress of a firmware update.
#[derive(Debug, PartialEq, Eq, Clone, Default)]
pub enum FirmwareStatus {
    Downloaded,
    DownloadFailed,
    Downloading,
    #[default]
    Idle,
    InstallationFailed,
    Installing,
    Installed,
}

impl FirmwareStatus {
    /// The name of this value on the wire.
    pub open spec fn wire_spec(&self) -> Seq<char> {
        match self {
            FirmwareStatus::Downloaded => "Downloaded"@,
            FirmwareStatus::DownloadFailed => "DownloadFailed"@,
            FirmwareStatus::Downloading => "Downloading"@,
            FirmwareStatus::Idle => "Idle"@,
            FirmwareStatus::InstallationFailed => "InstallationFailed"@,
            FirmwareStatus::Installing => "Installing"@,
            FirmwareStatus::Installed => "Installed"@,
        }
    }

    /// The value a wire name stands for, if any.
    pub open spec fn from_wire_spec(s: Seq<char>) -> Option<FirmwareStatus> {
        if s == "Downloaded"@ {
            Some(FirmwareStatus::Downloaded)
        } else if s == "DownloadFailed"@ {
            Some(FirmwareStatus::DownloadFailed)
        } else if s == "Downloading"@ {
            Some(FirmwareStatus::Downloading)
        } else if s == "Idle"@ {
            Some(FirmwareStatus::Idle)
        } else if s == "InstallationFailed"@ {
            Some(FirmwareStatus::InstallationFailed)
        } else if s == "Installing"@ {
            Some(FirmwareStatus::Installing)
        } else if s == "Installed"@ {
            Some(FirmwareStatus::Installed)
        } else {
            None
        }
    }

    pub fn wire_name(&self) -> (r: String)
        ensures
            r@ == self.wire_spec(),
    {
        match self {
            FirmwareStatus::Downloaded => String::from_str("Downloaded"),
            FirmwareStatus::DownloadFailed => String::from_str("DownloadFailed"),
            FirmwareStatus::Downloading => String::from_str("Downloading"),
            FirmwareStatus::Idle => String::from_str("Idle"),
            FirmwareStatus::InstallationFailed => String::from_str("InstallationFailed"),
            FirmwareStatus::Installing => String::from_str("Installing"),
            FirmwareStatus::Installed => String::from_str("Installed"),
        }
    }

    pub fn from_wire(s: &str) -> (r: Option<FirmwareStatus>)
        ensures
            r == Self::from_wire_spec(s@),
    {
        if str_eq_str(s, "Downloaded") {
            Some(FirmwareStatus::Downloaded)
        } else if str_eq_str(s, "DownloadFailed") {
            Some(FirmwareStatus::DownloadFailed)
        } else if str_eq_str(s, "Downloading") {
            Some(FirmwareStatus::Downloading)
        } else if str_eq_str(s, "Idle") {
            Some(FirmwareStatus::Idle)
        } else if str_eq_str(s, "InstallationFailed") {
            Some(FirmwareStatus::InstallationFailed)
        } else if str_eq_str(s, "Installing") {
            Some(FirmwareStatus::Installing)
        } else if str_eq_str(s, "Installed") {
            Some(FirmwareStatus::Installed)
        } else {
            None
        }
    }
}

/// A plain accepted-or-rejected outcome.
#[derive(Debug, PartialEq, Eq, Clone, Default)]
pub enum GenericStatus {
    #[default]
    Accepted,
    Rejected,
}

/// Outcome of a composite-schedule request.
#[derive(Debug, PartialEq, Eq, Clone, Default)]
pub enum GetCompositeScheduleStatus {
    #[default]
    Accepted,
    Rejected,
}

/// Outcome of listing installed certificates.
#[derive(Debug, PartialEq, Eq, Clone, Default)]
pub enum GetInstalledCertificateStatus {
    #[default]
    Accepted,
    NotFound,
}

/// Hash algorithm of certificate hash data.
#[derive(Debug, PartialEq, Eq, Clone)]
pub enum HashAlgorithm {
    SHA256,
    SHA384,
    SHA512,
}

/// Where a sampled value was measured.
#[derive(Debug, PartialEq, Eq, Clone, Default)]
pub enum Location {
    #[default]
    Body,
    Cable,
    Ev,
    Inlet,
    Outlet,
}

impl Location {
    /// The name of this value on the wire.
    pub open spec fn wire_spec(&self) -> Seq<char> {
        match self {
            Location::Body => "Body"@,
            Location::Cable => "Cable"@,
            Location::Ev => "EV"@,
            Location::Inlet => "Inlet"@,
            Location::Outlet => "Outlet"@,
        }
    }

    /// The value a wire name stands for, if any.
    pub open spec fn from_wire_spec(s: Seq<char>) -> Option<Location> {
        if s == "Body"@ {
            Some(Location::Body)
        } else if s == "Cable"@ {
            Some(Location::Cable)
        } else if s == "EV"@ {
            Some(Location::Ev)
        } else if s == "Inlet"@ {
            Some(Location::Inlet)
        } else if s == "Outlet"@ {
            Some(Location::Outlet)
        } else {
            None
        }
    }

    pub fn wire_name(&self) -> (r: String)
        ensures
            r@ == self.wire_spec(),
    {
        match self {
            Location::Body => String::from_str("Body"),
            Location::Cable => String::from_str("Cable"),
            Location::Ev => String::from_str("EV"),
            Location::Inlet => String::from_str("Inlet"),
            Location::Outlet => String::from_str("Outlet"),
        }
    }

    pub fn from_wire(s: &str) -> (r: Option<Location>)
        ensures
            r == Self::from_wire_spec(s@),
    {
        if str_eq_str(s, "Body") {
            Some(Location::Body)
        } else if str_eq_str(s, "Cable") {
            Some(Location::Cable)
        } else if str_eq_str(s, "EV") {
            Some(Location::Ev)
        } else if str_eq_str(s, "Inlet") {
            Some(Location::Inlet)
        } else if str_eq_str(s, "Outlet") {
            Some(Location::Outlet)
        } else {
            None
        }
    }
}

/// Which log a log request concerns.
#[derive(Debug, PartialEq, Eq, Clone, Default)]
pub enum Log {
    #[default]
    DiagnosticsLog,
    SecurityLog,
}

impl Log {
    /// The name of this value on the wire.
    pub open spec fn wire_spec(&self) -> Seq<char> {
        match self {
            Log::DiagnosticsLog => "DiagnosticsLog"@,
            Log::SecurityLog => "SecurityLog"@,
        }
    }

    /// The value a wire name stands for, if any.
    pub open spec fn from_wire_spec(s: Seq<char>) -> Option<Log> {
        if s == "DiagnosticsLog"@ {
            Some(Log::DiagnosticsLog)
        } else if s == "SecurityLog"@ {
            Some(Log::SecurityLog)
        } else {
            None
        }
    }

    pub fn wire_name(&self) -> (r: String)
        ensures
            r@ == self.wire_spec(),
    {
        match self {
            Log::DiagnosticsLog => String::from_str("DiagnosticsLog"),
            Log::SecurityLog => String::from_str("SecurityLog"),
        }
    }

    pub fn from_wire(s: &str) -> (r: Option<Log>)
        ensures
            r == Self::from_wire_spec(s@),
    {
        if str_eq_str(s, "DiagnosticsLog") {
            Some(Log::DiagnosticsLog)
        } else if str_eq_str(s, "SecurityLog") {
            Some(Log::SecurityLog)
        } else {
            None
        }
    }
}

/// Outcome of a log request.
#[derive(Debug, PartialEq, Eq, Clone, Default)]
pub enum LogStatus {
    #[default]
    Accepted,
    Rejected,
    AcceptedCanceled,
}

/// Quantity a sampled value measures.
#[derive(Debug, PartialEq, Eq, Clone, Default)]
pub enum Measurand {
    #[default]
    CurrentExport,
    CurrentImport,
    CurrentOffered,
    EnergyActiveExportRegister,
    EnergyActiveImportRegister,
    EnergyReactiveExportRegister,
    EnergyReactiveImportRegister,
    EnergyActiveExportInterval,
    EnergyActiveImportInterval,
    EnergyReactiveExportInterval,
    EnergyReactiveImportInterval,
    Frequency,
    PowerActiveExport,
    PowerActiveImport,
    PowerFactor,
    PowerOffered,
    PowerReactiveExport,
    PowerReactiveImport,
    Rpm,
    SoC,
    Temperature,
    Voltage,
}

impl Measurand {
    /// The name of this value on the wire.
    pub open spec fn wire_spec(&self) -> Seq<char> {
        match self {
            Measurand::CurrentExport => "Current.Export"@,
            Measurand::CurrentImport => "Current.Import"@,
            Measurand::CurrentOffered => "Current.Offered"@,
            Measurand::EnergyActiveExportRegister => "Energy.Active.Export.Register"@,
            Measurand::EnergyActiveImportRegister => "Energy.Active.Import.Register"@,
            Measurand::EnergyReactiveExportRegister => "Energy.Reactive.Export.Register"@,
            Measurand::EnergyReactiveImportRegister => "Energy.Reactive.Import.Register"@,
            Measurand::EnergyActiveExportInterval => "Energy.Active.Export.Interval"@,
            Measurand::EnergyActiveImportInterval => "Energy.Active.Import.Interval"@,
            Measurand::EnergyReactiveExportInterval => "Energy.Reactive.Export.Interval"@,
            Measurand::EnergyReactiveImportInterval => "Energy.Reactive.Import.Interval"@,
            Measurand::Frequency => "Frequency"@,
            Measurand::PowerActiveExport => "Power.Active.Export"@,
            Measurand::PowerActiveImport => "Power.Active.Import"@,
            Measurand::PowerFactor => "Power.Factor"@,
            Measurand::PowerOffered => "Power.Offered"@,
            Measurand::PowerReactiveExport => "Power.Reactive.Export"@,
            Measurand::PowerReactiveImport => "Power.Reactive.Import"@,
            Measurand::Rpm => "RPM"@,
            Measurand::SoC => "SoC"@,
            Measurand::Temperature => "Temperature"@,
            Measurand::Voltage => "Voltage"@,
        }
    }

    /// The value a wire name stands for, if any.
    pub open spec fn from_wire_spec(s: Seq<char>) -> Option<Measurand> {
        if s == "Current.Export"@ {
            Some(Measurand::CurrentExport)
        } else if s == "Current.Import"@ {
            Some(Measurand::CurrentImport)
        } else if s == "Current.Offered"@ {
            Some(Measurand::CurrentOffered)
        } else if s == "Energy.Active.Export.Register"@ {
            Some(Measurand::EnergyActiveExportRegister)
        } else if s == "Energy.Active.Import.Register"@ {
            Some(Measurand::EnergyActiveImportRegister)
        } else if s == "Energy.Reactive.Export.Register"@ {
            Some(Measurand::EnergyReactiveExportRegister)
        } else if s == "Energy.Reactive.Import.Register"@ {
            Some(Measurand::EnergyReactiveImportRegister)
        } else if s == "Energy.Active.Export.Interval"@ {
            Some(Measurand::EnergyActiveExportInterval)
        } else if s == "Energy.Active.Import.Interval"@ {
            Some(Measurand::EnergyActiveImportInterval)
        } else if s == "Energy.Reactive.Export.Interval"@ {
            Some(Measurand::EnergyReactiveExportInterval)
        } else if s == "Energy.Reactive.Import.Interval"@ {
            Some(Measurand::EnergyReactiveImportInterval)
        } else if s == "Frequency"@ {
            Some(Measurand::Frequency)
        } else if s == "Power.Active.Export"@ {
            Some(Measurand::PowerActiveExport)
        } else if s == "Power.Active.Import"@ {
            Some(Measurand::PowerActiveImport)
        } else if s == "Power.Factor"@ {
            Some(Measurand::PowerFactor)
        } else if s == "Power.Offered"@ {
            Some(Measurand::PowerOffered)
        } else if s == "Power.Reactive.Export"@ {
            Some(Measurand::PowerReactiveExport)
        } else if s == "Power.Reactive.Import"@ {
            Some(Measurand::PowerReactiveImport)
        } else if s == "RPM"@ {
            Some(Measurand::Rpm)
        } else if s == "SoC"@ {
            Some(Measurand::SoC)
        } else if s == "Temperature"@ {
            Some(Measurand::Temperature)
        } else if s == "Voltage"@ {
            Some(Measurand::Voltage)
        } else {
            None
        }
    }

    pub fn wire_name(&self) -> (r: String)
        ensures
            r@ == self.wire_spec(),
    {
        match self {
            Measurand::CurrentExport => String::from_str("Current.Export"),
            Measurand::CurrentImport => String::from_str("Current.Import"),
            Measurand::CurrentOffered => String::from_str("Current.Offered"),
            Measurand::EnergyActiveExportRegister => String::from_str("Energy.Active.Export.Register"),
            Measurand::EnergyActiveImportRegister => String::from_str("Energy.Active.Import.Register"),
            Measurand::EnergyReactiveExportRegister => String::from_str("Energy.Reactive.Export.Register"),
            Measurand::EnergyReactiveImportRegister => String::from_str("Energy.Reactive.Import.Register"),
            Measurand::EnergyActiveExportInterval => String::from_str("Energy.Active.Export.Interval"),
            Measurand::EnergyActiveImportInterval => String::from_str("Energy.Active.Import.Interval"),
            Measurand::EnergyReactiveExportInterval => String::from_str("Energy.Reactive.Export.Interval"),
            Measurand::EnergyReactiveImportInterval => String::from_str("Energy.Reactive.Import.Interval"),
            Measurand::Frequency => String::from_str("Frequency"),
            Measurand::PowerActiveExport => String::from_str("Power.Active.Export"),
            Measurand::PowerActiveImport => String::from_str("Power.Active.Import"),
            Measurand::PowerFactor => String::from_str("Power.Factor"),
            Measurand::PowerOffered => String::from_str("Power.Offered"),
            Measurand::PowerReactiveExport => String::from_str("Power.Reactive.Export"),
            Measurand::PowerReactiveImport => String::from_str("Power.Reactive.Import"),
            Measurand::Rpm => String::from_str("RPM"),
            Measurand::SoC => String::from_str("SoC"),
            Measurand::Temperature => String::from_str("Temperature"),
            Measurand::Voltage => String::from_str("Voltage"),
        }
    }

    pub fn from_wire(s: &str) -> (r: Option<Measurand>)
        ensures
            r == Self::from_wire_spec(s@),
    {
        if str_eq_str(s, "Current.Export") {
            Some(Measurand::CurrentExport)
        } else if str_eq_str(s, "Current.Import") {
            Some(Measurand::CurrentImport)
        } else if str_eq_str(s, "Current.Offered") {
            Some(Measurand::CurrentOffered)
        } else if str_eq_str(s, "Energy.Active.Export.Register") {
            Some(Measurand::EnergyActiveExportRegister)
        } else if str_eq_str(s, "Energy.Active.Import.Register") {
            Some(Measurand::EnergyActiveImportRegister)
        } else if str_eq_str(s, "Energy.Reactive.Export.Register") {
            Some(Measurand::EnergyReactiveExportRegister)
        } else if str_eq_str(s, "Energy.Reactive.Import.Register") {
            Some(Measurand::EnergyReactiveImportRegister)
        } else if str_eq_str(s, "Energy.Active.Export.Interval") {
            Some(Measurand::EnergyActiveExportInterval)
        } else if str_eq_str(s, "Energy.Active.Import.Interval") {
            Some(Measurand::EnergyActiveImportInterval)
        } else if str_eq_str(s, "Energy.Reactive.Export.Interval") {
            Some(Measurand::EnergyReactiveExportInterval)
        } else if str_eq_str(s, "Energy.Reactive.Import.Interval") {
            Some(Measurand::EnergyReactiveImportInterval)
        } else if str_eq_str(s, "Frequency") {
            Some(Measurand::Frequency)
        } else if str_eq_str(s, "Power.Active.Export") {
            Some(Measurand::PowerActiveExport)
        } else if str_eq_str(s, "Power.Active.Import") {
            Some(Measurand::PowerActiveImport)
        } else if str_eq_str(s, "Power.Factor") {
            Some(Measurand::PowerFactor)
        } else if str_eq_str(s, "Power.Offered") {
            Some(Measurand::PowerOffered)
        } else if str_eq_str(s, "Power.Reactive.Export") {
            Some(Measurand::PowerReactiveExport)
        } else if str_eq_str(s, "Power.Reactive.Import") {
            Some(Measurand::PowerReactiveImport)
        } else if str_eq_str(s, "RPM") {
            Some(Measurand::Rpm)
        } else if str_eq_str(s, "SoC") {
            Some(Measurand::SoC)
        } else if str_eq_str(s, "Temperature") {
            Some(Measurand::Temperature)
        } else if str_eq_str(s, "Voltage") {
            Some(Measurand::Voltage)
        } else {
            None
        }
    }
}

/// Which request a trigger message asks for.
#[derive(Debug, PartialEq, Eq, Clone, Default)]
pub enum MessageTrigger {
    #[default]
    BootNotification,
    DiagnosticsStatusNotification,
    FirmwareStatusNotification,
    Heartbeat,
    MeterValues,
    StatusNotification,
}

impl MessageTrigger {
    /// The name of this value on the wire.
    pub open spec fn wire_spec(&self) -> Seq<char> {
        match self {
            MessageTrigger::BootNotification => "BootNotification"@,
            MessageTrigger::DiagnosticsStatusNotification => "DiagnosticsStatusNotification"@,
            MessageTrigger::FirmwareStatusNotification => "FirmwareStatusNotification"@,
            MessageTrigger::Heartbeat => "Heartbeat"@,
            MessageTrigger::MeterValues => "MeterValues"@,
            MessageTrigger::StatusNotification => "StatusNotification"@,
        }
    }

    /// The value a wire name stands for, if any.
    pub open spec fn from_wire_spec(s: Seq<char>) -> Option<MessageTrigger> {
        if s == "BootNotification"@ {
            Some(MessageTrigger::BootNotification)
        } else if s == "DiagnosticsStatusNotification"@ {
            Some(MessageTrigger::DiagnosticsStatusNotification)
        } else if s == "FirmwareStatusNotification"@ {
            Some(MessageTrigger::FirmwareStatusNotification)
        } else if s == "Heartbeat"@ {
            Some(MessageTrigger::Heartbeat)
        } else if s == "MeterValues"@ {
            Some(MessageTrigger::MeterValues)
        } else if s == "StatusNotification"@ {
            Some(MessageTrigger::StatusNotification)
        } else {
            None
        }
    }

    pub fn wire_name(&self) -> (r: String)
        ensures
            r@ == self.wire_spec(),
    {
        match self {
            MessageTrigger::BootNotification => String::from_str("BootNotification"),
            MessageTrigger::DiagnosticsStatusNotification => String::from_str("DiagnosticsStatusNotification"),
            MessageTrigger::FirmwareStatusNotification => String::from_str("FirmwareStatusNotification"),
            MessageTrigger::Heartbeat => String::from_str("Heartbeat"),
            MessageTrigger::MeterValues => String::from_str("MeterValues"),
            MessageTrigger::StatusNotification => String::from_str("StatusNotification"),
        }
    }

    pub fn from_wire(s: &str) -> (r: Option<MessageTrigger>)
        ensures
            r == Self::from_wire_spec(s@),
    {
        if str_eq_str(s, "BootNotification") {
            Some(MessageTrigger::BootNotification)
        } else if str_eq_str(s, "DiagnosticsStatusNotification") {
            Some(MessageTrigger::DiagnosticsStatusNotification)
        } else if str_eq_str(s, "FirmwareStatusNotification") {
            Some(MessageTrigger::FirmwareStatusNotification)
        } else if str_eq_str(s, "Heartbeat") {
            Some(MessageTrigger::Heartbeat)
        } else if str_eq_str(s, "MeterValues") {
            Some(MessageTrigger::MeterValues)
        } else if str_eq_str(s, "StatusNotification") {
            Some(MessageTrigger::StatusNotification)
        } else {
            None
        }
    }
}

/// Powerline phase of a sampled value.
#[derive(Debug, PartialEq, Eq, Clone, Default)]
pub enum Phase {
    #[default]
    L1,
    L2,
    L3,
    N,
    L1N,
    L2N,
    L3N,
    L1L2,
    L2L3,
    L3L1,
}

impl Phase {
    /// The name of this value on the wire.
    pub open spec fn wire_spec(&self) -> Seq<char> {
        match self {
            Phase::L1 => "L1"@,
            Phase::L2 => "L2"@,
            Phase::L3 => "L3"@,
            Phase::N => "N"@,
            Phase::L1N => "L1-N"@,
            Phase::L2N => "L2-N"@,
            Phase::L3N => "L3-N"@,
            Phase::L1L2 => "L1-L2"@,
            Phase::L2L3 => "L2-L3"@,
            Phase::L3L1 => "L3-L1"@,
        }
    }

    /// The value a wire name stands for, if any.
    pub open spec fn from_wire_spec(s: Seq<char>) -> Option<Phase> {
        if s == "L1"@ {
            Some(Phase::L1)
        } else if s == "L2"@ {
            Some(Phase::L2)
        } else if s == "L3"@ {
            Some(Phase::L3)
        } else if s == "N"@ {
            Some(Phase::N)
        } else if s == "L1-N"@ {
            Some(Phase::L1N)
        } else if s == "L2-N"@ {
            Some(Phase::L2N)
        } else if s == "L3-N"@ {
            Some(Phase::L3N)
        } else if s == "L1-L2"@ {
            Some(Phase::L1L2)
        } else if s == "L2-L3"@ {
            Some(Phase::L2L3)
        } else if s == "L3-L1"@ {
            Some(Phase::L3L1)
        } else {
            None
        }
    }

    pub fn wire_name(&self) -> (r: String)
        ensures
            r@ == self.wire_spec(),
    {
        match self {
            Phase::L1 => String::from_str("L1"),
            Phase::L2 => String::from_str("L2"),
            Phase::L3 => String::from_str("L3"),
            Phase::N => String::from_str("N"),
            Phase::L1N => String::from_str("L1-N"),
            Phase::L2N => String::from_str("L2-N"),
            Phase::L3N => String::from_str("L3-N"),
            Phase::L1L2 => String::from_str("L1-L2"),
            Phase::L2L3 => String::from_str("L2-L3"),
            Phase::L3L1 => String::from_str("L3-L1"),
        }
    }

    pub fn from_wire(s: &str) -> (r: Option<Phase>)
        ensures
            r == Self::from_wire_spec(s@),
    {
        if str_eq_str(s, "L1") {
            Some(Phase::L1)
        } else if str_eq_str(s, "L2") {
            Some(Phase::L2)
        } else if str_eq_str(s, "L3") {
            Some(Phase::L3)
        } else if str_eq_str(s, "N") {
            Some(Phase::N)
        } else if str_eq_str(s, "L1-N") {
            Some(Phase::L1N)
        } else if str_eq_str(s, "L2-N") {
            Some(Phase::L2N)
        } else if str_eq_str(s, "L3-N") {
            Some(Phase::L3N)
        } else if str_eq_str(s, "L1-L2") {
            Some(Phase::L1L2)
        } else if str_eq_str(s, "L2-L3") {
            Some(Phase::L2L3)
        } else if str_eq_str(s, "L3-L1") {
            Some(Phase::L3L1)
        } else {
            None
        }
    }
}

/// Situation in which a sampled value was taken.
#[derive(Debug, PartialEq, Eq, Clone, Default)]
pub enum ReadingContext {
    InterruptionBegin,
    InterruptionEnd,
    #[default]
    Other,
    SampleClock,
    SamplePeriodic,
    TransactionBegin,
    TransactionEnd,
    Trigger,
}

impl ReadingContext {
    /// The name of this value on the wire.
    pub open spec fn wire_spec(&self) -> Seq<char> {
        match self {
            ReadingContext::InterruptionBegin => "Interruption.Begin"@,
            ReadingContext::InterruptionEnd => "Interruption.End"@,
            ReadingContext::Other => "Other"@,
            ReadingContext::SampleClock => "Sample.Clock"@,
            ReadingContext::SamplePeriodic => "Sample.Periodic"@,
            ReadingContext::TransactionBegin => "Transaction.Begin"@,
            ReadingContext::TransactionEnd => "Transaction.End"@,
            ReadingContext::Trigger => "Trigger"@,
        }
    }

    /// The value a wire name stands for, if any.
    pub open spec fn from_wire_spec(s: Seq<char>) -> Option<ReadingContext> {
        if s == "Interruption.Begin"@ {
            Some(ReadingContext::InterruptionBegin)
        } else if s == "Interruption.End"@ {
            Some(ReadingContext::InterruptionEnd)
        } else if s == "Other"@ {
            Some(ReadingContext::Other)
        } else if s == "Sample.Clock"@ {
            Some(ReadingContext::SampleClock)
        } else if s == "Sample.Periodic"@ {
            Some(ReadingContext::SamplePeriodic)
        } else if s == "Transaction.Begin"@ {
            Some(ReadingContext::TransactionBegin)
        } else if s == "Transaction.End"@ {
            Some(ReadingContext::TransactionEnd)
        } else if s == "Trigger"@ {
            Some(ReadingContext::Trigger)
        } else {
            None
        }
    }

    pub fn wire_name(&self) -> (r: String)
        ensures
            r@ == self.wire_spec(),
    {
        match self {
            ReadingContext::InterruptionBegin => String::from_str("Interruption.Begin"),
            ReadingContext::InterruptionEnd => String::from_str("Interruption.End"),
            ReadingContext::Other => String::from_str("Other"),
            ReadingContext::SampleClock => String::from_str("Sample.Clock"),
            ReadingContext::SamplePeriodic => String::from_str("Sample.Periodic"),
            ReadingContext::TransactionBegin => String::from_str("Transaction.Begin"),
            ReadingContext::TransactionEnd => String::from_str("Transaction.End"),
            ReadingContext::Trigger => String::from_str("Trigger"),
        }
    }

    pub fn from_wire(s: &str) -> (r: Option<ReadingContext>)
        ensures
            r == Self::from_wire_spec(s@),
    {
        if str_eq_str(s, "Interruption.Begin") {
            Some(ReadingContext::InterruptionBegin)
        } else if str_eq_str(s, "Interruption.End") {
            Some(ReadingContext::InterruptionEnd)
        } else if str_eq_str(s, "Other") {
            Some(ReadingContext::Other)
        } else if str_eq_str(s, "Sample.Clock") {
            Some(ReadingContext::SampleClock)
        } else if str_eq_str(s, "Sample.Periodic") {
            Some(ReadingContext::SamplePeriodic)
        } else if str_eq_str(s, "Transaction.Begin") {
            Some(ReadingContext::TransactionBegin)
        } else if str_eq_str(s, "Transaction.End") {
            Some(ReadingContext::TransactionEnd)
        } else if str_eq_str(s, "Trigger") {
            Some(ReadingContext::Trigger)
        } else {
            None
        }
    }
}

/// Why a transaction stopped.
#[derive(Debug, PartialEq, Eq, Clone, Copy, Default)]
pub enum Reason {
    DeAuthorized,
    EmergencyStop,
    EVDisconnected,
    HardReset,
    Local,
    #[default]
    Other,
    PowerLoss,
    Reboot,
    Remote,
    SoftReset,
    UnlockCommand,
}

impl Reason {
    /// The name of this value on the wire.
    pub open spec fn wire_spec(&self) -> Seq<char> {
        match self {
            Reason::DeAuthorized => "DeAuthorized"@,
            Reason::EmergencyStop => "EmergencyStop"@,
            Reason::EVDisconnected => "EVDisconnected"@,
            Reason::HardReset => "HardReset"@,
            Reason::Local => "Local"@,
            Reason::Other => "Other"@,
            Reason::PowerLoss => "PowerLoss"@,
            Reason::Reboot => "Reboot"@,
            Reason::Remote => "Remote"@,
            Reason::SoftReset => "SoftReset"@,
            Reason::UnlockCommand => "UnlockCommand"@,
        }
    }

    /// The value a wire name stands for, if any.
    pub open spec fn from_wire_spec(s: Seq<char>) -> Option<Reason> {
        if s == "DeAuthorized"@ {
            Some(Reason::DeAuthorized)
        } else if s == "EmergencyStop"@ {
            Some(Reason::EmergencyStop)
        } else if s == "EVDisconnected"@ {
            Some(Reason::EVDisconnected)
        } else if s == "HardReset"@ {
            Some(Reason::HardReset)
        } else if s == "Local"@ {
            Some(Reason::Local)
        } else if s == "Other"@ {
            Some(Reason::Other)
        } else if s == "PowerLoss"@ {
            Some(Reason::PowerLoss)
        } else if s == "Reboot"@ {
            Some(Reason::Reboot)
        } else if s == "Remote"@ {
            Some(Reason::Remote)
        } else if s == "SoftReset"@ {
            Some(Reason::SoftReset)
        } else if s == "UnlockCommand"@ {
            Some(Reason::UnlockCommand)
        } else {
            None
        }
    }

    pub fn wire_name(&self) -> (r: String)
        ensures
            r@ == self.wire_spec(),
    {
        match self {
            Reason::DeAuthorized => String::from_str("DeAuthorized"),
            Reason::EmergencyStop => String::from_str("EmergencyStop"),
            Reason::EVDisconnected => String::from_str("EVDisconnected"),
            Reason::HardReset => String::from_str("HardReset"),
            Reason::Local => String::from_str("Local"),
            Reason::Other => String::from_str("Other"),
            Reason::PowerLoss => String::from_str("PowerLoss"),
            Reason::Reboot => String::from_str("Reboot"),
            Reason::Remote => String::from_str("Remote"),
            Reason::SoftReset => String::from_str("SoftReset"),
            Reason::UnlockCommand => String::from_str("UnlockCommand"),
        }
    }

    pub fn from_wire(s: &str) -> (r: Option<Reason>)
        ensures
            r == Self::from_wire_spec(s@),
    {
        if str_eq_str(s, "DeAuthorized") {
            Some(Reason::DeAuthorized)
        } else if str_eq_str(s, "EmergencyStop") {
            Some(Reason::EmergencyStop)
        } else if str_eq_str(s, "EVDisconnected") {
            Some(Reason::EVDisconnected)
        } else if str_eq_str(s, "HardReset") {
            Some(Reason::HardReset)
        } else if str_eq_str(s, "Local") {
            Some(Reason::Local)
        } else if str_eq_str(s, "Other") {
            Some(Reason::Other)
        } else if str_eq_str(s, "PowerLoss") {
            Some(Reason::PowerLoss)
        } else if str_eq_str(s, "Reboot") {
            Some(Reason::Reboot)
        } else if str_eq_str(s, "Remote") {
            Some(Reason::Remote)
        } else if str_eq_str(s, "SoftReset") {
            Some(Reason::SoftReset)
        } else if str_eq_str(s, "UnlockCommand") {
            Some(Reason::UnlockCommand)
        } else {
            None
        }
    }
}

/// Recurrence of a charging schedule.
#[derive(Debug, PartialEq, Eq, Clone, Default)]
pub enum RecurrencyKind {
    #[default]
    Daily,
    Weekly,
}

/// Outcome of a boot notification.
#[derive(Debug, PartialEq, Eq, Clone, Default)]
pub enum RegistrationStatus {
    #[default]
    Accepted,
    Pending,
    Rejected,
}

/// Outcome of a remote start or stop request.
#[derive(Debug, PartialEq, Eq, Clone, Default)]
pub enum RemoteStartStopStatus {
    #[default]
    Accepted,
    Rejected,
}

/// Outcome of a reservation request.
#[derive(Debug, PartialEq, Eq, Clone, Default)]
pub enum ReservationStatus {
    #[default]
    Accepted,
    Faulted,
    Occupied,
    Rejected,
    Unavailable,
}

/// Outcome of a reset request.
#[derive(Debug, PartialEq, Eq, Clone, Default)]
pub enum ResetStatus {
    #[default]
    Accepted,
    Rejected,
}

/// Kind of reset requested.
#[derive(Debug, PartialEq, Eq, Clone, Default)]
pub enum ResetType {
    Hard,
    #[default]
    Soft,
}

impl ResetType {
    /// The name of this value on the wire.
    pub open spec fn wire_spec(&self) -> Seq<char> {
        match self {
            ResetType::Hard => "Hard"@,
            ResetType::Soft => "Soft"@,
        }
    }

    /// The value a wire name stands for, if any.
    pub open spec fn from_wire_spec(s: Seq<char>) -> Option<ResetType> {
        if s == "Hard"@ {
            Some(ResetType::Hard)
        } else if s == "Soft"@ {
            Some(ResetType::Soft)
        } else {
            None
        }
    }

    pub fn wire_name(&self) -> (r: String)
        ensures
            r@ == self.wire_spec(),
    {
        match self {
            ResetType::Hard => String::from_str("Hard"),
            ResetType::Soft => String::from_str("Soft"),
        }
    }

    pub fn from_wire(s: &str) -> (r: Option<ResetType>)
        ensures
            r == Self::from_wire_spec(s@),
    {
        if str_eq_str(s, "Hard") {
            Some(ResetType::Hard)
        } else if str_eq_str(s, "Soft") {
            Some(ResetType::Soft)
        } else {
            None
        }
    }
}

/// Outcome of a trigger-message request.
#[derive(Debug, PartialEq, Eq, Clone, Default)]
pub enum TriggerMessageStatus {
    #[default]
    Accepted,
    Rejected,
    NotImplemented,
}

/// Unit of a sampled value.
#[derive(Debug, PartialEq, Eq, Clone, Default)]
pub enum UnitOfMeasure {
    Wh,
    #[default]
    KWh,
    Varh,
    Kvarh,
    W,
    Kw,
    Va,
    Kva,
    Var,
    Kvar,
    A,
    V,
    Celsius,
    Fahrenheit,
    K,
    Percent,
}

impl UnitOfMeasure {
    /// The name of this value on the wire.
    pub open spec fn wire_spec(&self) -> Seq<char> {
        match self {
            UnitOfMeasure::Wh => "Wh"@,
            UnitOfMeasure::KWh => "kWh"@,
            UnitOfMeasure::Varh => "varh"@,
            UnitOfMeasure::Kvarh => "kvarh"@,
            UnitOfMeasure::W => "W"@,
            UnitOfMeasure::Kw => "kW"@,
            UnitOfMeasure::Va => "VA"@,
            UnitOfMeasure::Kva => "kVA"@,
            UnitOfMeasure::Var => "var"@,
            UnitOfMeasure::Kvar => "kvar"@,
            UnitOfMeasure::A => "A"@,
            UnitOfMeasure::V => "V"@,
            UnitOfMeasure::Celsius => "Celsius"@,
            UnitOfMeasure::Fahrenheit => "Fahrenheit"@,
            UnitOfMeasure::K => "K"@,
            UnitOfMeasure::Percent => "Percent"@,
        }
    }

    /// The value a wire name stands for, if any.
    pub open spec fn from_wire_spec(s: Seq<char>) -> Option<UnitOfMeasure> {
        if s == "Wh"@ {
            Some(UnitOfMeasure::Wh)
        } else if s == "kWh"@ {
            Some(UnitOfMeasure::KWh)
        } else if s == "varh"@ {
            Some(UnitOfMeasure::Varh)
        } else if s == "kvarh"@ {
            Some(UnitOfMeasure::Kvarh)
        } else if s == "W"@ {
            Some(UnitOfMeasure::W)
        } else if s == "kW"@ {
            Some(UnitOfMeasure::Kw)
        } else if s == "VA"@ {
            Some(UnitOfMeasure::Va)
        } else if s == "kVA"@ {
            Some(UnitOfMeasure::Kva)
        } else if s == "var"@ {
            Some(UnitOfMeasure::Var)
        } else if s == "kvar"@ {
            Some(UnitOfMeasure::Kvar)
        } else if s == "A"@ {
            Some(UnitOfMeasure::A)
        } else if s == "V"@ {
            Some(UnitOfMeasure::V)
        } else if s == "Celsius"@ {
            Some(UnitOfMeasure::Celsius)
        } else if s == "Fahrenheit"@ {
            Some(UnitOfMeasure::Fahrenheit)
        } else if s == "K"@ {
            Some(UnitOfMeasure::K)
        } else if s == "Percent"@ {
            Some(UnitOfMeasure::Percent)
        } else {
            None
        }
    }

    pub fn wire_name(&self) -> (r: String)
        ensures
            r@ == self.wire_spec(),
    {
        match self {
            UnitOfMeasure::Wh => String::from_str("Wh"),
            UnitOfMeasure::KWh => String::from_str("kWh"),
            UnitOfMeasure::Varh => String::from_str("varh"),
            UnitOfMeasure::Kvarh => String::from_str("kvarh"),
            UnitOfMeasure::W => String::from_str("W"),
            UnitOfMeasure::Kw => String::from_str("kW"),
            UnitOfMeasure::Va => String::from_str("VA"),
            UnitOfMeasure::Kva => String::from_str("kVA"),
            UnitOfMeasure::Var => String::from_str("var"),
            UnitOfMeasure::Kvar => String::from_str("kvar"),
            UnitOfMeasure::A => String::from_str("A"),
            UnitOfMeasure::V => String::from_str("V"),
            UnitOfMeasure::Celsius => String::from_str("Celsius"),
            UnitOfMeasure::Fahrenheit => String::from_str("Fahrenheit"),
            UnitOfMeasure::K => String::from_str("K"),
            UnitOfMeasure::Percent => String::from_str("Percent"),
        }
    }

    pub fn from_wire(s: &str) -> (r: Option<UnitOfMeasure>)
        ensures
            r == Self::from_wire_spec(s@),
    {
        if str_eq_str(s, "Wh") {
            Some(UnitOfMeasure::Wh)
        } else if str_eq_str(s, "kWh") {
            Some(UnitOfMeasure::KWh)
        } else if str_eq_str(s, "varh") {
            Some(UnitOfMeasure::Varh)
        } else if str_eq_str(s, "kvarh") {
            Some(UnitOfMeasure::Kvarh)
        } else if str_eq_str(s, "W") {
            Some(UnitOfMeasure::W)
        } else if str_eq_str(s, "kW") {
            Some(UnitOfMeasure::Kw)
        } else if str_eq_str(s, "VA") {
            Some(UnitOfMeasure::Va)
        } else if str_eq_str(s, "kVA") {
            Some(UnitOfMeasure::Kva)
        } else if str_eq_str(s, "var") {
            Some(UnitOfMeasure::Var)
        } else if str_eq_str(s, "kvar") {
            Some(UnitOfMeasure::Kvar)
        } else if str_eq_str(s, "A") {
            Some(UnitOfMeasure::A)
        } else if str_eq_str(s, "V") {
            Some(UnitOfMeasure::V)
        } else if str_eq_str(s, "Celsius") {
            Some(UnitOfMeasure::Celsius)
        } else if str_eq_str(s, "Fahrenheit") {
            Some(UnitOfMeasure::Fahrenheit)
        } else if str_eq_str(s, "K") {
            Some(UnitOfMeasure::K)
        } else if str_eq_str(s, "Percent") {
            Some(UnitOfMeasure::Percent)
        } else {
            None
        }
    }
}

/// Outcome of an unlock-connector request.
#[derive(Debug, PartialEq, Eq, Clone, Default)]
pub enum UnlockStatus {
    #[default]
    Unlocked,
    UnlockFailed,
    NotSupported,
}

/// Outcome of a signed firmware update request.
#[derive(Debug, PartialEq, Eq, Clone, Default)]
pub enum UpdateFirmwareStatus {
    #[default]
    Accepted,
    Rejected,
    AcceptedCanceled,
    InvalidCertificate,
    RevokedCertificate,
}

/// Progress of a log upload.
#[derive(Debug, PartialEq, Eq, Clone, Default)]
pub enum UploadLogStatus {
    BadMessage,
    #[default]
    Idle,
    NotSupportedOperation,
    PermissionDenied,
    Uploaded,
    UploadFailure,
    Uploading,
}

impl UploadLogStatus {
    /// The name of this value on the wire.
    pub open spec fn wire_spec(&self) -> Seq<char> {
        match self {
            UploadLogStatus::BadMessage => "BadMessage"@,
            UploadLogStatus::Idle => "Idle"@,
            UploadLogStatus::NotSupportedOperation => "NotSupportedOperation"@,
            UploadLogStatus::PermissionDenied => "PermissionDenied"@,
            UploadLogStatus::Uploaded => "Uploaded"@,
            UploadLogStatus::UploadFailure => "UploadFailure"@,
            UploadLogStatus::Uploading => "Uploading"@,
        }
    }

    /// The value a wire name stands for, if any.
    pub open spec fn from_wire_spec(s: Seq<char>) -> Option<UploadLogStatus> {
        if s == "BadMessage"@ {
            Some(UploadLogStatus::BadMessage)
        } else if s == "Idle"@ {
            Some(UploadLogStatus::Idle)
        } else if s == "NotSupportedOperation"@ {
            Some(UploadLogStatus::NotSupportedOperation)
        } else if s == "PermissionDenied"@ {
            Some(UploadLogStatus::PermissionDenied)
        } else if s == "Uploaded"@ {
            Some(UploadLogStatus::Uploaded)
        } else if s == "UploadFailure"@ {
            Some(UploadLogStatus::UploadFailure)
        } else if s == "Uploading"@ {
            Some(UploadLogStatus::Uploading)
        } else {
            None
        }
    }

    pub fn wire_name(&self) -> (r: String)
        ensures
            r@ == self.wire_spec(),
    {
        match self {
            UploadLogStatus::BadMessage => String::from_str("BadMessage"),
            UploadLogStatus::Idle => String::from_str("Idle"),
            UploadLogStatus::NotSupportedOperation => String::from_str("NotSupportedOperation"),
            UploadLogStatus::PermissionDenied => String::from_str("PermissionDenied"),
            UploadLogStatus::Uploaded => String::from_str("Uploaded"),
            UploadLogStatus::UploadFailure => String::from_str("UploadFailure"),
            UploadLogStatus::Uploading => String::from_str("Uploading"),
        }
    }

    pub fn from_wire(s: &str) -> (r: Option<UploadLogStatus>)
        ensures
            r == Self::from_wire_spec(s@),
    {
        if str_eq_str(s, "BadMessage") {
            Some(UploadLogStatus::BadMessage)
        } else if str_eq_str(s, "Idle") {
            Some(UploadLogStatus::Idle)
        } else if str_eq_str(s, "NotSupportedOperation") {
            Some(UploadLogStatus::NotSupportedOperation)
        } else if str_eq_str(s, "PermissionDenied") {
            Some(UploadLogStatus::PermissionDenied)
        } else if str_eq_str(s, "Uploaded") {
            Some(UploadLogStatus::Uploaded)
        } else if str_eq_str(s, "UploadFailure") {
            Some(UploadLogStatus::UploadFailure)
        } else if str_eq_str(s, "Uploading") {
            Some(UploadLogStatus::Uploading)
        } else {
            None
        }
    }
}

/// Outcome of a local-list update.
#[derive(Debug, PartialEq, Eq, Clone, Default)]
pub enum UpdateStatus {
    #[default]
    Accepted,
    Failed,
    NotSupported,
    VersionMismatch,
}

/// How a local-list update is applied.
#[derive(Debug, PartialEq, Eq, Clone, Default)]
pub enum UpdateType {
    Differential,
    #[default]
    Full,
}

impl UpdateType {
    /// The name of this value on the wire.
    pub open spec fn wire_spec(&self) -> Seq<char> {
        match self {
            UpdateType::Differential => "Differential"@,
            UpdateType::Full => "Full"@,
        }
    }

    /// The value a wire name stands for, if any.
    pub open spec fn from_wire_spec(s: Seq<char>) -> Option<UpdateType> {
        if s == "Differential"@ {
            Some(UpdateType::Differential)
        } else if s == "Full"@ {
            Some(UpdateType::Full)
        } else {
            None
        }
    }

    pub fn wire_name(&self) -> (r: String)
        ensures
            r@ == self.wire_spec(),
    {
        match self {
            UpdateType::Differential => String::from_str("Differential"),
            UpdateType::Full => String::from_str("Full"),
        }
    }

    pub fn from_wire(s: &str) -> (r: Option<UpdateType>)
        ensures
            r == Self::from_wire_spec(s@),
    {
        if str_eq_str(s, "Differential") {
            Some(UpdateType::Differential)
        } else if str_eq_str(s, "Full") {
            Some(UpdateType::Full)
        } else {
            None
        }
    }
}

/// Encoding of a sampled value.
#[derive(Debug, PartialEq, Eq, Clone, Default)]
pub enum ValueFormat {
    #[default]
    Raw,
    SignedData,
}

impl ValueFormat {
    /// The name of this value on the wire.
    pub open spec fn wire_spec(&self) -> Seq<char> {
        match self {
            ValueFormat::Raw => "Raw"@,
            ValueFormat::SignedData => "SignedData"@,
        }
    }

    /// The value a wire name stands for, if any.
    pub open spec fn from_wire_spec(s: Seq<char>) -> Option<ValueFormat> {
        if s == "Raw"@ {
            Some(ValueFormat::Raw)
        } else if s == "SignedData"@ {
            Some(ValueFormat::SignedData)
        } else {
            None
        }
    }

    pub fn wire_name(&self) -> (r: String)
        ensures
            r@ == self.wire_spec(),
    {
        match self {
            ValueFormat::Raw => String::from_str("Raw"),
            ValueFormat::SignedData => String::from_str("SignedData"),
        }
    }

    pub fn from_wire(s: &str) -> (r: Option<ValueFormat>)
        ensures
            r == Self::from_wire_spec(s@),
    {
        if str_eq_str(s, "Raw") {
            Some(ValueFormat::Raw)
        } else if str_eq_str(s, "SignedData") {
            Some(ValueFormat::SignedData)
        } else {
            None
        }
    }
}

/// The union of every status code a response can carry; response shapes with an untagged status field decode into this type.
#[derive(Debug, PartialEq, Eq, Clone, Default)]
pub enum ParsedGenericStatus {
    #[default]
    Accepted,
    AcceptedCanceled,
    BadMessage,
    Blocked,
    ConcurrentTx,
    Downloaded,
    DownloadFailed,
    Downloading,
    Expired,
    Failed,
    Faulted,
    Idle,
    InstallationFailed,
    Installing,
    Installed,
    Invalid,
    InvalidCertificate,
    NotFound,
    NotImplemented,
    NotSupported,
    NotSupportedOperation,
    Occupied,
    PermissionDenied,
    Pending,
    RebootRequired,
    Rejected,
    RevokedCertificate,
    Scheduled,
    Unavailable,
    Unknown,
    UnknownMessageId,
    UnknownVendorId,
    Unlocked,
    UnlockFailed,
    Uploaded,
    UploadFailed,
    UploadFailure,
    Uploading,
    VersionMismatch,
}

impl ParsedGenericStatus {
    /// The name of this value on the wire.
    pub open spec fn wire_spec(&self) -> Seq<char> {
        match self {
            ParsedGenericStatus::Accepted => "Accepted"@,
            ParsedGenericStatus::AcceptedCanceled => "AcceptedCanceled"@,
            ParsedGenericStatus::BadMessage => "BadMessage"@,
            ParsedGenericStatus::Blocked => "Blocked"@,
            ParsedGenericStatus::ConcurrentTx => "ConcurrentTx"@,
            ParsedGenericStatus::Downloaded => "Downloaded"@,
            ParsedGenericStatus::DownloadFailed => "DownloadFailed"@,
            ParsedGenericStatus::Downloading => "Downloading"@,
            ParsedGenericStatus::Expired => "Expired"@,
            ParsedGenericStatus::Failed => "Failed"@,
            ParsedGenericStatus::Faulted => "Faulted"@,
            ParsedGenericStatus::Idle => "Idle"@,
            ParsedGenericStatus::InstallationFailed => "InstallationFailed"@,
            ParsedGenericStatus::Installing => "Installing"@,
            ParsedGenericStatus::Installed => "Installed"@,
            ParsedGenericStatus::Invalid => "Invalid"@,
            ParsedGenericStatus::InvalidCertificate => "InvalidCertificate"@,
            ParsedGenericStatus::NotFound => "NotFound"@,
            ParsedGenericStatus::NotImplemented => "NotImplemented"@,
            ParsedGenericStatus::NotSupported => "NotSupported"@,
            ParsedGenericStatus::NotSupportedOperation => "NotSupportedOperation"@,
            ParsedGenericStatus::Occupied => "Occupied"@,
            ParsedGenericStatus::PermissionDenied => "PermissionDenied"@,
            ParsedGenericStatus::Pending => "Pending"@,
            ParsedGenericStatus::RebootRequired => "RebootRequired"@,
            ParsedGenericStatus::Rejected => "Rejected"@,
            ParsedGenericStatus::RevokedCertificate => "RevokedCertificate"@,
            ParsedGenericStatus::Scheduled => "Scheduled"@,
            ParsedGenericStatus::Unavailable => "Unavailable"@,
            ParsedGenericStatus::Unknown => "Unknown"@,
            ParsedGenericStatus::UnknownMessageId => "UnknownMessageId"@,
            ParsedGenericStatus::UnknownVendorId => "UnknownVendorId"@,
            ParsedGenericStatus::Unlocked => "Unlocked"@,
            ParsedGenericStatus::UnlockFailed => "UnlockFailed"@,
            ParsedGenericStatus::Uploaded => "Uploaded"@,
            ParsedGenericStatus::UploadFailed => "UploadFailed"@,
            ParsedGenericStatus::UploadFailure => "UploadFailure"@,
            ParsedGenericStatus::Uploading => "Uploading"@,
            ParsedGenericStatus::VersionMismatch => "VersionMismatch"@,
        }
    }

    /// The value a wire name stands for, if any.
    pub open spec fn from_wire_spec(s: Seq<char>) -> Option<ParsedGenericStatus> {
        if s == "Accepted"@ {
            Some(ParsedGenericStatus::Accepted)
        } else if s == "AcceptedCanceled"@ {
            Some(ParsedGenericStatus::AcceptedCanceled)
        } else if s == "BadMessage"@ {
            Some(ParsedGenericStatus::BadMessage)
        } else if s == "Blocked"@ {
            Some(ParsedGenericStatus::Blocked)
        } else if s == "ConcurrentTx"@ {
            Some(ParsedGenericStatus::ConcurrentTx)
        } else if s == "Downloaded"@ {
            Some(ParsedGenericStatus::Downloaded)
        } else if s == "DownloadFailed"@ {
            Some(ParsedGenericStatus::DownloadFailed)
        } else if s == "Downloading"@ {
            Some(ParsedGenericStatus::Downloading)
        } else if s == "Expired"@ {
            Some(ParsedGenericStatus::Expired)
        } else if s == "Failed"@ {
            Some(ParsedGenericStatus::Failed)
        } else if s == "Faulted"@ {
            Some(ParsedGenericStatus::Faulted)
        } else if s == "Idle"@ {
            Some(ParsedGenericStatus::Idle)
        } else if s == "InstallationFailed"@ {
            Some(ParsedGenericStatus::InstallationFailed)
        } else if s == "Installing"@ {
            Some(ParsedGenericStatus::Installing)
        } else if s == "Installed"@ {
            Some(ParsedGenericStatus::Installed)
        } else if s == "Invalid"@ {
            Some(ParsedGenericStatus::Invalid)
        } else if s == "InvalidCertificate"@ {
            Some(ParsedGenericStatus::InvalidCertificate)
        } else if s == "NotFound"@ {
            Some(ParsedGenericStatus::NotFound)
        } else if s == "NotImplemented"@ {
            Some(ParsedGenericStatus::NotImplemented)
        } else if s == "NotSupported"@ {
            Some(ParsedGenericStatus::NotSupported)
        } else if s == "NotSupportedOperation"@ {
            Some(ParsedGenericStatus::NotSupportedOperation)
        } else if s == "Occupied"@ {
            Some(ParsedGenericStatus::Occupied)
        } else if s == "PermissionDenied"@ {
            Some(ParsedGenericStatus::PermissionDenied)
        } else if s == "Pending"@ {
            Some(ParsedGenericStatus::Pending)
        } else if s == "RebootRequired"@ {
            Some(ParsedGenericStatus::RebootRequired)
        } else if s == "Rejected"@ {
            Some(ParsedGenericStatus::Rejected)
        } else if s == "RevokedCertificate"@ {
            Some(ParsedGenericStatus::RevokedCertificate)
        } else if s == "Scheduled"@ {
            Some(ParsedGenericStatus::Scheduled)
        } else if s == "Unavailable"@ {
            Some(ParsedGenericStatus::Unavailable)
        } else if s == "Unknown"@ {
            Some(ParsedGenericStatus::Unknown)
        } else if s == "UnknownMessageId"@ {
            Some(ParsedGenericStatus::UnknownMessageId)
        } else if s == "UnknownVendorId"@ {
            Some(ParsedGenericStatus::UnknownVendorId)
        } else if s == "Unlocked"@ {
            Some(ParsedGenericStatus::Unlocked)
        } else if s == "UnlockFailed"@ {
            Some(ParsedGenericStatus::UnlockFailed)
        } else if s == "Uploaded"@ {
            Some(ParsedGenericStatus::Uploaded)
        } else if s == "UploadFailed"@ {
            Some(ParsedGenericStatus::UploadFailed)
        } else if s == "UploadFailure"@ {
            Some(ParsedGenericStatus::UploadFailure)
        } else if s == "Uploading"@ {
            Some(ParsedGenericStatus::Uploading)
        } else if s == "VersionMismatch"@ {
            Some(ParsedGenericStatus::VersionMismatch)
        } else {
            None
        }
    }

    pub fn wire_name(&self) -> (r: String)
        ensures
            r@ == self.wire_spec(),
    {
        match self {
            ParsedGenericStatus::Accepted => String::from_str("Accepted"),
            ParsedGenericStatus::AcceptedCanceled => String::from_str("AcceptedCanceled"),
            ParsedGenericStatus::BadMessage => String::from_str("BadMessage"),
            ParsedGenericStatus::Blocked => String::from_str("Blocked"),
            ParsedGenericStatus::ConcurrentTx => String::from_str("ConcurrentTx"),
            ParsedGenericStatus::Downloaded => String::from_str("Downloaded"),
            ParsedGenericStatus::DownloadFailed => String::from_str("DownloadFailed"),
            ParsedGenericStatus::Downloading => String::from_str("Downloading"),
            ParsedGenericStatus::Expired => String::from_str("Expired"),
            ParsedGenericStatus::Failed => String::from_str("Failed"),
            ParsedGenericStatus::Faulted => String::from_str("Faulted"),
            ParsedGenericStatus::Idle => String::from_str("Idle"),
            ParsedGenericStatus::InstallationFailed => String::from_str("InstallationFailed"),
            ParsedGenericStatus::Installing => String::from_str("Installing"),
            ParsedGenericStatus::Installed => String::from_str("Installed"),
            ParsedGenericStatus::Invalid => String::from_str("Invalid"),
            ParsedGenericStatus::InvalidCertificate => String::from_str("InvalidCertificate"),
            ParsedGenericStatus::NotFound => String::from_str("NotFound"),
            ParsedGenericStatus::NotImplemented => String::from_str("NotImplemented"),
            ParsedGenericStatus::NotSupported => String::from_str("NotSupported"),
            ParsedGenericStatus::NotSupportedOperation => String::from_str("NotSupportedOperation"),
            ParsedGenericStatus::Occupied => String::from_str("Occupied"),
            ParsedGenericStatus::PermissionDenied => String::from_str("PermissionDenied"),
            ParsedGenericStatus::Pending => String::from_str("Pending"),
            ParsedGenericStatus::RebootRequired => String::from_str("RebootRequired"),
            ParsedGenericStatus::Rejected => String::from_str("Rejected"),
            ParsedGenericStatus::RevokedCertificate => String::from_str("RevokedCertificate"),
            ParsedGenericStatus::Scheduled => String::from_str("Scheduled"),
            ParsedGenericStatus::Unavailable => String::from_str("Unavailable"),
            ParsedGenericStatus::Unknown => String::from_str("Unknown"),
            ParsedGenericStatus::UnknownMessageId => String::from_str("UnknownMessageId"),
            ParsedGenericStatus::UnknownVendorId => String::from_str("UnknownVendorId"),
            ParsedGenericStatus::Unlocked => String::from_str("Unlocked"),
            ParsedGenericStatus::UnlockFailed => String::from_str("UnlockFailed"),
            ParsedGenericStatus::Uploaded => String::from_str("Uploaded"),
            ParsedGenericStatus::UploadFailed => String::from_str("UploadFailed"),
            ParsedGenericStatus::UploadFailure => String::from_str("UploadFailure"),
            ParsedGenericStatus::Uploading => String::from_str("Uploading"),
            ParsedGenericStatus::VersionMismatch => String::from_str("VersionMismatch"),
        }
    }

    pub fn from_wire(s: &str) -> (r: Option<ParsedGenericStatus>)
        ensures
            r == Self::from_wire_spec(s@),
    {
        if str_eq_str(s, "Accepted") {
            Some(ParsedGenericStatus::Accepted)
        } else if str_eq_str(s, "AcceptedCanceled") {
            Some(ParsedGenericStatus::AcceptedCanceled)
        } else if str_eq_str(s, "BadMessage") {
            Some(ParsedGenericStatus::BadMessage)
        } else if str_eq_str(s, "Blocked") {
            Some(ParsedGenericStatus::Blocked)
        } else if str_eq_str(s, "ConcurrentTx") {
            Some(ParsedGenericStatus::ConcurrentTx)
        } else if str_eq_str(s, "Downloaded") {
            Some(ParsedGenericStatus::Downloaded)
        } else if str_eq_str(s, "DownloadFailed") {
            Some(ParsedGenericStatus::DownloadFailed)
        } else if str_eq_str(s, "Downloading") {
            Some(ParsedGenericStatus::Downloading)
        } else if str_eq_str(s, "Expired") {
            Some(ParsedGenericStatus::Expired)
        } else if str_eq_str(s, "Failed") {
            Some(ParsedGenericStatus::Failed)
        } else if str_eq_str(s, "Faulted") {
            Some(ParsedGenericStatus::Faulted)
        } else if str_eq_str(s, "Idle") {
            Some(ParsedGenericStatus::Idle)
        } else if str_eq_str(s, "InstallationFailed") {
            Some(ParsedGenericStatus::InstallationFailed)
        } else if str_eq_str(s, "Installing") {
            Some(ParsedGenericStatus::Installing)
        } else if str_eq_str(s, "Installed") {
            Some(ParsedGenericStatus::Installed)
        } else if str_eq_str(s, "Invalid") {
            Some(ParsedGenericStatus::Invalid)
        } else if str_eq_str(s, "InvalidCertificate") {
            Some(ParsedGenericStatus::InvalidCertificate)
        } else if str_eq_str(s, "NotFound") {
            Some(ParsedGenericStatus::NotFound)
        } else if str_eq_str(s, "NotImplemented") {
            Some(ParsedGenericStatus::NotImplemented)
        } else if str_eq_str(s, "NotSupported") {
            Some(ParsedGenericStatus::NotSupported)
        } else if str_eq_str(s, "NotSupportedOperation") {
            Some(ParsedGenericStatus::NotSupportedOperation)
        } else if str_eq_str(s, "Occupied") {
            Some(ParsedGenericStatus::Occupied)
        } else if str_eq_str(s, "PermissionDenied") {
            Some(ParsedGenericStatus::PermissionDenied)
        } else if str_eq_str(s, "Pending") {
            Some(ParsedGenericStatus::Pending)
        } else if str_eq_str(s, "RebootRequired") {
            Some(ParsedGenericStatus::RebootRequired)
        } else if str_eq_str(s, "Rejected") {
            Some(ParsedGenericStatus::Rejected)
        } else if str_eq_str(s, "RevokedCertificate") {
            Some(ParsedGenericStatus::RevokedCertificate)
        } else if str_eq_str(s, "Scheduled") {
            Some(ParsedGenericStatus::Scheduled)
        } else if str_eq_str(s, "Unavailable") {
            Some(ParsedGenericStatus::Unavailable)
        } else if str_eq_str(s, "Unknown") {
            Some(ParsedGenericStatus::Unknown)
        } else if str_eq_str(s, "UnknownMessageId") {
            Some(ParsedGenericStatus::UnknownMessageId)
        } else if str_eq_str(s, "UnknownVendorId") {
            Some(ParsedGenericStatus::UnknownVendorId)
        } else if str_eq_str(s, "Unlocked") {
            Some(ParsedGenericStatus::Unlocked)
        } else if str_eq_str(s, "UnlockFailed") {
            Some(ParsedGenericStatus::UnlockFailed)
        } else if str_eq_str(s, "Uploaded") {
            Some(ParsedGenericStatus::Uploaded)
        } else if str_eq_str(s, "UploadFailed") {
            Some(ParsedGenericStatus::UploadFailed)
        } else if str_eq_str(s, "UploadFailure") {
            Some(ParsedGenericStatus::UploadFailure)
        } else if str_eq_str(s, "Uploading") {
            Some(ParsedGenericStatus::Uploading)
        } else if str_eq_str(s, "VersionMismatch") {
            Some(ParsedGenericStatus::VersionMismatch)
        } else {
            None
        }
    }
}

/// The length classes of the protocol's bounded strings.
#[derive(Debug, PartialEq, Eq, Clone, Copy)]
pub enum CiStringType {
    CiString20,
    CiString25,
    CiString50,
    CiString255,
    CiString500,
}

impl CiStringType {
    /// The maximum length of the class.
    pub fn limit(&self) -> (r: u32)
        ensures
            r == match self {
                CiStringType::CiString20 => 20u32,
                CiStringType::CiString25 => 25u32,
                CiStringType::CiString50 => 50u32,
                CiStringType::CiString255 => 255u32,
                CiStringType::CiString500 => 500u32,
            },
    {
        match self {
            CiStringType::CiString20 => 20,
            CiStringType::CiString25 => 25,
            CiStringType::CiString50 => 50,
            CiStringType::CiString255 => 255,
            CiStringType::CiString500 => 500,
        }
    }
}

/// The configuration keys a charge point may expose.
#[derive(Debug, PartialEq, Eq, Clone)]
pub enum ConfigurationKey {
    AllowOfflineTxForUnknownId,
    AuthorizationCacheEnabled,
    AuthorizeRemoteTxRequests,
    BlinkRepeat,
    ClockAlignedDataInterval,
    ConnectionTimeOut,
    ConnectorPhaseRotation,
    ConnectorPhaseRotationMaxLength,
    GetConfigurationMaxKeys,
    HeartbeatInterval,
    LightIntensity,
    LocalAuthorizeOffline,
    LocalPreAuthorize,
    MaxEnergyOnInvalidId,
    MeterValuesAlignedData,
    MeterValuesAlignedDataMaxLength,
    MeterValuesSampledData,
    MeterValuesSampledDataMaxLength,
    MeterValueSampleInterval,
    MinimumStatusDuration,
    NumberOfConnectors,
    ResetRetries,
    StopTransactionOnEVSideDisconnect,
    StopTransactionOnInvalidId,
    StopTxnAlignedData,
    StopTxnAlignedDataMaxLength,
    StopTxnSampledData,
    StopTxnSampledDataMaxLength,
    SupportedFeatureProfiles,
    SupportedFeatureProfilesMaxLength,
    TransactionMessageAttempts,
    TransactionMessageRetryInterval,
    UnlockConnectorOnEVSideDisconnect,
    WebSocketPingInterval,
    LocalAuthListEnabled,
    LocalAuthListMaxLength,
    SendLocalListMaxLength,
    ReserveConnectorZeroSupported,
    ChargeProfileMaxStackLevel,
    ChargingScheduleAllowedChargingRateUnit,
    ChargingScheduleMaxPeriods,
    ConnectorSwitch3to1PhaseSupported,
    MaxChargingProfilesInstalled,
    CentralContractValidationAllowed,
    CertificateSignedMaxChainSize,
    CertSigningWaitMinimum,
    CertSigningRepeatTimes,
    CertificateStoreMaxLength,
    ContractValidationOffline,
    ISO15118PnCEnabled,
    AdditionalRootCertificateCheck,
    AuthorizationKey,
    CpoName,
    SecurityProfile,
}

} // verus!
