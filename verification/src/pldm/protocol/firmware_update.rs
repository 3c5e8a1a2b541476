use crate::pldm::codec::{
    fixed_size, lemma_field_by_width, lemma_fixed_len, lemma_fits_widths, lemma_layout_of_fields, widths,
    EncodedSize, FixedFields, PldmCodec, PldmCodecError,
};
use crate::pldm::error::PldmError;
use crate::wire::{
    append_bytes, array_of, bytes_eq, fields_to_vec, fv16, fv32, fv8, from_le2, get_u16, get_u32,
    get_u8, layout_size, lemma_array_of, lemma_fields_roundtrip, lemma_le2, le2, pad_copy, prefix_vec,
    push_u16, put_encoding, read_u16, zeros, Field,
};
use vstd::prelude::*;
use vstd::slice::slice_subrange;
use vstd::string::StringSliceAdditionalSpecFns;

verus! {

pub const PLDM_FWUP_COMPONENT_RELEASE_DATA_LEN: usize = 8;

pub const PLDM_FWUP_BASELINE_TRANSFER_SIZE: usize = 32;

pub const PLDM_FWUP_MAX_PADDING_SIZE: usize = 32;

pub const PLDM_FWUP_IMAGE_SET_VER_STR_MAX_LEN: usize = 255;

/// Room for the data of one descriptor.
pub const DESCRIPTOR_DATA_MAX_LEN: usize = 64;

/// Room for the entries of a component parameter table.
pub const MAX_COMPONENT_COUNT: usize = 8;

/// Commands of the firmware update type.
#[derive(Debug, Clone, Copy, PartialEq, Eq, Structural)]
pub enum FwUpdateCmd {
    QueryDeviceIdentifiers,
    GetFirmwareParameters,
    RequestUpdate,
    PassComponentTable,
    UpdateComponent,
    RequestFirmwareData,
    TransferComplete,
    VerifyComplete,
    ApplyComplete,
    ActivateFirmware,
    GetStatus,
    CancelUpdateComponent,
    CancelUpdate,
}

impl FwUpdateCmd {
    /// The code of the value on the wire.
    #[verifier::allow_in_spec]
    pub fn to_u8(self) -> u8
        returns
            (match self {
                FwUpdateCmd::QueryDeviceIdentifiers => 0x1u8,
                FwUpdateCmd::GetFirmwareParameters => 0x2u8,
                FwUpdateCmd::RequestUpdate => 0x10u8,
                FwUpdateCmd::PassComponentTable => 0x13u8,
                FwUpdateCmd::UpdateComponent => 0x14u8,
                FwUpdateCmd::RequestFirmwareData => 0x15u8,
                FwUpdateCmd::TransferComplete => 0x16u8,
                FwUpdateCmd::VerifyComplete => 0x17u8,
                FwUpdateCmd::ApplyComplete => 0x18u8,
                FwUpdateCmd::ActivateFirmware => 0x1au8,
                FwUpdateCmd::GetStatus => 0x1bu8,
                FwUpdateCmd::CancelUpdateComponent => 0x1cu8,
                FwUpdateCmd::CancelUpdate => 0x1du8,
            }),
    {
        match self {
            FwUpdateCmd::QueryDeviceIdentifiers => 0x1,
            FwUpdateCmd::GetFirmwareParameters => 0x2,
            FwUpdateCmd::RequestUpdate => 0x10,
            FwUpdateCmd::PassComponentTable => 0x13,
            FwUpdateCmd::UpdateComponent => 0x14,
            FwUpdateCmd::RequestFirmwareData => 0x15,
            FwUpdateCmd::TransferComplete => 0x16,
            FwUpdateCmd::VerifyComplete => 0x17,
            FwUpdateCmd::ApplyComplete => 0x18,
            FwUpdateCmd::ActivateFirmware => 0x1a,
            FwUpdateCmd::GetStatus => 0x1b,
            FwUpdateCmd::CancelUpdateComponent => 0x1c,
            FwUpdateCmd::CancelUpdate => 0x1d,
        }
    }
}

impl core::convert::TryFrom<u8> for FwUpdateCmd {
    type Error = PldmError;

    fn try_from(value: u8) -> (r: Result<FwUpdateCmd, PldmError>) {
        match value {
            0x1 => Ok(FwUpdateCmd::QueryDeviceIdentifiers),
            0x2 => Ok(FwUpdateCmd::GetFirmwareParameters),
            0x10 => Ok(FwUpdateCmd::RequestUpdate),
            0x13 => Ok(FwUpdateCmd::PassComponentTable),
            0x14 => Ok(FwUpdateCmd::UpdateComponent),
            0x15 => Ok(FwUpdateCmd::RequestFirmwareData),
            0x16 => Ok(FwUpdateCmd::TransferComplete),
            0x17 => Ok(FwUpdateCmd::VerifyComplete),
            0x18 => Ok(FwUpdateCmd::ApplyComplete),
            0x1a => Ok(FwUpdateCmd::ActivateFirmware),
            0x1b => Ok(FwUpdateCmd::GetStatus),
            0x1c => Ok(FwUpdateCmd::CancelUpdateComponent),
            0x1d => Ok(FwUpdateCmd::CancelUpdate),
            _ => Err(PldmError::UnsupportedCmd),
        }
    }
}

impl vstd::std_specs::convert::TryFromSpecImpl<u8> for FwUpdateCmd {
    open spec fn obeys_try_from_spec() -> bool {
        true
    }

    open spec fn try_from_spec(value: u8) -> Result<FwUpdateCmd, PldmError> {
        match value {
            0x1 => Ok(FwUpdateCmd::QueryDeviceIdentifiers),
            0x2 => Ok(FwUpdateCmd::GetFirmwareParameters),
            0x10 => Ok(FwUpdateCmd::RequestUpdate),
            0x13 => Ok(FwUpdateCmd::PassComponentTable),
            0x14 => Ok(FwUpdateCmd::UpdateComponent),
            0x15 => Ok(FwUpdateCmd::RequestFirmwareData),
            0x16 => Ok(FwUpdateCmd::TransferComplete),
            0x17 => Ok(FwUpdateCmd::VerifyComplete),
            0x18 => Ok(FwUpdateCmd::ApplyComplete),
            0x1a => Ok(FwUpdateCmd::ActivateFirmware),
            0x1b => Ok(FwUpdateCmd::GetStatus),
            0x1c => Ok(FwUpdateCmd::CancelUpdateComponent),
            0x1d => Ok(FwUpdateCmd::CancelUpdate),
            _ => Err(PldmError::UnsupportedCmd),
        }
    }
}

/// Completion codes of the firmware update commands.
#[derive(Debug, Clone, Copy, PartialEq, Eq, Structural)]
pub enum FwUpdateCompletionCode {
    NotInUpdateMode,
    AlreadyInUpdateMode,
    DataOutOfRange,
    InvalidTransferLength,
    InvalidStateForCommand,
    IncompleteUpdate,
    BusyInBackground,
    CancelPending,
    CommandNotExpected,
    RetryRequestFwData,
    UnableToInitiateUpdate,
    ActivationNotRequired,
    SelfContainedActivationNotPermitted,
    NoDeviceMetadata,
    RetryRequestUpdate,
    NoPackageData,
    InvalidTransferHandle,
    InvalidTransferOperationFlag,
    ActivatePendingImageNotPermitted,
    PackageDataError,
}

impl FwUpdateCompletionCode {
    /// The code of the value on the wire.
    #[verifier::allow_in_spec]
    pub fn to_u8(self) -> u8
        returns
            (match self {
                FwUpdateCompletionCode::NotInUpdateMode => 0x80u8,
                FwUpdateCompletionCode::AlreadyInUpdateMode => 0x81u8,
                FwUpdateCompletionCode::DataOutOfRange => 0x82u8,
                FwUpdateCompletionCode::InvalidTransferLength => 0x83u8,
                FwUpdateCompletionCode::InvalidStateForCommand => 0x84u8,
                FwUpdateCompletionCode::IncompleteUpdate => 0x85u8,
                FwUpdateCompletionCode::BusyInBackground => 0x86u8,
                FwUpdateCompletionCode::CancelPending => 0x87u8,
                FwUpdateCompletionCode::CommandNotExpected => 0x88u8,
                FwUpdateCompletionCode::RetryRequestFwData => 0x89u8,
                FwUpdateCompletionCode::UnableToInitiateUpdate => 0x8au8,
                FwUpdateCompletionCode::ActivationNotRequired => 0x8bu8,
                FwUpdateCompletionCode::SelfContainedActivationNotPermitted => 0x8cu8,
                FwUpdateCompletionCode::NoDeviceMetadata => 0x8du8,
                FwUpdateCompletionCode::RetryRequestUpdate => 0x8eu8,
                FwUpdateCompletionCode::NoPackageData => 0x8fu8,
                FwUpdateCompletionCode::InvalidTransferHandle => 0x90u8,
                FwUpdateCompletionCode::InvalidTransferOperationFlag => 0x91u8,
                FwUpdateCompletionCode::ActivatePendingImageNotPermitted => 0x92u8,
                FwUpdateCompletionCode::PackageDataError => 0x93u8,
            }),
    {
        match self {
            FwUpdateCompletionCode::NotInUpdateMode => 0x80,
            FwUpdateCompletionCode::AlreadyInUpdateMode => 0x81,
            FwUpdateCompletionCode::DataOutOfRange => 0x82,
            FwUpdateCompletionCode::InvalidTransferLength => 0x83,
            FwUpdateCompletionCode::InvalidStateForCommand => 0x84,
            FwUpdateCompletionCode::IncompleteUpdate => 0x85,
            FwUpdateCompletionCode::BusyInBackground => 0x86,
            FwUpdateCompletionCode::CancelPending => 0x87,
            FwUpdateCompletionCode::CommandNotExpected => 0x88,
            FwUpdateCompletionCode::RetryRequestFwData => 0x89,
            FwUpdateCompletionCode::UnableToInitiateUpdate => 0x8a,
            FwUpdateCompletionCode::ActivationNotRequired => 0x8b,
            FwUpdateCompletionCode::SelfContainedActivationNotPermitted => 0x8c,
            FwUpdateCompletionCode::NoDeviceMetadata => 0x8d,
            FwUpdateCompletionCode::RetryRequestUpdate => 0x8e,
            FwUpdateCompletionCode::NoPackageData => 0x8f,
            FwUpdateCompletionCode::InvalidTransferHandle => 0x90,
            FwUpdateCompletionCode::InvalidTransferOperationFlag => 0x91,
            FwUpdateCompletionCode::ActivatePendingImageNotPermitted => 0x92,
            FwUpdateCompletionCode::PackageDataError => 0x93,
        }
    }
}

impl core::convert::TryFrom<u8> for FwUpdateCompletionCode {
    type Error = PldmError;

    fn try_from(value: u8) -> (r: Result<FwUpdateCompletionCode, PldmError>) {
        match value {
            0x80 => Ok(FwUpdateCompletionCode::NotInUpdateMode),
            0x81 => Ok(FwUpdateCompletionCode::AlreadyInUpdateMode),
            0x82 => Ok(FwUpdateCompletionCode::DataOutOfRange),
            0x83 => Ok(FwUpdateCompletionCode::InvalidTransferLength),
            0x84 => Ok(FwUpdateCompletionCode::InvalidStateForCommand),
            0x85 => Ok(FwUpdateCompletionCode::IncompleteUpdate),
            0x86 => Ok(FwUpdateCompletionCode::BusyInBackground),
            0x87 => Ok(FwUpdateCompletionCode::CancelPending),
            0x88 => Ok(FwUpdateCompletionCode::CommandNotExpected),
            0x89 => Ok(FwUpdateCompletionCode::RetryRequestFwData),
            0x8a => Ok(FwUpdateCompletionCode::UnableToInitiateUpdate),
            0x8b => Ok(FwUpdateCompletionCode::ActivationNotRequired),
            0x8c => Ok(FwUpdateCompletionCode::SelfContainedActivationNotPermitted),
            0x8d => Ok(FwUpdateCompletionCode::NoDeviceMetadata),
            0x8e => Ok(FwUpdateCompletionCode::RetryRequestUpdate),
            0x8f => Ok(FwUpdateCompletionCode::NoPackageData),
            0x90 => Ok(FwUpdateCompletionCode::InvalidTransferHandle),
            0x91 => Ok(FwUpdateCompletionCode::InvalidTransferOperationFlag),
            0x92 => Ok(FwUpdateCompletionCode::ActivatePendingImageNotPermitted),
            0x93 => Ok(FwUpdateCompletionCode::PackageDataError),
            _ => Err(PldmError::InvalidCompletionCode),
        }
    }
}

impl vstd::std_specs::convert::TryFromSpecImpl<u8> for FwUpdateCompletionCode {
    open spec fn obeys_try_from_spec() -> bool {
        true
    }

    open spec fn try_from_spec(value: u8) -> Result<FwUpdateCompletionCode, PldmError> {
        match value {
            0x80 => Ok(FwUpdateCompletionCode::NotInUpdateMode),
            0x81 => Ok(FwUpdateCompletionCode::AlreadyInUpdateMode),
            0x82 => Ok(FwUpdateCompletionCode::DataOutOfRange),
            0x83 => Ok(FwUpdateCompletionCode::InvalidTransferLength),
            0x84 => Ok(FwUpdateCompletionCode::InvalidStateForCommand),
            0x85 => Ok(FwUpdateCompletionCode::IncompleteUpdate),
            0x86 => Ok(FwUpdateCompletionCode::BusyInBackground),
            0x87 => Ok(FwUpdateCompletionCode::CancelPending),
            0x88 => Ok(FwUpdateCompletionCode::CommandNotExpected),
            0x89 => Ok(FwUpdateCompletionCode::RetryRequestFwData),
            0x8a => Ok(FwUpdateCompletionCode::UnableToInitiateUpdate),
            0x8b => Ok(FwUpdateCompletionCode::ActivationNotRequired),
            0x8c => Ok(FwUpdateCompletionCode::SelfContainedActivationNotPermitted),
            0x8d => Ok(FwUpdateCompletionCode::NoDeviceMetadata),
            0x8e => Ok(FwUpdateCompletionCode::RetryRequestUpdate),
            0x8f => Ok(FwUpdateCompletionCode::NoPackageData),
            0x90 => Ok(FwUpdateCompletionCode::InvalidTransferHandle),
            0x91 => Ok(FwUpdateCompletionCode::InvalidTransferOperationFlag),
            0x92 => Ok(FwUpdateCompletionCode::ActivatePendingImageNotPermitted),
            0x93 => Ok(FwUpdateCompletionCode::PackageDataError),
            _ => Err(PldmError::InvalidCompletionCode),
        }
    }
}

/// States of the firmware device update state machine.
#[derive(Debug, Clone, Copy, PartialEq, Eq, Structural)]
pub enum FirmwareDeviceState {
    Idle,
    LearnComponents,
    ReadyXfer,
    Download,
    Verify,
    Apply,
    Activate,
}

impl FirmwareDeviceState {
    /// The code of the value on the wire.
    #[verifier::allow_in_spec]
    pub fn to_u8(self) -> u8
        returns
            (match self {
                FirmwareDeviceState::Idle => 0x0u8,
                FirmwareDeviceState::LearnComponents => 0x1u8,
                FirmwareDeviceState::ReadyXfer => 0x2u8,
                FirmwareDeviceState::Download => 0x3u8,
                FirmwareDeviceState::Verify => 0x4u8,
                FirmwareDeviceState::Apply => 0x5u8,
                FirmwareDeviceState::Activate => 0x6u8,
            }),
    {
        match self {
            FirmwareDeviceState::Idle => 0x0,
            FirmwareDeviceState::LearnComponents => 0x1,
            FirmwareDeviceState::ReadyXfer => 0x2,
            FirmwareDeviceState::Download => 0x3,
            FirmwareDeviceState::Verify => 0x4,
            FirmwareDeviceState::Apply => 0x5,
            FirmwareDeviceState::Activate => 0x6,
        }
    }
}

impl core::convert::TryFrom<u8> for FirmwareDeviceState {
    type Error = PldmError;

    fn try_from(value: u8) -> (r: Result<FirmwareDeviceState, PldmError>) {
        match value {
            0x0 => Ok(FirmwareDeviceState::Idle),
            0x1 => Ok(FirmwareDeviceState::LearnComponents),
            0x2 => Ok(FirmwareDeviceState::ReadyXfer),
            0x3 => Ok(FirmwareDeviceState::Download),
            0x4 => Ok(FirmwareDeviceState::Verify),
            0x5 => Ok(FirmwareDeviceState::Apply),
            0x6 => Ok(FirmwareDeviceState::Activate),
            _ => Err(PldmError::InvalidFdState),
        }
    }
}

impl vstd::std_specs::convert::TryFromSpecImpl<u8> for FirmwareDeviceState {
    open spec fn obeys_try_from_spec() -> bool {
        true
    }

    open spec fn try_from_spec(value: u8) -> Result<FirmwareDeviceState, PldmError> {
        match value {
            0x0 => Ok(FirmwareDeviceState::Idle),
            0x1 => Ok(FirmwareDeviceState::LearnComponents),
            0x2 => Ok(FirmwareDeviceState::ReadyXfer),
            0x3 => Ok(FirmwareDeviceState::Download),
            0x4 => Ok(FirmwareDeviceState::Verify),
            0x5 => Ok(FirmwareDeviceState::Apply),
            0x6 => Ok(FirmwareDeviceState::Activate),
            _ => Err(PldmError::InvalidFdState),
        }
    }
}

/// Encodings of version strings.
#[derive(Debug, Clone, Copy, PartialEq, Eq, Structural)]
pub enum VersionStringType {
    Unspecified,
    Ascii,
    Utf8,
    Utf16,
    Utf16Le,
    Utf16Be,
}

impl VersionStringType {
    /// The code of the value on the wire.
    #[verifier::allow_in_spec]
    pub fn to_u8(self) -> u8
        returns
            (match self {
                VersionStringType::Unspecified => 0x0u8,
                VersionStringType::Ascii => 0x1u8,
                VersionStringType::Utf8 => 0x2u8,
                VersionStringType::Utf16 => 0x3u8,
                VersionStringType::Utf16Le => 0x4u8,
                VersionStringType::Utf16Be => 0x5u8,
            }),
    {
        match self {
            VersionStringType::Unspecified => 0x0,
            VersionStringType::Ascii => 0x1,
            VersionStringType::Utf8 => 0x2,
            VersionStringType::Utf16 => 0x3,
            VersionStringType::Utf16Le => 0x4,
            VersionStringType::Utf16Be => 0x5,
        }
    }
}

/// The string type named by `name` (upper or lower case spelling).
pub open spec fn version_string_type_of(name: Seq<u8>) -> Option<VersionStringType> {
    if name == seq![0x41u8, 0x53, 0x43, 0x49, 0x49] || name == seq![0x61u8, 0x73, 0x63, 0x69, 0x69] {
        Some(VersionStringType::Ascii)
    } else if name == seq![0x55u8, 0x54, 0x46, 0x2d, 0x38] || name == seq![0x75u8, 0x74, 0x66, 0x2d, 0x38] {
        Some(VersionStringType::Utf8)
    } else if name == seq![0x55u8, 0x54, 0x46, 0x2d, 0x31, 0x36] || name == seq![0x75u8, 0x74, 0x66, 0x2d, 0x31, 0x36] {
        Some(VersionStringType::Utf16)
    } else if name == seq![0x55u8, 0x54, 0x46, 0x2d, 0x31, 0x36, 0x4c, 0x45] || name == seq![0x75u8, 0x74, 0x66, 0x2d, 0x31, 0x36, 0x6c, 0x65] {
        Some(VersionStringType::Utf16Le)
    } else if name == seq![0x55u8, 0x54, 0x46, 0x2d, 0x31, 0x36, 0x42, 0x45] || name == seq![0x75u8, 0x74, 0x66, 0x2d, 0x31, 0x36, 0x62, 0x65] {
        Some(VersionStringType::Utf16Be)
    } else {
        None
    }
}

impl VersionStringType {
    /// The name of the string type ("UNKNOWN" for an unspecified one).
    pub fn as_string(&self) -> (r: &'static str)
        ensures
            r@ == (match *self {
                VersionStringType::Ascii => "ASCII"@,
                VersionStringType::Utf8 => "UTF-8"@,
                VersionStringType::Utf16 => "UTF-16"@,
                VersionStringType::Utf16Le => "UTF-16LE"@,
                VersionStringType::Utf16Be => "UTF-16BE"@,
                _ => "UNKNOWN"@,
            }),
    {
        match *self {
            VersionStringType::Ascii => "ASCII",
            VersionStringType::Utf8 => "UTF-8",
            VersionStringType::Utf16 => "UTF-16",
            VersionStringType::Utf16Le => "UTF-16LE",
            VersionStringType::Utf16Be => "UTF-16BE",
            _ => "UNKNOWN",
        }
    }

    /// The string type with the given name, upper or lower case.
    pub fn from_name(input: &str) -> (r: Result<VersionStringType, PldmError>)
        ensures
            r == (match version_string_type_of(input.spec_bytes()) {
                Some(t) => Ok::<VersionStringType, PldmError>(t),
                None => Err(PldmError::InvalidVersionStringType),
            }),
    {
        let b = input.as_bytes();
        let ascii_u: [u8; 5] = [0x41, 0x53, 0x43, 0x49, 0x49];
        let ascii_l: [u8; 5] = [0x61, 0x73, 0x63, 0x69, 0x69];
        let utf8_u: [u8; 5] = [0x55, 0x54, 0x46, 0x2d, 0x38];
        let utf8_l: [u8; 5] = [0x75, 0x74, 0x66, 0x2d, 0x38];
        let utf16_u: [u8; 6] = [0x55, 0x54, 0x46, 0x2d, 0x31, 0x36];
        let utf16_l: [u8; 6] = [0x75, 0x74, 0x66, 0x2d, 0x31, 0x36];
        let le_u: [u8; 8] = [0x55, 0x54, 0x46, 0x2d, 0x31, 0x36, 0x4c, 0x45];
        let le_l: [u8; 8] = [0x75, 0x74, 0x66, 0x2d, 0x31, 0x36, 0x6c, 0x65];
        let be_u: [u8; 8] = [0x55, 0x54, 0x46, 0x2d, 0x31, 0x36, 0x42, 0x45];
        let be_l: [u8; 8] = [0x75, 0x74, 0x66, 0x2d, 0x31, 0x36, 0x62, 0x65];
        assert(ascii_u@ =~= seq![0x41u8, 0x53, 0x43, 0x49, 0x49]);
        assert(ascii_l@ =~= seq![0x61u8, 0x73, 0x63, 0x69, 0x69]);
        assert(utf8_u@ =~= seq![0x55u8, 0x54, 0x46, 0x2d, 0x38]);
        assert(utf8_l@ =~= seq![0x75u8, 0x74, 0x66, 0x2d, 0x38]);
        assert(utf16_u@ =~= seq![0x55u8, 0x54, 0x46, 0x2d, 0x31, 0x36]);
        assert(utf16_l@ =~= seq![0x75u8, 0x74, 0x66, 0x2d, 0x31, 0x36]);
        assert(le_u@ =~= seq![0x55u8, 0x54, 0x46, 0x2d, 0x31, 0x36, 0x4c, 0x45]);
        assert(le_l@ =~= seq![0x75u8, 0x74, 0x66, 0x2d, 0x31, 0x36, 0x6c, 0x65]);
        assert(be_u@ =~= seq![0x55u8, 0x54, 0x46, 0x2d, 0x31, 0x36, 0x42, 0x45]);
        assert(be_l@ =~= seq![0x75u8, 0x74, 0x66, 0x2d, 0x31, 0x36, 0x62, 0x65]);
        if bytes_eq(b, &ascii_u) || bytes_eq(b, &ascii_l) {
            Ok(VersionStringType::Ascii)
        } else if bytes_eq(b, &utf8_u) || bytes_eq(b, &utf8_l) {
            Ok(VersionStringType::Utf8)
        } else if bytes_eq(b, &utf16_u) || bytes_eq(b, &utf16_l) {
            Ok(VersionStringType::Utf16)
        } else if bytes_eq(b, &le_u) || bytes_eq(b, &le_l) {
            Ok(VersionStringType::Utf16Le)
        } else if bytes_eq(b, &be_u) || bytes_eq(b, &be_l) {
            Ok(VersionStringType::Utf16Be)
        } else {
            Err(PldmError::InvalidVersionStringType)
        }
    }
}

impl<'a> core::convert::TryFrom<&'a str> for VersionStringType {
    type Error = PldmError;

    fn try_from(input: &'a str) -> (r: Result<VersionStringType, PldmError>) {
        VersionStringType::from_name(input)
    }
}

impl<'a> vstd::std_specs::convert::TryFromSpecImpl<&'a str> for VersionStringType {
    open spec fn obeys_try_from_spec() -> bool {
        true
    }

    open spec fn try_from_spec(input: &'a str) -> Result<VersionStringType, PldmError> {
        match version_string_type_of(input.spec_bytes()) {
            Some(t) => Ok(t),
            None => Err(PldmError::InvalidVersionStringType),
        }
    }
}

/// Types of device identifier descriptors.
#[derive(Debug, Clone, Copy, PartialEq, Eq, Structural)]
pub enum DescriptorType {
    PciVendorId,
    IanaEnterpriseId,
    Uuid,
    PnpVendorId,
    AcpiVendorId,
    IeeeAssignedCompanyId,
    ScsiVendorId,
    PciDeviceId,
    PciSubsystemVendorId,
    PciSubsystemId,
    PciRevisionId,
    PnpProductIdentifier,
    AcpiProductIdentifier,
    AsciiModelNumberLongString,
    AsciiModelNumberShortString,
    ScsiProductId,
    UbmControllerDeviceCode,
    VendorDefined,
}

impl DescriptorType {
    /// The code of the value on the wire.
    #[verifier::allow_in_spec]
    pub fn to_u16(self) -> u16
        returns
            (match self {
                DescriptorType::PciVendorId => 0x0u16,
                DescriptorType::IanaEnterpriseId => 0x1u16,
                DescriptorType::Uuid => 0x2u16,
                DescriptorType::PnpVendorId => 0x3u16,
                DescriptorType::AcpiVendorId => 0x4u16,
                DescriptorType::IeeeAssignedCompanyId => 0x5u16,
                DescriptorType::ScsiVendorId => 0x6u16,
                DescriptorType::PciDeviceId => 0x100u16,
                DescriptorType::PciSubsystemVendorId => 0x101u16,
                DescriptorType::PciSubsystemId => 0x102u16,
                DescriptorType::PciRevisionId => 0x103u16,
                DescriptorType::PnpProductIdentifier => 0x104u16,
                DescriptorType::AcpiProductIdentifier => 0x105u16,
                DescriptorType::AsciiModelNumberLongString => 0x106u16,
                DescriptorType::AsciiModelNumberShortString => 0x107u16,
                DescriptorType::ScsiProductId => 0x108u16,
                DescriptorType::UbmControllerDeviceCode => 0x109u16,
                DescriptorType::VendorDefined => 0xffffu16,
            }),
    {
        match self {
            DescriptorType::PciVendorId => 0x0,
            DescriptorType::IanaEnterpriseId => 0x1,
            DescriptorType::Uuid => 0x2,
            DescriptorType::PnpVendorId => 0x3,
            DescriptorType::AcpiVendorId => 0x4,
            DescriptorType::IeeeAssignedCompanyId => 0x5,
            DescriptorType::ScsiVendorId => 0x6,
            DescriptorType::PciDeviceId => 0x100,
            DescriptorType::PciSubsystemVendorId => 0x101,
            DescriptorType::PciSubsystemId => 0x102,
            DescriptorType::PciRevisionId => 0x103,
            DescriptorType::PnpProductIdentifier => 0x104,
            DescriptorType::AcpiProductIdentifier => 0x105,
            DescriptorType::AsciiModelNumberLongString => 0x106,
            DescriptorType::AsciiModelNumberShortString => 0x107,
            DescriptorType::ScsiProductId => 0x108,
            DescriptorType::UbmControllerDeviceCode => 0x109,
            DescriptorType::VendorDefined => 0xffff,
        }
    }
}

impl core::convert::TryFrom<u16> for DescriptorType {
    type Error = PldmError;

    fn try_from(value: u16) -> (r: Result<DescriptorType, PldmError>) {
        match value {
            0x0 => Ok(DescriptorType::PciVendorId),
            0x1 => Ok(DescriptorType::IanaEnterpriseId),
            0x2 => Ok(DescriptorType::Uuid),
            0x3 => Ok(DescriptorType::PnpVendorId),
            0x4 => Ok(DescriptorType::AcpiVendorId),
            0x5 => Ok(DescriptorType::IeeeAssignedCompanyId),
            0x6 => Ok(DescriptorType::ScsiVendorId),
            0x100 => Ok(DescriptorType::PciDeviceId),
            0x101 => Ok(DescriptorType::PciSubsystemVendorId),
            0x102 => Ok(DescriptorType::PciSubsystemId),
            0x103 => Ok(DescriptorType::PciRevisionId),
            0x104 => Ok(DescriptorType::PnpProductIdentifier),
            0x105 => Ok(DescriptorType::AcpiProductIdentifier),
            0x106 => Ok(DescriptorType::AsciiModelNumberLongString),
            0x107 => Ok(DescriptorType::AsciiModelNumberShortString),
            0x108 => Ok(DescriptorType::ScsiProductId),
            0x109 => Ok(DescriptorType::UbmControllerDeviceCode),
            0xffff => Ok(DescriptorType::VendorDefined),
            _ => Err(PldmError::InvalidDescriptorType),
        }
    }
}

impl vstd::std_specs::convert::TryFromSpecImpl<u16> for DescriptorType {
    open spec fn obeys_try_from_spec() -> bool {
        true
    }

    open spec fn try_from_spec(value: u16) -> Result<DescriptorType, PldmError> {
        match value {
            0x0 => Ok(DescriptorType::PciVendorId),
            0x1 => Ok(DescriptorType::IanaEnterpriseId),
            0x2 => Ok(DescriptorType::Uuid),
            0x3 => Ok(DescriptorType::PnpVendorId),
            0x4 => Ok(DescriptorType::AcpiVendorId),
            0x5 => Ok(DescriptorType::IeeeAssignedCompanyId),
            0x6 => Ok(DescriptorType::ScsiVendorId),
            0x100 => Ok(DescriptorType::PciDeviceId),
            0x101 => Ok(DescriptorType::PciSubsystemVendorId),
            0x102 => Ok(DescriptorType::PciSubsystemId),
            0x103 => Ok(DescriptorType::PciRevisionId),
            0x104 => Ok(DescriptorType::PnpProductIdentifier),
            0x105 => Ok(DescriptorType::AcpiProductIdentifier),
            0x106 => Ok(DescriptorType::AsciiModelNumberLongString),
            0x107 => Ok(DescriptorType::AsciiModelNumberShortString),
            0x108 => Ok(DescriptorType::ScsiProductId),
            0x109 => Ok(DescriptorType::UbmControllerDeviceCode),
            0xffff => Ok(DescriptorType::VendorDefined),
            _ => Err(PldmError::InvalidDescriptorType),
        }
    }
}

/// Classifications of firmware components.
#[derive(Debug, Clone, Copy, PartialEq, Eq, Structural)]
pub enum ComponentClassification {
    Unspecified,
    Other,
    Driver,
    ConfigurationSoftware,
    ApplicationSoftware,
    Instrumentation,
    FirmwareOrBios,
    DiagnosticSoftware,
    OperatingSystem,
    Middleware,
    Firmware,
    BiosOrFcode,
    SupportOrServicePack,
    SoftwareBundle,
    DownstreamDevice,
}

impl ComponentClassification {
    /// The code of the value on the wire.
    #[verifier::allow_in_spec]
    pub fn to_u16(self) -> u16
        returns
            (match self {
                ComponentClassification::Unspecified => 0x0u16,
                ComponentClassification::Other => 0x1u16,
                ComponentClassification::Driver => 0x2u16,
                ComponentClassification::ConfigurationSoftware => 0x3u16,
                ComponentClassification::ApplicationSoftware => 0x4u16,
                ComponentClassification::Instrumentation => 0x5u16,
                ComponentClassification::FirmwareOrBios => 0x6u16,
                ComponentClassification::DiagnosticSoftware => 0x7u16,
                ComponentClassification::OperatingSystem => 0x8u16,
                ComponentClassification::Middleware => 0x9u16,
                ComponentClassification::Firmware => 0xau16,
                ComponentClassification::BiosOrFcode => 0xbu16,
                ComponentClassification::SupportOrServicePack => 0xcu16,
                ComponentClassification::SoftwareBundle => 0xdu16,
                ComponentClassification::DownstreamDevice => 0xffffu16,
            }),
    {
        match self {
            ComponentClassification::Unspecified => 0x0,
            ComponentClassification::Other => 0x1,
            ComponentClassification::Driver => 0x2,
            ComponentClassification::ConfigurationSoftware => 0x3,
            ComponentClassification::ApplicationSoftware => 0x4,
            ComponentClassification::Instrumentation => 0x5,
            ComponentClassification::FirmwareOrBios => 0x6,
            ComponentClassification::DiagnosticSoftware => 0x7,
            ComponentClassification::OperatingSystem => 0x8,
            ComponentClassification::Middleware => 0x9,
            ComponentClassification::Firmware => 0xa,
            ComponentClassification::BiosOrFcode => 0xb,
            ComponentClassification::SupportOrServicePack => 0xc,
            ComponentClassification::SoftwareBundle => 0xd,
            ComponentClassification::DownstreamDevice => 0xffff,
        }
    }
}

impl core::convert::TryFrom<u16> for ComponentClassification {
    type Error = PldmError;

    fn try_from(value: u16) -> (r: Result<ComponentClassification, PldmError>) {
        match value {
            0x0 => Ok(ComponentClassification::Unspecified),
            0x1 => Ok(ComponentClassification::Other),
            0x2 => Ok(ComponentClassification::Driver),
            0x3 => Ok(ComponentClassification::ConfigurationSoftware),
            0x4 => Ok(ComponentClassification::ApplicationSoftware),
            0x5 => Ok(ComponentClassification::Instrumentation),
            0x6 => Ok(ComponentClassification::FirmwareOrBios),
            0x7 => Ok(ComponentClassification::DiagnosticSoftware),
            0x8 => Ok(ComponentClassification::OperatingSystem),
            0x9 => Ok(ComponentClassification::Middleware),
            0xa => Ok(ComponentClassification::Firmware),
            0xb => Ok(ComponentClassification::BiosOrFcode),
            0xc => Ok(ComponentClassification::SupportOrServicePack),
            0xd => Ok(ComponentClassification::SoftwareBundle),
            0xffff => Ok(ComponentClassification::DownstreamDevice),
            _ => Err(PldmError::InvalidComponentClassification),
        }
    }
}

impl vstd::std_specs::convert::TryFromSpecImpl<u16> for ComponentClassification {
    open spec fn obeys_try_from_spec() -> bool {
        true
    }

    open spec fn try_from_spec(value: u16) -> Result<ComponentClassification, PldmError> {
        match value {
            0x0 => Ok(ComponentClassification::Unspecified),
            0x1 => Ok(ComponentClassification::Other),
            0x2 => Ok(ComponentClassification::Driver),
            0x3 => Ok(ComponentClassification::ConfigurationSoftware),
            0x4 => Ok(ComponentClassification::ApplicationSoftware),
            0x5 => Ok(ComponentClassification::Instrumentation),
            0x6 => Ok(ComponentClassification::FirmwareOrBios),
            0x7 => Ok(ComponentClassification::DiagnosticSoftware),
            0x8 => Ok(ComponentClassification::OperatingSystem),
            0x9 => Ok(ComponentClassification::Middleware),
            0xa => Ok(ComponentClassification::Firmware),
            0xb => Ok(ComponentClassification::BiosOrFcode),
            0xc => Ok(ComponentClassification::SupportOrServicePack),
            0xd => Ok(ComponentClassification::SoftwareBundle),
            0xffff => Ok(ComponentClassification::DownstreamDevice),
            _ => Err(PldmError::InvalidComponentClassification),
        }
    }
}

/// Update option flags of RequestUpdate / UpdateComponent: bit 0 requests a
/// forced update, bit 1 announces component opaque data, bit 2 a delayed
/// security-version update; bits 3 to 31 are reserved.
#[derive(Debug, Clone, Copy, PartialEq, Eq, Structural)]
pub struct UpdateOptionFlags(pub u32);

impl UpdateOptionFlags {
    #[verifier::allow_in_spec]
    pub fn reserved(&self) -> u32
        returns
            self.0 >> 3u32,
    {
        self.0 >> 3u32
    }

    #[verifier::allow_in_spec]
    pub fn svn_delayed_update(&self) -> bool
        returns
            (self.0 >> 2u32) & 1 == 1,
    {
        (self.0 >> 2u32) & 1 == 1
    }

    #[verifier::allow_in_spec]
    pub fn component_opaque_data(&self) -> bool
        returns
            (self.0 >> 1u32) & 1 == 1,
    {
        (self.0 >> 1u32) & 1 == 1
    }

    #[verifier::allow_in_spec]
    pub fn request_force_update(&self) -> bool
        returns
            self.0 & 1 == 1,
    {
        self.0 & 1 == 1
    }

    /// Sets or clears bit 0.
    pub fn set_request_force_update(&mut self, v: bool)
        ensures
            final(self).0 == (if v { old(self).0 | 1 } else { old(self).0 & 0xffff_fffe }),
    {
        if v {
            self.0 = self.0 | 1;
        } else {
            self.0 = self.0 & 0xffff_fffe;
        }
    }

    /// Sets or clears bit 1.
    pub fn set_component_opaque_data(&mut self, v: bool)
        ensures
            final(self).0 == (if v { old(self).0 | 2 } else { old(self).0 & 0xffff_fffd }),
    {
        if v {
            self.0 = self.0 | 2;
        } else {
            self.0 = self.0 & 0xffff_fffd;
        }
    }

    /// Sets or clears bit 2.
    pub fn set_svn_delayed_update(&mut self, v: bool)
        ensures
            final(self).0 == (if v { old(self).0 | 4 } else { old(self).0 & 0xffff_fffb }),
    {
        if v {
            self.0 = self.0 | 4;
        } else {
            self.0 = self.0 & 0xffff_fffb;
        }
    }
}

/// The size in bytes of the data of a descriptor of each type (the most a
/// vendor-defined descriptor may hold).
#[verifier::allow_in_spec]
pub fn get_descriptor_length(descriptor_type: DescriptorType) -> usize
    returns
        (match descriptor_type {
            DescriptorType::PciVendorId => 2usize,
            DescriptorType::IanaEnterpriseId => 4usize,
            DescriptorType::Uuid => 16usize,
            DescriptorType::PnpVendorId => 3usize,
            DescriptorType::AcpiVendorId => 5usize,
            DescriptorType::IeeeAssignedCompanyId => 3usize,
            DescriptorType::ScsiVendorId => 8usize,
            DescriptorType::PciDeviceId => 2usize,
            DescriptorType::PciSubsystemVendorId => 2usize,
            DescriptorType::PciSubsystemId => 2usize,
            DescriptorType::PciRevisionId => 1usize,
            DescriptorType::PnpProductIdentifier => 4usize,
            DescriptorType::AcpiProductIdentifier => 4usize,
            DescriptorType::AsciiModelNumberLongString => 40usize,
            DescriptorType::AsciiModelNumberShortString => 10usize,
            DescriptorType::ScsiProductId => 16usize,
            DescriptorType::UbmControllerDeviceCode => 4usize,
            DescriptorType::VendorDefined => DESCRIPTOR_DATA_MAX_LEN,
        }),
{
    match descriptor_type {
        DescriptorType::PciVendorId => 2,
        DescriptorType::IanaEnterpriseId => 4,
        DescriptorType::Uuid => 16,
        DescriptorType::PnpVendorId => 3,
        DescriptorType::AcpiVendorId => 5,
        DescriptorType::IeeeAssignedCompanyId => 3,
        DescriptorType::ScsiVendorId => 8,
        DescriptorType::PciDeviceId => 2,
        DescriptorType::PciSubsystemVendorId => 2,
        DescriptorType::PciSubsystemId => 2,
        DescriptorType::PciRevisionId => 1,
        DescriptorType::PnpProductIdentifier => 4,
        DescriptorType::AcpiProductIdentifier => 4,
        DescriptorType::AsciiModelNumberLongString => 40,
        DescriptorType::AsciiModelNumberShortString => 10,
        DescriptorType::ScsiProductId => 16,
        DescriptorType::UbmControllerDeviceCode => 4,
        DescriptorType::VendorDefined => DESCRIPTOR_DATA_MAX_LEN,
    }
}

/// A device identifier descriptor: its type, the length of its data, and the
/// data, stored in the first `descriptor_length` bytes of `descriptor_data`.
#[derive(Debug, Copy, Clone, PartialEq, Eq)]
pub struct Descriptor {
    pub descriptor_type: u16,
    pub descriptor_length: u16,
    pub descriptor_data: [u8; DESCRIPTOR_DATA_MAX_LEN],
}

impl Default for Descriptor {
    fn default() -> (r: Self)
        ensures
            r.descriptor_type == 0,
            r.descriptor_length == 0,
            r.descriptor_data@ == zeros(DESCRIPTOR_DATA_MAX_LEN as nat),
    {
        Descriptor::new_empty()
    }
}

impl Descriptor {
    /// A descriptor of type 0 with no data.
    pub fn new_empty() -> (r: Self)
        ensures
            r == empty_descriptor(),
            r.descriptor_type == 0,
            r.descriptor_length == 0,
            r.descriptor_data@ == zeros(DESCRIPTOR_DATA_MAX_LEN as nat),
    {
        let d = Descriptor {
            descriptor_type: 0,
            descriptor_length: 0,
            descriptor_data: [0; DESCRIPTOR_DATA_MAX_LEN],
        };
        assert(d.descriptor_data@ =~= zeros(DESCRIPTOR_DATA_MAX_LEN as nat));
        proof {
            lemma_array_of::<DESCRIPTOR_DATA_MAX_LEN>(d.descriptor_data);
        }
        d
    }

    /// A descriptor of the given type holding `descriptor_data`, which must
    /// be exactly as long as the type prescribes.
    pub fn new(descriptor_type: DescriptorType, descriptor_data: &[u8]) -> (r: Result<
        Self,
        PldmError,
    >)
        ensures
            descriptor_data@.len() != get_descriptor_length(descriptor_type) ==> r == Err::<
                Self,
                PldmError,
            >(PldmError::InvalidDescriptorLength),
            descriptor_data@.len() == get_descriptor_length(descriptor_type) ==> (r matches Ok(d)
                && d.descriptor_type == descriptor_type.to_u16() && d.descriptor_length
                == descriptor_data@.len() && d.descriptor_data@ == descriptor_data@ + zeros(
                (DESCRIPTOR_DATA_MAX_LEN - descriptor_data@.len()) as nat,
            )),
    {
        let descriptor_length = get_descriptor_length(descriptor_type);
        if descriptor_data.len() != descriptor_length {
            return Err(PldmError::InvalidDescriptorLength);
        }
        let descriptor_data_array = pad_copy::<DESCRIPTOR_DATA_MAX_LEN>(descriptor_data);
        Ok(Descriptor {
            descriptor_type: descriptor_type.to_u16(),
            descriptor_length: descriptor_length as u16,
            descriptor_data: descriptor_data_array,
        })
    }

    /// The size of the encoding: the type and length fields and the data.
    #[verifier::allow_in_spec]
    pub fn codec_size_in_bytes(&self) -> usize
        returns
            (4 + self.descriptor_length) as usize,
    {
        4 + self.descriptor_length as usize
    }

    /// The encoding as a byte vector.
    pub fn to_bytes(&self) -> (r: Vec<u8>)
        requires
            self.descriptor_length <= DESCRIPTOR_DATA_MAX_LEN,
        ensures
            r@ == self.spec_encoding(),
    {
        let mut data: Vec<u8> = Vec::new();
        push_u16(&mut data, self.descriptor_type);
        push_u16(&mut data, self.descriptor_length);
        let body = prefix_vec(&self.descriptor_data, self.descriptor_length as usize);
        append_bytes(&mut data, body.as_slice());
        assert(data@ =~= self.spec_encoding());
        data
    }
}

impl PldmCodec for Descriptor {
    open spec fn spec_encoding(&self) -> Seq<u8> {
        le2(self.descriptor_type) + le2(self.descriptor_length) + self.descriptor_data@.subrange(
            0,
            self.descriptor_length as int,
        )
    }

    open spec fn spec_decode(bytes: Seq<u8>) -> Option<Self> {
        if bytes.len() < 4 {
            None
        } else {
            let len = from_le2(bytes.subrange(2, 4));
            if bytes.len() < 4 + len {
                None
            } else {
                Some(
                    Descriptor {
                        descriptor_type: from_le2(bytes.subrange(0, 2)),
                        descriptor_length: len,
                        descriptor_data: array_of::<DESCRIPTOR_DATA_MAX_LEN>(
                            bytes.subrange(4, 4 + len) + zeros(
                                (DESCRIPTOR_DATA_MAX_LEN - len) as nat,
                            ),
                        ),
                    },
                )
            }
        }
    }

    open spec fn spec_well_formed(&self) -> bool {
        &&& self.descriptor_length <= DESCRIPTOR_DATA_MAX_LEN
        &&& self.descriptor_data@.subrange(self.descriptor_length as int, DESCRIPTOR_DATA_MAX_LEN as int)
            == zeros((DESCRIPTOR_DATA_MAX_LEN - self.descriptor_length) as nat)
    }

    open spec fn spec_required_len(&self) -> nat {
        self.codec_size_in_bytes() as nat
    }

    open spec fn spec_encode_admits(&self, buffer_len: nat) -> bool {
        self.descriptor_length <= DESCRIPTOR_DATA_MAX_LEN
    }

    open spec fn spec_decode_admits(bytes: Seq<u8>) -> bool {
        bytes.len() < 4 || from_le2(bytes.subrange(2, 4)) <= DESCRIPTOR_DATA_MAX_LEN
    }

    fn encode(&self, buffer: &mut [u8]) -> (r: Result<usize, PldmCodecError>) {
        let data = self.to_bytes();
        put_encoding(&data, data.len(), buffer)
    }

    fn decode(buffer: &[u8]) -> (r: Result<Self, PldmCodecError>) {
        if buffer.len() < 4 {
            return Err(PldmCodecError::BufferTooShort);
        }
        let descriptor_type = read_u16(buffer, 0);
        let descriptor_length = read_u16(buffer, 2);
        if buffer.len() - 4 < descriptor_length as usize {
            return Err(PldmCodecError::BufferTooShort);
        }
        let body = slice_subrange(buffer, 4, 4 + descriptor_length as usize);
        let descriptor_data = pad_copy::<DESCRIPTOR_DATA_MAX_LEN>(body);
        let r = Descriptor { descriptor_type, descriptor_length, descriptor_data };
        proof {
            lemma_array_of::<DESCRIPTOR_DATA_MAX_LEN>(descriptor_data);
        }
        Ok(r)
    }

    proof fn lemma_roundtrip(&self, rest: Seq<u8>) {
        let b = self.spec_encoding() + rest;
        let len = self.descriptor_length;
        lemma_le2(self.descriptor_type);
        lemma_le2(len);
        assert(b.subrange(0, 2) =~= le2(self.descriptor_type));
        assert(b.subrange(2, 4) =~= le2(len));
        let body = self.descriptor_data@.subrange(0, len as int);
        assert(b.subrange(4, 4 + len) =~= body);
        assert(body + zeros((DESCRIPTOR_DATA_MAX_LEN - len) as nat) =~= self.descriptor_data@);
        lemma_array_of::<DESCRIPTOR_DATA_MAX_LEN>(self.descriptor_data);
    }
}

impl EncodedSize for Descriptor {
    open spec fn spec_encodable(&self) -> bool {
        self.descriptor_length <= DESCRIPTOR_DATA_MAX_LEN
    }

    fn encoded_size(&self) -> (r: usize) {
        self.codec_size_in_bytes()
    }

    fn encoding_bytes(&self) -> (r: Vec<u8>) {
        self.to_bytes()
    }

    proof fn lemma_decoded_fits(bytes: Seq<u8>) {
    }

    proof fn lemma_well_formed_encodable(&self) {
    }
}

/// The descriptor of type 0 with no data.
pub open spec fn empty_descriptor() -> Descriptor {
    Descriptor {
        descriptor_type: 0,
        descriptor_length: 0,
        descriptor_data: array_of::<DESCRIPTOR_DATA_MAX_LEN>(zeros(DESCRIPTOR_DATA_MAX_LEN as nat)),
    }
}

/// A version string of a component or component image set: its string type,
/// its length, and its bytes, stored in the first `str_len` bytes of
/// `str_data`.
#[derive(Debug, Clone, Copy)]
pub struct PldmFirmwareString {
    pub str_type: u8,
    pub str_len: u8,
    pub str_data: [u8; PLDM_FWUP_IMAGE_SET_VER_STR_MAX_LEN],
}

impl Default for PldmFirmwareString {
    fn default() -> (r: Self)
        ensures
            r.str_type == 0,
            r.str_len == 0,
            r.str_data@ == zeros(PLDM_FWUP_IMAGE_SET_VER_STR_MAX_LEN as nat),
    {
        let s = PldmFirmwareString {
            str_type: 0,
            str_len: 0,
            str_data: [0; PLDM_FWUP_IMAGE_SET_VER_STR_MAX_LEN],
        };
        assert(s.str_data@ =~= zeros(PLDM_FWUP_IMAGE_SET_VER_STR_MAX_LEN as nat));
        s
    }
}

/// The bytes of a version string.
pub open spec fn version_bytes(s: PldmFirmwareString) -> Seq<u8> {
    s.str_data@.subrange(0, s.str_len as int)
}

/// Byte strings in lexicographic order (a proper prefix comes first).
pub open spec fn lex_lt(a: Seq<u8>, b: Seq<u8>) -> bool
    decreases a.len(),
{
    if a.len() == 0 {
        b.len() > 0
    } else if b.len() == 0 {
        false
    } else if a[0] != b[0] {
        a[0] < b[0]
    } else {
        lex_lt(a.drop_first(), b.drop_first())
    }
}

/// `a` and `b` agree on their first `k` bytes and then `a` is the smaller:
/// it ends there while `b` goes on, or its byte at `k` is lower.
pub open spec fn first_difference_lower(a: Seq<u8>, b: Seq<u8>, k: int) -> bool {
    &&& 0 <= k <= a.len()
    &&& k <= b.len()
    &&& a.take(k) == b.take(k)
    &&& ((k == a.len() && k < b.len()) || (k < a.len() && k < b.len() && a[k] < b[k]))
}

/// One byte string comes before another exactly when, at the first place
/// they differ, it has the lower byte, or it is a proper prefix of the other.
pub proof fn lemma_lex_lt_first_difference(a: Seq<u8>, b: Seq<u8>)
    ensures
        lex_lt(a, b) <==> exists|k: int| #[trigger] first_difference_lower(a, b, k),
    decreases a.len(),
{
    if a.len() == 0 {
        if b.len() > 0 {
            assert(a.take(0) =~= b.take(0));
            assert(first_difference_lower(a, b, 0));
        }
    } else if b.len() == 0 {
        assert forall|k: int| !first_difference_lower(a, b, k) by {}
    } else if a[0] != b[0] {
        if a[0] < b[0] {
            assert(a.take(0) =~= b.take(0));
            assert(first_difference_lower(a, b, 0));
        }
        assert forall|k: int| #[trigger] first_difference_lower(a, b, k) implies k == 0 by {
            if k > 0 {
                assert(a.take(k)[0] == b.take(k)[0]);
            }
        }
    } else {
        let a1 = a.drop_first();
        let b1 = b.drop_first();
        lemma_lex_lt_first_difference(a1, b1);
        if lex_lt(a, b) {
            let k = choose|k: int| #[trigger] first_difference_lower(a1, b1, k);
            assert(a.take(k + 1) =~= seq![a[0]] + a1.take(k));
            assert(b.take(k + 1) =~= seq![b[0]] + b1.take(k));
            assert(first_difference_lower(a, b, k + 1));
        }
        if exists|k: int| #[trigger] first_difference_lower(a, b, k) {
            let k = choose|k: int| #[trigger] first_difference_lower(a, b, k);
            if k == 0 {
                assert(a[0] < b[0]);
            } else {
                assert(a1.take(k - 1) =~= a.take(k).drop_first());
                assert(b1.take(k - 1) =~= b.take(k).drop_first());
                assert(first_difference_lower(a1, b1, k - 1));
            }
        }
    }
}

/// Lexicographic comparison of two byte strings.
pub fn bytes_lt(a: &[u8], b: &[u8]) -> (r: bool)
    ensures
        r == lex_lt(a@, b@),
{
    let mut i: usize = 0;
    assert(a@.skip(0) =~= a@);
    assert(b@.skip(0) =~= b@);
    while i < a.len() && i < b.len()
        invariant
            i <= a@.len(),
            i <= b@.len(),
            a@.subrange(0, i as int) == b@.subrange(0, i as int),
            lex_lt(a@, b@) == lex_lt(a@.skip(i as int), b@.skip(i as int)),
        decreases a@.len() - i,
    {
        let x = a[i];
        let y = b[i];
        if x != y {
            return x < y;
        }
        assert(a@.skip(i as int).drop_first() =~= a@.skip(i + 1));
        assert(b@.skip(i as int).drop_first() =~= b@.skip(i + 1));
        assert(a@.subrange(0, i + 1) =~= a@.subrange(0, i as int).push(x));
        assert(b@.subrange(0, i + 1) =~= b@.subrange(0, i as int).push(y));
        i = i + 1;
    }
    i == a.len() && i < b.len()
}

impl PartialEq for PldmFirmwareString {
    fn eq(&self, other: &Self) -> (r: bool) {
        assert(version_bytes(*self).len() == self.str_len);
        assert(version_bytes(*other).len() == other.str_len);
        if self.str_type != other.str_type || self.str_len != other.str_len {
            return false;
        }
        let a = prefix_vec(&self.str_data, self.str_len as usize);
        let b = prefix_vec(&other.str_data, other.str_len as usize);
        bytes_eq(a.as_slice(), b.as_slice())
    }
}

impl vstd::std_specs::cmp::PartialEqSpecImpl for PldmFirmwareString {
    open spec fn obeys_eq_spec() -> bool {
        true
    }

    open spec fn eq_spec(&self, other: &Self) -> bool {
        self.str_type == other.str_type && version_bytes(*self) == version_bytes(*other)
    }
}

impl PldmFirmwareString {
    /// A version string of the named string type ("ASCII", "UTF-8", ...)
    /// holding the bytes of `fw_str`, which may be at most 255 bytes long.
    pub fn new(str_type: &str, fw_str: &str) -> (r: Result<Self, PldmError>)
        ensures
            match version_string_type_of(str_type.spec_bytes()) {
                None => r == Err::<Self, PldmError>(PldmError::InvalidVersionStringType),
                Some(t) => if fw_str.spec_bytes().len() > PLDM_FWUP_IMAGE_SET_VER_STR_MAX_LEN {
                    r == Err::<Self, PldmError>(PldmError::InvalidVersionStringLength)
                } else {
                    r matches Ok(s) && s.str_type == t.to_u8() && s.str_len
                        == fw_str.spec_bytes().len() && s.str_data@ == fw_str.spec_bytes() + zeros(
                        (PLDM_FWUP_IMAGE_SET_VER_STR_MAX_LEN - fw_str.spec_bytes().len()) as nat,
                    )
                },
            },
    {
        let str_type = VersionStringType::from_name(str_type)?;
        let bytes = fw_str.as_bytes();
        if bytes.len() > PLDM_FWUP_IMAGE_SET_VER_STR_MAX_LEN {
            return Err(PldmError::InvalidVersionStringLength);
        }
        let str_data = pad_copy::<PLDM_FWUP_IMAGE_SET_VER_STR_MAX_LEN>(bytes);
        Ok(PldmFirmwareString { str_type: str_type.to_u8(), str_len: bytes.len() as u8, str_data })
    }

    /// Same string type and ordered bytes: `self` is an older version.
    pub fn is_older_than(&self, other: &Self) -> (r: bool)
        ensures
            r == (self.str_type == other.str_type && lex_lt(version_bytes(*self), version_bytes(*other))),
    {
        if self.str_type != other.str_type {
            return false;
        }
        let a = prefix_vec(&self.str_data, self.str_len as usize);
        let b = prefix_vec(&other.str_data, other.str_len as usize);
        bytes_lt(a.as_slice(), b.as_slice())
    }
}

/// A version: its comparison stamp, its version string, and its release
/// date (up to eight bytes, zero padded).
#[derive(Debug, Clone, Copy)]
pub struct PldmFirmwareVersion<'a> {
    pub comparison_stamp: u32,
    pub str: &'a PldmFirmwareString,
    pub date: [u8; PLDM_FWUP_COMPONENT_RELEASE_DATA_LEN],
}

impl<'a> PldmFirmwareVersion<'a> {
    /// The date holds the first eight bytes of `date_str`, zero padded, or
    /// zeros when there is none.
    pub fn new(comparison_stamp: u32, str: &'a PldmFirmwareString, date_str: Option<&str>) -> (r:
        Self)
        ensures
            r.comparison_stamp == comparison_stamp,
            *r.str == *str,
            r.date@ == (match date_str {
                Some(d) => {
                    let n = if d.spec_bytes().len() < PLDM_FWUP_COMPONENT_RELEASE_DATA_LEN {
                        d.spec_bytes().len()
                    } else {
                        PLDM_FWUP_COMPONENT_RELEASE_DATA_LEN as nat
                    };
                    d.spec_bytes().subrange(0, n as int) + zeros(
                        (PLDM_FWUP_COMPONENT_RELEASE_DATA_LEN - n) as nat,
                    )
                },
                None => zeros(PLDM_FWUP_COMPONENT_RELEASE_DATA_LEN as nat),
            }),
    {
        let date_array = match date_str {
            Some(d) => {
                let bytes = d.as_bytes();
                let len = if bytes.len() < PLDM_FWUP_COMPONENT_RELEASE_DATA_LEN {
                    bytes.len()
                } else {
                    PLDM_FWUP_COMPONENT_RELEASE_DATA_LEN
                };
                let part = slice_subrange(bytes, 0, len);
                pad_copy::<PLDM_FWUP_COMPONENT_RELEASE_DATA_LEN>(part)
            },
            None => {
                let z = [0u8; PLDM_FWUP_COMPONENT_RELEASE_DATA_LEN];
                assert(z@ =~= zeros(PLDM_FWUP_COMPONENT_RELEASE_DATA_LEN as nat));
                z
            },
        };
        PldmFirmwareVersion { comparison_stamp, str, date: date_array }
    }
}

/// Bits of the firmware device capabilities during update.
#[derive(Debug, Clone, Copy, PartialEq, Eq, Structural)]
pub struct FirmwareDeviceCapability(pub u32);

impl Default for FirmwareDeviceCapability {
    fn default() -> (r: Self)
        ensures
            r.0 == 0,
    {
        FirmwareDeviceCapability(0)
    }
}

/// Bits of the activation methods that a component supports.
#[derive(Debug, Clone, Copy, PartialEq, Eq, Structural)]
pub struct ComponentActivationMethods(pub u16);

/// The fixed part of a component parameter table entry.
#[derive(Debug, Clone, Copy, PartialEq, Eq)]
pub struct ComponentParameterEntryFixed {
    pub comp_classification: u16,
    pub comp_identifier: u16,
    pub comp_classification_index: u8,
    pub active_comp_comparison_stamp: u32,
    pub active_comp_ver_str_type: u8,
    pub active_comp_ver_str_len: u8,
    pub active_comp_release_date: [u8; PLDM_FWUP_COMPONENT_RELEASE_DATA_LEN],
    pub pending_comp_comparison_stamp: u32,
    pub pending_comp_ver_str_type: u8,
    pub pending_comp_ver_str_len: u8,
    pub pending_comp_release_date: [u8; PLDM_FWUP_COMPONENT_RELEASE_DATA_LEN],
    pub comp_activation_methods: ComponentActivationMethods,
    pub capabilities_during_update: FirmwareDeviceCapability,
}

impl FixedFields for ComponentParameterEntryFixed {
    open spec fn spec_fields(&self) -> Seq<Field> {
        seq![
            Field::U16(self.comp_classification),
            Field::U16(self.comp_identifier),
            Field::U8(self.comp_classification_index),
            Field::U32(self.active_comp_comparison_stamp),
            Field::U8(self.active_comp_ver_str_type),
            Field::U8(self.active_comp_ver_str_len),
            Field::U8(self.active_comp_release_date[0]),
            Field::U8(self.active_comp_release_date[1]),
            Field::U8(self.active_comp_release_date[2]),
            Field::U8(self.active_comp_release_date[3]),
            Field::U8(self.active_comp_release_date[4]),
            Field::U8(self.active_comp_release_date[5]),
            Field::U8(self.active_comp_release_date[6]),
            Field::U8(self.active_comp_release_date[7]),
            Field::U32(self.pending_comp_comparison_stamp),
            Field::U8(self.pending_comp_ver_str_type),
            Field::U8(self.pending_comp_ver_str_len),
            Field::U8(self.pending_comp_release_date[0]),
            Field::U8(self.pending_comp_release_date[1]),
            Field::U8(self.pending_comp_release_date[2]),
            Field::U8(self.pending_comp_release_date[3]),
            Field::U8(self.pending_comp_release_date[4]),
            Field::U8(self.pending_comp_release_date[5]),
            Field::U8(self.pending_comp_release_date[6]),
            Field::U8(self.pending_comp_release_date[7]),
            Field::U16(self.comp_activation_methods.0),
            Field::U32(self.capabilities_during_update.0),
        ]
    }

    open spec fn spec_layout() -> Seq<u8> {
        seq![2u8, 2, 1, 4, 1, 1, 1, 1, 1, 1, 1, 1, 1, 1, 4, 1, 1, 1, 1, 1, 1, 1, 1, 1, 1, 2, 4]
    }

    open spec fn spec_from_fields(fs: Seq<Field>) -> Self {
        ComponentParameterEntryFixed { comp_classification: fv16(fs[0]), comp_identifier: fv16(fs[1]), comp_classification_index: fv8(fs[2]), active_comp_comparison_stamp: fv32(fs[3]), active_comp_ver_str_type: fv8(fs[4]), active_comp_ver_str_len: fv8(fs[5]), active_comp_release_date: [fv8(fs[6]), fv8(fs[7]), fv8(fs[8]), fv8(fs[9]), fv8(fs[10]), fv8(fs[11]), fv8(fs[12]), fv8(fs[13])], pending_comp_comparison_stamp: fv32(fs[14]), pending_comp_ver_str_type: fv8(fs[15]), pending_comp_ver_str_len: fv8(fs[16]), pending_comp_release_date: [fv8(fs[17]), fv8(fs[18]), fv8(fs[19]), fv8(fs[20]), fv8(fs[21]), fv8(fs[22]), fv8(fs[23]), fv8(fs[24])], comp_activation_methods: ComponentActivationMethods(fv16(fs[25])), capabilities_during_update: FirmwareDeviceCapability(fv32(fs[26])) }
    }

    fn layout() -> (r: Vec<u8>) {
        let r = vec![2u8, 2, 1, 4, 1, 1, 1, 1, 1, 1, 1, 1, 1, 1, 4, 1, 1, 1, 1, 1, 1, 1, 1, 1, 1, 2, 4];
        assert(r@ =~= Self::spec_layout());
        r
    }

    fn to_fields(&self) -> (r: Vec<Field>) {
        let r = vec![
            Field::U16(self.comp_classification),
            Field::U16(self.comp_identifier),
            Field::U8(self.comp_classification_index),
            Field::U32(self.active_comp_comparison_stamp),
            Field::U8(self.active_comp_ver_str_type),
            Field::U8(self.active_comp_ver_str_len),
            Field::U8(self.active_comp_release_date[0]),
            Field::U8(self.active_comp_release_date[1]),
            Field::U8(self.active_comp_release_date[2]),
            Field::U8(self.active_comp_release_date[3]),
            Field::U8(self.active_comp_release_date[4]),
            Field::U8(self.active_comp_release_date[5]),
            Field::U8(self.active_comp_release_date[6]),
            Field::U8(self.active_comp_release_date[7]),
            Field::U32(self.pending_comp_comparison_stamp),
            Field::U8(self.pending_comp_ver_str_type),
            Field::U8(self.pending_comp_ver_str_len),
            Field::U8(self.pending_comp_release_date[0]),
            Field::U8(self.pending_comp_release_date[1]),
            Field::U8(self.pending_comp_release_date[2]),
            Field::U8(self.pending_comp_release_date[3]),
            Field::U8(self.pending_comp_release_date[4]),
            Field::U8(self.pending_comp_release_date[5]),
            Field::U8(self.pending_comp_release_date[6]),
            Field::U8(self.pending_comp_release_date[7]),
            Field::U16(self.comp_activation_methods.0),
            Field::U32(self.capabilities_during_update.0),
        ];
        assert(r@ =~= self.spec_fields());
        r
    }

    fn from_fields(fs: &Vec<Field>) -> (r: Self) {
        ComponentParameterEntryFixed { comp_classification: get_u16(&fs[0]), comp_identifier: get_u16(&fs[1]), comp_classification_index: get_u8(&fs[2]), active_comp_comparison_stamp: get_u32(&fs[3]), active_comp_ver_str_type: get_u8(&fs[4]), active_comp_ver_str_len: get_u8(&fs[5]), active_comp_release_date: [get_u8(&fs[6]), get_u8(&fs[7]), get_u8(&fs[8]), get_u8(&fs[9]), get_u8(&fs[10]), get_u8(&fs[11]), get_u8(&fs[12]), get_u8(&fs[13])], pending_comp_comparison_stamp: get_u32(&fs[14]), pending_comp_ver_str_type: get_u8(&fs[15]), pending_comp_ver_str_len: get_u8(&fs[16]), pending_comp_release_date: [get_u8(&fs[17]), get_u8(&fs[18]), get_u8(&fs[19]), get_u8(&fs[20]), get_u8(&fs[21]), get_u8(&fs[22]), get_u8(&fs[23]), get_u8(&fs[24])], comp_activation_methods: ComponentActivationMethods(get_u16(&fs[25])), capabilities_during_update: FirmwareDeviceCapability(get_u32(&fs[26])) }
    }

    proof fn lemma_fields(&self) {
        assert(widths(self.spec_fields()) =~= Self::spec_layout());
        lemma_fits_widths(self.spec_fields());
        lemma_layout_of_fields(self.spec_fields(), Self::spec_layout());
        assert(Self::spec_from_fields(self.spec_fields()).active_comp_release_date =~= self.active_comp_release_date);
        assert(Self::spec_from_fields(self.spec_fields()).pending_comp_release_date =~= self.pending_comp_release_date);
    }

    proof fn lemma_from_fields(fs: Seq<Field>) {
        lemma_field_by_width(fs[0]);
        lemma_field_by_width(fs[1]);
        lemma_field_by_width(fs[2]);
        lemma_field_by_width(fs[3]);
        lemma_field_by_width(fs[4]);
        lemma_field_by_width(fs[5]);
        lemma_field_by_width(fs[6]);
        lemma_field_by_width(fs[7]);
        lemma_field_by_width(fs[8]);
        lemma_field_by_width(fs[9]);
        lemma_field_by_width(fs[10]);
        lemma_field_by_width(fs[11]);
        lemma_field_by_width(fs[12]);
        lemma_field_by_width(fs[13]);
        lemma_field_by_width(fs[14]);
        lemma_field_by_width(fs[15]);
        lemma_field_by_width(fs[16]);
        lemma_field_by_width(fs[17]);
        lemma_field_by_width(fs[18]);
        lemma_field_by_width(fs[19]);
        lemma_field_by_width(fs[20]);
        lemma_field_by_width(fs[21]);
        lemma_field_by_width(fs[22]);
        lemma_field_by_width(fs[23]);
        lemma_field_by_width(fs[24]);
        lemma_field_by_width(fs[25]);
        lemma_field_by_width(fs[26]);
        assert(Self::spec_from_fields(fs).spec_fields() =~= fs);
    }
}

/// A component parameter table entry: the fixed part, the active version
/// string, and the pending version string if there is one (each stored in
/// the first bytes of its array, as many as the fixed part gives).
#[derive(Debug, Clone, Copy, PartialEq, Eq)]
pub struct ComponentParameterEntry {
    pub comp_param_entry_fixed: ComponentParameterEntryFixed,
    pub active_comp_ver_str: [u8; PLDM_FWUP_IMAGE_SET_VER_STR_MAX_LEN],
    pub pending_comp_ver_str: Option<[u8; PLDM_FWUP_IMAGE_SET_VER_STR_MAX_LEN]>,
}

/// The first `n` bytes of a version string array.
pub open spec fn str_prefix(a: [u8; PLDM_FWUP_IMAGE_SET_VER_STR_MAX_LEN], n: u8) -> Seq<u8> {
    a@.subrange(0, n as int)
}

/// The bytes of a version string array beyond its length are zero.
pub open spec fn zero_tail(a: [u8; PLDM_FWUP_IMAGE_SET_VER_STR_MAX_LEN], n: u8) -> bool {
    a@.subrange(n as int, PLDM_FWUP_IMAGE_SET_VER_STR_MAX_LEN as int) == zeros(
        (PLDM_FWUP_IMAGE_SET_VER_STR_MAX_LEN - n) as nat,
    )
}

/// The version string array holding `s` followed by zeros.
pub open spec fn str_array(s: Seq<u8>) -> [u8; PLDM_FWUP_IMAGE_SET_VER_STR_MAX_LEN] {
    array_of::<PLDM_FWUP_IMAGE_SET_VER_STR_MAX_LEN>(
        s + zeros((PLDM_FWUP_IMAGE_SET_VER_STR_MAX_LEN - s.len()) as nat),
    )
}

pub proof fn lemma_str_array(a: [u8; PLDM_FWUP_IMAGE_SET_VER_STR_MAX_LEN], n: u8)
    requires
        zero_tail(a, n),
    ensures
        str_array(str_prefix(a, n)) == a,
{
    assert(str_prefix(a, n) + zeros((PLDM_FWUP_IMAGE_SET_VER_STR_MAX_LEN - n) as nat) =~= a@);
    lemma_array_of::<PLDM_FWUP_IMAGE_SET_VER_STR_MAX_LEN>(a);
}

/// A version string array holding `s` (at most 255 bytes) and zeros.
pub fn str_array_of(s: &[u8]) -> (r: [u8; PLDM_FWUP_IMAGE_SET_VER_STR_MAX_LEN])
    requires
        s@.len() <= PLDM_FWUP_IMAGE_SET_VER_STR_MAX_LEN,
    ensures
        r == str_array(s@),
        r@ == s@ + zeros((PLDM_FWUP_IMAGE_SET_VER_STR_MAX_LEN - s@.len()) as nat),
        zero_tail(r, s@.len() as u8),
        str_prefix(r, s@.len() as u8) == s@,
{
    let r = pad_copy::<PLDM_FWUP_IMAGE_SET_VER_STR_MAX_LEN>(s);
    proof {
        lemma_array_of::<PLDM_FWUP_IMAGE_SET_VER_STR_MAX_LEN>(r);
        assert(r@.subrange(s@.len() as int, PLDM_FWUP_IMAGE_SET_VER_STR_MAX_LEN as int) =~= zeros(
            (PLDM_FWUP_IMAGE_SET_VER_STR_MAX_LEN - s@.len()) as nat,
        ));
        assert(r@.subrange(0, s@.len() as int) =~= s@);
    }
    r
}

/// A copy of the first `n` bytes of a version string array, zero padded.
pub fn copy_prefix(a: &[u8; PLDM_FWUP_IMAGE_SET_VER_STR_MAX_LEN], n: u8) -> (r: [u8;
    PLDM_FWUP_IMAGE_SET_VER_STR_MAX_LEN])
    ensures
        r == str_array(str_prefix(*a, n)),
        zero_tail(r, n),
        str_prefix(r, n) == str_prefix(*a, n),
{
    let p = prefix_vec(a, n as usize);
    str_array_of(p.as_slice())
}

/// The optional part of the entry on the wire.
pub open spec fn pending_bytes(e: ComponentParameterEntry) -> Seq<u8> {
    match e.pending_comp_ver_str {
        Some(p) => str_prefix(p, e.comp_param_entry_fixed.pending_comp_ver_str_len),
        None => Seq::empty(),
    }
}

/// The entry with every field zero and no pending version string.
pub open spec fn default_entry() -> ComponentParameterEntry {
    ComponentParameterEntry {
        comp_param_entry_fixed: ComponentParameterEntryFixed::zeroed(),
        active_comp_ver_str: array_of::<PLDM_FWUP_IMAGE_SET_VER_STR_MAX_LEN>(
            zeros(PLDM_FWUP_IMAGE_SET_VER_STR_MAX_LEN as nat),
        ),
        pending_comp_ver_str: None,
    }
}

impl Default for ComponentParameterEntry {
    fn default() -> (r: Self)
        ensures
            r == default_entry(),
            r.comp_param_entry_fixed == ComponentParameterEntryFixed::zeroed(),
            r.active_comp_ver_str@ == zeros(PLDM_FWUP_IMAGE_SET_VER_STR_MAX_LEN as nat),
            r.pending_comp_ver_str is None,
    {
        let r = ComponentParameterEntry {
            comp_param_entry_fixed: ComponentParameterEntryFixed::new_zeroed(),
            active_comp_ver_str: [0; PLDM_FWUP_IMAGE_SET_VER_STR_MAX_LEN],
            pending_comp_ver_str: None,
        };
        proof {
            vstd::array::axiom_spec_array_fill_for_copy_type::<u8, PLDM_FWUP_IMAGE_SET_VER_STR_MAX_LEN>(0u8);
        }
        assert(r.active_comp_ver_str@ =~= zeros(PLDM_FWUP_IMAGE_SET_VER_STR_MAX_LEN as nat));
        proof {
            lemma_array_of::<PLDM_FWUP_IMAGE_SET_VER_STR_MAX_LEN>(r.active_comp_ver_str);
        }
        r
    }
}

impl ComponentParameterEntryFixed {
    /// The fixed part with every field zero.
    pub open spec fn zeroed() -> Self {
        ComponentParameterEntryFixed {
            comp_classification: 0,
            comp_identifier: 0,
            comp_classification_index: 0,
            active_comp_comparison_stamp: 0,
            active_comp_ver_str_type: 0,
            active_comp_ver_str_len: 0,
            active_comp_release_date: array_of::<PLDM_FWUP_COMPONENT_RELEASE_DATA_LEN>(
                zeros(PLDM_FWUP_COMPONENT_RELEASE_DATA_LEN as nat),
            ),
            pending_comp_comparison_stamp: 0,
            pending_comp_ver_str_type: 0,
            pending_comp_ver_str_len: 0,
            pending_comp_release_date: array_of::<PLDM_FWUP_COMPONENT_RELEASE_DATA_LEN>(
                zeros(PLDM_FWUP_COMPONENT_RELEASE_DATA_LEN as nat),
            ),
            comp_activation_methods: ComponentActivationMethods(0),
            capabilities_during_update: FirmwareDeviceCapability(0),
        }
    }

    pub fn new_zeroed() -> (r: Self)
        ensures
            r == Self::zeroed(),
    {
        let d = [0u8; PLDM_FWUP_COMPONENT_RELEASE_DATA_LEN];
        proof {
            assert(d@ =~= zeros(PLDM_FWUP_COMPONENT_RELEASE_DATA_LEN as nat));
            lemma_array_of::<PLDM_FWUP_COMPONENT_RELEASE_DATA_LEN>(d);
        }
        ComponentParameterEntryFixed {
            comp_classification: 0,
            comp_identifier: 0,
            comp_classification_index: 0,
            active_comp_comparison_stamp: 0,
            active_comp_ver_str_type: 0,
            active_comp_ver_str_len: 0,
            active_comp_release_date: d,
            pending_comp_comparison_stamp: 0,
            pending_comp_ver_str_type: 0,
            pending_comp_ver_str_len: 0,
            pending_comp_release_date: d,
            comp_activation_methods: ComponentActivationMethods(0),
            capabilities_during_update: FirmwareDeviceCapability(0),
        }
    }
}

impl ComponentParameterEntry {
    /// The entry of a component of the given classification, identifier and
    /// index, with its active and pending versions; the pending version
    /// string is left out when it is empty.
    pub fn new(
        comp_classification: ComponentClassification,
        comp_identifier: u16,
        comp_classification_index: u8,
        active_firmware_version: &PldmFirmwareVersion,
        pending_firmware_version: &PldmFirmwareVersion,
        comp_activation_methods: ComponentActivationMethods,
        capabilities_during_update: FirmwareDeviceCapability,
    ) -> (r: Self)
        ensures
            r.comp_param_entry_fixed == (ComponentParameterEntryFixed {
                comp_classification: comp_classification.to_u16(),
                comp_identifier,
                comp_classification_index,
                active_comp_comparison_stamp: active_firmware_version.comparison_stamp,
                active_comp_ver_str_type: active_firmware_version.str.str_type,
                active_comp_ver_str_len: active_firmware_version.str.str_len,
                active_comp_release_date: active_firmware_version.date,
                pending_comp_comparison_stamp: pending_firmware_version.comparison_stamp,
                pending_comp_ver_str_type: pending_firmware_version.str.str_type,
                pending_comp_ver_str_len: pending_firmware_version.str.str_len,
                pending_comp_release_date: pending_firmware_version.date,
                comp_activation_methods,
                capabilities_during_update,
            }),
            r.active_comp_ver_str == str_array(version_bytes(*active_firmware_version.str)),
            pending_firmware_version.str.str_len > 0 ==> r.pending_comp_ver_str == Some(
                str_array(version_bytes(*pending_firmware_version.str)),
            ),
            pending_firmware_version.str.str_len == 0 ==> r.pending_comp_ver_str is None,
            r.spec_well_formed(),
    {
        let active = copy_prefix(&active_firmware_version.str.str_data, active_firmware_version.str.str_len);
        let pending = if pending_firmware_version.str.str_len > 0 {
            Some(copy_prefix(&pending_firmware_version.str.str_data, pending_firmware_version.str.str_len))
        } else {
            None
        };
        ComponentParameterEntry {
            comp_param_entry_fixed: ComponentParameterEntryFixed {
                comp_classification: comp_classification.to_u16(),
                comp_identifier,
                comp_classification_index,
                active_comp_comparison_stamp: active_firmware_version.comparison_stamp,
                active_comp_ver_str_type: active_firmware_version.str.str_type,
                active_comp_ver_str_len: active_firmware_version.str.str_len,
                active_comp_release_date: active_firmware_version.date,
                pending_comp_comparison_stamp: pending_firmware_version.comparison_stamp,
                pending_comp_ver_str_type: pending_firmware_version.str.str_type,
                pending_comp_ver_str_len: pending_firmware_version.str.str_len,
                pending_comp_release_date: pending_firmware_version.date,
                comp_activation_methods,
                capabilities_during_update,
            },
            active_comp_ver_str: active,
            pending_comp_ver_str: pending,
        }
    }

    /// The size of the encoding: the fixed part, the active version string,
    /// and the pending one when present.
    pub fn codec_size_in_bytes(&self) -> (r: usize)
        ensures
            r == self.spec_encoding().len(),
            r == layout_size(ComponentParameterEntryFixed::spec_layout())
                + self.comp_param_entry_fixed.active_comp_ver_str_len + (if self.pending_comp_ver_str is Some {
                self.comp_param_entry_fixed.pending_comp_ver_str_len as int
            } else {
                0
            }),
    {
        proof {
            lemma_fixed_len(&self.comp_param_entry_fixed);
        }
        let mut bytes = fixed_size::<ComponentParameterEntryFixed>();
        bytes = bytes + self.comp_param_entry_fixed.active_comp_ver_str_len as usize;
        if self.pending_comp_ver_str.is_some() {
            bytes = bytes + self.comp_param_entry_fixed.pending_comp_ver_str_len as usize;
        }
        bytes
    }

    /// The encoding as a byte vector.
    pub fn to_bytes(&self) -> (r: Vec<u8>)
        ensures
            r@ == self.spec_encoding(),
    {
        let fixed_fields = self.comp_param_entry_fixed.to_fields();
        let mut data = fields_to_vec(&fixed_fields);
        let active = prefix_vec(
            &self.active_comp_ver_str,
            self.comp_param_entry_fixed.active_comp_ver_str_len as usize,
        );
        append_bytes(&mut data, active.as_slice());
        match &self.pending_comp_ver_str {
            Some(p) => {
                let pending = prefix_vec(p, self.comp_param_entry_fixed.pending_comp_ver_str_len as usize);
                append_bytes(&mut data, pending.as_slice());
            },
            None => {},
        }
        assert(data@ =~= self.spec_encoding());
        data
    }

    /// The active version as a version string.
    pub fn get_active_fw_ver(&self) -> (r: PldmFirmwareString)
        ensures
            r.str_type == self.comp_param_entry_fixed.active_comp_ver_str_type,
            r.str_len == self.comp_param_entry_fixed.active_comp_ver_str_len,
            r.str_data == self.active_comp_ver_str,
    {
        PldmFirmwareString {
            str_type: self.comp_param_entry_fixed.active_comp_ver_str_type,
            str_len: self.comp_param_entry_fixed.active_comp_ver_str_len,
            str_data: self.active_comp_ver_str,
        }
    }
}

impl PldmCodec for ComponentParameterEntry {
    open spec fn spec_encoding(&self) -> Seq<u8> {
        self.comp_param_entry_fixed.spec_encoding() + str_prefix(
            self.active_comp_ver_str,
            self.comp_param_entry_fixed.active_comp_ver_str_len,
        ) + pending_bytes(*self)
    }

    open spec fn spec_decode(bytes: Seq<u8>) -> Option<Self> {
        match ComponentParameterEntryFixed::spec_decode(bytes) {
            None => None,
            Some(f) => {
                let n = layout_size(ComponentParameterEntryFixed::spec_layout()) as int;
                let alen = f.active_comp_ver_str_len as int;
                let plen = f.pending_comp_ver_str_len as int;
                if bytes.len() < n + alen {
                    None
                } else if plen > 0 && bytes.len() < n + alen + plen {
                    None
                } else {
                    Some(
                        ComponentParameterEntry {
                            comp_param_entry_fixed: f,
                            active_comp_ver_str: str_array(bytes.subrange(n, n + alen)),
                            pending_comp_ver_str: if plen > 0 {
                                Some(str_array(bytes.subrange(n + alen, n + alen + plen)))
                            } else {
                                None
                            },
                        },
                    )
                }
            },
        }
    }

    open spec fn spec_well_formed(&self) -> bool {
        &&& zero_tail(self.active_comp_ver_str, self.comp_param_entry_fixed.active_comp_ver_str_len)
        &&& (self.pending_comp_ver_str is Some) == (self.comp_param_entry_fixed.pending_comp_ver_str_len
            > 0)
        &&& match self.pending_comp_ver_str {
            Some(p) => zero_tail(p, self.comp_param_entry_fixed.pending_comp_ver_str_len),
            None => true,
        }
    }

    open spec fn spec_required_len(&self) -> nat {
        self.spec_encoding().len()
    }

    open spec fn spec_encode_admits(&self, buffer_len: nat) -> bool {
        true
    }

    open spec fn spec_decode_admits(bytes: Seq<u8>) -> bool {
        true
    }

    fn encode(&self, buffer: &mut [u8]) -> (r: Result<usize, PldmCodecError>) {
        let data = self.to_bytes();
        put_encoding(&data, data.len(), buffer)
    }

    fn decode(buffer: &[u8]) -> (r: Result<Self, PldmCodecError>) {
        let fixed = match ComponentParameterEntryFixed::decode(buffer) {
            Ok(f) => f,
            Err(e) => return Err(e),
        };
        let n = fixed_size::<ComponentParameterEntryFixed>();
        let alen = fixed.active_comp_ver_str_len as usize;
        let plen = fixed.pending_comp_ver_str_len as usize;
        if buffer.len() - n < alen {
            return Err(PldmCodecError::BufferTooShort);
        }
        let active = str_array_of(slice_subrange(buffer, n, n + alen));
        let pending = if plen > 0 {
            if buffer.len() - n - alen < plen {
                return Err(PldmCodecError::BufferTooShort);
            }
            Some(str_array_of(slice_subrange(buffer, n + alen, n + alen + plen)))
        } else {
            None
        };
        Ok(ComponentParameterEntry {
            comp_param_entry_fixed: fixed,
            active_comp_ver_str: active,
            pending_comp_ver_str: pending,
        })
    }

    proof fn lemma_roundtrip(&self, rest: Seq<u8>) {
        let f = self.comp_param_entry_fixed;
        let alen = f.active_comp_ver_str_len;
        let plen = f.pending_comp_ver_str_len;
        let act = str_prefix(self.active_comp_ver_str, alen);
        let pend = pending_bytes(*self);
        let tail = act + pend + rest;
        f.lemma_roundtrip(tail);
        f.lemma_fields();
        lemma_fields_roundtrip(f.spec_fields(), ComponentParameterEntryFixed::spec_layout(), tail);
        let b = self.spec_encoding() + rest;
        assert(b =~= f.spec_encoding() + tail);
        let n = layout_size(ComponentParameterEntryFixed::spec_layout()) as int;
        assert(b.subrange(n, n + alen) =~= act);
        lemma_str_array(self.active_comp_ver_str, alen);
        match self.pending_comp_ver_str {
            Some(p) => {
                assert(b.subrange(n + alen, n + alen + plen) =~= pend);
                lemma_str_array(p, plen);
            },
            None => {},
        }
    }
}

impl EncodedSize for ComponentParameterEntry {
    open spec fn spec_encodable(&self) -> bool {
        true
    }

    fn encoded_size(&self) -> (r: usize) {
        self.codec_size_in_bytes()
    }

    fn encoding_bytes(&self) -> (r: Vec<u8>) {
        self.to_bytes()
    }

    proof fn lemma_decoded_fits(bytes: Seq<u8>) {
        let f = ComponentParameterEntryFixed::spec_decode(bytes).unwrap();
        lemma_fixed_len(&f);
    }

    proof fn lemma_well_formed_encodable(&self) {
    }
}

/// Whether a component of the table can be updated.
#[derive(Debug, Clone, Copy, PartialEq, Eq, Structural)]
pub enum ComponentResponse {
    CompCanBeUpdated,
    CompCannotBeUpdated,
}

impl ComponentResponse {
    /// The code of the value on the wire.
    #[verifier::allow_in_spec]
    pub fn to_u8(self) -> u8
        returns
            (match self {
                ComponentResponse::CompCanBeUpdated => 0x0u8,
                ComponentResponse::CompCannotBeUpdated => 0x1u8,
            }),
    {
        match self {
            ComponentResponse::CompCanBeUpdated => 0x0,
            ComponentResponse::CompCannotBeUpdated => 0x1,
        }
    }
}

/// Why a component of the table can or cannot be updated (vendor-defined codes are 0xd0 to 0xef).
#[derive(Debug, Clone, Copy, PartialEq, Eq, Structural)]
pub enum ComponentResponseCode {
    CompCanBeUpdated,
    CompComparisonStampIdentical,
    CompComparisonStampLower,
    InvalidCompComparisonStamp,
    CompConflict,
    CompPrerequisitesNotMet,
    CompNotSupported,
    CompSecurityRestrictions,
    IncompleteCompImageSet,
    ActiveImageNotUpdateableSubsequently,
    CompVerStrIdentical,
    CompVerStrLower,
    VendorDefined,
}

impl ComponentResponseCode {
    /// The code of the value on the wire.
    #[verifier::allow_in_spec]
    pub fn to_u8(self) -> u8
        returns
            (match self {
                ComponentResponseCode::CompCanBeUpdated => 0x0u8,
                ComponentResponseCode::CompComparisonStampIdentical => 0x1u8,
                ComponentResponseCode::CompComparisonStampLower => 0x2u8,
                ComponentResponseCode::InvalidCompComparisonStamp => 0x3u8,
                ComponentResponseCode::CompConflict => 0x4u8,
                ComponentResponseCode::CompPrerequisitesNotMet => 0x5u8,
                ComponentResponseCode::CompNotSupported => 0x6u8,
                ComponentResponseCode::CompSecurityRestrictions => 0x7u8,
                ComponentResponseCode::IncompleteCompImageSet => 0x8u8,
                ComponentResponseCode::ActiveImageNotUpdateableSubsequently => 0x9u8,
                ComponentResponseCode::CompVerStrIdentical => 0xau8,
                ComponentResponseCode::CompVerStrLower => 0xbu8,
                ComponentResponseCode::VendorDefined => 0xcu8,
            }),
    {
        match self {
            ComponentResponseCode::CompCanBeUpdated => 0x0,
            ComponentResponseCode::CompComparisonStampIdentical => 0x1,
            ComponentResponseCode::CompComparisonStampLower => 0x2,
            ComponentResponseCode::InvalidCompComparisonStamp => 0x3,
            ComponentResponseCode::CompConflict => 0x4,
            ComponentResponseCode::CompPrerequisitesNotMet => 0x5,
            ComponentResponseCode::CompNotSupported => 0x6,
            ComponentResponseCode::CompSecurityRestrictions => 0x7,
            ComponentResponseCode::IncompleteCompImageSet => 0x8,
            ComponentResponseCode::ActiveImageNotUpdateableSubsequently => 0x9,
            ComponentResponseCode::CompVerStrIdentical => 0xa,
            ComponentResponseCode::CompVerStrLower => 0xb,
            ComponentResponseCode::VendorDefined => 0xc,
        }
    }
}

impl core::convert::TryFrom<u8> for ComponentResponseCode {
    type Error = PldmError;

    fn try_from(value: u8) -> (r: Result<ComponentResponseCode, PldmError>) {
        match value {
            0x0 => Ok(ComponentResponseCode::CompCanBeUpdated),
            0x1 => Ok(ComponentResponseCode::CompComparisonStampIdentical),
            0x2 => Ok(ComponentResponseCode::CompComparisonStampLower),
            0x3 => Ok(ComponentResponseCode::InvalidCompComparisonStamp),
            0x4 => Ok(ComponentResponseCode::CompConflict),
            0x5 => Ok(ComponentResponseCode::CompPrerequisitesNotMet),
            0x6 => Ok(ComponentResponseCode::CompNotSupported),
            0x7 => Ok(ComponentResponseCode::CompSecurityRestrictions),
            0x8 => Ok(ComponentResponseCode::IncompleteCompImageSet),
            0x9 => Ok(ComponentResponseCode::ActiveImageNotUpdateableSubsequently),
            0xa => Ok(ComponentResponseCode::CompVerStrIdentical),
            0xb => Ok(ComponentResponseCode::CompVerStrLower),
            v if 0xd0 <= v && v <= 0xef => Ok(ComponentResponseCode::VendorDefined),
            _ => Err(PldmError::InvalidComponentResponseCode),
        }
    }
}

impl vstd::std_specs::convert::TryFromSpecImpl<u8> for ComponentResponseCode {
    open spec fn obeys_try_from_spec() -> bool {
        true
    }

    open spec fn try_from_spec(value: u8) -> Result<ComponentResponseCode, PldmError> {
        match value {
            0x0 => Ok(ComponentResponseCode::CompCanBeUpdated),
            0x1 => Ok(ComponentResponseCode::CompComparisonStampIdentical),
            0x2 => Ok(ComponentResponseCode::CompComparisonStampLower),
            0x3 => Ok(ComponentResponseCode::InvalidCompComparisonStamp),
            0x4 => Ok(ComponentResponseCode::CompConflict),
            0x5 => Ok(ComponentResponseCode::CompPrerequisitesNotMet),
            0x6 => Ok(ComponentResponseCode::CompNotSupported),
            0x7 => Ok(ComponentResponseCode::CompSecurityRestrictions),
            0x8 => Ok(ComponentResponseCode::IncompleteCompImageSet),
            0x9 => Ok(ComponentResponseCode::ActiveImageNotUpdateableSubsequently),
            0xa => Ok(ComponentResponseCode::CompVerStrIdentical),
            0xb => Ok(ComponentResponseCode::CompVerStrLower),
            v if 0xd0 <= v && v <= 0xef => Ok(ComponentResponseCode::VendorDefined),
            _ => Err(PldmError::InvalidComponentResponseCode),
        }
    }
}

/// Whether an offered component can be updated.
#[derive(Debug, Clone, Copy, PartialEq, Eq, Structural)]
pub enum ComponentCompatibilityResponse {
    CompCanBeUpdated,
    CompCannotBeUpdated,
}

impl ComponentCompatibilityResponse {
    /// The code of the value on the wire.
    #[verifier::allow_in_spec]
    pub fn to_u8(self) -> u8
        returns
            (match self {
                ComponentCompatibilityResponse::CompCanBeUpdated => 0x0u8,
                ComponentCompatibilityResponse::CompCannotBeUpdated => 0x1u8,
            }),
    {
        match self {
            ComponentCompatibilityResponse::CompCanBeUpdated => 0x0,
            ComponentCompatibilityResponse::CompCannotBeUpdated => 0x1,
        }
    }
}

impl core::convert::TryFrom<u8> for ComponentCompatibilityResponse {
    type Error = PldmError;

    fn try_from(value: u8) -> (r: Result<ComponentCompatibilityResponse, PldmError>) {
        match value {
            0x0 => Ok(ComponentCompatibilityResponse::CompCanBeUpdated),
            0x1 => Ok(ComponentCompatibilityResponse::CompCannotBeUpdated),
            _ => Err(PldmError::InvalidComponentCompatibilityResponse),
        }
    }
}

impl vstd::std_specs::convert::TryFromSpecImpl<u8> for ComponentCompatibilityResponse {
    open spec fn obeys_try_from_spec() -> bool {
        true
    }

    open spec fn try_from_spec(value: u8) -> Result<ComponentCompatibilityResponse, PldmError> {
        match value {
            0x0 => Ok(ComponentCompatibilityResponse::CompCanBeUpdated),
            0x1 => Ok(ComponentCompatibilityResponse::CompCannotBeUpdated),
            _ => Err(PldmError::InvalidComponentCompatibilityResponse),
        }
    }
}

/// Why an offered component can or cannot be updated (vendor-defined codes are 0xd0 to 0xef).
#[derive(Debug, Clone, Copy, PartialEq, Eq, Structural)]
pub enum ComponentCompatibilityResponseCode {
    NoResponseCode,
    CompComparisonStampIdentical,
    CompComparisonStampLower,
    InvalidCompComparisonStamp,
    CompConflict,
    CompPrerequisitesNotMet,
    CompNotSupported,
    CompSecurityRestrictions,
    IncompleteCompImageSet,
    CompInfoNoMatch,
    CompVerStrIdentical,
    CompVerStrLower,
    VendorDefined,
}

impl ComponentCompatibilityResponseCode {
    /// The code of the value on the wire.
    #[verifier::allow_in_spec]
    pub fn to_u8(self) -> u8
        returns
            (match self {
                ComponentCompatibilityResponseCode::NoResponseCode => 0x0u8,
                ComponentCompatibilityResponseCode::CompComparisonStampIdentical => 0x1u8,
                ComponentCompatibilityResponseCode::CompComparisonStampLower => 0x2u8,
                ComponentCompatibilityResponseCode::InvalidCompComparisonStamp => 0x3u8,
                ComponentCompatibilityResponseCode::CompConflict => 0x4u8,
                ComponentCompatibilityResponseCode::CompPrerequisitesNotMet => 0x5u8,
                ComponentCompatibilityResponseCode::CompNotSupported => 0x6u8,
                ComponentCompatibilityResponseCode::CompSecurityRestrictions => 0x7u8,
                ComponentCompatibilityResponseCode::IncompleteCompImageSet => 0x8u8,
                ComponentCompatibilityResponseCode::CompInfoNoMatch => 0x9u8,
                ComponentCompatibilityResponseCode::CompVerStrIdentical => 0xau8,
                ComponentCompatibilityResponseCode::CompVerStrLower => 0xbu8,
                ComponentCompatibilityResponseCode::VendorDefined => 0xcu8,
            }),
    {
        match self {
            ComponentCompatibilityResponseCode::NoResponseCode => 0x0,
            ComponentCompatibilityResponseCode::CompComparisonStampIdentical => 0x1,
            ComponentCompatibilityResponseCode::CompComparisonStampLower => 0x2,
            ComponentCompatibilityResponseCode::InvalidCompComparisonStamp => 0x3,
            ComponentCompatibilityResponseCode::CompConflict => 0x4,
            ComponentCompatibilityResponseCode::CompPrerequisitesNotMet => 0x5,
            ComponentCompatibilityResponseCode::CompNotSupported => 0x6,
            ComponentCompatibilityResponseCode::CompSecurityRestrictions => 0x7,
            ComponentCompatibilityResponseCode::IncompleteCompImageSet => 0x8,
            ComponentCompatibilityResponseCode::CompInfoNoMatch => 0x9,
            ComponentCompatibilityResponseCode::CompVerStrIdentical => 0xa,
            ComponentCompatibilityResponseCode::CompVerStrLower => 0xb,
            ComponentCompatibilityResponseCode::VendorDefined => 0xc,
        }
    }
}

impl core::convert::TryFrom<u8> for ComponentCompatibilityResponseCode {
    type Error = PldmError;

    fn try_from(value: u8) -> (r: Result<ComponentCompatibilityResponseCode, PldmError>) {
        match value {
            0x0 => Ok(ComponentCompatibilityResponseCode::NoResponseCode),
            0x1 => Ok(ComponentCompatibilityResponseCode::CompComparisonStampIdentical),
            0x2 => Ok(ComponentCompatibilityResponseCode::CompComparisonStampLower),
            0x3 => Ok(ComponentCompatibilityResponseCode::InvalidCompComparisonStamp),
            0x4 => Ok(ComponentCompatibilityResponseCode::CompConflict),
            0x5 => Ok(ComponentCompatibilityResponseCode::CompPrerequisitesNotMet),
            0x6 => Ok(ComponentCompatibilityResponseCode::CompNotSupported),
            0x7 => Ok(ComponentCompatibilityResponseCode::CompSecurityRestrictions),
            0x8 => Ok(ComponentCompatibilityResponseCode::IncompleteCompImageSet),
            0x9 => Ok(ComponentCompatibilityResponseCode::CompInfoNoMatch),
            0xa => Ok(ComponentCompatibilityResponseCode::CompVerStrIdentical),
            0xb => Ok(ComponentCompatibilityResponseCode::CompVerStrLower),
            v if 0xd0 <= v && v <= 0xef => Ok(ComponentCompatibilityResponseCode::VendorDefined),
            _ => Err(PldmError::InvalidComponentCompatibilityResponseCode),
        }
    }
}

impl vstd::std_specs::convert::TryFromSpecImpl<u8> for ComponentCompatibilityResponseCode {
    open spec fn obeys_try_from_spec() -> bool {
        true
    }

    open spec fn try_from_spec(value: u8) -> Result<ComponentCompatibilityResponseCode, PldmError> {
        match value {
            0x0 => Ok(ComponentCompatibilityResponseCode::NoResponseCode),
            0x1 => Ok(ComponentCompatibilityResponseCode::CompComparisonStampIdentical),
            0x2 => Ok(ComponentCompatibilityResponseCode::CompComparisonStampLower),
            0x3 => Ok(ComponentCompatibilityResponseCode::InvalidCompComparisonStamp),
            0x4 => Ok(ComponentCompatibilityResponseCode::CompConflict),
            0x5 => Ok(ComponentCompatibilityResponseCode::CompPrerequisitesNotMet),
            0x6 => Ok(ComponentCompatibilityResponseCode::CompNotSupported),
            0x7 => Ok(ComponentCompatibilityResponseCode::CompSecurityRestrictions),
            0x8 => Ok(ComponentCompatibilityResponseCode::IncompleteCompImageSet),
            0x9 => Ok(ComponentCompatibilityResponseCode::CompInfoNoMatch),
            0xa => Ok(ComponentCompatibilityResponseCode::CompVerStrIdentical),
            0xb => Ok(ComponentCompatibilityResponseCode::CompVerStrLower),
            v if 0xd0 <= v && v <= 0xef => Ok(ComponentCompatibilityResponseCode::VendorDefined),
            _ => Err(PldmError::InvalidComponentCompatibilityResponseCode),
        }
    }
}

} // verus!
