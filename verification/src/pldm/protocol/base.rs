use crate::pldm::codec::{
    lemma_field_by_width, lemma_fits_widths, lemma_layout_of_fields, widths, FixedFields,
};
use crate::pldm::error::PldmError;
use crate::wire::{fv8, get_u8, Field};
use vstd::prelude::*;

verus! {

pub const PLDM_MSG_HEADER_LEN: usize = 3;

pub const PLDM_FAILURE_RESP_LEN: usize = 4;

pub type InstanceId = u8;

/// PLDM types this implementation knows.
#[derive(Debug, Clone, Copy, PartialEq, Eq, Structural)]
pub enum PldmSupportedType {
    Base,
    Platform,
    Bios,
    Fru,
    FwUpdate,
    Oem,
}

impl PldmSupportedType {
    /// The code of the value on the wire.
    #[verifier::allow_in_spec]
    pub fn to_u8(self) -> u8
        returns
            (match self {
                PldmSupportedType::Base => 0x0u8,
                PldmSupportedType::Platform => 0x2u8,
                PldmSupportedType::Bios => 0x3u8,
                PldmSupportedType::Fru => 0x4u8,
                PldmSupportedType::FwUpdate => 0x5u8,
                PldmSupportedType::Oem => 0x3fu8,
            }),
    {
        match self {
            PldmSupportedType::Base => 0x0,
            PldmSupportedType::Platform => 0x2,
            PldmSupportedType::Bios => 0x3,
            PldmSupportedType::Fru => 0x4,
            PldmSupportedType::FwUpdate => 0x5,
            PldmSupportedType::Oem => 0x3f,
        }
    }
}

impl core::convert::TryFrom<u8> for PldmSupportedType {
    type Error = PldmError;

    fn try_from(value: u8) -> (r: Result<PldmSupportedType, PldmError>) {
        match value {
            0x0 => Ok(PldmSupportedType::Base),
            0x2 => Ok(PldmSupportedType::Platform),
            0x3 => Ok(PldmSupportedType::Bios),
            0x4 => Ok(PldmSupportedType::Fru),
            0x5 => Ok(PldmSupportedType::FwUpdate),
            0x3f => Ok(PldmSupportedType::Oem),
            _ => Err(PldmError::UnsupportedPldmType),
        }
    }
}

impl vstd::std_specs::convert::TryFromSpecImpl<u8> for PldmSupportedType {
    open spec fn obeys_try_from_spec() -> bool {
        true
    }

    open spec fn try_from_spec(value: u8) -> Result<PldmSupportedType, PldmError> {
        match value {
            0x0 => Ok(PldmSupportedType::Base),
            0x2 => Ok(PldmSupportedType::Platform),
            0x3 => Ok(PldmSupportedType::Bios),
            0x4 => Ok(PldmSupportedType::Fru),
            0x5 => Ok(PldmSupportedType::FwUpdate),
            0x3f => Ok(PldmSupportedType::Oem),
            _ => Err(PldmError::UnsupportedPldmType),
        }
    }
}

/// Commands of the PLDM messaging control and discovery type.
#[derive(Debug, Clone, Copy, PartialEq, Eq, Structural)]
pub enum PldmControlCmd {
    SetTid,
    GetTid,
    GetPldmVersion,
    GetPldmTypes,
    GetPldmCommands,
}

impl PldmControlCmd {
    /// The code of the value on the wire.
    #[verifier::allow_in_spec]
    pub fn to_u8(self) -> u8
        returns
            (match self {
                PldmControlCmd::SetTid => 0x1u8,
                PldmControlCmd::GetTid => 0x2u8,
                PldmControlCmd::GetPldmVersion => 0x3u8,
                PldmControlCmd::GetPldmTypes => 0x4u8,
                PldmControlCmd::GetPldmCommands => 0x5u8,
            }),
    {
        match self {
            PldmControlCmd::SetTid => 0x1,
            PldmControlCmd::GetTid => 0x2,
            PldmControlCmd::GetPldmVersion => 0x3,
            PldmControlCmd::GetPldmTypes => 0x4,
            PldmControlCmd::GetPldmCommands => 0x5,
        }
    }
}

impl core::convert::TryFrom<u8> for PldmControlCmd {
    type Error = PldmError;

    fn try_from(value: u8) -> (r: Result<PldmControlCmd, PldmError>) {
        match value {
            0x1 => Ok(PldmControlCmd::SetTid),
            0x2 => Ok(PldmControlCmd::GetTid),
            0x3 => Ok(PldmControlCmd::GetPldmVersion),
            0x4 => Ok(PldmControlCmd::GetPldmTypes),
            0x5 => Ok(PldmControlCmd::GetPldmCommands),
            _ => Err(PldmError::UnsupportedCmd),
        }
    }
}

impl vstd::std_specs::convert::TryFromSpecImpl<u8> for PldmControlCmd {
    open spec fn obeys_try_from_spec() -> bool {
        true
    }

    open spec fn try_from_spec(value: u8) -> Result<PldmControlCmd, PldmError> {
        match value {
            0x1 => Ok(PldmControlCmd::SetTid),
            0x2 => Ok(PldmControlCmd::GetTid),
            0x3 => Ok(PldmControlCmd::GetPldmVersion),
            0x4 => Ok(PldmControlCmd::GetPldmTypes),
            0x5 => Ok(PldmControlCmd::GetPldmCommands),
            _ => Err(PldmError::UnsupportedCmd),
        }
    }
}

/// Message kinds, encoded in the request and datagram bits of the header.
#[derive(Debug, Clone, Copy, PartialEq, Eq, Structural)]
pub enum PldmMsgType {
    Response,
    Reserved,
    Request,
    AsyncRequestNotify,
}

impl PldmMsgType {
    /// The code of the value on the wire.
    #[verifier::allow_in_spec]
    pub fn to_u8(self) -> u8
        returns
            (match self {
                PldmMsgType::Response => 0x0u8,
                PldmMsgType::Reserved => 0x1u8,
                PldmMsgType::Request => 0x2u8,
                PldmMsgType::AsyncRequestNotify => 0x3u8,
            }),
    {
        match self {
            PldmMsgType::Response => 0x0,
            PldmMsgType::Reserved => 0x1,
            PldmMsgType::Request => 0x2,
            PldmMsgType::AsyncRequestNotify => 0x3,
        }
    }
}

impl core::convert::TryFrom<u8> for PldmMsgType {
    type Error = PldmError;

    fn try_from(value: u8) -> (r: Result<PldmMsgType, PldmError>) {
        match value {
            0x0 => Ok(PldmMsgType::Response),
            0x1 => Ok(PldmMsgType::Reserved),
            0x2 => Ok(PldmMsgType::Request),
            0x3 => Ok(PldmMsgType::AsyncRequestNotify),
            _ => Err(PldmError::InvalidMsgType),
        }
    }
}

impl vstd::std_specs::convert::TryFromSpecImpl<u8> for PldmMsgType {
    open spec fn obeys_try_from_spec() -> bool {
        true
    }

    open spec fn try_from_spec(value: u8) -> Result<PldmMsgType, PldmError> {
        match value {
            0x0 => Ok(PldmMsgType::Response),
            0x1 => Ok(PldmMsgType::Reserved),
            0x2 => Ok(PldmMsgType::Request),
            0x3 => Ok(PldmMsgType::AsyncRequestNotify),
            _ => Err(PldmError::InvalidMsgType),
        }
    }
}

/// Versions of the PLDM header format.
#[derive(Debug, Clone, Copy, PartialEq, Eq, Structural)]
pub enum PldmHeaderVersion {
    Version0,
}

impl PldmHeaderVersion {
    /// The code of the value on the wire.
    #[verifier::allow_in_spec]
    pub fn to_u8(self) -> u8
        returns
            (match self {
                PldmHeaderVersion::Version0 => 0x0u8,
            }),
    {
        match self {
            PldmHeaderVersion::Version0 => 0x0,
        }
    }
}

impl core::convert::TryFrom<u8> for PldmHeaderVersion {
    type Error = PldmError;

    fn try_from(value: u8) -> (r: Result<PldmHeaderVersion, PldmError>) {
        match value {
            0x0 => Ok(PldmHeaderVersion::Version0),
            _ => Err(PldmError::InvalidProtocolVersion),
        }
    }
}

impl vstd::std_specs::convert::TryFromSpecImpl<u8> for PldmHeaderVersion {
    open spec fn obeys_try_from_spec() -> bool {
        true
    }

    open spec fn try_from_spec(value: u8) -> Result<PldmHeaderVersion, PldmError> {
        match value {
            0x0 => Ok(PldmHeaderVersion::Version0),
            _ => Err(PldmError::InvalidProtocolVersion),
        }
    }
}

/// Completion codes common to all PLDM types.
#[derive(Debug, Clone, Copy, PartialEq, Eq, Structural)]
pub enum PldmBaseCompletionCode {
    Success,
    Error,
    InvalidData,
    InvalidLength,
    NotReady,
    UnsupportedPldmCmd,
    InvalidPldmType,
}

impl PldmBaseCompletionCode {
    /// The code of the value on the wire.
    #[verifier::allow_in_spec]
    pub fn to_u8(self) -> u8
        returns
            (match self {
                PldmBaseCompletionCode::Success => 0x0u8,
                PldmBaseCompletionCode::Error => 0x1u8,
                PldmBaseCompletionCode::InvalidData => 0x2u8,
                PldmBaseCompletionCode::InvalidLength => 0x3u8,
                PldmBaseCompletionCode::NotReady => 0x4u8,
                PldmBaseCompletionCode::UnsupportedPldmCmd => 0x5u8,
                PldmBaseCompletionCode::InvalidPldmType => 0x20u8,
            }),
    {
        match self {
            PldmBaseCompletionCode::Success => 0x0,
            PldmBaseCompletionCode::Error => 0x1,
            PldmBaseCompletionCode::InvalidData => 0x2,
            PldmBaseCompletionCode::InvalidLength => 0x3,
            PldmBaseCompletionCode::NotReady => 0x4,
            PldmBaseCompletionCode::UnsupportedPldmCmd => 0x5,
            PldmBaseCompletionCode::InvalidPldmType => 0x20,
        }
    }
}

impl core::convert::TryFrom<u8> for PldmBaseCompletionCode {
    type Error = PldmError;

    fn try_from(value: u8) -> (r: Result<PldmBaseCompletionCode, PldmError>) {
        match value {
            0x0 => Ok(PldmBaseCompletionCode::Success),
            0x1 => Ok(PldmBaseCompletionCode::Error),
            0x2 => Ok(PldmBaseCompletionCode::InvalidData),
            0x3 => Ok(PldmBaseCompletionCode::InvalidLength),
            0x4 => Ok(PldmBaseCompletionCode::NotReady),
            0x5 => Ok(PldmBaseCompletionCode::UnsupportedPldmCmd),
            0x20 => Ok(PldmBaseCompletionCode::InvalidPldmType),
            _ => Err(PldmError::InvalidCompletionCode),
        }
    }
}

impl vstd::std_specs::convert::TryFromSpecImpl<u8> for PldmBaseCompletionCode {
    open spec fn obeys_try_from_spec() -> bool {
        true
    }

    open spec fn try_from_spec(value: u8) -> Result<PldmBaseCompletionCode, PldmError> {
        match value {
            0x0 => Ok(PldmBaseCompletionCode::Success),
            0x1 => Ok(PldmBaseCompletionCode::Error),
            0x2 => Ok(PldmBaseCompletionCode::InvalidData),
            0x3 => Ok(PldmBaseCompletionCode::InvalidLength),
            0x4 => Ok(PldmBaseCompletionCode::NotReady),
            0x5 => Ok(PldmBaseCompletionCode::UnsupportedPldmCmd),
            0x20 => Ok(PldmBaseCompletionCode::InvalidPldmType),
            _ => Err(PldmError::InvalidCompletionCode),
        }
    }
}

/// Completion codes of the control and discovery commands.
#[derive(Debug, Clone, Copy, PartialEq, Eq, Structural)]
pub enum PldmControlCompletionCode {
    InvalidDataTransferHandle,
    InvalidTransferOperationFlag,
    InvalidPldmTypeInRequestData,
    InvalidPldmVersionInRequestData,
}

impl PldmControlCompletionCode {
    /// The code of the value on the wire.
    #[verifier::allow_in_spec]
    pub fn to_u8(self) -> u8
        returns
            (match self {
                PldmControlCompletionCode::InvalidDataTransferHandle => 0x80u8,
                PldmControlCompletionCode::InvalidTransferOperationFlag => 0x81u8,
                PldmControlCompletionCode::InvalidPldmTypeInRequestData => 0x83u8,
                PldmControlCompletionCode::InvalidPldmVersionInRequestData => 0x84u8,
            }),
    {
        match self {
            PldmControlCompletionCode::InvalidDataTransferHandle => 0x80,
            PldmControlCompletionCode::InvalidTransferOperationFlag => 0x81,
            PldmControlCompletionCode::InvalidPldmTypeInRequestData => 0x83,
            PldmControlCompletionCode::InvalidPldmVersionInRequestData => 0x84,
        }
    }
}

impl core::convert::TryFrom<u8> for PldmControlCompletionCode {
    type Error = PldmError;

    fn try_from(value: u8) -> (r: Result<PldmControlCompletionCode, PldmError>) {
        match value {
            0x80 => Ok(PldmControlCompletionCode::InvalidDataTransferHandle),
            0x81 => Ok(PldmControlCompletionCode::InvalidTransferOperationFlag),
            0x83 => Ok(PldmControlCompletionCode::InvalidPldmTypeInRequestData),
            0x84 => Ok(PldmControlCompletionCode::InvalidPldmVersionInRequestData),
            _ => Err(PldmError::InvalidCompletionCode),
        }
    }
}

impl vstd::std_specs::convert::TryFromSpecImpl<u8> for PldmControlCompletionCode {
    open spec fn obeys_try_from_spec() -> bool {
        true
    }

    open spec fn try_from_spec(value: u8) -> Result<PldmControlCompletionCode, PldmError> {
        match value {
            0x80 => Ok(PldmControlCompletionCode::InvalidDataTransferHandle),
            0x81 => Ok(PldmControlCompletionCode::InvalidTransferOperationFlag),
            0x83 => Ok(PldmControlCompletionCode::InvalidPldmTypeInRequestData),
            0x84 => Ok(PldmControlCompletionCode::InvalidPldmVersionInRequestData),
            _ => Err(PldmError::InvalidCompletionCode),
        }
    }
}

/// Transfer operation flag of multipart requests.
#[derive(Debug, Clone, Copy, PartialEq, Eq, Structural)]
pub enum TransferOperationFlag {
    GetNextPart,
    GetFirstPart,
}

impl TransferOperationFlag {
    /// The code of the value on the wire.
    #[verifier::allow_in_spec]
    pub fn to_u8(self) -> u8
        returns
            (match self {
                TransferOperationFlag::GetNextPart => 0x0u8,
                TransferOperationFlag::GetFirstPart => 0x1u8,
            }),
    {
        match self {
            TransferOperationFlag::GetNextPart => 0x0,
            TransferOperationFlag::GetFirstPart => 0x1,
        }
    }
}

impl core::convert::TryFrom<u8> for TransferOperationFlag {
    type Error = PldmError;

    fn try_from(value: u8) -> (r: Result<TransferOperationFlag, PldmError>) {
        match value {
            0x0 => Ok(TransferOperationFlag::GetNextPart),
            0x1 => Ok(TransferOperationFlag::GetFirstPart),
            _ => Err(PldmError::InvalidTransferOpFlag),
        }
    }
}

impl vstd::std_specs::convert::TryFromSpecImpl<u8> for TransferOperationFlag {
    open spec fn obeys_try_from_spec() -> bool {
        true
    }

    open spec fn try_from_spec(value: u8) -> Result<TransferOperationFlag, PldmError> {
        match value {
            0x0 => Ok(TransferOperationFlag::GetNextPart),
            0x1 => Ok(TransferOperationFlag::GetFirstPart),
            _ => Err(PldmError::InvalidTransferOpFlag),
        }
    }
}

/// Transfer flag of multipart responses.
#[derive(Debug, Clone, Copy, PartialEq, Eq, Structural)]
pub enum TransferRespFlag {
    Start,
    Middle,
    End,
    StartAndEnd,
}

impl TransferRespFlag {
    /// The code of the value on the wire.
    #[verifier::allow_in_spec]
    pub fn to_u8(self) -> u8
        returns
            (match self {
                TransferRespFlag::Start => 0x1u8,
                TransferRespFlag::Middle => 0x2u8,
                TransferRespFlag::End => 0x4u8,
                TransferRespFlag::StartAndEnd => 0x5u8,
            }),
    {
        match self {
            TransferRespFlag::Start => 0x1,
            TransferRespFlag::Middle => 0x2,
            TransferRespFlag::End => 0x4,
            TransferRespFlag::StartAndEnd => 0x5,
        }
    }
}

impl core::convert::TryFrom<u8> for TransferRespFlag {
    type Error = PldmError;

    fn try_from(value: u8) -> (r: Result<TransferRespFlag, PldmError>) {
        match value {
            0x1 => Ok(TransferRespFlag::Start),
            0x2 => Ok(TransferRespFlag::Middle),
            0x4 => Ok(TransferRespFlag::End),
            0x5 => Ok(TransferRespFlag::StartAndEnd),
            _ => Err(PldmError::InvalidTransferRespFlag),
        }
    }
}

impl vstd::std_specs::convert::TryFromSpecImpl<u8> for TransferRespFlag {
    open spec fn obeys_try_from_spec() -> bool {
        true
    }

    open spec fn try_from_spec(value: u8) -> Result<TransferRespFlag, PldmError> {
        match value {
            0x1 => Ok(TransferRespFlag::Start),
            0x2 => Ok(TransferRespFlag::Middle),
            0x4 => Ok(TransferRespFlag::End),
            0x5 => Ok(TransferRespFlag::StartAndEnd),
            _ => Err(PldmError::InvalidTransferRespFlag),
        }
    }
}

/// The header of a PLDM message: three bytes holding, from the least
/// significant bit of the first byte, the instance id (5 bits), a reserved
/// bit, the datagram bit, the request bit, the PLDM type (6 bits), the header
/// version (2 bits) and the command code (8 bits).
#[derive(Debug, Clone, Copy, PartialEq, Eq)]
pub struct PldmMsgHeader(pub [u8; PLDM_MSG_HEADER_LEN]);

/// The header bytes holding the given field values (each truncated to its
/// width).
pub open spec fn header_bytes(
    instance_id: u8,
    datagram: u8,
    rq: u8,
    pldm_type: u8,
    hdr_ver: u8,
    cmd_code: u8,
) -> Seq<u8> {
    seq![
        ((instance_id & 0x1f) | ((datagram & 1) << 6u8) | ((rq & 1) << 7u8)) as u8,
        ((pldm_type & 0x3f) | ((hdr_ver & 3) << 6u8)) as u8,
        cmd_code,
    ]
}

/// The header of a message of the given kind, type and command (header
/// version 0).
pub open spec fn msg_header(instance_id: u8, message_type: PldmMsgType, pldm_type: u8, cmd: u8) -> Seq<u8> {
    header_bytes(
        instance_id,
        message_type.to_u8() & 1,
        (message_type.to_u8() & 2) >> 1u8,
        pldm_type,
        0,
        cmd,
    )
}

/// The header of a response of the given type and command.
pub open spec fn response_header(instance_id: u8, pldm_type: u8, cmd: u8) -> Seq<u8> {
    header_bytes(instance_id, 0, 0, pldm_type, 0, cmd)
}

/// The bits of the response message kind.
pub proof fn lemma_response_bits()
    ensures
        0u8 & 1 == 0u8,
        (0u8 & 2) >> 1u8 == 0u8,
{
    assert(0u8 & 1 == 0u8 && (0u8 & 2) >> 1u8 == 0u8) by (bit_vector);
}

impl PldmMsgHeader {
    #[verifier::allow_in_spec]
    pub fn instance_id(&self) -> u8
        returns
            self.0[0] & 0x1f,
    {
        self.0[0] & 0x1f
    }

    #[verifier::allow_in_spec]
    pub fn reserved(&self) -> u8
        returns
            (self.0[0] >> 5u8) & 1,
    {
        (self.0[0] >> 5u8) & 1
    }

    #[verifier::allow_in_spec]
    pub fn datagram(&self) -> u8
        returns
            (self.0[0] >> 6u8) & 1,
    {
        (self.0[0] >> 6u8) & 1
    }

    #[verifier::allow_in_spec]
    pub fn rq(&self) -> u8
        returns
            self.0[0] >> 7u8,
    {
        self.0[0] >> 7u8
    }

    #[verifier::allow_in_spec]
    pub fn pldm_type(&self) -> u8
        returns
            self.0[1] & 0x3f,
    {
        self.0[1] & 0x3f
    }

    #[verifier::allow_in_spec]
    pub fn hdr_ver(&self) -> u8
        returns
            self.0[1] >> 6u8,
    {
        self.0[1] >> 6u8
    }

    #[verifier::allow_in_spec]
    pub fn cmd_code(&self) -> u8
        returns
            self.0[2],
    {
        self.0[2]
    }

    /// Sets the instance id to the low 5 bits of `v`.
    pub fn set_instance_id(&mut self, v: u8)
        ensures
            final(self).0[0] == (old(self).0[0] & 0xe0) | (v & 0x1f),
            final(self).0[1] == old(self).0[1],
            final(self).0[2] == old(self).0[2],
    {
        self.0[0] = (self.0[0] & 0xe0) | (v & 0x1f);
    }

    /// Sets the datagram bit to the low bit of `v`.
    pub fn set_datagram(&mut self, v: u8)
        ensures
            final(self).0[0] == (old(self).0[0] & 0xbf) | ((v & 1) << 6u8),
            final(self).0[1] == old(self).0[1],
            final(self).0[2] == old(self).0[2],
    {
        self.0[0] = (self.0[0] & 0xbf) | ((v & 1) << 6u8);
    }

    /// Sets the request bit to the low bit of `v`.
    pub fn set_rq(&mut self, v: u8)
        ensures
            final(self).0[0] == (old(self).0[0] & 0x7f) | ((v & 1) << 7u8),
            final(self).0[1] == old(self).0[1],
            final(self).0[2] == old(self).0[2],
    {
        self.0[0] = (self.0[0] & 0x7f) | ((v & 1) << 7u8);
    }

    /// Sets the PLDM type to the low 6 bits of `v`.
    pub fn set_pldm_type(&mut self, v: u8)
        ensures
            final(self).0[0] == old(self).0[0],
            final(self).0[1] == (old(self).0[1] & 0xc0) | (v & 0x3f),
            final(self).0[2] == old(self).0[2],
    {
        self.0[1] = (self.0[1] & 0xc0) | (v & 0x3f);
    }

    /// Sets the header version to the low 2 bits of `v`.
    pub fn set_hdr_ver(&mut self, v: u8)
        ensures
            final(self).0[0] == old(self).0[0],
            final(self).0[1] == (old(self).0[1] & 0x3f) | ((v & 3) << 6u8),
            final(self).0[2] == old(self).0[2],
    {
        self.0[1] = (self.0[1] & 0x3f) | ((v & 3) << 6u8);
    }

    /// Sets the command code.
    pub fn set_command_code(&mut self, v: u8)
        ensures
            final(self).0[0] == old(self).0[0],
            final(self).0[1] == old(self).0[1],
            final(self).0[2] == v,
    {
        self.0[2] = v;
    }

    /// The header of a message of the given kind, type and command, of header
    /// version 0, with the instance id truncated to 5 bits.
    pub fn new(
        instance_id: InstanceId,
        message_type: PldmMsgType,
        pldm_type: PldmSupportedType,
        cmd_code: u8,
    ) -> (r: Self)
        ensures
            r.0@ == header_bytes(
                instance_id,
                message_type.to_u8() & 1,
                (message_type.to_u8() & 2) >> 1u8,
                pldm_type.to_u8(),
                0,
                cmd_code,
            ),
            r.instance_id() == instance_id & 0x1f,
            r.reserved() == 0,
            r.datagram() == message_type.to_u8() & 1,
            r.rq() == (message_type.to_u8() & 2) >> 1u8,
            r.pldm_type() == pldm_type.to_u8(),
            r.hdr_ver() == 0,
            r.cmd_code() == cmd_code,
    {
        let mut header = PldmMsgHeader([0; PLDM_MSG_HEADER_LEN]);
        let mt = message_type.to_u8();
        header.set_instance_id(instance_id);
        header.set_datagram(mt & 1);
        header.set_rq((mt & 2) >> 1u8);
        header.set_pldm_type(pldm_type.to_u8());
        header.set_hdr_ver(PldmHeaderVersion::Version0.to_u8());
        header.set_command_code(cmd_code);
        let b0 = header.0[0];
        let b1 = header.0[1];
        let pt = pldm_type.to_u8();
        assert(b0 == ((instance_id & 0x1f) | (((mt & 1) & 1) << 6u8) | ((((mt & 2) >> 1u8) & 1) << 7u8))
            && b0 & 0x1f == instance_id & 0x1f && (b0 >> 5u8) & 1 == 0 && (b0 >> 6u8) & 1 == mt & 1
            && b0 >> 7u8 == (mt & 2) >> 1u8) by (bit_vector)
            requires
                b0 == ((((((0u8 & 0xe0) | (instance_id & 0x1f)) & 0xbf) | (((mt & 1) & 1) << 6u8))
                    & 0x7f) | ((((mt & 2) >> 1u8) & 1) << 7u8)),
        ;
        assert(b1 == ((pt & 0x3f) | ((0u8 & 3) << 6u8)) && b1 & 0x3f == pt && b1 >> 6u8 == 0)
            by (bit_vector)
            requires
                b1 == ((((0u8 & 0xc0) | (pt & 0x3f)) & 0x3f) | ((0u8 & 3) << 6u8)),
                pt <= 0x3f,
        ;
        assert(header.0@ =~= header_bytes(instance_id, mt & 1, (mt & 2) >> 1u8, pt, 0, cmd_code));
        header
    }

    /// The request bit is set.
    pub fn is_request(&self) -> (r: bool)
        ensures
            r == (self.rq() == 1),
    {
        assert((2u8 >> 1u8) == 1u8) by (bit_vector);
        self.rq() == (PldmMsgType::Request.to_u8() >> 1u8)
    }

    /// The header version is version 0.
    pub fn is_hdr_ver_valid(&self) -> (r: bool)
        ensures
            r == (self.hdr_ver() == 0),
    {
        self.hdr_ver() == PldmHeaderVersion::Version0.to_u8()
    }

    /// The same header with the request bit cleared: the header of the reply.
    pub fn into_response(&self) -> (r: Self)
        ensures
            r.0[0] == self.0[0] & 0x7f,
            r.0[1] == self.0[1],
            r.0[2] == self.0[2],
            r.rq() == 0,
            r.instance_id() == self.instance_id(),
            r.datagram() == self.datagram(),
            r.reserved() == self.reserved(),
    {
        let mut header = *self;
        header.set_rq(PldmMsgType::Response.to_u8());
        let b = self.0[0];
        assert((b & 0x7f) | ((0u8 & 1) << 7u8) == b & 0x7f) by (bit_vector);
        assert(((b & 0x7f) >> 7u8) == 0 && (b & 0x7f) & 0x1f == b & 0x1f && ((b & 0x7f) >> 6u8) & 1
            == (b >> 6u8) & 1 && ((b & 0x7f) >> 5u8) & 1 == (b >> 5u8) & 1) by (bit_vector);
        header
    }
}

impl FixedFields for PldmMsgHeader {
    open spec fn spec_fields(&self) -> Seq<Field> {
        seq![Field::U8(self.0[0]), Field::U8(self.0[1]), Field::U8(self.0[2])]
    }

    open spec fn spec_layout() -> Seq<u8> {
        seq![1u8, 1, 1]
    }

    open spec fn spec_from_fields(fs: Seq<Field>) -> Self {
        PldmMsgHeader([fv8(fs[0]), fv8(fs[1]), fv8(fs[2])])
    }

    fn layout() -> (r: Vec<u8>) {
        let r = vec![1u8, 1, 1];
        assert(r@ =~= Self::spec_layout());
        r
    }

    fn to_fields(&self) -> (r: Vec<Field>) {
        let r = vec![Field::U8(self.0[0]), Field::U8(self.0[1]), Field::U8(self.0[2])];
        assert(r@ =~= self.spec_fields());
        r
    }

    fn from_fields(fs: &Vec<Field>) -> (r: Self) {
        PldmMsgHeader([get_u8(&fs[0]), get_u8(&fs[1]), get_u8(&fs[2])])
    }

    proof fn lemma_fields(&self) {
        assert(widths(self.spec_fields()) =~= Self::spec_layout());
        lemma_fits_widths(self.spec_fields());
        lemma_layout_of_fields(self.spec_fields(), Self::spec_layout());
        assert(Self::spec_from_fields(self.spec_fields()).0 =~= self.0);
    }

    proof fn lemma_from_fields(fs: Seq<Field>) {
        lemma_field_by_width(fs[0]);
        lemma_field_by_width(fs[1]);
        lemma_field_by_width(fs[2]);
        assert(Self::spec_from_fields(fs).spec_fields() =~= fs);
    }
}

/// A response holding only the header and a completion code.
#[derive(Debug, Clone, Copy, PartialEq, Eq)]
pub struct PldmFailureResponse {
    pub hdr: PldmMsgHeader,
    pub completion_code: u8,
}

impl PldmFailureResponse {
    pub fn new(
        instance_id: InstanceId,
        pldm_type: PldmSupportedType,
        cmd_code: u8,
        completion_code: u8,
    ) -> (r: Self)
        ensures
            r.hdr.0@ == header_bytes(instance_id, 0, 0, pldm_type.to_u8(), 0, cmd_code),
            r.completion_code == completion_code,
    {
        let hdr = PldmMsgHeader::new(instance_id, PldmMsgType::Response, pldm_type, cmd_code);
        assert(0u8 & 1 == 0u8 && (0u8 & 2) >> 1u8 == 0u8) by (bit_vector);
        PldmFailureResponse { hdr, completion_code }
    }
}


impl FixedFields for PldmFailureResponse {
    open spec fn spec_fields(&self) -> Seq<Field> {
        seq![
            Field::U8(self.hdr.0[0]),
            Field::U8(self.hdr.0[1]),
            Field::U8(self.hdr.0[2]),
            Field::U8(self.completion_code),
        ]
    }

    open spec fn spec_layout() -> Seq<u8> {
        seq![1u8, 1, 1, 1]
    }

    open spec fn spec_from_fields(fs: Seq<Field>) -> Self {
        PldmFailureResponse { hdr: PldmMsgHeader([fv8(fs[0]), fv8(fs[1]), fv8(fs[2])]), completion_code: fv8(fs[3]) }
    }

    fn layout() -> (r: Vec<u8>) {
        let r = vec![1u8, 1, 1, 1];
        assert(r@ =~= Self::spec_layout());
        r
    }

    fn to_fields(&self) -> (r: Vec<Field>) {
        let r = vec![
            Field::U8(self.hdr.0[0]),
            Field::U8(self.hdr.0[1]),
            Field::U8(self.hdr.0[2]),
            Field::U8(self.completion_code),
        ];
        assert(r@ =~= self.spec_fields());
        r
    }

    fn from_fields(fs: &Vec<Field>) -> (r: Self) {
        PldmFailureResponse { hdr: PldmMsgHeader([get_u8(&fs[0]), get_u8(&fs[1]), get_u8(&fs[2])]), completion_code: get_u8(&fs[3]) }
    }

    proof fn lemma_fields(&self) {
        assert(widths(self.spec_fields()) =~= Self::spec_layout());
        lemma_fits_widths(self.spec_fields());
        lemma_layout_of_fields(self.spec_fields(), Self::spec_layout());
        assert(Self::spec_from_fields(self.spec_fields()).hdr.0 =~= self.hdr.0);
    }

    proof fn lemma_from_fields(fs: Seq<Field>) {
        lemma_field_by_width(fs[0]);
        lemma_field_by_width(fs[1]);
        lemma_field_by_width(fs[2]);
        lemma_field_by_width(fs[3]);
        assert(Self::spec_from_fields(fs).spec_fields() =~= fs);
    }
}

} // verus!
