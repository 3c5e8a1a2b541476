use crate::pldm::codec::{
    lemma_field_by_width, lemma_fits_widths, lemma_layout_of_fields, widths, FixedFields,
};
use crate::pldm::error::PldmError;
use crate::pldm::protocol::base::{
    lemma_response_bits, msg_header, response_header, InstanceId, PldmMsgHeader, PldmMsgType,
    PldmSupportedType,
};
use crate::pldm::protocol::firmware_update::FwUpdateCmd;
use crate::wire::{fv8, get_u8, Field};
use vstd::prelude::*;

verus! {


/// Results of transferring a component (vendor-defined codes are 0x70 to 0x8f).
#[derive(Debug, Clone, Copy, PartialEq, Eq, Structural)]
pub enum TransferResult {
    TransferSuccess,
    TransferErrorImageCorrupt,
    TransferErrorVersionMismatch,
    FdAbortedTransfer,
    FdAbortedTransferLowPowerState,
    FdAbortedTransferResetNeeded,
    FdAbortedTransferStorageIssue,
    FdAbortedTransferInvalidComponentOpaqueData,
    FdAbortedTransferDownstreamDeviceIssue,
    FdAbortedTransferSecurityRevisionError,
    VendorDefined,
}

impl TransferResult {
    /// The code of the value on the wire.
    #[verifier::allow_in_spec]
    pub fn to_u8(self) -> u8
        returns
            (match self {
                TransferResult::TransferSuccess => 0x0u8,
                TransferResult::TransferErrorImageCorrupt => 0x1u8,
                TransferResult::TransferErrorVersionMismatch => 0x2u8,
                TransferResult::FdAbortedTransfer => 0x3u8,
                TransferResult::FdAbortedTransferLowPowerState => 0xbu8,
                TransferResult::FdAbortedTransferResetNeeded => 0xcu8,
                TransferResult::FdAbortedTransferStorageIssue => 0xdu8,
                TransferResult::FdAbortedTransferInvalidComponentOpaqueData => 0xeu8,
                TransferResult::FdAbortedTransferDownstreamDeviceIssue => 0xfu8,
                TransferResult::FdAbortedTransferSecurityRevisionError => 0x10u8,
                TransferResult::VendorDefined => 0x11u8,
            }),
    {
        match self {
            TransferResult::TransferSuccess => 0x0,
            TransferResult::TransferErrorImageCorrupt => 0x1,
            TransferResult::TransferErrorVersionMismatch => 0x2,
            TransferResult::FdAbortedTransfer => 0x3,
            TransferResult::FdAbortedTransferLowPowerState => 0xb,
            TransferResult::FdAbortedTransferResetNeeded => 0xc,
            TransferResult::FdAbortedTransferStorageIssue => 0xd,
            TransferResult::FdAbortedTransferInvalidComponentOpaqueData => 0xe,
            TransferResult::FdAbortedTransferDownstreamDeviceIssue => 0xf,
            TransferResult::FdAbortedTransferSecurityRevisionError => 0x10,
            TransferResult::VendorDefined => 0x11,
        }
    }
}

impl core::convert::TryFrom<u8> for TransferResult {
    type Error = PldmError;

    fn try_from(value: u8) -> (r: Result<TransferResult, PldmError>) {
        match value {
            0x0 => Ok(TransferResult::TransferSuccess),
            0x1 => Ok(TransferResult::TransferErrorImageCorrupt),
            0x2 => Ok(TransferResult::TransferErrorVersionMismatch),
            0x3 => Ok(TransferResult::FdAbortedTransfer),
            0xb => Ok(TransferResult::FdAbortedTransferLowPowerState),
            0xc => Ok(TransferResult::FdAbortedTransferResetNeeded),
            0xd => Ok(TransferResult::FdAbortedTransferStorageIssue),
            0xe => Ok(TransferResult::FdAbortedTransferInvalidComponentOpaqueData),
            0xf => Ok(TransferResult::FdAbortedTransferDownstreamDeviceIssue),
            0x10 => Ok(TransferResult::FdAbortedTransferSecurityRevisionError),
            v if 0x70 <= v && v <= 0x8f => Ok(TransferResult::VendorDefined),
            _ => Err(PldmError::InvalidTransferResult),
        }
    }
}

impl vstd::std_specs::convert::TryFromSpecImpl<u8> for TransferResult {
    open spec fn obeys_try_from_spec() -> bool {
        true
    }

    open spec fn try_from_spec(value: u8) -> Result<TransferResult, PldmError> {
        match value {
            0x0 => Ok(TransferResult::TransferSuccess),
            0x1 => Ok(TransferResult::TransferErrorImageCorrupt),
            0x2 => Ok(TransferResult::TransferErrorVersionMismatch),
            0x3 => Ok(TransferResult::FdAbortedTransfer),
            0xb => Ok(TransferResult::FdAbortedTransferLowPowerState),
            0xc => Ok(TransferResult::FdAbortedTransferResetNeeded),
            0xd => Ok(TransferResult::FdAbortedTransferStorageIssue),
            0xe => Ok(TransferResult::FdAbortedTransferInvalidComponentOpaqueData),
            0xf => Ok(TransferResult::FdAbortedTransferDownstreamDeviceIssue),
            0x10 => Ok(TransferResult::FdAbortedTransferSecurityRevisionError),
            v if 0x70 <= v && v <= 0x8f => Ok(TransferResult::VendorDefined),
            _ => Err(PldmError::InvalidTransferResult),
        }
    }
}

/// TransferComplete request: the result of the transfer.
#[derive(Debug, Clone, Copy, PartialEq, Eq)]
pub struct TransferCompleteRequest {
    pub hdr: PldmMsgHeader,
    pub tranfer_result: u8,
}

impl FixedFields for TransferCompleteRequest {
    open spec fn spec_fields(&self) -> Seq<Field> {
        seq![
            Field::U8(self.hdr.0[0]),
            Field::U8(self.hdr.0[1]),
            Field::U8(self.hdr.0[2]),
            Field::U8(self.tranfer_result),
        ]
    }

    open spec fn spec_layout() -> Seq<u8> {
        seq![1u8, 1, 1, 1]
    }

    open spec fn spec_from_fields(fs: Seq<Field>) -> Self {
        TransferCompleteRequest { hdr: PldmMsgHeader([fv8(fs[0]), fv8(fs[1]), fv8(fs[2])]), tranfer_result: fv8(fs[3]) }
    }

    fn layout() -> (r: Vec<u8>) {
        let r = vec![1u8, 1, 1, 1];
        assert(r@ =~= Self::spec_layout());
        r
    }

    fn to_fields(&self) -> (r: Vec<Field>) {
        let r = vec![
            Field::U8(self.hdr.0[0]),
            Field::U8(self.hdr.0[1]),
            Field::U8(self.hdr.0[2]),
            Field::U8(self.tranfer_result),
        ];
        assert(r@ =~= self.spec_fields());
        r
    }

    fn from_fields(fs: &Vec<Field>) -> (r: Self) {
        TransferCompleteRequest { hdr: PldmMsgHeader([get_u8(&fs[0]), get_u8(&fs[1]), get_u8(&fs[2])]), tranfer_result: get_u8(&fs[3]) }
    }

    proof fn lemma_fields(&self) {
        assert(widths(self.spec_fields()) =~= Self::spec_layout());
        lemma_fits_widths(self.spec_fields());
        lemma_layout_of_fields(self.spec_fields(), Self::spec_layout());
        assert(Self::spec_from_fields(self.spec_fields()).hdr.0 =~= self.hdr.0);
    }

    proof fn lemma_from_fields(fs: Seq<Field>) {
        lemma_field_by_width(fs[0]);
        lemma_field_by_width(fs[1]);
        lemma_field_by_width(fs[2]);
        lemma_field_by_width(fs[3]);
        assert(Self::spec_from_fields(fs).spec_fields() =~= fs);
    }
}

impl TransferCompleteRequest {
    pub fn new(instance_id: InstanceId, msg_type: PldmMsgType, tranfer_result: TransferResult) -> (r: Self)
        ensures
            r.hdr.0@ == msg_header(instance_id, msg_type, PldmSupportedType::FwUpdate.to_u8(), FwUpdateCmd::TransferComplete.to_u8()),
            r.tranfer_result == tranfer_result.to_u8(),
    {
        TransferCompleteRequest {
            hdr: PldmMsgHeader::new(instance_id, msg_type, PldmSupportedType::FwUpdate, FwUpdateCmd::TransferComplete.to_u8()),
            tranfer_result: tranfer_result.to_u8(),
        }
    }
}

/// TransferComplete response.
#[derive(Debug, Clone, Copy, PartialEq, Eq)]
pub struct TransferCompleteResponse {
    pub hdr: PldmMsgHeader,
    pub completion_code: u8,
}

impl FixedFields for TransferCompleteResponse {
    open spec fn spec_fields(&self) -> Seq<Field> {
        seq![
            Field::U8(self.hdr.0[0]),
            Field::U8(self.hdr.0[1]),
            Field::U8(self.hdr.0[2]),
            Field::U8(self.completion_code),
        ]
    }

    open spec fn spec_layout() -> Seq<u8> {
        seq![1u8, 1, 1, 1]
    }

    open spec fn spec_from_fields(fs: Seq<Field>) -> Self {
        TransferCompleteResponse { hdr: PldmMsgHeader([fv8(fs[0]), fv8(fs[1]), fv8(fs[2])]), completion_code: fv8(fs[3]) }
    }

    fn layout() -> (r: Vec<u8>) {
        let r = vec![1u8, 1, 1, 1];
        assert(r@ =~= Self::spec_layout());
        r
    }

    fn to_fields(&self) -> (r: Vec<Field>) {
        let r = vec![
            Field::U8(self.hdr.0[0]),
            Field::U8(self.hdr.0[1]),
            Field::U8(self.hdr.0[2]),
            Field::U8(self.completion_code),
        ];
        assert(r@ =~= self.spec_fields());
        r
    }

    fn from_fields(fs: &Vec<Field>) -> (r: Self) {
        TransferCompleteResponse { hdr: PldmMsgHeader([get_u8(&fs[0]), get_u8(&fs[1]), get_u8(&fs[2])]), completion_code: get_u8(&fs[3]) }
    }

    proof fn lemma_fields(&self) {
        assert(widths(self.spec_fields()) =~= Self::spec_layout());
        lemma_fits_widths(self.spec_fields());
        lemma_layout_of_fields(self.spec_fields(), Self::spec_layout());
        assert(Self::spec_from_fields(self.spec_fields()).hdr.0 =~= self.hdr.0);
    }

    proof fn lemma_from_fields(fs: Seq<Field>) {
        lemma_field_by_width(fs[0]);
        lemma_field_by_width(fs[1]);
        lemma_field_by_width(fs[2]);
        lemma_field_by_width(fs[3]);
        assert(Self::spec_from_fields(fs).spec_fields() =~= fs);
    }
}

impl TransferCompleteResponse {
    pub fn new(instance_id: InstanceId, completion_code: u8) -> (r: Self)
        ensures
            r.hdr.0@ == response_header(instance_id, PldmSupportedType::FwUpdate.to_u8(), FwUpdateCmd::TransferComplete.to_u8()),
            r.completion_code == completion_code,
    {
        proof {
            lemma_response_bits();
        }
        TransferCompleteResponse {
            hdr: PldmMsgHeader::new(instance_id, PldmMsgType::Response, PldmSupportedType::FwUpdate, FwUpdateCmd::TransferComplete.to_u8()),
            completion_code: completion_code,
        }
    }
}

} // verus!
