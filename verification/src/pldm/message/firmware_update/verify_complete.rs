use crate::pldm::codec::{
    lemma_field_by_width, lemma_fits_widths, lemma_layout_of_fields, widths, FixedFields,
};
use crate::pldm::error::PldmError;
use crate::pldm::protocol::base::{
    lemma_response_bits, msg_header, response_header, InstanceId, PldmMsgHeader, PldmMsgType,
    PldmSupportedType,
};
use crate::pldm::protocol::firmware_update::FwUpdateCmd;
use crate::wire::{fv8, get_u8, Field};
use vstd::prelude::*;

verus! {


/// Results of verifying a component (vendor-defined codes are 0x90 to 0xaf).
#[derive(Debug, Clone, Copy, PartialEq, Eq, Structural)]
pub enum VerifyResult {
    VerifySuccess,
    VerifyErrorVerificationFailure,
    VerifyErrorVersionMismatch,
    VerifyFailedFdSecurityChecks,
    VerifyErrorImageIncomplete,
    VerifyTimeOut,
    VerifyGenericError,
    VendorDefined,
}

impl VerifyResult {
    /// The code of the value on the wire.
    #[verifier::allow_in_spec]
    pub fn to_u8(self) -> u8
        returns
            (match self {
                VerifyResult::VerifySuccess => 0x0u8,
                VerifyResult::VerifyErrorVerificationFailure => 0x1u8,
                VerifyResult::VerifyErrorVersionMismatch => 0x2u8,
                VerifyResult::VerifyFailedFdSecurityChecks => 0x3u8,
                VerifyResult::VerifyErrorImageIncomplete => 0x4u8,
                VerifyResult::VerifyTimeOut => 0x9u8,
                VerifyResult::VerifyGenericError => 0xau8,
                VerifyResult::VendorDefined => 0xbu8,
            }),
    {
        match self {
            VerifyResult::VerifySuccess => 0x0,
            VerifyResult::VerifyErrorVerificationFailure => 0x1,
            VerifyResult::VerifyErrorVersionMismatch => 0x2,
            VerifyResult::VerifyFailedFdSecurityChecks => 0x3,
            VerifyResult::VerifyErrorImageIncomplete => 0x4,
            VerifyResult::VerifyTimeOut => 0x9,
            VerifyResult::VerifyGenericError => 0xa,
            VerifyResult::VendorDefined => 0xb,
        }
    }
}

impl core::convert::TryFrom<u8> for VerifyResult {
    type Error = PldmError;

    fn try_from(value: u8) -> (r: Result<VerifyResult, PldmError>) {
        match value {
            0x0 => Ok(VerifyResult::VerifySuccess),
            0x1 => Ok(VerifyResult::VerifyErrorVerificationFailure),
            0x2 => Ok(VerifyResult::VerifyErrorVersionMismatch),
            0x3 => Ok(VerifyResult::VerifyFailedFdSecurityChecks),
            0x4 => Ok(VerifyResult::VerifyErrorImageIncomplete),
            0x9 => Ok(VerifyResult::VerifyTimeOut),
            0xa => Ok(VerifyResult::VerifyGenericError),
            v if 0x90 <= v && v <= 0xaf => Ok(VerifyResult::VendorDefined),
            _ => Err(PldmError::InvalidVerifyResult),
        }
    }
}

impl vstd::std_specs::convert::TryFromSpecImpl<u8> for VerifyResult {
    open spec fn obeys_try_from_spec() -> bool {
        true
    }

    open spec fn try_from_spec(value: u8) -> Result<VerifyResult, PldmError> {
        match value {
            0x0 => Ok(VerifyResult::VerifySuccess),
            0x1 => Ok(VerifyResult::VerifyErrorVerificationFailure),
            0x2 => Ok(VerifyResult::VerifyErrorVersionMismatch),
            0x3 => Ok(VerifyResult::VerifyFailedFdSecurityChecks),
            0x4 => Ok(VerifyResult::VerifyErrorImageIncomplete),
            0x9 => Ok(VerifyResult::VerifyTimeOut),
            0xa => Ok(VerifyResult::VerifyGenericError),
            v if 0x90 <= v && v <= 0xaf => Ok(VerifyResult::VendorDefined),
            _ => Err(PldmError::InvalidVerifyResult),
        }
    }
}

impl Default for VerifyResult {
    fn default() -> (r: Self)
        ensures
            r == VerifyResult::VerifyGenericError,
    {
        VerifyResult::VerifyGenericError
    }
}

/// VerifyComplete request: the result of the verification.
#[derive(Debug, Clone, Copy, PartialEq, Eq)]
pub struct VerifyCompleteRequest {
    pub hdr: PldmMsgHeader,
    pub verify_result: u8,
}

impl FixedFields for VerifyCompleteRequest {
    open spec fn spec_fields(&self) -> Seq<Field> {
        seq![
            Field::U8(self.hdr.0[0]),
            Field::U8(self.hdr.0[1]),
            Field::U8(self.hdr.0[2]),
            Field::U8(self.verify_result),
        ]
    }

    open spec fn spec_layout() -> Seq<u8> {
        seq![1u8, 1, 1, 1]
    }

    open spec fn spec_from_fields(fs: Seq<Field>) -> Self {
        VerifyCompleteRequest { hdr: PldmMsgHeader([fv8(fs[0]), fv8(fs[1]), fv8(fs[2])]), verify_result: fv8(fs[3]) }
    }

    fn layout() -> (r: Vec<u8>) {
        let r = vec![1u8, 1, 1, 1];
        assert(r@ =~= Self::spec_layout());
        r
    }

    fn to_fields(&self) -> (r: Vec<Field>) {
        let r = vec![
            Field::U8(self.hdr.0[0]),
            Field::U8(self.hdr.0[1]),
            Field::U8(self.hdr.0[2]),
            Field::U8(self.verify_result),
        ];
        assert(r@ =~= self.spec_fields());
        r
    }

    fn from_fields(fs: &Vec<Field>) -> (r: Self) {
        VerifyCompleteRequest { hdr: PldmMsgHeader([get_u8(&fs[0]), get_u8(&fs[1]), get_u8(&fs[2])]), verify_result: get_u8(&fs[3]) }
    }

    proof fn lemma_fields(&self) {
        assert(widths(self.spec_fields()) =~= Self::spec_layout());
        lemma_fits_widths(self.spec_fields());
        lemma_layout_of_fields(self.spec_fields(), Self::spec_layout());
        assert(Self::spec_from_fields(self.spec_fields()).hdr.0 =~= self.hdr.0);
    }

    proof fn lemma_from_fields(fs: Seq<Field>) {
        lemma_field_by_width(fs[0]);
        lemma_field_by_width(fs[1]);
        lemma_field_by_width(fs[2]);
        lemma_field_by_width(fs[3]);
        assert(Self::spec_from_fields(fs).spec_fields() =~= fs);
    }
}

impl VerifyCompleteRequest {
    pub fn new(instance_id: InstanceId, msg_type: PldmMsgType, verify_result: VerifyResult) -> (r: Self)
        ensures
            r.hdr.0@ == msg_header(instance_id, msg_type, PldmSupportedType::FwUpdate.to_u8(), FwUpdateCmd::VerifyComplete.to_u8()),
            r.verify_result == verify_result.to_u8(),
    {
        VerifyCompleteRequest {
            hdr: PldmMsgHeader::new(instance_id, msg_type, PldmSupportedType::FwUpdate, FwUpdateCmd::VerifyComplete.to_u8()),
            verify_result: verify_result.to_u8(),
        }
    }
}

/// VerifyComplete response.
#[derive(Debug, Clone, Copy, PartialEq, Eq)]
pub struct VerifyCompleteResponse {
    pub hdr: PldmMsgHeader,
    pub completion_code: u8,
}

impl FixedFields for VerifyCompleteResponse {
    open spec fn spec_fields(&self) -> Seq<Field> {
        seq![
            Field::U8(self.hdr.0[0]),
            Field::U8(self.hdr.0[1]),
            Field::U8(self.hdr.0[2]),
            Field::U8(self.completion_code),
        ]
    }

    open spec fn spec_layout() -> Seq<u8> {
        seq![1u8, 1, 1, 1]
    }

    open spec fn spec_from_fields(fs: Seq<Field>) -> Self {
        VerifyCompleteResponse { hdr: PldmMsgHeader([fv8(fs[0]), fv8(fs[1]), fv8(fs[2])]), completion_code: fv8(fs[3]) }
    }

    fn layout() -> (r: Vec<u8>) {
        let r = vec![1u8, 1, 1, 1];
        assert(r@ =~= Self::spec_layout());
        r
    }

    fn to_fields(&self) -> (r: Vec<Field>) {
        let r = vec![
            Field::U8(self.hdr.0[0]),
            Field::U8(self.hdr.0[1]),
            Field::U8(self.hdr.0[2]),
            Field::U8(self.completion_code),
        ];
        assert(r@ =~= self.spec_fields());
        r
    }

    fn from_fields(fs: &Vec<Field>) -> (r: Self) {
        VerifyCompleteResponse { hdr: PldmMsgHeader([get_u8(&fs[0]), get_u8(&fs[1]), get_u8(&fs[2])]), completion_code: get_u8(&fs[3]) }
    }

    proof fn lemma_fields(&self) {
        assert(widths(self.spec_fields()) =~= Self::spec_layout());
        lemma_fits_widths(self.spec_fields());
        lemma_layout_of_fields(self.spec_fields(), Self::spec_layout());
        assert(Self::spec_from_fields(self.spec_fields()).hdr.0 =~= self.hdr.0);
    }

    proof fn lemma_from_fields(fs: Seq<Field>) {
        lemma_field_by_width(fs[0]);
        lemma_field_by_width(fs[1]);
        lemma_field_by_width(fs[2]);
        lemma_field_by_width(fs[3]);
        assert(Self::spec_from_fields(fs).spec_fields() =~= fs);
    }
}

impl VerifyCompleteResponse {
    pub fn new(instance_id: InstanceId, completion_code: u8) -> (r: Self)
        ensures
            r.hdr.0@ == response_header(instance_id, PldmSupportedType::FwUpdate.to_u8(), FwUpdateCmd::VerifyComplete.to_u8()),
            r.completion_code == completion_code,
    {
        proof {
            lemma_response_bits();
        }
        VerifyCompleteResponse {
            hdr: PldmMsgHeader::new(instance_id, PldmMsgType::Response, PldmSupportedType::FwUpdate, FwUpdateCmd::VerifyComplete.to_u8()),
            completion_code: completion_code,
        }
    }
}

} // verus!
