use crate::pldm::codec::{
    lemma_field_by_width, lemma_fits_widths, lemma_layout_of_fields, widths, FixedFields,
};
use crate::pldm::error::PldmError;
use crate::pldm::protocol::base::{
    lemma_response_bits, msg_header, response_header, InstanceId, PldmMsgHeader, PldmMsgType,
    PldmSupportedType,
};
use crate::pldm::protocol::firmware_update::FwUpdateCmd;
use crate::wire::{fv16, fv8, get_u16, get_u8, Field};
use vstd::prelude::*;
use crate::pldm::protocol::firmware_update::ComponentActivationMethods;

verus! {


/// Results of applying a component (vendor-defined codes are 0xb0 to 0xcf).
#[derive(Debug, Clone, Copy, PartialEq, Eq, Structural)]
pub enum ApplyResult {
    ApplySuccess,
    ApplySuccessWithActivationMethod,
    ApplyFailureMemoryIssue,
    VendorDefined,
}

impl ApplyResult {
    /// The code of the value on the wire.
    #[verifier::allow_in_spec]
    pub fn to_u8(self) -> u8
        returns
            (match self {
                ApplyResult::ApplySuccess => 0x0u8,
                ApplyResult::ApplySuccessWithActivationMethod => 0x1u8,
                ApplyResult::ApplyFailureMemoryIssue => 0x2u8,
                ApplyResult::VendorDefined => 0x3u8,
            }),
    {
        match self {
            ApplyResult::ApplySuccess => 0x0,
            ApplyResult::ApplySuccessWithActivationMethod => 0x1,
            ApplyResult::ApplyFailureMemoryIssue => 0x2,
            ApplyResult::VendorDefined => 0x3,
        }
    }
}

impl core::convert::TryFrom<u8> for ApplyResult {
    type Error = PldmError;

    fn try_from(value: u8) -> (r: Result<ApplyResult, PldmError>) {
        match value {
            0x0 => Ok(ApplyResult::ApplySuccess),
            0x1 => Ok(ApplyResult::ApplySuccessWithActivationMethod),
            0x2 => Ok(ApplyResult::ApplyFailureMemoryIssue),
            v if 0xb0 <= v && v <= 0xcf => Ok(ApplyResult::VendorDefined),
            _ => Err(PldmError::InvalidApplyResult),
        }
    }
}

impl vstd::std_specs::convert::TryFromSpecImpl<u8> for ApplyResult {
    open spec fn obeys_try_from_spec() -> bool {
        true
    }

    open spec fn try_from_spec(value: u8) -> Result<ApplyResult, PldmError> {
        match value {
            0x0 => Ok(ApplyResult::ApplySuccess),
            0x1 => Ok(ApplyResult::ApplySuccessWithActivationMethod),
            0x2 => Ok(ApplyResult::ApplyFailureMemoryIssue),
            v if 0xb0 <= v && v <= 0xcf => Ok(ApplyResult::VendorDefined),
            _ => Err(PldmError::InvalidApplyResult),
        }
    }
}

/// ApplyComplete request: the result of applying the component.
#[derive(Debug, Clone, Copy, PartialEq, Eq)]
pub struct ApplyCompleteRequest {
    pub hdr: PldmMsgHeader,
    pub apply_result: u8,
    pub comp_activation_methods_modification: u16,
}

impl FixedFields for ApplyCompleteRequest {
    open spec fn spec_fields(&self) -> Seq<Field> {
        seq![
            Field::U8(self.hdr.0[0]),
            Field::U8(self.hdr.0[1]),
            Field::U8(self.hdr.0[2]),
            Field::U8(self.apply_result),
            Field::U16(self.comp_activation_methods_modification),
        ]
    }

    open spec fn spec_layout() -> Seq<u8> {
        seq![1u8, 1, 1, 1, 2]
    }

    open spec fn spec_from_fields(fs: Seq<Field>) -> Self {
        ApplyCompleteRequest { hdr: PldmMsgHeader([fv8(fs[0]), fv8(fs[1]), fv8(fs[2])]), apply_result: fv8(fs[3]), comp_activation_methods_modification: fv16(fs[4]) }
    }

    fn layout() -> (r: Vec<u8>) {
        let r = vec![1u8, 1, 1, 1, 2];
        assert(r@ =~= Self::spec_layout());
        r
    }

    fn to_fields(&self) -> (r: Vec<Field>) {
        let r = vec![
            Field::U8(self.hdr.0[0]),
            Field::U8(self.hdr.0[1]),
            Field::U8(self.hdr.0[2]),
            Field::U8(self.apply_result),
            Field::U16(self.comp_activation_methods_modification),
        ];
        assert(r@ =~= self.spec_fields());
        r
    }

    fn from_fields(fs: &Vec<Field>) -> (r: Self) {
        ApplyCompleteRequest { hdr: PldmMsgHeader([get_u8(&fs[0]), get_u8(&fs[1]), get_u8(&fs[2])]), apply_result: get_u8(&fs[3]), comp_activation_methods_modification: get_u16(&fs[4]) }
    }

    proof fn lemma_fields(&self) {
        assert(widths(self.spec_fields()) =~= Self::spec_layout());
        lemma_fits_widths(self.spec_fields());
        lemma_layout_of_fields(self.spec_fields(), Self::spec_layout());
        assert(Self::spec_from_fields(self.spec_fields()).hdr.0 =~= self.hdr.0);
    }

    proof fn lemma_from_fields(fs: Seq<Field>) {
        lemma_field_by_width(fs[0]);
        lemma_field_by_width(fs[1]);
        lemma_field_by_width(fs[2]);
        lemma_field_by_width(fs[3]);
        lemma_field_by_width(fs[4]);
        assert(Self::spec_from_fields(fs).spec_fields() =~= fs);
    }
}

impl ApplyCompleteRequest {
    pub fn new(instance_id: InstanceId, msg_type: PldmMsgType, apply_result: ApplyResult, comp_activation_methods: ComponentActivationMethods) -> (r: Self)
        ensures
            r.hdr.0@ == msg_header(instance_id, msg_type, PldmSupportedType::FwUpdate.to_u8(), FwUpdateCmd::ApplyComplete.to_u8()),
            r.apply_result == apply_result.to_u8(),
            r.comp_activation_methods_modification == comp_activation_methods.0,
    {
        ApplyCompleteRequest {
            hdr: PldmMsgHeader::new(instance_id, msg_type, PldmSupportedType::FwUpdate, FwUpdateCmd::ApplyComplete.to_u8()),
            apply_result: apply_result.to_u8(),
            comp_activation_methods_modification: comp_activation_methods.0,
        }
    }
}

/// ApplyComplete response.
#[derive(Debug, Clone, Copy, PartialEq, Eq)]
pub struct ApplyCompleteResponse {
    pub hdr: PldmMsgHeader,
    pub completion_code: u8,
}

impl FixedFields for ApplyCompleteResponse {
    open spec fn spec_fields(&self) -> Seq<Field> {
        seq![
            Field::U8(self.hdr.0[0]),
            Field::U8(self.hdr.0[1]),
            Field::U8(self.hdr.0[2]),
            Field::U8(self.completion_code),
        ]
    }

    open spec fn spec_layout() -> Seq<u8> {
        seq![1u8, 1, 1, 1]
    }

    open spec fn spec_from_fields(fs: Seq<Field>) -> Self {
        ApplyCompleteResponse { hdr: PldmMsgHeader([fv8(fs[0]), fv8(fs[1]), fv8(fs[2])]), completion_code: fv8(fs[3]) }
    }

    fn layout() -> (r: Vec<u8>) {
        let r = vec![1u8, 1, 1, 1];
        assert(r@ =~= Self::spec_layout());
        r
    }

    fn to_fields(&self) -> (r: Vec<Field>) {
        let r = vec![
            Field::U8(self.hdr.0[0]),
            Field::U8(self.hdr.0[1]),
            Field::U8(self.hdr.0[2]),
            Field::U8(self.completion_code),
        ];
        assert(r@ =~= self.spec_fields());
        r
    }

    fn from_fields(fs: &Vec<Field>) -> (r: Self) {
        ApplyCompleteResponse { hdr: PldmMsgHeader([get_u8(&fs[0]), get_u8(&fs[1]), get_u8(&fs[2])]), completion_code: get_u8(&fs[3]) }
    }

    proof fn lemma_fields(&self) {
        assert(widths(self.spec_fields()) =~= Self::spec_layout());
        lemma_fits_widths(self.spec_fields());
        lemma_layout_of_fields(self.spec_fields(), Self::spec_layout());
        assert(Self::spec_from_fields(self.spec_fields()).hdr.0 =~= self.hdr.0);
    }

    proof fn lemma_from_fields(fs: Seq<Field>) {
        lemma_field_by_width(fs[0]);
        lemma_field_by_width(fs[1]);
        lemma_field_by_width(fs[2]);
        lemma_field_by_width(fs[3]);
        assert(Self::spec_from_fields(fs).spec_fields() =~= fs);
    }
}

impl ApplyCompleteResponse {
    pub fn new(instance_id: InstanceId, completion_code: u8) -> (r: Self)
        ensures
            r.hdr.0@ == response_header(instance_id, PldmSupportedType::FwUpdate.to_u8(), FwUpdateCmd::ApplyComplete.to_u8()),
            r.completion_code == completion_code,
    {
        proof {
            lemma_response_bits();
        }
        ApplyCompleteResponse {
            hdr: PldmMsgHeader::new(instance_id, PldmMsgType::Response, PldmSupportedType::FwUpdate, FwUpdateCmd::ApplyComplete.to_u8()),
            completion_code: completion_code,
        }
    }
}

} // verus!
