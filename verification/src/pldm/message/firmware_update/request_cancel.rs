use crate::pldm::codec::{
    lemma_field_by_width, lemma_fits_widths, lemma_layout_of_fields, widths, FixedFields,
};
use crate::pldm::error::PldmError;
use crate::pldm::protocol::base::{
    lemma_response_bits, msg_header, response_header, InstanceId, PldmMsgHeader, PldmMsgType,
    PldmSupportedType,
};
use crate::pldm::protocol::firmware_update::FwUpdateCmd;
use crate::wire::{fv64, fv8, get_u64, get_u8, Field};
use vstd::prelude::*;

verus! {


/// Whether components are left not functioning by a cancelled update.
#[derive(Debug, Clone, Copy, PartialEq, Eq, Structural)]
pub enum NonFunctioningComponentIndication {
    ComponentsFunctioning,
    ComponentsNotFunctioning,
}

impl NonFunctioningComponentIndication {
    /// The code of the value on the wire.
    #[verifier::allow_in_spec]
    pub fn to_u8(self) -> u8
        returns
            (match self {
                NonFunctioningComponentIndication::ComponentsFunctioning => 0x0u8,
                NonFunctioningComponentIndication::ComponentsNotFunctioning => 0x1u8,
            }),
    {
        match self {
            NonFunctioningComponentIndication::ComponentsFunctioning => 0x0,
            NonFunctioningComponentIndication::ComponentsNotFunctioning => 0x1,
        }
    }
}

impl core::convert::TryFrom<u8> for NonFunctioningComponentIndication {
    type Error = PldmError;

    fn try_from(value: u8) -> (r: Result<NonFunctioningComponentIndication, PldmError>) {
        match value {
            0x0 => Ok(NonFunctioningComponentIndication::ComponentsFunctioning),
            0x1 => Ok(NonFunctioningComponentIndication::ComponentsNotFunctioning),
            _ => Err(PldmError::InvalidData),
        }
    }
}

impl vstd::std_specs::convert::TryFromSpecImpl<u8> for NonFunctioningComponentIndication {
    open spec fn obeys_try_from_spec() -> bool {
        true
    }

    open spec fn try_from_spec(value: u8) -> Result<NonFunctioningComponentIndication, PldmError> {
        match value {
            0x0 => Ok(NonFunctioningComponentIndication::ComponentsFunctioning),
            0x1 => Ok(NonFunctioningComponentIndication::ComponentsNotFunctioning),
            _ => Err(PldmError::InvalidData),
        }
    }
}

/// CancelUpdateComponent request.
#[derive(Debug, Clone, Copy, PartialEq, Eq)]
pub struct CancelUpdateComponentRequest {
    pub hdr: PldmMsgHeader,
}

impl FixedFields for CancelUpdateComponentRequest {
    open spec fn spec_fields(&self) -> Seq<Field> {
        seq![
            Field::U8(self.hdr.0[0]),
            Field::U8(self.hdr.0[1]),
            Field::U8(self.hdr.0[2]),
        ]
    }

    open spec fn spec_layout() -> Seq<u8> {
        seq![1u8, 1, 1]
    }

    open spec fn spec_from_fields(fs: Seq<Field>) -> Self {
        CancelUpdateComponentRequest { hdr: PldmMsgHeader([fv8(fs[0]), fv8(fs[1]), fv8(fs[2])]) }
    }

    fn layout() -> (r: Vec<u8>) {
        let r = vec![1u8, 1, 1];
        assert(r@ =~= Self::spec_layout());
        r
    }

    fn to_fields(&self) -> (r: Vec<Field>) {
        let r = vec![
            Field::U8(self.hdr.0[0]),
            Field::U8(self.hdr.0[1]),
            Field::U8(self.hdr.0[2]),
        ];
        assert(r@ =~= self.spec_fields());
        r
    }

    fn from_fields(fs: &Vec<Field>) -> (r: Self) {
        CancelUpdateComponentRequest { hdr: PldmMsgHeader([get_u8(&fs[0]), get_u8(&fs[1]), get_u8(&fs[2])]) }
    }

    proof fn lemma_fields(&self) {
        assert(widths(self.spec_fields()) =~= Self::spec_layout());
        lemma_fits_widths(self.spec_fields());
        lemma_layout_of_fields(self.spec_fields(), Self::spec_layout());
        assert(Self::spec_from_fields(self.spec_fields()).hdr.0 =~= self.hdr.0);
    }

    proof fn lemma_from_fields(fs: Seq<Field>) {
        lemma_field_by_width(fs[0]);
        lemma_field_by_width(fs[1]);
        lemma_field_by_width(fs[2]);
        assert(Self::spec_from_fields(fs).spec_fields() =~= fs);
    }
}

impl CancelUpdateComponentRequest {
    pub fn new(instance_id: InstanceId, msg_type: PldmMsgType) -> (r: Self)
        ensures
            r.hdr.0@ == msg_header(instance_id, msg_type, PldmSupportedType::FwUpdate.to_u8(), FwUpdateCmd::CancelUpdateComponent.to_u8()),
    {
        CancelUpdateComponentRequest {
            hdr: PldmMsgHeader::new(instance_id, msg_type, PldmSupportedType::FwUpdate, FwUpdateCmd::CancelUpdateComponent.to_u8()),
        }
    }
}

/// CancelUpdateComponent response.
#[derive(Debug, Clone, Copy, PartialEq, Eq)]
pub struct CancelUpdateComponentResponse {
    pub hdr: PldmMsgHeader,
    pub completion_code: u8,
}

impl FixedFields for CancelUpdateComponentResponse {
    open spec fn spec_fields(&self) -> Seq<Field> {
        seq![
            Field::U8(self.hdr.0[0]),
            Field::U8(self.hdr.0[1]),
            Field::U8(self.hdr.0[2]),
            Field::U8(self.completion_code),
        ]
    }

    open spec fn spec_layout() -> Seq<u8> {
        seq![1u8, 1, 1, 1]
    }

    open spec fn spec_from_fields(fs: Seq<Field>) -> Self {
        CancelUpdateComponentResponse { hdr: PldmMsgHeader([fv8(fs[0]), fv8(fs[1]), fv8(fs[2])]), completion_code: fv8(fs[3]) }
    }

    fn layout() -> (r: Vec<u8>) {
        let r = vec![1u8, 1, 1, 1];
        assert(r@ =~= Self::spec_layout());
        r
    }

    fn to_fields(&self) -> (r: Vec<Field>) {
        let r = vec![
            Field::U8(self.hdr.0[0]),
            Field::U8(self.hdr.0[1]),
            Field::U8(self.hdr.0[2]),
            Field::U8(self.completion_code),
        ];
        assert(r@ =~= self.spec_fields());
        r
    }

    fn from_fields(fs: &Vec<Field>) -> (r: Self) {
        CancelUpdateComponentResponse { hdr: PldmMsgHeader([get_u8(&fs[0]), get_u8(&fs[1]), get_u8(&fs[2])]), completion_code: get_u8(&fs[3]) }
    }

    proof fn lemma_fields(&self) {
        assert(widths(self.spec_fields()) =~= Self::spec_layout());
        lemma_fits_widths(self.spec_fields());
        lemma_layout_of_fields(self.spec_fields(), Self::spec_layout());
        assert(Self::spec_from_fields(self.spec_fields()).hdr.0 =~= self.hdr.0);
    }

    proof fn lemma_from_fields(fs: Seq<Field>) {
        lemma_field_by_width(fs[0]);
        lemma_field_by_width(fs[1]);
        lemma_field_by_width(fs[2]);
        lemma_field_by_width(fs[3]);
        assert(Self::spec_from_fields(fs).spec_fields() =~= fs);
    }
}

impl CancelUpdateComponentResponse {
    pub fn new(instance_id: InstanceId, completion_code: u8) -> (r: Self)
        ensures
            r.hdr.0@ == response_header(instance_id, PldmSupportedType::FwUpdate.to_u8(), FwUpdateCmd::CancelUpdateComponent.to_u8()),
            r.completion_code == completion_code,
    {
        proof {
            lemma_response_bits();
        }
        CancelUpdateComponentResponse {
            hdr: PldmMsgHeader::new(instance_id, PldmMsgType::Response, PldmSupportedType::FwUpdate, FwUpdateCmd::CancelUpdateComponent.to_u8()),
            completion_code: completion_code,
        }
    }
}

/// CancelUpdate request.
#[derive(Debug, Clone, Copy, PartialEq, Eq)]
pub struct CancelUpdateRequest {
    pub hdr: PldmMsgHeader,
}

impl FixedFields for CancelUpdateRequest {
    open spec fn spec_fields(&self) -> Seq<Field> {
        seq![
            Field::U8(self.hdr.0[0]),
            Field::U8(self.hdr.0[1]),
            Field::U8(self.hdr.0[2]),
        ]
    }

    open spec fn spec_layout() -> Seq<u8> {
        seq![1u8, 1, 1]
    }

    open spec fn spec_from_fields(fs: Seq<Field>) -> Self {
        CancelUpdateRequest { hdr: PldmMsgHeader([fv8(fs[0]), fv8(fs[1]), fv8(fs[2])]) }
    }

    fn layout() -> (r: Vec<u8>) {
        let r = vec![1u8, 1, 1];
        assert(r@ =~= Self::spec_layout());
        r
    }

    fn to_fields(&self) -> (r: Vec<Field>) {
        let r = vec![
            Field::U8(self.hdr.0[0]),
            Field::U8(self.hdr.0[1]),
            Field::U8(self.hdr.0[2]),
        ];
        assert(r@ =~= self.spec_fields());
        r
    }

    fn from_fields(fs: &Vec<Field>) -> (r: Self) {
        CancelUpdateRequest { hdr: PldmMsgHeader([get_u8(&fs[0]), get_u8(&fs[1]), get_u8(&fs[2])]) }
    }

    proof fn lemma_fields(&self) {
        assert(widths(self.spec_fields()) =~= Self::spec_layout());
        lemma_fits_widths(self.spec_fields());
        lemma_layout_of_fields(self.spec_fields(), Self::spec_layout());
        assert(Self::spec_from_fields(self.spec_fields()).hdr.0 =~= self.hdr.0);
    }

    proof fn lemma_from_fields(fs: Seq<Field>) {
        lemma_field_by_width(fs[0]);
        lemma_field_by_width(fs[1]);
        lemma_field_by_width(fs[2]);
        assert(Self::spec_from_fields(fs).spec_fields() =~= fs);
    }
}

impl CancelUpdateRequest {
    pub fn new(instance_id: InstanceId, msg_type: PldmMsgType) -> (r: Self)
        ensures
            r.hdr.0@ == msg_header(instance_id, msg_type, PldmSupportedType::FwUpdate.to_u8(), FwUpdateCmd::CancelUpdate.to_u8()),
    {
        CancelUpdateRequest {
            hdr: PldmMsgHeader::new(instance_id, msg_type, PldmSupportedType::FwUpdate, FwUpdateCmd::CancelUpdate.to_u8()),
        }
    }
}

/// The bitmap of the components that are not functioning.
#[derive(Debug, Clone, Copy, PartialEq, Eq, Structural)]
pub struct NonFunctioningComponentBitmap(u64);

impl View for NonFunctioningComponentBitmap {
    type V = u64;

    closed spec fn view(&self) -> u64 {
        self.0
    }
}

impl NonFunctioningComponentBitmap {
    pub fn new(value: u64) -> (r: Self)
        ensures
            r@ == value,
    {
        NonFunctioningComponentBitmap(value)
    }

    pub fn value(&self) -> (r: u64)
        ensures
            r == self@,
    {
        self.0
    }
}

/// CancelUpdate response: which components are left not functioning.
#[derive(Debug, Clone, Copy, PartialEq, Eq)]
pub struct CancelUpdateResponse {
    pub hdr: PldmMsgHeader,
    pub completion_code: u8,
    pub non_functioning_component_indication: u8,
    pub non_functioning_component_bitmap: u64,
}

impl FixedFields for CancelUpdateResponse {
    open spec fn spec_fields(&self) -> Seq<Field> {
        seq![
            Field::U8(self.hdr.0[0]),
            Field::U8(self.hdr.0[1]),
            Field::U8(self.hdr.0[2]),
            Field::U8(self.completion_code),
            Field::U8(self.non_functioning_component_indication),
            Field::U64(self.non_functioning_component_bitmap),
        ]
    }

    open spec fn spec_layout() -> Seq<u8> {
        seq![1u8, 1, 1, 1, 1, 8]
    }

    open spec fn spec_from_fields(fs: Seq<Field>) -> Self {
        CancelUpdateResponse { hdr: PldmMsgHeader([fv8(fs[0]), fv8(fs[1]), fv8(fs[2])]), completion_code: fv8(fs[3]), non_functioning_component_indication: fv8(fs[4]), non_functioning_component_bitmap: fv64(fs[5]) }
    }

    fn layout() -> (r: Vec<u8>) {
        let r = vec![1u8, 1, 1, 1, 1, 8];
        assert(r@ =~= Self::spec_layout());
        r
    }

    fn to_fields(&self) -> (r: Vec<Field>) {
        let r = vec![
            Field::U8(self.hdr.0[0]),
            Field::U8(self.hdr.0[1]),
            Field::U8(self.hdr.0[2]),
            Field::U8(self.completion_code),
            Field::U8(self.non_functioning_component_indication),
            Field::U64(self.non_functioning_component_bitmap),
        ];
        assert(r@ =~= self.spec_fields());
        r
    }

    fn from_fields(fs: &Vec<Field>) -> (r: Self) {
        CancelUpdateResponse { hdr: PldmMsgHeader([get_u8(&fs[0]), get_u8(&fs[1]), get_u8(&fs[2])]), completion_code: get_u8(&fs[3]), non_functioning_component_indication: get_u8(&fs[4]), non_functioning_component_bitmap: get_u64(&fs[5]) }
    }

    proof fn lemma_fields(&self) {
        assert(widths(self.spec_fields()) =~= Self::spec_layout());
        lemma_fits_widths(self.spec_fields());
        lemma_layout_of_fields(self.spec_fields(), Self::spec_layout());
        assert(Self::spec_from_fields(self.spec_fields()).hdr.0 =~= self.hdr.0);
    }

    proof fn lemma_from_fields(fs: Seq<Field>) {
        lemma_field_by_width(fs[0]);
        lemma_field_by_width(fs[1]);
        lemma_field_by_width(fs[2]);
        lemma_field_by_width(fs[3]);
        lemma_field_by_width(fs[4]);
        lemma_field_by_width(fs[5]);
        assert(Self::spec_from_fields(fs).spec_fields() =~= fs);
    }
}

impl CancelUpdateResponse {
    pub fn new(instance_id: InstanceId, completion_code: u8, non_functioning_component_indication: NonFunctioningComponentIndication, non_functioning_component_bitmap: NonFunctioningComponentBitmap) -> (r: Self)
        ensures
            r.hdr.0@ == response_header(instance_id, PldmSupportedType::FwUpdate.to_u8(), FwUpdateCmd::CancelUpdate.to_u8()),
            r.completion_code == completion_code,
            r.non_functioning_component_indication == non_functioning_component_indication.to_u8(),
            r.non_functioning_component_bitmap == non_functioning_component_bitmap@,
    {
        proof {
            lemma_response_bits();
        }
        CancelUpdateResponse {
            hdr: PldmMsgHeader::new(instance_id, PldmMsgType::Response, PldmSupportedType::FwUpdate, FwUpdateCmd::CancelUpdate.to_u8()),
            completion_code: completion_code,
            non_functioning_component_indication: non_functioning_component_indication.to_u8(),
            non_functioning_component_bitmap: non_functioning_component_bitmap.value(),
        }
    }
}

} // verus!
