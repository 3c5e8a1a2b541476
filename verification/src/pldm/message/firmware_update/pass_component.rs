use crate::pldm::codec::{
    lemma_field_by_width, lemma_fits_widths, lemma_layout_of_fields, widths, FixedFields,
};
use crate::pldm::error::PldmError;
use crate::pldm::protocol::base::{
    lemma_response_bits, msg_header, response_header, InstanceId, PldmMsgHeader, PldmMsgType,
    PldmSupportedType,
};
use crate::pldm::protocol::firmware_update::FwUpdateCmd;
use crate::wire::{fv16, fv32, fv8, get_u16, get_u32, get_u8, Field};
use vstd::prelude::*;
use crate::pldm::codec::{fixed_size, lemma_fixed_len, PldmCodec, PldmCodecError};
use crate::pldm::protocol::firmware_update::{
    lemma_str_array, str_array, str_array_of, str_prefix, zero_tail, PldmFirmwareString,
    PLDM_FWUP_IMAGE_SET_VER_STR_MAX_LEN,
};
use crate::wire::{append_bytes, fields_to_vec, layout_size, prefix_vec, put_encoding};
use vstd::slice::slice_subrange;
use crate::pldm::protocol::base::TransferRespFlag;
use crate::pldm::protocol::firmware_update::{
    ComponentClassification, ComponentResponse, ComponentResponseCode,
};

verus! {


/// The fixed part of a PassComponentTable request.
#[derive(Debug, Clone, Copy, PartialEq, Eq)]
pub struct PassComponentTableRequestFixed {
    pub hdr: PldmMsgHeader,
    pub transfer_flag: u8,
    pub comp_classification: u16,
    pub comp_identifier: u16,
    pub comp_classification_index: u8,
    pub comp_comparison_stamp: u32,
    pub comp_ver_str_type: u8,
    pub comp_ver_str_len: u8,
}

impl FixedFields for PassComponentTableRequestFixed {
    open spec fn spec_fields(&self) -> Seq<Field> {
        seq![
            Field::U8(self.hdr.0[0]),
            Field::U8(self.hdr.0[1]),
            Field::U8(self.hdr.0[2]),
            Field::U8(self.transfer_flag),
            Field::U16(self.comp_classification),
            Field::U16(self.comp_identifier),
            Field::U8(self.comp_classification_index),
            Field::U32(self.comp_comparison_stamp),
            Field::U8(self.comp_ver_str_type),
            Field::U8(self.comp_ver_str_len),
        ]
    }

    open spec fn spec_layout() -> Seq<u8> {
        seq![1u8, 1, 1, 1, 2, 2, 1, 4, 1, 1]
    }

    open spec fn spec_from_fields(fs: Seq<Field>) -> Self {
        PassComponentTableRequestFixed { hdr: PldmMsgHeader([fv8(fs[0]), fv8(fs[1]), fv8(fs[2])]), transfer_flag: fv8(fs[3]), comp_classification: fv16(fs[4]), comp_identifier: fv16(fs[5]), comp_classification_index: fv8(fs[6]), comp_comparison_stamp: fv32(fs[7]), comp_ver_str_type: fv8(fs[8]), comp_ver_str_len: fv8(fs[9]) }
    }

    fn layout() -> (r: Vec<u8>) {
        let r = vec![1u8, 1, 1, 1, 2, 2, 1, 4, 1, 1];
        assert(r@ =~= Self::spec_layout());
        r
    }

    fn to_fields(&self) -> (r: Vec<Field>) {
        let r = vec![
            Field::U8(self.hdr.0[0]),
            Field::U8(self.hdr.0[1]),
            Field::U8(self.hdr.0[2]),
            Field::U8(self.transfer_flag),
            Field::U16(self.comp_classification),
            Field::U16(self.comp_identifier),
            Field::U8(self.comp_classification_index),
            Field::U32(self.comp_comparison_stamp),
            Field::U8(self.comp_ver_str_type),
            Field::U8(self.comp_ver_str_len),
        ];
        assert(r@ =~= self.spec_fields());
        r
    }

    fn from_fields(fs: &Vec<Field>) -> (r: Self) {
        PassComponentTableRequestFixed { hdr: PldmMsgHeader([get_u8(&fs[0]), get_u8(&fs[1]), get_u8(&fs[2])]), transfer_flag: get_u8(&fs[3]), comp_classification: get_u16(&fs[4]), comp_identifier: get_u16(&fs[5]), comp_classification_index: get_u8(&fs[6]), comp_comparison_stamp: get_u32(&fs[7]), comp_ver_str_type: get_u8(&fs[8]), comp_ver_str_len: get_u8(&fs[9]) }
    }

    proof fn lemma_fields(&self) {
        assert(widths(self.spec_fields()) =~= Self::spec_layout());
        lemma_fits_widths(self.spec_fields());
        lemma_layout_of_fields(self.spec_fields(), Self::spec_layout());
        assert(Self::spec_from_fields(self.spec_fields()).hdr.0 =~= self.hdr.0);
    }

    proof fn lemma_from_fields(fs: Seq<Field>) {
        lemma_field_by_width(fs[0]);
        lemma_field_by_width(fs[1]);
        lemma_field_by_width(fs[2]);
        lemma_field_by_width(fs[3]);
        lemma_field_by_width(fs[4]);
        lemma_field_by_width(fs[5]);
        lemma_field_by_width(fs[6]);
        lemma_field_by_width(fs[7]);
        lemma_field_by_width(fs[8]);
        lemma_field_by_width(fs[9]);
        assert(Self::spec_from_fields(fs).spec_fields() =~= fs);
    }
}

/// PassComponentTable request: one component of the table and its version string, stored in the first `comp_ver_str_len` bytes of `comp_ver_str`.
#[derive(Debug, Clone, Copy, PartialEq, Eq)]
pub struct PassComponentTableRequest {
    pub fixed: PassComponentTableRequestFixed,
    pub comp_ver_str: [u8; PLDM_FWUP_IMAGE_SET_VER_STR_MAX_LEN],
}

impl PassComponentTableRequest {
    /// The size of the encoding: the fixed part and the string bytes.
    pub fn codec_size_in_bytes(&self) -> (r: usize)
        ensures
            r == self.spec_encoding().len(),
            r == layout_size(PassComponentTableRequestFixed::spec_layout()) + self.fixed.comp_ver_str_len,
    {
        proof {
            lemma_fixed_len(&self.fixed);
        }
        fixed_size::<PassComponentTableRequestFixed>() + self.fixed.comp_ver_str_len as usize
    }
}

impl PldmCodec for PassComponentTableRequest {
    open spec fn spec_encoding(&self) -> Seq<u8> {
        self.fixed.spec_encoding() + str_prefix(self.comp_ver_str, self.fixed.comp_ver_str_len)
    }

    open spec fn spec_decode(bytes: Seq<u8>) -> Option<Self> {
        match PassComponentTableRequestFixed::spec_decode(bytes) {
            None => None,
            Some(f) => {
                let n = layout_size(PassComponentTableRequestFixed::spec_layout()) as int;
                let len = f.comp_ver_str_len as int;
                if bytes.len() < n + len {
                    None
                } else {
                    Some(PassComponentTableRequest { fixed: f, comp_ver_str: str_array(bytes.subrange(n, n + len)) })
                }
            },
        }
    }

    open spec fn spec_well_formed(&self) -> bool {
        zero_tail(self.comp_ver_str, self.fixed.comp_ver_str_len)
    }

    open spec fn spec_required_len(&self) -> nat {
        self.spec_encoding().len()
    }

    open spec fn spec_encode_admits(&self, buffer_len: nat) -> bool {
        true
    }

    open spec fn spec_decode_admits(bytes: Seq<u8>) -> bool {
        true
    }

    fn encode(&self, buffer: &mut [u8]) -> (r: Result<usize, PldmCodecError>) {
        let fixed_fields = self.fixed.to_fields();
        let mut data = fields_to_vec(&fixed_fields);
        let s = prefix_vec(&self.comp_ver_str, self.fixed.comp_ver_str_len as usize);
        append_bytes(&mut data, s.as_slice());
        assert(data@ =~= self.spec_encoding());
        put_encoding(&data, data.len(), buffer)
    }

    fn decode(buffer: &[u8]) -> (r: Result<Self, PldmCodecError>) {
        let fixed = match PassComponentTableRequestFixed::decode(buffer) {
            Ok(f) => f,
            Err(e) => return Err(e),
        };
        let n = fixed_size::<PassComponentTableRequestFixed>();
        let len = fixed.comp_ver_str_len as usize;
        if buffer.len() - n < len {
            return Err(PldmCodecError::BufferTooShort);
        }
        let s = str_array_of(slice_subrange(buffer, n, n + len));
        Ok(PassComponentTableRequest { fixed, comp_ver_str: s })
    }

    proof fn lemma_roundtrip(&self, rest: Seq<u8>) {
        let f = self.fixed;
        let len = f.comp_ver_str_len;
        let st = str_prefix(self.comp_ver_str, len);
        let tail = st + rest;
        f.lemma_roundtrip(tail);
        lemma_fixed_len(&f);
        let b = self.spec_encoding() + rest;
        assert(b =~= f.spec_encoding() + tail);
        let n = layout_size(PassComponentTableRequestFixed::spec_layout()) as int;
        assert(b.subrange(n, n + len) =~= st);
        lemma_str_array(self.comp_ver_str, len);
    }
}

impl PassComponentTableRequest {
    /// The request for one component; the version string array is copied whole.
    pub fn new(instance_id: InstanceId, msg_type: PldmMsgType, transfer_flag: TransferRespFlag, comp_classification: ComponentClassification, comp_identifier: u16, comp_classification_index: u8, comp_comparison_stamp: u32, comp_version_string: &PldmFirmwareString) -> (r: Self)
        ensures
            r.fixed.hdr.0@ == msg_header(instance_id, msg_type, PldmSupportedType::FwUpdate.to_u8(), FwUpdateCmd::PassComponentTable.to_u8()),
            r.fixed.transfer_flag == transfer_flag.to_u8(),
            r.fixed.comp_classification == comp_classification.to_u16(),
            r.fixed.comp_identifier == comp_identifier,
            r.fixed.comp_classification_index == comp_classification_index,
            r.fixed.comp_comparison_stamp == comp_comparison_stamp,
            r.fixed.comp_ver_str_type == comp_version_string.str_type,
            r.fixed.comp_ver_str_len == comp_version_string.str_len,
            r.comp_ver_str == comp_version_string.str_data,
    {
        PassComponentTableRequest {
            fixed: PassComponentTableRequestFixed {
                hdr: PldmMsgHeader::new(instance_id, msg_type, PldmSupportedType::FwUpdate, FwUpdateCmd::PassComponentTable.to_u8()),
                transfer_flag: transfer_flag.to_u8(),
                comp_classification: comp_classification.to_u16(),
                comp_identifier: comp_identifier,
                comp_classification_index: comp_classification_index,
                comp_comparison_stamp: comp_comparison_stamp,
                comp_ver_str_type: comp_version_string.str_type,
                comp_ver_str_len: comp_version_string.str_len,
            },
            comp_ver_str: comp_version_string.str_data,
        }
    }
}

/// PassComponentTable response: whether the component can be updated, and why.
#[derive(Debug, Clone, Copy, PartialEq, Eq)]
pub struct PassComponentTableResponse {
    pub hdr: PldmMsgHeader,
    pub completion_code: u8,
    pub comp_resp: u8,
    pub comp_resp_code: u8,
}

impl FixedFields for PassComponentTableResponse {
    open spec fn spec_fields(&self) -> Seq<Field> {
        seq![
            Field::U8(self.hdr.0[0]),
            Field::U8(self.hdr.0[1]),
            Field::U8(self.hdr.0[2]),
            Field::U8(self.completion_code),
            Field::U8(self.comp_resp),
            Field::U8(self.comp_resp_code),
        ]
    }

    open spec fn spec_layout() -> Seq<u8> {
        seq![1u8, 1, 1, 1, 1, 1]
    }

    open spec fn spec_from_fields(fs: Seq<Field>) -> Self {
        PassComponentTableResponse { hdr: PldmMsgHeader([fv8(fs[0]), fv8(fs[1]), fv8(fs[2])]), completion_code: fv8(fs[3]), comp_resp: fv8(fs[4]), comp_resp_code: fv8(fs[5]) }
    }

    fn layout() -> (r: Vec<u8>) {
        let r = vec![1u8, 1, 1, 1, 1, 1];
        assert(r@ =~= Self::spec_layout());
        r
    }

    fn to_fields(&self) -> (r: Vec<Field>) {
        let r = vec![
            Field::U8(self.hdr.0[0]),
            Field::U8(self.hdr.0[1]),
            Field::U8(self.hdr.0[2]),
            Field::U8(self.completion_code),
            Field::U8(self.comp_resp),
            Field::U8(self.comp_resp_code),
        ];
        assert(r@ =~= self.spec_fields());
        r
    }

    fn from_fields(fs: &Vec<Field>) -> (r: Self) {
        PassComponentTableResponse { hdr: PldmMsgHeader([get_u8(&fs[0]), get_u8(&fs[1]), get_u8(&fs[2])]), completion_code: get_u8(&fs[3]), comp_resp: get_u8(&fs[4]), comp_resp_code: get_u8(&fs[5]) }
    }

    proof fn lemma_fields(&self) {
        assert(widths(self.spec_fields()) =~= Self::spec_layout());
        lemma_fits_widths(self.spec_fields());
        lemma_layout_of_fields(self.spec_fields(), Self::spec_layout());
        assert(Self::spec_from_fields(self.spec_fields()).hdr.0 =~= self.hdr.0);
    }

    proof fn lemma_from_fields(fs: Seq<Field>) {
        lemma_field_by_width(fs[0]);
        lemma_field_by_width(fs[1]);
        lemma_field_by_width(fs[2]);
        lemma_field_by_width(fs[3]);
        lemma_field_by_width(fs[4]);
        lemma_field_by_width(fs[5]);
        assert(Self::spec_from_fields(fs).spec_fields() =~= fs);
    }
}

impl PassComponentTableResponse {
    pub fn new(instance_id: InstanceId, completion_code: u8, comp_resp: ComponentResponse, comp_resp_code: ComponentResponseCode) -> (r: Self)
        ensures
            r.hdr.0@ == response_header(instance_id, PldmSupportedType::FwUpdate.to_u8(), FwUpdateCmd::PassComponentTable.to_u8()),
            r.completion_code == completion_code,
            r.comp_resp == comp_resp.to_u8(),
            r.comp_resp_code == comp_resp_code.to_u8(),
    {
        proof {
            lemma_response_bits();
        }
        PassComponentTableResponse {
            hdr: PldmMsgHeader::new(instance_id, PldmMsgType::Response, PldmSupportedType::FwUpdate, FwUpdateCmd::PassComponentTable.to_u8()),
            completion_code: completion_code,
            comp_resp: comp_resp.to_u8(),
            comp_resp_code: comp_resp_code.to_u8(),
        }
    }
}

} // verus!
