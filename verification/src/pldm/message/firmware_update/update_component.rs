use crate::pldm::codec::{
    lemma_field_by_width, lemma_fits_widths, lemma_layout_of_fields, widths, FixedFields,
};
use crate::pldm::error::PldmError;
use crate::pldm::protocol::base::{
    lemma_response_bits, msg_header, response_header, InstanceId, PldmMsgHeader, PldmMsgType,
    PldmSupportedType,
};
use crate::pldm::protocol::firmware_update::FwUpdateCmd;
use crate::wire::{fv16, fv32, fv8, get_u16, get_u32, get_u8, Field};
use vstd::prelude::*;
use crate::pldm::codec::{fixed_size, lemma_fixed_len, PldmCodec, PldmCodecError};
use crate::pldm::protocol::firmware_update::{
    lemma_str_array, str_array, str_array_of, str_prefix, zero_tail, PldmFirmwareString,
    PLDM_FWUP_IMAGE_SET_VER_STR_MAX_LEN,
};
use crate::wire::{append_bytes, fields_to_vec, layout_size, prefix_vec, put_encoding};
use vstd::slice::slice_subrange;
use crate::pldm::protocol::firmware_update::{
    ComponentClassification, ComponentCompatibilityResponse, ComponentCompatibilityResponseCode,
    UpdateOptionFlags,
};
use crate::pldm::protocol::base::PLDM_MSG_HEADER_LEN;
use crate::wire::{from_le2, from_le4, le2, le4, lemma_le2, lemma_le4, opt_le4, push_u16, push_u32, read_u16, read_u32};

verus! {


/// The fixed part of an UpdateComponent request.
#[derive(Debug, Clone, Copy, PartialEq, Eq)]
pub struct UpdateComponentRequestFixed {
    pub hdr: PldmMsgHeader,
    pub comp_classification: u16,
    pub comp_identifier: u16,
    pub comp_classification_index: u8,
    pub comp_comparison_stamp: u32,
    pub comp_image_size: u32,
    pub update_option_flags: u32,
    pub comp_ver_str_type: u8,
    pub comp_ver_str_len: u8,
}

impl FixedFields for UpdateComponentRequestFixed {
    open spec fn spec_fields(&self) -> Seq<Field> {
        seq![
            Field::U8(self.hdr.0[0]),
            Field::U8(self.hdr.0[1]),
            Field::U8(self.hdr.0[2]),
            Field::U16(self.comp_classification),
            Field::U16(self.comp_identifier),
            Field::U8(self.comp_classification_index),
            Field::U32(self.comp_comparison_stamp),
            Field::U32(self.comp_image_size),
            Field::U32(self.update_option_flags),
            Field::U8(self.comp_ver_str_type),
            Field::U8(self.comp_ver_str_len),
        ]
    }

    open spec fn spec_layout() -> Seq<u8> {
        seq![1u8, 1, 1, 2, 2, 1, 4, 4, 4, 1, 1]
    }

    open spec fn spec_from_fields(fs: Seq<Field>) -> Self {
        UpdateComponentRequestFixed { hdr: PldmMsgHeader([fv8(fs[0]), fv8(fs[1]), fv8(fs[2])]), comp_classification: fv16(fs[3]), comp_identifier: fv16(fs[4]), comp_classification_index: fv8(fs[5]), comp_comparison_stamp: fv32(fs[6]), comp_image_size: fv32(fs[7]), update_option_flags: fv32(fs[8]), comp_ver_str_type: fv8(fs[9]), comp_ver_str_len: fv8(fs[10]) }
    }

    fn layout() -> (r: Vec<u8>) {
        let r = vec![1u8, 1, 1, 2, 2, 1, 4, 4, 4, 1, 1];
        assert(r@ =~= Self::spec_layout());
        r
    }

    fn to_fields(&self) -> (r: Vec<Field>) {
        let r = vec![
            Field::U8(self.hdr.0[0]),
            Field::U8(self.hdr.0[1]),
            Field::U8(self.hdr.0[2]),
            Field::U16(self.comp_classification),
            Field::U16(self.comp_identifier),
            Field::U8(self.comp_classification_index),
            Field::U32(self.comp_comparison_stamp),
            Field::U32(self.comp_image_size),
            Field::U32(self.update_option_flags),
            Field::U8(self.comp_ver_str_type),
            Field::U8(self.comp_ver_str_len),
        ];
        assert(r@ =~= self.spec_fields());
        r
    }

    fn from_fields(fs: &Vec<Field>) -> (r: Self) {
        UpdateComponentRequestFixed { hdr: PldmMsgHeader([get_u8(&fs[0]), get_u8(&fs[1]), get_u8(&fs[2])]), comp_classification: get_u16(&fs[3]), comp_identifier: get_u16(&fs[4]), comp_classification_index: get_u8(&fs[5]), comp_comparison_stamp: get_u32(&fs[6]), comp_image_size: get_u32(&fs[7]), update_option_flags: get_u32(&fs[8]), comp_ver_str_type: get_u8(&fs[9]), comp_ver_str_len: get_u8(&fs[10]) }
    }

    proof fn lemma_fields(&self) {
        assert(widths(self.spec_fields()) =~= Self::spec_layout());
        lemma_fits_widths(self.spec_fields());
        lemma_layout_of_fields(self.spec_fields(), Self::spec_layout());
        assert(Self::spec_from_fields(self.spec_fields()).hdr.0 =~= self.hdr.0);
    }

    proof fn lemma_from_fields(fs: Seq<Field>) {
        lemma_field_by_width(fs[0]);
        lemma_field_by_width(fs[1]);
        lemma_field_by_width(fs[2]);
        lemma_field_by_width(fs[3]);
        lemma_field_by_width(fs[4]);
        lemma_field_by_width(fs[5]);
        lemma_field_by_width(fs[6]);
        lemma_field_by_width(fs[7]);
        lemma_field_by_width(fs[8]);
        lemma_field_by_width(fs[9]);
        lemma_field_by_width(fs[10]);
        assert(Self::spec_from_fields(fs).spec_fields() =~= fs);
    }
}

/// UpdateComponent request: the component to update and its version string, stored in the first `comp_ver_str_len` bytes of `comp_ver_str`.
#[derive(Debug, Clone, Copy, PartialEq, Eq)]
pub struct UpdateComponentRequest {
    pub fixed: UpdateComponentRequestFixed,
    pub comp_ver_str: [u8; PLDM_FWUP_IMAGE_SET_VER_STR_MAX_LEN],
}

impl UpdateComponentRequest {
    /// The size of the encoding: the fixed part and the string bytes.
    pub fn codec_size_in_bytes(&self) -> (r: usize)
        ensures
            r == self.spec_encoding().len(),
            r == layout_size(UpdateComponentRequestFixed::spec_layout()) + self.fixed.comp_ver_str_len,
    {
        proof {
            lemma_fixed_len(&self.fixed);
        }
        fixed_size::<UpdateComponentRequestFixed>() + self.fixed.comp_ver_str_len as usize
    }
}

impl PldmCodec for UpdateComponentRequest {
    open spec fn spec_encoding(&self) -> Seq<u8> {
        self.fixed.spec_encoding() + str_prefix(self.comp_ver_str, self.fixed.comp_ver_str_len)
    }

    open spec fn spec_decode(bytes: Seq<u8>) -> Option<Self> {
        match UpdateComponentRequestFixed::spec_decode(bytes) {
            None => None,
            Some(f) => {
                let n = layout_size(UpdateComponentRequestFixed::spec_layout()) as int;
                let len = f.comp_ver_str_len as int;
                if bytes.len() < n + len {
                    None
                } else {
                    Some(UpdateComponentRequest { fixed: f, comp_ver_str: str_array(bytes.subrange(n, n + len)) })
                }
            },
        }
    }

    open spec fn spec_well_formed(&self) -> bool {
        zero_tail(self.comp_ver_str, self.fixed.comp_ver_str_len)
    }

    open spec fn spec_required_len(&self) -> nat {
        self.spec_encoding().len()
    }

    open spec fn spec_encode_admits(&self, buffer_len: nat) -> bool {
        true
    }

    open spec fn spec_decode_admits(bytes: Seq<u8>) -> bool {
        match UpdateComponentRequestFixed::spec_decode(bytes) {
            None => true,
            Some(f) => bytes.len() >= layout_size(UpdateComponentRequestFixed::spec_layout()) + f.comp_ver_str_len,
        }
    }

    fn encode(&self, buffer: &mut [u8]) -> (r: Result<usize, PldmCodecError>) {
        let fixed_fields = self.fixed.to_fields();
        let mut data = fields_to_vec(&fixed_fields);
        let s = prefix_vec(&self.comp_ver_str, self.fixed.comp_ver_str_len as usize);
        append_bytes(&mut data, s.as_slice());
        assert(data@ =~= self.spec_encoding());
        put_encoding(&data, data.len(), buffer)
    }

    fn decode(buffer: &[u8]) -> (r: Result<Self, PldmCodecError>) {
        let fixed = match UpdateComponentRequestFixed::decode(buffer) {
            Ok(f) => f,
            Err(e) => return Err(e),
        };
        let n = fixed_size::<UpdateComponentRequestFixed>();
        let len = fixed.comp_ver_str_len as usize;
        if buffer.len() - n < len {
            return Err(PldmCodecError::BufferTooShort);
        }
        let s = str_array_of(slice_subrange(buffer, n, n + len));
        Ok(UpdateComponentRequest { fixed, comp_ver_str: s })
    }

    proof fn lemma_roundtrip(&self, rest: Seq<u8>) {
        let f = self.fixed;
        let len = f.comp_ver_str_len;
        let st = str_prefix(self.comp_ver_str, len);
        let tail = st + rest;
        f.lemma_roundtrip(tail);
        lemma_fixed_len(&f);
        let b = self.spec_encoding() + rest;
        assert(b =~= f.spec_encoding() + tail);
        let n = layout_size(UpdateComponentRequestFixed::spec_layout()) as int;
        assert(b.subrange(n, n + len) =~= st);
        lemma_str_array(self.comp_ver_str, len);
    }
}

impl UpdateComponentRequest {
    /// The request to update one component; the version string array is copied whole.
    pub fn new(instance_id: InstanceId, msg_type: PldmMsgType, comp_classification: ComponentClassification, comp_identifier: u16, comp_classification_index: u8, comp_comparison_stamp: u32, comp_image_size: u32, update_option_flags: UpdateOptionFlags, comp_version_string: &PldmFirmwareString) -> (r: Self)
        ensures
            r.fixed.hdr.0@ == msg_header(instance_id, msg_type, PldmSupportedType::FwUpdate.to_u8(), FwUpdateCmd::UpdateComponent.to_u8()),
            r.fixed.comp_classification == comp_classification.to_u16(),
            r.fixed.comp_identifier == comp_identifier,
            r.fixed.comp_classification_index == comp_classification_index,
            r.fixed.comp_comparison_stamp == comp_comparison_stamp,
            r.fixed.comp_image_size == comp_image_size,
            r.fixed.update_option_flags == update_option_flags.0,
            r.fixed.comp_ver_str_type == comp_version_string.str_type,
            r.fixed.comp_ver_str_len == comp_version_string.str_len,
            r.comp_ver_str == comp_version_string.str_data,
    {
        UpdateComponentRequest {
            fixed: UpdateComponentRequestFixed {
                hdr: PldmMsgHeader::new(instance_id, msg_type, PldmSupportedType::FwUpdate, FwUpdateCmd::UpdateComponent.to_u8()),
                comp_classification: comp_classification.to_u16(),
                comp_identifier: comp_identifier,
                comp_classification_index: comp_classification_index,
                comp_comparison_stamp: comp_comparison_stamp,
                comp_image_size: comp_image_size,
                update_option_flags: update_option_flags.0,
                comp_ver_str_type: comp_version_string.str_type,
                comp_ver_str_len: comp_version_string.str_len,
            },
            comp_ver_str: comp_version_string.str_data,
        }
    }
}

/// UpdateComponent response: whether the component can be updated, the
/// options in effect, and, when the component opaque data option is on, the
/// largest transfer of that data.
#[derive(Debug, Clone, Copy, PartialEq, Eq)]
pub struct UpdateComponentResponse {
    pub hdr: PldmMsgHeader,
    pub completion_code: u8,
    pub comp_compatibility_resp: u8,
    pub comp_compatibility_resp_code: u8,
    pub update_option_flags_enabled: u32,
    pub time_before_req_fw_data: u16,
    pub get_comp_opaque_data_max_transfer_size: Option<u32>,
}

impl UpdateComponentResponse {
    pub fn new(
        instance_id: InstanceId,
        completion_code: u8,
        comp_compatibility_resp: ComponentCompatibilityResponse,
        comp_compatibility_resp_code: ComponentCompatibilityResponseCode,
        update_option_flags_enabled: UpdateOptionFlags,
        time_before_req_fw_data: u16,
        get_comp_opaque_data_max_transfer_size: Option<u32>,
    ) -> (r: Self)
        ensures
            r.hdr.0@ == response_header(instance_id, PldmSupportedType::FwUpdate.to_u8(), FwUpdateCmd::UpdateComponent.to_u8()),
            r.completion_code == completion_code,
            r.comp_compatibility_resp == comp_compatibility_resp.to_u8(),
            r.comp_compatibility_resp_code == comp_compatibility_resp_code.to_u8(),
            r.update_option_flags_enabled == update_option_flags_enabled.0,
            r.time_before_req_fw_data == time_before_req_fw_data,
            r.get_comp_opaque_data_max_transfer_size == get_comp_opaque_data_max_transfer_size,
    {
        proof {
            lemma_response_bits();
        }
        UpdateComponentResponse {
            hdr: PldmMsgHeader::new(instance_id, PldmMsgType::Response, PldmSupportedType::FwUpdate, FwUpdateCmd::UpdateComponent.to_u8()),
            completion_code,
            comp_compatibility_resp: comp_compatibility_resp.to_u8(),
            comp_compatibility_resp_code: comp_compatibility_resp_code.to_u8(),
            update_option_flags_enabled: update_option_flags_enabled.0,
            time_before_req_fw_data,
            get_comp_opaque_data_max_transfer_size,
        }
    }

    /// The size of the encoding: twelve bytes, and four more when the
    /// optional transfer size is present.
    pub fn codec_size_in_bytes(&self) -> (r: usize)
        ensures
            r == self.spec_encoding().len(),
            r == 12 + (if self.get_comp_opaque_data_max_transfer_size is Some { 4int } else { 0int }),
    {
        let mut bytes: usize = PLDM_MSG_HEADER_LEN + 3 + 4 + 2;
        if self.get_comp_opaque_data_max_transfer_size.is_some() {
            bytes = bytes + 4;
        }
        bytes
    }
}

impl PldmCodec for UpdateComponentResponse {
    open spec fn spec_encoding(&self) -> Seq<u8> {
        self.hdr.0@ + seq![self.completion_code, self.comp_compatibility_resp, self.comp_compatibility_resp_code]
            + le4(self.update_option_flags_enabled) + le2(self.time_before_req_fw_data) + opt_le4(
            self.get_comp_opaque_data_max_transfer_size,
        )
    }

    open spec fn spec_decode(bytes: Seq<u8>) -> Option<Self> {
        if bytes.len() < 12 {
            None
        } else {
            let flags = from_le4(bytes.subrange(6, 10));
            let opaque = UpdateOptionFlags(flags).component_opaque_data();
            if opaque && bytes.len() < 16 {
                None
            } else {
                Some(
                    UpdateComponentResponse {
                        hdr: PldmMsgHeader([bytes[0], bytes[1], bytes[2]]),
                        completion_code: bytes[3],
                        comp_compatibility_resp: bytes[4],
                        comp_compatibility_resp_code: bytes[5],
                        update_option_flags_enabled: flags,
                        time_before_req_fw_data: from_le2(bytes.subrange(10, 12)),
                        get_comp_opaque_data_max_transfer_size: if opaque {
                            Some(from_le4(bytes.subrange(12, 16)))
                        } else {
                            None
                        },
                    },
                )
            }
        }
    }

    open spec fn spec_well_formed(&self) -> bool {
        (self.get_comp_opaque_data_max_transfer_size is Some) == UpdateOptionFlags(
            self.update_option_flags_enabled,
        ).component_opaque_data()
    }

    open spec fn spec_required_len(&self) -> nat {
        self.spec_encoding().len()
    }

    open spec fn spec_encode_admits(&self, buffer_len: nat) -> bool {
        true
    }

    open spec fn spec_decode_admits(bytes: Seq<u8>) -> bool {
        true
    }

    fn encode(&self, buffer: &mut [u8]) -> (r: Result<usize, PldmCodecError>) {
        let mut data: Vec<u8> = Vec::new();
        data.push(self.hdr.0[0]);
        data.push(self.hdr.0[1]);
        data.push(self.hdr.0[2]);
        data.push(self.completion_code);
        data.push(self.comp_compatibility_resp);
        data.push(self.comp_compatibility_resp_code);
        push_u32(&mut data, self.update_option_flags_enabled);
        push_u16(&mut data, self.time_before_req_fw_data);
        match self.get_comp_opaque_data_max_transfer_size {
            Some(size) => push_u32(&mut data, size),
            None => {},
        }
        assert(data@ =~= self.spec_encoding());
        put_encoding(&data, data.len(), buffer)
    }

    fn decode(buffer: &[u8]) -> (r: Result<Self, PldmCodecError>) {
        if buffer.len() < 12 {
            return Err(PldmCodecError::BufferTooShort);
        }
        let hdr = PldmMsgHeader([buffer[0], buffer[1], buffer[2]]);
        let update_option_flags_enabled = read_u32(buffer, 6);
        let time_before_req_fw_data = read_u16(buffer, 10);
        let update_option_flags = UpdateOptionFlags(update_option_flags_enabled);
        let get_comp_opaque_data_max_transfer_size = if update_option_flags.component_opaque_data() {
            if buffer.len() < 16 {
                return Err(PldmCodecError::BufferTooShort);
            }
            Some(read_u32(buffer, 12))
        } else {
            None
        };
        Ok(UpdateComponentResponse {
            hdr,
            completion_code: buffer[3],
            comp_compatibility_resp: buffer[4],
            comp_compatibility_resp_code: buffer[5],
            update_option_flags_enabled,
            time_before_req_fw_data,
            get_comp_opaque_data_max_transfer_size,
        })
    }

    proof fn lemma_roundtrip(&self, rest: Seq<u8>) {
        let b = self.spec_encoding() + rest;
        lemma_le4(self.update_option_flags_enabled);
        lemma_le2(self.time_before_req_fw_data);
        assert(b.subrange(6, 10) =~= le4(self.update_option_flags_enabled));
        assert(b.subrange(10, 12) =~= le2(self.time_before_req_fw_data));
        match self.get_comp_opaque_data_max_transfer_size {
            Some(v) => {
                lemma_le4(v);
                assert(b.subrange(12, 16) =~= le4(v));
            },
            None => {},
        }
        let d = Self::spec_decode(b).unwrap();
        assert(d.hdr.0 =~= self.hdr.0);
    }
}

} // verus!
