use crate::pldm::codec::{
    lemma_field_by_width, lemma_fits_widths, lemma_layout_of_fields, widths, FixedFields,
};
use crate::pldm::error::PldmError;
use crate::pldm::protocol::base::{
    lemma_response_bits, msg_header, response_header, InstanceId, PldmMsgHeader, PldmMsgType,
    PldmSupportedType,
};
use crate::pldm::protocol::firmware_update::FwUpdateCmd;
use crate::wire::{fv16, fv32, fv8, get_u16, get_u32, get_u8, Field};
use vstd::prelude::*;
use crate::pldm::codec::{fixed_size, lemma_fixed_len, PldmCodec, PldmCodecError};
use crate::pldm::protocol::firmware_update::{
    lemma_str_array, str_array, str_array_of, str_prefix, zero_tail, PldmFirmwareString,
    PLDM_FWUP_IMAGE_SET_VER_STR_MAX_LEN,
};
use crate::wire::{append_bytes, fields_to_vec, layout_size, prefix_vec, put_encoding};
use vstd::slice::slice_subrange;
use crate::wire::{from_le4, le4, lemma_le4, opt_le4, push_u32, read_u32};

verus! {


/// The fixed part of a RequestUpdate request.
#[derive(Debug, Clone, Copy, PartialEq, Eq)]
pub struct RequestUpdateRequestFixed {
    pub hdr: PldmMsgHeader,
    pub max_transfer_size: u32,
    pub num_of_comp: u16,
    pub max_outstanding_transfer_req: u8,
    pub pkg_data_len: u16,
    pub comp_image_set_ver_str_type: u8,
    pub comp_image_set_ver_str_len: u8,
}

impl FixedFields for RequestUpdateRequestFixed {
    open spec fn spec_fields(&self) -> Seq<Field> {
        seq![
            Field::U8(self.hdr.0[0]),
            Field::U8(self.hdr.0[1]),
            Field::U8(self.hdr.0[2]),
            Field::U32(self.max_transfer_size),
            Field::U16(self.num_of_comp),
            Field::U8(self.max_outstanding_transfer_req),
            Field::U16(self.pkg_data_len),
            Field::U8(self.comp_image_set_ver_str_type),
            Field::U8(self.comp_image_set_ver_str_len),
        ]
    }

    open spec fn spec_layout() -> Seq<u8> {
        seq![1u8, 1, 1, 4, 2, 1, 2, 1, 1]
    }

    open spec fn spec_from_fields(fs: Seq<Field>) -> Self {
        RequestUpdateRequestFixed { hdr: PldmMsgHeader([fv8(fs[0]), fv8(fs[1]), fv8(fs[2])]), max_transfer_size: fv32(fs[3]), num_of_comp: fv16(fs[4]), max_outstanding_transfer_req: fv8(fs[5]), pkg_data_len: fv16(fs[6]), comp_image_set_ver_str_type: fv8(fs[7]), comp_image_set_ver_str_len: fv8(fs[8]) }
    }

    fn layout() -> (r: Vec<u8>) {
        let r = vec![1u8, 1, 1, 4, 2, 1, 2, 1, 1];
        assert(r@ =~= Self::spec_layout());
        r
    }

    fn to_fields(&self) -> (r: Vec<Field>) {
        let r = vec![
            Field::U8(self.hdr.0[0]),
            Field::U8(self.hdr.0[1]),
            Field::U8(self.hdr.0[2]),
            Field::U32(self.max_transfer_size),
            Field::U16(self.num_of_comp),
            Field::U8(self.max_outstanding_transfer_req),
            Field::U16(self.pkg_data_len),
            Field::U8(self.comp_image_set_ver_str_type),
            Field::U8(self.comp_image_set_ver_str_len),
        ];
        assert(r@ =~= self.spec_fields());
        r
    }

    fn from_fields(fs: &Vec<Field>) -> (r: Self) {
        RequestUpdateRequestFixed { hdr: PldmMsgHeader([get_u8(&fs[0]), get_u8(&fs[1]), get_u8(&fs[2])]), max_transfer_size: get_u32(&fs[3]), num_of_comp: get_u16(&fs[4]), max_outstanding_transfer_req: get_u8(&fs[5]), pkg_data_len: get_u16(&fs[6]), comp_image_set_ver_str_type: get_u8(&fs[7]), comp_image_set_ver_str_len: get_u8(&fs[8]) }
    }

    proof fn lemma_fields(&self) {
        assert(widths(self.spec_fields()) =~= Self::spec_layout());
        lemma_fits_widths(self.spec_fields());
        lemma_layout_of_fields(self.spec_fields(), Self::spec_layout());
        assert(Self::spec_from_fields(self.spec_fields()).hdr.0 =~= self.hdr.0);
    }

    proof fn lemma_from_fields(fs: Seq<Field>) {
        lemma_field_by_width(fs[0]);
        lemma_field_by_width(fs[1]);
        lemma_field_by_width(fs[2]);
        lemma_field_by_width(fs[3]);
        lemma_field_by_width(fs[4]);
        lemma_field_by_width(fs[5]);
        lemma_field_by_width(fs[6]);
        lemma_field_by_width(fs[7]);
        lemma_field_by_width(fs[8]);
        assert(Self::spec_from_fields(fs).spec_fields() =~= fs);
    }
}

/// RequestUpdate request: the update offered and the version string of the component image set, stored in the first `comp_image_set_ver_str_len` bytes of `comp_image_set_ver_str`.
#[derive(Debug, Clone, Copy, PartialEq, Eq)]
pub struct RequestUpdateRequest {
    pub fixed: RequestUpdateRequestFixed,
    pub comp_image_set_ver_str: [u8; PLDM_FWUP_IMAGE_SET_VER_STR_MAX_LEN],
}

impl RequestUpdateRequest {
    /// The size of the encoding: the fixed part and the string bytes.
    pub fn codec_size_in_bytes(&self) -> (r: usize)
        ensures
            r == self.spec_encoding().len(),
            r == layout_size(RequestUpdateRequestFixed::spec_layout()) + self.fixed.comp_image_set_ver_str_len,
    {
        proof {
            lemma_fixed_len(&self.fixed);
        }
        fixed_size::<RequestUpdateRequestFixed>() + self.fixed.comp_image_set_ver_str_len as usize
    }
}

impl PldmCodec for RequestUpdateRequest {
    open spec fn spec_encoding(&self) -> Seq<u8> {
        self.fixed.spec_encoding() + str_prefix(self.comp_image_set_ver_str, self.fixed.comp_image_set_ver_str_len)
    }

    open spec fn spec_decode(bytes: Seq<u8>) -> Option<Self> {
        match RequestUpdateRequestFixed::spec_decode(bytes) {
            None => None,
            Some(f) => {
                let n = layout_size(RequestUpdateRequestFixed::spec_layout()) as int;
                let len = f.comp_image_set_ver_str_len as int;
                if bytes.len() < n + len {
                    None
                } else {
                    Some(RequestUpdateRequest { fixed: f, comp_image_set_ver_str: str_array(bytes.subrange(n, n + len)) })
                }
            },
        }
    }

    open spec fn spec_well_formed(&self) -> bool {
        zero_tail(self.comp_image_set_ver_str, self.fixed.comp_image_set_ver_str_len)
    }

    open spec fn spec_required_len(&self) -> nat {
        self.spec_encoding().len()
    }

    open spec fn spec_encode_admits(&self, buffer_len: nat) -> bool {
        true
    }

    open spec fn spec_decode_admits(bytes: Seq<u8>) -> bool {
        true
    }

    fn encode(&self, buffer: &mut [u8]) -> (r: Result<usize, PldmCodecError>) {
        let fixed_fields = self.fixed.to_fields();
        let mut data = fields_to_vec(&fixed_fields);
        let s = prefix_vec(&self.comp_image_set_ver_str, self.fixed.comp_image_set_ver_str_len as usize);
        append_bytes(&mut data, s.as_slice());
        assert(data@ =~= self.spec_encoding());
        put_encoding(&data, data.len(), buffer)
    }

    fn decode(buffer: &[u8]) -> (r: Result<Self, PldmCodecError>) {
        let fixed = match RequestUpdateRequestFixed::decode(buffer) {
            Ok(f) => f,
            Err(e) => return Err(e),
        };
        let n = fixed_size::<RequestUpdateRequestFixed>();
        let len = fixed.comp_image_set_ver_str_len as usize;
        if buffer.len() - n < len {
            return Err(PldmCodecError::BufferTooShort);
        }
        let s = str_array_of(slice_subrange(buffer, n, n + len));
        Ok(RequestUpdateRequest { fixed, comp_image_set_ver_str: s })
    }

    proof fn lemma_roundtrip(&self, rest: Seq<u8>) {
        let f = self.fixed;
        let len = f.comp_image_set_ver_str_len;
        let st = str_prefix(self.comp_image_set_ver_str, len);
        let tail = st + rest;
        f.lemma_roundtrip(tail);
        lemma_fixed_len(&f);
        let b = self.spec_encoding() + rest;
        assert(b =~= f.spec_encoding() + tail);
        let n = layout_size(RequestUpdateRequestFixed::spec_layout()) as int;
        assert(b.subrange(n, n + len) =~= st);
        lemma_str_array(self.comp_image_set_ver_str, len);
    }
}

impl RequestUpdateRequest {
    /// The request for an update; the version string array is copied whole.
    pub fn new(instance_id: InstanceId, msg_type: PldmMsgType, max_transfer_size: u32, num_of_comp: u16, max_outstanding_transfer_req: u8, pkg_data_len: u16, comp_image_set_version_string: &PldmFirmwareString) -> (r: Self)
        ensures
            r.fixed.hdr.0@ == msg_header(instance_id, msg_type, PldmSupportedType::FwUpdate.to_u8(), FwUpdateCmd::RequestUpdate.to_u8()),
            r.fixed.max_transfer_size == max_transfer_size,
            r.fixed.num_of_comp == num_of_comp,
            r.fixed.max_outstanding_transfer_req == max_outstanding_transfer_req,
            r.fixed.pkg_data_len == pkg_data_len,
            r.fixed.comp_image_set_ver_str_type == comp_image_set_version_string.str_type,
            r.fixed.comp_image_set_ver_str_len == comp_image_set_version_string.str_len,
            r.comp_image_set_ver_str == comp_image_set_version_string.str_data,
    {
        RequestUpdateRequest {
            fixed: RequestUpdateRequestFixed {
                hdr: PldmMsgHeader::new(instance_id, msg_type, PldmSupportedType::FwUpdate, FwUpdateCmd::RequestUpdate.to_u8()),
                max_transfer_size: max_transfer_size,
                num_of_comp: num_of_comp,
                max_outstanding_transfer_req: max_outstanding_transfer_req,
                pkg_data_len: pkg_data_len,
                comp_image_set_ver_str_type: comp_image_set_version_string.str_type,
                comp_image_set_ver_str_len: comp_image_set_version_string.str_len,
            },
            comp_image_set_ver_str: comp_image_set_version_string.str_data,
        }
    }
}

impl RequestUpdateRequest {
    /// The version string of the component image set. The string array is
    /// copied from a slice of `comp_image_set_ver_str_len` bytes, so the
    /// length must be the full 255 bytes.
    pub fn get_comp_image_set_ver_str(&self) -> (r: PldmFirmwareString)
        requires
            self.fixed.comp_image_set_ver_str_len == PLDM_FWUP_IMAGE_SET_VER_STR_MAX_LEN,
        ensures
            r.str_type == self.fixed.comp_image_set_ver_str_type,
            r.str_len == self.fixed.comp_image_set_ver_str_len,
            r.str_data == self.comp_image_set_ver_str,
    {
        PldmFirmwareString {
            str_type: self.fixed.comp_image_set_ver_str_type,
            str_len: self.fixed.comp_image_set_ver_str_len,
            str_data: self.comp_image_set_ver_str,
        }
    }
}

/// The fixed part of a RequestUpdate response.
#[derive(Debug, Clone, Copy, PartialEq, Eq)]
pub struct RequestUpdateResponseFixed {
    pub hdr: PldmMsgHeader,
    pub completion_code: u8,
    pub fd_meta_data_len: u16,
    pub fd_will_send_pkg_data_cmd: u8,
}

impl FixedFields for RequestUpdateResponseFixed {
    open spec fn spec_fields(&self) -> Seq<Field> {
        seq![
            Field::U8(self.hdr.0[0]),
            Field::U8(self.hdr.0[1]),
            Field::U8(self.hdr.0[2]),
            Field::U8(self.completion_code),
            Field::U16(self.fd_meta_data_len),
            Field::U8(self.fd_will_send_pkg_data_cmd),
        ]
    }

    open spec fn spec_layout() -> Seq<u8> {
        seq![1u8, 1, 1, 1, 2, 1]
    }

    open spec fn spec_from_fields(fs: Seq<Field>) -> Self {
        RequestUpdateResponseFixed {
            hdr: PldmMsgHeader([fv8(fs[0]), fv8(fs[1]), fv8(fs[2])]),
            completion_code: fv8(fs[3]),
            fd_meta_data_len: fv16(fs[4]),
            fd_will_send_pkg_data_cmd: fv8(fs[5]),
        }
    }

    fn layout() -> (r: Vec<u8>) {
        let r = vec![1u8, 1, 1, 1, 2, 1];
        assert(r@ =~= Self::spec_layout());
        r
    }

    fn to_fields(&self) -> (r: Vec<Field>) {
        let r = vec![
            Field::U8(self.hdr.0[0]),
            Field::U8(self.hdr.0[1]),
            Field::U8(self.hdr.0[2]),
            Field::U8(self.completion_code),
            Field::U16(self.fd_meta_data_len),
            Field::U8(self.fd_will_send_pkg_data_cmd),
        ];
        assert(r@ =~= self.spec_fields());
        r
    }

    fn from_fields(fs: &Vec<Field>) -> (r: Self) {
        RequestUpdateResponseFixed {
            hdr: PldmMsgHeader([get_u8(&fs[0]), get_u8(&fs[1]), get_u8(&fs[2])]),
            completion_code: get_u8(&fs[3]),
            fd_meta_data_len: get_u16(&fs[4]),
            fd_will_send_pkg_data_cmd: get_u8(&fs[5]),
        }
    }

    proof fn lemma_fields(&self) {
        assert(widths(self.spec_fields()) =~= Self::spec_layout());
        lemma_fits_widths(self.spec_fields());
        lemma_layout_of_fields(self.spec_fields(), Self::spec_layout());
        assert(Self::spec_from_fields(self.spec_fields()).hdr.0 =~= self.hdr.0);
    }

    proof fn lemma_from_fields(fs: Seq<Field>) {
        lemma_field_by_width(fs[0]);
        lemma_field_by_width(fs[1]);
        lemma_field_by_width(fs[2]);
        lemma_field_by_width(fs[3]);
        lemma_field_by_width(fs[4]);
        lemma_field_by_width(fs[5]);
        assert(Self::spec_from_fields(fs).spec_fields() =~= fs);
    }
}

proof fn lemma_response_fixed_size()
    ensures
        layout_size(RequestUpdateResponseFixed::spec_layout()) == 7,
{
    reveal_with_fuel(layout_size, 7);
    let ws = RequestUpdateResponseFixed::spec_layout();
    assert(ws.drop_last() =~= seq![1u8, 1, 1, 1, 2]);
    assert(ws.drop_last().drop_last() =~= seq![1u8, 1, 1, 1]);
    assert(ws.drop_last().drop_last().drop_last() =~= seq![1u8, 1, 1]);
    assert(ws.drop_last().drop_last().drop_last().drop_last() =~= seq![1u8, 1]);
    assert(ws.drop_last().drop_last().drop_last().drop_last().drop_last() =~= seq![1u8]);
    assert(seq![1u8].drop_last() =~= Seq::<u8>::empty());
}

/// The value of `fd_will_send_pkg_data_cmd` that announces the package data
/// transfer size at the end of the response.
pub const FD_WILL_SEND_PKG_DATA_WITH_SIZE: u8 = 2;

/// RequestUpdate response: the device metadata length, whether the device
/// will ask for package data, and then the largest transfer of it.
#[derive(Debug, Clone, Copy, PartialEq, Eq)]
pub struct RequestUpdateResponse {
    pub fixed: RequestUpdateResponseFixed,
    pub get_pkg_data_max_transfer_size: Option<u32>,
}

impl RequestUpdateResponse {
    pub fn new(
        instance_id: InstanceId,
        completion_code: u8,
        fd_meta_data_len: u16,
        fd_will_send_pkg_data_cmd: u8,
        get_pkg_data_max_transfer_size: Option<u32>,
    ) -> (r: Self)
        ensures
            r.fixed.hdr.0@ == response_header(instance_id, PldmSupportedType::FwUpdate.to_u8(), FwUpdateCmd::RequestUpdate.to_u8()),
            r.fixed.completion_code == completion_code,
            r.fixed.fd_meta_data_len == fd_meta_data_len,
            r.fixed.fd_will_send_pkg_data_cmd == fd_will_send_pkg_data_cmd,
            r.get_pkg_data_max_transfer_size == get_pkg_data_max_transfer_size,
    {
        proof {
            lemma_response_bits();
        }
        RequestUpdateResponse {
            fixed: RequestUpdateResponseFixed {
                hdr: PldmMsgHeader::new(instance_id, PldmMsgType::Response, PldmSupportedType::FwUpdate, FwUpdateCmd::RequestUpdate.to_u8()),
                completion_code,
                fd_meta_data_len,
                fd_will_send_pkg_data_cmd,
            },
            get_pkg_data_max_transfer_size,
        }
    }

    /// The size that the flag announces: seven bytes, and four more when
    /// `fd_will_send_pkg_data_cmd` is 2.
    pub fn codec_size_in_bytes(&self) -> (r: usize)
        ensures
            r == 7 + (if self.fixed.fd_will_send_pkg_data_cmd == FD_WILL_SEND_PKG_DATA_WITH_SIZE { 4int } else { 0int }),
    {
        proof {
            lemma_response_fixed_size();
        }
        let mut bytes = fixed_size::<RequestUpdateResponseFixed>();
        if self.fixed.fd_will_send_pkg_data_cmd == FD_WILL_SEND_PKG_DATA_WITH_SIZE {
            bytes = bytes + 4;
        }
        bytes
    }
}

impl PldmCodec for RequestUpdateResponse {
    open spec fn spec_encoding(&self) -> Seq<u8> {
        self.fixed.spec_encoding() + opt_le4(self.get_pkg_data_max_transfer_size)
    }

    open spec fn spec_decode(bytes: Seq<u8>) -> Option<Self> {
        match RequestUpdateResponseFixed::spec_decode(bytes) {
            None => None,
            Some(f) => if f.fd_will_send_pkg_data_cmd == FD_WILL_SEND_PKG_DATA_WITH_SIZE {
                if bytes.len() < 11 {
                    None
                } else {
                    Some(RequestUpdateResponse { fixed: f, get_pkg_data_max_transfer_size: Some(from_le4(bytes.subrange(7, 11))) })
                }
            } else {
                Some(RequestUpdateResponse { fixed: f, get_pkg_data_max_transfer_size: None })
            },
        }
    }

    open spec fn spec_well_formed(&self) -> bool {
        (self.get_pkg_data_max_transfer_size is Some) == (self.fixed.fd_will_send_pkg_data_cmd
            == FD_WILL_SEND_PKG_DATA_WITH_SIZE)
    }

    open spec fn spec_required_len(&self) -> nat {
        (7 + (if self.fixed.fd_will_send_pkg_data_cmd == FD_WILL_SEND_PKG_DATA_WITH_SIZE { 4int } else { 0int })) as nat
    }

    /// The size is checked against the flag and the value written by the
    /// option: a value present without the flag needs room that the check
    /// does not ask for.
    open spec fn spec_encode_admits(&self, buffer_len: nat) -> bool {
        self.get_pkg_data_max_transfer_size is Some && self.fixed.fd_will_send_pkg_data_cmd
            != FD_WILL_SEND_PKG_DATA_WITH_SIZE ==> (buffer_len < 7 || buffer_len >= 11)
    }

    open spec fn spec_decode_admits(bytes: Seq<u8>) -> bool {
        true
    }

    fn encode(&self, buffer: &mut [u8]) -> (r: Result<usize, PldmCodecError>) {
        let fixed_fields = self.fixed.to_fields();
        let mut data = fields_to_vec(&fixed_fields);
        proof {
            lemma_fixed_len(&self.fixed);
            lemma_response_fixed_size();
        }
        match self.get_pkg_data_max_transfer_size {
            Some(size) => push_u32(&mut data, size),
            None => {},
        }
        assert(data@ =~= self.spec_encoding());
        let required = self.codec_size_in_bytes();
        put_encoding(&data, required, buffer)
    }

    fn decode(buffer: &[u8]) -> (r: Result<Self, PldmCodecError>) {
        let fixed = match RequestUpdateResponseFixed::decode(buffer) {
            Ok(f) => f,
            Err(e) => return Err(e),
        };
        let get_pkg_data_max_transfer_size = if fixed.fd_will_send_pkg_data_cmd == FD_WILL_SEND_PKG_DATA_WITH_SIZE {
            if buffer.len() < 11 {
                return Err(PldmCodecError::BufferTooShort);
            }
            Some(read_u32(buffer, 7))
        } else {
            None
        };
        Ok(RequestUpdateResponse { fixed, get_pkg_data_max_transfer_size })
    }

    proof fn lemma_roundtrip(&self, rest: Seq<u8>) {
        let f = self.fixed;
        let tail = opt_le4(self.get_pkg_data_max_transfer_size) + rest;
        f.lemma_roundtrip(tail);
        lemma_fixed_len(&f);
        lemma_response_fixed_size();
        let b = self.spec_encoding() + rest;
        assert(b =~= f.spec_encoding() + tail);
        match self.get_pkg_data_max_transfer_size {
            Some(v) => {
                lemma_le4(v);
                assert(b.subrange(7, 11) =~= le4(v));
            },
            None => {},
        }
    }
}

} // verus!
