use crate::pldm::codec::{
    lemma_field_by_width, lemma_fits_widths, lemma_layout_of_fields, widths, FixedFields,
};
use crate::pldm::error::PldmError;
use crate::pldm::protocol::base::{
    lemma_response_bits, msg_header, response_header, InstanceId, PldmMsgHeader, PldmMsgType,
    PldmSupportedType,
};
use crate::pldm::protocol::firmware_update::FwUpdateCmd;
use crate::wire::{fv8, get_u8, Field};
use vstd::prelude::*;
use crate::pldm::codec::{
    append_encodings, decode_values, lemma_fixed_len, lemma_seq_decode_admits, lemma_seq_encoding_push, lemma_seq_roundtrip,
    seq_decode, seq_encoding, EncodedSize, PldmCodec, PldmCodecError,
};
use crate::pldm::protocol::base::PLDM_MSG_HEADER_LEN;
use crate::pldm::protocol::firmware_update::{
    default_entry, lemma_str_array, str_array, str_array_of, str_prefix, zero_tail, ComponentParameterEntry,
    ComponentParameterEntryFixed, FirmwareDeviceCapability, PldmFirmwareString, MAX_COMPONENT_COUNT,
    PLDM_FWUP_IMAGE_SET_VER_STR_MAX_LEN,
};
use crate::wire::{
    append_bytes, array_from, array_of, from_le2, from_le4, le2, le4, lemma_array_from, lemma_array_of,
    lemma_layout_size_bound, lemma_le2, lemma_le4, pad_copy, prefix_vec, push_u16, push_u32, put_encoding,
    read_u16, read_u32, zeros,
};
use vstd::slice::slice_subrange;

verus! {


/// GetFirmwareParameters request.
#[derive(Debug, Clone, Copy, PartialEq, Eq)]
pub struct GetFirmwareParametersRequest {
    pub hdr: PldmMsgHeader,
}

impl FixedFields for GetFirmwareParametersRequest {
    open spec fn spec_fields(&self) -> Seq<Field> {
        seq![
            Field::U8(self.hdr.0[0]),
            Field::U8(self.hdr.0[1]),
            Field::U8(self.hdr.0[2]),
        ]
    }

    open spec fn spec_layout() -> Seq<u8> {
        seq![1u8, 1, 1]
    }

    open spec fn spec_from_fields(fs: Seq<Field>) -> Self {
        GetFirmwareParametersRequest { hdr: PldmMsgHeader([fv8(fs[0]), fv8(fs[1]), fv8(fs[2])]) }
    }

    fn layout() -> (r: Vec<u8>) {
        let r = vec![1u8, 1, 1];
        assert(r@ =~= Self::spec_layout());
        r
    }

    fn to_fields(&self) -> (r: Vec<Field>) {
        let r = vec![
            Field::U8(self.hdr.0[0]),
            Field::U8(self.hdr.0[1]),
            Field::U8(self.hdr.0[2]),
        ];
        assert(r@ =~= self.spec_fields());
        r
    }

    fn from_fields(fs: &Vec<Field>) -> (r: Self) {
        GetFirmwareParametersRequest { hdr: PldmMsgHeader([get_u8(&fs[0]), get_u8(&fs[1]), get_u8(&fs[2])]) }
    }

    proof fn lemma_fields(&self) {
        assert(widths(self.spec_fields()) =~= Self::spec_layout());
        lemma_fits_widths(self.spec_fields());
        lemma_layout_of_fields(self.spec_fields(), Self::spec_layout());
        assert(Self::spec_from_fields(self.spec_fields()).hdr.0 =~= self.hdr.0);
    }

    proof fn lemma_from_fields(fs: Seq<Field>) {
        lemma_field_by_width(fs[0]);
        lemma_field_by_width(fs[1]);
        lemma_field_by_width(fs[2]);
        assert(Self::spec_from_fields(fs).spec_fields() =~= fs);
    }
}

impl GetFirmwareParametersRequest {
    pub fn new(instance_id: InstanceId, msg_type: PldmMsgType) -> (r: Self)
        ensures
            r.hdr.0@ == msg_header(instance_id, msg_type, PldmSupportedType::FwUpdate.to_u8(), FwUpdateCmd::GetFirmwareParameters.to_u8()),
    {
        GetFirmwareParametersRequest {
            hdr: PldmMsgHeader::new(instance_id, msg_type, PldmSupportedType::FwUpdate, FwUpdateCmd::GetFirmwareParameters.to_u8()),
        }
    }
}

/// The fixed part of the firmware parameters: the capabilities, the number of
/// components, the string types and lengths of the active and pending
/// component image set versions, and the active version string (all 255
/// bytes of its array are on the wire).
#[derive(Debug, Clone, Copy, PartialEq, Eq)]
pub struct FirmwareParamFixed {
    pub capabilities_during_update: FirmwareDeviceCapability,
    pub comp_count: u16,
    pub active_comp_image_set_ver_str_type: u8,
    pub active_comp_image_set_ver_str_len: u8,
    pub pending_comp_image_set_ver_str_type: u8,
    pub pending_comp_image_set_ver_str_len: u8,
    pub active_comp_image_set_ver_str: [u8; PLDM_FWUP_IMAGE_SET_VER_STR_MAX_LEN],
}

/// The encoded size of the fixed part of the firmware parameters.
pub const FIRMWARE_PARAM_FIXED_LEN: usize = 265;

impl Default for FirmwareParamFixed {
    fn default() -> (r: Self)
        ensures
            r.capabilities_during_update.0 == 0,
            r.comp_count == 0,
            r.active_comp_image_set_ver_str_type == 0,
            r.active_comp_image_set_ver_str_len == 0,
            r.pending_comp_image_set_ver_str_type == 0,
            r.pending_comp_image_set_ver_str_len == 0,
            r.active_comp_image_set_ver_str@ == zeros(PLDM_FWUP_IMAGE_SET_VER_STR_MAX_LEN as nat),
    {
        let r = FirmwareParamFixed {
            capabilities_during_update: FirmwareDeviceCapability(0),
            comp_count: 0,
            active_comp_image_set_ver_str_type: 0,
            active_comp_image_set_ver_str_len: 0,
            pending_comp_image_set_ver_str_type: 0,
            pending_comp_image_set_ver_str_len: 0,
            active_comp_image_set_ver_str: [0; PLDM_FWUP_IMAGE_SET_VER_STR_MAX_LEN],
        };
        proof {
            vstd::array::axiom_spec_array_fill_for_copy_type::<u8, PLDM_FWUP_IMAGE_SET_VER_STR_MAX_LEN>(0u8);
        }
        assert(r.active_comp_image_set_ver_str@ =~= zeros(PLDM_FWUP_IMAGE_SET_VER_STR_MAX_LEN as nat));
        r
    }
}

impl PldmCodec for FirmwareParamFixed {
    open spec fn spec_encoding(&self) -> Seq<u8> {
        le4(self.capabilities_during_update.0) + le2(self.comp_count) + seq![
            self.active_comp_image_set_ver_str_type,
            self.active_comp_image_set_ver_str_len,
            self.pending_comp_image_set_ver_str_type,
            self.pending_comp_image_set_ver_str_len,
        ] + self.active_comp_image_set_ver_str@
    }

    open spec fn spec_decode(bytes: Seq<u8>) -> Option<Self> {
        if bytes.len() < FIRMWARE_PARAM_FIXED_LEN {
            None
        } else {
            Some(
                FirmwareParamFixed {
                    capabilities_during_update: FirmwareDeviceCapability(from_le4(bytes.subrange(0, 4))),
                    comp_count: from_le2(bytes.subrange(4, 6)),
                    active_comp_image_set_ver_str_type: bytes[6],
                    active_comp_image_set_ver_str_len: bytes[7],
                    pending_comp_image_set_ver_str_type: bytes[8],
                    pending_comp_image_set_ver_str_len: bytes[9],
                    active_comp_image_set_ver_str: array_of::<PLDM_FWUP_IMAGE_SET_VER_STR_MAX_LEN>(
                        bytes.subrange(10, FIRMWARE_PARAM_FIXED_LEN as int),
                    ),
                },
            )
        }
    }

    open spec fn spec_well_formed(&self) -> bool {
        true
    }

    open spec fn spec_required_len(&self) -> nat {
        FIRMWARE_PARAM_FIXED_LEN as nat
    }

    open spec fn spec_encode_admits(&self, buffer_len: nat) -> bool {
        true
    }

    open spec fn spec_decode_admits(bytes: Seq<u8>) -> bool {
        true
    }

    fn encode(&self, buffer: &mut [u8]) -> (r: Result<usize, PldmCodecError>) {
        let data = self.encoding_bytes();
        put_encoding(&data, FIRMWARE_PARAM_FIXED_LEN, buffer)
    }

    fn decode(buffer: &[u8]) -> (r: Result<Self, PldmCodecError>) {
        if buffer.len() < FIRMWARE_PARAM_FIXED_LEN {
            return Err(PldmCodecError::BufferTooShort);
        }
        let s = slice_subrange(buffer, 10, FIRMWARE_PARAM_FIXED_LEN);
        let active = pad_copy::<PLDM_FWUP_IMAGE_SET_VER_STR_MAX_LEN>(s);
        assert(active@ =~= buffer@.subrange(10, FIRMWARE_PARAM_FIXED_LEN as int));
        proof {
            lemma_array_of::<PLDM_FWUP_IMAGE_SET_VER_STR_MAX_LEN>(active);
        }
        Ok(FirmwareParamFixed {
            capabilities_during_update: FirmwareDeviceCapability(read_u32(buffer, 0)),
            comp_count: read_u16(buffer, 4),
            active_comp_image_set_ver_str_type: buffer[6],
            active_comp_image_set_ver_str_len: buffer[7],
            pending_comp_image_set_ver_str_type: buffer[8],
            pending_comp_image_set_ver_str_len: buffer[9],
            active_comp_image_set_ver_str: active,
        })
    }

    proof fn lemma_roundtrip(&self, rest: Seq<u8>) {
        let b = self.spec_encoding() + rest;
        lemma_le4(self.capabilities_during_update.0);
        lemma_le2(self.comp_count);
        assert(b.subrange(0, 4) =~= le4(self.capabilities_during_update.0));
        assert(b.subrange(4, 6) =~= le2(self.comp_count));
        assert(b.subrange(10, FIRMWARE_PARAM_FIXED_LEN as int) =~= self.active_comp_image_set_ver_str@);
        lemma_array_of::<PLDM_FWUP_IMAGE_SET_VER_STR_MAX_LEN>(self.active_comp_image_set_ver_str);
    }
}

impl EncodedSize for FirmwareParamFixed {
    open spec fn spec_encodable(&self) -> bool {
        true
    }

    fn encoded_size(&self) -> (r: usize) {
        FIRMWARE_PARAM_FIXED_LEN
    }

    fn encoding_bytes(&self) -> (r: Vec<u8>) {
        let mut data: Vec<u8> = Vec::new();
        push_u32(&mut data, self.capabilities_during_update.0);
        push_u16(&mut data, self.comp_count);
        data.push(self.active_comp_image_set_ver_str_type);
        data.push(self.active_comp_image_set_ver_str_len);
        data.push(self.pending_comp_image_set_ver_str_type);
        data.push(self.pending_comp_image_set_ver_str_len);
        append_bytes(&mut data, &self.active_comp_image_set_ver_str);
        assert(data@ =~= self.spec_encoding());
        data
    }

    proof fn lemma_decoded_fits(bytes: Seq<u8>) {
    }

    proof fn lemma_well_formed_encodable(&self) {
    }
}

/// `n` default component parameter entries.
pub open spec fn default_entries(n: nat) -> Seq<ComponentParameterEntry> {
    Seq::new(n, |i: int| default_entry())
}

/// How many entries of the table a component count puts on the wire.
pub open spec fn table_count(count: u16) -> nat {
    if count < MAX_COMPONENT_COUNT {
        count as nat
    } else {
        MAX_COMPONENT_COUNT as nat
    }
}

/// The table holding the given entries (at most eight) and default entries
/// after them.
pub open spec fn entry_table(es: Seq<ComponentParameterEntry>) -> [ComponentParameterEntry; MAX_COMPONENT_COUNT] {
    array_from::<ComponentParameterEntry, MAX_COMPONENT_COUNT>(
        es + default_entries((MAX_COMPONENT_COUNT - es.len()) as nat),
    )
}

/// The pending version string on the wire.
pub open spec fn pending_set_bytes(p: Option<[u8; PLDM_FWUP_IMAGE_SET_VER_STR_MAX_LEN]>, len: u8) -> Seq<u8> {
    match p {
        Some(a) => str_prefix(a, len),
        None => Seq::empty(),
    }
}

/// The firmware parameters: the fixed part, the pending component image set
/// version string (present when its length is not zero), and the table of
/// component parameters, of which the first `comp_count` entries are used.
#[derive(Debug, Clone, Copy, PartialEq, Eq)]
pub struct FirmwareParameters {
    pub params_fixed: FirmwareParamFixed,
    pub pending_comp_image_set_ver_str: Option<[u8; PLDM_FWUP_IMAGE_SET_VER_STR_MAX_LEN]>,
    pub comp_param_table: [ComponentParameterEntry; MAX_COMPONENT_COUNT],
}

/// Builds the table from the first entries of `entries` (at most eight).
fn table_from(entries: &[ComponentParameterEntry]) -> (r: [ComponentParameterEntry; MAX_COMPONENT_COUNT])
    ensures
        r == entry_table(entries@.take(table_count_usize(entries@.len()) as int)),
        r@ == entries@.take(table_count_usize(entries@.len()) as int) + default_entries(
            (MAX_COMPONENT_COUNT - table_count_usize(entries@.len())) as nat,
        ),
{
    let n: usize = if entries.len() < MAX_COMPONENT_COUNT {
        entries.len()
    } else {
        MAX_COMPONENT_COUNT
    };
    let d = ComponentParameterEntry::default();
    let mut arr = [d, d, d, d, d, d, d, d];
    assert(arr@ =~= entries@.take(0) + default_entries(MAX_COMPONENT_COUNT as nat));
    let mut k: usize = 0;
    while k < n
        invariant
            k <= n,
            n <= MAX_COMPONENT_COUNT,
            n <= entries@.len(),
            arr@ == entries@.take(k as int) + default_entries((MAX_COMPONENT_COUNT - k) as nat),
        decreases n - k,
    {
        arr[k] = entries[k];
        assert(arr@ =~= entries@.take(k + 1) + default_entries((MAX_COMPONENT_COUNT - k - 1) as nat));
        k = k + 1;
    }
    proof {
        lemma_array_from::<ComponentParameterEntry, MAX_COMPONENT_COUNT>(arr);
    }
    arr
}

/// The smaller of a length and eight.
pub open spec fn table_count_usize(n: nat) -> nat {
    if n < MAX_COMPONENT_COUNT {
        n
    } else {
        MAX_COMPONENT_COUNT as nat
    }
}

/// The parameters `FirmwareParameters::new` builds from its arguments.
pub open spec fn spec_new_parameters(
    capabilities_during_update: FirmwareDeviceCapability,
    comp_count: u16,
    active: PldmFirmwareString,
    pending: PldmFirmwareString,
    table: Seq<ComponentParameterEntry>,
) -> FirmwareParameters {
    FirmwareParameters {
        params_fixed: FirmwareParamFixed {
            capabilities_during_update,
            comp_count,
            active_comp_image_set_ver_str_type: active.str_type,
            active_comp_image_set_ver_str_len: active.str_len,
            pending_comp_image_set_ver_str_type: pending.str_type,
            pending_comp_image_set_ver_str_len: pending.str_len,
            active_comp_image_set_ver_str: active.str_data,
        },
        pending_comp_image_set_ver_str: if pending.str_len > 0 {
            Some(pending.str_data)
        } else {
            None
        },
        comp_param_table: entry_table(table.take(table_count_usize(table.len()) as int)),
    }
}

impl FirmwareParameters {
    /// The entries of the table on the wire.
    pub open spec fn wire_entries(&self) -> Seq<ComponentParameterEntry> {
        self.comp_param_table@.take(table_count(self.params_fixed.comp_count) as int)
    }

    /// The parameters with the given capabilities and component count, the
    /// two component image set versions (the pending string is left out when
    /// empty), and the first eight entries of `comp_param_table`.
    pub fn new(
        capabilities_during_update: FirmwareDeviceCapability,
        comp_count: u16,
        active_comp_image_set_version: &PldmFirmwareString,
        pending_comp_image_set_version: &PldmFirmwareString,
        comp_param_table: &[ComponentParameterEntry],
    ) -> (r: Self)
        ensures
            r.params_fixed == (FirmwareParamFixed {
                capabilities_during_update,
                comp_count,
                active_comp_image_set_ver_str_type: active_comp_image_set_version.str_type,
                active_comp_image_set_ver_str_len: active_comp_image_set_version.str_len,
                pending_comp_image_set_ver_str_type: pending_comp_image_set_version.str_type,
                pending_comp_image_set_ver_str_len: pending_comp_image_set_version.str_len,
                active_comp_image_set_ver_str: active_comp_image_set_version.str_data,
            }),
            r.pending_comp_image_set_ver_str == (if pending_comp_image_set_version.str_len > 0 {
                Some(pending_comp_image_set_version.str_data)
            } else {
                None
            }),
            r == spec_new_parameters(
                capabilities_during_update,
                comp_count,
                *active_comp_image_set_version,
                *pending_comp_image_set_version,
                comp_param_table@,
            ),
            r.comp_param_table == entry_table(comp_param_table@.take(table_count_usize(comp_param_table@.len()) as int)),
            r.comp_param_table@ == comp_param_table@.take(table_count_usize(comp_param_table@.len()) as int)
                + default_entries((MAX_COMPONENT_COUNT - table_count_usize(comp_param_table@.len())) as nat),
            (comp_count as nat == table_count_usize(comp_param_table@.len()) && (forall|i: int|
                0 <= i < comp_count ==> #[trigger] comp_param_table@[i].spec_well_formed()) && zero_tail(
                pending_comp_image_set_version.str_data,
                pending_comp_image_set_version.str_len,
            )) ==> r.spec_well_formed(),
    {
        let table = table_from(comp_param_table);
        let r = FirmwareParameters {
            params_fixed: FirmwareParamFixed {
                capabilities_during_update,
                comp_count,
                active_comp_image_set_ver_str_type: active_comp_image_set_version.str_type,
                active_comp_image_set_ver_str_len: active_comp_image_set_version.str_len,
                pending_comp_image_set_ver_str_type: pending_comp_image_set_version.str_type,
                pending_comp_image_set_ver_str_len: pending_comp_image_set_version.str_len,
                active_comp_image_set_ver_str: active_comp_image_set_version.str_data,
            },
            pending_comp_image_set_ver_str: if pending_comp_image_set_version.str_len > 0 {
                Some(pending_comp_image_set_version.str_data)
            } else {
                None
            },
            comp_param_table: table,
        };
        proof {
            let t = table_count_usize(comp_param_table@.len());
            if comp_count as nat == t {
                assert forall|i: int| 0 <= i < comp_count implies #[trigger] r.comp_param_table@[i]
                    == comp_param_table@[i] by {}
                assert forall|i: int| comp_count <= i < MAX_COMPONENT_COUNT implies #[trigger] r.comp_param_table@[i]
                    == default_entry() by {}
            }
        }
        r
    }

    /// The size of the encoding: the fixed part, the pending version string
    /// when present, and the first `comp_count` entries of the table.
    pub fn codec_size_in_bytes(&self) -> (r: usize)
        requires
            self.params_fixed.comp_count <= MAX_COMPONENT_COUNT,
        ensures
            r == self.spec_encoding().len(),
            r <= 9000,
    {
        let mut bytes = FIRMWARE_PARAM_FIXED_LEN;
        if self.pending_comp_image_set_ver_str.is_some() {
            bytes = bytes + self.params_fixed.pending_comp_image_set_ver_str_len as usize;
        }
        let ghost head = bytes;
        let count = self.params_fixed.comp_count as usize;
        let mut i: usize = 0;
        assert(self.comp_param_table@.take(0) =~= Seq::<ComponentParameterEntry>::empty());
        while i < count
            invariant
                i <= count,
                count <= MAX_COMPONENT_COUNT,
                head <= FIRMWARE_PARAM_FIXED_LEN + 255,
                bytes == head + seq_encoding(self.comp_param_table@.take(i as int)).len(),
                bytes <= head + 1000 * i,
            decreases count - i,
        {
            let e = self.comp_param_table[i];
            proof {
                assert(self.comp_param_table@.take(i + 1) =~= self.comp_param_table@.take(i as int).push(e));
                lemma_seq_encoding_push(self.comp_param_table@.take(i as int), e);
                lemma_entry_size_bound(e);
            }
            bytes = bytes + e.codec_size_in_bytes();
            i = i + 1;
        }
        bytes
    }
}

/// An entry of the table encodes to at most 1000 bytes.
proof fn lemma_entry_size_bound(e: ComponentParameterEntry)
    ensures
        e.spec_encoding().len() <= 1000,
{
    lemma_fixed_len(&e.comp_param_entry_fixed);
    lemma_layout_size_bound(ComponentParameterEntryFixed::spec_layout());
    e.comp_param_entry_fixed.lemma_fields();
}

impl Default for FirmwareParameters {
    fn default() -> (r: Self)
        ensures
            r.params_fixed.comp_count == 0,
            r.params_fixed.active_comp_image_set_ver_str_len == 0,
            r.params_fixed.pending_comp_image_set_ver_str_len == 0,
            r.pending_comp_image_set_ver_str is None,
            r.comp_param_table == entry_table(Seq::empty()),
    {
        let empty: [ComponentParameterEntry; 0] = [];
        assert(empty@.take(0) =~= Seq::<ComponentParameterEntry>::empty());
        FirmwareParameters {
            params_fixed: FirmwareParamFixed::default(),
            pending_comp_image_set_ver_str: None,
            comp_param_table: table_from(&empty),
        }
    }
}

impl PldmCodec for FirmwareParameters {
    open spec fn spec_encoding(&self) -> Seq<u8> {
        self.params_fixed.spec_encoding() + pending_set_bytes(
            self.pending_comp_image_set_ver_str,
            self.params_fixed.pending_comp_image_set_ver_str_len,
        ) + seq_encoding(self.wire_entries())
    }

    open spec fn spec_decode(bytes: Seq<u8>) -> Option<Self> {
        match FirmwareParamFixed::spec_decode(bytes) {
            None => None,
            Some(f) => {
                let n = FIRMWARE_PARAM_FIXED_LEN as int;
                let plen = f.pending_comp_image_set_ver_str_len as int;
                if plen > 0 && bytes.len() < n + plen {
                    None
                } else {
                    match seq_decode::<ComponentParameterEntry>(bytes.skip(n + plen), table_count(f.comp_count)) {
                        None => None,
                        Some(es) => Some(
                            FirmwareParameters {
                                params_fixed: f,
                                pending_comp_image_set_ver_str: if plen > 0 {
                                    Some(str_array(bytes.subrange(n, n + plen)))
                                } else {
                                    None
                                },
                                comp_param_table: entry_table(es),
                            },
                        ),
                    }
                }
            },
        }
    }

    open spec fn spec_well_formed(&self) -> bool {
        let count = self.params_fixed.comp_count;
        &&& count <= MAX_COMPONENT_COUNT
        &&& (self.pending_comp_image_set_ver_str is Some) == (self.params_fixed.pending_comp_image_set_ver_str_len > 0)
        &&& match self.pending_comp_image_set_ver_str {
            Some(p) => zero_tail(p, self.params_fixed.pending_comp_image_set_ver_str_len),
            None => true,
        }
        &&& forall|i: int| 0 <= i < count ==> #[trigger] self.comp_param_table@[i].spec_well_formed()
        &&& forall|i: int| count <= i < MAX_COMPONENT_COUNT ==> #[trigger] self.comp_param_table@[i] == default_entry()
    }

    open spec fn spec_required_len(&self) -> nat {
        self.spec_encoding().len()
    }

    open spec fn spec_encode_admits(&self, buffer_len: nat) -> bool {
        self.params_fixed.comp_count <= MAX_COMPONENT_COUNT
    }

    /// Every entry of the table that the count announces must decode.
    open spec fn spec_decode_admits(bytes: Seq<u8>) -> bool {
        match FirmwareParamFixed::spec_decode(bytes) {
            None => true,
            Some(f) => {
                let n = FIRMWARE_PARAM_FIXED_LEN as int;
                let plen = f.pending_comp_image_set_ver_str_len as int;
                (plen > 0 && bytes.len() < n + plen) || seq_decode::<ComponentParameterEntry>(
                    bytes.skip(n + plen),
                    table_count(f.comp_count),
                ) is Some
            },
        }
    }

    fn encode(&self, buffer: &mut [u8]) -> (r: Result<usize, PldmCodecError>) {
        let data = self.encoding_bytes();
        put_encoding(&data, data.len(), buffer)
    }

    fn decode(buffer: &[u8]) -> (r: Result<Self, PldmCodecError>) {
        let params_fixed = match FirmwareParamFixed::decode(buffer) {
            Ok(f) => f,
            Err(e) => return Err(e),
        };
        let plen = params_fixed.pending_comp_image_set_ver_str_len as usize;
        let pending = if plen > 0 {
            if buffer.len() - FIRMWARE_PARAM_FIXED_LEN < plen {
                return Err(PldmCodecError::BufferTooShort);
            }
            Some(str_array_of(slice_subrange(buffer, FIRMWARE_PARAM_FIXED_LEN, FIRMWARE_PARAM_FIXED_LEN + plen)))
        } else {
            None
        };
        let count: usize = if (params_fixed.comp_count as usize) < MAX_COMPONENT_COUNT {
            params_fixed.comp_count as usize
        } else {
            MAX_COMPONENT_COUNT
        };
        proof {
            lemma_seq_decode_admits::<ComponentParameterEntry>(buffer@.skip(FIRMWARE_PARAM_FIXED_LEN + plen), count as nat);
        }
        let entries = match decode_values::<ComponentParameterEntry>(buffer, FIRMWARE_PARAM_FIXED_LEN + plen, count) {
            Ok(v) => v,
            Err(e) => return Err(e),
        };
        assert(entries@.take(count as int) =~= entries@);
        Ok(FirmwareParameters {
            params_fixed,
            pending_comp_image_set_ver_str: pending,
            comp_param_table: table_from(entries.as_slice()),
        })
    }

    proof fn lemma_roundtrip(&self, rest: Seq<u8>) {
        let f = self.params_fixed;
        let plen = f.pending_comp_image_set_ver_str_len;
        let pend = pending_set_bytes(self.pending_comp_image_set_ver_str, plen);
        let wire = self.wire_entries();
        let after = seq_encoding(wire) + rest;
        let b = self.spec_encoding() + rest;
        assert(b =~= f.spec_encoding() + (pend + after));
        f.lemma_roundtrip(pend + after);
        let n = FIRMWARE_PARAM_FIXED_LEN as int;
        match self.pending_comp_image_set_ver_str {
            Some(p) => {
                assert(b.subrange(n, n + plen) =~= pend);
                lemma_str_array(p, plen);
            },
            None => {},
        }
        assert(b.skip(n + plen) =~= after);
        assert forall|i: int| 0 <= i < wire.len() implies #[trigger] wire[i].spec_well_formed() by {
            assert(wire[i] == self.comp_param_table@[i]);
        }
        lemma_seq_roundtrip(wire, rest);
        assert(wire + default_entries((MAX_COMPONENT_COUNT - wire.len()) as nat) =~= self.comp_param_table@);
        lemma_array_from::<ComponentParameterEntry, MAX_COMPONENT_COUNT>(self.comp_param_table);
    }
}

impl FirmwareParameters {
    /// The encoding of the parameters as a byte vector.
    pub fn encoding_bytes(&self) -> (r: Vec<u8>)
        requires
            self.params_fixed.comp_count <= MAX_COMPONENT_COUNT,
        ensures
            r@ == self.spec_encoding(),
    {
        let mut data = self.params_fixed.encoding_bytes();
        match &self.pending_comp_image_set_ver_str {
            Some(p) => {
                let s = prefix_vec(p, self.params_fixed.pending_comp_image_set_ver_str_len as usize);
                append_bytes(&mut data, s.as_slice());
            },
            None => {},
        }
        let count = self.params_fixed.comp_count as usize;
        let s = slice_subrange(self.comp_param_table.as_slice(), 0, count);
        assert(s@ =~= self.wire_entries());
        append_encodings(&mut data, s);
        assert(data@ =~= self.spec_encoding());
        data
    }
}


/// GetFirmwareParameters response: the firmware parameters of the device.
#[derive(Debug, Clone, Copy, PartialEq, Eq)]
pub struct GetFirmwareParametersResponse {
    pub hdr: PldmMsgHeader,
    pub completion_code: u8,
    pub parms: FirmwareParameters,
}

impl GetFirmwareParametersResponse {
    pub fn new(instance_id: InstanceId, completion_code: u8, parms: &FirmwareParameters) -> (r: Self)
        ensures
            r.hdr.0@ == response_header(instance_id, PldmSupportedType::FwUpdate.to_u8(), FwUpdateCmd::GetFirmwareParameters.to_u8()),
            r.completion_code == completion_code,
            r.parms == *parms,
    {
        proof {
            lemma_response_bits();
        }
        GetFirmwareParametersResponse {
            hdr: PldmMsgHeader::new(
                instance_id,
                PldmMsgType::Response,
                PldmSupportedType::FwUpdate,
                FwUpdateCmd::GetFirmwareParameters.to_u8(),
            ),
            completion_code,
            parms: *parms,
        }
    }

    /// The size of the encoding: the header, the completion code and the
    /// parameters.
    pub fn codec_size_in_bytes(&self) -> (r: usize)
        requires
            self.parms.params_fixed.comp_count <= MAX_COMPONENT_COUNT,
        ensures
            r == self.spec_encoding().len(),
    {
        PLDM_MSG_HEADER_LEN + 1 + self.parms.codec_size_in_bytes()
    }
}

impl Default for GetFirmwareParametersResponse {
    fn default() -> (r: Self)
        ensures
            r.hdr.0@ == seq![0u8, 0, 0],
            r.completion_code == 0,
            r.parms.params_fixed.comp_count == 0,
            r.parms.pending_comp_image_set_ver_str is None,
    {
        let r = GetFirmwareParametersResponse {
            hdr: PldmMsgHeader([0, 0, 0]),
            completion_code: 0,
            parms: FirmwareParameters::default(),
        };
        assert(r.hdr.0@ =~= seq![0u8, 0, 0]);
        r
    }
}

impl PldmCodec for GetFirmwareParametersResponse {
    open spec fn spec_encoding(&self) -> Seq<u8> {
        self.hdr.0@ + seq![self.completion_code] + self.parms.spec_encoding()
    }

    open spec fn spec_decode(bytes: Seq<u8>) -> Option<Self> {
        if bytes.len() < 4 {
            None
        } else {
            match FirmwareParameters::spec_decode(bytes.skip(4)) {
                None => None,
                Some(p) => Some(
                    GetFirmwareParametersResponse {
                        hdr: PldmMsgHeader([bytes[0], bytes[1], bytes[2]]),
                        completion_code: bytes[3],
                        parms: p,
                    },
                ),
            }
        }
    }

    open spec fn spec_well_formed(&self) -> bool {
        self.parms.spec_well_formed()
    }

    open spec fn spec_required_len(&self) -> nat {
        self.spec_encoding().len()
    }

    open spec fn spec_encode_admits(&self, buffer_len: nat) -> bool {
        self.parms.params_fixed.comp_count <= MAX_COMPONENT_COUNT
    }

    open spec fn spec_decode_admits(bytes: Seq<u8>) -> bool {
        bytes.len() < 4 || FirmwareParameters::spec_decode_admits(bytes.skip(4))
    }

    fn encode(&self, buffer: &mut [u8]) -> (r: Result<usize, PldmCodecError>) {
        let mut data: Vec<u8> = Vec::new();
        data.push(self.hdr.0[0]);
        data.push(self.hdr.0[1]);
        data.push(self.hdr.0[2]);
        data.push(self.completion_code);
        let p = self.parms.encoding_bytes();
        append_bytes(&mut data, p.as_slice());
        assert(data@ =~= self.spec_encoding());
        put_encoding(&data, data.len(), buffer)
    }

    fn decode(buffer: &[u8]) -> (r: Result<Self, PldmCodecError>) {
        if buffer.len() < 4 {
            return Err(PldmCodecError::BufferTooShort);
        }
        let rem = slice_subrange(buffer, 4, buffer.len());
        assert(rem@ =~= buffer@.skip(4));
        let parms = match FirmwareParameters::decode(rem) {
            Ok(p) => p,
            Err(e) => return Err(e),
        };
        Ok(GetFirmwareParametersResponse {
            hdr: PldmMsgHeader([buffer[0], buffer[1], buffer[2]]),
            completion_code: buffer[3],
            parms,
        })
    }

    proof fn lemma_roundtrip(&self, rest: Seq<u8>) {
        let b = self.spec_encoding() + rest;
        assert(b.skip(4) =~= self.parms.spec_encoding() + rest);
        self.parms.lemma_roundtrip(rest);
        let d = Self::spec_decode(b).unwrap();
        assert(d.hdr.0 =~= self.hdr.0);
    }
}

/// Parameters built by `new` from a component count, as many well-formed
/// entries as it counts (at most eight), and a pending version string that
/// is zero past its length, are read back as they were written: decoding
/// their encoding, followed by any bytes, gives them back, and `encode`
/// writes exactly the encoding's length.
pub proof fn lemma_new_parameters_roundtrip(
    capabilities_during_update: FirmwareDeviceCapability,
    comp_count: u16,
    active: PldmFirmwareString,
    pending: PldmFirmwareString,
    table: Seq<ComponentParameterEntry>,
    rest: Seq<u8>,
)
    requires
        comp_count as nat == table_count_usize(table.len()),
        forall|i: int| 0 <= i < comp_count ==> #[trigger] table[i].spec_well_formed(),
        zero_tail(pending.str_data, pending.str_len),
    ensures
        ({
            let p = spec_new_parameters(capabilities_during_update, comp_count, active, pending, table);
            &&& p.spec_well_formed()
            &&& p.spec_required_len() == p.spec_encoding().len()
            &&& FirmwareParameters::spec_decode(p.spec_encoding() + rest) == Some(p)
        }),
{
    let p = spec_new_parameters(capabilities_during_update, comp_count, active, pending, table);
    let t = table_count_usize(table.len());
    let s = table.take(t as int) + default_entries((MAX_COMPONENT_COUNT - t) as nat);
    assert(s.len() == MAX_COMPONENT_COUNT);
    let arr: [ComponentParameterEntry; MAX_COMPONENT_COUNT] = [s[0], s[1], s[2], s[3], s[4], s[5], s[6], s[7]];
    assert(arr@ =~= s);
    lemma_array_from::<ComponentParameterEntry, MAX_COMPONENT_COUNT>(arr);
    assert(p.comp_param_table == arr);
    assert forall|i: int| 0 <= i < comp_count implies #[trigger] p.comp_param_table@[i].spec_well_formed() by {
        assert(p.comp_param_table@[i] == table[i]);
    }
    assert forall|i: int| comp_count <= i < MAX_COMPONENT_COUNT implies #[trigger] p.comp_param_table@[i]
        == default_entry() by {}
    assert(p.spec_well_formed());
    p.lemma_roundtrip(rest);
}

} // verus!
