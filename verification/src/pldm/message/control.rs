use crate::pldm::protocol::base::{
    header_bytes, lemma_response_bits, response_header, InstanceId, PldmControlCmd, PldmMsgHeader, PldmMsgType, PldmSupportedType,
    TransferOperationFlag, TransferRespFlag,
};
use crate::pldm::codec::{
    lemma_field_by_width, lemma_fits_widths, lemma_layout_of_fields, widths, FixedFields,
};
use crate::pldm::error::PldmError;
use crate::pldm::protocol::version::{bcd, lemma_parse_version_small, parse_version, PldmVersion, ProtocolVersionStr, Ver32};
use crate::wire::{fv32, fv8, get_u32, get_u8, Field};
use vstd::prelude::*;
use vstd::string::StringSliceAdditionalSpecFns;

verus! {

pub const PLDM_CMDS_BITMAP_LEN: usize = 32;

pub const PLDM_TYPES_BITMAP_LEN: usize = 8;

/// The wire form of the version written by a version text.
pub open spec fn ver32_of(s: Seq<u8>) -> Ver32 {
    let v = parse_version(s).unwrap();
    (bcd(v.major) as u32 * 0x100_0000 + bcd(v.minor) as u32 * 0x1_0000 + bcd(v.update) as u32 * 0x100
        + v.alpha as u32) as u32
}

/// Bit `j` of a bitmap: bit `j % 8` of byte `j / 8`.
pub open spec fn bitmap_bit(bm: Seq<u8>, j: int) -> bool {
    (bm[j / 8] >> ((j % 8) as u8)) & 1u8 == 1u8
}

/// The number of items that a bitmap of `n` bytes takes in.
pub open spec fn bitmap_items(items: Seq<u8>, n: nat) -> Seq<u8> {
    if items.len() <= 8 * n {
        items
    } else {
        items.subrange(0, 8 * n as int)
    }
}

proof fn lemma_or_bit(x: u8, s: u8, t: u8)
    requires
        s < 8,
        t < 8,
    ensures
        ((x | (1u8 << s)) >> t) & 1u8 == 1u8 <==> (((x >> t) & 1u8 == 1u8) || t == s),
{
    assert(((x | (1u8 << s)) >> t) & 1u8 == 1u8 <==> (((x >> t) & 1u8 == 1u8) || t == s))
        by (bit_vector)
        requires
            s < 8,
            t < 8,
    ;
}

/// The bitmap of `N` bytes with bit `j` set for each `j` among the first
/// `8 * N` items.
pub fn construct_bitmap<const N: usize>(items: &[u8]) -> (r: [u8; N])
    requires
        N <= 32,
        forall|k: int| 0 <= k < bitmap_items(items@, N as nat).len() ==> #[trigger] items@[k] < 8 * N,
    ensures
        forall|j: int|
            0 <= j < 8 * N ==> (bitmap_bit(r@, j) <==> bitmap_items(items@, N as nat).contains(
                j as u8,
            )),
{
    let mut bitmap = [0u8; N];
    let limit = if items.len() < N * 8 {
        items.len()
    } else {
        N * 8
    };
    let ghost taken = bitmap_items(items@, N as nat);
    assert(taken.len() == limit);
    assert forall|j: int| 0 <= j < 8 * N implies !bitmap_bit(bitmap@, j) by {
        let t = (j % 8) as u8;
        assert(bitmap@[j / 8] == 0u8);
        assert((0u8 >> t) & 1u8 == 0u8) by (bit_vector);
    }
    let mut i: usize = 0;
    while i < limit
        invariant
            N <= 32,
            i <= limit,
            limit == taken.len(),
            taken == bitmap_items(items@, N as nat),
            forall|k: int| 0 <= k < taken.len() ==> #[trigger] items@[k] < 8 * N,
            forall|k: int| 0 <= k < taken.len() ==> #[trigger] taken[k] == items@[k],
            bitmap@.len() == N,
            forall|j: int|
                0 <= j < 8 * N ==> (bitmap_bit(bitmap@, j) <==> taken.subrange(0, i as int).contains(
                    j as u8,
                )),
        decreases limit - i,
    {
        let item = items[i];
        assert(item < 8 * N);
        let byte_index = (item / 8) as usize;
        let bit_index = item % 8;
        let ghost before = bitmap@;
        bitmap[byte_index] = bitmap[byte_index] | (1u8 << bit_index);
        let ghost pre = taken.subrange(0, i as int);
        let ghost post = taken.subrange(0, i + 1);
        assert(post =~= pre.push(item));
        assert forall|j: int| 0 <= j < 8 * N implies (bitmap_bit(bitmap@, j) <==> post.contains(
            j as u8,
        )) by {
            let t = (j % 8) as u8;
            assert(bitmap_bit(before, j) <==> pre.contains(j as u8));
            if j / 8 == byte_index as int {
                assert(bitmap@[j / 8] == before[j / 8] | (1u8 << bit_index));
                lemma_or_bit(before[j / 8], bit_index, t);
                assert((j == item as int) <==> (t == bit_index));
                assert(bitmap_bit(bitmap@, j) <==> (bitmap_bit(before, j) || j == item as int));
            } else {
                assert(bitmap@[j / 8] == before[j / 8]);
                assert(j != item as int);
                assert(bitmap_bit(bitmap@, j) <==> bitmap_bit(before, j));
            }
            assert((j as u8 == item) <==> (j == item as int));
            if post.contains(j as u8) {
                let k = choose|k: int| 0 <= k < post.len() && post[k] == j as u8;
                if k < i {
                    assert(pre[k] == j as u8);
                    assert(pre.contains(j as u8));
                } else {
                    assert(item == j as u8);
                }
            }
            if pre.contains(j as u8) {
                let k = choose|k: int| 0 <= k < pre.len() && pre[k] == j as u8;
                assert(post[k] == j as u8);
            }
            if j == item as int {
                assert(post[i as int] == j as u8);
            }
        }
        i = i + 1;
    }
    assert(taken.subrange(0, limit as int) =~= taken);
    bitmap
}

/// GetTID request.
#[derive(Debug, Clone, Copy, PartialEq, Eq)]
pub struct GetTidRequest {
    pub hdr: PldmMsgHeader,
}

impl FixedFields for GetTidRequest {
    open spec fn spec_fields(&self) -> Seq<Field> {
        seq![
            Field::U8(self.hdr.0[0]),
            Field::U8(self.hdr.0[1]),
            Field::U8(self.hdr.0[2]),
        ]
    }

    open spec fn spec_layout() -> Seq<u8> {
        seq![1u8, 1, 1]
    }

    open spec fn spec_from_fields(fs: Seq<Field>) -> Self {
        GetTidRequest { hdr: PldmMsgHeader([fv8(fs[0]), fv8(fs[1]), fv8(fs[2])]) }
    }

    fn layout() -> (r: Vec<u8>) {
        let r = vec![1u8, 1, 1];
        assert(r@ =~= Self::spec_layout());
        r
    }

    fn to_fields(&self) -> (r: Vec<Field>) {
        let r = vec![
            Field::U8(self.hdr.0[0]),
            Field::U8(self.hdr.0[1]),
            Field::U8(self.hdr.0[2]),
        ];
        assert(r@ =~= self.spec_fields());
        r
    }

    fn from_fields(fs: &Vec<Field>) -> (r: Self) {
        GetTidRequest { hdr: PldmMsgHeader([get_u8(&fs[0]), get_u8(&fs[1]), get_u8(&fs[2])]) }
    }

    proof fn lemma_fields(&self) {
        assert(widths(self.spec_fields()) =~= Self::spec_layout());
        lemma_fits_widths(self.spec_fields());
        lemma_layout_of_fields(self.spec_fields(), Self::spec_layout());
        assert(Self::spec_from_fields(self.spec_fields()).hdr.0 =~= self.hdr.0);
    }

    proof fn lemma_from_fields(fs: Seq<Field>) {
        lemma_field_by_width(fs[0]);
        lemma_field_by_width(fs[1]);
        lemma_field_by_width(fs[2]);
        assert(Self::spec_from_fields(fs).spec_fields() =~= fs);
    }
}

/// GetTID response: the terminus id.
#[derive(Debug, Clone, Copy, PartialEq, Eq)]
pub struct GetTidResponse {
    pub hdr: PldmMsgHeader,
    pub completion_code: u8,
    pub tid: u8,
}

impl FixedFields for GetTidResponse {
    open spec fn spec_fields(&self) -> Seq<Field> {
        seq![
            Field::U8(self.hdr.0[0]),
            Field::U8(self.hdr.0[1]),
            Field::U8(self.hdr.0[2]),
            Field::U8(self.completion_code),
            Field::U8(self.tid),
        ]
    }

    open spec fn spec_layout() -> Seq<u8> {
        seq![1u8, 1, 1, 1, 1]
    }

    open spec fn spec_from_fields(fs: Seq<Field>) -> Self {
        GetTidResponse { hdr: PldmMsgHeader([fv8(fs[0]), fv8(fs[1]), fv8(fs[2])]), completion_code: fv8(fs[3]), tid: fv8(fs[4]) }
    }

    fn layout() -> (r: Vec<u8>) {
        let r = vec![1u8, 1, 1, 1, 1];
        assert(r@ =~= Self::spec_layout());
        r
    }

    fn to_fields(&self) -> (r: Vec<Field>) {
        let r = vec![
            Field::U8(self.hdr.0[0]),
            Field::U8(self.hdr.0[1]),
            Field::U8(self.hdr.0[2]),
            Field::U8(self.completion_code),
            Field::U8(self.tid),
        ];
        assert(r@ =~= self.spec_fields());
        r
    }

    fn from_fields(fs: &Vec<Field>) -> (r: Self) {
        GetTidResponse { hdr: PldmMsgHeader([get_u8(&fs[0]), get_u8(&fs[1]), get_u8(&fs[2])]), completion_code: get_u8(&fs[3]), tid: get_u8(&fs[4]) }
    }

    proof fn lemma_fields(&self) {
        assert(widths(self.spec_fields()) =~= Self::spec_layout());
        lemma_fits_widths(self.spec_fields());
        lemma_layout_of_fields(self.spec_fields(), Self::spec_layout());
        assert(Self::spec_from_fields(self.spec_fields()).hdr.0 =~= self.hdr.0);
    }

    proof fn lemma_from_fields(fs: Seq<Field>) {
        lemma_field_by_width(fs[0]);
        lemma_field_by_width(fs[1]);
        lemma_field_by_width(fs[2]);
        lemma_field_by_width(fs[3]);
        lemma_field_by_width(fs[4]);
        assert(Self::spec_from_fields(fs).spec_fields() =~= fs);
    }
}

/// SetTID request.
#[derive(Debug, Clone, Copy, PartialEq, Eq)]
pub struct SetTidRequest {
    pub hdr: PldmMsgHeader,
    pub tid: u8,
}

impl FixedFields for SetTidRequest {
    open spec fn spec_fields(&self) -> Seq<Field> {
        seq![
            Field::U8(self.hdr.0[0]),
            Field::U8(self.hdr.0[1]),
            Field::U8(self.hdr.0[2]),
            Field::U8(self.tid),
        ]
    }

    open spec fn spec_layout() -> Seq<u8> {
        seq![1u8, 1, 1, 1]
    }

    open spec fn spec_from_fields(fs: Seq<Field>) -> Self {
        SetTidRequest { hdr: PldmMsgHeader([fv8(fs[0]), fv8(fs[1]), fv8(fs[2])]), tid: fv8(fs[3]) }
    }

    fn layout() -> (r: Vec<u8>) {
        let r = vec![1u8, 1, 1, 1];
        assert(r@ =~= Self::spec_layout());
        r
    }

    fn to_fields(&self) -> (r: Vec<Field>) {
        let r = vec![
            Field::U8(self.hdr.0[0]),
            Field::U8(self.hdr.0[1]),
            Field::U8(self.hdr.0[2]),
            Field::U8(self.tid),
        ];
        assert(r@ =~= self.spec_fields());
        r
    }

    fn from_fields(fs: &Vec<Field>) -> (r: Self) {
        SetTidRequest { hdr: PldmMsgHeader([get_u8(&fs[0]), get_u8(&fs[1]), get_u8(&fs[2])]), tid: get_u8(&fs[3]) }
    }

    proof fn lemma_fields(&self) {
        assert(widths(self.spec_fields()) =~= Self::spec_layout());
        lemma_fits_widths(self.spec_fields());
        lemma_layout_of_fields(self.spec_fields(), Self::spec_layout());
        assert(Self::spec_from_fields(self.spec_fields()).hdr.0 =~= self.hdr.0);
    }

    proof fn lemma_from_fields(fs: Seq<Field>) {
        lemma_field_by_width(fs[0]);
        lemma_field_by_width(fs[1]);
        lemma_field_by_width(fs[2]);
        lemma_field_by_width(fs[3]);
        assert(Self::spec_from_fields(fs).spec_fields() =~= fs);
    }
}

/// SetTID response.
#[derive(Debug, Clone, Copy, PartialEq, Eq)]
pub struct SetTidResponse {
    pub hdr: PldmMsgHeader,
    pub completion_code: u8,
}

impl FixedFields for SetTidResponse {
    open spec fn spec_fields(&self) -> Seq<Field> {
        seq![
            Field::U8(self.hdr.0[0]),
            Field::U8(self.hdr.0[1]),
            Field::U8(self.hdr.0[2]),
            Field::U8(self.completion_code),
        ]
    }

    open spec fn spec_layout() -> Seq<u8> {
        seq![1u8, 1, 1, 1]
    }

    open spec fn spec_from_fields(fs: Seq<Field>) -> Self {
        SetTidResponse { hdr: PldmMsgHeader([fv8(fs[0]), fv8(fs[1]), fv8(fs[2])]), completion_code: fv8(fs[3]) }
    }

    fn layout() -> (r: Vec<u8>) {
        let r = vec![1u8, 1, 1, 1];
        assert(r@ =~= Self::spec_layout());
        r
    }

    fn to_fields(&self) -> (r: Vec<Field>) {
        let r = vec![
            Field::U8(self.hdr.0[0]),
            Field::U8(self.hdr.0[1]),
            Field::U8(self.hdr.0[2]),
            Field::U8(self.completion_code),
        ];
        assert(r@ =~= self.spec_fields());
        r
    }

    fn from_fields(fs: &Vec<Field>) -> (r: Self) {
        SetTidResponse { hdr: PldmMsgHeader([get_u8(&fs[0]), get_u8(&fs[1]), get_u8(&fs[2])]), completion_code: get_u8(&fs[3]) }
    }

    proof fn lemma_fields(&self) {
        assert(widths(self.spec_fields()) =~= Self::spec_layout());
        lemma_fits_widths(self.spec_fields());
        lemma_layout_of_fields(self.spec_fields(), Self::spec_layout());
        assert(Self::spec_from_fields(self.spec_fields()).hdr.0 =~= self.hdr.0);
    }

    proof fn lemma_from_fields(fs: Seq<Field>) {
        lemma_field_by_width(fs[0]);
        lemma_field_by_width(fs[1]);
        lemma_field_by_width(fs[2]);
        lemma_field_by_width(fs[3]);
        assert(Self::spec_from_fields(fs).spec_fields() =~= fs);
    }
}

/// GetPLDMCommands request: the commands of one type and version.
#[derive(Debug, Clone, Copy, PartialEq, Eq)]
pub struct GetPldmCommandsRequest {
    pub hdr: PldmMsgHeader,
    pub pldm_type: u8,
    pub protocol_version: Ver32,
}

impl FixedFields for GetPldmCommandsRequest {
    open spec fn spec_fields(&self) -> Seq<Field> {
        seq![
            Field::U8(self.hdr.0[0]),
            Field::U8(self.hdr.0[1]),
            Field::U8(self.hdr.0[2]),
            Field::U8(self.pldm_type),
            Field::U32(self.protocol_version),
        ]
    }

    open spec fn spec_layout() -> Seq<u8> {
        seq![1u8, 1, 1, 1, 4]
    }

    open spec fn spec_from_fields(fs: Seq<Field>) -> Self {
        GetPldmCommandsRequest { hdr: PldmMsgHeader([fv8(fs[0]), fv8(fs[1]), fv8(fs[2])]), pldm_type: fv8(fs[3]), protocol_version: fv32(fs[4]) }
    }

    fn layout() -> (r: Vec<u8>) {
        let r = vec![1u8, 1, 1, 1, 4];
        assert(r@ =~= Self::spec_layout());
        r
    }

    fn to_fields(&self) -> (r: Vec<Field>) {
        let r = vec![
            Field::U8(self.hdr.0[0]),
            Field::U8(self.hdr.0[1]),
            Field::U8(self.hdr.0[2]),
            Field::U8(self.pldm_type),
            Field::U32(self.protocol_version),
        ];
        assert(r@ =~= self.spec_fields());
        r
    }

    fn from_fields(fs: &Vec<Field>) -> (r: Self) {
        GetPldmCommandsRequest { hdr: PldmMsgHeader([get_u8(&fs[0]), get_u8(&fs[1]), get_u8(&fs[2])]), pldm_type: get_u8(&fs[3]), protocol_version: get_u32(&fs[4]) }
    }

    proof fn lemma_fields(&self) {
        assert(widths(self.spec_fields()) =~= Self::spec_layout());
        lemma_fits_widths(self.spec_fields());
        lemma_layout_of_fields(self.spec_fields(), Self::spec_layout());
        assert(Self::spec_from_fields(self.spec_fields()).hdr.0 =~= self.hdr.0);
    }

    proof fn lemma_from_fields(fs: Seq<Field>) {
        lemma_field_by_width(fs[0]);
        lemma_field_by_width(fs[1]);
        lemma_field_by_width(fs[2]);
        lemma_field_by_width(fs[3]);
        lemma_field_by_width(fs[4]);
        assert(Self::spec_from_fields(fs).spec_fields() =~= fs);
    }
}

/// GetPLDMCommands response: a bitmap of the supported command codes.
#[derive(Debug, Clone, Copy, PartialEq, Eq)]
pub struct GetPldmCommandsResponse {
    pub hdr: PldmMsgHeader,
    pub completion_code: u8,
    pub supported_cmds: [u8; PLDM_CMDS_BITMAP_LEN],
}

impl FixedFields for GetPldmCommandsResponse {
    open spec fn spec_fields(&self) -> Seq<Field> {
        seq![
            Field::U8(self.hdr.0[0]),
            Field::U8(self.hdr.0[1]),
            Field::U8(self.hdr.0[2]),
            Field::U8(self.completion_code),
            Field::U8(self.supported_cmds[0]),
            Field::U8(self.supported_cmds[1]),
            Field::U8(self.supported_cmds[2]),
            Field::U8(self.supported_cmds[3]),
            Field::U8(self.supported_cmds[4]),
            Field::U8(self.supported_cmds[5]),
            Field::U8(self.supported_cmds[6]),
            Field::U8(self.supported_cmds[7]),
            Field::U8(self.supported_cmds[8]),
            Field::U8(self.supported_cmds[9]),
            Field::U8(self.supported_cmds[10]),
            Field::U8(self.supported_cmds[11]),
            Field::U8(self.supported_cmds[12]),
            Field::U8(self.supported_cmds[13]),
            Field::U8(self.supported_cmds[14]),
            Field::U8(self.supported_cmds[15]),
            Field::U8(self.supported_cmds[16]),
            Field::U8(self.supported_cmds[17]),
            Field::U8(self.supported_cmds[18]),
            Field::U8(self.supported_cmds[19]),
            Field::U8(self.supported_cmds[20]),
            Field::U8(self.supported_cmds[21]),
            Field::U8(self.supported_cmds[22]),
            Field::U8(self.supported_cmds[23]),
            Field::U8(self.supported_cmds[24]),
            Field::U8(self.supported_cmds[25]),
            Field::U8(self.supported_cmds[26]),
            Field::U8(self.supported_cmds[27]),
            Field::U8(self.supported_cmds[28]),
            Field::U8(self.supported_cmds[29]),
            Field::U8(self.supported_cmds[30]),
            Field::U8(self.supported_cmds[31]),
        ]
    }

    open spec fn spec_layout() -> Seq<u8> {
        seq![1u8, 1, 1, 1, 1, 1, 1, 1, 1, 1, 1, 1, 1, 1, 1, 1, 1, 1, 1, 1, 1, 1, 1, 1, 1, 1, 1, 1, 1, 1, 1, 1, 1, 1, 1, 1]
    }

    open spec fn spec_from_fields(fs: Seq<Field>) -> Self {
        GetPldmCommandsResponse { hdr: PldmMsgHeader([fv8(fs[0]), fv8(fs[1]), fv8(fs[2])]), completion_code: fv8(fs[3]), supported_cmds: [fv8(fs[4]), fv8(fs[5]), fv8(fs[6]), fv8(fs[7]), fv8(fs[8]), fv8(fs[9]), fv8(fs[10]), fv8(fs[11]), fv8(fs[12]), fv8(fs[13]), fv8(fs[14]), fv8(fs[15]), fv8(fs[16]), fv8(fs[17]), fv8(fs[18]), fv8(fs[19]), fv8(fs[20]), fv8(fs[21]), fv8(fs[22]), fv8(fs[23]), fv8(fs[24]), fv8(fs[25]), fv8(fs[26]), fv8(fs[27]), fv8(fs[28]), fv8(fs[29]), fv8(fs[30]), fv8(fs[31]), fv8(fs[32]), fv8(fs[33]), fv8(fs[34]), fv8(fs[35])] }
    }

    fn layout() -> (r: Vec<u8>) {
        let r = vec![1u8, 1, 1, 1, 1, 1, 1, 1, 1, 1, 1, 1, 1, 1, 1, 1, 1, 1, 1, 1, 1, 1, 1, 1, 1, 1, 1, 1, 1, 1, 1, 1, 1, 1, 1, 1];
        assert(r@ =~= Self::spec_layout());
        r
    }

    fn to_fields(&self) -> (r: Vec<Field>) {
        let r = vec![
            Field::U8(self.hdr.0[0]),
            Field::U8(self.hdr.0[1]),
            Field::U8(self.hdr.0[2]),
            Field::U8(self.completion_code),
            Field::U8(self.supported_cmds[0]),
            Field::U8(self.supported_cmds[1]),
            Field::U8(self.supported_cmds[2]),
            Field::U8(self.supported_cmds[3]),
            Field::U8(self.supported_cmds[4]),
            Field::U8(self.supported_cmds[5]),
            Field::U8(self.supported_cmds[6]),
            Field::U8(self.supported_cmds[7]),
            Field::U8(self.supported_cmds[8]),
            Field::U8(self.supported_cmds[9]),
            Field::U8(self.supported_cmds[10]),
            Field::U8(self.supported_cmds[11]),
            Field::U8(self.supported_cmds[12]),
            Field::U8(self.supported_cmds[13]),
            Field::U8(self.supported_cmds[14]),
            Field::U8(self.supported_cmds[15]),
            Field::U8(self.supported_cmds[16]),
            Field::U8(self.supported_cmds[17]),
            Field::U8(self.supported_cmds[18]),
            Field::U8(self.supported_cmds[19]),
            Field::U8(self.supported_cmds[20]),
            Field::U8(self.supported_cmds[21]),
            Field::U8(self.supported_cmds[22]),
            Field::U8(self.supported_cmds[23]),
            Field::U8(self.supported_cmds[24]),
            Field::U8(self.supported_cmds[25]),
            Field::U8(self.supported_cmds[26]),
            Field::U8(self.supported_cmds[27]),
            Field::U8(self.supported_cmds[28]),
            Field::U8(self.supported_cmds[29]),
            Field::U8(self.supported_cmds[30]),
            Field::U8(self.supported_cmds[31]),
        ];
        assert(r@ =~= self.spec_fields());
        r
    }

    fn from_fields(fs: &Vec<Field>) -> (r: Self) {
        GetPldmCommandsResponse { hdr: PldmMsgHeader([get_u8(&fs[0]), get_u8(&fs[1]), get_u8(&fs[2])]), completion_code: get_u8(&fs[3]), supported_cmds: [get_u8(&fs[4]), get_u8(&fs[5]), get_u8(&fs[6]), get_u8(&fs[7]), get_u8(&fs[8]), get_u8(&fs[9]), get_u8(&fs[10]), get_u8(&fs[11]), get_u8(&fs[12]), get_u8(&fs[13]), get_u8(&fs[14]), get_u8(&fs[15]), get_u8(&fs[16]), get_u8(&fs[17]), get_u8(&fs[18]), get_u8(&fs[19]), get_u8(&fs[20]), get_u8(&fs[21]), get_u8(&fs[22]), get_u8(&fs[23]), get_u8(&fs[24]), get_u8(&fs[25]), get_u8(&fs[26]), get_u8(&fs[27]), get_u8(&fs[28]), get_u8(&fs[29]), get_u8(&fs[30]), get_u8(&fs[31]), get_u8(&fs[32]), get_u8(&fs[33]), get_u8(&fs[34]), get_u8(&fs[35])] }
    }

    proof fn lemma_fields(&self) {
        assert(widths(self.spec_fields()) =~= Self::spec_layout());
        lemma_fits_widths(self.spec_fields());
        lemma_layout_of_fields(self.spec_fields(), Self::spec_layout());
        assert(Self::spec_from_fields(self.spec_fields()).hdr.0 =~= self.hdr.0);
        assert(Self::spec_from_fields(self.spec_fields()).supported_cmds =~= self.supported_cmds);
    }

    proof fn lemma_from_fields(fs: Seq<Field>) {
        lemma_field_by_width(fs[0]);
        lemma_field_by_width(fs[1]);
        lemma_field_by_width(fs[2]);
        lemma_field_by_width(fs[3]);
        lemma_field_by_width(fs[4]);
        lemma_field_by_width(fs[5]);
        lemma_field_by_width(fs[6]);
        lemma_field_by_width(fs[7]);
        lemma_field_by_width(fs[8]);
        lemma_field_by_width(fs[9]);
        lemma_field_by_width(fs[10]);
        lemma_field_by_width(fs[11]);
        lemma_field_by_width(fs[12]);
        lemma_field_by_width(fs[13]);
        lemma_field_by_width(fs[14]);
        lemma_field_by_width(fs[15]);
        lemma_field_by_width(fs[16]);
        lemma_field_by_width(fs[17]);
        lemma_field_by_width(fs[18]);
        lemma_field_by_width(fs[19]);
        lemma_field_by_width(fs[20]);
        lemma_field_by_width(fs[21]);
        lemma_field_by_width(fs[22]);
        lemma_field_by_width(fs[23]);
        lemma_field_by_width(fs[24]);
        lemma_field_by_width(fs[25]);
        lemma_field_by_width(fs[26]);
        lemma_field_by_width(fs[27]);
        lemma_field_by_width(fs[28]);
        lemma_field_by_width(fs[29]);
        lemma_field_by_width(fs[30]);
        lemma_field_by_width(fs[31]);
        lemma_field_by_width(fs[32]);
        lemma_field_by_width(fs[33]);
        lemma_field_by_width(fs[34]);
        lemma_field_by_width(fs[35]);
        assert(Self::spec_from_fields(fs).spec_fields() =~= fs);
    }
}

/// GetPLDMTypes request.
#[derive(Debug, Clone, Copy, PartialEq, Eq)]
pub struct GetPldmTypeRequest {
    pub hdr: PldmMsgHeader,
}

impl FixedFields for GetPldmTypeRequest {
    open spec fn spec_fields(&self) -> Seq<Field> {
        seq![
            Field::U8(self.hdr.0[0]),
            Field::U8(self.hdr.0[1]),
            Field::U8(self.hdr.0[2]),
        ]
    }

    open spec fn spec_layout() -> Seq<u8> {
        seq![1u8, 1, 1]
    }

    open spec fn spec_from_fields(fs: Seq<Field>) -> Self {
        GetPldmTypeRequest { hdr: PldmMsgHeader([fv8(fs[0]), fv8(fs[1]), fv8(fs[2])]) }
    }

    fn layout() -> (r: Vec<u8>) {
        let r = vec![1u8, 1, 1];
        assert(r@ =~= Self::spec_layout());
        r
    }

    fn to_fields(&self) -> (r: Vec<Field>) {
        let r = vec![
            Field::U8(self.hdr.0[0]),
            Field::U8(self.hdr.0[1]),
            Field::U8(self.hdr.0[2]),
        ];
        assert(r@ =~= self.spec_fields());
        r
    }

    fn from_fields(fs: &Vec<Field>) -> (r: Self) {
        GetPldmTypeRequest { hdr: PldmMsgHeader([get_u8(&fs[0]), get_u8(&fs[1]), get_u8(&fs[2])]) }
    }

    proof fn lemma_fields(&self) {
        assert(widths(self.spec_fields()) =~= Self::spec_layout());
        lemma_fits_widths(self.spec_fields());
        lemma_layout_of_fields(self.spec_fields(), Self::spec_layout());
        assert(Self::spec_from_fields(self.spec_fields()).hdr.0 =~= self.hdr.0);
    }

    proof fn lemma_from_fields(fs: Seq<Field>) {
        lemma_field_by_width(fs[0]);
        lemma_field_by_width(fs[1]);
        lemma_field_by_width(fs[2]);
        assert(Self::spec_from_fields(fs).spec_fields() =~= fs);
    }
}

/// GetPLDMTypes response: a bitmap of the supported types.
#[derive(Debug, Clone, Copy, PartialEq, Eq)]
pub struct GetPldmTypeResponse {
    pub hdr: PldmMsgHeader,
    pub completion_code: u8,
    pub pldm_types: [u8; PLDM_TYPES_BITMAP_LEN],
}

impl FixedFields for GetPldmTypeResponse {
    open spec fn spec_fields(&self) -> Seq<Field> {
        seq![
            Field::U8(self.hdr.0[0]),
            Field::U8(self.hdr.0[1]),
            Field::U8(self.hdr.0[2]),
            Field::U8(self.completion_code),
            Field::U8(self.pldm_types[0]),
            Field::U8(self.pldm_types[1]),
            Field::U8(self.pldm_types[2]),
            Field::U8(self.pldm_types[3]),
            Field::U8(self.pldm_types[4]),
            Field::U8(self.pldm_types[5]),
            Field::U8(self.pldm_types[6]),
            Field::U8(self.pldm_types[7]),
        ]
    }

    open spec fn spec_layout() -> Seq<u8> {
        seq![1u8, 1, 1, 1, 1, 1, 1, 1, 1, 1, 1, 1]
    }

    open spec fn spec_from_fields(fs: Seq<Field>) -> Self {
        GetPldmTypeResponse { hdr: PldmMsgHeader([fv8(fs[0]), fv8(fs[1]), fv8(fs[2])]), completion_code: fv8(fs[3]), pldm_types: [fv8(fs[4]), fv8(fs[5]), fv8(fs[6]), fv8(fs[7]), fv8(fs[8]), fv8(fs[9]), fv8(fs[10]), fv8(fs[11])] }
    }

    fn layout() -> (r: Vec<u8>) {
        let r = vec![1u8, 1, 1, 1, 1, 1, 1, 1, 1, 1, 1, 1];
        assert(r@ =~= Self::spec_layout());
        r
    }

    fn to_fields(&self) -> (r: Vec<Field>) {
        let r = vec![
            Field::U8(self.hdr.0[0]),
            Field::U8(self.hdr.0[1]),
            Field::U8(self.hdr.0[2]),
            Field::U8(self.completion_code),
            Field::U8(self.pldm_types[0]),
            Field::U8(self.pldm_types[1]),
            Field::U8(self.pldm_types[2]),
            Field::U8(self.pldm_types[3]),
            Field::U8(self.pldm_types[4]),
            Field::U8(self.pldm_types[5]),
            Field::U8(self.pldm_types[6]),
            Field::U8(self.pldm_types[7]),
        ];
        assert(r@ =~= self.spec_fields());
        r
    }

    fn from_fields(fs: &Vec<Field>) -> (r: Self) {
        GetPldmTypeResponse { hdr: PldmMsgHeader([get_u8(&fs[0]), get_u8(&fs[1]), get_u8(&fs[2])]), completion_code: get_u8(&fs[3]), pldm_types: [get_u8(&fs[4]), get_u8(&fs[5]), get_u8(&fs[6]), get_u8(&fs[7]), get_u8(&fs[8]), get_u8(&fs[9]), get_u8(&fs[10]), get_u8(&fs[11])] }
    }

    proof fn lemma_fields(&self) {
        assert(widths(self.spec_fields()) =~= Self::spec_layout());
        lemma_fits_widths(self.spec_fields());
        lemma_layout_of_fields(self.spec_fields(), Self::spec_layout());
        assert(Self::spec_from_fields(self.spec_fields()).hdr.0 =~= self.hdr.0);
        assert(Self::spec_from_fields(self.spec_fields()).pldm_types =~= self.pldm_types);
    }

    proof fn lemma_from_fields(fs: Seq<Field>) {
        lemma_field_by_width(fs[0]);
        lemma_field_by_width(fs[1]);
        lemma_field_by_width(fs[2]);
        lemma_field_by_width(fs[3]);
        lemma_field_by_width(fs[4]);
        lemma_field_by_width(fs[5]);
        lemma_field_by_width(fs[6]);
        lemma_field_by_width(fs[7]);
        lemma_field_by_width(fs[8]);
        lemma_field_by_width(fs[9]);
        lemma_field_by_width(fs[10]);
        lemma_field_by_width(fs[11]);
        assert(Self::spec_from_fields(fs).spec_fields() =~= fs);
    }
}

/// GetPLDMVersion request.
#[derive(Debug, Clone, Copy, PartialEq, Eq)]
pub struct GetPldmVersionRequest {
    pub hdr: PldmMsgHeader,
    pub data_transfer_handle: u32,
    pub transfer_op_flag: u8,
    pub pldm_type: u8,
}

impl FixedFields for GetPldmVersionRequest {
    open spec fn spec_fields(&self) -> Seq<Field> {
        seq![
            Field::U8(self.hdr.0[0]),
            Field::U8(self.hdr.0[1]),
            Field::U8(self.hdr.0[2]),
            Field::U32(self.data_transfer_handle),
            Field::U8(self.transfer_op_flag),
            Field::U8(self.pldm_type),
        ]
    }

    open spec fn spec_layout() -> Seq<u8> {
        seq![1u8, 1, 1, 4, 1, 1]
    }

    open spec fn spec_from_fields(fs: Seq<Field>) -> Self {
        GetPldmVersionRequest { hdr: PldmMsgHeader([fv8(fs[0]), fv8(fs[1]), fv8(fs[2])]), data_transfer_handle: fv32(fs[3]), transfer_op_flag: fv8(fs[4]), pldm_type: fv8(fs[5]) }
    }

    fn layout() -> (r: Vec<u8>) {
        let r = vec![1u8, 1, 1, 4, 1, 1];
        assert(r@ =~= Self::spec_layout());
        r
    }

    fn to_fields(&self) -> (r: Vec<Field>) {
        let r = vec![
            Field::U8(self.hdr.0[0]),
            Field::U8(self.hdr.0[1]),
            Field::U8(self.hdr.0[2]),
            Field::U32(self.data_transfer_handle),
            Field::U8(self.transfer_op_flag),
            Field::U8(self.pldm_type),
        ];
        assert(r@ =~= self.spec_fields());
        r
    }

    fn from_fields(fs: &Vec<Field>) -> (r: Self) {
        GetPldmVersionRequest { hdr: PldmMsgHeader([get_u8(&fs[0]), get_u8(&fs[1]), get_u8(&fs[2])]), data_transfer_handle: get_u32(&fs[3]), transfer_op_flag: get_u8(&fs[4]), pldm_type: get_u8(&fs[5]) }
    }

    proof fn lemma_fields(&self) {
        assert(widths(self.spec_fields()) =~= Self::spec_layout());
        lemma_fits_widths(self.spec_fields());
        lemma_layout_of_fields(self.spec_fields(), Self::spec_layout());
        assert(Self::spec_from_fields(self.spec_fields()).hdr.0 =~= self.hdr.0);
    }

    proof fn lemma_from_fields(fs: Seq<Field>) {
        lemma_field_by_width(fs[0]);
        lemma_field_by_width(fs[1]);
        lemma_field_by_width(fs[2]);
        lemma_field_by_width(fs[3]);
        lemma_field_by_width(fs[4]);
        lemma_field_by_width(fs[5]);
        assert(Self::spec_from_fields(fs).spec_fields() =~= fs);
    }
}

/// GetPLDMVersion response: one version of the type (version and checksum data).
#[derive(Debug, Clone, Copy, PartialEq, Eq)]
pub struct GetPldmVersionResponse {
    pub hdr: PldmMsgHeader,
    pub completion_code: u8,
    pub next_transfer_handle: u32,
    pub transfer_rsp_flag: u8,
    pub version_data: Ver32,
}

impl FixedFields for GetPldmVersionResponse {
    open spec fn spec_fields(&self) -> Seq<Field> {
        seq![
            Field::U8(self.hdr.0[0]),
            Field::U8(self.hdr.0[1]),
            Field::U8(self.hdr.0[2]),
            Field::U8(self.completion_code),
            Field::U32(self.next_transfer_handle),
            Field::U8(self.transfer_rsp_flag),
            Field::U32(self.version_data),
        ]
    }

    open spec fn spec_layout() -> Seq<u8> {
        seq![1u8, 1, 1, 1, 4, 1, 4]
    }

    open spec fn spec_from_fields(fs: Seq<Field>) -> Self {
        GetPldmVersionResponse { hdr: PldmMsgHeader([fv8(fs[0]), fv8(fs[1]), fv8(fs[2])]), completion_code: fv8(fs[3]), next_transfer_handle: fv32(fs[4]), transfer_rsp_flag: fv8(fs[5]), version_data: fv32(fs[6]) }
    }

    fn layout() -> (r: Vec<u8>) {
        let r = vec![1u8, 1, 1, 1, 4, 1, 4];
        assert(r@ =~= Self::spec_layout());
        r
    }

    fn to_fields(&self) -> (r: Vec<Field>) {
        let r = vec![
            Field::U8(self.hdr.0[0]),
            Field::U8(self.hdr.0[1]),
            Field::U8(self.hdr.0[2]),
            Field::U8(self.completion_code),
            Field::U32(self.next_transfer_handle),
            Field::U8(self.transfer_rsp_flag),
            Field::U32(self.version_data),
        ];
        assert(r@ =~= self.spec_fields());
        r
    }

    fn from_fields(fs: &Vec<Field>) -> (r: Self) {
        GetPldmVersionResponse { hdr: PldmMsgHeader([get_u8(&fs[0]), get_u8(&fs[1]), get_u8(&fs[2])]), completion_code: get_u8(&fs[3]), next_transfer_handle: get_u32(&fs[4]), transfer_rsp_flag: get_u8(&fs[5]), version_data: get_u32(&fs[6]) }
    }

    proof fn lemma_fields(&self) {
        assert(widths(self.spec_fields()) =~= Self::spec_layout());
        lemma_fits_widths(self.spec_fields());
        lemma_layout_of_fields(self.spec_fields(), Self::spec_layout());
        assert(Self::spec_from_fields(self.spec_fields()).hdr.0 =~= self.hdr.0);
    }

    proof fn lemma_from_fields(fs: Seq<Field>) {
        lemma_field_by_width(fs[0]);
        lemma_field_by_width(fs[1]);
        lemma_field_by_width(fs[2]);
        lemma_field_by_width(fs[3]);
        lemma_field_by_width(fs[4]);
        lemma_field_by_width(fs[5]);
        lemma_field_by_width(fs[6]);
        assert(Self::spec_from_fields(fs).spec_fields() =~= fs);
    }
}

impl GetTidRequest {
    pub fn new(instance_id: InstanceId, message_type: PldmMsgType) -> (r: Self)
        ensures
            r.hdr.0@ == header_bytes(
                instance_id,
                message_type.to_u8() & 1,
                (message_type.to_u8() & 2) >> 1u8,
                PldmSupportedType::Base.to_u8(),
                0,
                PldmControlCmd::GetTid.to_u8(),
            ),
    {
        Self {
            hdr: PldmMsgHeader::new(
                instance_id,
                message_type,
                PldmSupportedType::Base,
                PldmControlCmd::GetTid.to_u8(),
            ),
        }
    }
}

impl GetTidResponse {
    pub fn new(instance_id: InstanceId, tid: u8, completion_code: u8) -> (r: Self)
        ensures
            r.hdr.0@ == response_header(
                instance_id,
                PldmSupportedType::Base.to_u8(),
                PldmControlCmd::GetTid.to_u8(),
            ),
            r.completion_code == completion_code,
            r.tid == tid,
    {
        proof {
            lemma_response_bits();
        }
        Self {
            hdr: PldmMsgHeader::new(
                instance_id,
                PldmMsgType::Response,
                PldmSupportedType::Base,
                PldmControlCmd::GetTid.to_u8(),
            ),
            completion_code,
            tid,
        }
    }
}

impl SetTidRequest {
    pub fn new(instance_id: InstanceId, message_type: PldmMsgType, tid: u8) -> (r: Self)
        ensures
            r.hdr.0@ == header_bytes(
                instance_id,
                message_type.to_u8() & 1,
                (message_type.to_u8() & 2) >> 1u8,
                PldmSupportedType::Base.to_u8(),
                0,
                PldmControlCmd::SetTid.to_u8(),
            ),
            r.tid == tid,
    {
        Self {
            hdr: PldmMsgHeader::new(
                instance_id,
                message_type,
                PldmSupportedType::Base,
                PldmControlCmd::SetTid.to_u8(),
            ),
            tid,
        }
    }
}

impl SetTidResponse {
    pub fn new(instance_id: InstanceId, completion_code: u8) -> (r: Self)
        ensures
            r.hdr.0@ == response_header(
                instance_id,
                PldmSupportedType::Base.to_u8(),
                PldmControlCmd::SetTid.to_u8(),
            ),
            r.completion_code == completion_code,
    {
        proof {
            lemma_response_bits();
        }
        SetTidResponse {
            hdr: PldmMsgHeader::new(
                instance_id,
                PldmMsgType::Response,
                PldmSupportedType::Base,
                PldmControlCmd::SetTid.to_u8(),
            ),
            completion_code,
        }
    }
}

impl GetPldmCommandsRequest {
    /// The request for the commands of `pldm_type` at the version written by
    /// `version_str`, which must be a valid version text.
    pub fn new(
        instance_id: InstanceId,
        message_type: PldmMsgType,
        pldm_type: u8,
        version_str: ProtocolVersionStr,
    ) -> (r: Self)
        requires
            parse_version(version_str.spec_bytes()) is Some,
        ensures
            r.hdr.0@ == header_bytes(
                instance_id,
                message_type.to_u8() & 1,
                (message_type.to_u8() & 2) >> 1u8,
                PldmSupportedType::Base.to_u8(),
                0,
                PldmControlCmd::GetPldmCommands.to_u8(),
            ),
            r.pldm_type == pldm_type,
            r.protocol_version == ver32_of(version_str.spec_bytes()),
    {
        proof {
            lemma_parse_version_small(version_str.spec_bytes());
        }
        let version = match PldmVersion::from_text(version_str) {
            Ok(v) => v,
            Err(_) => {
                assert(false);
                PldmVersion { major: 0, minor: 0, update: 0, alpha: 0 }
            },
        };
        Self {
            hdr: PldmMsgHeader::new(
                instance_id,
                message_type,
                PldmSupportedType::Base,
                PldmControlCmd::GetPldmCommands.to_u8(),
            ),
            pldm_type,
            protocol_version: version.bcd_encode_to_ver32(),
        }
    }
}

impl GetPldmCommandsResponse {
    /// The response whose bitmap has the bit of each listed command code set
    /// (the first 256 codes are taken in).
    pub fn new(instance_id: InstanceId, completion_code: u8, supported_cmds: &[u8]) -> (r: Self)
        ensures
            r.hdr.0@ == response_header(
                instance_id,
                PldmSupportedType::Base.to_u8(),
                PldmControlCmd::GetPldmCommands.to_u8(),
            ),
            r.completion_code == completion_code,
            forall|j: int|
                0 <= j < 8 * PLDM_CMDS_BITMAP_LEN ==> (bitmap_bit(r.supported_cmds@, j)
                    <==> bitmap_items(supported_cmds@, PLDM_CMDS_BITMAP_LEN as nat).contains(j as u8)),
    {
        proof {
            lemma_response_bits();
        }
        Self {
            hdr: PldmMsgHeader::new(
                instance_id,
                PldmMsgType::Response,
                PldmSupportedType::Base,
                PldmControlCmd::GetPldmCommands.to_u8(),
            ),
            completion_code,
            supported_cmds: construct_bitmap::<PLDM_CMDS_BITMAP_LEN>(supported_cmds),
        }
    }
}

impl GetPldmTypeRequest {
    pub fn new(instance_id: InstanceId, message_type: PldmMsgType) -> (r: Self)
        ensures
            r.hdr.0@ == header_bytes(
                instance_id,
                message_type.to_u8() & 1,
                (message_type.to_u8() & 2) >> 1u8,
                PldmSupportedType::Base.to_u8(),
                0,
                PldmControlCmd::GetPldmTypes.to_u8(),
            ),
    {
        Self {
            hdr: PldmMsgHeader::new(
                instance_id,
                message_type,
                PldmSupportedType::Base,
                PldmControlCmd::GetPldmTypes.to_u8(),
            ),
        }
    }
}

impl GetPldmTypeResponse {
    /// The response whose bitmap has the bit of each listed type set (the
    /// first 64 types are taken in, each below 64).
    pub fn new(instance_id: InstanceId, completion_code: u8, supported_types: &[u8]) -> (r: Self)
        requires
            forall|k: int|
                0 <= k < bitmap_items(supported_types@, PLDM_TYPES_BITMAP_LEN as nat).len()
                    ==> #[trigger] supported_types@[k] < 8 * PLDM_TYPES_BITMAP_LEN,
        ensures
            r.hdr.0@ == response_header(
                instance_id,
                PldmSupportedType::Base.to_u8(),
                PldmControlCmd::GetPldmTypes.to_u8(),
            ),
            r.completion_code == completion_code,
            forall|j: int|
                0 <= j < 8 * PLDM_TYPES_BITMAP_LEN ==> (bitmap_bit(r.pldm_types@, j)
                    <==> bitmap_items(supported_types@, PLDM_TYPES_BITMAP_LEN as nat).contains(j as u8)),
    {
        proof {
            lemma_response_bits();
        }
        Self {
            hdr: PldmMsgHeader::new(
                instance_id,
                PldmMsgType::Response,
                PldmSupportedType::Base,
                PldmControlCmd::GetPldmTypes.to_u8(),
            ),
            completion_code,
            pldm_types: construct_bitmap::<PLDM_TYPES_BITMAP_LEN>(supported_types),
        }
    }
}

impl GetPldmVersionRequest {
    pub fn new(
        instance_id: InstanceId,
        message_type: PldmMsgType,
        data_transfer_handle: u32,
        transfer_op_flag: TransferOperationFlag,
        pldm_type: PldmSupportedType,
    ) -> (r: Self)
        ensures
            r.hdr.0@ == header_bytes(
                instance_id,
                message_type.to_u8() & 1,
                (message_type.to_u8() & 2) >> 1u8,
                PldmSupportedType::Base.to_u8(),
                0,
                PldmControlCmd::GetPldmVersion.to_u8(),
            ),
            r.data_transfer_handle == data_transfer_handle,
            r.transfer_op_flag == transfer_op_flag.to_u8(),
            r.pldm_type == pldm_type.to_u8(),
    {
        Self {
            hdr: PldmMsgHeader::new(
                instance_id,
                message_type,
                PldmSupportedType::Base,
                PldmControlCmd::GetPldmVersion.to_u8(),
            ),
            data_transfer_handle,
            transfer_op_flag: transfer_op_flag.to_u8(),
            pldm_type: pldm_type.to_u8(),
        }
    }
}

impl GetPldmVersionResponse {
    /// The response carrying the version written by `version_str`, or
    /// `InvalidProtocolVersion` when it is not a valid version text.
    pub fn new(
        instance_id: InstanceId,
        completion_code: u8,
        next_transfer_handle: u32,
        transfer_rsp_flag: TransferRespFlag,
        version_str: ProtocolVersionStr,
    ) -> (r: Result<Self, PldmError>)
        ensures
            parse_version(version_str.spec_bytes()) is None ==> r == Err::<Self, PldmError>(
                PldmError::InvalidProtocolVersion,
            ),
            parse_version(version_str.spec_bytes()) is Some ==> (r matches Ok(m) && m.hdr.0@
                == response_header(
                instance_id,
                PldmSupportedType::Base.to_u8(),
                PldmControlCmd::GetPldmVersion.to_u8(),
            ) && m.completion_code == completion_code && m.next_transfer_handle
                == next_transfer_handle && m.transfer_rsp_flag == transfer_rsp_flag.to_u8()
                && m.version_data == ver32_of(version_str.spec_bytes())),
    {
        proof {
            lemma_response_bits();
        }
        let version = match PldmVersion::from_text(version_str) {
            Ok(v) => v,
            Err(_) => return Err(PldmError::InvalidProtocolVersion),
        };
        proof {
            lemma_parse_version_small(version_str.spec_bytes());
        }
        Ok(Self {
            hdr: PldmMsgHeader::new(
                instance_id,
                PldmMsgType::Response,
                PldmSupportedType::Base,
                PldmControlCmd::GetPldmVersion.to_u8(),
            ),
            completion_code,
            next_transfer_handle,
            transfer_rsp_flag: transfer_rsp_flag.to_u8(),
            version_data: version.bcd_encode_to_ver32(),
        })
    }
}

} // verus!
