use crate::pldm::codec::{
    lemma_field_by_width, lemma_fits_widths, lemma_layout_of_fields, widths, FixedFields,
};
use crate::pldm::error::PldmError;
use crate::pldm::protocol::base::{
    lemma_response_bits, msg_header, response_header, InstanceId, PldmMsgHeader, PldmMsgType,
    PldmSupportedType,
};
use crate::pldm::protocol::firmware_update::FwUpdateCmd;
use crate::wire::{fv8, get_u8, Field};
use vstd::prelude::*;
use crate::pldm::codec::{
    append_encodings, decode_values, lemma_seq_roundtrip, seq_decode, seq_decode_admits, seq_encoding,
    EncodedSize, PldmCodec, PldmCodecError,
};
use crate::pldm::protocol::base::PLDM_MSG_HEADER_LEN;
use crate::pldm::protocol::firmware_update::{empty_descriptor, Descriptor};
use crate::wire::{append_bytes, array_from, from_le4, le4, lemma_array_from, lemma_le4, push_u32, put_encoding, read_u32};
use vstd::slice::slice_subrange;

verus! {


/// QueryDeviceIdentifiers request.
#[derive(Debug, Clone, Copy, PartialEq, Eq)]
pub struct QueryDeviceIdentifiersRequest {
    pub hdr: PldmMsgHeader,
}

impl FixedFields for QueryDeviceIdentifiersRequest {
    open spec fn spec_fields(&self) -> Seq<Field> {
        seq![
            Field::U8(self.hdr.0[0]),
            Field::U8(self.hdr.0[1]),
            Field::U8(self.hdr.0[2]),
        ]
    }

    open spec fn spec_layout() -> Seq<u8> {
        seq![1u8, 1, 1]
    }

    open spec fn spec_from_fields(fs: Seq<Field>) -> Self {
        QueryDeviceIdentifiersRequest { hdr: PldmMsgHeader([fv8(fs[0]), fv8(fs[1]), fv8(fs[2])]) }
    }

    fn layout() -> (r: Vec<u8>) {
        let r = vec![1u8, 1, 1];
        assert(r@ =~= Self::spec_layout());
        r
    }

    fn to_fields(&self) -> (r: Vec<Field>) {
        let r = vec![
            Field::U8(self.hdr.0[0]),
            Field::U8(self.hdr.0[1]),
            Field::U8(self.hdr.0[2]),
        ];
        assert(r@ =~= self.spec_fields());
        r
    }

    fn from_fields(fs: &Vec<Field>) -> (r: Self) {
        QueryDeviceIdentifiersRequest { hdr: PldmMsgHeader([get_u8(&fs[0]), get_u8(&fs[1]), get_u8(&fs[2])]) }
    }

    proof fn lemma_fields(&self) {
        assert(widths(self.spec_fields()) =~= Self::spec_layout());
        lemma_fits_widths(self.spec_fields());
        lemma_layout_of_fields(self.spec_fields(), Self::spec_layout());
        assert(Self::spec_from_fields(self.spec_fields()).hdr.0 =~= self.hdr.0);
    }

    proof fn lemma_from_fields(fs: Seq<Field>) {
        lemma_field_by_width(fs[0]);
        lemma_field_by_width(fs[1]);
        lemma_field_by_width(fs[2]);
        assert(Self::spec_from_fields(fs).spec_fields() =~= fs);
    }
}

impl QueryDeviceIdentifiersRequest {
    pub fn new(instance_id: InstanceId, msg_type: PldmMsgType) -> (r: Self)
        ensures
            r.hdr.0@ == msg_header(instance_id, msg_type, PldmSupportedType::FwUpdate.to_u8(), FwUpdateCmd::QueryDeviceIdentifiers.to_u8()),
    {
        QueryDeviceIdentifiersRequest {
            hdr: PldmMsgHeader::new(instance_id, msg_type, PldmSupportedType::FwUpdate, FwUpdateCmd::QueryDeviceIdentifiers.to_u8()),
        }
    }
}

pub const ADDITIONAL_DESCRIPTORS_MAX_COUNT: usize = 4;

/// QueryDeviceIdentifiers response: the descriptors that identify the
/// device, the initial one and up to four more.
#[derive(Debug, Clone, Copy, PartialEq, Eq)]
pub struct QueryDeviceIdentifiersResponse {
    pub hdr: PldmMsgHeader,
    pub completion_code: u8,
    pub device_identifiers_len: u32,
    pub descriptor_count: u8,
    pub initial_descriptor: Descriptor,
    pub additional_descriptors: Option<[Descriptor; ADDITIONAL_DESCRIPTORS_MAX_COUNT]>,
}

/// The encoded sizes of descriptors, as their length fields give them.
pub open spec fn descriptors_size(ds: Seq<Descriptor>) -> nat
    decreases ds.len(),
{
    if ds.len() == 0 {
        0
    } else {
        (4 + ds[0].descriptor_length + descriptors_size(ds.drop_first())) as nat
    }
}

/// `n` empty descriptors.
pub open spec fn empty_descriptors(n: nat) -> Seq<Descriptor> {
    Seq::new(n, |i: int| empty_descriptor())
}

/// How many additional descriptors a descriptor count puts on the wire: the
/// count less the initial one, at most four.
pub open spec fn wire_count(count: u8) -> nat {
    if count <= 1 {
        0
    } else if count - 1 < ADDITIONAL_DESCRIPTORS_MAX_COUNT {
        (count - 1) as nat
    } else {
        ADDITIONAL_DESCRIPTORS_MAX_COUNT as nat
    }
}

/// The additional descriptors handed to `new`.
pub open spec fn given_descriptors(additional: Option<&[Descriptor]>) -> Seq<Descriptor> {
    match additional {
        Some(a) => a@,
        None => Seq::empty(),
    }
}

proof fn lemma_descriptors_size_push(ds: Seq<Descriptor>, d: Descriptor)
    ensures
        descriptors_size(ds.push(d)) == descriptors_size(ds) + 4 + d.descriptor_length,
    decreases ds.len(),
{
    assert(descriptors_size(Seq::<Descriptor>::empty()) == 0);
    assert(ds.push(d)[0] == if ds.len() == 0 { d } else { ds[0] });
    if ds.len() == 0 {
        assert(ds.push(d).drop_first() =~= Seq::<Descriptor>::empty());
    } else {
        assert(ds.push(d).drop_first() =~= ds.drop_first().push(d));
        lemma_descriptors_size_push(ds.drop_first(), d);
    }
}

proof fn lemma_descriptors_size_bound(ds: Seq<Descriptor>)
    ensures
        descriptors_size(ds) <= 65539 * ds.len(),
    decreases ds.len(),
{
    if ds.len() > 0 {
        lemma_descriptors_size_bound(ds.drop_first());
    }
}

/// Descriptors that can be encoded take their sizes on the wire.
proof fn lemma_descriptors_encoding_len(ds: Seq<Descriptor>)
    requires
        forall|i: int| 0 <= i < ds.len() ==> #[trigger] ds[i].spec_encodable(),
    ensures
        seq_encoding(ds).len() == descriptors_size(ds),
    decreases ds.len(),
{
    if ds.len() > 0 {
        assert(ds[0].spec_encodable());
        assert forall|i: int| 0 <= i < ds.drop_first().len() implies #[trigger] ds.drop_first()[i].spec_encodable() by {
            assert(ds.drop_first()[i] == ds[i + 1]);
        }
        lemma_descriptors_encoding_len(ds.drop_first());
    }
}

impl QueryDeviceIdentifiersResponse {
    /// The number of additional descriptors on the wire.
    pub open spec fn additional_count(&self) -> nat {
        match self.additional_descriptors {
            Some(_) => wire_count(self.descriptor_count),
            None => 0,
        }
    }

    /// The additional descriptors on the wire.
    pub open spec fn wire_descriptors(&self) -> Seq<Descriptor> {
        match self.additional_descriptors {
            Some(a) => a@.take(self.additional_count() as int),
            None => Seq::empty(),
        }
    }

    /// The response holding the initial descriptor and the additional ones
    /// (at most four), with the descriptor count and the total size of the
    /// descriptors.
    pub fn new(
        instance_id: InstanceId,
        completion_code: u8,
        initial_descriptor: &Descriptor,
        additional_descriptors: Option<&[Descriptor]>,
    ) -> (r: Result<Self, PldmError>)
        ensures
            given_descriptors(additional_descriptors).len() > ADDITIONAL_DESCRIPTORS_MAX_COUNT ==> r
                == Err::<Self, PldmError>(PldmError::InvalidDescriptorCount),
            given_descriptors(additional_descriptors).len() <= ADDITIONAL_DESCRIPTORS_MAX_COUNT ==> (r matches Ok(m) && {
                let extra = given_descriptors(additional_descriptors);
                &&& m.hdr.0@ == response_header(instance_id, PldmSupportedType::FwUpdate.to_u8(), FwUpdateCmd::QueryDeviceIdentifiers.to_u8())
                &&& m.completion_code == completion_code
                &&& m.descriptor_count == 1 + extra.len()
                &&& m.device_identifiers_len == descriptors_size(seq![*initial_descriptor] + extra)
                &&& m.initial_descriptor == *initial_descriptor
                &&& extra.len() > 0 ==> m.additional_descriptors == Some(array_from::<Descriptor, ADDITIONAL_DESCRIPTORS_MAX_COUNT>(
                    extra + empty_descriptors((ADDITIONAL_DESCRIPTORS_MAX_COUNT - extra.len()) as nat),
                ))
                &&& extra.len() > 0 ==> (m.additional_descriptors matches Some(arr) && arr@ == extra
                    + empty_descriptors((ADDITIONAL_DESCRIPTORS_MAX_COUNT - extra.len()) as nat))
                &&& extra.len() == 0 ==> m.additional_descriptors is None
            }),
    {
        let extra_len: usize = match additional_descriptors {
            Some(a) => a.len(),
            None => 0,
        };
        if extra_len > ADDITIONAL_DESCRIPTORS_MAX_COUNT {
            return Err(PldmError::InvalidDescriptorCount);
        }
        let descriptor_count = 1 + extra_len;
        let mut len: usize = initial_descriptor.codec_size_in_bytes();
        let ghost first = seq![*initial_descriptor];
        proof {
            assert(first.drop_first() =~= Seq::<Descriptor>::empty());
            assert(descriptors_size(Seq::<Descriptor>::empty()) == 0);
            assert(descriptors_size(first) == len);
        }
        let mut additional: Option<[Descriptor; ADDITIONAL_DESCRIPTORS_MAX_COUNT]> = None;
        match additional_descriptors {
            Some(a) => {
                let mut i: usize = 0;
                while i < a.len()
                    invariant
                        i <= a@.len(),
                        a@.len() <= ADDITIONAL_DESCRIPTORS_MAX_COUNT,
                        len == descriptors_size(first + a@.take(i as int)),
                        descriptors_size(first + a@.take(i as int)) <= 65539 * (i + 1),
                    decreases a@.len() - i,
                {
                    proof {
                        assert(first + a@.take(i + 1) =~= (first + a@.take(i as int)).push(a@[i as int]));
                        lemma_descriptors_size_push(first + a@.take(i as int), a@[i as int]);
                    }
                    len = len + a[i].codec_size_in_bytes();
                    i = i + 1;
                }
                assert(a@.take(a@.len() as int) =~= a@);
                if a.len() > 0 {
                    let e = Descriptor::new_empty();
                    let mut arr = [e, e, e, e];
                    assert(arr@ =~= a@.take(0) + empty_descriptors(ADDITIONAL_DESCRIPTORS_MAX_COUNT as nat));
                    let mut k: usize = 0;
                    while k < a.len()
                        invariant
                            k <= a@.len(),
                            a@.len() <= ADDITIONAL_DESCRIPTORS_MAX_COUNT,
                            arr@ == a@.take(k as int) + empty_descriptors((ADDITIONAL_DESCRIPTORS_MAX_COUNT - k) as nat),
                        decreases a@.len() - k,
                    {
                        arr[k] = a[k];
                        assert(arr@ =~= a@.take(k + 1) + empty_descriptors((ADDITIONAL_DESCRIPTORS_MAX_COUNT - k - 1) as nat));
                        k = k + 1;
                    }
                    proof {
                        lemma_array_from::<Descriptor, ADDITIONAL_DESCRIPTORS_MAX_COUNT>(arr);
                    }
                    additional = Some(arr);
                }
            },
            None => {
                assert(first + Seq::<Descriptor>::empty() =~= first);
            },
        }
        proof {
            lemma_response_bits();
        }
        Ok(QueryDeviceIdentifiersResponse {
            hdr: PldmMsgHeader::new(
                instance_id,
                PldmMsgType::Response,
                PldmSupportedType::FwUpdate,
                FwUpdateCmd::QueryDeviceIdentifiers.to_u8(),
            ),
            completion_code,
            device_identifiers_len: len as u32,
            descriptor_count: descriptor_count as u8,
            initial_descriptor: *initial_descriptor,
            additional_descriptors: additional,
        })
    }

    /// The size of the encoding as the length fields give it: nine bytes, the
    /// initial descriptor, and the additional descriptors on the wire.
    pub fn codec_size_in_bytes(&self) -> (r: usize)
        requires
            self.additional_descriptors is Some ==> self.descriptor_count >= 1,
        ensures
            r == 9 + 4 + self.initial_descriptor.descriptor_length + descriptors_size(self.wire_descriptors()),
    {
        let mut size: usize = PLDM_MSG_HEADER_LEN + 1 + 4 + 1;
        size = size + self.initial_descriptor.codec_size_in_bytes();
        match &self.additional_descriptors {
            Some(a) => {
                let m: usize = if ((self.descriptor_count - 1) as usize) < ADDITIONAL_DESCRIPTORS_MAX_COUNT {
                    (self.descriptor_count - 1) as usize
                } else {
                    ADDITIONAL_DESCRIPTORS_MAX_COUNT
                };
                assert(m == self.additional_count());
                let mut i: usize = 0;
                assert(a@.take(0) =~= Seq::<Descriptor>::empty());
                while i < m
                    invariant
                        i <= m,
                        m <= ADDITIONAL_DESCRIPTORS_MAX_COUNT,
                        size == 9 + 4 + self.initial_descriptor.descriptor_length + descriptors_size(a@.take(i as int)),
                        descriptors_size(a@.take(i as int)) <= 65539 * i,
                    decreases m - i,
                {
                    proof {
                        assert(a@.take(i + 1) =~= a@.take(i as int).push(a@[i as int]));
                        lemma_descriptors_size_push(a@.take(i as int), a@[i as int]);
                    }
                    size = size + a[i].codec_size_in_bytes();
                    i = i + 1;
                }
            },
            None => {
                assert(self.wire_descriptors() =~= Seq::<Descriptor>::empty());
            },
        }
        size
    }
}

impl Default for QueryDeviceIdentifiersResponse {
    fn default() -> (r: Self)
        ensures
            r.hdr.0@ == seq![0u8, 0, 0],
            r.completion_code == 0,
            r.device_identifiers_len == 0,
            r.descriptor_count == 0,
            r.initial_descriptor == empty_descriptor(),
            r.additional_descriptors is None,
    {
        let r = QueryDeviceIdentifiersResponse {
            hdr: PldmMsgHeader([0, 0, 0]),
            completion_code: 0,
            device_identifiers_len: 0,
            descriptor_count: 0,
            initial_descriptor: Descriptor::new_empty(),
            additional_descriptors: None,
        };
        assert(r.hdr.0@ =~= seq![0u8, 0, 0]);
        r
    }
}

impl PldmCodec for QueryDeviceIdentifiersResponse {
    open spec fn spec_encoding(&self) -> Seq<u8> {
        self.hdr.0@ + seq![self.completion_code] + le4(self.device_identifiers_len) + seq![self.descriptor_count]
            + self.initial_descriptor.spec_encoding() + seq_encoding(self.wire_descriptors())
    }

    open spec fn spec_decode(bytes: Seq<u8>) -> Option<Self> {
        if bytes.len() < 9 {
            None
        } else {
            let count = bytes[8];
            match Descriptor::spec_decode(bytes.skip(9)) {
                None => None,
                Some(init) => {
                    let off = (9 + init.spec_encoding().len()) as int;
                    let base = QueryDeviceIdentifiersResponse {
                        hdr: PldmMsgHeader([bytes[0], bytes[1], bytes[2]]),
                        completion_code: bytes[3],
                        device_identifiers_len: from_le4(bytes.subrange(4, 8)),
                        descriptor_count: count,
                        initial_descriptor: init,
                        additional_descriptors: None,
                    };
                    if count > 1 {
                        match seq_decode::<Descriptor>(bytes.skip(off), wire_count(count)) {
                            None => None,
                            Some(ds) => Some(
                                QueryDeviceIdentifiersResponse {
                                    additional_descriptors: Some(
                                        array_from::<Descriptor, ADDITIONAL_DESCRIPTORS_MAX_COUNT>(
                                            ds + empty_descriptors((ADDITIONAL_DESCRIPTORS_MAX_COUNT - wire_count(count)) as nat),
                                        ),
                                    ),
                                    ..base
                                },
                            ),
                        }
                    } else {
                        Some(base)
                    }
                },
            }
        }
    }

    open spec fn spec_well_formed(&self) -> bool {
        &&& self.initial_descriptor.spec_well_formed()
        &&& (self.additional_descriptors is Some) == (self.descriptor_count > 1)
        &&& match self.additional_descriptors {
            Some(a) => {
                &&& forall|i: int| 0 <= i < wire_count(self.descriptor_count) ==> #[trigger] a@[i].spec_well_formed()
                &&& forall|i: int| wire_count(self.descriptor_count) <= i < ADDITIONAL_DESCRIPTORS_MAX_COUNT ==> #[trigger] a@[i] == empty_descriptor()
            },
            None => true,
        }
    }

    open spec fn spec_required_len(&self) -> nat {
        (9 + 4 + self.initial_descriptor.descriptor_length + descriptors_size(self.wire_descriptors())) as nat
    }

    open spec fn spec_encode_admits(&self, buffer_len: nat) -> bool {
        &&& self.additional_descriptors is Some ==> self.descriptor_count >= 1
        &&& self.initial_descriptor.spec_encodable()
        &&& forall|i: int| 0 <= i < self.wire_descriptors().len() ==> #[trigger] self.wire_descriptors()[i].spec_encodable()
    }

    open spec fn spec_decode_admits(bytes: Seq<u8>) -> bool {
        bytes.len() < 9 || {
            &&& Descriptor::spec_decode_admits(bytes.skip(9))
            &&& match Descriptor::spec_decode(bytes.skip(9)) {
                None => true,
                Some(init) => bytes[8] > 1 ==> seq_decode_admits::<Descriptor>(
                    bytes.skip((9 + init.spec_encoding().len()) as int),
                    wire_count(bytes[8]),
                ),
            }
        }
    }

    fn encode(&self, buffer: &mut [u8]) -> (r: Result<usize, PldmCodecError>) {
        let mut data: Vec<u8> = Vec::new();
        data.push(self.hdr.0[0]);
        data.push(self.hdr.0[1]);
        data.push(self.hdr.0[2]);
        data.push(self.completion_code);
        push_u32(&mut data, self.device_identifiers_len);
        data.push(self.descriptor_count);
        let init = self.initial_descriptor.encoding_bytes();
        append_bytes(&mut data, init.as_slice());
        let ghost before = data@;
        match &self.additional_descriptors {
            Some(a) => {
                let m: usize = if ((self.descriptor_count - 1) as usize) < ADDITIONAL_DESCRIPTORS_MAX_COUNT {
                    (self.descriptor_count - 1) as usize
                } else {
                    ADDITIONAL_DESCRIPTORS_MAX_COUNT
                };
                let s = slice_subrange(a.as_slice(), 0, m);
                assert(s@ =~= self.wire_descriptors());
                append_encodings(&mut data, s);
            },
            None => {
                assert(self.wire_descriptors() =~= Seq::<Descriptor>::empty());
                assert(data@ =~= before + seq_encoding(self.wire_descriptors()));
            },
        }
        assert(data@ =~= self.spec_encoding());
        proof {
            lemma_descriptors_encoding_len(self.wire_descriptors());
        }
        let required = self.codec_size_in_bytes();
        put_encoding(&data, required, buffer)
    }

    fn decode(buffer: &[u8]) -> (r: Result<Self, PldmCodecError>) {
        if buffer.len() < 9 {
            return Err(PldmCodecError::BufferTooShort);
        }
        let hdr = PldmMsgHeader([buffer[0], buffer[1], buffer[2]]);
        let completion_code = buffer[3];
        let device_identifiers_len = read_u32(buffer, 4);
        let descriptor_count = buffer[8];
        let rem = slice_subrange(buffer, 9, buffer.len());
        assert(rem@ =~= buffer@.skip(9));
        let initial_descriptor = match Descriptor::decode(rem) {
            Ok(d) => d,
            Err(e) => return Err(e),
        };
        proof {
            Descriptor::lemma_decoded_fits(rem@);
        }
        let off = 9 + initial_descriptor.codec_size_in_bytes();
        let additional_descriptors = if descriptor_count > 1 {
            let m: usize = if ((descriptor_count - 1) as usize) < ADDITIONAL_DESCRIPTORS_MAX_COUNT {
                (descriptor_count - 1) as usize
            } else {
                ADDITIONAL_DESCRIPTORS_MAX_COUNT
            };
            assert(m == wire_count(descriptor_count));
            let ds = match decode_values::<Descriptor>(buffer, off, m) {
                Ok(v) => v,
                Err(e) => return Err(e),
            };
            let e = Descriptor::new_empty();
            let mut arr = [e, e, e, e];
            assert(arr@ =~= ds@.take(0) + empty_descriptors(ADDITIONAL_DESCRIPTORS_MAX_COUNT as nat));
            let mut k: usize = 0;
            while k < m
                invariant
                    k <= m,
                    m <= ADDITIONAL_DESCRIPTORS_MAX_COUNT,
                    ds@.len() == m,
                    arr@ == ds@.take(k as int) + empty_descriptors((ADDITIONAL_DESCRIPTORS_MAX_COUNT - k) as nat),
                decreases m - k,
            {
                arr[k] = ds[k];
                assert(arr@ =~= ds@.take(k + 1) + empty_descriptors((ADDITIONAL_DESCRIPTORS_MAX_COUNT - k - 1) as nat));
                k = k + 1;
            }
            assert(ds@.take(m as int) =~= ds@);
            proof {
                lemma_array_from::<Descriptor, ADDITIONAL_DESCRIPTORS_MAX_COUNT>(arr);
            }
            Some(arr)
        } else {
            None
        };
        Ok(QueryDeviceIdentifiersResponse {
            hdr,
            completion_code,
            device_identifiers_len,
            descriptor_count,
            initial_descriptor,
            additional_descriptors,
        })
    }

    proof fn lemma_roundtrip(&self, rest: Seq<u8>) {
        let init = self.initial_descriptor;
        let wire = self.wire_descriptors();
        let after = seq_encoding(wire) + rest;
        let b = self.spec_encoding() + rest;
        lemma_le4(self.device_identifiers_len);
        assert(b.subrange(4, 8) =~= le4(self.device_identifiers_len));
        assert(b.skip(9) =~= init.spec_encoding() + after);
        init.lemma_roundtrip(after);
        let off = (9 + init.spec_encoding().len()) as int;
        assert(b.skip(off) =~= after);
        assert forall|i: int| 0 <= i < wire.len() implies #[trigger] wire[i].spec_well_formed() by {
            match self.additional_descriptors {
                Some(a) => {
                    assert(wire[i] == a@[i]);
                },
                None => {},
            }
        }
        lemma_seq_roundtrip(wire, rest);
        assert forall|i: int| 0 <= i < wire.len() implies #[trigger] wire[i].spec_encodable() by {
            assert(wire[i].spec_well_formed());
        }
        lemma_descriptors_encoding_len(wire);
        match self.additional_descriptors {
            Some(a) => {
                let m = wire_count(self.descriptor_count);
                assert(wire + empty_descriptors((ADDITIONAL_DESCRIPTORS_MAX_COUNT - m) as nat) =~= a@);
                lemma_array_from::<Descriptor, ADDITIONAL_DESCRIPTORS_MAX_COUNT>(a);
            },
            None => {},
        }
        let d = Self::spec_decode(b).unwrap();
        assert(d.hdr.0 =~= self.hdr.0);
    }
}

} // verus!
