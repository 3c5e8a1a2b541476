use vstd::prelude::*;

verus! {

/// Errors of encoding a message into, or decoding it from, a byte buffer.
#[derive(Debug, Clone, Copy, PartialEq, Eq, Structural)]
pub enum PldmCodecError {
    BufferTooShort,
    Unsupported,
}

/// Encoding of a PLDM message to its wire bytes and decoding back.
///
/// `spec_encoding` is the exact byte string of a value on the wire;
/// `spec_decode` is what decoding a buffer yields (`None`: the buffer is too
/// short). `lemma_roundtrip` states that decoding an encoding, whatever bytes
/// follow it, gives back the value.
pub trait PldmCodec: Sized {
    /// The bytes that encode `self`.
    spec fn spec_encoding(&self) -> Seq<u8>;

    /// The value decoded from the front of `bytes`, if it holds a whole one.
    spec fn spec_decode(bytes: Seq<u8>) -> Option<Self>;

    /// The value is consistent (lengths, flags and optional parts agree), so
    /// that its encoding decodes to it.
    spec fn spec_well_formed(&self) -> bool;

    /// The buffer size that `encode` asks for before writing (the size of the
    /// encoding, for a well-formed value).
    spec fn spec_required_len(&self) -> nat;

    /// Encoding into a buffer of this size is defined (it would not index out
    /// of range).
    spec fn spec_encode_admits(&self, buffer_len: nat) -> bool;

    /// Decoding is defined for these bytes (it would not index out of range).
    spec fn spec_decode_admits(bytes: Seq<u8>) -> bool;

    /// Writes the encoding at the start of `buffer` and returns its length, or
    /// fails with `BufferTooShort` (buffer unchanged) when it does not fit.
    fn encode(&self, buffer: &mut [u8]) -> (r: Result<usize, PldmCodecError>)
        requires
            self.spec_encode_admits(old(buffer)@.len()),
        ensures
            crate::wire::encoded_into(
                self.spec_encoding(),
                self.spec_required_len(),
                old(buffer)@,
                final(buffer)@,
                r,
            ),
    ;

    /// Decodes a value from the start of `buffer`.
    fn decode(buffer: &[u8]) -> (r: Result<Self, PldmCodecError>)
        requires
            Self::spec_decode_admits(buffer@),
        ensures
            match Self::spec_decode(buffer@) {
                Some(v) => r == Ok::<Self, PldmCodecError>(v),
                None => r == Err::<Self, PldmCodecError>(PldmCodecError::BufferTooShort),
            },
    ;

    /// A well-formed value can be encoded, and decoding its encoding followed
    /// by any bytes gives the value back.
    proof fn lemma_roundtrip(&self, rest: Seq<u8>)
        requires
            self.spec_well_formed(),
        ensures
            forall|n: nat| self.spec_encode_admits(n),
            self.spec_required_len() == self.spec_encoding().len(),
            Self::spec_decode_admits(self.spec_encoding() + rest),
            Self::spec_decode(self.spec_encoding() + rest) == Some(*self),
    ;
}

} // verus!

verus! {

use crate::wire::{
    field_bytes, field_width, fields_bytes, fields_to_vec, fits_layout, fv16, fv32, fv64, fv8, lemma_fields_roundtrip,
    lemma_parse_fields, layout_size, parse_fields, put_encoding, read_fields, valid_layout, Field,
};

/// The widths of a list of fields.
pub open spec fn widths(fs: Seq<Field>) -> Seq<u8> {
    Seq::new(fs.len(), |i: int| field_width(fs[i]) as u8)
}

pub proof fn lemma_fits_widths(fs: Seq<Field>)
    ensures
        fits_layout(fs, widths(fs)),
{
    assert forall|i: int| 0 <= i < fs.len() implies field_width(#[trigger] fs[i]) == widths(fs)[i] as nat by {
        match fs[i] {
            Field::U8(_) => {},
            Field::U16(_) => {},
            Field::U32(_) => {},
            Field::U64(_) => {},
        }
    }
}

/// The widths of fields of a layout are layout widths.
pub proof fn lemma_layout_of_fields(fs: Seq<Field>, ws: Seq<u8>)
    requires
        fits_layout(fs, ws),
    ensures
        valid_layout(ws),
{
    assert forall|i: int| 0 <= i < ws.len() implies (ws[i] == 1 || ws[i] == 2 || ws[i] == 4 || ws[i] == 8) by {
        assert(field_width(fs[i]) == ws[i] as nat);
    }
}

/// A field of a given width is the field of that width holding its value.
pub proof fn lemma_field_by_width(f: Field)
    ensures
        field_width(f) == 1 ==> f == Field::U8(fv8(f)),
        field_width(f) == 2 ==> f == Field::U16(fv16(f)),
        field_width(f) == 4 ==> f == Field::U32(fv32(f)),
        field_width(f) == 8 ==> f == Field::U64(fv64(f)),
{
}


/// The bytes of two lists of fields laid out one after the other.
pub proof fn lemma_fields_bytes_append(a: Seq<Field>, b: Seq<Field>)
    ensures
        fields_bytes(a + b) == fields_bytes(a) + fields_bytes(b),
    decreases b.len(),
{
    if b.len() == 0 {
        assert(a + b =~= a);
        assert(fields_bytes(a) + fields_bytes(b) =~= fields_bytes(a));
    } else {
        lemma_fields_bytes_append(a, b.drop_last());
        assert((a + b).drop_last() =~= a + b.drop_last());
        assert((a + b).last() == b.last());
        assert(fields_bytes(a + b) =~= fields_bytes(a) + fields_bytes(b));
    }
}

/// The bytes of one field.
pub proof fn lemma_fields_bytes_one(f: Field)
    ensures
        fields_bytes(seq![f]) == field_bytes(f),
{
    let e = Seq::<Field>::empty();
    assert(seq![f].drop_last() =~= e);
    assert(seq![f].last() == f);
    assert(fields_bytes(e) == Seq::<u8>::empty());
    assert(fields_bytes(seq![f]) == fields_bytes(e) + field_bytes(f));
    assert(fields_bytes(seq![f]) =~= field_bytes(f));
}

/// The bytes of a list of one-byte fields are their values.
pub proof fn lemma_fields_bytes_u8s(fs: Seq<Field>, s: Seq<u8>)
    requires
        fs.len() == s.len(),
        forall|i: int| 0 <= i < fs.len() ==> fs[i] == Field::U8(s[i]),
    ensures
        fields_bytes(fs) == s,
    decreases fs.len(),
{
    if fs.len() == 0 {
        assert(s =~= Seq::<u8>::empty());
    } else {
        lemma_fields_bytes_u8s(fs.drop_last(), s.drop_last());
        assert(field_bytes(fs.last()) =~= seq![s.last()]);
        assert(fields_bytes(fs) =~= s);
    }
}

/// A message whose wire form is a fixed list of little-endian integer fields
/// (a packed C structure).
pub trait FixedFields: Sized {
    /// The fields of the value in wire order.
    spec fn spec_fields(&self) -> Seq<Field>;

    /// The widths of the fields, the same for every value.
    spec fn spec_layout() -> Seq<u8>;

    /// The value made of a list of fields of the layout.
    spec fn spec_from_fields(fs: Seq<Field>) -> Self;

    fn layout() -> (r: Vec<u8>)
        ensures
            r@ == Self::spec_layout(),
    ;

    fn to_fields(&self) -> (r: Vec<Field>)
        ensures
            r@ == self.spec_fields(),
    ;

    fn from_fields(fs: &Vec<Field>) -> (r: Self)
        requires
            fs@.len() == Self::spec_layout().len(),
        ensures
            r == Self::spec_from_fields(fs@),
    ;

    /// The fields of a value have the layout and make up that value again.
    proof fn lemma_fields(&self)
        ensures
            valid_layout(Self::spec_layout()),
            Self::spec_layout().len() <= 4096,
            fits_layout(self.spec_fields(), Self::spec_layout()),
            Self::spec_from_fields(self.spec_fields()) == *self,
    ;

    /// Any fields of the layout make up a value whose fields they are.
    proof fn lemma_from_fields(fs: Seq<Field>)
        requires
            fits_layout(fs, Self::spec_layout()),
        ensures
            Self::spec_from_fields(fs).spec_fields() == fs,
    ;
}

impl<T: FixedFields> PldmCodec for T {
    open spec fn spec_encoding(&self) -> Seq<u8> {
        fields_bytes(self.spec_fields())
    }

    open spec fn spec_decode(bytes: Seq<u8>) -> Option<Self> {
        if bytes.len() >= layout_size(Self::spec_layout()) {
            Some(Self::spec_from_fields(parse_fields(Self::spec_layout(), bytes)))
        } else {
            None
        }
    }

    open spec fn spec_well_formed(&self) -> bool {
        true
    }

    open spec fn spec_required_len(&self) -> nat {
        self.spec_encoding().len()
    }

    open spec fn spec_encode_admits(&self, buffer_len: nat) -> bool {
        true
    }

    open spec fn spec_decode_admits(bytes: Seq<u8>) -> bool {
        true
    }

    fn encode(&self, buffer: &mut [u8]) -> (r: Result<usize, PldmCodecError>) {
        let fs = self.to_fields();
        let data = fields_to_vec(&fs);
        put_encoding(&data, data.len(), buffer)
    }

    fn decode(buffer: &[u8]) -> (r: Result<Self, PldmCodecError>) {
        let ws = Self::layout();
        proof {
            Self::lemma_fields(&Self::spec_from_fields(Seq::empty()));
        }
        match read_fields(buffer, ws.as_slice()) {
            None => Err(PldmCodecError::BufferTooShort),
            Some(fs) => {
                proof {
                    lemma_parse_fields(ws@, buffer@);
                }
                Ok(Self::from_fields(&fs))
            },
        }
    }

    proof fn lemma_roundtrip(&self, rest: Seq<u8>) {
        self.lemma_fields();
        lemma_fields_roundtrip(self.spec_fields(), Self::spec_layout(), rest);
    }
}

/// Decoding a fixed-size message and encoding the result gives back the bytes
/// that were read: the encoding is the only one of the value.
pub proof fn lemma_fixed_canonical<T: FixedFields>(bytes: Seq<u8>)
    requires
        T::spec_decode(bytes) is Some,
    ensures
        T::spec_decode(bytes).unwrap().spec_encoding() == bytes.subrange(
            0,
            T::spec_decode(bytes).unwrap().spec_encoding().len() as int,
        ),
{
    T::lemma_fields(&T::spec_from_fields(Seq::empty()));
    let fs = parse_fields(T::spec_layout(), bytes);
    lemma_parse_fields(T::spec_layout(), bytes);
    T::lemma_from_fields(fs);
}

} // verus!

verus! {

/// The encoded size of every value of a fixed-size message.
pub fn fixed_size<T: FixedFields>() -> (r: usize)
    ensures
        r == crate::wire::layout_size(T::spec_layout()),
        r <= 32768,
{
    let ws = T::layout();
    proof {
        T::lemma_fields(&T::spec_from_fields(Seq::empty()));
        crate::wire::lemma_layout_size_bound(ws@);
    }
    let mut total: usize = 0;
    let mut i: usize = 0;
    while i < ws.len()
        invariant
            i <= ws@.len(),
            ws@.len() <= 4096,
            valid_layout(ws@),
            total == crate::wire::layout_size(ws@.subrange(0, i as int)),
            total <= 8 * i,
        decreases ws@.len() - i,
    {
        let ghost nxt = ws@.subrange(0, i + 1);
        assert(nxt.drop_last() =~= ws@.subrange(0, i as int));
        assert(nxt.last() == ws@[i as int]);
        total = total + ws[i] as usize;
        i = i + 1;
    }
    assert(ws@.subrange(0, ws@.len() as int) =~= ws@);
    total
}

} // verus!

verus! {

/// Every value of a fixed-size message encodes to the layout's size.
pub proof fn lemma_fixed_len<T: FixedFields>(x: &T)
    ensures
        x.spec_encoding().len() == crate::wire::layout_size(T::spec_layout()),
{
    x.lemma_fields();
    lemma_fields_roundtrip(x.spec_fields(), T::spec_layout(), Seq::empty());
}

} // verus!

verus! {

/// The encodings of a list of values, one after another.
pub open spec fn seq_encoding<T: PldmCodec>(xs: Seq<T>) -> Seq<u8>
    decreases xs.len(),
{
    if xs.len() == 0 {
        Seq::empty()
    } else {
        xs[0].spec_encoding() + seq_encoding(xs.drop_first())
    }
}

/// `k` values decoded one after another from the front of `bytes`, each
/// starting where the encoding of the one before ends (`None`: one of them
/// does not fit).
pub open spec fn seq_decode<T: PldmCodec>(bytes: Seq<u8>, k: nat) -> Option<Seq<T>>
    decreases k,
{
    if k == 0 {
        Some(Seq::empty())
    } else {
        match T::spec_decode(bytes) {
            None => None,
            Some(v) => match seq_decode::<T>(bytes.skip(v.spec_encoding().len() as int), (k - 1) as nat) {
                None => None,
                Some(vs) => Some(seq![v] + vs),
            },
        }
    }
}

/// Decoding `k` values gives `k` values.
pub proof fn lemma_seq_decode_len<T: PldmCodec>(bytes: Seq<u8>, k: nat)
    ensures
        seq_decode::<T>(bytes, k) matches Some(vs) ==> vs.len() == k,
    decreases k,
{
    if k > 0 {
        match T::spec_decode(bytes) {
            None => {},
            Some(v) => {
                lemma_seq_decode_len::<T>(bytes.skip(v.spec_encoding().len() as int), (k - 1) as nat);
            },
        }
    }
}

/// Where decoding one value is always defined, so is decoding several.
pub proof fn lemma_seq_decode_admits<T: PldmCodec>(bytes: Seq<u8>, k: nat)
    requires
        forall|b: Seq<u8>| #[trigger] T::spec_decode_admits(b),
    ensures
        seq_decode_admits::<T>(bytes, k),
    decreases k,
{
    if k > 0 {
        assert(T::spec_decode_admits(bytes));
        match T::spec_decode(bytes) {
            None => {},
            Some(v) => {
                lemma_seq_decode_admits::<T>(bytes.skip(v.spec_encoding().len() as int), (k - 1) as nat);
            },
        }
    }
}

/// Decoding each of the `k` values in turn is defined.
pub open spec fn seq_decode_admits<T: PldmCodec>(bytes: Seq<u8>, k: nat) -> bool
    decreases k,
{
    k == 0 || (T::spec_decode_admits(bytes) && match T::spec_decode(bytes) {
        None => true,
        Some(v) => seq_decode_admits::<T>(bytes.skip(v.spec_encoding().len() as int), (k - 1) as nat),
    })
}

/// Decoding the encodings of well-formed values, whatever bytes follow,
/// gives the values back.
pub proof fn lemma_seq_roundtrip<T: PldmCodec>(xs: Seq<T>, rest: Seq<u8>)
    requires
        forall|i: int| 0 <= i < xs.len() ==> #[trigger] xs[i].spec_well_formed(),
    ensures
        seq_decode_admits::<T>(seq_encoding(xs) + rest, xs.len()),
        seq_decode::<T>(seq_encoding(xs) + rest, xs.len()) == Some(xs),
    decreases xs.len(),
{
    if xs.len() > 0 {
        let tail = xs.drop_first();
        let b = seq_encoding(xs) + rest;
        let after = seq_encoding(tail) + rest;
        assert(b =~= xs[0].spec_encoding() + after);
        assert(xs[0].spec_well_formed());
        xs[0].lemma_roundtrip(after);
        assert(b.skip(xs[0].spec_encoding().len() as int) =~= after);
        assert forall|i: int| 0 <= i < tail.len() implies #[trigger] tail[i].spec_well_formed() by {
            assert(tail[i] == xs[i + 1]);
        }
        lemma_seq_roundtrip(tail, rest);
        assert(seq![xs[0]] + tail =~= xs);
    }
}

/// The encoding of a list grows by the encoding of each value appended.
pub proof fn lemma_seq_encoding_push<T: PldmCodec>(xs: Seq<T>, x: T)
    ensures
        seq_encoding(xs.push(x)) == seq_encoding(xs) + x.spec_encoding(),
    decreases xs.len(),
{
    if xs.len() == 0 {
        assert(xs.push(x).drop_first() =~= Seq::<T>::empty());
        assert(xs.push(x)[0] == x);
        assert(seq_encoding(Seq::<T>::empty()) == Seq::<u8>::empty());
        assert(x.spec_encoding() + Seq::<u8>::empty() =~= x.spec_encoding());
        assert(seq_encoding(xs) =~= Seq::<u8>::empty());
    } else {
        assert(xs.push(x).drop_first() =~= xs.drop_first().push(x));
        lemma_seq_encoding_push(xs.drop_first(), x);
        assert(seq_encoding(xs.push(x)) =~= seq_encoding(xs) + x.spec_encoding());
    }
}

/// A message whose encoding can be produced as a byte vector and measured,
/// and that is used as an element of a list in a larger message.
pub trait EncodedSize: PldmCodec {
    /// The lengths held in the value are in range, so that it can be encoded.
    spec fn spec_encodable(&self) -> bool;

    fn encoded_size(&self) -> (r: usize)
        requires
            self.spec_encodable(),
        ensures
            r == self.spec_encoding().len(),
    ;

    fn encoding_bytes(&self) -> (r: Vec<u8>)
        requires
            self.spec_encodable(),
        ensures
            r@ == self.spec_encoding(),
    ;

    /// A decoded value can be encoded, and its encoding is no longer than the
    /// bytes it was decoded from.
    proof fn lemma_decoded_fits(bytes: Seq<u8>)
        requires
            Self::spec_decode_admits(bytes),
            Self::spec_decode(bytes) is Some,
        ensures
            Self::spec_decode(bytes).unwrap().spec_encodable(),
            Self::spec_decode(bytes).unwrap().spec_encoding().len() <= bytes.len(),
    ;

    /// A well-formed value can be encoded.
    proof fn lemma_well_formed_encodable(&self)
        requires
            self.spec_well_formed(),
        ensures
            self.spec_encodable(),
    ;
}

/// Appends the encodings of the values of `xs` to `data`.
pub fn append_encodings<T: EncodedSize>(data: &mut Vec<u8>, xs: &[T])
    requires
        forall|i: int| 0 <= i < xs@.len() ==> #[trigger] xs@[i].spec_encodable(),
    ensures
        final(data)@ == old(data)@ + seq_encoding(xs@),
{
    let ghost d0 = data@;
    let mut i: usize = 0;
    assert(xs@.take(0) =~= Seq::<T>::empty());
    while i < xs.len()
        invariant
            i <= xs@.len(),
            forall|k: int| 0 <= k < xs@.len() ==> #[trigger] xs@[k].spec_encodable(),
            data@ == d0 + seq_encoding(xs@.take(i as int)),
        decreases xs@.len() - i,
    {
        let b = xs[i].encoding_bytes();
        crate::wire::append_bytes(data, b.as_slice());
        proof {
            assert(xs@.take(i + 1) =~= xs@.take(i as int).push(xs@[i as int]));
            lemma_seq_encoding_push(xs@.take(i as int), xs@[i as int]);
        }
        i = i + 1;
    }
    assert(xs@.take(xs@.len() as int) =~= xs@);
}

/// Decodes `count` values one after another from `buffer[start..]`.
pub fn decode_values<T: EncodedSize>(buffer: &[u8], start: usize, count: usize) -> (r: Result<
    Vec<T>,
    PldmCodecError,
>)
    requires
        start <= buffer@.len(),
        seq_decode_admits::<T>(buffer@.skip(start as int), count as nat),
    ensures
        match seq_decode::<T>(buffer@.skip(start as int), count as nat) {
            Some(vs) => r matches Ok(v) && v@ == vs,
            None => r == Err::<Vec<T>, PldmCodecError>(PldmCodecError::BufferTooShort),
        },
        r matches Ok(v) ==> v@.len() == count,
{
    proof {
        lemma_seq_decode_len::<T>(buffer@.skip(start as int), count as nat);
    }
    let ghost whole = seq_decode::<T>(buffer@.skip(start as int), count as nat);
    let mut out: Vec<T> = Vec::new();
    let mut offset = start;
    let mut i: usize = 0;
    while i < count
        invariant
            i <= count,
            start <= offset <= buffer@.len(),
            seq_decode_admits::<T>(buffer@.skip(offset as int), (count - i) as nat),
            whole == seq_decode::<T>(buffer@.skip(start as int), count as nat),
            whole == match seq_decode::<T>(buffer@.skip(offset as int), (count - i) as nat) {
                None => None,
                Some(vs) => Some(out@ + vs),
            },
        decreases count - i,
    {
        let rem = vstd::slice::slice_subrange(buffer, offset, buffer.len());
        assert(rem@ =~= buffer@.skip(offset as int));
        match T::decode(rem) {
            Err(e) => {
                return Err(e);
            },
            Ok(v) => {
                proof {
                    T::lemma_decoded_fits(rem@);
                }
                let n = v.encoded_size();
                let ghost next = buffer@.skip(offset + n);
                assert(rem@.skip(n as int) =~= next);
                let ghost tail = seq_decode::<T>(next, (count - i - 1) as nat);
                assert(whole == match tail {
                    None => None,
                    Some(vs) => Some(out@.push(v) + vs),
                }) by {
                    match tail {
                        None => {},
                        Some(vs) => {
                            assert(out@ + (seq![v] + vs) =~= out@.push(v) + vs);
                        },
                    }
                }
                out.push(v);
                offset = offset + n;
                i = i + 1;
            },
        }
    }
    assert(out@ + Seq::<T>::empty() =~= out@);
    Ok(out)
}

} // verus!
