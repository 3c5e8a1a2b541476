//! Little- and big-endian integer encodings and a small field-list layer
//! used by every fixed-size wire structure of the library.
use vstd::prelude::*;
use zerocopy::byteorder::{BigEndian, LittleEndian, U16, U32, U64};

verus! {

/// Little-endian bytes of a 16-bit value.
pub open spec fn le2(n: u16) -> Seq<u8> {
    seq![(n % 256) as u8, (n / 256) as u8]
}

/// Little-endian bytes of a 32-bit value.
pub open spec fn le4(n: u32) -> Seq<u8> {
    seq![(n % 256) as u8, (n / 256 % 256) as u8, (n / 65536 % 256) as u8, (n / 16777216) as u8]
}

/// Little-endian bytes of a 64-bit value.
pub open spec fn le8(n: u64) -> Seq<u8> {
    le4((n % 4294967296) as u32) + le4((n / 4294967296) as u32)
}

/// Big-endian bytes of a 32-bit value.
pub open spec fn be4(n: u32) -> Seq<u8> {
    seq![(n / 16777216) as u8, (n / 65536 % 256) as u8, (n / 256 % 256) as u8, (n % 256) as u8]
}

/// The optional 32-bit value at the end of a message.
pub open spec fn opt_le4(v: Option<u32>) -> Seq<u8> {
    match v {
        Some(x) => le4(x),
        None => Seq::empty(),
    }
}

/// The 16-bit value whose little-endian bytes are `s[0..2]`.
pub open spec fn from_le2(s: Seq<u8>) -> u16 {
    (s[0] + 256 * s[1]) as u16
}

/// The 32-bit value whose little-endian bytes are `s[0..4]`.
pub open spec fn from_le4(s: Seq<u8>) -> u32 {
    (s[0] + 256 * s[1] + 65536 * s[2] + 16777216 * s[3]) as u32
}

/// The 64-bit value whose little-endian bytes are `s[0..8]`.
pub open spec fn from_le8(s: Seq<u8>) -> u64 {
    (from_le4(s) + 4294967296 * from_le4(s.subrange(4, 8))) as u64
}

/// The 32-bit value whose big-endian bytes are `s[0..4]`.
pub open spec fn from_be4(s: Seq<u8>) -> u32 {
    (16777216 * s[0] + 65536 * s[1] + 256 * s[2] + s[3]) as u32
}

pub proof fn lemma_le2(n: u16)
    ensures
        le2(n).len() == 2,
        from_le2(le2(n)) == n,
{
}

pub proof fn lemma_le4(n: u32)
    ensures
        le4(n).len() == 4,
        from_le4(le4(n)) == n,
{
}

pub proof fn lemma_le8(n: u64)
    ensures
        le8(n).len() == 8,
        from_le8(le8(n)) == n,
{
    let lo = (n % 4294967296) as u32;
    let hi = (n / 4294967296) as u32;
    lemma_le4(lo);
    lemma_le4(hi);
    assert(le8(n).subrange(4, 8) =~= le4(hi));
    assert(from_le4(le8(n)) == from_le4(le4(lo)));
}

pub proof fn lemma_be4(n: u32)
    ensures
        be4(n).len() == 4,
        from_be4(be4(n)) == n,
{
}

pub proof fn lemma_from_le2(s: Seq<u8>)
    requires
        s.len() == 2,
    ensures
        le2(from_le2(s)) == s,
{
    assert(le2(from_le2(s)) =~= s);
}

pub proof fn lemma_from_le4(s: Seq<u8>)
    requires
        s.len() == 4,
    ensures
        le4(from_le4(s)) == s,
{
    let (a, b, c, d) = (s[0] as int, s[1] as int, s[2] as int, s[3] as int);
    let n = a + 256 * b + 65536 * c + 16777216 * d;
    assert(n % 256 == a && n / 256 % 256 == b && n / 65536 % 256 == c && n / 16777216 == d)
        by (nonlinear_arith)
        requires
            0 <= a < 256,
            0 <= b < 256,
            0 <= c < 256,
            0 <= d < 256,
            n == a + 256 * b + 65536 * c + 16777216 * d,
    ;
    assert(from_le4(s) == n);
    assert(le4(from_le4(s)) =~= s);
}

pub proof fn lemma_from_le8(s: Seq<u8>)
    requires
        s.len() == 8,
    ensures
        le8(from_le8(s)) == s,
{
    let lo = from_le4(s);
    let hi = from_le4(s.subrange(4, 8));
    let n = from_le8(s);
    assert(n % 4294967296 == lo);
    assert(n / 4294967296 == hi);
    lemma_from_le4(s.subrange(0, 4));
    lemma_from_le4(s.subrange(4, 8));
    assert(from_le4(s.subrange(0, 4)) == lo);
    assert(le8(n) =~= s.subrange(0, 4) + s.subrange(4, 8));
    assert(s.subrange(0, 4) + s.subrange(4, 8) =~= s);
}

/// `zerocopy::byteorder::U16::<LittleEndian>::new(n).to_bytes()`: the
/// little-endian bytes of `n` (zerocopy documents the byte order as fixed,
/// independent of the host).
#[verifier::external_body]
pub(crate) fn u16_to_le(n: u16) -> (b: [u8; 2])
    ensures
        b@ == le2(n),
{
    U16::<LittleEndian>::new(n).to_bytes()
}

/// `zerocopy::byteorder::U16::<LittleEndian>::from_bytes(b).get()`: the value
/// whose little-endian bytes are `b`.
#[verifier::external_body]
pub(crate) fn u16_from_le(b: [u8; 2]) -> (n: u16)
    ensures
        n == from_le2(b@),
{
    U16::<LittleEndian>::from_bytes(b).get()
}

/// `zerocopy::byteorder::U32::<LittleEndian>::new(n).to_bytes()`.
#[verifier::external_body]
pub(crate) fn u32_to_le(n: u32) -> (b: [u8; 4])
    ensures
        b@ == le4(n),
{
    U32::<LittleEndian>::new(n).to_bytes()
}

/// `zerocopy::byteorder::U32::<LittleEndian>::from_bytes(b).get()`.
#[verifier::external_body]
pub(crate) fn u32_from_le(b: [u8; 4]) -> (n: u32)
    ensures
        n == from_le4(b@),
{
    U32::<LittleEndian>::from_bytes(b).get()
}

/// `zerocopy::byteorder::U64::<LittleEndian>::new(n).to_bytes()`.
#[verifier::external_body]
pub(crate) fn u64_to_le(n: u64) -> (b: [u8; 8])
    ensures
        b@ == le8(n),
{
    U64::<LittleEndian>::new(n).to_bytes()
}

/// `zerocopy::byteorder::U64::<LittleEndian>::from_bytes(b).get()`.
#[verifier::external_body]
pub(crate) fn u64_from_le(b: [u8; 8]) -> (n: u64)
    ensures
        n == from_le8(b@),
{
    U64::<LittleEndian>::from_bytes(b).get()
}

/// `zerocopy::byteorder::U32::<BigEndian>::new(n).to_bytes()`.
#[verifier::external_body]
pub(crate) fn u32_to_be(n: u32) -> (b: [u8; 4])
    ensures
        b@ == be4(n),
{
    U32::<BigEndian>::new(n).to_bytes()
}

/// `zerocopy::byteorder::U32::<BigEndian>::from_bytes(b).get()`.
#[verifier::external_body]
pub(crate) fn u32_from_be(b: [u8; 4]) -> (n: u32)
    ensures
        n == from_be4(b@),
{
    U32::<BigEndian>::from_bytes(b).get()
}

/// One integer field of a packed wire structure.
#[derive(Debug, Clone, Copy, PartialEq, Eq, Structural)]
pub enum Field {
    U8(u8),
    U16(u16),
    U32(u32),
    U64(u64),
}

/// Size in bytes of a field.
pub open spec fn field_width(f: Field) -> nat {
    match f {
        Field::U8(_) => 1,
        Field::U16(_) => 2,
        Field::U32(_) => 4,
        Field::U64(_) => 8,
    }
}

/// Little-endian bytes of a field.
pub open spec fn field_bytes(f: Field) -> Seq<u8> {
    match f {
        Field::U8(b) => seq![b],
        Field::U16(v) => le2(v),
        Field::U32(v) => le4(v),
        Field::U64(v) => le8(v),
    }
}

/// The bytes of a list of fields laid out one after the other.
pub open spec fn fields_bytes(fs: Seq<Field>) -> Seq<u8>
    decreases fs.len(),
{
    if fs.len() == 0 {
        Seq::empty()
    } else {
        fields_bytes(fs.drop_last()) + field_bytes(fs.last())
    }
}

/// A layout is a list of field widths, each 1, 2, 4 or 8.
pub open spec fn valid_layout(ws: Seq<u8>) -> bool {
    forall|i: int| 0 <= i < ws.len() ==> (ws[i] == 1 || ws[i] == 2 || ws[i] == 4 || ws[i] == 8)
}

/// Total size of a layout.
pub open spec fn layout_size(ws: Seq<u8>) -> nat
    decreases ws.len(),
{
    if ws.len() == 0 {
        0
    } else {
        layout_size(ws.drop_last()) + ws.last() as nat
    }
}

/// The field of width `w` whose bytes are the first `w` bytes of `s`.
pub open spec fn parse_field(w: u8, s: Seq<u8>) -> Field {
    if w == 1 {
        Field::U8(s[0])
    } else if w == 2 {
        Field::U16(from_le2(s))
    } else if w == 4 {
        Field::U32(from_le4(s))
    } else {
        Field::U64(from_le8(s))
    }
}

/// Reads the fields of layout `ws` from the front of `s`.
pub open spec fn parse_fields(ws: Seq<u8>, s: Seq<u8>) -> Seq<Field>
    decreases ws.len(),
{
    if ws.len() == 0 {
        Seq::empty()
    } else {
        parse_fields(ws.drop_last(), s).push(
            parse_field(ws.last(), s.subrange(layout_size(ws.drop_last()) as int, layout_size(ws) as int)),
        )
    }
}

/// The fields have the widths of the layout.
pub open spec fn fits_layout(fs: Seq<Field>, ws: Seq<u8>) -> bool {
    &&& fs.len() == ws.len()
    &&& forall|i: int| 0 <= i < fs.len() ==> field_width(#[trigger] fs[i]) == ws[i] as nat
}

/// The field list of the widths `ws`: what any value of a layout is made of.
pub open spec fn fv8(f: Field) -> u8 {
    match f {
        Field::U8(v) => v,
        _ => 0,
    }
}

pub open spec fn fv16(f: Field) -> u16 {
    match f {
        Field::U16(v) => v,
        _ => 0,
    }
}

pub open spec fn fv32(f: Field) -> u32 {
    match f {
        Field::U32(v) => v,
        _ => 0,
    }
}

pub open spec fn fv64(f: Field) -> u64 {
    match f {
        Field::U64(v) => v,
        _ => 0,
    }
}

pub proof fn lemma_field_bytes(f: Field)
    ensures
        field_bytes(f).len() == field_width(f),
        parse_field(field_width(f) as u8, field_bytes(f)) == f,
{
    match f {
        Field::U8(b) => {},
        Field::U16(v) => lemma_le2(v),
        Field::U32(v) => lemma_le4(v),
        Field::U64(v) => lemma_le8(v),
    }
}

pub proof fn lemma_parse_field(w: u8, s: Seq<u8>)
    requires
        w == 1 || w == 2 || w == 4 || w == 8,
        s.len() == w,
    ensures
        field_width(parse_field(w, s)) == w,
        field_bytes(parse_field(w, s)) == s,
{
    if w == 1 {
        assert(seq![s[0]] =~= s);
    } else if w == 2 {
        lemma_from_le2(s);
    } else if w == 4 {
        lemma_from_le4(s);
    } else {
        lemma_from_le8(s);
    }
}

/// Laying fields out and reading them back with their own layout gives the
/// same fields, whatever follows them.
pub proof fn lemma_fields_roundtrip(fs: Seq<Field>, ws: Seq<u8>, rest: Seq<u8>)
    requires
        fits_layout(fs, ws),
    ensures
        fields_bytes(fs).len() == layout_size(ws),
        parse_fields(ws, fields_bytes(fs) + rest) == fs,
    decreases fs.len(),
{
    if fs.len() > 0 {
        let init = fs.drop_last();
        let wi = ws.drop_last();
        let last = fs.last();
        assert(fits_layout(init, wi)) by {
            assert forall|i: int| 0 <= i < init.len() implies field_width(#[trigger] init[i]) == wi[i] as nat by {
                assert(init[i] == fs[i]);
            }
        }
        lemma_field_bytes(last);
        assert(field_width(fs[fs.len() - 1]) == ws[ws.len() - 1] as nat);
        let tail = field_bytes(last) + rest;
        lemma_fields_roundtrip(init, wi, tail);
        let all = fields_bytes(fs) + rest;
        assert(all =~= fields_bytes(init) + tail);
        let lo = layout_size(wi) as int;
        let hi = layout_size(ws) as int;
        assert(all.subrange(lo, hi) =~= field_bytes(last));
        assert(parse_fields(ws, all) =~= init.push(last));
        assert(init.push(last) =~= fs);
    }
}

/// Reading a layout from enough bytes gives fields of that layout, whose
/// bytes are exactly the bytes read.
pub proof fn lemma_parse_fields(ws: Seq<u8>, s: Seq<u8>)
    requires
        valid_layout(ws),
        s.len() >= layout_size(ws),
    ensures
        fits_layout(parse_fields(ws, s), ws),
        fields_bytes(parse_fields(ws, s)) == s.subrange(0, layout_size(ws) as int),
    decreases ws.len(),
{
    if ws.len() > 0 {
        let wi = ws.drop_last();
        assert(valid_layout(wi)) by {
            assert forall|i: int| 0 <= i < wi.len() implies (wi[i] == 1 || wi[i] == 2 || wi[i] == 4 || wi[i] == 8) by {
                assert(wi[i] == ws[i]);
            }
        }
        lemma_parse_fields(wi, s);
        let lo = layout_size(wi) as int;
        let hi = layout_size(ws) as int;
        let w = ws.last();
        assert(w == ws[ws.len() - 1]);
        lemma_parse_field(w, s.subrange(lo, hi));
        let p = parse_fields(ws, s);
        let pi = parse_fields(wi, s);
        assert(p.drop_last() =~= pi);
        assert(fields_bytes(p) == fields_bytes(pi) + field_bytes(p.last()));
        assert(s.subrange(0, lo) + s.subrange(lo, hi) =~= s.subrange(0, hi));
        assert forall|i: int| 0 <= i < p.len() implies field_width(#[trigger] p[i]) == ws[i] as nat by {
            if i < pi.len() {
                assert(p[i] == pi[i]);
            }
        }
    }
}

pub proof fn lemma_layout_size_bound(ws: Seq<u8>)
    requires
        valid_layout(ws),
    ensures
        layout_size(ws) <= 8 * ws.len(),
    decreases ws.len(),
{
    if ws.len() > 0 {
        let wi = ws.drop_last();
        assert(valid_layout(wi)) by {
            assert forall|i: int| 0 <= i < wi.len() implies (wi[i] == 1 || wi[i] == 2 || wi[i] == 4 || wi[i] == 8) by {
                assert(wi[i] == ws[i]);
            }
        }
        lemma_layout_size_bound(wi);
        assert(ws.last() == ws[ws.len() - 1]);
    }
}

/// What `encode` promises of a buffer: an error when it is shorter than the
/// size the message declares (buffer unchanged), otherwise the encoding
/// written at its start and the rest untouched.
pub open spec fn encoded_into(
    enc: Seq<u8>,
    required: nat,
    before: Seq<u8>,
    after: Seq<u8>,
    r: Result<usize, crate::pldm::codec::PldmCodecError>,
) -> bool {
    &&& after.len() == before.len()
    &&& match r {
        Ok(n) => {
            &&& before.len() >= required
            &&& n == enc.len()
            &&& n <= before.len()
            &&& after == enc + before.subrange(n as int, before.len() as int)
        },
        Err(e) => {
            &&& e == crate::pldm::codec::PldmCodecError::BufferTooShort
            &&& before.len() < required
            &&& after == before
        },
    }
}

/// Writes `data` at `off` in `buf`.
pub fn write_bytes(buf: &mut [u8], off: usize, data: &[u8])
    requires
        off + data@.len() <= old(buf)@.len(),
    ensures
        final(buf)@ == old(buf)@.subrange(0, off as int) + data@ + old(buf)@.subrange(
            off + data@.len(),
            old(buf)@.len() as int,
        ),
{
    let ghost b0 = buf@;
    let blen = buf.len();
    let mut i: usize = 0;
    while i < data.len()
        invariant
            b0.len() == blen as int,
            i <= data@.len(),
            off + data@.len() <= b0.len(),
            buf@.len() == b0.len(),
            buf@ == b0.subrange(0, off as int) + data@.subrange(0, i as int) + b0.subrange(
                off + i,
                b0.len() as int,
            ),
        decreases data@.len() - i,
    {
        let ghost prev = buf@;
        buf[off + i] = data[i];
        assert(buf@ =~= b0.subrange(0, off as int) + data@.subrange(0, i + 1) + b0.subrange(
            off + i + 1,
            b0.len() as int,
        ));
        i = i + 1;
    }
    assert(data@.subrange(0, data@.len() as int) =~= data@);
}

/// Copies `buf[off..off + n]` into a new vector.
pub fn read_bytes(buf: &[u8], off: usize, n: usize) -> (r: Vec<u8>)
    requires
        off + n <= buf@.len(),
    ensures
        r@ == buf@.subrange(off as int, off + n),
{
    let mut v: Vec<u8> = Vec::new();
    let blen = buf.len();
    let mut i: usize = 0;
    while i < n
        invariant
            buf@.len() == blen as int,
            i <= n,
            off + n <= buf@.len(),
            v@ == buf@.subrange(off as int, off + i),
        decreases n - i,
    {
        v.push(buf[off + i]);
        assert(v@ =~= buf@.subrange(off as int, off + i + 1));
        i = i + 1;
    }
    v
}

/// The bytes of one field.
fn field_to_vec(f: Field) -> (r: Vec<u8>)
    ensures
        r@ == field_bytes(f),
{
    match f {
        Field::U8(b) => {
            let mut v = Vec::new();
            v.push(b);
            assert(v@ =~= seq![b]);
            v
        },
        Field::U16(x) => {
            let b = u16_to_le(x);
            let v = vec![b[0], b[1]];
            assert(v@ =~= b@);
            v
        },
        Field::U32(x) => {
            let b = u32_to_le(x);
            let v = vec![b[0], b[1], b[2], b[3]];
            assert(v@ =~= b@);
            v
        },
        Field::U64(x) => {
            let b = u64_to_le(x);
            let v = vec![b[0], b[1], b[2], b[3], b[4], b[5], b[6], b[7]];
            assert(v@ =~= b@);
            v
        },
    }
}

/// Lays a list of fields out into one byte vector.
pub fn fields_to_vec(fs: &Vec<Field>) -> (r: Vec<u8>)
    ensures
        r@ == fields_bytes(fs@),
{
    let mut out: Vec<u8> = Vec::new();
    let mut i: usize = 0;
    while i < fs.len()
        invariant
            i <= fs@.len(),
            out@ == fields_bytes(fs@.subrange(0, i as int)),
        decreases fs@.len() - i,
    {
        let b = field_to_vec(fs[i]);
        let ghost prev = out@;
        let mut j: usize = 0;
        while j < b.len()
            invariant
                j <= b@.len(),
                out@ == prev + b@.subrange(0, j as int),
            decreases b@.len() - j,
        {
            out.push(b[j]);
            assert(out@ =~= prev + b@.subrange(0, j + 1));
            j = j + 1;
        }
        assert(b@.subrange(0, b@.len() as int) =~= b@);
        assert(fs@.subrange(0, i + 1).drop_last() =~= fs@.subrange(0, i as int));
        i = i + 1;
    }
    assert(fs@.subrange(0, fs@.len() as int) =~= fs@);
    out
}

/// Writes `data` at the start of `buffer` when it fits, with the contract of
/// every `encode` of the library.
pub fn put_encoding(data: &Vec<u8>, required: usize, buffer: &mut [u8]) -> (r: Result<
    usize,
    crate::pldm::codec::PldmCodecError,
>)
    requires
        old(buffer)@.len() >= required ==> old(buffer)@.len() >= data@.len(),
    ensures
        encoded_into(data@, required as nat, old(buffer)@, final(buffer)@, r),
{
    if buffer.len() < required {
        return Err(crate::pldm::codec::PldmCodecError::BufferTooShort);
    }
    let ghost b0 = buffer@;
    write_bytes(buffer, 0, data.as_slice());
    assert(b0.subrange(0, 0) + data@ =~= data@);
    Ok(data.len())
}

/// Reads the field of width `w` at `off`.
fn read_field(buf: &[u8], off: usize, w: u8) -> (r: Field)
    requires
        w == 1 || w == 2 || w == 4 || w == 8,
        off + w <= buf@.len(),
    ensures
        r == parse_field(w, buf@.subrange(off as int, off + w)),
{
    let ghost s = buf@.subrange(off as int, off + w);
    if w == 1 {
        Field::U8(buf[off])
    } else if w == 2 {
        let b: [u8; 2] = [buf[off], buf[off + 1]];
        assert(b@ =~= s);
        Field::U16(u16_from_le(b))
    } else if w == 4 {
        let b: [u8; 4] = [buf[off], buf[off + 1], buf[off + 2], buf[off + 3]];
        assert(b@ =~= s);
        Field::U32(u32_from_le(b))
    } else {
        let b: [u8; 8] = [
            buf[off],
            buf[off + 1],
            buf[off + 2],
            buf[off + 3],
            buf[off + 4],
            buf[off + 5],
            buf[off + 6],
            buf[off + 7],
        ];
        assert(b@ =~= s);
        assert(b@.subrange(4, 8) =~= s.subrange(4, 8));
        Field::U64(u64_from_le(b))
    }
}

/// Reads the fields of layout `ws` from the start of `buf`, or fails when
/// `buf` is shorter than the layout.
pub fn read_fields(buf: &[u8], ws: &[u8]) -> (r: Option<Vec<Field>>)
    requires
        valid_layout(ws@),
        ws@.len() <= 4096,
    ensures
        match r {
            Some(fs) => buf@.len() >= layout_size(ws@) && fs@ == parse_fields(ws@, buf@),
            None => buf@.len() < layout_size(ws@),
        },
{
    proof {
        lemma_layout_size_bound(ws@);
    }
    let mut out: Vec<Field> = Vec::new();
    let mut off: usize = 0;
    let mut i: usize = 0;
    while i < ws.len()
        invariant
            i <= ws@.len(),
            ws@.len() <= 4096,
            valid_layout(ws@),
            layout_size(ws@) <= 8 * ws@.len(),
            off == layout_size(ws@.subrange(0, i as int)),
            off <= buf@.len(),
            out@ == parse_fields(ws@.subrange(0, i as int), buf@),
        decreases ws@.len() - i,
    {
        let w = ws[i];
        let ghost pre = ws@.subrange(0, i as int);
        let ghost nxt = ws@.subrange(0, i + 1);
        assert(nxt.drop_last() =~= pre);
        assert(valid_layout(nxt)) by {
            assert forall|k: int| 0 <= k < nxt.len() implies (nxt[k] == 1 || nxt[k] == 2 || nxt[k] == 4 || nxt[k] == 8) by {
                assert(nxt[k] == ws@[k]);
            }
        }
        proof {
            lemma_layout_size_bound(nxt);
        }
        if buf.len() - off < w as usize {
            assert(nxt.last() == w);
            proof {
                lemma_layout_prefix_le(ws@, i + 1);
            }
            return None;
        }
        assert(nxt.last() == w);
        let f = read_field(buf, off, w);
        out.push(f);
        off = off + w as usize;
        i = i + 1;
    }
    assert(ws@.subrange(0, ws@.len() as int) =~= ws@);
    Some(out)
}

/// A prefix of a layout is no larger than the layout.
pub proof fn lemma_layout_prefix_le(ws: Seq<u8>, k: int)
    requires
        0 <= k <= ws.len(),
    ensures
        layout_size(ws.subrange(0, k)) <= layout_size(ws),
    decreases ws.len(),
{
    if k < ws.len() {
        let wi = ws.drop_last();
        assert(wi.subrange(0, k) =~= ws.subrange(0, k));
        lemma_layout_prefix_le(wi, k);
    } else {
        assert(ws.subrange(0, k) =~= ws);
    }
}

pub fn get_u8(f: &Field) -> (r: u8)
    ensures
        r == fv8(*f),
{
    match f {
        Field::U8(v) => *v,
        _ => 0,
    }
}

pub fn get_u16(f: &Field) -> (r: u16)
    ensures
        r == fv16(*f),
{
    match f {
        Field::U16(v) => *v,
        _ => 0,
    }
}

pub fn get_u32(f: &Field) -> (r: u32)
    ensures
        r == fv32(*f),
{
    match f {
        Field::U32(v) => *v,
        _ => 0,
    }
}

pub fn get_u64(f: &Field) -> (r: u64)
    ensures
        r == fv64(*f),
{
    match f {
        Field::U64(v) => *v,
        _ => 0,
    }
}

} // verus!

verus! {

/// `n` zero bytes.
pub open spec fn zeros(n: nat) -> Seq<u8> {
    Seq::new(n, |i: int| 0u8)
}

/// The array whose bytes are `s` (`s` has the array's length).
pub open spec fn array_of<const N: usize>(s: Seq<u8>) -> [u8; N] {
    choose|a: [u8; N]| a@ == s
}

pub proof fn lemma_array_of<const N: usize>(a: [u8; N])
    ensures
        array_of::<N>(a@) == a,
{
    let b = array_of::<N>(a@);
    assert(b@ == a@);
    assert(b =~= a);
}

/// An array of `N` bytes holding `src` followed by zeros.
pub fn pad_copy<const N: usize>(src: &[u8]) -> (r: [u8; N])
    requires
        src@.len() <= N,
    ensures
        r@ == src@ + zeros((N - src@.len()) as nat),
{
    let mut arr = [0u8; N];
    proof {
        vstd::array::axiom_spec_array_fill_for_copy_type::<u8, N>(0u8);
    }
    let mut i: usize = 0;
    while i < src.len()
        invariant
            src@.len() <= N,
            i <= src@.len(),
            arr@.len() == N,
            forall|k: int| 0 <= k < i ==> arr@[k] == src@[k],
            forall|k: int| i <= k < N ==> arr@[k] == 0u8,
        decreases src@.len() - i,
    {
        arr[i] = src[i];
        i = i + 1;
    }
    assert(arr@ =~= src@ + zeros((N - src@.len()) as nat));
    arr
}

/// The first `n` bytes of an array.
pub fn prefix_vec<const N: usize>(a: &[u8; N], n: usize) -> (r: Vec<u8>)
    requires
        n <= N,
    ensures
        r@ == a@.subrange(0, n as int),
{
    read_bytes(a.as_slice(), 0, n)
}

/// Byte-wise equality of two slices.
pub fn bytes_eq(a: &[u8], b: &[u8]) -> (r: bool)
    ensures
        r == (a@ == b@),
{
    if a.len() != b.len() {
        return false;
    }
    let mut i: usize = 0;
    while i < a.len()
        invariant
            a@.len() == b@.len(),
            i <= a@.len(),
            forall|k: int| 0 <= k < i ==> a@[k] == b@[k],
        decreases a@.len() - i,
    {
        if a[i] != b[i] {
            return false;
        }
        i = i + 1;
    }
    assert(a@ =~= b@);
    true
}

} // verus!

verus! {

/// Appends `s` to `v`.
pub fn append_bytes(v: &mut Vec<u8>, s: &[u8])
    ensures
        final(v)@ == old(v)@ + s@,
{
    let ghost v0 = v@;
    let mut i: usize = 0;
    while i < s.len()
        invariant
            i <= s@.len(),
            v@ == v0 + s@.subrange(0, i as int),
        decreases s@.len() - i,
    {
        v.push(s[i]);
        assert(v@ =~= v0 + s@.subrange(0, i + 1));
        i = i + 1;
    }
    assert(s@.subrange(0, s@.len() as int) =~= s@);
}

/// Appends the little-endian bytes of a 16-bit value.
pub fn push_u16(v: &mut Vec<u8>, x: u16)
    ensures
        final(v)@ == old(v)@ + le2(x),
{
    let b = u16_to_le(x);
    append_bytes(v, &b);
}

/// Appends the little-endian bytes of a 32-bit value.
pub fn push_u32(v: &mut Vec<u8>, x: u32)
    ensures
        final(v)@ == old(v)@ + le4(x),
{
    let b = u32_to_le(x);
    append_bytes(v, &b);
}

/// The 16-bit value stored little-endian at `off`.
pub fn read_u16(buf: &[u8], off: usize) -> (r: u16)
    requires
        off + 2 <= buf@.len(),
    ensures
        r == from_le2(buf@.subrange(off as int, off + 2)),
{
    let b: [u8; 2] = [buf[off], buf[off + 1]];
    assert(b@ =~= buf@.subrange(off as int, off + 2));
    u16_from_le(b)
}

/// The 32-bit value stored little-endian at `off`.
pub fn read_u32(buf: &[u8], off: usize) -> (r: u32)
    requires
        off + 4 <= buf@.len(),
    ensures
        r == from_le4(buf@.subrange(off as int, off + 4)),
{
    let b: [u8; 4] = [buf[off], buf[off + 1], buf[off + 2], buf[off + 3]];
    assert(b@ =~= buf@.subrange(off as int, off + 4));
    u32_from_le(b)
}

} // verus!

verus! {

/// The array whose elements are `s` (`s` has the array's length).
pub open spec fn array_from<T, const N: usize>(s: Seq<T>) -> [T; N] {
    choose|a: [T; N]| a@ == s
}

pub proof fn lemma_array_from<T, const N: usize>(a: [T; N])
    ensures
        array_from::<T, N>(a@) == a,
{
    let b = array_from::<T, N>(a@);
    assert(b@ == a@);
    assert(b =~= a);
}

} // verus!
