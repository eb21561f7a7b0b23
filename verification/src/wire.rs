//! Big-endian byte encodings of the fixed-width integers used on the wire,
//! and the length-prefixed byte-field encoding shared by message bodies.

use vstd::prelude::*;

verus! {

/// Big-endian two-byte encoding of a `u16`.
pub open spec fn spec_u16_to_be_bytes(x: u16) -> Seq<u8> {
    seq![((x >> 8) & 0xff) as u8, (x & 0xff) as u8]
}

/// The `u16` denoted by two big-endian bytes.
pub open spec fn spec_u16_from_be_bytes(s: Seq<u8>) -> u16
    recommends
        s.len() == 2,
{
    (s[0] as u16) << 8 | (s[1] as u16)
}

pub proof fn lemma_u16_be_bytes(x: u16)
    ensures
        spec_u16_to_be_bytes(x).len() == 2,
        spec_u16_from_be_bytes(spec_u16_to_be_bytes(x)) == x,
{
    assert((x >> 8) & 0xff < 256 && x & 0xff < 256) by (bit_vector);
    assert(x == ((((x >> 8) & 0xff) as u8) as u16) << 8 | (((x & 0xff) as u8) as u16))
        by (bit_vector);
}

/// Big-endian four-byte encoding of a `u32`.
pub open spec fn spec_u32_to_be_bytes(x: u32) -> Seq<u8> {
    seq![
        ((x >> 24) & 0xff) as u8,
        ((x >> 16) & 0xff) as u8,
        ((x >> 8) & 0xff) as u8,
        (x & 0xff) as u8,
    ]
}

/// The `u32` denoted by four big-endian bytes.
pub open spec fn spec_u32_from_be_bytes(s: Seq<u8>) -> u32
    recommends
        s.len() == 4,
{
    (s[0] as u32) << 24 | (s[1] as u32) << 16 | (s[2] as u32) << 8 | (s[3] as u32)
}

pub proof fn lemma_u32_be_bytes(x: u32)
    ensures
        spec_u32_to_be_bytes(x).len() == 4,
        spec_u32_from_be_bytes(spec_u32_to_be_bytes(x)) == x,
{
    assert((x >> 24) & 0xff < 256 && (x >> 16) & 0xff < 256 && (x >> 8) & 0xff < 256 && x & 0xff
        < 256) by (bit_vector);
    assert(x == ((((x >> 24) & 0xff) as u8) as u32) << 24 | ((((x >> 16) & 0xff) as u8) as u32)
        << 16 | ((((x >> 8) & 0xff) as u8) as u32) << 8 | (((x & 0xff) as u8) as u32))
        by (bit_vector);
}

/// Big-endian eight-byte encoding of a `u64`.
pub open spec fn spec_u64_to_be_bytes(x: u64) -> Seq<u8> {
    seq![
        ((x >> 56) & 0xff) as u8,
        ((x >> 48) & 0xff) as u8,
        ((x >> 40) & 0xff) as u8,
        ((x >> 32) & 0xff) as u8,
        ((x >> 24) & 0xff) as u8,
        ((x >> 16) & 0xff) as u8,
        ((x >> 8) & 0xff) as u8,
        (x & 0xff) as u8,
    ]
}

/// The `u64` denoted by eight big-endian bytes.
pub open spec fn spec_u64_from_be_bytes(s: Seq<u8>) -> u64
    recommends
        s.len() == 8,
{
    (s[0] as u64) << 56 | (s[1] as u64) << 48 | (s[2] as u64) << 40 | (s[3] as u64) << 32 | (
    s[4] as u64) << 24 | (s[5] as u64) << 16 | (s[6] as u64) << 8 | (s[7] as u64)
}

pub proof fn lemma_u64_be_bytes(x: u64)
    ensures
        spec_u64_to_be_bytes(x).len() == 8,
        spec_u64_from_be_bytes(spec_u64_to_be_bytes(x)) == x,
{
    assert((x >> 56) & 0xff < 256 && (x >> 48) & 0xff < 256 && (x >> 40) & 0xff < 256 && (x >> 32)
        & 0xff < 256 && (x >> 24) & 0xff < 256 && (x >> 16) & 0xff < 256 && (x >> 8) & 0xff < 256
        && x & 0xff < 256) by (bit_vector);
    assert(x == ((((x >> 56) & 0xff) as u8) as u64) << 56 | ((((x >> 48) & 0xff) as u8) as u64)
        << 48 | ((((x >> 40) & 0xff) as u8) as u64) << 40 | ((((x >> 32) & 0xff) as u8) as u64)
        << 32 | ((((x >> 24) & 0xff) as u8) as u64) << 24 | ((((x >> 16) & 0xff) as u8) as u64)
        << 16 | ((((x >> 8) & 0xff) as u8) as u64) << 8 | (((x & 0xff) as u8) as u64))
        by (bit_vector);
}

/// Appends the big-endian encoding of a `u16`.
pub fn put_u16(out: &mut Vec<u8>, x: u16)
    ensures
        final(out)@ == old(out)@ + spec_u16_to_be_bytes(x),
{
    proof {
        assert((x >> 8) & 0xff < 256 && x & 0xff < 256) by (bit_vector);
    }
    out.push(((x >> 8) & 0xff) as u8);
    out.push((x & 0xff) as u8);
    assert(out@ =~= old(out)@ + spec_u16_to_be_bytes(x));
}

/// Appends the big-endian encoding of a `u32`.
pub fn put_u32(out: &mut Vec<u8>, x: u32)
    ensures
        final(out)@ == old(out)@ + spec_u32_to_be_bytes(x),
{
    proof {
        assert((x >> 24) & 0xff < 256 && (x >> 16) & 0xff < 256 && (x >> 8) & 0xff < 256 && x
            & 0xff < 256) by (bit_vector);
    }
    out.push(((x >> 24) & 0xff) as u8);
    out.push(((x >> 16) & 0xff) as u8);
    out.push(((x >> 8) & 0xff) as u8);
    out.push((x & 0xff) as u8);
    assert(out@ =~= old(out)@ + spec_u32_to_be_bytes(x));
}

/// Appends the big-endian encoding of a `u64`.
pub fn put_u64(out: &mut Vec<u8>, x: u64)
    ensures
        final(out)@ == old(out)@ + spec_u64_to_be_bytes(x),
{
    proof {
        assert((x >> 56) & 0xff < 256 && (x >> 48) & 0xff < 256 && (x >> 40) & 0xff < 256 && (x
            >> 32) & 0xff < 256 && (x >> 24) & 0xff < 256 && (x >> 16) & 0xff < 256 && (x >> 8)
            & 0xff < 256 && x & 0xff < 256) by (bit_vector);
    }
    out.push(((x >> 56) & 0xff) as u8);
    out.push(((x >> 48) & 0xff) as u8);
    out.push(((x >> 40) & 0xff) as u8);
    out.push(((x >> 32) & 0xff) as u8);
    out.push(((x >> 24) & 0xff) as u8);
    out.push(((x >> 16) & 0xff) as u8);
    out.push(((x >> 8) & 0xff) as u8);
    out.push((x & 0xff) as u8);
    assert(out@ =~= old(out)@ + spec_u64_to_be_bytes(x));
}

/// Reads a big-endian `u16` at position `pos`.
pub fn get_u16(buf: &[u8], pos: usize) -> (r: u16)
    requires
        pos + 2 <= buf@.len(),
    ensures
        r == spec_u16_from_be_bytes(buf@.subrange(pos as int, pos + 2)),
{
    let b0 = buf[pos];
    let b1 = buf[pos + 1];
    proof {
        let s = buf@.subrange(pos as int, pos + 2);
        assert(s[0] == b0 && s[1] == b1);
    }
    (b0 as u16) << 8 | (b1 as u16)
}

/// Reads a big-endian `u32` at position `pos`.
pub fn get_u32(buf: &[u8], pos: usize) -> (r: u32)
    requires
        pos + 4 <= buf@.len(),
    ensures
        r == spec_u32_from_be_bytes(buf@.subrange(pos as int, pos + 4)),
{
    let b0 = buf[pos];
    let b1 = buf[pos + 1];
    let b2 = buf[pos + 2];
    let b3 = buf[pos + 3];
    proof {
        let s = buf@.subrange(pos as int, pos + 4);
        assert(s[0] == b0 && s[1] == b1 && s[2] == b2 && s[3] == b3);
    }
    (b0 as u32) << 24 | (b1 as u32) << 16 | (b2 as u32) << 8 | (b3 as u32)
}

/// Reads a big-endian `u64` at position `pos`.
pub fn get_u64(buf: &[u8], pos: usize) -> (r: u64)
    requires
        pos + 8 <= buf@.len(),
    ensures
        r == spec_u64_from_be_bytes(buf@.subrange(pos as int, pos + 8)),
{
    let b0 = buf[pos];
    let b1 = buf[pos + 1];
    let b2 = buf[pos + 2];
    let b3 = buf[pos + 3];
    let b4 = buf[pos + 4];
    let b5 = buf[pos + 5];
    let b6 = buf[pos + 6];
    let b7 = buf[pos + 7];
    proof {
        let s = buf@.subrange(pos as int, pos + 8);
        assert(s[0] == b0 && s[1] == b1 && s[2] == b2 && s[3] == b3 && s[4] == b4 && s[5] == b5
            && s[6] == b6 && s[7] == b7);
    }
    (b0 as u64) << 56 | (b1 as u64) << 48 | (b2 as u64) << 40 | (b3 as u64) << 32 | (b4 as u64)
        << 24 | (b5 as u64) << 16 | (b6 as u64) << 8 | (b7 as u64)
}

/// A byte field on the wire: a big-endian `u16` byte count, then the bytes.
pub open spec fn spec_lp_bytes(field: Seq<u8>) -> Seq<u8>
    recommends
        field.len() <= 0xffff,
{
    spec_u16_to_be_bytes(field.len() as u16) + field
}

/// The bytes of the length-prefixed field read at `pos`, with the declared
/// count clamped to the bytes actually available.
pub open spec fn spec_lp_field(b: Seq<u8>, pos: int) -> Seq<u8>
    recommends
        0 <= pos,
        pos + 2 <= b.len(),
{
    let declared = spec_u16_from_be_bytes(b.subrange(pos, pos + 2)) as int;
    let l = vstd::math::min(declared, b.len() - pos - 2);
    b.subrange(pos + 2, pos + 2 + l)
}

/// The position just past the length-prefixed field read at `pos`.
pub open spec fn spec_lp_end(b: Seq<u8>, pos: int) -> int
    recommends
        0 <= pos,
        pos + 2 <= b.len(),
{
    let declared = spec_u16_from_be_bytes(b.subrange(pos, pos + 2)) as int;
    pos + 2 + vstd::math::min(declared, b.len() - pos - 2)
}

/// A length-prefixed field embedded in a larger buffer reads back exactly,
/// wherever it stands and whatever follows it.
pub proof fn lemma_lp_round_trip(prefix: Seq<u8>, field: Seq<u8>, suffix: Seq<u8>)
    requires
        field.len() <= 0xffff,
    ensures
        ({
            let b = prefix + spec_lp_bytes(field) + suffix;
            &&& spec_lp_field(b, prefix.len() as int) == field
            &&& spec_lp_end(b, prefix.len() as int) == prefix.len() + 2 + field.len()
        }),
{
    let b = prefix + spec_lp_bytes(field) + suffix;
    let pos = prefix.len() as int;
    lemma_u16_be_bytes(field.len() as u16);
    assert(b.subrange(pos, pos + 2) =~= spec_u16_to_be_bytes(field.len() as u16));
    let declared = spec_u16_from_be_bytes(b.subrange(pos, pos + 2)) as int;
    assert(declared == field.len());
    assert(b.subrange(pos + 2, pos + 2 + field.len()) =~= field);
}

/// Appends a length-prefixed byte field.
pub fn put_lp(out: &mut Vec<u8>, field: &[u8])
    requires
        field@.len() <= 0xffff,
    ensures
        final(out)@ == old(out)@ + spec_lp_bytes(field@),
{
    put_u16(out, field.len() as u16);
    let mut i: usize = 0;
    let n = field.len();
    while i < n
        invariant
            n == field@.len(),
            i <= n,
            out@ == old(out)@ + spec_u16_to_be_bytes(n as u16) + field@.take(i as int),
        decreases n - i,
    {
        out.push(field[i]);
        proof {
            assert(old(out)@ + spec_u16_to_be_bytes(n as u16) + field@.take(i as int)
                + seq![field@[i as int]] =~= old(out)@ + spec_u16_to_be_bytes(n as u16)
                + field@.take(i + 1));
        }
        i = i + 1;
    }
    proof {
        assert(field@.take(n as int) =~= field@);
        assert(out@ =~= old(out)@ + spec_lp_bytes(field@));
    }
}

/// Reads a length-prefixed byte field at `pos`, clamping the declared count
/// to the bytes actually available; returns the field and the next position.
pub fn get_lp(buf: &[u8], pos: usize) -> (r: (Vec<u8>, usize))
    requires
        pos + 2 <= buf@.len(),
    ensures
        r.0@ == spec_lp_field(buf@, pos as int),
        r.1 == spec_lp_end(buf@, pos as int),
        pos + 2 <= r.1 <= buf@.len(),
{
    let declared = get_u16(buf, pos) as usize;
    let blen = buf.len();
    let avail = blen - pos - 2;
    let l = if declared < avail {
        declared
    } else {
        avail
    };
    let base = pos + 2;
    let mut field: Vec<u8> = Vec::new();
    let mut i: usize = 0;
    while i < l
        invariant
            base == pos + 2,
            blen == buf@.len(),
            base + l <= blen,
            i <= l,
            field@ == buf@.subrange(pos + 2, pos + 2 + i),
        decreases l - i,
    {
        field.push(buf[base + i]);
        proof {
            assert(buf@.subrange(pos + 2, pos + 2 + i) + seq![buf@[base + i]] =~= buf@.subrange(
                pos + 2,
                pos + 2 + i + 1,
            ));
        }
        i = i + 1;
    }
    proof {
        assert(field@ =~= spec_lp_field(buf@, pos as int));
    }
    (field, pos + 2 + l)
}

} // verus!
