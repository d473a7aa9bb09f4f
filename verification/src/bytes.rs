//! Little-endian encodings of the fixed-width values that the interpreter
//! moves between byte buffers, operands and registers.
//!
//! The encodings are stated arithmetically (base 256 digits), so that the
//! default solver can reason about them without bit-vector proofs.

use byteorder::{LittleEndian, ReadBytesExt};
use vstd::prelude::*;

verus! {

/// The value of two bytes read as a little-endian unsigned integer.
pub open spec fn le_u16(s: Seq<u8>) -> u16
    recommends
        s.len() == 2,
{
    (s[0] as int + 0x100 * (s[1] as int)) as u16
}

/// The value of four bytes read as a little-endian unsigned integer.
pub open spec fn le_u32(s: Seq<u8>) -> u32
    recommends
        s.len() == 4,
{
    (s[0] as int + 0x100 * (s[1] as int) + 0x1_0000 * (s[2] as int) + 0x100_0000 * (s[3] as int)) as u32
}

/// The value of eight bytes read as a little-endian unsigned integer.
pub open spec fn le_u64(s: Seq<u8>) -> u64
    recommends
        s.len() == 8,
{
    (le_u32(s.subrange(0, 4)) as int + 0x1_0000_0000 * (le_u32(s.subrange(4, 8)) as int)) as u64
}

/// The two bytes that encode `v`, least significant first.
pub open spec fn u16_le(v: u16) -> Seq<u8> {
    seq![(v % 0x100) as u8, (v / 0x100) as u8]
}

/// The four bytes that encode `v`, least significant first.
pub open spec fn u32_le(v: u32) -> Seq<u8> {
    seq![
        (v % 0x100) as u8,
        (v / 0x100 % 0x100) as u8,
        (v / 0x1_0000 % 0x100) as u8,
        (v / 0x100_0000) as u8,
    ]
}

/// The eight bytes that encode `v`, least significant first.
pub open spec fn u64_le(v: u64) -> Seq<u8> {
    u32_le((v % 0x1_0000_0000) as u32) + u32_le((v / 0x1_0000_0000) as u32)
}

/// A 32-bit pattern read as a two's-complement signed integer.
pub open spec fn signed32(u: u32) -> i32 {
    if u < 0x8000_0000 {
        u as i32
    } else {
        (u - 0x1_0000_0000) as i32
    }
}

/// The 32-bit pattern of a two's-complement signed integer.
pub open spec fn unsigned32(i: i32) -> u32 {
    if i >= 0 {
        i as u32
    } else {
        (i + 0x1_0000_0000) as u32
    }
}

/// `s` with the bytes from `pos` on replaced by `data`; positions outside
/// `s` are ignored, so the length never changes.
pub open spec fn splice(s: Seq<u8>, pos: int, data: Seq<u8>) -> Seq<u8> {
    Seq::new(
        s.len(),
        |i: int|
            if pos <= i < pos + data.len() {
                data[i - pos]
            } else {
                s[i]
            },
    )
}

/// Decoding undoes encoding, for each width.
pub proof fn lemma_le_round_trip(a: u16, b: u32, c: u64)
    ensures
        u16_le(a).len() == 2,
        u32_le(b).len() == 4,
        u64_le(c).len() == 8,
        le_u16(u16_le(a)) == a,
        le_u32(u32_le(b)) == b,
        le_u64(u64_le(c)) == c,
{
    lemma_digits_u16(a);
    lemma_digits_u32(b);
    let lo = (c % 0x1_0000_0000) as u32;
    let hi = (c / 0x1_0000_0000) as u32;
    assert(c % 0x1_0000_0000 + 0x1_0000_0000 * (c / 0x1_0000_0000) == c && c / 0x1_0000_0000
        < 0x1_0000_0000) by (bit_vector);
    lemma_digits_u32(lo);
    lemma_digits_u32(hi);
    assert(u64_le(c).subrange(0, 4) =~= u32_le(lo));
    assert(u64_le(c).subrange(4, 8) =~= u32_le(hi));
}

/// Encoding undoes decoding, for each width.
pub proof fn lemma_le_encode_decoded(s: Seq<u8>)
    ensures
        s.len() == 2 ==> u16_le(le_u16(s)) == s,
        s.len() == 4 ==> u32_le(le_u32(s)) == s,
        s.len() == 8 ==> u64_le(le_u64(s)) == s,
{
    if s.len() == 2 {
        lemma_value_u16(s[0], s[1]);
        assert(u16_le(le_u16(s)) =~= s);
    }
    if s.len() == 4 {
        lemma_value_u32(s[0], s[1], s[2], s[3]);
        assert(u32_le(le_u32(s)) =~= s);
    }
    if s.len() == 8 {
        let lo = s.subrange(0, 4);
        let hi = s.subrange(4, 8);
        lemma_value_u32(lo[0], lo[1], lo[2], lo[3]);
        lemma_value_u32(hi[0], hi[1], hi[2], hi[3]);
        assert(u32_le(le_u32(lo)) =~= lo);
        assert(u32_le(le_u32(hi)) =~= hi);
        let l = le_u32(lo);
        let h = le_u32(hi);
        let v = le_u64(s);
        assert(l as int + 0x1_0000_0000 * (h as int) < 0x1_0000_0000_0000_0000);
        assert(v % 0x1_0000_0000 == l && v / 0x1_0000_0000 == h) by (bit_vector)
            requires
                v == l + 0x1_0000_0000 * h,
        ;
        assert(u64_le(v) =~= s);
    }
}

proof fn lemma_digits_u16(v: u16)
    ensures
        v % 0x100 < 0x100,
        v / 0x100 < 0x100,
        v % 0x100 + 0x100 * (v / 0x100) == v,
{
    assert(v % 0x100 < 0x100 && v / 0x100 < 0x100 && v % 0x100 + 0x100 * (v / 0x100) == v)
        by (bit_vector);
}

proof fn lemma_digits_u32(v: u32)
    ensures
        v % 0x100 < 0x100,
        v / 0x100 % 0x100 < 0x100,
        v / 0x1_0000 % 0x100 < 0x100,
        v / 0x100_0000 < 0x100,
        v % 0x100 + 0x100 * (v / 0x100 % 0x100) + 0x1_0000 * (v / 0x1_0000 % 0x100) + 0x100_0000 * (v
            / 0x100_0000) == v,
{
    assert(v % 0x100 < 0x100 && v / 0x100 % 0x100 < 0x100 && v / 0x1_0000 % 0x100 < 0x100 && v
        / 0x100_0000 < 0x100 && v % 0x100 + 0x100 * (v / 0x100 % 0x100) + 0x1_0000 * (v / 0x1_0000
        % 0x100) + 0x100_0000 * (v / 0x100_0000) == v) by (bit_vector);
}

proof fn lemma_value_u16(b0: u8, b1: u8)
    ensures
        b0 + 0x100 * b1 < 0x1_0000,
        ({
            let v = (b0 + 0x100 * b1) as u16;
            v % 0x100 == b0 && v / 0x100 == b1
        }),
{
    let v = (b0 + 0x100 * b1) as u16;
    assert(v % 0x100 == b0 && v / 0x100 == b1) by (bit_vector)
        requires
            v == b0 + 0x100 * b1,
    ;
}

proof fn lemma_value_u32(b0: u8, b1: u8, b2: u8, b3: u8)
    ensures
        b0 + 0x100 * b1 + 0x1_0000 * b2 + 0x100_0000 * b3 < 0x1_0000_0000,
        ({
            let v = (b0 + 0x100 * b1 + 0x1_0000 * b2 + 0x100_0000 * b3) as u32;
            v % 0x100 == b0 && v / 0x100 % 0x100 == b1 && v / 0x1_0000 % 0x100 == b2 && v
                / 0x100_0000 == b3
        }),
{
    let v = (b0 + 0x100 * b1 + 0x1_0000 * b2 + 0x100_0000 * b3) as u32;
    assert(v % 0x100 == b0 && v / 0x100 % 0x100 == b1 && v / 0x1_0000 % 0x100 == b2 && v
        / 0x100_0000 == b3) by (bit_vector)
        requires
            v == b0 + 0x100 * b1 + 0x1_0000 * b2 + 0x100_0000 * b3,
    ;
}

/// The two conversions between bit pattern and signed value are inverse.
pub proof fn lemma_signed_round_trip(u: u32, i: i32)
    ensures
        unsigned32(signed32(u)) == u,
        signed32(unsigned32(i)) == i,
{
}

/// What was written at `pos` is what is read back there, and bytes outside
/// the written range keep their value.
pub proof fn lemma_splice(s: Seq<u8>, pos: int, data: Seq<u8>)
    requires
        0 <= pos,
        pos + data.len() <= s.len(),
    ensures
        splice(s, pos, data).len() == s.len(),
        splice(s, pos, data).subrange(pos, pos + data.len()) == data,
        forall|i: int|
            0 <= i < s.len() && !(pos <= i < pos + data.len()) ==> #[trigger] splice(s, pos, data)[i]
                == s[i],
{
    assert(splice(s, pos, data).subrange(pos, pos + data.len()) =~= data);
}

/// A range that does not meet the written one reads as before the write.
pub proof fn lemma_splice_elsewhere(s: Seq<u8>, pos: int, data: Seq<u8>, from: int, to: int)
    requires
        0 <= from <= to <= s.len(),
        to <= pos || pos + data.len() <= from,
    ensures
        splice(s, pos, data).subrange(from, to) == s.subrange(from, to),
{
    assert(splice(s, pos, data).subrange(from, to) =~= s.subrange(from, to));
}

/// The signed reading of a bit pattern.
pub fn to_signed(u: u32) -> (i: i32)
    ensures
        i == signed32(u),
{
    if u < 0x8000_0000 {
        u as i32
    } else {
        let below: u32 = u - 0x8000_0000;
        below as i32 - 0x7fff_ffff - 1
    }
}

/// The bit pattern of a signed value.
pub fn to_unsigned(i: i32) -> (u: u32)
    ensures
        u == unsigned32(i),
{
    if i >= 0 {
        i as u32
    } else {
        let above: i32 = i + 0x7fff_ffff + 1;
        above as u32 + 0x8000_0000
    }
}

/// Reads four bytes at `pos` as a little-endian value.
pub(crate) fn load_u32(buf: &Vec<u8>, pos: usize) -> (v: u32)
    requires
        pos + 4 <= buf.len(),
    ensures
        v == le_u32(buf@.subrange(pos as int, pos + 4)),
{
    let b0: u32 = buf[pos] as u32;
    let b1: u32 = buf[pos + 1] as u32;
    let b2: u32 = buf[pos + 2] as u32;
    let b3: u32 = buf[pos + 3] as u32;
    b0 + b1 * 0x100 + b2 * 0x1_0000 + b3 * 0x100_0000
}

/// Reads two bytes at `pos` as a little-endian value.
pub(crate) fn load_u16(buf: &Vec<u8>, pos: usize) -> (v: u16)
    requires
        pos + 2 <= buf.len(),
    ensures
        v == le_u16(buf@.subrange(pos as int, pos + 2)),
{
    let b0: u16 = buf[pos] as u16;
    let b1: u16 = buf[pos + 1] as u16;
    b0 + b1 * 0x100
}

/// Reads eight bytes at `pos` as a little-endian value.
pub(crate) fn load_u64(buf: &Vec<u8>, pos: usize) -> (v: u64)
    requires
        pos + 8 <= buf.len(),
    ensures
        v == le_u64(buf@.subrange(pos as int, pos + 8)),
{
    let lo: u32 = load_u32(buf, pos);
    let hi: u32 = load_u32(buf, pos + 4);
    proof {
        let s = buf@.subrange(pos as int, pos + 8);
        assert(s.subrange(0, 4) =~= buf@.subrange(pos as int, pos + 4));
        assert(s.subrange(4, 8) =~= buf@.subrange(pos + 4, pos + 8));
    }
    lo as u64 + (hi as u64) * 0x1_0000_0000
}

/// Reads an unsigned 16-bit operand from the head of `bytes` with
/// `byteorder::ReadBytesExt::read_u16::<LittleEndian>`. The reader copies the
/// first two bytes and decodes them least significant first; it reports an
/// error, given back as `None`, exactly when fewer than two bytes are left.
#[verifier::external_body]
pub(crate) fn read_u16(bytes: &[u8]) -> (r: Option<u16>)
    ensures
        r == (if bytes@.len() >= 2 {
            Some(le_u16(bytes@.subrange(0, 2)))
        } else {
            None
        }),
{
    let mut reader = bytes;
    reader.read_u16::<LittleEndian>().ok()
}

/// Reads an unsigned 32-bit operand from the head of `bytes` with
/// `byteorder::ReadBytesExt::read_u32::<LittleEndian>`: the first four
/// bytes, least significant first; `None` exactly when fewer are left.
#[verifier::external_body]
pub(crate) fn read_u32(bytes: &[u8]) -> (r: Option<u32>)
    ensures
        r == (if bytes@.len() >= 4 {
            Some(le_u32(bytes@.subrange(0, 4)))
        } else {
            None
        }),
{
    let mut reader = bytes;
    reader.read_u32::<LittleEndian>().ok()
}

/// Reads a signed 32-bit operand from the head of `bytes` with
/// `byteorder::ReadBytesExt::read_i32::<LittleEndian>`: the two's-complement
/// reading of the first four bytes, least significant first; `None` exactly
/// when fewer are left.
#[verifier::external_body]
pub(crate) fn read_i32(bytes: &[u8]) -> (r: Option<i32>)
    ensures
        r == (if bytes@.len() >= 4 {
            Some(signed32(le_u32(bytes@.subrange(0, 4))))
        } else {
            None
        }),
{
    let mut reader = bytes;
    reader.read_i32::<LittleEndian>().ok()
}

/// Reads an unsigned 64-bit operand from the head of `bytes` with
/// `byteorder::ReadBytesExt::read_u64::<LittleEndian>`: the first eight
/// bytes, least significant first; `None` exactly when fewer are left.
#[verifier::external_body]
pub(crate) fn read_u64(bytes: &[u8]) -> (r: Option<u64>)
    ensures
        r == (if bytes@.len() >= 8 {
            Some(le_u64(bytes@.subrange(0, 8)))
        } else {
            None
        }),
{
    let mut reader = bytes;
    reader.read_u64::<LittleEndian>().ok()
}

} // verus!
