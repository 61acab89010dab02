//! Little-endian byte-level helpers shared by every descriptor codec.

use vstd::prelude::*;

verus! {

/// The two little-endian bytes of a 16-bit value.
pub open spec fn le16(v: u16) -> Seq<u8> {
    seq![(v % 0x100) as u8, (v / 0x100) as u8]
}

/// The four little-endian bytes of a 32-bit value.
pub open spec fn le32(v: u32) -> Seq<u8> {
    seq![
        (v % 0x100) as u8,
        ((v / 0x100) % 0x100) as u8,
        ((v / 0x10000) % 0x100) as u8,
        ((v / 0x1000000) % 0x100) as u8,
    ]
}

/// The three little-endian bytes of a 24-bit sample-rate entry; bits above
/// the 24th are discarded, as the wire format has no room for them.
pub open spec fn le24(v: u32) -> Seq<u8> {
    seq![(v % 0x100) as u8, ((v / 0x100) % 0x100) as u8, ((v / 0x10000) % 0x100) as u8]
}

/// A 16-bit value read from two little-endian bytes.
pub open spec fn spec_u16_le(b0: u8, b1: u8) -> u16 {
    (b0 + b1 * 0x100) as u16
}

/// A 32-bit value read from four little-endian bytes.
pub open spec fn spec_u32_le(b0: u8, b1: u8, b2: u8, b3: u8) -> u32 {
    (b0 + b1 * 0x100 + b2 * 0x10000 + b3 * 0x1000000) as u32
}

/// A 24-bit value read from three little-endian bytes.
pub open spec fn spec_u24_le(b0: u8, b1: u8, b2: u8) -> u32 {
    (b0 + b1 * 0x100 + b2 * 0x10000) as u32
}

pub fn u16_le_from(b0: u8, b1: u8) -> (r: u16)
    ensures
        r == spec_u16_le(b0, b1),
{
    b0 as u16 + b1 as u16 * 0x100
}

pub fn u32_le_from(b0: u8, b1: u8, b2: u8, b3: u8) -> (r: u32)
    ensures
        r == spec_u32_le(b0, b1, b2, b3),
{
    b0 as u32 + b1 as u32 * 0x100 + b2 as u32 * 0x10000 + b3 as u32 * 0x1000000
}

pub fn u24_le_from(b0: u8, b1: u8, b2: u8) -> (r: u32)
    ensures
        r == spec_u24_le(b0, b1, b2),
{
    b0 as u32 + b1 as u32 * 0x100 + b2 as u32 * 0x10000
}

pub fn push_u16_le(buf: &mut Vec<u8>, v: u16)
    ensures
        final(buf)@ == old(buf)@ + le16(v),
{
    buf.push((v % 0x100) as u8);
    buf.push((v / 0x100) as u8);
    assert(buf@ =~= old(buf)@ + le16(v));
}

pub fn push_u32_le(buf: &mut Vec<u8>, v: u32)
    ensures
        final(buf)@ == old(buf)@ + le32(v),
{
    buf.push((v % 0x100) as u8);
    buf.push(((v / 0x100) % 0x100) as u8);
    buf.push(((v / 0x10000) % 0x100) as u8);
    buf.push(((v / 0x1000000) % 0x100) as u8);
    assert(buf@ =~= old(buf)@ + le32(v));
}

pub fn push_u24_le(buf: &mut Vec<u8>, v: u32)
    ensures
        final(buf)@ == old(buf)@ + le24(v),
{
    buf.push((v % 0x100) as u8);
    buf.push(((v / 0x100) % 0x100) as u8);
    buf.push(((v / 0x10000) % 0x100) as u8);
    assert(buf@ =~= old(buf)@ + le24(v));
}

/// Appends every byte of `tail`, leaving `buf` equal to its old value
/// followed by `tail`'s contents.
pub fn push_bytes(buf: &mut Vec<u8>, tail: &Vec<u8>)
    ensures
        final(buf)@ == old(buf)@ + tail@,
{
    let mut i: usize = 0;
    while i < tail.len()
        invariant
            i <= tail.len(),
            buf@ == old(buf)@ + tail@.take(i as int),
        decreases tail.len() - i,
    {
        buf.push(tail[i]);
        assert(buf@ =~= old(buf)@ + tail@.take(i + 1));
        i = i + 1;
    }
    assert(buf@ =~= old(buf)@ + tail@);
}

/// Reads a 16-bit little-endian value at `off`.
pub fn read_u16_le(data: &[u8], off: usize) -> (r: u16)
    requires
        off + 2 <= data@.len(),
    ensures
        r == spec_u16_le(data@[off as int], data@[off + 1]),
{
    u16_le_from(data[off], data[off + 1])
}

/// Reads a 32-bit little-endian value at `off`.
pub fn read_u32_le(data: &[u8], off: usize) -> (r: u32)
    requires
        off + 4 <= data@.len(),
    ensures
        r == spec_u32_le(data@[off as int], data@[off + 1], data@[off + 2], data@[off + 3]),
{
    u32_le_from(data[off], data[off + 1], data[off + 2], data[off + 3])
}

/// Reads a 24-bit little-endian value at `off`.
pub fn read_u24_le(data: &[u8], off: usize) -> (r: u32)
    requires
        off + 3 <= data@.len(),
    ensures
        r == spec_u24_le(data@[off as int], data@[off + 1], data@[off + 2]),
{
    u24_le_from(data[off], data[off + 1], data[off + 2])
}

/// The `n` little-endian bytes of an unbounded value; digits beyond the
/// `n`th are discarded.
pub open spec fn le_bytes(v: nat, n: nat) -> Seq<u8>
    decreases n,
{
    if n == 0 {
        Seq::empty()
    } else {
        seq![(v % 0x100) as u8] + le_bytes(v / 0x100, (n - 1) as nat)
    }
}

pub proof fn lemma_le_bytes_len(v: nat, n: nat)
    ensures
        le_bytes(v, n).len() == n,
    decreases n,
{
    if n > 0 {
        lemma_le_bytes_len(v / 0x100, (n - 1) as nat);
    }
}

/// Appends the 16 little-endian bytes of a 128-bit value.
pub fn push_u128_le(buf: &mut Vec<u8>, v: u128)
    ensures
        final(buf)@ == old(buf)@ + le_bytes(v as nat, 16),
{
    let mut x: u128 = v;
    let mut i: usize = 0;
    while i < 16
        invariant
            i <= 16,
            buf@ + le_bytes(x as nat, (16 - i) as nat) == old(buf)@ + le_bytes(v as nat, 16),
        decreases 16 - i,
    {
        buf.push((x % 0x100) as u8);
        x = x / 0x100;
        i = i + 1;
    }
    proof {
        assert(buf@ + le_bytes(x as nat, 0) =~= buf@);
    }
}

/// A 128-bit value read from 16 little-endian bytes at `off`.
pub open spec fn spec_u128_le(d: Seq<u8>, off: int) -> u128 {
    (d[off] + d[off + 1] * 0x100 + d[off + 2] * 0x10000 + d[off + 3] * 0x1000000 + d[off + 4] * 0x100000000 + d[off + 5] * 0x10000000000 + d[off + 6] * 0x1000000000000 + d[off + 7] * 0x100000000000000 + d[off + 8] * 0x10000000000000000 + d[off + 9] * 0x1000000000000000000 + d[off + 10] * 0x100000000000000000000 + d[off + 11] * 0x10000000000000000000000 + d[off + 12] * 0x1000000000000000000000000 + d[off + 13] * 0x100000000000000000000000000 + d[off + 14] * 0x10000000000000000000000000000 + d[off + 15] * 0x1000000000000000000000000000000) as u128
}

/// Reads a 128-bit little-endian value at `off`.
pub fn read_u128_le(data: &[u8], off: usize) -> (r: u128)
    requires
        off + 16 <= data@.len(),
    ensures
        r == spec_u128_le(data@, off as int),
{
    data[off] as u128 + data[off + 1] as u128 * 0x100 + data[off + 2] as u128 * 0x10000 + data[off + 3] as u128 * 0x1000000 + data[off + 4] as u128 * 0x100000000 + data[off + 5] as u128 * 0x10000000000 + data[off + 6] as u128 * 0x1000000000000 + data[off + 7] as u128 * 0x100000000000000 + data[off + 8] as u128 * 0x10000000000000000 + data[off + 9] as u128 * 0x1000000000000000000 + data[off + 10] as u128 * 0x100000000000000000000 + data[off + 11] as u128 * 0x10000000000000000000000 + data[off + 12] as u128 * 0x1000000000000000000000000 + data[off + 13] as u128 * 0x100000000000000000000000000 + data[off + 14] as u128 * 0x10000000000000000000000000000 + data[off + 15] as u128 * 0x1000000000000000000000000000000
}

/// Copies `data[off .. off + n]` into a fresh vector.
pub fn copy_range(data: &[u8], off: usize, n: usize) -> (r: Vec<u8>)
    requires
        off + n <= data@.len(),
    ensures
        r@ == data@.subrange(off as int, off + n),
{
    let dlen: usize = data.len();
    let mut out: Vec<u8> = Vec::new();
    let mut i: usize = 0;
    while i < n
        invariant
            i <= n,
            off + n <= dlen == data@.len(),
            out@ == data@.subrange(off as int, off + i),
        decreases n - i,
    {
        out.push(data[off + i]);
        assert(out@ =~= data@.subrange(off as int, off + i + 1));
        i = i + 1;
    }
    out
}

} // verus!
