//! Fixed-width integers in a byte buffer, in either byte order.
use vstd::prelude::*;

verus! {

/// The order in which the bytes of an integer stand in memory.
#[derive(Debug, Clone, Copy, PartialEq, Eq, Structural)]
pub enum ByteOrder {
    /// Least significant byte first.
    Little,
    /// Most significant byte first.
    Big,
}

/// The `u32` whose little-endian bytes are `b0 .. b3`.
pub open spec fn u32_le(b0: u8, b1: u8, b2: u8, b3: u8) -> u32 {
    (b0 as u32) | ((b1 as u32) << 8u32) | ((b2 as u32) << 16u32) | ((b3 as u32) << 24u32)
}

/// The `u64` whose little-endian bytes are `b0 .. b7`.
pub open spec fn u64_le(b0: u8, b1: u8, b2: u8, b3: u8, b4: u8, b5: u8, b6: u8, b7: u8) -> u64 {
    (b0 as u64) | ((b1 as u64) << 8u64) | ((b2 as u64) << 16u64) | ((b3 as u64) << 24u64)
        | ((b4 as u64) << 32u64) | ((b5 as u64) << 40u64) | ((b6 as u64) << 48u64) | ((b7
        as u64) << 56u64)
}

/// The `u32` stored in `b[off .. off + 4]`.
pub open spec fn u32_at(b: Seq<u8>, off: int, order: ByteOrder) -> u32 {
    match order {
        ByteOrder::Little => u32_le(b[off], b[off + 1], b[off + 2], b[off + 3]),
        ByteOrder::Big => u32_le(b[off + 3], b[off + 2], b[off + 1], b[off]),
    }
}

/// The `u64` stored in `b[off .. off + 8]`.
pub open spec fn u64_at(b: Seq<u8>, off: int, order: ByteOrder) -> u64 {
    match order {
        ByteOrder::Little => u64_le(
            b[off],
            b[off + 1],
            b[off + 2],
            b[off + 3],
            b[off + 4],
            b[off + 5],
            b[off + 6],
            b[off + 7],
        ),
        ByteOrder::Big => u64_le(
            b[off + 7],
            b[off + 6],
            b[off + 5],
            b[off + 4],
            b[off + 3],
            b[off + 2],
            b[off + 1],
            b[off],
        ),
    }
}

/// Byte `k` of `x`, counting from the least significant.
pub open spec fn byte_of_u32(x: u32, k: u32) -> u8 {
    ((x >> (8 * k)) & 0xffu32) as u8
}

/// Byte `k` of `x`, counting from the least significant.
pub open spec fn byte_of_u64(x: u64, k: u64) -> u8 {
    ((x >> (8 * k)) & 0xffu64) as u8
}

/// The four bytes that store `x`.
pub open spec fn u32_bytes(x: u32, order: ByteOrder) -> Seq<u8> {
    match order {
        ByteOrder::Little => seq![
            byte_of_u32(x, 0),
            byte_of_u32(x, 1),
            byte_of_u32(x, 2),
            byte_of_u32(x, 3),
        ],
        ByteOrder::Big => seq![
            byte_of_u32(x, 3),
            byte_of_u32(x, 2),
            byte_of_u32(x, 1),
            byte_of_u32(x, 0),
        ],
    }
}

/// The eight bytes that store `x`.
pub open spec fn u64_bytes(x: u64, order: ByteOrder) -> Seq<u8> {
    match order {
        ByteOrder::Little => seq![
            byte_of_u64(x, 0),
            byte_of_u64(x, 1),
            byte_of_u64(x, 2),
            byte_of_u64(x, 3),
            byte_of_u64(x, 4),
            byte_of_u64(x, 5),
            byte_of_u64(x, 6),
            byte_of_u64(x, 7),
        ],
        ByteOrder::Big => seq![
            byte_of_u64(x, 7),
            byte_of_u64(x, 6),
            byte_of_u64(x, 5),
            byte_of_u64(x, 4),
            byte_of_u64(x, 3),
            byte_of_u64(x, 2),
            byte_of_u64(x, 1),
            byte_of_u64(x, 0),
        ],
    }
}

proof fn lemma_u32_le_bytes(x: u32)
    ensures
        u32_le(byte_of_u32(x, 0), byte_of_u32(x, 1), byte_of_u32(x, 2), byte_of_u32(x, 3)) == x,
{
    assert((((x >> 0u32) & 0xffu32) as u8 as u32) | ((((x >> 8u32) & 0xffu32) as u8 as u32)
        << 8u32) | ((((x >> 16u32) & 0xffu32) as u8 as u32) << 16u32) | ((((x >> 24u32)
        & 0xffu32) as u8 as u32) << 24u32) == x) by (bit_vector);
}

proof fn lemma_le_u32_byte(b0: u8, b1: u8, b2: u8, b3: u8)
    ensures
        byte_of_u32(u32_le(b0, b1, b2, b3), 0) == b0,
        byte_of_u32(u32_le(b0, b1, b2, b3), 1) == b1,
        byte_of_u32(u32_le(b0, b1, b2, b3), 2) == b2,
        byte_of_u32(u32_le(b0, b1, b2, b3), 3) == b3,
{
    let v = u32_le(b0, b1, b2, b3);
    assert(v == (b0 as u32) | ((b1 as u32) << 8u32) | ((b2 as u32) << 16u32) | ((b3 as u32)
        << 24u32));
    assert(((((b0 as u32) | ((b1 as u32) << 8u32) | ((b2 as u32) << 16u32) | ((b3 as u32)
        << 24u32)) >> 0u32) & 0xffu32) as u8 == b0) by (bit_vector);
    assert(((((b0 as u32) | ((b1 as u32) << 8u32) | ((b2 as u32) << 16u32) | ((b3 as u32)
        << 24u32)) >> 8u32) & 0xffu32) as u8 == b1) by (bit_vector);
    assert(((((b0 as u32) | ((b1 as u32) << 8u32) | ((b2 as u32) << 16u32) | ((b3 as u32)
        << 24u32)) >> 16u32) & 0xffu32) as u8 == b2) by (bit_vector);
    assert(((((b0 as u32) | ((b1 as u32) << 8u32) | ((b2 as u32) << 16u32) | ((b3 as u32)
        << 24u32)) >> 24u32) & 0xffu32) as u8 == b3) by (bit_vector);
}

proof fn lemma_u64_le_bytes(x: u64)
    ensures
        u64_le(
            byte_of_u64(x, 0),
            byte_of_u64(x, 1),
            byte_of_u64(x, 2),
            byte_of_u64(x, 3),
            byte_of_u64(x, 4),
            byte_of_u64(x, 5),
            byte_of_u64(x, 6),
            byte_of_u64(x, 7),
        ) == x,
{
    assert((((x >> 0u64) & 0xffu64) as u8 as u64) | ((((x >> 8u64) & 0xffu64) as u8 as u64)
        << 8u64) | ((((x >> 16u64) & 0xffu64) as u8 as u64) << 16u64) | ((((x >> 24u64)
        & 0xffu64) as u8 as u64) << 24u64) | ((((x >> 32u64) & 0xffu64) as u8 as u64)
        << 32u64) | ((((x >> 40u64) & 0xffu64) as u8 as u64) << 40u64) | ((((x >> 48u64)
        & 0xffu64) as u8 as u64) << 48u64) | ((((x >> 56u64) & 0xffu64) as u8 as u64)
        << 56u64) == x) by (bit_vector);
}

proof fn lemma_le_u64_byte(b0: u8, b1: u8, b2: u8, b3: u8, b4: u8, b5: u8, b6: u8, b7: u8)
    ensures
        byte_of_u64(u64_le(b0, b1, b2, b3, b4, b5, b6, b7), 0) == b0,
        byte_of_u64(u64_le(b0, b1, b2, b3, b4, b5, b6, b7), 1) == b1,
        byte_of_u64(u64_le(b0, b1, b2, b3, b4, b5, b6, b7), 2) == b2,
        byte_of_u64(u64_le(b0, b1, b2, b3, b4, b5, b6, b7), 3) == b3,
        byte_of_u64(u64_le(b0, b1, b2, b3, b4, b5, b6, b7), 4) == b4,
        byte_of_u64(u64_le(b0, b1, b2, b3, b4, b5, b6, b7), 5) == b5,
        byte_of_u64(u64_le(b0, b1, b2, b3, b4, b5, b6, b7), 6) == b6,
        byte_of_u64(u64_le(b0, b1, b2, b3, b4, b5, b6, b7), 7) == b7,
{
    let v = u64_le(b0, b1, b2, b3, b4, b5, b6, b7);
    assert(v == (b0 as u64) | ((b1 as u64) << 8u64) | ((b2 as u64) << 16u64) | ((b3 as u64)
        << 24u64) | ((b4 as u64) << 32u64) | ((b5 as u64) << 40u64) | ((b6 as u64) << 48u64)
        | ((b7 as u64) << 56u64));
    assert(((v >> 0u64) & 0xffu64) as u8 == b0) by (bit_vector)
        requires
            v == (b0 as u64) | ((b1 as u64) << 8u64) | ((b2 as u64) << 16u64) | ((b3 as u64)
                << 24u64) | ((b4 as u64) << 32u64) | ((b5 as u64) << 40u64) | ((b6 as u64)
                << 48u64) | ((b7 as u64) << 56u64),
    ;
    assert(((v >> 8u64) & 0xffu64) as u8 == b1) by (bit_vector)
        requires
            v == (b0 as u64) | ((b1 as u64) << 8u64) | ((b2 as u64) << 16u64) | ((b3 as u64)
                << 24u64) | ((b4 as u64) << 32u64) | ((b5 as u64) << 40u64) | ((b6 as u64)
                << 48u64) | ((b7 as u64) << 56u64),
    ;
    assert(((v >> 16u64) & 0xffu64) as u8 == b2) by (bit_vector)
        requires
            v == (b0 as u64) | ((b1 as u64) << 8u64) | ((b2 as u64) << 16u64) | ((b3 as u64)
                << 24u64) | ((b4 as u64) << 32u64) | ((b5 as u64) << 40u64) | ((b6 as u64)
                << 48u64) | ((b7 as u64) << 56u64),
    ;
    assert(((v >> 24u64) & 0xffu64) as u8 == b3) by (bit_vector)
        requires
            v == (b0 as u64) | ((b1 as u64) << 8u64) | ((b2 as u64) << 16u64) | ((b3 as u64)
                << 24u64) | ((b4 as u64) << 32u64) | ((b5 as u64) << 40u64) | ((b6 as u64)
                << 48u64) | ((b7 as u64) << 56u64),
    ;
    assert(((v >> 32u64) & 0xffu64) as u8 == b4) by (bit_vector)
        requires
            v == (b0 as u64) | ((b1 as u64) << 8u64) | ((b2 as u64) << 16u64) | ((b3 as u64)
                << 24u64) | ((b4 as u64) << 32u64) | ((b5 as u64) << 40u64) | ((b6 as u64)
                << 48u64) | ((b7 as u64) << 56u64),
    ;
    assert(((v >> 40u64) & 0xffu64) as u8 == b5) by (bit_vector)
        requires
            v == (b0 as u64) | ((b1 as u64) << 8u64) | ((b2 as u64) << 16u64) | ((b3 as u64)
                << 24u64) | ((b4 as u64) << 32u64) | ((b5 as u64) << 40u64) | ((b6 as u64)
                << 48u64) | ((b7 as u64) << 56u64),
    ;
    assert(((v >> 48u64) & 0xffu64) as u8 == b6) by (bit_vector)
        requires
            v == (b0 as u64) | ((b1 as u64) << 8u64) | ((b2 as u64) << 16u64) | ((b3 as u64)
                << 24u64) | ((b4 as u64) << 32u64) | ((b5 as u64) << 40u64) | ((b6 as u64)
                << 48u64) | ((b7 as u64) << 56u64),
    ;
    assert(((v >> 56u64) & 0xffu64) as u8 == b7) by (bit_vector)
        requires
            v == (b0 as u64) | ((b1 as u64) << 8u64) | ((b2 as u64) << 16u64) | ((b3 as u64)
                << 24u64) | ((b4 as u64) << 32u64) | ((b5 as u64) << 40u64) | ((b6 as u64)
                << 48u64) | ((b7 as u64) << 56u64),
    ;
}

/// Reading back the bytes that store `x` gives `x`.
pub proof fn lemma_u32_round_trip(x: u32, order: ByteOrder)
    ensures
        u32_bytes(x, order).len() == 4,
        u32_at(u32_bytes(x, order), 0, order) == x,
{
    lemma_u32_le_bytes(x);
}

/// Storing the `u32` read from four bytes gives those bytes back.
pub proof fn lemma_u32_bytes_of_at(b: Seq<u8>, off: int, order: ByteOrder)
    requires
        0 <= off,
        off + 4 <= b.len(),
    ensures
        u32_bytes(u32_at(b, off, order), order) == b.subrange(off, off + 4),
{
    lemma_le_u32_byte(b[off], b[off + 1], b[off + 2], b[off + 3]);
    lemma_le_u32_byte(b[off + 3], b[off + 2], b[off + 1], b[off]);
    assert(u32_bytes(u32_at(b, off, order), order) =~= b.subrange(off, off + 4));
}

/// Reading back the bytes that store `x` gives `x`.
pub proof fn lemma_u64_round_trip(x: u64, order: ByteOrder)
    ensures
        u64_bytes(x, order).len() == 8,
        u64_at(u64_bytes(x, order), 0, order) == x,
{
    lemma_u64_le_bytes(x);
}

/// Storing the `u64` read from eight bytes gives those bytes back.
pub proof fn lemma_u64_bytes_of_at(b: Seq<u8>, off: int, order: ByteOrder)
    requires
        0 <= off,
        off + 8 <= b.len(),
    ensures
        u64_bytes(u64_at(b, off, order), order) == b.subrange(off, off + 8),
{
    lemma_le_u64_byte(
        b[off],
        b[off + 1],
        b[off + 2],
        b[off + 3],
        b[off + 4],
        b[off + 5],
        b[off + 6],
        b[off + 7],
    );
    lemma_le_u64_byte(
        b[off + 7],
        b[off + 6],
        b[off + 5],
        b[off + 4],
        b[off + 3],
        b[off + 2],
        b[off + 1],
        b[off],
    );
    assert(u64_bytes(u64_at(b, off, order), order) =~= b.subrange(off, off + 8));
}

/// Reads the `u32` stored at `b[off .. off + 4]`.
pub(crate) fn read_u32(b: &[u8], off: usize, order: ByteOrder) -> (r: u32)
    requires
        off + 4 <= b@.len(),
    ensures
        r == u32_at(b@, off as int, order),
{
    // The length of a slice fits in `usize`, and so do the offsets below it.
    let _len = b.len();
    let (b0, b1, b2, b3) = match order {
        ByteOrder::Little => (b[off], b[off + 1], b[off + 2], b[off + 3]),
        ByteOrder::Big => (b[off + 3], b[off + 2], b[off + 1], b[off]),
    };
    (b0 as u32) | ((b1 as u32) << 8u32) | ((b2 as u32) << 16u32) | ((b3 as u32) << 24u32)
}

/// Reads the `u64` stored at `b[off .. off + 8]`.
pub(crate) fn read_u64(b: &[u8], off: usize, order: ByteOrder) -> (r: u64)
    requires
        off + 8 <= b@.len(),
    ensures
        r == u64_at(b@, off as int, order),
{
    // The length of a slice fits in `usize`, and so do the offsets below it.
    let _len = b.len();
    let (b0, b1, b2, b3, b4, b5, b6, b7) = match order {
        ByteOrder::Little => (
            b[off],
            b[off + 1],
            b[off + 2],
            b[off + 3],
            b[off + 4],
            b[off + 5],
            b[off + 6],
            b[off + 7],
        ),
        ByteOrder::Big => (
            b[off + 7],
            b[off + 6],
            b[off + 5],
            b[off + 4],
            b[off + 3],
            b[off + 2],
            b[off + 1],
            b[off],
        ),
    };
    (b0 as u64) | ((b1 as u64) << 8u64) | ((b2 as u64) << 16u64) | ((b3 as u64) << 24u64) | ((
    b4 as u64) << 32u64) | ((b5 as u64) << 40u64) | ((b6 as u64) << 48u64) | ((b7 as u64)
        << 56u64)
}

/// Appends the four bytes that store `x`.
pub(crate) fn push_u32(out: &mut Vec<u8>, x: u32, order: ByteOrder)
    ensures
        final(out)@ == old(out)@ + u32_bytes(x, order),
{
    let k0 = ((x >> 0u32) & 0xffu32) as u8;
    let k1 = ((x >> 8u32) & 0xffu32) as u8;
    let k2 = ((x >> 16u32) & 0xffu32) as u8;
    let k3 = ((x >> 24u32) & 0xffu32) as u8;
    match order {
        ByteOrder::Little => {
            out.push(k0);
            out.push(k1);
            out.push(k2);
            out.push(k3);
        },
        ByteOrder::Big => {
            out.push(k3);
            out.push(k2);
            out.push(k1);
            out.push(k0);
        },
    }
    assert(final(out)@ =~= old(out)@ + u32_bytes(x, order));
}

/// Appends the eight bytes that store `x`.
pub(crate) fn push_u64(out: &mut Vec<u8>, x: u64, order: ByteOrder)
    ensures
        final(out)@ == old(out)@ + u64_bytes(x, order),
{
    let k0 = ((x >> 0u64) & 0xffu64) as u8;
    let k1 = ((x >> 8u64) & 0xffu64) as u8;
    let k2 = ((x >> 16u64) & 0xffu64) as u8;
    let k3 = ((x >> 24u64) & 0xffu64) as u8;
    let k4 = ((x >> 32u64) & 0xffu64) as u8;
    let k5 = ((x >> 40u64) & 0xffu64) as u8;
    let k6 = ((x >> 48u64) & 0xffu64) as u8;
    let k7 = ((x >> 56u64) & 0xffu64) as u8;
    match order {
        ByteOrder::Little => {
            out.push(k0);
            out.push(k1);
            out.push(k2);
            out.push(k3);
            out.push(k4);
            out.push(k5);
            out.push(k6);
            out.push(k7);
        },
        ByteOrder::Big => {
            out.push(k7);
            out.push(k6);
            out.push(k5);
            out.push(k4);
            out.push(k3);
            out.push(k2);
            out.push(k1);
            out.push(k0);
        },
    }
    assert(final(out)@ =~= old(out)@ + u64_bytes(x, order));
}

} // verus!
