//! The record that a signal descriptor hands out for each queued signal.
use vstd::prelude::*;
use crate::wire::{
    ByteOrder,
    u32_at,
    u64_at,
    u32_le,
    u64_le,
    u32_bytes,
    u64_bytes,
    read_u32,
    read_u64,
    push_u32,
    push_u64,
    lemma_u32_round_trip,
    lemma_u64_round_trip,
    lemma_u32_bytes_of_at,
    lemma_u64_bytes_of_at,
};

verus! {

/// Bytes that one read of a signal descriptor returns.
pub const SIGINFO_SIZE: usize = 128;

/// Bytes of the wire record that follow the fields of `siginfo`.
pub const SIGINFO_PADDING: usize = 48;

/// Bytes that the fields of `siginfo` take on the wire.
pub const SIGINFO_FIELDS_SIZE: usize = 80;

/// Information about one delivered signal, field for field as the kernel
/// writes it: twelve 32-bit fields, then four 64-bit fields, then padding.
#[allow(non_camel_case_types)]
#[derive(Debug, Clone, Copy, PartialEq, Eq, Structural)]
pub struct siginfo {
    pub ssi_signo: u32,
    pub ssi_errno: i32,
    pub ssi_code: i32,
    pub ssi_pid: u32,
    pub ssi_uid: u32,
    pub ssi_fd: i32,
    pub ssi_tid: u32,
    pub ssi_band: u32,
    pub ssi_overrun: u32,
    pub ssi_trapno: u32,
    pub ssi_status: i32,
    pub ssi_int: i32,
    pub ssi_ptr: u64,
    pub ssi_utime: u64,
    pub ssi_stime: u64,
    pub ssi_addr: u64,
}

/// The record stored in the wire bytes `b`.
pub open spec fn decode(b: Seq<u8>, order: ByteOrder) -> siginfo {
    siginfo {
        ssi_signo: u32_at(b, 0, order),
        ssi_errno: u32_at(b, 4, order) as i32,
        ssi_code: u32_at(b, 8, order) as i32,
        ssi_pid: u32_at(b, 12, order),
        ssi_uid: u32_at(b, 16, order),
        ssi_fd: u32_at(b, 20, order) as i32,
        ssi_tid: u32_at(b, 24, order),
        ssi_band: u32_at(b, 28, order),
        ssi_overrun: u32_at(b, 32, order),
        ssi_trapno: u32_at(b, 36, order),
        ssi_status: u32_at(b, 40, order) as i32,
        ssi_int: u32_at(b, 44, order) as i32,
        ssi_ptr: u64_at(b, 48, order),
        ssi_utime: u64_at(b, 56, order),
        ssi_stime: u64_at(b, 64, order),
        ssi_addr: u64_at(b, 72, order),
    }
}

/// The bytes of the fields of `r`, in wire order.
pub open spec fn encode_fields(r: siginfo, order: ByteOrder) -> Seq<u8> {
    u32_bytes(r.ssi_signo, order) + u32_bytes(r.ssi_errno as u32, order) + u32_bytes(
        r.ssi_code as u32,
        order,
    ) + u32_bytes(r.ssi_pid, order) + u32_bytes(r.ssi_uid, order) + u32_bytes(
        r.ssi_fd as u32,
        order,
    ) + u32_bytes(r.ssi_tid, order) + u32_bytes(r.ssi_band, order) + u32_bytes(
        r.ssi_overrun,
        order,
    ) + u32_bytes(r.ssi_trapno, order) + u32_bytes(r.ssi_status as u32, order) + u32_bytes(
        r.ssi_int as u32,
        order,
    ) + u64_bytes(r.ssi_ptr, order) + u64_bytes(r.ssi_utime, order) + u64_bytes(
        r.ssi_stime,
        order,
    ) + u64_bytes(r.ssi_addr, order)
}

/// The padding at the end of a wire record: all zero.
pub open spec fn zero_padding() -> Seq<u8> {
    Seq::new(SIGINFO_PADDING as nat, |i: int| 0u8)
}

impl siginfo {
    /// Reads a record from the `SIGINFO_SIZE` bytes that one read of a signal
    /// descriptor returned; the padding is not read.
    pub fn from_bytes(bytes: &[u8], order: ByteOrder) -> (r: siginfo)
        requires
            bytes@.len() == SIGINFO_SIZE,
        ensures
            r == decode(bytes@, order),
    {
        siginfo {
            ssi_signo: read_u32(bytes, 0, order),
            ssi_errno: read_u32(bytes, 4, order) as i32,
            ssi_code: read_u32(bytes, 8, order) as i32,
            ssi_pid: read_u32(bytes, 12, order),
            ssi_uid: read_u32(bytes, 16, order),
            ssi_fd: read_u32(bytes, 20, order) as i32,
            ssi_tid: read_u32(bytes, 24, order),
            ssi_band: read_u32(bytes, 28, order),
            ssi_overrun: read_u32(bytes, 32, order),
            ssi_trapno: read_u32(bytes, 36, order),
            ssi_status: read_u32(bytes, 40, order) as i32,
            ssi_int: read_u32(bytes, 44, order) as i32,
            ssi_ptr: read_u64(bytes, 48, order),
            ssi_utime: read_u64(bytes, 56, order),
            ssi_stime: read_u64(bytes, 64, order),
            ssi_addr: read_u64(bytes, 72, order),
        }
    }

    /// The `SIGINFO_SIZE` wire bytes of this record, with zero padding.
    pub fn to_bytes(&self, order: ByteOrder) -> (r: Vec<u8>)
        ensures
            r@ == encode(*self, order),
            r@.len() == SIGINFO_SIZE,
    {
        let mut out: Vec<u8> = Vec::new();
        push_u32(&mut out, self.ssi_signo, order);
        push_u32(&mut out, self.ssi_errno as u32, order);
        push_u32(&mut out, self.ssi_code as u32, order);
        push_u32(&mut out, self.ssi_pid, order);
        push_u32(&mut out, self.ssi_uid, order);
        push_u32(&mut out, self.ssi_fd as u32, order);
        push_u32(&mut out, self.ssi_tid, order);
        push_u32(&mut out, self.ssi_band, order);
        push_u32(&mut out, self.ssi_overrun, order);
        push_u32(&mut out, self.ssi_trapno, order);
        push_u32(&mut out, self.ssi_status as u32, order);
        push_u32(&mut out, self.ssi_int as u32, order);
        push_u64(&mut out, self.ssi_ptr, order);
        push_u64(&mut out, self.ssi_utime, order);
        push_u64(&mut out, self.ssi_stime, order);
        push_u64(&mut out, self.ssi_addr, order);
        assert(out@ =~= encode_fields(*self, order));
        let mut k: usize = 0;
        while k < SIGINFO_PADDING
            invariant
                k <= SIGINFO_PADDING,
                out@ =~= encode_fields(*self, order) + Seq::new(k as nat, |i: int| 0u8),
            decreases SIGINFO_PADDING - k,
        {
            out.push(0u8);
            k = k + 1;
            assert(out@ =~= encode_fields(*self, order) + Seq::new(k as nat, |i: int| 0u8));
        }
        out
    }
}

/// The general description of a delivered signal: the part of a `siginfo`
/// that does not depend on how the signal was received.
#[derive(Debug, Clone, Copy, PartialEq, Eq, Structural)]
pub struct SignalInfo {
    pub si_signo: i32,
    pub si_errno: i32,
    pub si_code: i32,
    pub pid: i32,
    pub uid: u32,
    pub status: i32,
}

/// The general description of the signal that `r` records; the numbers are
/// reinterpreted, bit for bit, in the types of `SignalInfo`.
pub open spec fn signal_info_of(r: siginfo) -> SignalInfo {
    SignalInfo {
        si_signo: r.ssi_signo as i32,
        si_errno: r.ssi_errno,
        si_code: r.ssi_code,
        pid: r.ssi_pid as i32,
        uid: r.ssi_uid,
        status: r.ssi_status,
    }
}

impl From<siginfo> for SignalInfo {
    fn from(r: siginfo) -> (s: SignalInfo) {
        SignalInfo {
            si_signo: r.ssi_signo as i32,
            si_errno: r.ssi_errno,
            si_code: r.ssi_code,
            pid: r.ssi_pid as i32,
            uid: r.ssi_uid,
            status: r.ssi_status,
        }
    }
}

impl vstd::std_specs::convert::FromSpecImpl<siginfo> for SignalInfo {
    open spec fn obeys_from_spec() -> bool {
        true
    }

    open spec fn from_spec(r: siginfo) -> SignalInfo {
        signal_info_of(r)
    }
}

/// The full wire record for `r`.
pub open spec fn encode(r: siginfo, order: ByteOrder) -> Seq<u8> {
    encode_fields(r, order) + zero_padding()
}

/// Whether the padding of the wire bytes `b` is all zero.
pub open spec fn padding_is_zero(b: Seq<u8>) -> bool {
    forall|i: int| SIGINFO_FIELDS_SIZE <= i < SIGINFO_SIZE ==> b[i] == 0u8
}

/// The fields of a record fill exactly the wire record less its padding, so
/// that every record stores in `SIGINFO_SIZE` bytes.
pub proof fn lemma_record_layout(r: siginfo, order: ByteOrder)
    ensures
        encode_fields(r, order).len() == SIGINFO_FIELDS_SIZE,
        SIGINFO_FIELDS_SIZE + SIGINFO_PADDING == SIGINFO_SIZE,
        encode(r, order).len() == SIGINFO_SIZE,
{
}

/// Decoding the bytes of a record gives the record back.
pub proof fn lemma_decode_encode(r: siginfo, order: ByteOrder)
    ensures
        decode(encode(r, order), order) == r,
{
    let b = encode(r, order);
    lemma_u32_round_trip(r.ssi_signo, order);
    lemma_u32_round_trip(r.ssi_errno as u32, order);
    lemma_u32_round_trip(r.ssi_code as u32, order);
    lemma_u32_round_trip(r.ssi_pid, order);
    lemma_u32_round_trip(r.ssi_uid, order);
    lemma_u32_round_trip(r.ssi_fd as u32, order);
    lemma_u32_round_trip(r.ssi_tid, order);
    lemma_u32_round_trip(r.ssi_band, order);
    lemma_u32_round_trip(r.ssi_overrun, order);
    lemma_u32_round_trip(r.ssi_trapno, order);
    lemma_u32_round_trip(r.ssi_status as u32, order);
    lemma_u32_round_trip(r.ssi_int as u32, order);
    lemma_u64_round_trip(r.ssi_ptr, order);
    lemma_u64_round_trip(r.ssi_utime, order);
    lemma_u64_round_trip(r.ssi_stime, order);
    lemma_u64_round_trip(r.ssi_addr, order);
    assert(u32_at(b, 0, order) == u32_at(u32_bytes(r.ssi_signo, order), 0, order));
    assert(u32_at(b, 4, order) == u32_at(u32_bytes(r.ssi_errno as u32, order), 0, order));
    assert(u32_at(b, 8, order) == u32_at(u32_bytes(r.ssi_code as u32, order), 0, order));
    assert(u32_at(b, 12, order) == u32_at(u32_bytes(r.ssi_pid, order), 0, order));
    assert(u32_at(b, 16, order) == u32_at(u32_bytes(r.ssi_uid, order), 0, order));
    assert(u32_at(b, 20, order) == u32_at(u32_bytes(r.ssi_fd as u32, order), 0, order));
    assert(u32_at(b, 24, order) == u32_at(u32_bytes(r.ssi_tid, order), 0, order));
    assert(u32_at(b, 28, order) == u32_at(u32_bytes(r.ssi_band, order), 0, order));
    assert(u32_at(b, 32, order) == u32_at(u32_bytes(r.ssi_overrun, order), 0, order));
    assert(u32_at(b, 36, order) == u32_at(u32_bytes(r.ssi_trapno, order), 0, order));
    assert(u32_at(b, 40, order) == u32_at(u32_bytes(r.ssi_status as u32, order), 0, order));
    assert(u32_at(b, 44, order) == u32_at(u32_bytes(r.ssi_int as u32, order), 0, order));
    assert(u64_at(b, 48, order) == u64_at(u64_bytes(r.ssi_ptr, order), 0, order));
    assert(u64_at(b, 56, order) == u64_at(u64_bytes(r.ssi_utime, order), 0, order));
    assert(u64_at(b, 64, order) == u64_at(u64_bytes(r.ssi_stime, order), 0, order));
    assert(u64_at(b, 72, order) == u64_at(u64_bytes(r.ssi_addr, order), 0, order));
    lemma_i32_u32(r.ssi_errno);
    lemma_i32_u32(r.ssi_code);
    lemma_i32_u32(r.ssi_fd);
    lemma_i32_u32(r.ssi_status);
    lemma_i32_u32(r.ssi_int);
}

/// A wire record whose padding is zero is the encoding of the record it
/// decodes to.
pub proof fn lemma_encode_decode(b: Seq<u8>, order: ByteOrder)
    requires
        b.len() == SIGINFO_SIZE,
        padding_is_zero(b),
    ensures
        encode(decode(b, order), order) == b,
{
    let r = decode(b, order);
    lemma_u32_bytes_of_at(b, 0, order);
    lemma_u32_bytes_of_at(b, 4, order);
    lemma_u32_bytes_of_at(b, 8, order);
    lemma_u32_bytes_of_at(b, 12, order);
    lemma_u32_bytes_of_at(b, 16, order);
    lemma_u32_bytes_of_at(b, 20, order);
    lemma_u32_bytes_of_at(b, 24, order);
    lemma_u32_bytes_of_at(b, 28, order);
    lemma_u32_bytes_of_at(b, 32, order);
    lemma_u32_bytes_of_at(b, 36, order);
    lemma_u32_bytes_of_at(b, 40, order);
    lemma_u32_bytes_of_at(b, 44, order);
    lemma_u64_bytes_of_at(b, 48, order);
    lemma_u64_bytes_of_at(b, 56, order);
    lemma_u64_bytes_of_at(b, 64, order);
    lemma_u64_bytes_of_at(b, 72, order);
    lemma_u32_i32(u32_at(b, 4, order));
    lemma_u32_i32(u32_at(b, 8, order));
    lemma_u32_i32(u32_at(b, 20, order));
    lemma_u32_i32(u32_at(b, 40, order));
    lemma_u32_i32(u32_at(b, 44, order));
    assert(zero_padding() =~= b.subrange(80, 128));
    assert(b =~= b.subrange(0, 4) + b.subrange(4, 8) + b.subrange(8, 12) + b.subrange(12, 16)
        + b.subrange(16, 20) + b.subrange(20, 24) + b.subrange(24, 28) + b.subrange(28, 32)
        + b.subrange(32, 36) + b.subrange(36, 40) + b.subrange(40, 44) + b.subrange(44, 48)
        + b.subrange(48, 56) + b.subrange(56, 64) + b.subrange(64, 72) + b.subrange(72, 80)
        + b.subrange(80, 128));
}

/// A wire record of zero bytes decodes, in either byte order, to the record
/// whose every field is zero.
pub proof fn lemma_decode_zeros(b: Seq<u8>, order: ByteOrder)
    requires
        b.len() == SIGINFO_SIZE,
        forall|i: int| 0 <= i < b.len() ==> b[i] == 0u8,
    ensures
        decode(b, order) == (siginfo {
            ssi_signo: 0,
            ssi_errno: 0,
            ssi_code: 0,
            ssi_pid: 0,
            ssi_uid: 0,
            ssi_fd: 0,
            ssi_tid: 0,
            ssi_band: 0,
            ssi_overrun: 0,
            ssi_trapno: 0,
            ssi_status: 0,
            ssi_int: 0,
            ssi_ptr: 0,
            ssi_utime: 0,
            ssi_stime: 0,
            ssi_addr: 0,
        }),
{
    assert(u32_le(0, 0, 0, 0) == 0u32) by (bit_vector);
    assert(u64_le(0, 0, 0, 0, 0, 0, 0, 0) == 0u64) by (bit_vector);
    assert((0u32 as i32) == 0i32) by (bit_vector);
}

proof fn lemma_i32_u32(x: i32)
    ensures
        (x as u32) as i32 == x,
{
    assert((x as u32) as i32 == x) by (bit_vector);
}

proof fn lemma_u32_i32(x: u32)
    ensures
        (x as i32) as u32 == x,
{
    assert((x as i32) as u32 == x) by (bit_vector);
}

} // verus!
