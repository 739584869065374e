//! The options that a signal descriptor is created with.
use vstd::prelude::*;

verus! {

/// Reads return at once when no signal is pending (the value of `O_NONBLOCK`).
pub const SFD_NONBLOCK: i32 = 0o4000;

/// The descriptor is closed when the process calls `exec` (the value of
/// `O_CLOEXEC`).
pub const SFD_CLOEXEC: i32 = 0o2000000;

/// A set of the flags `SFD_NONBLOCK` and `SFD_CLOEXEC`. The empty set asks
/// for a blocking descriptor that is inherited across `exec`.
#[derive(Debug, Clone, Copy, PartialEq, Eq, Structural)]
pub struct SfdFlags {
    bits: i32,
}

/// The bits of all known flags.
pub open spec fn known_bits() -> i32 {
    SFD_NONBLOCK | SFD_CLOEXEC
}

impl View for SfdFlags {
    type V = i32;

    closed spec fn view(&self) -> i32 {
        self.bits
    }
}

impl SfdFlags {
    /// Whether reads of the descriptor are to return at once.
    pub open spec fn nonblocking(self) -> bool {
        self@ & SFD_NONBLOCK != 0
    }

    /// Whether the descriptor is to be closed on `exec`.
    pub open spec fn close_on_exec(self) -> bool {
        self@ & SFD_CLOEXEC != 0
    }

    /// The set with no flag.
    pub fn empty() -> (r: SfdFlags)
        ensures
            r@ == 0,
    {
        SfdFlags { bits: 0 }
    }

    /// The set with both flags.
    pub fn all() -> (r: SfdFlags)
        ensures
            r@ == known_bits(),
    {
        SfdFlags { bits: SFD_NONBLOCK | SFD_CLOEXEC }
    }

    /// The flags among `bits`; other bits are dropped.
    pub fn from_bits_truncate(bits: i32) -> (r: SfdFlags)
        ensures
            r@ == bits & known_bits(),
    {
        SfdFlags { bits: bits & (SFD_NONBLOCK | SFD_CLOEXEC) }
    }

    /// The bits handed to the system call.
    pub fn bits(&self) -> (r: i32)
        ensures
            r == self@,
    {
        self.bits
    }

    /// Whether every flag of `other` is in this set.
    pub fn contains(&self, other: SfdFlags) -> (r: bool)
        ensures
            r == (self@ & other@ == other@),
    {
        self.bits & other.bits == other.bits
    }

    /// The flags that are in either set.
    pub fn union(self, other: SfdFlags) -> (r: SfdFlags)
        ensures
            r@ == self@ | other@,
    {
        SfdFlags { bits: self.bits | other.bits }
    }
}

} // verus!
