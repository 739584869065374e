//! What can go wrong with a signal descriptor.
use vstd::prelude::*;

verus! {

/// The failures that the operations of a signal descriptor report.
#[derive(Debug, Clone, Copy, PartialEq, Eq, Structural)]
pub enum Error {
    /// A system call failed with this `errno` value.
    Sys(i32),
    /// A read returned this many bytes, not a whole record. The records that
    /// follow on the descriptor can no longer be told apart: the descriptor
    /// should not be read again.
    PartialRead(usize),
}

} // verus!
