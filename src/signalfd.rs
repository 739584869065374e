//! A descriptor that delivers queued signals as records: what follows each
//! system call made on it.
use vstd::prelude::*;
use crate::error::Error;
use crate::record::{siginfo, decode, SIGINFO_SIZE};
use crate::wire::ByteOrder;

verus! {

/// The descriptor argument that asks `signalfd` for a new descriptor.
pub const CREATE_NEW_FD: i32 = -1;

/// What the outcome of a call to `signalfd` means: it returns `-1` and sets
/// `errno` when it fails, and the descriptor otherwise.
pub open spec fn signalfd_outcome(ret: i32, errno: i32) -> Result<i32, Error> {
    if ret == -1 {
        Err(Error::Sys(errno))
    } else {
        Ok(ret)
    }
}

/// Reads the outcome of a call to `signalfd`: the descriptor it created or
/// updated, or the error it failed with.
pub fn signalfd_result(ret: i32, errno: i32) -> (r: Result<i32, Error>)
    ensures
        r == signalfd_outcome(ret, errno),
{
    if ret == -1 {
        Err(Error::Sys(errno))
    } else {
        Ok(ret)
    }
}

/// What one read of `SIGINFO_SIZE` bytes from a signal descriptor came to.
#[derive(Debug, Clone, Copy, PartialEq, Eq, Structural)]
pub enum ReadOutcome {
    /// The read returned this many bytes.
    Bytes(usize),
    /// No signal was pending and the descriptor does not block.
    WouldBlock,
    /// The read failed with this `errno` value.
    Failed(i32),
}

/// The result of a read whose outcome is `outcome`, with the bytes read in
/// `bytes`: a whole record is decoded, "nothing pending" is no record, a
/// short read and a failure are errors.
pub open spec fn read_result(outcome: ReadOutcome, bytes: Seq<u8>, order: ByteOrder) -> Result<
    Option<siginfo>,
    Error,
> {
    match outcome {
        ReadOutcome::Bytes(n) => if n == SIGINFO_SIZE {
            Ok(Some(decode(bytes, order)))
        } else {
            Err(Error::PartialRead(n))
        },
        ReadOutcome::WouldBlock => Ok(None),
        ReadOutcome::Failed(e) => Err(Error::Sys(e)),
    }
}

/// The handle of a signal descriptor: the descriptor number, and whether the
/// handle still owns it. A handle is released once; after that it owns
/// nothing and is not read.
#[derive(Debug)]
pub struct SignalFd {
    fd: i32,
    open: bool,
}

impl SignalFd {
    /// The descriptor number.
    pub closed spec fn spec_fd(&self) -> i32 {
        self.fd
    }

    /// Whether the handle still owns its descriptor.
    pub closed spec fn is_open(&self) -> bool {
        self.open
    }

    /// The handle once released: the same number, owned no more.
    pub closed spec fn released(&self) -> SignalFd {
        SignalFd { fd: self.fd, open: false }
    }

    /// Takes the outcome of the call `signalfd(CREATE_NEW_FD, mask, flags)`:
    /// a handle that owns the new descriptor, or the error of the call.
    pub fn created(ret: i32, errno: i32) -> (r: Result<SignalFd, Error>)
        ensures
            ret == -1 ==> r == Err::<SignalFd, Error>(Error::Sys(errno)),
            ret != -1 ==> (r matches Ok(h) && h.spec_fd() == ret && h.is_open()),
    {
        match signalfd_result(ret, errno) {
            Ok(fd) => Ok(SignalFd { fd, open: true }),
            Err(e) => Err(e),
        }
    }

    /// The descriptor number, to make system calls on.
    pub fn fd(&self) -> (r: i32)
        ensures
            r == self.spec_fd(),
    {
        self.fd
    }

    /// Takes the outcome of the call `signalfd(self.fd(), mask, flags)` that
    /// replaces the set of signals delivered. The handle stays as it was,
    /// whether the call succeeded or not.
    pub fn set_mask(&mut self, ret: i32, errno: i32) -> (r: Result<(), Error>)
        requires
            old(self).is_open(),
        ensures
            *final(self) == *old(self),
            ret == -1 ==> r == Err::<(), Error>(Error::Sys(errno)),
            ret != -1 ==> r == Ok::<(), Error>(()),
    {
        match signalfd_result(ret, errno) {
            Ok(_) => Ok(()),
            Err(e) => Err(e),
        }
    }

    /// Takes the outcome of one read of `SIGINFO_SIZE` bytes from the
    /// descriptor into `buffer`, whose bytes are in the host's byte `order`.
    pub fn read_signal(&self, outcome: ReadOutcome, buffer: &[u8], order: ByteOrder) -> (r:
        Result<Option<siginfo>, Error>)
        requires
            self.is_open(),
            buffer@.len() == SIGINFO_SIZE,
        ensures
            r == read_result(outcome, buffer@, order),
    {
        match outcome {
            ReadOutcome::Bytes(n) => {
                if n == SIGINFO_SIZE {
                    Ok(Some(siginfo::from_bytes(buffer, order)))
                } else {
                    Err(Error::PartialRead(n))
                }
            },
            ReadOutcome::WouldBlock => Ok(None),
            ReadOutcome::Failed(e) => Err(Error::Sys(e)),
        }
    }

    /// One step of a pass over the pending signals: the record that the read
    /// gave, or `None` to end the pass, whether nothing was pending or the
    /// read failed.
    pub fn next_signal(&self, outcome: ReadOutcome, buffer: &[u8], order: ByteOrder) -> (r:
        Option<siginfo>)
        requires
            self.is_open(),
            buffer@.len() == SIGINFO_SIZE,
        ensures
            r == (match read_result(outcome, buffer@, order) {
                Ok(Some(s)) => Some(s),
                _ => None,
            }),
            r is Some <==> outcome == ReadOutcome::Bytes(SIGINFO_SIZE),
    {
        match self.read_signal(outcome, buffer, order) {
            Ok(Some(s)) => Some(s),
            _ => None,
        }
    }

    /// Releases the handle: the descriptor to close, if the handle still
    /// owned one, and `None` if it had already been released.
    pub fn release(&mut self) -> (r: Option<i32>)
        ensures
            *final(self) == old(self).released(),
            old(self).is_open() ==> r == Some(old(self).spec_fd()),
            !old(self).is_open() ==> r is None,
    {
        if self.open {
            self.open = false;
            Some(self.fd)
        } else {
            None
        }
    }
}

/// A released handle owns nothing: releasing it again hands out no
/// descriptor to close and leaves it as it is.
pub proof fn lemma_release_twice(h: SignalFd)
    ensures
        !h.released().is_open(),
        h.released().released() == h.released(),
        h.released().spec_fd() == h.spec_fd(),
{
}

} // verus!
