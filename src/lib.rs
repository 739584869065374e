//! Signal-directed file descriptors: the record that the kernel hands out for
//! each queued signal, the options a descriptor is created with, and the
//! decisions around creating, reading and releasing one.
//!
//! The system calls themselves are made by the caller; every function here
//! takes what a call returned and decides what follows.
pub mod error;
pub mod flags;
pub mod signalfd;
pub mod wire;
pub mod record;

pub use error::Error;
pub use flags::{SfdFlags, SFD_CLOEXEC, SFD_NONBLOCK};
pub use signalfd::{ReadOutcome, SignalFd, CREATE_NEW_FD, signalfd_result};
pub use wire::ByteOrder;
pub use record::{siginfo, SignalInfo, SIGINFO_SIZE, SIGINFO_PADDING};
