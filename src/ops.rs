//! The operations that callers name, and their numbers on the build target.
use vstd::prelude::*;
use crate::dispatch::SyscallNumber;

verus! {

/// A kernel operation, by name.
#[derive(Clone, Copy, Debug, PartialEq, Eq, Structural)]
pub enum Operation {
    /// Returns the identifier of the calling process.
    Getpid,
    /// Returns the identifier of the calling thread.
    Gettid,
    /// Opens a path relative to a directory descriptor.
    Openat,
    /// Closes a descriptor.
    Close,
    /// Reads directory entries from a descriptor.
    Getdents64,
    /// Ends every thread of the process.
    ExitGroup,
}

/// The number of `op` on the build target: a constant of the kernel's
/// headers, fixed when the library is built.
pub uninterp spec fn nr_of(op: Operation) -> u32;

/// Relies on `linux_raw_sys::general::__NR_getpid`: the number of `getpid` on the
/// build target.
#[verifier::external_body]
fn nr_getpid() -> (r: u32)
    ensures
        r == nr_of(Operation::Getpid),
{
    linux_raw_sys::general::__NR_getpid
}

/// Relies on `linux_raw_sys::general::__NR_gettid`: the number of `gettid` on the
/// build target.
#[verifier::external_body]
fn nr_gettid() -> (r: u32)
    ensures
        r == nr_of(Operation::Gettid),
{
    linux_raw_sys::general::__NR_gettid
}

/// Relies on `linux_raw_sys::general::__NR_openat`: the number of `openat` on the
/// build target.
#[verifier::external_body]
fn nr_openat() -> (r: u32)
    ensures
        r == nr_of(Operation::Openat),
{
    linux_raw_sys::general::__NR_openat
}

/// Relies on `linux_raw_sys::general::__NR_close`: the number of `close` on the
/// build target.
#[verifier::external_body]
fn nr_close() -> (r: u32)
    ensures
        r == nr_of(Operation::Close),
{
    linux_raw_sys::general::__NR_close
}

/// Relies on `linux_raw_sys::general::__NR_getdents64`: the number of `getdents64` on the
/// build target.
#[verifier::external_body]
fn nr_getdents64() -> (r: u32)
    ensures
        r == nr_of(Operation::Getdents64),
{
    linux_raw_sys::general::__NR_getdents64
}

/// Relies on `linux_raw_sys::general::__NR_exit_group`: the number of `exit_group` on the
/// build target.
#[verifier::external_body]
fn nr_exit_group() -> (r: u32)
    ensures
        r == nr_of(Operation::ExitGroup),
{
    linux_raw_sys::general::__NR_exit_group
}

impl Operation {
    /// The operation's number on the build target, as the kernel's headers
    /// give it.
    pub fn number(self) -> (r: SyscallNumber)
        ensures
            r.nr == nr_of(self),
    {
        let nr: u32 = match self {
            Operation::Getpid => nr_getpid(),
            Operation::Gettid => nr_gettid(),
            Operation::Openat => nr_openat(),
            Operation::Close => nr_close(),
            Operation::Getdents64 => nr_getdents64(),
            Operation::ExitGroup => nr_exit_group(),
        };
        SyscallNumber::new(nr)
    }
}

} // verus!
