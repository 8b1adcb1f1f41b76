//! The error that a failed system call hands to the runtime.

use vstd::prelude::*;

verus! {

/// The error number with which a non-blocking call says that it cannot
/// complete yet. `EWOULDBLOCK` has the same value on Linux.
pub const EAGAIN: i32 = 11;

/// A failed system call, identified by the error number the OS reported.
#[derive(Clone, Copy, Debug, PartialEq, Eq, Structural)]
pub struct SysError {
    pub errno: i32,
}

impl SysError {
    /// Whether this failure only says "try again later". It is a signal to
    /// suspend, never a terminal failure.
    pub open spec fn would_block(self) -> bool {
        self.errno == EAGAIN
    }

    /// The failure with error number `errno`.
    pub fn new(errno: i32) -> (e: SysError)
        ensures
            e.errno == errno,
    {
        SysError { errno }
    }

    /// The error number.
    pub fn errno(&self) -> (n: i32)
        ensures
            n == self.errno,
    {
        self.errno
    }

    /// Classifies the failure by its error number alone.
    pub fn is_would_block(&self) -> (b: bool)
        ensures
            b == self.would_block(),
    {
        self.errno == EAGAIN
    }
}

} // verus!
