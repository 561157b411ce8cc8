//! A file descriptor shared among pending operations.
//!
//! Several in-flight operations may reference the same descriptor at
//! once; none mutates it. The kernel-facing shell owns the descriptor's
//! actual lifetime (opening, reference counting, closing); here it is
//! the plain number the submission entries carry.

use vstd::prelude::*;

verus! {

/// A shareable handle on a raw file descriptor.
#[derive(Clone, Copy, PartialEq, Eq, Structural, Debug)]
pub struct SharedFd {
    fd: i32,
}

impl SharedFd {
    /// The raw descriptor number.
    pub closed spec fn fd_spec(&self) -> i32 {
        self.fd
    }

    /// Wraps a raw descriptor.
    pub fn new(fd: i32) -> (r: SharedFd)
        ensures
            r.fd_spec() == fd,
    {
        SharedFd { fd }
    }

    /// The raw descriptor number.
    pub fn raw_fd(&self) -> (fd: i32)
        ensures
            fd == self.fd_spec(),
    {
        self.fd
    }
}

} // verus!
