//! Progress accounting for exhaustive transfers.
//!
//! The driver never retries a short read or write itself; the layer
//! above loops — slice the untransferred tail, issue the operation,
//! await, repeat. [`ExactTransfer`] is that loop's decision core: it
//! accounts for progress and classifies each operation result into
//! "go again", "done" and the two failure shapes, so the surrounding
//! loop only performs the I/O.

use vstd::prelude::*;

verus! {

/// The OS error code of an interrupted call, which an exhaustive
/// transfer retries rather than surfaces.
pub const EINTR: i32 = 4;

/// What an exhaustive transfer does after one operation result.
#[derive(Clone, Copy, PartialEq, Eq, Structural, Debug)]
pub enum TransferStep {
    /// Not finished: slice the tail from the bytes done so far and
    /// issue the next operation.
    Again,
    /// All requested bytes were transferred.
    Done,
    /// The operation transferred nothing: the transfer cannot be
    /// completed (end of file on a read, a zero write on a write).
    ZeroTransfer,
    /// The operation failed with this OS error code; surface it.
    Fail(i32),
}

/// Progress of one exhaustive transfer: how many of the requested bytes
/// have been transferred so far.
pub struct ExactTransfer {
    done: usize,
    total: usize,
}

impl ExactTransfer {
    /// Bytes transferred so far.
    pub closed spec fn done_spec(&self) -> int {
        self.done as int
    }

    /// Bytes requested in all.
    pub closed spec fn total_spec(&self) -> int {
        self.total as int
    }

    /// Progress never exceeds the request.
    pub open spec fn inv(&self) -> bool {
        self.done_spec() <= self.total_spec()
    }

    /// A transfer of `total` bytes, none done yet.
    pub fn new(total: usize) -> (r: ExactTransfer)
        ensures
            r.inv(),
            r.done_spec() == 0,
            r.total_spec() == total,
    {
        ExactTransfer { done: 0, total }
    }

    /// Bytes transferred so far: the start of the tail still to
    /// transfer.
    pub fn done(&self) -> (n: usize)
        ensures
            n == self.done_spec(),
    {
        self.done
    }

    /// Bytes requested in all.
    pub fn total(&self) -> (n: usize)
        ensures
            n == self.total_spec(),
    {
        self.total
    }

    /// Bytes still to transfer.
    pub fn remaining(&self) -> (n: usize)
        requires
            self.inv(),
        ensures
            n == self.total_spec() - self.done_spec(),
    {
        self.total - self.done
    }

    /// Folds one operation result into the progress and says what to do
    /// next: a positive count advances the transfer (done when the
    /// request is met); a zero count means the transfer cannot be
    /// completed; an interrupted call is retried; any other error is
    /// surfaced. An operation never transfers more than was asked of
    /// it, which the requirement records.
    pub fn on_result(&mut self, res: Result<usize, i32>) -> (step: TransferStep)
        requires
            old(self).inv(),
            res matches Ok(n) ==> n <= old(self).total_spec() - old(self).done_spec(),
        ensures
            final(self).inv(),
            final(self).total_spec() == old(self).total_spec(),
            match res {
                Ok(n) => {
                    if n == 0 {
                        &&& step == TransferStep::ZeroTransfer
                        &&& final(self).done_spec() == old(self).done_spec()
                    } else {
                        &&& final(self).done_spec() == old(self).done_spec() + n
                        &&& step == if final(self).done_spec() == final(self).total_spec() {
                            TransferStep::Done
                        } else {
                            TransferStep::Again
                        }
                    }
                },
                Err(e) => {
                    &&& final(self).done_spec() == old(self).done_spec()
                    &&& step == if e == EINTR {
                        TransferStep::Again
                    } else {
                        TransferStep::Fail(e)
                    }
                },
            },
    {
        match res {
            Ok(n) => {
                if n == 0 {
                    TransferStep::ZeroTransfer
                } else {
                    self.done = self.done + n;
                    if self.done == self.total {
                        TransferStep::Done
                    } else {
                        TransferStep::Again
                    }
                }
            },
            Err(e) => {
                if e == EINTR {
                    TransferStep::Again
                } else {
                    TransferStep::Fail(e)
                }
            },
        }
    }
}

} // verus!
