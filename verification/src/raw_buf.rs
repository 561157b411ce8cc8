//! An externally-owned byte range, described by a base address and a
//! length held as plain numbers.
//!
//! Whoever constructs a [`RawBuf`] asserts that the memory behind the
//! range stays valid and unmoved while any operation referencing it is
//! outstanding. Within this library the range is only ever bookkeeping;
//! the kernel-facing shell turns the numbers back into pointers.

use vstd::prelude::*;
use crate::io_buf::{IoBuf, IoBufMut};
use crate::io_vec_buf::{IoVecBuf, IoVecBufMut, entries_bounded};

verus! {

/// An externally-owned byte range: base address and length.
pub struct RawBuf {
    base: usize,
    len: usize,
}

impl RawBuf {
    /// The range's base address.
    pub closed spec fn base_spec(&self) -> int {
        self.base as int
    }

    /// The range's length.
    pub closed spec fn len_spec(&self) -> int {
        self.len as int
    }

    /// An empty range.
    pub fn uninit() -> (r: RawBuf)
        ensures
            r.base_spec() == 0,
            r.len_spec() == 0,
            r.buf_inv(),
    {
        RawBuf { base: 0, len: 0 }
    }

    /// The range of `len` bytes starting at `base`. A range wrapping
    /// past the end of the address space is a caller fault; the
    /// requirement excludes it.
    pub fn new(base: usize, len: usize) -> (r: RawBuf)
        requires
            base + len <= usize::MAX,
        ensures
            r.base_spec() == base,
            r.len_spec() == len,
            r.buf_inv(),
    {
        RawBuf { base, len }
    }

    /// The range's base address.
    pub fn read_base(&self) -> (b: usize)
        ensures
            b == self.base_spec(),
    {
        self.base
    }

    /// The first region of a readable vectored buffer as a raw range,
    /// or nothing if the buffer has no regions.
    pub fn new_from_iovec<T: IoVecBuf>(data: &T) -> (r: Option<RawBuf>)
        requires
            data.iovec_inv(),
            entries_bounded(data.iovecs()),
        ensures
            data.iovecs().len() == 0 ==> r is None,
            data.iovecs().len() > 0 ==> (r matches Some(b) && b.base_spec()
                == data.iovecs()[0].base && b.len_spec() == data.iovecs()[0].len && b.buf_inv()),
    {
        if data.read_iovec_len() == 0 {
            return None;
        }
        let iovec = data.read_iovec_at(0);
        Some(RawBuf { base: iovec.base, len: iovec.len })
    }

    /// The first region of a writable vectored buffer as a raw range,
    /// or nothing if the buffer has no regions.
    pub fn new_from_iovec_mut<T: IoVecBufMut>(data: &mut T) -> (r: Option<RawBuf>)
        requires
            old(data).iovec_mut_inv(),
            entries_bounded(old(data).iovecs_mut()),
        ensures
            *final(data) == *old(data),
            old(data).iovecs_mut().len() == 0 ==> r is None,
            old(data).iovecs_mut().len() > 0 ==> (r matches Some(b) && b.base_spec() == old(
                data,
            ).iovecs_mut()[0].base && b.len_spec() == old(data).iovecs_mut()[0].len
                && b.buf_inv()),
    {
        if data.write_iovec_len() == 0 {
            return None;
        }
        let iovec = data.write_iovec_at(0);
        Some(RawBuf { base: iovec.base, len: iovec.len })
    }
}

impl IoBuf for RawBuf {
    /// The range does not wrap past the end of the address space.
    open spec fn buf_inv(&self) -> bool {
        self.base_spec() + self.len_spec() <= usize::MAX
    }

    /// The whole range counts as initialized: an external owner asserts
    /// its contents.
    open spec fn init_spec(&self) -> nat {
        self.len_spec() as nat
    }

    fn bytes_init(&self) -> (n: usize) {
        self.len
    }
}

impl IoBufMut for RawBuf {
    proof fn buf_bounds(&self) {
    }

    /// The mark is a no-op: the range is externally owned, base and
    /// length included, and the value comes through unchanged.
    open spec fn set_init_ensures(&self, post: RawBuf, pos: nat) -> bool {
        post == *self
    }

    /// The whole range is writable.
    open spec fn total_spec(&self) -> nat {
        self.len_spec() as nat
    }

    fn bytes_total(&mut self) -> (n: usize) {
        self.len
    }

    /// An external owner tracks initialization; the range itself counts
    /// as fully available either way.
    fn set_init(&mut self, _pos: usize) {
    }
}

} // verus!
