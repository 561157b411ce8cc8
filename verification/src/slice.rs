//! Bounded views over an owned buffer.
//!
//! A slice wraps a buffer together with a half-open range `[begin, end)`
//! without copying. The wrapped buffer is recovered whole by
//! [`Slice::into_inner`] / [`SliceMut::into_inner`] — the unwrap step a
//! caller uses after an operation completes on a slice, to get the
//! original buffer back for the next sliced operation.

use vstd::prelude::*;
use crate::io_buf::{IoBuf, IoBufMut};
use crate::io_vec_buf::{IoVecBuf, IoVecBufMut};

verus! {

/// A read-only view of `buf` bounded to `[begin, end)`.
pub struct Slice<T> {
    buf: T,
    begin: usize,
    end: usize,
}

impl<T> Slice<T> {
    /// The slice with these parts; what [`Slice::new`] returns.
    pub closed spec fn spec_new(buf: T, begin: usize, end: usize) -> Slice<T> {
        Slice { buf, begin, end }
    }

    /// The wrapped buffer.
    pub closed spec fn inner_spec(&self) -> T {
        self.buf
    }

    /// Start of the view.
    pub closed spec fn begin_spec(&self) -> int {
        self.begin as int
    }

    /// End of the view.
    pub closed spec fn end_spec(&self) -> int {
        self.end as int
    }

    /// Start of the view.
    pub fn begin(&self) -> (n: usize)
        ensures
            n == self.begin_spec(),
    {
        self.begin
    }

    /// End of the view.
    pub fn end(&self) -> (n: usize)
        ensures
            n == self.end_spec(),
    {
        self.end
    }

    /// Borrows the wrapped buffer.
    pub fn get_ref(&self) -> (r: &T)
        ensures
            *r == self.inner_spec(),
    {
        &self.buf
    }

    /// Borrows the wrapped buffer mutably.
    pub fn get_mut(&mut self) -> (r: &mut T)
        ensures
            *r == old(self).inner_spec(),
            final(self).inner_spec() == *final(r),
            final(self).begin_spec() == old(self).begin_spec(),
            final(self).end_spec() == old(self).end_spec(),
    {
        &mut self.buf
    }

    /// Recovers full ownership of the wrapped buffer, exactly as it was
    /// wrapped (up to what was done through [`Slice::get_mut`]).
    pub fn into_inner(self) -> (r: T)
        ensures
            r == self.inner_spec(),
    {
        self.buf
    }
}

impl<T: IoBuf> Slice<T> {
    /// Wraps `buf` bounded to `[begin, end)`. Bounds beyond the
    /// initialized length, or out of order, are a caller fault; the
    /// requirements exclude them.
    pub fn new(buf: T, begin: usize, end: usize) -> (s: Slice<T>)
        requires
            buf.buf_inv(),
            end as nat <= buf.init_spec(),
            begin <= end,
        ensures
            s == Slice::spec_new(buf, begin, end),
            s.inner_spec() == buf,
            s.begin_spec() == begin,
            s.end_spec() == end,
            s.buf_inv(),
    {
        Slice { buf, begin, end }
    }
}

impl<T: IoBuf> IoBuf for Slice<T> {
    /// The wrapped buffer is well formed and the view lies within its
    /// initialized bytes.
    open spec fn buf_inv(&self) -> bool {
        &&& self.inner_spec().buf_inv()
        &&& 0 <= self.begin_spec() <= self.end_spec()
        &&& self.end_spec() <= self.inner_spec().init_spec()
    }

    /// The view's whole extent is initialized.
    open spec fn init_spec(&self) -> nat {
        (self.end_spec() - self.begin_spec()) as nat
    }

    fn bytes_init(&self) -> (n: usize) {
        self.end - self.begin
    }
}

/// Law: slicing a buffer and immediately unwrapping the slice returns
/// the buffer unchanged.
pub proof fn lemma_slice_round_trip<T>(buf: T, begin: usize, end: usize)
    ensures
        Slice::spec_new(buf, begin, end).inner_spec() == buf,
{
}

/// An owned, writable view of `buf` bounded to `[begin, end)`.
pub struct SliceMut<T> {
    buf: T,
    begin: usize,
    end: usize,
}

impl<T> SliceMut<T> {
    /// The slice with these parts; what [`SliceMut::new`] returns.
    pub closed spec fn spec_new(buf: T, begin: usize, end: usize) -> SliceMut<T> {
        SliceMut { buf, begin, end }
    }

    /// The wrapped buffer.
    pub closed spec fn inner_spec(&self) -> T {
        self.buf
    }

    /// Start of the view.
    pub closed spec fn begin_spec(&self) -> int {
        self.begin as int
    }

    /// End of the view.
    pub closed spec fn end_spec(&self) -> int {
        self.end as int
    }

    /// Start of the view.
    pub fn begin(&self) -> (n: usize)
        ensures
            n == self.begin_spec(),
    {
        self.begin
    }

    /// End of the view.
    pub fn end(&self) -> (n: usize)
        ensures
            n == self.end_spec(),
    {
        self.end
    }

    /// Borrows the wrapped buffer.
    pub fn get_ref(&self) -> (r: &T)
        ensures
            *r == self.inner_spec(),
    {
        &self.buf
    }

    /// Borrows the wrapped buffer mutably.
    pub fn get_mut(&mut self) -> (r: &mut T)
        ensures
            *r == old(self).inner_spec(),
            final(self).inner_spec() == *final(r),
            final(self).begin_spec() == old(self).begin_spec(),
            final(self).end_spec() == old(self).end_spec(),
    {
        &mut self.buf
    }

    /// Recovers full ownership of the wrapped buffer, exactly as it was
    /// wrapped (up to what was done through the writable capability or
    /// [`SliceMut::get_mut`]).
    pub fn into_inner(self) -> (r: T)
        ensures
            r == self.inner_spec(),
    {
        self.buf
    }
}

impl<T: IoBuf + IoBufMut> SliceMut<T> {
    /// Wraps `buf` bounded to `[begin, end)`. An end beyond the total
    /// capacity, a begin beyond the initialized bytes, or bounds out of
    /// order, are a caller fault; the requirements exclude them.
    pub fn new(buf: T, begin: usize, end: usize) -> (s: SliceMut<T>)
        requires
            buf.buf_inv(),
            end as nat <= buf.total_spec(),
            begin as nat <= buf.init_spec(),
            begin <= end,
        ensures
            s == SliceMut::spec_new(buf, begin, end),
            s.inner_spec() == buf,
            s.begin_spec() == begin,
            s.end_spec() == end,
            s.buf_inv(),
    {
        SliceMut { buf, begin, end }
    }
}

/// Law: slicing a buffer mutably and immediately unwrapping the slice
/// returns the buffer unchanged.
pub proof fn lemma_slice_mut_round_trip<T>(buf: T, begin: usize, end: usize)
    ensures
        SliceMut::spec_new(buf, begin, end).inner_spec() == buf,
{
}

impl<T: IoBuf> IoBuf for SliceMut<T> {
    /// The wrapped buffer is well formed, the bounds are ordered, and
    /// the view starts within the buffer's initialized bytes.
    open spec fn buf_inv(&self) -> bool {
        &&& self.inner_spec().buf_inv()
        &&& 0 <= self.begin_spec() <= self.end_spec()
        &&& self.begin_spec() <= self.inner_spec().init_spec()
    }

    /// The initialized part of the view, clamped to the buffer's
    /// current initialized length: a buffer whose initialized length
    /// changed since slicing (a zero-length short read, say) yields a
    /// correspondingly shorter view.
    open spec fn init_spec(&self) -> nat {
        if self.inner_spec().init_spec() < self.end_spec() {
            (self.inner_spec().init_spec() - self.begin_spec()) as nat
        } else {
            (self.end_spec() - self.begin_spec()) as nat
        }
    }

    fn bytes_init(&self) -> (n: usize) {
        let bi = self.buf.bytes_init();
        let e = if bi < self.end {
            bi
        } else {
            self.end
        };
        e - self.begin
    }
}

impl<T: IoBuf + IoBufMut> IoBufMut for SliceMut<T> {
    proof fn buf_bounds(&self) {
        self.inner_spec().buf_bounds();
    }

    /// Slice-relative positions map to absolute buffer positions: the
    /// mark is forwarded to the wrapped buffer as exactly `begin + pos`
    /// — with the wrapped buffer's own mark law and its own full
    /// `set_init` account applied there — and the bounds stay put.
    open spec fn set_init_ensures(&self, post: SliceMut<T>, pos: nat) -> bool {
        &&& post.begin_spec() == self.begin_spec()
        &&& post.end_spec() == self.end_spec()
        &&& self.inner_spec().set_init_ensures(
            post.inner_spec(),
            (self.begin_spec() + pos) as nat,
        )
        &&& post.inner_spec().buf_inv()
        &&& post.inner_spec().total_spec() == self.inner_spec().total_spec()
        &&& post.inner_spec().init_spec() == if self.begin_spec() + pos
            > self.inner_spec().init_spec() {
            (self.begin_spec() + pos) as nat
        } else {
            self.inner_spec().init_spec()
        }
    }

    /// The view's capacity, clamped to what the wrapped buffer can
    /// hold.
    open spec fn total_spec(&self) -> nat {
        if self.inner_spec().total_spec() < self.end_spec() {
            if self.inner_spec().total_spec() < self.begin_spec() {
                0
            } else {
                (self.inner_spec().total_spec() - self.begin_spec()) as nat
            }
        } else {
            (self.end_spec() - self.begin_spec()) as nat
        }
    }

    fn bytes_total(&mut self) -> (n: usize) {
        let bt = self.buf.bytes_total();
        let e = if bt < self.end {
            bt
        } else {
            self.end
        };
        if e < self.begin {
            0
        } else {
            e - self.begin
        }
    }

    /// Marking `pos` bytes of the view as initialized marks
    /// `begin + pos` bytes of the wrapped buffer.
    fn set_init(&mut self, pos: usize) {
        proof {
            self.buf.buf_bounds();
        }
        self.buf.set_init(self.begin + pos);
    }
}

/// Treats the first region of a vectored buffer as one plain buffer, for
/// kernel calls that take a single range. Only a vectored buffer with at
/// least one region can be wrapped.
pub struct IoVecWrapper<T> {
    raw: T,
}

impl<T> IoVecWrapper<T> {
    /// The wrapped vectored buffer.
    pub closed spec fn inner_spec(&self) -> T {
        self.raw
    }
}

impl<T: IoVecBuf> IoVecWrapper<T> {
    /// Wraps a vectored buffer, or hands it back if it has no regions.
    pub fn new(iovec_buf: T) -> (r: Result<IoVecWrapper<T>, T>)
        requires
            iovec_buf.iovec_inv(),
        ensures
            iovec_buf.iovecs().len() == 0 ==> r == Err::<IoVecWrapper<T>, T>(iovec_buf),
            iovec_buf.iovecs().len() > 0 ==> (r matches Ok(w) && w.inner_spec() == iovec_buf),
    {
        if iovec_buf.read_iovec_len() == 0 {
            return Err(iovec_buf);
        }
        Ok(IoVecWrapper { raw: iovec_buf })
    }

    /// Recovers the wrapped vectored buffer.
    pub fn into_inner(self) -> (r: T)
        ensures
            r == self.inner_spec(),
    {
        self.raw
    }
}

impl<T: IoVecBuf> IoBuf for IoVecWrapper<T> {
    /// The wrapped vectored buffer is well formed and has a first
    /// region.
    open spec fn buf_inv(&self) -> bool {
        &&& self.inner_spec().iovec_inv()
        &&& self.inner_spec().iovecs().len() > 0
    }

    /// The first region's whole length counts as initialized.
    open spec fn init_spec(&self) -> nat {
        self.inner_spec().iovecs()[0].len as nat
    }

    fn bytes_init(&self) -> (n: usize) {
        self.raw.read_iovec_at(0).len
    }
}

/// Treats the first region of a writable vectored buffer as one plain
/// buffer, for kernel calls that take a single range. Only a vectored
/// buffer with at least one region can be wrapped; the first region's
/// length is recorded at wrapping time.
pub struct IoVecWrapperMut<T> {
    raw: T,
    first_len: usize,
}

impl<T> IoVecWrapperMut<T> {
    /// The wrapped vectored buffer.
    pub closed spec fn inner_spec(&self) -> T {
        self.raw
    }

    /// Length of the wrapped buffer's first region.
    pub closed spec fn first_len_spec(&self) -> int {
        self.first_len as int
    }
}

impl<T: IoVecBufMut> IoVecWrapperMut<T> {
    /// Wraps a writable vectored buffer, or hands it back if it has no
    /// regions.
    pub fn new(iovec_buf: T) -> (r: Result<IoVecWrapperMut<T>, T>)
        requires
            iovec_buf.iovec_mut_inv(),
        ensures
            iovec_buf.iovecs_mut().len() == 0 ==> r == Err::<IoVecWrapperMut<T>, T>(iovec_buf),
            iovec_buf.iovecs_mut().len() > 0 ==> (r matches Ok(w) && w.inner_spec() == iovec_buf
                && w.buf_inv()),
    {
        let mut iovec_buf = iovec_buf;
        if iovec_buf.write_iovec_len() == 0 {
            return Err(iovec_buf);
        }
        let first_len = iovec_buf.write_iovec_at(0).len;
        Ok(IoVecWrapperMut { raw: iovec_buf, first_len })
    }

    /// Recovers the wrapped vectored buffer.
    pub fn into_inner(self) -> (r: T)
        ensures
            r == self.inner_spec(),
    {
        self.raw
    }
}

impl<T: IoVecBufMut> IoBuf for IoVecWrapperMut<T> {
    /// The wrapped vectored buffer is well formed, has a first region,
    /// and the recorded length is that region's.
    open spec fn buf_inv(&self) -> bool {
        &&& self.inner_spec().iovec_mut_inv()
        &&& self.inner_spec().iovecs_mut().len() > 0
        &&& self.first_len_spec() == self.inner_spec().iovecs_mut()[0].len
    }

    /// The first region's whole length: the region is handed out for
    /// writing at its full extent.
    open spec fn init_spec(&self) -> nat {
        self.first_len_spec() as nat
    }

    fn bytes_init(&self) -> (n: usize) {
        self.first_len
    }
}

impl<T: IoVecBufMut> IoBufMut for IoVecWrapperMut<T> {
    proof fn buf_bounds(&self) {
    }

    /// The mark is a no-op here: the wrapped vectored buffer's own
    /// accounting folds transferred bytes in afterwards, region by
    /// region, and the value comes through unchanged.
    open spec fn set_init_ensures(&self, post: IoVecWrapperMut<T>, pos: nat) -> bool {
        post == *self
    }

    /// The first region's whole length.
    open spec fn total_spec(&self) -> nat {
        self.first_len_spec() as nat
    }

    fn bytes_total(&mut self) -> (n: usize) {
        self.first_len
    }

    /// The region is already handed out at its full extent; how many
    /// bytes a transfer initialized is folded in afterwards, region by
    /// region, through the vectored buffer's own accounting.
    fn set_init(&mut self, _pos: usize) {
    }
}

} // verus!
