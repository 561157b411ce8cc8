//! Buffer ownership capabilities.
//!
//! A buffer handed to the driver is moved into the operation, not
//! borrowed: its memory must stay valid and unmoved for the whole kernel
//! operation, even if the submitting task is dropped mid-flight, and the
//! completion handle is the only path back to it. These capabilities
//! describe what the driver's logic reads of a buffer — its initialized
//! byte count and its capacity — as plain values; the kernel-facing
//! shell derives the real pointers from the concrete buffer.

use vstd::prelude::*;
use crate::slice::{Slice, SliceMut};

verus! {

/// One end of a byte range, as callers write ranges: inclusive,
/// exclusive, or open.
#[derive(Clone, Copy, PartialEq, Eq, Structural, Debug)]
pub enum RangeEdge {
    Included(usize),
    Excluded(usize),
    Unbounded,
}

/// The half-open index range `[begin, end)` that a pair of range edges
/// stands for, where an open end means `end`.
pub open spec fn parse_range_spec(lo: RangeEdge, hi: RangeEdge, end: int) -> (int, int) {
    (
        match lo {
            RangeEdge::Included(n) => n as int,
            RangeEdge::Excluded(n) => n + 1,
            RangeEdge::Unbounded => 0,
        },
        match hi {
            RangeEdge::Included(n) => n + 1,
            RangeEdge::Excluded(n) => n as int,
            RangeEdge::Unbounded => end,
        },
    )
}

/// Resolves a pair of range edges against a buffer's extent `end` into a
/// half-open index range. A range whose resolved bound would not fit in
/// the index type is a caller fault; the requirements exclude it.
pub fn parse_range(lo: RangeEdge, hi: RangeEdge, end: usize) -> (r: (usize, usize))
    requires
        lo matches RangeEdge::Excluded(n) ==> n < usize::MAX,
        hi matches RangeEdge::Included(n) ==> n < usize::MAX,
    ensures
        (r.0 as int, r.1 as int) == parse_range_spec(lo, hi, end as int),
{
    let begin = match lo {
        RangeEdge::Included(n) => n,
        RangeEdge::Excluded(n) => n + 1,
        RangeEdge::Unbounded => 0,
    };
    let end = match hi {
        RangeEdge::Included(n) => n + 1,
        RangeEdge::Excluded(n) => n,
        RangeEdge::Unbounded => end,
    };
    (begin, end)
}

/// A readable buffer capability: it reports how many of its bytes are
/// initialized and may be handed, whole or sliced, to a kernel write.
pub trait IoBuf: Sized {
    /// Well-formedness of this buffer.
    spec fn buf_inv(&self) -> bool;

    /// How many bytes are initialized.
    spec fn init_spec(&self) -> nat;

    /// How many bytes are initialized.
    fn bytes_init(&self) -> (n: usize)
        requires
            self.buf_inv(),
        ensures
            n as nat == self.init_spec(),
    ;
}

/// A writable buffer capability: it reports its total capacity and
/// accepts a mark of how many leading bytes a kernel read initialized.
/// The mark is monotonic-safe: it never shrinks the initialized length
/// below what is already guaranteed.
pub trait IoBufMut: IoBuf {
    /// Total capacity in bytes.
    spec fn total_spec(&self) -> nat;

    /// The initialized bytes never exceed the capacity, and the
    /// capacity fits the index type.
    proof fn buf_bounds(&self)
        requires
            self.buf_inv(),
        ensures
            self.init_spec() <= self.total_spec() <= usize::MAX,
    ;

    /// Total capacity in bytes.
    fn bytes_total(&mut self) -> (n: usize)
        requires
            old(self).buf_inv(),
        ensures
            *final(self) == *old(self),
            n as nat == final(self).total_spec(),
    ;

    /// What marking `pos` bytes as initialized does to this buffer, in
    /// full: each implementation pins here everything of its own state
    /// beyond the length laws below — that contents and bounds survive,
    /// and where a wrapper forwards the mark.
    spec fn set_init_ensures(&self, post: Self, pos: nat) -> bool;

    /// Asserts that the first `pos` bytes are initialized. The
    /// initialized length becomes the larger of `pos` and what was
    /// already guaranteed; it never shrinks. Everything else that
    /// happens is pinned by the implementation's
    /// [`IoBufMut::set_init_ensures`].
    fn set_init(&mut self, pos: usize)
        requires
            old(self).buf_inv(),
            pos as nat <= old(self).total_spec(),
        ensures
            final(self).buf_inv(),
            final(self).total_spec() == old(self).total_spec(),
            final(self).init_spec() == if pos as nat > old(self).init_spec() {
                pos as nat
            } else {
                old(self).init_spec()
            },
            old(self).set_init_ensures(*final(self), pos as nat),
    ;
}

impl IoBuf for Vec<u8> {
    /// Any byte vector is a well-formed readable buffer.
    open spec fn buf_inv(&self) -> bool {
        true
    }

    /// Its whole length is initialized.
    open spec fn init_spec(&self) -> nat {
        self@.len()
    }

    fn bytes_init(&self) -> (n: usize) {
        self.len()
    }
}

/// A read-only view of the range of `buf` that the edges resolve to
/// against its initialized length. Bounds out of range are a caller
/// fault; the requirements exclude them.
pub fn slice<T: IoBuf>(buf: T, lo: RangeEdge, hi: RangeEdge) -> (s: Slice<T>)
    requires
        buf.buf_inv(),
        lo matches RangeEdge::Excluded(n) ==> n < usize::MAX,
        hi matches RangeEdge::Included(n) ==> n < usize::MAX,
        ({
            let (b, e) = parse_range_spec(lo, hi, buf.init_spec() as int);
            0 <= b <= e <= buf.init_spec()
        }),
    ensures
        ({
            let (b, e) = parse_range_spec(lo, hi, buf.init_spec() as int);
            &&& s == Slice::spec_new(buf, b as usize, e as usize)
            &&& s.inner_spec() == buf
            &&& s.begin_spec() == b
            &&& s.end_spec() == e
        }),
        s.buf_inv(),
{
    let init = buf.bytes_init();
    let (begin, end) = parse_range(lo, hi, init);
    Slice::new(buf, begin, end)
}

/// An owned, writable view of the range of `buf` that the edges resolve
/// to against its total capacity. Bounds out of range are a caller
/// fault; the requirements exclude them.
pub fn slice_mut<T: IoBuf + IoBufMut>(buf: T, lo: RangeEdge, hi: RangeEdge) -> (s: SliceMut<T>)
    requires
        buf.buf_inv(),
        lo matches RangeEdge::Excluded(n) ==> n < usize::MAX,
        hi matches RangeEdge::Included(n) ==> n < usize::MAX,
        ({
            let (b, e) = parse_range_spec(lo, hi, buf.total_spec() as int);
            0 <= b <= e <= buf.total_spec() && b <= buf.init_spec()
        }),
    ensures
        ({
            let (b, e) = parse_range_spec(lo, hi, buf.total_spec() as int);
            &&& s == SliceMut::spec_new(buf, b as usize, e as usize)
            &&& s.inner_spec() == buf
            &&& s.begin_spec() == b
            &&& s.end_spec() == e
        }),
        s.buf_inv(),
{
    let mut buf = buf;
    let total = buf.bytes_total();
    let (begin, end) = parse_range(lo, hi, total);
    SliceMut::new(buf, begin, end)
}

} // verus!
