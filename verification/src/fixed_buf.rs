//! An owned byte buffer of fixed capacity with an initialized-prefix
//! mark.
//!
//! This is the canonical writable buffer handed to read operations: its
//! storage is allocated once and never moves while the buffer is owned
//! by an operation, its capacity is the storage's length, and how many
//! leading bytes count as initialized is tracked explicitly.

use vstd::prelude::*;
use crate::io_buf::{IoBuf, IoBufMut};

verus! {

/// A fixed-capacity byte buffer: backing storage plus the length of its
/// initialized prefix.
pub struct FixedBuf {
    data: Vec<u8>,
    init: usize,
}

impl FixedBuf {
    /// The backing bytes, initialized or not.
    pub closed spec fn data_spec(&self) -> Seq<u8> {
        self.data@
    }

    /// Length of the initialized prefix.
    pub closed spec fn init_len(&self) -> int {
        self.init as int
    }

    /// A zero-filled buffer of capacity `cap` with nothing marked
    /// initialized.
    pub fn with_capacity(cap: usize) -> (r: FixedBuf)
        ensures
            r.buf_inv(),
            r.data_spec().len() == cap,
            r.init_len() == 0,
            forall|i: int| 0 <= i < cap ==> r.data_spec()[i] == 0,
    {
        let mut data: Vec<u8> = Vec::new();
        for i in 0..cap
            invariant
                data@.len() == i,
                forall|j: int| 0 <= j < i ==> data@[j] == 0,
        {
            data.push(0);
        }
        FixedBuf { data, init: 0 }
    }

    /// A buffer over `v`, fully initialized.
    pub fn from_vec(v: Vec<u8>) -> (r: FixedBuf)
        ensures
            r.buf_inv(),
            r.data_spec() == v@,
            r.init_len() == v@.len(),
    {
        let init = v.len();
        FixedBuf { data: v, init }
    }

    /// Recovers the backing bytes.
    pub fn into_vec(self) -> (r: Vec<u8>)
        ensures
            r@ == self.data_spec(),
    {
        self.data
    }

    /// The byte at position `i` of the initialized prefix.
    pub fn byte_at(&self, i: usize) -> (b: u8)
        requires
            self.buf_inv(),
            i < self.init_len(),
        ensures
            b == self.data_spec()[i as int],
    {
        self.data[i]
    }

    /// Copies as much of `src` as fits into the front of the buffer and
    /// marks the copied prefix initialized. Returns how many bytes were
    /// copied: the shorter of `src` and the capacity.
    pub fn fill_from(&mut self, src: &[u8]) -> (n: usize)
        requires
            old(self).buf_inv(),
        ensures
            final(self).buf_inv(),
            n == if src@.len() < old(self).data_spec().len() {
                src@.len()
            } else {
                old(self).data_spec().len()
            },
            final(self).data_spec() == src@.take(n as int) + old(self).data_spec().skip(n as int),
            final(self).init_len() == if n > old(self).init_len() {
                n as int
            } else {
                old(self).init_len()
            },
    {
        let n = self.fill_from_at(0, src);
        proof {
            assert(final(self).data_spec() =~= src@.take(n as int) + old(self).data_spec().skip(
                n as int,
            ));
        }
        n
    }

    /// Copies as much of `src` as fits into the buffer starting at
    /// position `at` — which must lie within the initialized prefix, so
    /// no gap of unknown bytes opens up — and extends the initialized
    /// mark over what was copied. Returns how many bytes were copied:
    /// the shorter of `src` and the room after `at`.
    #[verifier::loop_isolation(false)]
    pub fn fill_from_at(&mut self, at: usize, src: &[u8]) -> (n: usize)
        requires
            old(self).buf_inv(),
            at <= old(self).init_len() || at == 0,
            at <= old(self).data_spec().len(),
        ensures
            final(self).buf_inv(),
            n == if src@.len() < old(self).data_spec().len() - at {
                src@.len() as int
            } else {
                old(self).data_spec().len() - at
            },
            final(self).data_spec() == old(self).data_spec().take(at as int) + src@.take(n as int)
                + old(self).data_spec().skip(at + n),
            final(self).init_len() == if at + n > old(self).init_len() {
                at + n
            } else {
                old(self).init_len()
            },
    {
        let cap = self.data.len();
        let room = cap - at;
        let sl = src.len();
        let n = if sl < room {
            sl
        } else {
            room
        };
        let ghost d0 = self.data@;
        for j in 0..n
            invariant
                self.init == old(self).init,
                at + n <= self.data@.len(),
                n <= src@.len(),
                self.data@.len() == d0.len(),
                forall|k: int| 0 <= k < j ==> self.data@[at + k] == src@[k],
                forall|k: int| 0 <= k < at ==> self.data@[k] == d0[k],
                forall|k: int| at + j <= k < d0.len() ==> self.data@[k] == d0[k],
        {
            let b = src[j];
            self.data.set(at + j, b);
        }
        if at + n > self.init {
            self.init = at + n;
        }
        proof {
            assert(self.data@ =~= d0.take(at as int) + src@.take(n as int) + d0.skip(at + n));
        }
        n
    }

    /// The backing bytes as a borrowed slice, for the kernel-facing
    /// shell to derive the buffer's address.
    pub fn as_slice(&self) -> (s: &[u8])
        ensures
            s@ == self.data_spec(),
    {
        self.data.as_slice()
    }
}

impl IoBuf for FixedBuf {
    /// The initialized prefix lies within the storage.
    open spec fn buf_inv(&self) -> bool {
        self.init_len() <= self.data_spec().len()
    }

    /// Length of the initialized prefix.
    open spec fn init_spec(&self) -> nat {
        self.init_len() as nat
    }

    fn bytes_init(&self) -> (n: usize) {
        self.init
    }
}

impl IoBufMut for FixedBuf {
    proof fn buf_bounds(&self) {
        vstd::std_specs::vec::axiom_spec_len(&self.data);
    }

    /// The backing bytes survive untouched; only the mark moves, and
    /// only upward.
    open spec fn set_init_ensures(&self, post: FixedBuf, pos: nat) -> bool {
        &&& post.data_spec() == self.data_spec()
        &&& post.init_len() == if pos > self.init_len() {
            pos as int
        } else {
            self.init_len()
        }
    }

    /// The storage's length.
    open spec fn total_spec(&self) -> nat {
        self.data_spec().len()
    }

    fn bytes_total(&mut self) -> (n: usize) {
        self.data.len()
    }

    fn set_init(&mut self, pos: usize) {
        if pos > self.init {
            self.init = pos;
        }
    }
}

} // verus!
