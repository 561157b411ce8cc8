//! Partial-completion accounting for vectored I/O.
//!
//! [`IoVecMeta`] snapshots the region list of a vectored buffer. After a
//! short transfer, [`IoVecMeta::consume`] folds the transferred byte count
//! into the snapshot — whole regions are passed over, the first region not
//! fully consumed is shrunk in place and its base advanced — so the
//! operation can be retried from the right position without rebuilding the
//! region array.

use vstd::prelude::*;
use crate::io_vec_buf::{IoVecBuf, IoVecBufMut, IoVecEntry, entries_bounded, sum_lens};
use crate::io_vec_buf::{lemma_bounded_subrange, lemma_sum_lens_nonneg, lemma_sum_lens_push};

verus! {

/// What consuming `used` bytes leaves of a region list: regions shorter
/// than the count are dropped, a region matching it exactly is dropped,
/// and a longer one is shrunk in place with its base advanced.
pub open spec fn consume_entries(s: Seq<IoVecEntry>, used: int) -> Seq<IoVecEntry>
    decreases s.len(),
{
    if used <= 0 {
        s
    } else if s.len() == 0 {
        s
    } else if s[0].len < used {
        consume_entries(s.subrange(1, s.len() as int), used - s[0].len)
    } else if s[0].len == used {
        s.subrange(1, s.len() as int)
    } else {
        s.subrange(1, s.len() as int).insert(
            0,
            (IoVecEntry { base: (s[0].base + used) as usize, len: (s[0].len - used) as usize }),
        )
    }
}

/// Consuming removes exactly the consumed bytes from the total length.
pub proof fn lemma_consume_entries_sum(s: Seq<IoVecEntry>, used: int)
    requires
        entries_bounded(s),
        0 <= used <= sum_lens(s),
    ensures
        sum_lens(consume_entries(s, used)) == sum_lens(s) - used,
        entries_bounded(consume_entries(s, used)),
    decreases s.len(),
{
    let rest = s.subrange(1, s.len() as int);
    if used == 0 {
    } else if s.len() == 0 {
    } else {
        assert(entries_bounded(rest)) by {
            assert(forall|i: int|
                0 <= i < rest.len() ==> #[trigger] rest[i].base + rest[i].len <= usize::MAX
                    && rest[i] == s[i + 1]);
        }
        if s[0].len < used {
            lemma_consume_entries_sum(rest, used - s[0].len);
        } else if s[0].len == used {
        } else {
            let e = (IoVecEntry {
                base: (s[0].base + used) as usize,
                len: (s[0].len - used) as usize,
            });
            let r = rest.insert(0, e);
            assert(r[0] == e);
            assert(r.subrange(1, r.len() as int) =~= rest);
            assert(sum_lens(r) == e.len + sum_lens(rest));
            assert(entries_bounded(r)) by {
                assert(forall|i: int| 1 <= i < r.len() ==> r[i] == rest[i - 1]);
                assert(e.base + e.len == s[0].base + s[0].len);
            }
        }
    }
}

/// A consumable snapshot of a vectored buffer's regions, with a running
/// total of the bytes still to transfer.
pub struct IoVecMeta {
    data: Vec<IoVecEntry>,
    offset: usize,
    len: usize,
}

impl IoVecMeta {
    /// All snapshotted regions, consumed ones included.
    pub closed spec fn entries(&self) -> Seq<IoVecEntry> {
        self.data@
    }

    /// Index of the first region not yet fully consumed.
    pub closed spec fn offset_spec(&self) -> int {
        self.offset as int
    }

    /// The regions still to transfer.
    pub open spec fn remaining(&self) -> Seq<IoVecEntry> {
        self.entries().subrange(self.offset_spec(), self.entries().len() as int)
    }

    /// Total bytes still to transfer.
    pub closed spec fn len_spec(&self) -> int {
        self.len as int
    }

    /// The offset points into the region list, the running total matches
    /// the remaining regions, and every remaining region's span fits in
    /// the address space.
    pub open spec fn inv(&self) -> bool {
        &&& 0 <= self.offset_spec() <= self.entries().len()
        &&& self.len_spec() == sum_lens(self.remaining())
        &&& entries_bounded(self.remaining())
    }

    /// Total bytes still to transfer.
    pub fn len(&self) -> (n: usize)
        requires
            self.inv(),
        ensures
            n == self.len_spec(),
    {
        self.len
    }

    /// Index of the first region not yet fully consumed.
    pub fn offset(&self) -> (n: usize)
        requires
            self.inv(),
        ensures
            n == self.offset_spec(),
    {
        self.offset
    }

    /// Number of snapshotted regions, consumed ones included.
    pub fn count(&self) -> (n: usize)
        ensures
            n == self.entries().len(),
    {
        self.data.len()
    }

    /// The snapshotted region at position `i`.
    pub fn entry_at(&self, i: usize) -> (e: IoVecEntry)
        requires
            i < self.entries().len(),
        ensures
            e == self.entries()[i as int],
    {
        self.data[i]
    }

    /// A snapshot over the given regions, none consumed yet: how the
    /// kernel-facing shell builds a snapshot from region descriptions it
    /// derived itself.
    #[verifier::loop_isolation(false)]
    pub fn from_entries(entries: Vec<IoVecEntry>) -> (m: IoVecMeta)
        requires
            entries_bounded(entries@),
            sum_lens(entries@) <= usize::MAX,
        ensures
            m.inv(),
            m.entries() == entries@,
            m.offset_spec() == 0,
            m.len_spec() == sum_lens(entries@),
    {
        let mut len: usize = 0;
        let n = entries.len();
        for i in 0..n
            invariant
                n == entries@.len(),
                len == sum_lens(entries@.subrange(0, i as int)),
        {
            proof {
                lemma_sum_lens_push(entries@.subrange(0, i as int), entries@[i as int]);
                lemma_sum_prefix_le(entries@, i as int + 1);
                assert(entries@.subrange(0, i as int + 1) =~= entries@.subrange(
                    0,
                    i as int,
                ).push(entries@[i as int]));
            }
            len = len + entries[i].len;
        }
        proof {
            assert(entries@.subrange(0, n as int) =~= entries@);
            let m = (IoVecMeta { data: entries, offset: 0, len });
            assert(m.remaining() =~= entries@);
        }
        IoVecMeta { data: entries, offset: 0, len }
    }

    /// Folds `used` transferred bytes into the snapshot: regions are
    /// passed over until the first one not fully consumed, which is
    /// shrunk in place and its base advanced. Consuming more bytes than
    /// remain is a caller fault; the requirement excludes it.
    #[verifier::loop_isolation(false)]
    pub fn consume(&mut self, used: usize)
        requires
            old(self).inv(),
            used <= old(self).len_spec(),
        ensures
            final(self).inv(),
            final(self).remaining() == consume_entries(old(self).remaining(), used as int),
            final(self).len_spec() == old(self).len_spec() - used,
            final(self).entries().len() == old(self).entries().len(),
    {
        proof {
            lemma_consume_entries_sum(self.remaining(), used as int);
        }
        if used == 0 {
            assert(final(self).remaining() =~= consume_entries(old(self).remaining(), 0));
            return;
        }
        let ghost m0 = *self;
        let mut rem: usize = used;
        let mut off: usize = self.offset;
        loop
            invariant
                *self == m0,
                m0.inv(),
                m0.offset <= off <= m0.data@.len(),
                0 < rem <= used <= m0.len_spec(),
                rem <= sum_lens(m0.data@.subrange(off as int, m0.data@.len() as int)),
                consume_entries(m0.remaining(), used as int) == consume_entries(
                    m0.data@.subrange(off as int, m0.data@.len() as int),
                    rem as int,
                ),
            decreases m0.data@.len() - off,
        {
            let ghost tail = m0.data@.subrange(off as int, m0.data@.len() as int);
            proof {
                lemma_sum_lens_nonneg(tail);
                if tail.len() == 0 {
                    assert(sum_lens(tail) == 0);
                }
                assert(tail.len() > 0);
                assert(tail =~= m0.remaining().subrange(
                    off - m0.offset_spec(),
                    m0.remaining().len() as int,
                ));
                lemma_bounded_subrange(
                    m0.remaining(),
                    off - m0.offset_spec(),
                    m0.remaining().len() as int,
                );
            }
            let dlen = self.data.len();
            assert(off < dlen);
            let e = self.data[off];
            proof {
                assert(e == tail[0]);
                assert(tail.subrange(1, tail.len() as int) =~= m0.data@.subrange(
                    off as int + 1,
                    m0.data@.len() as int,
                ));
                lemma_sum_lens_nonneg(tail.subrange(1, tail.len() as int));
            }
            if e.len < rem {
                rem = rem - e.len;
                off = off + 1;
            } else if e.len == rem {
                self.offset = off + 1;
                self.len = self.len - used;
                proof {
                    assert(self.remaining() =~= tail.subrange(1, tail.len() as int));
                    assert(consume_entries(tail, rem as int) == tail.subrange(
                        1,
                        tail.len() as int,
                    ));
                    assert(self.remaining() == consume_entries(m0.remaining(), used as int));
                    lemma_consume_entries_sum(m0.remaining(), used as int);
                    assert(self.len_spec() == m0.len_spec() - used);
                }
                return;
            } else {
                proof {
                    assert(entries_bounded(tail));
                    assert(tail[0].base + tail[0].len <= usize::MAX);
                }
                let nb = e.base + rem;
                let nl = e.len - rem;
                self.data.set(off, IoVecEntry { base: nb, len: nl });
                self.offset = off;
                self.len = self.len - used;
                proof {
                    assert(self.remaining() =~= tail.subrange(1, tail.len() as int).insert(
                        0,
                        (IoVecEntry { base: nb, len: nl }),
                    ));
                    assert(consume_entries(tail, rem as int) == tail.subrange(
                        1,
                        tail.len() as int,
                    ).insert(0, (IoVecEntry { base: nb, len: nl })));
                    assert(self.remaining() == consume_entries(m0.remaining(), used as int));
                    lemma_consume_entries_sum(m0.remaining(), used as int);
                    assert(self.len_spec() == m0.len_spec() - used);
                }
                return;
            }
        }
    }
}

impl IoVecBuf for IoVecMeta {
    open spec fn iovec_inv(&self) -> bool {
        self.inv()
    }

    open spec fn iovecs(&self) -> Seq<IoVecEntry> {
        self.remaining()
    }

    fn read_iovec_len(&self) -> (n: usize) {
        self.data.len() - self.offset
    }

    fn read_iovec_at(&self, i: usize) -> (e: IoVecEntry) {
        let dlen = self.data.len();
        assert(self.offset + i < dlen);
        self.data[self.offset + i]
    }
}

impl IoVecBufMut for IoVecMeta {
    open spec fn iovec_mut_inv(&self) -> bool {
        self.inv()
    }

    open spec fn iovecs_mut(&self) -> Seq<IoVecEntry> {
        self.remaining()
    }

    open spec fn set_init_allowed(&self, pos: nat) -> bool {
        pos <= self.len_spec()
    }

    /// The mark consumes the snapshot: the remaining regions become
    /// what consuming `pos` bytes leaves, and the running total drops by
    /// exactly `pos`.
    open spec fn set_init_ensures(&self, post: IoVecMeta, pos: nat) -> bool {
        &&& post.remaining() == consume_entries(self.remaining(), pos as int)
        &&& post.len_spec() == self.len_spec() - pos
        &&& post.entries().len() == self.entries().len()
    }

    fn write_iovec_len(&mut self) -> (n: usize) {
        self.data.len() - self.offset
    }

    fn write_iovec_at(&mut self, i: usize) -> (e: IoVecEntry) {
        let dlen = self.data.len();
        assert(self.offset + i < dlen);
        self.data[self.offset + i]
    }

    /// Marking bytes as initialized on a snapshot consumes them, region
    /// by region.
    fn set_init(&mut self, pos: usize) {
        self.consume(pos)
    }
}

/// Total of a sequence of consume amounts.
pub open spec fn sum_amounts(ks: Seq<int>) -> int
    decreases ks.len(),
{
    if ks.len() == 0 {
        0
    } else {
        ks[0] + sum_amounts(ks.subrange(1, ks.len() as int))
    }
}

/// The region list left after consuming each amount of `ks` in order.
pub open spec fn consume_fold(s: Seq<IoVecEntry>, ks: Seq<int>) -> Seq<IoVecEntry>
    decreases ks.len(),
{
    if ks.len() == 0 {
        s
    } else {
        consume_fold(consume_entries(s, ks[0]), ks.subrange(1, ks.len() as int))
    }
}

pub proof fn lemma_sum_amounts_nonneg(ks: Seq<int>)
    requires
        forall|i: int| 0 <= i < ks.len() ==> ks[i] >= 0,
    ensures
        sum_amounts(ks) >= 0,
    decreases ks.len(),
{
    if ks.len() > 0 {
        lemma_sum_amounts_nonneg(ks.subrange(1, ks.len() as int));
    }
}

/// A run of consumes removes exactly the consumed total: as long as the
/// amounts stay within the bytes remaining, every step is in bounds and
/// what is left is the original total less the amounts consumed so far.
pub proof fn lemma_consume_fold_sum(s: Seq<IoVecEntry>, ks: Seq<int>)
    requires
        entries_bounded(s),
        forall|i: int| 0 <= i < ks.len() ==> ks[i] >= 0,
        sum_amounts(ks) <= sum_lens(s),
    ensures
        sum_lens(consume_fold(s, ks)) == sum_lens(s) - sum_amounts(ks),
        entries_bounded(consume_fold(s, ks)),
    decreases ks.len(),
{
    if ks.len() > 0 {
        let rest = ks.subrange(1, ks.len() as int);
        lemma_sum_amounts_nonneg(rest);
        lemma_consume_entries_sum(s, ks[0]);
        lemma_consume_fold_sum(consume_entries(s, ks[0]), rest);
    }
}

/// Law: consuming amounts that add up to exactly the total length of the
/// regions drives the snapshot to an empty remaining state — no bytes
/// left to transfer — with every step in bounds. An amount beyond what
/// remains is excluded by [`IoVecMeta::consume`]'s requirement.
pub proof fn lemma_consume_drains(s: Seq<IoVecEntry>, ks: Seq<int>)
    requires
        entries_bounded(s),
        forall|i: int| 0 <= i < ks.len() ==> ks[i] >= 0,
        sum_amounts(ks) == sum_lens(s),
    ensures
        sum_lens(consume_fold(s, ks)) == 0,
{
    lemma_consume_fold_sum(s, ks);
}

/// Snapshots the regions of a readable vectored buffer, with their total
/// byte length, for a gather write of its contents.
pub fn read_vec_meta<T: IoVecBuf>(iovec_buf: &T) -> (m: IoVecMeta)
    requires
        iovec_buf.iovec_inv(),
        entries_bounded(iovec_buf.iovecs()),
        sum_lens(iovec_buf.iovecs()) <= usize::MAX,
    ensures
        m.inv(),
        m.entries() == iovec_buf.iovecs(),
        m.offset_spec() == 0,
        m.len_spec() == sum_lens(iovec_buf.iovecs()),
{
    let iovec_len = iovec_buf.read_iovec_len();
    let mut data: Vec<IoVecEntry> = Vec::new();
    let mut len: usize = 0;
    let ghost all = iovec_buf.iovecs();
    for i in 0..iovec_len
        invariant
            iovec_buf.iovec_inv(),
            all == iovec_buf.iovecs(),
            iovec_len == all.len(),
            entries_bounded(all),
            sum_lens(all) <= usize::MAX,
            data@ =~= all.subrange(0, i as int),
            len == sum_lens(data@),
    {
        let iovec = iovec_buf.read_iovec_at(i);
        proof {
            lemma_sum_lens_push(data@, iovec);
            lemma_sum_prefix_le(all, i as int + 1);
            assert(all.subrange(0, i as int + 1) =~= data@.push(iovec));
        }
        data.push(iovec);
        len = len + iovec.len;
    }
    proof {
        assert(data@ =~= all);
        let m = (IoVecMeta { data, offset: 0, len });
        assert(m.remaining() =~= all);
    }
    IoVecMeta { data, offset: 0, len }
}

/// Snapshots the regions of a writable vectored buffer, with their total
/// byte length, for a scatter read into it.
pub fn write_vec_meta<T: IoVecBufMut>(iovec_buf: &mut T) -> (m: IoVecMeta)
    requires
        old(iovec_buf).iovec_mut_inv(),
        entries_bounded(old(iovec_buf).iovecs_mut()),
        sum_lens(old(iovec_buf).iovecs_mut()) <= usize::MAX,
    ensures
        *final(iovec_buf) == *old(iovec_buf),
        m.inv(),
        m.entries() == old(iovec_buf).iovecs_mut(),
        m.offset_spec() == 0,
        m.len_spec() == sum_lens(old(iovec_buf).iovecs_mut()),
{
    let iovec_len = iovec_buf.write_iovec_len();
    let mut data: Vec<IoVecEntry> = Vec::new();
    let mut len: usize = 0;
    let ghost all = iovec_buf.iovecs_mut();
    for i in 0..iovec_len
        invariant
            iovec_buf.iovec_mut_inv(),
            *iovec_buf == *old(iovec_buf),
            all == iovec_buf.iovecs_mut(),
            iovec_len == all.len(),
            entries_bounded(all),
            sum_lens(all) <= usize::MAX,
            data@ =~= all.subrange(0, i as int),
            len == sum_lens(data@),
    {
        let iovec = iovec_buf.write_iovec_at(i);
        proof {
            lemma_sum_lens_push(data@, iovec);
            lemma_sum_prefix_le(all, i as int + 1);
            assert(all.subrange(0, i as int + 1) =~= data@.push(iovec));
        }
        data.push(iovec);
        len = len + iovec.len;
    }
    proof {
        assert(data@ =~= all);
        let m = (IoVecMeta { data, offset: 0, len });
        assert(m.remaining() =~= all);
    }
    IoVecMeta { data, offset: 0, len }
}

/// The total length of a prefix never exceeds the total length.
pub proof fn lemma_sum_prefix_le(s: Seq<IoVecEntry>, i: int)
    requires
        0 <= i <= s.len(),
    ensures
        sum_lens(s.subrange(0, i)) <= sum_lens(s),
{
    lemma_sum_suffix_split(s, i);
    lemma_sum_lens_nonneg(s.subrange(i, s.len() as int));
}

/// Splitting a region list at `i` splits its total length.
pub proof fn lemma_sum_suffix_split(s: Seq<IoVecEntry>, i: int)
    requires
        0 <= i <= s.len(),
    ensures
        sum_lens(s) == sum_lens(s.subrange(0, i)) + sum_lens(s.subrange(i, s.len() as int)),
    decreases i,
{
    if i == 0 {
        assert(s.subrange(0, 0) =~= Seq::<IoVecEntry>::empty());
        assert(s.subrange(0, s.len() as int) =~= s);
    } else {
        lemma_sum_suffix_split(s, i - 1);
        let p = s.subrange(0, i);
        let q = s.subrange(0, i - 1);
        assert(p =~= q.push(s[i - 1]));
        lemma_sum_lens_push(q, s[i - 1]);
        let t = s.subrange(i - 1, s.len() as int);
        assert(t.len() > 0);
        assert(t[0] == s[i - 1]);
        assert(t.subrange(1, t.len() as int) =~= s.subrange(i, s.len() as int));
        assert(sum_lens(t) == t[0].len + sum_lens(t.subrange(1, t.len() as int)));
    }
}

} // verus!
