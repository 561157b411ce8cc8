//! Vectored (scatter/gather) buffer capabilities.
//!
//! A vectored buffer exposes an ordered list of memory regions, each
//! described by a base address and a byte length, both held as plain
//! numbers. The kernel-facing shell owns the real pointers; it builds the
//! kernel's region array from these descriptions and supplies real base
//! addresses where they matter.

use vstd::prelude::*;

verus! {

/// One memory region of a vectored buffer: a base address and a byte
/// length, both as plain numbers. `base + len` never overflows the
/// address space, which well-formed holders state as an invariant.
#[derive(Clone, Copy, PartialEq, Eq, Structural, Debug)]
pub struct IoVecEntry {
    /// Start address of the region (an opaque number to this library).
    pub base: usize,
    /// Length of the region in bytes.
    pub len: usize,
}

/// Total byte length of a list of regions.
pub open spec fn sum_lens(s: Seq<IoVecEntry>) -> int
    decreases s.len(),
{
    if s.len() == 0 {
        0
    } else {
        s[0].len + sum_lens(s.subrange(1, s.len() as int))
    }
}

/// Every region's span `base + len` fits in the address space.
pub open spec fn entries_bounded(s: Seq<IoVecEntry>) -> bool {
    forall|i: int| 0 <= i < s.len() ==> #[trigger] s[i].base + s[i].len <= usize::MAX
}

/// A contiguous part of a bounded region list is bounded.
pub proof fn lemma_bounded_subrange(s: Seq<IoVecEntry>, i: int, j: int)
    requires
        entries_bounded(s),
        0 <= i <= j <= s.len(),
    ensures
        entries_bounded(s.subrange(i, j)),
{
    let t = s.subrange(i, j);
    assert forall|k: int| 0 <= k < t.len() implies #[trigger] t[k].base + t[k].len
        <= usize::MAX by {
        assert(t[k] == s[i + k]);
    }
}

pub proof fn lemma_sum_lens_nonneg(s: Seq<IoVecEntry>)
    ensures
        sum_lens(s) >= 0,
    decreases s.len(),
{
    if s.len() > 0 {
        lemma_sum_lens_nonneg(s.subrange(1, s.len() as int));
    }
}

/// Appending one region adds its length to the total.
pub proof fn lemma_sum_lens_push(s: Seq<IoVecEntry>, e: IoVecEntry)
    ensures
        sum_lens(s.push(e)) == sum_lens(s) + e.len,
    decreases s.len(),
{
    if s.len() == 0 {
        let t = s.push(e);
        assert(t.subrange(1, 1) =~= Seq::<IoVecEntry>::empty());
        assert(t[0] == e);
        assert(sum_lens(t) == t[0].len + sum_lens(t.subrange(1, 1)));
        assert(sum_lens(Seq::<IoVecEntry>::empty()) == 0);
    } else {
        let t = s.push(e);
        assert(t.subrange(1, s.len() as int + 1) =~= s.subrange(1, s.len() as int).push(e));
        lemma_sum_lens_push(s.subrange(1, s.len() as int), e);
        assert(t[0] == s[0]);
        assert(sum_lens(t) == t[0].len + sum_lens(t.subrange(1, s.len() as int + 1)));
    }
}

/// A readable vectored buffer: it reports its region list for a
/// scatter/gather read of already-initialized data.
pub trait IoVecBuf: Sized {
    /// Well-formedness of this holder of regions.
    spec fn iovec_inv(&self) -> bool;

    /// The region list this buffer currently exposes.
    spec fn iovecs(&self) -> Seq<IoVecEntry>;

    /// Number of regions.
    fn read_iovec_len(&self) -> (n: usize)
        requires
            self.iovec_inv(),
        ensures
            n == self.iovecs().len(),
    ;

    /// The region at position `i`.
    fn read_iovec_at(&self, i: usize) -> (e: IoVecEntry)
        requires
            self.iovec_inv(),
            i < self.iovecs().len(),
        ensures
            e == self.iovecs()[i as int],
    ;
}

/// A writable vectored buffer: it reports its region list for a
/// scatter/gather write and accepts a mark of how many bytes the kernel
/// initialized, which it must fold in region by region, not as a flat
/// offset.
pub trait IoVecBufMut: Sized {
    /// Well-formedness of this holder of regions.
    spec fn iovec_mut_inv(&self) -> bool;

    /// The region list this buffer currently exposes for writing.
    spec fn iovecs_mut(&self) -> Seq<IoVecEntry>;

    /// Whether marking `pos` bytes as initialized is within bounds for
    /// this buffer.
    spec fn set_init_allowed(&self, pos: nat) -> bool;

    /// Number of regions.
    fn write_iovec_len(&mut self) -> (n: usize)
        requires
            old(self).iovec_mut_inv(),
        ensures
            *final(self) == *old(self),
            n == final(self).iovecs_mut().len(),
    ;

    /// The region at position `i`.
    fn write_iovec_at(&mut self, i: usize) -> (e: IoVecEntry)
        requires
            old(self).iovec_mut_inv(),
            i < old(self).iovecs_mut().len(),
        ensures
            *final(self) == *old(self),
            e == final(self).iovecs_mut()[i as int],
    ;

    /// What marking `pos` bytes as initialized does to this buffer, in
    /// full: each implementation pins here exactly how the mark lands
    /// across its regions.
    spec fn set_init_ensures(&self, post: Self, pos: nat) -> bool;

    /// Marks `pos` bytes, counted across the regions in order, as
    /// initialized; the mark lands region by region, never as a flat
    /// offset, exactly as the implementation's
    /// [`IoVecBufMut::set_init_ensures`] pins it.
    fn set_init(&mut self, pos: usize)
        requires
            old(self).iovec_mut_inv(),
            old(self).set_init_allowed(pos as nat),
        ensures
            final(self).iovec_mut_inv(),
            old(self).set_init_ensures(*final(self), pos as nat),
    ;
}

/// An owned vectored buffer: a list of owned byte regions together with
/// the region descriptions a scatter/gather call works on, and a mark of
/// how many bytes of each region are initialized.
///
/// Region descriptions here carry base `0`: within this library a base
/// marks how far into the region a transfer has advanced, and the
/// kernel-facing shell adds the region's real start address when it
/// builds the kernel's array.
pub struct VecBuf {
    iovecs: Vec<IoVecEntry>,
    raw: Vec<Vec<u8>>,
    inits: Vec<usize>,
}

/// How marking `rem` bytes as initialized lands across regions, walking
/// from region `k`: each region covered in full has its mark set to its
/// whole length, the first region only partly covered has its mark set to
/// what landed in it, and later regions keep their old mark.
pub open spec fn distribute_init(
    inits: Seq<usize>,
    iovecs: Seq<IoVecEntry>,
    k: int,
    rem: int,
) -> Seq<usize>
    decreases iovecs.len() - k,
{
    if k < 0 || k >= iovecs.len() {
        inits
    } else if iovecs[k].len <= rem {
        distribute_init(inits.update(k, iovecs[k].len), iovecs, k + 1, rem - iovecs[k].len)
    } else if rem > 0 {
        inits.update(k, rem as usize)
    } else {
        inits
    }
}

impl VecBuf {
    /// The region descriptions.
    pub closed spec fn iovecs_spec(&self) -> Seq<IoVecEntry> {
        self.iovecs@
    }

    /// The owned byte regions.
    pub closed spec fn raw_spec(&self) -> Seq<Seq<u8>> {
        self.raw@.map(|i: int, v: Vec<u8>| v@)
    }

    /// How many bytes of each region are marked initialized.
    pub closed spec fn inits_spec(&self) -> Seq<usize> {
        self.inits@
    }

    /// One description, one owned region and one mark per region; each
    /// description's length is its region's length, its base is `0`, and
    /// no mark exceeds its region.
    pub open spec fn inv(&self) -> bool {
        &&& self.iovecs_spec().len() == self.raw_spec().len()
        &&& self.inits_spec().len() == self.raw_spec().len()
        &&& forall|i: int|
            0 <= i < self.raw_spec().len() ==> (#[trigger] self.iovecs_spec()[i]).len
                == self.raw_spec()[i].len() && self.iovecs_spec()[i].base == 0
        &&& forall|i: int|
            0 <= i < self.raw_spec().len() ==> (#[trigger] self.inits_spec()[i]) as int
                <= self.raw_spec()[i].len()
    }

    /// Builds an owned vectored buffer over the given regions, all fully
    /// initialized.
    pub fn from_vecs(vv: Vec<Vec<u8>>) -> (r: VecBuf)
        ensures
            r.inv(),
            r.raw_spec() == vv@.map(|i: int, v: Vec<u8>| v@),
            r.iovecs_spec().len() == vv@.len(),
            forall|i: int|
                0 <= i < vv@.len() ==> (#[trigger] r.iovecs_spec()[i]).len as nat
                    == vv@[i]@.len() && r.iovecs_spec()[i].base == 0,
            forall|i: int|
                0 <= i < vv@.len() ==> (#[trigger] r.inits_spec()[i]) as nat == vv@[i]@.len(),
    {
        let mut iovecs: Vec<IoVecEntry> = Vec::new();
        let mut inits: Vec<usize> = Vec::new();
        let n = vv.len();
        for i in 0..n
            invariant
                n == vv@.len(),
                iovecs@.len() == i,
                inits@.len() == i,
                forall|j: int|
                    0 <= j < i ==> (#[trigger] iovecs@[j]).len as nat == vv@[j]@.len()
                        && iovecs@[j].base == 0,
                forall|j: int| 0 <= j < i ==> (#[trigger] inits@[j]) as nat == vv@[j]@.len(),
        {
            let l = vv[i].len();
            iovecs.push(IoVecEntry { base: 0, len: l });
            inits.push(l);
        }
        let r = VecBuf { iovecs, raw: vv, inits };
        proof {
            assert(forall|i: int|
                0 <= i < r.raw_spec().len() ==> (#[trigger] r.raw_spec()[i]) == r.raw@[i]@);
        }
        r
    }

    /// Recovers the owned byte regions.
    pub fn into_vecs(self) -> (r: Vec<Vec<u8>>)
        ensures
            r@.map(|i: int, v: Vec<u8>| v@) == self.raw_spec(),
    {
        self.raw
    }

    /// How many bytes of region `i` are marked initialized.
    pub fn region_init(&self, i: usize) -> (n: usize)
        requires
            i < self.inits_spec().len(),
        ensures
            n == self.inits_spec()[i as int],
    {
        self.inits[i]
    }

    /// Marks `len` bytes, counted across the regions in order, as
    /// initialized: regions covered in full get their whole length, the
    /// first region only partly covered gets what landed in it, and later
    /// regions keep their old mark.
    #[verifier::loop_isolation(false)]
    pub fn mark_init(&mut self, len: usize)
        requires
            old(self).inv(),
        ensures
            final(self).inv(),
            final(self).iovecs_spec() == old(self).iovecs_spec(),
            final(self).raw_spec() == old(self).raw_spec(),
            final(self).inits_spec() == distribute_init(
                old(self).inits_spec(),
                old(self).iovecs_spec(),
                0,
                len as int,
            ),
    {
        let ghost b0 = *self;
        let mut rem: usize = len;
        let mut idx: usize = 0;
        let n = self.iovecs.len();
        loop
            invariant
                self.iovecs == b0.iovecs,
                self.raw == b0.raw,
                b0.inv(),
                self.inits@.len() == b0.inits@.len(),
                forall|j: int|
                    0 <= j < self.inits@.len() ==> (#[trigger] self.inits@[j]) as int
                        <= b0.raw_spec()[j].len(),
                n == b0.iovecs@.len(),
                0 <= idx <= n,
                rem <= len,
                distribute_init(b0.inits@, b0.iovecs@, 0, len as int) == distribute_init(
                    self.inits@,
                    b0.iovecs@,
                    idx as int,
                    rem as int,
                ),
            decreases n - idx,
        {
            if idx >= n {
                return;
            }
            let l = self.iovecs[idx].len;
            if l <= rem {
                self.inits.set(idx, l);
                rem = rem - l;
                idx = idx + 1;
            } else {
                if rem > 0 {
                    self.inits.set(idx, rem);
                }
                return;
            }
        }
    }
}

impl From<Vec<Vec<u8>>> for VecBuf {
    /// Builds an owned vectored buffer over the given regions; see
    /// [`VecBuf::from_vecs`], which carries the contract.
    fn from(vv: Vec<Vec<u8>>) -> (r: VecBuf) {
        VecBuf::from_vecs(vv)
    }
}

impl vstd::std_specs::convert::FromSpecImpl<Vec<Vec<u8>>> for VecBuf {
    open spec fn obeys_from_spec() -> bool {
        false
    }

    open spec fn from_spec(vv: Vec<Vec<u8>>) -> VecBuf {
        arbitrary()
    }
}

impl VecBuf {
    /// Copies as much of `src` as fits into the first region and marks
    /// the copied bytes initialized, region by region. Returns how many
    /// bytes were copied: the shorter of `src` and the first region.
    /// A buffer with no regions takes nothing.
    pub fn fill_first_from(&mut self, src: &[u8]) -> (n: usize)
        requires
            old(self).inv(),
        ensures
            final(self).inv(),
            final(self).iovecs_spec() == old(self).iovecs_spec(),
            old(self).raw_spec().len() == 0 ==> n == 0 && *final(self) == *old(self),
            old(self).raw_spec().len() > 0 ==> {
                &&& n == if src@.len() < old(self).raw_spec()[0].len() {
                    src@.len() as int
                } else {
                    old(self).raw_spec()[0].len() as int
                }
                &&& final(self).raw_spec() == old(self).raw_spec().update(
                    0,
                    src@.take(n as int) + old(self).raw_spec()[0].skip(n as int),
                )
                &&& final(self).inits_spec() == distribute_init(
                    old(self).inits_spec(),
                    old(self).iovecs_spec(),
                    0,
                    n as int,
                )
            },
    {
        if self.raw.len() == 0 {
            return 0;
        }
        let ghost r0 = self.raw@;
        let region = &mut self.raw[0];
        let rl = region.len();
        let sl = src.len();
        let n = if sl < rl {
            sl
        } else {
            rl
        };
        let ghost d0 = region@;
        for j in 0..n
            invariant
                n <= region@.len(),
                n <= src@.len(),
                region@.len() == d0.len(),
                forall|k: int| 0 <= k < j ==> region@[k] == src@[k],
                forall|k: int| j <= k < d0.len() ==> region@[k] == d0[k],
        {
            let b = src[j];
            region.set(j, b);
        }
        proof {
            assert(region@ =~= src@.take(n as int) + d0.skip(n as int));
        }
        self.mark_init(n);
        proof {
            assert(self.raw_spec() =~= old(self).raw_spec().update(
                0,
                src@.take(n as int) + old(self).raw_spec()[0].skip(n as int),
            ));
        }
        n
    }
}

impl IoVecBuf for VecBuf {
    open spec fn iovec_inv(&self) -> bool {
        self.inv()
    }

    open spec fn iovecs(&self) -> Seq<IoVecEntry> {
        self.iovecs_spec()
    }

    fn read_iovec_len(&self) -> (n: usize) {
        self.iovecs.len()
    }

    fn read_iovec_at(&self, i: usize) -> (e: IoVecEntry) {
        self.iovecs[i]
    }
}

impl IoVecBufMut for VecBuf {
    open spec fn iovec_mut_inv(&self) -> bool {
        self.inv()
    }

    open spec fn iovecs_mut(&self) -> Seq<IoVecEntry> {
        self.iovecs_spec()
    }

    open spec fn set_init_allowed(&self, pos: nat) -> bool {
        true
    }

    /// The mark distributes across the owned regions: regions covered in
    /// full get their whole length, the first region only partly covered
    /// gets what landed in it, later regions keep their old mark; the
    /// regions themselves and their descriptions are untouched.
    open spec fn set_init_ensures(&self, post: VecBuf, pos: nat) -> bool {
        &&& post.iovecs_spec() == self.iovecs_spec()
        &&& post.raw_spec() == self.raw_spec()
        &&& post.inits_spec() == distribute_init(
            self.inits_spec(),
            self.iovecs_spec(),
            0,
            pos as int,
        )
    }

    fn write_iovec_len(&mut self) -> (n: usize) {
        self.iovecs.len()
    }

    fn write_iovec_at(&mut self, i: usize) -> (e: IoVecEntry) {
        self.iovecs[i]
    }

    /// Marking bytes as initialized propagates across the owned regions
    /// in order, not as a flat offset.
    fn set_init(&mut self, pos: usize) {
        self.mark_init(pos)
    }
}

} // verus!
