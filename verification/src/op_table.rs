//! The operation table: a slot-stable, index-addressed store of
//! [`Lifecycle`] values.
//!
//! The index of a slot is embedded as the correlation tag in the kernel
//! submission entry, so it must stay valid until the matching completion
//! event arrives: a slot is inserted as `Submitted` and its index is
//! never reused until a terminal transition frees it. Freed indices are
//! kept on an explicit free list and handed out again only then.

use vstd::prelude::*;
use crate::completion::CompletionMeta;
use crate::lifecycle::{Lifecycle, complete_step, drop_step, poll_step};

verus! {

/// Which of the four states a slot is in, for observation without
/// touching the stored waker or payload.
#[derive(Clone, Copy, PartialEq, Eq, Structural, Debug)]
pub enum LifecycleKind {
    Submitted,
    Waiting,
    Ignored,
    Completed,
}

/// A slot-stable table of in-flight operations with free-list reuse.
pub struct OpTable<W, P> {
    slots: Vec<Option<Lifecycle<W, P>>>,
    free: Vec<usize>,
}

impl<W, P> OpTable<W, P> {
    /// The slot array: `None` is a vacant slot, `Some` an in-flight one.
    pub closed spec fn slots_view(&self) -> Seq<Option<Lifecycle<W, P>>> {
        self.slots@
    }

    /// The indices available for reuse.
    pub closed spec fn free_view(&self) -> Seq<usize> {
        self.free@
    }

    /// Every free index points at a vacant slot, and no index is on the
    /// free list twice — so an index handed out stays valid until its
    /// own terminal transition, never clobbered by a later insert.
    pub open spec fn inv(&self) -> bool {
        &&& forall|k: int|
            0 <= k < self.free_view().len() ==> (#[trigger] self.free_view()[k]) < self.slots_view().len()
                && self.slots_view()[self.free_view()[k] as int] is None
        &&& forall|k1: int, k2: int|
            0 <= k1 < k2 < self.free_view().len() ==> self.free_view()[k1] != self.free_view()[k2]
    }

    /// Whether slot `i` holds an in-flight operation.
    pub open spec fn occupied(&self, i: int) -> bool {
        0 <= i < self.slots_view().len() && self.slots_view()[i] is Some
    }

    /// The lifecycle in slot `i`.
    pub open spec fn state_of(&self, i: int) -> Lifecycle<W, P> {
        self.slots_view()[i].unwrap()
    }

    /// An empty table.
    pub fn new() -> (t: OpTable<W, P>)
        ensures
            t.inv(),
            t.slots_view().len() == 0,
            t.free_view().len() == 0,
    {
        OpTable { slots: Vec::new(), free: Vec::new() }
    }

    /// Number of slots ever allocated, vacant ones included.
    pub fn slot_count(&self) -> (n: usize)
        ensures
            n == self.slots_view().len(),
    {
        self.slots.len()
    }

    /// Whether slot `i` holds an in-flight operation.
    pub fn is_occupied(&self, i: usize) -> (b: bool)
        ensures
            b == self.occupied(i as int),
    {
        i < self.slots.len() && self.slots[i].is_some()
    }

    /// Which state slot `i` is in.
    pub fn kind_of(&self, i: usize) -> (k: LifecycleKind)
        requires
            self.occupied(i as int),
        ensures
            (k == LifecycleKind::Submitted) == (self.state_of(i as int) is Submitted),
            (k == LifecycleKind::Waiting) == (self.state_of(i as int) is Waiting),
            (k == LifecycleKind::Ignored) == (self.state_of(i as int) is Ignored),
            (k == LifecycleKind::Completed) == (self.state_of(i as int) is Completed),
    {
        match &self.slots[i] {
            Some(Lifecycle::Submitted) => LifecycleKind::Submitted,
            Some(Lifecycle::Waiting(_)) => LifecycleKind::Waiting,
            Some(Lifecycle::Ignored(_)) => LifecycleKind::Ignored,
            Some(Lifecycle::Completed(_)) => LifecycleKind::Completed,
            None => {
                proof {
                    assert(false);
                }
                LifecycleKind::Submitted
            },
        }
    }

    /// Claims a vacant slot for a new operation, as `Submitted`, and
    /// returns its index. A freed index is reused if one is available;
    /// otherwise the table grows by one slot. An index still in flight
    /// is never handed out.
    pub fn insert(&mut self) -> (i: usize)
        requires
            old(self).inv(),
        ensures
            final(self).inv(),
            !old(self).occupied(i as int),
            i < final(self).slots_view().len(),
            i as int <= old(self).slots_view().len(),
            (i as int) < old(self).slots_view().len() ==> final(self).slots_view() == old(
                self,
            ).slots_view().update(i as int, Some(Lifecycle::<W, P>::Submitted)),
            i as int == old(self).slots_view().len() ==> final(self).slots_view() == old(
                self,
            ).slots_view().push(Some(Lifecycle::<W, P>::Submitted)),
            final(self).occupied(i as int),
            final(self).state_of(i as int) == Lifecycle::<W, P>::Submitted,
    {
        match self.free.pop() {
            Some(i) => {
                self.slots.set(i, Some(Lifecycle::Submitted));
                i
            },
            None => {
                let i = self.slots.len();
                self.slots.push(Some(Lifecycle::Submitted));
                i
            },
        }
    }

    /// Harvests the kernel's completion report for slot `i`, which must
    /// be in flight and not yet completed (a double completion is a
    /// fault the kernel contract rules out). Returns the waker to wake,
    /// if a task was waiting. An `Ignored` slot is freed: its kept
    /// payload is dropped here, now that the kernel is done with it.
    pub fn complete(&mut self, i: usize, meta: CompletionMeta) -> (wake: Option<W>)
        requires
            old(self).inv(),
            old(self).occupied(i as int),
            old(self).state_of(i as int).may_complete(),
        ensures
            final(self).inv(),
            final(self).slots_view() == old(self).slots_view().update(
                i as int,
                complete_step(old(self).state_of(i as int), meta).0,
            ),
            wake == complete_step(old(self).state_of(i as int), meta).1,
    {
        let slot = &mut self.slots[i];
        let lc = slot.take();
        match lc {
            Some(Lifecycle::Submitted) => {
                *slot = Some(Lifecycle::Completed(meta));
                None
            },
            Some(Lifecycle::Waiting(w)) => {
                *slot = Some(Lifecycle::Completed(meta));
                Some(w)
            },
            Some(Lifecycle::Ignored(_payload)) => {
                self.free.push(i);
                proof {
                    self.lemma_free_vacated(*old(self), i);
                }
                None
            },
            _ => {
                proof {
                    assert(false);
                }
                None
            },
        }
    }

    /// One poll by the owning task on slot `i`, which must be in flight
    /// and still owned. Either the task suspends — `waker` is stored,
    /// replacing any earlier one — and `None` comes back, or the
    /// completion report is consumed, the slot is freed, and the report
    /// comes back.
    pub fn poll_op(&mut self, i: usize, waker: W) -> (out: Option<CompletionMeta>)
        requires
            old(self).inv(),
            old(self).occupied(i as int),
            old(self).state_of(i as int).owned(),
        ensures
            final(self).inv(),
            final(self).slots_view() == old(self).slots_view().update(
                i as int,
                poll_step(old(self).state_of(i as int), waker).0,
            ),
            out == poll_step(old(self).state_of(i as int), waker).1,
    {
        let slot = &mut self.slots[i];
        let lc = slot.take();
        match lc {
            Some(Lifecycle::Submitted) => {
                *slot = Some(Lifecycle::Waiting(waker));
                None
            },
            Some(Lifecycle::Waiting(_earlier)) => {
                *slot = Some(Lifecycle::Waiting(waker));
                None
            },
            Some(Lifecycle::Completed(meta)) => {
                self.free.push(i);
                proof {
                    self.lemma_free_vacated(*old(self), i);
                }
                Some(meta)
            },
            _ => {
                proof {
                    assert(false);
                }
                None
            },
        }
    }

    /// The owning handle of slot `i` is being dropped. Before completion
    /// the payload is stashed in the slot (`Ignored`) and `None` comes
    /// back: the caller must still issue an asynchronous cancellation,
    /// and the slot stays alive until the kernel's completion arrives.
    /// After completion the slot is freed at once and the payload handed
    /// back.
    pub fn drop_op(&mut self, i: usize, payload: P) -> (ret: Option<P>)
        requires
            old(self).inv(),
            old(self).occupied(i as int),
            old(self).state_of(i as int).owned(),
        ensures
            final(self).inv(),
            final(self).slots_view() == old(self).slots_view().update(
                i as int,
                drop_step(old(self).state_of(i as int), payload).0,
            ),
            ret == drop_step(old(self).state_of(i as int), payload).1,
    {
        let slot = &mut self.slots[i];
        let lc = slot.take();
        match lc {
            Some(Lifecycle::Submitted) => {
                *slot = Some(Lifecycle::Ignored(payload));
                None
            },
            Some(Lifecycle::Waiting(_earlier)) => {
                *slot = Some(Lifecycle::Ignored(payload));
                None
            },
            Some(Lifecycle::Completed(_meta)) => {
                self.free.push(i);
                proof {
                    self.lemma_free_vacated(*old(self), i);
                }
                Some(payload)
            },
            _ => {
                proof {
                    assert(false);
                }
                Some(payload)
            },
        }
    }

    /// Pushing the index of a slot that was occupied before and has just
    /// been vacated keeps the free list sound: it cannot already be on
    /// the list, and every listed index still points at a vacant slot.
    proof fn lemma_free_vacated(&self, prev: OpTable<W, P>, i: usize)
        requires
            prev.inv(),
            prev.occupied(i as int),
            self.slots_view() == prev.slots_view().update(i as int, None::<Lifecycle<W, P>>),
            self.free_view() == prev.free_view().push(i),
        ensures
            self.inv(),
    {
        let pf = prev.free_view();
        let nf = self.free_view();
        assert forall|k: int|
            0 <= k < nf.len() implies (#[trigger] nf[k]) < self.slots_view().len()
            && self.slots_view()[nf[k] as int] is None by {
            if k < pf.len() {
                assert(nf[k] == pf[k]);
                assert(pf[k] != i);
            } else {
                assert(nf[k] == i);
            }
        }
        assert forall|k1: int, k2: int| 0 <= k1 < k2 < nf.len() implies nf[k1] != nf[k2] by {
            if k2 == pf.len() {
                assert(nf[k1] == pf[k1]);
                assert(prev.slots_view()[pf[k1] as int] is None);
            }
        }
    }
}

} // verus!
