//! The per-request handle returned to callers.
//!
//! An [`Op`] owns exactly one operation-table slot until resolved. Each
//! poll either suspends (the caller's waker is installed in the slot) or
//! consumes the completed result, handing back the payload together with
//! the completion metadata. On resolution the handle's index is reset to
//! a sentinel so a later drop never frees a slot twice; a drop before
//! resolution stashes the payload in the slot and issues an asynchronous
//! cancellation.

use vstd::prelude::*;
use crate::completion::CompletionMeta;
use crate::desc::{OpDesc, SqEntry};
use crate::lifecycle::{Lifecycle, drop_step, poll_step};
use crate::ring::{CANCEL_USERDATA, MIN_RESERVED_USERDATA, RingCore, SubmitPrep, is_user_tag};

verus! {

/// The slot index an [`Op`] carries once resolved: no table slot is ever
/// at this index, so a drop after resolution touches nothing.
pub const RESOLVED_INDEX: usize = usize::MAX;

/// A request type that can produce its kernel submission description
/// from its own fields. This is the sole extension point for adding new
/// operation kinds.
pub trait OpAble: Sized {
    /// The submission description this request stands for.
    spec fn desc_spec(&self) -> OpDesc;

    /// Produces the submission description.
    fn uring_op(&mut self) -> (d: OpDesc)
        ensures
            *final(self) == *old(self),
            d == old(self).desc_spec(),
    ;
}

/// A resolved operation: the payload handed back together with the
/// completion metadata, verbatim as the kernel reported it.
pub struct Completion<P> {
    pub data: P,
    pub meta: CompletionMeta,
}

/// What one poll of an [`Op`] yields.
pub enum OpPoll<P> {
    /// The operation has not completed; the caller's waker is installed.
    Pending,
    /// The operation completed; the slot is consumed.
    Ready(Completion<P>),
}

/// What dropping an [`Op`] did.
pub enum DropAction {
    /// The handle was already resolved; nothing was touched.
    AlreadyResolved,
    /// The operation had already completed: the slot was freed and the
    /// payload dropped; no cancellation is needed.
    Finished,
    /// The operation is still in flight: the payload stays stashed in
    /// the slot and one cancellation entry was queued, after a flush if
    /// the queue was full.
    CancelIssued { flushed: bool },
}

/// A plain record of an operation's index, for issuing a cancellation
/// without holding the handle.
#[derive(Clone, Copy, PartialEq, Eq, Structural, Debug)]
pub struct OpCanceller {
    pub index: usize,
}

/// The handle of one in-flight operation: its table index and its
/// payload, which it owns until resolution.
pub struct Op<P> {
    index: usize,
    payload: Option<P>,
}

impl<P> Op<P> {
    /// The table index this handle owns.
    pub closed spec fn index_spec(&self) -> int {
        self.index as int
    }

    /// The payload, until the operation resolves.
    pub closed spec fn payload_spec(&self) -> Option<P> {
        self.payload
    }

    /// Whether the handle has resolved (or been dropped) and no longer
    /// owns a slot.
    pub open spec fn resolved(&self) -> bool {
        self.index_spec() == RESOLVED_INDEX as int
    }

    /// An unresolved handle holds its payload and owns an in-flight,
    /// still-owned slot of `ring`'s table.
    pub open spec fn valid<W>(&self, ring: &RingCore<W, P>) -> bool {
        !self.resolved() ==> {
            &&& self.payload_spec() is Some
            &&& ring.table_spec().occupied(self.index_spec())
            &&& ring.table_spec().state_of(self.index_spec()).owned()
        }
    }

    /// The table index this handle owns.
    pub fn index(&self) -> (i: usize)
        ensures
            i == self.index_spec(),
    {
        self.index
    }

    /// The payload, for the kernel-facing shell to derive the raw
    /// pointers its submission entry needs.
    pub fn payload_ref(&self) -> (p: &Option<P>)
        ensures
            *p == self.payload_spec(),
    {
        &self.payload
    }

    /// Registers and submits a request: the payload's description is
    /// queued for the kernel under a fresh table slot's index, and the
    /// handle owning that slot is returned. If the queue was full it was
    /// flushed once first and the push then succeeded: the request is
    /// never dropped.
    pub fn submit_with<W>(ring: &mut RingCore<W, P>, payload: P) -> (r: (Op<P>, SubmitPrep)) where
        P: OpAble,

        requires
            old(ring).inv(),
            old(ring).table_spec().slots_view().len() < MIN_RESERVED_USERDATA,
            old(ring).table_spec().slots_view().len() < RESOLVED_INDEX,
        ensures
            final(ring).inv(),
            r.0.valid(final(ring)),
            !r.0.resolved(),
            r.0.index_spec() == r.1.index,
            r.0.payload_spec() == Some(payload),
            r.1.flushed == (old(ring).sq_spec().len() == old(ring).cap_spec()),
            is_user_tag(r.1.index as u64),
            r.1.index as int <= old(ring).table_spec().slots_view().len(),
            !old(ring).table_spec().occupied(r.1.index as int),
            final(ring).table_spec().occupied(r.1.index as int),
            final(ring).table_spec().state_of(r.1.index as int) == Lifecycle::<W, P>::Submitted,
            final(ring).table_spec().slots_view().len() <= old(
                ring,
            ).table_spec().slots_view().len() + 1,
            final(ring).table_spec().slots_view().len() >= old(
                ring,
            ).table_spec().slots_view().len(),
            forall|j: int|
                0 <= j < old(ring).table_spec().slots_view().len() && j != r.1.index as int
                    ==> final(ring).table_spec().slots_view()[j] == old(
                    ring,
                ).table_spec().slots_view()[j],
            ({
                let entry = SqEntry { desc: payload.desc_spec(), user_data: r.1.index as u64 };
                if r.1.flushed {
                    final(ring).sq_spec() == seq![entry]
                } else {
                    final(ring).sq_spec() == old(ring).sq_spec().push(entry)
                }
            }),
            final(ring).cap_spec() == old(ring).cap_spec(),
            final(ring).ext_arg_spec() == old(ring).ext_arg_spec(),
    {
        let mut payload = payload;
        let desc = payload.uring_op();
        let prep = ring.submit_entry(desc);
        let index = prep.index;
        proof {
            assert(index != RESOLVED_INDEX);
        }
        (Op { index, payload: Some(payload) }, prep)
    }

    /// One poll by the owning task: either the task suspends — `waker`
    /// is installed in the slot — or the completed result is consumed,
    /// the slot freed, and the payload handed back with the completion
    /// metadata. The handle then carries the resolved sentinel so a
    /// later drop frees nothing.
    pub fn poll_with<W>(&mut self, ring: &mut RingCore<W, P>, waker: W) -> (out: OpPoll<P>)
        requires
            old(ring).inv(),
            !old(self).resolved(),
            old(self).valid(old(ring)),
        ensures
            final(ring).inv(),
            final(ring).sq_spec() == old(ring).sq_spec(),
            final(ring).cap_spec() == old(ring).cap_spec(),
            final(ring).ext_arg_spec() == old(ring).ext_arg_spec(),
            ({
                let step = poll_step(
                    old(ring).table_spec().state_of(old(self).index_spec()),
                    waker,
                );
                &&& final(ring).table_spec().slots_view() == old(
                    ring,
                ).table_spec().slots_view().update(old(self).index_spec(), step.0)
                &&& match out {
                    OpPoll::Pending => step.1 is None && *final(self) == *old(self),
                    OpPoll::Ready(c) => {
                        &&& step.1 == Some(c.meta)
                        &&& c.data == old(self).payload_spec().unwrap()
                        &&& final(self).resolved()
                        &&& final(self).payload_spec() is None
                    },
                }
            }),
    {
        let out = ring.poll_op(self.index, waker);
        match out {
            None => OpPoll::Pending,
            Some(meta) => {
                self.index = RESOLVED_INDEX;
                let data = self.payload.take();
                match data {
                    Some(d) => OpPoll::Ready(Completion { data: d, meta }),
                    None => {
                        proof {
                            assert(false);
                        }
                        OpPoll::Pending
                    },
                }
            },
        }
    }

    /// The handle is being dropped. A resolved handle touches nothing.
    /// Otherwise, if the operation had already completed its slot is
    /// freed and the payload dropped here; if it is still in flight the
    /// payload is stashed in the slot — kept alive until the kernel's
    /// completion arrives — and exactly one cancellation entry, tagged
    /// [`CANCEL_USERDATA`], is queued.
    pub fn on_drop<W>(&mut self, ring: &mut RingCore<W, P>) -> (act: DropAction)
        requires
            old(ring).inv(),
            old(self).valid(old(ring)),
        ensures
            final(ring).inv(),
            final(self).resolved(),
            final(ring).cap_spec() == old(ring).cap_spec(),
            final(ring).ext_arg_spec() == old(ring).ext_arg_spec(),
            old(self).resolved() ==> act == DropAction::AlreadyResolved && *final(ring) == *old(
                ring,
            ) && *final(self) == *old(self),
            !old(self).resolved() ==> ({
                let step = drop_step(
                    old(ring).table_spec().state_of(old(self).index_spec()),
                    old(self).payload_spec().unwrap(),
                );
                &&& final(ring).table_spec().slots_view() == old(
                    ring,
                ).table_spec().slots_view().update(old(self).index_spec(), step.0)
                &&& final(self).payload_spec() is None
                &&& match act {
                    DropAction::AlreadyResolved => false,
                    DropAction::Finished => step.1 is Some && final(ring).sq_spec() == old(
                        ring,
                    ).sq_spec(),
                    DropAction::CancelIssued { flushed } => {
                        &&& step.1 is None
                        &&& flushed == (old(ring).sq_spec().len() == old(ring).cap_spec())
                        &&& {
                            let cancel = SqEntry {
                                desc: OpDesc::Cancel { target: old(self).index_spec() as u64 },
                                user_data: CANCEL_USERDATA,
                            };
                            if flushed {
                                final(ring).sq_spec() == seq![cancel]
                            } else {
                                final(ring).sq_spec() == old(ring).sq_spec().push(cancel)
                            }
                        }
                    },
                }
            }),
    {
        if self.index == RESOLVED_INDEX {
            return DropAction::AlreadyResolved;
        }
        let payload = self.payload.take();
        match payload {
            Some(p) => {
                let prep = ring.drop_op(self.index, p);
                self.index = RESOLVED_INDEX;
                match prep.finished {
                    Some(_done) => DropAction::Finished,
                    None => DropAction::CancelIssued { flushed: prep.flushed },
                }
            },
            None => {
                proof {
                    assert(false);
                }
                DropAction::AlreadyResolved
            },
        }
    }

    /// A plain record of this operation's index, for cancelling without
    /// the handle.
    pub fn op_canceller(&self) -> (c: OpCanceller)
        ensures
            c.index == self.index_spec(),
    {
        OpCanceller { index: self.index }
    }
}

} // verus!
