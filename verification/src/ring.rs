//! The ring driver core: the operation table, a model of the kernel's
//! submission queue, and the reserved correlation tags.
//!
//! The kernel-facing shell owns the real ring and mirrors this state: a
//! push here is a push of the real entry there, and wherever a returned
//! preparation says `flushed`, the shell must hand the queued entries to
//! the kernel (submitting until the kernel accepts, harvesting
//! completions and retrying on a transient "busy" error, propagating any
//! other error). After every wait the shell harvests the completion
//! events and hands them to [`RingCore::tick`].

use vstd::prelude::*;
use crate::completion::{CompletionMeta, get_cqe_result};
use crate::desc::{CqEvent, OpDesc, SqEntry, TimeSpec};
use crate::lifecycle::{Lifecycle, complete_step, drop_step, poll_step};
use crate::op_table::OpTable;

verus! {

/// Correlation tag of a cancellation request's own completion: it must
/// not be mistaken for a user operation's completion.
pub const CANCEL_USERDATA: u64 = u64::MAX;

/// Correlation tag of a one-shot timeout entry installed for a timed
/// park.
pub const TIMEOUT_USERDATA: u64 = u64::MAX - 1;

/// The floor of the reserved tag space: tags at or above it are never
/// issued to the operation table.
pub const MIN_RESERVED_USERDATA: u64 = u64::MAX - 2;

/// Whether a correlation tag belongs to a user operation, as opposed to
/// the reserved bookkeeping tags at the top of the tag space.
pub open spec fn is_user_tag(ud: u64) -> bool {
    ud < MIN_RESERVED_USERDATA
}

/// The completion metadata a harvested event carries: a non-negative
/// result is a success count, a negative one the negated OS error code.
pub open spec fn meta_of(e: CqEvent) -> CompletionMeta {
    CompletionMeta {
        result: if e.result >= 0 {
            Ok(e.result as u32)
        } else {
            Err((0 - e.result as int) as i32)
        },
        flags: e.flags,
    }
}

/// What registering one submission returns: the table index issued to
/// the request, and whether the queue had to be flushed to the kernel
/// first to make room.
pub struct SubmitPrep {
    pub index: usize,
    pub flushed: bool,
}

/// What a cancellation push returns: whether the queue had to be flushed
/// first to make room.
pub struct CancelPrep {
    pub flushed: bool,
}

/// What dropping an operation's handle returns. `finished` carries the
/// payload back when the operation had already completed; otherwise the
/// payload stays stashed in the slot, `cancelled` says a cancellation
/// entry was pushed, and `flushed` whether the queue was flushed to make
/// room for it.
pub struct DropPrep<P> {
    pub finished: Option<P>,
    pub cancelled: bool,
    pub flushed: bool,
}

/// What preparing a park returns. `pre_flushed` says the queue was
/// flushed to make room for a timeout entry. Exactly one of the two
/// timeout fields is set when a timeout was requested: `timeout_entry`
/// hands the shell the one-shot timeout entry that was queued — always
/// tagged [`TIMEOUT_USERDATA`], so its completion is bookkeeping, never
/// a user completion — when no native timed wait is available;
/// `timed_wait` says the shell should use the kernel's native timed
/// submit-and-wait, treating a timed-out outcome as success. The wait
/// itself submits every queued entry, so the queue model ends empty
/// either way.
pub struct ParkPrep {
    pub pre_flushed: bool,
    pub timeout_entry: Option<SqEntry>,
    pub timed_wait: Option<TimeSpec>,
}

/// Whether each harvested event can be driven into the table: every
/// user-tagged event points at an in-flight slot not yet completed (the
/// kernel reports exactly one completion per submission), no two events
/// carry the same user tag, and no result is the one value whose
/// negation does not exist.
pub open spec fn tick_events_ok<W, P>(
    slots: Seq<Option<Lifecycle<W, P>>>,
    events: Seq<CqEvent>,
) -> bool {
    &&& forall|k: int|
        0 <= k < events.len() && is_user_tag((#[trigger] events[k]).user_data) ==> {
            &&& events[k].user_data < slots.len()
            &&& slots[events[k].user_data as int] is Some
            &&& slots[events[k].user_data as int].unwrap().may_complete()
        }
    &&& forall|k1: int, k2: int|
        0 <= k1 < k2 < events.len() && is_user_tag((#[trigger] events[k1]).user_data)
            && is_user_tag((#[trigger] events[k2]).user_data) ==> events[k1].user_data
            != events[k2].user_data
    &&& forall|k: int|
        0 <= k < events.len() && is_user_tag((#[trigger] events[k]).user_data) ==> events[k].result
            != i32::MIN
}

/// What draining a batch of completion events does: events with reserved
/// tags are bookkeeping only; each user-tagged event drives its slot's
/// completion, and the wakers of tasks that were waiting come out in
/// event order.
pub open spec fn tick_fold<W, P>(
    slots: Seq<Option<Lifecycle<W, P>>>,
    events: Seq<CqEvent>,
) -> (Seq<Option<Lifecycle<W, P>>>, Seq<W>)
    decreases events.len(),
{
    if events.len() == 0 {
        (slots, Seq::empty())
    } else {
        let e = events[0];
        let rest = events.subrange(1, events.len() as int);
        if is_user_tag(e.user_data) {
            let step = complete_step(slots[e.user_data as int].unwrap(), meta_of(e));
            let folded = tick_fold(slots.update(e.user_data as int, step.0), rest);
            if step.1 is Some {
                (folded.0, seq![step.1.unwrap()] + folded.1)
            } else {
                folded
            }
        } else {
            tick_fold(slots, rest)
        }
    }
}

/// The OS error code of a temporarily busy submission, retried after
/// harvesting completions.
pub const EBUSY: i32 = 16;

/// The OS error code of a try-again condition, retried after harvesting
/// completions.
pub const EAGAIN: i32 = 11;

/// What the submit loop does after a kernel submit error.
#[derive(Clone, Copy, PartialEq, Eq, Structural, Debug)]
pub enum SubmitStep {
    /// A transient busy error: harvest completions and submit again;
    /// never surfaced.
    Retry,
    /// Any other error propagates to the caller.
    Propagate(i32),
}

/// Classifies one kernel submit error by its OS error code: the
/// transient busy class is retried after a tick, everything else
/// propagates.
pub fn on_submit_error(code: i32) -> (s: SubmitStep)
    ensures
        s == if code == EAGAIN || code == EBUSY {
            SubmitStep::Retry
        } else {
            SubmitStep::Propagate(code)
        },
{
    if code == EAGAIN || code == EBUSY {
        SubmitStep::Retry
    } else {
        SubmitStep::Propagate(code)
    }
}

/// The driver core for one ring: the operation table, the model of the
/// kernel's submission queue with its capacity, and whether the kernel
/// offers extended wait arguments (a native timed wait).
pub struct RingCore<W, P> {
    table: OpTable<W, P>,
    sq: Vec<SqEntry>,
    sq_cap: usize,
    ext_arg: bool,
}

impl<W, P> RingCore<W, P> {
    /// The operation table.
    pub closed spec fn table_spec(&self) -> OpTable<W, P> {
        self.table
    }

    /// The entries queued for the kernel and not yet submitted.
    pub closed spec fn sq_spec(&self) -> Seq<SqEntry> {
        self.sq@
    }

    /// Capacity of the submission queue.
    pub closed spec fn cap_spec(&self) -> int {
        self.sq_cap as int
    }

    /// Whether the kernel offers a native timed wait.
    pub closed spec fn ext_arg_spec(&self) -> bool {
        self.ext_arg
    }

    /// The table is sound and the queue never exceeds its capacity,
    /// which is at least one entry.
    pub open spec fn inv(&self) -> bool {
        &&& self.table_spec().inv()
        &&& self.sq_spec().len() <= self.cap_spec()
        &&& self.cap_spec() >= 1
    }

    /// A fresh driver core with an empty table and queue.
    pub fn new(sq_cap: usize, ext_arg: bool) -> (r: RingCore<W, P>)
        requires
            sq_cap >= 1,
        ensures
            r.inv(),
            r.table_spec().slots_view().len() == 0,
            r.sq_spec().len() == 0,
            r.cap_spec() == sq_cap,
            r.ext_arg_spec() == ext_arg,
    {
        RingCore { table: OpTable::new(), sq: Vec::new(), sq_cap, ext_arg }
    }

    /// The operation table, for observation.
    pub fn table_ref(&self) -> (t: &OpTable<W, P>)
        ensures
            *t == self.table_spec(),
    {
        &self.table
    }

    /// Number of entries queued for the kernel.
    pub fn sq_len(&self) -> (n: usize)
        ensures
            n == self.sq_spec().len(),
    {
        self.sq.len()
    }

    /// Capacity of the submission queue.
    pub fn sq_capacity(&self) -> (n: usize)
        ensures
            n == self.cap_spec(),
    {
        self.sq_cap
    }

    /// Whether the submission queue is full.
    pub fn sq_is_full(&self) -> (b: bool)
        ensures
            b == (self.sq_spec().len() == self.cap_spec()),
    {
        self.sq.len() == self.sq_cap
    }

    /// The queued entry at position `i`.
    pub fn sq_entry_at(&self, i: usize) -> (e: &SqEntry)
        requires
            i < self.sq_spec().len(),
        ensures
            *e == self.sq_spec()[i as int],
    {
        &self.sq[i]
    }

    /// The kernel-facing shell just submitted every queued entry to the
    /// kernel: the queue model empties; nothing else changes.
    pub fn note_flushed(&mut self)
        requires
            old(self).inv(),
        ensures
            final(self).inv(),
            final(self).sq_spec().len() == 0,
            final(self).table_spec() == old(self).table_spec(),
            final(self).cap_spec() == old(self).cap_spec(),
            final(self).ext_arg_spec() == old(self).ext_arg_spec(),
    {
        self.sq.clear();
    }

    /// Registers one request: claims a table slot as `Submitted`, tags
    /// the entry with the slot index — always below the reserved tag
    /// space — and queues it for the kernel. If the queue is full it is
    /// flushed first (`flushed` tells the shell to do the same), and the
    /// push then succeeds: the request is never dropped.
    pub fn submit_entry(&mut self, desc: OpDesc) -> (prep: SubmitPrep)
        requires
            old(self).inv(),
            old(self).table_spec().slots_view().len() < MIN_RESERVED_USERDATA,
        ensures
            final(self).inv(),
            prep.flushed == (old(self).sq_spec().len() == old(self).cap_spec()),
            !old(self).table_spec().occupied(prep.index as int),
            final(self).table_spec().occupied(prep.index as int),
            final(self).table_spec().state_of(prep.index as int) == Lifecycle::<W, P>::Submitted,
            is_user_tag(prep.index as u64),
            prep.index as int <= old(self).table_spec().slots_view().len(),
            final(self).table_spec().slots_view().len() <= old(
                self,
            ).table_spec().slots_view().len() + 1,
            final(self).table_spec().slots_view().len() >= old(self).table_spec().slots_view().len(),
            forall|j: int|
                0 <= j < old(self).table_spec().slots_view().len() && j != prep.index as int
                    ==> final(self).table_spec().slots_view()[j] == old(
                    self,
                ).table_spec().slots_view()[j],
            ({
                let entry = SqEntry { desc: desc, user_data: prep.index as u64 };
                if prep.flushed {
                    final(self).sq_spec() == seq![entry]
                } else {
                    final(self).sq_spec() == old(self).sq_spec().push(entry)
                }
            }),
            final(self).cap_spec() == old(self).cap_spec(),
            final(self).ext_arg_spec() == old(self).ext_arg_spec(),
    {
        let flushed = self.sq.len() == self.sq_cap;
        if flushed {
            self.sq.clear();
        }
        let index = self.table.insert();
        self.sq.push(SqEntry { desc, user_data: index as u64 });
        proof {
            if flushed {
                assert(self.sq@ =~= seq![
                    SqEntry { desc: desc, user_data: index as u64 },
                ]);
            }
        }
        SubmitPrep { index, flushed }
    }

    /// One poll by the owning task on the operation at `index`: either
    /// the task suspends with its waker stored, or the completion report
    /// is consumed and the slot freed.
    pub fn poll_op(&mut self, index: usize, waker: W) -> (out: Option<CompletionMeta>)
        requires
            old(self).inv(),
            old(self).table_spec().occupied(index as int),
            old(self).table_spec().state_of(index as int).owned(),
        ensures
            final(self).inv(),
            final(self).table_spec().slots_view() == old(self).table_spec().slots_view().update(
                index as int,
                poll_step(old(self).table_spec().state_of(index as int), waker).0,
            ),
            out == poll_step(old(self).table_spec().state_of(index as int), waker).1,
            final(self).sq_spec() == old(self).sq_spec(),
            final(self).cap_spec() == old(self).cap_spec(),
            final(self).ext_arg_spec() == old(self).ext_arg_spec(),
    {
        self.table.poll_op(index, waker)
    }

    /// The owning handle of the operation at `index` is being dropped.
    /// If the operation had already completed, the payload comes back
    /// and nothing is queued. Otherwise the payload stays stashed in the
    /// slot until the kernel is done with it, and exactly one
    /// cancellation entry, tagged [`CANCEL_USERDATA`], is queued — after
    /// a flush if the queue was full.
    pub fn drop_op(&mut self, index: usize, payload: P) -> (prep: DropPrep<P>)
        requires
            old(self).inv(),
            old(self).table_spec().occupied(index as int),
            old(self).table_spec().state_of(index as int).owned(),
        ensures
            final(self).inv(),
            final(self).table_spec().slots_view() == old(self).table_spec().slots_view().update(
                index as int,
                drop_step(old(self).table_spec().state_of(index as int), payload).0,
            ),
            prep.finished == drop_step(old(self).table_spec().state_of(index as int), payload).1,
            prep.cancelled == (prep.finished is None),
            prep.finished is None ==> {
                &&& prep.flushed == (old(self).sq_spec().len() == old(self).cap_spec())
                &&& {
                    let cancel = SqEntry {
                        desc: OpDesc::Cancel { target: index as u64 },
                        user_data: CANCEL_USERDATA,
                    };
                    if prep.flushed {
                        final(self).sq_spec() == seq![cancel]
                    } else {
                        final(self).sq_spec() == old(self).sq_spec().push(cancel)
                    }
                }
            },
            prep.finished is Some ==> final(self).sq_spec() == old(self).sq_spec()
                && !prep.flushed,
            final(self).cap_spec() == old(self).cap_spec(),
            final(self).ext_arg_spec() == old(self).ext_arg_spec(),
    {
        let ret = self.table.drop_op(index, payload);
        match ret {
            None => {
                let flushed = self.sq.len() == self.sq_cap;
                if flushed {
                    self.sq.clear();
                }
                self.sq.push(
                    SqEntry {
                        desc: OpDesc::Cancel { target: index as u64 },
                        user_data: CANCEL_USERDATA,
                    },
                );
                proof {
                    if flushed {
                        assert(self.sq@ =~= seq![
                            SqEntry {
                                desc: OpDesc::Cancel { target: index as u64 },
                                user_data: CANCEL_USERDATA,
                            },
                        ]);
                    }
                }
                DropPrep { finished: None, cancelled: true, flushed }
            },
            Some(p) => DropPrep { finished: Some(p), cancelled: false, flushed: false },
        }
    }

    /// Queues a cancellation entry for the operation at `index`, tagged
    /// [`CANCEL_USERDATA`] so its own completion is not mistaken for a
    /// user operation's — after a flush if the queue was full.
    pub fn cancel_op(&mut self, index: usize) -> (prep: CancelPrep)
        requires
            old(self).inv(),
        ensures
            final(self).inv(),
            final(self).table_spec() == old(self).table_spec(),
            prep.flushed == (old(self).sq_spec().len() == old(self).cap_spec()),
            ({
                let cancel = SqEntry {
                    desc: OpDesc::Cancel { target: index as u64 },
                    user_data: CANCEL_USERDATA,
                };
                if prep.flushed {
                    final(self).sq_spec() == seq![cancel]
                } else {
                    final(self).sq_spec() == old(self).sq_spec().push(cancel)
                }
            }),
            final(self).cap_spec() == old(self).cap_spec(),
            final(self).ext_arg_spec() == old(self).ext_arg_spec(),
    {
        let flushed = self.sq.len() == self.sq_cap;
        if flushed {
            self.sq.clear();
        }
        self.sq.push(
            SqEntry { desc: OpDesc::Cancel { target: index as u64 }, user_data: CANCEL_USERDATA },
        );
        proof {
            if flushed {
                assert(self.sq@ =~= seq![
                    SqEntry {
                        desc: OpDesc::Cancel { target: index as u64 },
                        user_data: CANCEL_USERDATA,
                    },
                ]);
            }
        }
        CancelPrep { flushed }
    }

    /// Prepares a park: make room for a one-shot timeout entry if one is
    /// needed (flushing when the queue is full), queue that entry when
    /// the kernel has no native timed wait, and leave the rest to the
    /// shell's wait call, which submits everything still queued — so the
    /// queue model ends empty.
    pub fn park_prepare(&mut self, timeout: Option<TimeSpec>) -> (prep: ParkPrep)
        requires
            old(self).inv(),
        ensures
            final(self).inv(),
            final(self).table_spec() == old(self).table_spec(),
            final(self).sq_spec().len() == 0,
            prep.pre_flushed == (timeout is Some && old(self).sq_spec().len()
                >= old(self).cap_spec()),
            timeout is None ==> prep.timeout_entry is None && prep.timed_wait is None,
            timeout is Some && !old(self).ext_arg_spec() ==> ({
                let e = SqEntry {
                    desc: OpDesc::Timeout { ts: timeout.unwrap() },
                    user_data: TIMEOUT_USERDATA,
                };
                prep.timeout_entry == Some(e) && prep.timed_wait is None
            }),
            timeout is Some && old(self).ext_arg_spec() ==> prep.timed_wait == timeout
                && prep.timeout_entry is None,
            final(self).cap_spec() == old(self).cap_spec(),
            final(self).ext_arg_spec() == old(self).ext_arg_spec(),
    {
        let mut pre_flushed = false;
        if timeout.is_some() {
            if self.sq.len() >= self.sq_cap {
                self.sq.clear();
                pre_flushed = true;
            }
        }
        let mut timeout_entry: Option<SqEntry> = None;
        let mut timed_wait: Option<TimeSpec> = None;
        match timeout {
            Some(ts) => {
                if self.ext_arg {
                    timed_wait = Some(ts);
                } else {
                    let entry = SqEntry { desc: OpDesc::Timeout { ts }, user_data: TIMEOUT_USERDATA };
                    self.sq.push(entry);
                    timeout_entry = Some(entry);
                }
            },
            None => {},
        }
        self.sq.clear();
        ParkPrep { pre_flushed, timeout_entry, timed_wait }
    }

    /// Drains a batch of harvested completion events: reserved tags
    /// (cancellation acknowledgements, timeout markers) are bookkeeping
    /// only; every user tag drives its slot's completion. Returns the
    /// wakers of the tasks that were waiting, in event order, for the
    /// shell to wake.
    #[verifier::loop_isolation(false)]
    pub fn tick(&mut self, events: &Vec<CqEvent>) -> (wakes: Vec<W>)
        requires
            old(self).inv(),
            tick_events_ok(old(self).table_spec().slots_view(), events@),
        ensures
            final(self).inv(),
            final(self).table_spec().slots_view() == tick_fold(
                old(self).table_spec().slots_view(),
                events@,
            ).0,
            wakes@ == tick_fold(old(self).table_spec().slots_view(), events@).1,
            final(self).sq_spec() == old(self).sq_spec(),
            final(self).cap_spec() == old(self).cap_spec(),
            final(self).ext_arg_spec() == old(self).ext_arg_spec(),
    {
        let ghost slots0 = self.table.slots_view();
        let ghost evs = events@;
        let mut wakes: Vec<W> = Vec::new();
        let n = events.len();
        proof {
            assert(evs.subrange(0, n as int) =~= evs);
            assert(Seq::<W>::empty() + tick_fold(slots0, evs).1 =~= tick_fold(slots0, evs).1);
        }
        for k in 0..n
            invariant
                self.inv(),
                n == evs.len(),
                tick_events_ok(self.table_spec().slots_view(), evs.subrange(k as int, n as int)),
                self.table_spec().slots_view().len() == slots0.len(),
                tick_fold(slots0, evs).0 == tick_fold(
                    self.table_spec().slots_view(),
                    evs.subrange(k as int, n as int),
                ).0,
                tick_fold(slots0, evs).1 == wakes@ + tick_fold(
                    self.table_spec().slots_view(),
                    evs.subrange(k as int, n as int),
                ).1,
                self.sq_spec() == old(self).sq_spec(),
                self.cap_spec() == old(self).cap_spec(),
                self.ext_arg_spec() == old(self).ext_arg_spec(),
        {
            let ghost pre = self.table_spec().slots_view();
            let ghost rem = evs.subrange(k as int, n as int);
            let ghost rem2 = evs.subrange(k as int + 1, n as int);
            let e = events[k];
            proof {
                assert(rem[0] == e);
                assert(rem.subrange(1, rem.len() as int) =~= rem2);
            }
            if e.user_data < MIN_RESERVED_USERDATA {
                let cnt = self.table.slot_count();
                proof {
                    assert(e.user_data < cnt);
                }
                let idx = e.user_data as usize;
                let result = get_cqe_result(e.result);
                let meta = CompletionMeta { result, flags: e.flags };
                proof {
                    assert(meta == meta_of(e));
                }
                let ghost step = complete_step(pre[e.user_data as int].unwrap(), meta_of(e));
                let wake = self.table.complete(idx, meta);
                match wake {
                    Some(w) => {
                        wakes.push(w);
                        proof {
                            lemma_tick_prefix_step(slots0, evs, k as int, pre, step);
                        }
                    },
                    None => {
                        proof {
                            lemma_tick_prefix_step(slots0, evs, k as int, pre, step);
                        }
                    },
                }
                proof {
                    lemma_tick_events_still_ok(pre, self.table_spec().slots_view(), rem, rem2, e);
                }
            } else {
                proof {
                    assert(tick_fold(pre, rem) == tick_fold(pre, rem2));
                    assert forall|k1: int|
                        0 <= k1 < rem2.len() implies rem2[k1] == rem[k1 + 1] by {}
                    assert(tick_events_ok(self.table_spec().slots_view(), rem2));
                }
            }
            proof {
                lemma_wakes_assoc(wakes@);
            }
        }
        proof {
            assert(evs.subrange(n as int, n as int) =~= Seq::<CqEvent>::empty());
            assert(wakes@ + Seq::<W>::empty() =~= wakes@);
        }
        wakes
    }
}

/// Helper for [`RingCore::tick`]'s loop: one user-tagged step of the
/// fold.
proof fn lemma_tick_prefix_step<W, P>(
    slots0: Seq<Option<Lifecycle<W, P>>>,
    evs: Seq<CqEvent>,
    k: int,
    pre: Seq<Option<Lifecycle<W, P>>>,
    step: (Option<Lifecycle<W, P>>, Option<W>),
)
    requires
        0 <= k < evs.len(),
        is_user_tag(evs[k].user_data),
        evs[k].user_data < pre.len(),
        step == complete_step(pre[evs[k].user_data as int].unwrap(), meta_of(evs[k])),
    ensures
        tick_fold(pre, evs.subrange(k, evs.len() as int)) == ({
            let folded = tick_fold(
                pre.update(evs[k].user_data as int, step.0),
                evs.subrange(k + 1, evs.len() as int),
            );
            if step.1 is Some {
                (folded.0, seq![step.1.unwrap()] + folded.1)
            } else {
                folded
            }
        }),
{
    let rem = evs.subrange(k, evs.len() as int);
    let rem2 = evs.subrange(k + 1, evs.len() as int);
    assert(rem[0] == evs[k]);
    assert(rem.subrange(1, rem.len() as int) =~= rem2);
}

/// Helper for [`RingCore::tick`]'s loop: after one user-tagged event is
/// driven into its slot, the events still to process — all with other
/// tags — remain drivable.
proof fn lemma_tick_events_still_ok<W, P>(
    pre: Seq<Option<Lifecycle<W, P>>>,
    post: Seq<Option<Lifecycle<W, P>>>,
    rem: Seq<CqEvent>,
    rem2: Seq<CqEvent>,
    e: CqEvent,
)
    requires
        tick_events_ok(pre, rem),
        rem.len() > 0,
        rem[0] == e,
        rem2 =~= rem.subrange(1, rem.len() as int),
        is_user_tag(e.user_data),
        post.len() == pre.len(),
        forall|j: int| 0 <= j < pre.len() && j != e.user_data as int ==> post[j] == pre[j],
    ensures
        tick_events_ok(post, rem2),
{
    assert forall|k1: int| 0 <= k1 < rem2.len() implies rem2[k1] == rem[k1 + 1] by {}
    assert forall|k: int|
        0 <= k < rem2.len() && is_user_tag((#[trigger] rem2[k]).user_data) implies {
        &&& rem2[k].user_data < post.len()
        &&& post[rem2[k].user_data as int] is Some
        &&& post[rem2[k].user_data as int].unwrap().may_complete()
    } by {
        assert(rem2[k] == rem[k + 1]);
        assert(rem[k + 1].user_data != e.user_data);
        assert(post[rem2[k].user_data as int] == pre[rem2[k].user_data as int]);
    }
    assert forall|k1: int, k2: int|
        0 <= k1 < k2 < rem2.len() && is_user_tag((#[trigger] rem2[k1]).user_data) && is_user_tag(
            (#[trigger] rem2[k2]).user_data,
        ) implies rem2[k1].user_data != rem2[k2].user_data by {
        assert(rem2[k1] == rem[k1 + 1]);
        assert(rem2[k2] == rem[k2 + 1]);
    }
}

/// Appending one waker then a tail equals appending the singleton plus
/// the tail.
proof fn lemma_wakes_assoc<W>(s: Seq<W>)
    ensures
        forall|w: W, t: Seq<W>| (#[trigger] (s.push(w) + t)) =~= s + (seq![w] + t),
{
}

} // verus!
