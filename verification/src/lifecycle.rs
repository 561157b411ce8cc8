//! Per-request lifecycle: the state machine of one in-flight operation.
//!
//! A slot starts `Submitted` when its entry is pushed toward the kernel.
//! A task that polls before completion suspends and leaves its waker in
//! `Waiting`. A task that drops its handle before completion leaves its
//! payload in `Ignored`, kept alive until the kernel's completion event
//! arrives, because the kernel may still write into the payload's memory
//! until then. `Completed` holds the kernel's report until the owning
//! task consumes it.
//!
//! The waker type `W` and the payload type `P` are parameters: the
//! kernel-facing shell instantiates `W` with its real task waker, and
//! tests instantiate it with plain values.

use vstd::prelude::*;
use crate::completion::CompletionMeta;

verus! {

/// The state of one in-flight operation.
pub enum Lifecycle<W, P> {
    /// The entry was pushed toward the kernel; no task is waiting yet.
    Submitted,
    /// A task is suspended pending completion; exactly this waker is to
    /// be invoked when the completion arrives.
    Waiting(W),
    /// The owning task dropped its handle before completion; the payload
    /// is kept alive until the kernel's completion event is harvested.
    Ignored(P),
    /// The kernel reported completion; the result awaits consumption.
    Completed(CompletionMeta),
}

impl<W, P> Lifecycle<W, P> {
    /// Whether a completion report may arrive in this state. A second
    /// completion for a `Completed` slot would be a double completion,
    /// which the kernel contract rules out; it is a fault here.
    pub open spec fn may_complete(&self) -> bool {
        !(self is Completed)
    }

    /// Whether the owning task may still poll or drop this slot. An
    /// `Ignored` slot has no owning task left; polling or dropping it is
    /// a fault.
    pub open spec fn owned(&self) -> bool {
        !(self is Ignored)
    }
}

/// What harvesting a completion report does to a slot: the slot either
/// moves to a new state (`Some`) or is freed (`None`), and at most one
/// waker is woken.
///
/// From `Submitted` the report is stored. From `Waiting` the report is
/// stored and the stored waker — exactly the one supplied at poll time —
/// is woken. From `Ignored` nobody is waiting for the value: the slot is
/// freed, and the kept payload may finally be dropped, since the kernel
/// is done with it.
pub open spec fn complete_step<W, P>(lc: Lifecycle<W, P>, meta: CompletionMeta) -> (
    Option<Lifecycle<W, P>>,
    Option<W>,
) {
    match lc {
        Lifecycle::Submitted => (Some(Lifecycle::Completed(meta)), None),
        Lifecycle::Waiting(w) => (Some(Lifecycle::Completed(meta)), Some(w)),
        Lifecycle::Ignored(_) => (None, None),
        Lifecycle::Completed(_) => (Some(lc), None),
    }
}

/// What one poll by the owning task does to a slot: either the task
/// suspends — its waker is stored, replacing any earlier one — or the
/// completion report is consumed and the slot is freed.
pub open spec fn poll_step<W, P>(lc: Lifecycle<W, P>, w: W) -> (
    Option<Lifecycle<W, P>>,
    Option<CompletionMeta>,
) {
    match lc {
        Lifecycle::Submitted => (Some(Lifecycle::Waiting(w)), None),
        Lifecycle::Waiting(_) => (Some(Lifecycle::Waiting(w)), None),
        Lifecycle::Completed(meta) => (None, Some(meta)),
        Lifecycle::Ignored(_) => (Some(lc), None),
    }
}

/// What dropping the owning handle does to a slot: before completion the
/// payload is stashed — the slot lives on as `Ignored` until the kernel's
/// completion is harvested — and the payload is not returned (`None`),
/// which tells the caller a cancellation must still be issued. After
/// completion the slot is freed at once and the payload handed back.
pub open spec fn drop_step<W, P>(lc: Lifecycle<W, P>, payload: P) -> (
    Option<Lifecycle<W, P>>,
    Option<P>,
) {
    match lc {
        Lifecycle::Submitted => (Some(Lifecycle::Ignored(payload)), None),
        Lifecycle::Waiting(_) => (Some(Lifecycle::Ignored(payload)), None),
        Lifecycle::Completed(_) => (None, Some(payload)),
        Lifecycle::Ignored(_) => (Some(lc), Some(payload)),
    }
}

/// Law: a slot that is `Submitted`, polled once by a task with waker
/// `w`, and then completed, wakes exactly `w`; and a further poll after
/// the completion consumes the report and frees the slot — no fault at
/// any step.
pub proof fn lemma_poll_then_complete_wakes_polled_waker<W, P>(
    w: W,
    w2: W,
    meta: CompletionMeta,
)
    ensures
        ({
            let (s1, out1) = poll_step::<W, P>(Lifecycle::Submitted, w);
            &&& s1 == Some(Lifecycle::<W, P>::Waiting(w))
            &&& out1 is None
            &&& {
                let (s2, wake) = complete_step(s1.unwrap(), meta);
                &&& wake == Some(w)
                &&& s2 == Some(Lifecycle::<W, P>::Completed(meta))
                &&& {
                    let (s3, out3) = poll_step(s2.unwrap(), w2);
                    &&& s3 is None
                    &&& out3 == Some(meta)
                }
            }
        }),
{
}

/// Law: a slot whose task has polled (`Waiting`) and then dropped its
/// handle moves to `Ignored` and is not freed; only harvesting a
/// matching completion event frees it — never before — and that late
/// completion wakes nobody.
pub proof fn lemma_dropped_slot_freed_only_by_completion<W, P>(
    w: W,
    payload: P,
    meta: CompletionMeta,
)
    ensures
        ({
            let (s1, ret) = drop_step::<W, P>(Lifecycle::Waiting(w), payload);
            &&& s1 is Some
            &&& s1.unwrap() is Ignored
            &&& ret is None
            &&& {
                let (s2, wake) = complete_step(s1.unwrap(), meta);
                &&& s2 is None
                &&& wake is None
            }
        }),
{
}

} // verus!
