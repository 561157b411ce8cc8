//! Core of a completion-based asynchronous I/O driver.
//!
//! The library tracks every in-flight kernel request in a slot-stable
//! operation table, models the submission queue and its reserved
//! correlation tags, and accounts for partial transfers on vectored I/O.
//! The kernel-facing shell (the real ring, raw pointers, syscalls) lives
//! outside this crate and mirrors the decisions made here.

use vstd::prelude::*;

mod completion;
mod desc;
mod fixed_buf;
mod io_buf;
mod io_vec_buf;
mod lifecycle;
mod op;
mod op_table;
mod ops;
mod raw_buf;
mod ring;
mod shared_fd;
mod slice;
mod transfer;
mod vec_meta;

pub use completion::{CompletionMeta, get_cqe_result};
pub use desc::{AF_INET, CqEvent, OpDesc, SOCKADDR_IN_LEN, SockAddrIn, SqEntry, TimeSpec};
pub use fixed_buf::FixedBuf;
pub use io_buf::{IoBuf, IoBufMut, RangeEdge, parse_range, parse_range_spec, slice, slice_mut};
pub use io_vec_buf::{IoVecBuf, IoVecBufMut, IoVecEntry, VecBuf};
pub use lifecycle::{Lifecycle, complete_step, drop_step, poll_step};
pub use op::{Completion, DropAction, Op, OpAble, OpCanceller, OpPoll, RESOLVED_INDEX};
pub use op_table::{LifecycleKind, OpTable};
pub use ops::{
    Accept, Close, Connect, Fsync, Open, ReadAt, ReadVectored, Request, SocketAddr, WriteAt,
    WriteVectored, socket_addr,
};
pub use raw_buf::RawBuf;
pub use ring::{
    CANCEL_USERDATA, CancelPrep, DropPrep, EAGAIN, EBUSY, MIN_RESERVED_USERDATA, ParkPrep,
    RingCore, SubmitPrep, SubmitStep, TIMEOUT_USERDATA, is_user_tag, meta_of, on_submit_error,
    tick_events_ok, tick_fold,
};
pub use shared_fd::SharedFd;
pub use slice::{
    IoVecWrapper, IoVecWrapperMut, Slice, SliceMut, lemma_slice_mut_round_trip,
    lemma_slice_round_trip,
};
pub use transfer::{EINTR, ExactTransfer, TransferStep};
pub use vec_meta::{IoVecMeta, read_vec_meta, write_vec_meta};
