use shlrt::{
    CANCEL_USERDATA, CqEvent, DropAction, EAGAIN, EBUSY, FixedBuf, IoBuf, LifecycleKind, Op,
    OpDesc, OpPoll, ReadAt, RingCore, Request, SharedFd, SubmitStep, TIMEOUT_USERDATA, TimeSpec,
    WriteAt, get_cqe_result, on_submit_error,
};

type TestRing = RingCore<u32, Request<FixedBuf, shlrt::IoVecMeta>>;

#[test]
fn read_request_round_trip_fills_the_buffer() {
    // Submit a read for fd 3 at offset 0 into a buffer of capacity 16;
    // the kernel reports Ok(16); a poll after the completion tick
    // returns the buffer with 16 initialized bytes.
    let mut ring: TestRing = RingCore::new(8, false);
    let fd = SharedFd::new(3);
    let buf = FixedBuf::with_capacity(16);
    let payload = Request::Read(ReadAt::new(&fd, buf, 0));

    let (mut op, prep) = Op::submit_with(&mut ring, payload);
    assert!(!prep.flushed);
    let idx = op.index();
    assert_eq!(ring.sq_len(), 1);
    let entry = ring.sq_entry_at(0);
    assert_eq!(entry.user_data, idx as u64);
    assert!(matches!(entry.desc, OpDesc::Read { fd: 3, offset: 0, len: 16 }));

    // The shell submits the queue and later harvests the completion.
    ring.note_flushed();
    let events = vec![CqEvent { user_data: idx as u64, result: 16, flags: 0 }];
    let wakes = ring.tick(&events);
    assert!(wakes.is_empty(), "no task was waiting yet");

    match op.poll_with(&mut ring, 1) {
        OpPoll::Ready(c) => {
            assert!(matches!(c.meta.result, Ok(16)));
            match c.data {
                Request::Read(r) => {
                    // The resolution step folds the completion in: the
                    // buffer comes back with 16 initialized bytes.
                    let buf = r.into_buf_completed(&c.meta);
                    assert_eq!(buf.bytes_init(), 16);
                },
                _ => panic!("wrong payload came back"),
            }
        },
        OpPoll::Pending => panic!("completed operation reported pending"),
    }
    assert!(!ring.table_ref().is_occupied(idx));
}

#[test]
fn dropping_a_submitted_write_emits_exactly_one_cancellation() {
    // A write dropped while still Submitted must queue exactly one
    // cancellation entry tagged with the cancellation sentinel.
    let mut ring: TestRing = RingCore::new(8, false);
    let fd = SharedFd::new(4);
    let buf = FixedBuf::from_vec(vec![1; 8]);
    let payload = Request::Write(WriteAt::new(&fd, buf, 0));

    let (mut op, _prep) = Op::submit_with(&mut ring, payload);
    let idx = op.index();
    let before = ring.sq_len();

    let act = op.on_drop(&mut ring);
    assert!(matches!(act, DropAction::CancelIssued { flushed: false }));
    assert_eq!(ring.sq_len(), before + 1);

    let mut cancels = 0;
    for i in 0..ring.sq_len() {
        let e = ring.sq_entry_at(i);
        if e.user_data == CANCEL_USERDATA {
            cancels += 1;
            assert!(matches!(e.desc, OpDesc::Cancel { target } if target == idx as u64));
        }
    }
    assert_eq!(cancels, 1);

    // The slot lives on as Ignored until the kernel's completion.
    assert_eq!(ring.table_ref().kind_of(idx), LifecycleKind::Ignored);
    ring.note_flushed();
    let events = vec![CqEvent { user_data: idx as u64, result: -125, flags: 0 }];
    ring.tick(&events);
    assert!(!ring.table_ref().is_occupied(idx));
}

#[test]
fn full_queue_is_flushed_once_and_the_request_still_lands() {
    // When the submission queue reports full, registering a request
    // flushes once and then succeeds; the request is never dropped.
    let mut ring: TestRing = RingCore::new(1, false);
    let fd = SharedFd::new(5);

    let (_op1, prep1) = Op::submit_with(
        &mut ring,
        Request::Write(WriteAt::new(&fd, FixedBuf::from_vec(vec![0; 4]), 0)),
    );
    assert!(!prep1.flushed);
    assert_eq!(ring.sq_len(), 1);

    let (op2, prep2) = Op::submit_with(
        &mut ring,
        Request::Write(WriteAt::new(&fd, FixedBuf::from_vec(vec![0; 4]), 4)),
    );
    assert!(prep2.flushed, "a full queue must be flushed first");
    assert_eq!(ring.sq_len(), 1, "the new entry landed after the flush");
    assert_eq!(ring.sq_entry_at(0).user_data, op2.index() as u64);
}

#[test]
fn waiting_task_is_woken_by_its_tick() {
    let mut ring: TestRing = RingCore::new(8, false);
    let fd = SharedFd::new(3);
    let payload = Request::Read(ReadAt::new(&fd, FixedBuf::with_capacity(4), 0));
    let (mut op, _) = Op::submit_with(&mut ring, payload);
    let idx = op.index();

    assert!(matches!(op.poll_with(&mut ring, 42), OpPoll::Pending));
    let events = vec![CqEvent { user_data: idx as u64, result: 4, flags: 0 }];
    let wakes = ring.tick(&events);
    assert_eq!(wakes, vec![42], "exactly the stored waker is woken");

    assert!(matches!(op.poll_with(&mut ring, 43), OpPoll::Ready(_)));
}

#[test]
fn failed_completion_carries_the_os_error() {
    let mut ring: TestRing = RingCore::new(8, false);
    let fd = SharedFd::new(9);
    let payload = Request::Read(ReadAt::new(&fd, FixedBuf::with_capacity(4), 0));
    let (mut op, _) = Op::submit_with(&mut ring, payload);
    let idx = op.index();

    // The kernel reports a negated error code; 9 is a bad descriptor.
    let events = vec![CqEvent { user_data: idx as u64, result: -9, flags: 0 }];
    ring.tick(&events);
    match op.poll_with(&mut ring, 1) {
        OpPoll::Ready(c) => assert!(matches!(c.meta.result, Err(9))),
        OpPoll::Pending => panic!("completed operation reported pending"),
    }
}

#[test]
fn cqe_results_decode_to_counts_and_errors() {
    assert_eq!(get_cqe_result(16), Ok(16));
    assert_eq!(get_cqe_result(0), Ok(0));
    assert_eq!(get_cqe_result(-2), Err(2));
}

#[test]
fn park_without_timeout_waits_plainly() {
    let mut ring: TestRing = RingCore::new(4, false);
    let prep = ring.park_prepare(None);
    assert!(!prep.pre_flushed);
    assert!(prep.timeout_entry.is_none());
    assert!(prep.timed_wait.is_none());
    assert_eq!(ring.sq_len(), 0);
}

#[test]
fn park_with_timeout_installs_a_timeout_entry_without_ext_arg() {
    let mut ring: TestRing = RingCore::new(4, false);
    let ts = TimeSpec { sec: 1, nsec: 500 };
    let prep = ring.park_prepare(Some(ts));
    match prep.timeout_entry {
        Some(e) => {
            assert_eq!(e.user_data, TIMEOUT_USERDATA, "the timeout entry is sentinel-tagged");
            assert!(matches!(e.desc, OpDesc::Timeout { ts: t } if t == ts));
        },
        None => panic!("a timeout entry must be queued without a native timed wait"),
    }
    assert!(prep.timed_wait.is_none());
    assert_eq!(ring.sq_len(), 0, "the wait call submits everything queued");
}

#[test]
fn park_with_timeout_uses_the_native_timed_wait_with_ext_arg() {
    let mut ring: TestRing = RingCore::new(4, true);
    let ts = TimeSpec { sec: 0, nsec: 1 };
    let prep = ring.park_prepare(Some(ts));
    assert!(prep.timeout_entry.is_none());
    assert_eq!(prep.timed_wait, Some(ts));
}

#[test]
fn submit_errors_classify_into_retry_and_propagate() {
    assert_eq!(on_submit_error(EBUSY), SubmitStep::Retry);
    assert_eq!(on_submit_error(EAGAIN), SubmitStep::Retry);
    assert_eq!(on_submit_error(5), SubmitStep::Propagate(5));
}

#[test]
fn failed_read_hands_the_buffer_back_unfilled() {
    let fd = SharedFd::new(9);
    let payload = ReadAt::new(&fd, FixedBuf::with_capacity(8), 0);
    let meta = shlrt::CompletionMeta { result: Err(9), flags: 0 };
    let buf = payload.into_buf_completed(&meta);
    assert_eq!(buf.bytes_init(), 0, "a failed read initializes nothing");
}

#[test]
fn park_flushes_when_the_timeout_entry_needs_room() {
    let mut ring: TestRing = RingCore::new(1, false);
    let fd = SharedFd::new(3);
    let (_op, _) = Op::submit_with(
        &mut ring,
        Request::Read(ReadAt::new(&fd, FixedBuf::with_capacity(4), 0)),
    );
    assert_eq!(ring.sq_len(), 1);
    let prep = ring.park_prepare(Some(TimeSpec { sec: 0, nsec: 0 }));
    assert!(prep.pre_flushed);
    assert_eq!(ring.sq_len(), 0);
}

#[test]
fn canceller_pushes_a_sentinel_tagged_entry() {
    let mut ring: TestRing = RingCore::new(4, false);
    let fd = SharedFd::new(3);
    let (op, _) = Op::submit_with(
        &mut ring,
        Request::Read(ReadAt::new(&fd, FixedBuf::with_capacity(4), 0)),
    );
    let canceller = op.op_canceller();
    let prep = ring.cancel_op(canceller.index);
    assert!(!prep.flushed);
    let last = ring.sq_entry_at(ring.sq_len() - 1);
    assert_eq!(last.user_data, CANCEL_USERDATA);
    assert!(matches!(last.desc, OpDesc::Cancel { target } if target == canceller.index as u64));
}
