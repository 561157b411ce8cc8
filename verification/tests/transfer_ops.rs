use shlrt::{
    AF_INET, Accept, Close, Connect, EINTR, ExactTransfer, Fsync, Op, OpDesc, Open, Request,
    RingCore, SOCKADDR_IN_LEN, SharedFd, SocketAddr, TransferStep, WriteAt, socket_addr,
};

#[test]
fn exact_transfer_progresses_to_done() {
    let mut t = ExactTransfer::new(10);
    assert_eq!(t.remaining(), 10);
    assert_eq!(t.on_result(Ok(4)), TransferStep::Again);
    assert_eq!(t.done(), 4);
    assert_eq!(t.remaining(), 6);
    assert_eq!(t.on_result(Ok(6)), TransferStep::Done);
    assert_eq!(t.done(), 10);
}

#[test]
fn exact_transfer_surfaces_zero_transfers() {
    let mut t = ExactTransfer::new(8);
    assert_eq!(t.on_result(Ok(3)), TransferStep::Again);
    assert_eq!(t.on_result(Ok(0)), TransferStep::ZeroTransfer);
    assert_eq!(t.done(), 3, "a zero transfer makes no progress");
}

#[test]
fn exact_transfer_retries_interrupted_calls() {
    let mut t = ExactTransfer::new(8);
    assert_eq!(t.on_result(Err(EINTR)), TransferStep::Again);
    assert_eq!(t.done(), 0);
    assert_eq!(t.on_result(Err(5)), TransferStep::Fail(5));
}

#[test]
fn socket_addr_translates_an_ipv4_address() {
    let addr = SocketAddr::V4 { octets: [127, 0, 0, 1], port: 8080 };
    let (raw, len) = socket_addr(&addr);
    assert_eq!(raw.family, AF_INET);
    assert_eq!(raw.port, 8080);
    assert_eq!(raw.addr, [127, 0, 0, 1]);
    assert_eq!(len, SOCKADDR_IN_LEN);
    assert_eq!(len, 16);
}

#[test]
fn payload_descriptions_carry_their_fields() {
    let mut ring: RingCore<u32, Request<Vec<u8>, shlrt::IoVecMeta>> = RingCore::new(8, false);
    let fd = SharedFd::new(7);

    let (_a, pa) = Op::submit_with(&mut ring, Request::Accept(Accept::new(&fd)));
    let (_b, pb) = Op::submit_with(&mut ring, Request::Close(Close::new(2)));
    let (_c, pc) = Op::submit_with(&mut ring, Request::Fsync(Fsync::datasync(&fd)));
    let (_d, pd) = Op::submit_with(&mut ring, Request::Open(Open::new(b"/tmp/x".to_vec(), 0, 0o666)));

    assert!(matches!(ring.sq_entry_at(0).desc, OpDesc::Accept { fd: 7 }));
    assert!(matches!(ring.sq_entry_at(1).desc, OpDesc::Close { fd: 2 }));
    assert!(matches!(ring.sq_entry_at(2).desc, OpDesc::Fsync { fd: 7, data_sync: true }));
    assert!(matches!(ring.sq_entry_at(3).desc, OpDesc::Open { flags: 0, mode: 0o666 }));
    assert_eq!(ring.sq_entry_at(0).user_data, pa.index as u64);
    assert_eq!(ring.sq_entry_at(1).user_data, pb.index as u64);
    assert_eq!(ring.sq_entry_at(2).user_data, pc.index as u64);
    assert_eq!(ring.sq_entry_at(3).user_data, pd.index as u64);
}

#[test]
fn connect_payload_translates_its_address() {
    let fd = SharedFd::new(6);
    let addr = SocketAddr::V4 { octets: [10, 0, 0, 2], port: 443 };
    let c = Connect::new(&fd, &addr);
    assert_eq!(c.addr.family, AF_INET);
    assert_eq!(c.addr.port, 443);
    assert_eq!(c.addr.addr, [10, 0, 0, 2]);
    assert_eq!(c.addr_len, 16);
}

#[test]
fn write_payload_records_the_initialized_length() {
    let mut ring: RingCore<u32, Request<Vec<u8>, shlrt::IoVecMeta>> = RingCore::new(8, false);
    let fd = SharedFd::new(3);
    let (_op, _) = Op::submit_with(
        &mut ring,
        Request::Write(WriteAt::new(&fd, vec![9; 5], 100)),
    );
    assert!(matches!(ring.sq_entry_at(0).desc, OpDesc::Write { fd: 3, offset: 100, len: 5 }));
}
