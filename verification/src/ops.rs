//! The request payloads: one type per operation kind, each able to
//! produce its kernel submission description from its own fields.

use vstd::prelude::*;
use crate::completion::CompletionMeta;
use crate::desc::{AF_INET, OpDesc, SOCKADDR_IN_LEN, SockAddrIn};
use crate::io_buf::{IoBuf, IoBufMut};
use crate::io_vec_buf::{IoVecBuf, IoVecBufMut};
use crate::op::OpAble;
use crate::shared_fd::SharedFd;

verus! {

/// A socket address as callers hold it.
pub enum SocketAddr {
    /// An IPv4 address and port.
    V4 { octets: [u8; 4], port: u16 },
    /// An IPv6 address; the driver does not support it.
    V6,
}

/// Translates a socket address into the kernel's IPv4 layout and its
/// byte length. Only IPv4 is supported; handing in anything else is a
/// caller fault, which the requirement excludes.
pub fn socket_addr(addr: &SocketAddr) -> (r: (SockAddrIn, u32))
    requires
        addr is V4,
    ensures
        r.0.family == AF_INET,
        addr matches SocketAddr::V4 { octets, port } ==> r.0.addr == octets && r.0.port == port,
        r.1 == SOCKADDR_IN_LEN,
{
    match addr {
        SocketAddr::V4 { octets, port } => (
            SockAddrIn { family: AF_INET, port: *port, addr: *octets },
            SOCKADDR_IN_LEN,
        ),
        SocketAddr::V6 => {
            proof {
                assert(false);
            }
            (SockAddrIn { family: AF_INET, port: 0, addr: [0, 0, 0, 0] }, SOCKADDR_IN_LEN)
        },
    }
}

/// Accept one connection on a listening socket. The kernel writes the
/// peer address into shell-owned storage.
pub struct Accept {
    pub fd: SharedFd,
}

impl Accept {
    pub fn new(fd: &SharedFd) -> (r: Accept)
        ensures
            r.fd == *fd,
    {
        Accept { fd: *fd }
    }
}

impl OpAble for Accept {
    open spec fn desc_spec(&self) -> OpDesc {
        OpDesc::Accept { fd: self.fd.fd_spec() }
    }

    fn uring_op(&mut self) -> (d: OpDesc) {
        OpDesc::Accept { fd: self.fd.raw_fd() }
    }
}

/// Close a raw file descriptor.
pub struct Close {
    pub fd: i32,
}

impl Close {
    pub fn new(fd: i32) -> (r: Close)
        ensures
            r.fd == fd,
    {
        Close { fd }
    }
}

impl OpAble for Close {
    open spec fn desc_spec(&self) -> OpDesc {
        OpDesc::Close { fd: self.fd }
    }

    fn uring_op(&mut self) -> (d: OpDesc) {
        OpDesc::Close { fd: self.fd }
    }
}

/// Connect a socket to an IPv4 address.
pub struct Connect {
    pub fd: SharedFd,
    pub addr: SockAddrIn,
    pub addr_len: u32,
}

impl Connect {
    /// Builds the payload from a caller-held address. Only IPv4 is
    /// supported; the requirement excludes anything else.
    pub fn new(socket: &SharedFd, addr: &SocketAddr) -> (r: Connect)
        requires
            addr is V4,
        ensures
            r.fd == *socket,
            r.addr.family == AF_INET,
            addr matches SocketAddr::V4 { octets, port } ==> r.addr.addr == octets && r.addr.port
                == port,
            r.addr_len == SOCKADDR_IN_LEN,
    {
        let (raw_addr, raw_addr_length) = socket_addr(addr);
        Connect { fd: *socket, addr: raw_addr, addr_len: raw_addr_length }
    }
}

impl OpAble for Connect {
    open spec fn desc_spec(&self) -> OpDesc {
        OpDesc::Connect { fd: self.fd.fd_spec(), addr: self.addr, addr_len: self.addr_len }
    }

    fn uring_op(&mut self) -> (d: OpDesc) {
        OpDesc::Connect { fd: self.fd.raw_fd(), addr: self.addr, addr_len: self.addr_len }
    }
}

/// Flush a file's data to stable storage — and its metadata too, unless
/// `data_sync` asks for the data-only variant.
pub struct Fsync {
    pub fd: SharedFd,
    pub data_sync: bool,
}

impl Fsync {
    /// A full flush of data and metadata.
    pub fn new(fd: &SharedFd) -> (r: Fsync)
        ensures
            r.fd == *fd,
            !r.data_sync,
    {
        Fsync { fd: *fd, data_sync: false }
    }

    /// A data-only flush.
    pub fn datasync(fd: &SharedFd) -> (r: Fsync)
        ensures
            r.fd == *fd,
            r.data_sync,
    {
        Fsync { fd: *fd, data_sync: true }
    }
}

impl OpAble for Fsync {
    open spec fn desc_spec(&self) -> OpDesc {
        OpDesc::Fsync { fd: self.fd.fd_spec(), data_sync: self.data_sync }
    }

    fn uring_op(&mut self) -> (d: OpDesc) {
        OpDesc::Fsync { fd: self.fd.raw_fd(), data_sync: self.data_sync }
    }
}

/// Open the file at `path` — a NUL-free byte path whose pointer the
/// shell derives — with the given flags and creation mode.
pub struct Open {
    pub path: Vec<u8>,
    pub flags: i32,
    pub mode: u32,
}

impl Open {
    pub fn new(path: Vec<u8>, flags: i32, mode: u32) -> (r: Open)
        ensures
            r.path == path,
            r.flags == flags,
            r.mode == mode,
    {
        Open { path, flags, mode }
    }

    /// The path bytes, for the shell to hand to the kernel.
    pub fn path_ref(&self) -> (p: &Vec<u8>)
        ensures
            *p == self.path,
    {
        &self.path
    }
}

impl OpAble for Open {
    open spec fn desc_spec(&self) -> OpDesc {
        OpDesc::Open { flags: self.flags, mode: self.mode }
    }

    fn uring_op(&mut self) -> (d: OpDesc) {
        OpDesc::Open { flags: self.flags, mode: self.mode }
    }
}

/// Read up to the buffer's capacity at `offset` into an owned buffer,
/// which the operation keeps until completion.
pub struct ReadAt<T> {
    pub fd: SharedFd,
    pub buf: T,
    pub offset: u64,
    /// The transfer length recorded at construction.
    pub len: u32,
}

impl<T: IoBuf + IoBufMut> ReadAt<T> {
    /// Builds the payload, recording the buffer's capacity (saturated
    /// to the kernel's length field) as the transfer length.
    pub fn new(fd: &SharedFd, buf: T, offset: u64) -> (r: ReadAt<T>)
        requires
            buf.buf_inv(),
        ensures
            r.fd == *fd,
            r.buf == buf,
            r.offset == offset,
            r.len as int == if buf.total_spec() <= u32::MAX {
                buf.total_spec() as int
            } else {
                u32::MAX as int
            },
    {
        let mut buf = buf;
        let total = buf.bytes_total();
        let len: u32 = if total <= u32::MAX as usize {
            total as u32
        } else {
            u32::MAX
        };
        ReadAt { fd: *fd, buf, offset, len }
    }
}

impl<T> ReadAt<T> {
    /// Recovers the buffer after completion.
    pub fn into_buf(self) -> (b: T)
        ensures
            b == self.buf,
    {
        self.buf
    }
}

impl<T: IoBuf + IoBufMut> ReadAt<T> {
    /// Folds the kernel's completion report into the buffer and hands
    /// it back: on success the kernel wrote the reported count into the
    /// buffer's front, so that many bytes — capped at the capacity —
    /// are marked initialized; on failure the buffer comes back
    /// untouched. This is the resolution step of a read: a completed
    /// read of `n` bytes returns a buffer with `n` initialized bytes.
    pub fn into_buf_completed(self, meta: &CompletionMeta) -> (b: T)
        requires
            self.buf.buf_inv(),
        ensures
            b.buf_inv(),
            match meta.result {
                Ok(n) => {
                    let m = if n as nat <= self.buf.total_spec() {
                        n as nat
                    } else {
                        self.buf.total_spec()
                    };
                    &&& b.total_spec() == self.buf.total_spec()
                    &&& b.init_spec() == if m > self.buf.init_spec() {
                        m
                    } else {
                        self.buf.init_spec()
                    }
                    &&& self.buf.set_init_ensures(b, m)
                },
                Err(_) => b == self.buf,
            },
    {
        let mut buf = self.buf;
        match meta.result {
            Ok(n) => {
                let total = buf.bytes_total();
                let m = if n as usize <= total {
                    n as usize
                } else {
                    total
                };
                buf.set_init(m);
                buf
            },
            Err(_) => buf,
        }
    }
}

impl<T> OpAble for ReadAt<T> {
    open spec fn desc_spec(&self) -> OpDesc {
        OpDesc::Read { fd: self.fd.fd_spec(), offset: self.offset, len: self.len }
    }

    fn uring_op(&mut self) -> (d: OpDesc) {
        OpDesc::Read { fd: self.fd.raw_fd(), offset: self.offset, len: self.len }
    }
}

/// Write the buffer's initialized bytes at `offset` from an owned
/// buffer, which the operation keeps until completion.
pub struct WriteAt<T> {
    pub fd: SharedFd,
    pub buf: T,
    pub offset: u64,
    /// The transfer length recorded at construction.
    pub len: u32,
}

impl<T: IoBuf> WriteAt<T> {
    /// Builds the payload, recording the buffer's initialized length
    /// (saturated to the kernel's length field) as the transfer length.
    pub fn new(fd: &SharedFd, buf: T, offset: u64) -> (r: WriteAt<T>)
        requires
            buf.buf_inv(),
        ensures
            r.fd == *fd,
            r.buf == buf,
            r.offset == offset,
            r.len as int == if buf.init_spec() <= u32::MAX {
                buf.init_spec() as int
            } else {
                u32::MAX as int
            },
    {
        let init = buf.bytes_init();
        let len: u32 = if init <= u32::MAX as usize {
            init as u32
        } else {
            u32::MAX
        };
        WriteAt { fd: *fd, buf, offset, len }
    }
}

impl<T> WriteAt<T> {
    /// Recovers the buffer after completion.
    pub fn into_buf(self) -> (b: T)
        ensures
            b == self.buf,
    {
        self.buf
    }
}

impl<T> OpAble for WriteAt<T> {
    open spec fn desc_spec(&self) -> OpDesc {
        OpDesc::Write { fd: self.fd.fd_spec(), offset: self.offset, len: self.len }
    }

    fn uring_op(&mut self) -> (d: OpDesc) {
        OpDesc::Write { fd: self.fd.raw_fd(), offset: self.offset, len: self.len }
    }
}

/// Scatter a read at `offset` across the regions of an owned vectored
/// buffer, which the operation keeps until completion.
pub struct ReadVectored<V> {
    pub fd: SharedFd,
    pub buf: V,
    pub offset: u64,
    /// The region count recorded at construction.
    pub cnt: u32,
}

impl<V: IoVecBufMut> ReadVectored<V> {
    /// Builds the payload, recording the buffer's region count
    /// (saturated to the kernel's count field).
    pub fn new(fd: &SharedFd, buf: V, offset: u64) -> (r: ReadVectored<V>)
        requires
            buf.iovec_mut_inv(),
        ensures
            r.fd == *fd,
            r.buf == buf,
            r.offset == offset,
            r.cnt as int == if buf.iovecs_mut().len() <= u32::MAX {
                buf.iovecs_mut().len() as int
            } else {
                u32::MAX as int
            },
    {
        let mut buf = buf;
        let n = buf.write_iovec_len();
        let cnt: u32 = if n <= u32::MAX as usize {
            n as u32
        } else {
            u32::MAX
        };
        ReadVectored { fd: *fd, buf, offset, cnt }
    }
}

impl<V> ReadVectored<V> {
    /// Recovers the buffer after completion.
    pub fn into_buf(self) -> (b: V)
        ensures
            b == self.buf,
    {
        self.buf
    }
}

impl<V: IoVecBufMut> ReadVectored<V> {
    /// Folds the kernel's completion report into the vectored buffer
    /// and hands it back: on success the reported count is marked
    /// initialized, landing region by region per the buffer's own
    /// accounting; on failure the buffer comes back untouched. The
    /// kernel never reports more than the regions hold, which the
    /// requirement records.
    pub fn into_buf_completed(self, meta: &CompletionMeta) -> (b: V)
        requires
            self.buf.iovec_mut_inv(),
            meta.result matches Ok(n) ==> self.buf.set_init_allowed(n as nat),
        ensures
            b.iovec_mut_inv(),
            match meta.result {
                Ok(n) => self.buf.set_init_ensures(b, n as nat),
                Err(_) => b == self.buf,
            },
    {
        let mut buf = self.buf;
        match meta.result {
            Ok(n) => {
                buf.set_init(n as usize);
                buf
            },
            Err(_) => buf,
        }
    }
}

impl<V> OpAble for ReadVectored<V> {
    open spec fn desc_spec(&self) -> OpDesc {
        OpDesc::Readv { fd: self.fd.fd_spec(), offset: self.offset, cnt: self.cnt }
    }

    fn uring_op(&mut self) -> (d: OpDesc) {
        OpDesc::Readv { fd: self.fd.raw_fd(), offset: self.offset, cnt: self.cnt }
    }
}

/// Gather a write at `offset` from the regions of an owned vectored
/// buffer, which the operation keeps until completion.
pub struct WriteVectored<V> {
    pub fd: SharedFd,
    pub buf: V,
    pub offset: u64,
    /// The region count recorded at construction.
    pub cnt: u32,
}

impl<V: IoVecBuf> WriteVectored<V> {
    /// Builds the payload, recording the buffer's region count
    /// (saturated to the kernel's count field).
    pub fn new(fd: &SharedFd, buf: V, offset: u64) -> (r: WriteVectored<V>)
        requires
            buf.iovec_inv(),
        ensures
            r.fd == *fd,
            r.buf == buf,
            r.offset == offset,
            r.cnt as int == if buf.iovecs().len() <= u32::MAX {
                buf.iovecs().len() as int
            } else {
                u32::MAX as int
            },
    {
        let n = buf.read_iovec_len();
        let cnt: u32 = if n <= u32::MAX as usize {
            n as u32
        } else {
            u32::MAX
        };
        WriteVectored { fd: *fd, buf, offset, cnt }
    }
}

impl<V> WriteVectored<V> {
    /// Recovers the buffer after completion.
    pub fn into_buf(self) -> (b: V)
        ensures
            b == self.buf,
    {
        self.buf
    }
}

impl<V> OpAble for WriteVectored<V> {
    open spec fn desc_spec(&self) -> OpDesc {
        OpDesc::Writev { fd: self.fd.fd_spec(), offset: self.offset, cnt: self.cnt }
    }

    fn uring_op(&mut self) -> (d: OpDesc) {
        OpDesc::Writev { fd: self.fd.raw_fd(), offset: self.offset, cnt: self.cnt }
    }
}

/// Any request, as one tagged value over a plain buffer type `B` and a
/// vectored buffer type `V`: the shape a ring's operation table stores,
/// so that a dropped request of any kind can be kept alive in its slot
/// until the kernel is done with it.
pub enum Request<B, V> {
    Accept(Accept),
    Close(Close),
    Connect(Connect),
    Fsync(Fsync),
    Open(Open),
    Read(ReadAt<B>),
    Write(WriteAt<B>),
    Readv(ReadVectored<V>),
    Writev(WriteVectored<V>),
}

impl<B, V> OpAble for Request<B, V> {
    open spec fn desc_spec(&self) -> OpDesc {
        match self {
            Request::Accept(p) => p.desc_spec(),
            Request::Close(p) => p.desc_spec(),
            Request::Connect(p) => p.desc_spec(),
            Request::Fsync(p) => p.desc_spec(),
            Request::Open(p) => p.desc_spec(),
            Request::Read(p) => p.desc_spec(),
            Request::Write(p) => p.desc_spec(),
            Request::Readv(p) => p.desc_spec(),
            Request::Writev(p) => p.desc_spec(),
        }
    }

    fn uring_op(&mut self) -> (d: OpDesc) {
        match self {
            Request::Accept(p) => p.uring_op(),
            Request::Close(p) => p.uring_op(),
            Request::Connect(p) => p.uring_op(),
            Request::Fsync(p) => p.uring_op(),
            Request::Open(p) => p.uring_op(),
            Request::Read(p) => p.uring_op(),
            Request::Write(p) => p.uring_op(),
            Request::Readv(p) => p.uring_op(),
            Request::Writev(p) => p.uring_op(),
        }
    }
}

} // verus!
