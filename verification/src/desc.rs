//! Plain-value descriptions of kernel submission entries and completion
//! events.
//!
//! An [`OpDesc`] holds everything the driver's logic reads of a request:
//! the operation kind, the file descriptor, sizes and offsets. The
//! kernel-facing shell turns it into the kernel's own entry layout,
//! adding the memory addresses that only it can produce.

use vstd::prelude::*;

verus! {

/// A timeout, in whole seconds and nanoseconds.
#[derive(Clone, Copy, PartialEq, Eq, Structural, Debug)]
pub struct TimeSpec {
    pub sec: u64,
    pub nsec: u32,
}

/// An IPv4 socket address in the kernel's layout: address family, port
/// and address octets as given; the shell writes them out in wire byte
/// order.
#[derive(Clone, Copy, Debug)]
pub struct SockAddrIn {
    /// The address family; [`AF_INET`] for IPv4.
    pub family: u16,
    /// The port, in host order.
    pub port: u16,
    /// The IPv4 address octets.
    pub addr: [u8; 4],
}

/// The IPv4 address family.
pub const AF_INET: u16 = 2;

/// Byte size of the kernel's IPv4 socket address structure.
pub const SOCKADDR_IN_LEN: u32 = 16;

/// What one submission entry asks of the kernel, as plain values.
#[derive(Clone, Copy, Debug)]
pub enum OpDesc {
    /// Read `len` bytes at `offset` into the operation's buffer.
    Read { fd: i32, offset: u64, len: u32 },
    /// Write `len` bytes at `offset` from the operation's buffer.
    Write { fd: i32, offset: u64, len: u32 },
    /// Scatter a read across `cnt` regions at `offset`.
    Readv { fd: i32, offset: u64, cnt: u32 },
    /// Gather a write from `cnt` regions at `offset`.
    Writev { fd: i32, offset: u64, cnt: u32 },
    /// Accept one connection on a listening socket.
    Accept { fd: i32 },
    /// Connect a socket to an IPv4 address.
    Connect { fd: i32, addr: SockAddrIn, addr_len: u32 },
    /// Flush a file's data, and its metadata unless `data_sync`.
    Fsync { fd: i32, data_sync: bool },
    /// Open a file with the given flags and creation mode; the path
    /// lives in the operation's payload, like a buffer.
    Open { flags: i32, mode: u32 },
    /// Close a file descriptor.
    Close { fd: i32 },
    /// Report completion once the timeout elapses.
    Timeout { ts: TimeSpec },
    /// Ask the kernel to abandon the operation whose correlation tag is
    /// `target`.
    Cancel { target: u64 },
}

/// One entry bound for the kernel's submission queue: a request
/// description and the correlation tag the kernel will echo back.
#[derive(Clone, Copy, Debug)]
pub struct SqEntry {
    pub desc: OpDesc,
    pub user_data: u64,
}

/// One harvested completion event: the echoed correlation tag, the
/// signed result and the raw flags.
#[derive(Clone, Copy, PartialEq, Eq, Structural, Debug)]
pub struct CqEvent {
    pub user_data: u64,
    pub result: i32,
    pub flags: u32,
}

} // verus!
