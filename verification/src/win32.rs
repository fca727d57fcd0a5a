//! Plain-value models of the system records and constants that the library
//! hands to the operating system.

use vstd::prelude::*;

verus! {

/// The value that `socket` returns when no socket could be created.
pub const INVALID_SOCKET: u64 = 0xffff_ffff_ffff_ffff;

/// The null handle, returned when a completion port could not be created.
pub const NULL_HANDLE: u64 = 0;

/// The invalid handle, passed as the file when a new completion port is created.
pub const INVALID_HANDLE_VALUE: u64 = 0xffff_ffff_ffff_ffff;

/// A wait with no time limit.
pub const INFINITE: u32 = 0xffff_ffff;

/// Address family of IPv4 sockets.
pub const AF_INET: i32 = 2;

/// Socket type of stream sockets.
pub const SOCK_STREAM: i32 = 1;

/// Protocol number of TCP.
pub const IPPROTO_TCP: i32 = 6;

/// The largest backlog that `listen` accepts.
pub const SOMAXCONN: i32 = 0x7fff_ffff;

/// Error code of an overlapped operation that has been started and is pending.
pub const ERROR_IO_PENDING: u32 = 997;

/// The record that identifies one overlapped operation: two words of
/// system status, the 64-bit position (low and high halves) and the event
/// handle. Every field is a 64-bit word, as in the system's record.
#[derive(Clone, Copy, Debug, PartialEq, Eq, Structural)]
pub struct Overlapped {
    pub internal: u64,
    pub internal_high: u64,
    pub offset: u64,
    pub h_event: u64,
}

impl Overlapped {
    /// Every field of the record is zero.
    pub open spec fn is_zeroed(self) -> bool {
        &&& self.internal == 0
        &&& self.internal_high == 0
        &&& self.offset == 0
        &&& self.h_event == 0
    }

    /// A record with every field zero, ready to start a new operation.
    pub fn new() -> (r: Overlapped)
        ensures
            r.is_zeroed(),
    {
        Overlapped { internal: 0, internal_high: 0, offset: 0, h_event: 0 }
    }
}

/// An IPv4 address as its four bytes, most significant first.
#[derive(Clone, Copy, Debug, PartialEq, Eq, Structural)]
pub struct InAddr {
    pub s_b1: u8,
    pub s_b2: u8,
    pub s_b3: u8,
    pub s_b4: u8,
}

/// An IPv4 socket address: family, port in network byte order, address
/// and eight bytes of zero padding.
#[derive(Clone, Copy, Debug)]
pub struct SockAddrIn {
    pub sin_family: i16,
    pub sin_port: u16,
    pub sin_addr: InAddr,
    pub sa_zero: [u8; 8],
}

} // verus!
