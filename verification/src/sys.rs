//! The system calls that the library asks for, and how the simple ones end.

use vstd::prelude::*;

use crate::addr::{new_socket_addr, SockAddr, SockAddrVm};
use crate::error::Error;
use crate::platform::{check, check_count, Platform};
use crate::time::{Interval, TimeVal};

verus! {

/// The code by which the kernel is told to shut the reading half of a connection.
pub const SHUT_RD: i32 = 0;

/// The code by which the kernel is told to shut the writing half of a connection.
pub const SHUT_WR: i32 = 1;

/// The code by which the kernel is told to shut both halves of a connection.
pub const SHUT_RDWR: i32 = 2;

/// The size in bytes of the error number that a socket hands out.
pub const ERROR_LEN: u32 = 4;

/// The two ways in which bytes travel.
#[derive(Debug, PartialEq, Eq, Clone, Copy, Structural)]
pub enum Direction {
    /// From the peer to this end.
    Receive,
    /// From this end to the peer.
    Send,
}

/// Which part of a connection to shut down.
#[derive(Debug, PartialEq, Eq, Clone, Copy, Structural)]
pub enum Shutdown {
    Read,
    Write,
    Both,
}

impl Shutdown {
    /// The kernel's code for this part.
    pub open spec fn spec_code(self) -> i32 {
        match self {
            Shutdown::Read => SHUT_RD,
            Shutdown::Write => SHUT_WR,
            Shutdown::Both => SHUT_RDWR,
        }
    }

    /// The kernel's code for this part.
    #[verifier::when_used_as_spec(spec_code)]
    pub fn code(self) -> (code: i32)
        ensures
            code == self.spec_code(),
    {
        match self {
            Shutdown::Write => SHUT_WR,
            Shutdown::Read => SHUT_RD,
            Shutdown::Both => SHUT_RDWR,
        }
    }
}

/// A system call to be made, with its arguments. Addresses are passed with their full size.
#[derive(Debug, PartialEq, Eq, Clone, Copy)]
pub enum SysCall {
    /// `socket`: opens a stream socket.
    StreamSocket { family: u16, cloexec: bool, protocol: i32 },
    /// `bind`: gives the socket its local address.
    Bind { socket: i32, addr: SockAddrVm },
    /// `listen`: makes the socket accept connections, `backlog` of which may wait.
    Listen { socket: i32, backlog: i32 },
    /// `accept4`: takes a waiting connection, and overwrites `addr` with the address of its peer.
    Accept { socket: i32, addr: SockAddrVm, cloexec: bool },
    /// `connect`: connects the socket to a peer.
    Connect { socket: i32, addr: SockAddrVm },
    /// `getsockname`: overwrites `addr` with the local address of the socket.
    LocalName { socket: i32, addr: SockAddrVm },
    /// `getpeername`: overwrites `addr` with the address of the socket's peer.
    PeerName { socket: i32, addr: SockAddrVm },
    /// `getsockopt` on the socket's pending error: overwrites the first `len` bytes of `code`.
    PendingError { socket: i32, code: i32, len: u32 },
    /// `setsockopt` on the timeout of transfers in one direction.
    SetTimeout { socket: i32, direction: Direction, timeout: TimeVal },
    /// `ioctl` that turns nonblocking mode on or off.
    SetNonblocking { socket: i32, value: i32 },
    /// `shutdown`: shuts down a part of the connection.
    Shutdown { socket: i32, how: i32 },
    /// `recv` into the bytes from `start` up to `end` of the caller's buffer.
    Recv { socket: i32, start: usize, end: usize },
    /// `send` of the bytes from `start` up to `end` of the caller's buffer.
    Send { socket: i32, start: usize, end: usize, nosignal: bool },
    /// `fcntl` that gives the socket a second descriptor.
    Duplicate { socket: i32, cloexec: bool },
    /// `close`: gives the descriptor back.
    Close { socket: i32 },
}

/// A system call that either works or does not.
#[derive(Debug, PartialEq, Eq, Clone, Copy)]
pub struct StatusCall {
    pub call: SysCall,
}

impl StatusCall {
    /// The request to set the timeout of transfers in one direction, where that is not of zero
    /// length.
    pub open spec fn timeout(socket: i32, direction: Direction, dur: Option<Interval>) -> Result<
        StatusCall,
        Error,
    > {
        match dur {
            None => Ok(
                StatusCall {
                    call: SysCall::SetTimeout { socket, direction, timeout: TimeVal::none() },
                },
            ),
            Some(span) => if span.length() == 0 {
                Err(Error::ZeroDurationTimeout)
            } else {
                Ok(
                    StatusCall {
                        call: SysCall::SetTimeout { socket, direction, timeout: span.timeval() },
                    },
                )
            },
        }
    }

    /// What the call's return value comes to.
    pub fn finish<P: Platform>(&self, ret: i32) -> (result: Result<(), Error>)
        ensures
            match result {
                Ok(()) => ret >= 0,
                Err(error) => ret < 0 && error.comes_from::<P>(),
            },
    {
        match check::<P>(ret) {
            Ok(_) => Ok(()),
            Err(error) => Err(error),
        }
    }
}

/// A system call that moves bytes.
#[derive(Debug, PartialEq, Eq, Clone, Copy)]
pub struct CountCall {
    pub call: SysCall,
}

impl CountCall {
    /// How many bytes the call moved, by its return value.
    pub fn finish<P: Platform>(&self, ret: isize) -> (result: Result<usize, Error>)
        ensures
            match result {
                Ok(count) => ret >= 0 && count == ret,
                Err(error) => ret < 0 && error.comes_from::<P>(),
            },
    {
        check_count::<P>(ret)
    }
}

/// A system call that fills in an address.
#[derive(Debug, PartialEq, Eq, Clone, Copy)]
pub struct AddrCall {
    pub call: SysCall,
}

impl AddrCall {
    /// The question for the local address of a socket.
    pub(crate) fn local(socket: i32) -> (query: AddrCall)
        ensures
            query.call == (SysCall::LocalName { socket, addr: SockAddrVm::of(0, 0) }),
    {
        AddrCall { call: SysCall::LocalName { socket, addr: new_socket_addr(0, 0) } }
    }

    /// The question for the address of a socket's peer.
    pub(crate) fn peer(socket: i32) -> (query: AddrCall)
        ensures
            query.call == (SysCall::PeerName { socket, addr: SockAddrVm::of(0, 0) }),
    {
        AddrCall { call: SysCall::PeerName { socket, addr: new_socket_addr(0, 0) } }
    }

    /// The address that the call filled in, by its return value.
    pub fn finish<P: Platform>(&self, ret: i32, addr: SockAddrVm) -> (result: Result<
        SockAddr,
        Error,
    >)
        ensures
            match result {
                Ok(answer) => ret >= 0 && answer@ == addr,
                Err(error) => ret < 0 && error.comes_from::<P>(),
            },
    {
        match check::<P>(ret) {
            Ok(_) => Ok(SockAddr::wrap(addr)),
            Err(error) => Err(error),
        }
    }
}

impl SockAddr {
    /// The question for the local address of the socket with this descriptor.
    pub fn of_raw_fd(fd: i32) -> (query: AddrCall)
        ensures
            query.call == (SysCall::LocalName { socket: fd, addr: SockAddrVm::of(0, 0) }),
    {
        AddrCall::local(fd)
    }

    /// The question for the address of the peer of the socket with this descriptor.
    pub fn peer_from_raw_fd(fd: i32) -> (query: AddrCall)
        ensures
            query.call == (SysCall::PeerName { socket: fd, addr: SockAddrVm::of(0, 0) }),
    {
        AddrCall::peer(fd)
    }
}

/// A system call that hands out a socket's pending error.
#[derive(Debug, PartialEq, Eq, Clone, Copy)]
pub struct ErrorCall {
    pub call: SysCall,
}

impl ErrorCall {
    /// The question for the pending error of a socket.
    pub(crate) fn pending(socket: i32) -> (query: ErrorCall)
        ensures
            query.call == (SysCall::PendingError { socket, code: 0, len: ERROR_LEN }),
    {
        ErrorCall { call: SysCall::PendingError { socket, code: 0, len: ERROR_LEN } }
    }

    /// The pending error that the call handed out as `code`, by its return value: a code of zero
    /// means that there is none.
    pub fn finish<P: Platform>(&self, ret: i32, code: i32) -> (result: Result<Option<Error>, Error>)
        ensures
            match result {
                Ok(pending) => ret >= 0 && pending == (if code == 0 {
                    None
                } else {
                    Some(Error::SystemError(code))
                }),
                Err(error) => ret < 0 && error.comes_from::<P>(),
            },
    {
        match check::<P>(ret) {
            Ok(_) => Ok(
                if code == 0 {
                    None
                } else {
                    Some(Error::SystemError(code))
                },
            ),
            Err(error) => Err(error),
        }
    }
}

/// The request to turn nonblocking mode of a socket on or off.
pub(crate) fn nonblocking_call(socket: i32, nonblocking: bool) -> (request: StatusCall)
    ensures
        request.call == (SysCall::SetNonblocking {
            socket,
            value: if nonblocking { 1 } else { 0 },
        }),
{
    let value: i32 = if nonblocking { 1 } else { 0 };
    StatusCall { call: SysCall::SetNonblocking { socket, value } }
}

} // verus!
