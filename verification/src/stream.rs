//! Connections.

use vstd::prelude::*;

use core::marker::PhantomData;

use crate::addr::{new_socket_addr, SockAddr, SockAddrVm};
use crate::error::Error;
use crate::event::{Event, Stepwise};
use crate::platform::{check, check_count, Platform, Std};
use crate::port::PortPolicy;
use crate::socket::{SocketBind, Vsock};
use crate::sys::{
    nonblocking_call, AddrCall, CountCall, Direction, ErrorCall, Shutdown, StatusCall, SysCall,
    ERROR_LEN,
};
use crate::time::{timeval_from_duration, Interval};

verus! {

/// The making of a connection, up to the next step.
#[derive(Debug, PartialEq, Eq)]
pub enum Connect {
    /// The local socket is being made.
    Local { local: SocketBind, remote: SockAddrVm },
    /// The local socket is to be connected.
    Remote { socket: i32, remote: SockAddrVm },
    /// The connected socket, or why there is none.
    Done(Result<i32, Error>),
}

impl Stepwise for Connect {
    open spec fn next(self, event: Event) -> Connect {
        match (self, event) {
            (Connect::Local { local, remote }, _) => {
                Connect::with_local(local.next(event), remote)
            },
            (Connect::Remote { socket, remote }, Event::Returned(Ok(_))) => {
                Connect::Done(Ok(socket))
            },
            (Connect::Remote { socket, remote }, Event::Returned(Err(error))) => {
                Connect::Done(Err(error))
            },
            _ => self,
        }
    }
}

impl Connect {
    /// What follows from the state of the local socket.
    pub open spec fn with_local(local: SocketBind, remote: SockAddrVm) -> Connect {
        match local {
            SocketBind::Done(Ok(socket)) => Connect::Remote { socket, remote },
            SocketBind::Done(Err(error)) => Connect::Done(Err(error)),
            _ => Connect::Local { local, remote },
        }
    }

    /// The system call that is waited for, if any.
    pub open spec fn waits_for(self) -> Option<SysCall> {
        match self {
            Connect::Local { local, remote } => local.waits_for(),
            Connect::Remote { socket, remote } => Some(SysCall::Connect { socket, addr: remote }),
            Connect::Done(_) => None,
        }
    }

    /// `settled` is what remains once a port that has to be drawn has been searched for, once.
    pub open spec fn settles_to(self, settled: Connect) -> bool {
        match self {
            Connect::Local { local, remote } => exists|bound: SocketBind| #[trigger]
                local.settles_to(bound) && settled == Connect::with_local(bound, remote),
            _ => settled == self,
        }
    }

    fn from_local(local: SocketBind, remote: SockAddrVm) -> (connect: Connect)
        ensures
            connect == Connect::with_local(local, remote),
    {
        match local {
            SocketBind::Done(Ok(socket)) => Connect::Remote { socket, remote },
            SocketBind::Done(Err(error)) => Connect::Done(Err(error)),
            local => Connect::Local { local, remote },
        }
    }

    /// Takes the event into account.
    pub fn step(self, event: Event) -> (next: Connect)
        ensures
            next == self.next(event),
    {
        match self {
            Connect::Local { local, remote } => Connect::from_local(local.step(event), remote),
            Connect::Remote { socket, remote } => match event {
                Event::Returned(Ok(_)) => Connect::Done(Ok(socket)),
                Event::Returned(Err(error)) => Connect::Done(Err(error)),
                Event::Drawn(_) => Connect::Remote { socket, remote },
            },
            Connect::Done(result) => Connect::Done(result),
        }
    }

    /// Searches once for the port that has to be drawn before a system call can be made. Where the
    /// search failed with retries left, or was interrupted, settling again goes on.
    pub fn settle(self) -> (settled: Connect)
        ensures
            self.settles_to(settled),
    {
        match self {
            Connect::Local { local, remote } => Connect::from_local(local.settle(), remote),
            other => other,
        }
    }

    /// The system call that is waited for, if any.
    pub fn call(&self) -> (call: Option<SysCall>)
        ensures
            call == self.waits_for(),
    {
        match self {
            Connect::Local { local, remote: _ } => local.call(),
            Connect::Remote { socket, remote } => Some(
                SysCall::Connect { socket: *socket, addr: *remote },
            ),
            Connect::Done(_) => None,
        }
    }

    /// Takes the return value of the system call that was waited for into account, and searches once
    /// for the port that has to be drawn before the next one, if any.
    pub fn reply<P: Platform>(self, ret: i32) -> (next: Connect)
        ensures
            ret >= 0 ==> self.next(Event::Returned(Ok(ret))).settles_to(next),
            ret < 0 ==> exists|error: Error|
                error.comes_from::<P>() && (#[trigger] self.next(
                    Event::Returned(Err(error)),
                )).settles_to(next),
    {
        self.step(Event::Returned(check::<P>(ret))).settle()
    }

    /// The connection that was made, or why there is none, once all is done.
    pub fn finish<P: Platform>(self) -> (result: Option<Result<VsockStream<P>, Error>>)
        ensures
            match self {
                Connect::Done(Ok(socket)) => result matches Some(Ok(stream)) && stream@ == socket,
                Connect::Done(Err(error)) => result matches Some(Err(e)) && e == error,
                _ => result is None,
            },
    {
        match self {
            Connect::Done(Ok(socket)) => Some(Ok(VsockStream::of_raw_fd(socket))),
            Connect::Done(Err(error)) => Some(Err(error)),
            _ => None,
        }
    }
}

/// A virtio stream between a local and a remote socket.
#[derive(Debug)]
pub struct VsockStream<P: Platform = Std> {
    socket: i32,
    phantom: PhantomData<P>,
}

impl<P: Platform> View for VsockStream<P> {
    type V = i32;

    closed spec fn view(&self) -> i32 {
        self.socket
    }
}

impl<P: Platform> Clone for VsockStream<P> {
    /// A second value with the same descriptor.
    fn clone(&self) -> (copy: Self)
        ensures
            copy@ == self@,
    {
        VsockStream { socket: self.socket, phantom: PhantomData }
    }
}

impl<P: Platform> VsockStream<P> {
    /// The stream with this descriptor.
    pub fn of_raw_fd(socket: i32) -> (stream: Self)
        ensures
            stream@ == socket,
    {
        VsockStream { socket, phantom: PhantomData }
    }

    /// The descriptor of the underlying socket.
    pub fn as_raw_fd(&self) -> (fd: i32)
        ensures
            fd == self@,
    {
        self.socket
    }

    /// Gives up the stream and keeps the descriptor of the underlying socket, still open.
    pub fn into_raw_fd(self) -> (fd: i32)
        ensures
            fd == self@,
    {
        self.socket
    }

    /// The request that ends the life of a stream.
    pub fn close(&self) -> (request: SysCall)
        ensures
            request == (SysCall::Close { socket: self@ }),
    {
        SysCall::Close { socket: self.socket }
    }

    /// Begins to open a connection to a remote host.
    pub fn connect(addr: &SockAddr, ports: PortPolicy) -> (begun: Connect)
        ensures
            begun == (Connect::Local { local: SocketBind::opening(ports), remote: addr@ }),
    {
        Self::connect_with_socket_addr(&addr.fields(), ports)
    }

    /// Begins to open a connection to a remote host.
    pub fn connect_with_vsock_addr(vsock_addr: &SockAddrVm, ports: PortPolicy) -> (begun: Connect)
        ensures
            begun == (Connect::Local { local: SocketBind::opening(ports), remote: *vsock_addr }),
    {
        Self::connect_with_socket_addr(vsock_addr, ports)
    }

    /// Begins to open a connection to a remote host.
    pub fn connect_with_socket_addr(vsock_addr: &SockAddrVm, ports: PortPolicy) -> (begun: Connect)
        ensures
            begun == (Connect::Local { local: SocketBind::opening(ports), remote: *vsock_addr }),
    {
        Connect::Local { local: Vsock::new(ports), remote: *vsock_addr }
    }

    /// Begins to open a connection to a remote host with the given context identifier and port.
    pub fn connect_with_cid_port(cid: u32, port: u32, ports: PortPolicy) -> (begun: Connect)
        ensures
            begun == (Connect::Local {
                local: SocketBind::opening(ports),
                remote: SockAddrVm::of(cid, port),
            }),
    {
        Self::connect_with_socket_addr(&new_socket_addr(cid, port), ports)
    }

    /// Begins to connect a local socket to a remote host.
    pub(crate) fn connect_vsock_to_socket_addr(local: Vsock, remote: &SockAddrVm) -> (begun:
        Connect)
        ensures
            begun == (Connect::Remote { socket: local@, remote: *remote }),
    {
        Connect::Remote { socket: local.as_raw_fd(), remote: *remote }
    }

    /// The question for the virtio socket address of the remote peer of this connection.
    pub fn peer_addr(&self) -> (query: AddrCall)
        ensures
            query.call == (SysCall::PeerName { socket: self@, addr: SockAddrVm::of(0, 0) }),
    {
        AddrCall::peer(self.socket)
    }

    /// The question for the virtio socket address of the local end of this connection.
    pub fn local_addr(&self) -> (query: AddrCall)
        ensures
            query.call == (SysCall::LocalName { socket: self@, addr: SockAddrVm::of(0, 0) }),
    {
        AddrCall::local(self.socket)
    }

    /// The request to shut down the read, write, or both halves of this connection.
    pub fn shutdown(&self, how: Shutdown) -> (request: StatusCall)
        ensures
            request.call == (SysCall::Shutdown { socket: self@, how: how.code() }),
    {
        StatusCall { call: SysCall::Shutdown { socket: self.socket, how: how.code() } }
    }

    /// The request for a new independently owned handle to the underlying socket.
    pub fn try_clone(&self) -> (request: CloneStreamCall)
        ensures
            request.call == (SysCall::Duplicate { socket: self@, cloexec: true }),
    {
        CloneStreamCall { call: SysCall::Duplicate { socket: self.socket, cloexec: true } }
    }

    fn timeout_call(&self, direction: Direction, dur: Option<Interval>) -> (request: Result<
        StatusCall,
        Error,
    >)
        ensures
            request == StatusCall::timeout(self@, direction, dur),
    {
        match timeval_from_duration(dur) {
            Ok(timeout) => Ok(
                StatusCall { call: SysCall::SetTimeout { socket: self.socket, direction, timeout } },
            ),
            Err(error) => Err(error),
        }
    }

    /// The request to set the timeout on read operations.
    pub fn set_read_timeout(&self, dur: Option<Interval>) -> (request: Result<StatusCall, Error>)
        ensures
            request == StatusCall::timeout(self@, Direction::Receive, dur),
    {
        self.timeout_call(Direction::Receive, dur)
    }

    /// The request to set the timeout on write operations.
    pub fn set_write_timeout(&self, dur: Option<Interval>) -> (request: Result<StatusCall, Error>)
        ensures
            request == StatusCall::timeout(self@, Direction::Send, dur),
    {
        self.timeout_call(Direction::Send, dur)
    }

    /// The question for the latest error associated with the underlying socket.
    pub fn take_error(&self) -> (query: ErrorCall)
        ensures
            query.call == (SysCall::PendingError { socket: self@, code: 0, len: ERROR_LEN }),
    {
        ErrorCall::pending(self.socket)
    }

    /// The request to move this stream in or out of nonblocking mode.
    pub fn set_nonblocking(&self, nonblocking: bool) -> (request: StatusCall)
        ensures
            request.call == (SysCall::SetNonblocking {
                socket: self@,
                value: if nonblocking { 1 } else { 0 },
            }),
    {
        nonblocking_call(self.socket, nonblocking)
    }

    /// The request to read what has come in into a buffer.
    pub fn read(&self, buf: &[u8]) -> (request: CountCall)
        ensures
            request.call == (SysCall::Recv { socket: self@, start: 0, end: buf@.len() as usize }),
    {
        CountCall { call: SysCall::Recv { socket: self.socket, start: 0, end: buf.len() } }
    }

    /// The request to write the bytes of a buffer.
    pub fn write(&self, buf: &[u8]) -> (request: CountCall)
        ensures
            request.call == (SysCall::Send {
                socket: self@,
                start: 0,
                end: buf@.len() as usize,
                nosignal: true,
            }),
    {
        CountCall {
            call: SysCall::Send { socket: self.socket, start: 0, end: buf.len(), nosignal: true },
        }
    }

    /// Begins to write all bytes of a buffer.
    pub fn write_all(&self, buf: &[u8]) -> (begun: Transfer)
        ensures
            begun == Transfer::at(self@, Direction::Send, 0, buf@.len()),
    {
        Transfer::start(self.socket, Direction::Send, buf.len())
    }

    /// Begins to fill a buffer with what comes in.
    pub fn read_all(&self, buf: &[u8]) -> (begun: Transfer)
        ensures
            begun == Transfer::at(self@, Direction::Receive, 0, buf@.len()),
    {
        Transfer::start(self.socket, Direction::Receive, buf.len())
    }

    /// Flushes the stream, of which there is nothing to do.
    pub fn flush() -> (result: Result<(), Error>)
        ensures
            result == Ok::<(), Error>(()),
    {
        Ok(())
    }
}

/// The request for a second handle to a stream.
#[derive(Debug, PartialEq, Eq, Clone, Copy)]
pub struct CloneStreamCall {
    pub call: SysCall,
}

impl CloneStreamCall {
    /// The second handle, by the call's return value.
    pub fn finish<P: Platform>(&self, ret: i32) -> (result: Result<VsockStream<P>, Error>)
        ensures
            match result {
                Ok(stream) => ret >= 0 && stream@ == ret,
                Err(error) => ret < 0 && error.comes_from::<P>(),
            },
    {
        match check::<P>(ret) {
            Ok(socket) => Ok(VsockStream::of_raw_fd(socket)),
            Err(error) => Err(error),
        }
    }
}

/// The transfer of a whole buffer, up to the next step.
#[derive(Debug, PartialEq, Eq)]
pub enum Transfer {
    /// Of the `len` bytes of the buffer, the first `moved` have been moved, and there are more.
    Moving { socket: i32, direction: Direction, moved: usize, len: usize },
    /// The number of bytes moved, or why the transfer broke off.
    Done(Result<usize, Error>),
}

impl Transfer {
    /// The transfer of which `moved` of `len` bytes are done.
    pub open spec fn at(socket: i32, direction: Direction, moved: nat, len: nat) -> Transfer {
        if moved == len {
            Transfer::Done(Ok(len as usize))
        } else {
            Transfer::Moving { socket, direction, moved: moved as usize, len: len as usize }
        }
    }

    /// There are bytes left while bytes are being moved.
    pub open spec fn wf(self) -> bool {
        self matches Transfer::Moving { socket, direction, moved, len } ==> moved < len
    }

    /// How many bytes are left to be moved.
    pub open spec fn left(self) -> int {
        match self {
            Transfer::Moving { socket, direction, moved, len } => len - moved,
            Transfer::Done(_) => 0,
        }
    }

    /// What comes after a system call that moved so many bytes, or failed.
    pub open spec fn next(self, outcome: Result<usize, Error>) -> Transfer {
        match (self, outcome) {
            (Transfer::Moving { socket, direction, moved, len }, Ok(count)) => {
                Transfer::at(socket, direction, (moved + count) as nat, len as nat)
            },
            (Transfer::Moving { socket, direction, moved, len }, Err(error)) => {
                Transfer::Done(Err(error))
            },
            _ => self,
        }
    }

    /// The system call that is waited for, if any.
    pub open spec fn waits_for(self) -> Option<SysCall> {
        match self {
            Transfer::Moving { socket, direction: Direction::Receive, moved, len } => Some(
                SysCall::Recv { socket, start: moved, end: len },
            ),
            Transfer::Moving { socket, direction: Direction::Send, moved, len } => Some(
                SysCall::Send { socket, start: moved, end: len, nosignal: true },
            ),
            Transfer::Done(_) => None,
        }
    }

    /// The transfer of `len` bytes, of which none has been moved.
    pub fn start(socket: i32, direction: Direction, len: usize) -> (begun: Transfer)
        ensures
            begun == Transfer::at(socket, direction, 0, len as nat),
            begun.wf(),
    {
        if len == 0 {
            Transfer::Done(Ok(0))
        } else {
            Transfer::Moving { socket, direction, moved: 0, len }
        }
    }

    /// Takes into account that the system call moved so many bytes, or failed.
    pub fn step(self, outcome: Result<usize, Error>) -> (next: Transfer)
        requires
            self.wf(),
            self is Moving && outcome is Ok ==> outcome->Ok_0 <= self.left(),
        ensures
            next == self.next(outcome),
            next.wf(),
    {
        match self {
            Transfer::Moving { socket, direction, moved, len } => match outcome {
                Ok(count) => {
                    let moved: usize = moved + count;
                    if moved == len {
                        Transfer::Done(Ok(len))
                    } else {
                        Transfer::Moving { socket, direction, moved, len }
                    }
                },
                Err(error) => Transfer::Done(Err(error)),
            },
            Transfer::Done(result) => Transfer::Done(result),
        }
    }

    /// The system call that is waited for, if any.
    pub fn call(&self) -> (call: Option<SysCall>)
        ensures
            call == self.waits_for(),
    {
        match self {
            Transfer::Moving { socket, direction, moved, len } => match direction {
                Direction::Receive => Some(
                    SysCall::Recv { socket: *socket, start: *moved, end: *len },
                ),
                Direction::Send => Some(
                    SysCall::Send { socket: *socket, start: *moved, end: *len, nosignal: true },
                ),
            },
            Transfer::Done(_) => None,
        }
    }

    /// Takes the return value of the system call that was waited for into account.
    pub fn reply<P: Platform>(self, ret: isize) -> (next: Transfer)
        requires
            self.wf(),
            self is Moving ==> ret <= self.left(),
        ensures
            next.wf(),
            ret >= 0 ==> next == self.next(Ok(ret as usize)),
            ret < 0 ==> exists|error: Error|
                error.comes_from::<P>() && next == #[trigger] self.next(Err(error)),
    {
        self.step(check_count::<P>(ret))
    }

    /// The number of bytes moved, or why the transfer broke off, once all is done.
    pub fn finish(self) -> (result: Option<Result<usize, Error>>)
        ensures
            result == (match self {
                Transfer::Done(result) => Some(result),
                _ => None,
            }),
    {
        match self {
            Transfer::Done(result) => Some(result),
            _ => None,
        }
    }
}

} // verus!
