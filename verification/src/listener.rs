//! Listening for connections.

use vstd::prelude::*;

use core::marker::PhantomData;

use crate::addr::{new_socket_addr, AnyAddr, SockAddr, SockAddrVm, AF_VSOCK};
use crate::error::Error;
use crate::event::{Event, Stepwise};
use crate::platform::{check, Platform, Std};
use crate::port::PortPolicy;
use crate::socket::Vsock;
use crate::stream::VsockStream;
use crate::sys::{nonblocking_call, AddrCall, ErrorCall, StatusCall, SysCall, ERROR_LEN};

verus! {

/// How many connections may wait to be accepted.
pub const BACKLOG: i32 = 128;

/// The making of a listener, up to the next step.
#[derive(Debug, PartialEq, Eq)]
pub enum ListenerBind {
    /// A random port is to be drawn.
    Draw { cid: u32, retries: u32 },
    /// A socket is to be opened.
    Open { cid: u32, port: u32, retries: u32 },
    /// The socket is to be bound.
    Bind { cid: u32, port: u32, retries: u32, socket: i32 },
    /// The bound socket is to listen.
    Listen { cid: u32, port: u32, retries: u32, socket: i32 },
    /// The listening socket, or why there is none.
    Done(Result<i32, Error>),
}

impl Stepwise for ListenerBind {
    open spec fn next(self, event: Event) -> ListenerBind {
        match (self, event) {
            (ListenerBind::Draw { cid, retries }, Event::Drawn(Ok(port))) => {
                ListenerBind::Open { cid, port, retries }
            },
            (ListenerBind::Draw { cid, retries }, Event::Drawn(Err(error))) => {
                ListenerBind::after_failure(cid, retries, error)
            },
            (ListenerBind::Open { cid, port, retries }, Event::Returned(Ok(socket))) => {
                ListenerBind::Bind { cid, port, retries, socket }
            },
            (ListenerBind::Open { cid, port, retries }, Event::Returned(Err(error))) => {
                ListenerBind::after_failure(cid, retries, error)
            },
            (ListenerBind::Bind { cid, port, retries, socket }, Event::Returned(Ok(_))) => {
                ListenerBind::Listen { cid, port, retries, socket }
            },
            (ListenerBind::Bind { cid, port, retries, socket }, Event::Returned(Err(error))) => {
                ListenerBind::after_failure(cid, retries, error)
            },
            (ListenerBind::Listen { cid, port, retries, socket }, Event::Returned(Ok(_))) => {
                ListenerBind::Done(Ok(socket))
            },
            (ListenerBind::Listen { cid, port, retries, socket }, Event::Returned(Err(error))) => {
                ListenerBind::after_failure(cid, retries, error)
            },
            _ => self,
        }
    }
}

impl ListenerBind {
    /// What a request for a listener on `cid` and `port` starts with.
    pub open spec fn first(cid: u32, port: u32, ports: PortPolicy) -> ListenerBind {
        if port != 0 {
            ListenerBind::Open { cid, port, retries: 0 }
        } else {
            match ports {
                PortPolicy::Random => ListenerBind::Draw { cid, retries: ports.retries() },
                PortPolicy::Explicit => ListenerBind::Done(Err(Error::ReservedPort)),
            }
        }
    }

    /// What comes after a failed attempt: another one, with a port newly drawn, as long as there
    /// are retries left.
    pub open spec fn after_failure(cid: u32, retries: u32, error: Error) -> ListenerBind {
        if retries == 0 {
            ListenerBind::Done(Err(error))
        } else {
            ListenerBind::Draw { cid, retries: (retries - 1) as u32 }
        }
    }

    /// The system call that is waited for, if any.
    pub open spec fn waits_for(self) -> Option<SysCall> {
        match self {
            ListenerBind::Open { .. } => Some(
                SysCall::StreamSocket { family: AF_VSOCK, cloexec: true, protocol: 0 },
            ),
            ListenerBind::Bind { cid, port, retries, socket } => Some(
                SysCall::Bind { socket, addr: SockAddrVm::of(cid, port) },
            ),
            ListenerBind::Listen { cid, port, retries, socket } => Some(
                SysCall::Listen { socket, backlog: BACKLOG },
            ),
            _ => None,
        }
    }

    /// What comes after a search for a random port. A search that was interrupted changes nothing.
    pub open spec fn after_search(self, drawn: Option<Result<u32, Error>>) -> ListenerBind {
        match drawn {
            Some(drawn) => self.next(Event::Drawn(drawn)),
            None => self,
        }
    }

    /// `settled` is what remains once a port that has to be drawn has been searched for, once.
    pub open spec fn settles_to(self, settled: ListenerBind) -> bool {
        match self {
            ListenerBind::Draw { .. } => exists|drawn: Option<Result<u32, Error>>| #[trigger]
                Vsock::may_draw(drawn) && settled == self.after_search(drawn),
            _ => settled == self,
        }
    }

    /// What a request for a listener on `cid` and `port` starts with.
    pub fn start(cid: u32, port: u32, ports: PortPolicy) -> (begun: ListenerBind)
        ensures
            begun == ListenerBind::first(cid, port, ports),
    {
        if port == 0 {
            match ports {
                PortPolicy::Random => ListenerBind::Draw { cid, retries: ports.retries() },
                PortPolicy::Explicit => ListenerBind::Done(Err(Error::ReservedPort)),
            }
        } else {
            ListenerBind::Open { cid, port, retries: 0 }
        }
    }

    fn retry(cid: u32, retries: u32, error: Error) -> (next: ListenerBind)
        ensures
            next == ListenerBind::after_failure(cid, retries, error),
    {
        if retries == 0 {
            ListenerBind::Done(Err(error))
        } else {
            ListenerBind::Draw { cid, retries: retries - 1 }
        }
    }

    /// Takes the event into account.
    pub fn step(self, event: Event) -> (next: ListenerBind)
        ensures
            next == self.next(event),
    {
        match event {
            Event::Drawn(drawn) => match self {
                ListenerBind::Draw { cid, retries } => match drawn {
                    Ok(port) => ListenerBind::Open { cid, port, retries },
                    Err(error) => ListenerBind::retry(cid, retries, error),
                },
                other => other,
            },
            Event::Returned(Ok(value)) => match self {
                ListenerBind::Open { cid, port, retries } => {
                    ListenerBind::Bind { cid, port, retries, socket: value }
                },
                ListenerBind::Bind { cid, port, retries, socket } => {
                    ListenerBind::Listen { cid, port, retries, socket }
                },
                ListenerBind::Listen { cid: _, port: _, retries: _, socket } => {
                    ListenerBind::Done(Ok(socket))
                },
                other => other,
            },
            Event::Returned(Err(error)) => match self {
                ListenerBind::Open { cid, port: _, retries } => {
                    ListenerBind::retry(cid, retries, error)
                },
                ListenerBind::Bind { cid, port: _, retries, socket: _ } => {
                    ListenerBind::retry(cid, retries, error)
                },
                ListenerBind::Listen { cid, port: _, retries, socket: _ } => {
                    ListenerBind::retry(cid, retries, error)
                },
                other => other,
            },
        }
    }

    /// Searches once for the port that has to be drawn before a system call can be made. Where the
    /// search failed with retries left, or was interrupted, settling again goes on.
    pub fn settle(self) -> (settled: ListenerBind)
        ensures
            self.settles_to(settled),
    {
        match self {
            ListenerBind::Draw { cid, retries } => {
                let state = ListenerBind::Draw { cid, retries };
                let drawn = Vsock::gen_rand_port();
                assert(Vsock::may_draw(drawn));
                match drawn {
                    Some(drawn) => state.step(Event::Drawn(drawn)),
                    None => state,
                }
            },
            other => other,
        }
    }

    /// The system call that is waited for, if any.
    pub fn call(&self) -> (call: Option<SysCall>)
        ensures
            call == self.waits_for(),
    {
        match self {
            ListenerBind::Open { cid: _, port: _, retries: _ } => Some(
                SysCall::StreamSocket { family: AF_VSOCK, cloexec: true, protocol: 0 },
            ),
            ListenerBind::Bind { cid, port, retries: _, socket } => Some(
                SysCall::Bind { socket: *socket, addr: new_socket_addr(*cid, *port) },
            ),
            ListenerBind::Listen { cid: _, port: _, retries: _, socket } => Some(
                SysCall::Listen { socket: *socket, backlog: BACKLOG },
            ),
            _ => None,
        }
    }

    /// Takes the return value of the system call that was waited for into account, and searches once
    /// for the port that has to be drawn before the next one, if any.
    pub fn reply<P: Platform>(self, ret: i32) -> (next: ListenerBind)
        ensures
            ret >= 0 ==> self.next(Event::Returned(Ok(ret))).settles_to(next),
            ret < 0 ==> exists|error: Error|
                error.comes_from::<P>() && (#[trigger] self.next(
                    Event::Returned(Err(error)),
                )).settles_to(next),
    {
        self.step(Event::Returned(check::<P>(ret))).settle()
    }

    /// The listener that was made, or why there is none, once all is done.
    pub fn finish<P: Platform>(self) -> (result: Option<Result<VsockListener<P>, Error>>)
        ensures
            match self {
                ListenerBind::Done(Ok(socket)) => {
                    result matches Some(Ok(listener)) && listener@ == socket
                },
                ListenerBind::Done(Err(error)) => {
                    result matches Some(Err(e)) && e == error
                },
                _ => result is None,
            },
    {
        match self {
            ListenerBind::Done(Ok(socket)) => Some(Ok(VsockListener::of_raw_fd(socket))),
            ListenerBind::Done(Err(error)) => Some(Err(error)),
            _ => None,
        }
    }
}

/// A virtio socket server, listening for connections.
#[derive(Debug)]
pub struct VsockListener<P: Platform = Std> {
    socket: i32,
    phantom: PhantomData<P>,
}

impl<P: Platform> View for VsockListener<P> {
    type V = i32;

    closed spec fn view(&self) -> i32 {
        self.socket
    }
}

impl<P: Platform> Clone for VsockListener<P> {
    /// A second value with the same descriptor.
    fn clone(&self) -> (copy: Self)
        ensures
            copy@ == self@,
    {
        VsockListener { socket: self.socket, phantom: PhantomData }
    }
}

impl<P: Platform> VsockListener<P> {
    /// Begins to make a listener that is bound to the socket address and listens on it.
    pub fn bind(addr: &AnyAddr, ports: PortPolicy) -> (begun: ListenerBind)
        ensures
            match *addr {
                AnyAddr::Vsock(addr) => ListenerBind::first(
                    addr.svm_cid,
                    addr.svm_port,
                    ports,
                ).settles_to(begun),
                AnyAddr::Other => begun == ListenerBind::Done(Err(Error::WrongAddressType)),
            },
    {
        match addr {
            AnyAddr::Vsock(addr) => Self::bind_with_cid_port(addr.svm_cid, addr.svm_port, ports),
            AnyAddr::Other => ListenerBind::Done(Err(Error::WrongAddressType)),
        }
    }

    /// Begins to make a listener with the given context identifier and port.
    pub fn bind_with_cid_port(cid: u32, port: u32, ports: PortPolicy) -> (begun: ListenerBind)
        ensures
            ListenerBind::first(cid, port, ports).settles_to(begun),
    {
        ListenerBind::start(cid, port, ports).settle()
    }

    /// Begins to make a listener with the given context identifier and a random port.
    pub fn bind_with_cid(cid: u32) -> (begun: ListenerBind)
        ensures
            ListenerBind::first(cid, 0, PortPolicy::Random).settles_to(begun),
    {
        ListenerBind::start(cid, 0, PortPolicy::Random).settle()
    }

    /// The question for the local socket address of the listener.
    pub fn local_addr(&self) -> (query: AddrCall)
        ensures
            query.call == (SysCall::LocalName { socket: self@, addr: SockAddrVm::of(0, 0) }),
    {
        AddrCall::local(self.socket)
    }

    /// The request for a new independently owned handle to the underlying socket.
    pub fn try_clone(&self) -> (request: CloneListenerCall)
        ensures
            request.call == (SysCall::Duplicate { socket: self@, cloexec: true }),
    {
        CloneListenerCall { call: SysCall::Duplicate { socket: self.socket, cloexec: true } }
    }

    /// The request for a new incoming connection from this listener.
    pub fn accept(&self) -> (request: AcceptCall)
        ensures
            request.call == (SysCall::Accept {
                socket: self@,
                addr: SockAddrVm::of(0, 0),
                cloexec: true,
            }),
    {
        AcceptCall {
            call: SysCall::Accept {
                socket: self.socket,
                addr: new_socket_addr(0, 0),
                cloexec: true,
            },
        }
    }

    /// The connections being received on this listener.
    pub fn incoming(&self) -> (connections: Incoming<'_, P>)
        ensures
            connections@ == self@,
    {
        Incoming { listener: self }
    }

    /// The question for the latest error associated with the underlying socket.
    pub fn take_error(&self) -> (query: ErrorCall)
        ensures
            query.call == (SysCall::PendingError { socket: self@, code: 0, len: ERROR_LEN }),
    {
        ErrorCall::pending(self.socket)
    }

    /// The request to move this listener in or out of nonblocking mode.
    pub fn set_nonblocking(&self, nonblocking: bool) -> (request: StatusCall)
        ensures
            request.call == (SysCall::SetNonblocking {
                socket: self@,
                value: if nonblocking { 1 } else { 0 },
            }),
    {
        nonblocking_call(self.socket, nonblocking)
    }

    /// The descriptor of the underlying socket.
    pub fn as_raw_fd(&self) -> (fd: i32)
        ensures
            fd == self@,
    {
        self.socket
    }

    /// Gives up the listener and keeps the descriptor of the underlying socket, still open.
    pub fn into_raw_fd(self) -> (fd: i32)
        ensures
            fd == self@,
    {
        self.socket
    }

    /// The listener with this descriptor.
    pub fn of_raw_fd(socket: i32) -> (listener: Self)
        ensures
            listener@ == socket,
    {
        VsockListener { socket, phantom: PhantomData }
    }

    /// The request that ends the life of a listener.
    pub fn close(&self) -> (request: SysCall)
        ensures
            request == (SysCall::Close { socket: self@ }),
    {
        SysCall::Close { socket: self.socket }
    }
}

/// The request for a second handle to a listener.
#[derive(Debug, PartialEq, Eq, Clone, Copy)]
pub struct CloneListenerCall {
    pub call: SysCall,
}

impl CloneListenerCall {
    /// The second handle, by the call's return value.
    pub fn finish<P: Platform>(&self, ret: i32) -> (result: Result<VsockListener<P>, Error>)
        ensures
            match result {
                Ok(listener) => ret >= 0 && listener@ == ret,
                Err(error) => ret < 0 && error.comes_from::<P>(),
            },
    {
        match check::<P>(ret) {
            Ok(socket) => Ok(VsockListener::of_raw_fd(socket)),
            Err(error) => Err(error),
        }
    }
}

/// The request for a connection that waits to be accepted.
#[derive(Debug, PartialEq, Eq, Clone, Copy)]
pub struct AcceptCall {
    pub call: SysCall,
}

impl AcceptCall {
    /// The connection that was accepted and the address of its peer, which the call filled in, by
    /// the call's return value.
    pub fn finish<P: Platform>(&self, ret: i32, addr: SockAddrVm) -> (result: Result<
        (VsockStream<P>, SockAddr),
        Error,
    >)
        ensures
            match result {
                Ok((stream, peer)) => ret >= 0 && stream@ == ret && peer@ == addr,
                Err(error) => ret < 0 && error.comes_from::<P>(),
            },
    {
        match check::<P>(ret) {
            Ok(socket) => Ok((VsockStream::of_raw_fd(socket), SockAddr::wrap(addr))),
            Err(error) => Err(error),
        }
    }
}

/// The connections being received on a listener, without end.
#[derive(Debug)]
pub struct Incoming<'a, P: Platform = Std> {
    listener: &'a VsockListener<P>,
}

impl<'a, P: Platform> View for Incoming<'a, P> {
    type V = i32;

    closed spec fn view(&self) -> i32 {
        self.listener@
    }
}

impl<'a, P: Platform> Incoming<'a, P> {
    /// The request for the next connection.
    pub fn next(&self) -> (request: IncomingCall)
        ensures
            request.accept.call == (SysCall::Accept {
                socket: self@,
                addr: SockAddrVm::of(0, 0),
                cloexec: true,
            }),
    {
        IncomingCall { accept: self.listener.accept() }
    }
}

/// The request for the next of the connections being received.
#[derive(Debug, PartialEq, Eq, Clone, Copy)]
pub struct IncomingCall {
    pub accept: AcceptCall,
}

impl IncomingCall {
    /// The next connection, by the call's return value. There always is a next item.
    pub fn finish<P: Platform>(&self, ret: i32, addr: SockAddrVm) -> (item: Option<
        Result<VsockStream<P>, Error>,
    >)
        ensures
            match item {
                Some(Ok(stream)) => ret >= 0 && stream@ == ret,
                Some(Err(error)) => ret < 0 && error.comes_from::<P>(),
                None => false,
            },
    {
        match self.accept.finish::<P>(ret, addr) {
            Ok((stream, _)) => Some(Ok(stream)),
            Err(error) => Some(Err(error)),
        }
    }
}

} // verus!
