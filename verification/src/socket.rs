//! Sockets that are bound but not connected.

use vstd::prelude::*;

use getrandom::Error as GetRandomError;

use crate::addr::{new_socket_addr, SockAddrVm, AF_VSOCK, VMADDR_CID_ANY};
use crate::error::Error;
use crate::event::{Event, Stepwise};
use crate::platform::{check, Platform};
use crate::port::{port_of_draw, random_bytes, PortDraw, PortPolicy};
use crate::stream::{Connect, VsockStream};
use crate::sys::{AddrCall, SysCall};

verus! {

/// The binding of a socket to a local address, up to the next step.
#[derive(Debug, PartialEq, Eq)]
pub enum SocketBind {
    /// A socket is to be opened.
    Open { cid: u32, port: u32, ports: PortPolicy },
    /// A random port is to be drawn.
    Draw { cid: u32, retries: u32, socket: i32 },
    /// The socket is to be bound to the port, which was drawn or asked for.
    Bind { cid: u32, port: u32, drawn: bool, retries: u32, socket: i32 },
    /// The bound socket, or why there is none.
    Done(Result<i32, Error>),
}

impl Stepwise for SocketBind {
    open spec fn next(self, event: Event) -> SocketBind {
        match (self, event) {
            (SocketBind::Open { cid, port, ports }, Event::Returned(Ok(socket))) => {
                SocketBind::first(socket, cid, port, ports)
            },
            (SocketBind::Open { cid, port, ports }, Event::Returned(Err(error))) => {
                SocketBind::Done(Err(error))
            },
            (SocketBind::Draw { cid, retries, socket }, Event::Drawn(Ok(port))) => {
                SocketBind::Bind { cid, port, drawn: true, retries, socket }
            },
            (SocketBind::Draw { cid, retries, socket }, Event::Drawn(Err(error))) => {
                if retries == 0 {
                    SocketBind::Done(Err(error))
                } else {
                    SocketBind::Draw { cid, retries: (retries - 1) as u32, socket }
                }
            },
            (SocketBind::Bind { socket, .. }, Event::Returned(Ok(_))) => {
                SocketBind::Done(Ok(socket))
            },
            (
                SocketBind::Bind { cid, port, drawn, retries, socket },
                Event::Returned(Err(error)),
            ) => {
                if retries == 0 {
                    SocketBind::Done(Err(error))
                } else if drawn {
                    SocketBind::Draw { cid, retries: (retries - 1) as u32, socket }
                } else {
                    SocketBind::Bind { cid, port, drawn, retries: (retries - 1) as u32, socket }
                }
            },
            _ => self,
        }
    }
}

impl SocketBind {
    /// What the making of a socket bound to any context identifier and a random port starts with.
    pub open spec fn opening(ports: PortPolicy) -> SocketBind {
        SocketBind::Open { cid: VMADDR_CID_ANY, port: 0, ports }
    }

    /// What the binding of an open socket starts with.
    pub open spec fn first(socket: i32, cid: u32, port: u32, ports: PortPolicy) -> SocketBind {
        if port != 0 {
            SocketBind::Bind { cid, port, drawn: false, retries: ports.retries(), socket }
        } else {
            match ports {
                PortPolicy::Random => SocketBind::Draw { cid, retries: ports.retries(), socket },
                PortPolicy::Explicit => SocketBind::Done(Err(Error::ReservedPort)),
            }
        }
    }

    /// The system call that is waited for, if any.
    pub open spec fn waits_for(self) -> Option<SysCall> {
        match self {
            SocketBind::Open { .. } => Some(
                SysCall::StreamSocket { family: AF_VSOCK, cloexec: true, protocol: 0 },
            ),
            SocketBind::Bind { cid, port, drawn, retries, socket } => Some(
                SysCall::Bind { socket, addr: SockAddrVm::of(cid, port) },
            ),
            _ => None,
        }
    }

    /// What comes after a search for a random port. A search that was interrupted changes nothing.
    pub open spec fn after_search(self, drawn: Option<Result<u32, Error>>) -> SocketBind {
        match drawn {
            Some(drawn) => self.next(Event::Drawn(drawn)),
            None => self,
        }
    }

    /// `settled` is what remains once a port that has to be drawn has been searched for, once.
    pub open spec fn settles_to(self, settled: SocketBind) -> bool {
        match self {
            SocketBind::Draw { .. } => exists|drawn: Option<Result<u32, Error>>| #[trigger]
                Vsock::may_draw(drawn) && settled == self.after_search(drawn),
            _ => settled == self,
        }
    }

    /// What the binding of an open socket starts with.
    pub fn start(socket: i32, cid: u32, port: u32, ports: PortPolicy) -> (begun: SocketBind)
        ensures
            begun == SocketBind::first(socket, cid, port, ports),
    {
        if port == 0 {
            match ports {
                PortPolicy::Random => SocketBind::Draw { cid, retries: ports.retries(), socket },
                PortPolicy::Explicit => SocketBind::Done(Err(Error::ReservedPort)),
            }
        } else {
            SocketBind::Bind { cid, port, drawn: false, retries: ports.retries(), socket }
        }
    }

    /// Takes the event into account.
    pub fn step(self, event: Event) -> (next: SocketBind)
        ensures
            next == self.next(event),
    {
        match self {
            SocketBind::Open { cid, port, ports } => match event {
                Event::Returned(Ok(socket)) => SocketBind::start(socket, cid, port, ports),
                Event::Returned(Err(error)) => SocketBind::Done(Err(error)),
                Event::Drawn(_) => SocketBind::Open { cid, port, ports },
            },
            SocketBind::Draw { cid, retries, socket } => match event {
                Event::Drawn(Ok(port)) => {
                    SocketBind::Bind { cid, port, drawn: true, retries, socket }
                },
                Event::Drawn(Err(error)) => if retries == 0 {
                    SocketBind::Done(Err(error))
                } else {
                    SocketBind::Draw { cid, retries: retries - 1, socket }
                },
                Event::Returned(_) => SocketBind::Draw { cid, retries, socket },
            },
            SocketBind::Bind { cid, port, drawn, retries, socket } => match event {
                Event::Returned(Ok(_)) => SocketBind::Done(Ok(socket)),
                Event::Returned(Err(error)) => if retries == 0 {
                    SocketBind::Done(Err(error))
                } else if drawn {
                    SocketBind::Draw { cid, retries: retries - 1, socket }
                } else {
                    SocketBind::Bind { cid, port, drawn, retries: retries - 1, socket }
                },
                Event::Drawn(_) => SocketBind::Bind { cid, port, drawn, retries, socket },
            },
            SocketBind::Done(result) => SocketBind::Done(result),
        }
    }

    /// Searches once for the port that has to be drawn before a system call can be made. Where the
    /// search failed with retries left, or was interrupted, settling again goes on.
    pub fn settle(self) -> (settled: SocketBind)
        ensures
            self.settles_to(settled),
    {
        match self {
            SocketBind::Draw { cid, retries, socket } => {
                let state = SocketBind::Draw { cid, retries, socket };
                let drawn = Vsock::gen_rand_port();
                assert(Vsock::may_draw(drawn));
                match drawn {
                    Some(drawn) => state.step(Event::Drawn(drawn)),
                    None => state,
                }
            },
            other => other,
        }
    }

    /// The system call that is waited for, if any.
    pub fn call(&self) -> (call: Option<SysCall>)
        ensures
            call == self.waits_for(),
    {
        match self {
            SocketBind::Open { cid: _, port: _, ports: _ } => Some(
                SysCall::StreamSocket { family: AF_VSOCK, cloexec: true, protocol: 0 },
            ),
            SocketBind::Bind { cid, port, drawn: _, retries: _, socket } => Some(
                SysCall::Bind { socket: *socket, addr: new_socket_addr(*cid, *port) },
            ),
            _ => None,
        }
    }

    /// Takes the return value of the system call that was waited for into account, and searches once
    /// for the port that has to be drawn before the next one, if any.
    pub fn reply<P: Platform>(self, ret: i32) -> (next: SocketBind)
        ensures
            ret >= 0 ==> self.next(Event::Returned(Ok(ret))).settles_to(next),
            ret < 0 ==> exists|error: Error|
                error.comes_from::<P>() && (#[trigger] self.next(
                    Event::Returned(Err(error)),
                )).settles_to(next),
    {
        self.step(Event::Returned(check::<P>(ret))).settle()
    }

    /// The socket that was bound, or why there is none, once all is done.
    pub fn finish(self) -> (result: Option<Result<Vsock, Error>>)
        ensures
            match self {
                SocketBind::Done(Ok(socket)) => result matches Some(Ok(vsock)) && vsock@ == socket,
                SocketBind::Done(Err(error)) => result matches Some(Err(e)) && e == error,
                _ => result is None,
            },
    {
        match self {
            SocketBind::Done(Ok(socket)) => Some(Ok(Vsock { socket })),
            SocketBind::Done(Err(error)) => Some(Err(error)),
            _ => None,
        }
    }
}

/// A virtio socket that is bound but not connected.
#[derive(Debug)]
pub struct Vsock {
    socket: i32,
}

impl View for Vsock {
    type V = i32;

    closed spec fn view(&self) -> i32 {
        self.socket
    }
}

impl Vsock {
    /// Each of these draws is one that the random source may give.
    pub closed spec fn source_gives(draws: Seq<Result<[u8; 4], GetRandomError>>) -> bool {
        forall|i: int| 0 <= i < draws.len() ==> call_ensures(random_bytes, (), #[trigger] draws[i])
    }

    /// What the random source gives comes from calls of it, one for each draw.
    pub(crate) proof fn law_source_is_called(draws: Seq<Result<[u8; 4], GetRandomError>>)
        requires
            Vsock::source_gives(draws),
        ensures
            forall|i: int|
                0 <= i < draws.len() ==> call_ensures(random_bytes, (), #[trigger] draws[i]),
    {
    }

    /// This is what a search for a random port may come to.
    pub open spec fn may_draw(drawn: Option<Result<u32, Error>>) -> bool {
        call_ensures(Vsock::gen_rand_port, (), drawn)
    }

    /// Searches for a random port that no privilege is needed for: draws random bytes until they
    /// spell one, or until there are none. The search is interrupted, with nothing decided, only
    /// where 2^64 - 1 draws in a row have spelled privileged ports; it is then to be taken up
    /// again.
    pub fn gen_rand_port() -> (drawn: Option<Result<u32, Error>>)
        ensures
            exists|draws: Seq<Result<[u8; 4], GetRandomError>>|
                {
                    &&& #[trigger] Vsock::source_gives(draws)
                    &&& drawn == crate::port::search_result(draws)
                    &&& match drawn {
                        Some(_) => draws.len() > 0 && crate::port::search_result(
                            draws.drop_last(),
                        ) is None,
                        None => draws.len() == u64::MAX,
                    }
                },
            drawn matches Some(decided) ==> crate::port::drawable(decided),
    {
        let mut left: u64 = u64::MAX;
        let ghost mut draws: Seq<Result<[u8; 4], GetRandomError>> = Seq::empty();
        while left > 0
            invariant
                draws.len() + left == u64::MAX,
                Vsock::source_gives(draws),
                crate::port::search_result(draws) is None,
            decreases left,
        {
            let draw = random_bytes();
            let ghost before = draws;
            proof {
                draws = draws.push(draw);
                assert(Vsock::source_gives(draws));
                assert(draws.drop_last() =~= before);
                crate::port::lemma_search_one_more(before, draw);
            }
            match port_of_draw(draw) {
                PortDraw::Port(port) => return Some(Ok(port)),
                PortDraw::Failed(error) => return Some(Err(error)),
                PortDraw::Again => {},
            }
            left = left - 1;
        }
        None
    }

    /// Begins to make a socket that is bound to any context identifier and a random port.
    pub fn new(ports: PortPolicy) -> (begun: SocketBind)
        ensures
            begun == SocketBind::opening(ports),
    {
        SocketBind::Open { cid: VMADDR_CID_ANY, port: 0, ports }
    }

    /// Begins to bind the socket to a context identifier and a port.
    pub fn bind(self, cid: u32, port: u32, ports: PortPolicy) -> (begun: SocketBind)
        ensures
            SocketBind::first(self@, cid, port, ports).settles_to(begun),
    {
        SocketBind::start(self.socket, cid, port, ports).settle()
    }

    /// The descriptor of the socket.
    pub fn as_raw_fd(&self) -> (fd: i32)
        ensures
            fd == self@,
    {
        self.socket
    }

    /// The question for the local address of the socket.
    pub fn addr(&self) -> (query: AddrCall)
        ensures
            query.call == (SysCall::LocalName { socket: self@, addr: SockAddrVm::of(0, 0) }),
    {
        AddrCall::local(self.socket)
    }

    /// Begins to connect the socket to a remote host with the given context identifier and port.
    pub fn connect_with_cid_port<P: Platform>(self, cid: u32, port: u32) -> (begun: Connect)
        ensures
            begun == (Connect::Remote { socket: self@, remote: SockAddrVm::of(cid, port) }),
    {
        self.connect_with_socket_addr::<P>(&new_socket_addr(cid, port))
    }

    /// Begins to connect the socket to a remote host.
    pub fn connect_with_socket_addr<P: Platform>(self, vsock_addr: &SockAddrVm) -> (begun: Connect)
        ensures
            begun == (Connect::Remote { socket: self@, remote: *vsock_addr }),
    {
        VsockStream::<P>::connect_vsock_to_socket_addr(self, vsock_addr)
    }
}

} // verus!
