//! Virtio sockets: addresses, ports, and the decisions behind listening, connecting and moving
//! bytes.
//!
//! The library makes no system call on a socket itself. An operation that needs one call is a
//! request that holds it ([`SysCall`]) and says what its return value comes to. An operation that
//! needs several is a state that says which call it waits for, and goes on to the next state when
//! it is told what that call returned.

mod addr;
mod error;
mod event;
pub mod laws;
mod listener;
mod platform;
mod port;
mod socket;
mod stream;
mod sys;
mod time;

pub use addr::{
    new_socket_addr, AnyAddr, SockAddr, SockAddrVm, AF_VSOCK, VMADDR_CID_ANY, VMADDR_CID_HOST,
    VMADDR_CID_HYPERVISOR, VMADDR_CID_LOCAL,
};
pub use error::{Error, ErrorClass};
pub use event::{Event, Stepwise};
pub use listener::{
    AcceptCall, CloneListenerCall, Incoming, IncomingCall, ListenerBind, VsockListener, BACKLOG,
};
pub use platform::{check, check_count, Platform, Std};
pub use getrandom::Error as GetRandomError;
pub use port::{port_of_draw, PortDraw, PortPolicy, BIND_RETRIES, MAX_PRIVILEGED_PORT};
pub use socket::{SocketBind, Vsock};
pub use stream::{CloneStreamCall, Connect, Transfer, VsockStream};
pub use sys::{
    AddrCall, CountCall, Direction, ErrorCall, Shutdown, StatusCall, SysCall, ERROR_LEN, SHUT_RD,
    SHUT_RDWR, SHUT_WR,
};
pub use time::{timeval_from_duration, Interval, TimeVal};
