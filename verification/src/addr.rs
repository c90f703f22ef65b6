//! Virtio socket addresses.

use vstd::prelude::*;

verus! {

/// The address family of virtio sockets.
pub const AF_VSOCK: u16 = 40;

/// The context identifier that stands for any.
pub const VMADDR_CID_ANY: u32 = 0xFFFF_FFFF;

/// The context identifier of the hypervisor.
pub const VMADDR_CID_HYPERVISOR: u32 = 0;

/// The context identifier of the local machine.
pub const VMADDR_CID_LOCAL: u32 = 1;

/// The context identifier of the host.
pub const VMADDR_CID_HOST: u32 = 2;

/// A virtio socket address as the kernel lays it out, field by field.
#[derive(Debug, PartialEq, Eq, Hash, Clone, Copy)]
pub struct SockAddrVm {
    pub svm_family: u16,
    pub svm_reserved1: u16,
    pub svm_port: u32,
    pub svm_cid: u32,
    pub svm_zero: [u8; 4],
}

impl SockAddrVm {
    /// The virtio socket address of a context identifier and a port, with every other field zero.
    pub open spec fn of(cid: u32, port: u32) -> SockAddrVm {
        SockAddrVm {
            svm_family: AF_VSOCK,
            svm_reserved1: 0,
            svm_port: port,
            svm_cid: cid,
            svm_zero: [0u8, 0u8, 0u8, 0u8],
        }
    }
}

/// The kernel's form of the address made of `cid` and `port`.
pub fn new_socket_addr(cid: u32, port: u32) -> (addr: SockAddrVm)
    ensures
        addr == SockAddrVm::of(cid, port),
{
    SockAddrVm {
        svm_family: AF_VSOCK,
        svm_reserved1: 0,
        svm_port: port,
        svm_cid: cid,
        svm_zero: [0u8, 0u8, 0u8, 0u8],
    }
}

/// A socket address of any family, of which only a virtio socket address is looked into.
#[derive(Debug, PartialEq, Eq, Clone, Copy)]
pub enum AnyAddr {
    Vsock(SockAddrVm),
    Other,
}

/// A virtio socket address.
#[derive(Debug, PartialEq, Eq, Hash, Clone, Copy)]
pub struct SockAddr(SockAddrVm);

impl View for SockAddr {
    type V = SockAddrVm;

    closed spec fn view(&self) -> SockAddrVm {
        self.0
    }
}

impl SockAddr {
    /// The address whose fields are those of `addr`.
    pub closed spec fn of(addr: SockAddrVm) -> SockAddr {
        SockAddr(addr)
    }

    /// An address is no more than its fields.
    pub proof fn lemma_fields(addr: SockAddr, fields: SockAddrVm)
        ensures
            addr == SockAddr::of(fields) <==> addr@ == fields,
    {
    }

    /// An address whose fields are those of `addr`, whatever family it names.
    pub(crate) fn wrap(addr: SockAddrVm) -> (wrapped: SockAddr)
        ensures
            wrapped == SockAddr::of(addr),
            wrapped@ == addr,
    {
        SockAddr(addr)
    }

    /// The address of a context identifier and a port.
    pub fn new(cid: u32, port: u32) -> (addr: SockAddr)
        ensures
            addr@ == SockAddrVm::of(cid, port),
    {
        SockAddr(new_socket_addr(cid, port))
    }

    /// The port of this address.
    pub fn port(&self) -> (port: u32)
        ensures
            port == self@.svm_port,
    {
        self.0.svm_port
    }

    /// The context identifier of this address.
    pub fn cid(&self) -> (cid: u32)
        ensures
            cid == self@.svm_cid,
    {
        self.0.svm_cid
    }

    /// The fields of this address.
    pub fn fields(&self) -> (fields: SockAddrVm)
        ensures
            fields == self@,
    {
        self.0
    }
}

impl TryFrom<SockAddrVm> for SockAddr {
    type Error = ();

    fn try_from(addr: SockAddrVm) -> (converted: Result<SockAddr, ()>) {
        if addr.svm_family == AF_VSOCK {
            Ok(SockAddr(addr))
        } else {
            Err(())
        }
    }
}

impl vstd::std_specs::convert::TryFromSpecImpl<SockAddrVm> for SockAddr {
    open spec fn obeys_try_from_spec() -> bool {
        true
    }

    open spec fn try_from_spec(addr: SockAddrVm) -> Result<SockAddr, ()> {
        if addr.svm_family == AF_VSOCK {
            Ok(SockAddr::of(addr))
        } else {
            Err(())
        }
    }
}

impl TryFrom<AnyAddr> for SockAddr {
    type Error = ();

    fn try_from(addr: AnyAddr) -> (converted: Result<SockAddr, ()>) {
        match addr {
            AnyAddr::Vsock(addr) => Ok(SockAddr(addr)),
            AnyAddr::Other => Err(()),
        }
    }
}

impl vstd::std_specs::convert::TryFromSpecImpl<AnyAddr> for SockAddr {
    open spec fn obeys_try_from_spec() -> bool {
        true
    }

    open spec fn try_from_spec(addr: AnyAddr) -> Result<SockAddr, ()> {
        match addr {
            AnyAddr::Vsock(addr) => Ok(SockAddr::of(addr)),
            AnyAddr::Other => Err(()),
        }
    }
}

impl From<SockAddr> for AnyAddr {
    fn from(addr: SockAddr) -> (converted: AnyAddr) {
        AnyAddr::Vsock(addr.0)
    }
}

impl vstd::std_specs::convert::FromSpecImpl<SockAddr> for AnyAddr {
    open spec fn obeys_from_spec() -> bool {
        true
    }

    open spec fn from_spec(addr: SockAddr) -> AnyAddr {
        AnyAddr::Vsock(addr@)
    }
}

} // verus!
