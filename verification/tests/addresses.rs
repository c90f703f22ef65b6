use std::convert::TryFrom;

use vsock::{
    new_socket_addr, AnyAddr, SockAddr, SockAddrVm, Std, SysCall, AF_VSOCK, VMADDR_CID_ANY,
    VMADDR_CID_HOST, VMADDR_CID_HYPERVISOR, VMADDR_CID_LOCAL,
};

fn fields(family: u16, port: u32, cid: u32) -> SockAddrVm {
    SockAddrVm {
        svm_family: family,
        svm_reserved1: 7,
        svm_port: port,
        svm_cid: cid,
        svm_zero: [1, 2, 3, 4],
    }
}

#[test]
fn constants_are_those_of_the_kernel() {
    assert_eq!(i32::from(AF_VSOCK), libc::AF_VSOCK);
    assert_eq!(VMADDR_CID_ANY, libc::VMADDR_CID_ANY);
    assert_eq!(VMADDR_CID_HYPERVISOR, libc::VMADDR_CID_HYPERVISOR);
    assert_eq!(VMADDR_CID_LOCAL, libc::VMADDR_CID_LOCAL);
    assert_eq!(VMADDR_CID_HOST, libc::VMADDR_CID_HOST);
}

#[test]
fn new_address_has_its_parts() {
    let addr = SockAddr::new(3, 5000);
    assert_eq!(addr.cid(), 3);
    assert_eq!(addr.port(), 5000);
    assert_eq!(
        addr.fields(),
        SockAddrVm {
            svm_family: AF_VSOCK,
            svm_reserved1: 0,
            svm_port: 5000,
            svm_cid: 3,
            svm_zero: [0, 0, 0, 0],
        }
    );
    assert_eq!(addr.fields(), new_socket_addr(3, 5000));
    assert_ne!(addr, SockAddr::new(3, 5001));
    assert_ne!(addr, SockAddr::new(4, 5000));
    assert_eq!(addr, addr.clone());
}

#[test]
fn only_the_family_decides_what_is_accepted() {
    let ours = fields(AF_VSOCK, 1, 2);
    assert_eq!(SockAddr::try_from(ours).map(|a| a.fields()), Ok(ours));
    assert_eq!(SockAddr::try_from(fields(2, 1, 2)), Err(()));
    assert_eq!(SockAddr::try_from(fields(0, 1, 2)), Err(()));
}

#[test]
fn address_of_any_family_round_trip() {
    let addr = SockAddr::try_from(fields(AF_VSOCK, 9, 8)).unwrap();
    assert_eq!(SockAddr::try_from(AnyAddr::from(addr.clone())), Ok(addr));
    assert_eq!(SockAddr::try_from(AnyAddr::Other), Err(()));
}

#[test]
fn address_queries() {
    let local = SockAddr::of_raw_fd(6);
    assert_eq!(local.call, SysCall::LocalName { socket: 6, addr: new_socket_addr(0, 0) });
    let peer = SockAddr::peer_from_raw_fd(6);
    assert_eq!(peer.call, SysCall::PeerName { socket: 6, addr: new_socket_addr(0, 0) });
    let answer = fields(AF_VSOCK, 77, 88);
    let addr = local.finish::<Std>(0, answer).unwrap();
    assert_eq!(addr.fields(), answer);
    assert_eq!(peer.finish::<Std>(0, answer).unwrap(), addr);
}
