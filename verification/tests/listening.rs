use vsock::{
    new_socket_addr, AnyAddr, Error, Event, ListenerBind, Platform, PortPolicy, SockAddrVm,
    SysCall, VsockListener, AF_VSOCK, ERROR_LEN, MAX_PRIVILEGED_PORT,
};

struct InUse;

impl Platform for InUse {
    fn last_os_error() -> Error {
        Error::SystemError(98)
    }
}

type Listener = VsockListener<InUse>;

fn ok(value: i32) -> Event {
    Event::Returned(Ok(value))
}

fn failed(errno: i32) -> Event {
    Event::Returned(Err(Error::SystemError(errno)))
}

#[test]
fn given_port_is_opened_bound_and_listened_on() {
    let state = Listener::bind_with_cid_port(3, 5000, PortPolicy::Random);
    assert_eq!(
        state.call(),
        Some(SysCall::StreamSocket { family: AF_VSOCK, cloexec: true, protocol: 0 })
    );
    let state = state.reply::<InUse>(9);
    assert_eq!(
        state.call(),
        Some(SysCall::Bind { socket: 9, addr: new_socket_addr(3, 5000) })
    );
    let state = state.reply::<InUse>(0);
    assert_eq!(state.call(), Some(SysCall::Listen { socket: 9, backlog: 128 }));
    let state = state.reply::<InUse>(0);
    assert_eq!(state.call(), None);
    assert_eq!(state.finish::<InUse>().unwrap().unwrap().as_raw_fd(), 9);
}

#[test]
fn given_port_is_tried_once() {
    for failing in 0..3 {
        let mut state = Listener::bind_with_cid_port(3, 1, PortPolicy::Random);
        for _ in 0..failing {
            state = state.reply::<InUse>(5);
        }
        let state = state.reply::<InUse>(-1);
        assert_eq!(state, ListenerBind::Done(Err(Error::SystemError(98))));
        assert!(matches!(state.finish::<InUse>(), Some(Err(Error::SystemError(98)))));
    }
}

#[test]
fn port_zero_is_reserved_without_random_ports() {
    let state = Listener::bind_with_cid_port(3, 0, PortPolicy::Explicit);
    assert_eq!(state, ListenerBind::Done(Err(Error::ReservedPort)));
    let state = Listener::bind_with_cid_port(3, 7, PortPolicy::Explicit);
    assert_eq!(state, ListenerBind::Open { cid: 3, port: 7, retries: 0 });
}

#[test]
fn port_zero_becomes_a_random_port() {
    for state in [
        Listener::bind_with_cid_port(3, 0, PortPolicy::Random),
        Listener::bind_with_cid(3),
    ] {
        assert!(
            matches!(state, ListenerBind::Open { cid: 3, port, retries: 10 } if port > MAX_PRIVILEGED_PORT)
        );
    }
}

#[test]
fn random_port_is_tried_eleven_times() {
    let mut state = Listener::bind_with_cid(3);
    let mut binds = 0;
    loop {
        match state.call() {
            Some(SysCall::StreamSocket { .. }) => state = state.reply::<InUse>(8),
            Some(SysCall::Bind { socket, addr }) => {
                binds += 1;
                assert_eq!(socket, 8);
                assert_eq!(addr.svm_cid, 3);
                assert!(addr.svm_port > MAX_PRIVILEGED_PORT);
                state = state.reply::<InUse>(-1);
            }
            Some(other) => panic!("{:?}", other),
            None => break,
        }
    }
    assert_eq!(binds, 11);
    assert_eq!(state, ListenerBind::Done(Err(Error::SystemError(98))));
}

#[test]
fn retries_use_a_new_port_and_the_last_error_counts() {
    let mut state = ListenerBind::start(4, 0, PortPolicy::Random);
    assert_eq!(state, ListenerBind::Draw { cid: 4, retries: 10 });
    for attempt in 0..11 {
        assert_eq!(state, ListenerBind::Draw { cid: 4, retries: 10 - attempt });
        state = match attempt % 4 {
            0 => state.step(Event::Drawn(Err(Error::EntropyError))),
            1 => state.step(Event::Drawn(Ok(2000))).step(failed(24)),
            2 => state.step(Event::Drawn(Ok(2000))).step(ok(5)).step(failed(98)),
            _ => state.step(Event::Drawn(Ok(2000))).step(ok(5)).step(ok(0)).step(failed(95)),
        };
    }
    assert_eq!(state, ListenerBind::Done(Err(Error::SystemError(98))));
}

#[test]
fn first_success_ends_the_retries() {
    let state = ListenerBind::start(4, 0, PortPolicy::Random)
        .step(Event::Drawn(Ok(2000)))
        .step(failed(24))
        .step(Event::Drawn(Ok(3000)))
        .step(ok(6));
    assert_eq!(state, ListenerBind::Bind { cid: 4, port: 3000, retries: 9, socket: 6 });
    let state = state.step(ok(0)).step(ok(0));
    assert_eq!(state, ListenerBind::Done(Ok(6)));
    assert_eq!(state.step(failed(1)), ListenerBind::Done(Ok(6)));
}

#[test]
fn lack_of_entropy_uses_up_the_retries() {
    let mut state = ListenerBind::start(4, 0, PortPolicy::Random);
    for retries in (0..11).rev() {
        assert_eq!(state, ListenerBind::Draw { cid: 4, retries });
        assert_eq!(state.call(), None);
        state = state.step(Event::Drawn(Err(Error::EntropyError)));
    }
    assert_eq!(state, ListenerBind::Done(Err(Error::EntropyError)));
}

#[test]
fn settling_searches_once() {
    let state = ListenerBind::Draw { cid: 4, retries: 0 }.settle();
    assert!(
        matches!(state, ListenerBind::Open { cid: 4, port, retries: 0 } if port > MAX_PRIVILEGED_PORT)
    );
    let open = ListenerBind::start(4, 9, PortPolicy::Random).settle();
    assert_eq!(open, ListenerBind::Open { cid: 4, port: 9, retries: 0 });
}

#[test]
fn unexpected_events_change_nothing() {
    let draw = ListenerBind::start(4, 0, PortPolicy::Random);
    assert_eq!(draw.step(ok(1)), ListenerBind::Draw { cid: 4, retries: 10 });
    let open = ListenerBind::start(4, 9, PortPolicy::Random);
    assert_eq!(
        open.step(Event::Drawn(Ok(5000))),
        ListenerBind::Open { cid: 4, port: 9, retries: 0 }
    );
    assert!(ListenerBind::start(4, 9, PortPolicy::Random).finish::<InUse>().is_none());
}

#[test]
fn bind_needs_a_virtio_socket_address() {
    assert_eq!(
        Listener::bind(&AnyAddr::Other, PortPolicy::Random),
        ListenerBind::Done(Err(Error::WrongAddressType))
    );
    let addr = AnyAddr::Vsock(SockAddrVm {
        svm_family: AF_VSOCK,
        svm_reserved1: 0,
        svm_port: 12,
        svm_cid: 34,
        svm_zero: [0; 4],
    });
    assert_eq!(
        Listener::bind(&addr, PortPolicy::Random),
        ListenerBind::Open { cid: 34, port: 12, retries: 0 }
    );
}

#[test]
fn accepting() {
    let listener = Listener::of_raw_fd(5);
    let accept = listener.accept();
    assert_eq!(
        accept.call,
        SysCall::Accept { socket: 5, addr: new_socket_addr(0, 0), cloexec: true }
    );
    let (stream, peer) = accept.finish::<InUse>(11, new_socket_addr(2, 600)).unwrap();
    assert_eq!(stream.as_raw_fd(), 11);
    assert_eq!((peer.cid(), peer.port()), (2, 600));
    let refused = accept.finish::<InUse>(-1, new_socket_addr(0, 0));
    assert!(matches!(refused, Err(Error::SystemError(98))));
}

#[test]
fn incoming_never_ends() {
    let listener = Listener::of_raw_fd(5);
    let incoming = listener.incoming();
    for ret in [7, 8, -1, 9] {
        let request = incoming.next();
        assert_eq!(request.accept, listener.accept());
        match request.finish::<InUse>(ret, new_socket_addr(2, 600)) {
            Some(Ok(stream)) => assert_eq!(stream.as_raw_fd(), ret),
            Some(Err(error)) => {
                assert_eq!(ret, -1);
                assert_eq!(error, Error::SystemError(98));
            }
            None => panic!("ended"),
        }
    }
}

#[test]
fn requests_of_a_listener() {
    let listener = Listener::of_raw_fd(5);
    assert_eq!(
        listener.local_addr().call,
        SysCall::LocalName { socket: 5, addr: new_socket_addr(0, 0) }
    );
    assert_eq!(
        listener.take_error().call,
        SysCall::PendingError { socket: 5, code: 0, len: ERROR_LEN }
    );
    assert_eq!(
        listener.set_nonblocking(true).call,
        SysCall::SetNonblocking { socket: 5, value: 1 }
    );
    assert_eq!(
        listener.set_nonblocking(false).call,
        SysCall::SetNonblocking { socket: 5, value: 0 }
    );
    assert_eq!(listener.close(), SysCall::Close { socket: 5 });
    assert_eq!(listener.clone().as_raw_fd(), 5);
    assert_eq!(listener.into_raw_fd(), 5);
}

#[test]
fn cloned_listener_has_a_descriptor_of_its_own() {
    let listener = Listener::of_raw_fd(5);
    let request = listener.try_clone();
    assert_eq!(request.call, SysCall::Duplicate { socket: 5, cloexec: true });
    let copy = request.finish::<InUse>(12).unwrap();
    assert_eq!(copy.as_raw_fd(), 12);
    assert_eq!(copy.close(), SysCall::Close { socket: 12 });
    assert_eq!(listener.close(), SysCall::Close { socket: 5 });
    assert!(matches!(request.finish::<InUse>(-1), Err(Error::SystemError(98))));
}
