use vsock::{
    new_socket_addr, Connect, Error, Event, Platform, PortPolicy, SockAddr, SocketBind, SysCall,
    Vsock, VsockStream, AF_VSOCK, MAX_PRIVILEGED_PORT, VMADDR_CID_ANY,
};

struct Refused;

impl Platform for Refused {
    fn last_os_error() -> Error {
        Error::SystemError(111)
    }
}

type Stream = VsockStream<Refused>;

fn ok(value: i32) -> Event {
    Event::Returned(Ok(value))
}

fn failed(errno: i32) -> Event {
    Event::Returned(Err(Error::SystemError(errno)))
}

#[test]
fn connection_is_opened_bound_and_connected() {
    let state = Stream::connect_with_cid_port(2, 8000, PortPolicy::Random);
    assert_eq!(
        state.call(),
        Some(SysCall::StreamSocket { family: AF_VSOCK, cloexec: true, protocol: 0 })
    );
    let state = state.reply::<Refused>(4);
    match state.call() {
        Some(SysCall::Bind { socket: 4, addr }) => {
            assert_eq!(addr.svm_cid, VMADDR_CID_ANY);
            assert!(addr.svm_port > MAX_PRIVILEGED_PORT);
        }
        other => panic!("{:?}", other),
    }
    let state = state.reply::<Refused>(0);
    assert_eq!(
        state.call(),
        Some(SysCall::Connect { socket: 4, addr: new_socket_addr(2, 8000) })
    );
    let state = state.reply::<Refused>(0);
    assert_eq!(state.call(), None);
    assert_eq!(state.finish::<Refused>().unwrap().unwrap().as_raw_fd(), 4);
}

#[test]
fn each_part_of_connecting_can_fail() {
    let state = Stream::connect_with_cid_port(2, 8000, PortPolicy::Random);
    assert_eq!(state.reply::<Refused>(-1), Connect::Done(Err(Error::SystemError(111))));

    let state = Stream::connect_with_cid_port(2, 8000, PortPolicy::Random).reply::<Refused>(4);
    let state = state.reply::<Refused>(0).reply::<Refused>(-1);
    assert_eq!(state, Connect::Done(Err(Error::SystemError(111))));

    let mut state = Stream::connect_with_cid_port(2, 8000, PortPolicy::Random).reply::<Refused>(4);
    let mut binds = 0;
    while let Some(call) = state.call() {
        assert!(matches!(call, SysCall::Bind { socket: 4, .. }));
        binds += 1;
        state = state.reply::<Refused>(-1);
    }
    assert_eq!(binds, 11);
    assert_eq!(state, Connect::Done(Err(Error::SystemError(111))));
    assert!(matches!(state.finish::<Refused>(), Some(Err(Error::SystemError(111)))));
}

#[test]
fn ways_to_name_the_remote_host() {
    let begun = Stream::connect_with_cid_port(2, 8000, PortPolicy::Random);
    let addr = SockAddr::new(2, 8000);
    assert_eq!(Stream::connect(&addr, PortPolicy::Random), begun);
    assert_eq!(Stream::connect_with_vsock_addr(&addr.fields(), PortPolicy::Random), begun);
    assert_eq!(Stream::connect_with_socket_addr(&addr.fields(), PortPolicy::Random), begun);
    assert!(begun.finish::<Refused>().is_none());
}

#[test]
fn connecting_needs_random_ports() {
    let state = Stream::connect_with_cid_port(2, 8000, PortPolicy::Explicit).reply::<Refused>(4);
    assert_eq!(state, Connect::Done(Err(Error::ReservedPort)));
}

#[test]
fn socket_is_bound_to_a_random_port() {
    let state = Vsock::new(PortPolicy::Random).reply::<Refused>(3);
    assert!(matches!(
        state,
        SocketBind::Bind { cid: VMADDR_CID_ANY, drawn: true, retries: 10, socket: 3, .. }
    ));
    let vsock = state.reply::<Refused>(0).finish().unwrap().unwrap();
    assert_eq!(vsock.as_raw_fd(), 3);
    assert_eq!(
        vsock.addr().call,
        SysCall::LocalName { socket: 3, addr: new_socket_addr(0, 0) }
    );
    let state = vsock.connect_with_cid_port::<Refused>(2, 70);
    assert_eq!(state, Connect::Remote { socket: 3, remote: new_socket_addr(2, 70) });
}

#[test]
fn bound_socket_connects_to_an_address() {
    let vsock = SocketBind::Done(Ok(3)).finish().unwrap().unwrap();
    let remote = SockAddr::new(2, 70).fields();
    let state = vsock.connect_with_socket_addr::<Refused>(&remote);
    assert_eq!(state.call(), Some(SysCall::Connect { socket: 3, addr: remote }));
    assert_eq!(state.reply::<Refused>(0), Connect::Done(Ok(3)));
}

#[test]
fn given_port_is_bound_again_and_again() {
    let vsock = SocketBind::Done(Ok(3)).finish().unwrap().unwrap();
    let mut state = vsock.bind(5, 900, PortPolicy::Random);
    for retries in (0..11).rev() {
        assert_eq!(
            state,
            SocketBind::Bind { cid: 5, port: 900, drawn: false, retries, socket: 3 }
        );
        assert_eq!(
            state.call(),
            Some(SysCall::Bind { socket: 3, addr: new_socket_addr(5, 900) })
        );
        state = state.step(failed(retries as i32));
    }
    assert_eq!(state, SocketBind::Done(Err(Error::SystemError(0))));
}

#[test]
fn given_port_is_bound_once_without_random_ports() {
    let state = SocketBind::start(3, 5, 900, PortPolicy::Explicit);
    assert_eq!(state.step(failed(98)), SocketBind::Done(Err(Error::SystemError(98))));
    let state = SocketBind::start(3, 5, 900, PortPolicy::Explicit);
    assert_eq!(state.step(ok(0)), SocketBind::Done(Ok(3)));
    let state = SocketBind::start(3, 5, 0, PortPolicy::Explicit);
    assert_eq!(state, SocketBind::Done(Err(Error::ReservedPort)));
}

#[test]
fn random_port_is_drawn_anew_for_each_bind() {
    let state = SocketBind::start(3, 5, 0, PortPolicy::Random)
        .step(Event::Drawn(Ok(2000)))
        .step(failed(98));
    assert_eq!(state, SocketBind::Draw { cid: 5, retries: 9, socket: 3 });
    let state = state.step(Event::Drawn(Err(Error::EntropyError)));
    assert_eq!(state, SocketBind::Draw { cid: 5, retries: 8, socket: 3 });
    let state = state.step(Event::Drawn(Ok(3000)));
    assert_eq!(state.call(), Some(SysCall::Bind { socket: 3, addr: new_socket_addr(5, 3000) }));
    assert_eq!(state.step(ok(0)), SocketBind::Done(Ok(3)));
}

#[test]
fn settling_draws_a_port_and_keeps_the_retries() {
    let state = SocketBind::start(3, 5, 0, PortPolicy::Random).settle();
    assert!(matches!(
        state,
        SocketBind::Bind { cid: 5, port, drawn: true, retries: 10, socket: 3 }
            if port > MAX_PRIVILEGED_PORT
    ));
    let given = SocketBind::start(3, 5, 900, PortPolicy::Random);
    assert_eq!(given.settle(), SocketBind::start(3, 5, 900, PortPolicy::Random));
}

#[test]
fn lack_of_entropy_ends_the_binding() {
    let mut state = SocketBind::start(3, 5, 0, PortPolicy::Random);
    for _ in 0..11 {
        state = state.step(Event::Drawn(Err(Error::EntropyError)));
    }
    assert_eq!(state, SocketBind::Done(Err(Error::EntropyError)));
    assert!(matches!(state.finish(), Some(Err(Error::EntropyError))));
}

#[test]
fn ten_failed_searches_leave_one_more() {
    let mut state = SocketBind::start(3, 5, 0, PortPolicy::Random);
    for retries in (0..10).rev() {
        state = state.step(Event::Drawn(Err(Error::EntropyError)));
        assert_eq!(state, SocketBind::Draw { cid: 5, retries, socket: 3 });
        assert_eq!(state.call(), None);
    }
    let state = state.step(Event::Drawn(Ok(4000)));
    assert_eq!(
        state,
        SocketBind::Bind { cid: 5, port: 4000, drawn: true, retries: 0, socket: 3 }
    );
    assert_eq!(state.step(failed(98)), SocketBind::Done(Err(Error::SystemError(98))));
}

#[test]
fn settling_the_last_search_leaves_no_retry() {
    let state = SocketBind::Draw { cid: 5, retries: 0, socket: 3 }.settle();
    assert!(matches!(state, SocketBind::Bind { retries: 0, drawn: true, .. }));
    assert_eq!(state.reply::<Refused>(-1), SocketBind::Done(Err(Error::SystemError(111))));
}

#[test]
fn new_socket_can_fail() {
    let state = Vsock::new(PortPolicy::Random);
    assert_eq!(state.reply::<Refused>(-1), SocketBind::Done(Err(Error::SystemError(111))));
    let state = Vsock::new(PortPolicy::Explicit);
    assert_eq!(state.reply::<Refused>(-1), SocketBind::Done(Err(Error::SystemError(111))));
    let state = Vsock::new(PortPolicy::Explicit);
    assert_eq!(state.reply::<Refused>(3), SocketBind::Done(Err(Error::ReservedPort)));

    let mut state = Vsock::new(PortPolicy::Random).reply::<Refused>(3);
    let mut binds = 0;
    while let Some(call) = state.call() {
        assert!(matches!(call, SysCall::Bind { socket: 3, .. }));
        binds += 1;
        state = state.reply::<Refused>(-1);
    }
    assert_eq!(binds, 11);
    assert_eq!(state, SocketBind::Done(Err(Error::SystemError(111))));
}

#[test]
fn failed_search_costs_a_connection_one_attempt() {
    let state = Stream::connect_with_cid_port(2, 8000, PortPolicy::Random)
        .step(ok(4))
        .step(Event::Drawn(Err(Error::EntropyError)));
    let remote = new_socket_addr(2, 8000);
    assert_eq!(
        state,
        Connect::Local {
            local: SocketBind::Draw { cid: VMADDR_CID_ANY, retries: 9, socket: 4 },
            remote,
        }
    );
    let state = state.step(Event::Drawn(Ok(4000))).step(ok(0)).step(ok(0));
    assert_eq!(state, Connect::Done(Ok(4)));
}
