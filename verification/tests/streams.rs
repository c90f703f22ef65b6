use vsock::{
    new_socket_addr, Direction, Error, Platform, Shutdown, SysCall, Transfer, VsockStream,
    ERROR_LEN, SHUT_RD, SHUT_RDWR, SHUT_WR,
};

struct Reset;

impl Platform for Reset {
    fn last_os_error() -> Error {
        Error::SystemError(104)
    }
}

type Stream = VsockStream<Reset>;

#[test]
fn shutdown_codes_are_those_of_the_kernel() {
    assert_eq!(SHUT_RD, libc::SHUT_RD);
    assert_eq!(SHUT_WR, libc::SHUT_WR);
    assert_eq!(SHUT_RDWR, libc::SHUT_RDWR);
    let stream = Stream::of_raw_fd(4);
    for (part, how) in [
        (Shutdown::Read, libc::SHUT_RD),
        (Shutdown::Write, libc::SHUT_WR),
        (Shutdown::Both, libc::SHUT_RDWR),
    ] {
        let request = stream.shutdown(part);
        assert_eq!(request.call, SysCall::Shutdown { socket: 4, how });
        assert_eq!(request.finish::<Reset>(0), Ok(()));
        assert_eq!(request.finish::<Reset>(-1), Err(Error::SystemError(104)));
    }
}

#[test]
fn requests_of_a_stream() {
    let stream = Stream::of_raw_fd(4);
    let blank = new_socket_addr(0, 0);
    assert_eq!(stream.peer_addr().call, SysCall::PeerName { socket: 4, addr: blank });
    assert_eq!(stream.local_addr().call, SysCall::LocalName { socket: 4, addr: blank });
    assert_eq!(
        stream.set_nonblocking(true).call,
        SysCall::SetNonblocking { socket: 4, value: 1 }
    );
    assert_eq!(
        stream.set_nonblocking(false).call,
        SysCall::SetNonblocking { socket: 4, value: 0 }
    );
    assert_eq!(stream.close(), SysCall::Close { socket: 4 });
    assert_eq!(stream.clone().as_raw_fd(), 4);
    assert_eq!(Stream::flush(), Ok(()));
    assert_eq!(stream.into_raw_fd(), 4);
}

#[test]
fn pending_error() {
    let query = Stream::of_raw_fd(4).take_error();
    assert_eq!(ERROR_LEN as usize, std::mem::size_of::<libc::c_int>());
    assert_eq!(query.call, SysCall::PendingError { socket: 4, code: 0, len: 4 });
    assert_eq!(query.finish::<Reset>(0, 0), Ok(None));
    assert_eq!(query.finish::<Reset>(0, 110), Ok(Some(Error::SystemError(110))));
    assert_eq!(query.finish::<Reset>(-1, 110), Err(Error::SystemError(104)));
}

#[test]
fn cloned_stream_has_a_descriptor_of_its_own() {
    let stream = Stream::of_raw_fd(4);
    let request = stream.try_clone();
    assert_eq!(request.call, SysCall::Duplicate { socket: 4, cloexec: true });
    let copy = request.finish::<Reset>(13).unwrap();
    assert_eq!(copy.as_raw_fd(), 13);
    assert_eq!(copy.close(), SysCall::Close { socket: 13 });
    assert_eq!(stream.close(), SysCall::Close { socket: 4 });
    assert!(matches!(request.finish::<Reset>(-1), Err(Error::SystemError(104))));
}

#[test]
fn reading_and_writing() {
    let stream = Stream::of_raw_fd(4);
    let read = stream.read(&[0; 64]);
    assert_eq!(read.call, SysCall::Recv { socket: 4, start: 0, end: 64 });
    assert_eq!(read.finish::<Reset>(64), Ok(64));
    assert_eq!(read.finish::<Reset>(0), Ok(0));
    assert_eq!(read.finish::<Reset>(-1), Err(Error::SystemError(104)));
    let write = stream.write(b"hello");
    assert_eq!(write.call, SysCall::Send { socket: 4, start: 0, end: 5, nosignal: true });
    assert_eq!(write.finish::<Reset>(3), Ok(3));
    assert_eq!(write.finish::<Reset>(-1), Err(Error::SystemError(104)));
}

#[test]
fn writing_all_sends_every_byte_once() {
    let data: Vec<u8> = (0..100).collect();
    let mut sent = Vec::new();
    let mut state = Stream::of_raw_fd(4).write_all(&data);
    let mut counts = [7, 0, 60, 1, 32].iter();
    while let Some(call) = state.call() {
        match call {
            SysCall::Send { socket: 4, start, end: 100, nosignal: true } => {
                let count = *counts.next().unwrap();
                sent.extend_from_slice(&data[start..start + count]);
                state = state.reply::<Reset>(count as isize);
            }
            other => panic!("{:?}", other),
        }
    }
    assert_eq!(sent, data);
    assert_eq!(state.finish(), Some(Ok(100)));
}

#[test]
fn reading_all_fills_the_buffer() {
    let mut buf = [0u8; 10];
    let chunks: [&[u8]; 3] = [b"abcd", b"e", b"fghij"];
    let mut state = Stream::of_raw_fd(4).read_all(&buf);
    for chunk in chunks {
        match state.call() {
            Some(SysCall::Recv { socket: 4, start, end: 10 }) => {
                buf[start..start + chunk.len()].copy_from_slice(chunk);
                state = state.reply::<Reset>(chunk.len() as isize);
            }
            other => panic!("{:?}", other),
        }
    }
    assert_eq!(&buf, b"abcdefghij");
    assert_eq!(state.finish(), Some(Ok(10)));
}

#[test]
fn transfers_of_nothing_are_done() {
    assert_eq!(Stream::of_raw_fd(4).write_all(&[]), Transfer::Done(Ok(0)));
    assert_eq!(Stream::of_raw_fd(4).read_all(&[]), Transfer::Done(Ok(0)));
}

#[test]
fn failure_breaks_a_transfer_off() {
    let state = Stream::of_raw_fd(4).write_all(&[1, 2, 3]).reply::<Reset>(2);
    assert_eq!(
        state,
        Transfer::Moving { socket: 4, direction: Direction::Send, moved: 2, len: 3 }
    );
    let state = state.reply::<Reset>(-1);
    assert_eq!(state.call(), None);
    assert_eq!(state.finish(), Some(Err(Error::SystemError(104))));
    assert_eq!(Stream::of_raw_fd(4).read_all(&[0; 3]).finish(), None);
}
