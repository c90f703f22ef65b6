use vsock::{
    timeval_from_duration, Direction, Error, Interval, Std, SysCall, TimeVal, VsockStream,
};

fn span(secs: u64, nanos: u32) -> Option<Interval> {
    Some(Interval { secs, nanos })
}

fn timeval(tv_sec: i64, tv_usec: i64) -> Result<TimeVal, Error> {
    Ok(TimeVal { tv_sec, tv_usec })
}

#[test]
fn no_timeout_is_all_zeros() {
    assert_eq!(timeval_from_duration(None), timeval(0, 0));
}

#[test]
fn zero_timeout_is_refused() {
    assert_eq!(timeval_from_duration(span(0, 0)), Err(Error::ZeroDurationTimeout));
}

#[test]
fn timeouts_keep_whole_microseconds() {
    assert_eq!(timeval_from_duration(span(1, 0)), timeval(1, 0));
    assert_eq!(timeval_from_duration(span(2, 500_000_000)), timeval(2, 500_000));
    assert_eq!(timeval_from_duration(span(7, 1_999)), timeval(7, 1));
    assert_eq!(timeval_from_duration(span(7, 999)), timeval(7, 0));
    assert_eq!(timeval_from_duration(span(0, 999_999_999)), timeval(0, 999_999));
}

#[test]
fn timeouts_below_a_microsecond_last_one() {
    assert_eq!(timeval_from_duration(span(0, 1)), timeval(0, 1));
    assert_eq!(timeval_from_duration(span(0, 999)), timeval(0, 1));
    assert_eq!(timeval_from_duration(span(0, 1000)), timeval(0, 1));
}

#[test]
fn long_timeouts_saturate() {
    assert_eq!(timeval_from_duration(span(i64::MAX as u64, 0)), timeval(i64::MAX, 0));
    assert_eq!(timeval_from_duration(span(i64::MAX as u64 + 1, 0)), timeval(i64::MAX, 0));
    assert_eq!(timeval_from_duration(span(u64::MAX, 5_000)), timeval(i64::MAX, 5));
}

#[test]
fn longer_timeouts_stay_longer() {
    let spans = [(0, 1), (0, 1500), (0, 2000), (3, 0), (3, 999_999_999), (4, 1)];
    let mut last = (0, 0);
    for (secs, nanos) in spans {
        let timeout = timeval_from_duration(span(secs, nanos)).unwrap();
        assert!(last <= (timeout.tv_sec, timeout.tv_usec));
        last = (timeout.tv_sec, timeout.tv_usec);
    }
}

#[test]
fn read_and_write_timeouts() {
    let stream = VsockStream::<Std>::of_raw_fd(4);
    let timeout = TimeVal { tv_sec: 3, tv_usec: 250_000 };
    let read = stream.set_read_timeout(span(3, 250_000_000)).unwrap();
    assert_eq!(
        read.call,
        SysCall::SetTimeout { socket: 4, direction: Direction::Receive, timeout }
    );
    let write = stream.set_write_timeout(span(3, 250_000_000)).unwrap();
    assert_eq!(write.call, SysCall::SetTimeout { socket: 4, direction: Direction::Send, timeout });
    assert_eq!(stream.set_read_timeout(span(0, 0)), Err(Error::ZeroDurationTimeout));
    assert_eq!(stream.set_write_timeout(span(0, 0)), Err(Error::ZeroDurationTimeout));
    let none = TimeVal { tv_sec: 0, tv_usec: 0 };
    assert_eq!(
        stream.set_write_timeout(None).unwrap().call,
        SysCall::SetTimeout { socket: 4, direction: Direction::Send, timeout: none }
    );
    assert_eq!(read.finish::<Std>(0), Ok(()));
}
