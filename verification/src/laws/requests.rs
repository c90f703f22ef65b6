//! What the operations of one step ask of the system, and what they make of the answer.

use vstd::prelude::*;

use crate::addr::{new_socket_addr, AnyAddr, SockAddr, SockAddrVm};
use crate::error::Error;
use crate::listener::{AcceptCall, Incoming, IncomingCall, VsockListener};
use crate::platform::{check, check_count, Platform, Std};
use crate::socket::Vsock;
use crate::stream::VsockStream;
use crate::sys::{AddrCall, CountCall, ErrorCall, Shutdown, StatusCall, SysCall};
use crate::time::{timeval_from_duration, Interval, TimeVal};

verus! {

/// The timeout is the kernel's form of what was asked for: no timeout is all zeros, one of no length
/// is refused, and any other keeps its whole microseconds, lasts one where it has none, and is cut
/// off only where it has more seconds than the kernel can count.
pub open spec fn carries(dur: Option<Interval>, timeout: Result<TimeVal, Error>) -> bool {
    match dur {
        None => timeout matches Ok(time) && time.tv_sec == 0 && time.tv_usec == 0,
        Some(span) => {
            let nanoseconds = span.secs * 1_000_000_000 + span.nanos;
            if nanoseconds == 0 {
                timeout == Err::<TimeVal, Error>(Error::ZeroDurationTimeout)
            } else {
                &&& timeout matches Ok(time)
                &&& time.tv_sec >= 0 && time.tv_usec >= 0 && time.tv_sec + time.tv_usec > 0
                &&& span.nanos < 1_000_000_000 ==> time.tv_usec < 1_000_000
                &&& if span.secs <= libc::time_t::MAX {
                    &&& time.tv_sec == span.secs
                    &&& time.tv_sec * 1_000_000 + time.tv_usec == (if nanoseconds < 1000 {
                        1
                    } else {
                        nanoseconds / 1000
                    })
                } else {
                    time.tv_sec == libc::time_t::MAX && time.tv_usec == span.nanos / 1000
                }
            }
        },
    }
}

/// The kernel's form of a timeout carries what was asked for.
pub proof fn law_timeval_carries_duration(
    dur: Option<Interval>,
    timeout: Result<TimeVal, Error>,
)
    requires
        call_ensures(timeval_from_duration, (dur,), timeout),
    ensures
        carries(dur, timeout),
{
}

/// The request for a read timeout is about receiving, and that for a write timeout about sending, on
/// the stream's own socket, and the time in it carries what was asked for. Where that is refused,
/// there is no request.
pub proof fn law_timeout_requests_carry_duration<P: Platform>(
    stream: VsockStream<P>,
    dur: Option<Interval>,
    read: Result<StatusCall, Error>,
    write: Result<StatusCall, Error>,
)
    requires
        call_ensures(VsockStream::<P>::set_read_timeout, (&stream, dur), read),
        call_ensures(VsockStream::<P>::set_write_timeout, (&stream, dur), write),
    ensures
        match read {
            Ok(request) => {
                &&& request.call matches SysCall::SetTimeout { socket, direction, timeout }
                &&& socket == stream@ && direction is Receive && carries(dur, Ok(timeout))
            },
            Err(error) => carries(dur, Err(error)),
        },
        match write {
            Ok(request) => {
                &&& request.call matches SysCall::SetTimeout { socket, direction, timeout }
                &&& socket == stream@ && direction is Send && carries(dur, Ok(timeout))
            },
            Err(error) => carries(dur, Err(error)),
        },
{
}

/// An address made of a context identifier and a port is the kernel's form of these, and gives them
/// back.
pub proof fn law_addr_holds_parts(
    cid: u32,
    port: u32,
    fields: SockAddrVm,
    addr: SockAddr,
    addr_cid: u32,
    addr_port: u32,
    addr_fields: SockAddrVm,
)
    requires
        call_ensures(new_socket_addr, (cid, port), fields),
        call_ensures(SockAddr::new, (cid, port), addr),
        call_ensures(SockAddr::cid, (&addr,), addr_cid),
        call_ensures(SockAddr::port, (&addr,), addr_port),
        call_ensures(SockAddr::fields, (&addr,), addr_fields),
    ensures
        fields == crate::laws::turns::wire(cid, port),
        addr_fields == fields && addr@ == fields,
        addr_cid == cid,
        addr_port == port,
{
}

/// An address gives out the parts that it holds, whatever it was made of.
pub proof fn law_addr_gives_parts(addr: SockAddr, cid: u32, port: u32, fields: SockAddrVm)
    requires
        call_ensures(SockAddr::cid, (&addr,), cid),
        call_ensures(SockAddr::port, (&addr,), port),
        call_ensures(SockAddr::fields, (&addr,), fields),
    ensures
        fields == addr@,
        cid == addr@.svm_cid,
        port == addr@.svm_port,
{
}

/// The kernel's form of an address is accepted just where it names the family of virtio sockets,
/// and an address of any family just where it is a virtio socket address; either keeps its fields.
/// Passed on as an address of any family, an address keeps them, too.
pub proof fn law_addr_conversions(
    fields: SockAddrVm,
    any: AnyAddr,
    addr: SockAddr,
    of_fields: Result<SockAddr, ()>,
    of_any: Result<SockAddr, ()>,
    passed_on: AnyAddr,
)
    requires
        call_ensures(<SockAddr as TryFrom<SockAddrVm>>::try_from, (fields,), of_fields),
        call_ensures(<SockAddr as TryFrom<AnyAddr>>::try_from, (any,), of_any),
        call_ensures(<AnyAddr as From<SockAddr>>::from, (addr,), passed_on),
    ensures
        of_fields is Ok <==> fields.svm_family == 40,
        of_fields matches Ok(made) ==> made@ == fields,
        match any {
            AnyAddr::Vsock(given) => of_any matches Ok(made) && made@ == given,
            AnyAddr::Other => of_any is Err,
        },
        passed_on == AnyAddr::Vsock(addr@),
{
    if let Ok(made) = of_fields {
        SockAddr::lemma_fields(made, fields);
    }
    if let AnyAddr::Vsock(given) = any {
        SockAddr::lemma_fields(SockAddr::of(given), given);
    }
}

/// The questions for local addresses ask for that of the socket named, and those for the addresses
/// of peers for that of its peer.
pub proof fn law_addr_questions<P: Platform>(
    fd: i32,
    stream: VsockStream<P>,
    listener: VsockListener<P>,
    vsock: Vsock,
    query: AddrCall,
)
    ensures
        ({
            ||| call_ensures(SockAddr::of_raw_fd, (fd,), query)
            ||| stream@ == fd && call_ensures(VsockStream::<P>::local_addr, (&stream,), query)
            ||| listener@ == fd && call_ensures(
                VsockListener::<P>::local_addr,
                (&listener,),
                query,
            )
            ||| vsock@ == fd && call_ensures(Vsock::addr, (&vsock,), query)
        }) ==> query.call == (SysCall::LocalName {
            socket: fd,
            addr: crate::laws::turns::wire(0, 0),
        }),
        ({
            ||| call_ensures(SockAddr::peer_from_raw_fd, (fd,), query)
            ||| stream@ == fd && call_ensures(VsockStream::<P>::peer_addr, (&stream,), query)
        }) ==> query.call == (SysCall::PeerName {
            socket: fd,
            addr: crate::laws::turns::wire(0, 0),
        }),
{
}

/// A question for an address comes to the address that the call filled in, or to the platform's
/// error where the call failed.
pub proof fn law_addr_answer<P: Platform>(
    query: AddrCall,
    ret: i32,
    addr: SockAddrVm,
    result: Result<SockAddr, Error>,
)
    requires
        call_ensures(AddrCall::finish::<P>, (&query, ret, addr), result),
    ensures
        match result {
            Ok(answer) => ret >= 0 && answer@ == addr,
            Err(error) => ret < 0 && call_ensures(P::last_os_error, (), error),
        },
{
}

/// The question for the pending error of a stream or a listener is about its own socket, and leaves
/// room for the four bytes of an error number.
pub proof fn law_error_questions<P: Platform>(
    stream: VsockStream<P>,
    listener: VsockListener<P>,
    of_stream: ErrorCall,
    of_listener: ErrorCall,
)
    requires
        call_ensures(VsockStream::<P>::take_error, (&stream,), of_stream),
        call_ensures(VsockListener::<P>::take_error, (&listener,), of_listener),
    ensures
        of_stream.call == (SysCall::PendingError { socket: stream@, code: 0, len: 4 }),
        of_listener.call == (SysCall::PendingError { socket: listener@, code: 0, len: 4 }),
{
}

/// A pending error is the one whose number was handed out, and there is none where that is zero.
pub proof fn law_error_answer<P: Platform>(
    query: ErrorCall,
    ret: i32,
    code: i32,
    result: Result<Option<Error>, Error>,
)
    requires
        call_ensures(ErrorCall::finish::<P>, (&query, ret, code), result),
    ensures
        match result {
            Ok(None) => ret >= 0 && code == 0,
            Ok(Some(pending)) => ret >= 0 && code != 0 && pending == Error::SystemError(code),
            Err(error) => ret < 0 && call_ensures(P::last_os_error, (), error),
        },
{
}

/// The requests to change the mode of a socket are about the handle's own: nonblocking mode is
/// turned on by one and off by zero, and the halves of a connection are shut by the codes that the
/// kernel has for them.
pub proof fn law_mode_requests<P: Platform>(
    stream: VsockStream<P>,
    listener: VsockListener<P>,
    nonblocking: bool,
    how: Shutdown,
    of_stream: StatusCall,
    of_listener: StatusCall,
    shutdown: StatusCall,
)
    requires
        call_ensures(VsockStream::<P>::set_nonblocking, (&stream, nonblocking), of_stream),
        call_ensures(VsockListener::<P>::set_nonblocking, (&listener, nonblocking), of_listener),
        call_ensures(VsockStream::<P>::shutdown, (&stream, how), shutdown),
    ensures
        ({
            let value: i32 = if nonblocking {
                1
            } else {
                0
            };
            &&& of_stream.call == (SysCall::SetNonblocking { socket: stream@, value })
            &&& of_listener.call == (SysCall::SetNonblocking { socket: listener@, value })
        }),
        ({
            let code: i32 = match how {
                Shutdown::Read => 0,
                Shutdown::Write => 1,
                Shutdown::Both => 2,
            };
            shutdown.call == (SysCall::Shutdown { socket: stream@, how: code })
        }),
{
}

/// A request that either works or does not works just where the call did, and else gives the
/// platform's error.
pub proof fn law_status_answer<P: Platform>(
    request: StatusCall,
    ret: i32,
    result: Result<(), Error>,
)
    requires
        call_ensures(StatusCall::finish::<P>, (&request, ret), result),
    ensures
        match result {
            Ok(()) => ret >= 0,
            Err(error) => ret < 0 && call_ensures(P::last_os_error, (), error),
        },
{
}

/// To read is to receive into all of the buffer, and to write is to send all of it, with no signal,
/// on the stream's own socket. There is nothing to flush.
pub proof fn law_read_and_write_requests<P: Platform>(
    stream: VsockStream<P>,
    buf: &[u8],
    read: CountCall,
    write: CountCall,
    flushed: Result<(), Error>,
)
    requires
        buf@.len() <= usize::MAX,
        call_ensures(VsockStream::<P>::read, (&stream, buf), read),
        call_ensures(VsockStream::<P>::write, (&stream, buf), write),
        call_ensures(VsockStream::<P>::flush, (), flushed),
    ensures
        read.call matches SysCall::Recv { socket, start, end } && socket == stream@ && start == 0
            && end == buf@.len(),
        write.call matches SysCall::Send { socket, start, end, nosignal } && socket == stream@
            && start == 0 && end == buf@.len() && nosignal,
        flushed is Ok,
{
}

/// Reading or writing comes to the number of bytes that the call moved, or to the platform's error
/// where it failed.
pub proof fn law_count_answer<P: Platform>(
    request: CountCall,
    ret: isize,
    result: Result<usize, Error>,
)
    requires
        call_ensures(CountCall::finish::<P>, (&request, ret), result),
    ensures
        match result {
            Ok(count) => ret >= 0 && count == ret,
            Err(error) => ret < 0 && call_ensures(P::last_os_error, (), error),
        },
{
}

/// A connection is accepted on the listener's own socket, and is inherited by no new program. The
/// connections being received are asked for one by one, each just as one that is accepted.
pub proof fn law_accept_requests<P: Platform>(
    listener: VsockListener<P>,
    request: AcceptCall,
    connections: Incoming<'_, P>,
    next: IncomingCall,
)
    requires
        call_ensures(VsockListener::<P>::accept, (&listener,), request),
        call_ensures(VsockListener::<P>::incoming, (&listener,), connections),
        call_ensures(Incoming::<P>::next, (&connections,), next),
    ensures
        request.call == (SysCall::Accept {
            socket: listener@,
            addr: crate::laws::turns::wire(0, 0),
            cloexec: true,
        }),
        next.accept.call == request.call,
{
}

/// An accepted connection is the stream with the descriptor that the call returned, together with
/// the address that it filled in. Where it failed, the platform's error comes back; of the
/// connections being received there is a next one all the same.
pub proof fn law_accept_answers<P: Platform>(
    request: AcceptCall,
    next: IncomingCall,
    ret: i32,
    addr: SockAddrVm,
    accepted: Result<(VsockStream<P>, SockAddr), Error>,
    item: Option<Result<VsockStream<P>, Error>>,
)
    requires
        call_ensures(AcceptCall::finish::<P>, (&request, ret, addr), accepted),
        call_ensures(IncomingCall::finish::<P>, (&next, ret, addr), item),
    ensures
        match accepted {
            Ok((stream, peer)) => ret >= 0 && stream@ == ret && peer@ == addr,
            Err(error) => ret < 0 && call_ensures(P::last_os_error, (), error),
        },
        match item {
            Some(Ok(stream)) => ret >= 0 && stream@ == ret,
            Some(Err(error)) => ret < 0 && call_ensures(P::last_os_error, (), error),
            None => false,
        },
{
}

/// The return value of a system call that worked is its own value, and that of one that failed
/// stands for the platform's error.
pub proof fn law_return_values<P: Platform>(
    ret: i32,
    count: isize,
    outcome: Result<i32, Error>,
    moved: Result<usize, Error>,
)
    requires
        call_ensures(check::<P>, (ret,), outcome),
        call_ensures(check_count::<P>, (count,), moved),
    ensures
        match outcome {
            Ok(value) => ret >= 0 && value == ret,
            Err(error) => ret < 0 && call_ensures(P::last_os_error, (), error),
        },
        match moved {
            Ok(value) => count >= 0 && value == count,
            Err(error) => count < 0 && call_ensures(P::last_os_error, (), error),
        },
{
}

/// The error of the standard platform is that of the operating system, by a number that the latter
/// may hand out.
pub proof fn law_platform_error(error: Error)
    requires
        call_ensures(<Std as Platform>::last_os_error, (), error),
    ensures
        error matches Error::SystemError(code) && Std::hands_out(code),
{
}

} // verus!
