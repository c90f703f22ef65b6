//! What holds of handles and the descriptors that they own.

use vstd::prelude::*;

use crate::error::Error;
use crate::listener::{CloneListenerCall, VsockListener};
use crate::platform::Platform;
use crate::socket::{SocketBind, Vsock};
use crate::stream::{CloneStreamCall, VsockStream};
use crate::sys::SysCall;

verus! {

/// A stream made from a descriptor hands back that descriptor, and names it in the request that ends
/// its life.
pub proof fn law_stream_keeps_descriptor<P: Platform>(
    fd: i32,
    stream: VsockStream<P>,
    given: i32,
    ending: SysCall,
)
    requires
        call_ensures(VsockStream::<P>::of_raw_fd, (fd,), stream),
        call_ensures(VsockStream::<P>::into_raw_fd, (stream,), given),
        call_ensures(VsockStream::<P>::close, (&stream,), ending),
    ensures
        given == fd,
        ending == (SysCall::Close { socket: fd }),
{
}

/// A second handle to a stream owns the descriptor that the duplication returned: where that is a new
/// one, the request that ends the life of either handle leaves the other's descriptor alone.
pub proof fn law_cloned_stream_is_owned_independently<P: Platform>(
    stream: VsockStream<P>,
    request: CloneStreamCall,
    ret: i32,
    result: Result<VsockStream<P>, Error>,
)
    requires
        call_ensures(VsockStream::<P>::try_clone, (&stream,), request),
        call_ensures(CloneStreamCall::finish::<P>, (&request, ret), result),
        ret >= 0,
        ret != stream@,
    ensures
        request.call == (SysCall::Duplicate { socket: stream@, cloexec: true }),
        result matches Ok(copy) && copy@ == ret,
        forall|ending: SysCall, copy_ending: SysCall|
            (#[trigger] call_ensures(VsockStream::<P>::close, (&stream,), ending) && #[trigger] call_ensures(
                VsockStream::<P>::close,
                (&result->Ok_0,),
                copy_ending,
            )) ==> ending == (SysCall::Close { socket: stream@ }) && copy_ending == (SysCall::Close {
                socket: ret,
            }) && ending != copy_ending,
{
}

/// A listener made from a descriptor hands back that descriptor, and names it in the request that ends
/// its life.
pub proof fn law_listener_keeps_descriptor<P: Platform>(
    fd: i32,
    listener: VsockListener<P>,
    given: i32,
    ending: SysCall,
)
    requires
        call_ensures(VsockListener::<P>::of_raw_fd, (fd,), listener),
        call_ensures(VsockListener::<P>::into_raw_fd, (listener,), given),
        call_ensures(VsockListener::<P>::close, (&listener,), ending),
    ensures
        given == fd,
        ending == (SysCall::Close { socket: fd }),
{
}

/// A second handle to a listener owns the descriptor that the duplication returned: where that is a new
/// one, the request that ends the life of either handle leaves the other's descriptor alone.
pub proof fn law_cloned_listener_is_owned_independently<P: Platform>(
    listener: VsockListener<P>,
    request: CloneListenerCall,
    ret: i32,
    result: Result<VsockListener<P>, Error>,
)
    requires
        call_ensures(VsockListener::<P>::try_clone, (&listener,), request),
        call_ensures(CloneListenerCall::finish::<P>, (&request, ret), result),
        ret >= 0,
        ret != listener@,
    ensures
        request.call == (SysCall::Duplicate { socket: listener@, cloexec: true }),
        result matches Ok(copy) && copy@ == ret,
        forall|ending: SysCall, copy_ending: SysCall|
            (#[trigger] call_ensures(VsockListener::<P>::close, (&listener,), ending) && #[trigger] call_ensures(
                VsockListener::<P>::close,
                (&result->Ok_0,),
                copy_ending,
            )) ==> ending == (SysCall::Close { socket: listener@ }) && copy_ending == (SysCall::Close {
                socket: ret,
            }) && ending != copy_ending,
{
}

/// A stream and its copy name the same descriptor, however they are asked for it.
pub proof fn law_stream_names_descriptor<P: Platform>(
    stream: VsockStream<P>,
    copy: VsockStream<P>,
    fd: i32,
    copied: i32,
    given: i32,
)
    requires
        call_ensures(<VsockStream<P> as Clone>::clone, (&stream,), copy),
        call_ensures(VsockStream::<P>::as_raw_fd, (&stream,), fd),
        call_ensures(VsockStream::<P>::as_raw_fd, (&copy,), copied),
        call_ensures(VsockStream::<P>::into_raw_fd, (stream,), given),
    ensures
        fd == stream@ && given == fd && copied == fd,
{
}

/// The request for a second handle to a stream duplicates its own descriptor, inherited by no new
/// program, and comes to the handle with the descriptor that the call returned, or to the
/// platform's error where it failed.
pub proof fn law_stream_clone_answer<P: Platform>(
    stream: VsockStream<P>,
    request: CloneStreamCall,
    ret: i32,
    result: Result<VsockStream<P>, Error>,
)
    requires
        call_ensures(VsockStream::<P>::try_clone, (&stream,), request),
        call_ensures(CloneStreamCall::finish::<P>, (&request, ret), result),
    ensures
        request.call == (SysCall::Duplicate { socket: stream@, cloexec: true }),
        match result {
            Ok(copy) => ret >= 0 && copy@ == ret,
            Err(error) => ret < 0 && call_ensures(P::last_os_error, (), error),
        },
{
}

/// A listener and its copy name the same descriptor, however they are asked for it.
pub proof fn law_listener_names_descriptor<P: Platform>(
    listener: VsockListener<P>,
    copy: VsockListener<P>,
    fd: i32,
    copied: i32,
    given: i32,
)
    requires
        call_ensures(<VsockListener<P> as Clone>::clone, (&listener,), copy),
        call_ensures(VsockListener::<P>::as_raw_fd, (&listener,), fd),
        call_ensures(VsockListener::<P>::as_raw_fd, (&copy,), copied),
        call_ensures(VsockListener::<P>::into_raw_fd, (listener,), given),
    ensures
        fd == listener@ && given == fd && copied == fd,
{
}

/// The request for a second handle to a listener duplicates its own descriptor, inherited by no new
/// program, and comes to the handle with the descriptor that the call returned, or to the
/// platform's error where it failed.
pub proof fn law_listener_clone_answer<P: Platform>(
    listener: VsockListener<P>,
    request: CloneListenerCall,
    ret: i32,
    result: Result<VsockListener<P>, Error>,
)
    requires
        call_ensures(VsockListener::<P>::try_clone, (&listener,), request),
        call_ensures(CloneListenerCall::finish::<P>, (&request, ret), result),
    ensures
        request.call == (SysCall::Duplicate { socket: listener@, cloexec: true }),
        match result {
            Ok(copy) => ret >= 0 && copy@ == ret,
            Err(error) => ret < 0 && call_ensures(P::last_os_error, (), error),
        },
{
}

/// A bound socket names the descriptor that it was made with.
pub proof fn law_socket_names_descriptor(
    socket: i32,
    outcome: Option<Result<Vsock, Error>>,
    fd: i32,
)
    requires
        call_ensures(SocketBind::finish, (SocketBind::Done(Ok(socket)),), outcome),
        outcome matches Some(Ok(vsock)) ==> call_ensures(Vsock::as_raw_fd, (&vsock,), fd),
    ensures
        outcome matches Some(Ok(vsock)) && vsock@ == socket && fd == socket,
{
}

} // verus!
