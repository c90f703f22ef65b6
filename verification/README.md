# vsock

Virtio sockets (`AF_VSOCK`), with the decisions proved in [Verus](https://github.com/verus-lang/verus).

`src/` is the verified library. It makes no system call on a socket. An operation that needs one call
is a request that holds the call and reads its return value; an operation that needs several (making a
listener, binding a socket, connecting, moving a whole buffer) is a state that says which call it waits
for and goes on when it is told what that call returned.

- `addr`: addresses. `error`, `platform`: errors and where they come from. `port`: random ports.
  `time`: timeouts. `sys`: the system calls and the simple requests. `event`: what an operation under
  way is told.
- `listener`, `socket`, `stream`: the handles and the operations of several steps.
- `laws`: what holds of the library as a whole: which random word becomes a port, how often binding is
  tried (a search for a port that fails counts as one try) and whose error is reported, that the making
  of listeners and connections ends and stays with the address and the socket that it began with, which
  descriptor a handle owns, that whole buffers arrive in order, and that a timeout never reads as the
  lack of one. The transfer of a whole buffer ends only if every call moves something: a call that moves
  no byte is made again.

What is trusted and not proved: the random bytes of `getrandom` (`port::random_bytes`) and the error
number of the last failed call (`platform::last_os_code`). Nothing is claimed of the values of either.

`app/` owns descriptors and makes the system calls that the library asks for.
