//! The turns by which operations of several steps are carried through: what is asked of the system,
//! and what it answers.

use vstd::prelude::*;

use crate::addr::SockAddrVm;
use crate::error::Error;
use crate::platform::Platform;
use crate::socket::Vsock;
use crate::sys::SysCall;

verus! {

/// A system call that was made, and what it returned.
pub struct Ask {
    pub call: SysCall,
    pub ret: i32,
}

/// One turn of an operation.
pub enum Turn {
    /// The call that was waited for was made.
    Asked(Ask),
    /// Nothing was waited for, and a random port was searched for.
    Searched,
}

/// The system calls of the turns, in their order.
pub open spec fn asked(turns: Seq<Turn>) -> Seq<Ask>
    decreases turns.len(),
{
    if turns.len() == 0 {
        Seq::empty()
    } else {
        match turns.last() {
            Turn::Asked(ask) => asked(turns.drop_last()).push(ask),
            Turn::Searched => asked(turns.drop_last()),
        }
    }
}

/// This is what a system call that returned `ret` comes to: the value, or the error that the
/// platform gives for it.
pub open spec fn reads<P: Platform>(ret: i32, outcome: Result<i32, Error>) -> bool {
    match outcome {
        Ok(value) => ret >= 0 && value == ret,
        Err(error) => ret < 0 && call_ensures(P::last_os_error, (), error),
    }
}

/// The call that opens a virtio stream socket.
pub open spec fn opening() -> SysCall {
    SysCall::StreamSocket { family: 40, cloexec: true, protocol: 0 }
}

/// The kernel's form of a virtio socket address.
pub open spec fn wire(cid: u32, port: u32) -> SockAddrVm {
    SockAddrVm {
        svm_family: 40,
        svm_reserved1: 0,
        svm_port: port,
        svm_cid: cid,
        svm_zero: [0u8, 0u8, 0u8, 0u8],
    }
}

/// This port may be tried where `port` was asked for: no other than that one or, where that is
/// zero, one that a search may come to, which no privilege is needed for. A search fails only for
/// want of entropy.
pub open spec fn picked(port: u32, drawn: Result<u32, Error>) -> bool {
    if port == 0 {
        &&& call_ensures(Vsock::gen_rand_port, (), Some(drawn))
        &&& match drawn {
            Ok(found) => found > 1023,
            Err(error) => error == Error::EntropyError,
        }
    } else {
        drawn == Ok::<u32, Error>(port)
    }
}

pub(crate) proof fn lemma_asked_one_more(turns: Seq<Turn>, turn: Turn)
    ensures
        asked(turns.push(turn)) == (match turn {
            Turn::Asked(ask) => asked(turns).push(ask),
            Turn::Searched => asked(turns),
        }),
{
    assert(turns.push(turn).drop_last() =~= turns);
}

} // verus!
